//! Screenshot routing: size parsing for the capturing device, pattern
//! matching on recognised text, crop geometry and the worker's decisions.

pub mod crop;
pub mod device;
pub mod matching;
pub mod ocr;
pub mod worker;
