use vstd::prelude::*;

use crate::matching::PatternSet;
use crate::worker::{route, route_spec, Route};

verus! {

#[verifier::external_type_specification]
#[verifier::external_body]
pub struct ExOcrEngine(ocrs::OcrEngine);

#[verifier::external_type_specification]
#[verifier::external_body]
pub struct ExOcrInput(ocrs::OcrInput);

#[verifier::external_type_specification]
#[verifier::external_body]
pub struct ExImageSource<'a>(ocrs::ImageSource<'a>);

#[verifier::external_type_specification]
#[verifier::external_body]
pub struct ExImageSourceError(ocrs::ImageSourceError);

/// Why no text could be read from an image.
#[derive(Debug, Clone, Copy, PartialEq, Eq)]
pub enum TextError {
    /// The pixel buffer does not describe a greyscale, RGB or RGBA image of
    /// the given size.
    InvalidImage,
    /// Detection or recognition failed inside the engine.
    Inference,
}

/// Whether `len` bytes hold a `width` x `height` image with one, three or
/// four channels per pixel.
pub open spec fn image_layout_ok(len: nat, width: u32, height: u32) -> bool {
    let n = width as nat * height as nat;
    &&& n > 0
    &&& len % n == 0
    &&& (len / n == 1 || len / n == 3 || len / n == 4)
}

/// Relies on `ocrs::ImageSource::from_bytes`: it accepts a buffer whose
/// length is one, three or four bytes per pixel. The pixel count must fit in
/// 32 bits, else the function overflows.
#[verifier::external_body]
fn image_source<'a>(bytes: &'a [u8], width: u32, height: u32) -> (r: Result<
    ocrs::ImageSource<'a>,
    ocrs::ImageSourceError,
>)
    requires
        width as nat * height as nat <= u32::MAX,
    ensures
        r is Ok == image_layout_ok(bytes@.len(), width, height),
{
    ocrs::ImageSource::from_bytes(bytes, (width, height))
}

/// Relies on `ocrs::OcrEngine::prepare_input`: normalises the pixels for the
/// detection model.
#[verifier::external_body]
fn prepare_input(engine: &ocrs::OcrEngine, source: ocrs::ImageSource) -> (r: Result<
    ocrs::OcrInput,
    TextError,
>) {
    match engine.prepare_input(source) {
        Ok(input) => Ok(input),
        Err(_) => Err(TextError::Inference),
    }
}

/// Relies on `ocrs::OcrEngine::get_text`: detects the text lines of the
/// prepared image and recognises them into one string.
#[verifier::external_body]
fn get_text(engine: &ocrs::OcrEngine, input: &ocrs::OcrInput) -> (r: Result<String, TextError>) {
    match engine.get_text(input) {
        Ok(text) => Ok(text),
        Err(_) => Err(TextError::Inference),
    }
}

/// The text recognition engine together with the patterns that decide
/// which images are kept.
pub struct Ocr {
    engine: ocrs::OcrEngine,
    regex_set: PatternSet,
}

impl Ocr {
    /// The patterns of this engine.
    pub closed spec fn spec_patterns(&self) -> Seq<Seq<char>> {
        self.regex_set@
    }

    /// Puts a loaded engine and compiled patterns together.
    pub fn new(engine: ocrs::OcrEngine, regex_set: PatternSet) -> (r: Ocr)
        ensures
            r.spec_patterns() == regex_set@,
    {
        Ocr { engine, regex_set }
    }

    /// Reads the text of a decoded image, given as `width` x `height`
    /// pixels of one, three or four bytes each, row by row.
    ///
    /// A buffer that does not have that layout, or whose pixel count does not
    /// fit in 32 bits, is refused before the engine runs; any other failure
    /// comes from the engine.
    pub fn process_image(&self, pixels: &Vec<u8>, width: u32, height: u32) -> (r: Result<
        String,
        TextError,
    >)
        ensures
            (r == Err::<String, TextError>(TextError::InvalidImage)) <==> (width as nat
                * height as nat > u32::MAX || !image_layout_ok(pixels@.len(), width, height)),
    {
        proof {
            assert(width as nat * height as nat <= 0xffff_ffff * 0xffff_ffff) by (nonlinear_arith)
                requires
                    width <= 0xffff_ffff,
                    height <= 0xffff_ffff,
            ;
        }
        let count: u64 = width as u64 * height as u64;
        if count > 0xffff_ffff {
            return Err(TextError::InvalidImage);
        }
        let source = match image_source(pixels.as_slice(), width, height) {
            Ok(s) => s,
            Err(_) => {
                return Err(TextError::InvalidImage);
            },
        };
        let input = match prepare_input(&self.engine, source) {
            Ok(i) => i,
            Err(_) => {
                return Err(TextError::Inference);
            },
        };
        match get_text(&self.engine, &input) {
            Ok(text) => Ok(text),
            Err(_) => Err(TextError::Inference),
        }
    }

    /// The route of an image whose recognised text is `text`.
    pub fn route(&self, text: &str) -> (r: Route)
        ensures
            r == route_spec(self.spec_patterns(), text@),
    {
        route(&self.regex_set, text)
    }
}

} // verus!
