use ocrs::{OcrEngine, OcrEngineParams};
use profile_scan::matching::PatternSet;
use profile_scan::ocr::{Ocr, TextError};
use profile_scan::worker::Route;

fn ocr_for(patterns: &[&str]) -> Ocr {
    let v: Vec<String> = patterns.iter().map(|p| p.to_string()).collect();
    let engine = OcrEngine::new(OcrEngineParams::default()).unwrap();
    Ocr::new(engine, PatternSet::new(&v).unwrap())
}

#[test]
fn empty_image_is_refused() {
    let ocr = ocr_for(&["Alice"]);
    assert_eq!(ocr.process_image(&vec![], 0, 0), Err(TextError::InvalidImage));
    assert_eq!(ocr.process_image(&vec![0u8; 3], 0, 1), Err(TextError::InvalidImage));
}

#[test]
fn wrong_buffer_length_is_refused() {
    let ocr = ocr_for(&["Alice"]);
    assert_eq!(ocr.process_image(&vec![0u8; 7], 2, 1), Err(TextError::InvalidImage));
    assert_eq!(ocr.process_image(&vec![0u8; 4], 2, 1), Err(TextError::InvalidImage));
}

#[test]
fn oversized_pixel_count_is_refused() {
    let ocr = ocr_for(&["Alice"]);
    assert_eq!(ocr.process_image(&vec![0u8; 3], 65536, 65536), Err(TextError::InvalidImage));
}

#[test]
fn engine_without_models_fails_inference() {
    let ocr = ocr_for(&["Alice"]);
    assert_eq!(ocr.process_image(&vec![0u8; 12], 2, 2), Err(TextError::Inference));
    assert_eq!(ocr.process_image(&vec![0u8; 4], 2, 2), Err(TextError::Inference));
}

#[test]
fn ocr_routes_by_its_patterns() {
    let ocr = ocr_for(&["Alice"]);
    assert_eq!(ocr.route("Hi, I'm Alice, 29"), Route::Crop);
    assert_eq!(ocr.route("Hi, I'm Bob"), Route::Delete);
}
