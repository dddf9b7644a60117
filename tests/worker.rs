use ocrs::{OcrEngine, OcrEngineParams};
use profile_scan::matching::PatternSet;
use profile_scan::ocr::Ocr;
use profile_scan::worker::{Action, Event, Worker};

fn worker_for(patterns: &[&str]) -> Worker {
    let v: Vec<String> = patterns.iter().map(|p| p.to_string()).collect();
    let engine = OcrEngine::new(OcrEngineParams::default()).unwrap();
    Worker::new(Ocr::new(engine, PatternSet::new(&v).unwrap()))
}

#[test]
fn match_leads_to_crop_and_back_to_receive() {
    let mut w = worker_for(&["Alice"]);
    assert_eq!(w.pending_action(), Action::Receive);
    assert_eq!(w.step(Event::Received("a.png".to_string())), Action::ExtractText("a.png".to_string()));
    assert_eq!(w.step(Event::TextExtracted("I'm Alice".to_string())), Action::Crop("a.png".to_string()));
    assert_eq!(w.step(Event::Done), Action::Receive);
}

#[test]
fn no_match_leads_to_delete() {
    let mut w = worker_for(&["Alice"]);
    w.step(Event::Received("b.png".to_string()));
    assert_eq!(w.step(Event::TextExtracted("I'm Bob".to_string())), Action::Delete("b.png".to_string()));
    assert_eq!(w.step(Event::Failed), Action::Receive);
}

#[test]
fn failed_extraction_deletes_image() {
    let mut w = worker_for(&["Alice"]);
    w.step(Event::Received("c.png".to_string()));
    assert_eq!(w.step(Event::ExtractionFailed), Action::Delete("c.png".to_string()));
    assert_eq!(w.step(Event::Done), Action::Receive);
}

#[test]
fn images_are_handled_in_order_sent() {
    let mut w = worker_for(&["keep"]);
    let mut handled: Vec<Action> = Vec::new();
    for (name, text) in [("a", "keep"), ("b", "drop"), ("c", "keep")] {
        w.step(Event::Received(name.to_string()));
        let a = w.step(Event::TextExtracted(text.to_string()));
        handled.push(a);
        assert_eq!(w.step(Event::Done), Action::Receive);
    }
    assert_eq!(
        handled,
        vec![
            Action::Crop("a".to_string()),
            Action::Delete("b".to_string()),
            Action::Crop("c".to_string()),
        ]
    );
}

#[test]
fn closing_stops_after_current_image() {
    let mut w = worker_for(&[]);
    w.step(Event::Received("d.png".to_string()));
    assert_eq!(w.step(Event::Closed), Action::ExtractText("d.png".to_string()));
    assert!(!w.is_stopped());
    assert_eq!(w.step(Event::TextExtracted("Alice".to_string())), Action::Delete("d.png".to_string()));
    assert_eq!(w.step(Event::Done), Action::Receive);
    assert_eq!(w.step(Event::Closed), Action::Stop);
    assert!(w.is_stopped());
    assert_eq!(w.step(Event::Received("e.png".to_string())), Action::Stop);
    assert!(w.is_stopped());
}

#[test]
fn unexpected_event_repeats_pending_action() {
    let mut w = worker_for(&["x"]);
    assert_eq!(w.step(Event::Done), Action::Receive);
    w.step(Event::Received("f.png".to_string()));
    assert_eq!(w.step(Event::Received("g.png".to_string())), Action::ExtractText("f.png".to_string()));
}
