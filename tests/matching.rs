use profile_scan::matching::{Matcher, PatternError, PatternSet};
use profile_scan::worker::{route, Route};

fn set_of(patterns: &[&str]) -> PatternSet {
    let v: Vec<String> = patterns.iter().map(|p| p.to_string()).collect();
    PatternSet::new(&v).unwrap()
}

#[test]
fn matching_name_is_cropped() {
    let set = set_of(&["Alice"]);
    assert_eq!(route(&set, "Hi, I'm Alice, 29"), Route::Crop);
}

#[test]
fn other_name_is_deleted() {
    let set = set_of(&["Alice"]);
    assert_eq!(route(&set, "Hi, I'm Bob"), Route::Delete);
}

#[test]
fn any_pattern_of_the_set_suffices() {
    let set = set_of(&["Alice", "Bo+b"]);
    assert_eq!(set.len(), 2);
    assert!(set.is_match("this is Booob"));
    assert!(!set.is_match("this is Carol"));
}

#[test]
fn empty_pattern_set_deletes_everything() {
    let set = set_of(&[]);
    assert_eq!(set.len(), 0);
    assert_eq!(route(&set, ""), Route::Delete);
    assert_eq!(route(&set, "Alice"), Route::Delete);
}

#[test]
fn invalid_pattern_is_refused() {
    let v = vec!["Alice".to_string(), "(unclosed".to_string()];
    assert!(matches!(PatternSet::new(&v), Err(PatternError::Invalid)));
    assert!(matches!(Matcher::new("[z-a]"), Err(PatternError::Invalid)));
}

#[test]
fn matcher_finds_every_number() {
    let m = Matcher::new("\\d+").unwrap();
    assert_eq!(m.find_all("a12b3"), vec!["12".to_string(), "3".to_string()]);
    assert!(m.find_all("none").is_empty());
}
