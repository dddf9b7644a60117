use vstd::prelude::*;

verus! {

#[verifier::external_type_specification]
#[verifier::external_body]
pub struct ExRegex(regex::Regex);

#[verifier::external_type_specification]
#[verifier::external_body]
pub struct ExRegexSet(regex::RegexSet);

#[verifier::external_type_specification]
#[verifier::external_body]
pub struct ExRegexError(regex::Error);

/// Whether the regex engine accepts `pattern` as one expression.
pub uninterp spec fn regex_compiles(pattern: Seq<char>) -> bool;

/// Whether the regex engine accepts `patterns` as one combined set.
pub uninterp spec fn regex_set_compiles(patterns: Seq<Seq<char>>) -> bool;

/// Whether the regular expression `pattern` matches somewhere in `text`.
pub uninterp spec fn regex_matches(pattern: Seq<char>, text: Seq<char>) -> bool;

/// The successive leftmost-first, non-overlapping matches of `pattern` in `text`.
pub uninterp spec fn regex_find_all(pattern: Seq<char>, text: Seq<char>) -> Seq<Seq<char>>;

/// Why a pattern could not be compiled.
#[derive(Debug, Clone, Copy, PartialEq, Eq)]
pub enum PatternError {
    /// A pattern is not a valid regular expression, or compiles too large.
    Invalid,
}

/// One compiled regular expression, kept with its source text.
pub struct Matcher {
    source: String,
    re: regex::Regex,
}

/// Relies on `regex::Regex::new`: it succeeds on the patterns the engine
/// accepts, and the expression is compiled from exactly `pattern`.
#[verifier::external_body]
fn compile_regex(pattern: &str) -> (r: Result<Matcher, regex::Error>)
    ensures
        r is Ok == regex_compiles(pattern@),
        r matches Ok(m) ==> m.source@ == pattern@,
{
    match regex::Regex::new(pattern) {
        Ok(re) => Ok(Matcher { source: pattern.to_string(), re }),
        Err(e) => Err(e),
    }
}

/// Relies on `regex::Regex::find_iter`: the text of each successive match.
#[verifier::external_body]
fn find_iter_texts(m: &Matcher, text: &str) -> (r: Vec<String>)
    ensures
        r@.map_values(|s: String| s@) == regex_find_all(m.source@, text@),
{
    m.re.find_iter(text).map(|x| x.as_str().to_string()).collect()
}

impl Matcher {
    /// The expression this matcher was compiled from.
    pub closed spec fn spec_source(&self) -> Seq<char> {
        self.source@
    }

    /// Compiles `pattern`; fails when the regex engine refuses it.
    pub fn new(pattern: &str) -> (r: Result<Matcher, PatternError>)
        ensures
            r is Ok == regex_compiles(pattern@),
            r matches Ok(m) ==> m.spec_source() == pattern@,
            r matches Err(e) ==> e == PatternError::Invalid,
    {
        match compile_regex(pattern) {
            Ok(m) => Ok(m),
            Err(_) => Err(PatternError::Invalid),
        }
    }

    /// The text of every match in `text`, in order.
    pub fn find_all(&self, text: &str) -> (r: Vec<String>)
        ensures
            r@.map_values(|s: String| s@) == regex_find_all(self.spec_source(), text@),
    {
        find_iter_texts(self, text)
    }
}

/// Whether at least one of `patterns` matches `text`.
pub open spec fn any_matches(patterns: Seq<Seq<char>>, text: Seq<char>) -> bool {
    exists|i: int| 0 <= i < patterns.len() && regex_matches(#[trigger] patterns[i], text)
}

/// An ordered set of patterns compiled into one combined matcher.
pub struct PatternSet {
    patterns: Vec<String>,
    set: regex::RegexSet,
}

/// Relies on `regex::RegexSet::new`: it succeeds on the pattern sets the
/// engine accepts, and the set is compiled from exactly `patterns`, in order.
#[verifier::external_body]
fn compile_set(patterns: &Vec<String>) -> (r: Result<PatternSet, regex::Error>)
    ensures
        r is Ok == regex_set_compiles(patterns@.map_values(|p: String| p@)),
        r matches Ok(s) ==> s.patterns@.map_values(|p: String| p@) == patterns@.map_values(
            |p: String| p@,
        ),
{
    match regex::RegexSet::new(patterns.iter()) {
        Ok(set) => Ok(PatternSet { patterns: patterns.clone(), set }),
        Err(e) => Err(e),
    }
}

/// Relies on `regex::RegexSet::is_match`: true if and only if one of the
/// set's expressions matches `text`.
#[verifier::external_body]
fn set_is_match(s: &PatternSet, text: &str) -> (r: bool)
    ensures
        r == (exists|i: int|
            0 <= i < s.patterns@.len() && regex_matches(#[trigger] s.patterns@[i]@, text@)),
{
    s.set.is_match(text)
}

impl View for PatternSet {
    type V = Seq<Seq<char>>;

    closed spec fn view(&self) -> Seq<Seq<char>> {
        self.patterns@.map_values(|p: String| p@)
    }
}

impl PatternSet {
    /// Compiles `patterns` into one combined matcher. Fails when the regex
    /// engine refuses any of them.
    pub fn new(patterns: &Vec<String>) -> (r: Result<PatternSet, PatternError>)
        ensures
            r is Ok == regex_set_compiles(patterns@.map_values(|p: String| p@)),
            r matches Ok(s) ==> s@ == patterns@.map_values(|p: String| p@),
            r matches Err(e) ==> e == PatternError::Invalid,
    {
        match compile_set(patterns) {
            Ok(s) => Ok(s),
            Err(_) => Err(PatternError::Invalid),
        }
    }

    /// Number of patterns in the set.
    pub fn len(&self) -> (r: usize)
        ensures
            r == self@.len(),
    {
        self.patterns.len()
    }

    /// Whether any pattern of the set matches `text`.
    pub fn is_match(&self, text: &str) -> (r: bool)
        ensures
            r == any_matches(self@, text@),
    {
        let r = set_is_match(self, text);
        proof {
            let pats = self@;
            if r {
                let i = choose|i: int|
                    0 <= i < self.patterns@.len() && regex_matches(
                        #[trigger] self.patterns@[i]@,
                        text@,
                    );
                assert(pats[i] == self.patterns@[i]@);
            } else {
                assert forall|i: int| 0 <= i < pats.len() implies !regex_matches(
                    #[trigger] pats[i],
                    text@,
                ) by {
                    assert(pats[i] == self.patterns@[i]@);
                }
            }
        }
        r
    }
}

} // verus!
