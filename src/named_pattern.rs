use vstd::prelude::*;

verus! {

#[verifier::external_type_specification]
#[verifier::external_body]
pub struct ExRegex(regex::Regex);

#[verifier::external_type_specification]
#[verifier::external_body]
pub struct ExRegexError(regex::Error);

/// Whether `pattern` is accepted by the regex compiler.
pub uninterp spec fn regex_compiles(pattern: Seq<char>) -> bool;

/// Whether the compiled `pattern` matches somewhere in `text`.
pub uninterp spec fn regex_is_match(pattern: Seq<char>, text: Seq<char>) -> bool;

/// The text taken by the group called `group` in the first match of `pattern` in `text`,
/// if there is a match and the group took part in it.
pub uninterp spec fn regex_named_capture(
    pattern: Seq<char>,
    group: Seq<char>,
    text: Seq<char>,
) -> Option<Seq<char>>;

/// The names of the capture groups of `pattern`, in order, with `None` for an unnamed group.
pub uninterp spec fn regex_capture_names(pattern: Seq<char>) -> Seq<Option<Seq<char>>>;

/// The text held by an optional string.
pub open spec fn opt_text(o: Option<String>) -> Option<Seq<char>> {
    match o {
        Some(s) => Some(s@),
        None => None,
    }
}

/// Whether `pattern` compiles and has a capture group called `group`.
pub open spec fn pattern_usable(pattern: Seq<char>, group: Seq<char>) -> bool {
    regex_compiles(pattern) && regex_capture_names(pattern).contains(Some(group))
}

/// A compiled regular expression together with the text it was compiled from.
pub struct Matcher {
    source: String,
    regex: regex::Regex,
}

impl Matcher {
    pub closed spec fn view(&self) -> Seq<char> {
        self.source@
    }
}

/// Relies on regex::Regex::new: compilation succeeds or fails depending on the pattern alone.
#[verifier::external_body]
pub(crate) fn compile(pattern: &str) -> (r: Result<Matcher, regex::Error>)
    ensures
        r is Ok <==> regex_compiles(pattern@),
        r is Ok ==> r->Ok_0@ == pattern@,
{
    regex::Regex::new(pattern).map(|regex| Matcher { source: pattern.to_string(), regex })
}

/// Relies on regex::Regex::is_match: whether the regex matches anywhere in the haystack.
#[verifier::external_body]
pub(crate) fn is_match(m: &Matcher, text: &str) -> (r: bool)
    ensures
        r == regex_is_match(m@, text@),
{
    m.regex.is_match(text)
}

/// Relies on regex::Regex::captures and Captures::name: the text of a named group in
/// the first match.
#[verifier::external_body]
pub(crate) fn named_capture(m: &Matcher, group: &str, text: &str) -> (r: Option<String>)
    ensures
        match r {
            Some(s) => regex_named_capture(m@, group@, text@) == Some(s@),
            None => regex_named_capture(m@, group@, text@) is None,
        },
{
    m.regex.captures(text).and_then(|c| c.name(group)).map(|g| g.as_str().to_string())
}

/// Relies on regex::Regex::capture_names: the names of the capture groups, in order.
#[verifier::external_body]
pub(crate) fn capture_names(m: &Matcher) -> (r: Vec<Option<String>>)
    ensures
        r@.map_values(|o: Option<String>| opt_text(o)) == regex_capture_names(m@),
{
    m.regex.capture_names().map(|n| n.map(|x| x.to_string())).collect()
}

fn contains_group(names: &Vec<Option<String>>, group: &str) -> (r: bool)
    ensures
        r == names@.map_values(|o: Option<String>| opt_text(o)).contains(Some(group@)),
{
    let ghost texts = names@.map_values(|o: Option<String>| opt_text(o));
    let wanted = group.to_owned();
    let mut i: usize = 0;
    while i < names.len()
        invariant
            0 <= i <= names@.len(),
            texts == names@.map_values(|o: Option<String>| opt_text(o)),
            wanted@ == group@,
            forall|j: int| 0 <= j < i ==> texts[j] != Some(group@),
        decreases names@.len() - i,
    {
        match &names[i] {
            Some(n) => {
                if n.eq(&wanted) {
                    assert(texts[i as int] == Some(group@));
                    return true;
                }
            },
            None => {},
        }
        i = i + 1;
    }
    false
}

/// What a pattern compiled from `pattern` captures under `group` on `text`;
/// a pattern that does not compile, or has no such group, captures nothing.
pub open spec fn capture_of(pattern: Seq<char>, group: Seq<char>, text: Seq<char>) -> Option<
    Seq<char>,
> {
    if pattern_usable(pattern, group) {
        regex_named_capture(pattern, group, text)
    } else {
        None
    }
}

/// Whether a pattern compiled from `pattern` matches `text`; a pattern that does not
/// compile matches nothing.
pub open spec fn pattern_matches(pattern: Seq<char>, text: Seq<char>) -> bool {
    regex_compiles(pattern) && regex_is_match(pattern, text)
}

/// Why a pattern could not be built.
#[derive(Debug, Clone, Copy, PartialEq, Eq, Structural)]
pub enum PatternError {
    InvalidRegex,
    MissingCaptureGroup,
}

/// A regular expression whose capture group of a given name carries the interesting text.
pub struct NamedPattern {
    matcher: Matcher,
    capture_name: String,
}

impl NamedPattern {
    pub closed spec fn pattern(&self) -> Seq<char> {
        self.matcher@
    }

    pub closed spec fn capture_name(&self) -> Seq<char> {
        self.capture_name@
    }

    /// Compiles `pattern`, which must have a capture group called `capture_name`.
    pub fn new(pattern: &str, capture_name: &str) -> (r: Result<NamedPattern, PatternError>)
        ensures
            r is Ok <==> pattern_usable(pattern@, capture_name@),
            r == Err::<NamedPattern, PatternError>(PatternError::InvalidRegex) <==> !regex_compiles(
                pattern@,
            ),
            r is Ok ==> r->Ok_0.pattern() == pattern@ && r->Ok_0.capture_name() == capture_name@,
    {
        match compile(pattern) {
            Ok(matcher) => {
                let names = capture_names(&matcher);
                if contains_group(&names, capture_name) {
                    Ok(NamedPattern { matcher, capture_name: capture_name.to_owned() })
                } else {
                    Err(PatternError::MissingCaptureGroup)
                }
            },
            Err(_) => Err(PatternError::InvalidRegex),
        }
    }

    pub fn matches(&self, text: &str) -> (r: bool)
        ensures
            r == regex_is_match(self.pattern(), text@),
    {
        is_match(&self.matcher, text)
    }

    pub fn capture(&self, text: &str) -> (r: Option<String>)
        ensures
            match r {
                Some(s) => regex_named_capture(self.pattern(), self.capture_name(), text@) == Some(
                    s@,
                ),
                None => regex_named_capture(self.pattern(), self.capture_name(), text@) is None,
            },
    {
        named_capture(&self.matcher, self.capture_name.as_str(), text)
    }
}

} // verus!
