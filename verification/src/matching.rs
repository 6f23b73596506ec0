//! Regular expressions, held as their pattern text: whether a pattern compiles, whether it
//! finds a match in a text, and the text of a named group of that match.
use vstd::prelude::*;

verus! {

/// Whether regex's `Regex::new` compiles `pattern`.
pub uninterp spec fn regex_accepts(pattern: Seq<char>) -> bool;

/// Whether the regex compiled from `pattern` finds a match in `text`: regex's
/// `Regex::captures` gives some captures.
pub uninterp spec fn regex_finds(pattern: Seq<char>, text: Seq<char>) -> bool;

/// The text of the group named `name` in the first match of the regex compiled from `pattern`
/// in `text`, by regex's `Captures::name`; `None` where there is no match or that group took
/// no part in it.
pub uninterp spec fn regex_group(pattern: Seq<char>, text: Seq<char>, name: Seq<char>) -> Option<
    Seq<char>,
>;

/// Whether regex's `Regex::new` compiles `pattern`; the answer is the name `regex_accepts` of
/// the pattern.
#[verifier::external_body]
pub(crate) fn regex_compiles(pattern: &str) -> (b: bool)
    ensures
        b == regex_accepts(pattern@),
{
    regex::Regex::new(pattern).is_ok()
}

/// Whether regex's `Regex::captures`, with the regex `Regex::new` compiles from `pattern`,
/// finds a match in `text`; the answer is the name `regex_finds` of the two.
#[verifier::external_body]
pub(crate) fn regex_captures_found(pattern: &str, text: &str) -> (b: bool)
    requires
        regex_accepts(pattern@),
    ensures
        b == regex_finds(pattern@, text@),
{
    regex::Regex::new(pattern).unwrap().captures(text).is_some()
}

/// The group named `name` by regex's `Captures::name`, in the captures that `Regex::captures`
/// finds in `text` with the regex compiled from `pattern`; the answer is the name
/// `regex_group` of the three.
#[verifier::external_body]
pub(crate) fn regex_named_group(pattern: &str, text: &str, name: &str) -> (r: Option<String>)
    requires
        regex_accepts(pattern@),
    ensures
        match r {
            Some(s) => regex_group(pattern@, text@, name@) == Some(s@),
            None => regex_group(pattern@, text@, name@) is None,
        },
{
    match regex::Regex::new(pattern).unwrap().captures(text) {
        Some(captures) => match captures.name(name) {
            Some(m) => Some(m.as_str().to_string()),
            None => None,
        },
        None => None,
    }
}

/// The text of the error regex's `Regex::new` gives for a pattern it refuses.
pub uninterp spec fn regex_refusal(pattern: Seq<char>) -> Seq<char>;

/// The text (`to_string`) of the error regex's `Regex::new` gives for `pattern`, which it
/// refuses; the answer is the name `regex_refusal` of the pattern.
#[verifier::external_body]
pub(crate) fn regex_error_text(pattern: &str) -> (r: String)
    requires
        !regex_accepts(pattern@),
    ensures
        r@ == regex_refusal(pattern@),
{
    match regex::Regex::new(pattern) {
        Ok(_) => String::new(),
        Err(e) => e.to_string(),
    }
}

/// Why regex refuses a pattern: a syntax error with its text, a compiled regex too big, or
/// another reason.
pub enum RegexRefusal {
    Syntax(String),
    TooBig,
    Other,
}

/// The abstract value of a refusal.
pub enum RefusalModel {
    Syntax(Seq<char>),
    TooBig,
    Other,
}

impl View for RegexRefusal {
    type V = RefusalModel;

    open spec fn view(&self) -> RefusalModel {
        match self {
            RegexRefusal::Syntax(s) => RefusalModel::Syntax(s@),
            RegexRefusal::TooBig => RefusalModel::TooBig,
            RegexRefusal::Other => RefusalModel::Other,
        }
    }
}

/// Why regex's `Regex::new` refuses a pattern.
pub uninterp spec fn regex_refusal_kind(pattern: Seq<char>) -> RefusalModel;

/// The variant of the error regex's `Regex::new` gives for `pattern`, which it refuses: a
/// syntax error with its text, a compiled regex too big, or another; the answer is the name
/// `regex_refusal_kind` of the pattern.
#[verifier::external_body]
pub(crate) fn regex_refusal_of(pattern: &str) -> (r: RegexRefusal)
    requires
        !regex_accepts(pattern@),
    ensures
        r@ == regex_refusal_kind(pattern@),
{
    match regex::Regex::new(pattern) {
        Err(regex::Error::Syntax(s)) => RegexRefusal::Syntax(s),
        Err(regex::Error::CompiledTooBig(_)) => RegexRefusal::TooBig,
        _ => RegexRefusal::Other,
    }
}

} // verus!
