//! A compiled pattern that can be compared: two patterns are the same where
//! they were written the same.

use crate::text::text_eq;
use regex::Regex;
use vstd::prelude::*;

verus! {

/// `regex::Regex`, a compiled pattern. Nothing is known of what is inside
/// but the text it was written as.
#[verifier::external_type_specification]
#[verifier::external_body]
pub struct ExRegex(Regex);

/// `regex::Error`, the complaint of the compiler of patterns. It is only
/// turned into its message.
#[verifier::external_type_specification]
#[verifier::external_body]
pub struct ExRegexError(regex::Error);

/// The text that a compiled pattern was written as: what `Regex::as_str`
/// hands out.
pub uninterp spec fn pattern_text(re: Regex) -> Seq<char>;

/// The verdict of the compiler of patterns on a text: whether `Regex::new`
/// returns a pattern for it. The verdict is a matter of the text alone.
pub uninterp spec fn compiles(source: Seq<char>) -> bool;

/// `Regex::new` compiles a pattern. It returns a pattern exactly for the
/// texts that compile, and the pattern keeps the text it was given.
pub assume_specification[ Regex::new ](re: &str) -> (compiled: Result<Regex, regex::Error>)
    ensures
        compiled is Ok <==> compiles(re@),
        compiled matches Ok(regex) ==> pattern_text(regex) == re@,
;

/// `Regex::as_str` returns the text that the pattern was compiled from.
pub assume_specification<'a>[ Regex::as_str ](re: &'a Regex) -> (text: &'a str)
    ensures
        text@ == pattern_text(*re),
;

/// `Regex::clone` copies a compiled pattern together with its text.
pub assume_specification[ <Regex as Clone>::clone ](re: &Regex) -> (copy: Regex)
    ensures
        pattern_text(copy) == pattern_text(*re),
;

/// Why a value is no pattern.
#[derive(Clone, Debug, PartialEq, Eq)]
pub enum PatternError {
    /// The value is not a text.
    NotText,
    /// The text is not a pattern that can be compiled; `message` says why.
    Invalid { message: String },
}

/// A compiled pattern, compared by the text it was written as.
#[derive(Debug)]
pub struct ComparableRegex {
    pub re: Regex,
}

impl Clone for ComparableRegex {
    fn clone(&self) -> (copy: ComparableRegex)
        ensures
            copy@ == self@,
    {
        ComparableRegex { re: self.re.clone() }
    }
}

impl View for ComparableRegex {
    type V = Seq<char>;

    /// The text of the pattern.
    open spec fn view(&self) -> Seq<char> {
        pattern_text(self.re)
    }
}

impl ComparableRegex {
    /// Wraps the outcome of a compilation: the compiled pattern where there
    /// is one, and otherwise an error with the compiler's complaint as its
    /// message. No pattern is ever put in the place of one that did not
    /// compile.
    pub fn from_compiled(compiled: Result<Regex, regex::Error>) -> (built: Result<
        ComparableRegex,
        PatternError,
    >)
        ensures
            match compiled {
                Ok(re) => built matches Ok(pattern) && pattern.re == re,
                Err(error) => built matches Err(PatternError::Invalid { message })
                    && vstd::string::to_string_from_display_ensures::<regex::Error>(
                    &error,
                    message,
                ),
            },
    {
        match compiled {
            Ok(re) => Ok(ComparableRegex { re }),
            Err(error) => Err(PatternError::Invalid { message: error.to_string() }),
        }
    }

    /// Compiles `source`. A text that compiles gives a pattern with that
    /// text; any other text gives the compiler's complaint, and never a
    /// pattern in its place.
    pub fn new(source: &str) -> (built: Result<ComparableRegex, PatternError>)
        ensures
            built is Ok <==> compiles(source@),
            match built {
                Ok(pattern) => pattern@ == source@,
                Err(error) => error is Invalid,
            },
    {
        ComparableRegex::from_compiled(Regex::new(source))
    }

    /// The text of the pattern.
    pub fn as_str(&self) -> (text: &str)
        ensures
            text@ == self@,
    {
        self.re.as_str()
    }
}

impl PartialEq for ComparableRegex {
    fn eq(&self, other: &Self) -> (same: bool) {
        text_eq(self.re.as_str(), other.re.as_str())
    }
}

impl Eq for ComparableRegex {

}

impl vstd::std_specs::cmp::PartialEqSpecImpl for ComparableRegex {
    open spec fn obeys_eq_spec() -> bool {
        true
    }

    open spec fn eq_spec(&self, other: &Self) -> bool {
        self@ == other@
    }
}

} // verus!
