//! Regular-expression prefixes, compiled and applied by the `regex` crate.

use vstd::prelude::*;

verus! {

#[verifier::external_type_specification]
#[verifier::external_body]
pub struct ExRegex(regex::Regex);

/// `pattern` is a regular expression that `regex::Regex::new` accepts.
pub uninterp spec fn regex_compiles(pattern: Seq<char>) -> bool;

/// `text` with every match of `pattern` removed, as
/// `regex::Regex::replace_all(text, "")` computes it.
pub uninterp spec fn regex_remove_matches(pattern: Seq<char>, text: Seq<char>) -> Seq<char>;

/// A compiled regular expression together with its source text.
///
/// The fields are private: a value is only made by `compile`, so `regex` is
/// always the compilation of `source`.
pub struct PrefixPattern {
    regex: regex::Regex,
    source: String,
}

impl PrefixPattern {
    /// The source text of the expression.
    pub closed spec fn source(&self) -> Seq<char> {
        self.source@
    }

    /// Calls `regex::Regex::new`.
    ///
    /// Trusted: it succeeds exactly when `regex_compiles(pattern)`, and the
    /// value it gives keeps `pattern` as its source.
    #[verifier::external_body]
    pub(crate) fn compile(pattern: &str) -> (r: Option<PrefixPattern>)
        ensures
            r is Some <==> regex_compiles(pattern@),
            r matches Some(p) ==> p.source() == pattern@,
    {
        regex::Regex::new(pattern).ok().map(|regex| PrefixPattern { regex, source: pattern.to_string() })
    }

    /// Calls `regex::Regex::replace_all` with an empty replacement.
    ///
    /// Trusted: the result is `regex_remove_matches(source, text)`.
    #[verifier::external_body]
    pub(crate) fn remove_matches(&self, text: &str) -> (r: String)
        ensures
            r@ == regex_remove_matches(self.source(), text@),
    {
        self.regex.replace_all(text, "").into_owned()
    }
}

} // verus!
