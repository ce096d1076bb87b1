//! Per-line decisions of the streaming loop.
//!
//! The surrounding binary reads standard input line by line and fully
//! handles each line before reading the next: it asks `step` what to do
//! with the line (where to echo it, and whether and what to dispatch),
//! performs the echo and the fan-out, and stops on the first dispatch
//! failure or at end of input. Pattern matching is done by the regex crate,
//! compiled once when the processor is built.

use vstd::prelude::*;
use crate::config::Redirect;
use crate::config::Stream;

verus! {

/// The compiled regular expression type, declared so that it can stand in
/// fields and signatures.
#[verifier::external_type_specification]
#[verifier::external_body]
pub struct ExRegex(regex::Regex);

/// The pattern a compiled regular expression was built from.
pub uninterp spec fn regex_pattern(re: regex::Regex) -> Seq<char>;

/// Whether the regex crate accepts `pat` as a regular expression.
pub uninterp spec fn regex_compiles(pat: Seq<char>) -> bool;

/// The text of the first match of the pattern `pat` in the haystack `hay`,
/// if any: the result of a find, which depends on the two texts alone.
pub uninterp spec fn regex_first_match(pat: Seq<char>, hay: Seq<char>) -> Option<Seq<char>>;

/// Relies on `Regex::new`: compiling is deterministic in the pattern, and
/// a compiled regex remembers the pattern it was built from. A rejected
/// pattern yields the `Display` text of the compile error.
#[verifier::external_body]
fn regex_new(pat: &str) -> (r: Result<regex::Regex, String>)
    ensures
        r is Ok <==> regex_compiles(pat@),
        r matches Ok(re) ==> regex_pattern(re) == pat@,
{
    regex::Regex::new(pat).map_err(|e| e.to_string())
}

/// Relies on `Regex::find`: returns the leftmost-first match, a contiguous
/// part of the haystack, determined by the pattern and the haystack alone.
#[verifier::external_body]
fn regex_find(re: &regex::Regex, hay: &str) -> (r: Option<String>)
    ensures
        r is Some <==> regex_first_match(regex_pattern(*re), hay@) is Some,
        r matches Some(m) ==> regex_first_match(regex_pattern(*re), hay@) == Some(m@),
        r matches Some(m) ==> (exists|i: int, j: int|
            0 <= i <= j <= hay@.len() && m@ == hay@.subrange(i, j)),
{
    re.find(hay).map(|m| m.as_str().to_string())
}

/// What to do with one input line: where to echo it, and the message to
/// dispatch for it, if any.
pub struct LineAction {
    /// Where the raw line is echoed, before any pattern matching.
    pub echo: Option<Redirect>,
    /// The message to fan out for this line: the raw line when no filter
    /// is configured, the matched text when the filter matches, nothing
    /// when it does not.
    pub message: Option<String>,
}

/// The per-line decision logic of the streaming loop: the echo target and
/// the optional pattern filter, compiled once.
pub struct StreamProcessor {
    matcher: Option<regex::Regex>,
    redirect: Option<Redirect>,
}

impl StreamProcessor {
    /// The echo target every line is sent to.
    pub closed spec fn spec_redirect(&self) -> Option<Redirect> {
        self.redirect
    }

    /// Whether a pattern filter is configured.
    pub closed spec fn has_matcher(&self) -> bool {
        self.matcher is Some
    }

    /// The pattern of the configured filter.
    pub closed spec fn matcher_pattern(&self) -> Seq<char> {
        regex_pattern(self.matcher->0)
    }

    /// Build the processor from the streaming configuration, compiling the
    /// filter pattern once. A pattern the regex crate rejects is a fatal
    /// configuration error, reported before any line is read.
    pub fn new(stream: &Stream) -> (r: Result<StreamProcessor, crate::error::Error>)
        ensures
            r is Ok <==> (stream.matching matches Some(p) ==> regex_compiles(p@)),
            r matches Ok(sp) ==> sp.spec_redirect() == stream.redirect,
            r matches Ok(sp) ==> (sp.has_matcher() <==> stream.matching is Some),
            r matches Ok(sp) ==> (stream.matching matches Some(p) ==> sp.matcher_pattern() == p@),
            r matches Err(e) ==> e matches crate::error::Error::Regex(_) && stream.matching is Some
                && !regex_compiles(stream.matching->0@),
    {
        let redirect = match &stream.redirect {
            Some(Redirect::Stdout) => Some(Redirect::Stdout),
            Some(Redirect::Stderr) => Some(Redirect::Stderr),
            None => None,
        };
        match &stream.matching {
            None => Ok(StreamProcessor { matcher: None, redirect }),
            Some(pattern) => match regex_new(pattern.as_str()) {
                Ok(re) => Ok(StreamProcessor { matcher: Some(re), redirect }),
                Err(text) => Err(crate::error::Error::Regex(text)),
            },
        }
    }

    /// Decide what to do with one input line. The line is echoed to the
    /// configured target whether or not it matches; without a filter the
    /// raw line is dispatched, with a filter the text of its first match
    /// is, and a line without a match dispatches nothing.
    pub fn step(&self, line: &str) -> (r: LineAction)
        ensures
            r.echo == self.spec_redirect(),
            !self.has_matcher() ==> (r.message matches Some(m) && m@ == line@),
            self.has_matcher() ==> r.message is Some == regex_first_match(
                self.matcher_pattern(),
                line@,
            ) is Some,
            self.has_matcher() ==> (r.message matches Some(m) ==> regex_first_match(
                self.matcher_pattern(),
                line@,
            ) == Some(m@)),
    {
        let echo = match &self.redirect {
            Some(Redirect::Stdout) => Some(Redirect::Stdout),
            Some(Redirect::Stderr) => Some(Redirect::Stderr),
            None => None,
        };
        let message = match &self.matcher {
            None => Some(line.to_owned()),
            Some(re) => regex_find(re, line),
        };
        LineAction { echo, message }
    }
}

} // verus!
