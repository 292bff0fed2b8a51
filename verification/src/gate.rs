//! The version-format gate.
//!
//! A computed version must match the configured pattern before anything is
//! persisted or published. The regex engine decides what matches; those
//! decisions carry names here, and callers are promised exactly what holds
//! of the names.

use vstd::prelude::*;

verus! {

/// Whether the regex engine compiles this pattern.
pub uninterp spec fn pattern_accepted(pattern: Seq<char>) -> bool;

/// Whether the regex engine finds a match for `pattern` in `text`.
pub uninterp spec fn pattern_matches(pattern: Seq<char>, text: Seq<u8>) -> bool;

/// Relies on `regex::bytes::Regex::new` and `regex::bytes::Regex::is_match`:
/// compiling succeeds or fails on the pattern alone, and whether a compiled
/// pattern matches is a function of the pattern and the text alone.
#[verifier::external_body]
fn regex_probe(pattern: &str, text: &Vec<u8>) -> (r: Option<bool>)
    ensures
        r is Some <==> pattern_accepted(pattern@),
        r is Some ==> r == Some(pattern_matches(pattern@, text@)),
{
    match regex::bytes::Regex::new(pattern) {
        Ok(re) => Some(re.is_match(text.as_slice())),
        Err(_) => None,
    }
}

/// Whether the configured pattern is a valid regular expression.
pub fn pattern_is_valid(pattern: &str) -> (r: bool)
    ensures
        r == pattern_accepted(pattern@),
{
    let probe: Vec<u8> = Vec::new();
    match regex_probe(pattern, &probe) {
        Some(_) => true,
        None => false,
    }
}

/// The three outcomes of holding a version against the pattern.
#[derive(Clone, Copy, PartialEq, Eq, Structural, Debug)]
pub enum VersionGate {
    Match,
    NoMatch,
    BadPattern,
}

/// Holds a computed version against the configured format pattern.
pub fn check_version(pattern: &str, version: &Vec<u8>) -> (r: VersionGate)
    ensures
        r is Match <==> pattern_accepted(pattern@) && pattern_matches(pattern@, version@),
        r is NoMatch <==> pattern_accepted(pattern@) && !pattern_matches(pattern@, version@),
        r is BadPattern <==> !pattern_accepted(pattern@),
{
    match regex_probe(pattern, version) {
        Some(true) => VersionGate::Match,
        Some(false) => VersionGate::NoMatch,
        None => VersionGate::BadPattern,
    }
}

} // verus!
