use vstd::prelude::*;
use crate::technologies::{Pattern, PatternView};

verus! {

// ---------------------------------------------------------------------------
// Names for what the regex engine computes. Whether a pattern compiles, and
// what a compiled pattern matches or captures, are functions of the pattern
// and haystack characters alone; their full definitions (the regex grammar
// and matching semantics) are left to the regex crate.
// ---------------------------------------------------------------------------

/// Whether `regex::Regex::new` accepts the pattern.
pub uninterp spec fn regex_compiles(p: Seq<char>) -> bool;

/// What `regex::Regex::is_match` returns for a compiling pattern `p` on
/// haystack `t`: true when the regex matches anywhere in `t`.
pub uninterp spec fn regex_match(p: Seq<char>, t: Seq<char>) -> bool;

/// The text of the first capture group of the leftmost match of a compiling
/// pattern `p` on haystack `t`; `None` when the regex does not match, has no
/// first group, or the group did not participate in the match.
pub uninterp spec fn regex_capture1(p: Seq<char>, t: Seq<char>) -> Option<Seq<char>>;

/// Declares regex::Regex so it can stand in fields; the value is opaque.
#[verifier::external_type_specification]
#[verifier::external_body]
pub struct ExRegex(regex::Regex);

/// A compiled regular expression paired with the text it was compiled from.
/// Values only arise from `compile_regex`, which ties the two together.
pub struct CompiledRegex {
    re: regex::Regex,
    pattern: String,
}

impl CompiledRegex {
    /// The pattern text this regex was compiled from.
    pub closed spec fn pattern(&self) -> Seq<char> {
        self.pattern@
    }
}

/// Relies on regex::Regex::new: whether a pattern compiles depends on its
/// characters alone.
#[verifier::external_body]
fn compile_regex(pattern: &str) -> (r: Option<CompiledRegex>)
    ensures
        r is Some <==> regex_compiles(pattern@),
        r matches Some(c) ==> c.pattern() == pattern@,
{
    match regex::Regex::new(pattern) {
        Ok(re) => Some(CompiledRegex { re, pattern: pattern.to_owned() }),
        Err(_) => None,
    }
}

/// Relies on regex::Regex::is_match: true if and only if the regex matches
/// anywhere in the haystack, a function of pattern and haystack alone.
#[verifier::external_body]
fn compiled_is_match(re: &CompiledRegex, text: &str) -> (r: bool)
    ensures
        r == regex_match(re.pattern(), text@),
{
    re.re.is_match(text)
}

/// Relies on regex::Regex::captures and regex::Captures::get: the first
/// capture group of the leftmost match, a function of pattern and haystack
/// alone; `None` when there is no match or no participating first group.
#[verifier::external_body]
fn compiled_first_capture(re: &CompiledRegex, text: &str) -> (r: Option<String>)
    ensures
        r.deep_view() == regex_capture1(re.pattern(), text@),
{
    re.re.captures(text).and_then(|c| c.get(1)).map(|m| m.as_str().to_owned())
}

// ---------------------------------------------------------------------------
// Literal containment, the fallback for patterns that do not compile.
// ---------------------------------------------------------------------------

/// A pattern occurs contiguously somewhere in a text.
pub open spec fn contains_seq(t: Seq<char>, p: Seq<char>) -> bool {
    exists|i: int|
        0 <= i && i + p.len() <= t.len() && #[trigger] t.subrange(i, i + p.len() as int) == p
}

/// Relies on str::contains: true exactly when the pattern occurs as a
/// contiguous substring of the text.
#[verifier::external_body]
fn contains_substr(text: &str, pattern: &str) -> (r: bool)
    ensures
        r == contains_seq(text@, pattern@),
{
    text.contains(pattern)
}

// ---------------------------------------------------------------------------
// The pattern matcher and the version extractor.
// ---------------------------------------------------------------------------

/// What it means for an expression's pattern to match a text: the regex
/// semantics when the pattern compiles, literal containment otherwise.
pub open spec fn expr_matches(t: Seq<char>, p: Seq<char>) -> bool {
    if regex_compiles(p) {
        regex_match(p, t)
    } else {
        contains_seq(t, p)
    }
}

/// Whether the rule's pattern matches the text, degrading to literal
/// substring search when the pattern is not a valid regular expression.
pub fn check_pattern(text: &str, pattern: &Pattern) -> (r: bool)
    ensures
        r == expr_matches(text@, pattern@.pattern),
{
    match compile_regex(pattern.pattern.as_str()) {
        Some(re) => compiled_is_match(&re, text),
        None => contains_substr(text, pattern.pattern.as_str()),
    }
}

/// The version a rule extracts from a text: nothing without a template,
/// nothing when the pattern is not a valid regular expression (literal
/// containment can capture nothing), otherwise the first capture group of
/// the match, if any.
pub open spec fn spec_extract_version(t: Seq<char>, p: PatternView) -> Option<Seq<char>> {
    if p.version is None {
        None
    } else if !regex_compiles(p.pattern) {
        None
    } else {
        regex_capture1(p.pattern, t)
    }
}

/// Extract a version string from a matching rule, or nothing.
pub fn extract_version(text: &str, pattern: &Pattern) -> (r: Option<String>)
    ensures
        r.deep_view() == spec_extract_version(text@, pattern@),
{
    if pattern.version.is_none() {
        return None;
    }

    match compile_regex(pattern.pattern.as_str()) {
        Some(re) => compiled_first_capture(&re, text),
        None => None,
    }
}

// ---------------------------------------------------------------------------
// Laws of the matcher and the extractor.
// ---------------------------------------------------------------------------

/// Law: when the pattern compiles, matching is exactly the regex semantics;
/// when it does not, matching is exactly literal substring containment.
pub proof fn lemma_match_regex_or_literal(t: Seq<char>, p: Seq<char>)
    ensures
        regex_compiles(p) ==> expr_matches(t, p) == regex_match(p, t),
        !regex_compiles(p) ==> expr_matches(t, p) == contains_seq(t, p),
{
}

/// Law: a rule without a version template never yields a version, whatever
/// the match outcome.
pub proof fn lemma_no_template_no_version(t: Seq<char>, p: PatternView)
    requires
        p.version is None,
    ensures
        spec_extract_version(t, p) is None,
{
}

} // verus!
