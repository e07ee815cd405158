//! Compiled patterns, and the extraction of tokens from a line.
//!
//! Matching is done by the `regex` crate. What it finds is not described
//! here: the contracts name it, and the functions of this module are proved
//! to hand on exactly what was found.

use vstd::prelude::*;
use regex::Regex;

verus! {

/// `regex::Regex`, a compiled regular expression. Nothing inside it is seen
/// here; it is made by `Regex::new` and handed to the searches.
#[verifier::external_type_specification]
#[verifier::external_body]
pub struct ExRegex(regex::Regex);

/// `regex::Error`, the reason why a regular expression did not compile. It is
/// handed on as it came.
#[verifier::external_type_specification]
#[verifier::external_body]
pub struct ExRegexError(regex::Error);

/// The text that a regex was compiled from: what `Regex::as_str` returns.
pub uninterp spec fn regex_source(re: Regex) -> Seq<char>;

/// The number of groups that take part in every match of a regex, the whole
/// match counted as one of them, if that number is the same for all matches:
/// what `Regex::static_captures_len` returns.
pub uninterp spec fn static_groups(re: Regex) -> Option<usize>;

/// The texts that a regex finds in a haystack, where one capturing group
/// takes part in every match: for each of the successive non-overlapping
/// matches that `Regex::captures_iter` yields, from left to right, the text
/// of the group that `Captures::extract` returns.
pub uninterp spec fn captured_texts(re: Regex, haystack: Seq<char>) -> Seq<Seq<char>>;

/// The texts of a sequence of string slices.
pub open spec fn slice_texts(found: Seq<&str>) -> Seq<Seq<char>> {
    Seq::new(found.len(), |i: int| found[i]@)
}

/// `Regex::new`: compiles a pattern. A regex that it returns keeps the text
/// that it was given. Whether it returns one is left open: the engine refuses
/// a pattern that it cannot parse and one whose compiled form is over its
/// size limit, and how large a compiled form is depends on the machine.
pub assume_specification[ Regex::new ](re: &str) -> (outcome: Result<Regex, regex::Error>)
    ensures
        outcome matches Ok(compiled) ==> regex_source(compiled) == re@,
;

/// `Regex::as_str`: the text that the regex was compiled from.
pub assume_specification<'a>[ Regex::as_str ](re: &'a Regex) -> (source: &'a str)
    ensures
        source@ == regex_source(*re),
;

/// `Regex::static_captures_len`.
pub assume_specification[ Regex::static_captures_len ](re: &Regex) -> (count: Option<usize>)
    ensures
        count == static_groups(*re),
;

/// `Regex::captures_iter`, with `Captures::extract` applied to each match
/// for one group: the captured texts, in the order of the matches. `extract`
/// panics unless exactly one capturing group takes part in every match, which
/// is two groups with the whole match.
#[verifier::external_body]
fn captures<'h>(re: &Regex, haystack: &'h str) -> (found: Vec<&'h str>)
    requires
        static_groups(*re) == Some(2usize),
    ensures
        slice_texts(found@) == captured_texts(*re, haystack@),
{
    re.captures_iter(haystack).map(|caps| caps.extract::<1>().1[0]).collect()
}

/// Why a pattern was refused.
#[derive(Debug)]
pub enum PatternError {
    /// The regex engine did not accept the text of the pattern.
    Rejected(regex::Error),
    /// The pattern does not have exactly one capturing group in every match.
    NotOneGroup,
}

/// A compiled pattern in every match of which exactly one capturing group
/// takes part. The text that the group captures in a match is a token.
#[derive(Debug)]
pub struct Pattern {
    matcher: Regex,
}

impl Pattern {
    #[verifier::type_invariant]
    spec fn has_one_group(self) -> bool {
        static_groups(self.matcher) == Some(2usize)
    }

    /// The compiled regex that does the matching.
    pub closed spec fn matcher(self) -> Regex {
        self.matcher
    }

    /// The text of the pattern.
    pub open spec fn spec_source(self) -> Seq<char> {
        regex_source(self.matcher())
    }

    /// The tokens that the pattern finds in a line, from left to right.
    pub open spec fn tokens_in(self, line: Seq<char>) -> Seq<Seq<char>> {
        captured_texts(self.matcher(), line)
    }

    /// Decides what becomes of an attempt to compile a pattern: a regex that
    /// has exactly one capturing group in every match becomes a pattern, any
    /// other is refused, and a failure of the engine is handed on.
    pub fn from_regex(outcome: Result<Regex, regex::Error>) -> (pattern: Result<
        Pattern,
        PatternError,
    >)
        ensures
            match outcome {
                Ok(compiled) => if static_groups(compiled) == Some(2usize) {
                    pattern matches Ok(p) && p.matcher() == compiled
                } else {
                    pattern matches Err(e) && e == PatternError::NotOneGroup
                },
                Err(cause) => pattern matches Err(e) && e == PatternError::Rejected(cause),
            },
    {
        match outcome {
            Ok(compiled) => {
                match compiled.static_captures_len() {
                    Some(2) => Ok(Pattern { matcher: compiled }),
                    _ => Err(PatternError::NotOneGroup),
                }
            },
            Err(cause) => Err(PatternError::Rejected(cause)),
        }
    }

    /// Compiles the text of a pattern. Whether the engine accepts the text is
    /// its own decision; `from_regex` says what follows from it.
    pub fn compile(source: &str) -> (pattern: Result<Pattern, PatternError>)
        ensures
            pattern matches Ok(p) ==> p.spec_source() == source@,
    {
        Pattern::from_regex(Regex::new(source))
    }

    /// The text of the pattern.
    pub fn source(&self) -> (text: &str)
        ensures
            text@ == self.spec_source(),
    {
        self.matcher.as_str()
    }
}

/// Searches a line for a pattern and returns every token found, in the order
/// in which the matches start.
pub fn pattern_extraction(input_string: &str, pattern: &Pattern) -> (tokens: Vec<String>)
    ensures
        tokens.deep_view() == pattern.tokens_in(input_string@),
{
    proof {
        use_type_invariant(pattern);
    }
    let found = captures(&pattern.matcher, input_string);
    let mut tokens: Vec<String> = Vec::new();
    let mut i: usize = 0;
    while i < found.len()
        invariant
            i <= found.len(),
            tokens.len() == i,
            forall|j: int| 0 <= j < i ==> tokens[j]@ == found[j]@,
        decreases found.len() - i,
    {
        tokens.push(found[i].to_owned());
        i += 1;
    }
    tokens
}

} // verus!
