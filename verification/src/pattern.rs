//! Pattern normalization: a raw match pattern is anchored at both ends so
//! that it matches whole filenames only, then compiled once and reused as
//! both the filename filter and the match engine for substitution.

use vstd::prelude::*;
use vstd::string::*;

verus! {

#[verifier::external_type_specification]
#[verifier::external_body]
pub struct ExRegex(regex::Regex);

#[verifier::external_type_specification]
#[verifier::external_body]
pub struct ExRegexError(regex::Error);

/// Whether the regex crate compiles this pattern text: the text is a
/// syntactically valid regular expression whose compiled form stays within
/// the crate's default size limit.
pub uninterp spec fn regex_valid(pat: Seq<char>) -> bool;

/// Whether the compiled form of `pat` matches anywhere inside `hay`.
pub uninterp spec fn regex_match(pat: Seq<char>, hay: Seq<char>) -> bool;

/// The text produced by replacing every non-overlapping match of `pat` in
/// `hay` with the template `rep`, capture-group references in `rep`
/// substituted by the text the groups matched.
pub uninterp spec fn regex_replaced(pat: Seq<char>, hay: Seq<char>, rep: Seq<char>) -> Seq<char>;

/// The pattern text begins with the anchor character `^`.
/// This is a literal-character check at the first position, with no
/// awareness of regular-expression escaping.
pub open spec fn starts_caret(s: Seq<char>) -> bool {
    s.len() > 0 && s[0] == '^'
}

/// The pattern text ends with the anchor character `$`.
/// Like `starts_caret`, a literal-character check at the last position.
pub open spec fn ends_dollar(s: Seq<char>) -> bool {
    s.len() > 0 && s[s.len() - 1] == '$'
}

/// A pattern is anchored when it starts with `^` and ends with `$`.
pub open spec fn is_anchored(s: Seq<char>) -> bool {
    starts_caret(s) && ends_dollar(s)
}

/// The fully anchored form of a raw pattern: `^` is prepended unless it is
/// already the first character, `$` is appended unless it is already the
/// last character.
pub open spec fn anchored_form(s: Seq<char>) -> Seq<char> {
    if starts_caret(s) && ends_dollar(s) {
        s
    } else if starts_caret(s) {
        s + seq!['$']
    } else if ends_dollar(s) {
        seq!['^'] + s
    } else {
        seq!['^'] + s + seq!['$']
    }
}

/// Anchor a raw pattern at both ends.
///
/// The presence checks are literal-character checks at the first and last
/// position, so a pattern ending in an escaped `\$` is treated as already
/// anchored.
pub fn anchor_query(query: &str) -> (r: String)
    ensures
        r@ == anchored_form(query@),
        is_anchored(r@),
{
    proof {
        reveal_strlit("^");
        reveal_strlit("$");
    }
    let n = query.unicode_len();
    let starts = n > 0 && query.get_char(0) == '^';
    let ends = n > 0 && query.get_char(n - 1) == '$';
    if starts && ends {
        String::from_str(query)
    } else if starts {
        String::from_str(query).concat("$")
    } else if ends {
        String::from_str("^").concat(query)
    } else {
        String::from_str("^").concat(query).concat("$")
    }
}

/// A compiled, fully anchored pattern. The compiled expression is kept
/// beside the text it was compiled from; the view of a `Pattern` is that
/// text. Constructed once per run and immutable afterwards.
#[derive(Debug)]
pub struct Pattern {
    source: String,
    compiled: regex::Regex,
}

impl View for Pattern {
    type V = Seq<char>;

    closed spec fn view(&self) -> Seq<char> {
        self.source@
    }
}

/// The raw query did not compile to a valid regular expression.
#[derive(Debug)]
pub struct InvalidPatternError {
    pub message: String,
}

/// Relies on regex::Regex::new: compiles exactly the given pattern text and
/// returns Ok precisely when the text is a valid regular expression within
/// the default size limit. The compiled expression is stored beside its
/// source text, so the contracts of `pattern_search` and
/// `pattern_replace_all` can speak of that text.
#[verifier::external_body]
fn compile_pattern(text: &str) -> (r: Result<Pattern, regex::Error>)
    ensures
        r is Ok <==> regex_valid(text@),
        r is Ok ==> r->Ok_0@ == text@,
{
    match regex::Regex::new(text) {
        Ok(compiled) => Ok(Pattern { source: text.to_string(), compiled }),
        Err(e) => Err(e),
    }
}

/// Relies on regex::Regex::is_match: true if and only if the pattern has a
/// match somewhere inside the haystack, a function of the pattern text and
/// the haystack alone.
#[verifier::external_body]
fn pattern_search(p: &Pattern, hay: &str) -> (b: bool)
    ensures
        b == regex_match(p@, hay@),
{
    p.compiled.is_match(hay)
}

/// Relies on regex::Regex::replace_all: replaces every non-overlapping
/// match with the template, a function of the pattern text, the haystack
/// and the template alone.
#[verifier::external_body]
fn pattern_replace_all(p: &Pattern, hay: &str, rep: &str) -> (r: String)
    ensures
        r@ == regex_replaced(p@, hay@, rep@),
{
    p.compiled.replace_all(hay, rep).into_owned()
}

/// Relies on regex::Error's Display impl for a human-readable description
/// of why the pattern failed to compile.
#[verifier::external_body]
fn regex_error_text(e: &regex::Error) -> String {
    format!("{}", e)
}

/// Anchor the raw query at both ends and compile it.
///
/// Succeeds exactly when the anchored text is a valid regular expression;
/// on failure no pattern exists, so no directory access and no rename can
/// follow from this query.
pub fn format_query(query: &str) -> (r: Result<Pattern, InvalidPatternError>)
    ensures
        r is Ok <==> regex_valid(anchored_form(query@)),
        r is Ok ==> r->Ok_0@ == anchored_form(query@),
        r is Ok ==> is_anchored(r->Ok_0@),
{
    let anchored = anchor_query(query);
    match compile_pattern(anchored.as_str()) {
        Ok(p) => Ok(p),
        Err(e) => Err(InvalidPatternError { message: regex_error_text(&e) }),
    }
}

impl Pattern {
    /// The pattern text this expression was compiled from.
    pub fn as_str(&self) -> (r: &str)
        ensures
            r@ == self@,
    {
        self.source.as_str()
    }

    /// True if and only if the pattern has a match inside `name`. Every
    /// `Pattern` built by `format_query` is anchored at both ends, so a
    /// match inside the name is a match of the whole name.
    pub fn is_match(&self, name: &str) -> (b: bool)
        ensures
            b == regex_match(self@, name@),
    {
        pattern_search(self, name)
    }

    /// The name produced by substituting the capture groups of this pattern
    /// into the replacement template, for every match inside `name`.
    pub fn replace_all(&self, name: &str, rep: &str) -> (r: String)
        ensures
            r@ == regex_replaced(self@, name@, rep@),
    {
        pattern_replace_all(self, name, rep)
    }
}

/// Anchoring is idempotent: the anchored form of a pattern is itself left
/// unchanged by anchoring, so normalizing an already-normalized pattern
/// yields the same pattern text and hence the same match behavior on every
/// haystack.
pub proof fn lemma_anchor_idempotent(p: Seq<char>)
    ensures
        anchored_form(anchored_form(p)) == anchored_form(p),
        forall|hay: Seq<char>|
            regex_match(anchored_form(anchored_form(p)), hay) == regex_match(
                anchored_form(p),
                hay,
            ),
{
    assert(is_anchored(anchored_form(p)));
}

} // verus!

