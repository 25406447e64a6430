//! How a search for members by name is shaped: by the search index where
//! there is one, by patterns where there is none.

use vstd::prelude::*;
use vstd::string::*;

verus! {

/// The text without the whitespace at its ends, as `str::trim` gives it.
pub uninterp spec fn trimmed_text(text: Seq<char>) -> Seq<char>;

/// The text in lower case, as `str::to_lowercase` gives it.
pub uninterp spec fn lowercase_text(text: Seq<char>) -> Seq<char>;

/// `needle` stands somewhere in `hay`.
pub open spec fn occurs_in(needle: Seq<char>, hay: Seq<char>) -> bool {
    exists|i: int|
        0 <= i <= hay.len() - needle.len() && #[trigger] hay.subrange(i, i + needle.len())
            == needle
}

/// The text without its double quotes.
pub open spec fn unquoted(text: Seq<char>) -> Seq<char> {
    text.filter(|c: char| c != '"')
}

/// `str::trim`: the result is the named one for the text.
#[verifier::external_body]
fn trim<'a>(text: &'a str) -> (out: &'a str)
    ensures
        out@ == trimmed_text(text@),
{
    text.trim()
}

/// `str::to_lowercase`: the result is the named one for the text.
#[verifier::external_body]
fn to_lowercase(text: &str) -> (out: String)
    ensures
        out@ == lowercase_text(text@),
{
    text.to_lowercase()
}

/// `str::replace` of the double quote by nothing: every double quote is gone
/// and every other character stays in its place.
#[verifier::external_body]
fn strip_quotes(text: &str) -> (out: String)
    ensures
        out@ == unquoted(text@),
{
    text.replace('"', "")
}

/// `str::contains` with a string pattern: whether the pattern stands
/// somewhere in the text.
#[verifier::external_body]
fn contains(hay: &str, needle: &str) -> (found: bool)
    ensures
        found == occurs_in(needle@, hay@),
{
    hay.contains(needle)
}

/// How a search is carried out.
#[derive(Debug, Clone)]
pub enum SearchPlan {
    /// Nothing was typed: the most recent members are listed.
    Recent,
    /// The index is asked with `expression`; where there is no index, names
    /// are held against the pattern `like`.
    Match { expression: String, like: String },
}

/// The term that the index is asked for: what was typed, trimmed, in lower
/// case and without double quotes.
pub open spec fn search_term(partial: Seq<char>) -> Seq<char> {
    unquoted(lowercase_text(trimmed_text(partial)))
}

/// The expression that asks the index for names that begin with `term`.
pub open spec fn match_text(term: Seq<char>) -> Seq<char> {
    "label_norm:"@ + term + "* OR account_username:"@ + term + "* OR server_username:"@ + term
        + "*"@
}

/// The pattern that names are held against: `trimmed` anywhere in the name.
pub open spec fn like_text(trimmed: Seq<char>) -> Seq<char> {
    "%"@ + trimmed + "%"@
}

/// The expression that asks the index for names that begin with `term`.
pub fn match_expression(term: &str) -> (expression: String)
    ensures
        expression@ == match_text(term@),
{
    let mut expression = String::from_str("label_norm:");
    expression.append(term);
    expression.append("* OR account_username:");
    expression.append(term);
    expression.append("* OR server_username:");
    expression.append(term);
    expression.append("*");
    assert(expression@ =~= match_text(term@));
    expression
}

/// The pattern that names are held against.
pub fn like_pattern(trimmed: &str) -> (pattern: String)
    ensures
        pattern@ == like_text(trimmed@),
{
    let mut pattern = String::from_str("%");
    pattern.append(trimmed);
    pattern.append("%");
    pattern
}

/// Shapes the search for what was typed.
pub fn plan_search(partial: &str) -> (plan: SearchPlan)
    ensures
        trimmed_text(partial@).len() == 0 <==> plan is Recent,
        plan matches SearchPlan::Match { expression, like } ==> expression@ == match_text(
            search_term(partial@),
        ) && like@ == like_text(trimmed_text(partial@)),
{
    let trimmed = trim(partial);
    if trimmed.is_empty() {
        SearchPlan::Recent
    } else {
        let lowered = to_lowercase(trimmed);
        let term = strip_quotes(lowered.as_str());
        SearchPlan::Match {
            expression: match_expression(term.as_str()),
            like: like_pattern(trimmed),
        }
    }
}

/// What the store says where it has no search index, or cannot read the expression.
pub open spec fn tells_of_no_index(message: Seq<char>) -> bool {
    occurs_in("no such module: fts5"@, message) || occurs_in("malformed MATCH"@, message)
}

/// Whether a failure of the store means that the index cannot be asked, so
/// that the search goes on by patterns. Any other failure is an error.
pub fn is_index_unavailable(message: &str) -> (yes: bool)
    ensures
        yes == tells_of_no_index(message@),
{
    contains(message, "no such module: fts5") || contains(message, "malformed MATCH")
}

} // verus!
