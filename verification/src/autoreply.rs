//! The keyword auto-reply: an inbound message gets a quip exactly when
//! it matches the fixed keyword pattern and its author is not a bot.

use vstd::prelude::*;

verus! {

/// What the fixed keyword pattern matches: a function of the message
/// characters alone, named rather than spelled out (regular-expression
/// semantics take pages to state).
pub uninterp spec fn keyword_pattern_match(s: Seq<char>) -> bool;

/// Relies on regex::Regex::new and regex::Regex::is_match: this fixed,
/// well-formed word-boundary pattern always compiles (so the call never
/// panics), and whether a compiled pattern matches a haystack is a
/// function of pattern and haystack characters alone. The two calls are
/// fused so the contract can speak of the one fixed pattern.
#[verifier::external_body]
fn content_matches_keywords(content: &str) -> (r: bool)
    ensures
        r == keyword_pattern_match(content@),
{
    let re = regex::Regex::new(r"(?i)\b(Microsoft|MS|Windows|Win|XP|Vista|NT)\b").unwrap();
    re.is_match(content)
}

/// Decides the auto-reply: a quip is owed exactly when the keyword
/// pattern matches the message and the author is not a bot.
pub fn message_gets_reply(content: &str, author_is_bot: bool) -> (r: bool)
    ensures
        r == (keyword_pattern_match(content@) && !author_is_bot),
{
    if author_is_bot {
        return false;
    }
    content_matches_keywords(content)
}

} // verus!
