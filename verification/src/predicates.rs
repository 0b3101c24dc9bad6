//! Built-in retryable-error code lists for major LLM providers.
//!
//! Each list is what the corresponding provider documents as a transient,
//! caller-should-retry error. Use these against a stringified error code or
//! message. The match is `contains` (case-sensitive) so you can pass a full
//! error message or just the code substring.

use vstd::prelude::*;

verus! {

/// Anthropic API error codes that are safe to retry.
///
/// Source: <https://docs.anthropic.com/en/api/errors>
pub const ANTHROPIC_RETRYABLE: [&'static str; 4] = [
    "rate_limit_error",
    "overloaded_error",
    "api_error",
    "timeout",
];

/// OpenAI API error codes/conditions that are safe to retry.
///
/// Source: <https://platform.openai.com/docs/guides/error-codes>
pub const OPENAI_RETRYABLE: [&'static str; 5] = [
    "rate_limit_exceeded",
    "server_error",
    "engine_overloaded",
    "tokens_exhausted",
    "timeout",
];

/// AWS Bedrock service-side error codes that are safe to retry.
///
/// Source: <https://docs.aws.amazon.com/bedrock/latest/userguide/troubleshoot.html>
pub const BEDROCK_RETRYABLE: [&'static str; 6] = [
    "ThrottlingException",
    "Throttling",
    "TooManyRequestsException",
    "ServiceUnavailableException",
    "ProvisionedThroughputExceededException",
    "ModelTimeoutException",
];

/// Google Gemini API status codes that are safe to retry.
///
/// Source: <https://ai.google.dev/api/rest/v1/HttpStatusCode>
pub const GEMINI_RETRYABLE: [&'static str; 4] = [
    "RESOURCE_EXHAUSTED",
    "UNAVAILABLE",
    "DEADLINE_EXCEEDED",
    "INTERNAL",
];

/// Generic HTTP status codes that are typically retryable.
pub const HTTP_RETRYABLE_STATUSES: [u16; 7] = [408, 425, 429, 500, 502, 503, 504];

/// `needle` occurs in `text` as a run of consecutive characters.
pub open spec fn occurs_in(needle: Seq<char>, text: Seq<char>) -> bool {
    exists|i: int|
        0 <= i && i + needle.len() <= text.len() && #[trigger] text.subrange(i, i + needle.len())
            == needle
}

/// Some pattern of `patterns` occurs in `text`.
pub open spec fn matches_any(text: Seq<char>, patterns: Seq<Seq<char>>) -> bool {
    exists|k: int| 0 <= k < patterns.len() && occurs_in(#[trigger] patterns[k], text)
}

/// The characters of each string of `list`.
pub open spec fn char_lists(list: Seq<&str>) -> Seq<Seq<char>> {
    list.map_values(|p: &str| p@)
}

/// `needle` occurs in `text` exactly when `text` is some text, then
/// `needle`, then some more text.
pub proof fn law_occurs_in_means_infix(needle: Seq<char>, text: Seq<char>)
    ensures
        occurs_in(needle, text) <==> exists|pre: Seq<char>, post: Seq<char>|
            text == pre + needle + post,
{
    if occurs_in(needle, text) {
        let i = choose|i: int|
            0 <= i && i + needle.len() <= text.len() && #[trigger] text.subrange(
                i,
                i + needle.len(),
            ) == needle;
        let pre = text.subrange(0, i);
        let post = text.subrange(i + needle.len(), text.len() as int);
        assert(text =~= pre + needle + post);
    }
    if exists|pre: Seq<char>, post: Seq<char>| text == pre + needle + post {
        let (pre, post) = choose|pre: Seq<char>, post: Seq<char>| text == pre + needle + post;
        let i = pre.len() as int;
        assert(text.subrange(i, i + needle.len()) =~= needle);
    }
}

/// Some pattern matches `text` exactly when `text` is some text, then one
/// whole pattern of the list, then some more text.
pub proof fn law_matches_any_means_some_pattern_is_inside(text: Seq<char>, patterns: Seq<Seq<char>>)
    ensures
        matches_any(text, patterns) <==> exists|k: int|
            0 <= k < patterns.len() && exists|pre: Seq<char>, post: Seq<char>|
                text == pre + #[trigger] patterns[k] + post,
{
    assert forall|k: int| 0 <= k < patterns.len() implies occurs_in(#[trigger] patterns[k], text)
        == exists|pre: Seq<char>, post: Seq<char>| text == pre + patterns[k] + post by {
        law_occurs_in_means_infix(patterns[k], text);
    }
}

/// The patterns searched for are the whole listed strings, one for each,
/// in order.
pub proof fn law_whole_patterns_are_searched(list: Seq<&str>)
    ensures
        char_lists(list).len() == list.len(),
        forall|k: int| 0 <= k < list.len() ==> #[trigger] char_lists(list)[k] == list[k]@,
{
}

/// `matches_any` over the characters of a list of strings, spelled out over
/// the strings themselves.
proof fn lemma_listed_patterns_inside(text: Seq<char>, list: Seq<&str>)
    ensures
        matches_any(text, char_lists(list)) == exists|k: int|
            0 <= k < list.len() && exists|pre: Seq<char>, post: Seq<char>|
                text == pre + #[trigger] list[k]@ + post,
{
    let pats = char_lists(list);
    law_whole_patterns_are_searched(list);
    law_matches_any_means_some_pattern_is_inside(text, pats);
    if matches_any(text, pats) {
        let k = choose|k: int|
            0 <= k < pats.len() && exists|pre: Seq<char>, post: Seq<char>|
                text == pre + #[trigger] pats[k] + post;
        assert(pats[k] == list[k]@);
    }
    if exists|k: int|
        0 <= k < list.len() && exists|pre: Seq<char>, post: Seq<char>|
            text == pre + #[trigger] list[k]@ + post {
        let k = choose|k: int|
            0 <= k < list.len() && exists|pre: Seq<char>, post: Seq<char>|
                text == pre + #[trigger] list[k]@ + post;
        assert(pats[k] == list[k]@);
    }
}

/// A match carries over to any text around it: if some pattern occurs in
/// `text`, it occurs in `prefix + text + suffix` too. So a full error message
/// matches wherever the bare code does.
pub proof fn law_match_survives_surrounding_text(
    text: Seq<char>,
    prefix: Seq<char>,
    suffix: Seq<char>,
    patterns: Seq<Seq<char>>,
)
    requires
        matches_any(text, patterns),
    ensures
        matches_any(prefix + text + suffix, patterns),
{
    let k = choose|k: int| 0 <= k < patterns.len() && occurs_in(#[trigger] patterns[k], text);
    let needle = patterns[k];
    let i = choose|i: int|
        0 <= i && i + needle.len() <= text.len() && #[trigger] text.subrange(i, i + needle.len())
            == needle;
    let whole = prefix + text + suffix;
    let j = prefix.len() + i;
    assert(whole.subrange(j, j + needle.len()) =~= text.subrange(i, i + needle.len()));
    assert(occurs_in(patterns[k], whole));
}

/// Joining two pattern lists matches exactly what either list matches.
pub proof fn law_joined_lists_match_either(
    text: Seq<char>,
    first: Seq<Seq<char>>,
    second: Seq<Seq<char>>,
)
    ensures
        matches_any(text, first + second) == (matches_any(text, first) || matches_any(
            text,
            second,
        )),
{
    let both = first + second;
    if matches_any(text, both) {
        let k = choose|k: int| 0 <= k < both.len() && occurs_in(#[trigger] both[k], text);
        if k < first.len() {
            assert(first[k] == both[k]);
        } else {
            assert(second[k - first.len()] == both[k]);
        }
    }
    if matches_any(text, first) {
        let k = choose|k: int| 0 <= k < first.len() && occurs_in(#[trigger] first[k], text);
        assert(both[k] == first[k]);
    }
    if matches_any(text, second) {
        let k = choose|k: int| 0 <= k < second.len() && occurs_in(#[trigger] second[k], text);
        assert(both[first.len() + k] == second[k]);
    }
}

/// Every listed pattern, given on its own, matches its list.
pub proof fn law_listed_pattern_matches(patterns: Seq<Seq<char>>, k: int)
    requires
        0 <= k < patterns.len(),
    ensures
        matches_any(patterns[k], patterns),
{
    let p = patterns[k];
    let zero: int = 0;
    assert(p.subrange(zero, zero + p.len()) =~= p);
    assert(occurs_in(p, p));
}

/// An empty list of patterns matches no text.
pub proof fn law_empty_list_matches_nothing(text: Seq<char>)
    ensures
        !matches_any(text, Seq::<Seq<char>>::empty()),
{
}

/// The characters of `s`, in order.
fn chars_of(s: &str) -> (v: Vec<char>)
    ensures
        v@ == s@,
{
    let mut v: Vec<char> = Vec::new();
    for c in it: s.chars()
        invariant
            it.seq() == s@,
            v@ == s@.take(it.index() as int),
    {
        v.push(c);
    }
    v
}

/// `needle` matches `text` at position `at`.
fn matches_at(text: &Vec<char>, needle: &Vec<char>, at: usize) -> (b: bool)
    requires
        at + needle@.len() <= text@.len(),
    ensures
        b == (text@.subrange(at as int, at + needle@.len()) == needle@),
{
    let n = needle.len();
    let text_len = text.len();
    let mut j: usize = 0;
    while j < n
        invariant
            n == needle@.len(),
            text_len == text@.len(),
            at + n <= text@.len(),
            j <= n,
            forall|q: int| 0 <= q < j ==> text@[at + q] == needle@[q],
        decreases n - j,
    {
        if text[at + j] != needle[j] {
            assert(text@.subrange(at as int, at + n)[j as int] != needle@[j as int]);
            return false;
        }
        j = j + 1;
    }
    assert(text@.subrange(at as int, at + n) =~= needle@);
    true
}

/// `needle` occurs in `text`.
fn occurs(text: &Vec<char>, needle: &Vec<char>) -> (b: bool)
    ensures
        b == occurs_in(needle@, text@),
{
    let n = needle.len();
    let len = text.len();
    if n > len {
        return false;
    }
    let last = len - n;
    let mut at: usize = 0;
    while at <= last
        invariant
            n == needle@.len(),
            len == text@.len(),
            last == len - n,
            forall|i: int|
                0 <= i < at ==> #[trigger] text@.subrange(i, i + n) != needle@,
        decreases last + 1 - at,
    {
        if matches_at(text, needle, at) {
            return true;
        }
        if at == last {
            return false;
        }
        at = at + 1;
    }
    false
}

/// True if `s` contains any of `patterns`.
pub fn contains_any(s: &str, patterns: &[&str]) -> (b: bool)
    ensures
        b == matches_any(s@, char_lists(patterns@)),
        b == exists|k: int|
            0 <= k < patterns@.len() && exists|pre: Seq<char>, post: Seq<char>|
                s@ == pre + #[trigger] patterns@[k]@ + post,
{
    proof {
        lemma_listed_patterns_inside(s@, patterns@);
    }
    let text = chars_of(s);
    let mut k: usize = 0;
    while k < patterns.len()
        invariant
            text@ == s@,
            k <= patterns@.len(),
            forall|q: int| 0 <= q < k ==> !occurs_in(#[trigger] char_lists(patterns@)[q], s@),
        decreases patterns@.len() - k,
    {
        let needle = chars_of(patterns[k]);
        if occurs(&text, &needle) {
            assert(occurs_in(char_lists(patterns@)[k as int], s@));
            proof {
                lemma_listed_patterns_inside(s@, patterns@);
            }
            return true;
        }
        k = k + 1;
    }
    false
}

/// True if `s` looks like an Anthropic retryable error code/message.
pub fn is_anthropic_retryable(s: &str) -> (b: bool)
    ensures
        b == matches_any(s@, char_lists(ANTHROPIC_RETRYABLE@)),
        b == exists|k: int|
            0 <= k < ANTHROPIC_RETRYABLE@.len() && exists|pre: Seq<char>, post: Seq<char>|
                s@ == pre + #[trigger] ANTHROPIC_RETRYABLE@[k]@ + post,
{
    contains_any(s, &ANTHROPIC_RETRYABLE)
}

/// True if `s` looks like an OpenAI retryable error code/message.
pub fn is_openai_retryable(s: &str) -> (b: bool)
    ensures
        b == matches_any(s@, char_lists(OPENAI_RETRYABLE@)),
        b == exists|k: int|
            0 <= k < OPENAI_RETRYABLE@.len() && exists|pre: Seq<char>, post: Seq<char>|
                s@ == pre + #[trigger] OPENAI_RETRYABLE@[k]@ + post,
{
    contains_any(s, &OPENAI_RETRYABLE)
}

/// True if `s` looks like a Bedrock retryable error code/message.
pub fn is_bedrock_retryable(s: &str) -> (b: bool)
    ensures
        b == matches_any(s@, char_lists(BEDROCK_RETRYABLE@)),
        b == exists|k: int|
            0 <= k < BEDROCK_RETRYABLE@.len() && exists|pre: Seq<char>, post: Seq<char>|
                s@ == pre + #[trigger] BEDROCK_RETRYABLE@[k]@ + post,
{
    contains_any(s, &BEDROCK_RETRYABLE)
}

/// True if `s` looks like a Gemini retryable error code/message.
pub fn is_gemini_retryable(s: &str) -> (b: bool)
    ensures
        b == matches_any(s@, char_lists(GEMINI_RETRYABLE@)),
        b == exists|k: int|
            0 <= k < GEMINI_RETRYABLE@.len() && exists|pre: Seq<char>, post: Seq<char>|
                s@ == pre + #[trigger] GEMINI_RETRYABLE@[k]@ + post,
{
    contains_any(s, &GEMINI_RETRYABLE)
}

/// True if `code` is a typically-retryable HTTP status.
pub fn is_http_status_retryable(code: u16) -> (b: bool)
    ensures
        b == HTTP_RETRYABLE_STATUSES@.contains(code),
        b <==> (code == 408 || code == 425 || code == 429 || code == 500 || code == 502 || code
            == 503 || code == 504),
{
    let statuses: &[u16] = &HTTP_RETRYABLE_STATUSES;
    let mut k: usize = 0;
    while k < statuses.len()
        invariant
            statuses@ == HTTP_RETRYABLE_STATUSES@,
            k <= statuses@.len(),
            forall|q: int| 0 <= q < k ==> statuses@[q] != code,
        decreases statuses@.len() - k,
    {
        if statuses[k] == code {
            assert(statuses@[k as int] == code);
            return true;
        }
        k = k + 1;
    }
    false
}

} // verus!
