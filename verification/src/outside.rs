//! The calls this crate makes into `url`, `regex` and `serde_json`.
//!
//! Verus does not read the bodies below. What each of those crates returns is
//! a function of the arguments alone but takes pages to state, so each result
//! gets a name, and the contracts of the verified code speak of the names.

use vstd::prelude::*;

verus! {

/// The host of an absolute URL, written as the `url` crate displays it;
/// `None` for a text that is no absolute URL or a URL without a host.
pub uninterp spec fn url_host_text(input: Seq<char>) -> Option<Seq<char>>;

/// The text of capture group `group` in the leftmost match of `pattern` in
/// `haystack`; `None` when the pattern does not compile, when nothing
/// matches, or when the group took no part in the match.
pub uninterp spec fn regex_group_text(
    pattern: Seq<char>,
    haystack: Seq<char>,
    group: usize,
) -> Option<Seq<char>>;

/// A text as a JSON string literal: quoted, with the escapes JSON asks for.
pub uninterp spec fn json_string_text(value: Seq<char>) -> Seq<char>;

/// Calls `url::Url::parse` and, on the parsed URL, `Url::host`; the host is
/// turned into text by its `Display`. A parse error and a URL without a host
/// both give `None`. Trusted: that the outcome is `url_host_text` of the
/// input.
#[verifier::external_body]
pub(crate) fn url_host(input: &str) -> (host: Option<String>)
    ensures
        match host {
            Some(h) => url_host_text(input@) == Some(h@),
            None => url_host_text(input@) is None,
        },
{
    match url::Url::parse(input) {
        Ok(parsed) => match parsed.host() {
            Some(host) => Some(host.to_string()),
            None => None,
        },
        Err(_) => None,
    }
}

/// Compiles `pattern` with `regex::Regex::new`, searches `haystack` with
/// `Regex::captures` and reads one group with `Captures::get`. Trusted: that
/// the outcome is `regex_group_text` of the arguments.
#[verifier::external_body]
pub(crate) fn regex_group(pattern: &str, haystack: &str, group: usize) -> (text: Option<String>)
    ensures
        match text {
            Some(t) => regex_group_text(pattern@, haystack@, group) == Some(t@),
            None => regex_group_text(pattern@, haystack@, group) is None,
        },
{
    match regex::Regex::new(pattern) {
        Ok(compiled) => match compiled.captures(haystack) {
            Some(found) => match found.get(group) {
                Some(hit) => Some(hit.as_str().to_string()),
                None => None,
            },
            None => None,
        },
        Err(_) => None,
    }
}

/// Writes `serde_json::Value::String` of the text as compact JSON. Trusted:
/// that the outcome is `json_string_text` of the input.
#[verifier::external_body]
pub(crate) fn json_string(value: &str) -> (text: String)
    ensures
        text@ == json_string_text(value@),
{
    serde_json::Value::String(value.to_string()).to_string()
}

} // verus!
