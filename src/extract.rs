use vstd::prelude::*;

verus! {

/// An HTTP(S) link: scheme, optional `www.`, a host with at least one dot, then an optional
/// path and query. The whole link is group 1.
pub const URL_PATTERN: &'static str = "(?<url>https?://(www\\.)?[-a-zA-Z0-9@:%._+~#=]{1,256}\\.[a-zA-Z0-9()]{1,6}\\b([-a-zA-Z0-9()@:%_+.~#?&/=]*))";

/// The text of the first `<title>` element on one line. The text is group 1.
pub const TITLE_PATTERN: &'static str = "<title>(?<title>.*)</title>";

/// What group `group` of the leftmost match of `pattern` in `haystack` holds, as the regex
/// crate computes it; `None` when the pattern does not compile, nothing matches or the group
/// took no part in the match.
pub uninterp spec fn regex_capture(pattern: Seq<char>, haystack: Seq<char>, group: nat) -> Option<Seq<char>>;

/// Relies on `regex::Regex::new` and `regex::Regex::captures` with `Captures::get`: the text of
/// one group of the leftmost match, which depends on the pattern and the haystack alone.
#[verifier::external_body]
fn capture_group(pattern: &str, haystack: &str, group: usize) -> (r: Option<String>)
    ensures
        match r {
            Some(t) => regex_capture(pattern@, haystack@, group as nat) == Some(t@),
            None => regex_capture(pattern@, haystack@, group as nat) is None,
        },
{
    let re = regex::Regex::new(pattern).ok()?;
    re.captures(haystack)?.get(group).map(|m| m.as_str().to_string())
}

/// The first link in a message body.
pub open spec fn link_in(body: Seq<char>) -> Option<Seq<char>> {
    regex_capture(URL_PATTERN@, body, 1)
}

/// The title of an HTML page.
pub open spec fn title_in(html: Seq<char>) -> Option<Seq<char>> {
    regex_capture(TITLE_PATTERN@, html, 1)
}

/// The first link in a message body, or `None` when it holds none.
pub fn extract_link(body: &str) -> (r: Option<String>)
    ensures
        match r {
            Some(t) => link_in(body@) == Some(t@),
            None => link_in(body@) is None,
        },
{
    capture_group(URL_PATTERN, body, 1)
}

/// The text of the first `<title>` element of an HTML page, or `None` when it has none.
pub fn extract_title(html: &str) -> (r: Option<String>)
    ensures
        match r {
            Some(t) => title_in(html@) == Some(t@),
            None => title_in(html@) is None,
        },
{
    capture_group(TITLE_PATTERN, html, 1)
}

} // verus!
