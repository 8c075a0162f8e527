use vstd::prelude::*;
use crate::store::{Store, StoreView};
use crate::text::{second_part, second_part_of};
use crate::render::{build_rss, rss_xml, channel_for};
use crate::clock::unix_now;

verus! {

/// What urlencoding decodes a percent-encoded text to; `None` when the bytes it stands for
/// are not UTF-8.
pub uninterp spec fn percent_decoded(s: Seq<char>) -> Option<Seq<char>>;

/// Relies on `urlencoding::decode`: the decoded text depends on the input alone, and a text
/// without `%` comes back as it is.
#[verifier::external_body]
fn percent_decode(s: &str) -> (r: Option<String>)
    ensures
        match r {
            Some(t) => percent_decoded(s@) == Some(t@),
            None => percent_decoded(s@) is None,
        },
        (forall|i: int| 0 <= i < s@.len() ==> s@[i] != '%') ==> (r is Some && r->0@ == s@),
{
    urlencoding::decode(s).ok().map(|t| t.into_owned())
}

pub struct Header {
    pub name: String,
    pub value: String,
}

/// An HTTP response: status code, headers and body.
pub struct HttpResponse {
    pub status: u16,
    pub headers: Vec<Header>,
    pub body: String,
}

pub struct ResponseView {
    pub status: u16,
    pub headers: Seq<(Seq<char>, Seq<char>)>,
    pub body: Seq<char>,
}

impl View for HttpResponse {
    type V = ResponseView;

    open spec fn view(&self) -> ResponseView {
        ResponseView {
            status: self.status,
            headers: self.headers@.map_values(|h: Header| (h.name@, h.value@)),
            body: self.body@,
        }
    }
}

/// The feed name that a request path asks for: the one segment after `/`, percent-decoded.
pub open spec fn requested_feed(path: Seq<char>) -> Option<Seq<char>> {
    match second_part(path, '/') {
        Some(segment) => percent_decoded(segment),
        None => None,
    }
}

pub open spec fn feed_headers() -> Seq<(Seq<char>, Seq<char>)> {
    seq![("Content-Type"@, "text/xml; charset=utf-8"@), ("Access-Control-Allow-Origin"@, "*"@)]
}

pub open spec fn status_only(status: u16) -> ResponseView {
    ResponseView { status, headers: Seq::empty(), body: Seq::empty() }
}

/// The response to a request at time `now`: 405 for a method other than GET, 404 for a path
/// that names no feed, else 200 with the feed's RSS document.
pub open spec fn response_for(v: StoreView, is_get: bool, path: Seq<char>, homeserver: Seq<char>, now: int) -> ResponseView {
    if !is_get {
        status_only(405)
    } else {
        match requested_feed(path) {
            Some(name) => if v.feeds.contains_key(name) {
                ResponseView {
                    status: 200,
                    headers: feed_headers(),
                    body: rss_xml(channel_for(name, v.feeds[name], homeserver, now)),
                }
            } else {
                status_only(404)
            },
            None => status_only(404),
        }
    }
}

fn status_response(status: u16) -> (r: HttpResponse)
    ensures
        r@ == status_only(status),
{
    let r = HttpResponse { status, headers: Vec::new(), body: String::new() };
    assert(r@.headers =~= Seq::<(Seq<char>, Seq<char>)>::empty());
    r
}

fn header(name: &str, value: &str) -> (r: Header)
    ensures
        r.name@ == name@,
        r.value@ == value@,
{
    Header { name: String::from_str(name), value: String::from_str(value) }
}

/// Answers a request for `path` (GET when `is_get`) from the store, rendering at time `now`.
pub fn respond_at(store: &Store, is_get: bool, path: &String, homeserver_url: &String, now: i64) -> (r: HttpResponse)
    requires
        store.wf(),
    ensures
        r@ == response_for(store@, is_get, path@, homeserver_url@, now as int),
{
    if !is_get {
        return status_response(405);
    }
    let segment = match second_part_of(path.as_str(), '/') {
        Some(s) => s,
        None => {
            return status_response(404);
        },
    };
    let name = match percent_decode(segment.as_str()) {
        Some(n) => n,
        None => {
            return status_response(404);
        },
    };
    match store.get_feed(&name) {
        Some(feed) => {
            let body = build_rss(&feed.name, &feed.items, homeserver_url, now);
            let mut headers: Vec<Header> = Vec::new();
            headers.push(header("Content-Type", "text/xml; charset=utf-8"));
            headers.push(header("Access-Control-Allow-Origin", "*"));
            let r = HttpResponse { status: 200, headers, body };
            assert(r@.headers =~= feed_headers());
            r
        },
        None => status_response(404),
    }
}

/// Answers a request for `path` from the store, rendering at the current time.
pub fn send_rss(store: &Store, is_get: bool, path: &String, homeserver_url: &String) -> (r: HttpResponse)
    requires
        store.wf(),
    ensures
        exists|t: i64| r@ == response_for(store@, is_get, path@, homeserver_url@, t as int),
{
    let now = unix_now();
    respond_at(store, is_get, path, homeserver_url, now)
}

} // verus!
