use matrix_rss::http::{respond_at, send_rss};
use matrix_rss::message::Message;
use matrix_rss::store::Store;

fn store_with_feed(name: &str) -> Store {
    let mut store = Store::new();
    store.subscribe(String::from("!a:x"), String::from(name));
    store.append_item(
        &String::from(name),
        Message::new(String::from("@bob:x"), String::from("https://ex.com"), String::from("https://ex.com"), None, 0),
    );
    store
}

fn get(store: &Store, path: &str) -> matrix_rss::http::HttpResponse {
    respond_at(store, true, &String::from(path), &String::from("https://hs"), 0)
}

#[test]
fn other_methods_are_not_allowed() {
    let store = store_with_feed("news");
    let r = respond_at(&store, false, &String::from("/news"), &String::from("https://hs"), 0);
    assert_eq!(r.status, 405);
    assert!(r.body.is_empty());
    assert!(r.headers.is_empty());
}

#[test]
fn unknown_feed_is_not_found() {
    let store = store_with_feed("news");
    assert_eq!(get(&store, "/sport").status, 404);
    assert_eq!(get(&store, "/").status, 404);
}

#[test]
fn extra_segments_are_not_found() {
    let store = store_with_feed("news");
    assert_eq!(get(&store, "/news/extra").status, 404);
    assert_eq!(get(&store, "/news/").status, 404);
}

#[test]
fn bad_percent_encoding_is_not_found() {
    let store = store_with_feed("news");
    assert_eq!(get(&store, "/%ff%fe").status, 404);
}

#[test]
fn found_feed_is_served() {
    let store = store_with_feed("news");
    let r = get(&store, "/news");
    assert_eq!(r.status, 200);
    let headers: Vec<(String, String)> = r.headers.into_iter().map(|h| (h.name, h.value)).collect();
    assert_eq!(
        headers,
        vec![
            (String::from("Content-Type"), String::from("text/xml; charset=utf-8")),
            (String::from("Access-Control-Allow-Origin"), String::from("*")),
        ]
    );
    assert!(r.body.contains("<title>news messages</title>"));
    assert!(r.body.contains("<item><title>https://ex.com</title>"));
}

#[test]
fn percent_encoded_name_is_decoded() {
    let store = store_with_feed("my news");
    let r = get(&store, "/my%20news");
    assert_eq!(r.status, 200);
    assert!(r.body.contains("<title>my news messages</title>"));
}

#[test]
fn send_rss_uses_current_time() {
    let store = store_with_feed("news");
    let r = send_rss(&store, true, &String::from("/news"), &String::from("https://hs"));
    assert_eq!(r.status, 200);
    assert!(r.body.contains("<lastBuildDate>"));
}
