use matrix_rss::message::Message;
use matrix_rss::store::{Store, SubscribeOutcome, UnsubscribeOutcome, FEED_CAP};

fn item(n: i64) -> Message {
    Message::new(
        String::from("@alice:example.org"),
        format!("message {n} https://example.com/{n}"),
        format!("https://example.com/{n}"),
        None,
        1_700_000_000 + n,
    )
}

fn names(store: &Store) -> Vec<(String, String)> {
    store.list_subscriptions().into_iter().map(|s| (s.room_id, s.feed_name)).collect()
}

#[test]
fn subscribe_creates_empty_feed() {
    let mut store = Store::new();
    let r = store.subscribe(String::from("!a:x"), String::from("news"));
    assert_eq!(r, SubscribeOutcome::Created);
    let feed = store.get_feed(&String::from("news")).unwrap();
    assert_eq!(feed.name, "news");
    assert!(feed.items.is_empty());
    assert!(store.is_room_subscribed(&String::from("!a:x")));
    assert!(store.has_feed(&String::from("news")));
}

#[test]
fn subscribe_twice_keeps_feed() {
    let mut store = Store::new();
    store.subscribe(String::from("!a:x"), String::from("news"));
    store.append_item(&String::from("news"), item(1));
    let r = store.subscribe(String::from("!a:x"), String::from("other"));
    assert_eq!(r, SubscribeOutcome::AlreadyExists);
    assert_eq!(store.get_feed(&String::from("news")).unwrap().items.len(), 1);
    assert!(store.get_feed(&String::from("other")).is_none());
    assert_eq!(names(&store), vec![(String::from("!a:x"), String::from("news"))]);
}

#[test]
fn unsubscribe_absent_is_noop() {
    let mut store = Store::new();
    store.subscribe(String::from("!a:x"), String::from("news"));
    store.append_item(&String::from("news"), item(1));
    let r = store.unsubscribe(&String::from("!b:x"));
    assert_eq!(r, UnsubscribeOutcome::NotSubscribed);
    assert_eq!(names(&store).len(), 1);
    assert_eq!(store.get_feed(&String::from("news")).unwrap().items.len(), 1);
}

#[test]
fn unsubscribe_removes_feed() {
    let mut store = Store::new();
    store.subscribe(String::from("!a:x"), String::from("news"));
    let r = store.unsubscribe(&String::from("!a:x"));
    assert_eq!(r, UnsubscribeOutcome::Removed);
    assert!(store.get_feed(&String::from("news")).is_none());
    assert!(names(&store).is_empty());
    assert_eq!(store.unsubscribe(&String::from("!a:x")), UnsubscribeOutcome::NotSubscribed);
}

#[test]
fn cap_keeps_latest_items() {
    let mut store = Store::new();
    store.subscribe(String::from("!a:x"), String::from("news"));
    for n in 0..60 {
        store.append_item(&String::from("news"), item(n));
        let len = store.get_feed(&String::from("news")).unwrap().items.len();
        assert!(len <= FEED_CAP);
        assert_eq!(len, std::cmp::min(n as usize + 1, 50));
    }
    let items = store.get_feed(&String::from("news")).unwrap().items;
    assert_eq!(items.len(), 50);
    for (i, m) in items.iter().enumerate() {
        assert_eq!(m.time, 1_700_000_000 + 59 - i as i64);
    }
    assert_eq!(items[0].link, "https://example.com/59");
    assert_eq!(items[49].link, "https://example.com/10");
}

#[test]
fn append_to_missing_feed_is_noop() {
    let mut store = Store::new();
    store.append_item(&String::from("news"), item(1));
    assert!(store.get_feed(&String::from("news")).is_none());
    assert!(names(&store).is_empty());
}

#[test]
fn unsubscribe_leaves_other_rooms() {
    let mut store = Store::new();
    store.subscribe(String::from("!a:x"), String::from("news"));
    store.subscribe(String::from("!b:x"), String::from("sport"));
    store.append_item(&String::from("sport"), item(1));
    store.append_item(&String::from("sport"), item(2));
    store.unsubscribe(&String::from("!a:x"));
    let sport = store.get_feed(&String::from("sport")).unwrap();
    assert_eq!(sport.items.len(), 2);
    assert_eq!(sport.items[0].time, 1_700_000_002);
    assert_eq!(names(&store), vec![(String::from("!b:x"), String::from("sport"))]);
}

#[test]
fn list_keeps_subscription_order() {
    let mut store = Store::new();
    store.subscribe(String::from("!c:x"), String::from("c"));
    store.subscribe(String::from("!a:x"), String::from("a"));
    store.subscribe(String::from("!b:x"), String::from("b"));
    store.unsubscribe(&String::from("!a:x"));
    assert_eq!(
        names(&store),
        vec![(String::from("!c:x"), String::from("c")), (String::from("!b:x"), String::from("b"))]
    );
}

#[test]
fn snapshot_is_a_copy() {
    let mut store = Store::new();
    store.subscribe(String::from("!a:x"), String::from("news"));
    store.append_item(&String::from("news"), item(1));
    let before = store.get_feed(&String::from("news")).unwrap();
    store.append_item(&String::from("news"), item(2));
    assert_eq!(before.items.len(), 1);
    let copy = before.items[0].copy();
    assert_eq!(copy.content, before.items[0].content);
    assert_eq!(copy.page_name, None);
}

#[test]
fn shared_feed_name_is_one_feed() {
    let mut store = Store::new();
    store.subscribe(String::from("!a:x"), String::from("news"));
    store.append_item(&String::from("news"), item(1));
    assert_eq!(store.subscribe(String::from("!b:x"), String::from("news")), SubscribeOutcome::Created);
    assert!(store.get_feed(&String::from("news")).unwrap().items.is_empty());
    store.unsubscribe(&String::from("!a:x"));
    assert!(store.get_feed(&String::from("news")).is_none());
    assert!(store.is_room_subscribed(&String::from("!b:x")));
}
