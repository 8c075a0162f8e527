use matrix_rss::command::handle_command;
use matrix_rss::store::Store;

fn run(store: &mut Store, room: &str, name: Option<&str>, body: &str) -> String {
    handle_command(store, &String::from(room), &name.map(String::from), &String::from(body))
}

const USAGE: &str = "Accepted commands are: subscribe, unsubscribe, list";

#[test]
fn wrong_word_count_gives_usage() {
    let mut store = Store::new();
    assert_eq!(run(&mut store, "!a:x", Some("#news"), "!rss"), USAGE);
    assert_eq!(run(&mut store, "!a:x", Some("#news"), "!rss subscribe now"), USAGE);
    assert!(store.list_subscriptions().is_empty());
}

#[test]
fn help_and_unknown_give_usage() {
    let mut store = Store::new();
    assert_eq!(run(&mut store, "!a:x", Some("#news"), "!rss help"), USAGE);
    assert_eq!(run(&mut store, "!a:x", Some("#news"), "!rss frobnicate"), USAGE);
}

#[test]
fn room_without_name_is_refused() {
    let mut store = Store::new();
    assert_eq!(run(&mut store, "!a:x", None, "!rss subscribe"), "Please set a room name first");
    assert!(store.list_subscriptions().is_empty());
}

#[test]
fn subscribe_replies() {
    let mut store = Store::new();
    assert_eq!(run(&mut store, "!a:x", Some("#news"), "!rss subscribe"), "Successfully subscribed to room \"news\"");
    assert_eq!(run(&mut store, "!a:x", Some("#news"), "!rss subscribe"), "Already subscribed to room \"news\"");
    assert!(store.has_feed(&String::from("news")));
}

#[test]
fn unsubscribe_replies_with_own_wording() {
    let mut store = Store::new();
    run(&mut store, "!a:x", Some("#news"), "!rss subscribe");
    assert_eq!(
        run(&mut store, "!a:x", Some("#news"), "!rss unsubscribe"),
        "Successfully unsubscribed from room \"news\""
    );
    assert!(!store.has_feed(&String::from("news")));
    assert_eq!(run(&mut store, "!a:x", Some("#news"), "!rss unsubscribe"), "Already unsubscribed from room \"news\"");
}

#[test]
fn list_reply() {
    let mut store = Store::new();
    assert_eq!(run(&mut store, "!a:x", Some("#news"), "!rss list"), "Subscribed to:");
    run(&mut store, "!a:x", Some("#news"), "!rss subscribe");
    run(&mut store, "!b:x", Some("#sport"), "!rss subscribe");
    assert_eq!(
        run(&mut store, "!c:x", Some("#other"), "!rss list"),
        "Subscribed to:\n\t- news (!a:x)\n\t- sport (!b:x)"
    );
}
