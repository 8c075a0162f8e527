use matrix_rss::message::{Message, MAX_TIME, MIN_TIME};
use matrix_rss::render::{build_channel, build_rss, clamp, format_time};

fn message(page_name: Option<&str>) -> Message {
    Message::new(
        String::from("@bob:example.org"),
        String::from("see https://ex.com hi"),
        String::from("https://ex.com"),
        page_name.map(String::from),
        0,
    )
}

#[test]
fn formats_rfc2822() {
    assert_eq!(format_time(0), "Thu, 1 Jan 1970 00:00:00 +0000");
    assert_eq!(format_time(1_000_000_000), "Sun, 9 Sep 2001 01:46:40 +0000");
}

#[test]
fn clamps_unrepresentable_times() {
    assert_eq!(clamp(i64::MAX), MAX_TIME);
    assert_eq!(clamp(i64::MIN), MIN_TIME);
    assert_eq!(clamp(5), 5);
    assert_eq!(format_time(i64::MAX), format_time(MAX_TIME));
}

#[test]
fn channel_fields() {
    let hs = String::from("https://matrix.example.org");
    let c = build_channel(&String::from("news"), &vec![message(Some("Hi")), message(None)], &hs, 0);
    assert_eq!(c.title, "news messages");
    assert_eq!(c.description, "An RSS feed for news matrix channel messages");
    assert_eq!(c.language, "en-US");
    assert_eq!(c.ttl, "60");
    assert_eq!(c.category, "Matrix");
    assert_eq!(c.pub_date, "Thu, 1 Jan 1970 00:00:00 +0000");
    assert_eq!(c.items.len(), 2);
    assert_eq!(c.items[0].title, "Hi");
    assert_eq!(c.items[0].author, "@bob:example.org");
    assert_eq!(c.items[0].link, "https://ex.com");
    assert_eq!(c.items[0].source, hs);
    assert_eq!(c.items[0].content, "see https://ex.com hi");
    assert_eq!(c.items[1].title, "see https://ex.com hi");
}

#[test]
fn renders_rss_document() {
    let hs = String::from("https://matrix.example.org");
    let xml = build_rss(&String::from("news"), &vec![message(Some("Hi"))], &hs, 0);
    assert!(xml.contains("<rss"));
    assert!(xml.contains("<title>news messages</title>"));
    assert!(xml.contains("<language>en-US</language>"));
    assert!(xml.contains("<ttl>60</ttl>"));
    assert!(xml.contains("<category>Matrix</category>"));
    assert!(xml.contains("<item><title>Hi</title>"));
    assert!(xml.contains("<link>https://ex.com</link>"));
    assert!(xml.contains("<author>@bob:example.org</author>"));
    assert!(xml.contains("<pubDate>Thu, 1 Jan 1970 00:00:00 +0000</pubDate>"));
    assert!(xml.contains("<lastBuildDate>Thu, 1 Jan 1970 00:00:00 +0000</lastBuildDate>"));
    assert!(xml.contains("https://matrix.example.org"));
}

#[test]
fn empty_feed_renders_no_items() {
    let xml = build_rss(&String::from("quiet"), &Vec::new(), &String::from("https://hs"), 0);
    assert!(xml.contains("<title>quiet messages</title>"));
    assert!(!xml.contains("<item>"));
}

#[test]
fn formats_range_ends() {
    assert_eq!(format_time(MIN_TIME), "Sat, 1 Jan 0000 00:00:00 +0000");
    assert_eq!(format_time(MAX_TIME), "Fri, 31 Dec 9999 23:59:59 +0000");
    assert_eq!(format_time(i64::MIN), format_time(MIN_TIME));
}
