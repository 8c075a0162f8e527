use vstd::prelude::*;
use crate::message::{Message, MessageView, MIN_TIME, MAX_TIME, messages_view};
use rss::{Channel, Item, Source};

verus! {

/// What chrono writes for a time (seconds since the Unix epoch, UTC) as an RFC 2822 date.
pub uninterp spec fn rfc2822_of(secs: int) -> Seq<char>;

/// Relies on `chrono::DateTime::from_timestamp` and `DateTime::<Utc>::to_rfc2822`: the date
/// text depends on the time alone. Both succeed for years 0 to 9999, which `requires` asks.
#[verifier::external_body]
fn rfc2822(secs: i64) -> (r: String)
    requires
        MIN_TIME <= secs <= MAX_TIME,
    ensures
        r@ == rfc2822_of(secs as int),
{
    chrono::DateTime::from_timestamp(secs, 0).map(|d| d.to_rfc2822()).unwrap_or_default()
}

/// A time brought into the range that an RFC 2822 date can show.
pub open spec fn clamp_time(t: int) -> int {
    if t < MIN_TIME {
        MIN_TIME as int
    } else if t > MAX_TIME {
        MAX_TIME as int
    } else {
        t
    }
}

pub fn clamp(t: i64) -> (r: i64)
    ensures
        r as int == clamp_time(t as int),
{
    if t < MIN_TIME {
        MIN_TIME
    } else if t > MAX_TIME {
        MAX_TIME
    } else {
        t
    }
}

/// An RFC 2822 date for a capture time.
pub fn format_time(t: i64) -> (r: String)
    ensures
        r@ == rfc2822_of(clamp_time(t as int)),
{
    rfc2822(clamp(t))
}

/// One item of an RSS channel.
pub struct FeedEntry {
    pub title: String,
    pub author: String,
    pub link: String,
    /// Both the URL and the title of the item's source.
    pub source: String,
    pub pub_date: String,
    /// Both the description and the content of the item.
    pub content: String,
}

pub struct EntryView {
    pub title: Seq<char>,
    pub author: Seq<char>,
    pub link: Seq<char>,
    pub source: Seq<char>,
    pub pub_date: Seq<char>,
    pub content: Seq<char>,
}

impl View for FeedEntry {
    type V = EntryView;

    open spec fn view(&self) -> EntryView {
        EntryView {
            title: self.title@,
            author: self.author@,
            link: self.link@,
            source: self.source@,
            pub_date: self.pub_date@,
            content: self.content@,
        }
    }
}

/// An RSS 2.0 channel. Its publication date is also its last build date.
pub struct FeedChannel {
    pub title: String,
    pub description: String,
    pub language: String,
    pub ttl: String,
    pub category: String,
    pub pub_date: String,
    pub items: Vec<FeedEntry>,
}

pub struct ChannelView {
    pub title: Seq<char>,
    pub description: Seq<char>,
    pub language: Seq<char>,
    pub ttl: Seq<char>,
    pub category: Seq<char>,
    pub pub_date: Seq<char>,
    pub items: Seq<EntryView>,
}

impl View for FeedChannel {
    type V = ChannelView;

    open spec fn view(&self) -> ChannelView {
        ChannelView {
            title: self.title@,
            description: self.description@,
            language: self.language@,
            ttl: self.ttl@,
            category: self.category@,
            pub_date: self.pub_date@,
            items: self.items@.map_values(|e: FeedEntry| e@),
        }
    }
}

/// The XML text that the rss crate writes for a channel.
pub uninterp spec fn rss_xml(c: ChannelView) -> Seq<char>;

/// Relies on `rss::Channel`'s `Display` impl (`to_string`): the XML text depends on the
/// channel's fields alone. The body only moves each field into rss's own types.
#[verifier::external_body]
fn channel_xml(c: FeedChannel) -> (r: String)
    ensures
        r@ == rss_xml(c@),
{
    let items = c.items.into_iter().map(|e| Item {
        title: Some(e.title), author: Some(e.author), link: Some(e.link), pub_date: Some(e.pub_date),
        source: Some(Source { url: e.source.clone(), title: Some(e.source) }),
        description: Some(e.content.clone()), content: Some(e.content), ..Default::default()
    }).collect();
    Channel {
        title: c.title, description: c.description, language: Some(c.language), ttl: Some(c.ttl),
        categories: vec![c.category.into()], pub_date: Some(c.pub_date.clone()),
        last_build_date: Some(c.pub_date), items, ..Default::default()
    }.to_string()
}

/// The RSS item for a captured message: titled by its page title, or by the message itself
/// when there is none.
pub open spec fn entry_for(m: MessageView, homeserver: Seq<char>) -> EntryView {
    EntryView {
        title: match m.page_name {
            Some(t) => t,
            None => m.content,
        },
        author: m.sender,
        link: m.link,
        source: homeserver,
        pub_date: rfc2822_of(clamp_time(m.time)),
        content: m.content,
    }
}

/// The RSS channel for a feed, rendered at time `now`.
pub open spec fn channel_for(name: Seq<char>, items: Seq<MessageView>, homeserver: Seq<char>, now: int) -> ChannelView {
    ChannelView {
        title: name + " messages"@,
        description: "An RSS feed for "@ + name + " matrix channel messages"@,
        language: "en-US"@,
        ttl: "60"@,
        category: "Matrix"@,
        pub_date: rfc2822_of(clamp_time(now)),
        items: items.map_values(|m: MessageView| entry_for(m, homeserver)),
    }
}

pub fn build_entry(m: &Message, homeserver_url: &String) -> (r: FeedEntry)
    ensures
        r@ == entry_for(m@, homeserver_url@),
{
    let title = match &m.page_name {
        Some(t) => t.clone(),
        None => m.content.clone(),
    };
    FeedEntry {
        title,
        author: m.sender.clone(),
        link: m.link.clone(),
        source: homeserver_url.clone(),
        pub_date: format_time(m.time),
        content: m.content.clone(),
    }
}

/// The RSS channel of a feed's messages (newest first), rendered at time `now`.
pub fn build_channel(name: &String, messages: &Vec<Message>, homeserver_url: &String, now: i64) -> (r: FeedChannel)
    ensures
        r@ == channel_for(name@, messages_view(messages@), homeserver_url@, now as int),
{
    let mut items: Vec<FeedEntry> = Vec::new();
    let mut i: usize = 0;
    while i < messages.len()
        invariant
            i <= messages@.len(),
            items@.len() == i,
            forall|k: int| 0 <= k < i ==> (#[trigger] items@[k])@ == entry_for(messages@[k]@, homeserver_url@),
        decreases messages.len() - i,
    {
        items.push(build_entry(&messages[i], homeserver_url));
        i = i + 1;
    }
    let mut title = name.clone();
    title.append(" messages");
    let mut description = String::from_str("An RSS feed for ");
    description.append(name.as_str());
    description.append(" matrix channel messages");
    let r = FeedChannel {
        title,
        description,
        language: String::from_str("en-US"),
        ttl: String::from_str("60"),
        category: String::from_str("Matrix"),
        pub_date: format_time(now),
        items,
    };
    assert(r@.items =~= messages_view(messages@).map_values(|m: MessageView| entry_for(m, homeserver_url@)));
    r
}

/// The RSS document of a feed's messages (newest first), rendered at time `now`.
pub fn build_rss(name: &String, messages: &Vec<Message>, homeserver_url: &String, now: i64) -> (r: String)
    ensures
        r@ == rss_xml(channel_for(name@, messages_view(messages@), homeserver_url@, now as int)),
{
    channel_xml(build_channel(name, messages, homeserver_url, now))
}

} // verus!
