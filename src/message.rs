use vstd::prelude::*;

verus! {

/// The earliest capture time (in seconds since the Unix epoch) that can be written as an
/// RFC 2822 date: the start of year 0.
pub const MIN_TIME: i64 = -62167219200;

/// The latest capture time that can be written as an RFC 2822 date: the end of year 9999.
pub const MAX_TIME: i64 = 253402300799;

/// One captured chat message: who sent it, what it said, the link found in it and the
/// title of the page behind that link, if one could be read.
pub struct Message {
    pub sender: String,
    pub content: String,
    pub page_name: Option<String>,
    pub link: String,
    /// Capture time, in seconds since the Unix epoch.
    pub time: i64,
}

/// The mathematical value of a [`Message`].
pub struct MessageView {
    pub sender: Seq<char>,
    pub content: Seq<char>,
    pub page_name: Option<Seq<char>>,
    pub link: Seq<char>,
    pub time: int,
}

pub open spec fn opt_view(o: Option<String>) -> Option<Seq<char>> {
    match o {
        Some(s) => Some(s@),
        None => None,
    }
}

impl View for Message {
    type V = MessageView;

    open spec fn view(&self) -> MessageView {
        MessageView {
            sender: self.sender@,
            content: self.content@,
            page_name: opt_view(self.page_name),
            link: self.link@,
            time: self.time as int,
        }
    }
}

pub open spec fn messages_view(v: Seq<Message>) -> Seq<MessageView> {
    v.map_values(|m: Message| m@)
}

/// A copy of an optional string.
pub fn copy_opt(o: &Option<String>) -> (r: Option<String>)
    ensures
        opt_view(r) == opt_view(*o),
{
    match o {
        Some(s) => Some(s.clone()),
        None => None,
    }
}

impl Message {
    pub fn new(sender: String, content: String, link: String, page_name: Option<String>, time: i64) -> (r: Message)
        ensures
            r@ == (MessageView { sender: sender@, content: content@, page_name: opt_view(page_name), link: link@, time: time as int }),
    {
        Message { sender, content, page_name, link, time }
    }

    /// A deep copy of this message.
    pub fn copy(&self) -> (r: Message)
        ensures
            r@ == self@,
    {
        Message {
            sender: self.sender.clone(),
            content: self.content.clone(),
            page_name: copy_opt(&self.page_name),
            link: self.link.clone(),
            time: self.time,
        }
    }
}

/// A deep copy of a list of messages, in the same order.
pub fn copy_messages(v: &Vec<Message>) -> (r: Vec<Message>)
    ensures
        messages_view(r@) == messages_view(v@),
{
    let mut r: Vec<Message> = Vec::new();
    let mut i: usize = 0;
    while i < v.len()
        invariant
            i <= v.len(),
            r@.len() == i,
            forall|k: int| 0 <= k < i ==> (#[trigger] r@[k])@ == v@[k]@,
        decreases v.len() - i,
    {
        let m = v[i].copy();
        r.push(m);
        i = i + 1;
    }
    assert(messages_view(r@) =~= messages_view(v@));
    r
}

} // verus!
