use vstd::prelude::*;
use crate::message::{Message, MessageView, opt_view};
use crate::store::{Store, StoreView, after_append};
use crate::extract::{extract_link, extract_title, link_in, title_in};
use crate::text::{feed_name_of, feed_name_spec};
use crate::clock::unix_now;

verus! {

/// A message whose link was found in a subscribed room, waiting for the page behind the link.
pub struct PendingItem {
    pub feed_name: String,
    pub sender: String,
    pub content: String,
    pub link: String,
}

/// The feed name and link under which a message is captured: `None` when the room has no
/// display name, its feed does not exist, or the message holds no link.
pub open spec fn capture_target(v: StoreView, room_name: Option<Seq<char>>, body: Seq<char>) -> Option<(Seq<char>, Seq<char>)> {
    match room_name {
        None => None,
        Some(n) => if !v.feeds.contains_key(feed_name_spec(n)) {
            None
        } else {
            match link_in(body) {
                None => None,
                Some(l) => Some((feed_name_spec(n), l)),
            }
        },
    }
}

/// The page title from what fetching the link gave back, if anything.
pub open spec fn page_title(fetched: Option<Seq<char>>) -> Option<Seq<char>> {
    match fetched {
        Some(html) => title_in(html),
        None => None,
    }
}

/// The item captured from a message, given what the fetch of its link gave back.
pub open spec fn captured(sender: Seq<char>, content: Seq<char>, link: Seq<char>, fetched: Option<Seq<char>>, time: int) -> MessageView {
    MessageView { sender, content, page_name: page_title(fetched), link, time }
}

/// The title of a fetched page, or `None` when nothing was fetched or the page has no title.
pub fn title_of_fetched(fetched: &Option<String>) -> (r: Option<String>)
    ensures
        opt_view(r) == page_title(opt_view(*fetched)),
{
    match fetched {
        Some(html) => extract_title(html.as_str()),
        None => None,
    }
}

impl Store {
    /// The first step of capturing a message: find its feed and its link. The page behind the
    /// link is fetched next, outside the store.
    pub fn begin_capture(&self, room_name: &Option<String>, sender: &String, body: &String) -> (r: Option<PendingItem>)
        requires
            self.wf(),
        ensures
            match r {
                Some(p) => capture_target(self@, opt_view(*room_name), body@) == Some((p.feed_name@, p.link@))
                    && p.sender@ == sender@ && p.content@ == body@,
                None => capture_target(self@, opt_view(*room_name), body@) is None,
            },
    {
        let display = match room_name {
            Some(n) => n,
            None => {
                return None;
            },
        };
        let feed_name = feed_name_of(display.as_str());
        if !self.has_feed(&feed_name) {
            return None;
        }
        match extract_link(body.as_str()) {
            Some(link) => Some(PendingItem { feed_name, sender: sender.clone(), content: body.clone(), link }),
            None => None,
        }
    }

    /// The last step of capturing a message: the item, with the title of the fetched page, goes
    /// in front of its feed, if the feed still exists.
    pub fn finish_capture(&mut self, p: PendingItem, fetched: Option<String>, time: i64)
        requires
            old(self).wf(),
        ensures
            final(self).wf(),
            final(self)@ == after_append(
                old(self)@,
                p.feed_name@,
                captured(p.sender@, p.content@, p.link@, opt_view(fetched), time as int),
            ),
    {
        let page_name = title_of_fetched(&fetched);
        let item = Message::new(p.sender, p.content, p.link, page_name, time);
        self.append_item(&p.feed_name, item);
    }

    /// [`Store::finish_capture`] at the current time.
    pub fn finish_capture_now(&mut self, p: PendingItem, fetched: Option<String>)
        requires
            old(self).wf(),
        ensures
            final(self).wf(),
            exists|t: i64| final(self)@ == after_append(
                old(self)@,
                p.feed_name@,
                captured(p.sender@, p.content@, p.link@, opt_view(fetched), t as int),
            ),
    {
        let t = unix_now();
        self.finish_capture(p, fetched, t);
    }
}

} // verus!
