use vstd::prelude::*;
use crate::message::MessageView;
use crate::capture::{capture_target, captured};
use crate::extract::{link_in, title_in};
use crate::render::entry_for;
use crate::store::{
    FEED_CAP, StoreView, is_subscribed, subscription_index, after_subscribe, after_unsubscribe,
    after_append, prepend_capped, valid_view,
};

verus! {

/// Subscribing a room that is already subscribed changes nothing, whatever name is given.
pub proof fn lemma_subscribe_when_subscribed(v: StoreView, room: Seq<char>, name: Seq<char>)
    requires
        is_subscribed(v, room),
    ensures
        after_subscribe(v, room, name) == v,
{
}

/// Subscribing the same room twice leaves the store as subscribing it once did: the second
/// call does not reset the feed.
pub proof fn lemma_subscribe_twice(v: StoreView, room: Seq<char>, name: Seq<char>, name2: Seq<char>)
    ensures
        after_subscribe(after_subscribe(v, room, name), room, name2) == after_subscribe(v, room, name),
{
    let w = after_subscribe(v, room, name);
    if !is_subscribed(v, room) {
        assert(w.subscriptions[v.subscriptions.len() as int].0 == room);
    }
}

/// Unsubscribing a room that is not subscribed changes nothing.
pub proof fn lemma_unsubscribe_when_absent(v: StoreView, room: Seq<char>)
    requires
        !is_subscribed(v, room),
    ensures
        after_unsubscribe(v, room) == v,
{
}

/// The feed after appending `items` to `start`, one after the other.
pub open spec fn appended_all(start: Seq<MessageView>, items: Seq<MessageView>) -> Seq<MessageView>
    decreases items.len(),
{
    if items.len() == 0 {
        start
    } else {
        prepend_capped(appended_all(start, items.drop_last()), items.last())
    }
}

/// Appending to a feed within the cap keeps it within the cap.
pub proof fn lemma_append_within_cap(feed: Seq<MessageView>, m: MessageView)
    requires
        feed.len() <= FEED_CAP,
    ensures
        prepend_capped(feed, m).len() <= FEED_CAP,
        prepend_capped(feed, m)[0] == m,
{
}

/// A valid store stays valid after any append.
pub proof fn lemma_append_keeps_valid(v: StoreView, name: Seq<char>, m: MessageView)
    requires
        valid_view(v),
    ensures
        valid_view(after_append(v, name, m)),
{
    let w = after_append(v, name, m);
    assert forall|k: Seq<char>| #[trigger] w.feeds.contains_key(k) implies w.feeds[k].len() <= FEED_CAP by {
        if k == name {
            lemma_append_within_cap(v.feeds[name], m);
        }
    }
}

/// After any sequence of appends to a new feed, the feed holds the most recent
/// [`FEED_CAP`] items (or all of them, if fewer), newest first.
pub proof fn lemma_feed_keeps_latest(items: Seq<MessageView>)
    ensures
        appended_all(Seq::empty(), items).len() == (if items.len() < FEED_CAP { items.len() } else { FEED_CAP as nat }),
        forall|i: int| 0 <= i < appended_all(Seq::empty(), items).len()
            ==> #[trigger] appended_all(Seq::empty(), items)[i] == items[items.len() - 1 - i],
    decreases items.len(),
{
    if items.len() > 0 {
        let prev = items.drop_last();
        lemma_feed_keeps_latest(prev);
        let r = appended_all(Seq::empty(), items);
        let p = appended_all(Seq::empty(), prev);
        assert forall|i: int| 0 <= i < r.len() implies #[trigger] r[i] == items[items.len() - 1 - i] by {
            if i > 0 {
                assert(r[i] == p[i - 1]);
            }
        }
    }
}

/// Unsubscribing one room leaves alone the subscription of another room and the feed it
/// names, provided the first room's feed has another name.
pub proof fn lemma_unsubscribe_isolated(v: StoreView, a: Seq<char>, b: Seq<char>, name_b: Seq<char>)
    requires
        valid_view(v),
        a != b,
        v.subscriptions.contains((b, name_b)),
        forall|i: int| 0 <= i < v.subscriptions.len() && #[trigger] v.subscriptions[i].0 == a
            ==> v.subscriptions[i].1 != name_b,
    ensures
        after_unsubscribe(v, a).subscriptions.contains((b, name_b)),
        after_unsubscribe(v, a).feeds.contains_key(name_b) == v.feeds.contains_key(name_b),
        v.feeds.contains_key(name_b) ==> after_unsubscribe(v, a).feeds[name_b] == v.feeds[name_b],
{
    if is_subscribed(v, a) {
        let i = subscription_index(v, a);
        let j = choose|j: int| 0 <= j < v.subscriptions.len() && v.subscriptions[j] == (b, name_b);
        let w = after_unsubscribe(v, a);
        assert(v.subscriptions[i].0 == a);
        assert(j != i);
        if j < i {
            assert(w.subscriptions[j] == (b, name_b));
        } else {
            assert(w.subscriptions[j - 1] == (b, name_b));
        }
    }
}

/// A message without a link is never captured, whatever room it was sent in.
pub proof fn lemma_no_link_no_capture(v: StoreView, room_name: Option<Seq<char>>, body: Seq<char>)
    requires
        link_in(body) is None,
    ensures
        capture_target(v, room_name, body) is None,
{
}

/// When the fetched page has no title, the captured item has no page name, and its RSS item
/// is titled by the message itself.
pub proof fn lemma_title_fallback(
    sender: Seq<char>,
    content: Seq<char>,
    link: Seq<char>,
    html: Seq<char>,
    time: int,
    homeserver: Seq<char>,
)
    requires
        title_in(html) is None,
    ensures
        captured(sender, content, link, Some(html), time).page_name is None,
        entry_for(captured(sender, content, link, Some(html), time), homeserver).title == content,
{
}

} // verus!
