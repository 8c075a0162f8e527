use vstd::prelude::*;
use crate::message::{Message, MessageView, messages_view, copy_messages};

verus! {

/// The most items a feed holds; older ones are evicted from its tail.
pub const FEED_CAP: usize = 50;

/// One room subscribed to a feed.
pub struct Subscription {
    pub room_id: String,
    pub feed_name: String,
}

/// A feed: its name and its items, newest first.
pub struct Feed {
    pub name: String,
    pub items: Vec<Message>,
}

#[derive(Debug, PartialEq, Eq, Structural)]
pub enum SubscribeOutcome {
    Created,
    AlreadyExists,
}

#[derive(Debug, PartialEq, Eq, Structural)]
pub enum UnsubscribeOutcome {
    Removed,
    NotSubscribed,
}

/// The mathematical value of a [`Store`]: the subscriptions as (room id, feed name) pairs in
/// the order they were made, and each feed's items by feed name.
pub struct StoreView {
    pub subscriptions: Seq<(Seq<char>, Seq<char>)>,
    pub feeds: Map<Seq<char>, Seq<MessageView>>,
}

pub open spec fn is_subscribed(v: StoreView, room: Seq<char>) -> bool {
    exists|i: int| 0 <= i < v.subscriptions.len() && #[trigger] v.subscriptions[i].0 == room
}

pub open spec fn subscription_index(v: StoreView, room: Seq<char>) -> int {
    choose|i: int| 0 <= i < v.subscriptions.len() && #[trigger] v.subscriptions[i].0 == room
}

/// The store after `subscribe(room, name)`.
pub open spec fn after_subscribe(v: StoreView, room: Seq<char>, name: Seq<char>) -> StoreView {
    if is_subscribed(v, room) {
        v
    } else {
        StoreView {
            subscriptions: v.subscriptions.push((room, name)),
            feeds: v.feeds.insert(name, Seq::empty()),
        }
    }
}

/// The store after `unsubscribe(room)`: the room's subscription and its feed are gone.
pub open spec fn after_unsubscribe(v: StoreView, room: Seq<char>) -> StoreView {
    if is_subscribed(v, room) {
        let i = subscription_index(v, room);
        StoreView {
            subscriptions: v.subscriptions.remove(i),
            feeds: v.feeds.remove(v.subscriptions[i].1),
        }
    } else {
        v
    }
}

/// A feed with `m` put in front, cut back to [`FEED_CAP`] items.
pub open spec fn prepend_capped(feed: Seq<MessageView>, m: MessageView) -> Seq<MessageView> {
    let s = seq![m] + feed;
    if s.len() > FEED_CAP {
        s.subrange(0, FEED_CAP as int)
    } else {
        s
    }
}

/// The store after `append_item(name, m)`: unchanged when no feed has that name.
pub open spec fn after_append(v: StoreView, name: Seq<char>, m: MessageView) -> StoreView {
    if v.feeds.contains_key(name) {
        StoreView { subscriptions: v.subscriptions, feeds: v.feeds.insert(name, prepend_capped(v.feeds[name], m)) }
    } else {
        v
    }
}

pub open spec fn unique_rooms(subs: Seq<(Seq<char>, Seq<char>)>) -> bool {
    forall|i: int, j: int| 0 <= i < j < subs.len() ==> subs[i].0 != subs[j].0
}

/// What every reachable store satisfies: one subscription per room, no feed over the cap.
pub open spec fn valid_view(v: StoreView) -> bool {
    &&& unique_rooms(v.subscriptions)
    &&& forall|k: Seq<char>| #[trigger] v.feeds.contains_key(k) ==> v.feeds[k].len() <= FEED_CAP
}

pub open spec fn subs_view(s: Seq<Subscription>) -> Seq<(Seq<char>, Seq<char>)> {
    s.map_values(|x: Subscription| (x.room_id@, x.feed_name@))
}

/// The subscription store shared by the command handler, the capture of links and the
/// feed renderer.
pub struct Store {
    subscriptions: Vec<Subscription>,
    feeds: Vec<Feed>,
    model: Ghost<Map<Seq<char>, Seq<MessageView>>>,
}

impl View for Store {
    type V = StoreView;

    closed spec fn view(&self) -> StoreView {
        StoreView { subscriptions: subs_view(self.subscriptions@), feeds: self.model@ }
    }
}

impl Store {
    pub closed spec fn wf(&self) -> bool {
        &&& valid_view(self@)
        &&& forall|i: int, j: int|
            0 <= i < j < self.feeds@.len() ==> self.feeds@[i].name@ != self.feeds@[j].name@
        &&& forall|i: int|
            0 <= i < self.feeds@.len() ==> self.model@.contains_key(#[trigger] self.feeds@[i].name@)
                && self.model@[self.feeds@[i].name@] == messages_view(self.feeds@[i].items@)
        &&& forall|k: Seq<char>|
            #[trigger] self.model@.contains_key(k) ==> exists|i: int|
                0 <= i < self.feeds@.len() && #[trigger] self.feeds@[i].name@ == k
    }

    /// Every well-formed store has a valid view.
    pub proof fn lemma_wf_valid(&self)
        requires
            self.wf(),
        ensures
            valid_view(self@),
    {
    }

    /// An empty store.
    pub fn new() -> (r: Store)
        ensures
            r.wf(),
            r@.subscriptions.len() == 0,
            r@.feeds == Map::<Seq<char>, Seq<MessageView>>::empty(),
    {
        Store { subscriptions: Vec::new(), feeds: Vec::new(), model: Ghost(Map::empty()) }
    }

    fn find_room(&self, room_id: &String) -> (r: Option<usize>)
        ensures
            match r {
                Some(i) => i < self.subscriptions@.len() && self@.subscriptions[i as int].0 == room_id@,
                None => !is_subscribed(self@, room_id@),
            },
    {
        let mut i: usize = 0;
        while i < self.subscriptions.len()
            invariant
                i <= self.subscriptions@.len(),
                forall|j: int| 0 <= j < i ==> self@.subscriptions[j].0 != room_id@,
            decreases self.subscriptions.len() - i,
        {
            if self.subscriptions[i].room_id == *room_id {
                return Some(i);
            }
            i = i + 1;
        }
        None
    }

    fn find_feed(&self, name: &String) -> (r: Option<usize>)
        requires
            self.wf(),
        ensures
            match r {
                Some(i) => i < self.feeds@.len() && self.feeds@[i as int].name@ == name@
                    && self@.feeds.contains_key(name@),
                None => !self@.feeds.contains_key(name@),
            },
    {
        let mut i: usize = 0;
        while i < self.feeds.len()
            invariant
                self.wf(),
                i <= self.feeds@.len(),
                forall|j: int| 0 <= j < i ==> self.feeds@[j].name@ != name@,
            decreases self.feeds.len() - i,
        {
            if self.feeds[i].name == *name {
                return Some(i);
            }
            i = i + 1;
        }
        None
    }

    /// Whether a room is subscribed.
    pub fn is_room_subscribed(&self, room_id: &String) -> (r: bool)
        ensures
            r == is_subscribed(self@, room_id@),
    {
        self.find_room(room_id).is_some()
    }

    /// Whether a feed of this name exists.
    pub fn has_feed(&self, name: &String) -> (r: bool)
        requires
            self.wf(),
        ensures
            r == self@.feeds.contains_key(name@),
    {
        self.find_feed(name).is_some()
    }
    /// Subscribes a room under a feed name, with a new empty feed of that name. A room that is
    /// already subscribed is left as it is.
    pub fn subscribe(&mut self, room_id: String, feed_name: String) -> (r: SubscribeOutcome)
        requires
            old(self).wf(),
        ensures
            final(self).wf(),
            final(self)@ == after_subscribe(old(self)@, room_id@, feed_name@),
            r == (if is_subscribed(old(self)@, room_id@) {
                SubscribeOutcome::AlreadyExists
            } else {
                SubscribeOutcome::Created
            }),
    {
        if self.find_room(&room_id).is_some() {
            return SubscribeOutcome::AlreadyExists;
        }
        let ghost old_feeds = self.feeds@;
        let ghost old_model = self.model@;
        let ghost old_subs = self@.subscriptions;
        let ghost name = feed_name@;
        let found = self.find_feed(&feed_name);
        let ghost at: int = match found {
            Some(j) => j as int,
            None => self.feeds@.len() as int,
        };
        match found {
            Some(j) => {
                self.feeds.set(j, Feed { name: feed_name.clone(), items: Vec::new() });
            },
            None => {
                self.feeds.push(Feed { name: feed_name.clone(), items: Vec::new() });
            },
        }
        self.model = Ghost(self.model@.insert(feed_name@, Seq::empty()));
        self.subscriptions.push(Subscription { room_id, feed_name });
        proof {
            assert(self@.subscriptions =~= old_subs.push((room_id@, name)));
            assert(self.feeds@[at].name@ == name);
            assert(messages_view(self.feeds@[at].items@) =~= Seq::<MessageView>::empty());
            assert forall|i: int| 0 <= i < self.feeds@.len() && i != at implies self.feeds@[i] == old_feeds[i]
                && old_feeds[i].name@ != name by {
            }
            assert forall|k: Seq<char>| #[trigger] self.model@.contains_key(k) implies exists|i: int|
                0 <= i < self.feeds@.len() && #[trigger] self.feeds@[i].name@ == k by {
                if k != name {
                    let i = choose|i: int| 0 <= i < old_feeds.len() && #[trigger] old_feeds[i].name@ == k;
                    assert(self.feeds@[i].name@ == k);
                }
            }
        }
        SubscribeOutcome::Created
    }

    /// Removes a room's subscription and the feed it named. A room that is not subscribed is
    /// left as it is.
    pub fn unsubscribe(&mut self, room_id: &String) -> (r: UnsubscribeOutcome)
        requires
            old(self).wf(),
        ensures
            final(self).wf(),
            final(self)@ == after_unsubscribe(old(self)@, room_id@),
            r == (if is_subscribed(old(self)@, room_id@) {
                UnsubscribeOutcome::Removed
            } else {
                UnsubscribeOutcome::NotSubscribed
            }),
    {
        let i = match self.find_room(room_id) {
            Some(i) => i,
            None => {
                return UnsubscribeOutcome::NotSubscribed;
            },
        };
        let ghost old_view = self@;
        let ghost old_feeds = self.feeds@;
        proof {
            let k = subscription_index(old_view, room_id@);
            assert(old_view.subscriptions[i as int].0 == room_id@);
            assert(k == i);
        }
        let found = self.find_feed(&self.subscriptions[i].feed_name);
        let sub = self.subscriptions.remove(i);
        let ghost name = sub.feed_name@;
        match found {
            Some(j) => {
                self.feeds.remove(j);
                proof {
                    assert forall|k: Seq<char>| #[trigger] old_view.feeds.remove(name).contains_key(k)
                        implies exists|x: int| 0 <= x < self.feeds@.len() && #[trigger] self.feeds@[x].name@ == k by {
                        let x = choose|x: int| 0 <= x < old_feeds.len() && #[trigger] old_feeds[x].name@ == k;
                        if x < j {
                            assert(self.feeds@[x].name@ == k);
                        } else {
                            assert(self.feeds@[x - 1].name@ == k);
                        }
                    }
                }
            },
            None => {},
        }
        self.model = Ghost(self.model@.remove(name));
        proof {
            assert(self@.subscriptions =~= old_view.subscriptions.remove(i as int));
        }
        UnsubscribeOutcome::Removed
    }

    /// Puts an item in front of the named feed, evicting the oldest past [`FEED_CAP`]. Does
    /// nothing when no feed has that name.
    pub fn append_item(&mut self, feed_name: &String, item: Message)
        requires
            old(self).wf(),
        ensures
            final(self).wf(),
            final(self)@ == after_append(old(self)@, feed_name@, item@),
    {
        let j = match self.find_feed(feed_name) {
            Some(j) => j,
            None => {
                return;
            },
        };
        let ghost old_feeds = self.feeds@;
        let ghost old_items = messages_view(self.feeds@[j as int].items@);
        let ghost m = item@;
        let mut feed = self.feeds.remove(j);
        feed.items.insert(0, item);
        feed.items.truncate(FEED_CAP);
        self.feeds.insert(j, feed);
        self.model = Ghost(self.model@.insert(feed_name@, prepend_capped(old_items, m)));
        proof {
            assert(self.feeds@ =~= old_feeds.update(j as int, self.feeds@[j as int]));
            assert(messages_view(self.feeds@[j as int].items@) =~= prepend_capped(old_items, m));
            assert forall|k: Seq<char>| #[trigger] self.model@.contains_key(k) implies exists|i: int|
                0 <= i < self.feeds@.len() && #[trigger] self.feeds@[i].name@ == k by {
                let i = choose|i: int| 0 <= i < old_feeds.len() && #[trigger] old_feeds[i].name@ == k;
                assert(self.feeds@[i].name@ == k);
            }
        }
    }

    /// A copy of the named feed, or `None` when no feed has that name.
    pub fn get_feed(&self, feed_name: &String) -> (r: Option<Feed>)
        requires
            self.wf(),
        ensures
            match r {
                Some(f) => self@.feeds.contains_key(feed_name@) && f.name@ == feed_name@
                    && messages_view(f.items@) == self@.feeds[feed_name@],
                None => !self@.feeds.contains_key(feed_name@),
            },
    {
        match self.find_feed(feed_name) {
            Some(j) => Some(Feed { name: self.feeds[j].name.clone(), items: copy_messages(&self.feeds[j].items) }),
            None => None,
        }
    }

    /// A copy of the subscriptions, in the order they were made.
    pub fn list_subscriptions(&self) -> (r: Vec<Subscription>)
        ensures
            subs_view(r@) == self@.subscriptions,
    {
        let mut r: Vec<Subscription> = Vec::new();
        let mut i: usize = 0;
        while i < self.subscriptions.len()
            invariant
                i <= self.subscriptions@.len(),
                r@.len() == i,
                forall|k: int| 0 <= k < i ==> (#[trigger] r@[k]).room_id@ == self.subscriptions@[k].room_id@
                    && r@[k].feed_name@ == self.subscriptions@[k].feed_name@,
            decreases self.subscriptions.len() - i,
        {
            let s = &self.subscriptions[i];
            r.push(Subscription { room_id: s.room_id.clone(), feed_name: s.feed_name.clone() });
            i = i + 1;
        }
        assert(subs_view(r@) =~= self@.subscriptions);
        r
    }
}

} // verus!
