use vstd::prelude::*;
use crate::store::{Store, StoreView, Subscription, is_subscribed, after_subscribe, after_unsubscribe, subs_view, SubscribeOutcome, UnsubscribeOutcome};
use crate::text::{second_part, second_part_of, feed_name_spec, feed_name_of};
use crate::message::opt_view;

verus! {

pub open spec fn usage_text() -> Seq<char> {
    "Accepted commands are: subscribe, unsubscribe, list"@
}

pub open spec fn no_name_text() -> Seq<char> {
    "Please set a room name first"@
}

/// `prefix` followed by the feed name in double quotes.
pub open spec fn quoted(prefix: Seq<char>, name: Seq<char>) -> Seq<char> {
    prefix + "\""@ + name + "\""@
}

/// The reply to `list`: a header line, then one line `\t- name (room id)` per subscription.
pub open spec fn list_text(subs: Seq<(Seq<char>, Seq<char>)>) -> Seq<char>
    decreases subs.len(),
{
    if subs.len() == 0 {
        "Subscribed to:"@
    } else {
        list_text(subs.drop_last()) + "\n\t- "@ + subs.last().1 + " ("@ + subs.last().0 + ")"@
    }
}

/// The reply to a command message `body` sent in room `room_id`, whose display name is
/// `room_name`. The body is split on single spaces and must have exactly two parts.
pub open spec fn command_reply(v: StoreView, room_id: Seq<char>, room_name: Option<Seq<char>>, body: Seq<char>) -> Seq<char> {
    match second_part(body, ' ') {
        None => usage_text(),
        Some(arg) => match room_name {
            None => no_name_text(),
            Some(n) => {
                let name = feed_name_spec(n);
                if arg == "subscribe"@ {
                    if is_subscribed(v, room_id) {
                        quoted("Already subscribed to room "@, name)
                    } else {
                        quoted("Successfully subscribed to room "@, name)
                    }
                } else if arg == "unsubscribe"@ {
                    if is_subscribed(v, room_id) {
                        quoted("Successfully unsubscribed from room "@, name)
                    } else {
                        quoted("Already unsubscribed from room "@, name)
                    }
                } else if arg == "list"@ {
                    list_text(v.subscriptions)
                } else {
                    usage_text()
                }
            },
        },
    }
}

/// The store after the command: only `subscribe` and `unsubscribe` change it.
pub open spec fn command_effect(v: StoreView, room_id: Seq<char>, room_name: Option<Seq<char>>, body: Seq<char>) -> StoreView {
    match (second_part(body, ' '), room_name) {
        (Some(arg), Some(n)) => if arg == "subscribe"@ {
            after_subscribe(v, room_id, feed_name_spec(n))
        } else if arg == "unsubscribe"@ {
            after_unsubscribe(v, room_id)
        } else {
            v
        },
        _ => v,
    }
}

fn is_word(a: &String, b: &str) -> (r: bool)
    ensures
        r == (a@ == b@),
{
    let w = String::from_str(b);
    *a == w
}

fn quote(prefix: &str, name: &String) -> (r: String)
    ensures
        r@ == quoted(prefix@, name@),
{
    let mut r = String::from_str(prefix);
    r.append("\"");
    r.append(name.as_str());
    r.append("\"");
    r
}

/// The reply to `list` for the given subscriptions.
pub fn list_reply(subs: &Vec<Subscription>) -> (r: String)
    ensures
        r@ == list_text(subs_view(subs@)),
{
    let mut r = String::from_str("Subscribed to:");
    let mut i: usize = 0;
    while i < subs.len()
        invariant
            i <= subs@.len(),
            r@ == list_text(subs_view(subs@).subrange(0, i as int)),
        decreases subs.len() - i,
    {
        proof {
            let s = subs_view(subs@).subrange(0, i + 1);
            assert(s.drop_last() =~= subs_view(subs@).subrange(0, i as int));
        }
        r.append("\n\t- ");
        r.append(subs[i].feed_name.as_str());
        r.append(" (");
        r.append(subs[i].room_id.as_str());
        r.append(")");
        i = i + 1;
    }
    assert(subs_view(subs@).subrange(0, i as int) =~= subs_view(subs@));
    r
}

/// Runs a command message (one that [`crate::text::is_command`] accepts) sent in room
/// `room_id`, whose display name is `room_name`, and returns the reply.
pub fn handle_command(store: &mut Store, room_id: &String, room_name: &Option<String>, body: &String) -> (r: String)
    requires
        old(store).wf(),
    ensures
        final(store).wf(),
        final(store)@ == command_effect(old(store)@, room_id@, opt_view(*room_name), body@),
        r@ == command_reply(old(store)@, room_id@, opt_view(*room_name), body@),
{
    let arg = match second_part_of(body.as_str(), ' ') {
        Some(a) => a,
        None => {
            return String::from_str("Accepted commands are: subscribe, unsubscribe, list");
        },
    };
    let display = match room_name {
        Some(n) => n,
        None => {
            return String::from_str("Please set a room name first");
        },
    };
    let name = feed_name_of(display.as_str());
    if is_word(&arg, "subscribe") {
        match store.subscribe(room_id.clone(), name.clone()) {
            SubscribeOutcome::Created => quote("Successfully subscribed to room ", &name),
            SubscribeOutcome::AlreadyExists => quote("Already subscribed to room ", &name),
        }
    } else if is_word(&arg, "unsubscribe") {
        match store.unsubscribe(room_id) {
            UnsubscribeOutcome::Removed => quote("Successfully unsubscribed from room ", &name),
            UnsubscribeOutcome::NotSubscribed => quote("Already unsubscribed from room ", &name),
        }
    } else if is_word(&arg, "list") {
        list_reply(&store.list_subscriptions())
    } else {
        String::from_str("Accepted commands are: subscribe, unsubscribe, list")
    }
}

} // verus!
