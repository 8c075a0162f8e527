use vstd::prelude::*;

verus! {

/// Seconds to wait after the first failed attempt to join a room.
pub const FIRST_JOIN_DELAY: u64 = 2;

/// Once the wait would grow past this many seconds, joining is abandoned.
pub const MAX_JOIN_DELAY: u64 = 3600;

/// After a failed join attempt followed by a wait of `delay` seconds: the wait to use after
/// the next failure, or `None` to give up. Each wait doubles the one before.
pub fn next_join_delay(delay: u64) -> (r: Option<u64>)
    ensures
        r == (if 2 * delay > MAX_JOIN_DELAY { None::<u64> } else { Some((2 * delay) as u64) }),
{
    if delay > MAX_JOIN_DELAY / 2 {
        None
    } else {
        Some(delay * 2)
    }
}

} // verus!
