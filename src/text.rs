use vstd::prelude::*;

verus! {

/// How many times `c` occurs in `s`.
pub open spec fn occurrences(s: Seq<char>, c: char) -> nat
    decreases s.len(),
{
    if s.len() == 0 {
        0
    } else {
        occurrences(s.drop_last(), c) + (if s.last() == c { 1nat } else { 0nat })
    }
}

/// The index of the last `c` in `s`, or -1 when there is none.
pub open spec fn last_index(s: Seq<char>, c: char) -> int
    decreases s.len(),
{
    if s.len() == 0 {
        -1
    } else if s.last() == c {
        s.len() - 1
    } else {
        last_index(s.drop_last(), c)
    }
}

/// Split on `sep`, `s` has exactly two parts when `sep` occurs once: this is the second part,
/// what follows the separator. `None` for any other number of parts.
pub open spec fn second_part(s: Seq<char>, sep: char) -> Option<Seq<char>> {
    if occurrences(s, sep) == 1 {
        Some(s.subrange(last_index(s, sep) + 1, s.len() as int))
    } else {
        None
    }
}

proof fn lemma_last_index_bounds(s: Seq<char>, c: char)
    ensures
        -1 <= last_index(s, c) < s.len(),
        last_index(s, c) >= 0 ==> s[last_index(s, c)] == c,
        occurrences(s, c) > 0 <==> last_index(s, c) >= 0,
    decreases s.len(),
{
    if s.len() > 0 {
        lemma_last_index_bounds(s.drop_last(), c);
    }
}

/// The second of exactly two parts of `s` split on `sep`.
pub fn second_part_of(s: &str, sep: char) -> (r: Option<String>)
    ensures
        match r {
            Some(t) => second_part(s@, sep) == Some(t@),
            None => second_part(s@, sep) is None,
        },
{
    let n = s.unicode_len();
    let mut i: usize = 0;
    let mut count: usize = 0;
    let mut last: usize = 0;
    while i < n
        invariant
            n == s@.len(),
            i <= n,
            count == occurrences(s@.subrange(0, i as int), sep),
            count <= i,
            count > 0 ==> last == last_index(s@.subrange(0, i as int), sep),
        decreases n - i,
    {
        proof {
            assert(s@.subrange(0, i + 1).drop_last() =~= s@.subrange(0, i as int));
        }
        if s.get_char(i) == sep {
            count = count + 1;
            last = i;
        }
        i = i + 1;
    }
    assert(s@.subrange(0, n as int) =~= s@);
    if count == 1 {
        proof {
            lemma_last_index_bounds(s@, sep);
        }
        Some(s.substring_char(last + 1, n).to_owned())
    } else {
        None
    }
}

/// Whether the message is a command: it starts with the trigger prefix `!rss`.
pub open spec fn is_command_text(s: Seq<char>) -> bool {
    s.len() >= 4 && s.subrange(0, 4) == "!rss"@
}

pub fn is_command(body: &str) -> (r: bool)
    ensures
        r == is_command_text(body@),
{
    proof {
        reveal_strlit("!rss");
    }
    let prefix = "!rss";
    if body.unicode_len() < 4 {
        return false;
    }
    let mut i: usize = 0;
    while i < 4
        invariant
            i <= 4,
            body@.len() >= 4,
            prefix@ == "!rss"@,
            prefix@.len() == 4,
            forall|j: int| 0 <= j < i ==> body@[j] == prefix@[j],
        decreases 4 - i,
    {
        if body.get_char(i) != prefix.get_char(i) {
            assert(body@.subrange(0, 4)[i as int] != "!rss"@[i as int]);
            return false;
        }
        i = i + 1;
    }
    assert(body@.subrange(0, 4) =~= "!rss"@);
    true
}

/// The feed name of a room: its display name without the leading sigil character.
pub open spec fn feed_name_spec(display_name: Seq<char>) -> Seq<char> {
    if display_name.len() == 0 {
        display_name
    } else {
        display_name.drop_first()
    }
}

pub fn feed_name_of(display_name: &str) -> (r: String)
    ensures
        r@ == feed_name_spec(display_name@),
{
    let n = display_name.unicode_len();
    if n == 0 {
        return display_name.to_owned();
    }
    let r = display_name.substring_char(1, n).to_owned();
    assert(r@ =~= display_name@.drop_first());
    r
}

} // verus!
