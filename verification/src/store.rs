//! How the server lays out its records in the key-value store: keys, key
//! patterns and the counters that hand out ids.
use vstd::prelude::*;

use crate::decimal::{int_text, u32_from_chars, u32_from_text, u32_to_chars, lemma_u32_text_round_trip};
use crate::text::{chars_of, string_of};

verus! {

/// The key of the record `key` in the collection `pre`: `pre:key`.
pub open spec fn record_key(pre: Seq<char>, key: Seq<char>) -> Seq<char> {
    pre + seq![':'] + key
}

/// The pattern that matches every key of the collection `pre`: `pre:*`.
pub open spec fn collection_pattern(pre: Seq<char>) -> Seq<char> {
    pre + seq![':', '*']
}

fn push_all(out: &mut Vec<char>, s: &Vec<char>)
    ensures
        final(out)@ == old(out)@ + s@,
{
    let ghost head = out@;
    let mut i: usize = 0;
    while i < s.len()
        invariant
            i <= s.len(),
            out@ == head + s@.take(i as int),
        decreases s.len() - i,
    {
        out.push(s[i]);
        i = i + 1;
        assert(s@.take(i as int) =~= s@.take(i - 1).push(s[i - 1]));
    }
    assert(s@.take(s.len() as int) =~= s@);
}

/// The key of the record `key` in the collection `pre`.
pub fn record_key_of(pre: &str, key: &str) -> (k: String)
    ensures
        k@ == record_key(pre@, key@),
{
    let mut out = chars_of(pre);
    out.push(':');
    push_all(&mut out, &chars_of(key));
    string_of(&out)
}

/// The pattern that matches every key of the collection `pre`.
pub fn collection_pattern_of(pre: &str) -> (k: String)
    ensures
        k@ == collection_pattern(pre@),
{
    let mut out = chars_of(pre);
    out.push(':');
    out.push('*');
    proof {
        assert(out@ =~= collection_pattern(pre@));
    }
    string_of(&out)
}

/// One step of an id counter kept as text: the id handed out and the text to
/// store in its place.
pub struct NextId {
    pub id: String,
    pub stored: String,
}

/// Why an id counter cannot move on.
#[derive(Debug, Clone, Copy, PartialEq, Eq)]
pub enum CounterError {
    /// The stored text is no `u32`.
    Unreadable,
    /// The counter stands at `u32::MAX`.
    Exhausted,
}

/// One step of an id counter kept as text, as values: the id handed out and the
/// text stored in its place. A missing counter hands out 1 and stores 2; a stored
/// `n` hands out `n` and stores `n + 1`, both in decimal.
pub open spec fn counter_step(stored: Option<Seq<char>>) -> Result<(Seq<char>, Seq<char>), CounterError> {
    match stored {
        None => Ok((int_text(1), int_text(2))),
        Some(text) => match u32_from_text(text) {
            None => Err(CounterError::Unreadable),
            Some(n) => if n == u32::MAX {
                Err(CounterError::Exhausted)
            } else {
                Ok((int_text(n as int), int_text(n + 1)))
            },
        },
    }
}

/// The text of an optional string.
pub open spec fn stored_view(stored: Option<String>) -> Option<Seq<char>> {
    match stored {
        Some(t) => Some(t@),
        None => None,
    }
}

/// One step of an id counter kept as text (see `counter_step`).
pub fn next_id_step(stored: &Option<String>) -> (r: Result<NextId, CounterError>)
    ensures
        match r {
            Ok(step) => counter_step(stored_view(*stored)) == Ok::<(Seq<char>, Seq<char>), CounterError>((step.id@, step.stored@)),
            Err(e) => counter_step(stored_view(*stored)) == Err::<(Seq<char>, Seq<char>), CounterError>(e),
        },
{
    match stored {
        None => Ok(NextId { id: string_of(&u32_to_chars(1)), stored: string_of(&u32_to_chars(2)) }),
        Some(text) => {
            let chars = chars_of(text.as_str());
            match u32_from_chars(&chars) {
                None => Err(CounterError::Unreadable),
                Some(n) => {
                    if n == u32::MAX {
                        Err(CounterError::Exhausted)
                    } else {
                        Ok(NextId { id: string_of(&u32_to_chars(n)), stored: string_of(&u32_to_chars(n + 1)) })
                    }
                },
            }
        },
    }
}

/// A counter steps through consecutive ids: a missing counter hands out 1; a
/// stored `n` (zero included) hands out `n` and stores `n + 1`, which the next
/// step hands out, storing `n + 2`.
pub proof fn lemma_counter_continues(n: u32)
    requires
        n < u32::MAX,
    ensures
        counter_step(None) == Ok::<(Seq<char>, Seq<char>), CounterError>((int_text(1), int_text(2))),
        n + 1 < u32::MAX ==> counter_step(Some(int_text(n + 1))) == Ok::<(Seq<char>, Seq<char>), CounterError>(
            (int_text(n + 1), int_text(n + 2)),
        ),
        counter_step(Some(int_text(n as int))) == Ok::<(Seq<char>, Seq<char>), CounterError>(
            (int_text(n as int), int_text(n + 1)),
        ),
{
    lemma_u32_text_round_trip(n);
    if n + 1 < u32::MAX {
        lemma_u32_text_round_trip((n + 1) as u32);
    }
}

} // verus!
