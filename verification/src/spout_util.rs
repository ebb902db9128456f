//! Waiting for a sender, and listing senders slot by slot.
use vstd::prelude::*;
use vstd::slice::slice_subrange;

use crate::bytes::{contains_nul, nul_position};
use crate::spout::{NameRole, SpoutError};
use crate::text::text_from_bytes;
use crate::time::Duration;

verus! {

/// How often a connection is attempted before it is given up.
pub const SPOUT_CONNECT_MAX_RETRIES: u32 = 100;

/// Wait after each failed attempt, in milliseconds.
pub const SPOUT_CONNECT_RETRY_INTERVAL_MS: u64 = 50;

/// The name in a slot as text; an empty slot gives an empty text.
pub open spec fn slot_text(slot: Seq<u8>) -> Seq<char> {
    crate::text::lossy_text(crate::bytes::until_nul(slot))
}

/// The texts of the slots that were found.
pub open spec fn found_texts(slots: Seq<Option<Vec<u8>>>) -> Seq<Seq<char>>
    decreases slots.len(),
{
    if slots.len() == 0 {
        Seq::empty()
    } else {
        let before = found_texts(slots.drop_last());
        match slots.last() {
            Some(slot) => before.push(slot_text(slot@)),
            None => before,
        }
    }
}

/// The texts that are not empty, in their order.
pub open spec fn nonempty_texts(texts: Seq<Seq<char>>) -> Seq<Seq<char>>
    decreases texts.len(),
{
    if texts.len() == 0 {
        Seq::empty()
    } else {
        let before = nonempty_texts(texts.drop_last());
        if texts.last().len() > 0 {
            before.push(texts.last())
        } else {
            before
        }
    }
}

/// The characters of each text.
pub open spec fn chars_of(texts: Seq<String>) -> Seq<Seq<char>> {
    texts.map_values(|text: String| text@)
}

/// Drops the empty names.
pub fn listed_names(texts: &Vec<String>) -> (names: Vec<String>)
    ensures
        chars_of(names@) == nonempty_texts(chars_of(texts@)),
{
    let mut names: Vec<String> = Vec::new();
    let ghost all = chars_of(texts@);
    let mut i: usize = 0;
    assert(chars_of(names@) =~= Seq::empty());
    while i < texts.len()
        invariant
            i <= texts@.len(),
            all == chars_of(texts@),
            chars_of(names@) == nonempty_texts(all.subrange(0, i as int)),
        decreases texts@.len() - i,
    {
        let ghost before = chars_of(names@);
        assert(all.subrange(0, i + 1).drop_last() =~= all.subrange(0, i as int));
        if !texts[i].as_str().is_empty() {
            names.push(texts[i].clone());
            assert(chars_of(names@) =~= before.push(all[i as int]));
        }
        i += 1;
    }
    assert(all.subrange(0, texts@.len() as int) =~= all);
    names
}

/// The names of the senders in the slots that could be read; empty names are left out.
pub fn list_senders(slots: &Vec<Option<Vec<u8>>>) -> (names: Vec<String>)
    ensures
        chars_of(names@) == nonempty_texts(found_texts(slots@)),
{
    let mut texts: Vec<String> = Vec::new();
    let mut i: usize = 0;
    assert(chars_of(texts@) =~= Seq::empty());
    while i < slots.len()
        invariant
            i <= slots@.len(),
            chars_of(texts@) == found_texts(slots@.subrange(0, i as int)),
        decreases slots@.len() - i,
    {
        let ghost before = chars_of(texts@);
        assert(slots@.subrange(0, i + 1).drop_last() =~= slots@.subrange(0, i as int));
        match &slots[i] {
            Some(slot) => {
                let bytes = slot.as_slice();
                let end: usize = nul_position(bytes);
                texts.push(text_from_bytes(slice_subrange(bytes, 0, end)));
                assert(chars_of(texts@) =~= before.push(slot_text(slot@)));
            },
            None => {},
        }
        i += 1;
    }
    assert(slots@.subrange(0, slots@.len() as int) =~= slots@);
    listed_names(&texts)
}

/// Checks the name of the sender that is to be received.
pub fn receiver_name(name: &str) -> (checked: Result<(), SpoutError>)
    ensures
        checked == if vstd::utf8::encode_utf8(name@).contains(0) {
            Err::<(), SpoutError>(SpoutError::NulInName(NameRole::Sender))
        } else {
            Ok(())
        },
{
    if contains_nul(name.as_bytes()) {
        Err(SpoutError::NulInName(NameRole::Sender))
    } else {
        Ok(())
    }
}

/// What to do about a connection.
#[derive(Debug, Clone, Copy, PartialEq, Eq, Structural)]
pub enum ConnectStep {
    Attempt,
    GiveUp,
}

/// A connection that is attempted again and again.
#[derive(Debug, Clone, Copy, PartialEq, Eq, Structural)]
pub struct SpoutConnect {
    pub failed: u32,
}

impl SpoutConnect {
    pub fn new() -> (connect: Self)
        ensures
            connect.failed == 0,
    {
        SpoutConnect { failed: 0 }
    }

    /// Whether another attempt is made.
    pub fn next(&self) -> (step: ConnectStep)
        ensures
            step == if self.failed < SPOUT_CONNECT_MAX_RETRIES {
                ConnectStep::Attempt
            } else {
                ConnectStep::GiveUp
            },
    {
        if self.failed < SPOUT_CONNECT_MAX_RETRIES {
            ConnectStep::Attempt
        } else {
            ConnectStep::GiveUp
        }
    }

    /// Takes note of an attempt that failed, and says how long to wait before going on.
    pub fn attempt_failed(&mut self) -> (wait: Duration)
        requires
            old(self).failed < SPOUT_CONNECT_MAX_RETRIES,
        ensures
            final(self).failed == old(self).failed + 1,
            wait.nanos == SPOUT_CONNECT_RETRY_INTERVAL_MS * 1_000_000,
    {
        self.failed = self.failed + 1;
        Duration::from_millis(SPOUT_CONNECT_RETRY_INTERVAL_MS)
    }
}

/// Nanoseconds spent waiting by the time that some attempts have failed.
pub open spec fn waited_nanos(failed: nat) -> nat
    decreases failed,
{
    if failed == 0 {
        0
    } else {
        waited_nanos((failed - 1) as nat) + (SPOUT_CONNECT_RETRY_INTERVAL_MS * 1_000_000) as nat
    }
}

proof fn waiting_adds_up(failed: nat)
    ensures
        waited_nanos(failed) == failed * 50_000_000,
    decreases failed,
{
    if failed > 0 {
        waiting_adds_up((failed - 1) as nat);
    }
}

/// A connection is given up after waiting for five seconds, and no sooner.
pub proof fn giving_up_takes_five_seconds(failed: nat)
    requires
        failed <= SPOUT_CONNECT_MAX_RETRIES,
    ensures
        waited_nanos(failed) >= 5_000_000_000 <==> failed == SPOUT_CONNECT_MAX_RETRIES,
        waited_nanos(SPOUT_CONNECT_MAX_RETRIES as nat) == 5_000_000_000,
{
    waiting_adds_up(failed);
    waiting_adds_up(SPOUT_CONNECT_MAX_RETRIES as nat);
}

/// Reading works slot by slot and in order: a slot that was not found gives nothing, and any other
/// the text in front of its first zero.
pub proof fn slots_are_listed_one_by_one(
    left: Seq<Option<Vec<u8>>>,
    right: Seq<Option<Vec<u8>>>,
    slot: Vec<u8>,
)
    ensures
        found_texts(left + right) == found_texts(left) + found_texts(right),
        found_texts(seq![None::<Vec<u8>>]) == Seq::<Seq<char>>::empty(),
        found_texts(seq![Some(slot)]) == seq![
            crate::text::lossy_text(crate::bytes::until_nul(slot@)),
        ],
    decreases right.len(),
{
    let gone = seq![None::<Vec<u8>>];
    let found = seq![Some(slot)];
    assert(gone.drop_last() =~= Seq::empty());
    assert(found.drop_last() =~= Seq::empty());
    assert(found_texts(Seq::empty()) =~= Seq::empty());
    assert(found_texts(found) =~= seq![
        crate::text::lossy_text(crate::bytes::until_nul(slot@)),
    ]);
    if right.len() == 0 {
        assert(left + right =~= left);
        assert(found_texts(left) + found_texts(right) =~= found_texts(left));
    } else {
        slots_are_listed_one_by_one(left, right.drop_last(), slot);
        assert((left + right).drop_last() =~= left + right.drop_last());
        assert(found_texts(left + right) =~= found_texts(left) + found_texts(right));
    }
}

/// Dropping empty names works name by name and keeps the order.
pub proof fn names_are_kept_one_by_one(
    left: Seq<Seq<char>>,
    right: Seq<Seq<char>>,
    text: Seq<char>,
)
    ensures
        nonempty_texts(left + right) == nonempty_texts(left) + nonempty_texts(right),
        text.len() == 0 ==> nonempty_texts(seq![text]) == Seq::<Seq<char>>::empty(),
        text.len() > 0 ==> nonempty_texts(seq![text]) == seq![text],
    decreases right.len(),
{
    assert(seq![text].drop_last() =~= Seq::empty());
    assert(nonempty_texts(Seq::empty()) =~= Seq::empty());
    if text.len() > 0 {
        assert(nonempty_texts(seq![text]) =~= seq![text]);
    }
    if right.len() == 0 {
        assert(left + right =~= left);
        assert(nonempty_texts(left) + nonempty_texts(right) =~= nonempty_texts(left));
    } else {
        names_are_kept_one_by_one(left, right.drop_last(), text);
        assert((left + right).drop_last() =~= left + right.drop_last());
        assert(nonempty_texts(left + right) =~= nonempty_texts(left) + nonempty_texts(right));
    }
}

} // verus!
