//! The list of senders in shared memory.
use vstd::prelude::*;
use vstd::slice::slice_subrange;

use crate::spout::{
    read_len, ErrorKind, SenderInfo, SenderName, SpoutError, MAX_SENDER_LIST_BYTES,
    SENDER_NAME_CAPACITY,
};

verus! {

/// How often the list is looked at, in milliseconds.
pub const SENDER_DISCOVERY_MILLIS: u64 = 500;

/// The names in a list: one in each slot of 256 bytes, up to the first empty slot. What does not
/// fill a slot is not looked at.
pub open spec fn names_in_list(bytes: Seq<u8>) -> Seq<Seq<u8>>
    decreases bytes.len(),
{
    if bytes.len() < 256 {
        Seq::empty()
    } else {
        let name = crate::bytes::until_nul(bytes.subrange(0, 256));
        if name.len() == 0 {
            Seq::empty()
        } else {
            seq![name] + names_in_list(bytes.subrange(256, bytes.len() as int))
        }
    }
}

/// Reads the names out of the list.
pub fn parse_sender_names(bytes: &[u8]) -> (names: Vec<SenderName>)
    ensures
        crate::spout::order::name_bytes(names@) == names_in_list(bytes@),
{
    let mut names: Vec<SenderName> = Vec::new();
    let mut at: usize = 0;
    assert(bytes@.subrange(0, bytes@.len() as int) =~= bytes@);
    assert(crate::spout::order::name_bytes(names@) + names_in_list(bytes@) =~= names_in_list(
        bytes@,
    ));
    while bytes.len() - at >= SENDER_NAME_CAPACITY
        invariant
            at <= bytes@.len(),
            crate::spout::order::name_bytes(names@) + names_in_list(
                bytes@.subrange(at as int, bytes@.len() as int),
            ) == names_in_list(bytes@),
        decreases bytes@.len() - at,
    {
        let ghost rest = bytes@.subrange(at as int, bytes@.len() as int);
        let ghost before = crate::spout::order::name_bytes(names@);
        let slot = slice_subrange(bytes, at, at + SENDER_NAME_CAPACITY);
        assert(slot@ =~= rest.subrange(0, 256));
        match SenderName::from_slot(slot) {
            None => {
                assert(before + Seq::empty() =~= before);
                return names;
            },
            Some(name) => {
                let ghost bytes_of_name = name@;
                names.push(name);
                assert(crate::spout::order::name_bytes(names@) =~= before.push(bytes_of_name));
                assert(rest.subrange(256, rest.len() as int) =~= bytes@.subrange(
                    at + 256,
                    bytes@.len() as int,
                ));
                assert(before + (seq![bytes_of_name] + names_in_list(
                    rest.subrange(256, rest.len() as int),
                )) =~= before.push(bytes_of_name) + names_in_list(
                    rest.subrange(256, rest.len() as int),
                ));
            },
        }
        at = at + SENDER_NAME_CAPACITY;
    }
    assert(crate::spout::order::name_bytes(names@) + Seq::empty()
        =~= crate::spout::order::name_bytes(names@));
    names
}

/// How much of the list is read when its mapping is `map_len` bytes long.
pub fn sender_list_len(map_len: usize) -> (len: usize)
    ensures
        len == crate::spout::shorter(map_len, MAX_SENDER_LIST_BYTES),
{
    read_len(MAX_SENDER_LIST_BYTES, map_len)
}

/// The list could not be opened. Where there is none, there are no senders.
pub fn list_unavailable(error: SpoutError) -> (names: Result<Vec<SenderName>, SpoutError>)
    ensures
        names is Ok <==> error.kind_of() == ErrorKind::NotFound,
        match names {
            Ok(names) => names@.len() == 0,
            Err(reported) => reported == error,
        },
{
    match error.kind() {
        ErrorKind::NotFound => Ok(Vec::new()),
        _ => Err(error),
    }
}

/// A sender whose description could be read is live, and so is one whose description is busy.
pub open spec fn live(probe: Result<SenderInfo, SpoutError>) -> bool {
    match probe {
        Ok(_) => true,
        Err(error) => error.kind_of() == ErrorKind::WouldBlock,
    }
}

pub fn is_live(probe: &Result<SenderInfo, SpoutError>) -> (keep: bool)
    ensures
        keep == live(*probe),
{
    match probe {
        Ok(_) => true,
        Err(error) => match error.kind() {
            ErrorKind::WouldBlock => true,
            _ => false,
        },
    }
}

/// The names whose senders are live, in their order.
pub open spec fn live_names(
    names: Seq<Seq<u8>>,
    probes: Seq<Result<SenderInfo, SpoutError>>,
) -> Seq<Seq<u8>>
    decreases names.len(),
{
    if names.len() == 0 || probes.len() != names.len() {
        Seq::empty()
    } else {
        let before = live_names(names.drop_last(), probes.drop_last());
        if live(probes.last()) {
            before.push(names.last())
        } else {
            before
        }
    }
}

/// Drops the names whose senders are gone. `probes` holds what the look at each of them gave.
pub fn discover_sender_names(
    names: Vec<SenderName>,
    probes: &Vec<Result<SenderInfo, SpoutError>>,
) -> (kept: Vec<SenderName>)
    requires
        names@.len() == probes@.len(),
    ensures
        crate::spout::order::name_bytes(kept@) == live_names(
            crate::spout::order::name_bytes(names@),
            probes@,
        ),
{
    let mut kept: Vec<SenderName> = Vec::new();
    let ghost all = crate::spout::order::name_bytes(names@);
    let mut i: usize = 0;
    assert(crate::spout::order::name_bytes(kept@) =~= Seq::empty());
    while i < names.len()
        invariant
            i <= names@.len(),
            names@.len() == probes@.len(),
            all == crate::spout::order::name_bytes(names@),
            crate::spout::order::name_bytes(kept@) == live_names(
                all.subrange(0, i as int),
                probes@.subrange(0, i as int),
            ),
        decreases names@.len() - i,
    {
        let ghost before = crate::spout::order::name_bytes(kept@);
        assert(all.subrange(0, i + 1).drop_last() =~= all.subrange(0, i as int));
        assert(probes@.subrange(0, i + 1).drop_last() =~= probes@.subrange(0, i as int));
        if is_live(&probes[i]) {
            kept.push(names[i].clone());
            assert(crate::spout::order::name_bytes(kept@) =~= before.push(all[i as int]));
        }
        i += 1;
    }
    assert(all.subrange(0, names@.len() as int) =~= all);
    assert(probes@.subrange(0, names@.len() as int) =~= probes@);
    kept
}

/// A name in its slot, padded with zeros.
pub open spec fn slot_of(name: Seq<u8>) -> Seq<u8> {
    name + Seq::new((256 - name.len()) as nat, |i: int| 0u8)
}

/// The list of some names, slot after slot.
pub open spec fn list_layout(names: Seq<Seq<u8>>) -> Seq<u8>
    decreases names.len(),
{
    if names.len() == 0 {
        Seq::empty()
    } else {
        slot_of(names[0]) + list_layout(names.drop_first())
    }
}

/// A name that fits a slot.
pub open spec fn slot_name(name: Seq<u8>) -> bool {
    0 < name.len() <= 256 && forall|i: int| 0 <= i < name.len() ==> name[i] != 0
}

/// The receiver finds the names that were listed, in their order, up to the first empty slot or
/// the end of the list.
pub proof fn list_round_trips(names: Seq<Seq<u8>>, tail: Seq<u8>)
    requires
        forall|i: int| 0 <= i < names.len() ==> slot_name(#[trigger] names[i]),
        tail.len() < 256 || tail[0] == 0,
    ensures
        names_in_list(list_layout(names) + tail) == names,
    decreases names.len(),
{
    let list = list_layout(names) + tail;
    if names.len() == 0 {
        assert(list =~= tail);
        if tail.len() >= 256 {
            assert(tail.subrange(0, 256)[0] == 0);
        }
        assert(names =~= Seq::empty());
    } else {
        let rest = names.drop_first();
        let padding = Seq::new((256 - names[0].len()) as nat, |i: int| 0u8);
        assert(slot_name(names[0]));
        crate::bytes::until_nul_undoes_padding(names[0], padding);
        assert(list.subrange(0, 256) =~= slot_of(names[0]));
        assert(list.subrange(256, list.len() as int) =~= list_layout(rest) + tail);
        assert forall|i: int| 0 <= i < rest.len() implies slot_name(#[trigger] rest[i]) by {
            assert(rest[i] == names[i + 1]);
        }
        list_round_trips(rest, tail);
        assert(seq![names[0]] + rest =~= names);
    }
}

/// A name is kept exactly when it was listed and its sender is live.
pub proof fn live_names_are_listed(
    names: Seq<Seq<u8>>,
    probes: Seq<Result<SenderInfo, SpoutError>>,
    name: Seq<u8>,
)
    requires
        names.len() == probes.len(),
    ensures
        live_names(names, probes).contains(name) <==> exists|i: int|
            0 <= i < names.len() && #[trigger] names[i] == name && live(probes[i]),
    decreases names.len(),
{
    if names.len() > 0 {
        let before = live_names(names.drop_last(), probes.drop_last());
        live_names_are_listed(names.drop_last(), probes.drop_last(), name);
        let now = live_names(names, probes);
        let last = names.len() - 1;
        if exists|i: int| 0 <= i < names.len() && #[trigger] names[i] == name && live(probes[i]) {
            let i = choose|i: int|
                0 <= i < names.len() && #[trigger] names[i] == name && live(probes[i]);
            if i == last {
                assert(now[now.len() - 1] == name);
            } else {
                assert(names.drop_last()[i] == name && live(probes.drop_last()[i]));
                assert(before.contains(name));
                let j = choose|j: int| 0 <= j < before.len() && before[j] == name;
                assert(now[j] == name);
            }
        }
        if now.contains(name) && !before.contains(name) {
            let j = choose|j: int| 0 <= j < now.len() && now[j] == name;
            assert(names[last] == name && live(probes[last]));
        } else if before.contains(name) {
            let i = choose|i: int|
                0 <= i < last && #[trigger] names.drop_last()[i] == name && live(
                    probes.drop_last()[i],
                );
            assert(names[i] == name && live(probes[i]));
        }
    }
}

/// A sender counts as live when its description could be read or is busy, and in no other case.
pub proof fn readable_and_busy_senders_are_live(info: SenderInfo, error: SpoutError)
    ensures
        live(Ok(info)),
        live(Err(SpoutError::Busy)),
        !live(Err(SpoutError::NotFound)),
        live(Err(error)) <==> error.kind_of() == ErrorKind::WouldBlock,
{
}

/// Names are kept one by one and in their order: a live one stays, and any other leaves.
pub proof fn names_leave_one_by_one(
    names: Seq<Seq<u8>>,
    probes: Seq<Result<SenderInfo, SpoutError>>,
    more_names: Seq<Seq<u8>>,
    more_probes: Seq<Result<SenderInfo, SpoutError>>,
    name: Seq<u8>,
    probe: Result<SenderInfo, SpoutError>,
)
    requires
        names.len() == probes.len(),
        more_names.len() == more_probes.len(),
    ensures
        live_names(names + more_names, probes + more_probes) == live_names(names, probes)
            + live_names(more_names, more_probes),
        live(probe) ==> live_names(seq![name], seq![probe]) == seq![name],
        !live(probe) ==> live_names(seq![name], seq![probe]) == Seq::<Seq<u8>>::empty(),
    decreases more_names.len(),
{
    assert(seq![name].drop_last() =~= Seq::empty());
    assert(seq![probe].drop_last() =~= Seq::empty());
    assert(live_names(Seq::empty(), Seq::empty()) =~= Seq::empty());
    if live(probe) {
        assert(live_names(seq![name], seq![probe]) =~= seq![name]);
    }
    if more_names.len() == 0 {
        assert(names + more_names =~= names);
        assert(probes + more_probes =~= probes);
        assert(live_names(names, probes) + live_names(more_names, more_probes) =~= live_names(
            names,
            probes,
        ));
    } else {
        names_leave_one_by_one(
            names,
            probes,
            more_names.drop_last(),
            more_probes.drop_last(),
            name,
            probe,
        );
        assert((names + more_names).drop_last() =~= names + more_names.drop_last());
        assert((probes + more_probes).drop_last() =~= probes + more_probes.drop_last());
        assert(live_names(names + more_names, probes + more_probes) =~= live_names(names, probes)
            + live_names(more_names, more_probes));
    }
}

} // verus!
