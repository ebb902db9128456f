//! The order of sender names.
use vstd::prelude::*;

use crate::spout::SenderName;

verus! {

/// One name comes before another, or is the same: bytes are compared from the front, and a name
/// comes before its continuations.
pub open spec fn name_le(a: Seq<u8>, b: Seq<u8>) -> bool
    decreases a.len(),
{
    if a.len() == 0 {
        true
    } else if b.len() == 0 {
        false
    } else if a[0] != b[0] {
        a[0] < b[0]
    } else {
        name_le(a.drop_first(), b.drop_first())
    }
}

pub open spec fn name_order() -> spec_fn(Seq<u8>, Seq<u8>) -> bool {
    |a: Seq<u8>, b: Seq<u8>| name_le(a, b)
}

/// The names in order.
pub open spec fn by_name(names: Seq<Seq<u8>>) -> Seq<Seq<u8>> {
    names.sort_by(name_order())
}

/// The bytes of each name.
pub open spec fn name_bytes(names: Seq<SenderName>) -> Seq<Seq<u8>> {
    names.map_values(|name: SenderName| name@)
}

proof fn name_le_reflexive(a: Seq<u8>)
    ensures
        name_le(a, a),
    decreases a.len(),
{
    if a.len() > 0 {
        name_le_reflexive(a.drop_first());
    }
}

proof fn name_le_antisymmetric(a: Seq<u8>, b: Seq<u8>)
    requires
        name_le(a, b),
        name_le(b, a),
    ensures
        a == b,
    decreases a.len(),
{
    if a.len() > 0 && b.len() > 0 {
        name_le_antisymmetric(a.drop_first(), b.drop_first());
        assert(seq![a[0]] + a.drop_first() =~= a);
        assert(seq![b[0]] + b.drop_first() =~= b);
    } else {
        assert(a =~= b);
    }
}

proof fn name_le_transitive(a: Seq<u8>, b: Seq<u8>, c: Seq<u8>)
    requires
        name_le(a, b),
        name_le(b, c),
    ensures
        name_le(a, c),
    decreases a.len(),
{
    if a.len() > 0 && b.len() > 0 && c.len() > 0 && a[0] == b[0] && b[0] == c[0] {
        name_le_transitive(a.drop_first(), b.drop_first(), c.drop_first());
    }
}

proof fn name_le_total(a: Seq<u8>, b: Seq<u8>)
    ensures
        name_le(a, b) || name_le(b, a),
    decreases a.len(),
{
    if a.len() > 0 && b.len() > 0 {
        name_le_total(a.drop_first(), b.drop_first());
    }
}

/// Any two names can be compared, and only equal names come before each other both ways.
pub proof fn names_are_totally_ordered()
    ensures
        vstd::relations::total_ordering(name_order()),
{
    let order = name_order();
    assert forall|a: Seq<u8>| #[trigger] order(a, a) by {
        name_le_reflexive(a);
    }
    assert forall|a: Seq<u8>, b: Seq<u8>| #[trigger] order(a, b) && #[trigger] order(
        b,
        a,
    ) implies a == b by {
        name_le_antisymmetric(a, b);
    }
    assert forall|a: Seq<u8>, b: Seq<u8>, c: Seq<u8>| #[trigger] order(a, b) && #[trigger] order(
        b,
        c,
    ) implies order(a, c) by {
        name_le_transitive(a, b, c);
    }
    assert forall|a: Seq<u8>, b: Seq<u8>| #[trigger] order(a, b) || #[trigger] order(b, a) by {
        name_le_total(a, b);
    }
}

/// Putting names in order neither adds nor drops any, and the result is in order.
pub proof fn by_name_is_ordered(names: Seq<Seq<u8>>)
    ensures
        by_name(names).to_multiset() == names.to_multiset(),
        by_name(names).len() == names.len(),
        forall|i: int, j: int|
            0 <= i < j < names.len() ==> name_le(
                #[trigger] by_name(names)[i],
                #[trigger] by_name(names)[j],
            ),
{
    broadcast use vstd::seq_lib::group_to_multiset_ensures;

    names_are_totally_ordered();
    names.lemma_sort_by_ensures(name_order());
    let sorted = by_name(names);
    assert(sorted.to_multiset().len() == sorted.len());
    assert forall|i: int, j: int| 0 <= i < j < names.len() implies name_le(
        #[trigger] sorted[i],
        #[trigger] sorted[j],
    ) by {
        assert(name_order()(sorted[i], sorted[j]));
    }
}

/// Names that are in order stay as they are.
pub proof fn ordered_names_stay(names: Seq<Seq<u8>>)
    requires
        forall|i: int, j: int|
            0 <= i < j < names.len() ==> name_le(#[trigger] names[i], #[trigger] names[j]),
    ensures
        by_name(names) == names,
{
    names_are_totally_ordered();
    names.lemma_sort_by_ensures(name_order());
    vstd::seq_lib::lemma_sorted_unique(by_name(names), names, name_order());
}

/// Whether `left` comes before `right` or is the same.
pub fn name_precedes(left: &SenderName, right: &SenderName) -> (precedes: bool)
    ensures
        precedes == name_le(left@, right@),
{
    let a = left.as_bytes();
    let b = right.as_bytes();
    let mut i: usize = 0;
    assert(a@.subrange(0, a@.len() as int) =~= a@);
    assert(b@.subrange(0, b@.len() as int) =~= b@);
    while i < a.len() && i < b.len()
        invariant
            i <= a@.len(),
            i <= b@.len(),
            name_le(left@, right@) == name_le(
                a@.subrange(i as int, a@.len() as int),
                b@.subrange(i as int, b@.len() as int),
            ),
        decreases a@.len() - i,
    {
        let ghost rest_a = a@.subrange(i as int, a@.len() as int);
        let ghost rest_b = b@.subrange(i as int, b@.len() as int);
        if a[i] != b[i] {
            return a[i] < b[i];
        }
        assert(rest_a.drop_first() =~= a@.subrange(i + 1, a@.len() as int));
        assert(rest_b.drop_first() =~= b@.subrange(i + 1, b@.len() as int));
        i += 1;
    }
    i == a.len()
}

/// Puts names in order.
pub fn sort_names(names: &Vec<SenderName>) -> (sorted: Vec<SenderName>)
    ensures
        name_bytes(sorted@) == by_name(name_bytes(names@)),
{
    let mut sorted: Vec<SenderName> = Vec::with_capacity(names.len());
    let mut i: usize = 0;
    proof {
        broadcast use vstd::seq_lib::group_to_multiset_ensures;

        assert(name_bytes(sorted@) =~= Seq::empty());
        assert(name_bytes(names@).subrange(0, 0) =~= Seq::empty());
    }
    while i < names.len()
        invariant
            i <= names@.len(),
            sorted@.len() == i,
            vstd::relations::sorted_by(name_bytes(sorted@), name_order()),
            name_bytes(sorted@).to_multiset() == name_bytes(names@).subrange(
                0,
                i as int,
            ).to_multiset(),
        decreases names@.len() - i,
    {
        let ghost before = name_bytes(sorted@);
        let ghost name = names@[i as int]@;
        let mut at: usize = 0;
        while at < sorted.len() && name_precedes(&sorted[at], &names[i])
            invariant
                i < names@.len(),
                at <= sorted@.len(),
                before == name_bytes(sorted@),
                name == names@[i as int]@,
                forall|k: int| 0 <= k < at ==> name_le(#[trigger] before[k], name),
            ensures
                at == before.len() || !name_le(before[at as int], name),
            decreases sorted@.len() - at,
        {
            assert(before[at as int] == sorted@[at as int]@);
            at += 1;
        }
        sorted.insert(at, names[i].clone());
        proof {
            broadcast use vstd::seq_lib::group_to_multiset_ensures;

            let after = name_bytes(sorted@);
            assert(after =~= before.insert(at as int, name));
            assert(name_bytes(names@).subrange(0, i + 1) =~= name_bytes(names@).subrange(
                0,
                i as int,
            ).push(name));
            let order = name_order();
            assert forall|j: int, k: int| 0 <= j < k < after.len() implies #[trigger] order(
                after[j],
                after[k],
            ) by {
                if k < at {
                    assert(order(before[j], before[k]));
                } else if k == at {
                    assert(name_le(before[j], name));
                } else if j < at {
                    assert(order(before[j], before[k - 1]));
                } else if j == at {
                    name_le_total(before[at as int], name);
                    if k - 1 > at {
                        assert(order(before[at as int], before[k - 1]));
                        name_le_transitive(name, before[at as int], before[k - 1]);
                    }
                } else {
                    assert(order(before[j - 1], before[k - 1]));
                }
            }
        }
        i += 1;
    }
    proof {
        let all = name_bytes(names@);
        assert(all.subrange(0, all.len() as int) =~= all);
        names_are_totally_ordered();
        all.lemma_sort_by_ensures(name_order());
        vstd::seq_lib::lemma_sorted_unique(name_bytes(sorted@), by_name(all), name_order());
    }
    sorted
}

/// A name comes before its continuations, and of two names that differ somewhere, the one with the
/// smaller byte at the first difference comes first.
pub proof fn first_difference_decides(
    common: Seq<u8>,
    left: Seq<u8>,
    right: Seq<u8>,
    a: u8,
    b: u8,
)
    requires
        a < b,
    ensures
        name_le(common, common + right),
        right.len() > 0 ==> !name_le(common + right, common),
        name_le(common.push(a) + left, common.push(b) + right),
        !name_le(common.push(b) + right, common.push(a) + left),
    decreases common.len(),
{
    if common.len() > 0 {
        let rest = common.drop_first();
        first_difference_decides(rest, left, right, a, b);
        assert((common + right).drop_first() =~= rest + right);
        assert((common.push(a) + left).drop_first() =~= rest.push(a) + left);
        assert((common.push(b) + right).drop_first() =~= rest.push(b) + right);
    }
}

} // verus!
