//! Numbers and names in byte strings.
use vstd::prelude::*;

verus! {

/// The low 32 bits of `value`, least significant byte first.
pub open spec fn le32(value: int) -> Seq<u8> {
    seq![
        (value % 256) as u8,
        (value / 256 % 256) as u8,
        (value / 65_536 % 256) as u8,
        (value / 16_777_216 % 256) as u8,
    ]
}

/// The number that four bytes hold, least significant first.
pub open spec fn from_le32(bytes: Seq<u8>) -> int {
    bytes[0] + bytes[1] * 256 + bytes[2] * 65_536 + bytes[3] * 16_777_216
}

/// A number of 32 bits is read back as it was written.
pub proof fn le32_round_trips(value: int)
    requires
        0 <= value <= u32::MAX,
    ensures
        from_le32(le32(value)) == value,
{
    let low = value / 256;
    let mid = value / 65_536;
    let high = value / 16_777_216;
    assert(mid == low / 256 && high == mid / 256 && high < 256);
}

/// Appends the low 32 bits of a number.
pub fn push_le32(out: &mut Vec<u8>, value: usize)
    ensures
        final(out)@ == old(out)@ + le32(value as int),
{
    out.push((value % 256) as u8);
    out.push((value / 256 % 256) as u8);
    out.push((value / 65_536 % 256) as u8);
    out.push((value / 16_777_216 % 256) as u8);
}

/// Reads the number that starts at `offset`.
pub fn read_le32(bytes: &[u8], offset: usize) -> (value: u32)
    requires
        offset + 4 <= bytes@.len(),
    ensures
        value == from_le32(bytes@.subrange(offset as int, offset + 4)),
{
    assert(bytes@.len() == bytes.len());
    bytes[offset] as u32 + bytes[offset + 1] as u32 * 256 + bytes[offset + 2] as u32 * 65_536
        + bytes[offset + 3] as u32 * 16_777_216
}

/// The bytes in front of the first zero; all of them when there is none.
pub open spec fn until_nul(bytes: Seq<u8>) -> Seq<u8>
    decreases bytes.len(),
{
    if bytes.len() == 0 || bytes[0] == 0 {
        Seq::empty()
    } else {
        seq![bytes[0]] + until_nul(bytes.drop_first())
    }
}

/// A prefix without zeros that ends at a zero or at the end is what stands in front of the
/// first zero.
pub proof fn until_nul_is_prefix(bytes: Seq<u8>, end: int)
    requires
        0 <= end <= bytes.len(),
        forall|i: int| 0 <= i < end ==> bytes[i] != 0,
        end == bytes.len() || bytes[end] == 0,
    ensures
        until_nul(bytes) == bytes.subrange(0, end),
    decreases end,
{
    if end > 0 {
        let rest = bytes.drop_first();
        until_nul_is_prefix(rest, end - 1);
        assert(seq![bytes[0]] + rest.subrange(0, end - 1) =~= bytes.subrange(0, end));
    } else {
        assert(bytes.subrange(0, 0) =~= Seq::empty());
    }
}

/// A name that is padded with zeros is found again.
pub proof fn until_nul_undoes_padding(name: Seq<u8>, padding: Seq<u8>)
    requires
        forall|i: int| 0 <= i < name.len() ==> name[i] != 0,
        padding.len() == 0 || padding[0] == 0,
    ensures
        until_nul(name + padding) == name,
{
    until_nul_is_prefix(name + padding, name.len() as int);
    assert((name + padding).subrange(0, name.len() as int) =~= name);
}

/// Finds the end of the bytes in front of the first zero.
pub fn nul_position(bytes: &[u8]) -> (end: usize)
    ensures
        end <= bytes@.len(),
        bytes@.subrange(0, end as int) == until_nul(bytes@),
{
    let mut end: usize = 0;
    while end < bytes.len() && bytes[end] != 0
        invariant
            end <= bytes@.len(),
            forall|i: int| 0 <= i < end ==> bytes@[i] != 0,
        decreases bytes@.len() - end,
    {
        end += 1;
    }
    proof {
        until_nul_is_prefix(bytes@, end as int);
    }
    end
}

/// Whether a zero occurs.
pub fn contains_nul(bytes: &[u8]) -> (found: bool)
    ensures
        found == bytes@.contains(0),
{
    let mut i: usize = 0;
    while i < bytes.len()
        invariant
            i <= bytes@.len(),
            forall|j: int| 0 <= j < i ==> bytes@[j] != 0,
        decreases bytes@.len() - i,
    {
        if bytes[i] == 0 {
            return true;
        }
        i += 1;
    }
    false
}

/// Each byte of a number weighs 256 times as much as the one before it.
pub proof fn later_bytes_weigh_more(a: u8, b: u8, c: u8, d: u8)
    ensures
        from_le32(seq![a, 0u8, 0u8, 0u8]) == a,
        from_le32(seq![0u8, a, b, c]) == 256 * from_le32(seq![a, b, c, 0u8]),
        from_le32(seq![a, b, c, d]) == a + from_le32(seq![0u8, b, c, d]),
{
}

} // verus!
