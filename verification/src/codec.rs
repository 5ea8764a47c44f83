//! Shared byte-level decoding: endianness-parametrized integers, trailing
//! NUL trimming and range copies.

use vstd::prelude::*;

verus! {

/// The unsigned value of the four bytes at `pos`, read in the given byte
/// order.
pub open spec fn spec_u32_at(s: Seq<u8>, pos: int, big: bool) -> int
    recommends
        0 <= pos,
        pos + 4 <= s.len(),
{
    if big {
        (s[pos] as int) * 0x1000000 + (s[pos + 1] as int) * 0x10000 + (s[pos + 2] as int) * 0x100
            + (s[pos + 3] as int)
    } else {
        (s[pos + 3] as int) * 0x1000000 + (s[pos + 2] as int) * 0x10000 + (s[pos + 1] as int)
            * 0x100 + (s[pos] as int)
    }
}

/// The two's-complement reading of an unsigned 32-bit value.
pub open spec fn spec_to_signed32(v: int) -> int {
    if v < 0x80000000 {
        v
    } else {
        v - 0x100000000
    }
}

/// The signed 32-bit integer stored at `pos`, read in the given byte order.
pub open spec fn spec_i32_at(s: Seq<u8>, pos: int, big: bool) -> int {
    spec_to_signed32(spec_u32_at(s, pos, big))
}

/// The four bytes at `pos` as an unsigned integer in the given byte order.
pub(crate) fn read_u32(data: &[u8], pos: usize, big: bool) -> (r: u32)
    requires
        pos + 4 <= data@.len(),
    ensures
        r as int == spec_u32_at(data@, pos as int, big),
{
    let b0 = data[pos] as u32;
    let b1 = data[pos + 1] as u32;
    let b2 = data[pos + 2] as u32;
    let b3 = data[pos + 3] as u32;
    if big {
        b0 * 0x1000000 + b1 * 0x10000 + b2 * 0x100 + b3
    } else {
        b3 * 0x1000000 + b2 * 0x10000 + b1 * 0x100 + b0
    }
}

/// The four bytes at `pos` as a signed integer in the given byte order.
pub(crate) fn read_i32(data: &[u8], pos: usize, big: bool) -> (r: i32)
    requires
        pos + 4 <= data@.len(),
    ensures
        r as int == spec_i32_at(data@, pos as int, big),
{
    let v = read_u32(data, pos, big);
    if v < 0x80000000 {
        v as i32
    } else {
        let flipped = (u32::MAX - v) as i32;
        -1 - flipped
    }
}

/// The bytes with every trailing NUL removed; interior NULs stay.
pub open spec fn trim_nul(s: Seq<u8>) -> Seq<u8>
    decreases s.len(),
{
    if s.len() == 0 {
        s
    } else if s.last() == 0 {
        trim_nul(s.drop_last())
    } else {
        s
    }
}

/// Trimming only shortens, and never leaves a trailing NUL behind.
pub proof fn lemma_trim_nul(s: Seq<u8>)
    ensures
        trim_nul(s).len() <= s.len(),
        trim_nul(s).len() == 0 || trim_nul(s).last() != 0,
    decreases s.len(),
{
    if s.len() != 0 && s.last() == 0 {
        lemma_trim_nul(s.drop_last());
    }
}

/// Removes every trailing NUL byte in place.
pub(crate) fn trim_trailing_nul(name: &mut Vec<u8>)
    ensures
        final(name)@ == trim_nul(old(name)@),
{
    loop
        invariant
            trim_nul(name@) == trim_nul(old(name)@),
        decreases name@.len(),
    {
        if name.len() == 0 {
            return ;
        }
        let last = name[name.len() - 1];
        if last != 0 {
            return ;
        }
        name.pop();
    }
}

/// An owned copy of `data[start..end]`.
pub(crate) fn copy_range(data: &[u8], start: usize, end: usize) -> (r: Vec<u8>)
    requires
        start <= end <= data@.len(),
    ensures
        r@ == data@.subrange(start as int, end as int),
{
    let mut out: Vec<u8> = Vec::new();
    let mut i: usize = start;
    while i < end
        invariant
            start <= i <= end <= data@.len(),
            out@ == data@.subrange(start as int, i as int),
        decreases end - i,
    {
        out.push(data[i]);
        proof {
            assert(out@ =~= data@.subrange(start as int, (i + 1) as int));
        }
        i = i + 1;
    }
    out
}

} // verus!
