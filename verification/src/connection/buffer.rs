//! Buffers that are filled from the front.

use vstd::prelude::*;
use vstd::slice::slice_subrange;

verus! {

/// The front of `buf` replaced by `bytes`.
pub open spec fn filled(buf: Seq<u8>, bytes: Seq<u8>) -> Seq<u8> {
    bytes + buf.skip(bytes.len() as int)
}

/// `bytes`, and zeros up to the length `len`.
pub open spec fn zero_padded(bytes: Seq<u8>, len: nat) -> Seq<u8> {
    bytes + Seq::new((len - bytes.len()) as nat, |i: int| 0u8)
}

/// Replaces the front of `buf` by `bytes`.
pub(crate) fn fill(buf: &mut [u8], bytes: &[u8])
    requires
        bytes@.len() <= old(buf)@.len(),
    ensures
        final(buf)@ == filled(old(buf)@, bytes@),
{
    let ghost before = buf@;
    let mut i: usize = 0;
    while i < bytes.len()
        invariant
            i <= bytes@.len() <= before.len(),
            buf@ == filled(before, bytes@.take(i as int)),
        decreases bytes@.len() - i,
    {
        buf[i] = bytes[i];
        i = i + 1;
        assert(buf@ =~= filled(before, bytes@.take(i as int)));
    }
    assert(bytes@.take(i as int) =~= bytes@);
}

/// Appends zeros up to the length `len`.
pub(crate) fn pad(bytes: Vec<u8>, len: usize) -> (padded: Vec<u8>)
    requires
        bytes@.len() <= len,
    ensures
        padded@ == zero_padded(bytes@, len as nat),
{
    let ghost before = bytes@;
    let mut padded = bytes;
    while padded.len() < len
        invariant
            before.len() <= padded@.len() <= len,
            padded@ == zero_padded(before, padded@.len()),
        decreases len - padded@.len(),
    {
        padded.push(0);
        assert(padded@ =~= zero_padded(before, padded@.len()));
    }
    padded
}

/// What lies behind the first `start` bytes.
pub open spec fn tail_from(data: Seq<u8>, start: int) -> Seq<u8> {
    if data.len() <= start {
        Seq::empty()
    } else {
        data.skip(start)
    }
}

/// Replaces the front of `buf` by what lies behind the first `start` bytes of `data`.
pub(crate) fn fill_from(buf: &mut [u8], data: &Vec<u8>, start: usize)
    requires
        data@.len() <= start + old(buf)@.len(),
    ensures
        final(buf)@ == filled(old(buf)@, tail_from(data@, start as int)),
{
    if data.len() > start {
        let tail = slice_subrange(data.as_slice(), start, data.len());
        assert(tail@ =~= data@.skip(start as int));
        fill(buf, tail);
    } else {
        assert(filled(buf@, Seq::empty()) =~= buf@);
    }
}

/// A buffer that was filled keeps its length. Its front are the bytes, and what lies behind them is
/// what was there.
pub proof fn law_filling_replaces_the_front(buf: Seq<u8>, bytes: Seq<u8>, i: int)
    requires
        bytes.len() <= buf.len(),
        0 <= i < buf.len(),
    ensures
        filled(buf, bytes).len() == buf.len(),
        i < bytes.len() ==> filled(buf, bytes)[i] == bytes[i],
        i >= bytes.len() ==> filled(buf, bytes)[i] == buf[i],
{
}

/// A padded buffer has the length asked for. Its front are the bytes, and what lies behind them is
/// zero.
pub proof fn law_padding_is_zero(bytes: Seq<u8>, len: nat, i: int)
    requires
        bytes.len() <= len,
        0 <= i < len,
    ensures
        zero_padded(bytes, len).len() == len,
        i < bytes.len() ==> zero_padded(bytes, len)[i] == bytes[i],
        i >= bytes.len() ==> zero_padded(bytes, len)[i] == 0,
{
}

/// The tail of data is what is left of it behind its start, byte by byte.
pub proof fn law_tails_follow_the_start(head: Seq<u8>, tail: Seq<u8>)
    ensures
        tail_from(head + tail, head.len() as int) == tail,
{
    assert(tail_from(head + tail, head.len() as int) =~= tail);
}

} // verus!
