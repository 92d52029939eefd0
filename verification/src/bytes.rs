//! Little-endian integers, the form every field has on the wire.
//!
//! The fields of a header and the handle records are kept to this order on every machine.

use vm_memory::{ByteValued, Le32};
use vstd::prelude::*;

verus! {

/// The number that `bytes` spell, least significant byte first.
pub open spec fn le_value(bytes: Seq<u8>) -> nat
    decreases bytes.len(),
{
    if bytes.len() == 0 {
        0
    } else {
        bytes[0] as nat + 256 * le_value(bytes.skip(1))
    }
}

/// The lowest `len` bytes of `value`, least significant byte first.
pub open spec fn le_bytes(value: nat, len: nat) -> Seq<u8>
    decreases len,
{
    if len == 0 {
        Seq::empty()
    } else {
        seq![(value % 256) as u8] + le_bytes(value / 256, (len - 1) as nat)
    }
}

/// `256` to the power `len`: the number of values that `len` bytes can spell.
pub open spec fn byte_range(len: nat) -> nat
    decreases len,
{
    if len == 0 {
        1
    } else {
        256 * byte_range((len - 1) as nat)
    }
}

/// Writing a number that fits and reading it back gives the number.
pub proof fn lemma_le_value_of_bytes(value: nat, len: nat)
    requires
        value < byte_range(len),
    ensures
        le_bytes(value, len).len() == len,
        le_value(le_bytes(value, len)) == value,
    decreases len,
{
    if len > 0 {
        lemma_le_value_of_bytes(value / 256, (len - 1) as nat);
        assert(le_bytes(value, len).skip(1) =~= le_bytes(value / 256, (len - 1) as nat));
    }
}

/// Reading bytes as a number and writing it back gives the bytes.
pub proof fn lemma_le_bytes_of_value(bytes: Seq<u8>)
    ensures
        le_value(bytes) < byte_range(bytes.len()),
        le_bytes(le_value(bytes), bytes.len()) == bytes,
    decreases bytes.len(),
{
    if bytes.len() > 0 {
        lemma_le_bytes_of_value(bytes.skip(1));
        let rest = le_value(bytes.skip(1));
        assert(le_value(bytes) % 256 == bytes[0] && le_value(bytes) / 256 == rest);
        assert(le_bytes(le_value(bytes), bytes.len()) =~= bytes);
    }
}

/// The ranges of the integer widths that occur on the wire.
pub proof fn lemma_byte_ranges()
    ensures
        byte_range(4) == 0x1_0000_0000,
        byte_range(8) == 0x1_0000_0000_0000_0000,
{
    reveal_with_fuel(byte_range, 9);
}

/// `vm_memory::ByteValued::as_slice` of a `vm_memory::Le32`, copied into a vector.
///
/// The slice is the memory of the value, and a `Le32` keeps its number least significant byte
/// first whatever the machine.
#[verifier::external_body]
fn le32_as_slice(value: u32) -> (bytes: Vec<u8>)
    ensures
        bytes@ == le_bytes(value as nat, 4),
{
    Le32::from(value).as_slice().to_vec()
}

/// `vm_memory::ByteValued::read_exact_from` for a `vm_memory::Le32`.
///
/// It fills the value's memory from the front of `bytes`, which fails only where they are too
/// few; the number is then read least significant byte first.
#[verifier::external_body]
fn le32_read_exact_from(bytes: &[u8]) -> (value: u32)
    requires
        bytes@.len() == 4,
    ensures
        value == le_value(bytes@),
{
    Le32::read_exact_from(bytes).unwrap().to_native()
}

/// Encodes a 32-bit field.
pub fn u32_to_le(value: u32) -> (bytes: Vec<u8>)
    ensures
        bytes@ == le_bytes(value as nat, 4),
        bytes@.len() == 4,
{
    proof {
        lemma_byte_ranges();
        lemma_le_value_of_bytes(value as nat, 4);
    }
    le32_as_slice(value)
}

/// Decodes a 32-bit field.
pub fn u32_from_le(bytes: &[u8]) -> (value: u32)
    requires
        bytes@.len() == 4,
    ensures
        value == le_value(bytes@),
{
    le32_read_exact_from(bytes)
}

/// Encodes a 64-bit field.
pub fn u64_to_le(value: u64) -> (bytes: Vec<u8>)
    ensures
        bytes@ == le_bytes(value as nat, 8),
        bytes@.len() == 8,
{
    let mut bytes: Vec<u8> = Vec::new();
    let mut rest: u64 = value;
    let mut i: usize = 0;
    while i < 8
        invariant
            i <= 8,
            bytes@.len() == i,
            bytes@ + le_bytes(rest as nat, (8 - i) as nat) == le_bytes(value as nat, 8),
        decreases 8 - i,
    {
        let ghost before = bytes@;
        let ghost tail = le_bytes(rest as nat, (8 - i) as nat);
        bytes.push((rest % 256) as u8);
        rest = rest / 256;
        i = i + 1;
        assert(tail == seq![bytes@.last()] + le_bytes(rest as nat, (8 - i) as nat));
        assert(bytes@ + le_bytes(rest as nat, (8 - i) as nat) =~= before + tail);
    }
    assert(bytes@ + le_bytes(rest as nat, 0) =~= bytes@);
    bytes
}

/// Decodes a 64-bit field.
pub fn u64_from_le(bytes: &[u8]) -> (value: u64)
    requires
        bytes@.len() == 8,
    ensures
        value == le_value(bytes@),
{
    proof {
        lemma_byte_ranges();
        lemma_le_bytes_of_value(bytes@);
        assert(bytes@.skip(8).len() == 0);
    }
    let mut value: u64 = 0;
    let mut i: usize = 8;
    while i > 0
        invariant
            i <= 8,
            bytes@.len() == 8,
            value == le_value(bytes@.skip(i as int)),
        decreases i,
    {
        i = i - 1;
        proof {
            assert(bytes@.skip(i as int).skip(1) =~= bytes@.skip(i + 1));
            lemma_byte_ranges();
            lemma_le_bytes_of_value(bytes@.skip(i as int));
            lemma_byte_range_monotonic((8 - i) as nat, 8);
        }
        value = bytes[i] as u64 + 256 * value;
    }
    assert(bytes@.skip(0) =~= bytes@);
    value
}

proof fn lemma_byte_range_monotonic(a: nat, b: nat)
    requires
        a <= b,
    ensures
        byte_range(a) <= byte_range(b),
    decreases b,
{
    if a < b {
        lemma_byte_range_monotonic(a, (b - 1) as nat);
    }
}

/// Byte `i` of a number is its digit of the weight 256 to the power `i`: the least significant byte
/// comes first.
pub proof fn law_bytes_are_digits(value: nat, len: nat, i: nat)
    requires
        i < len,
    ensures
        le_bytes(value, len).len() == len,
        le_bytes(value, len)[i as int] == (value / byte_range(i)) % 256,
    decreases len,
{
    let rest = le_bytes(value / 256, (len - 1) as nat);
    lemma_le_bytes_len(value / 256, (len - 1) as nat);
    lemma_byte_range_positive(i);
    if i == 0 {
        assert(byte_range(0) == 1);
        assert(value / 1 == value);
    } else {
        law_bytes_are_digits(value / 256, (len - 1) as nat, (i - 1) as nat);
        let range = byte_range((i - 1) as nat);
        lemma_byte_range_positive((i - 1) as nat);
        vstd::arithmetic::div_mod::lemma_div_denominator(value as int, 256, range as int);
        assert(le_bytes(value, len)[i as int] == rest[i - 1]);
        assert((value / 256) / range == value / byte_range(i));
    }
}

proof fn lemma_le_bytes_len(value: nat, len: nat)
    ensures
        le_bytes(value, len).len() == len,
    decreases len,
{
    if len > 0 {
        lemma_le_bytes_len(value / 256, (len - 1) as nat);
    }
}

proof fn lemma_byte_range_positive(len: nat)
    ensures
        byte_range(len) > 0,
    decreases len,
{
    if len > 0 {
        lemma_byte_range_positive((len - 1) as nat);
    }
}

} // verus!
