//! Little-endian encoding of 64-bit quantities, as the wire formats of the
//! ledger use it.

use vstd::prelude::*;

verus! {

/// The number that the first eight bytes of `bytes` spell in base 256, least
/// significant byte first.
pub open spec fn le_u64(bytes: Seq<u8>) -> int
    recommends
        bytes.len() >= 8,
{
    bytes[0] + bytes[1] * 0x100 + bytes[2] * 0x1_0000 + bytes[3] * 0x100_0000 + bytes[4]
        * 0x1_0000_0000 + bytes[5] * 0x100_0000_0000 + bytes[6] * 0x1_0000_0000_0000 + bytes[7]
        * 0x100_0000_0000_0000
}

/// The eight base-256 digits of `value`, least significant first.
pub open spec fn le_bytes(value: u64) -> Seq<u8> {
    seq![
        (value % 0x100) as u8,
        (value / 0x100 % 0x100) as u8,
        (value / 0x1_0000 % 0x100) as u8,
        (value / 0x100_0000 % 0x100) as u8,
        (value / 0x1_0000_0000 % 0x100) as u8,
        (value / 0x100_0000_0000 % 0x100) as u8,
        (value / 0x1_0000_0000_0000 % 0x100) as u8,
        (value / 0x100_0000_0000_0000 % 0x100) as u8,
    ]
}

/// Eight bytes always spell a number that fits in 64 bits.
pub proof fn lemma_le_u64_bounds(bytes: Seq<u8>)
    requires
        bytes.len() >= 8,
    ensures
        0 <= le_u64(bytes) <= u64::MAX,
{
}

/// Reading the digits of `value` gives `value` back.
pub proof fn lemma_le_u64_of_le_bytes(value: u64)
    ensures
        le_bytes(value).len() == 8,
        le_u64(le_bytes(value)) == value,
{
    assert(value == (value % 0x100) + (value / 0x100 % 0x100) * 0x100 + (value / 0x1_0000 % 0x100)
        * 0x1_0000 + (value / 0x100_0000 % 0x100) * 0x100_0000 + (value / 0x1_0000_0000 % 0x100)
        * 0x1_0000_0000 + (value / 0x100_0000_0000 % 0x100) * 0x100_0000_0000 + (value
        / 0x1_0000_0000_0000 % 0x100) * 0x1_0000_0000_0000 + (value / 0x100_0000_0000_0000 % 0x100)
        * 0x100_0000_0000_0000) by (bit_vector);
}

/// Eight bytes are the digits of the number they spell.
pub proof fn lemma_le_bytes_of_le_u64(bytes: Seq<u8>)
    requires
        bytes.len() == 8,
    ensures
        0 <= le_u64(bytes) <= u64::MAX,
        le_bytes(le_u64(bytes) as u64) == bytes,
{
    let (b0, b1, b2, b3) = (bytes[0], bytes[1], bytes[2], bytes[3]);
    let (b4, b5, b6, b7) = (bytes[4], bytes[5], bytes[6], bytes[7]);
    let value = le_u64(bytes) as u64;
    assert(value == b0 + b1 * 0x100 + b2 * 0x1_0000 + b3 * 0x100_0000 + b4 * 0x1_0000_0000 + b5
        * 0x100_0000_0000 + b6 * 0x1_0000_0000_0000 + b7 * 0x100_0000_0000_0000 ==> value % 0x100
        == b0 && value / 0x100 % 0x100 == b1 && value / 0x1_0000 % 0x100 == b2 && value
        / 0x100_0000 % 0x100 == b3 && value / 0x1_0000_0000 % 0x100 == b4 && value
        / 0x100_0000_0000 % 0x100 == b5 && value / 0x1_0000_0000_0000 % 0x100 == b6 && value
        / 0x100_0000_0000_0000 % 0x100 == b7) by (bit_vector);
    assert(le_bytes(value) =~= bytes);
}

/// Reads the 64-bit quantity that stands in `input` at `start`.
pub fn read_le_u64(input: &[u8], start: usize) -> (value: u64)
    requires
        start + 8 <= input.len(),
    ensures
        value == le_u64(input@.subrange(start as int, start + 8)),
{
    let ghost digits = input@.subrange(start as int, start + 8);
    proof {
        lemma_le_u64_bounds(digits);
    }
    (input[start] as u64) + (input[start + 1] as u64) * 0x100 + (input[start + 2] as u64)
        * 0x1_0000 + (input[start + 3] as u64) * 0x100_0000 + (input[start + 4] as u64)
        * 0x1_0000_0000 + (input[start + 5] as u64) * 0x100_0000_0000 + (input[start + 6] as u64)
        * 0x1_0000_0000_0000 + (input[start + 7] as u64) * 0x100_0000_0000_0000
}

/// Appends the eight digits of `value` to `out`.
pub fn write_le_u64(out: &mut Vec<u8>, value: u64)
    ensures
        final(out)@ == old(out)@ + le_bytes(value),
{
    out.push((value % 0x100) as u8);
    out.push((value / 0x100 % 0x100) as u8);
    out.push((value / 0x1_0000 % 0x100) as u8);
    out.push((value / 0x100_0000 % 0x100) as u8);
    out.push((value / 0x1_0000_0000 % 0x100) as u8);
    out.push((value / 0x100_0000_0000 % 0x100) as u8);
    out.push((value / 0x1_0000_0000_0000 % 0x100) as u8);
    out.push((value / 0x100_0000_0000_0000 % 0x100) as u8);
}

} // verus!
