//! Fixed-width little-endian fields, of which the payloads of the messages
//! are made.

use vstd::prelude::*;

verus! {

/// A sixteen-bit value as two bytes, low byte first.
pub open spec fn le16(value: u16) -> Seq<u8> {
    seq![(value % 256) as u8, (value / 256) as u8]
}

/// A thirty-two-bit value as four bytes, lowest byte first.
pub open spec fn le32(value: u32) -> Seq<u8> {
    seq![
        (value % 256) as u8,
        ((value / 256) % 256) as u8,
        ((value / 65536) % 256) as u8,
        (value / 16777216) as u8,
    ]
}

/// The sixteen-bit value of two bytes, low byte first.
pub open spec fn le16_value(data: Seq<u8>, at: int) -> u16 {
    (data[at] + 256 * data[at + 1]) as u16
}

/// The thirty-two-bit value of four bytes, lowest byte first.
pub open spec fn le32_value(data: Seq<u8>, at: int) -> u32 {
    (data[at] + 256 * data[at + 1] + 65536 * data[at + 2] + 16777216 * data[at + 3]) as u32
}

/// A signed byte in two's complement.
pub open spec fn twos8(value: i8) -> u8 {
    if value < 0 {
        (value + 256) as u8
    } else {
        value as u8
    }
}

/// A signed sixteen-bit value in two's complement.
pub open spec fn twos16(value: i16) -> u16 {
    if value < 0 {
        (value + 65536) as u16
    } else {
        value as u16
    }
}

/// A signed thirty-two-bit value in two's complement.
pub open spec fn twos32(value: i32) -> u32 {
    if value < 0 {
        (value + 4294967296) as u32
    } else {
        value as u32
    }
}

/// The signed byte that a byte is in two's complement.
pub open spec fn signed8(value: u8) -> i8 {
    if value >= 128 {
        (value - 256) as i8
    } else {
        value as i8
    }
}

/// The signed value that sixteen bits are in two's complement.
pub open spec fn signed16(value: u16) -> i16 {
    if value >= 32768 {
        (value - 65536) as i16
    } else {
        value as i16
    }
}

/// The signed value that thirty-two bits are in two's complement.
pub open spec fn signed32(value: u32) -> i32 {
    if value >= 2147483648 {
        (value - 4294967296) as i32
    } else {
        value as i32
    }
}

/// Reading back what was written gives the value that was written.
pub proof fn lemma_le_round_trip(a: u16, b: u32, c: i8, d: i16, e: i32)
    ensures
        le16(a).len() == 2,
        le32(b).len() == 4,
        le16_value(le16(a), 0) == a,
        le32_value(le32(b), 0) == b,
        signed8(twos8(c)) == c,
        signed16(twos16(d)) == d,
        signed32(twos32(e)) == e,
{
}

/// The bytes of the value that four bytes stand for are these four bytes.
proof fn lemma_split32(b0: u8, b1: u8, b2: u8, b3: u8)
    ensures
        ({
            let value = b0 + 256 * b1 + 65536 * b2 + 16777216 * b3;
            &&& 0 <= value <= u32::MAX
            &&& value % 256 == b0
            &&& (value / 256) % 256 == b1
            &&& (value / 65536) % 256 == b2
            &&& value / 16777216 == b3
        }),
{
    let high = b2 + 256 * b3;
    let mid = b1 + 256 * high;
    let value = b0 + 256 * mid;
    assert(value == b0 + 256 * b1 + 65536 * b2 + 16777216 * b3);
    assert(value / 256 == mid);
    assert(mid / 256 == high);
    assert(high / 256 == b3);
    assert(value / 65536 == high) by {
        assert(value / 65536 == (value / 256) / 256);
    }
    assert(value / 16777216 == b3) by {
        assert(value / 16777216 == (value / 65536) / 256);
    }
}

/// Writing what was read gives the bytes that were read.
pub proof fn lemma_le_bytes_round_trip(data: Seq<u8>, at: int, a: u8, b: u16, c: u32)
    requires
        0 <= at,
        at + 4 <= data.len(),
    ensures
        le16(le16_value(data, at)) == data.subrange(at, at + 2),
        le32(le32_value(data, at)) == data.subrange(at, at + 4),
        twos8(signed8(a)) == a,
        twos16(signed16(b)) == b,
        twos32(signed32(c)) == c,
{
    assert(le16(le16_value(data, at)) =~= data.subrange(at, at + 2));
    lemma_split32(data[at], data[at + 1], data[at + 2], data[at + 3]);
    assert(le32(le32_value(data, at)) =~= data.subrange(at, at + 4));
}

pub fn put_u8(buf: &mut Vec<u8>, value: u8)
    ensures
        final(buf)@ == old(buf)@ + seq![value],
{
    buf.push(value);
    proof {
        assert(final(buf)@ =~= old(buf)@ + seq![value]);
    }
}

pub fn put_i8(buf: &mut Vec<u8>, value: i8)
    ensures
        final(buf)@ == old(buf)@ + seq![twos8(value)],
{
    let byte: u8 = if value < 0 {
        (value as i16 + 256) as u8
    } else {
        value as u8
    };
    put_u8(buf, byte);
}

pub fn put_u16(buf: &mut Vec<u8>, value: u16)
    ensures
        final(buf)@ == old(buf)@ + le16(value),
{
    buf.push((value % 256) as u8);
    buf.push((value / 256) as u8);
    proof {
        assert(final(buf)@ =~= old(buf)@ + le16(value));
    }
}

pub fn put_i16(buf: &mut Vec<u8>, value: i16)
    ensures
        final(buf)@ == old(buf)@ + le16(twos16(value)),
{
    let bits: u16 = if value < 0 {
        (value as i32 + 65536) as u16
    } else {
        value as u16
    };
    put_u16(buf, bits);
}

pub fn put_u32(buf: &mut Vec<u8>, value: u32)
    ensures
        final(buf)@ == old(buf)@ + le32(value),
{
    buf.push((value % 256) as u8);
    buf.push(((value / 256) % 256) as u8);
    buf.push(((value / 65536) % 256) as u8);
    buf.push((value / 16777216) as u8);
    proof {
        assert(final(buf)@ =~= old(buf)@ + le32(value));
    }
}

pub fn put_i32(buf: &mut Vec<u8>, value: i32)
    ensures
        final(buf)@ == old(buf)@ + le32(twos32(value)),
{
    let bits: u32 = if value < 0 {
        (value as i64 + 4294967296) as u32
    } else {
        value as u32
    };
    put_u32(buf, bits);
}

/// Appends the bytes of `bytes` as they are.
pub fn put_bytes(buf: &mut Vec<u8>, bytes: &[u8])
    ensures
        final(buf)@ == old(buf)@ + bytes@,
{
    let mut i: usize = 0;
    while i < bytes.len()
        invariant
            i <= bytes.len(),
            buf@ == old(buf)@ + bytes@.take(i as int),
        decreases bytes.len() - i,
    {
        buf.push(bytes[i]);
        proof {
            assert(buf@ =~= old(buf)@ + bytes@.take(i + 1));
        }
        i += 1;
    }
    proof {
        assert(bytes@.take(bytes.len() as int) =~= bytes@);
    }
}

pub fn get_u8(data: &[u8], at: usize) -> (value: u8)
    requires
        at < data@.len(),
    ensures
        value == data@[at as int],
{
    data[at]
}

pub fn get_i8(data: &[u8], at: usize) -> (value: i8)
    requires
        at < data@.len(),
    ensures
        value == signed8(data@[at as int]),
{
    let byte = data[at];
    if byte >= 128 {
        (byte as i16 - 256) as i8
    } else {
        byte as i8
    }
}

pub fn get_u16(data: &[u8], at: usize) -> (value: u16)
    requires
        at + 2 <= data@.len(),
    ensures
        value == le16_value(data@, at as int),
{
    data[at] as u16 + 256 * (data[at + 1] as u16)
}

pub fn get_i16(data: &[u8], at: usize) -> (value: i16)
    requires
        at + 2 <= data@.len(),
    ensures
        value == signed16(le16_value(data@, at as int)),
{
    let bits = get_u16(data, at);
    if bits >= 32768 {
        (bits as i32 - 65536) as i16
    } else {
        bits as i16
    }
}

pub fn get_u32(data: &[u8], at: usize) -> (value: u32)
    requires
        at + 4 <= data@.len(),
    ensures
        value == le32_value(data@, at as int),
{
    data[at] as u32 + 256 * (data[at + 1] as u32) + 65536 * (data[at + 2] as u32) + 16777216 * (
    data[at + 3] as u32)
}

pub fn get_i32(data: &[u8], at: usize) -> (value: i32)
    requires
        at + 4 <= data@.len(),
    ensures
        value == signed32(le32_value(data@, at as int)),
{
    let bits = get_u32(data, at);
    if bits >= 2147483648 {
        (bits as i64 - 4294967296) as i32
    } else {
        bits as i32
    }
}

} // verus!
