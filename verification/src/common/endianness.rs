use vstd::prelude::*;

verus! {

/// Byte order of a multi-byte scalar on the wire.
#[derive(Clone, Copy, Debug, PartialEq, Eq, Structural)]
pub enum Endianness {
    LittleEndian,
    BigEndian,
}

/// The two bytes of `x`, least significant first.
pub open spec fn u16_le_bytes(x: u16) -> Seq<u8> {
    seq![(x % 256) as u8, (x / 256) as u8]
}

/// The four bytes of `x`, least significant first.
pub open spec fn u32_le_bytes(x: u32) -> Seq<u8> {
    seq![
        (x % 256) as u8,
        ((x / 0x100) % 256) as u8,
        ((x / 0x1_0000) % 256) as u8,
        (x / 0x100_0000) as u8,
    ]
}

/// The bytes of `x` in the order that `endianness` dictates.
#[verifier::opaque]
pub open spec fn u16_bytes(x: u16, endianness: Endianness) -> Seq<u8> {
    match endianness {
        Endianness::LittleEndian => u16_le_bytes(x),
        Endianness::BigEndian => u16_le_bytes(x).reverse(),
    }
}

/// The bytes of `x` in the order that `endianness` dictates.
#[verifier::opaque]
pub open spec fn u32_bytes(x: u32, endianness: Endianness) -> Seq<u8> {
    match endianness {
        Endianness::LittleEndian => u32_le_bytes(x),
        Endianness::BigEndian => u32_le_bytes(x).reverse(),
    }
}

/// The number whose little-endian bytes are `b0`, `b1`.
pub open spec fn u16_of_le(b0: u8, b1: u8) -> u16 {
    (b0 + 0x100 * b1) as u16
}

/// The number whose little-endian bytes are `b0` .. `b3`.
pub open spec fn u32_of_le(b0: u8, b1: u8, b2: u8, b3: u8) -> u32 {
    (b0 + 0x100 * b1 + 0x1_0000 * b2 + 0x100_0000 * b3) as u32
}

/// The number that the first two bytes of `bytes` hold under `endianness`.
#[verifier::opaque]
pub open spec fn u16_from_bytes(bytes: Seq<u8>, endianness: Endianness) -> u16
    recommends
        bytes.len() >= 2,
{
    match endianness {
        Endianness::LittleEndian => u16_of_le(bytes[0], bytes[1]),
        Endianness::BigEndian => u16_of_le(bytes[1], bytes[0]),
    }
}

/// The number that the first four bytes of `bytes` hold under `endianness`.
#[verifier::opaque]
pub open spec fn u32_from_bytes(bytes: Seq<u8>, endianness: Endianness) -> u32
    recommends
        bytes.len() >= 4,
{
    match endianness {
        Endianness::LittleEndian => u32_of_le(bytes[0], bytes[1], bytes[2], bytes[3]),
        Endianness::BigEndian => u32_of_le(bytes[3], bytes[2], bytes[1], bytes[0]),
    }
}

/// Reads the `u32` that `bytes` holds at `at`.
pub fn read_u32(bytes: &[u8], at: usize, endianness: Endianness) -> (x: u32)
    requires
        at + 4 <= bytes@.len(),
    ensures
        x == u32_from_bytes(bytes@.skip(at as int), endianness),
{
    proof {
        reveal(u32_from_bytes);
    }
    let b0: u32 = bytes[at] as u32;
    let b1: u32 = bytes[at + 1] as u32;
    let b2: u32 = bytes[at + 2] as u32;
    let b3: u32 = bytes[at + 3] as u32;
    match endianness {
        Endianness::LittleEndian => b0 + 0x100 * b1 + 0x1_0000 * b2 + 0x100_0000 * b3,
        Endianness::BigEndian => b3 + 0x100 * b2 + 0x1_0000 * b1 + 0x100_0000 * b0,
    }
}

/// Appends the four bytes of `x` to `out`.
pub fn write_u32(x: u32, endianness: Endianness, out: &mut Vec<u8>)
    ensures
        final(out)@ == old(out)@ + u32_bytes(x, endianness),
{
    proof {
        reveal(u32_bytes);
    }
    let b0: u8 = (x % 256) as u8;
    let b1: u8 = ((x / 0x100) % 256) as u8;
    let b2: u8 = ((x / 0x1_0000) % 256) as u8;
    let b3: u8 = (x / 0x100_0000) as u8;
    match endianness {
        Endianness::LittleEndian => {
            out.push(b0);
            out.push(b1);
            out.push(b2);
            out.push(b3);
        },
        Endianness::BigEndian => {
            out.push(b3);
            out.push(b2);
            out.push(b1);
            out.push(b0);
        },
    }
    assert(out@ =~= old(out)@ + u32_bytes(x, endianness));
}

/// Reads the `u16` that `bytes` holds at `at`.
pub fn read_u16(bytes: &[u8], at: usize, endianness: Endianness) -> (x: u16)
    requires
        at + 2 <= bytes@.len(),
    ensures
        x == u16_from_bytes(bytes@.skip(at as int), endianness),
{
    proof {
        reveal(u16_from_bytes);
    }
    let b0: u16 = bytes[at] as u16;
    let b1: u16 = bytes[at + 1] as u16;
    match endianness {
        Endianness::LittleEndian => b0 + 0x100 * b1,
        Endianness::BigEndian => b1 + 0x100 * b0,
    }
}

/// Appends the two bytes of `x` to `out`.
pub fn write_u16(x: u16, endianness: Endianness, out: &mut Vec<u8>)
    ensures
        final(out)@ == old(out)@ + u16_bytes(x, endianness),
{
    proof {
        reveal(u16_bytes);
    }
    let b0: u8 = (x % 256) as u8;
    let b1: u8 = (x / 0x100) as u8;
    match endianness {
        Endianness::LittleEndian => {
            out.push(b0);
            out.push(b1);
        },
        Endianness::BigEndian => {
            out.push(b1);
            out.push(b0);
        },
    }
    assert(out@ =~= old(out)@ + u16_bytes(x, endianness));
}

/// The unsigned number with the same 32 bits as `x` in two's complement.
pub open spec fn i32_bits(x: i32) -> u32 {
    if x >= 0 {
        x as u32
    } else {
        (x + 0x1_0000_0000) as u32
    }
}

/// The signed number with the same 32 bits as `x` in two's complement.
pub open spec fn i32_of_bits(x: u32) -> i32 {
    if x < 0x8000_0000 {
        x as i32
    } else {
        (x - 0x1_0000_0000) as i32
    }
}

/// The bytes of `x` in the order that `endianness` dictates.
pub open spec fn i32_bytes(x: i32, endianness: Endianness) -> Seq<u8> {
    u32_bytes(i32_bits(x), endianness)
}

/// The number that the first four bytes of `bytes` hold under `endianness`.
pub open spec fn i32_from_bytes(bytes: Seq<u8>, endianness: Endianness) -> i32
    recommends
        bytes.len() >= 4,
{
    i32_of_bits(u32_from_bytes(bytes, endianness))
}

/// Reads the `i32` that `bytes` holds at `at`.
pub fn read_i32(bytes: &[u8], at: usize, endianness: Endianness) -> (x: i32)
    requires
        at + 4 <= bytes@.len(),
    ensures
        x == i32_from_bytes(bytes@.skip(at as int), endianness),
{
    let bits: u32 = read_u32(bytes, at, endianness);
    if bits < 0x8000_0000 {
        bits as i32
    } else {
        (bits as i64 - 0x1_0000_0000) as i32
    }
}

/// Appends the four bytes of `x` to `out`.
pub fn write_i32(x: i32, endianness: Endianness, out: &mut Vec<u8>)
    ensures
        final(out)@ == old(out)@ + i32_bytes(x, endianness),
{
    let bits: u32 = if x >= 0 {
        x as u32
    } else {
        (x as i64 + 0x1_0000_0000) as u32
    };
    write_u32(bits, endianness, out);
}

/// Appends `src` to `out`, byte for byte.
pub fn write_bytes(src: &[u8], out: &mut Vec<u8>)
    ensures
        final(out)@ == old(out)@ + src@,
{
    let mut i: usize = 0;
    while i < src.len()
        invariant
            i <= src@.len(),
            out@ == old(out)@ + src@.subrange(0, i as int),
        decreases src@.len() - i,
    {
        out.push(src[i]);
        i += 1;
        assert(out@ =~= old(out)@ + src@.subrange(0, i as int));
    }
    assert(src@.subrange(0, i as int) =~= src@);
}

/// What follows a run of bytes is found by skipping the run, also where the
/// run itself follows `before` bytes that were skipped already.
pub proof fn lemma_skip_run(whole: Seq<u8>, before: int, run: Seq<u8>, after: Seq<u8>)
    requires
        0 <= before <= whole.len(),
        whole.skip(before) == run + after,
    ensures
        whole.skip(before + run.len()) == after,
        before + run.len() <= whole.len(),
{
    assert(whole.skip(before).len() == run.len() + after.len());
    assert(whole.skip(before + run.len()) =~= whole.skip(before).skip(run.len() as int));
    assert((run + after).skip(run.len() as int) =~= after);
}

/// A `u16` that is written and read back under one byte order is unchanged.
pub proof fn lemma_u16_round_trip(x: u16, endianness: Endianness, rest: Seq<u8>)
    ensures
        u16_bytes(x, endianness).len() == 2,
        u16_from_bytes(u16_bytes(x, endianness) + rest, endianness) == x,
{
    reveal(u16_bytes);
    reveal(u16_from_bytes);
}

/// A `u32` that is written and read back under one byte order is unchanged.
pub proof fn lemma_u32_round_trip(x: u32, endianness: Endianness, rest: Seq<u8>)
    ensures
        u32_bytes(x, endianness).len() == 4,
        u32_from_bytes(u32_bytes(x, endianness) + rest, endianness) == x,
{
    reveal(u32_bytes);
    reveal(u32_from_bytes);
}

/// An `i32` that is written and read back under one byte order is unchanged.
pub proof fn lemma_i32_round_trip(x: i32, endianness: Endianness, rest: Seq<u8>)
    ensures
        i32_bytes(x, endianness).len() == 4,
        i32_from_bytes(i32_bytes(x, endianness) + rest, endianness) == x,
{
    lemma_u32_round_trip(i32_bits(x), endianness, rest);
}

} // verus!
