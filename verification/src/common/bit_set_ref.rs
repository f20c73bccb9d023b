use crate::common::endianness::{
    lemma_u32_round_trip, read_u32, u32_bytes, u32_from_bytes, write_u32, Endianness,
};
use crate::common::error::CodecError;
use bit_set::BitSet;
use vstd::prelude::*;

verus! {

/// `bit_set::BitSet`, a set of numbers over a growable bit vector. Nothing
/// is known of a value but what the functions below say.
#[verifier::external_type_specification]
#[verifier::external_body]
#[verifier::reject_recursive_types(B)]
pub struct ExBitSet<B>(bit_set::BitSet<B>);

/// The numbers that a `bit_set::BitSet` holds.
pub uninterp spec fn bit_set_members(set: BitSet<u32>) -> Set<nat>;

/// The length in bits of the bit vector that backs a `bit_set::BitSet`: one
/// more than the largest number it was ever asked to hold, or the length it
/// was made with if that is more.
pub uninterp spec fn bit_set_nbits(set: BitSet<u32>) -> nat;

/// The number of 32-bit blocks that store `nbits` bits.
pub open spec fn blocks_for_bits(nbits: nat) -> nat {
    (nbits + 31) / 32
}

/// Whether bit `index` of `block` is set, bit 0 being the least significant.
pub open spec fn block_has_bit(block: u32, index: u32) -> bool {
    (block >> index) & 1 == 1
}

/// The most bits that a bitmap on the wire may announce.
pub const MAX_BITS: u32 = 256;

/// What holds of the positions and the length of every bitmap: the positions
/// are finitely many and lie below the length, which is at most `MAX_BITS`.
pub open spec fn bitmap_well_formed(members: Set<nat>, nbits: nat) -> bool {
    &&& members.finite()
    &&& nbits <= MAX_BITS
    &&& forall|m: nat| members.contains(m) ==> m < nbits
}

/// The value that `position` adds to its block: its one bit if `members`
/// holds the position, nothing otherwise.
pub open spec fn position_bit(members: Set<nat>, position: nat) -> u32 {
    if members.contains(position) {
        1u32 << ((position % 32) as u32)
    } else {
        0u32
    }
}

/// Block `block` of the bitmap of `members`, with only its lowest `k` bits.
pub open spec fn block_upto(members: Set<nat>, block: nat, k: nat) -> u32
    decreases k,
{
    if k == 0 {
        0u32
    } else {
        block_upto(members, block, (k - 1) as nat) | position_bit(
            members,
            32 * block + (k - 1) as nat,
        )
    }
}

/// Block `block` of the bitmap of `members`: bit `j` of it, counted from the
/// least significant, is set exactly if `members` holds `32 * block + j`.
pub open spec fn block_of(members: Set<nat>, block: nat) -> u32 {
    block_upto(members, block, 32)
}

/// The blocks of a bitmap of `nbits` bits that holds `members`.
pub open spec fn bitmap_blocks(members: Set<nat>, nbits: nat) -> Seq<u32> {
    Seq::new(blocks_for_bits(nbits), |i: int| block_of(members, i as nat))
}

/// The bytes of `blocks`, one block after the other.
pub open spec fn blocks_bytes(blocks: Seq<u32>, endianness: Endianness) -> Seq<u8>
    decreases blocks.len(),
{
    if blocks.len() == 0 {
        Seq::<u8>::empty()
    } else {
        blocks_bytes(blocks.drop_last(), endianness) + u32_bytes(blocks.last(), endianness)
    }
}

/// The wire form of a bitmap of `nbits` bits that holds `members`: the number
/// of bits in its blocks, then the blocks.
#[verifier::opaque]
pub open spec fn bitmap_bytes(members: Set<nat>, nbits: nat, endianness: Endianness) -> Seq<u8> {
    u32_bytes((32 * blocks_for_bits(nbits)) as u32, endianness) + blocks_bytes(
        bitmap_blocks(members, nbits),
        endianness,
    )
}

/// The number of bits that the bitmap at the front of `bytes` announces.
pub open spec fn bitmap_num_bits(bytes: Seq<u8>, endianness: Endianness) -> nat {
    u32_from_bytes(bytes, endianness) as nat
}

/// The number of bytes that the bitmap at the front of `bytes` takes.
pub open spec fn bitmap_wire_len(bytes: Seq<u8>, endianness: Endianness) -> nat {
    4 + 4 * blocks_for_bits(bitmap_num_bits(bytes, endianness))
}

/// Why the front of `bytes` is no bitmap, if it is none.
pub open spec fn bitmap_error(bytes: Seq<u8>, endianness: Endianness) -> Option<CodecError> {
    if bytes.len() < 4 {
        Some(CodecError::InputTooShort)
    } else if bitmap_num_bits(bytes, endianness) > MAX_BITS {
        Some(CodecError::BitmapTooLong)
    } else if bytes.len() < bitmap_wire_len(bytes, endianness) {
        Some(CodecError::InputTooShort)
    } else {
        None
    }
}

/// What the first four bytes of a bitmap say of its length in bytes: the
/// length, or why there is none to be had.
pub open spec fn bitmap_framed_len(head: Seq<u8>, endianness: Endianness) -> Result<
    usize,
    CodecError,
> {
    if head.len() < 4 {
        Err(CodecError::InputTooShort)
    } else if bitmap_num_bits(head, endianness) > MAX_BITS {
        Err(CodecError::BitmapTooLong)
    } else {
        Ok(bitmap_wire_len(head, endianness) as usize)
    }
}

/// Block `block` of the bitmap at the front of `bytes`.
pub open spec fn bitmap_block_at(bytes: Seq<u8>, endianness: Endianness, block: nat) -> u32 {
    u32_from_bytes(bytes.skip((4 + 4 * block) as int), endianness)
}

/// The positions that the bitmap at the front of `bytes` holds: those below
/// the announced number of bits whose bit is set.
#[verifier::opaque]
pub open spec fn bitmap_members(bytes: Seq<u8>, endianness: Endianness) -> Set<nat> {
    Set::new(
        |m: nat|
            m < bitmap_num_bits(bytes, endianness) && block_has_bit(
                bitmap_block_at(bytes, endianness, m / 32),
                (m % 32) as u32,
            ),
    )
}

/// `BitSet::with_capacity`: an empty set over a bit vector of `nbits` bits.
#[verifier::external_body]
fn bit_set_with_capacity(nbits: usize) -> (set: BitSet<u32>)
    ensures
        bit_set_members(set) == Set::<nat>::empty(),
        bit_set_nbits(set) == nbits,
{
    BitSet::with_capacity(nbits)
}

/// `BitSet::insert`: adds `value` to the set and says whether it was absent.
/// The bit vector grows to `value + 1` bits if it was shorter.
#[verifier::external_body]
fn bit_set_insert(set: &mut BitSet<u32>, value: usize) -> (fresh: bool)
    requires
        value < usize::MAX,
    ensures
        bit_set_members(*final(set)) == bit_set_members(*old(set)).insert(value as nat),
        bit_set_nbits(*final(set)) == if value < bit_set_nbits(*old(set)) {
            bit_set_nbits(*old(set))
        } else {
            (value + 1) as nat
        },
        fresh == !bit_set_members(*old(set)).contains(value as nat),
    no_unwind
{
    set.insert(value)
}

/// `BitSet::contains`: whether the set holds `value`.
#[verifier::external_body]
fn bit_set_contains(set: &BitSet<u32>, value: usize) -> (found: bool)
    ensures
        found == bit_set_members(*set).contains(value as nat),
{
    set.contains(value)
}

/// `BitSet::len`: the number of members.
#[verifier::external_body]
fn bit_set_len(set: &BitSet<u32>) -> (count: usize)
    ensures
        count == bit_set_members(*set).len(),
{
    set.len()
}

/// `BitSet::get_ref` and `BitVec::storage`: the blocks of the backing bit
/// vector. There is one block for every 32 bits of its length, and member
/// `m` is bit `m % 32` of block `m / 32`; every other bit is clear.
#[verifier::external_body]
fn bit_set_blocks(set: &BitSet<u32>) -> (blocks: Vec<u32>)
    ensures
        blocks@.len() == blocks_for_bits(bit_set_nbits(*set)),
        forall|i: int, j: u32|
            0 <= i < blocks@.len() && j < 32 ==> (#[trigger] block_has_bit(blocks@[i], j)
                <==> bit_set_members(*set).contains((32 * i + j) as nat)),
{
    set.get_ref().storage().to_vec()
}

/// A set of bit positions below 256, kept in a `bit_set::BitSet`.
#[derive(Debug, PartialEq, Eq)]
pub struct BitSetRef {
    set: BitSet<u32>,
}

impl BitSetRef {
    /// The positions in the set.
    pub closed spec fn members(&self) -> Set<nat> {
        bit_set_members(self.set)
    }

    /// The length in bits of the bitmap that holds the set.
    pub closed spec fn nbits(&self) -> nat {
        bit_set_nbits(self.set)
    }

    /// What holds of every `BitSetRef`: see `bitmap_well_formed`.
    #[verifier::type_invariant]
    pub open spec fn well_formed(&self) -> bool {
        bitmap_well_formed(self.members(), self.nbits())
    }

    /// An empty set over a bitmap of no bits.
    pub fn new() -> (set: BitSetRef)
        ensures
            set.members() == Set::<nat>::empty(),
            set.nbits() == 0,
            set.well_formed(),
    {
        BitSetRef { set: bit_set_with_capacity(0) }
    }

    /// Adds `position` to the set and returns whether it was absent.
    pub fn insert(&mut self, position: u8) -> (fresh: bool)
        ensures
            final(self).members() == old(self).members().insert(position as nat),
            final(self).nbits() == if position < old(self).nbits() {
                old(self).nbits()
            } else {
                (position + 1) as nat
            },
            fresh == !old(self).members().contains(position as nat),
            final(self).well_formed(),
        no_unwind
    {
        proof {
            use_type_invariant(&*self);
        }
        bit_set_insert(&mut self.set, position as usize)
    }

    /// Whether `position` is in the set.
    pub fn contains(&self, position: u8) -> (found: bool)
        ensures
            found == self.members().contains(position as nat),
    {
        bit_set_contains(&self.set, position as usize)
    }

    /// The wire form of the set under `endianness`.
    pub open spec fn wire_bytes(&self, endianness: Endianness) -> Seq<u8> {
        bitmap_bytes(self.members(), self.nbits(), endianness)
    }

    /// Appends the wire form of the set to `out`.
    pub fn write_to(&self, endianness: Endianness, out: &mut Vec<u8>)
        ensures
            final(out)@ == old(out)@ + self.wire_bytes(endianness),
    {
        proof {
            use_type_invariant(self);
            reveal(bitmap_bytes);
        }
        let blocks = bit_set_blocks(&self.set);
        let ghost expected = bitmap_blocks(self.members(), self.nbits());
        assert(blocks@ =~= expected) by {
            assert forall|i: int| 0 <= i < blocks@.len() implies blocks@[i] == expected[i] by {
                lemma_block_from_bits(blocks@[i], self.members(), i as nat, 32);
            }
        }
        let num_bits: u32 = (blocks.len() * 32) as u32;
        write_u32(num_bits, endianness, out);
        let mut i: usize = 0;
        while i < blocks.len()
            invariant
                i <= blocks@.len(),
                out@ == old(out)@ + u32_bytes(num_bits, endianness) + blocks_bytes(
                    blocks@.subrange(0, i as int),
                    endianness,
                ),
            decreases blocks@.len() - i,
        {
            write_u32(blocks[i], endianness, out);
            i += 1;
            proof {
                let done = blocks@.subrange(0, i as int);
                assert(done.drop_last() =~= blocks@.subrange(0, i - 1));
                assert(out@ =~= old(out)@ + u32_bytes(num_bits, endianness) + blocks_bytes(
                    done,
                    endianness,
                ));
            }
        }
        assert(blocks@.subrange(0, i as int) =~= blocks@);
        assert(out@ =~= old(out)@ + self.wire_bytes(endianness));
    }

    /// The smallest number of bytes that a bitmap takes: those of its number
    /// of bits.
    pub fn minimum_bytes_needed() -> (n: usize)
        ensures
            n == 4,
    {
        4
    }

    /// The number of bytes that the bitmap takes whose first bytes are
    /// `head`. It is told from the first four bytes alone.
    pub fn framed_len(head: &[u8], endianness: Endianness) -> (r: Result<usize, CodecError>)
        ensures
            r == bitmap_framed_len(head@, endianness),
    {
        if head.len() < 4 {
            return Err(CodecError::InputTooShort);
        }
        let num_bits = read_u32(head, 0, endianness);
        assert(head@.skip(0) =~= head@);
        if num_bits > MAX_BITS {
            return Err(CodecError::BitmapTooLong);
        }
        Ok(4 + 4 * ((num_bits as usize + 31) / 32))
    }

    /// Reads the bitmap at the front of `bytes`, and says how many bytes it
    /// takes. Bits at and beyond the announced number of bits are ignored.
    pub fn read_from(bytes: &[u8], endianness: Endianness) -> (r: Result<
        (BitSetRef, usize),
        CodecError,
    >)
        ensures
            match r {
                Ok((set, used)) => {
                    &&& bitmap_error(bytes@, endianness).is_none()
                    &&& set.members() == bitmap_members(bytes@, endianness)
                    &&& set.nbits() == bitmap_num_bits(bytes@, endianness)
                    &&& used == bitmap_wire_len(bytes@, endianness)
                    &&& set.well_formed()
                },
                Err(e) => bitmap_error(bytes@, endianness) == Some(e),
            },
    {
        proof {
            reveal(bitmap_members);
        }
        if bytes.len() < 4 {
            return Err(CodecError::InputTooShort);
        }
        let num_bits = read_u32(bytes, 0, endianness);
        assert(bytes@.skip(0) =~= bytes@);
        if num_bits > MAX_BITS {
            return Err(CodecError::BitmapTooLong);
        }
        let used: usize = 4 + 4 * ((num_bits as usize + 31) / 32);
        if bytes.len() < used {
            return Err(CodecError::InputTooShort);
        }
        let mut set = BitSetRef { set: bit_set_with_capacity(num_bits as usize) };
        let mut position: u32 = 0;
        while position < num_bits
            invariant
                position <= num_bits <= MAX_BITS,
                num_bits == bitmap_num_bits(bytes@, endianness),
                used == bitmap_wire_len(bytes@, endianness),
                used <= bytes@.len(),
                set.nbits() == num_bits,
                set.members() == Set::new(
                    |m: nat|
                        m < position && block_has_bit(
                            bitmap_block_at(bytes@, endianness, m / 32),
                            (m % 32) as u32,
                        ),
                ),
            decreases num_bits - position,
        {
            let block = read_u32(bytes, 4 + 4 * (position as usize / 32), endianness);
            let index: u32 = position % 32;
            let ghost before = set.members();
            if (block >> index) & 1 == 1 {
                set.insert(position as u8);
            }
            position += 1;
            assert(set.members() =~= Set::new(
                |m: nat|
                    m < position && block_has_bit(
                        bitmap_block_at(bytes@, endianness, m / 32),
                        (m % 32) as u32,
                    ),
            ));
        }
        assert(set.members() =~= bitmap_members(bytes@, endianness));
        proof {
            use_type_invariant(&set);
        }
        Ok((set, used))
    }

    /// The number of positions in the set.
    pub fn len(&self) -> (count: usize)
        ensures
            count == self.members().len(),
            count <= MAX_BITS,
    {
        proof {
            use_type_invariant(self);
            lemma_bounded_set_len(self.members(), 256);
        }
        bit_set_len(&self.set)
    }
}

/// The lowest `k` bits of `block`.
pub open spec fn low_bits(block: u32, k: u32) -> u32 {
    if k >= 32 {
        block
    } else {
        block & !(0xFFFF_FFFFu32 << k)
    }
}

/// A block whose bits are those of `members` is the block of `members`.
pub proof fn lemma_block_from_bits(w: u32, members: Set<nat>, block: nat, k: nat)
    requires
        k <= 32,
        forall|j: u32| j < 32 ==> (#[trigger] block_has_bit(w, j) <==> members.contains(
            (32 * block + j) as nat,
        )),
    ensures
        block_upto(members, block, k) == low_bits(w, k as u32),
    decreases k,
{
    if k == 0 {
        assert(low_bits(w, 0) == 0) by (bit_vector);
    } else {
        let j = (k - 1) as u32;
        lemma_block_from_bits(w, members, block, (k - 1) as nat);
        assert(block_has_bit(w, j) <==> members.contains((32 * block + j) as nat));
        assert((32 * block + (k - 1) as nat) % 32 == j);
        assert(low_bits(w, (j + 1) as u32) == low_bits(w, j) | (if block_has_bit(w, j) {
            1u32 << j
        } else {
            0u32
        })) by (bit_vector)
            requires
                j < 32,
        ;
    }
}

/// Bit `j` of the block of `members` is set exactly if `members` holds the
/// position that the bit stands for.
pub proof fn lemma_block_bits(members: Set<nat>, block: nat, k: nat, j: u32)
    requires
        k <= 32,
        j < 32,
    ensures
        block_has_bit(block_upto(members, block, k), j) <==> (j < k && members.contains(
            (32 * block + j) as nat,
        )),
    decreases k,
{
    if k == 0 {
        assert(!block_has_bit(0u32, j)) by (bit_vector);
    } else {
        let last = (k - 1) as u32;
        let lower = block_upto(members, block, (k - 1) as nat);
        lemma_block_bits(members, block, (k - 1) as nat, j);
        assert((32 * block + (k - 1) as nat) % 32 == last);
        assert(block_has_bit(lower | (1u32 << last), j) == (block_has_bit(lower, j) || j == last))
            by (bit_vector)
            requires
                j < 32,
                last < 32,
        ;
        assert(block_has_bit(lower | 0u32, j) == block_has_bit(lower, j)) by (bit_vector);
    }
}

/// The bytes of block `i` stand at offset `4 * i` of the bytes of `blocks`.
pub proof fn lemma_blocks_bytes_at(blocks: Seq<u32>, endianness: Endianness, i: int)
    requires
        0 <= i < blocks.len(),
    ensures
        blocks_bytes(blocks, endianness).len() == 4 * blocks.len(),
        blocks_bytes(blocks, endianness).subrange(4 * i, 4 * i + 4) == u32_bytes(
            blocks[i],
            endianness,
        ),
    decreases blocks.len(),
{
    let front = blocks.drop_last();
    lemma_blocks_bytes_len(blocks, endianness);
    lemma_blocks_bytes_len(front, endianness);
    if i == blocks.len() - 1 {
        assert(blocks_bytes(blocks, endianness).subrange(4 * i, 4 * i + 4) =~= u32_bytes(
            blocks[i],
            endianness,
        ));
    } else {
        lemma_blocks_bytes_at(front, endianness, i);
        assert(blocks_bytes(blocks, endianness).subrange(4 * i, 4 * i + 4) =~= blocks_bytes(
            front,
            endianness,
        ).subrange(4 * i, 4 * i + 4));
    }
}

/// Every block takes four bytes.
pub proof fn lemma_blocks_bytes_len(blocks: Seq<u32>, endianness: Endianness)
    ensures
        blocks_bytes(blocks, endianness).len() == 4 * blocks.len(),
    decreases blocks.len(),
{
    if blocks.len() > 0 {
        lemma_blocks_bytes_len(blocks.drop_last(), endianness);
        lemma_u32_round_trip(blocks.last(), endianness, Seq::empty());
    }
}

/// A bitmap stands at the front of `bytes` exactly if its first four bytes
/// give a length and `bytes` is as long; the length is then the number of
/// bytes that the bitmap takes. More bytes than the first four do not change
/// what length they give.
pub proof fn lemma_bitmap_framed_len(bytes: Seq<u8>, endianness: Endianness, head_len: int)
    requires
        4 <= head_len <= bytes.len(),
    ensures
        bitmap_error(bytes, endianness).is_none() <==> (bitmap_framed_len(bytes, endianness)
            matches Ok(n) && bytes.len() >= n),
        bitmap_framed_len(bytes, endianness) matches Ok(n) ==> n == bitmap_wire_len(
            bytes,
            endianness,
        ),
        bitmap_framed_len(bytes.take(head_len), endianness) == bitmap_framed_len(
            bytes,
            endianness,
        ),
{
    reveal(u32_from_bytes);
}

/// A bitmap that is written and read back holds the same positions; its
/// length in bits comes back rounded up to whole blocks.
pub proof fn lemma_bitmap_round_trip(
    members: Set<nat>,
    nbits: nat,
    endianness: Endianness,
    rest: Seq<u8>,
)
    requires
        bitmap_well_formed(members, nbits),
    ensures
        bitmap_error(bitmap_bytes(members, nbits, endianness) + rest, endianness).is_none(),
        bitmap_members(bitmap_bytes(members, nbits, endianness) + rest, endianness) == members,
        bitmap_num_bits(bitmap_bytes(members, nbits, endianness) + rest, endianness) == 32
            * blocks_for_bits(nbits),
        bitmap_wire_len(bitmap_bytes(members, nbits, endianness) + rest, endianness)
            == bitmap_bytes(members, nbits, endianness).len(),
{
    reveal(bitmap_bytes);
    reveal(bitmap_members);
    let count = blocks_for_bits(nbits);
    let blocks = bitmap_blocks(members, nbits);
    let head = u32_bytes((32 * count) as u32, endianness);
    let body = blocks_bytes(blocks, endianness);
    let wire = bitmap_bytes(members, nbits, endianness) + rest;
    lemma_blocks_bytes_len(blocks, endianness);
    lemma_u32_round_trip((32 * count) as u32, endianness, body + rest);
    assert(wire =~= head + (body + rest));
    assert(bitmap_num_bits(wire, endianness) == 32 * count);
    assert forall|i: nat| i < count implies bitmap_block_at(wire, endianness, i) == block_of(
        members,
        i,
    ) by {
        lemma_blocks_bytes_at(blocks, endianness, i as int);
        let tail = wire.skip((4 + 4 * i) as int);
        let after = wire.skip((4 + 4 * i + 4) as int);
        assert(tail =~= u32_bytes(blocks[i as int], endianness) + after) by {
            assert(tail.subrange(0, 4) =~= body.subrange(4 * i as int, 4 * i as int + 4));
            assert(tail =~= tail.subrange(0, 4) + after);
        }
        lemma_u32_round_trip(blocks[i as int], endianness, after);
    }
    assert forall|m: nat| bitmap_members(wire, endianness).contains(m) <==> members.contains(
        m,
    ) by {
        if m < 32 * count {
            let i = m / 32;
            let j = (m % 32) as u32;
            lemma_block_bits(members, i, 32, j);
            assert(i < count);
            assert(bitmap_block_at(wire, endianness, i) == block_of(members, i));
            assert((32 * i + j) as nat == m);
        }
    }
    assert(bitmap_members(wire, endianness) =~= members);
}

/// A finite set of numbers below `bound` has at most `bound` members.
pub proof fn lemma_bounded_set_len(s: Set<nat>, bound: nat)
    requires
        s.finite(),
        forall|m: nat| s.contains(m) ==> m < bound,
    ensures
        s.len() <= bound,
    decreases bound,
{
    if bound == 0 {
        assert(s =~= Set::<nat>::empty());
    } else {
        let top = (bound - 1) as nat;
        let rest = s.remove(top);
        lemma_bounded_set_len(rest, top);
        if s.contains(top) {
            assert(s.len() == rest.len() + 1);
        } else {
            assert(rest =~= s);
        }
    }
}

} // verus!
