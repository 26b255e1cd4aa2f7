//! Bitstream reader: reads a byte buffer one bit at a time, most
//! significant bit of each byte first.
use vstd::prelude::*;
use vstd::arithmetic::power2::{lemma2_to64, lemma_pow2_unfold, pow2};

verus! {

/// The bit at absolute position `i` of `data` (bit 0 is the most significant
/// bit of the first byte). Positions outside the buffer read as 0.
pub open spec fn bit_at(data: Seq<u8>, i: int) -> u32 {
    if 0 <= i < 8 * data.len() {
        ((data[i / 8] >> ((7 - i % 8) as u8)) & 1u8) as u32
    } else {
        0
    }
}

/// A bit of the stream is 0 or 1.
pub proof fn lemma_bit_at_is_bit(data: Seq<u8>, i: int)
    ensures
        bit_at(data, i) <= 1,
{
    if 0 <= i < 8 * data.len() {
        let b: u8 = data[i / 8];
        let s: u8 = (7 - i % 8) as u8;
        assert((b >> s) & 1u8 <= 1) by (bit_vector);
    }
}

/// The position after reading one bit at `pos`: the reader stops at the end
/// of the buffer and from there on keeps reading zeros.
pub open spec fn next_pos(data: Seq<u8>, pos: int) -> int {
    if pos < 8 * data.len() {
        pos + 1
    } else {
        pos
    }
}

/// The position after reading `n` bits starting at `pos`.
pub open spec fn advance(data: Seq<u8>, pos: int, n: nat) -> int
    decreases n,
{
    if n == 0 {
        pos
    } else {
        next_pos(data, advance(data, pos, (n - 1) as nat))
    }
}

/// The value of the `n` bits of `data` from position `pos` on, read as an
/// unsigned big-endian number (bits past the end count as 0).
pub open spec fn bits_value(data: Seq<u8>, pos: int, n: nat) -> int
    decreases n,
{
    if n == 0 {
        0
    } else {
        2 * bits_value(data, pos, (n - 1) as nat) + bit_at(data, pos + n - 1)
    }
}

/// Reading `k` bits from `pos` lands at `pos + k`, or at the end of the
/// buffer if that comes first; the bit found there is the bit at `pos + k`.
pub proof fn lemma_advance(data: Seq<u8>, pos: int, k: nat)
    ensures
        advance(data, pos, k) == (if pos + k <= 8 * data.len() {
            pos + k
        } else if pos <= 8 * data.len() {
            8 * data.len() as int
        } else {
            pos
        }),
        bit_at(data, advance(data, pos, k)) == bit_at(data, pos + k),
    decreases k,
{
    if k > 0 {
        lemma_advance(data, pos, (k - 1) as nat);
    }
}

/// Reading `k + 1` bits from `pos` ends where reading `k` bits from the
/// position after `pos` ends.
pub proof fn lemma_advance_step(data: Seq<u8>, pos: int, k: nat)
    ensures
        advance(data, next_pos(data, pos), k) == advance(data, pos, k + 1),
{
    lemma_advance(data, next_pos(data, pos), k);
    lemma_advance(data, pos, k + 1);
}

/// The `n` bits after `pos` are the same whether the reader moved on from
/// `pos` or stayed at the end of the buffer.
pub proof fn lemma_bits_value_shift(data: Seq<u8>, pos: int, n: nat)
    ensures
        bits_value(data, next_pos(data, pos), n) == bits_value(data, pos + 1, n),
    decreases n,
{
    if n > 0 {
        lemma_bits_value_shift(data, pos, (n - 1) as nat);
    }
}

/// Law: the eight bits read from a byte boundary are that byte, most
/// significant bit first.
pub proof fn law_byte_bits(data: Seq<u8>, j: int)
    requires
        0 <= j < data.len(),
    ensures
        bits_value(data, 8 * j, 8) == data[j],
{
    reveal_with_fuel(bits_value, 9);
    let b: u8 = data[j];
    assert(b == ((b >> 7u8) & 1u8) * 128 + ((b >> 6u8) & 1u8) * 64 + ((b >> 5u8) & 1u8) * 32 + ((b
        >> 4u8) & 1u8) * 16 + ((b >> 3u8) & 1u8) * 8 + ((b >> 2u8) & 1u8) * 4 + ((b >> 1u8) & 1u8)
        * 2 + ((b >> 0u8) & 1u8)) by (bit_vector);
    assert((8 * j + 0) / 8 == j && (8 * j + 0) % 8 == 0);
    assert((8 * j + 1) / 8 == j && (8 * j + 1) % 8 == 1);
    assert((8 * j + 2) / 8 == j && (8 * j + 2) % 8 == 2);
    assert((8 * j + 3) / 8 == j && (8 * j + 3) % 8 == 3);
    assert((8 * j + 4) / 8 == j && (8 * j + 4) % 8 == 4);
    assert((8 * j + 5) / 8 == j && (8 * j + 5) % 8 == 5);
    assert((8 * j + 6) / 8 == j && (8 * j + 6) % 8 == 6);
    assert((8 * j + 7) / 8 == j && (8 * j + 7) % 8 == 7);
}

/// The first multiple of 8 at or after `pos`.
pub open spec fn align_up(pos: int) -> int {
    pos + (8 - pos % 8) % 8
}

/// `align_up(pos)` is the byte boundary at or after `pos`, less than a byte
/// away.
pub proof fn lemma_align_up(pos: int)
    ensures
        align_up(pos) % 8 == 0,
        pos <= align_up(pos) < pos + 8,
        pos % 8 == 0 ==> align_up(pos) == pos,
{
}

/// `n` bits read as a number stay below `2^n`.
pub proof fn lemma_bits_value_bound(data: Seq<u8>, pos: int, n: nat)
    ensures
        0 <= bits_value(data, pos, n) < pow2(n),
    decreases n,
{
    if n == 0 {
        lemma2_to64();
    } else {
        lemma_pow2_unfold(n);
        lemma_bits_value_bound(data, pos, (n - 1) as nat);
        lemma_bit_at_is_bit(data, pos + n - 1);
    }
}

/// The first of `n + 1` bits weighs `2^n`; the other `n` bits follow it.
pub proof fn lemma_bits_value_first(data: Seq<u8>, pos: int, n: nat)
    ensures
        bits_value(data, pos, n + 1) == pow2(n) * bit_at(data, pos) + bits_value(data, pos + 1, n),
    decreases n,
{
    lemma_bit_at_is_bit(data, pos);
    if n == 0 {
        lemma2_to64();
        assert(bits_value(data, pos, 0) == 0);
        assert(bits_value(data, pos, 1) == bit_at(data, pos));
        assert(pow2(0) * bit_at(data, pos) == bit_at(data, pos));
    } else {
        lemma_bits_value_first(data, pos, (n - 1) as nat);
        assert(bits_value(data, pos, n + 1) == 2 * bits_value(data, pos, n) + bit_at(data, pos + n));
        assert(bits_value(data, pos + 1, n) == 2 * bits_value(data, pos + 1, (n - 1) as nat) + bit_at(data, pos + n));
        lemma_pow2_unfold(n);
        let b: int = bit_at(data, pos) as int;
        let p: int = pow2((n - 1) as nat) as int;
        assert(2 * (p * b) == (2 * p) * b) by (nonlinear_arith);
    }
}

/// Bitstream reader over an owned byte buffer.
pub struct EvcdBsr {
    data: Vec<u8>,
    /// index of the byte that holds the next bit
    byte: usize,
    /// number of bits already consumed from `data[byte]`
    bit: u8,
}

impl EvcdBsr {
    #[verifier::type_invariant]
    spec fn inv(self) -> bool {
        &&& self.byte <= self.data.len()
        &&& self.bit < 8
        &&& self.byte == self.data.len() ==> self.bit == 0
    }

    /// The buffer being read.
    pub closed spec fn bytes(self) -> Seq<u8> {
        self.data@
    }

    /// The absolute bit position of the next bit to read.
    pub closed spec fn pos(self) -> int {
        let p = 8 * self.byte + self.bit;
        if p <= 8 * self.data@.len() {
            p
        } else {
            8 * self.data@.len() as int
        }
    }

    /// The read position never lies past the end of the buffer.
    pub proof fn lemma_pos_bounds(bs: EvcdBsr)
        ensures
            0 <= bs.pos() <= 8 * bs.bytes().len(),
    {
    }

    /// A reader positioned at the first bit of `data`.
    pub fn new(data: Vec<u8>) -> (bs: EvcdBsr)
        ensures
            bs.bytes() == data@,
            bs.pos() == 0,
    {
        EvcdBsr { data, byte: 0, bit: 0 }
    }

    /// Reads one bit; past the end of the buffer it reads 0 and stays there.
    pub fn read1(&mut self) -> (b: u32)
        ensures
            b == bit_at(old(self).bytes(), old(self).pos()),
            b <= 1,
            final(self).bytes() == old(self).bytes(),
            final(self).pos() == next_pos(old(self).bytes(), old(self).pos()),
    {
        proof {
            use_type_invariant(&*self);
        }
        if self.byte < self.data.len() {
            let w: u8 = self.data[self.byte] >> (7 - self.bit);
            let v: u8 = w & 1;
            assert(w & 1u8 <= 1) by (bit_vector);
            let ghost i: int = 8 * self.byte + self.bit;
            assert(i / 8 == self.byte && i % 8 == self.bit);
            if self.bit == 7 {
                self.bit = 0;
                self.byte = self.byte + 1;
            } else {
                self.bit = self.bit + 1;
            }
            v as u32
        } else {
            0
        }
    }

    /// Whether the next bit to read starts a byte.
    #[allow(non_snake_case)]
    pub fn EVC_BSR_IS_BYTE_ALIGN(&self) -> (r: bool)
        ensures
            r == (self.pos() % 8 == 0),
    {
        proof {
            use_type_invariant(self);
        }
        self.bit == 0
    }
}

impl Default for EvcdBsr {
    /// A reader over an empty buffer.
    fn default() -> (bs: Self)
        ensures
            bs.bytes().len() == 0,
            bs.pos() == 0,
    {
        EvcdBsr::new(Vec::new())
    }
}

} // verus!
