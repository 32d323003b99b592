//! A most-significant-bit-first cursor over an in-memory byte buffer.

use vstd::arithmetic::div_mod::lemma_div_denominator;
use vstd::arithmetic::power2::{lemma2_to64, lemma_pow2_pos, lemma_pow2_unfold, pow2};
use crate::vlc::{pow2_u32, StreamError};
use vstd::prelude::*;

verus! {

/// Bit `p` of `data`, counting from the most significant bit of the first byte.
pub open spec fn bit_at(data: Seq<u8>, p: int) -> nat {
    ((data[p / 8] as nat) / pow2((7 - p % 8) as nat)) % 2
}

/// The `n` bits of `data` that start at bit `pos`, read as an unsigned number
/// whose most significant bit comes first.
pub open spec fn bits_value(data: Seq<u8>, pos: int, n: nat) -> nat
    decreases n,
{
    if n == 0 {
        0
    } else {
        2 * bits_value(data, pos, (n - 1) as nat) + bit_at(data, pos + n - 1)
    }
}

/// A read position inside a byte buffer, counted in bits.
pub struct BitCursor {
    pub(crate) data: Vec<u8>,
    pub(crate) pos: usize,
}

impl BitCursor {
    /// The bytes the cursor reads from.
    pub open(crate) spec fn data(&self) -> Seq<u8> {
        self.data@
    }

    /// The number of bits already consumed.
    pub open(crate) spec fn pos(&self) -> nat {
        self.pos as nat
    }

    /// The total number of bits in the buffer.
    pub open spec fn total_bits(&self) -> nat {
        self.data().len() * 8
    }

    pub open spec fn wf(&self) -> bool {
        &&& self.pos() <= self.total_bits()
        &&& self.total_bits() <= usize::MAX
    }

    /// The `n` bits that follow the read position start with the code `code`.
    pub open spec fn starts_with(&self, code: nat, n: nat) -> bool {
        &&& self.pos() + n <= self.total_bits()
        &&& bits_value(self.data(), self.pos() as int, n) == code
    }

    /// A cursor at the start of `data`.
    pub fn new(data: Vec<u8>) -> (r: BitCursor)
        requires
            data@.len() * 8 <= usize::MAX,
        ensures
            r.wf(),
            r.data() == data@,
            r.pos() == 0,
    {
        BitCursor { data, pos: 0 }
    }

    /// A cursor `pos` bits into `data`.
    pub fn new_at(data: Vec<u8>, pos: usize) -> (r: BitCursor)
        requires
            data@.len() * 8 <= usize::MAX,
            pos <= data@.len() * 8,
        ensures
            r.wf(),
            r.data() == data@,
            r.pos() == pos,
    {
        BitCursor { data, pos }
    }

    /// Reads the next `n` bits as an unsigned number, most significant bit
    /// first, or fails without moving when fewer than `n` bits remain.
    pub fn read_bits(&mut self, n: u32) -> (r: Result<u32, StreamError>)
        requires
            old(self).wf(),
            n <= 32,
        ensures
            final(self).wf(),
            final(self).data() == old(self).data(),
            old(self).pos() + n <= old(self).total_bits() ==> {
                &&& r == Ok::<u32, StreamError>(
                    bits_value(old(self).data(), old(self).pos() as int, n as nat) as u32,
                )
                &&& bits_value(old(self).data(), old(self).pos() as int, n as nat) < pow2(n as nat)
                &&& final(self).pos() == old(self).pos() + n
            },
            old(self).pos() + n > old(self).total_bits() ==> r == Err::<u32, StreamError>(
                StreamError::EndOfStream,
            ) && final(self).pos() == old(self).pos(),
    {
        if n as usize > self.data.len() * 8 - self.pos {
            return Err(StreamError::EndOfStream);
        }
        let start = self.pos;
        let mut v: u32 = 0;
        let mut k: u32 = 0;
        proof {
            lemma2_to64();
        }
        while k < n
            invariant
                self.data@ == old(self).data@,
                start == old(self).pos,
                self.pos == start + k,
                k <= n <= 32,
                start + n <= self.data@.len() * 8,
                self.data@.len() * 8 <= usize::MAX,
                v as nat == bits_value(self.data@, start as int, k as nat),
                (v as nat) < pow2(k as nat),
            decreases n - k,
        {
            let p = self.pos;
            let byte = self.data[p / 8];
            let d = pow2_u32((7 - p % 8) as u8);
            let b = ((byte as u32) / d) % 2;
            proof {
                assert(b as nat == bit_at(self.data@, p as int));
                lemma_pow2_unfold((k + 1) as nat);
                lemma_pow2_pos(k as nat);
                if k + 1 < 32 {
                    vstd::arithmetic::power2::lemma_pow2_strictly_increases((k + 1) as nat, 32);
                }
                lemma2_to64();
            }
            v = v * 2 + b;
            k = k + 1;
            self.pos = p + 1;
        }
        Ok(v)
    }

    /// The number of bits already consumed.
    pub fn position(&self) -> (r: usize)
        ensures
            r == self.pos(),
    {
        self.pos
    }

    /// The number of bits that remain to be read.
    pub fn bits_left(&self) -> (r: usize)
        requires
            self.wf(),
        ensures
            r == self.total_bits() - self.pos(),
    {
        self.data.len() * 8 - self.pos
    }
}

} // verus!

verus! {

/// Dropping the last `k` of `m + k` bits leaves the value of the first `m`.
pub proof fn lemma_bits_prefix(data: Seq<u8>, pos: int, m: nat, k: nat)
    ensures
        bits_value(data, pos, m + k) / pow2(k) == bits_value(data, pos, m),
    decreases k,
{
    if k == 0 {
        lemma2_to64();
        assert(m + k == m);
    } else {
        let k1 = (k - 1) as nat;
        lemma_bits_prefix(data, pos, m, k1);
        let x = bits_value(data, pos, m + k1);
        let b = bit_at(data, pos + (m + k) - 1);
        assert(bits_value(data, pos, m + k) == 2 * x + b);
        lemma_pow2_unfold(k);
        lemma_pow2_pos(k1);
        lemma_div_denominator((2 * x + b) as int, 2, pow2(k1) as int);
        assert((2 * x + b) / 2 == x);
    }
}

/// The bits of a buffer read the same after more bytes are appended to it.
pub proof fn lemma_bits_extend(short: Seq<u8>, long: Seq<u8>, pos: int, n: nat)
    requires
        0 <= pos,
        pos + n <= short.len() * 8,
        short.len() <= long.len(),
        long.subrange(0, short.len() as int) == short,
    ensures
        bits_value(short, pos, n) == bits_value(long, pos, n),
    decreases n,
{
    if n > 0 {
        lemma_bits_extend(short, long, pos, (n - 1) as nat);
        let p = pos + n - 1;
        assert(p / 8 < short.len());
        assert(long[p / 8] == long.subrange(0, short.len() as int)[p / 8]);
    }
}

} // verus!
