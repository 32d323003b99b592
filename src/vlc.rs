//! Decode tables built from (code, length) pairs.

use crate::bits::{bits_value, lemma_bits_extend, lemma_bits_prefix, BitCursor};
use symphonia_core::io::vlc::{BitOrder, Codebook, CodebookBuilder, Entry16x16};
use symphonia_core::io::{BitReaderLtr, ReadBitsLtr};
use vstd::arithmetic::power2::{
    lemma2_to64, lemma_pow2_pos, lemma_pow2_strictly_increases, lemma_pow2_unfold, pow2,
};
use vstd::prelude::*;

verus! {

/// The longest code any table may hold, in bits.
pub const MAX_CODE_LEN: u8 = 19;

/// A lookup table built by symphonia's `CodebookBuilder`, which reads codes
/// in eight-bit steps. Its contents are opaque; `book_entries` names what it
/// decodes.
#[verifier::external_body]
pub struct VlcBook {
    book: Codebook<Entry16x16>,
}

/// What a built lookup table decodes: each (code, length) key maps to the
/// value stored for that code.
pub uninterp spec fn book_entries(b: VlcBook) -> Map<(nat, nat), u16>;

/// Whether symphonia's builder accepts the (code, length) pairs: it refuses
/// an incomplete code and a table whose jumps overflow its entries.
pub uninterp spec fn builder_accepts(codes: Seq<u32>, lens: Seq<u8>) -> bool;

/// Code `i` is not a prefix of code `j`, nor equal to it, where `j` is at
/// least as long.
pub open spec fn not_prefix(codes: Seq<u32>, lens: Seq<u8>, i: int, j: int) -> bool {
    lens[i] <= lens[j] ==> codes[j] as nat / pow2((lens[j] - lens[i]) as nat) != codes[i] as nat
}

/// No code of the table is a prefix of another code of equal or greater length.
pub open spec fn prefix_free(codes: Seq<u32>, lens: Seq<u8>) -> bool {
    forall|i: int, j: int|
        0 <= i < codes.len() && 0 <= j < codes.len() && i != j ==> #[trigger] not_prefix(
            codes,
            lens,
            i,
            j,
        )
}

/// Every length is between 1 and the maximum, and every code fits in its length.
pub open spec fn codes_fit(codes: Seq<u32>, lens: Seq<u8>) -> bool {
    forall|i: int|
        0 <= i < codes.len() ==> 1 <= #[trigger] lens[i] <= MAX_CODE_LEN
            && (codes[i] as nat) < pow2(lens[i] as nat)
}

/// A table from which a decode table can be built.
pub open spec fn valid_code_table(codes: Seq<u32>, lens: Seq<u8>) -> bool {
    &&& codes.len() == lens.len()
    &&& 0 < codes.len() <= 65536
    &&& codes_fit(codes, lens)
    &&& prefix_free(codes, lens)
}

/// Relies on `CodebookBuilder::make` (codewords read verbatim, eight bits per
/// lookup): whether it succeeds depends on the codes and lengths alone, and
/// when it does, the table decodes exactly the given codes, each to the value
/// given for it.
#[verifier::external_body]
fn make_book(codes: &[u32], lens: &[u8], values: &[u16]) -> (r: Option<VlcBook>)
    requires
        valid_code_table(codes@, lens@),
        values@.len() == codes@.len(),
    ensures
        r is Some <==> builder_accepts(codes@, lens@),
        r matches Some(b) ==> {
            &&& forall|k: (nat, nat)| #[trigger]
                book_entries(b).contains_key(k) <==> exists|i: int|
                    0 <= i < codes@.len() && k == (codes@[i] as nat, lens@[i] as nat)
            &&& forall|i: int|
                0 <= i < codes@.len() ==> #[trigger] book_entries(b)[(
                    codes@[i] as nat,
                    lens@[i] as nat,
                )] == values@[i]
        },
{
    let mut builder = CodebookBuilder::new(BitOrder::Verbatim);
    builder.bits_per_read(8);
    builder.make::<Entry16x16>(codes, lens, values).ok().map(|book| VlcBook { book })
}

/// Relies on `BitReaderLtr` and `ReadBitsLtr::read_codebook`: a reader placed
/// `skip` bits into `data[byte..]` reads one code of the table. On success it
/// returns the value stored for the code and the code's length, and that many
/// bits were in the buffer. When a code of the table lies wholly in the
/// buffer at that place, it succeeds.
#[verifier::external_body]
fn read_book(book: &VlcBook, data: &[u8], byte: usize, skip: u32) -> (r: Option<(u16, u32)>)
    requires
        byte <= data@.len(),
        skip < 8,
        byte == data@.len() ==> skip == 0,
        exists|k: (nat, nat)| book_entries(*book).contains_key(k),
    ensures
        (exists|k: (nat, nat)|
            #[trigger] book_entries(*book).contains_key(k) && byte * 8 + skip + k.1 <= data@.len()
                * 8 && bits_value(data@, byte * 8 + skip, k.1) == k.0) ==> r is Some,
        r matches Some((v, n)) ==> {
            let pos = byte * 8 + skip;
            &&& pos + n <= data@.len() * 8
            &&& book_entries(*book).contains_key((bits_value(data@, pos, n as nat), n as nat))
            &&& book_entries(*book)[(bits_value(data@, pos, n as nat), n as nat)] == v
        },
{
    let mut reader = BitReaderLtr::new(&data[byte..]);
    reader.ignore_bits(skip).ok()?;
    reader.read_codebook(&book.book).ok()
}

/// Why a code table was refused.
#[derive(Debug, Clone, Copy, PartialEq, Eq, Structural)]
pub enum ConfigError {
    /// The table is empty or too large, a length is out of range, a code does
    /// not fit in its length, or one code is a prefix of another.
    Malformed,
    /// The table's number of symbols is not the codebook's alphabet size.
    SizeMismatch,
    /// symphonia's builder refused the table (an incomplete code, or a table
    /// too large for its entries).
    Rejected,
}

/// The error a codebook with `size` symbols reports for a table, if the
/// table itself is at fault.
pub open spec fn table_check(codes: Seq<u32>, lens: Seq<u8>, size: nat) -> Result<(), ConfigError> {
    if codes.len() != size {
        Err(ConfigError::SizeMismatch)
    } else if !valid_code_table(codes, lens) {
        Err(ConfigError::Malformed)
    } else {
        Ok(())
    }
}

/// Why a code could not be read.
#[derive(Debug, Clone, Copy, PartialEq, Eq, Structural)]
pub enum StreamError {
    /// The buffer ended before a code was resolved.
    EndOfStream,
}

/// `2^e`, for the exponents that code lengths need.
pub(crate) fn pow2_u32(e: u8) -> (r: u32)
    requires
        e <= MAX_CODE_LEN,
    ensures
        r as nat == pow2(e as nat),
        r > 0,
{
    let mut p: u32 = 1;
    let mut i: u8 = 0;
    proof {
        lemma2_to64();
    }
    while i < e
        invariant
            i <= e <= MAX_CODE_LEN,
            p as nat == pow2(i as nat),
        decreases e - i,
    {
        proof {
            lemma_pow2_unfold((i + 1) as nat);
            if i + 1 < 19 {
                lemma_pow2_strictly_increases((i + 1) as nat, 19);
            }
            lemma2_to64();
        }
        p = p * 2;
        i = i + 1;
    }
    proof {
        lemma_pow2_pos(e as nat);
    }
    p
}

/// Whether every length is in range and every code fits in its length.
fn check_codes_fit(codes: &[u32], lens: &[u8]) -> (r: bool)
    requires
        codes@.len() == lens@.len(),
    ensures
        r == codes_fit(codes@, lens@),
{
    let n = codes.len();
    let mut i: usize = 0;
    while i < n
        invariant
            n == codes@.len() == lens@.len(),
            i <= n,
            codes_fit(codes@.subrange(0, i as int), lens@.subrange(0, i as int)),
        decreases n - i,
    {
        let l = lens[i];
        if l < 1 || l > MAX_CODE_LEN {
            assert(!(1 <= lens@[i as int] <= MAX_CODE_LEN));
            return false;
        }
        if codes[i] >= pow2_u32(l) {
            assert(!((codes@[i as int] as nat) < pow2(lens@[i as int] as nat)));
            return false;
        }
        assert forall|k: int| 0 <= k < i + 1 implies 1 <= #[trigger] lens@.subrange(0, i + 1)[k]
            <= MAX_CODE_LEN && (codes@.subrange(0, i + 1)[k] as nat) < pow2(
            lens@.subrange(0, i + 1)[k] as nat,
        ) by {
            if k < i {
                assert(lens@.subrange(0, i as int)[k] == lens@[k]);
                assert(codes@.subrange(0, i as int)[k] == codes@[k]);
            }
        }
        i = i + 1;
    }
    assert(codes@.subrange(0, n as int) =~= codes@);
    assert(lens@.subrange(0, n as int) =~= lens@);
    true
}

/// Whether no code is a prefix of another.
pub fn is_prefix_free(codes: &[u32], lens: &[u8]) -> (r: bool)
    requires
        codes@.len() == lens@.len(),
        codes_fit(codes@, lens@),
    ensures
        r == prefix_free(codes@, lens@),
{
    let n = codes.len();
    let mut i: usize = 0;
    while i < n
        invariant
            n == codes@.len() == lens@.len(),
            codes_fit(codes@, lens@),
            i <= n,
            forall|a: int, b: int|
                0 <= a < i && 0 <= b < n && a != b ==> #[trigger] not_prefix(codes@, lens@, a, b),
        decreases n - i,
    {
        let mut j: usize = 0;
        while j < n
            invariant
                n == codes@.len() == lens@.len(),
                codes_fit(codes@, lens@),
                i < n,
                j <= n,
                forall|a: int, b: int|
                    0 <= a < i && 0 <= b < n && a != b ==> #[trigger] not_prefix(
                        codes@,
                        lens@,
                        a,
                        b,
                    ),
                forall|b: int|
                    0 <= b < j && i != b ==> #[trigger] not_prefix(codes@, lens@, i as int, b),
            decreases n - j,
        {
            if i != j && lens[i] <= lens[j] {
                let d = pow2_u32(lens[j] - lens[i]);
                if codes[j] / d == codes[i] {
                    assert(!not_prefix(codes@, lens@, i as int, j as int));
                    return false;
                }
            }
            j = j + 1;
        }
        i = i + 1;
    }
    true
}

/// Two codes of a prefix-free table that both start at the same place are
/// the same code.
pub proof fn lemma_unique_code(
    codes: Seq<u32>,
    lens: Seq<u8>,
    data: Seq<u8>,
    pos: int,
    i: int,
    j: int,
)
    requires
        codes.len() == lens.len(),
        prefix_free(codes, lens),
        0 <= i < codes.len(),
        0 <= j < codes.len(),
        bits_value(data, pos, lens[i] as nat) == codes[i] as nat,
        bits_value(data, pos, lens[j] as nat) == codes[j] as nat,
    ensures
        i == j,
{
    if i != j {
        if lens[i] <= lens[j] {
            lemma_bits_prefix(data, pos, lens[i] as nat, (lens[j] - lens[i]) as nat);
            assert(!not_prefix(codes, lens, i, j));
        } else {
            lemma_bits_prefix(data, pos, lens[j] as nat, (lens[i] - lens[j]) as nat);
            assert(!not_prefix(codes, lens, j, i));
        }
    }
}

/// Whether the table's codes and lengths can be built into a decode table.
pub fn check_code_table(codes: &[u32], lens: &[u8]) -> (r: bool)
    ensures
        r == valid_code_table(codes@, lens@),
{
    if codes.len() != lens.len() || codes.len() == 0 || codes.len() > 65536 {
        return false;
    }
    if !check_codes_fit(codes, lens) {
        return false;
    }
    is_prefix_free(codes, lens)
}

/// A built decode table, with the codes and lengths it was built from.
pub struct DecodeTable {
    book: VlcBook,
    len: usize,
    codes: Ghost<Seq<u32>>,
    lens: Ghost<Seq<u8>>,
}

impl DecodeTable {
    /// The code of each symbol.
    pub closed spec fn codes(&self) -> Seq<u32> {
        self.codes@
    }

    /// The length in bits of each symbol's code.
    pub closed spec fn lens(&self) -> Seq<u8> {
        self.lens@
    }

    /// The lookup table decodes each code to its symbol index.
    pub closed spec fn book_decodes_codes(&self) -> bool {
        &&& self.len == self.codes@.len()
        &&& forall|k: (nat, nat)| #[trigger]
            book_entries(self.book).contains_key(k) <==> exists|i: int|
                0 <= i < self.codes@.len() && k == (self.codes@[i] as nat, self.lens@[i] as nat)
        &&& forall|i: int|
            0 <= i < self.codes@.len() ==> #[trigger] book_entries(self.book)[(
                self.codes@[i] as nat,
                self.lens@[i] as nat,
            )] == i as u16
    }

    pub open spec fn wf(&self) -> bool {
        &&& valid_code_table(self.codes(), self.lens())
        &&& self.book_decodes_codes()
    }

    /// Code `i` of the table starts at the cursor's position.
    pub open spec fn code_at(&self, cur: BitCursor, i: int) -> bool {
        cur.starts_with(self.codes()[i] as nat, self.lens()[i] as nat)
    }

    /// Reading from `before` yields symbol `i` and leaves the cursor at
    /// `after`, just past the symbol's code.
    pub open spec fn reads_symbol(&self, before: BitCursor, after: BitCursor, i: int) -> bool {
        &&& 0 <= i < self.codes().len()
        &&& self.code_at(before, i)
        &&& after.data() == before.data()
        &&& after.pos() == before.pos() + self.lens()[i]
    }

    /// Some code of the table starts at the cursor's position.
    pub open spec fn some_code_at(&self, cur: BitCursor) -> bool {
        exists|i: int| 0 <= i < self.codes().len() && #[trigger] self.code_at(cur, i)
    }

    /// Fewer bits remain after the cursor than any code of the table is long.
    pub open spec fn no_code_fits(&self, cur: BitCursor) -> bool {
        forall|i: int|
            0 <= i < self.codes().len() ==> cur.pos() + #[trigger] self.lens()[i] > cur.total_bits()
    }

    /// The number of symbols in the table.
    pub fn num_symbols(&self) -> (r: usize)
        requires
            self.wf(),
        ensures
            r == self.codes().len(),
    {
        self.len
    }

    /// Builds the decode table of a code table whose symbol `i` has the code
    /// `codes[i]`, `lens[i]` bits long.
    pub fn build(codes: &[u32], lens: &[u8]) -> (r: Result<DecodeTable, ConfigError>)
        requires
            codes@.len() == lens@.len(),
        ensures
            r == Err::<DecodeTable, ConfigError>(ConfigError::Malformed) <==> !valid_code_table(
                codes@,
                lens@,
            ),
            valid_code_table(codes@, lens@) ==> (r is Ok <==> builder_accepts(codes@, lens@)),
            valid_code_table(codes@, lens@) && !builder_accepts(codes@, lens@) ==> r == Err::<
                DecodeTable,
                ConfigError,
            >(ConfigError::Rejected),
            r matches Ok(t) ==> t.wf() && t.codes() == codes@ && t.lens() == lens@,
    {
        if !check_code_table(codes, lens) {
            return Err(ConfigError::Malformed);
        }
        let n = codes.len();
        let mut values: Vec<u16> = Vec::new();
        let mut i: usize = 0;
        while i < n
            invariant
                n == codes@.len() <= 65536,
                i <= n,
                values@.len() == i,
                forall|k: int| 0 <= k < i ==> #[trigger] values@[k] == k as u16,
            decreases n - i,
        {
            values.push(i as u16);
            i = i + 1;
        }
        match make_book(codes, lens, values.as_slice()) {
            None => Err(ConfigError::Rejected),
            Some(book) => {
                let t = DecodeTable { book, len: n, codes: Ghost(codes@), lens: Ghost(lens@) };
                assert forall|k: int| 0 <= k < n implies #[trigger] book_entries(t.book)[(
                    codes@[k] as nat,
                    lens@[k] as nat,
                )] == k as u16 by {
                    assert(values@[k] == k as u16);
                }
                Ok(t)
            },
        }
    }

    /// Reads one code from the cursor and returns the index of its symbol.
    ///
    /// On success the code of the returned symbol is the one that starts at
    /// the cursor (no other code of the table does), and the cursor has moved
    /// past it. On failure the cursor has not moved.
    pub fn decode(&self, cur: &mut BitCursor) -> (r: Result<usize, StreamError>)
        requires
            self.wf(),
            old(cur).wf(),
        ensures
            final(cur).wf(),
            final(cur).data() == old(cur).data(),
            match r {
                Ok(i) => {
                    &&& self.reads_symbol(*old(cur), *final(cur), i as int)
                    &&& forall|j: int|
                        0 <= j < self.codes().len() && self.code_at(*old(cur), j) ==> j == i
                    &&& 1 <= final(cur).pos() - old(cur).pos() <= MAX_CODE_LEN
                },
                Err(_) => final(cur).pos() == old(cur).pos(),
            },
            self.some_code_at(*old(cur)) ==> r is Ok,
            self.no_code_fits(*old(cur)) ==> r is Err,
            old(cur).pos() == old(cur).total_bits() ==> r is Err,
    {
        let byte = cur.pos / 8;
        let skip = (cur.pos % 8) as u32;
        assert(book_entries(self.book).contains_key(
            (self.codes@[0] as nat, self.lens@[0] as nat),
        ));
        proof {
            if self.some_code_at(*cur) {
                let i = choose|i: int| 0 <= i < self.codes().len() && #[trigger] self.code_at(*cur, i);
                assert(book_entries(self.book).contains_key(
                    (self.codes@[i] as nat, self.lens@[i] as nat),
                ));
            }
        }
        match read_book(&self.book, cur.data.as_slice(), byte, skip) {
            None => Err(StreamError::EndOfStream),
            Some((v, n)) => {
                let ghost pos = cur.pos as int;
                let ghost key = (bits_value(cur.data@, pos, n as nat), n as nat);
                assert(byte * 8 + skip == pos);
                let ghost i = choose|i: int|
                    0 <= i < self.codes@.len() && key == (
                        self.codes@[i] as nat,
                        self.lens@[i] as nat,
                    );
                assert(book_entries(self.book)[(self.codes@[i] as nat, self.lens@[i] as nat)]
                    == i as u16);
                assert(v as int == i);
                assert forall|j: int|
                    0 <= j < self.codes().len() && self.code_at(*cur, j) implies j == i by {
                    lemma_unique_code(self.codes@, self.lens@, cur.data@, pos, i, j);
                }
                cur.pos = cur.pos + n as usize;
                Ok(v as usize)
            },
        }
    }
}

/// Decoding a table's own code gives back its symbol: when code `i` starts at
/// the cursor, the only symbol that a read can yield there is `i`, and the
/// read moves the cursor by exactly the length of code `i`.
pub proof fn lemma_round_trip(t: DecodeTable, before: BitCursor, after: BitCursor, i: int, j: int)
    requires
        t.wf(),
        0 <= i < t.codes().len(),
        t.code_at(before, i),
        t.reads_symbol(before, after, j),
    ensures
        j == i,
        after.pos() == before.pos() + t.lens()[i],
{
    lemma_unique_code(t.codes(), t.lens(), before.data(), before.pos() as int, i, j);
}

/// A read consumes the length of the code it matched: at least one bit and
/// at most the longest code length.
pub proof fn lemma_bounded_consumption(t: DecodeTable, before: BitCursor, after: BitCursor, j: int)
    requires
        t.wf(),
        t.reads_symbol(before, after, j),
    ensures
        after.pos() - before.pos() == t.lens()[j],
        1 <= after.pos() - before.pos() <= MAX_CODE_LEN,
{
}

/// With fewer bits left than the shortest code is long, in particular with
/// none at all, no symbol can be read.
pub proof fn lemma_truncated(t: DecodeTable, before: BitCursor, after: BitCursor, j: int)
    requires
        t.wf(),
        t.no_code_fits(before) || before.pos() == before.total_bits(),
    ensures
        !t.reads_symbol(before, after, j),
{
}

/// Bits after a code do not change what is read: over a buffer that holds
/// more bytes after the same ones, at the same position, code `i` still
/// starts at the cursor, so a read still yields symbol `i` and consumes the
/// same bits.
pub proof fn lemma_trailing_bits(t: DecodeTable, short: BitCursor, long: BitCursor, i: int)
    requires
        t.wf(),
        0 <= i < t.codes().len(),
        t.code_at(short, i),
        long.pos() == short.pos(),
        short.data().len() <= long.data().len(),
        long.data().subrange(0, short.data().len() as int) == short.data(),
    ensures
        t.code_at(long, i),
        forall|j: int| 0 <= j < t.codes().len() && t.code_at(long, j) ==> j == i,
{
    lemma_bits_extend(short.data(), long.data(), short.pos() as int, t.lens()[i] as nat);
    assert forall|j: int| 0 <= j < t.codes().len() && t.code_at(long, j) implies j == i by {
        lemma_unique_code(t.codes(), t.lens(), long.data(), long.pos() as int, i, j);
    }
}

} // verus!
