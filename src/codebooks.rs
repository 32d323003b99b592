//! The spectral and scale-factor codebooks: a decode table together with the
//! value each of its symbols stands for.

use crate::bits::BitCursor;
use crate::tables::{
    scalefactor_codes, scalefactor_lens, scalefactor_table, spectrum_codes, spectrum_lens,
    spectrum_table, CodeTable, NUM_SPECTRUM_TABLES,
};
use crate::vlc::{
    builder_accepts, table_check, valid_code_table, ConfigError, DecodeTable, StreamError,
};
use vstd::prelude::*;

verus! {

/// The number of entries of the quad table: every 4-tuple over {0, 1, 2}.
pub const NUM_QUADS: usize = 81;

/// Entry `i` of the quad table: the four base-3 digits of `i`, most
/// significant first.
pub open spec fn quad_spec(i: int) -> (u8, u8, u8, u8) {
    ((i / 27) as u8, ((i / 9) % 3) as u8, ((i / 3) % 3) as u8, (i % 3) as u8)
}

/// The two components of a pair symbol: `(cw / m, cw % m)`.
pub open spec fn split_spec(m: int, cw: int) -> (int, int) {
    (cw / m, cw % m)
}

/// A component folded around the table's midpoint `m / 2`.
pub open spec fn fold_spec(m: int, c: int) -> int {
    c - m / 2
}

/// The quad table, in order of symbol index.
pub fn aac_quads() -> (r: Vec<(u8, u8, u8, u8)>)
    ensures
        r@.len() == NUM_QUADS,
        forall|i: int| 0 <= i < NUM_QUADS ==> #[trigger] r@[i] == quad_spec(i),
{
    let mut r: Vec<(u8, u8, u8, u8)> = Vec::new();
    let mut i: usize = 0;
    while i < NUM_QUADS
        invariant
            i <= NUM_QUADS,
            r@.len() == i,
            forall|k: int| 0 <= k < i ==> #[trigger] r@[k] == quad_spec(k),
        decreases NUM_QUADS - i,
    {
        let q = ((i / 27) as u8, ((i / 9) % 3) as u8, ((i / 3) % 3) as u8, (i % 3) as u8);
        r.push(q);
        i = i + 1;
    }
    r
}

/// The unsigned pair of symbol `cw` of a pair table with `m` values per
/// component: the two quantized magnitudes, before inverse quantization.
pub fn unsigned_pair(m: usize, cw: usize) -> (r: (i16, i16))
    requires
        1 <= m <= 255,
        cw < m * m,
    ensures
        (r.0 as int, r.1 as int) == split_spec(m as int, cw as int),
        0 <= r.0 < m,
        0 <= r.1 < m,
{
    proof {
        lemma_split_bounds(m as int, cw as int);
    }
    ((cw / m) as i16, (cw % m) as i16)
}

/// The signed pair of symbol `cw` of a pair table with `m` values per
/// component: each component folded around the midpoint `m / 2`, so that
/// components below it are negative and those above it positive.
pub fn signed_pair(m: usize, cw: usize) -> (r: (i16, i16))
    requires
        1 <= m <= 255,
        cw < m * m,
    ensures
        r.0 as int == fold_spec(m as int, split_spec(m as int, cw as int).0),
        r.1 as int == fold_spec(m as int, split_spec(m as int, cw as int).1),
{
    proof {
        lemma_split_bounds(m as int, cw as int);
    }
    let half = (m / 2) as i16;
    let a = (cw / m) as i16;
    let b = (cw % m) as i16;
    (a - half, b - half)
}

/// The escape pair of symbol `cw` of the escape table with `m` categories
/// per component. A component equal to `m - 1` is an escape: the caller reads
/// the true magnitude from further bits.
pub fn escape_pair(m: usize, cw: usize) -> (r: (u16, u16))
    requires
        1 <= m <= 255,
        cw < m * m,
    ensures
        (r.0 as int, r.1 as int) == split_spec(m as int, cw as int),
        r.0 < m,
        r.1 < m,
{
    proof {
        lemma_split_bounds(m as int, cw as int);
    }
    ((cw / m) as u16, (cw % m) as u16)
}

/// Both components of a symbol below `m * m` are below `m`.
pub proof fn lemma_split_bounds(m: int, cw: int)
    requires
        1 <= m,
        0 <= cw < m * m,
    ensures
        0 <= cw / m < m,
        0 <= cw % m < m,
{
    assert(cw / m < m) by (nonlinear_arith)
        requires
            1 <= m,
            0 <= cw < m * m,
    ;
    assert(0 <= cw / m) by (nonlinear_arith)
        requires
            1 <= m,
            0 <= cw,
    ;
}

/// The number of values per component of the escape table.
pub const ESCAPE_MODULUS: usize = 17;

/// The number of symbols of the scale-factor table.
pub const NUM_SCALEFACTORS: usize = 121;

/// Builds the decode table of `table`, which must have `size` symbols.
pub fn make_raw_codebook(table: &CodeTable, size: usize) -> (r: Result<DecodeTable, ConfigError>)
    requires
        table.codes@.len() == table.lens@.len(),
    ensures
        table_check(table.codes@, table.lens@, size as nat) matches Err(e) ==> r == Err::<
            DecodeTable,
            ConfigError,
        >(e),
        table_check(table.codes@, table.lens@, size as nat) is Ok ==> (r is Ok <==> builder_accepts(
            table.codes@,
            table.lens@,
        )),
        r matches Err(e) ==> e != ConfigError::Rejected || !builder_accepts(
            table.codes@,
            table.lens@,
        ),
        r matches Ok(t) ==> t.wf() && t.codes() == table.codes@ && t.lens() == table.lens@,
{
    if table.codes.len() != size {
        return Err(ConfigError::SizeMismatch);
    }
    DecodeTable::build(table.codes, table.lens)
}

/// A decode table with the value that each of its symbols stands for.
pub struct ValueCodebook<T> {
    table: DecodeTable,
    values: Vec<T>,
}

impl<T: Copy> ValueCodebook<T> {
    pub closed spec fn table(&self) -> DecodeTable {
        self.table
    }

    /// The value of each symbol, by symbol index.
    pub closed spec fn values(&self) -> Seq<T> {
        self.values@
    }

    pub open spec fn wf(&self) -> bool {
        &&& self.table().wf()
        &&& self.values().len() == self.table().codes().len()
    }

    /// Reading from `before` yields the value `v` and leaves the cursor at
    /// `after`.
    pub open spec fn reads(&self, before: BitCursor, after: BitCursor, v: T) -> bool {
        exists|i: int| #[trigger]
            self.table().reads_symbol(before, after, i) && v == self.values()[i]
    }

    /// Pairs a decode table with one value per symbol.
    pub fn new(table: DecodeTable, values: Vec<T>) -> (r: Self)
        requires
            table.wf(),
            values@.len() == table.codes().len(),
        ensures
            r.wf(),
            r.table() == table,
            r.values() == values@,
    {
        ValueCodebook { table, values }
    }

    /// Reads one code and returns the value of its symbol.
    pub fn read(&self, bs: &mut BitCursor) -> (r: Result<T, StreamError>)
        requires
            self.wf(),
            old(bs).wf(),
        ensures
            final(bs).wf(),
            final(bs).data() == old(bs).data(),
            match r {
                Ok(v) => self.reads(*old(bs), *final(bs), v),
                Err(_) => final(bs).pos() == old(bs).pos(),
            },
            self.table().some_code_at(*old(bs)) ==> r is Ok,
            self.table().no_code_fits(*old(bs)) ==> r is Err,
    {
        match self.table.decode(bs) {
            Ok(i) => {
                assert(self.table().reads_symbol(*old(bs), *bs, i as int));
                Ok(self.values[i])
            },
            Err(e) => Err(e),
        }
    }
}

/// Codebook for spectral quads: each symbol stands for four unsigned
/// magnitudes in {0, 1, 2}. Signs, where the codebook has them, follow as
/// separate bits that the caller reads.
pub struct QuadsCodebook {
    book: ValueCodebook<(u8, u8, u8, u8)>,
}

impl QuadsCodebook {
    pub closed spec fn book(&self) -> ValueCodebook<(u8, u8, u8, u8)> {
        self.book
    }

    pub open spec fn wf(&self) -> bool {
        &&& self.book().wf()
        &&& self.book().values().len() == NUM_QUADS
        &&& forall|i: int| 0 <= i < NUM_QUADS ==> #[trigger] self.book().values()[i] == quad_spec(i)
    }

    /// Builds the codebook of a quad table.
    pub fn new(table: &CodeTable) -> (r: Result<QuadsCodebook, ConfigError>)
        requires
            table.codes@.len() == table.lens@.len(),
        ensures
            table_check(table.codes@, table.lens@, NUM_QUADS as nat) matches Err(e) ==> r == Err::<
                QuadsCodebook,
                ConfigError,
            >(e),
            table_check(table.codes@, table.lens@, NUM_QUADS as nat) is Ok ==> (r is Ok
                <==> builder_accepts(table.codes@, table.lens@)),
            r matches Err(e) ==> e != ConfigError::Rejected || !builder_accepts(
                table.codes@,
                table.lens@,
            ),
            r matches Ok(c) ==> c.wf() && c.book().table().codes() == table.codes@
                && c.book().table().lens() == table.lens@,
    {
        let t = make_raw_codebook(table, NUM_QUADS)?;
        Ok(QuadsCodebook { book: ValueCodebook::new(t, aac_quads()) })
    }

    /// Reads one code and returns the quad of its symbol.
    pub fn read_quant(&self, bs: &mut BitCursor) -> (r: Result<(u8, u8, u8, u8), StreamError>)
        requires
            self.wf(),
            old(bs).wf(),
        ensures
            final(bs).wf(),
            match r {
                Ok(q) => exists|i: int| #[trigger]
                    self.book().table().reads_symbol(*old(bs), *final(bs), i) && q == quad_spec(i),
                Err(_) => final(bs).pos() == old(bs).pos() && final(bs).data() == old(bs).data(),
            },
            self.book().table().some_code_at(*old(bs)) ==> r is Ok,
            self.book().table().no_code_fits(*old(bs)) ==> r is Err,
    {
        self.book.read(bs)
    }
}

/// The value of symbol `cw` of a pair table with `m` values per component:
/// its two components, folded around the midpoint when the table is signed.
pub open spec fn pair_spec(signed: bool, m: int, cw: int) -> (int, int) {
    let (a, b) = split_spec(m, cw);
    if signed {
        (fold_spec(m, a), fold_spec(m, b))
    } else {
        (a, b)
    }
}

/// The values of every symbol of a pair table, in order of symbol index.
fn pair_values(signed: bool, m: usize) -> (r: Vec<(i16, i16)>)
    requires
        1 <= m <= 255,
    ensures
        r@.len() == m * m,
        forall|i: int|
            0 <= i < m * m ==> (#[trigger] r@[i].0 as int, r@[i].1 as int) == pair_spec(
                signed,
                m as int,
                i,
            ),
{
    assert(m * m <= 255 * 255) by (nonlinear_arith)
        requires
            1 <= m <= 255,
    ;
    let n = m * m;
    let mut r: Vec<(i16, i16)> = Vec::new();
    let mut i: usize = 0;
    while i < n
        invariant
            1 <= m <= 255,
            n == m * m,
            i <= n,
            r@.len() == i,
            forall|k: int|
                0 <= k < i ==> (#[trigger] r@[k].0 as int, r@[k].1 as int) == pair_spec(
                    signed,
                    m as int,
                    k,
                ),
        decreases n - i,
    {
        let v = if signed {
            signed_pair(m, i)
        } else {
            unsigned_pair(m, i)
        };
        r.push(v);
        i = i + 1;
    }
    r
}

/// Codebook for spectral pairs: each symbol stands for two quantized
/// coefficients, signed or unsigned as the codebook is. Inverse quantization
/// maps each to `sign(c) * |c|^(4/3)`.
pub struct PairsCodebook {
    book: ValueCodebook<(i16, i16)>,
    signed: bool,
    modulus: usize,
}

impl PairsCodebook {
    pub closed spec fn book(&self) -> ValueCodebook<(i16, i16)> {
        self.book
    }

    /// Whether the components are folded around the midpoint.
    pub closed spec fn is_signed(&self) -> bool {
        self.signed
    }

    /// The number of values per component.
    pub closed spec fn modulus(&self) -> int {
        self.modulus as int
    }

    pub open spec fn wf(&self) -> bool {
        &&& self.book().wf()
        &&& 1 <= self.modulus() <= 255
        &&& self.book().values().len() == self.modulus() * self.modulus()
        &&& forall|i: int|
            0 <= i < self.book().values().len() ==> (
            #[trigger] self.book().values()[i].0 as int,
            self.book().values()[i].1 as int,
        ) == pair_spec(self.is_signed(), self.modulus(), i)
    }

    /// Builds the codebook of a pair table with `m` values per component.
    pub fn new(table: &CodeTable, signed: bool, m: usize) -> (r: Result<PairsCodebook, ConfigError>)
        requires
            1 <= m <= 255,
            table.codes@.len() == table.lens@.len(),
        ensures
            table_check(table.codes@, table.lens@, (m * m) as nat) matches Err(e) ==> r == Err::<
                PairsCodebook,
                ConfigError,
            >(e),
            table_check(table.codes@, table.lens@, (m * m) as nat) is Ok ==> (r is Ok
                <==> builder_accepts(table.codes@, table.lens@)),
            r matches Err(e) ==> e != ConfigError::Rejected || !builder_accepts(
                table.codes@,
                table.lens@,
            ),
            r matches Ok(c) ==> {
                &&& c.wf()
                &&& c.is_signed() == signed
                &&& c.modulus() == m
                &&& c.book().table().codes() == table.codes@
                &&& c.book().table().lens() == table.lens@
            },
    {
        assert(m * m <= 255 * 255) by (nonlinear_arith)
            requires
                1 <= m <= 255,
        ;
        let t = make_raw_codebook(table, m * m)?;
        let book = ValueCodebook::new(t, pair_values(signed, m));
        Ok(PairsCodebook { book, signed, modulus: m })
    }

    /// Reads one code and returns the quantized pair of its symbol.
    pub fn read_quant(&self, bs: &mut BitCursor) -> (r: Result<(i16, i16), StreamError>)
        requires
            self.wf(),
            old(bs).wf(),
        ensures
            final(bs).wf(),
            match r {
                Ok(p) => exists|i: int| #[trigger]
                    self.book().table().reads_symbol(*old(bs), *final(bs), i) && (
                    p.0 as int,
                    p.1 as int,
                ) == pair_spec(self.is_signed(), self.modulus(), i),
                Err(_) => final(bs).pos() == old(bs).pos() && final(bs).data() == old(bs).data(),
            },
            self.book().table().some_code_at(*old(bs)) ==> r is Ok,
            self.book().table().no_code_fits(*old(bs)) ==> r is Err,
    {
        self.book.read(bs)
    }
}

/// The values of every symbol of the escape table, in order of symbol index.
fn escape_values() -> (r: Vec<(u16, u16)>)
    ensures
        r@.len() == ESCAPE_MODULUS * ESCAPE_MODULUS,
        forall|i: int|
            0 <= i < ESCAPE_MODULUS * ESCAPE_MODULUS ==> (
            #[trigger] r@[i].0 as int,
            r@[i].1 as int,
        ) == split_spec(ESCAPE_MODULUS as int, i),
{
    let n = ESCAPE_MODULUS * ESCAPE_MODULUS;
    let mut r: Vec<(u16, u16)> = Vec::new();
    let mut i: usize = 0;
    while i < n
        invariant
            n == ESCAPE_MODULUS * ESCAPE_MODULUS,
            i <= n,
            r@.len() == i,
            forall|k: int|
                0 <= k < i ==> (#[trigger] r@[k].0 as int, r@[k].1 as int) == split_spec(
                    ESCAPE_MODULUS as int,
                    k,
                ),
        decreases n - i,
    {
        r.push(escape_pair(ESCAPE_MODULUS, i));
        i = i + 1;
    }
    r
}

/// Codebook for spectral pairs with an escape: each symbol stands for two
/// categories in `0..17`, where 16 tells the caller to read the magnitude
/// from further bits. No inverse quantization applies.
pub struct EscapeCodebook {
    book: ValueCodebook<(u16, u16)>,
}

impl EscapeCodebook {
    pub closed spec fn book(&self) -> ValueCodebook<(u16, u16)> {
        self.book
    }

    pub open spec fn wf(&self) -> bool {
        &&& self.book().wf()
        &&& self.book().values().len() == ESCAPE_MODULUS * ESCAPE_MODULUS
        &&& forall|i: int|
            0 <= i < ESCAPE_MODULUS * ESCAPE_MODULUS ==> (
            #[trigger] self.book().values()[i].0 as int,
            self.book().values()[i].1 as int,
        ) == split_spec(ESCAPE_MODULUS as int, i)
    }

    /// Builds the codebook of the escape table.
    pub fn new(table: &CodeTable) -> (r: Result<EscapeCodebook, ConfigError>)
        requires
            table.codes@.len() == table.lens@.len(),
        ensures
            table_check(
                table.codes@,
                table.lens@,
                (ESCAPE_MODULUS * ESCAPE_MODULUS) as nat,
            ) matches Err(e) ==> r == Err::<EscapeCodebook, ConfigError>(e),
            table_check(table.codes@, table.lens@, (ESCAPE_MODULUS * ESCAPE_MODULUS) as nat) is Ok ==> (r is Ok
                <==> builder_accepts(table.codes@, table.lens@)),
            r matches Err(e) ==> e != ConfigError::Rejected || !builder_accepts(
                table.codes@,
                table.lens@,
            ),
            r matches Ok(c) ==> c.wf() && c.book().table().codes() == table.codes@
                && c.book().table().lens() == table.lens@,
    {
        let t = make_raw_codebook(table, ESCAPE_MODULUS * ESCAPE_MODULUS)?;
        Ok(EscapeCodebook { book: ValueCodebook::new(t, escape_values()) })
    }

    /// Reads one code and returns the escape pair of its symbol.
    pub fn read_quant(&self, bs: &mut BitCursor) -> (r: Result<(u16, u16), StreamError>)
        requires
            self.wf(),
            old(bs).wf(),
        ensures
            final(bs).wf(),
            match r {
                Ok(p) => {
                    &&& exists|i: int| #[trigger]
                        self.book().table().reads_symbol(*old(bs), *final(bs), i) && (
                        p.0 as int,
                        p.1 as int,
                    ) == split_spec(ESCAPE_MODULUS as int, i)
                    &&& p.0 < ESCAPE_MODULUS
                    &&& p.1 < ESCAPE_MODULUS
                },
                Err(_) => final(bs).pos() == old(bs).pos() && final(bs).data() == old(bs).data(),
            },
            self.book().table().some_code_at(*old(bs)) ==> r is Ok,
            self.book().table().no_code_fits(*old(bs)) ==> r is Err,
    {
        let r = self.book.read(bs);
        proof {
            if r is Ok {
                let i = choose|i: int| #[trigger]
                    self.book().table().reads_symbol(*old(bs), *bs, i) && r->Ok_0
                        == self.book().values()[i];
                lemma_split_bounds(ESCAPE_MODULUS as int, i);
            }
        }
        r
    }
}

/// The values of the scale-factor symbols: each stands for its own index.
fn scalefactor_values() -> (r: Vec<u8>)
    ensures
        r@.len() == NUM_SCALEFACTORS,
        forall|i: int| 0 <= i < NUM_SCALEFACTORS ==> #[trigger] r@[i] == i,
{
    let mut r: Vec<u8> = Vec::new();
    let mut i: usize = 0;
    while i < NUM_SCALEFACTORS
        invariant
            i <= NUM_SCALEFACTORS,
            r@.len() == i,
            forall|k: int| 0 <= k < i ==> #[trigger] r@[k] == k,
        decreases NUM_SCALEFACTORS - i,
    {
        r.push(i as u8);
        i = i + 1;
    }
    r
}

/// Codebook for scale-factor deltas: each symbol stands for its own index.
pub struct ScaleFactorCodebook {
    book: ValueCodebook<u8>,
}

impl ScaleFactorCodebook {
    pub closed spec fn book(&self) -> ValueCodebook<u8> {
        self.book
    }

    pub open spec fn wf(&self) -> bool {
        &&& self.book().wf()
        &&& self.book().values().len() == NUM_SCALEFACTORS
        &&& forall|i: int| 0 <= i < NUM_SCALEFACTORS ==> #[trigger] self.book().values()[i] == i
    }

    /// Builds the codebook of the scale-factor table.
    pub fn new(table: &CodeTable) -> (r: Result<ScaleFactorCodebook, ConfigError>)
        requires
            table.codes@.len() == table.lens@.len(),
        ensures
            table_check(table.codes@, table.lens@, NUM_SCALEFACTORS as nat) matches Err(e) ==> r
                == Err::<ScaleFactorCodebook, ConfigError>(e),
            table_check(table.codes@, table.lens@, NUM_SCALEFACTORS as nat) is Ok ==> (r is Ok
                <==> builder_accepts(table.codes@, table.lens@)),
            r matches Err(e) ==> e != ConfigError::Rejected || !builder_accepts(
                table.codes@,
                table.lens@,
            ),
            r matches Ok(c) ==> c.wf() && c.book().table().codes() == table.codes@
                && c.book().table().lens() == table.lens@,
    {
        let t = make_raw_codebook(table, NUM_SCALEFACTORS)?;
        Ok(ScaleFactorCodebook { book: ValueCodebook::new(t, scalefactor_values()) })
    }

    /// Reads one code and returns its scale-factor delta index.
    pub fn read(&self, bs: &mut BitCursor) -> (r: Result<u8, StreamError>)
        requires
            self.wf(),
            old(bs).wf(),
        ensures
            final(bs).wf(),
            match r {
                Ok(d) => self.book().table().reads_symbol(*old(bs), *final(bs), d as int),
                Err(_) => final(bs).pos() == old(bs).pos() && final(bs).data() == old(bs).data(),
            },
            self.book().table().some_code_at(*old(bs)) ==> r is Ok,
            self.book().table().no_code_fits(*old(bs)) ==> r is Err,
    {
        self.book.read(bs)
    }
}

/// A table that passes the checks and that symphonia's builder accepts.
pub open spec fn buildable(codes: Seq<u32>, lens: Seq<u8>) -> bool {
    valid_code_table(codes, lens) && builder_accepts(codes, lens)
}

/// Every table of the standard can be built into its codebook.
pub open spec fn standard_tables_buildable() -> bool {
    &&& forall|k: int|
        0 <= k < NUM_SPECTRUM_TABLES ==> #[trigger] buildable(spectrum_codes(k), spectrum_lens(k))
    &&& buildable(scalefactor_codes(), scalefactor_lens())
}

/// The number of quad codebooks.
pub const NUM_QUAD_BOOKS: usize = 4;

/// The number of pair codebooks.
pub const NUM_PAIR_BOOKS: usize = 6;

/// Whether pair codebook `k` is signed, and its number of values per
/// component.
pub open spec fn pair_layout(k: int) -> (bool, int) {
    if k < 2 {
        (true, 9)
    } else if k < 4 {
        (false, 8)
    } else {
        (false, 13)
    }
}

/// Every codebook of the spectral and scale-factor stages, each built once
/// from its code table and read-only from then on.
pub struct Codebooks {
    quads: Vec<QuadsCodebook>,
    pairs: Vec<PairsCodebook>,
    esc: EscapeCodebook,
    scalefactors: ScaleFactorCodebook,
}

impl Codebooks {
    pub closed spec fn quad_books(&self) -> Seq<QuadsCodebook> {
        self.quads@
    }

    pub closed spec fn pair_books(&self) -> Seq<PairsCodebook> {
        self.pairs@
    }

    pub closed spec fn escape_book(&self) -> EscapeCodebook {
        self.esc
    }

    pub closed spec fn scalefactor_book(&self) -> ScaleFactorCodebook {
        self.scalefactors
    }

    pub open spec fn wf(&self) -> bool {
        &&& self.quad_books().len() == NUM_QUAD_BOOKS
        &&& forall|k: int| 0 <= k < NUM_QUAD_BOOKS ==> #[trigger] self.quad_books()[k].wf()
        &&& self.pair_books().len() == NUM_PAIR_BOOKS
        &&& forall|k: int|
            0 <= k < NUM_PAIR_BOOKS ==> #[trigger] self.pair_books()[k].wf() && (
            self.pair_books()[k].is_signed(),
            self.pair_books()[k].modulus(),
        ) == pair_layout(k)
        &&& self.escape_book().wf()
        &&& self.scalefactor_book().wf()
    }

    /// Each codebook was built from the standard's table for it.
    pub open spec fn built_from_standard(&self) -> bool {
        &&& forall|k: int|
            0 <= k < NUM_QUAD_BOOKS ==> #[trigger] self.quad_books()[k].book().table().codes()
                == spectrum_codes(k) && self.quad_books()[k].book().table().lens()
                == spectrum_lens(k)
        &&& forall|k: int|
            0 <= k < NUM_PAIR_BOOKS ==> #[trigger] self.pair_books()[k].book().table().codes()
                == spectrum_codes(k + NUM_QUAD_BOOKS) && self.pair_books()[k].book().table().lens()
                == spectrum_lens(k + NUM_QUAD_BOOKS)
        &&& self.escape_book().book().table().codes() == spectrum_codes(NUM_SPECTRUM_TABLES - 1)
        &&& self.escape_book().book().table().lens() == spectrum_lens(NUM_SPECTRUM_TABLES - 1)
        &&& self.scalefactor_book().book().table().codes() == scalefactor_codes()
        &&& self.scalefactor_book().book().table().lens() == scalefactor_lens()
    }

    /// Builds every codebook from the standard's tables: quad codebooks from
    /// tables 1 to 4, pair codebooks from tables 5 to 10, the escape codebook
    /// from table 11, and the scale-factor codebook.
    pub fn new() -> (r: Result<Codebooks, ConfigError>)
        ensures
            r is Ok <==> standard_tables_buildable(),
            r matches Ok(c) ==> c.wf() && c.built_from_standard(),
    {
        let mut quads: Vec<QuadsCodebook> = Vec::new();
        let mut k: usize = 0;
        while k < NUM_QUAD_BOOKS
            invariant
                k <= NUM_QUAD_BOOKS,
                quads@.len() == k,
                forall|j: int| 0 <= j < k ==> #[trigger] quads@[j].wf(),
                forall|j: int|
                    0 <= j < k ==> #[trigger] quads@[j].book().table().codes() == spectrum_codes(j)
                        && quads@[j].book().table().lens() == spectrum_lens(j),
                forall|j: int|
                    0 <= j < k ==> #[trigger] buildable(spectrum_codes(j), spectrum_lens(j)),
            decreases NUM_QUAD_BOOKS - k,
        {
            let table = spectrum_table(k);
            match QuadsCodebook::new(&table) {
                Ok(q) => {
                    quads.push(q);
                },
                Err(e) => {
                    assert(!buildable(spectrum_codes(k as int), spectrum_lens(k as int)));
                    return Err(e);
                },
            }
            k = k + 1;
        }
        let mut pairs: Vec<PairsCodebook> = Vec::new();
        let mut k: usize = 0;
        while k < NUM_PAIR_BOOKS
            invariant
                k <= NUM_PAIR_BOOKS,
                pairs@.len() == k,
                forall|j: int|
                    0 <= j < k ==> #[trigger] pairs@[j].wf() && (
                    pairs@[j].is_signed(),
                    pairs@[j].modulus(),
                ) == pair_layout(j),
                forall|j: int|
                    0 <= j < k ==> #[trigger] pairs@[j].book().table().codes() == spectrum_codes(
                        j + NUM_QUAD_BOOKS,
                    ) && pairs@[j].book().table().lens() == spectrum_lens(j + NUM_QUAD_BOOKS),
                forall|j: int|
                    0 <= j < NUM_QUAD_BOOKS + k ==> #[trigger] buildable(
                        spectrum_codes(j),
                        spectrum_lens(j),
                    ),
            decreases NUM_PAIR_BOOKS - k,
        {
            let (signed, m): (bool, usize) = if k < 2 {
                (true, 9)
            } else if k < 4 {
                (false, 8)
            } else {
                (false, 13)
            };
            let table = spectrum_table(NUM_QUAD_BOOKS + k);
            match PairsCodebook::new(&table, signed, m) {
                Ok(p) => {
                    let ghost before = pairs@;
                    pairs.push(p);
                    assert(pairs@[k as int].wf());
                    assert((pairs@[k as int].is_signed(), pairs@[k as int].modulus()) == pair_layout(
                        k as int,
                    ));
                    assert(forall|j: int| 0 <= j < k ==> #[trigger] pairs@[j] == before[j]);
                },
                Err(e) => {
                    assert(!buildable(
                        spectrum_codes(NUM_QUAD_BOOKS + k as int),
                        spectrum_lens(NUM_QUAD_BOOKS + k as int),
                    ));
                    return Err(e);
                },
            }
            k = k + 1;
        }
        let table = spectrum_table(NUM_SPECTRUM_TABLES - 1);
        let esc = match EscapeCodebook::new(&table) {
            Ok(c) => c,
            Err(e) => {
                assert(!buildable(
                    spectrum_codes(NUM_SPECTRUM_TABLES - 1),
                    spectrum_lens(NUM_SPECTRUM_TABLES - 1),
                ));
                return Err(e);
            },
        };
        let table = scalefactor_table();
        let scalefactors = match ScaleFactorCodebook::new(&table) {
            Ok(c) => c,
            Err(e) => {
                return Err(e);
            },
        };
        let r = Codebooks { quads, pairs, esc, scalefactors };
        assert(r.wf());
        assert(r.built_from_standard());
        assert(forall|j: int|
            0 <= j < NUM_SPECTRUM_TABLES ==> #[trigger] buildable(
                spectrum_codes(j),
                spectrum_lens(j),
            )) by {
            assert(forall|j: int|
                0 <= j < NUM_SPECTRUM_TABLES - 1 ==> #[trigger] buildable(
                    spectrum_codes(j),
                    spectrum_lens(j),
                ));
        }
        Ok(r)
    }

    /// Quad codebook `k`, for spectral table `k + 1`.
    pub fn quads(&self, k: usize) -> (r: &QuadsCodebook)
        requires
            self.wf(),
            k < NUM_QUAD_BOOKS,
        ensures
            *r == self.quad_books()[k as int],
            r.wf(),
    {
        &self.quads[k]
    }

    /// Pair codebook `k`, for spectral table `k + 5`.
    pub fn pairs(&self, k: usize) -> (r: &PairsCodebook)
        requires
            self.wf(),
            k < NUM_PAIR_BOOKS,
        ensures
            *r == self.pair_books()[k as int],
            r.wf(),
            (r.is_signed(), r.modulus()) == pair_layout(k as int),
    {
        assert(self.pair_books()[k as int].wf());
        &self.pairs[k]
    }

    /// The escape codebook, for spectral table 11.
    pub fn escape(&self) -> (r: &EscapeCodebook)
        requires
            self.wf(),
        ensures
            *r == self.escape_book(),
            r.wf(),
    {
        &self.esc
    }

    /// The scale-factor codebook.
    pub fn scalefactors(&self) -> (r: &ScaleFactorCodebook)
        requires
            self.wf(),
        ensures
            *r == self.scalefactor_book(),
            r.wf(),
    {
        &self.scalefactors
    }
}

/// The quad table enumerates the 4-tuples over {0, 1, 2} in lexicographic
/// order: entry `i` holds the base-3 digits of `i`, so that entry 0 is
/// (0, 0, 0, 0), entry 80 is (2, 2, 2, 2), and every 4-tuple over {0, 1, 2}
/// is the entry of exactly one index.
pub proof fn lemma_quad_enumeration(i: int)
    requires
        0 <= i < NUM_QUADS,
    ensures
        quad_spec(i).0 < 3 && quad_spec(i).1 < 3 && quad_spec(i).2 < 3 && quad_spec(i).3 < 3,
        27 * quad_spec(i).0 + 9 * quad_spec(i).1 + 3 * quad_spec(i).2 + quad_spec(i).3 == i,
        quad_spec(0) == (0u8, 0u8, 0u8, 0u8),
        quad_spec(80) == (2u8, 2u8, 2u8, 2u8),
        forall|a: int, b: int, c: int, d: int|
            0 <= a < 3 && 0 <= b < 3 && 0 <= c < 3 && 0 <= d < 3 ==> #[trigger] quad_spec(
                27 * a + 9 * b + 3 * c + d,
            ) == (a as u8, b as u8, c as u8, d as u8),
{
}

/// Unsigned pairs split the symbol into its two components: symbol 0 is
/// (0, 0), and symbol `m + 1` is (1, 1).
pub proof fn lemma_unsigned_pair(m: int, cw: int)
    requires
        1 <= m,
        0 <= cw < m * m,
    ensures
        0 <= pair_spec(false, m, cw).0 < m,
        0 <= pair_spec(false, m, cw).1 < m,
        m * pair_spec(false, m, cw).0 + pair_spec(false, m, cw).1 == cw,
        pair_spec(false, m, 0) == (0int, 0int),
        m >= 2 ==> pair_spec(false, m, m + 1) == (1int, 1int),
{
    lemma_split_bounds(m, cw);
    vstd::arithmetic::div_mod::lemma_fundamental_div_mod(cw, m);
    if m >= 2 {
        vstd::arithmetic::div_mod::lemma_fundamental_div_mod_converse(m + 1, m, 1, 1);
    }
}

/// Signed pairs fold each component around the midpoint `m / 2`: the symbol
/// whose components both sit on the midpoint is (0, 0); a component below
/// the midpoint gives a negative value and one above it a positive value; and
/// for odd `m` the mirrored symbol `m * m - 1 - cw` gives the negated pair.
pub proof fn lemma_signed_pair(m: int, cw: int)
    requires
        1 <= m,
        0 <= cw < m * m,
    ensures
        pair_spec(true, m, (m / 2) * m + m / 2) == (0int, 0int),
        pair_spec(true, m, cw).0 < 0 <==> split_spec(m, cw).0 < m / 2,
        pair_spec(true, m, cw).0 > 0 <==> split_spec(m, cw).0 > m / 2,
        pair_spec(true, m, cw).1 < 0 <==> split_spec(m, cw).1 < m / 2,
        pair_spec(true, m, cw).1 > 0 <==> split_spec(m, cw).1 > m / 2,
        m % 2 == 1 ==> pair_spec(true, m, m * m - 1 - cw) == (
            -pair_spec(true, m, cw).0,
            -pair_spec(true, m, cw).1,
        ),
{
    let h = m / 2;
    assert(0 <= h < m);
    vstd::arithmetic::div_mod::lemma_fundamental_div_mod_converse(h * m + h, m, h, h);
    lemma_split_bounds(m, cw);
    if m % 2 == 1 {
        let a = cw / m;
        let b = cw % m;
        vstd::arithmetic::div_mod::lemma_fundamental_div_mod(cw, m);
        assert(m * m - 1 - cw == (m - 1 - a) * m + (m - 1 - b)) by (nonlinear_arith)
            requires
                cw == m * a + b,
        ;
        vstd::arithmetic::div_mod::lemma_fundamental_div_mod_converse(
            m * m - 1 - cw,
            m,
            m - 1 - a,
            m - 1 - b,
        );
    }
}

/// Escape pairs of the escape table's symbols are categories in `0..17`; a
/// category of 16 is the escape, and no inverse quantization is applied.
pub proof fn lemma_escape_categories(cw: int)
    requires
        0 <= cw < ESCAPE_MODULUS * ESCAPE_MODULUS,
    ensures
        0 <= split_spec(ESCAPE_MODULUS as int, cw).0 < ESCAPE_MODULUS,
        0 <= split_spec(ESCAPE_MODULUS as int, cw).1 < ESCAPE_MODULUS,
{
    lemma_split_bounds(ESCAPE_MODULUS as int, cw);
}

/// Every table of the standard is prefix-free and within the length limits
/// whenever the registry builds (`Codebooks::new` succeeds exactly then):
/// building checks each table.
pub proof fn lemma_standard_tables_valid()
    requires
        standard_tables_buildable(),
    ensures
        forall|k: int|
            0 <= k < NUM_SPECTRUM_TABLES ==> #[trigger] valid_code_table(
                spectrum_codes(k),
                spectrum_lens(k),
            ),
        valid_code_table(scalefactor_codes(), scalefactor_lens()),
{
    assert forall|k: int| 0 <= k < NUM_SPECTRUM_TABLES implies #[trigger] valid_code_table(
        spectrum_codes(k),
        spectrum_lens(k),
    ) by {
        assert(buildable(spectrum_codes(k), spectrum_lens(k)));
    }
}

} // verus!
