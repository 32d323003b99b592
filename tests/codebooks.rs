use aac_codebooks::bits::BitCursor;
use aac_codebooks::codebooks::{
    aac_quads, escape_pair, make_raw_codebook, signed_pair, unsigned_pair, Codebooks,
    EscapeCodebook, PairsCodebook, QuadsCodebook, ScaleFactorCodebook, ESCAPE_MODULUS,
    NUM_PAIR_BOOKS, NUM_QUAD_BOOKS,
};
use aac_codebooks::tables::{scalefactor_table, spectrum_table, CodeTable, NUM_SPECTRUM_TABLES};
use aac_codebooks::vlc::{check_code_table, is_prefix_free, ConfigError, DecodeTable, StreamError};

/// Writes `len` bits of `code`, most significant first, after `offset` zero
/// bits, and pads the result to whole bytes.
fn encode(offset: usize, code: u32, len: u8) -> Vec<u8> {
    let total = offset + len as usize;
    let mut bytes = vec![0u8; (total + 7) / 8];
    for k in 0..len as usize {
        let bit = (code >> (len as usize - 1 - k)) & 1;
        if bit == 1 {
            let p = offset + k;
            bytes[p / 8] |= 0x80 >> (p % 8);
        }
    }
    bytes
}

fn all_tables() -> Vec<CodeTable> {
    let mut v: Vec<CodeTable> = (0..NUM_SPECTRUM_TABLES).map(spectrum_table).collect();
    v.push(scalefactor_table());
    v
}

#[test]
fn every_shipped_table_is_prefix_free() {
    for t in all_tables() {
        assert_eq!(t.codes.len(), t.lens.len());
        assert!(is_prefix_free(t.codes, t.lens));
        assert!(check_code_table(t.codes, t.lens));
    }
}

#[test]
fn shipped_table_sizes() {
    let sizes: Vec<usize> = all_tables().iter().map(|t| t.codes.len()).collect();
    assert_eq!(sizes, vec![81, 81, 81, 81, 81, 81, 64, 64, 169, 169, 289, 121]);
    for t in all_tables() {
        assert!(t.lens.iter().all(|&l| (1..=19).contains(&l)));
    }
}

#[test]
fn registry_builds() {
    assert!(Codebooks::new().is_ok());
}

#[test]
fn every_code_round_trips() {
    for t in all_tables() {
        let table = DecodeTable::build(t.codes, t.lens).ok().expect("table builds");
        assert_eq!(table.num_symbols(), t.codes.len());
        for offset in [0usize, 3, 8] {
            for i in 0..t.codes.len() {
                let mut cur = BitCursor::new_at(encode(offset, t.codes[i], t.lens[i]), offset);
                assert_eq!(table.decode(&mut cur), Ok(i));
                assert_eq!(cur.position(), offset + t.lens[i] as usize);
            }
        }
    }
}

#[test]
fn decoding_consumes_at_most_nineteen_bits() {
    let t = spectrum_table(10);
    let table = DecodeTable::build(t.codes, t.lens).ok().expect("table builds");
    let mut cur = BitCursor::new(vec![0xff; 8]);
    let before = cur.position();
    if table.decode(&mut cur).is_ok() {
        let used = cur.position() - before;
        assert!((1..=19).contains(&used));
    }
}

#[test]
fn empty_cursor_fails_with_stream_error() {
    for t in all_tables() {
        let table = DecodeTable::build(t.codes, t.lens).ok().expect("table builds");
        let mut cur = BitCursor::new(Vec::new());
        assert_eq!(table.decode(&mut cur), Err(StreamError::EndOfStream));
        assert_eq!(cur.position(), 0);
    }
}

#[test]
fn truncated_code_fails_without_moving() {
    // Spectral table 1: symbol 0 is 0x7f8, eleven bits; one byte holds only
    // the first eight of them.
    let t = spectrum_table(0);
    let table = DecodeTable::build(t.codes, t.lens).ok().expect("table builds");
    let mut cur = BitCursor::new(vec![0xff]);
    assert_eq!(table.decode(&mut cur), Err(StreamError::EndOfStream));
    assert_eq!(cur.position(), 0);
    assert_eq!(cur.bits_left(), 8);
}

#[test]
fn consecutive_codes_decode_in_order() {
    // Spectral table 1: symbol 40 is "0" (one bit), symbol 13 is 0x11 (five bits).
    let t = spectrum_table(0);
    let table = DecodeTable::build(t.codes, t.lens).ok().expect("table builds");
    let mut cur = BitCursor::new(vec![0b0100_0100, 0]);
    assert_eq!(table.decode(&mut cur), Ok(40));
    assert_eq!(cur.position(), 1);
    assert_eq!(table.decode(&mut cur), Ok(13));
    assert_eq!(cur.position(), 6);
}

#[test]
fn build_rejects_malformed_tables() {
    let empty_codes: [u32; 0] = [];
    let empty_lens: [u8; 0] = [];
    assert_eq!(DecodeTable::build(&empty_codes, &empty_lens).err(), Some(ConfigError::Malformed));
    // "0" is a prefix of "01".
    assert_eq!(DecodeTable::build(&[0, 1], &[1, 2]).err(), Some(ConfigError::Malformed));
    // Two equal codes.
    assert_eq!(DecodeTable::build(&[1, 1], &[1, 1]).err(), Some(ConfigError::Malformed));
    // A zero length.
    assert_eq!(DecodeTable::build(&[0, 1], &[0, 1]).err(), Some(ConfigError::Malformed));
    // A code wider than its length.
    assert_eq!(DecodeTable::build(&[0, 2], &[1, 1]).err(), Some(ConfigError::Malformed));
    // A length beyond nineteen bits.
    assert_eq!(DecodeTable::build(&[0, 1], &[1, 20]).err(), Some(ConfigError::Malformed));
    assert!(!is_prefix_free(&[0, 1], &[1, 2]));
    assert!(is_prefix_free(&[0, 2, 3], &[1, 2, 2]));
}

#[test]
fn builder_rejects_incomplete_code() {
    // "0" and "10" leave "11" unused.
    assert_eq!(DecodeTable::build(&[0, 2], &[1, 2]).err(), Some(ConfigError::Rejected));
}

#[test]
fn codebook_checks_alphabet_size() {
    let pairs = spectrum_table(6);
    assert_eq!(QuadsCodebook::new(&pairs).err(), Some(ConfigError::SizeMismatch));
    assert_eq!(make_raw_codebook(&pairs, 81).err(), Some(ConfigError::SizeMismatch));
    assert!(make_raw_codebook(&pairs, 64).is_ok());
    assert_eq!(EscapeCodebook::new(&pairs).err(), Some(ConfigError::SizeMismatch));
    assert_eq!(ScaleFactorCodebook::new(&pairs).err(), Some(ConfigError::SizeMismatch));
    assert_eq!(PairsCodebook::new(&pairs, false, 9).err(), Some(ConfigError::SizeMismatch));
}

#[test]
fn unsigned_pair_values() {
    assert_eq!(unsigned_pair(8, 0), (0, 0));
    assert_eq!(unsigned_pair(8, 9), (1, 1));
    assert_eq!(unsigned_pair(8, 63), (7, 7));
    assert_eq!(unsigned_pair(13, 14), (1, 1));
    assert_eq!(unsigned_pair(13, 168), (12, 12));
}

#[test]
fn signed_pair_values() {
    assert_eq!(signed_pair(9, 40), (0, 0));
    assert_eq!(signed_pair(9, 0), (-4, -4));
    assert_eq!(signed_pair(9, 80), (4, 4));
    assert_eq!(signed_pair(9, 39), (0, -1));
    assert_eq!(signed_pair(9, 41), (0, 1));
    for cw in 0..81usize {
        let (x, y) = signed_pair(9, cw);
        let (a, b) = ((cw / 9) as i16, (cw % 9) as i16);
        assert_eq!(x < 0, a < 4);
        assert_eq!(x > 0, a > 4);
        assert_eq!(y < 0, b < 4);
        assert_eq!(y > 0, b > 4);
        let mirror = signed_pair(9, 80 - cw);
        assert_eq!(mirror, (-x, -y));
    }
}

#[test]
fn escape_pair_values() {
    assert_eq!(escape_pair(17, 0), (0, 0));
    assert_eq!(escape_pair(17, 16), (0, 16));
    assert_eq!(escape_pair(17, 288), (16, 16));
    for cw in 0..289usize {
        let (a, b) = escape_pair(ESCAPE_MODULUS, cw);
        assert!(a < 17 && b < 17);
    }
}

#[test]
fn quad_table_is_lexicographic() {
    let q = aac_quads();
    assert_eq!(q.len(), 81);
    assert_eq!(q[0], (0, 0, 0, 0));
    assert_eq!(q[1], (0, 0, 0, 1));
    assert_eq!(q[3], (0, 0, 1, 0));
    assert_eq!(q[40], (1, 1, 1, 1));
    assert_eq!(q[80], (2, 2, 2, 2));
    let mut i = 0;
    for a in 0..3u8 {
        for b in 0..3u8 {
            for c in 0..3u8 {
                for d in 0..3u8 {
                    assert_eq!(q[i], (a, b, c, d));
                    i += 1;
                }
            }
        }
    }
}

#[test]
fn registry_reads_each_kind() {
    let books = Codebooks::new().ok().expect("codebooks build");
    assert_eq!(NUM_QUAD_BOOKS, 4);
    assert_eq!(NUM_PAIR_BOOKS, 6);

    // Quad table 1, symbol 40 is "0": the quad (1, 1, 1, 1).
    let mut cur = BitCursor::new(vec![0x00]);
    assert_eq!(books.quads(0).read_quant(&mut cur), Ok((1, 1, 1, 1)));
    assert_eq!(cur.position(), 1);

    // Pair table 5 (signed, 9 per component), symbol 40 is "0": (0, 0).
    let t5 = spectrum_table(4);
    let mut cur = BitCursor::new(encode(0, t5.codes[40], t5.lens[40]));
    assert_eq!(books.pairs(0).read_quant(&mut cur), Ok((0, 0)));
    // Symbol 0 is (-4, -4).
    let mut cur = BitCursor::new(encode(0, t5.codes[0], t5.lens[0]));
    assert_eq!(books.pairs(0).read_quant(&mut cur), Ok((-4, -4)));

    // Pair table 7 (unsigned, 8 per component), symbol 9 is (1, 1).
    let t7 = spectrum_table(6);
    let mut cur = BitCursor::new(encode(0, t7.codes[9], t7.lens[9]));
    assert_eq!(books.pairs(2).read_quant(&mut cur), Ok((1, 1)));
    assert_eq!(cur.position(), t7.lens[9] as usize);

    // Escape table, symbol 288 is (16, 16), and symbol 17 is (1, 0).
    let t11 = spectrum_table(10);
    let mut cur = BitCursor::new(encode(0, t11.codes[288], t11.lens[288]));
    assert_eq!(books.escape().read_quant(&mut cur), Ok((16, 16)));
    let mut cur = BitCursor::new(encode(0, t11.codes[17], t11.lens[17]));
    assert_eq!(books.escape().read_quant(&mut cur), Ok((1, 0)));

    // Scale factors: symbol 60 (no change) has the one-bit code "0".
    let sf = scalefactor_table();
    assert_eq!(sf.lens[60], 1);
    let mut cur = BitCursor::new(vec![0x00]);
    assert_eq!(books.scalefactors().read(&mut cur), Ok(60));
    let mut cur = BitCursor::new(encode(0, sf.codes[120], sf.lens[120]));
    assert_eq!(books.scalefactors().read(&mut cur), Ok(120));
}

#[test]
fn registry_reads_fail_on_empty_input() {
    let books = Codebooks::new().ok().expect("codebooks build");
    let mut cur = BitCursor::new(Vec::new());
    assert_eq!(books.quads(3).read_quant(&mut cur), Err(StreamError::EndOfStream));
    assert_eq!(books.pairs(5).read_quant(&mut cur), Err(StreamError::EndOfStream));
    assert_eq!(books.escape().read_quant(&mut cur), Err(StreamError::EndOfStream));
    assert_eq!(books.scalefactors().read(&mut cur), Err(StreamError::EndOfStream));
    assert_eq!(cur.bits_left(), 0);
}

#[test]
fn cursor_reads_bits_most_significant_first() {
    let mut cur = BitCursor::new(vec![0b1011_0010, 0xff]);
    assert_eq!(cur.read_bits(1), Ok(1));
    assert_eq!(cur.read_bits(3), Ok(0b011));
    assert_eq!(cur.read_bits(0), Ok(0));
    assert_eq!(cur.read_bits(8), Ok(0b0010_1111));
    assert_eq!(cur.position(), 12);
    assert_eq!(cur.read_bits(5), Err(StreamError::EndOfStream));
    assert_eq!(cur.position(), 12);
    assert_eq!(cur.read_bits(4), Ok(0xf));
    assert_eq!(cur.bits_left(), 0);
    let mut wide = BitCursor::new(vec![0x12, 0x34, 0x56, 0x78, 0x9a]);
    assert_eq!(wide.read_bits(32), Ok(0x1234_5678));
}

#[test]
fn every_code_reads_back_as_its_bits() {
    for t in all_tables() {
        let table = DecodeTable::build(t.codes, t.lens).ok().expect("table builds");
        for i in 0..t.codes.len() {
            let bytes = encode(5, t.codes[i], t.lens[i]);
            let mut plain = BitCursor::new_at(bytes.clone(), 5);
            assert_eq!(plain.read_bits(t.lens[i] as u32), Ok(t.codes[i]));
            let mut cur = BitCursor::new_at(bytes, 5);
            assert_eq!(table.decode(&mut cur), Ok(i));
            assert_eq!(cur.position(), plain.position());
        }
    }
}

#[test]
fn escape_magnitude_follows_the_escape_symbol() {
    // Symbol 288 of the escape table is (16, 16): both components escape,
    // and the caller reads their magnitudes from the bits that follow.
    let books = Codebooks::new().ok().expect("codebooks build");
    let t11 = spectrum_table(10);
    let len = t11.lens[288] as usize;
    let mut bytes = encode(0, t11.codes[288], t11.lens[288]);
    bytes.push(0);
    bytes.push(0);
    // Four one bits right after the code.
    for k in 0..4 {
        let p = len + k;
        bytes[p / 8] |= 0x80 >> (p % 8);
    }
    let mut cur = BitCursor::new(bytes);
    assert_eq!(books.escape().read_quant(&mut cur), Ok((16, 16)));
    assert_eq!(cur.position(), len);
    assert_eq!(cur.read_bits(4), Ok(0b1111));
}

#[test]
fn trailing_bits_do_not_change_the_result() {
    for t in all_tables() {
        let table = DecodeTable::build(t.codes, t.lens).ok().expect("table builds");
        for i in 0..t.codes.len() {
            let short = encode(0, t.codes[i], t.lens[i]);
            let mut long = short.clone();
            long.extend_from_slice(&[0xa5, 0xff, 0x00]);
            let mut a = BitCursor::new(short);
            let mut b = BitCursor::new(long);
            assert_eq!(table.decode(&mut a), Ok(i));
            assert_eq!(table.decode(&mut b), Ok(i));
            assert_eq!(a.position(), b.position());
        }
    }
}

#[test]
fn concrete_codes_decode_to_their_symbols() {
    let books = Codebooks::new().ok().expect("codebooks build");
    // Bits 0001 on the escape table: symbol 18, the pair (1, 1), four bits.
    let mut cur = BitCursor::new(vec![0b0001_0000]);
    assert_eq!(books.escape().read_quant(&mut cur), Ok((1, 1)));
    assert_eq!(cur.position(), 4);
    // Nineteen one bits on the scale-factor table: symbol 13, all 19 bits.
    let mut cur = BitCursor::new(vec![0xff, 0xff, 0xe0]);
    assert_eq!(books.scalefactors().read(&mut cur), Ok(13));
    assert_eq!(cur.position(), 19);
    // Code 0x7f8 (11 bits) on quad table 1: (0, 0, 0, 0); 0x7f4: (2, 2, 2, 2).
    let mut cur = BitCursor::new(encode(0, 0x7f8, 11));
    assert_eq!(books.quads(0).read_quant(&mut cur), Ok((0, 0, 0, 0)));
    let mut cur = BitCursor::new(encode(0, 0x7f4, 11));
    assert_eq!(books.quads(0).read_quant(&mut cur), Ok((2, 2, 2, 2)));
    // Bits 1100 on pair table 7: symbol 9, the pair (1, 1).
    let mut cur = BitCursor::new(vec![0b1100_0000]);
    assert_eq!(books.pairs(2).read_quant(&mut cur), Ok((1, 1)));
    assert_eq!(cur.position(), 4);
    // Three bits on the escape table, whose codes are at least four long.
    let mut cur = BitCursor::new_at(vec![0x00], 5);
    assert_eq!(books.escape().read_quant(&mut cur), Err(StreamError::EndOfStream));
}
