//! The SFNT offset table that starts every decoded font.
use vstd::prelude::*;
use crate::reader::{be16, be32, read_u32};
use vstd::arithmetic::div_mod::{lemma_add_mod_noop, lemma_small_mod};

verus! {

/// SFNT version of TrueType outlines.
pub const SFNT_VERSION_TRUETYPE: u32 = 0x00010000;

/// SFNT version of CFF outlines (`OTTO`).
pub const SFNT_VERSION_CFF: u32 = 0x4F54544F;

/// The tag `head`.
pub const TAG_HEAD: u32 = 0x68656164;

/// What the checksum of a whole font file comes to once `head` holds its
/// checksum adjustment.
pub const FILE_CHECKSUM_TARGET: u32 = 0xB1B0AFBA;

/// Size of the SFNT offset table in bytes.
pub const OFFSET_TABLE_SIZE: usize = 12;

/// Two to the power `e`.
pub open spec fn pow2(e: nat) -> nat
    decreases e,
{
    if e == 0 { 1 } else { 2 * pow2((e - 1) as nat) }
}

/// `e` is the base-2 logarithm of `n`, rounded down.
pub open spec fn is_floor_log2(e: nat, n: nat) -> bool {
    pow2(e) <= n < 2 * pow2(e)
}

/// The directory search fields for `n` tables: searchRange is sixteen times
/// the largest power of two not above `n`, entrySelector its exponent, and
/// rangeShift what sixteen times `n` exceeds searchRange by; the two sizes
/// are stored in 16 bits.
pub open spec fn search_fields_ok(n: nat, search_range: int, entry_selector: int, range_shift: int) -> bool {
    entry_selector >= 0
    && is_floor_log2(entry_selector as nat, n)
    && search_range == (16 * pow2(entry_selector as nat)) % 0x10000
    && range_shift == (16 * n - 16 * pow2(entry_selector as nat)) % 0x10000
}

/// `s` starts with an SFNT offset table for `n` tables, of TrueType or CFF
/// flavour.
pub open spec fn sfnt_header_ok(s: Seq<u8>, n: u16) -> bool {
    s.len() >= 12
    && (be32(s, 0) == SFNT_VERSION_TRUETYPE || be32(s, 0) == SFNT_VERSION_CFF)
    && be16(s, 4) == n
    && search_fields_ok(n as nat, be16(s, 6), be16(s, 8), be16(s, 10))
}

/// Powers of two grow: a larger exponent gives at least twice the value.
pub proof fn lemma_pow2_grows(a: nat, b: nat)
    requires
        a < b,
    ensures
        2 * pow2(a) <= pow2(b),
    decreases b,
{
    if a + 1 < b {
        lemma_pow2_grows(a, (b - 1) as nat);
    }
}

/// The rounded-down logarithm of a number is unique.
pub proof fn lemma_floor_log2_unique(e1: nat, e2: nat, n: nat)
    requires
        is_floor_log2(e1, n),
        is_floor_log2(e2, n),
    ensures
        e1 == e2,
{
    if e1 < e2 {
        lemma_pow2_grows(e1, e2);
    } else if e2 < e1 {
        lemma_pow2_grows(e2, e1);
    }
}

/// Computes (searchRange, entrySelector, rangeShift) for `num_tables` tables.
pub fn search_params(num_tables: u16) -> (r: (u16, u16, u16))
    requires
        num_tables > 0,
    ensures
        search_fields_ok(num_tables as nat, r.0 as int, r.1 as int, r.2 as int),
{
    let n = num_tables as u32;
    let mut pow: u32 = 1;
    let mut e: u32 = 0;
    while pow * 2 <= n
        invariant
            1 <= pow <= n <= 0xFFFF,
            pow == pow2(e as nat),
            e < pow,
        decreases n - pow,
    {
        pow = pow * 2;
        e = e + 1;
    }
    let range: u16 = ((pow * 16) % 0x10000) as u16;
    let shift: u16 = ((n * 16 - pow * 16) % 0x10000) as u16;
    (range, e as u16, shift)
}

/// Tells whether `out` starts with an SFNT offset table for `num_tables`
/// tables, of TrueType or CFF flavour.
pub fn check_sfnt_header(out: &Vec<u8>, num_tables: u16) -> (r: bool)
    ensures
        r == sfnt_header_ok(out@, num_tables),
{
    if out.len() < OFFSET_TABLE_SIZE || num_tables == 0 {
        return false;
    }
    let version: u32 = (out[0] as u32) * 0x1000000 + (out[1] as u32) * 0x10000
        + (out[2] as u32) * 0x100 + out[3] as u32;
    let count: u16 = (out[4] as u16) * 0x100 + out[5] as u16;
    let range: u16 = (out[6] as u16) * 0x100 + out[7] as u16;
    let selector: u16 = (out[8] as u16) * 0x100 + out[9] as u16;
    let shift: u16 = (out[10] as u16) * 0x100 + out[11] as u16;
    let (want_range, want_selector, want_shift) = search_params(num_tables);
    proof {
        if search_fields_ok(num_tables as nat, range as int, selector as int, shift as int) {
            lemma_floor_log2_unique(selector as nat, want_selector as nat, num_tables as nat);
        }
    }
    (version == SFNT_VERSION_TRUETYPE || version == SFNT_VERSION_CFF)
    && count == num_tables
    && range == want_range
    && selector == want_selector
    && shift == want_shift
}


/// Byte `i` of the `len` bytes at `start`, padded with zeros past the end,
/// and read as zero in the four bytes from `skip` on.
pub open spec fn masked_byte(s: Seq<u8>, start: int, len: int, skip: int, i: int) -> int {
    if 0 <= i < len && !(skip <= i < skip + 4) { s[start + i] as int } else { 0 }
}

/// Word `j` (big-endian, 32 bits) of the bytes that `masked_byte` reads.
pub open spec fn masked_word(s: Seq<u8>, start: int, len: int, skip: int, j: int) -> int {
    masked_byte(s, start, len, skip, 4 * j) * 0x1000000
    + masked_byte(s, start, len, skip, 4 * j + 1) * 0x10000
    + masked_byte(s, start, len, skip, 4 * j + 2) * 0x100
    + masked_byte(s, start, len, skip, 4 * j + 3)
}

/// The sum of the first `k` words.
pub open spec fn words_sum(s: Seq<u8>, start: int, len: int, skip: int, k: nat) -> int
    decreases k,
{
    if k == 0 { 0 } else { words_sum(s, start, len, skip, (k - 1) as nat) + masked_word(s, start, len, skip, k - 1) }
}

/// The SFNT checksum of the `len` bytes at `start`, with the four bytes from
/// `skip` on read as zero: the sum modulo 2^32 of their big-endian words,
/// the last one padded with zeros.
pub open spec fn checksum_spec(s: Seq<u8>, start: int, len: int, skip: int) -> int {
    words_sum(s, start, len, skip, ((len + 3) / 4) as nat) % 0x100000000
}

/// Where the bytes read as zero start: at the checksum adjustment (offset 8)
/// in a `head` table, nowhere in any other table.
pub open spec fn skip_for(is_head: bool) -> int {
    if is_head { 8 } else { -4 }
}

/// Byte `i` of the table at `start`, as `masked_byte` reads it.
fn masked_byte_at(out: &Vec<u8>, start: usize, len: usize, is_head: bool, i: usize) -> (r: u8)
    requires
        start + len <= out@.len(),
    ensures
        r as int == masked_byte(out@, start as int, len as int, skip_for(is_head), i as int),
{
    if i < len && !(is_head && 8 <= i && i < 12) {
        let n = out.len();
        assert((start as int) + (i as int) < n);
        out[start + i]
    } else {
        0
    }
}

/// The SFNT checksum of the `len` bytes at `start`; for a `head` table the
/// checksum adjustment is read as zero.
pub fn table_checksum(out: &Vec<u8>, start: usize, len: usize, is_head: bool) -> (r: u32)
    requires
        start + len <= out@.len(),
    ensures
        r as int == checksum_spec(out@, start as int, len as int, skip_for(is_head)),
{
    let words: usize = len / 4 + if len % 4 != 0 { 1 } else { 0 };
    assert(words == (len as int + 3) / 4);
    let mut sum: u64 = 0;
    let mut j: usize = 0;
    while j < words
        invariant
            start + len <= out@.len(),
            j <= words,
            words == (len as int + 3) / 4,
            sum == words_sum(out@, start as int, len as int, skip_for(is_head), j as nat) % 0x100000000,
        decreases words - j,
    {
        let b0 = masked_byte_at(out, start, len, is_head, 4 * j) as u64;
        let b1 = masked_byte_at(out, start, len, is_head, 4 * j + 1) as u64;
        let b2 = masked_byte_at(out, start, len, is_head, 4 * j + 2) as u64;
        let b3 = masked_byte_at(out, start, len, is_head, 4 * j + 3) as u64;
        let w: u64 = b0 * 0x1000000 + b1 * 0x10000 + b2 * 0x100 + b3;
        proof {
            let x = words_sum(out@, start as int, len as int, skip_for(is_head), j as nat);
            lemma_add_mod_noop(x, w as int, 0x100000000);
            lemma_small_mod(w as nat, 0x100000000);
            lemma_add_mod_noop(sum as int, w as int, 0x100000000);
            lemma_small_mod(sum as nat, 0x100000000);
            assert(words_sum(out@, start as int, len as int, skip_for(is_head), (j + 1) as nat) == x + w);
        }
        sum = (sum + w) % 0x100000000;
        j = j + 1;
    }
    sum as u32
}


/// The tag of table record `i` of the SFNT directory.
pub open spec fn record_tag(s: Seq<u8>, i: int) -> int {
    be32(s, 12 + 16 * i)
}

/// Table record `i` is sound: its table starts on a 4-byte boundary and lies
/// inside the file, its checksum is that of the table's bytes (with the
/// checksum adjustment read as zero in `head`), and its tag comes after the
/// tag of the record before it.
pub open spec fn table_record_ok(s: Seq<u8>, i: int) -> bool {
    let r = 12 + 16 * i;
    let tag = be32(s, r);
    let offset = be32(s, r + 8);
    let length = be32(s, r + 12);
    offset % 4 == 0
    && offset + length <= s.len()
    && be32(s, r + 4) == checksum_spec(s, offset, length, skip_for(tag == TAG_HEAD))
    && (i > 0 ==> record_tag(s, i - 1) < tag)
}

/// One of the first `n` table records is a `head` table.
pub open spec fn has_head(s: Seq<u8>, n: int) -> bool {
    exists|i: int| 0 <= i < n && #[trigger] record_tag(s, i) == TAG_HEAD
}

/// The `n` table records of `s` are sound, and when a `head` table is among
/// them the whole file's checksum is the fixed target.
pub open spec fn sfnt_tables_ok(s: Seq<u8>, n: u16) -> bool {
    12 + 16 * n <= s.len()
    && (forall|i: int| 0 <= i < n ==> #[trigger] table_record_ok(s, i))
    && (has_head(s, n as int) ==> checksum_spec(s, 0, s.len() as int, -4) == FILE_CHECKSUM_TARGET)
}

/// Tells whether the `num_tables` table records of `out` are sound, and the
/// file's checksum right when it holds a `head` table.
pub fn check_sfnt_tables(out: &Vec<u8>, num_tables: u16) -> (r: bool)
    ensures
        r == sfnt_tables_ok(out@, num_tables),
{
    let n = num_tables as usize;
    if out.len() < OFFSET_TABLE_SIZE || (out.len() - OFFSET_TABLE_SIZE) / 16 < n {
        return false;
    }
    let mut found: bool = false;
    let mut prev: u32 = 0;
    let mut i: usize = 0;
    while i < n
        invariant
            n == num_tables,
            12 + 16 * n <= out@.len(),
            i <= n,
            forall|k: int| 0 <= k < i ==> #[trigger] table_record_ok(out@, k),
            found == has_head(out@, i as int),
            i > 0 ==> prev == record_tag(out@, i - 1),
        decreases n - i,
    {
        let rec: usize = 12 + 16 * i;
        let (tag, _) = read_u32(out, rec).unwrap();
        let (sum, _) = read_u32(out, rec + 4).unwrap();
        let (offset, _) = read_u32(out, rec + 8).unwrap();
        let (length, _) = read_u32(out, rec + 12).unwrap();
        assert(tag == record_tag(out@, i as int));
        if offset % 4 != 0 || offset as usize > out.len() || length as usize > out.len() - offset as usize {
            assert(!table_record_ok(out@, i as int));
            return false;
        }
        if table_checksum(out, offset as usize, length as usize, tag == TAG_HEAD) != sum {
            assert(!table_record_ok(out@, i as int));
            return false;
        }
        if i > 0 && prev >= tag {
            assert(!table_record_ok(out@, i as int));
            return false;
        }
        assert(table_record_ok(out@, i as int));
        proof {
            if tag == TAG_HEAD {
                assert(record_tag(out@, i as int) == TAG_HEAD);
            }
            if !found && tag != TAG_HEAD {
                assert forall|k: int| 0 <= k < i + 1 implies #[trigger] record_tag(out@, k) != TAG_HEAD by {
                    if k < i {
                        assert(!(0 <= k < i && record_tag(out@, k) == TAG_HEAD));
                    }
                }
            }
        }
        found = found || tag == TAG_HEAD;
        prev = tag;
        i = i + 1;
    }
    if found {
        table_checksum(out, 0, out.len(), false) == FILE_CHECKSUM_TARGET
    } else {
        true
    }
}


/// `s` is an SFNT file for `n` tables: its offset table is right and its
/// table records are sound.
pub open spec fn sfnt_ok(s: Seq<u8>, n: u16) -> bool {
    sfnt_header_ok(s, n) && sfnt_tables_ok(s, n)
}

/// Tells whether `out` is an SFNT file for `num_tables` tables.
pub fn check_sfnt(out: &Vec<u8>, num_tables: u16) -> (r: bool)
    ensures
        r == sfnt_ok(out@, num_tables),
{
    check_sfnt_header(out, num_tables) && check_sfnt_tables(out, num_tables)
}

} // verus!
