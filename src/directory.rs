//! The WOFF2 header and its table directory.
use vstd::prelude::*;
use crate::error::Woff2Error;
use crate::reader::{base128_at, be16, be32, fits, read_u8, read_u16, read_u32, read_uint_base128};

verus! {

/// The tag `glyf`.
pub const TAG_GLYF: u32 = 0x676C7966;

/// The tag `loca`.
pub const TAG_LOCA: u32 = 0x6C6F6361;

/// The tag index in a flags byte that announces an explicit 4-byte tag.
pub const CUSTOM_TAG_INDEX: u8 = 63;

/// Size of the fixed WOFF2 header in bytes.
pub const HEADER_SIZE: usize = 48;

/// The input starts with the four bytes `wOF2`.
pub open spec fn has_signature(s: Seq<u8>) -> bool {
    s.len() >= 4 && s[0] == 0x77 && s[1] == 0x4F && s[2] == 0x46 && s[3] == 0x32
}

/// How a table's data is stored, as the flags byte says for that table's tag.
#[derive(Debug, Clone, Copy, PartialEq, Eq, Structural)]
pub enum TransformKind {
    /// The table's bytes are stored as they are.
    Untransformed,
    /// The dense `glyf` / `loca` encoding (version 0 on those two tags).
    GlyfLocaTransform,
    /// Another transform version (1 to 3) on any other tag.
    GenericTransform(u8),
}

/// One entry of the table directory.
#[derive(Debug, Clone, Copy, PartialEq, Eq, Structural)]
pub struct TableEntry {
    pub tag: u32,
    pub transform: TransformKind,
    /// Length of the table once decoded.
    pub orig_length: u32,
    /// Length of the table's data in the decompressed stream.
    pub transform_length: u32,
}

/// The fields of the fixed WOFF2 header that decoding reads.
#[derive(Debug, Clone, Copy, PartialEq, Eq, Structural)]
pub struct Woff2Header {
    pub flavor: u32,
    pub length: u32,
    pub num_tables: u16,
    pub total_sfnt_size: u32,
    pub total_compressed_size: u32,
    pub major_version: u16,
    pub minor_version: u16,
}

/// The well-known tag with index `i` (0 to 62).
pub open spec fn known_tag(i: u8) -> u32 {
    match i {
        0 => 0x636D6170,  // cmap
        1 => 0x68656164,  // head
        2 => 0x68686561,  // hhea
        3 => 0x686D7478,  // hmtx
        4 => 0x6D617870,  // maxp
        5 => 0x6E616D65,  // name
        6 => 0x4F532F32,  // OS/2
        7 => 0x706F7374,  // post
        8 => 0x63767420,  // cvt 
        9 => 0x6670676D,  // fpgm
        10 => 0x676C7966,  // glyf
        11 => 0x6C6F6361,  // loca
        12 => 0x70726570,  // prep
        13 => 0x43464620,  // CFF 
        14 => 0x564F5247,  // VORG
        15 => 0x45424454,  // EBDT
        16 => 0x45424C43,  // EBLC
        17 => 0x67617370,  // gasp
        18 => 0x68646D78,  // hdmx
        19 => 0x6B65726E,  // kern
        20 => 0x4C545348,  // LTSH
        21 => 0x50434C54,  // PCLT
        22 => 0x56444D58,  // VDMX
        23 => 0x76686561,  // vhea
        24 => 0x766D7478,  // vmtx
        25 => 0x42415345,  // BASE
        26 => 0x47444546,  // GDEF
        27 => 0x47504F53,  // GPOS
        28 => 0x47535542,  // GSUB
        29 => 0x45425343,  // EBSC
        30 => 0x4A535446,  // JSTF
        31 => 0x4D415448,  // MATH
        32 => 0x43424454,  // CBDT
        33 => 0x43424C43,  // CBLC
        34 => 0x434F4C52,  // COLR
        35 => 0x4350414C,  // CPAL
        36 => 0x53564720,  // SVG 
        37 => 0x73626978,  // sbix
        38 => 0x61636E74,  // acnt
        39 => 0x61766172,  // avar
        40 => 0x62646174,  // bdat
        41 => 0x626C6F63,  // bloc
        42 => 0x62736C6E,  // bsln
        43 => 0x63766172,  // cvar
        44 => 0x66647363,  // fdsc
        45 => 0x66656174,  // feat
        46 => 0x666D7478,  // fmtx
        47 => 0x66766172,  // fvar
        48 => 0x67766172,  // gvar
        49 => 0x68737479,  // hsty
        50 => 0x6A757374,  // just
        51 => 0x6C636172,  // lcar
        52 => 0x6D6F7274,  // mort
        53 => 0x6D6F7278,  // morx
        54 => 0x6F706264,  // opbd
        55 => 0x70726F70,  // prop
        56 => 0x7472616B,  // trak
        57 => 0x5A617066,  // Zapf
        58 => 0x53696C66,  // Silf
        59 => 0x476C6174,  // Glat
        60 => 0x476C6F63,  // Gloc
        61 => 0x46656174,  // Feat
        62 => 0x53696C6C,  // Sill
        _ => 0,
    }
}

/// The well-known tag with index `i`.
pub fn known_tag_at(i: u8) -> (r: u32)
    requires
        i < 63,
    ensures
        r == known_tag(i),
{
    match i {
        0 => 0x636D6170,
        1 => 0x68656164,
        2 => 0x68686561,
        3 => 0x686D7478,
        4 => 0x6D617870,
        5 => 0x6E616D65,
        6 => 0x4F532F32,
        7 => 0x706F7374,
        8 => 0x63767420,
        9 => 0x6670676D,
        10 => 0x676C7966,
        11 => 0x6C6F6361,
        12 => 0x70726570,
        13 => 0x43464620,
        14 => 0x564F5247,
        15 => 0x45424454,
        16 => 0x45424C43,
        17 => 0x67617370,
        18 => 0x68646D78,
        19 => 0x6B65726E,
        20 => 0x4C545348,
        21 => 0x50434C54,
        22 => 0x56444D58,
        23 => 0x76686561,
        24 => 0x766D7478,
        25 => 0x42415345,
        26 => 0x47444546,
        27 => 0x47504F53,
        28 => 0x47535542,
        29 => 0x45425343,
        30 => 0x4A535446,
        31 => 0x4D415448,
        32 => 0x43424454,
        33 => 0x43424C43,
        34 => 0x434F4C52,
        35 => 0x4350414C,
        36 => 0x53564720,
        37 => 0x73626978,
        38 => 0x61636E74,
        39 => 0x61766172,
        40 => 0x62646174,
        41 => 0x626C6F63,
        42 => 0x62736C6E,
        43 => 0x63766172,
        44 => 0x66647363,
        45 => 0x66656174,
        46 => 0x666D7478,
        47 => 0x66766172,
        48 => 0x67766172,
        49 => 0x68737479,
        50 => 0x6A757374,
        51 => 0x6C636172,
        52 => 0x6D6F7274,
        53 => 0x6D6F7278,
        54 => 0x6F706264,
        55 => 0x70726F70,
        56 => 0x7472616B,
        57 => 0x5A617066,
        58 => 0x53696C66,
        59 => 0x476C6174,
        60 => 0x476C6F63,
        61 => 0x46656174,
        62 => 0x53696C6C,
        _ => 0,
    }
}

/// The meaning of transform version `version` on a table tagged `tag`: on
/// `glyf` and `loca` version 0 is the glyph transform and any other version
/// is none; on every other tag version 0 is none.
pub open spec fn transform_of(tag: u32, version: u8) -> TransformKind {
    if tag == TAG_GLYF || tag == TAG_LOCA {
        if version == 0 { TransformKind::GlyfLocaTransform } else { TransformKind::Untransformed }
    } else if version == 0 {
        TransformKind::Untransformed
    } else {
        TransformKind::GenericTransform(version)
    }
}

/// Classifies transform version `version` for a table tagged `tag`.
pub fn classify_transform(tag: u32, version: u8) -> (r: TransformKind)
    ensures
        r == transform_of(tag, version),
{
    if tag == TAG_GLYF || tag == TAG_LOCA {
        if version == 0 { TransformKind::GlyfLocaTransform } else { TransformKind::Untransformed }
    } else if version == 0 {
        TransformKind::Untransformed
    } else {
        TransformKind::GenericTransform(version)
    }
}

/// The tag of the entry whose flags byte is at `p`, and the position after it.
pub open spec fn entry_tag_at(s: Seq<u8>, p: int) -> Result<(u32, int), Woff2Error> {
    if s[p] % 64 == 63 {
        if fits(s, p + 1, 4) {
            Ok((be32(s, p + 1) as u32, p + 5))
        } else {
            Err(Woff2Error::TruncatedInput)
        }
    } else {
        Ok((known_tag((s[p] % 64) as u8), p + 1))
    }
}

/// The directory entry at `p`, and the position after it. A transformed
/// table carries a second length; a transformed `loca` must have none.
pub open spec fn entry_at(s: Seq<u8>, p: int) -> Result<(TableEntry, int), Woff2Error> {
    if !fits(s, p, 1) {
        Err(Woff2Error::TruncatedInput)
    } else {
        match entry_tag_at(s, p) {
            Err(e) => Err(e),
            Ok((tag, q)) => match base128_at(s, q) {
                Err(e) => Err(e),
                Ok((orig, q2)) => {
                    let kind = transform_of(tag, (s[p] / 64) as u8);
                    if kind == TransformKind::Untransformed {
                        Ok((TableEntry { tag, transform: kind, orig_length: orig, transform_length: orig }, q2))
                    } else {
                        match base128_at(s, q2) {
                            Err(e) => Err(e),
                            Ok((tl, q3)) => if tag == TAG_LOCA && tl != 0 {
                                Err(Woff2Error::MalformedDirectory)
                            } else {
                                Ok((TableEntry { tag, transform: kind, orig_length: orig, transform_length: tl }, q3))
                            },
                        }
                    }
                },
            },
        }
    }
}

/// The `remaining` entries from `p` on, appended to `acc`, and the position
/// after them; `off` is the sum of the stored lengths so far, which must not
/// pass `limit`.
pub open spec fn entries_from(s: Seq<u8>, p: int, remaining: nat, off: int, limit: int, acc: Seq<TableEntry>)
    -> Result<(Seq<TableEntry>, int), Woff2Error>
    decreases remaining,
{
    if remaining == 0 {
        Ok((acc, p))
    } else {
        match entry_at(s, p) {
            Err(e) => Err(e),
            Ok((e, q)) => if off + e.transform_length > limit {
                Err(Woff2Error::MalformedDirectory)
            } else {
                entries_from(s, q, (remaining - 1) as nat, off + e.transform_length, limit, acc.push(e))
            },
        }
    }
}

/// The header of a WOFF2 file.
pub open spec fn header_of(s: Seq<u8>) -> Result<Woff2Header, Woff2Error> {
    if !has_signature(s) {
        Err(Woff2Error::InvalidSignature)
    } else if s.len() < 48 {
        Err(Woff2Error::TruncatedInput)
    } else if be16(s, 12) == 0 {
        Err(Woff2Error::MalformedDirectory)
    } else {
        Ok(Woff2Header {
            flavor: be32(s, 4) as u32,
            length: be32(s, 8) as u32,
            num_tables: be16(s, 12) as u16,
            total_sfnt_size: be32(s, 16) as u32,
            total_compressed_size: be32(s, 20) as u32,
            major_version: be16(s, 24) as u16,
            minor_version: be16(s, 26) as u16,
        })
    }
}

/// The header and table directory of a WOFF2 file, checked: the stored
/// lengths of the tables must not sum past the total SFNT size, and the
/// compressed data block must fit in what follows the directory.
pub open spec fn container_of(s: Seq<u8>) -> Result<(Woff2Header, Seq<TableEntry>), Woff2Error> {
    match header_of(s) {
        Err(e) => Err(e),
        Ok(h) => match entries_from(s, 48, h.num_tables as nat, 0, h.total_sfnt_size as int, seq![]) {
            Err(e) => Err(e),
            Ok((entries, end)) => if h.total_compressed_size > s.len() - end {
                Err(Woff2Error::TruncatedInput)
            } else {
                Ok((h, entries))
            },
        },
    }
}


/// Reading a directory of `remaining` entries onto `acc` adds exactly that
/// many entries.
pub proof fn lemma_entries_count(s: Seq<u8>, p: int, remaining: nat, off: int, limit: int, acc: Seq<TableEntry>)
    requires
        entries_from(s, p, remaining, off, limit, acc) is Ok,
    ensures
        entries_from(s, p, remaining, off, limit, acc)->Ok_0.0.len() == acc.len() + remaining,
    decreases remaining,
{
    if remaining > 0 {
        let (e, q) = entry_at(s, p)->Ok_0;
        lemma_entries_count(s, q, (remaining - 1) as nat, off + e.transform_length, limit, acc.push(e));
    }
}

/// Reads the directory entry at `pos`.
pub fn read_table_entry(data: &Vec<u8>, pos: usize) -> (r: Result<(TableEntry, usize), Woff2Error>)
    ensures
        r matches Ok((e, q)) ==> entry_at(data@, pos as int) == Ok::<(TableEntry, int), Woff2Error>((e, q as int)),
        r matches Err(e) ==> entry_at(data@, pos as int) == Err::<(TableEntry, int), Woff2Error>(e),
{
    if pos >= data.len() {
        return Err(Woff2Error::TruncatedInput);
    }
    let flags = data[pos];
    let index = flags % 64;
    let (tag, q) = if index == CUSTOM_TAG_INDEX {
        match read_u32(data, pos + 1) {
            Ok((t, q)) => (t, q),
            Err(e) => { return Err(e); },
        }
    } else {
        (known_tag_at(index), pos + 1)
    };
    let (orig, q2) = match read_uint_base128(data, q) {
        Ok(v) => v,
        Err(e) => { return Err(e); },
    };
    let kind = classify_transform(tag, flags / 64);
    if kind == TransformKind::Untransformed {
        return Ok((TableEntry { tag, transform: kind, orig_length: orig, transform_length: orig }, q2));
    }
    let (tl, q3) = match read_uint_base128(data, q2) {
        Ok(v) => v,
        Err(e) => { return Err(e); },
    };
    if tag == TAG_LOCA && tl != 0 {
        return Err(Woff2Error::MalformedDirectory);
    }
    Ok((TableEntry { tag, transform: kind, orig_length: orig, transform_length: tl }, q3))
}

/// Reads `count` directory entries starting at `pos`, whose stored lengths
/// must not sum past `limit`.
pub fn parse_directory(data: &Vec<u8>, pos: usize, count: u16, limit: u32) -> (r: Result<(Vec<TableEntry>, usize), Woff2Error>)
    ensures
        r matches Ok((v, q)) ==> entries_from(data@, pos as int, count as nat, 0, limit as int, seq![])
            == Ok::<(Seq<TableEntry>, int), Woff2Error>((v@, q as int)),
        r matches Err(e) ==> entries_from(data@, pos as int, count as nat, 0, limit as int, seq![])
            == Err::<(Seq<TableEntry>, int), Woff2Error>(e),
{
    let mut entries: Vec<TableEntry> = Vec::new();
    let mut p: usize = pos;
    let mut off: u32 = 0;
    let mut i: u16 = 0;
    while i < count
        invariant
            i <= count,
            off <= limit,
            entries_from(data@, pos as int, count as nat, 0, limit as int, seq![])
                == entries_from(data@, p as int, (count - i) as nat, off as int, limit as int, entries@),
        decreases count - i,
    {
        let (e, q) = match read_table_entry(data, p) {
            Ok(v) => v,
            Err(err) => { return Err(err); },
        };
        if e.transform_length > limit - off {
            return Err(Woff2Error::MalformedDirectory);
        }
        off = off + e.transform_length;
        entries.push(e);
        p = q;
        i = i + 1;
    }
    Ok((entries, p))
}

/// Reads the fixed WOFF2 header.
pub fn parse_header(data: &Vec<u8>) -> (r: Result<Woff2Header, Woff2Error>)
    ensures
        r == header_of(data@),
{
    if !(data.len() >= 4 && data[0] == 0x77 && data[1] == 0x4F && data[2] == 0x46 && data[3] == 0x32) {
        return Err(Woff2Error::InvalidSignature);
    }
    if data.len() < HEADER_SIZE {
        return Err(Woff2Error::TruncatedInput);
    }
    let (flavor, _) = read_u32(data, 4).unwrap();
    let (length, _) = read_u32(data, 8).unwrap();
    let (num_tables, _) = read_u16(data, 12).unwrap();
    let (total_sfnt_size, _) = read_u32(data, 16).unwrap();
    let (total_compressed_size, _) = read_u32(data, 20).unwrap();
    let (major_version, _) = read_u16(data, 24).unwrap();
    let (minor_version, _) = read_u16(data, 26).unwrap();
    if num_tables == 0 {
        return Err(Woff2Error::MalformedDirectory);
    }
    Ok(Woff2Header {
        flavor,
        length,
        num_tables,
        total_sfnt_size,
        total_compressed_size,
        major_version,
        minor_version,
    })
}

/// Reads and checks the header and the table directory.
pub fn parse_container(data: &Vec<u8>) -> (r: Result<(Woff2Header, Vec<TableEntry>), Woff2Error>)
    ensures
        r matches Ok((h, v)) ==> container_of(data@) == Ok::<(Woff2Header, Seq<TableEntry>), Woff2Error>((h, v@)),
        r matches Err(e) ==> container_of(data@) == Err::<(Woff2Header, Seq<TableEntry>), Woff2Error>(e),
{
    let header = match parse_header(data) {
        Ok(h) => h,
        Err(e) => { return Err(e); },
    };
    let (entries, end) = match parse_directory(data, HEADER_SIZE, header.num_tables, header.total_sfnt_size) {
        Ok(v) => v,
        Err(e) => { return Err(e); },
    };
    if end > data.len() || header.total_compressed_size as usize > data.len() - end {
        return Err(Woff2Error::TruncatedInput);
    }
    Ok((header, entries))
}

} // verus!
