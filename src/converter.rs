//! Conversion of a WOFF2 file into the SFNT file it packs.
use vstd::prelude::*;
use crate::directory::{container_of, has_signature, lemma_entries_count, parse_container};
use crate::error::Woff2Error;
use crate::sfnt::{check_sfnt, sfnt_ok};

verus! {

/// The SFNT file that the `woofwoof` decoder makes of a WOFF2 file, if it
/// decodes one.
pub uninterp spec fn woff2_decoded(data: Seq<u8>) -> Option<Seq<u8>>;

/// Relies on `woofwoof::decompress`: a deterministic decode of its input
/// (Brotli inflation, table reconstruction, SFNT assembly), `None` when it
/// fails.
#[verifier::external_body]
fn decode_woff2(data: &Vec<u8>) -> (r: Option<Vec<u8>>)
    ensures
        r matches Some(v) ==> woff2_decoded(data@) == Some(v@),
        r is None ==> woff2_decoded(data@) is None,
{
    woofwoof::decompress(data.as_slice())
}

/// What is handed back for the decoder's result on a file whose directory
/// lists `num_tables` tables: its output only if it is a TrueType or CFF
/// SFNT file with that many sound table records.
pub open spec fn accepted(decoded: Option<Seq<u8>>, num_tables: u16) -> Result<Seq<u8>, Woff2Error> {
    match decoded {
        None => Err(Woff2Error::DecompressionError),
        Some(out) => if sfnt_ok(out, num_tables) {
            Ok(out)
        } else {
            Err(Woff2Error::DecompressionError)
        },
    }
}

/// The result of converting `data`.
pub open spec fn converted(data: Seq<u8>) -> Result<Seq<u8>, Woff2Error> {
    if data.len() == 0 {
        Err(Woff2Error::EmptyInput)
    } else {
        match container_of(data) {
            Err(e) => Err(e),
            Ok((h, _)) => accepted(woff2_decoded(data), h.num_tables),
        }
    }
}

/// The view of a conversion result.
pub open spec fn result_view(r: Result<Vec<u8>, Woff2Error>) -> Result<Seq<u8>, Woff2Error> {
    match r {
        Ok(v) => Ok(v@),
        Err(e) => Err(e),
    }
}

/// Checks the decoder's result for a file whose directory lists `num_tables`
/// tables.
pub fn accept_decoded(decoded: Option<Vec<u8>>, num_tables: u16) -> (r: Result<Vec<u8>, Woff2Error>)
    ensures
        result_view(r) == accepted(
            match decoded { Some(v) => Some(v@), None => None },
            num_tables,
        ),
{
    match decoded {
        None => Err(Woff2Error::DecompressionError),
        Some(out) => if check_sfnt(&out, num_tables) {
            Ok(out)
        } else {
            Err(Woff2Error::DecompressionError)
        },
    }
}

/// Converts WOFF2 bytes into the TrueType / OpenType bytes they pack.
pub fn convert_woff2_to_ttf(woff2_data: Vec<u8>) -> (r: Result<Vec<u8>, Woff2Error>)
    ensures
        result_view(r) == converted(woff2_data@),
        woff2_data@.len() == 0 ==> r == Err::<Vec<u8>, Woff2Error>(Woff2Error::EmptyInput),
        woff2_data@.len() > 0 && !has_signature(woff2_data@)
            ==> r == Err::<Vec<u8>, Woff2Error>(Woff2Error::InvalidSignature),
{
    if woff2_data.len() == 0 {
        return Err(Woff2Error::EmptyInput);
    }
    let (header, _entries) = match parse_container(&woff2_data) {
        Ok(v) => v,
        Err(e) => { return Err(e); },
    };
    let decoded = decode_woff2(&woff2_data);
    accept_decoded(decoded, header.num_tables)
}

/// Every successful conversion yields an SFNT file that starts with the
/// TrueType or CFF version tag, followed by a table count equal to the number
/// of entries in the input's table directory, whose table records are sound
/// and whose checksums are right.
pub proof fn lemma_output_is_sfnt(data: Seq<u8>, out: Seq<u8>)
    requires
        converted(data) == Ok::<Seq<u8>, Woff2Error>(out),
    ensures
        container_of(data) is Ok,
        sfnt_ok(out, container_of(data)->Ok_0.0.num_tables),
        crate::reader::be16(out, 4) == container_of(data)->Ok_0.1.len(),
{
    let h = crate::directory::header_of(data)->Ok_0;
    lemma_entries_count(data, 48, h.num_tables as nat, 0, h.total_sfnt_size as int, seq![]);
}

/// Input without the `wOF2` signature is refused as such, whatever follows;
/// empty input is refused as empty.
pub proof fn lemma_bad_signature_refused(data: Seq<u8>)
    ensures
        data.len() == 0 ==> converted(data) == Err::<Seq<u8>, Woff2Error>(Woff2Error::EmptyInput),
        data.len() > 0 && !has_signature(data)
            ==> converted(data) == Err::<Seq<u8>, Woff2Error>(Woff2Error::InvalidSignature),
{
}


/// Input that carries the signature but ends before the 48-byte header does
/// is refused as truncated.
pub proof fn lemma_short_header_truncated(data: Seq<u8>)
    requires
        has_signature(data),
        data.len() < 48,
    ensures
        converted(data) == Err::<Seq<u8>, Woff2Error>(Woff2Error::TruncatedInput),
{
}

} // verus!
