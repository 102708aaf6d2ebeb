use vstd::prelude::*;

verus! {

/// Why a conversion failed. The first inconsistency found is reported.
#[derive(Debug, Clone, Copy, PartialEq, Eq, Structural)]
pub enum Woff2Error {
    /// The input holds no bytes at all.
    EmptyInput,
    /// The input does not start with the bytes `wOF2`.
    InvalidSignature,
    /// The table directory is inconsistent (bad flags, bad variable-length
    /// integer, a transformed `loca` with data, or an offset overflow).
    MalformedDirectory,
    /// A read went past the end of the input.
    TruncatedInput,
    /// The decoder failed (entropy stage, table reconstruction or layout), or
    /// its output is not a sound SFNT file that matches the directory.
    DecompressionError,
}

impl Woff2Error {
    /// A short description of the error.
    pub fn message(&self) -> (r: String) {
        match self {
            Woff2Error::EmptyInput => String::from_str("empty WOFF2 data"),
            Woff2Error::InvalidSignature => String::from_str("invalid WOFF2 signature"),
            Woff2Error::MalformedDirectory => String::from_str("malformed WOFF2 table directory"),
            Woff2Error::TruncatedInput => String::from_str("truncated WOFF2 data"),
            Woff2Error::DecompressionError => String::from_str("WOFF2 decode failed"),
        }
    }
}

} // verus!
