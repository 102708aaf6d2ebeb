//! Decoding of WOFF2 font containers into SFNT (TrueType / OpenType) bytes.
//!
//! The container's header and table directory are read and checked by
//! verified code; the entropy stage and the table reconstruction are done by
//! the `woofwoof` decoder, and its output is checked before it is returned.
pub mod error;
pub mod reader;
pub mod directory;
pub mod sfnt;
pub mod converter;

pub use converter::convert_woff2_to_ttf;
pub use error::Woff2Error;
