//! Bounds-checked big-endian and variable-length reads over a byte buffer.
//!
//! Each read takes the buffer and a cursor position and returns the value
//! together with the position just past it.
use vstd::prelude::*;
use crate::error::Woff2Error;

verus! {

/// The big-endian 16-bit value at `p`.
pub open spec fn be16(s: Seq<u8>, p: int) -> int {
    s[p] as int * 0x100 + s[p + 1] as int
}

/// The big-endian 32-bit value at `p`.
pub open spec fn be32(s: Seq<u8>, p: int) -> int {
    s[p] as int * 0x1000000 + s[p + 1] as int * 0x10000 + s[p + 2] as int * 0x100 + s[p + 3] as int
}

/// Reading `n` bytes at `p` stays inside the buffer.
pub open spec fn fits(s: Seq<u8>, p: int, n: int) -> bool {
    0 <= p && p + n <= s.len()
}

/// A UIntBase128 value read from byte `i` of the encoding at `p` on, with
/// `acc` the value of the bytes before it: seven data bits per byte, high bit
/// set on every byte but the last, at most five bytes, no leading zero byte,
/// and no value above 32 bits.
pub open spec fn base128_from(s: Seq<u8>, p: int, i: int, acc: int) -> Result<(u32, int), Woff2Error>
    decreases 5 - i,
{
    if i < 0 || i >= 5 {
        Err(Woff2Error::MalformedDirectory)
    } else if p + i >= s.len() {
        Err(Woff2Error::TruncatedInput)
    } else if i == 0 && s[p] == 0x80 {
        Err(Woff2Error::MalformedDirectory)
    } else if acc >= 0x2000000 {
        Err(Woff2Error::MalformedDirectory)
    } else {
        let b = s[p + i];
        let next = acc * 128 + (b as int % 128);
        if b < 128 {
            Ok((next as u32, p + i + 1))
        } else {
            base128_from(s, p, i + 1, next)
        }
    }
}

/// The UIntBase128 value at `p` and the position after it.
pub open spec fn base128_at(s: Seq<u8>, p: int) -> Result<(u32, int), Woff2Error> {
    base128_from(s, p, 0, 0)
}

/// The 255UShort value at `p` and the position after it: 253 announces a
/// 16-bit word, 255 a byte plus 253, 254 a byte plus 506; any other lead byte
/// is the value itself.
pub open spec fn ushort255_at(s: Seq<u8>, p: int) -> Result<(u16, int), Woff2Error> {
    if !fits(s, p, 1) {
        Err(Woff2Error::TruncatedInput)
    } else if s[p] == 253 {
        if fits(s, p + 1, 2) {
            Ok((be16(s, p + 1) as u16, p + 3))
        } else {
            Err(Woff2Error::TruncatedInput)
        }
    } else if s[p] == 255 {
        if fits(s, p + 1, 1) {
            Ok((((s[p + 1] as int) + 253) as u16, p + 2))
        } else {
            Err(Woff2Error::TruncatedInput)
        }
    } else if s[p] == 254 {
        if fits(s, p + 1, 1) {
            Ok((((s[p + 1] as int) + 506) as u16, p + 2))
        } else {
            Err(Woff2Error::TruncatedInput)
        }
    } else {
        Ok((s[p] as u16, p + 1))
    }
}

/// Reads one byte.
pub fn read_u8(data: &Vec<u8>, pos: usize) -> (r: Result<(u8, usize), Woff2Error>)
    ensures
        fits(data@, pos as int, 1) ==> r == Ok::<(u8, usize), Woff2Error>((data@[pos as int], (pos + 1) as usize)),
        !fits(data@, pos as int, 1) ==> r == Err::<(u8, usize), Woff2Error>(Woff2Error::TruncatedInput),
{
    if pos < data.len() {
        Ok((data[pos], pos + 1))
    } else {
        Err(Woff2Error::TruncatedInput)
    }
}

/// Reads a big-endian 16-bit value.
pub fn read_u16(data: &Vec<u8>, pos: usize) -> (r: Result<(u16, usize), Woff2Error>)
    ensures
        fits(data@, pos as int, 2) ==> (r matches Ok((v, q)) && v == be16(data@, pos as int) && q == pos + 2),
        !fits(data@, pos as int, 2) ==> r == Err::<(u16, usize), Woff2Error>(Woff2Error::TruncatedInput),
{
    if pos < data.len() && data.len() - pos >= 2 {
        let v: u16 = (data[pos] as u16) * 0x100 + data[pos + 1] as u16;
        Ok((v, pos + 2))
    } else {
        Err(Woff2Error::TruncatedInput)
    }
}

/// Reads a big-endian 32-bit value.
pub fn read_u32(data: &Vec<u8>, pos: usize) -> (r: Result<(u32, usize), Woff2Error>)
    ensures
        fits(data@, pos as int, 4) ==> (r matches Ok((v, q)) && v == be32(data@, pos as int) && q == pos + 4),
        !fits(data@, pos as int, 4) ==> r == Err::<(u32, usize), Woff2Error>(Woff2Error::TruncatedInput),
{
    if pos < data.len() && data.len() - pos >= 4 {
        let v: u32 = (data[pos] as u32) * 0x1000000 + (data[pos + 1] as u32) * 0x10000
            + (data[pos + 2] as u32) * 0x100 + data[pos + 3] as u32;
        Ok((v, pos + 4))
    } else {
        Err(Woff2Error::TruncatedInput)
    }
}

/// Reads a UIntBase128 value.
pub fn read_uint_base128(data: &Vec<u8>, pos: usize) -> (r: Result<(u32, usize), Woff2Error>)
    ensures
        r matches Ok((v, q)) ==> base128_at(data@, pos as int) == Ok::<(u32, int), Woff2Error>((v, q as int)),
        r matches Err(e) ==> base128_at(data@, pos as int) == Err::<(u32, int), Woff2Error>(e),
{
    let mut acc: u32 = 0;
    let mut i: usize = 0;
    while i < 5
        invariant
            i <= 5,
            base128_at(data@, pos as int) == base128_from(data@, pos as int, i as int, acc as int),
        decreases 5 - i,
    {
        if pos >= data.len() || data.len() - pos <= i {
            return Err(Woff2Error::TruncatedInput);
        }
        let b = data[pos + i];
        if i == 0 && b == 0x80 {
            return Err(Woff2Error::MalformedDirectory);
        }
        if acc >= 0x2000000 {
            return Err(Woff2Error::MalformedDirectory);
        }
        acc = acc * 128 + (b % 128) as u32;
        if b < 128 {
            return Ok((acc, pos + i + 1));
        }
        i = i + 1;
    }
    Err(Woff2Error::MalformedDirectory)
}

/// Reads a 255UShort value.
pub fn read_255ushort(data: &Vec<u8>, pos: usize) -> (r: Result<(u16, usize), Woff2Error>)
    ensures
        r matches Ok((v, q)) ==> ushort255_at(data@, pos as int) == Ok::<(u16, int), Woff2Error>((v, q as int)),
        r matches Err(e) ==> ushort255_at(data@, pos as int) == Err::<(u16, int), Woff2Error>(e),
{
    if pos >= data.len() {
        return Err(Woff2Error::TruncatedInput);
    }
    let code = data[pos];
    let p = pos + 1;
    if code == 253 {
        if p >= data.len() || data.len() - p < 2 {
            return Err(Woff2Error::TruncatedInput);
        }
        let w: u16 = (data[p] as u16) * 0x100 + data[p + 1] as u16;
        Ok((w, p + 2))
    } else if code == 255 || code == 254 {
        if p >= data.len() {
            return Err(Woff2Error::TruncatedInput);
        }
        let bias: u16 = if code == 255 { 253 } else { 506 };
        Ok(((data[p] as u16) + bias, p + 1))
    } else {
        Ok((code as u16, p))
    }
}

} // verus!
