use vstd::prelude::*;

use crate::error::{FailReason, ParsingError};

verus! {

/// Byte order of every multi-byte field of a TIFF stream.
#[derive(Clone, Copy, Debug, PartialEq, Eq, Structural)]
pub enum Endian {
    Little,
    Big,
}

/// The first eight bytes of a TIFF stream.
#[derive(Clone, Copy, Debug, PartialEq, Eq, Structural)]
pub struct TiffHeader {
    pub endian: Endian,
    pub ifd0_offset: u32,
}

/// Value of the two bytes `d[i]`, `d[i + 1]` in the given byte order.
pub open spec fn u16_at(d: Seq<u8>, i: int, e: Endian) -> int {
    match e {
        Endian::Little => d[i] as int + 256 * d[i + 1] as int,
        Endian::Big => 256 * d[i] as int + d[i + 1] as int,
    }
}

/// Value of the four bytes `d[i..i + 4]` in the given byte order.
pub open spec fn u32_at(d: Seq<u8>, i: int, e: Endian) -> int {
    match e {
        Endian::Little => u16_at(d, i, e) + 65536 * u16_at(d, i + 2, e),
        Endian::Big => 65536 * u16_at(d, i, e) + u16_at(d, i + 2, e),
    }
}

/// The byte order named by a marker, if it is one.
pub open spec fn endian_of_marker(b0: u8, b1: u8) -> Option<Endian> {
    if b0 == 0x49u8 && b1 == 0x49u8 {
        Some(Endian::Little)
    } else if b0 == 0x4du8 && b1 == 0x4du8 {
        Some(Endian::Big)
    } else {
        None
    }
}

/// What parsing a header out of `d` gives.
pub open spec fn header_spec(d: Seq<u8>) -> Result<TiffHeader, ParsingError> {
    if d.len() < 8 {
        Err(ParsingError::Need((8 - d.len()) as usize))
    } else {
        match endian_of_marker(d[0], d[1]) {
            None => Err(ParsingError::Failed(FailReason::BadByteOrder)),
            Some(e) => if u16_at(d, 2, e) != 42 {
                Err(ParsingError::Failed(FailReason::BadMagic))
            } else {
                Ok(TiffHeader { endian: e, ifd0_offset: u32_at(d, 4, e) as u32 })
            },
        }
    }
}

/// Reads a two-byte unsigned integer.
pub fn read_u16(d: &[u8], i: usize, e: Endian) -> (r: u16)
    requires
        i + 2 <= d@.len(),
    ensures
        r as int == u16_at(d@, i as int, e),
{
    let n = d.len();
    let a = d[i] as u16;
    let b = d[i + 1] as u16;
    match e {
        Endian::Little => a + 256 * b,
        Endian::Big => 256 * a + b,
    }
}

/// Reads a four-byte unsigned integer.
pub fn read_u32(d: &[u8], i: usize, e: Endian) -> (r: u32)
    requires
        i + 4 <= d@.len(),
    ensures
        r as int == u32_at(d@, i as int, e),
{
    let n = d.len();
    let a = read_u16(d, i, e) as u32;
    let b = read_u16(d, i + 2, e) as u32;
    match e {
        Endian::Little => a + 65536 * b,
        Endian::Big => 65536 * a + b,
    }
}

impl TiffHeader {
    /// Parses the byte-order marker, the magic number and the offset of the
    /// first directory from the start of `d`.
    pub fn parse(d: &[u8]) -> (r: Result<TiffHeader, ParsingError>)
        ensures
            r == header_spec(d@),
    {
        if d.len() < 8 {
            return Err(ParsingError::Need(8 - d.len()));
        }
        let e = if d[0] == 0x49u8 && d[1] == 0x49u8 {
            Endian::Little
        } else if d[0] == 0x4du8 && d[1] == 0x4du8 {
            Endian::Big
        } else {
            return Err(ParsingError::Failed(FailReason::BadByteOrder));
        };
        if read_u16(d, 2, e) != 42 {
            return Err(ParsingError::Failed(FailReason::BadMagic));
        }
        Ok(TiffHeader { endian: e, ifd0_offset: read_u32(d, 4, e) })
    }
}

} // verus!
