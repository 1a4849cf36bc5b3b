use vstd::prelude::*;

use crate::tiff::TiffHeader;

verus! {

/// Why a header or a directory could not be decoded.
#[derive(Clone, Copy, Debug, PartialEq, Eq, Structural)]
pub enum FailReason {
    /// The first two bytes are neither `II` nor `MM`.
    BadByteOrder,
    /// The TIFF magic number (42) is missing.
    BadMagic,
    /// The first directory's entry table does not fit in the data.
    BadDirectory,
    /// No Exif data was found in the container.
    NoExif,
    /// The container format is not one that holds Exif data here.
    UnsupportedFormat,
    /// The JPEG segment structure is broken.
    BadJpeg,
    /// A request to skip ahead reached a caller that cannot act on it.
    UnexpectedSkip,
    /// The GPS directory lacks a latitude or longitude, or its reference.
    BadGps,
}

/// A checkpoint that lets parsing resume after the caller refilled its buffer.
#[derive(Clone, Copy, Debug, PartialEq, Eq, Structural)]
pub enum ParsingState {
    /// The header was parsed already; the next buffer starts at the first
    /// directory.
    TiffHeader(TiffHeader),
}

/// The outcome of a parse attempt that did not produce a value.
#[derive(Clone, Copy, Debug, PartialEq, Eq, Structural)]
pub enum ParsingError {
    /// This many more bytes are needed; append them and retry.
    Need(usize),
    /// Discard the buffer, refill it from this offset and retry with the state.
    ClearAndSkip(usize, Option<ParsingState>),
    /// The data cannot be decoded.
    Failed(FailReason),
}

/// The error handed to the application.
#[derive(Clone, Copy, Debug, PartialEq, Eq, Structural)]
pub enum Error {
    NoEnoughBytes,
    Failed(FailReason),
}

/// Why a single directory entry could not be decoded.
#[derive(Clone, Copy, Debug, PartialEq, Eq, Structural)]
pub enum EntryError {
    /// The data type code is not one of the twelve TIFF types.
    UnknownType(u16),
    /// The value lies (partly) outside the data.
    OutOfBounds,
}

} // verus!
