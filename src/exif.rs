use vstd::prelude::*;

use crate::error::{Error, FailReason, ParsingError, ParsingState};
use crate::iter::{start_view, ExifIter, IterView};
use crate::tiff::{header_spec, read_u16, u16_at, TiffHeader};
use crate::values::copy_range;

verus! {

/// Image containers that can hold Exif data.
#[derive(Clone, Copy, Debug, PartialEq, Eq, Structural)]
pub enum MimeImage {
    Jpeg,
    Heic,
    Heif,
    Tiff,
}

/// A container format hint; parsing detects the format from the data and
/// does not read it.
#[derive(Clone, Copy, Debug, PartialEq, Eq, Structural)]
pub enum FileFormat {
    Jpeg,
    Heif,
}

/// The header, the offset of `d[0]` in the TIFF data and the buffer index of
/// IFD0 that parsing `d` under the checkpoint finds.
pub open spec fn locate_spec(d: Seq<u8>, state: Option<ParsingState>) -> Result<(TiffHeader, int, int), ParsingError> {
    match state {
        Some(ParsingState::TiffHeader(h)) => Ok((h, h.ifd0_offset as int, 0)),
        None => match header_spec(d) {
            Err(e) => Err(e),
            Ok(h) => if h.ifd0_offset > d.len() {
                Err(ParsingError::ClearAndSkip(h.ifd0_offset as usize, Some(ParsingState::TiffHeader(h))))
            } else {
                Ok((h, 0, h.ifd0_offset as int))
            },
        },
    }
}

/// What building an iterator over `d` under the checkpoint gives.
pub open spec fn input_spec(d: Seq<u8>, state: Option<ParsingState>) -> Result<IterView, ParsingError> {
    match locate_spec(d, state) {
        Err(e) => Err(e),
        Ok((h, base, pos)) => match start_view(d, base, h, pos) {
            Some(v) => Ok(v),
            None => Err(ParsingError::Failed(FailReason::BadDirectory)),
        },
    }
}

/// The application error for a parse error.
pub open spec fn error_spec(e: ParsingError) -> Error {
    match e {
        ParsingError::Need(_) => Error::NoEnoughBytes,
        ParsingError::ClearAndSkip(_, _) => Error::Failed(FailReason::UnexpectedSkip),
        ParsingError::Failed(v) => Error::Failed(v),
    }
}

/// What the extraction of TIFF data from `d` gives: the range of `d` that
/// holds it once IFD0's entry table is all there, or how many more bytes are
/// needed for that.
pub open spec fn tiff_extract_spec(d: Seq<u8>, state: Option<ParsingState>) -> Result<Option<(usize, usize)>, ParsingError> {
    match locate_spec(d, state) {
        Err(e) => Err(e),
        Ok((h, base, pos)) => if pos + 2 > d.len() {
            Err(ParsingError::Need((pos + 2 - d.len()) as usize))
        } else if pos + 2 + 12 * u16_at(d, pos, h.endian) > d.len() {
            Err(ParsingError::Need((pos + 2 + 12 * u16_at(d, pos, h.endian) - d.len()) as usize))
        } else {
            Ok(Some((0usize, d.len() as usize)))
        },
    }
}

/// Whether the segment at `p` is an APP1 segment of Exif data.
pub open spec fn is_exif_app1(d: Seq<u8>, p: int) -> bool {
    &&& d[p + 1] == 0xe1u8
    &&& d[p + 4] == 0x45u8
    &&& d[p + 5] == 0x78u8
    &&& d[p + 6] == 0x69u8
    &&& d[p + 7] == 0x66u8
    &&& d[p + 8] == 0u8
    &&& d[p + 9] == 0u8
}

/// The walk over the JPEG segments from buffer index `p` on: the range of
/// the TIFF data of the first Exif APP1 segment, `None` once the image data
/// or the end of the image is reached first, or how many more bytes are
/// needed to see the next segment whole.
pub open spec fn jpeg_scan(d: Seq<u8>, p: int) -> Result<Option<(usize, usize)>, ParsingError>
    decreases d.len() - p,
{
    if p < 0 || p + 4 > d.len() {
        Err(ParsingError::Need((p + 4 - d.len()) as usize))
    } else if d[p] != 0xffu8 {
        Err(ParsingError::Failed(FailReason::BadJpeg))
    } else if d[p + 1] == 0xd9u8 || d[p + 1] == 0xdau8 {
        Ok(None)
    } else {
        let l = 256 * d[p + 2] + d[p + 3];
        if l < 2 {
            Err(ParsingError::Failed(FailReason::BadJpeg))
        } else if p + 2 + l > d.len() {
            Err(ParsingError::Need((p + 2 + l - d.len()) as usize))
        } else if l >= 8 && is_exif_app1(d, p) {
            Ok(Some(((p + 10) as usize, (p + 2 + l) as usize)))
        } else {
            jpeg_scan(d, p + 2 + l)
        }
    }
}

/// What extraction of the Exif data of a JPEG image gives.
pub open spec fn jpeg_extract_spec(d: Seq<u8>) -> Result<Option<(usize, usize)>, ParsingError> {
    if d.len() < 2 {
        Err(ParsingError::Need((2 - d.len()) as usize))
    } else if d[0] != 0xffu8 || d[1] != 0xd8u8 {
        Err(ParsingError::Failed(FailReason::BadJpeg))
    } else {
        jpeg_scan(d, 2)
    }
}

/// What extraction of the Exif data of an image of the given type gives.
pub open spec fn extract_spec(img_type: MimeImage, d: Seq<u8>, state: Option<ParsingState>) -> Result<
    Option<(usize, usize)>,
    ParsingError,
> {
    match img_type {
        MimeImage::Tiff => tiff_extract_spec(d, state),
        MimeImage::Jpeg => jpeg_extract_spec(d),
        _ => Err(ParsingError::Failed(FailReason::UnsupportedFormat)),
    }
}

fn jpeg_extract(d: &[u8]) -> (r: Result<Option<(usize, usize)>, ParsingError>)
    ensures
        r == jpeg_extract_spec(d@),
{
    let len = d.len();
    if len < 2 {
        return Err(ParsingError::Need(2 - len));
    }
    if d[0] != 0xffu8 || d[1] != 0xd8u8 {
        return Err(ParsingError::Failed(FailReason::BadJpeg));
    }
    let mut p: usize = 2;
    while p <= len && len - p >= 4
        invariant
            len == d@.len(),
            2 <= p <= len,
            jpeg_scan(d@, p as int) == jpeg_extract_spec(d@),
        decreases len - p,
    {
        if d[p] != 0xffu8 {
            return Err(ParsingError::Failed(FailReason::BadJpeg));
        }
        if d[p + 1] == 0xd9u8 || d[p + 1] == 0xdau8 {
            return Ok(None);
        }
        let l = 256 * (d[p + 2] as usize) + d[p + 3] as usize;
        proof {
            assert(l == 256 * d@[p + 2] + d@[p + 3]);
        }
        if l < 2 {
            return Err(ParsingError::Failed(FailReason::BadJpeg));
        }
        if l > len - p - 2 {
            return Err(ParsingError::Need(l - (len - p - 2)));
        }
        if l >= 8 && d[p + 1] == 0xe1u8 && d[p + 4] == 0x45u8 && d[p + 5] == 0x78u8 && d[p + 6] == 0x69u8
            && d[p + 7] == 0x66u8 && d[p + 8] == 0u8 && d[p + 9] == 0u8 {
            return Ok(Some((p + 10, p + 2 + l)));
        }
        p = p + 2 + l;
    }
    Err(ParsingError::Need(4 - (len - p)))
}

fn locate(d: &[u8], state: Option<ParsingState>) -> (r: Result<(TiffHeader, u32, usize), ParsingError>)
    ensures
        match (r, locate_spec(d@, state)) {
            (Ok((h, base, pos)), Ok((h2, base2, pos2))) => h == h2 && base == base2 && pos == pos2,
            (Err(a), Err(b)) => a == b,
            _ => false,
        },
        r matches Ok((_, _, pos)) ==> pos <= d@.len(),
{
    match state {
        Some(ParsingState::TiffHeader(h)) => Ok((h, h.ifd0_offset, 0)),
        None => {
            let h = TiffHeader::parse(d)?;
            if h.ifd0_offset as usize > d.len() {
                return Err(ParsingError::ClearAndSkip(h.ifd0_offset as usize, Some(ParsingState::TiffHeader(h))));
            }
            Ok((h, 0, h.ifd0_offset as usize))
        },
    }
}

/// Finds the Exif data in an image buffer, as a range of it. TIFF data is
/// its own Exif data: it is returned once IFD0's entry table is all in the
/// buffer, and a request for more bytes, or to skip ahead to IFD0, comes
/// back otherwise. In a JPEG image it is the payload of the first Exif APP1
/// segment. HEIF images are not read here.
pub fn extract_exif_with_mime(img_type: MimeImage, buf: &[u8], state: Option<ParsingState>) -> (r: Result<
    Option<(usize, usize)>,
    ParsingError,
>)
    ensures
        r == extract_spec(img_type, buf@, state),
{
    if img_type == MimeImage::Jpeg {
        return jpeg_extract(buf);
    }
    if img_type != MimeImage::Tiff {
        return Err(ParsingError::Failed(FailReason::UnsupportedFormat));
    }
    let len = buf.len();
    let (h, _base, pos) = locate(buf, state)?;
    if len < 2 || pos > len - 2 {
        return Err(ParsingError::Need(2 - (len - pos)));
    }
    let n = read_u16(buf, pos, h.endian) as usize;
    if 12 * n > len - 2 - pos {
        return Err(ParsingError::Need(12 * n - (len - 2 - pos)));
    }
    Ok(Some((0, len)))
}

/// Builds an iterator over TIFF data: `input` starts at the header, or, with
/// a checkpoint, at IFD0. The time zone is looked up before anything is
/// yielded.
pub fn input_to_iter(input: Vec<u8>, state: Option<ParsingState>) -> (r: Result<ExifIter, ParsingError>)
    ensures
        match (r, input_spec(input@, state)) {
            (Ok(it), Ok(v)) => it.wf() && it@ == v,
            (Err(a), Err(b)) => a == b,
            _ => false,
        },
{
    let (h, base, pos) = locate(input.as_slice(), state)?;
    match ExifIter::try_new(input, base, h, pos as u64) {
        Some(it) => Ok(it),
        None => Err(ParsingError::Failed(FailReason::BadDirectory)),
    }
}

/// Converts a parse error into the application error.
pub fn to_error(e: ParsingError) -> (r: Error)
    ensures
        r == error_spec(e),
{
    match e {
        ParsingError::Need(_) => Error::NoEnoughBytes,
        ParsingError::ClearAndSkip(_, _) => Error::Failed(FailReason::UnexpectedSkip),
        ParsingError::Failed(v) => Error::Failed(v),
    }
}

/// [`input_to_iter`], for a caller that has resolved every request for more
/// bytes or to skip: such a request left over becomes an error.
pub fn input_into_iter(input: Vec<u8>, state: Option<ParsingState>) -> (r: Result<ExifIter, Error>)
    ensures
        match (r, input_spec(input@, state)) {
            (Ok(it), Ok(v)) => it.wf() && it@ == v,
            (Err(a), Err(b)) => a == error_spec(b),
            _ => false,
        },
{
    match input_to_iter(input, state) {
        Ok(it) => Ok(it),
        Err(e) => Err(to_error(e)),
    }
}

/// The container format that the first bytes of `d` name.
pub open spec fn mime_spec(d: Seq<u8>) -> Option<MimeImage> {
    if d.len() >= 4 && ((d[0] == 0x49u8 && d[1] == 0x49u8 && d[2] == 0x2au8 && d[3] == 0u8)
        || (d[0] == 0x4du8 && d[1] == 0x4du8 && d[2] == 0u8 && d[3] == 0x2au8)) {
        Some(MimeImage::Tiff)
    } else if d.len() >= 2 && d[0] == 0xffu8 && d[1] == 0xd8u8 {
        Some(MimeImage::Jpeg)
    } else {
        None
    }
}

/// Detects the container format from the first bytes.
pub fn detect_mime(d: &[u8]) -> (r: Option<MimeImage>)
    ensures
        r == mime_spec(d@),
{
    if d.len() >= 4 && ((d[0] == 0x49u8 && d[1] == 0x49u8 && d[2] == 0x2au8 && d[3] == 0u8)
        || (d[0] == 0x4du8 && d[1] == 0x4du8 && d[2] == 0u8 && d[3] == 0x2au8)) {
        Some(MimeImage::Tiff)
    } else if d.len() >= 2 && d[0] == 0xffu8 && d[1] == 0xd8u8 {
        Some(MimeImage::Jpeg)
    } else {
        None
    }
}

/// What parsing a whole file's bytes gives.
pub open spec fn parse_exif_spec(d: Seq<u8>) -> Result<Option<IterView>, Error> {
    match mime_spec(d) {
        None => Err(Error::Failed(FailReason::UnsupportedFormat)),
        Some(m) => match extract_spec(m, d, None) {
            Err(e) => Err(error_spec(e)),
            Ok(None) => Err(Error::Failed(FailReason::NoExif)),
            Ok(Some((a, b))) => if a <= b <= d.len() {
                match input_spec(d.subrange(a as int, b as int), None) {
                    Ok(v) => Ok(Some(v)),
                    Err(e) => Err(error_spec(e)),
                }
            } else {
                Err(Error::Failed(FailReason::NoExif))
            },
        },
    }
}

/// Reads the Exif data of a whole file's bytes and builds an [`ExifIter`]
/// over it. The format hint is not read.
pub fn parse_exif(data: Vec<u8>, _format: Option<FileFormat>) -> (r: Result<Option<ExifIter>, Error>)
    ensures
        match (r, parse_exif_spec(data@)) {
            (Ok(Some(it)), Ok(Some(v))) => it.wf() && it@ == v,
            (Ok(None), Ok(None)) => true,
            (Err(a), Err(b)) => a == b,
            _ => false,
        },
{
    let mime = match detect_mime(data.as_slice()) {
        Some(m) => m,
        None => return Err(Error::Failed(FailReason::UnsupportedFormat)),
    };
    match extract_exif_with_mime(mime, data.as_slice(), None) {
        Err(e) => Err(to_error(e)),
        Ok(None) => Err(Error::Failed(FailReason::NoExif)),
        Ok(Some((a, b))) => {
            if !(a <= b && b <= data.len()) {
                return Err(Error::Failed(FailReason::NoExif));
            }
            let sub = copy_range(data.as_slice(), a, b);
            match input_into_iter(sub, None) {
                Ok(it) => Ok(Some(it)),
                Err(e) => Err(e),
            }
        },
    }
}

/// What one parse attempt over the buffered bytes asks of the reader.
pub enum ParseStep {
    /// The Exif data was found and decoded.
    Done(ExifIter),
    /// Append this many more bytes and try again with the same checkpoint.
    NeedMore(usize),
    /// Discard the buffer, fill it from this offset of the stream, and try
    /// again with this checkpoint.
    SkipTo(usize, Option<ParsingState>),
    /// The data cannot be decoded.
    Failed(Error),
}

/// Whether a step is the one that the buffer `d` and the checkpoint call for.
pub open spec fn parse_step_spec(img_type: MimeImage, d: Seq<u8>, state: Option<ParsingState>, r: ParseStep) -> bool {
    match extract_spec(img_type, d, state) {
        Err(ParsingError::Need(n)) => r == ParseStep::NeedMore(n),
        Err(ParsingError::ClearAndSkip(o, s)) => r == ParseStep::SkipTo(o, s),
        Err(ParsingError::Failed(v)) => r == ParseStep::Failed(Error::Failed(v)),
        Ok(None) => r == ParseStep::Failed(Error::Failed(FailReason::NoExif)),
        Ok(Some((a, b))) => if a <= b <= d.len() {
            match input_spec(d.subrange(a as int, b as int), state) {
                Ok(v) => r matches ParseStep::Done(it) && it.wf() && it@ == v,
                Err(e) => r == ParseStep::Failed(error_spec(e)),
            }
        } else {
            r == ParseStep::Failed(Error::Failed(FailReason::NoExif))
        },
    }
}

/// One attempt to find and decode the Exif data of an image in the bytes
/// buffered so far: the reader that drives it appends bytes, or skips
/// ahead, as the result asks, and tries again.
pub fn parse_exif_iter(img_type: MimeImage, buf: &[u8], state: Option<ParsingState>) -> (r: ParseStep)
    ensures
        parse_step_spec(img_type, buf@, state, r),
{
    match extract_exif_with_mime(img_type, buf, state) {
        Err(ParsingError::Need(n)) => ParseStep::NeedMore(n),
        Err(ParsingError::ClearAndSkip(o, s)) => ParseStep::SkipTo(o, s),
        Err(ParsingError::Failed(v)) => ParseStep::Failed(Error::Failed(v)),
        Ok(None) => ParseStep::Failed(Error::Failed(FailReason::NoExif)),
        Ok(Some((a, b))) => {
            if !(a <= b && b <= buf.len()) {
                return ParseStep::Failed(Error::Failed(FailReason::NoExif));
            }
            match input_into_iter(copy_range(buf, a, b), state) {
                Ok(it) => ParseStep::Done(it),
                Err(e) => ParseStep::Failed(e),
            }
        },
    }
}

} // verus!
