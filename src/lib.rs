//! Decoding of Exif/TIFF metadata: the TIFF header, the image file
//! directories and their entries, a lazy entry iterator, an eager tag map and
//! GPS coordinates.

pub mod error;
pub mod tiff;

pub use error::{EntryError, Error, FailReason, ParsingError, ParsingState};
pub use tiff::{Endian, TiffHeader};
pub mod tags;
pub mod values;

pub use tags::ExifTag;
pub use values::{EntryValue, IRational, URational};
pub mod iter;

pub use iter::{ExifIter, ParsedExifEntry};
pub mod exif_map;

pub use exif_map::Exif;
pub mod gps;

pub use gps::{GPSInfo, LatLng};
pub mod iso6709;
pub mod exif;

pub use exif::{detect_mime, parse_exif, parse_exif_iter, FileFormat, MimeImage, ParseStep};
pub mod laws;
