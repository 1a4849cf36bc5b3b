use vstd::prelude::*;

verus! {

/// Which kind of directory an entry was found in: the tag codes of the GPS
/// directory overlap with those of the others.
#[derive(Clone, Copy, Debug, PartialEq, Eq, Structural)]
pub enum DirKind {
    /// IFD0, the main directory.
    Main,
    /// The Exif sub-directory.
    Exif,
    /// The GPS sub-directory.
    Gps,
    /// The interoperability sub-directory.
    Interop,
}

/// Well-known Exif tags, with a fallback for every other code.
#[derive(Clone, Copy, Debug, PartialEq, Eq, Structural)]
pub enum ExifTag {
    ImageWidth,
    ImageHeight,
    Make,
    Model,
    Orientation,
    Software,
    ModifyDate,
    ExposureTime,
    FNumber,
    ExifOffset,
    GpsInfo,
    Iso,
    DateTimeOriginal,
    CreateDate,
    OffsetTime,
    OffsetTimeOriginal,
    OffsetTimeDigitized,
    InteropOffset,
    GpsLatitudeRef,
    GpsLatitude,
    GpsLongitudeRef,
    GpsLongitude,
    GpsAltitudeRef,
    GpsAltitude,
    GpsSpeedRef,
    GpsSpeed,
    Unknown(u16),
}

pub const TAG_EXIF_OFFSET: u16 = 0x8769;
pub const TAG_GPS_INFO: u16 = 0x8825;
pub const TAG_INTEROP_OFFSET: u16 = 0xa005;
pub const TAG_MODIFY_DATE: u16 = 0x0132;
pub const TAG_DATE_TIME_ORIGINAL: u16 = 0x9003;
pub const TAG_CREATE_DATE: u16 = 0x9004;
pub const TAG_OFFSET_TIME: u16 = 0x9010;
pub const TAG_OFFSET_TIME_ORIGINAL: u16 = 0x9011;
pub const TAG_OFFSET_TIME_DIGITIZED: u16 = 0x9012;

/// The tag that a code names inside a directory of the given kind.
pub open spec fn tag_spec(kind: DirKind, code: u16) -> ExifTag {
    if kind == DirKind::Gps {
        if code == 1 {
            ExifTag::GpsLatitudeRef
        } else if code == 2 {
            ExifTag::GpsLatitude
        } else if code == 3 {
            ExifTag::GpsLongitudeRef
        } else if code == 4 {
            ExifTag::GpsLongitude
        } else if code == 5 {
            ExifTag::GpsAltitudeRef
        } else if code == 6 {
            ExifTag::GpsAltitude
        } else if code == 0x0c {
            ExifTag::GpsSpeedRef
        } else if code == 0x0d {
            ExifTag::GpsSpeed
        } else {
            ExifTag::Unknown(code)
        }
    } else if kind == DirKind::Interop {
        ExifTag::Unknown(code)
    } else if code == 0x0100 {
        ExifTag::ImageWidth
    } else if code == 0x0101 {
        ExifTag::ImageHeight
    } else if code == 0x010f {
        ExifTag::Make
    } else if code == 0x0110 {
        ExifTag::Model
    } else if code == 0x0112 {
        ExifTag::Orientation
    } else if code == 0x0131 {
        ExifTag::Software
    } else if code == TAG_MODIFY_DATE {
        ExifTag::ModifyDate
    } else if code == 0x829a {
        ExifTag::ExposureTime
    } else if code == 0x829d {
        ExifTag::FNumber
    } else if code == TAG_EXIF_OFFSET {
        ExifTag::ExifOffset
    } else if code == TAG_GPS_INFO {
        ExifTag::GpsInfo
    } else if code == 0x8827 {
        ExifTag::Iso
    } else if code == TAG_DATE_TIME_ORIGINAL {
        ExifTag::DateTimeOriginal
    } else if code == TAG_CREATE_DATE {
        ExifTag::CreateDate
    } else if code == TAG_OFFSET_TIME {
        ExifTag::OffsetTime
    } else if code == TAG_OFFSET_TIME_ORIGINAL {
        ExifTag::OffsetTimeOriginal
    } else if code == TAG_OFFSET_TIME_DIGITIZED {
        ExifTag::OffsetTimeDigitized
    } else if code == TAG_INTEROP_OFFSET {
        ExifTag::InteropOffset
    } else {
        ExifTag::Unknown(code)
    }
}

/// Looks a tag code up in the tag table.
pub fn tag_of(kind: DirKind, code: u16) -> (r: ExifTag)
    ensures
        r == tag_spec(kind, code),
{
    if kind == DirKind::Gps {
        if code == 1 {
            ExifTag::GpsLatitudeRef
        } else if code == 2 {
            ExifTag::GpsLatitude
        } else if code == 3 {
            ExifTag::GpsLongitudeRef
        } else if code == 4 {
            ExifTag::GpsLongitude
        } else if code == 5 {
            ExifTag::GpsAltitudeRef
        } else if code == 6 {
            ExifTag::GpsAltitude
        } else if code == 0x0c {
            ExifTag::GpsSpeedRef
        } else if code == 0x0d {
            ExifTag::GpsSpeed
        } else {
            ExifTag::Unknown(code)
        }
    } else if kind == DirKind::Interop {
        ExifTag::Unknown(code)
    } else if code == 0x0100 {
        ExifTag::ImageWidth
    } else if code == 0x0101 {
        ExifTag::ImageHeight
    } else if code == 0x010f {
        ExifTag::Make
    } else if code == 0x0110 {
        ExifTag::Model
    } else if code == 0x0112 {
        ExifTag::Orientation
    } else if code == 0x0131 {
        ExifTag::Software
    } else if code == TAG_MODIFY_DATE {
        ExifTag::ModifyDate
    } else if code == 0x829a {
        ExifTag::ExposureTime
    } else if code == 0x829d {
        ExifTag::FNumber
    } else if code == TAG_EXIF_OFFSET {
        ExifTag::ExifOffset
    } else if code == TAG_GPS_INFO {
        ExifTag::GpsInfo
    } else if code == 0x8827 {
        ExifTag::Iso
    } else if code == TAG_DATE_TIME_ORIGINAL {
        ExifTag::DateTimeOriginal
    } else if code == TAG_CREATE_DATE {
        ExifTag::CreateDate
    } else if code == TAG_OFFSET_TIME {
        ExifTag::OffsetTime
    } else if code == TAG_OFFSET_TIME_ORIGINAL {
        ExifTag::OffsetTimeOriginal
    } else if code == TAG_OFFSET_TIME_DIGITIZED {
        ExifTag::OffsetTimeDigitized
    } else if code == TAG_INTEROP_OFFSET {
        ExifTag::InteropOffset
    } else {
        ExifTag::Unknown(code)
    }
}

/// The kind of sub-directory that a pointer tag of a directory of the given
/// kind leads to, if the tag is a pointer.
pub open spec fn sub_dir_spec(kind: DirKind, code: u16) -> Option<DirKind> {
    if kind == DirKind::Main && code == TAG_EXIF_OFFSET {
        Some(DirKind::Exif)
    } else if kind == DirKind::Main && code == TAG_GPS_INFO {
        Some(DirKind::Gps)
    } else if (kind == DirKind::Main || kind == DirKind::Exif) && code == TAG_INTEROP_OFFSET {
        Some(DirKind::Interop)
    } else {
        None
    }
}

/// Whether a tag code leads to a sub-directory.
pub fn sub_dir_of(kind: DirKind, code: u16) -> (r: Option<DirKind>)
    ensures
        r == sub_dir_spec(kind, code),
{
    if kind == DirKind::Main && code == TAG_EXIF_OFFSET {
        Some(DirKind::Exif)
    } else if kind == DirKind::Main && code == TAG_GPS_INFO {
        Some(DirKind::Gps)
    } else if (kind == DirKind::Main || kind == DirKind::Exif) && code == TAG_INTEROP_OFFSET {
        Some(DirKind::Interop)
    } else {
        None
    }
}

/// Whether a tag holds a date and time, which the time zone applies to.
pub open spec fn is_time_tag(kind: DirKind, code: u16) -> bool {
    kind != DirKind::Gps && kind != DirKind::Interop && (code == TAG_MODIFY_DATE
        || code == TAG_DATE_TIME_ORIGINAL || code == TAG_CREATE_DATE)
}

/// Whether a tag of IFD0 carries a UTC offset.
pub open spec fn is_tz_tag(code: u16) -> bool {
    code == TAG_OFFSET_TIME || code == TAG_OFFSET_TIME_ORIGINAL || code
        == TAG_OFFSET_TIME_DIGITIZED
}

} // verus!
