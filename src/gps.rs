use vstd::prelude::*;

use crate::error::{Error, FailReason};
use crate::exif_map::{fold_entries, Exif};
use crate::iter::{all_entries, ExifIter};
use crate::tags::ExifTag;
use crate::values::{EntryValue, URational, ValueView};

verus! {

/// Degrees, minutes and seconds.
#[derive(Clone, Copy, Debug, PartialEq, Eq, Structural)]
pub struct LatLng(pub URational, pub URational, pub URational);

/// A position as the GPS directory gives it.
#[derive(Clone, Copy, Debug, PartialEq, Eq, Structural)]
pub struct GPSInfo {
    /// `N` or `S`.
    pub latitude_ref: char,
    pub latitude: LatLng,
    /// `E` or `W`.
    pub longitude_ref: char,
    pub longitude: LatLng,
    /// 0: above sea level, 1: below.
    pub altitude_ref: u8,
    pub altitude: URational,
    pub speed_ref: Option<char>,
    pub speed: Option<URational>,
}

/// The first character of a text value stored for `tag`.
pub open spec fn ref_spec(m: Map<ExifTag, ValueView>, tag: ExifTag) -> Option<char> {
    if m.contains_key(tag) {
        match m[tag] {
            ValueView::Text(t) => if t.len() > 0 {
                Some(t[0] as char)
            } else {
                None
            },
            _ => None,
        }
    } else {
        None
    }
}

/// The first rationals of a value stored for `tag`, if it has at least `n`.
pub open spec fn rationals_spec(m: Map<ExifTag, ValueView>, tag: ExifTag, n: nat) -> Option<Seq<URational>> {
    if m.contains_key(tag) {
        match m[tag] {
            ValueView::URational(s) => if s.len() >= n && n > 0 {
                Some(s)
            } else {
                None
            },
            _ => None,
        }
    } else {
        None
    }
}

/// The triple stored for `tag`.
pub open spec fn latlng_spec(m: Map<ExifTag, ValueView>, tag: ExifTag) -> Option<LatLng> {
    match rationals_spec(m, tag, 3) {
        Some(s) => Some(LatLng(s[0], s[1], s[2])),
        None => None,
    }
}

/// The single rational stored for `tag`.
pub open spec fn rational_spec(m: Map<ExifTag, ValueView>, tag: ExifTag) -> Option<URational> {
    match rationals_spec(m, tag, 1) {
        Some(s) => Some(s[0]),
        None => None,
    }
}

/// The altitude reference byte: the first BYTE value stored, 0 if none.
pub open spec fn altitude_ref_spec(m: Map<ExifTag, ValueView>) -> u8 {
    if m.contains_key(ExifTag::GpsAltitudeRef) {
        match m[ExifTag::GpsAltitudeRef] {
            ValueView::Unsigned(s) => if s.len() > 0 && s[0] < 256 {
                s[0] as u8
            } else {
                0
            },
            _ => 0,
        }
    } else {
        0
    }
}

/// What GPS decoding of a tag map gives: `Ok(None)` without a GPS pointer,
/// an error when a latitude or longitude or its reference is missing.
/// A missing altitude reads as zero, a missing speed as absent.
pub open spec fn gps_spec(m: Map<ExifTag, ValueView>) -> Result<Option<GPSInfo>, Error> {
    if !m.contains_key(ExifTag::GpsInfo) {
        Ok(None)
    } else if ref_spec(m, ExifTag::GpsLatitudeRef) is None || latlng_spec(m, ExifTag::GpsLatitude) is None
        || ref_spec(m, ExifTag::GpsLongitudeRef) is None || latlng_spec(m, ExifTag::GpsLongitude) is None {
        Err(Error::Failed(FailReason::BadGps))
    } else {
        Ok(Some(GPSInfo {
            latitude_ref: ref_spec(m, ExifTag::GpsLatitudeRef)->Some_0,
            latitude: latlng_spec(m, ExifTag::GpsLatitude)->Some_0,
            longitude_ref: ref_spec(m, ExifTag::GpsLongitudeRef)->Some_0,
            longitude: latlng_spec(m, ExifTag::GpsLongitude)->Some_0,
            altitude_ref: altitude_ref_spec(m),
            altitude: match rational_spec(m, ExifTag::GpsAltitude) {
                Some(a) => a,
                None => URational(0, 1),
            },
            speed_ref: ref_spec(m, ExifTag::GpsSpeedRef),
            speed: rational_spec(m, ExifTag::GpsSpeed),
        }))
    }
}

impl Exif {
    fn get_ref(&self, tag: ExifTag) -> (r: Option<char>)
        ensures
            r == ref_spec(self@, tag),
    {
        match self.get(tag) {
            Some(EntryValue::Text(t)) => if t.len() > 0 {
                Some(t[0] as char)
            } else {
                None
            },
            _ => None,
        }
    }

    fn get_rationals(&self, tag: ExifTag, n: usize) -> (r: Option<&Vec<URational>>)
        ensures
            match r {
                Some(v) => rationals_spec(self@, tag, n as nat) == Some(v@),
                None => rationals_spec(self@, tag, n as nat) is None,
            },
    {
        match self.get(tag) {
            Some(EntryValue::URational(s)) => if s.len() >= n && n > 0 {
                Some(s)
            } else {
                None
            },
            _ => None,
        }
    }

    fn get_latlng(&self, tag: ExifTag) -> (r: Option<LatLng>)
        ensures
            r == latlng_spec(self@, tag),
    {
        match self.get_rationals(tag, 3) {
            Some(s) => Some(LatLng(s[0], s[1], s[2])),
            None => None,
        }
    }

    fn get_rational(&self, tag: ExifTag) -> (r: Option<URational>)
        ensures
            r == rational_spec(self@, tag),
    {
        match self.get_rationals(tag, 1) {
            Some(s) => Some(s[0]),
            None => None,
        }
    }

    /// Decodes the GPS position held in the map.
    pub fn get_gps_info(&self) -> (r: Result<Option<GPSInfo>, Error>)
        ensures
            r == gps_spec(self@),
    {
        if self.get(ExifTag::GpsInfo).is_none() {
            return Ok(None);
        }
        let latitude_ref = self.get_ref(ExifTag::GpsLatitudeRef);
        let latitude = self.get_latlng(ExifTag::GpsLatitude);
        let longitude_ref = self.get_ref(ExifTag::GpsLongitudeRef);
        let longitude = self.get_latlng(ExifTag::GpsLongitude);
        let (latitude_ref, latitude, longitude_ref, longitude) = match (latitude_ref, latitude, longitude_ref, longitude) {
            (Some(a), Some(b), Some(c), Some(d)) => (a, b, c, d),
            _ => return Err(Error::Failed(FailReason::BadGps)),
        };
        let altitude_ref: u8 = match self.get(ExifTag::GpsAltitudeRef) {
            Some(EntryValue::Unsigned(s)) => if s.len() > 0 && s[0] < 256 {
                s[0] as u8
            } else {
                0
            },
            _ => 0,
        };
        let altitude = match self.get_rational(ExifTag::GpsAltitude) {
            Some(a) => a,
            None => URational(0, 1),
        };
        Ok(Some(GPSInfo {
            latitude_ref,
            latitude,
            longitude_ref,
            longitude,
            altitude_ref,
            altitude,
            speed_ref: self.get_ref(ExifTag::GpsSpeedRef),
            speed: self.get_rational(ExifTag::GpsSpeed),
        }))
    }
}

impl ExifIter {
    /// Decodes the GPS position from all entries of the data.
    pub fn parse_gps_info(&self) -> (r: Result<Option<GPSInfo>, Error>)
        requires
            self.wf(),
        ensures
            r == gps_spec(fold_entries(all_entries(self@))),
    {
        Exif::from_iter(self).get_gps_info()
    }
}

} // verus!
