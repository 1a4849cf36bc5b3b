use nom_exif::error::{EntryError, Error, FailReason, ParsingError, ParsingState};
use nom_exif::exif::{extract_exif_with_mime, input_into_iter, input_to_iter};
use nom_exif::{detect_mime, parse_exif, parse_exif_iter, ParseStep, Endian, EntryValue, Exif, ExifIter, ExifTag, GPSInfo, LatLng, MimeImage, TiffHeader, URational};

/// One directory entry: tag, type, count, and the value bytes.
type Ent = (u16, u16, u32, Vec<u8>);

fn u16b(v: u16, big: bool) -> Vec<u8> {
    if big { v.to_be_bytes().to_vec() } else { v.to_le_bytes().to_vec() }
}

fn u32b(v: u32, big: bool) -> Vec<u8> {
    if big { v.to_be_bytes().to_vec() } else { v.to_le_bytes().to_vec() }
}

fn ascii(tag: u16, s: &str) -> Ent {
    let mut b = s.as_bytes().to_vec();
    b.push(0);
    (tag, 2, b.len() as u32, b)
}

fn rationals(tag: u16, rs: &[(u32, u32)], big: bool) -> Ent {
    let mut b = Vec::new();
    for (n, d) in rs {
        b.extend(u32b(*n, big));
        b.extend(u32b(*d, big));
    }
    (tag, 5, rs.len() as u32, b)
}

fn long(tag: u16, v: u32, big: bool) -> Ent {
    (tag, 4, 1, u32b(v, big))
}

fn byte(tag: u16, v: u8) -> Ent {
    (tag, 1, 1, vec![v])
}

/// The bytes of a directory that stands at offset `start`, with its long
/// values right after its table.
fn ifd(start: u32, ents: &[Ent], big: bool) -> Vec<u8> {
    let mut table = u16b(ents.len() as u16, big);
    let mut extra = Vec::new();
    let data_start = start + 2 + 12 * ents.len() as u32 + 4;
    for (tag, typ, count, data) in ents {
        table.extend(u16b(*tag, big));
        table.extend(u16b(*typ, big));
        table.extend(u32b(*count, big));
        if data.len() <= 4 {
            let mut d = data.clone();
            d.resize(4, 0);
            table.extend(d);
        } else {
            table.extend(u32b(data_start + extra.len() as u32, big));
            extra.extend(data.clone());
        }
    }
    table.extend(u32b(0, big));
    table.extend(extra);
    table
}

fn header(big: bool, ifd0: u32) -> Vec<u8> {
    let mut h = if big { vec![0x4d, 0x4d, 0, 42] } else { vec![0x49, 0x49, 42, 0] };
    h.extend(u32b(ifd0, big));
    h
}

/// TIFF data with IFD0 at offset 8 and, if given, a GPS directory after it.
fn tiff(ifd0: Vec<Ent>, gps: Option<Vec<Ent>>, big: bool) -> Vec<u8> {
    let mut out = header(big, 8);
    match gps {
        None => out.extend(ifd(8, &ifd0, big)),
        Some(g) => {
            let mut ents = ifd0.clone();
            ents.push(long(0x8825, 0, big));
            let len0 = ifd(8, &ents, big).len() as u32;
            let last = ents.len() - 1;
            ents[last] = long(0x8825, 8 + len0, big);
            out.extend(ifd(8, &ents, big));
            out.extend(ifd(8 + len0, &g, big));
        }
    }
    out
}

/// A JPEG image whose APP1 segment holds `tiff`, after an APP0 segment.
fn jpeg(tiff: Option<Vec<u8>>) -> Vec<u8> {
    let mut out = vec![0xff, 0xd8, 0xff, 0xe0, 0, 16];
    out.extend(b"JFIF\0".to_vec());
    out.extend(vec![1, 1, 0, 0, 1, 0, 1, 0, 0]);
    if let Some(t) = tiff {
        let len = (2 + 6 + t.len()) as u16;
        out.extend(vec![0xff, 0xe1]);
        out.extend(len.to_be_bytes());
        out.extend(b"Exif\0\0".to_vec());
        out.extend(t);
    }
    out.extend(vec![0xff, 0xda, 0, 2, 0x12, 0x34, 0xff, 0xd9]);
    out
}

fn text(v: &EntryValue) -> String {
    match v {
        EntryValue::Text(t) => String::from_utf8(t.clone()).unwrap(),
        EntryValue::Time(t, _) => String::from_utf8(t.clone()).unwrap(),
        other => format!("{:?}", other),
    }
}

fn sample_gps(big: bool) -> Vec<u8> {
    tiff(
        vec![ascii(0x010f, "Apple"), ascii(0x0110, "iPhone 12 Pro")],
        Some(vec![
            ascii(1, "N"),
            rationals(2, &[(22, 1), (31, 1), (5208, 100)], big),
            ascii(3, "E"),
            rationals(4, &[(114, 1), (1, 1), (1733, 100)], big),
            byte(5, 0),
            rationals(6, &[(0, 1)], big),
        ]),
        big,
    )
}

fn iter_of(data: Vec<u8>) -> ExifIter {
    parse_exif(data, None).expect("should be Ok").expect("should not be None")
}

#[test]
fn tag_values() {
    let iter = iter_of(jpeg(Some(sample_gps(false))));
    let tags = [ExifTag::Make, ExifTag::Model];
    let res: Vec<String> = iter
        .entries()
        .iter()
        .filter(|e| tags.contains(&e.tag))
        .filter(|e| e.has_value())
        .map(|e| format!("{:?} => {}", e.tag, text(e.get_value().unwrap())))
        .collect();
    assert_eq!(res.join(", "), "Make => Apple, Model => iPhone 12 Pro");
}

#[test]
fn gps_info() {
    for big in [false, true] {
        let data = sample_gps(big);
        let range = extract_exif_with_mime(MimeImage::Tiff, &data, None).unwrap().unwrap();
        let iter = input_into_iter(data[range.0..range.1].to_vec(), None).unwrap();
        let exif = Exif::from_iter(&iter);
        let gps = exif.get_gps_info().unwrap().unwrap();
        let latitude: LatLng = LatLng(URational(22, 1), URational(31, 1), URational(5208, 100));
        let longitude: LatLng = LatLng(URational(114, 1), URational(1, 1), URational(1733, 100));
        assert_eq!(
            gps,
            GPSInfo {
                latitude_ref: 'N',
                latitude,
                longitude_ref: 'E',
                longitude,
                altitude_ref: 0,
                altitude: URational(0, 1),
                speed_ref: None,
                speed: None,
            }
        );
    }
}

#[test]
fn jpeg_exif_range() {
    let t = sample_gps(false);
    let j = jpeg(Some(t.clone()));
    let (a, b) = extract_exif_with_mime(MimeImage::Jpeg, &j, None).unwrap().unwrap();
    assert_eq!((a, b), (30, 30 + t.len()));
    assert_eq!(&j[a..b], &t[..]);
    // Cut inside the APP1 segment: the rest of it is asked for.
    assert_eq!(extract_exif_with_mime(MimeImage::Jpeg, &j[..40], None), Err(ParsingError::Need(t.len() - 10)));
}

#[test]
fn gps() {
    let iter = iter_of(sample_gps(false));
    let gps_info = iter.parse_gps_info().expect("should be parsed Ok").expect("should not be None");
    assert_eq!(gps_info.format_iso6709(), "+22.53113+114.02148/");
}

#[test]
fn gps_format_with_altitude() {
    let g = GPSInfo {
        latitude_ref: 'N',
        latitude: LatLng(URational(43, 1), URational(17, 1), URational(2446, 100)),
        longitude_ref: 'E',
        longitude: LatLng(URational(84, 1), URational(13, 1), URational(3767, 100)),
        altitude_ref: 0,
        altitude: URational(159595, 100),
        speed_ref: None,
        speed: None,
    };
    assert_eq!(g.format_iso6709(), "+43.29013+084.22713+1595.950CRSWGS_84/");
}

#[test]
fn gps_format_signs_from_references() {
    let g = GPSInfo {
        latitude_ref: 'S',
        latitude: LatLng(URational(1, 1), URational(30, 1), URational(0, 1)),
        longitude_ref: 'W',
        longitude: LatLng(URational(2, 1), URational(0, 1), URational(36, 1)),
        altitude_ref: 1,
        altitude: URational(5, 2),
        speed_ref: Some('K'),
        speed: Some(URational(3, 1)),
    };
    assert_eq!(g.format_iso6709(), "-01.50000-002.01000-2.500CRSWGS_84/");
    let mut h = g;
    h.latitude_ref = 'N';
    h.longitude_ref = 'E';
    h.altitude_ref = 0;
    assert_eq!(h.format_iso6709(), "+01.50000+002.01000+2.500CRSWGS_84/");
    assert_eq!(g.format_iso6709(), g.format_iso6709());
}

#[test]
fn gps_format_rounds_half_up() {
    // 10 + 1/3600 degrees: 10.000277..., rounded to 10.00028.
    let g = GPSInfo {
        latitude_ref: 'N',
        latitude: LatLng(URational(10, 1), URational(0, 1), URational(1, 1)),
        longitude_ref: 'E',
        longitude: LatLng(URational(0, 1), URational(0, 0), URational(0, 1)),
        altitude_ref: 0,
        altitude: URational(0, 1),
        speed_ref: None,
        speed: None,
    };
    assert_eq!(g.format_iso6709(), "+10.00028+000.00000/");
}

#[test]
fn gps_absent_is_none() {
    let iter = iter_of(tiff(vec![ascii(0x010f, "Apple")], None, false));
    assert_eq!(iter.parse_gps_info(), Ok(None));
}

#[test]
fn gps_missing_latitude_is_error() {
    let iter = iter_of(tiff(vec![ascii(0x010f, "Apple")], Some(vec![ascii(1, "N"), ascii(3, "E")]), false));
    assert_eq!(iter.parse_gps_info(), Err(Error::Failed(FailReason::BadGps)));
}

#[test]
fn header_markers() {
    let le = header(false, 0x01020304);
    assert_eq!(TiffHeader::parse(&le), Ok(TiffHeader { endian: Endian::Little, ifd0_offset: 0x01020304 }));
    let be = header(true, 0x01020304);
    assert_eq!(TiffHeader::parse(&be), Ok(TiffHeader { endian: Endian::Big, ifd0_offset: 0x01020304 }));
    let bad = vec![0x49, 0x4d, 42, 0, 8, 0, 0, 0];
    assert_eq!(TiffHeader::parse(&bad), Err(ParsingError::Failed(FailReason::BadByteOrder)));
    let magic = vec![0x49, 0x49, 43, 0, 8, 0, 0, 0];
    assert_eq!(TiffHeader::parse(&magic), Err(ParsingError::Failed(FailReason::BadMagic)));
    assert_eq!(TiffHeader::parse(&le[..5]), Err(ParsingError::Need(3)));
}

#[test]
fn clear_and_skip_then_resume() {
    let full = {
        let mut d = header(false, 100);
        d.resize(100, 0);
        d.extend(ifd(100, &[ascii(0x010f, "Apple")], false));
        d
    };
    let first = full[..8].to_vec();
    let h = TiffHeader { endian: Endian::Little, ifd0_offset: 100 };
    let state = match input_to_iter(first, None) {
        Err(ParsingError::ClearAndSkip(100, Some(s))) => s,
        other => panic!("unexpected: {:?}", other.err()),
    };
    assert_eq!(state, ParsingState::TiffHeader(h));
    let rest = full[100..].to_vec();
    let mut iter = input_to_iter(rest, Some(state)).unwrap();
    assert_eq!(iter.header(), h);
    let e = iter.next().unwrap();
    assert_eq!(e.tag, ExifTag::Make);
    assert_eq!(text(e.get_value().unwrap()), "Apple");
    assert!(iter.next().is_none());
}

#[test]
fn tiff_extract_needs_more() {
    let data = tiff(vec![ascii(0x010f, "Apple"), ascii(0x0110, "X")], None, false);
    assert_eq!(extract_exif_with_mime(MimeImage::Tiff, &data[..12], None), Err(ParsingError::Need(22)));
    assert_eq!(extract_exif_with_mime(MimeImage::Tiff, &data[..9], None), Err(ParsingError::Need(1)));
    assert_eq!(extract_exif_with_mime(MimeImage::Tiff, &data, None), Ok(Some((0, data.len()))));
    assert_eq!(
        extract_exif_with_mime(MimeImage::Jpeg, &data, None),
        Err(ParsingError::Failed(FailReason::BadJpeg))
    );
    assert_eq!(
        extract_exif_with_mime(MimeImage::Heic, &data, None),
        Err(ParsingError::Failed(FailReason::UnsupportedFormat))
    );
}

#[test]
fn out_of_bounds_value_is_entry_error() {
    let mut data = tiff(vec![(0x010f, 2, 40, vec![0xff, 0xff, 0, 0]), ascii(0x0110, "ok")], None, false);
    // The first entry points at offset 0xffff, past the end.
    data[18..22].copy_from_slice(&0xffffu32.to_le_bytes());
    let mut iter = iter_of(data);
    let a = iter.next().unwrap();
    assert!(matches!(a.result, Err(EntryError::OutOfBounds)));
    let b = iter.next().unwrap();
    assert_eq!(text(b.get_value().unwrap()), "ok");
}

#[test]
fn unknown_type_is_entry_error() {
    let iter = iter_of(tiff(vec![(0x0131, 99, 1, vec![1, 0, 0, 0]), (0x0112, 3, 1, vec![6, 0])], None, false));
    let es = iter.entries();
    assert!(matches!(es[0].result, Err(EntryError::UnknownType(99))));
    assert!(matches!(&es[1].result, Ok(EntryValue::Unsigned(v)) if v == &vec![6u64]));
}

#[test]
fn inline_and_offset_values() {
    for big in [false, true] {
        let iter = iter_of(tiff(
            vec![
                (0x0100, 3, 2, [u16b(640, big), u16b(480, big)].concat()),
                (0x0101, 4, 2, [u32b(7, big), u32b(9, big)].concat()),
                (0x9999, 8, 1, u16b(0xfffe, big)),
                (0x829a, 10, 1, [u32b(0xffffffff, big), u32b(3, big)].concat()),
            ],
            None,
            big,
        ));
        let es = iter.entries();
        assert!(matches!(&es[0].result, Ok(EntryValue::Unsigned(v)) if v == &vec![640u64, 480]));
        assert!(matches!(&es[1].result, Ok(EntryValue::Unsigned(v)) if v == &vec![7u64, 9]));
        assert!(matches!(&es[2].result, Ok(EntryValue::Signed(v)) if v == &vec![-2i64]));
        assert!(matches!(&es[3].result, Ok(EntryValue::IRational(v)) if v[0].0 == -1 && v[0].1 == 3));
        assert_eq!(es[2].tag, ExifTag::Unknown(0x9999));
    }
}

#[test]
fn clones_yield_identical_sequences() {
    let mut iter = iter_of(sample_gps(false));
    let a = format!("{:?}", iter.entries());
    let b = format!("{:?}", iter.restarted().entries());
    assert_eq!(a, b);
    iter.next();
    iter.next();
    iter.next();
    let c = format!("{:?}", iter.entries());
    assert_eq!(a, c);
    let mut drained = Vec::new();
    let mut fresh = iter.restarted();
    while let Some(e) = fresh.next() {
        drained.push(e);
    }
    assert_eq!(a, format!("{:?}", drained));
    // IFD0's two tags and its GPS pointer, then the six GPS entries.
    assert_eq!(drained.len(), 9);
    assert_eq!(drained[3].ifd_index, 1);
    assert_eq!(drained[3].tag, ExifTag::GpsLatitudeRef);
}

#[test]
fn clones_fold_into_identical_maps() {
    let mut iter = iter_of(sample_gps(true));
    let m1 = Exif::from_iter(&iter.restarted());
    iter.next();
    let m2 = Exif::from_iter(&iter);
    for tag in [ExifTag::Make, ExifTag::Model, ExifTag::GpsLatitude, ExifTag::GpsAltitudeRef, ExifTag::Iso] {
        assert_eq!(format!("{:?}", m1.get(tag)), format!("{:?}", m2.get(tag)));
    }
    assert_eq!(text(m1.get(ExifTag::Model).unwrap()), "iPhone 12 Pro");
    assert!(m1.get(ExifTag::Iso).is_none());
}

#[test]
fn later_entries_overwrite_earlier() {
    let iter = iter_of(tiff(vec![ascii(0x010f, "First"), ascii(0x010f, "Second")], None, false));
    let exif = Exif::from_iter(&iter);
    assert_eq!(text(exif.get(ExifTag::Make).unwrap()), "Second");
}

#[test]
fn time_zone_applies_to_dates() {
    let iter = iter_of(tiff(
        vec![ascii(0x0132, "2024:01:02 03:04:05"), ascii(0x9010, "+08:00")],
        None,
        false,
    ));
    let es = iter.entries();
    match &es[0].result {
        Ok(EntryValue::Time(t, Some(z))) => {
            assert_eq!(t, &b"2024:01:02 03:04:05".to_vec());
            assert_eq!(z, &b"+08:00".to_vec());
        }
        other => panic!("unexpected: {:?}", other),
    }
    assert_eq!(text(es[1].get_value().unwrap()), "+08:00");
    let naive = iter_of(tiff(vec![ascii(0x0132, "2024:01:02 03:04:05")], None, false));
    assert!(matches!(&naive.entries()[0].result, Ok(EntryValue::Time(_, None))));
}

#[test]
fn bad_input_errors() {
    assert_eq!(parse_exif(vec![1, 2, 3], None).err(), Some(Error::Failed(FailReason::UnsupportedFormat)));
    assert_eq!(parse_exif(vec![0xff, 0xd8, 0, 0], None).err(), Some(Error::NoEnoughBytes));
    assert_eq!(parse_exif(jpeg(None), None).err(), Some(Error::Failed(FailReason::NoExif)));
    assert_eq!(parse_exif(vec![0xff, 0xd8, 0x12, 0x34, 0, 0], None).err(), Some(Error::Failed(FailReason::BadJpeg)));
    // IFD0 lies past the end of the file.
    assert_eq!(parse_exif(header(false, 100), None).err(), Some(Error::Failed(FailReason::UnexpectedSkip)));
    // The entry table is cut short.
    let mut d = header(false, 8);
    d.extend(u16b(3, false));
    assert_eq!(parse_exif(d.clone(), None).err(), Some(Error::NoEnoughBytes));
    assert_eq!(
        input_into_iter(d, Some(ParsingState::TiffHeader(TiffHeader { endian: Endian::Little, ifd0_offset: 0 })))
            .err(),
        Some(Error::Failed(FailReason::BadDirectory))
    );
}

#[test]
fn pointer_cycles_end() {
    // The Exif pointer of IFD0 leads back to IFD0 itself.
    let data = tiff(vec![long(0x8769, 8, false)], None, false);
    let iter = iter_of(data);
    assert_eq!(iter.entries().len(), 1);
}

#[test]
fn parse_steps_resume_after_skip() {
    let mut full = header(true, 64);
    full.resize(64, 0);
    full.extend(ifd(64, &[ascii(0x0110, "Model X"), byte(0x0112, 1)], true));
    let state = match parse_exif_iter(MimeImage::Tiff, &full[..8], None) {
        ParseStep::SkipTo(64, s) => s,
        _ => panic!("expected a skip"),
    };
    assert_eq!(state, Some(ParsingState::TiffHeader(TiffHeader { endian: Endian::Big, ifd0_offset: 64 })));
    match parse_exif_iter(MimeImage::Tiff, &full[64..70], state) {
        ParseStep::NeedMore(n) => assert_eq!(n, 2 + 24 - 6),
        _ => panic!("expected a request for more bytes"),
    }
    let iter = match parse_exif_iter(MimeImage::Tiff, &full[64..], state) {
        ParseStep::Done(it) => it,
        _ => panic!("expected an iterator"),
    };
    let es = iter.entries();
    assert_eq!(es.len(), 2);
    assert_eq!(text(es[0].get_value().unwrap()), "Model X");
    assert!(matches!(&es[1].result, Ok(EntryValue::Unsigned(v)) if v == &vec![1u64]));
    assert_eq!(detect_mime(&full), Some(MimeImage::Tiff));
    assert_eq!(detect_mime(&jpeg(None)), Some(MimeImage::Jpeg));
    assert_eq!(detect_mime(&[0u8, 1, 2]), None);
}
