use vstd::prelude::*;

use crate::error::{Error, FailReason, ParsingError};
use crate::exif_map::fold_entries;
use crate::gps::{gps_spec, GPSInfo};
use crate::iso6709::{coord_text, iso6709_spec, num_of, sign};
use crate::iter::{all_entries, dirs_ok, drain, enqueue, restart, step, view_ok, IterView, MAX_DIRS, MAX_ENTRIES};
use crate::tags::{DirKind, ExifTag};
use crate::tiff::{header_spec, u16_at, u32_at, Endian, TiffHeader};
use crate::values::{entry_value_spec, type_size, value_start, ValueView};

verus! {

/// The eight header bytes for a byte order and an IFD0 offset.
pub open spec fn header_bytes(e: Endian, off: u32) -> Seq<u8> {
    let b0 = (off % 256) as u8;
    let b1 = ((off / 256) % 256) as u8;
    let b2 = ((off / 65536) % 256) as u8;
    let b3 = (off / 16777216) as u8;
    match e {
        Endian::Little => seq![0x49u8, 0x49u8, 42u8, 0u8, b0, b1, b2, b3],
        Endian::Big => seq![0x4du8, 0x4du8, 0u8, 42u8, b3, b2, b1, b0],
    }
}

/// Header parsing recovers the byte order and the IFD0 offset from the
/// bytes of either marker, `II` or `MM`, whatever follows them; with any
/// other marker it fails.
pub proof fn lemma_header_markers(e: Endian, off: u32, rest: Seq<u8>, d: Seq<u8>)
    requires
        d.len() >= 8,
    ensures
        header_spec(header_bytes(e, off) + rest) == Ok::<TiffHeader, ParsingError>(
            TiffHeader { endian: e, ifd0_offset: off }),
        !((d[0] == 0x49u8 && d[1] == 0x49u8) || (d[0] == 0x4du8 && d[1] == 0x4du8))
            ==> header_spec(d) == Err::<TiffHeader, ParsingError>(ParsingError::Failed(FailReason::BadByteOrder)),
{
    let s = header_bytes(e, off) + rest;
    let o = off as int;
    assert(o == o % 256 + 256 * ((o / 256) % 256) + 65536 * ((o / 65536) % 256) + 16777216 * (o / 16777216))
        by (nonlinear_arith) requires 0 <= o < 0x1_0000_0000;
    assert(s[0] == header_bytes(e, off)[0]);
    assert(s[1] == header_bytes(e, off)[1]);
    assert(s[2] == header_bytes(e, off)[2]);
    assert(s[3] == header_bytes(e, off)[3]);
    assert(s[4] == header_bytes(e, off)[4]);
    assert(s[5] == header_bytes(e, off)[5]);
    assert(s[6] == header_bytes(e, off)[6]);
    assert(s[7] == header_bytes(e, off)[7]);
}

/// An entry whose value takes at most four bytes holds it inline; a larger
/// value is read at the offset the entry gives, and is an error, not a
/// crash, when that offset leads outside the data.
pub proof fn lemma_value_location(
    d: Seq<u8>,
    base: int,
    e: Endian,
    tz: Option<Seq<u8>>,
    kind: DirKind,
    p: int,
)
    requires
        0 <= p,
        p + 12 <= d.len(),
        type_size(u16_at(d, p + 2, e) as u16) is Some,
    ensures
        ({
            let total = type_size(u16_at(d, p + 2, e) as u16)->Some_0 * u32_at(d, p + 4, e);
            let s = u32_at(d, p + 8, e) - base;
            &&& total <= 4 ==> value_start(d, base, e, p) == Some(p + 8)
            &&& total > 4 && 0 <= s && s + total <= d.len() ==> value_start(d, base, e, p) == Some(s)
            &&& total > 4 && !(0 <= s && s + total <= d.len()) ==> entry_value_spec(d, base, e, tz, kind, p)
                == Err::<ValueView, crate::error::EntryError>(crate::error::EntryError::OutOfBounds)
        }),
{
}

/// The state after `k` steps from `v`.
pub open spec fn steps(v: IterView, k: nat) -> IterView
    decreases k,
{
    if k == 0 {
        v
    } else {
        steps(step(v).1, (k - 1) as nat)
    }
}

proof fn lemma_step_keeps(v: IterView)
    requires
        v.dirs.len() >= 1,
    ensures
        step(v).1.dirs.len() >= 1,
        restart(step(v).1) == restart(v),
    decreases v.dirs.len() - v.cur,
{
    if v.cur < 0 || v.cur >= v.dirs.len() {
    } else if v.i < v.dirs[v.cur].n {
        assert(step(v).1.dirs[0] == v.dirs[0]);
        assert(restart(step(v).1) =~= restart(v));
    } else {
        let w = IterView { cur: v.cur + 1, i: 0, ..v };
        lemma_step_keeps(w);
        assert(restart(w) =~= restart(v));
    }
}

/// Restarting is blind to how far an iterator has gone: every restarted copy
/// of it, made before or after any number of steps, yields the same entries
/// in the same order.
pub proof fn lemma_clones_agree(v: IterView, k: nat)
    requires
        v.dirs.len() >= 1,
    ensures
        restart(steps(v, k)) == restart(v),
        all_entries(steps(v, k)) == all_entries(v),
    decreases k,
{
    if k > 0 {
        lemma_step_keeps(v);
        lemma_clones_agree(step(v).1, (k - 1) as nat);
    }
}

/// Two restarted copies of an iterator, made at any two points of its
/// traversal, fold into the same tag map.
pub proof fn lemma_maps_agree(v: IterView, j: nat, k: nat)
    requires
        v.dirs.len() >= 1,
    ensures
        fold_entries(all_entries(steps(v, j))) == fold_entries(all_entries(steps(v, k))),
{
    lemma_clones_agree(v, j);
    lemma_clones_agree(v, k);
}

/// GPS decoding gives `Ok(None)` without a GPS pointer, and an error when
/// the pointer is there but a latitude or longitude, or its reference, is
/// missing.
pub proof fn lemma_gps_outcomes(m: Map<ExifTag, ValueView>)
    ensures
        !m.contains_key(ExifTag::GpsInfo) ==> gps_spec(m) == Ok::<Option<GPSInfo>, Error>(None),
        m.contains_key(ExifTag::GpsInfo) && (!m.contains_key(ExifTag::GpsLatitudeRef) || !m.contains_key(
            ExifTag::GpsLatitude) || !m.contains_key(ExifTag::GpsLongitudeRef) || !m.contains_key(
            ExifTag::GpsLongitude)) ==> gps_spec(m) == Err::<Option<GPSInfo>, Error>(
            Error::Failed(FailReason::BadGps)),
{
}

/// In the ISO 6709 text the sign of the latitude, of the longitude and of a
/// non-zero altitude come from the reference characters and byte alone,
/// whatever the magnitudes; and equal positions give equal texts.
pub proof fn lemma_iso6709_signs(g: GPSInfo, h: GPSInfo)
    ensures
        iso6709_spec(g)[0] == sign(g.latitude_ref == 'S')[0],
        iso6709_spec(g)[coord_text(g.latitude_ref == 'S', g.latitude, 2).len() as int] == sign(
            g.longitude_ref == 'W')[0],
        num_of(g.altitude) != 0 ==> iso6709_spec(g)[(coord_text(g.latitude_ref == 'S', g.latitude, 2).len()
            + coord_text(g.longitude_ref == 'W', g.longitude, 3).len()) as int] == sign(g.altitude_ref == 1)[0],
        g == h ==> iso6709_spec(g) == iso6709_spec(h),
{
    let a = coord_text(g.latitude_ref == 'S', g.latitude, 2);
    let b = coord_text(g.longitude_ref == 'W', g.longitude, 3);
    let c = crate::iso6709::altitude_text(g);
    let t = iso6709_spec(g);
    assert(t == ((a + b) + c) + seq!['/']);
    assert(a[0] == sign(g.latitude_ref == 'S')[0]);
    assert(t[0] == a[0]);
    assert(b[0] == sign(g.longitude_ref == 'W')[0]);
    assert(t[a.len() as int] == b[0]);
    if num_of(g.altitude) != 0 {
        assert(c[0] == sign(g.altitude_ref == 1)[0]);
        assert(t[(a.len() + b.len()) as int] == c[0]);
    }
}

/// An upper bound on the entries still to come from `v`.
pub open spec fn potential(v: IterView) -> int {
    (MAX_DIRS - v.cur) * 65535 - (if v.cur < v.dirs.len() {
        v.i
    } else {
        0
    })
}

proof fn lemma_step_potential(v: IterView)
    requires
        view_ok(v),
    ensures
        view_ok(step(v).1),
        0 <= potential(step(v).1) <= potential(v),
        step(v).0 is Some ==> potential(step(v).1) < potential(v),
    decreases v.dirs.len() - v.cur,
{
    if v.cur < 0 || v.cur >= v.dirs.len() {
    } else if v.i < v.dirs[v.cur].n {
        let w = step(v).1;
        let dir = v.dirs[v.cur];
        let x = crate::iter::sub_dir_at(v.data, v.base, v.endian, dir.kind, crate::iter::entry_pos(dir.pos as int, v.i));
        assert(w.dirs == enqueue(v.dirs, x));
        if let Some(y) = x {
            assert(u16_at(v.data, y.pos as int, v.endian) <= 65535);
        }
        assert(w.dirs.len() >= v.dirs.len());
        assert(w.dirs[v.cur] == v.dirs[v.cur]);
        assert(dirs_ok(w.data, w.dirs));
    } else {
        let w = IterView { cur: v.cur + 1, i: 0, ..v };
        lemma_step_potential(w);
    }
}

proof fn lemma_drain_fuel(v: IterView, f: nat, g: nat)
    requires
        view_ok(v),
        potential(v) <= f <= g,
    ensures
        drain(v, f) == drain(v, g),
    decreases f,
{
    lemma_step_potential(v);
    if step(v).0 is Some {
        lemma_drain_fuel(step(v).1, (f - 1) as nat, (g - 1) as nat);
    }
}

/// Every traversal is finite: it ends within `MAX_ENTRIES` entries, so the
/// full sequence of entries does not depend on any larger bound.
pub proof fn lemma_traversal_finite(v: IterView, g: nat)
    requires
        view_ok(v),
        g >= MAX_ENTRIES,
    ensures
        all_entries(v) == drain(restart(v), g),
{
    assert(view_ok(restart(v)));
    lemma_drain_fuel(restart(v), MAX_ENTRIES as nat, g);
}

} // verus!
