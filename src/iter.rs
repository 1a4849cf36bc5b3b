use std::sync::Arc;

use vstd::prelude::*;

use crate::error::EntryError;
use crate::tags::{is_tz_tag, sub_dir_of, sub_dir_spec, tag_of, tag_spec, DirKind, ExifTag};
use crate::tiff::{read_u16, read_u32, u16_at, u32_at, Endian, TiffHeader};
use crate::values::{decode_entry, entry_value_spec, opt_view, EntryValue, ValueView};

verus! {

/// At most this many directories are visited: a guard against pointer cycles.
pub const MAX_DIRS: usize = 16;

/// No traversal yields more entries than this: at most `MAX_DIRS`
/// directories of at most 65535 entries each.
pub const MAX_ENTRIES: usize = 1048560;

/// A directory whose entry table lies inside the data: its kind, the buffer
/// index of its entry count, and that count.
#[derive(Clone, Copy, Debug, PartialEq, Eq, Structural)]
pub struct Dir {
    pub kind: DirKind,
    pub pos: usize,
    pub n: usize,
}

/// One entry as the iterator yields it.
#[derive(Debug)]
pub struct ParsedExifEntry {
    /// Index of the directory, in the order directories are visited.
    pub ifd_index: usize,
    /// Index of the entry inside its directory.
    pub entry_index: usize,
    pub tag: ExifTag,
    pub tag_code: u16,
    pub result: Result<EntryValue, EntryError>,
}

/// The mathematical form of a [`ParsedExifEntry`].
pub struct EntryView {
    pub ifd_index: usize,
    pub entry_index: usize,
    pub tag: ExifTag,
    pub tag_code: u16,
    pub result: Result<ValueView, EntryError>,
}

pub open spec fn result_view(r: Result<EntryValue, EntryError>) -> Result<ValueView, EntryError> {
    match r {
        Ok(v) => Ok(v@),
        Err(e) => Err(e),
    }
}

impl View for ParsedExifEntry {
    type V = EntryView;

    open spec fn view(&self) -> EntryView {
        EntryView {
            ifd_index: self.ifd_index,
            entry_index: self.entry_index,
            tag: self.tag,
            tag_code: self.tag_code,
            result: result_view(self.result),
        }
    }
}

impl ParsedExifEntry {
    /// The decoded value, if decoding succeeded.
    pub fn get_value(&self) -> (r: Option<&EntryValue>)
        ensures
            r matches Some(v) ==> self.result == Ok::<EntryValue, EntryError>(*v),
            r.is_none() <==> self.result.is_err(),
    {
        match &self.result {
            Ok(v) => Some(v),
            Err(_) => None,
        }
    }

    /// Whether decoding succeeded.
    pub fn has_value(&self) -> (r: bool)
        ensures
            r == self.result.is_ok(),
    {
        self.result.is_ok()
    }
}

/// The views of a sequence of entries.
pub open spec fn views(s: Seq<ParsedExifEntry>) -> Seq<EntryView> {
    s.map_values(|e: ParsedExifEntry| e@)
}

/// The state of an iterator, as mathematics.
pub struct IterView {
    pub data: Seq<u8>,
    pub base: int,
    pub endian: Endian,
    pub tz: Option<Seq<u8>>,
    pub dirs: Seq<Dir>,
    pub cur: int,
    pub i: int,
}

/// Buffer index of entry `i` of the directory whose count stands at `pos`.
pub open spec fn entry_pos(pos: int, i: int) -> int {
    pos + 2 + 12 * i
}

/// Whether every directory's entry table lies inside `d`.
pub open spec fn dirs_ok(d: Seq<u8>, dirs: Seq<Dir>) -> bool {
    &&& 1 <= dirs.len() <= MAX_DIRS
    &&& forall|j: int| 0 <= j < dirs.len() ==> entry_pos(#[trigger] dirs[j].pos as int, dirs[j].n as int) <= d.len()
        && dirs[j].n <= 65535
}

/// The directory whose entry count stands at buffer index `pos`, if its
/// entry table lies inside `d`.
pub open spec fn dir_at(d: Seq<u8>, e: Endian, kind: DirKind, pos: int) -> Option<Dir> {
    if 0 <= pos && pos + 2 <= d.len() && entry_pos(pos, u16_at(d, pos, e)) <= d.len() {
        Some(Dir { kind, pos: pos as usize, n: u16_at(d, pos, e) as usize })
    } else {
        None
    }
}

/// The readable sub-directory that the entry record at `p`, in a directory
/// of the given kind, points to.
pub open spec fn sub_dir_at(d: Seq<u8>, base: int, e: Endian, kind: DirKind, p: int) -> Option<Dir> {
    let t = u16_at(d, p + 2, e);
    match sub_dir_spec(kind, u16_at(d, p, e) as u16) {
        None => None,
        Some(k) => if (t == 4 || t == 13) && u32_at(d, p + 4, e) == 1 {
            dir_at(d, e, k, u32_at(d, p + 8, e) - base)
        } else {
            None
        },
    }
}

/// The directory list after a pointer to `x` was found: `x` is added unless
/// the list is full or already holds a directory at the same place.
pub open spec fn enqueue(dirs: Seq<Dir>, x: Option<Dir>) -> Seq<Dir> {
    match x {
        Some(x) => if dirs.len() < MAX_DIRS && (forall|j: int| 0 <= j < dirs.len() ==> dirs[j].pos != x.pos) {
            dirs.push(x)
        } else {
            dirs
        },
        None => dirs,
    }
}

/// The entry under the cursor.
pub open spec fn current_entry(v: IterView) -> EntryView {
    let dir = v.dirs[v.cur];
    let p = entry_pos(dir.pos as int, v.i);
    let code = u16_at(v.data, p, v.endian) as u16;
    EntryView {
        ifd_index: v.cur as usize,
        entry_index: v.i as usize,
        tag: tag_spec(dir.kind, code),
        tag_code: code,
        result: entry_value_spec(v.data, v.base, v.endian, v.tz, dir.kind, p),
    }
}

/// One step of iteration: the entry yielded, if any, and the next state.
pub open spec fn step(v: IterView) -> (Option<EntryView>, IterView)
    decreases v.dirs.len() - v.cur,
{
    if v.cur < 0 || v.cur >= v.dirs.len() {
        (None, v)
    } else if v.i < v.dirs[v.cur].n {
        let dir = v.dirs[v.cur];
        let p = entry_pos(dir.pos as int, v.i);
        (Some(current_entry(v)), IterView {
            dirs: enqueue(v.dirs, sub_dir_at(v.data, v.base, v.endian, dir.kind, p)),
            i: v.i + 1,
            ..v
        })
    } else {
        step(IterView { cur: v.cur + 1, i: 0, ..v })
    }
}

/// The entries that up to `fuel` steps yield, until the first step that
/// yields none.
pub open spec fn drain(v: IterView, fuel: nat) -> Seq<EntryView>
    decreases fuel,
{
    if fuel == 0 {
        seq![]
    } else {
        match step(v).0 {
            None => seq![],
            Some(e) => seq![e] + drain(step(v).1, (fuel - 1) as nat),
        }
    }
}

/// The state from which iteration over the same data starts: the first entry
/// of IFD0.
pub open spec fn restart(v: IterView) -> IterView {
    IterView { dirs: seq![v.dirs[0]], cur: 0, i: 0, ..v }
}

/// The sequence of all entries of the data under the given state.
pub open spec fn all_entries(v: IterView) -> Seq<EntryView> {
    drain(restart(v), MAX_ENTRIES as nat)
}

/// The UTC offset text that the entry record at `p` of IFD0 carries, if any.
pub open spec fn tz_at(d: Seq<u8>, base: int, e: Endian, p: int) -> Option<Seq<u8>> {
    if is_tz_tag(u16_at(d, p, e) as u16) {
        match entry_value_spec(d, base, e, None, DirKind::Main, p) {
            Ok(ValueView::Text(t)) => Some(t),
            _ => None,
        }
    } else {
        None
    }
}

/// The first UTC offset text among the entries `j..n` of IFD0.
pub open spec fn find_tz(d: Seq<u8>, base: int, e: Endian, pos: int, n: int, j: int) -> Option<Seq<u8>>
    decreases n - j,
{
    if j >= n {
        None
    } else {
        match tz_at(d, base, e, entry_pos(pos, j)) {
            Some(t) => Some(t),
            None => find_tz(d, base, e, pos, n, j + 1),
        }
    }
}

/// The state in which iteration over `d` starts, if IFD0's entry table,
/// whose count stands at buffer index `pos`, lies inside `d`. `d[0]` stands
/// at offset `base` of the TIFF data.
pub open spec fn start_view(d: Seq<u8>, base: int, h: TiffHeader, pos: int) -> Option<IterView> {
    match dir_at(d, h.endian, DirKind::Main, pos) {
        None => None,
        Some(dir) => Some(IterView {
            data: d,
            base,
            endian: h.endian,
            tz: find_tz(d, base, h.endian, pos, dir.n as int, 0),
            dirs: seq![dir],
            cur: 0,
            i: 0,
        }),
    }
}

/// A lazy iterator over the entries of IFD0 and of the sub-directories that
/// its pointer tags lead to, breadth first.
pub struct ExifIter {
    data: Arc<Vec<u8>>,
    base: u32,
    header: TiffHeader,
    tz: Option<Vec<u8>>,
    dirs: Vec<Dir>,
    cur: usize,
    i: usize,
}

impl View for ExifIter {
    type V = IterView;

    closed spec fn view(&self) -> IterView {
        IterView {
            data: self.data@,
            base: self.base as int,
            endian: self.header.endian,
            tz: opt_view(self.tz),
            dirs: self.dirs@,
            cur: self.cur as int,
            i: self.i as int,
        }
    }
}

/// Whether a state is one that iteration can reach.
pub open spec fn view_ok(v: IterView) -> bool {
    &&& dirs_ok(v.data, v.dirs)
    &&& 0 <= v.cur <= v.dirs.len()
    &&& v.cur < v.dirs.len() ==> 0 <= v.i <= v.dirs[v.cur].n
    &&& 0 <= v.base <= u32::MAX
}

fn dir_at_exec(d: &[u8], e: Endian, kind: DirKind, pos: u64) -> (r: Option<Dir>)
    ensures
        r == dir_at(d@, e, kind, pos as int),
        r matches Some(x) ==> x.n <= 65535,
{
    let len = d.len();
    if pos > len as u64 || len as u64 - pos < 2 {
        return None;
    }
    let n = read_u16(d, pos as usize, e) as u64;
    if 12 * n > len as u64 - pos - 2 {
        return None;
    }
    Some(Dir { kind, pos: pos as usize, n: n as usize })
}

fn sub_dir_exec(d: &[u8], base: u32, e: Endian, kind: DirKind, p: usize) -> (r: Option<Dir>)
    requires
        p + 12 <= d@.len(),
    ensures
        r == sub_dir_at(d@, base as int, e, kind, p as int),
        r matches Some(x) ==> x.n <= 65535,
{
    let len = d.len();
    let code = read_u16(d, p, e);
    let t = read_u16(d, p + 2, e);
    match sub_dir_of(kind, code) {
        None => None,
        Some(k) => if (t == 4 || t == 13) && read_u32(d, p + 4, e) == 1 {
            let off = read_u32(d, p + 8, e);
            if off < base {
                None
            } else {
                dir_at_exec(d, e, k, (off - base) as u64)
            }
        } else {
            None
        },
    }
}

impl ExifIter {
    /// The iterator's well-formedness.
    pub closed spec fn wf(&self) -> bool {
        &&& view_ok(self@)
        &&& self.header.endian == self@.endian
    }

    /// Builds an iterator over `data`, whose first byte stands at offset
    /// `base` of the TIFF data, with IFD0's entry count at buffer index
    /// `pos`. Before anything is yielded, IFD0 is scanned for a UTC offset,
    /// which date and time values then carry. `None` if IFD0's entry table
    /// does not lie inside the data.
    pub fn try_new(data: Vec<u8>, base: u32, header: TiffHeader, pos: u64) -> (r: Option<ExifIter>)
        ensures
            match start_view(data@, base as int, header, pos as int) {
                None => r.is_none(),
                Some(v) => r matches Some(it) && it.wf() && it@ == v && it.spec_header() == header,
            },
    {
        let len = data.len();
        let dir = match dir_at_exec(data.as_slice(), header.endian, DirKind::Main, pos) {
            Some(dir) => dir,
            None => return None,
        };
        let tz = scan_tz(data.as_slice(), base, header.endian, dir);
        let mut dirs: Vec<Dir> = Vec::new();
        dirs.push(dir);
        let it = ExifIter { data: Arc::new(data), base, header, tz, dirs, cur: 0, i: 0 };
        proof {
            assert(it@.dirs =~= seq![dir]);
            assert(it@.dirs[0] == dir);
            assert(dirs_ok(it@.data, it@.dirs));
            assert(view_ok(it@));
        }
        Some(it)
    }

    pub closed spec fn spec_header(&self) -> TiffHeader {
        self.header
    }

    /// The header of the TIFF data.
    pub fn header(&self) -> (r: TiffHeader)
        ensures
            r == self.spec_header(),
    {
        self.header
    }

    /// Yields the next entry: the rest of the current directory, then the
    /// directories found so far, in the order their pointers were met.
    pub fn next(&mut self) -> (r: Option<ParsedExifEntry>)
        requires
            old(self).wf(),
        ensures
            final(self).wf(),
            step(old(self)@).1 == final(self)@,
            match (r, step(old(self)@).0) {
                (Some(a), Some(b)) => a@ == b,
                (None, None) => true,
                _ => false,
            },
    {
        loop
            invariant
                self.wf(),
                step(self@) == step(old(self)@),
            decreases self.dirs@.len() - self.cur,
        {
            if self.cur >= self.dirs.len() {
                return None;
            }
            let dir = self.dirs[self.cur];
            if self.i < dir.n {
                let len = (*self.data).len();
                proof {
                    assert(entry_pos(dir.pos as int, dir.n as int) <= self.data@.len());
                }
                let p = dir.pos + 2 + 12 * self.i;
                let e = self.header.endian;
                let code = read_u16((*self.data).as_slice(), p, e);
                let result = decode_entry((*self.data).as_slice(), self.base, e, &self.tz, dir.kind, p);
                let tag = tag_of(dir.kind, code);
                let entry = ParsedExifEntry { ifd_index: self.cur, entry_index: self.i, tag, tag_code: code, result };
                proof {
                    assert(result_view(entry.result) == current_entry(self@).result);
                }
                let sub = sub_dir_exec((*self.data).as_slice(), self.base, e, dir.kind, p);
                self.enqueue(sub);
                self.i = self.i + 1;
                return Some(entry);
            }
            self.cur = self.cur + 1;
            self.i = 0;
        }
    }

    fn enqueue(&mut self, x: Option<Dir>)
        requires
            dirs_ok(old(self).data@, old(self).dirs@),
            x matches Some(d) ==> entry_pos(d.pos as int, d.n as int) <= old(self).data@.len() && d.n <= 65535,
        ensures
            dirs_ok(final(self).data@, final(self).dirs@),
            final(self).dirs@ == enqueue(old(self).dirs@, x),
            final(self).data == old(self).data,
            final(self).base == old(self).base,
            final(self).header == old(self).header,
            final(self).tz == old(self).tz,
            final(self).cur == old(self).cur,
            final(self).i == old(self).i,
    {
        let d = match x {
            Some(d) => d,
            None => return,
        };
        if self.dirs.len() >= MAX_DIRS {
            return;
        }
        let mut j: usize = 0;
        while j < self.dirs.len()
            invariant
                j <= self.dirs@.len(),
                self.dirs@ == old(self).dirs@,
                self.data == old(self).data,
                self.base == old(self).base,
                self.header == old(self).header,
                self.tz == old(self).tz,
                self.cur == old(self).cur,
                self.i == old(self).i,
                dirs_ok(self.data@, self.dirs@),
                x == Some(d),
                forall|k: int| 0 <= k < j ==> self.dirs@[k].pos != d.pos,
            decreases self.dirs@.len() - j,
        {
            if self.dirs[j].pos == d.pos {
                proof {
                    assert(self.dirs@[j as int].pos == d.pos);
                }
                return;
            }
            j = j + 1;
        }
        self.dirs.push(d);
        proof {
            assert forall|k: int| 0 <= k < self.dirs@.len() implies entry_pos(
                #[trigger] self.dirs@[k].pos as int, self.dirs@[k].n as int) <= self.data@.len()
                && self.dirs@[k].n <= 65535 by {
                if k < self.dirs@.len() - 1 {
                    assert(self.dirs@[k] == old(self).dirs@[k]);
                }
            }
        }
    }

    /// An iterator over the same data that starts again at the first entry of
    /// IFD0. The data is shared with `self`, not copied.
    pub fn restarted(&self) -> (r: ExifIter)
        requires
            self.wf(),
        ensures
            r.wf(),
            r@ == restart(self@),
            r.spec_header() == self.spec_header(),
    {
        let mut dirs: Vec<Dir> = Vec::new();
        dirs.push(self.dirs[0]);
        let tz = match &self.tz {
            Some(z) => Some(z.clone()),
            None => None,
        };
        let r = ExifIter { data: self.data.clone(), base: self.base, header: self.header, tz, dirs, cur: 0, i: 0 };
        proof {
            assert(r@.dirs =~= seq![self.dirs@[0]]);
            assert(r@.data =~= self@.data);
            assert(r@ =~= restart(self@));
        }
        r
    }

    /// All entries of the data, from the first entry of IFD0 on; `self` is
    /// left as it is.
    pub fn entries(&self) -> (r: Vec<ParsedExifEntry>)
        requires
            self.wf(),
        ensures
            views(r@) == all_entries(self@),
    {
        let mut it = self.restarted();
        let mut r: Vec<ParsedExifEntry> = Vec::new();
        let mut fuel: usize = MAX_ENTRIES;
        while fuel > 0
            invariant
                it.wf(),
                views(r@) + drain(it@, fuel as nat) == all_entries(self@),
            decreases fuel,
        {
            let ghost before = it@;
            match it.next() {
                None => {
                    proof {
                        assert(drain(before, fuel as nat) =~= seq![]);
                        assert(views(r@) =~= views(r@) + drain(before, fuel as nat));
                    }
                    return r;
                },
                Some(e) => {
                    proof {
                        assert(views(r@.push(e)) =~= views(r@).push(e@));
                    }
                    r.push(e);
                    fuel = fuel - 1;
                    proof {
                        assert(views(r@) + drain(it@, fuel as nat) =~= views(r@.drop_last()) + drain(before, (fuel + 1) as nat));
                    }
                },
            }
        }
        proof {
            assert(views(r@) =~= views(r@) + drain(it@, 0));
        }
        r
    }
}

/// Scans IFD0 for the first entry that carries a UTC offset text.
fn scan_tz(d: &[u8], base: u32, e: Endian, dir: Dir) -> (r: Option<Vec<u8>>)
    requires
        entry_pos(dir.pos as int, dir.n as int) <= d@.len(),
    ensures
        opt_view(r) == find_tz(d@, base as int, e, dir.pos as int, dir.n as int, 0),
{
    let len = d.len();
    let mut j: usize = 0;
    while j < dir.n
        invariant
            len == d@.len(),
            entry_pos(dir.pos as int, dir.n as int) <= d@.len(),
            j <= dir.n,
            find_tz(d@, base as int, e, dir.pos as int, dir.n as int, j as int)
                == find_tz(d@, base as int, e, dir.pos as int, dir.n as int, 0),
        decreases dir.n - j,
    {
        let p = dir.pos + 2 + 12 * j;
        let code = read_u16(d, p, e);
        if code == crate::tags::TAG_OFFSET_TIME || code == crate::tags::TAG_OFFSET_TIME_ORIGINAL
            || code == crate::tags::TAG_OFFSET_TIME_DIGITIZED {
            let none: Option<Vec<u8>> = None;
            proof {
                assert(opt_view(none) == None::<Seq<u8>>);
            }
            match decode_entry(d, base, e, &none, DirKind::Main, p) {
                Ok(EntryValue::Text(t)) => return Some(t),
                _ => {},
            }
        }
        j = j + 1;
    }
    None
}

} // verus!
