use vstd::prelude::*;

use crate::error::EntryError;
use crate::tags::{is_time_tag, DirKind};
use crate::tiff::{read_u16, read_u32, u16_at, u32_at, Endian};

verus! {

/// An unsigned rational: numerator and denominator.
#[derive(Clone, Copy, Debug, PartialEq, Eq, Structural)]
pub struct URational(pub u32, pub u32);

/// A signed rational: numerator and denominator.
#[derive(Clone, Copy, Debug, PartialEq, Eq, Structural)]
pub struct IRational(pub i32, pub i32);

/// A decoded entry value.
#[derive(Clone, Debug)]
pub enum EntryValue {
    /// ASCII text, without its trailing NUL bytes.
    Text(Vec<u8>),
    /// BYTE, SHORT, LONG and IFD values.
    Unsigned(Vec<u64>),
    /// SBYTE, SSHORT and SLONG values.
    Signed(Vec<i64>),
    URational(Vec<URational>),
    IRational(Vec<IRational>),
    /// Bytes of type UNDEFINED, as they stand.
    Undefined(Vec<u8>),
    /// The IEEE-754 bit patterns of FLOAT and DOUBLE values.
    FloatBits(Vec<u64>),
    /// A date and time as text, with the UTC offset text of the stream if
    /// one was found.
    Time(Vec<u8>, Option<Vec<u8>>),
}

/// The mathematical form of an [`EntryValue`].
pub enum ValueView {
    Text(Seq<u8>),
    Unsigned(Seq<u64>),
    Signed(Seq<i64>),
    URational(Seq<URational>),
    IRational(Seq<IRational>),
    Undefined(Seq<u8>),
    FloatBits(Seq<u64>),
    Time(Seq<u8>, Option<Seq<u8>>),
}

pub open spec fn opt_view(o: Option<Vec<u8>>) -> Option<Seq<u8>> {
    match o {
        Some(v) => Some(v@),
        None => None,
    }
}

impl View for EntryValue {
    type V = ValueView;

    open spec fn view(&self) -> ValueView {
        match self {
            EntryValue::Text(v) => ValueView::Text(v@),
            EntryValue::Unsigned(v) => ValueView::Unsigned(v@),
            EntryValue::Signed(v) => ValueView::Signed(v@),
            EntryValue::URational(v) => ValueView::URational(v@),
            EntryValue::IRational(v) => ValueView::IRational(v@),
            EntryValue::Undefined(v) => ValueView::Undefined(v@),
            EntryValue::FloatBits(v) => ValueView::FloatBits(v@),
            EntryValue::Time(v, z) => ValueView::Time(v@, opt_view(*z)),
        }
    }
}

/// Size in bytes of one component of a TIFF data type, if the code names one.
pub open spec fn type_size(t: u16) -> Option<nat> {
    if t == 1 || t == 2 || t == 6 || t == 7 {
        Some(1)
    } else if t == 3 || t == 8 {
        Some(2)
    } else if t == 4 || t == 9 || t == 11 || t == 13 {
        Some(4)
    } else if t == 5 || t == 10 || t == 12 {
        Some(8)
    } else {
        None
    }
}

fn type_size_of(t: u16) -> (r: Option<u64>)
    ensures
        match type_size(t) {
            Some(n) => r == Some(n as u64),
            None => r.is_none(),
        },
{
    if t == 1 || t == 2 || t == 6 || t == 7 {
        Some(1)
    } else if t == 3 || t == 8 {
        Some(2)
    } else if t == 4 || t == 9 || t == 11 || t == 13 {
        Some(4)
    } else if t == 5 || t == 10 || t == 12 {
        Some(8)
    } else {
        None
    }
}

/// Unsigned value of the `size` bytes at `i`.
pub open spec fn uint_at(d: Seq<u8>, i: int, size: nat, e: Endian) -> int {
    if size == 1 {
        d[i] as int
    } else if size == 2 {
        u16_at(d, i, e)
    } else if size == 4 {
        u32_at(d, i, e)
    } else {
        match e {
            Endian::Little => u32_at(d, i, e) + 0x1_0000_0000 * u32_at(d, i + 4, e),
            Endian::Big => 0x1_0000_0000 * u32_at(d, i, e) + u32_at(d, i + 4, e),
        }
    }
}

/// Two's-complement reading of an unsigned value of `size` bytes.
pub open spec fn signed_of(v: int, size: nat) -> int {
    let half = if size == 1 {
        0x80int
    } else if size == 2 {
        0x8000int
    } else {
        0x8000_0000int
    };
    if v < half {
        v
    } else {
        v - 2 * half
    }
}

/// The bytes `s` with their trailing NUL bytes removed.
pub open spec fn trim_nul(s: Seq<u8>) -> Seq<u8>
    decreases s.len(),
{
    if s.len() > 0 && s.last() == 0 {
        trim_nul(s.drop_last())
    } else {
        s
    }
}

/// Where the value of the entry record at buffer index `p` lies: its buffer
/// index, if all of it is inside `d`. Offsets in the record count from the
/// start of the TIFF data, and `d[0]` stands at offset `base` of it.
pub open spec fn value_start(d: Seq<u8>, base: int, e: Endian, p: int) -> Option<int> {
    let size = type_size(u16_at(d, p + 2, e) as u16).unwrap();
    let total = size * u32_at(d, p + 4, e);
    if total <= 4 {
        Some(p + 8)
    } else {
        let s = u32_at(d, p + 8, e) - base;
        if 0 <= s && s + total <= d.len() {
            Some(s)
        } else {
            None
        }
    }
}

/// The value that `count` components of type `t`, starting at `s`, encode.
pub open spec fn components(
    d: Seq<u8>,
    s: int,
    t: u16,
    count: nat,
    e: Endian,
    time: bool,
    tz: Option<Seq<u8>>,
) -> ValueView {
    let size = type_size(t).unwrap();
    if t == 2 {
        let text = trim_nul(d.subrange(s, s + count));
        if time {
            ValueView::Time(text, tz)
        } else {
            ValueView::Text(text)
        }
    } else if t == 7 {
        ValueView::Undefined(d.subrange(s, s + count))
    } else if t == 6 || t == 8 || t == 9 {
        ValueView::Signed(Seq::new(count, |k: int| signed_of(uint_at(d, s + k * size, size, e), size) as i64))
    } else if t == 5 {
        ValueView::URational(Seq::new(count, |k: int| URational(
            u32_at(d, s + 8 * k, e) as u32, u32_at(d, s + 8 * k + 4, e) as u32)))
    } else if t == 10 {
        ValueView::IRational(Seq::new(count, |k: int| IRational(
            signed_of(u32_at(d, s + 8 * k, e), 4) as i32,
            signed_of(u32_at(d, s + 8 * k + 4, e), 4) as i32)))
    } else if t == 11 || t == 12 {
        ValueView::FloatBits(Seq::new(count, |k: int| uint_at(d, s + k * size, size, e) as u64))
    } else {
        ValueView::Unsigned(Seq::new(count, |k: int| uint_at(d, s + k * size, size, e) as u64))
    }
}

/// What decoding the entry record at buffer index `p`, found in a directory
/// of the given kind, gives.
pub open spec fn entry_value_spec(
    d: Seq<u8>,
    base: int,
    e: Endian,
    tz: Option<Seq<u8>>,
    kind: DirKind,
    p: int,
) -> Result<ValueView, EntryError> {
    let tag = u16_at(d, p, e) as u16;
    let t = u16_at(d, p + 2, e) as u16;
    match type_size(t) {
        None => Err(EntryError::UnknownType(t)),
        Some(_) => match value_start(d, base, e, p) {
            None => Err(EntryError::OutOfBounds),
            Some(s) => Ok(components(d, s, t, u32_at(d, p + 4, e) as nat, e, is_time_tag(kind, tag), tz)),
        },
    }
}

/// Reads an unsigned value of `size` bytes.
fn read_uint(d: &[u8], i: usize, size: u64, e: Endian) -> (r: u64)
    requires
        size == 1 || size == 2 || size == 4 || size == 8,
        i + size <= d@.len(),
    ensures
        r as int == uint_at(d@, i as int, size as nat, e),
{
    if size == 1 {
        d[i] as u64
    } else if size == 2 {
        read_u16(d, i, e) as u64
    } else if size == 4 {
        read_u32(d, i, e) as u64
    } else {
        let n = d.len();
        let a = read_u32(d, i, e) as u64;
        let b = read_u32(d, i + 4, e) as u64;
        match e {
            Endian::Little => a + 0x1_0000_0000 * b,
            Endian::Big => 0x1_0000_0000 * a + b,
        }
    }
}

fn signed_value(v: u64, size: u64) -> (r: i64)
    requires
        size == 1 || size == 2 || size == 4,
        v < 0x1_0000_0000,
    ensures
        r as int == signed_of(v as int, size as nat),
{
    let half: u64 = if size == 1 {
        0x80
    } else if size == 2 {
        0x8000
    } else {
        0x8000_0000
    };
    if v < half {
        v as i64
    } else {
        v as i64 - 2 * half as i64
    }
}

/// Copies `d[a..b]`.
pub fn copy_range(d: &[u8], a: usize, b: usize) -> (r: Vec<u8>)
    requires
        a <= b <= d@.len(),
    ensures
        r@ == d@.subrange(a as int, b as int),
{
    let mut r: Vec<u8> = Vec::new();
    let mut i: usize = a;
    while i < b
        invariant
            a <= i <= b <= d@.len(),
            r@ == d@.subrange(a as int, i as int),
        decreases b - i,
    {
        r.push(d[i]);
        i = i + 1;
        proof {
            assert(r@ =~= d@.subrange(a as int, i as int));
        }
    }
    r
}

/// `d[a..b]` without its trailing NUL bytes.
fn trimmed_text(d: &[u8], a: usize, b: usize) -> (r: Vec<u8>)
    requires
        a <= b <= d@.len(),
    ensures
        r@ == trim_nul(d@.subrange(a as int, b as int)),
{
    let mut end: usize = b;
    while end > a && d[end - 1] == 0
        invariant
            a <= end <= b <= d@.len(),
            trim_nul(d@.subrange(a as int, end as int)) == trim_nul(d@.subrange(a as int, b as int)),
        decreases end,
    {
        proof {
            assert(d@.subrange(a as int, end as int).drop_last() =~= d@.subrange(a as int, end - 1));
        }
        end = end - 1;
    }
    copy_range(d, a, end)
}

/// Decodes `count` components of type `t` starting at buffer index `s`.
fn decode_components(
    d: &[u8],
    s: usize,
    t: u16,
    count: usize,
    e: Endian,
    time: bool,
    tz: &Option<Vec<u8>>,
) -> (r: EntryValue)
    requires
        type_size(t).is_some(),
        s + count * type_size(t).unwrap() <= d@.len(),
    ensures
        r@ == components(d@, s as int, t, count as nat, e, time, opt_view(*tz)),
{
    let n = d.len();
    let size = type_size_of(t).unwrap();
    let ghost sz = size as nat;
    proof {
        assert(count * sz >= count) by (nonlinear_arith)
            requires sz >= 1;
    }
    if t == 2 {
        let text = trimmed_text(d, s, s + count);
        if time {
            let z = match tz {
                Some(z) => Some(z.clone()),
                None => None,
            };
            proof {
                assert(opt_view(z) == opt_view(*tz));
            }
            EntryValue::Time(text, z)
        } else {
            EntryValue::Text(text)
        }
    } else if t == 7 {
        EntryValue::Undefined(copy_range(d, s, s + count))
    } else if t == 5 || t == 10 {
        let mut ur: Vec<URational> = Vec::new();
        let mut ir: Vec<IRational> = Vec::new();
        let mut k: usize = 0;
        while k < count
            invariant
                sz == 8,
                n == d@.len(),
                k <= count,
                s + count * 8 <= d@.len(),
                ur@.len() == k,
                ir@.len() == k,
                forall|j: int| 0 <= j < k ==> ur@[j] == URational(
                    u32_at(d@, s + 8 * j, e) as u32, u32_at(d@, s + 8 * j + 4, e) as u32),
                forall|j: int| 0 <= j < k ==> ir@[j] == IRational(
                    signed_of(u32_at(d@, s + 8 * j, e), 4) as i32,
                    signed_of(u32_at(d@, s + 8 * j + 4, e), 4) as i32),
            decreases count - k,
        {
            proof {
                assert(8 * k + 8 <= 8 * count) by (nonlinear_arith)
                    requires k < count;
            }
            let p = s + 8 * k;
            let a = read_u32(d, p, e);
            let b = read_u32(d, p + 4, e);
            ur.push(URational(a, b));
            ir.push(IRational(signed_value(a as u64, 4) as i32, signed_value(b as u64, 4) as i32));
            k = k + 1;
        }
        if t == 5 {
            proof {
                assert(ur@ =~= Seq::new(count as nat, |j: int| URational(
                    u32_at(d@, s + 8 * j, e) as u32, u32_at(d@, s + 8 * j + 4, e) as u32)));
            }
            EntryValue::URational(ur)
        } else {
            proof {
                assert(ir@ =~= Seq::new(count as nat, |j: int| IRational(
                    signed_of(u32_at(d@, s + 8 * j, e), 4) as i32,
                    signed_of(u32_at(d@, s + 8 * j + 4, e), 4) as i32)));
            }
            EntryValue::IRational(ir)
        }
    } else {
        let signed = t == 6 || t == 8 || t == 9;
        let mut us: Vec<u64> = Vec::new();
        let mut is: Vec<i64> = Vec::new();
        let mut k: usize = 0;
        while k < count
            invariant
                sz == size,
                n == d@.len(),
                type_size(t) == Some(sz),
                k <= count,
                s + count * sz <= d@.len(),
                signed == (t == 6 || t == 8 || t == 9),
                us@.len() == k,
                signed ==> is@.len() == k,
                forall|j: int| 0 <= j < k ==> us@[j] == uint_at(d@, s + j * sz, sz, e) as u64,
                signed ==> forall|j: int| 0 <= j < k ==> is@[j] == signed_of(
                    uint_at(d@, s + j * sz, sz, e), sz) as i64,
            decreases count - k,
        {
            proof {
                assert(k * sz + sz <= count * sz) by (nonlinear_arith)
                    requires k < count;
            }
            let v = read_uint(d, s + k * (size as usize), size, e);
            us.push(v);
            if signed {
                is.push(signed_value(v, size));
            }
            k = k + 1;
        }
        if signed {
            proof {
                assert(is@ =~= Seq::new(count as nat, |j: int| signed_of(
                    uint_at(d@, s + j * sz, sz, e), sz) as i64));
            }
            EntryValue::Signed(is)
        } else {
            proof {
                assert(us@ =~= Seq::new(count as nat, |j: int| uint_at(d@, s + j * sz, sz, e) as u64));
            }
            if t == 11 || t == 12 {
                EntryValue::FloatBits(us)
            } else {
                EntryValue::Unsigned(us)
            }
        }
    }
}

/// Decodes the value of the entry record at buffer index `p`. `d[0]` stands
/// at offset `base` of the TIFF data.
pub fn decode_entry(
    d: &[u8],
    base: u32,
    e: Endian,
    tz: &Option<Vec<u8>>,
    kind: DirKind,
    p: usize,
) -> (r: Result<EntryValue, EntryError>)
    requires
        p + 12 <= d@.len(),
    ensures
        match (r, entry_value_spec(d@, base as int, e, opt_view(*tz), kind, p as int)) {
            (Ok(v), Ok(w)) => v@ == w,
            (Err(x), Err(y)) => x == y,
            _ => false,
        },
{
    let n = d.len();
    let tag = read_u16(d, p, e);
    let t = read_u16(d, p + 2, e);
    let size = match type_size_of(t) {
        Some(z) => z,
        None => return Err(EntryError::UnknownType(t)),
    };
    let count = read_u32(d, p + 4, e) as u64;
    proof {
        assert(size * count <= 8 * 0xffff_ffff) by (nonlinear_arith)
            requires size <= 8, count <= 0xffff_ffff;
    }
    let total = size * count;
    let s: usize = if total <= 4 {
        p + 8
    } else {
        let off = read_u32(d, p + 8, e) as u64;
        if off < base as u64 || off - base as u64 > n as u64 || total > n as u64 - (off - base as u64) {
            return Err(EntryError::OutOfBounds);
        }
        (off - base as u64) as usize
    };
    proof {
        assert(count <= total) by (nonlinear_arith)
            requires total == size * count, size >= 1;
        assert(count * size == total) by (nonlinear_arith)
            requires total == size * count;
    }
    let time = tag == crate::tags::TAG_MODIFY_DATE || tag == crate::tags::TAG_DATE_TIME_ORIGINAL
        || tag == crate::tags::TAG_CREATE_DATE;
    let time = time && kind != DirKind::Gps && kind != DirKind::Interop;
    Ok(decode_components(d, s, t, count as usize, e, time, tz))
}

} // verus!
