use vstd::prelude::*;

use crate::gps::{GPSInfo, LatLng};
use crate::values::URational;

verus! {

/// Numerator of a rational, which reads as zero when its denominator is zero.
pub open spec fn num_of(r: URational) -> int {
    if r.1 == 0 {
        0
    } else {
        r.0 as int
    }
}

/// Denominator of a rational, one when it is zero.
pub open spec fn den_of(r: URational) -> int {
    if r.1 == 0 {
        1
    } else {
        r.1 as int
    }
}

/// Numerator of `deg + min / 60 + sec / 3600` over [`dms_den`].
pub open spec fn dms_num(l: LatLng) -> int {
    num_of(l.0) * den_of(l.1) * den_of(l.2) * 3600 + num_of(l.1) * den_of(l.0) * den_of(l.2) * 60
        + num_of(l.2) * den_of(l.0) * den_of(l.1)
}

pub open spec fn dms_den(l: LatLng) -> int {
    3600 * (den_of(l.0) * den_of(l.1) * den_of(l.2))
}

/// `scale * n / d` rounded to the nearest integer, halves up.
pub open spec fn round_scaled(n: int, d: int, scale: int) -> int {
    (2 * scale * n + d) / (2 * d)
}

pub open spec fn digit_char(d: int) -> char {
    ((48 + d) as u8) as char
}

/// The decimal digits of `v`, without leading zeros.
pub open spec fn decimal(v: nat) -> Seq<char>
    decreases v,
{
    if v < 10 {
        seq![digit_char(v as int)]
    } else {
        decimal(v / 10).push(digit_char((v % 10) as int))
    }
}

/// The decimal digits of `v`, with leading zeros up to `w` digits.
pub open spec fn padded(v: nat, w: nat) -> Seq<char> {
    let d = decimal(v);
    if d.len() >= w {
        d
    } else {
        Seq::new((w - d.len()) as nat, |i: int| '0') + d
    }
}

/// `v / scale` written with at least `w` integer digits and `fw` fraction
/// digits, where `scale` is ten to the power `fw`.
pub open spec fn fixed(v: nat, w: nat, fw: nat, scale: nat) -> Seq<char> {
    padded(v / scale, w) + seq!['.'] + padded(v % scale, fw)
}

pub open spec fn sign(neg: bool) -> Seq<char> {
    if neg {
        seq!['-']
    } else {
        seq!['+']
    }
}

pub open spec fn crs_suffix() -> Seq<char> {
    seq!['C', 'R', 'S', 'W', 'G', 'S', '_', '8', '4']
}

/// A signed coordinate in decimal degrees with `w` integer digits at least
/// and five fraction digits.
pub open spec fn coord_text(neg: bool, l: LatLng, w: nat) -> Seq<char> {
    sign(neg) + fixed(round_scaled(dms_num(l), dms_den(l), 100000) as nat, w, 5, 100000)
}

/// The signed altitude in metres with three fraction digits and the CRS
/// name; nothing when the altitude is zero.
pub open spec fn altitude_text(g: GPSInfo) -> Seq<char> {
    if num_of(g.altitude) == 0 {
        seq![]
    } else {
        sign(g.altitude_ref == 1) + fixed(
            round_scaled(num_of(g.altitude), den_of(g.altitude), 1000) as nat,
            1,
            3,
            1000,
        ) + crs_suffix()
    }
}

/// The ISO 6709 text of a position: latitude and longitude, the altitude,
/// and a final `/`. Signs come from the reference characters and byte alone:
/// `S`, `W` and 1 are negative.
pub open spec fn iso6709_spec(g: GPSInfo) -> Seq<char> {
    coord_text(g.latitude_ref == 'S', g.latitude, 2) + coord_text(g.longitude_ref == 'W', g.longitude, 3)
        + altitude_text(g) + seq!['/']
}

/// Relies on `String::push`: appends one character.
#[verifier::external_body]
fn push_char(s: &mut String, c: char)
    ensures
        final(s)@ == old(s)@.push(c),
{
    s.push(c);
}

fn push_all(s: &mut String, cs: &Vec<char>)
    ensures
        final(s)@ == old(s)@ + cs@,
{
    let mut i: usize = 0;
    while i < cs.len()
        invariant
            i <= cs@.len(),
            s@ == old(s)@ + cs@.take(i as int),
        decreases cs@.len() - i,
    {
        push_char(s, cs[i]);
        i = i + 1;
        proof {
            assert(cs@.take(i as int) =~= cs@.take(i - 1).push(cs@[i - 1]));
        }
    }
    proof {
        assert(cs@.take(i as int) =~= cs@);
    }
}

fn digits(v: u128) -> (r: Vec<char>)
    ensures
        r@ == decimal(v as nat),
{
    let mut cur = v;
    let mut acc: Vec<char> = Vec::new();
    proof {
        assert(decimal(v as nat) =~= decimal(cur as nat) + acc@);
    }
    while cur >= 10
        invariant
            decimal(v as nat) == decimal(cur as nat) + acc@,
        decreases cur,
    {
        let ghost old_acc = acc@;
        let d = (cur % 10) as u8;
        acc.insert(0, (48u8 + d) as char);
        proof {
            assert(acc@ =~= seq![digit_char((cur % 10) as int)] + old_acc);
            assert(decimal(cur as nat) == decimal((cur / 10) as nat).push(digit_char((cur % 10) as int)));
            assert(decimal((cur / 10) as nat) + acc@ =~= decimal(cur as nat) + old_acc);
        }
        cur = cur / 10;
    }
    let ghost old_acc = acc@;
    acc.insert(0, (48u8 + cur as u8) as char);
    proof {
        assert(acc@ =~= decimal(cur as nat) + old_acc);
    }
    acc
}

fn push_padded(s: &mut String, v: u128, w: usize)
    ensures
        final(s)@ == old(s)@ + padded(v as nat, w as nat),
{
    let ds = digits(v);
    if ds.len() < w {
        let mut k: usize = ds.len();
        let ghost start = s@;
        while k < w
            invariant
                ds@.len() <= k <= w,
                s@ == start + Seq::new((k - ds@.len()) as nat, |i: int| '0'),
            decreases w - k,
        {
            push_char(s, '0');
            k = k + 1;
            proof {
                assert(s@ =~= start + Seq::new((k - ds@.len()) as nat, |i: int| '0'));
            }
        }
        push_all(s, &ds);
        proof {
            assert(s@ =~= start + (Seq::new((w - ds@.len()) as nat, |i: int| '0') + ds@));
        }
    } else {
        push_all(s, &ds);
    }
}

fn push_fixed(s: &mut String, v: u128, w: usize, fw: usize, scale: u128)
    requires
        scale > 0,
    ensures
        final(s)@ == old(s)@ + fixed(v as nat, w as nat, fw as nat, scale as nat),
{
    push_padded(s, v / scale, w);
    push_char(s, '.');
    push_padded(s, v % scale, fw);
    proof {
        assert(s@ =~= old(s)@ + fixed(v as nat, w as nat, fw as nat, scale as nat));
    }
}

fn push_sign(s: &mut String, neg: bool)
    ensures
        final(s)@ == old(s)@ + sign(neg),
{
    push_char(s, if neg { '-' } else { '+' });
    proof {
        assert(s@ =~= old(s)@ + sign(neg));
    }
}

/// The numerator and denominator of a rational as [`num_of`] and [`den_of`]
/// read them.
fn parts(r: URational) -> (p: (u128, u128))
    ensures
        p.0 == num_of(r),
        p.1 == den_of(r),
        p.0 <= 0xffff_ffff,
        1 <= p.1 <= 0xffff_ffff,
{
    if r.1 == 0 {
        (0, 1)
    } else {
        (r.0 as u128, r.1 as u128)
    }
}

fn mul3(a: u128, b: u128, c: u128) -> (r: u128)
    requires
        a <= 0xffff_ffff,
        b <= 0xffff_ffff,
        c <= 0xffff_ffff,
    ensures
        r == a * b * c,
        r <= 79228162458924105385300197375,
{
    proof {
        assert(a * b <= 0xffff_ffff * 0xffff_ffff) by (nonlinear_arith)
            requires a <= 0xffff_ffff, b <= 0xffff_ffff;
        assert(a * b * c <= (0xffff_ffff * 0xffff_ffff) * 0xffff_ffff) by (nonlinear_arith)
            requires a * b <= 0xffff_ffff * 0xffff_ffff, c <= 0xffff_ffff;
    }
    a * b * c
}

/// `scale * n / d` rounded, for the fraction of degrees, minutes and seconds.
fn round_dms(l: LatLng) -> (r: u128)
    ensures
        r == round_scaled(dms_num(l), dms_den(l), 100000),
{
    let (a0, a1) = parts(l.0);
    let (b0, b1) = parts(l.1);
    let (c0, c1) = parts(l.2);
    let t1 = mul3(a0, b1, c1);
    let t2 = mul3(b0, a1, c1);
    let t3 = mul3(c0, a1, b1);
    let n = t1 * 3600 + t2 * 60 + t3;
    let d = 3600 * mul3(a1, b1, c1);
    proof {
        assert(n <= 3661 * 79228162458924105385300197375);
        assert(2 * 100000 * n <= 732200000 * 79228162458924105385300197375) by (nonlinear_arith)
            requires n <= 3661 * 79228162458924105385300197375;
        assert(d <= 3600 * 79228162458924105385300197375);
        assert(a1 * b1 * c1 >= 1) by (nonlinear_arith)
            requires a1 >= 1, b1 >= 1, c1 >= 1;
    }
    (2 * 100000 * n + d) / (2 * d)
}

fn push_coord(s: &mut String, neg: bool, l: LatLng, w: usize)
    ensures
        final(s)@ == old(s)@ + coord_text(neg, l, w as nat),
{
    push_sign(s, neg);
    push_fixed(s, round_dms(l), w, 5, 100000);
    proof {
        assert(s@ =~= old(s)@ + coord_text(neg, l, w as nat));
    }
}

fn push_altitude(s: &mut String, g: &GPSInfo)
    ensures
        final(s)@ == old(s)@ + altitude_text(*g),
{
    let (an, ad) = parts(g.altitude);
    if an != 0 {
        push_sign(s, g.altitude_ref == 1);
        push_fixed(s, (2 * 1000 * an + ad) / (2 * ad), 1, 3, 1000);
        let ghost mid = s@;
        push_char(s, 'C');
        push_char(s, 'R');
        push_char(s, 'S');
        push_char(s, 'W');
        push_char(s, 'G');
        push_char(s, 'S');
        push_char(s, '_');
        push_char(s, '8');
        push_char(s, '4');
        proof {
            assert(s@ =~= mid + crs_suffix());
            assert(s@ =~= old(s)@ + altitude_text(*g));
        }
    } else {
        proof {
            assert(s@ =~= old(s)@ + altitude_text(*g));
        }
    }
}

impl GPSInfo {
    /// Renders the position as ISO 6709 text.
    pub fn format_iso6709(&self) -> (r: String)
        ensures
            r@ == iso6709_spec(*self),
    {
        let mut s = String::new();
        push_coord(&mut s, self.latitude_ref == 'S', self.latitude, 2);
        push_coord(&mut s, self.longitude_ref == 'W', self.longitude, 3);
        push_altitude(&mut s, self);
        push_char(&mut s, '/');
        proof {
            assert(s@ =~= iso6709_spec(*self));
        }
        s
    }
}

} // verus!
