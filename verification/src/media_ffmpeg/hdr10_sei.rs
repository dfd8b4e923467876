//! HDR10 metadata of a decoded frame.

use vstd::prelude::*;
use crate::media_core::Hdr10Metadata;
use crate::media_ffmpeg::options::Rational;

verus! {

/// The mastering display as FFmpeg hands it on: red, green and blue primaries and
/// the white point with their coordinates, and luminance in candela per square
/// metre.
#[derive(Debug, Clone, Copy)]
pub struct MasteringDisplay {
    pub display_primaries: [(Rational, Rational); 3],
    pub white_point: (Rational, Rational),
    pub min_luminance: Rational,
    pub max_luminance: Rational,
}

/// The content light level as FFmpeg hands it on, in candela per square metre.
#[derive(Debug, Clone, Copy, PartialEq, Eq, Structural)]
pub struct ContentLight {
    pub max_cll: u32,
    pub max_fall: u32,
}

/// The fraction is negative.
pub open spec fn negative(r: Rational) -> bool {
    (r.num < 0 && r.den > 0) || (r.num > 0 && r.den < 0)
}

/// A number without its sign.
pub open spec fn size(n: int) -> int {
    if n < 0 {
        -n
    } else {
        n
    }
}

/// A number cut at an upper bound.
pub open spec fn at_most(n: int, bound: int) -> int {
    if n > bound {
        bound
    } else {
        n
    }
}

/// A chromaticity coordinate in steps of 0.00002, to the nearest step; zero where
/// the fraction has no value or a negative one.
pub open spec fn chromaticity(r: Rational) -> u16 {
    if r.den == 0 || negative(r) {
        0
    } else {
        at_most(
            (2 * size(r.num as int) * 50000 + size(r.den as int)) / (2 * size(r.den as int)),
            0xFFFF,
        ) as u16
    }
}

/// A luminance in steps of 0.0001, cut to whole steps; zero where the fraction has
/// no value or a negative one.
pub open spec fn luminance(r: Rational) -> u32 {
    if r.den == 0 || negative(r) {
        0
    } else {
        at_most(size(r.num as int) * 10000 / size(r.den as int), 0xFFFF_FFFF) as u32
    }
}

fn magnitude(n: i32) -> (r: u64)
    ensures
        r == size(n as int),
        r <= 0x8000_0000,
{
    if n < 0 {
        (-(n as i64)) as u64
    } else {
        n as u64
    }
}

fn rat_to_u16(r: Rational) -> (v: u16)
    ensures
        v == chromaticity(r),
{
    if r.den == 0 || (r.num < 0 && r.den > 0) || (r.num > 0 && r.den < 0) {
        return 0;
    }
    let num: u64 = magnitude(r.num);
    let den: u64 = magnitude(r.den);
    let steps: u64 = (2 * num * 50000 + den) / (2 * den);
    if steps > 0xFFFF {
        0xFFFF
    } else {
        steps as u16
    }
}

fn lum_to_u32(r: Rational) -> (v: u32)
    ensures
        v == luminance(r),
{
    if r.den == 0 || (r.num < 0 && r.den > 0) || (r.num > 0 && r.den < 0) {
        return 0;
    }
    let steps: u64 = magnitude(r.num) * 10000 / magnitude(r.den);
    if steps > 0xFFFF_FFFF {
        0xFFFF_FFFF
    } else {
        steps as u32
    }
}

fn cut_to_u16(n: u32) -> (v: u16)
    ensures
        v == at_most(n as int, 0xFFFF),
{
    if n > 0xFFFF {
        0xFFFF
    } else {
        n as u16
    }
}

/// A point of the colour space in steps of 0.00002.
pub open spec fn point(p: (Rational, Rational)) -> (u16, u16) {
    (chromaticity(p.0), chromaticity(p.1))
}

fn point_of(p: (Rational, Rational)) -> (r: (u16, u16))
    ensures
        r == point(p),
{
    (rat_to_u16(p.0), rat_to_u16(p.1))
}

/// The metadata is what the two parts of the side data say: none if neither is
/// there; what only one of them says is zero without it.
pub open spec fn sidecar_of(
    r: Option<Hdr10Metadata>,
    mastering: Option<MasteringDisplay>,
    light: Option<ContentLight>,
) -> bool {
    &&& r is None <==> mastering is None && light is None
    &&& r matches Some(m) ==> display_of(m, mastering) && light_of(m, light)
}

/// The metadata has the mastering display.
pub open spec fn display_of(m: Hdr10Metadata, mastering: Option<MasteringDisplay>) -> bool {
    match mastering {
        Some(d) => {
            &&& forall|i: int|
                0 <= i < 3 ==> #[trigger] m.display_primaries@[i] == point(d.display_primaries@[i])
            &&& m.white_point == point(d.white_point)
            &&& m.min_mastering_luminance == luminance(d.min_luminance)
            &&& m.max_mastering_luminance == luminance(d.max_luminance)
        },
        None => {
            &&& forall|i: int| 0 <= i < 3 ==> #[trigger] m.display_primaries@[i] == (0u16, 0u16)
            &&& m.white_point == (0u16, 0u16)
            &&& m.min_mastering_luminance == 0
            &&& m.max_mastering_luminance == 0
        },
    }
}

/// The metadata has the content light level.
pub open spec fn light_of(m: Hdr10Metadata, light: Option<ContentLight>) -> bool {
    match light {
        Some(l) => {
            &&& m.max_content_light_level == at_most(l.max_cll as int, 0xFFFF)
            &&& m.max_frame_average_light_level == at_most(l.max_fall as int, 0xFFFF)
        },
        None => {
            &&& m.max_content_light_level == 0
            &&& m.max_frame_average_light_level == 0
        },
    }
}

/// The HDR10 metadata of a frame; none if the frame says nothing of the mastering
/// display nor of the light level. What only one of them says is zero without it.
pub fn extract_hdr10_sidecar(
    mastering: Option<MasteringDisplay>,
    light: Option<ContentLight>,
) -> (r: Option<Hdr10Metadata>)
    ensures
        sidecar_of(r, mastering, light),
{
    if mastering.is_none() && light.is_none() {
        return None;
    }
    let mut m: Hdr10Metadata = Hdr10Metadata {
        display_primaries: [(0, 0), (0, 0), (0, 0)],
        white_point: (0, 0),
        min_mastering_luminance: 0,
        max_mastering_luminance: 0,
        max_content_light_level: 0,
        max_frame_average_light_level: 0,
    };
    if let Some(d) = mastering {
        m.display_primaries = [
            point_of(d.display_primaries[0]),
            point_of(d.display_primaries[1]),
            point_of(d.display_primaries[2]),
        ];
        m.white_point = point_of(d.white_point);
        m.min_mastering_luminance = lum_to_u32(d.min_luminance);
        m.max_mastering_luminance = lum_to_u32(d.max_luminance);
    }
    if let Some(l) = light {
        m.max_content_light_level = cut_to_u16(l.max_cll);
        m.max_frame_average_light_level = cut_to_u16(l.max_fall);
    }
    Some(m)
}

/// A coordinate that is given in steps of 0.00002, as HDR10 streams give it, comes
/// out unchanged.
pub proof fn law_coordinates_in_steps_come_out_unchanged(num: i32)
    requires
        0 <= num <= 0xFFFF,
    ensures
        chromaticity(Rational { num, den: 50000 }) == num,
{
    let n = num as int;
    assert(2 * size(50000) == 100000);
    assert((2 * n * 50000 + 50000) / 100000 == n);
    assert(chromaticity(Rational { num, den: 50000 }) == at_most(
        (2 * size(n) * 50000 + size(50000)) / (2 * size(50000)),
        0xFFFF,
    ) as u16);
}

/// A coordinate comes out as the nearest number of steps of which fifty thousand make
/// one, up to the largest that sixteen bits hold. A fraction without a value, or with a
/// negative one, comes out as zero.
pub proof fn law_coordinates_are_rounded_to_the_nearest_step(r: Rational)
    requires
        r.den != 0,
    ensures
        ({
            let c = chromaticity(r) as int;
            let n = if r.den < 0 {
                -r.num
            } else {
                r.num as int
            };
            let d = if r.den < 0 {
                -r.den
            } else {
                r.den as int
            };
            &&& n < 0 ==> c == 0
            &&& n >= 0 && c < 65_535 ==> -d < 2 * (c * d - 50_000 * n) <= d
            &&& n >= 0 && c == 65_535 ==> 2 * (c * d - 50_000 * n) <= d
        }),
{
    let n = size(r.num as int);
    let d = size(r.den as int);
    let q = (2 * n * 50000 + d) / (2 * d);
    assert(q * (2 * d) <= 2 * n * 50000 + d < (q + 1) * (2 * d)) by (nonlinear_arith)
        requires
            d > 0,
            q == (2 * n * 50000 + d) / (2 * d),
    ;
    assert(q >= 0) by (nonlinear_arith)
        requires
            d > 0,
            n >= 0,
            q == (2 * n * 50000 + d) / (2 * d),
    ;
    assert(q * (2 * d) == 2 * (q * d)) by (nonlinear_arith);
    assert((q + 1) * (2 * d) == 2 * (q * d) + 2 * d) by (nonlinear_arith);
    if q > 0xFFFF {
        assert(65_535 * d <= q * d) by (nonlinear_arith)
            requires
                q >= 65_535,
                d > 0,
        ;
    }
}

/// A luminance comes out in steps of which ten thousand make one, cut to whole steps, up
/// to the largest that thirty-two bits hold.
pub proof fn law_luminance_is_cut_to_whole_steps(r: Rational)
    requires
        r.den != 0,
    ensures
        ({
            let l = luminance(r) as int;
            let n = if r.den < 0 {
                -r.num
            } else {
                r.num as int
            };
            let d = if r.den < 0 {
                -r.den
            } else {
                r.den as int
            };
            &&& n < 0 ==> l == 0
            &&& n >= 0 && l < 0xFFFF_FFFF ==> l * d <= 10_000 * n < (l + 1) * d
            &&& n >= 0 && l == 0xFFFF_FFFF ==> l * d <= 10_000 * n
        }),
{
    let n = size(r.num as int);
    let d = size(r.den as int);
    let q = n * 10000 / d;
    assert(q * d <= n * 10000 < (q + 1) * d) by (nonlinear_arith)
        requires
            d > 0,
            q == n * 10000 / d,
    ;
    assert(q >= 0) by (nonlinear_arith)
        requires
            d > 0,
            n >= 0,
            q == n * 10000 / d,
    ;
    if q > 0xFFFF_FFFF {
        assert(0xFFFF_FFFF * d <= q * d) by (nonlinear_arith)
            requires
                q >= 0xFFFF_FFFF,
                d > 0,
        ;
    }
}

/// What a frame says of its display and of its light comes out under its own name:
/// primaries in the order in which they come, each with its first coordinate first, the
/// white point, the least and the greatest luminance, and the two light levels, which
/// sixteen bits bound.
pub proof fn law_metadata_keeps_its_places(
    m: Hdr10Metadata,
    d: MasteringDisplay,
    l: ContentLight,
    i: int,
)
    requires
        sidecar_of(Some(m), Some(d), Some(l)),
        0 <= i < 3,
    ensures
        m.display_primaries@[i].0 == chromaticity(d.display_primaries@[i].0),
        m.display_primaries@[i].1 == chromaticity(d.display_primaries@[i].1),
        m.white_point.0 == chromaticity(d.white_point.0),
        m.white_point.1 == chromaticity(d.white_point.1),
        m.min_mastering_luminance == luminance(d.min_luminance),
        m.max_mastering_luminance == luminance(d.max_luminance),
        l.max_cll <= 65_535 ==> m.max_content_light_level == l.max_cll,
        l.max_cll > 65_535 ==> m.max_content_light_level == 65_535,
        l.max_fall <= 65_535 ==> m.max_frame_average_light_level == l.max_fall,
        l.max_fall > 65_535 ==> m.max_frame_average_light_level == 65_535,
{
}

/// There is metadata exactly if the frame says something, and what it does not say is
/// zero.
pub proof fn law_what_is_not_said_is_zero(
    r: Option<Hdr10Metadata>,
    mastering: Option<MasteringDisplay>,
    light: Option<ContentLight>,
)
    requires
        sidecar_of(r, mastering, light),
    ensures
        r is Some <==> mastering is Some || light is Some,
        r is Some && light is None ==> r->0.max_content_light_level == 0
            && r->0.max_frame_average_light_level == 0,
        r is Some && mastering is None ==> {
            &&& r->0.white_point == (0u16, 0u16)
            &&& r->0.min_mastering_luminance == 0
            &&& r->0.max_mastering_luminance == 0
            &&& forall|i: int| 0 <= i < 3 ==> r->0.display_primaries@[i] == (0u16, 0u16)
        },
{
}

} // verus!
