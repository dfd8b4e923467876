//! I420 to BGRA with BT.709 coefficients.

use vstd::prelude::*;
use crate::media_sw::decoder::{consistent, shown, DecodedView};
use crate::media_sw::nv12::{clamp_byte, lemma_in_rows, lemma_position, I420Frame};
use crate::text::{decimal, push_decimal};

verus! {

/// The blue, green and red bytes of a sample; `u` and `v` are centred on zero.
pub open spec fn bgr_of(y: int, u: int, v: int) -> (u8, u8, u8) {
    (
        clamp_byte(y + (2115 * u) / 1024),
        clamp_byte(y - (534 * u + 213 * v) / 1024),
        clamp_byte(y + (1793 * v) / 1024),
    )
}

/// Byte `c` (blue, green, red, alpha) of the pixel in column `x` of row `row`.
pub open spec fn bgra_byte(frame: I420Frame, x: int, row: int, c: int) -> u8 {
    let y = frame.y@[row * frame.stride_y + x] as int;
    let at = row / 2 * frame.stride_uv + x / 2;
    let bgr = bgr_of(y, frame.u@[at] - 128, frame.v@[at] - 128);
    if c == 0 {
        bgr.0
    } else if c == 1 {
        bgr.1
    } else if c == 2 {
        bgr.2
    } else {
        0xFF
    }
}

/// The BGRA picture of a frame, without row padding.
pub open spec fn bgra_of(frame: I420Frame) -> Seq<u8> {
    Seq::new(
        (frame.width as nat) * (frame.height as nat) * 4,
        |k: int| bgra_byte(frame, k / 4 % frame.width as int, k / 4 / frame.width as int, k % 4),
    )
}

/// The luma bytes that the last pixel needs.
pub open spec fn luma_need(frame: I420Frame) -> int {
    (frame.height - 1) * frame.stride_y + frame.width
}

/// The chroma bytes that the last pixel needs.
pub open spec fn chroma_need(frame: I420Frame) -> int {
    (frame.height - 1) / 2 * frame.stride_uv + (frame.width - 1) / 2 + 1
}

/// Each plane reaches the last pixel.
pub open spec fn planes_reach(frame: I420Frame) -> bool {
    frame.width != 0 && frame.height != 0 ==> {
        &&& frame.y@.len() >= luma_need(frame)
        &&& frame.u@.len() >= chroma_need(frame)
        &&& frame.v@.len() >= chroma_need(frame)
    }
}

/// The size of the BGRA picture, or the largest `usize` where it is larger still.
pub open spec fn out_need(frame: I420Frame) -> int {
    let bytes = frame.width as int * frame.height as int * 4;
    if bytes > usize::MAX {
        usize::MAX as int
    } else {
        bytes
    }
}

/// Why a frame is refused.
pub open spec fn refusal(frame: I420Frame, out_len: nat) -> Seq<char> {
    if out_len != out_need(frame) {
        "i420_to_bgra: out buffer "@ + decimal(out_len) + " bytes but geometry "@ + decimal(
            frame.width as nat,
        ) + "x"@ + decimal(frame.height as nat) + " needs "@ + decimal(out_need(frame) as nat)
    } else if frame.y@.len() < luma_need(frame) {
        "i420_to_bgra: Y plane "@ + decimal(frame.y@.len()) + " < "@ + decimal(
            luma_need(frame) as nat,
        ) + " needed for "@ + decimal(frame.width as nat) + "x"@ + decimal(frame.height as nat)
            + " stride_y="@ + decimal(frame.stride_y as nat)
    } else {
        "i420_to_bgra: U/V plane "@ + decimal(frame.u@.len()) + "/"@ + decimal(frame.v@.len())
            + " < "@ + decimal(chroma_need(frame) as nat) + " needed for "@ + decimal(
            frame.width as nat,
        ) + "x"@ + decimal(frame.height as nat) + " stride_uv="@ + decimal(frame.stride_uv as nat)
    }
}

proof fn lemma_shift_10(v: i32)
    by (bit_vector)
    ensures
        (v >> 10u32) as int == v as int / 1024,
{
}

fn clamp_u8(v: i32) -> (r: u8)
    ensures
        r == clamp_byte(v as int),
{
    if v < 0 {
        0
    } else if v > 255 {
        255
    } else {
        v as u8
    }
}

fn bgr_at(y: u8, u: u8, v: u8) -> (r: (u8, u8, u8))
    ensures
        r == bgr_of(y as int, u - 128, v - 128),
{
    let y: i32 = y as i32;
    let u: i32 = u as i32 - 128;
    let v: i32 = v as i32 - 128;
    proof {
        lemma_shift_10((2115 * u) as i32);
        lemma_shift_10((534 * u + 213 * v) as i32);
        lemma_shift_10((1793 * v) as i32);
    }
    let r: i32 = y + ((1793 * v) >> 10);
    let g: i32 = y - ((534 * u + 213 * v) >> 10);
    let b: i32 = y + ((2115 * u) >> 10);
    (clamp_u8(b), clamp_u8(g), clamp_u8(r))
}

proof fn lemma_needs(frame: I420Frame)
    requires
        frame.width != 0,
        frame.height != 0,
    ensures
        0 <= luma_need(frame) <= u64::MAX,
        0 <= chroma_need(frame) <= u64::MAX,
        0 <= (frame.height - 1) * frame.stride_y <= u64::MAX,
        0 <= (frame.height - 1) / 2 * frame.stride_uv <= u64::MAX - 0x1_0000_0000,
{
    let h = frame.height as int;
    let w = frame.width as int;
    let sy = frame.stride_y as int;
    let sc = frame.stride_uv as int;
    assert(0 <= (h - 1) * sy <= 0xFFFF_FFFE * 0xFFFF_FFFF) by (nonlinear_arith)
        requires
            1 <= h <= 0xFFFF_FFFF,
            0 <= sy <= 0xFFFF_FFFF,
    ;
    assert(0 <= (h - 1) / 2 * sc <= 0x7FFF_FFFF * 0xFFFF_FFFF) by (nonlinear_arith)
        requires
            0 <= (h - 1) / 2 <= 0x7FFF_FFFF,
            0 <= sc <= 0xFFFF_FFFF,
    ;
}

proof fn lemma_pixel_in_planes(frame: I420Frame, x: int, row: int)
    requires
        0 <= x < frame.width,
        0 <= row < frame.height,
        planes_reach(frame),
    ensures
        0 <= row * frame.stride_y,
        row * frame.stride_y + x < frame.y@.len(),
        0 <= row / 2 * frame.stride_uv,
        row / 2 * frame.stride_uv + x / 2 < frame.u@.len(),
        row / 2 * frame.stride_uv + x / 2 < frame.v@.len(),
{
    let h = frame.height as int;
    let sy = frame.stride_y as int;
    let sc = frame.stride_uv as int;
    assert(0 <= row * sy <= (h - 1) * sy) by (nonlinear_arith)
        requires
            0 <= row <= h - 1,
            0 <= sy,
    ;
    assert(0 <= row / 2 * sc <= (h - 1) / 2 * sc) by (nonlinear_arith)
        requires
            0 <= row / 2 <= (h - 1) / 2,
            0 <= sc,
    ;
}

fn bgr_pixel(i420: &I420Frame, x: usize, row: usize) -> (r: (u8, u8, u8))
    requires
        x < i420.width,
        row < i420.height,
        planes_reach(*i420),
    ensures
        r.0 == bgra_byte(*i420, x as int, row as int, 0),
        r.1 == bgra_byte(*i420, x as int, row as int, 1),
        r.2 == bgra_byte(*i420, x as int, row as int, 2),
{
    proof {
        lemma_pixel_in_planes(*i420, x as int, row as int);
        assert(i420.y@.len() == i420.y.len());
        assert(i420.u@.len() == i420.u.len());
    }
    let y: u8 = i420.y[row * i420.stride_y as usize + x];
    let at: usize = row / 2 * i420.stride_uv as usize + x / 2;
    bgr_at(y, i420.u[at], i420.v[at])
}

/// Converts a frame into `out_bgra`, which must have the picture's size. A frame
/// whose planes are too short for its geometry is refused, and `out_bgra` is left
/// as it was.
pub fn i420_to_bgra(i420: &I420Frame, out_bgra: &mut [u8]) -> (r: Result<(), String>)
    requires
        old(out_bgra)@.len() < usize::MAX,
    ensures
        r is Ok <==> old(out_bgra)@.len() == out_need(*i420) && planes_reach(*i420),
        r is Ok ==> final(out_bgra)@ == bgra_of(*i420),
        r matches Err(reason) ==> reason@ == refusal(*i420, old(out_bgra)@.len())
            && final(out_bgra)@ == old(out_bgra)@,
{
    let w: usize = i420.width as usize;
    let h: usize = i420.height as usize;
    let out_len: usize = out_bgra.len();
    proof {
        let wi = w as int;
        let hi = h as int;
        assert(0 <= wi * hi <= 0xFFFF_FFFF * 0xFFFF_FFFF) by (nonlinear_arith)
            requires
                0 <= wi <= 0xFFFF_FFFF,
                0 <= hi <= 0xFFFF_FFFF,
        ;
    }
    let bytes: u128 = w as u128 * h as u128 * 4;
    let expect_out: usize = if bytes > usize::MAX as u128 {
        usize::MAX
    } else {
        bytes as usize
    };
    if out_len != expect_out {
        let mut reason: String = String::from_str("i420_to_bgra: out buffer ");
        push_decimal(&mut reason, out_len as u64);
        reason.append(" bytes but geometry ");
        push_decimal(&mut reason, i420.width as u64);
        reason.append("x");
        push_decimal(&mut reason, i420.height as u64);
        reason.append(" needs ");
        push_decimal(&mut reason, expect_out as u64);
        return Err(reason);
    }
    if w != 0 && h != 0 {
        proof {
            lemma_needs(*i420);
        }
        let y_need: u64 = (i420.height as u64 - 1) * (i420.stride_y as u64) + i420.width as u64;
        let c_need: u64 = ((i420.height as u64 - 1) / 2) * (i420.stride_uv as u64) + (
        i420.width as u64 - 1) / 2 + 1;
        if (i420.y.len() as u64) < y_need {
            let mut reason: String = String::from_str("i420_to_bgra: Y plane ");
            push_decimal(&mut reason, i420.y.len() as u64);
            reason.append(" < ");
            push_decimal(&mut reason, y_need);
            reason.append(" needed for ");
            push_decimal(&mut reason, i420.width as u64);
            reason.append("x");
            push_decimal(&mut reason, i420.height as u64);
            reason.append(" stride_y=");
            push_decimal(&mut reason, i420.stride_y as u64);
            return Err(reason);
        }
        if (i420.u.len() as u64) < c_need || (i420.v.len() as u64) < c_need {
            let mut reason: String = String::from_str("i420_to_bgra: U/V plane ");
            push_decimal(&mut reason, i420.u.len() as u64);
            reason.append("/");
            push_decimal(&mut reason, i420.v.len() as u64);
            reason.append(" < ");
            push_decimal(&mut reason, c_need);
            reason.append(" needed for ");
            push_decimal(&mut reason, i420.width as u64);
            reason.append("x");
            push_decimal(&mut reason, i420.height as u64);
            reason.append(" stride_uv=");
            push_decimal(&mut reason, i420.stride_uv as u64);
            return Err(reason);
        }
    }
    let ghost want = bgra_of(*i420);
    let mut row: usize = 0;
    while row < h
        invariant
            w == i420.width,
            h == i420.height,
            row <= h,
            planes_reach(*i420),
            want == bgra_of(*i420),
            out_bgra@.len() == w * h * 4,
            w * h * 4 <= usize::MAX,
            forall|k: int| 0 <= k < row * w * 4 ==> out_bgra@[k] == want[k],
        decreases h - row,
    {
        let mut x: usize = 0;
        while x < w
            invariant
                w == i420.width,
                h == i420.height,
                row < h,
                x <= w,
                planes_reach(*i420),
                want == bgra_of(*i420),
                out_bgra@.len() == w * h * 4,
                w * h * 4 <= usize::MAX,
                forall|k: int| 0 <= k < (row * w + x) * 4 ==> out_bgra@[k] == want[k],
            decreases w - x,
        {
            let bgr: (u8, u8, u8) = bgr_pixel(i420, x, row);
            proof {
                lemma_in_rows(row as int, w as int, h as int, x as int);
                lemma_position(row * w + x, w as int, x as int, row as int);
            }
            let off: usize = (row * w + x) * 4;
            out_bgra[off] = bgr.0;
            out_bgra[off + 1] = bgr.1;
            out_bgra[off + 2] = bgr.2;
            out_bgra[off + 3] = 0xFF;
            assert((row * w + x + 1) * 4 == off + 4);
            x += 1;
        }
        assert((row * w + w) * 4 == (row + 1) * w * 4) by (nonlinear_arith);
        row += 1;
    }
    assert(row * w * 4 == w * h * 4) by (nonlinear_arith)
        requires
            row == h,
    ;
    assert(out_bgra@ =~= want);
    Ok(())
}

/// A frame without colour (both chroma samples at their middle) gives grey
/// pixels: blue, green and red all have the luma's value, and alpha is full.
pub proof fn law_neutral_chroma_gives_grey(frame: I420Frame, x: int, row: int)
    requires
        0 <= x < frame.width,
        0 <= row < frame.height,
        frame.u@[row / 2 * frame.stride_uv + x / 2] == 128,
        frame.v@[row / 2 * frame.stride_uv + x / 2] == 128,
    ensures
        ({
            let at = (row * frame.width + x) * 4;
            let y = frame.y@[row * frame.stride_y + x];
            &&& bgra_of(frame)[at] == y
            &&& bgra_of(frame)[at + 1] == y
            &&& bgra_of(frame)[at + 2] == y
            &&& bgra_of(frame)[at + 3] == 0xFF
        }),
{
    let w = frame.width as int;
    lemma_in_rows(row, w, frame.height as int, x);
    lemma_position(row * w + x, w, x, row);
}

/// A decoded picture of even height can be shown wherever its rows hold its width:
/// its planes are long enough to be converted.
pub proof fn law_decoded_pictures_can_be_shown(frame: I420Frame, decoded: DecodedView)
    requires
        consistent(decoded),
        frame@ == shown(decoded),
        decoded.dimensions.1 * decoded.strides.0 <= i32::MAX,
        decoded.dimensions.1 * decoded.strides.1 <= i32::MAX,
        decoded.dimensions.1 <= u32::MAX,
        decoded.strides.0 <= u32::MAX,
        decoded.strides.1 <= u32::MAX,
        frame.height % 2 == 0,
        frame.width <= frame.stride_y,
        frame.width + 1 <= 2 * frame.stride_uv || frame.width == 0,
    ensures
        planes_reach(frame),
{
    let h = frame.height as int;
    let sy = frame.stride_y as int;
    let sc = frame.stride_uv as int;
    assert(frame@.y == frame.y@ && frame@.u == frame.u@ && frame@.v == frame.v@);
    if frame.width != 0 && h != 0 {
        let half = h / 2;
        assert((h - 1) * sy + sy == h * sy) by (nonlinear_arith);
        assert((half - 1) * sc + sc == half * sc) by (nonlinear_arith);
        assert(h * sc == 2 * (half * sc)) by (nonlinear_arith)
            requires
                h == 2 * half,
        ;
    }
}

/// A byte is a number of 1024ths, rounded down to a whole number and cut to the range of
/// a byte.
pub open spec fn cut_1024(byte: u8, scaled: int) -> bool {
    &&& 0 <= scaled < 256 * 1024 ==> byte * 1024 <= scaled < (byte + 1) * 1024
    &&& scaled < 0 ==> byte == 0
    &&& scaled >= 256 * 1024 ==> byte == 255
}

/// Every pixel comes from the luma at its place and the chroma that it shares with its
/// neighbours: blue is luma plus 2115/1024 of U, red is luma plus 1793/1024 of V, both
/// rounded down; green is luma less 534/1024 of U and 213/1024 of V, rounded up, with U
/// and V centred on 128. Alpha is full.
pub proof fn law_pixels_come_from_their_samples(frame: I420Frame, x: int, row: int)
    requires
        0 <= x < frame.width,
        0 <= row < frame.height,
    ensures
        ({
            let out = bgra_of(frame);
            let to = (row * frame.width + x) * 4;
            let y = frame.y@[row * frame.stride_y + x];
            let u = frame.u@[row / 2 * frame.stride_uv + x / 2] - 128;
            let v = frame.v@[row / 2 * frame.stride_uv + x / 2] - 128;
            &&& 0 <= to
            &&& to + 3 < out.len()
            &&& cut_1024(out[to], 1024 * y + 2115 * u)
            &&& cut_1024(out[to + 1], 1024 * y + 1023 - (534 * u + 213 * v))
            &&& cut_1024(out[to + 2], 1024 * y + 1793 * v)
            &&& out[to + 3] == 255
        }),
{
    let w = frame.width as int;
    lemma_in_rows(row, w, frame.height as int, x);
    lemma_position(row * w + x, w, x, row);
}

/// A frame is converted exactly if the buffer has four bytes for each of its pixels and
/// its planes reach the last of them; where it is not, the buffer stays as it was.
pub proof fn law_which_frames_are_converted(
    frame: I420Frame,
    out: &mut [u8],
    r: Result<(), String>,
)
    requires
        old(out)@.len() < usize::MAX,
        frame.width > 0,
        frame.height > 0,
        call_ensures(i420_to_bgra, (&frame, out), r),
    ensures
        r is Ok <==> {
            let last_row = frame.height - 1;
            let last_column = frame.width - 1;
            &&& old(out)@.len() == frame.width * frame.height * 4
            &&& last_row * frame.stride_y + last_column < frame.y@.len()
            &&& last_row / 2 * frame.stride_uv + last_column / 2 < frame.u@.len()
            &&& last_row / 2 * frame.stride_uv + last_column / 2 < frame.v@.len()
        },
        r is Ok ==> final(out)@ == bgra_of(frame),
        r is Err ==> final(out)@ == old(out)@,
{
}

} // verus!
