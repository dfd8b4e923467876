//! Pixel formats of the software codec path: packed BGRA, planar I420 and
//! semi-planar NV12, converted with BT.601 limited-range coefficients.

use vstd::prelude::*;
use vstd::arithmetic::div_mod::lemma_fundamental_div_mod_converse;
use crate::media_sw::error::MediaSwError;
use crate::text::{decimal, push_decimal};

verus! {

/// Planar YUV 4:2:0 in memory.
#[derive(Debug, Clone)]
pub struct I420Frame {
    pub width: u32,
    pub height: u32,
    /// `stride_y * height` bytes.
    pub y: Vec<u8>,
    /// `stride_uv * (height / 2)` bytes.
    pub u: Vec<u8>,
    /// `stride_uv * (height / 2)` bytes.
    pub v: Vec<u8>,
    pub stride_y: u32,
    pub stride_uv: u32,
}

/// What a frame shows: its size, its strides and its planes.
pub ghost struct Picture {
    pub width: u32,
    pub height: u32,
    pub stride_y: u32,
    pub stride_uv: u32,
    pub y: Seq<u8>,
    pub u: Seq<u8>,
    pub v: Seq<u8>,
}

impl View for I420Frame {
    type V = Picture;

    open spec fn view(&self) -> Picture {
        Picture {
            width: self.width,
            height: self.height,
            stride_y: self.stride_y,
            stride_uv: self.stride_uv,
            y: self.y@,
            u: self.u@,
            v: self.v@,
        }
    }
}

/// Width and height that 4:2:0 subsampling can halve.
pub open spec fn even_dims(width: u32, height: u32) -> bool {
    width != 0 && height != 0 && width % 2 == 0 && height % 2 == 0
}

/// The reason given for dimensions that are zero or odd.
pub open spec fn odd_dims_reason(width: u32, height: u32) -> Seq<char> {
    "dims must be even and nonzero, got "@ + decimal(width as nat) + "x"@ + decimal(height as nat)
}

impl I420Frame {
    /// The strides cover the width, and each plane is as long as its stride and
    /// its rows make it.
    pub open spec fn wf(self) -> bool {
        &&& self.stride_y >= self.width
        &&& self.stride_uv >= self.width / 2
        &&& self.y@.len() == self.stride_y * self.height
        &&& self.u@.len() == self.stride_uv * (self.height / 2)
        &&& self.v@.len() == self.stride_uv * (self.height / 2)
    }

    /// The frame has no padding between rows.
    pub open spec fn packed(self) -> bool {
        &&& even_dims(self.width, self.height)
        &&& self.stride_y == self.width
        &&& self.stride_uv == self.width / 2
        &&& self.wf()
    }
}

fn odd_dims_error(width: u32, height: u32) -> (r: MediaSwError)
    ensures
        r matches MediaSwError::InvalidFrame { reason } && reason@ == odd_dims_reason(width, height),
{
    let mut reason: String = String::from_str("dims must be even and nonzero, got ");
    push_decimal(&mut reason, width as u64);
    reason.append("x");
    push_decimal(&mut reason, height as u64);
    MediaSwError::InvalidFrame { reason }
}

proof fn lemma_plane_sizes(width: u32, height: u32)
    requires
        width as int * height as int <= isize::MAX,
    ensures
        0 <= width as int * height as int <= isize::MAX,
        0 <= (width / 2) as int * (height / 2) as int <= width as int * height as int,
{
    assert(0 <= (width / 2) as int * (height / 2) as int <= width as int * height as int)
        by (nonlinear_arith)
        requires
            0 <= (width / 2) as int <= width as int,
            0 <= (height / 2) as int <= height as int,
    ;
    assert(0 <= width as int * height as int) by (nonlinear_arith)
        requires
            0 <= width as int,
            0 <= height as int,
    ;
}

impl I420Frame {
    /// A zeroed frame without row padding.
    pub fn new_packed(width: u32, height: u32) -> (r: Result<Self, MediaSwError>)
        requires
            even_dims(width, height) ==> width as int * height as int <= isize::MAX,
        ensures
            r is Ok <==> even_dims(width, height),
            r matches Ok(f) ==> {
                &&& f.width == width
                &&& f.height == height
                &&& f.packed()
                &&& f.y@ == Seq::new((width as nat) * (height as nat), |i: int| 0u8)
                &&& f.u@ == Seq::new(((width / 2) as nat) * ((height / 2) as nat), |i: int| 0u8)
                &&& f.v@ == Seq::new(((width / 2) as nat) * ((height / 2) as nat), |i: int| 0u8)
            },
            r matches Err(e) ==> e matches MediaSwError::InvalidFrame { reason } && reason@
                == odd_dims_reason(width, height),
    {
        if width == 0 || height == 0 || width % 2 != 0 || height % 2 != 0 {
            return Err(odd_dims_error(width, height));
        }
        proof {
            lemma_plane_sizes(width, height);
        }
        let stride_y: u32 = width;
        let stride_uv: u32 = width / 2;
        let y: Vec<u8> = vec![0u8; (stride_y as usize) * (height as usize)];
        let u: Vec<u8> = vec![0u8; (stride_uv as usize) * (height as usize / 2)];
        let v: Vec<u8> = vec![0u8; (stride_uv as usize) * (height as usize / 2)];
        Ok(I420Frame { width, height, y, u, v, stride_y, stride_uv })
    }
}


/// A value cut to the range of a byte.
pub open spec fn clamp_byte(v: int) -> u8 {
    if v < 0 {
        0
    } else if v > 255 {
        255
    } else {
        v as u8
    }
}

/// BT.601 limited-range luma of a pixel.
pub open spec fn luma(b: int, g: int, r: int) -> u8 {
    clamp_byte((66 * r + 129 * g + 25 * b + 128) / 256 + 16)
}

/// BT.601 limited-range blue-difference chroma of a pixel.
pub open spec fn chroma_u(b: int, g: int, r: int) -> u8 {
    clamp_byte((-38 * r - 74 * g + 112 * b + 128) / 256 + 128)
}

/// BT.601 limited-range red-difference chroma of a pixel.
pub open spec fn chroma_v(b: int, g: int, r: int) -> u8 {
    clamp_byte((112 * r - 94 * g - 18 * b + 128) / 256 + 128)
}

/// Channel `c` of the BGRA pixel in column `x` of row `row`.
pub open spec fn bgra_channel(bgra: Seq<u8>, stride: int, x: int, row: int, c: int) -> int {
    bgra[row * stride + x * 4 + c] as int
}

/// The sum of a channel over the two by two pixels from (`2 * x`, `2 * row`) on.
pub open spec fn block_sum(bgra: Seq<u8>, stride: int, x: int, row: int, c: int) -> int {
    bgra_channel(bgra, stride, 2 * x, 2 * row, c) + bgra_channel(
        bgra,
        stride,
        2 * x + 1,
        2 * row,
        c,
    ) + bgra_channel(bgra, stride, 2 * x, 2 * row + 1, c) + bgra_channel(
        bgra,
        stride,
        2 * x + 1,
        2 * row + 1,
        c,
    )
}

/// The luma plane of a BGRA picture, row after row.
pub open spec fn luma_plane(bgra: Seq<u8>, width: nat, height: nat, stride: int) -> Seq<u8> {
    Seq::new(
        width * height,
        |k: int|
            {
                let x = k % width as int;
                let row = k / width as int;
                luma(
                    bgra_channel(bgra, stride, x, row, 0),
                    bgra_channel(bgra, stride, x, row, 1),
                    bgra_channel(bgra, stride, x, row, 2),
                )
            },
    )
}

/// One chroma plane of a BGRA picture: each sample takes the mean of two by two
/// pixels. `half_width` and `half_height` count samples.
pub open spec fn chroma_plane(
    bgra: Seq<u8>,
    half_width: nat,
    half_height: nat,
    stride: int,
    chroma: spec_fn(int, int, int) -> u8,
) -> Seq<u8> {
    Seq::new(
        half_width * half_height,
        |k: int|
            {
                let x = k % half_width as int;
                let row = k / half_width as int;
                chroma(
                    block_sum(bgra, stride, x, row, 0) / 4,
                    block_sum(bgra, stride, x, row, 1) / 4,
                    block_sum(bgra, stride, x, row, 2) / 4,
                )
            },
    )
}

proof fn lemma_shift_8(v: i32)
    by (bit_vector)
    ensures
        (v >> 8u32) as int == v as int / 256,
{
}

fn clamped(v: i32) -> (r: u8)
    ensures
        r == clamp_byte(v as int),
{
    if v < 0 {
        0
    } else if v > 255 {
        255
    } else {
        v as u8
    }
}

fn luma_of(b: u8, g: u8, r: u8) -> (y: u8)
    ensures
        y == luma(b as int, g as int, r as int),
{
    let sum: i32 = 66 * r as i32 + 129 * g as i32 + 25 * b as i32 + 128;
    proof {
        lemma_shift_8(sum);
    }
    clamped((sum >> 8) + 16)
}

fn chroma_of(b: i32, g: i32, r: i32) -> (uv: (u8, u8))
    requires
        0 <= b <= 255,
        0 <= g <= 255,
        0 <= r <= 255,
    ensures
        uv.0 == chroma_u(b as int, g as int, r as int),
        uv.1 == chroma_v(b as int, g as int, r as int),
{
    let u: i32 = 112 * b - 38 * r - 74 * g + 128;
    let v: i32 = 112 * r - 94 * g - 18 * b + 128;
    proof {
        lemma_shift_8(u);
        lemma_shift_8(v);
    }
    (clamped((u >> 8) + 128), clamped((v >> 8) + 128))
}


/// The product of two words fits in a double word.
pub proof fn lemma_product_fits(a: u32, b: u32)
    ensures
        0 <= a as int * b as int <= u64::MAX,
{
    assert(0 <= a as int * b as int <= 0xFFFF_FFFF * 0xFFFF_FFFF) by (nonlinear_arith)
        requires
            0 <= a as int <= 0xFFFF_FFFF,
            0 <= b as int <= 0xFFFF_FFFF,
    ;
}

/// A byte of a row lies inside the rows.
pub proof fn lemma_in_rows(row: int, stride: int, rows: int, offset: int)
    requires
        0 <= row < rows,
        0 <= offset < stride,
    ensures
        0 <= row * stride,
        row * stride + offset < stride * rows,
{
    assert(0 <= row * stride && row * stride + offset < stride * rows) by (nonlinear_arith)
        requires
            0 <= row < rows,
            0 <= offset < stride,
    ;
}

/// Column and row of the position `row * width + x`.
pub proof fn lemma_position(k: int, width: int, x: int, row: int)
    requires
        0 <= x < width,
        k == row * width + x,
    ensures
        k % width == x,
        k / width == row,
{
    lemma_fundamental_div_mod_converse(k, width, row, x);
}

fn channel_at(bgra: &[u8], stride: usize, width: usize, height: usize, x: usize, row: usize, c: usize) -> (r: u8)
    requires
        x < width,
        row < height,
        c < 4,
        stride >= width * 4,
        bgra@.len() >= stride * height,
    ensures
        r as int == bgra_channel(bgra@, stride as int, x as int, row as int, c as int),
{
    proof {
        lemma_in_rows(row as int, stride as int, height as int, x * 4 + c);
        assert(bgra@.len() == bgra.len());
    }
    bgra[row * stride + x * 4 + c]
}

fn convert_luma(bgra: &[u8], width: usize, height: usize, stride: usize) -> (plane: Vec<u8>)
    requires
        0 < width,
        0 < height,
        stride >= width * 4,
        bgra@.len() >= stride * height,
    ensures
        plane@ == luma_plane(bgra@, width as nat, height as nat, stride as int),
{
    let ghost want = luma_plane(bgra@, width as nat, height as nat, stride as int);
    let mut plane: Vec<u8> = Vec::new();
    let mut row: usize = 0;
    while row < height
        invariant
            0 < width,
            row <= height,
            stride >= width * 4,
            bgra@.len() >= stride * height,
            want == luma_plane(bgra@, width as nat, height as nat, stride as int),
            plane@.len() == row * width,
            plane@.len() <= want.len(),
            forall|k: int| 0 <= k < plane@.len() ==> plane@[k] == want[k],
        decreases height - row,
    {
        let mut x: usize = 0;
        assert(row * width <= width * height) by (nonlinear_arith)
            requires
                row <= height,
        ;
        while x < width
            invariant
                0 < width,
                x <= width,
                row < height,
                stride >= width * 4,
                bgra@.len() >= stride * height,
                want == luma_plane(bgra@, width as nat, height as nat, stride as int),
                plane@.len() == row * width + x,
                plane@.len() <= want.len(),
                forall|k: int| 0 <= k < plane@.len() ==> plane@[k] == want[k],
            decreases width - x,
        {
            let b: u8 = channel_at(bgra, stride, width, height, x, row, 0);
            let g: u8 = channel_at(bgra, stride, width, height, x, row, 1);
            let r: u8 = channel_at(bgra, stride, width, height, x, row, 2);
            proof {
                lemma_in_rows(row as int, width as int, height as int, x as int);
                lemma_position(plane@.len() as int, width as int, x as int, row as int);
            }
            plane.push(luma_of(b, g, r));
            x += 1;
        }
        assert(row * width + width == (row + 1) * width) by (nonlinear_arith);
        row += 1;
    }
    assert(row * width == width * height) by (nonlinear_arith)
        requires
            row == height,
    ;
    assert(plane@ =~= want);
    plane
}

fn block_at(bgra: &[u8], stride: usize, width: usize, height: usize, x: usize, row: usize, c: usize) -> (r: i32)
    requires
        2 * x + 1 < width,
        2 * row + 1 < height,
        c < 4,
        stride >= width * 4,
        bgra@.len() >= stride * height,
    ensures
        r == block_sum(bgra@, stride as int, x as int, row as int, c as int) / 4,
        0 <= r <= 255,
{
    let a: u8 = channel_at(bgra, stride, width, height, 2 * x, 2 * row, c);
    let b: u8 = channel_at(bgra, stride, width, height, 2 * x + 1, 2 * row, c);
    let d: u8 = channel_at(bgra, stride, width, height, 2 * x, 2 * row + 1, c);
    let e: u8 = channel_at(bgra, stride, width, height, 2 * x + 1, 2 * row + 1, c);
    (a as i32 + b as i32 + d as i32 + e as i32) / 4
}

fn convert_chroma(bgra: &[u8], width: usize, height: usize, stride: usize) -> (planes: (Vec<u8>, Vec<u8>))
    requires
        0 < width,
        0 < height,
        width % 2 == 0,
        height % 2 == 0,
        stride >= width * 4,
        bgra@.len() >= stride * height,
    ensures
        planes.0@ == chroma_plane(
            bgra@,
            (width / 2) as nat,
            (height / 2) as nat,
            stride as int,
            |b: int, g: int, r: int| chroma_u(b, g, r),
        ),
        planes.1@ == chroma_plane(
            bgra@,
            (width / 2) as nat,
            (height / 2) as nat,
            stride as int,
            |b: int, g: int, r: int| chroma_v(b, g, r),
        ),
{
    let half_w: usize = width / 2;
    let half_h: usize = height / 2;
    let ghost want_u = chroma_plane(
        bgra@,
        half_w as nat,
        half_h as nat,
        stride as int,
        |b: int, g: int, r: int| chroma_u(b, g, r),
    );
    let ghost want_v = chroma_plane(
        bgra@,
        half_w as nat,
        half_h as nat,
        stride as int,
        |b: int, g: int, r: int| chroma_v(b, g, r),
    );
    let mut u: Vec<u8> = Vec::new();
    let mut v: Vec<u8> = Vec::new();
    let mut row: usize = 0;
    while row < half_h
        invariant
            0 < half_w,
            width == 2 * half_w,
            height == 2 * half_h,
            row <= half_h,
            stride >= width * 4,
            bgra@.len() >= stride * height,
            want_u == chroma_plane(
                bgra@,
                half_w as nat,
                half_h as nat,
                stride as int,
                |b: int, g: int, r: int| chroma_u(b, g, r),
            ),
            want_v == chroma_plane(
                bgra@,
                half_w as nat,
                half_h as nat,
                stride as int,
                |b: int, g: int, r: int| chroma_v(b, g, r),
            ),
            u@.len() == row * half_w,
            v@.len() == row * half_w,
            u@.len() <= want_u.len(),
            forall|k: int| 0 <= k < u@.len() ==> u@[k] == want_u[k],
            forall|k: int| 0 <= k < v@.len() ==> v@[k] == want_v[k],
        decreases half_h - row,
    {
        let mut x: usize = 0;
        while x < half_w
            invariant
                0 < half_w,
                width == 2 * half_w,
                height == 2 * half_h,
                x <= half_w,
                row < half_h,
                stride >= width * 4,
                bgra@.len() >= stride * height,
                want_u == chroma_plane(
                    bgra@,
                    half_w as nat,
                    half_h as nat,
                    stride as int,
                    |b: int, g: int, r: int| chroma_u(b, g, r),
                ),
                want_v == chroma_plane(
                    bgra@,
                    half_w as nat,
                    half_h as nat,
                    stride as int,
                    |b: int, g: int, r: int| chroma_v(b, g, r),
                ),
                u@.len() == row * half_w + x,
                v@.len() == row * half_w + x,
                u@.len() <= want_u.len(),
                forall|k: int| 0 <= k < u@.len() ==> u@[k] == want_u[k],
                forall|k: int| 0 <= k < v@.len() ==> v@[k] == want_v[k],
            decreases half_w - x,
        {
            let b: i32 = block_at(bgra, stride, width, height, x, row, 0);
            let g: i32 = block_at(bgra, stride, width, height, x, row, 1);
            let r: i32 = block_at(bgra, stride, width, height, x, row, 2);
            proof {
                lemma_in_rows(row as int, half_w as int, half_h as int, x as int);
                lemma_position(u@.len() as int, half_w as int, x as int, row as int);
            }
            let uv: (u8, u8) = chroma_of(b, g, r);
            u.push(uv.0);
            v.push(uv.1);
            x += 1;
        }
        assert(row * half_w + half_w == (row + 1) * half_w) by (nonlinear_arith);
        row += 1;
    }
    assert(row * half_w == half_w * half_h) by (nonlinear_arith)
        requires
            row == half_h,
    ;
    assert(u@ =~= want_u);
    assert(v@ =~= want_v);
    (u, v)
}

/// Why a BGRA picture cannot be converted, in the order in which it is checked.
pub open spec fn bgra_reason(len: nat, width: u32, height: u32, stride: u32) -> Seq<char> {
    if !even_dims(width, height) {
        odd_dims_reason(width, height)
    } else if stride < width * 4 {
        "bgra_stride "@ + decimal(stride as nat) + " too small for width "@ + decimal(width as nat)
            + " (need >= "@ + decimal((width * 4) as nat) + ")"@
    } else {
        "bgra buffer "@ + decimal(len) + " bytes < required "@ + decimal(
            (stride * height) as nat,
        ) + " (stride "@ + decimal(stride as nat) + ", h "@ + decimal(height as nat) + ")"@
    }
}

/// Converts BGRA (`bgra_stride` bytes per row) to I420 without row padding.
pub fn bgra_to_i420(bgra: &[u8], width: u32, height: u32, bgra_stride: u32) -> (r: Result<
    I420Frame,
    MediaSwError,
>)
    ensures
        r is Ok <==> even_dims(width, height) && bgra_stride >= width * 4 && bgra@.len()
            >= bgra_stride * height,
        r matches Ok(f) ==> {
            &&& f.width == width
            &&& f.height == height
            &&& f.packed()
            &&& f.y@ == luma_plane(bgra@, width as nat, height as nat, bgra_stride as int)
            &&& f.u@ == chroma_plane(
                bgra@,
                (width / 2) as nat,
                (height / 2) as nat,
                bgra_stride as int,
                |b: int, g: int, r: int| chroma_u(b, g, r),
            )
            &&& f.v@ == chroma_plane(
                bgra@,
                (width / 2) as nat,
                (height / 2) as nat,
                bgra_stride as int,
                |b: int, g: int, r: int| chroma_v(b, g, r),
            )
        },
        r matches Err(e) ==> e matches MediaSwError::InvalidFrame { reason } && reason@
            == bgra_reason(bgra@.len(), width, height, bgra_stride),
{
    if width == 0 || height == 0 || width % 2 != 0 || height % 2 != 0 {
        return Err(odd_dims_error(width, height));
    }
    if (bgra_stride as u64) < (width as u64) * 4 {
        let mut reason: String = String::from_str("bgra_stride ");
        push_decimal(&mut reason, bgra_stride as u64);
        reason.append(" too small for width ");
        push_decimal(&mut reason, width as u64);
        reason.append(" (need >= ");
        push_decimal(&mut reason, width as u64 * 4);
        reason.append(")");
        return Err(MediaSwError::InvalidFrame { reason });
    }
    proof {
        lemma_product_fits(bgra_stride, height);
    }
    let stride: usize = bgra_stride as usize;
    let needed: u64 = bgra_stride as u64 * height as u64;
    if (bgra.len() as u64) < needed {
        let mut reason: String = String::from_str("bgra buffer ");
        push_decimal(&mut reason, bgra.len() as u64);
        reason.append(" bytes < required ");
        push_decimal(&mut reason, needed);
        reason.append(" (stride ");
        push_decimal(&mut reason, bgra_stride as u64);
        reason.append(", h ");
        push_decimal(&mut reason, height as u64);
        reason.append(")");
        return Err(MediaSwError::InvalidFrame { reason });
    }
    let y: Vec<u8> = convert_luma(bgra, width as usize, height as usize, stride);
    let uv: (Vec<u8>, Vec<u8>) = convert_chroma(bgra, width as usize, height as usize, stride);
    Ok(
        I420Frame {
            width,
            height,
            y,
            u: uv.0,
            v: uv.1,
            stride_y: width,
            stride_uv: width / 2,
        },
    )
}


/// The chroma samples that a plane must hold for one row each.
pub open spec fn chroma_rows(frame: I420Frame) -> int {
    (frame.height / 2) as int
}

/// The planes hold all their rows.
pub open spec fn planes_hold_rows(frame: I420Frame) -> bool {
    &&& frame.y@.len() >= frame.stride_y * frame.height
    &&& frame.u@.len() >= frame.stride_uv * chroma_rows(frame)
    &&& frame.v@.len() >= frame.stride_uv * chroma_rows(frame)
}

/// A row of the frame reaches no further than the planes go.
pub open spec fn rows_fit(frame: I420Frame) -> bool {
    &&& frame.height > 0 ==> frame.width <= frame.stride_y
    &&& chroma_rows(frame) > 0 ==> {
        &&& (chroma_rows(frame) - 1) * frame.stride_uv + frame.width / 2 <= frame.u@.len()
        &&& (chroma_rows(frame) - 1) * frame.stride_uv + frame.width / 2 <= frame.v@.len()
    }
}

/// The NV12 byte in column `x` of row `row`: the luma rows come first, then the
/// rows of U and V samples in turn; what lies right of the picture is zero.
pub open spec fn nv12_byte(frame: I420Frame, x: int, row: int) -> u8 {
    if row < frame.height {
        if x < frame.width {
            frame.y@[row * frame.stride_y + x]
        } else {
            0
        }
    } else if x < frame.width / 2 * 2 {
        let at = (row - frame.height) * frame.stride_uv + x / 2;
        if x % 2 == 0 {
            frame.u@[at]
        } else {
            frame.v@[at]
        }
    } else {
        0
    }
}

/// The NV12 picture of a frame; both planes keep the frame's luma stride.
pub open spec fn nv12_of(frame: I420Frame) -> Seq<u8> {
    Seq::new(
        (frame.stride_y * (frame.height + chroma_rows(frame))) as nat,
        |k: int| nv12_byte(frame, k % frame.stride_y as int, k / frame.stride_y as int),
    )
}

/// Why a frame cannot be converted to NV12.
pub open spec fn nv12_reason(frame: I420Frame) -> Seq<char> {
    if frame.y@.len() < frame.stride_y * frame.height {
        "y plane "@ + decimal(frame.y@.len()) + " bytes < required "@ + decimal(
            (frame.stride_y * frame.height) as nat,
        ) + " (stride "@ + decimal(frame.stride_y as nat) + ", h "@ + decimal(frame.height as nat)
            + ")"@
    } else {
        "u/v planes too short: u="@ + decimal(frame.u@.len()) + ", v="@ + decimal(frame.v@.len())
            + ", need "@ + decimal((frame.stride_uv * chroma_rows(frame)) as nat) + " each"@
    }
}

fn nv12_sample(i420: &I420Frame, x: usize, row: usize) -> (r: u8)
    requires
        planes_hold_rows(*i420),
        rows_fit(*i420),
        x < i420.stride_y,
        row < i420.height + chroma_rows(*i420),
    ensures
        r == nv12_byte(*i420, x as int, row as int),
{
    let width: usize = i420.width as usize;
    let height: usize = i420.height as usize;
    if row < height {
        if x < width {
            proof {
                lemma_in_rows(row as int, i420.stride_y as int, i420.height as int, x as int);
                assert(i420.y@.len() == i420.y.len());
            }
            i420.y[row * i420.stride_y as usize + x]
        } else {
            0
        }
    } else if x < width / 2 * 2 {
        let chroma_row: usize = row - height;
        proof {
            let rows = chroma_rows(*i420);
            assert(chroma_row * i420.stride_uv + x / 2 <= (rows - 1) * i420.stride_uv + x / 2)
                by (nonlinear_arith)
                requires
                    chroma_row <= rows - 1,
                    i420.stride_uv >= 0,
            ;
            assert(0 <= chroma_row * i420.stride_uv) by (nonlinear_arith)
                requires
                    chroma_row >= 0,
                    i420.stride_uv >= 0,
            ;
            assert(i420.u@.len() == i420.u.len());
            assert(i420.v@.len() == i420.v.len());
        }
        let at: usize = chroma_row * i420.stride_uv as usize + x / 2;
        if x % 2 == 0 {
            i420.u[at]
        } else {
            i420.v[at]
        }
    } else {
        0
    }
}

/// Converts I420 to NV12: the luma plane as it is, then U and V interleaved.
pub fn i420_to_nv12(i420: &I420Frame) -> (r: Result<Vec<u8>, MediaSwError>)
    requires
        planes_hold_rows(*i420) ==> rows_fit(*i420) && i420.stride_y as int * (i420.height as int
            + chroma_rows(*i420)) <= isize::MAX,
    ensures
        r is Ok <==> planes_hold_rows(*i420),
        r matches Ok(out) ==> out@ == nv12_of(*i420),
        r matches Err(e) ==> e matches MediaSwError::InvalidFrame { reason } && reason@
            == nv12_reason(*i420),
{
    let stride: usize = i420.stride_y as usize;
    let height: usize = i420.height as usize;
    let uv_h: usize = height / 2;
    proof {
        lemma_product_fits(i420.stride_y, i420.height);
        lemma_product_fits(i420.stride_uv, i420.height / 2);
    }
    let need_y: u64 = i420.stride_y as u64 * i420.height as u64;
    if (i420.y.len() as u64) < need_y {
        let mut reason: String = String::from_str("y plane ");
        push_decimal(&mut reason, i420.y.len() as u64);
        reason.append(" bytes < required ");
        push_decimal(&mut reason, need_y);
        reason.append(" (stride ");
        push_decimal(&mut reason, i420.stride_y as u64);
        reason.append(", h ");
        push_decimal(&mut reason, i420.height as u64);
        reason.append(")");
        return Err(MediaSwError::InvalidFrame { reason });
    }
    let need_uv: u64 = i420.stride_uv as u64 * uv_h as u64;
    if (i420.u.len() as u64) < need_uv || (i420.v.len() as u64) < need_uv {
        let mut reason: String = String::from_str("u/v planes too short: u=");
        push_decimal(&mut reason, i420.u.len() as u64);
        reason.append(", v=");
        push_decimal(&mut reason, i420.v.len() as u64);
        reason.append(", need ");
        push_decimal(&mut reason, need_uv);
        reason.append(" each");
        return Err(MediaSwError::InvalidFrame { reason });
    }
    let ghost want = nv12_of(*i420);
    let ghost rows_spec = i420.height as int + chroma_rows(*i420);
    let rows: u64 = i420.height as u64 + uv_h as u64;
    proof {
        assert(0 <= stride as int * rows_spec) by (nonlinear_arith)
            requires
                0 <= stride as int,
                0 <= rows_spec,
        ;
    }
    let mut out: Vec<u8> = Vec::new();
    if stride == 0 {
        assert(stride as int * rows_spec == 0) by (nonlinear_arith)
            requires
                stride == 0,
        ;
        assert(out@ =~= want);
        return Ok(out);
    }
    proof {
        assert(rows_spec <= stride as int * rows_spec) by (nonlinear_arith)
            requires
                stride >= 1,
                0 <= rows_spec,
        ;
    }
    let rows: usize = rows as usize;
    let mut row: usize = 0;
    while row < rows
        invariant
            stride == i420.stride_y,
            0 < stride,
            rows == i420.height + chroma_rows(*i420),
            row <= rows,
            planes_hold_rows(*i420),
            rows_fit(*i420),
            want == nv12_of(*i420),
            out@.len() == row * stride,
            forall|k: int| 0 <= k < out@.len() ==> out@[k] == want[k],
        decreases rows - row,
    {
        let mut x: usize = 0;
        while x < stride
            invariant
                stride == i420.stride_y,
                0 < stride,
                rows == i420.height + chroma_rows(*i420),
                row < rows,
                x <= stride,
                planes_hold_rows(*i420),
                rows_fit(*i420),
                want == nv12_of(*i420),
                out@.len() == row * stride + x,
                forall|k: int| 0 <= k < out@.len() ==> out@[k] == want[k],
            decreases stride - x,
        {
            let byte: u8 = nv12_sample(i420, x, row);
            proof {
                lemma_in_rows(row as int, stride as int, rows as int, x as int);
                lemma_position(out@.len() as int, stride as int, x as int, row as int);
            }
            out.push(byte);
            x += 1;
        }
        assert(row * stride + stride == (row + 1) * stride) by (nonlinear_arith);
        row += 1;
    }
    assert(row * stride == stride * rows) by (nonlinear_arith)
        requires
            row == rows,
    ;
    assert(out@ =~= want);
    Ok(out)
}

/// Byte `i` of a 32-bit number, least significant first.
pub open spec fn le_byte(n: u32, i: int) -> u8 {
    if i == 0 {
        (n % 0x100) as u8
    } else if i == 1 {
        (n / 0x100 % 0x100) as u8
    } else if i == 2 {
        (n / 0x1_0000 % 0x100) as u8
    } else {
        (n / 0x100_0000) as u8
    }
}

/// The luma of the background around a counter.
pub const COUNTER_BACKGROUND: u8 = 112;

/// A counter frame's luma in column `x` of row `row`: the four bytes of the
/// number, least significant first, fill sixteen columns each of the first row.
pub open spec fn counter_luma(seq: u32, x: int, row: int) -> u8 {
    if row == 0 && x < 64 {
        le_byte(seq, x / 16)
    } else {
        COUNTER_BACKGROUND
    }
}

/// The luma plane of a counter frame.
pub open spec fn counter_plane(width: nat, height: nat, seq: u32) -> Seq<u8> {
    Seq::new(
        width * height,
        |k: int| counter_luma(seq, k % width as int, k / width as int),
    )
}

/// A frame that carries `frame_seq` in its first row of luma, on a grey background.
pub fn make_counter_i420(width: u32, height: u32, frame_seq: u32) -> (r: Result<
    I420Frame,
    MediaSwError,
>)
    requires
        width >= 64 && even_dims(width, height) ==> width as int * height as int <= isize::MAX,
    ensures
        r is Ok <==> width >= 64 && even_dims(width, height),
        r matches Ok(f) ==> {
            &&& f.width == width
            &&& f.height == height
            &&& f.packed()
            &&& f.y@ == counter_plane(width as nat, height as nat, frame_seq)
            &&& f.u@ == Seq::new(((width / 2) as nat) * ((height / 2) as nat), |i: int| 128u8)
            &&& f.v@ == Seq::new(((width / 2) as nat) * ((height / 2) as nat), |i: int| 128u8)
        },
        r matches Err(e) ==> e matches MediaSwError::InvalidFrame { reason } && reason@ == if width
            < 64 {
            "width "@ + decimal(width as nat) + " < 64; cannot embed 4-byte counter"@
        } else {
            odd_dims_reason(width, height)
        },
{
    if width < 64 {
        let mut reason: String = String::from_str("width ");
        push_decimal(&mut reason, width as u64);
        reason.append(" < 64; cannot embed 4-byte counter");
        return Err(MediaSwError::InvalidFrame { reason });
    }
    if width == 0 || height == 0 || width % 2 != 0 || height % 2 != 0 {
        return Err(odd_dims_error(width, height));
    }
    proof {
        lemma_plane_sizes(width, height);
    }
    let w: usize = width as usize;
    let h: usize = height as usize;
    let ghost want = counter_plane(width as nat, height as nat, frame_seq);
    let mut y: Vec<u8> = Vec::new();
    let mut row: usize = 0;
    while row < h
        invariant
            w == width,
            h == height,
            0 < w,
            row <= h,
            want == counter_plane(width as nat, height as nat, frame_seq),
            y@.len() == row * w,
            forall|k: int| 0 <= k < y@.len() ==> y@[k] == want[k],
        decreases h - row,
    {
        let mut x: usize = 0;
        while x < w
            invariant
                w == width,
                h == height,
                0 < w,
                row < h,
                x <= w,
                want == counter_plane(width as nat, height as nat, frame_seq),
                y@.len() == row * w + x,
                forall|k: int| 0 <= k < y@.len() ==> y@[k] == want[k],
            decreases w - x,
        {
            let byte: u8 = if row == 0 && x < 64 {
                let i: usize = x / 16;
                if i == 0 {
                    (frame_seq % 0x100) as u8
                } else if i == 1 {
                    (frame_seq / 0x100 % 0x100) as u8
                } else if i == 2 {
                    (frame_seq / 0x1_0000 % 0x100) as u8
                } else {
                    (frame_seq / 0x100_0000) as u8
                }
            } else {
                COUNTER_BACKGROUND
            };
            proof {
                lemma_in_rows(row as int, w as int, h as int, x as int);
                lemma_position(y@.len() as int, w as int, x as int, row as int);
            }
            y.push(byte);
            x += 1;
        }
        assert(row * w + w == (row + 1) * w) by (nonlinear_arith);
        row += 1;
    }
    assert(row * w == w * h) by (nonlinear_arith)
        requires
            row == h,
    ;
    assert(y@ =~= want);
    let u: Vec<u8> = vec![128u8; (w / 2) * (h / 2)];
    let v: Vec<u8> = vec![128u8; (w / 2) * (h / 2)];
    Ok(I420Frame { width, height, y, u, v, stride_y: width, stride_uv: width / 2 })
}


/// Taking the even and the odd columns of the chroma rows apart gives back the U
/// and the V plane, and the luma rows give back the Y plane: no sample of the
/// picture is lost in NV12.
pub proof fn law_nv12_keeps_every_sample(frame: I420Frame, x: int, row: int)
    requires
        planes_hold_rows(frame),
        rows_fit(frame),
    ensures
        0 <= x < frame.width && 0 <= row < frame.height ==> nv12_of(frame)[row * frame.stride_y + x]
            == frame.y@[row * frame.stride_y + x],
        0 <= x < frame.width / 2 && 0 <= row < chroma_rows(frame) ==> {
            let at = (frame.height + row) * frame.stride_y + 2 * x;
            &&& nv12_of(frame)[at] == frame.u@[row * frame.stride_uv + x]
            &&& nv12_of(frame)[at + 1] == frame.v@[row * frame.stride_uv + x]
        },
{
    let stride = frame.stride_y as int;
    let rows = frame.height + chroma_rows(frame);
    if 0 <= x < frame.width && 0 <= row < frame.height {
        lemma_in_rows(row, stride, rows, x);
        lemma_position(row * stride + x, stride, x, row);
    }
    if 0 <= x < frame.width / 2 && 0 <= row < chroma_rows(frame) {
        let at_row = frame.height + row;
        lemma_in_rows(at_row, stride, rows, 2 * x);
        lemma_position(at_row * stride + 2 * x, stride, 2 * x, at_row);
        lemma_in_rows(at_row, stride, rows, 2 * x + 1);
        lemma_position(at_row * stride + 2 * x + 1, stride, 2 * x + 1, at_row);
    }
}

/// The number that a counter frame carries can be read off the first luma row,
/// one byte in every sixteenth column.
#[verifier::spinoff_prover]
pub proof fn law_counter_is_readable(width: nat, height: nat, seq: u32)
    requires
        width >= 64,
        height >= 1,
    ensures
        ({
            let y = counter_plane(width, height, seq);
            seq as int == y[0] as int + 0x100 * y[16] as int + 0x1_0000 * y[32] as int + 0x100_0000
                * y[48] as int
        }),
{
    let w = width as int;
    assert(w <= width * height) by (nonlinear_arith)
        requires
            w == width,
            height >= 1,
    ;
    assert forall|x: int| 0 <= x < 64 implies #[trigger] counter_plane(width, height, seq)[x]
        == le_byte(seq, x / 16) by {
        assert(0 * w + x == x) by (nonlinear_arith);
        lemma_position(x, w, x, 0);
    }
}

/// Luma as BT.601 defines it: between 16 and 235, less than one step away from
/// 16 + 219 * (0.299 R + 0.587 G + 0.114 B) / 255, and no further than half a step away
/// from 16 + (66 R + 129 G + 25 B) / 256. Brighter pixels have no less luma, and an
/// increase of green counts for no less than one of red, which counts for no less than
/// one of blue.
pub proof fn law_luma_is_bt601(b: int, g: int, r: int, d: int)
    requires
        0 <= b <= 255,
        0 <= g <= 255,
        0 <= r <= 255,
        0 <= d,
        b + d <= 255,
        g + d <= 255,
        r + d <= 255,
    ensures
        16 <= luma(b, g, r) <= 235,
        -255_000 < 255_000 * (luma(b, g, r) - 16) - 219 * (299 * r + 587 * g + 114 * b) < 255_000,
        -128 < 256 * (luma(b, g, r) - 16) - (66 * r + 129 * g + 25 * b) <= 128,
        luma(b, g, r) <= luma(b + d, g, r) <= luma(b, g, r + d) <= luma(b, g + d, r),
{
}

/// Blue-difference chroma as BT.601 defines it: between 16 and 240, less than one step
/// away from 128 + 112 * (B - Y) / (0.886 * 255), where Y is the weighted sum of the
/// channels, and no further than half a step away from 128 + (112 B - 74 G - 38 R) / 256.
pub proof fn law_blue_difference_is_bt601(b: int, g: int, r: int)
    requires
        0 <= b <= 255,
        0 <= g <= 255,
        0 <= r <= 255,
    ensures
        16 <= chroma_u(b, g, r) <= 240,
        -225_930 < 225_930 * (chroma_u(b, g, r) - 128) - 112 * (886 * b - 587 * g - 299 * r)
            < 225_930,
        -128 < 256 * (chroma_u(b, g, r) - 128) - (112 * b - 74 * g - 38 * r) <= 128,
{
}

/// Red-difference chroma as BT.601 defines it: between 16 and 240, less than one step
/// away from 128 + 112 * (R - Y) / (0.701 * 255), and no further than half a step away
/// from 128 + (112 R - 94 G - 18 B) / 256.
pub proof fn law_red_difference_is_bt601(b: int, g: int, r: int)
    requires
        0 <= b <= 255,
        0 <= g <= 255,
        0 <= r <= 255,
    ensures
        16 <= chroma_v(b, g, r) <= 240,
        -178_755 < 178_755 * (chroma_v(b, g, r) - 128) - 112 * (701 * r - 587 * g - 114 * b)
            < 178_755,
        -128 < 256 * (chroma_v(b, g, r) - 128) - (112 * r - 94 * g - 18 * b) <= 128,
{
}

/// A grey pixel has no colour: both chroma samples stand at their middle.
pub proof fn law_grey_has_no_colour(v: int)
    requires
        0 <= v <= 255,
    ensures
        chroma_u(v, v, v) == 128,
        chroma_v(v, v, v) == 128,
{
}

/// The luma of the pixel in column `x` of row `row` stands at that place of the plane,
/// and comes from the pixel's own blue, green and red bytes.
pub proof fn law_luma_comes_from_its_pixel(
    bgra: Seq<u8>,
    width: nat,
    height: nat,
    stride: int,
    x: int,
    row: int,
)
    requires
        0 <= x < width,
        0 <= row < height,
    ensures
        ({
            let p = row * stride + 4 * x;
            let sample = luma_plane(bgra, width, height, stride)[row * width + x];
            let exact = 66 * bgra[p + 2] + 129 * bgra[p + 1] + 25 * bgra[p];
            &&& -128 < 256 * (sample - 16) - exact <= 128
            &&& luma_plane(bgra, width, height, stride).len() == width * height
        }),
{
    lemma_in_rows(row, width as int, height as int, x);
    lemma_position(row * width + x, width as int, x, row);
    let p = row * stride + 4 * x;
    law_luma_is_bt601(bgra[p] as int, bgra[p + 1] as int, bgra[p + 2] as int, 0);
}

/// The sum of a byte and its three neighbours to the right, below, and across, in a
/// BGRA picture.
pub open spec fn four_pixels(bgra: Seq<u8>, p: int, stride: int) -> int {
    bgra[p] + bgra[p + 4] + bgra[p + stride] + bgra[p + stride + 4]
}

proof fn lemma_block_is_four_pixels(bgra: Seq<u8>, stride: int, x: int, row: int, c: int)
    ensures
        block_sum(bgra, stride, x, row, c) == four_pixels(
            bgra,
            2 * row * stride + 8 * x + c,
            stride,
        ),
{
    assert((2 * row + 1) * stride == 2 * row * stride + stride) by (nonlinear_arith);
}

proof fn lemma_mean_of_four(bgra: Seq<u8>, stride: int, x: int, row: int, c: int, mean: int)
    requires
        0 <= block_sum(bgra, stride, x, row, c) - 4 * mean < 4,
    ensures
        block_sum(bgra, stride, x, row, c) / 4 == mean,
        0 <= mean <= 255,
{
}

/// The chroma samples in column `x` of row `row` come from the means, rounded down, of
/// the two by two pixels from column `2 * x` and row `2 * row` on.
pub proof fn law_chroma_comes_from_its_pixels(
    bgra: Seq<u8>,
    half_width: nat,
    half_height: nat,
    stride: int,
    x: int,
    row: int,
    b: int,
    g: int,
    r: int,
)
    requires
        0 <= x < half_width,
        0 <= row < half_height,
        0 <= four_pixels(bgra, 2 * row * stride + 8 * x, stride) - 4 * b < 4,
        0 <= four_pixels(bgra, 2 * row * stride + 8 * x + 1, stride) - 4 * g < 4,
        0 <= four_pixels(bgra, 2 * row * stride + 8 * x + 2, stride) - 4 * r < 4,
    ensures
        ({
            let u = chroma_plane(
                bgra,
                half_width,
                half_height,
                stride,
                |b: int, g: int, r: int| chroma_u(b, g, r),
            );
            let v = chroma_plane(
                bgra,
                half_width,
                half_height,
                stride,
                |b: int, g: int, r: int| chroma_v(b, g, r),
            );
            let at = row * half_width + x;
            &&& u.len() == half_width * half_height
            &&& v.len() == half_width * half_height
            &&& -128 < 256 * (u[at] - 128) - (112 * b - 74 * g - 38 * r) <= 128
            &&& -128 < 256 * (v[at] - 128) - (112 * r - 94 * g - 18 * b) <= 128
        }),
{
    lemma_in_rows(row, half_width as int, half_height as int, x);
    lemma_position(row * half_width + x, half_width as int, x, row);
    lemma_block_is_four_pixels(bgra, stride, x, row, 0);
    lemma_block_is_four_pixels(bgra, stride, x, row, 1);
    lemma_block_is_four_pixels(bgra, stride, x, row, 2);
    let sum_b = block_sum(bgra, stride, x, row, 0);
    let sum_g = block_sum(bgra, stride, x, row, 1);
    let sum_r = block_sum(bgra, stride, x, row, 2);
    lemma_mean_of_four(bgra, stride, x, row, 0, b);
    lemma_mean_of_four(bgra, stride, x, row, 1, g);
    lemma_mean_of_four(bgra, stride, x, row, 2, r);
    assert(sum_b / 4 == b && sum_g / 4 == g && sum_r / 4 == r);
    law_blue_difference_is_bt601(b, g, r);
    law_red_difference_is_bt601(b, g, r);
}

/// A picture of even sides whose rows are all there is converted, and no other is. What
/// comes out has the picture's size, no padding, and samples that come from the pixels
/// under them.
pub proof fn law_converted_pictures_keep_their_place(
    bgra: &[u8],
    width: u32,
    height: u32,
    stride: u32,
    r: Result<I420Frame, MediaSwError>,
    x: int,
    row: int,
)
    requires
        call_ensures(bgra_to_i420, (bgra, width, height, stride), r),
        0 <= x < width,
        0 <= row < height,
    ensures
        r is Ok <==> width % 2 == 0 && height % 2 == 0 && stride >= 4 * width && bgra@.len()
            >= stride * height,
        r matches Ok(f) ==> {
            let p = row * stride + 4 * x;
            let exact = 66 * bgra@[p + 2] + 129 * bgra@[p + 1] + 25 * bgra@[p];
            &&& (f.width, f.height) == (width, height)
            &&& f.stride_y == width
            &&& f.stride_uv * 2 == width
            &&& f.y@.len() == width * height
            &&& f.u@.len() == (width / 2) * (height / 2)
            &&& f.v@.len() == f.u@.len()
            &&& -128 < 256 * (f.y@[row * width + x] - 16) - exact <= 128
        },
{
    law_luma_comes_from_its_pixel(
        bgra@,
        width as nat,
        height as nat,
        stride as int,
        x,
        row,
    );
    assert((width as nat) * (height as nat) == width * height);
}

/// A grey picture has no colour: where blue, green and red of the four pixels under a
/// sample are all the same byte, both chroma samples stand at their middle.
pub proof fn law_grey_pictures_have_no_colour(
    bgra: &[u8],
    width: u32,
    height: u32,
    stride: u32,
    f: I420Frame,
    x: int,
    row: int,
    v: u8,
)
    requires
        call_ensures(bgra_to_i420, (bgra, width, height, stride), Ok(f)),
        0 <= 2 * x < width,
        0 <= 2 * row < height,
        forall|i: int, j: int, c: int|
            0 <= i < 2 && 0 <= j < 2 && 0 <= c < 3 ==> bgra@[#[trigger] ((2 * row + j) * stride + (
            2 * x + i) * 4 + c)] == v,
    ensures
        f.u@[row * (width / 2) + x] == 128,
        f.v@[row * (width / 2) + x] == 128,
{
    let half_w = (width / 2) as int;
    let half_h = (height / 2) as int;
    let s = stride as int;
    lemma_in_rows(row, half_w, half_h, x);
    lemma_position(row * half_w + x, half_w, x, row);
    assert forall|c: int| 0 <= c < 3 implies #[trigger] block_sum(bgra@, s, x, row, c) == 4 * v by {
        assert(bgra@[(2 * row + 0) * s + (2 * x + 0) * 4 + c] == v);
        assert(bgra@[(2 * row + 0) * s + (2 * x + 1) * 4 + c] == v);
        assert(bgra@[(2 * row + 1) * s + (2 * x + 0) * 4 + c] == v);
        assert(bgra@[(2 * row + 1) * s + (2 * x + 1) * 4 + c] == v);
    }
    assert(block_sum(bgra@, s, x, row, 0) == 4 * v);
    assert(block_sum(bgra@, s, x, row, 1) == 4 * v);
    assert(block_sum(bgra@, s, x, row, 2) == 4 * v);
    law_grey_has_no_colour(v as int);
}

/// The counter's background is grey: mid luma outside the first row and beside the
/// number, and no colour.
pub proof fn law_counters_stand_on_grey(width: u32, height: u32, seq: u32, f: I420Frame, x: int, row: int)
    requires
        call_ensures(make_counter_i420, (width, height, seq), Ok(f)),
        0 <= x < width,
        0 <= row < height,
    ensures
        f.packed(),
        (f.width, f.height) == (width, height),
        row > 0 || x >= 64 ==> f.y@[row * width + x] == 112,
        forall|k: int| 0 <= k < f.u@.len() ==> f.u@[k] == 128,
        forall|k: int| 0 <= k < f.v@.len() ==> f.v@[k] == 128,
{
    lemma_in_rows(row, width as int, height as int, x);
    lemma_position(row * width + x, width as int, x, row);
    assert((width as nat) * (height as nat) == width * height);
}

/// NV12 has the length of its luma rows and half as many chroma rows, each with the luma
/// stride; what lies beside the picture is zero.
pub proof fn law_nv12_is_padded_with_zeros(frame: I420Frame, x: int, row: int)
    requires
        planes_hold_rows(frame),
        rows_fit(frame),
        0 <= row < frame.height + frame.height / 2,
        x < frame.stride_y,
        row < frame.height ==> frame.width <= x,
        row >= frame.height ==> frame.width / 2 * 2 <= x,
    ensures
        nv12_of(frame)[row * frame.stride_y + x] == 0,
        nv12_of(frame).len() == frame.stride_y * (frame.height + frame.height / 2),
{
    let stride = frame.stride_y as int;
    lemma_in_rows(row, stride, frame.height + chroma_rows(frame), x);
    lemma_position(row * stride + x, stride, x, row);
}

} // verus!
