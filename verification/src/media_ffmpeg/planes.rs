//! Pictures on their way between FFmpeg's planes, whose rows are padded, and the
//! frames of this library.

use vstd::prelude::*;
use crate::media_core::{Hdr10Metadata, Nv12Frame, Nv12Frame16};
use crate::media_sw::nv12::{lemma_in_rows, lemma_position, I420Frame};

verus! {

/// Half of a number, rounded up.
pub open spec fn half_up(n: int) -> int {
    n / 2 + n % 2
}

fn rounded_half(n: usize) -> (r: usize)
    ensures
        r == half_up(n as int),
{
    n / 2 + n % 2
}

/// The luma plane of an NV12 picture after a frame was written to it; what lies
/// beside and below the picture stays as it was.
pub open spec fn luma_written(frame: I420Frame, before: Seq<u8>, stride: int) -> Seq<u8> {
    Seq::new(
        before.len(),
        |k: int|
            if frame.width > 0 && k / stride < frame.height && k % stride < frame.width {
                frame.y@[k / stride * frame.stride_y + k % stride]
            } else {
                before[k]
            },
    )
}

/// The chroma plane of an NV12 picture after a frame was written to it.
pub open spec fn chroma_written(frame: I420Frame, before: Seq<u8>, stride: int) -> Seq<u8> {
    Seq::new(
        before.len(),
        |k: int|
            if frame.width > 1 && k / stride < frame.height / 2 && k % stride < frame.width / 2
                * 2 {
                let at = k / stride * frame.stride_uv + k % stride / 2;
                if k % stride % 2 == 0 {
                    frame.u@[at]
                } else {
                    frame.v@[at]
                }
            } else {
                before[k]
            },
    )
}

/// A plane holds the rows of the given width.
pub open spec fn rows_there(len: nat, stride: int, rows: int, width: int) -> bool {
    width <= stride && stride * rows <= len
}

/// The frame's planes and the planes that it is written to hold its rows.
pub open spec fn planes_fit(
    frame: I420Frame,
    y_len: nat,
    y_stride: usize,
    uv_len: nat,
    uv_stride: usize,
) -> bool {
    let chroma_rows = (frame.height / 2) as int;
    let chroma_width = (frame.width / 2) as int;
    &&& rows_there(frame.y@.len(), frame.stride_y as int, frame.height as int, frame.width as int)
    &&& rows_there(frame.u@.len(), frame.stride_uv as int, chroma_rows, chroma_width)
    &&& rows_there(frame.v@.len(), frame.stride_uv as int, chroma_rows, chroma_width)
    &&& rows_there(y_len, y_stride as int, frame.height as int, frame.width as int)
    &&& rows_there(uv_len, uv_stride as int, chroma_rows, chroma_width * 2)
}

fn write_luma(frame: &I420Frame, dst: &mut [u8], stride: usize)
    requires
        rows_there(
            frame.y@.len(),
            frame.stride_y as int,
            frame.height as int,
            frame.width as int,
        ),
        rows_there(old(dst)@.len(), stride as int, frame.height as int, frame.width as int),
    ensures
        final(dst)@ == luma_written(*frame, old(dst)@, stride as int),
{
    let w: usize = frame.width as usize;
    let h: usize = frame.height as usize;
    let ghost before = dst@;
    let ghost want = luma_written(*frame, before, stride as int);
    if w == 0 || h == 0 {
        assert forall|k: int| 0 <= k < before.len() implies want[k] == before[k] by {
            if w != 0 {
                assert(k / stride as int >= 0) by (nonlinear_arith)
                    requires
                        0 <= k,
                        0 < stride,
                ;
            }
        }
        assert(dst@ =~= want);
        return;
    }
    let mut row: usize = 0;
    while row < h
        invariant
            w == frame.width,
            h == frame.height,
            row <= h,
            0 < w,
            rows_there(frame.y@.len(), frame.stride_y as int, h as int, w as int),
            rows_there(before.len(), stride as int, h as int, w as int),
            dst@.len() == before.len(),
            want == luma_written(*frame, before, stride as int),
            forall|k: int| 0 <= k < row * stride ==> dst@[k] == want[k],
            forall|k: int| row * stride <= k < before.len() ==> dst@[k] == before[k],
        decreases h - row,
    {
        let mut x: usize = 0;
        while x < w
            invariant
                w == frame.width,
                h == frame.height,
                row < h,
                x <= w,
                0 < w,
                rows_there(frame.y@.len(), frame.stride_y as int, h as int, w as int),
                rows_there(before.len(), stride as int, h as int, w as int),
                dst@.len() == before.len(),
                want == luma_written(*frame, before, stride as int),
                forall|k: int| 0 <= k < row * stride + x ==> dst@[k] == want[k],
                forall|k: int| row * stride + x <= k < before.len() ==> dst@[k] == before[k],
            decreases w - x,
        {
            proof {
                lemma_in_rows(row as int, stride as int, h as int, x as int);
                lemma_in_rows(row as int, frame.stride_y as int, h as int, x as int);
                lemma_position(row * stride + x, stride as int, x as int, row as int);
                assert(frame.y@.len() == frame.y.len());
                assert(dst@.len() == dst.len());
            }
            dst[row * stride + x] = frame.y[row * frame.stride_y as usize + x];
            x += 1;
        }
        proof {
            lemma_in_rows(row as int, stride as int, h as int, stride - 1);
            assert(row * stride + stride == (row + 1) * stride) by (nonlinear_arith);
            assert forall|k: int| row * stride + w <= k < (row + 1) * stride && k < before.len()
                implies want[k] == before[k] by {
                lemma_position(k, stride as int, k - row * stride, row as int);
            }
        }
        row += 1;
    }
    proof {
        assert(row * stride == stride * h) by (nonlinear_arith)
            requires
                row == h,
        ;
        assert forall|k: int| stride * h <= k < before.len() implies want[k] == before[k] by {
            assert(k / stride as int >= h) by (nonlinear_arith)
                requires
                    stride * h <= k,
                    0 < stride,
            ;
        }
        assert(dst@ =~= want);
    }
}

fn chroma_sample(frame: &I420Frame, x: usize, row: usize) -> (r: u8)
    requires
        row < frame.height / 2,
        x < frame.width / 2 * 2,
        rows_there(
            frame.u@.len(),
            frame.stride_uv as int,
            (frame.height / 2) as int,
            (frame.width / 2) as int,
        ),
        rows_there(
            frame.v@.len(),
            frame.stride_uv as int,
            (frame.height / 2) as int,
            (frame.width / 2) as int,
        ),
    ensures
        r == if x % 2 == 0 {
            frame.u@[row * frame.stride_uv + x / 2]
        } else {
            frame.v@[row * frame.stride_uv + x / 2]
        },
{
    proof {
        lemma_in_rows(
            row as int,
            frame.stride_uv as int,
            (frame.height / 2) as int,
            (x / 2) as int,
        );
        assert(frame.u@.len() == frame.u.len());
        assert(frame.v@.len() == frame.v.len());
    }
    let at: usize = row * frame.stride_uv as usize + x / 2;
    if x % 2 == 0 {
        frame.u[at]
    } else {
        frame.v[at]
    }
}

fn write_chroma(frame: &I420Frame, dst: &mut [u8], stride: usize)
    requires
        rows_there(
            frame.u@.len(),
            frame.stride_uv as int,
            (frame.height / 2) as int,
            (frame.width / 2) as int,
        ),
        rows_there(
            frame.v@.len(),
            frame.stride_uv as int,
            (frame.height / 2) as int,
            (frame.width / 2) as int,
        ),
        rows_there(
            old(dst)@.len(),
            stride as int,
            (frame.height / 2) as int,
            frame.width / 2 * 2,
        ),
    ensures
        final(dst)@ == chroma_written(*frame, old(dst)@, stride as int),
{
    let w: usize = frame.width as usize / 2 * 2;
    let h: usize = frame.height as usize / 2;
    let ghost before = dst@;
    let ghost want = chroma_written(*frame, before, stride as int);
    if w == 0 || h == 0 {
        assert forall|k: int| 0 <= k < before.len() implies want[k] == before[k] by {
            if w != 0 {
                assert(k / stride as int >= 0) by (nonlinear_arith)
                    requires
                        0 <= k,
                        0 < stride,
                ;
            }
        }
        assert(dst@ =~= want);
        return;
    }
    let mut row: usize = 0;
    while row < h
        invariant
            w == frame.width / 2 * 2,
            h == frame.height / 2,
            row <= h,
            0 < w,
            rows_there(
                frame.u@.len(),
                frame.stride_uv as int,
                (frame.height / 2) as int,
                (frame.width / 2) as int,
            ),
            rows_there(
                frame.v@.len(),
                frame.stride_uv as int,
                (frame.height / 2) as int,
                (frame.width / 2) as int,
            ),
            rows_there(before.len(), stride as int, h as int, w as int),
            dst@.len() == before.len(),
            want == chroma_written(*frame, before, stride as int),
            forall|k: int| 0 <= k < row * stride ==> dst@[k] == want[k],
            forall|k: int| row * stride <= k < before.len() ==> dst@[k] == before[k],
        decreases h - row,
    {
        let mut x: usize = 0;
        while x < w
            invariant
                w == frame.width / 2 * 2,
                h == frame.height / 2,
                row < h,
                x <= w,
                0 < w,
                rows_there(
                    frame.u@.len(),
                    frame.stride_uv as int,
                    (frame.height / 2) as int,
                    (frame.width / 2) as int,
                ),
                rows_there(
                    frame.v@.len(),
                    frame.stride_uv as int,
                    (frame.height / 2) as int,
                    (frame.width / 2) as int,
                ),
                rows_there(before.len(), stride as int, h as int, w as int),
                dst@.len() == before.len(),
                want == chroma_written(*frame, before, stride as int),
                forall|k: int| 0 <= k < row * stride + x ==> dst@[k] == want[k],
                forall|k: int| row * stride + x <= k < before.len() ==> dst@[k] == before[k],
            decreases w - x,
        {
            proof {
                lemma_in_rows(row as int, stride as int, h as int, x as int);
                lemma_position(row * stride + x, stride as int, x as int, row as int);
                assert(dst@.len() == dst.len());
            }
            let byte: u8 = chroma_sample(frame, x, row);
            dst[row * stride + x] = byte;
            x += 1;
        }
        proof {
            lemma_in_rows(row as int, stride as int, h as int, stride - 1);
            assert(row * stride + stride == (row + 1) * stride) by (nonlinear_arith);
            assert forall|k: int| row * stride + w <= k < (row + 1) * stride && k < before.len()
                implies want[k] == before[k] by {
                lemma_position(k, stride as int, k - row * stride, row as int);
            }
        }
        row += 1;
    }
    proof {
        assert(row * stride == stride * h) by (nonlinear_arith)
            requires
                row == h,
        ;
        assert forall|k: int| stride * h <= k < before.len() implies want[k] == before[k] by {
            assert(k / stride as int >= h) by (nonlinear_arith)
                requires
                    stride * h <= k,
                    0 < stride,
            ;
        }
        assert(dst@ =~= want);
    }
}

/// Writes a frame into the planes of an NV12 picture: luma row by row, and U and V
/// in turn.
pub fn i420_to_nv12_into(
    frame: &I420Frame,
    y_dst: &mut [u8],
    y_stride: usize,
    uv_dst: &mut [u8],
    uv_stride: usize,
)
    requires
        planes_fit(*frame, old(y_dst)@.len(), y_stride, old(uv_dst)@.len(), uv_stride),
    ensures
        final(y_dst)@ == luma_written(*frame, old(y_dst)@, y_stride as int),
        final(uv_dst)@ == chroma_written(*frame, old(uv_dst)@, uv_stride as int),
{
    write_luma(frame, y_dst, y_stride);
    write_chroma(frame, uv_dst, uv_stride);
}

fn first_bytes(plane: &[u8], n: usize) -> (r: Vec<u8>)
    requires
        n <= plane@.len(),
    ensures
        r@ == plane@.take(n as int),
{
    let mut r: Vec<u8> = Vec::new();
    let mut k: usize = 0;
    while k < n
        invariant
            k <= n <= plane@.len(),
            r@ == plane@.take(k as int),
        decreases n - k,
    {
        r.push(plane[k]);
        k += 1;
        assert(r@ =~= plane@.take(k as int));
    }
    r
}

/// Takes an NV12 picture out of FFmpeg's planes, with the padding of its rows. A
/// picture of odd height has a chroma row for its last luma row too.
pub fn copy_nv12_planes(
    y: &[u8],
    uv: &[u8],
    y_stride: usize,
    uv_stride: usize,
    width: u32,
    height: u32,
    pts_us: u64,
) -> (r: Nv12Frame)
    requires
        y_stride * height <= y@.len(),
        uv_stride * half_up(height as int) <= uv@.len(),
    ensures
        r.width == width,
        r.height == height,
        r.y@ == y@.take(y_stride * height),
        r.uv@ == uv@.take(uv_stride * half_up(height as int)),
        r.stride_y == y_stride as u32,
        r.stride_uv == uv_stride as u32,
        r.pts_us == pts_us,
{
    let h: usize = height as usize;
    let chroma_rows: usize = rounded_half(h);
    proof {
        assert(0 <= y_stride * h) by (nonlinear_arith);
        assert(0 <= uv_stride * chroma_rows) by (nonlinear_arith);
        assert(y@.len() == y.len());
        assert(uv@.len() == uv.len());
    }
    let luma: Vec<u8> = first_bytes(y, y_stride * h);
    let chroma: Vec<u8> = first_bytes(uv, uv_stride * chroma_rows);
    Nv12Frame {
        width,
        height,
        y: luma,
        uv: chroma,
        stride_y: #[verifier::truncate] (y_stride as u32),
        stride_uv: #[verifier::truncate] (uv_stride as u32),
        pts_us,
    }
}

/// The luma plane without the padding of its rows.
pub open spec fn tight_luma(y: Seq<u8>, stride: int, width: nat, height: nat) -> Seq<u8> {
    Seq::new(width * height, |k: int| y[k / width as int * stride + k % width as int])
}

/// U and V in turn, without the padding of their rows; `columns` and `rows` count
/// samples of one plane.
pub open spec fn tight_chroma(
    u: Seq<u8>,
    v: Seq<u8>,
    stride: int,
    columns: nat,
    rows: nat,
) -> Seq<u8> {
    Seq::new(
        columns * 2 * rows,
        |k: int|
            {
                let at = k / (columns * 2) as int * stride + k % (columns * 2) as int / 2;
                if k % (columns * 2) as int % 2 == 0 {
                    u[at]
                } else {
                    v[at]
                }
            },
    )
}

fn pack_luma(y: &[u8], stride: usize, w: usize, h: usize) -> (r: Vec<u8>)
    requires
        rows_there(y@.len(), stride as int, h as int, w as int),
    ensures
        r@ == tight_luma(y@, stride as int, w as nat, h as nat),
{
    let ghost want = tight_luma(y@, stride as int, w as nat, h as nat);
    let mut r: Vec<u8> = Vec::new();
    let mut row: usize = 0;
    while row < h
        invariant
            row <= h,
            rows_there(y@.len(), stride as int, h as int, w as int),
            want == tight_luma(y@, stride as int, w as nat, h as nat),
            r@.len() == row * w,
            forall|k: int| 0 <= k < r@.len() ==> r@[k] == want[k],
        decreases h - row,
    {
        let mut x: usize = 0;
        while x < w
            invariant
                row < h,
                x <= w,
                rows_there(y@.len(), stride as int, h as int, w as int),
                want == tight_luma(y@, stride as int, w as nat, h as nat),
                r@.len() == row * w + x,
                forall|k: int| 0 <= k < r@.len() ==> r@[k] == want[k],
            decreases w - x,
        {
            proof {
                lemma_in_rows(row as int, stride as int, h as int, x as int);
                lemma_in_rows(row as int, w as int, h as int, x as int);
                lemma_position(row * w + x, w as int, x as int, row as int);
                assert(y@.len() == y.len());
            }
            r.push(y[row * stride + x]);
            x += 1;
        }
        assert(row * w + w == (row + 1) * w) by (nonlinear_arith);
        row += 1;
    }
    assert(row * w == w * h) by (nonlinear_arith)
        requires
            row == h,
    ;
    assert(r@ =~= want);
    r
}

fn pack_chroma(u: &[u8], v: &[u8], stride: usize, columns: usize, rows: usize) -> (r: Vec<u8>)
    requires
        columns * 2 <= usize::MAX,
        rows_there(u@.len(), stride as int, rows as int, columns as int),
        rows_there(v@.len(), stride as int, rows as int, columns as int),
    ensures
        r@ == tight_chroma(u@, v@, stride as int, columns as nat, rows as nat),
{
    let ghost want = tight_chroma(u@, v@, stride as int, columns as nat, rows as nat);
    let w: usize = columns * 2;
    let mut r: Vec<u8> = Vec::new();
    let mut row: usize = 0;
    while row < rows
        invariant
            row <= rows,
            w == columns * 2,
            rows_there(u@.len(), stride as int, rows as int, columns as int),
            rows_there(v@.len(), stride as int, rows as int, columns as int),
            want == tight_chroma(u@, v@, stride as int, columns as nat, rows as nat),
            r@.len() == row * w,
            forall|k: int| 0 <= k < r@.len() ==> r@[k] == want[k],
        decreases rows - row,
    {
        let mut x: usize = 0;
        while x < w
            invariant
                row < rows,
                x <= w,
                w == columns * 2,
                rows_there(u@.len(), stride as int, rows as int, columns as int),
                rows_there(v@.len(), stride as int, rows as int, columns as int),
                want == tight_chroma(u@, v@, stride as int, columns as nat, rows as nat),
                r@.len() == row * w + x,
                forall|k: int| 0 <= k < r@.len() ==> r@[k] == want[k],
            decreases w - x,
        {
            proof {
                lemma_in_rows(row as int, stride as int, rows as int, (x / 2) as int);
                lemma_in_rows(row as int, w as int, rows as int, x as int);
                lemma_position(row * w + x, w as int, x as int, row as int);
                assert(u@.len() == u.len());
                assert(v@.len() == v.len());
            }
            let at: usize = row * stride + x / 2;
            if x % 2 == 0 {
                r.push(u[at]);
            } else {
                r.push(v[at]);
            }
            x += 1;
        }
        assert(row * w + w == (row + 1) * w) by (nonlinear_arith);
        row += 1;
    }
    assert(row * w == w * rows) by (nonlinear_arith)
        requires
            row == rows,
    ;
    assert(r@ =~= want);
    r
}

/// Takes a planar picture out of FFmpeg's planes as NV12: rows lose their padding,
/// and U and V come in turn.
pub fn copy_yuv420p_as_nv12_planes(
    y: &[u8],
    u: &[u8],
    v: &[u8],
    y_stride: usize,
    c_stride: usize,
    width: u32,
    height: u32,
    pts_us: u64,
) -> (r: Nv12Frame)
    requires
        half_up(width as int) * 2 <= u32::MAX,
        rows_there(y@.len(), y_stride as int, height as int, width as int),
        rows_there(u@.len(), c_stride as int, half_up(height as int), half_up(width as int)),
        rows_there(v@.len(), c_stride as int, half_up(height as int), half_up(width as int)),
    ensures
        r.width == width,
        r.height == height,
        r.y@ == tight_luma(y@, y_stride as int, width as nat, height as nat),
        r.uv@ == tight_chroma(
            u@,
            v@,
            c_stride as int,
            half_up(width as int) as nat,
            half_up(height as int) as nat,
        ),
        r.stride_y == width,
        r.stride_uv == half_up(width as int) * 2,
        r.pts_us == pts_us,
{
    let w: usize = width as usize;
    let h: usize = height as usize;
    let columns: usize = rounded_half(w);
    let rows: usize = rounded_half(h);
    let luma: Vec<u8> = pack_luma(y, y_stride, w, h);
    let chroma: Vec<u8> = pack_chroma(u, v, c_stride, columns, rows);
    Nv12Frame {
        width,
        height,
        y: luma,
        uv: chroma,
        stride_y: width,
        stride_uv: (columns * 2) as u32,
        pts_us,
    }
}

/// Words of two bytes each, the low byte first.
pub open spec fn words(bytes: Seq<u8>, n: nat) -> Seq<u16> {
    Seq::new(n, |k: int| (bytes[2 * k] + 256 * bytes[2 * k + 1]) as u16)
}

fn first_words(plane: &[u8], n: usize) -> (r: Vec<u16>)
    requires
        2 * n <= plane@.len(),
    ensures
        r@ == words(plane@, n as nat),
{
    let mut r: Vec<u16> = Vec::new();
    let mut k: usize = 0;
    while k < n
        invariant
            k <= n,
            2 * n <= plane@.len(),
            r@.len() == k,
            forall|i: int| 0 <= i < k ==> r@[i] == words(plane@, n as nat)[i],
        decreases n - k,
    {
        assert(plane@.len() == plane.len());
        r.push(plane[2 * k] as u16 + 256 * (plane[2 * k + 1] as u16));
        k += 1;
    }
    assert(r@ =~= words(plane@, n as nat));
    r
}

/// Takes a P010 picture out of FFmpeg's planes, with the padding of its rows.
/// Strides are given in bytes, those of the frame count words.
pub fn copy_p010_planes(
    y: &[u8],
    uv: &[u8],
    y_stride_bytes: usize,
    uv_stride_bytes: usize,
    width: u32,
    height: u32,
    pts_us: u64,
    hdr10: Option<Hdr10Metadata>,
) -> (r: Nv12Frame16)
    requires
        y_stride_bytes * height <= y@.len(),
        uv_stride_bytes * half_up(height as int) <= uv@.len(),
    ensures
        r.width == width,
        r.height == height,
        r.y@ == words(y@, (y_stride_bytes / 2 * height) as nat),
        r.uv@ == words(uv@, (uv_stride_bytes / 2 * half_up(height as int)) as nat),
        r.stride_y == (y_stride_bytes / 2) as u32,
        r.stride_uv == (uv_stride_bytes / 2) as u32,
        r.pts_us == pts_us,
        r.hdr10 == hdr10,
{
    let h: usize = height as usize;
    let chroma_rows: usize = rounded_half(h);
    let y_words: usize = y_stride_bytes / 2;
    let uv_words: usize = uv_stride_bytes / 2;
    proof {
        assert(0 <= 2 * (y_words * h) <= y_stride_bytes * h) by (nonlinear_arith)
            requires
                2 * y_words <= y_stride_bytes,
                0 <= h,
                0 <= y_words,
        ;
        assert(0 <= 2 * (uv_words * chroma_rows) <= uv_stride_bytes * chroma_rows)
            by (nonlinear_arith)
            requires
                2 * uv_words <= uv_stride_bytes,
                0 <= chroma_rows,
                0 <= uv_words,
        ;
        assert(y@.len() == y.len());
        assert(uv@.len() == uv.len());
    }
    let luma: Vec<u16> = first_words(y, y_words * h);
    let chroma: Vec<u16> = first_words(uv, uv_words * chroma_rows);
    Nv12Frame16 {
        width,
        height,
        y: luma,
        uv: chroma,
        stride_y: #[verifier::truncate] (y_words as u32),
        stride_uv: #[verifier::truncate] (uv_words as u32),
        pts_us,
        hdr10,
    }
}

/// A planar picture keeps its samples as NV12: luma and chroma of every pixel stand
/// where a reader of the frame looks for them, also in the last row of a picture of
/// odd height and the last column of one of odd width.
pub proof fn law_planar_pictures_keep_their_samples(
    y: Seq<u8>,
    u: Seq<u8>,
    v: Seq<u8>,
    y_stride: int,
    c_stride: int,
    width: nat,
    height: nat,
    x: int,
    row: int,
)
    requires
        0 <= x < width,
        0 <= row < height,
    ensures
        ({
            let columns = half_up(width as int) as nat;
            let rows = half_up(height as int) as nat;
            let luma = tight_luma(y, y_stride, width, height);
            let chroma = tight_chroma(u, v, c_stride, columns, rows);
            let at = row / 2 * (columns * 2) + x / 2 * 2;
            &&& luma[row * width + x] == y[row * y_stride + x]
            &&& 0 <= at < chroma.len() - 1
            &&& chroma[at] == u[row / 2 * c_stride + x / 2]
            &&& chroma[at + 1] == v[row / 2 * c_stride + x / 2]
        }),
{
    let columns = half_up(width as int);
    let rows = half_up(height as int);
    lemma_in_rows(row, width as int, height as int, x);
    lemma_position(row * width + x, width as int, x, row);
    lemma_in_rows(row / 2, columns * 2, rows, x / 2 * 2 + 1);
    lemma_position(row / 2 * (columns * 2) + x / 2 * 2, columns * 2, x / 2 * 2, row / 2);
    lemma_position(row / 2 * (columns * 2) + x / 2 * 2 + 1, columns * 2, x / 2 * 2 + 1, row / 2);
}

/// A frame that is written into padded planes keeps every sample: luma stands at its
/// column and row, U and V of a pixel stand side by side. The planes keep their length,
/// and what lies beside the picture or below it stays as it was.
pub proof fn law_written_planes_keep_every_sample(
    frame: I420Frame,
    y_before: Seq<u8>,
    y_stride: usize,
    uv_before: Seq<u8>,
    uv_stride: usize,
    x: int,
    row: int,
)
    requires
        planes_fit(frame, y_before.len(), y_stride, uv_before.len(), uv_stride),
        0 <= x,
        0 <= row,
    ensures
        ({
            let y = luma_written(frame, y_before, y_stride as int);
            let uv = chroma_written(frame, uv_before, uv_stride as int);
            &&& y.len() == y_before.len()
            &&& uv.len() == uv_before.len()
            &&& x < frame.width && row < frame.height ==> y[row * y_stride + x]
                == frame.y@[row * frame.stride_y + x]
            &&& x < y_stride && row * y_stride + x < y_before.len() && (x >= frame.width || row
                >= frame.height) ==> y[row * y_stride + x] == y_before[row * y_stride + x]
            &&& x < frame.width / 2 && row < frame.height / 2 ==> {
                &&& uv[row * uv_stride + 2 * x] == frame.u@[row * frame.stride_uv + x]
                &&& uv[row * uv_stride + 2 * x + 1] == frame.v@[row * frame.stride_uv + x]
            }
            &&& x < uv_stride && row * uv_stride + x < uv_before.len() && (x >= frame.width / 2 * 2
                || row >= frame.height / 2) ==> uv[row * uv_stride + x] == uv_before[row * uv_stride
                + x]
        }),
{
    assert(0 <= row * y_stride) by (nonlinear_arith)
        requires
            0 <= row,
            0 <= y_stride,
    ;
    assert(0 <= row * uv_stride) by (nonlinear_arith)
        requires
            0 <= row,
            0 <= uv_stride,
    ;
    if x < y_stride {
        lemma_position(row * y_stride + x, y_stride as int, x, row);
    }
    if x < uv_stride {
        lemma_position(row * uv_stride + x, uv_stride as int, x, row);
    }
    if x < frame.width && row < frame.height {
        lemma_in_rows(row, y_stride as int, frame.height as int, x);
    }
    if x < frame.width / 2 && row < frame.height / 2 {
        let s = uv_stride as int;
        lemma_in_rows(row, s, (frame.height / 2) as int, 2 * x + 1);
        lemma_position(row * s + 2 * x, s, 2 * x, row);
        lemma_position(row * s + 2 * x + 1, s, 2 * x + 1, row);
    }
}

/// A picture that is taken with its padding is what the planes held: byte for byte, or
/// two bytes to a word with the low one first.
pub proof fn law_words_are_little_endian(bytes: Seq<u8>, n: nat, k: int)
    requires
        0 <= k < n,
    ensures
        words(bytes, n).len() == n,
        words(bytes, n)[k] % 256 == bytes[2 * k],
        words(bytes, n)[k] / 256 == bytes[2 * k + 1],
{
}

/// A picture of 10-bit samples keeps them on its way out of FFmpeg's planes: the sample in
/// column `x` of row `row`, and the chroma of the same row of the chroma plane, are the
/// two bytes at their place, the low one first; a picture of odd height keeps the chroma
/// of its last row.
pub proof fn law_ten_bit_pictures_keep_their_samples(
    y: &[u8],
    uv: &[u8],
    y_stride: usize,
    uv_stride: usize,
    width: u32,
    height: u32,
    pts_us: u64,
    hdr10: Option<Hdr10Metadata>,
    r: Nv12Frame16,
    x: int,
    row: int,
)
    requires
        y_stride * height <= y@.len(),
        uv_stride * half_up(height as int) <= uv@.len(),
        y_stride % 2 == 0,
        uv_stride % 2 == 0,
        y_stride <= u32::MAX,
        uv_stride <= u32::MAX,
        call_ensures(
            copy_p010_planes,
            (y, uv, y_stride, uv_stride, width, height, pts_us, hdr10),
            r,
        ),
        0 <= x,
        0 <= row < height,
    ensures
        (r.width, r.height, r.pts_us) == (width, height, pts_us),
        r.hdr10 == hdr10,
        2 * r.stride_y == y_stride,
        2 * r.stride_uv == uv_stride,
        2 * x < y_stride ==> {
            let at = row * y_stride + 2 * x;
            r.y@[row * r.stride_y + x] == y@[at] + 256 * y@[at + 1]
        },
        2 * x < uv_stride ==> {
            let at = row / 2 * uv_stride + 2 * x;
            r.uv@[row / 2 * r.stride_uv + x] == uv@[at] + 256 * uv@[at + 1]
        },
{
    let ys = (y_stride / 2) as int;
    let cs = (uv_stride / 2) as int;
    assert(row * y_stride == 2 * (row * ys)) by (nonlinear_arith)
        requires
            y_stride == 2 * ys,
    ;
    assert(row / 2 * uv_stride == 2 * (row / 2 * cs)) by (nonlinear_arith)
        requires
            uv_stride == 2 * cs,
    ;
    if 2 * x < y_stride {
        lemma_in_rows(row, ys, height as int, x);
    }
    if 2 * x < uv_stride {
        lemma_in_rows(row / 2, cs, half_up(height as int), x);
    }
}

} // verus!
