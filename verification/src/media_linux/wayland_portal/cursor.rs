//! Cursor metadata of a PipeWire buffer.
//!
//! A buffer carries a list of metadata blocks. The cursor block starts with a
//! fixed header (little-endian words), which may point to a bitmap header
//! further on, which in turn points to pixel rows. Bitmaps come out as BGRA
//! without row padding, whatever the compositor sent.

use vstd::prelude::*;
use crate::media_sw::nv12::{lemma_in_rows, lemma_position};
use crate::text::{decimal, push_decimal};

verus! {

/// The kind of a cursor block among the metadata of a buffer.
pub const SPA_META_CURSOR: u32 = 5;

/// A cursor block with this id holds nothing new.
pub const SPA_META_CURSOR_ID_INVALID: u32 = 0;

pub const SPA_VIDEO_FORMAT_RGBA: u32 = 11;

pub const SPA_VIDEO_FORMAT_BGRA: u32 = 12;

pub const SPA_VIDEO_FORMAT_ARGB: u32 = 13;

/// Bytes of the cursor header: id, flags, position, hotspot, bitmap offset.
pub const CURSOR_HEADER: u32 = 28;

/// Bytes of the bitmap header: format, size, stride, pixel offset.
pub const BITMAP_HEADER: u32 = 20;

/// The largest side of a cursor bitmap.
pub const MAX_CURSOR_SIDE: u32 = 256;

/// One metadata block: its kind, its size, and its bytes unless it points nowhere.
#[derive(Debug, Clone)]
pub struct SpaMeta {
    pub type_: u32,
    pub size: u32,
    pub data: Option<Vec<u8>>,
}

impl SpaMeta {
    /// The block has as many bytes as its size says.
    pub open spec fn wf(self) -> bool {
        self.data matches Some(d) ==> d@.len() == self.size
    }
}

/// A cursor update; without a bitmap the last one stays in use.
#[derive(Debug, Clone, PartialEq, Eq)]
pub struct CursorUpdate {
    pub id: u32,
    pub position_x: i32,
    pub position_y: i32,
    pub hotspot_x: i32,
    pub hotspot_y: i32,
    pub bitmap: Option<CursorBitmap>,
}

/// A BGRA bitmap without row padding; no width and no height hide the cursor.
#[derive(Debug, Clone, PartialEq, Eq)]
pub struct CursorBitmap {
    pub width: u32,
    pub height: u32,
    pub bgra: Vec<u8>,
}

/// Why cursor metadata cannot be read.
#[derive(Debug, Clone, Copy, PartialEq, Eq, Structural)]
pub enum CursorMetaError {
    Absent,
    MetaTooSmall(u32),
    BitmapOffsetOutOfBounds(u32, u32),
    BitmapTooLarge(u32, u32),
    UnsupportedFormat(u32),
}

/// What a bitmap holds.
pub struct BitmapView {
    pub width: u32,
    pub height: u32,
    pub bgra: Seq<u8>,
}

/// What an update holds.
pub struct CursorView {
    pub id: u32,
    pub position_x: i32,
    pub position_y: i32,
    pub hotspot_x: i32,
    pub hotspot_y: i32,
    pub bitmap: Option<BitmapView>,
}

impl View for CursorBitmap {
    type V = BitmapView;

    open spec fn view(&self) -> BitmapView {
        BitmapView { width: self.width, height: self.height, bgra: self.bgra@ }
    }
}

impl View for CursorUpdate {
    type V = CursorView;

    open spec fn view(&self) -> CursorView {
        CursorView {
            id: self.id,
            position_x: self.position_x,
            position_y: self.position_y,
            hotspot_x: self.hotspot_x,
            hotspot_y: self.hotspot_y,
            bitmap: match self.bitmap {
                Some(b) => Some(b@),
                None => None,
            },
        }
    }
}

/// The little-endian word at an offset.
pub open spec fn word(data: Seq<u8>, at: int) -> u32 {
    (data[at] + 0x100 * data[at + 1] + 0x1_0000 * data[at + 2] + 0x100_0000 * data[at + 3]) as u32
}

/// Where the first cursor block stands, from `from` on.
pub open spec fn first_cursor(metas: Seq<SpaMeta>, from: int) -> Option<int>
    decreases metas.len() - from,
{
    if from < 0 || from >= metas.len() {
        None
    } else if metas[from].type_ == SPA_META_CURSOR {
        Some(from)
    } else {
        first_cursor(metas, from + 1)
    }
}

/// A pixel format that can be brought to BGRA.
pub open spec fn known_format(format: u32) -> bool {
    format == SPA_VIDEO_FORMAT_BGRA || format == SPA_VIDEO_FORMAT_RGBA || format
        == SPA_VIDEO_FORMAT_ARGB
}

/// Where a format keeps the channel that BGRA keeps at `c`.
pub open spec fn source_channel(format: u32, c: int) -> int {
    if format == SPA_VIDEO_FORMAT_RGBA && c % 2 == 0 {
        2 - c
    } else if format == SPA_VIDEO_FORMAT_ARGB {
        3 - c
    } else {
        c
    }
}

/// The pixels of a bitmap as BGRA without row padding; `at` is where the rows
/// start, `stride` how far apart they are.
pub open spec fn bitmap_pixels(
    data: Seq<u8>,
    at: int,
    stride: int,
    width: u32,
    height: u32,
    format: u32,
) -> Seq<u8> {
    Seq::new(
        (width as nat) * (height as nat) * 4,
        |k: int|
            {
                let x = k / 4 % width as int;
                let row = k / 4 / width as int;
                data[at + row * stride + x * 4 + source_channel(format, k % 4)]
            },
    )
}

/// The bitmap that hides the cursor.
pub open spec fn hidden() -> BitmapView {
    BitmapView { width: 0, height: 0, bgra: seq![] }
}

/// What the bitmap header at `off` says: nothing to take over, a bitmap, or why
/// it cannot be read.
pub open spec fn parse_bitmap(data: Seq<u8>, size: u32, off: u32) -> Result<
    Option<BitmapView>,
    CursorMetaError,
> {
    let format = word(data, off as int);
    let w = word(data, off + 4);
    let h = word(data, off + 8);
    let stride = word(data, off + 12) as i32;
    let rel = word(data, off + 16);
    if format == 0 {
        Ok(None)
    } else if w > MAX_CURSOR_SIDE || h > MAX_CURSOR_SIDE {
        Err(CursorMetaError::BitmapTooLarge(w, h))
    } else if w == 0 || h == 0 || rel == 0 {
        Ok(Some(hidden()))
    } else if stride <= 0 {
        Err(CursorMetaError::UnsupportedFormat(format))
    } else if off + rel > u32::MAX {
        Err(CursorMetaError::BitmapOffsetOutOfBounds(rel, size))
    } else if stride * h > u32::MAX {
        Err(CursorMetaError::BitmapOffsetOutOfBounds(stride as u32, size))
    } else if off + rel + stride * h > size || off + rel + stride * (h - 1) + w * 4 > size {
        Err(CursorMetaError::BitmapOffsetOutOfBounds((off + rel) as u32, size))
    } else if !known_format(format) {
        Err(CursorMetaError::UnsupportedFormat(format))
    } else {
        Ok(
            Some(
                BitmapView {
                    width: w,
                    height: h,
                    bgra: bitmap_pixels(data, off + rel, stride as int, w, h, format),
                },
            ),
        )
    }
}

/// What a cursor block says.
pub open spec fn parse_block(meta: SpaMeta) -> Result<Option<CursorView>, CursorMetaError> {
    let size = meta.size;
    if size < CURSOR_HEADER || meta.data is None {
        Err(CursorMetaError::MetaTooSmall(size))
    } else {
        let data = meta.data->0@;
        let update = CursorView {
            id: word(data, 0),
            position_x: word(data, 8) as i32,
            position_y: word(data, 12) as i32,
            hotspot_x: word(data, 16) as i32,
            hotspot_y: word(data, 20) as i32,
            bitmap: None,
        };
        let off = word(data, 24);
        if update.id == SPA_META_CURSOR_ID_INVALID {
            Ok(None)
        } else if off == 0 {
            Ok(Some(update))
        } else if off < CURSOR_HEADER || off + BITMAP_HEADER > size {
            Err(CursorMetaError::BitmapOffsetOutOfBounds(off, size))
        } else {
            match parse_bitmap(data, size, off) {
                Ok(bitmap) => Ok(Some(CursorView { bitmap, ..update })),
                Err(e) => Err(e),
            }
        }
    }
}

/// What the metadata of a buffer says of the cursor.
pub open spec fn parse_cursor(metas: Seq<SpaMeta>) -> Result<Option<CursorView>, CursorMetaError> {
    match first_cursor(metas, 0) {
        None => Err(CursorMetaError::Absent),
        Some(i) => parse_block(metas[i]),
    }
}

impl CursorMetaError {
    pub open spec fn message(self) -> Seq<char> {
        match self {
            CursorMetaError::Absent => "no SPA_META_Cursor on buffer"@,
            CursorMetaError::MetaTooSmall(size) => "meta size "@ + decimal(size as nat)
                + " smaller than spa_meta_cursor"@,
            CursorMetaError::BitmapOffsetOutOfBounds(off, size) => "bitmap_offset "@ + decimal(
                off as nat,
            ) + " out of bounds (meta size "@ + decimal(size as nat) + ")"@,
            CursorMetaError::BitmapTooLarge(w, h) => "bitmap size "@ + decimal(w as nat) + "x"@
                + decimal(h as nat) + " exceeds cap 256x256 \u{2014} silent-truncate at caller"@,
            CursorMetaError::UnsupportedFormat(format) => "unsupported bitmap format "@ + decimal(
                format as nat,
            ) + " (only BGRA/RGBA/ARGB)"@,
        }
    }

    pub fn to_string(&self) -> (r: String)
        ensures
            r@ == self.message(),
    {
        match *self {
            CursorMetaError::Absent => String::from_str("no SPA_META_Cursor on buffer"),
            CursorMetaError::MetaTooSmall(size) => {
                let mut r: String = String::from_str("meta size ");
                push_decimal(&mut r, size as u64);
                r.append(" smaller than spa_meta_cursor");
                r
            },
            CursorMetaError::BitmapOffsetOutOfBounds(off, size) => {
                let mut r: String = String::from_str("bitmap_offset ");
                push_decimal(&mut r, off as u64);
                r.append(" out of bounds (meta size ");
                push_decimal(&mut r, size as u64);
                r.append(")");
                r
            },
            CursorMetaError::BitmapTooLarge(w, h) => {
                let mut r: String = String::from_str("bitmap size ");
                push_decimal(&mut r, w as u64);
                r.append("x");
                push_decimal(&mut r, h as u64);
                r.append(" exceeds cap 256x256 \u{2014} silent-truncate at caller");
                r
            },
            CursorMetaError::UnsupportedFormat(format) => {
                let mut r: String = String::from_str("unsupported bitmap format ");
                push_decimal(&mut r, format as u64);
                r.append(" (only BGRA/RGBA/ARGB)");
                r
            },
        }
    }
}

fn read_word(data: &Vec<u8>, at: usize) -> (r: u32)
    requires
        at + 4 <= data@.len(),
    ensures
        r == word(data@, at as int),
{
    assert(data@.len() == data.len());
    data[at] as u32 + 0x100 * data[at + 1] as u32 + 0x1_0000 * data[at + 2] as u32 + 0x100_0000
        * data[at + 3] as u32
}

fn read_pixels(data: &Vec<u8>, at: usize, stride: usize, width: u32, height: u32, format: u32) -> (r: Vec<
    u8,
>)
    requires
        known_format(format),
        0 < width <= MAX_CURSOR_SIDE,
        0 < height <= MAX_CURSOR_SIDE,
        at + stride * (height - 1) + width * 4 <= data@.len(),
    ensures
        r@ == bitmap_pixels(data@, at as int, stride as int, width, height, format),
{
    let ghost want = bitmap_pixels(data@, at as int, stride as int, width, height, format);
    let w: usize = width as usize;
    let h: usize = height as usize;
    let mut out: Vec<u8> = Vec::new();
    let mut row: usize = 0;
    while row < h
        invariant
            known_format(format),
            w == width,
            h == height,
            0 < w <= MAX_CURSOR_SIDE,
            row <= h,
            at + stride * (height - 1) + width * 4 <= data@.len(),
            want == bitmap_pixels(data@, at as int, stride as int, width, height, format),
            out@.len() == row * w * 4,
            forall|k: int| 0 <= k < out@.len() ==> out@[k] == want[k],
        decreases h - row,
    {
        let mut x: usize = 0;
        while x < w
            invariant
                known_format(format),
                w == width,
                h == height,
                0 < w <= MAX_CURSOR_SIDE,
                row < h,
                x <= w,
                at + stride * (height - 1) + width * 4 <= data@.len(),
                want == bitmap_pixels(data@, at as int, stride as int, width, height, format),
                out@.len() == (row * w + x) * 4,
                forall|k: int| 0 <= k < out@.len() ==> out@[k] == want[k],
            decreases w - x,
        {
            proof {
                lemma_in_rows(row as int, w as int, h as int, x as int);
                lemma_position(row * w + x, w as int, x as int, row as int);
                assert(0 <= row * stride <= stride * (height - 1)) by (nonlinear_arith)
                    requires
                        0 <= row <= height - 1,
                        0 <= stride,
                ;
                assert(data@.len() == data.len());
            }
            let p: usize = at + row * stride + x * 4;
            if format == SPA_VIDEO_FORMAT_RGBA {
                out.push(data[p + 2]);
                out.push(data[p + 1]);
                out.push(data[p]);
                out.push(data[p + 3]);
            } else if format == SPA_VIDEO_FORMAT_ARGB {
                out.push(data[p + 3]);
                out.push(data[p + 2]);
                out.push(data[p + 1]);
                out.push(data[p]);
            } else {
                out.push(data[p]);
                out.push(data[p + 1]);
                out.push(data[p + 2]);
                out.push(data[p + 3]);
            }
            x += 1;
        }
        assert((row * w + w) * 4 == (row + 1) * w * 4) by (nonlinear_arith);
        row += 1;
    }
    assert(row * w * 4 == w * h * 4) by (nonlinear_arith)
        requires
            row == h,
    ;
    assert(out@ =~= want);
    out
}

fn hidden_bitmap() -> (r: CursorBitmap)
    ensures
        r@ == hidden(),
{
    let r: CursorBitmap = CursorBitmap { width: 0, height: 0, bgra: Vec::new() };
    assert(r@.bgra =~= hidden().bgra);
    r
}

fn read_bitmap(data: &Vec<u8>, size: u32, off: u32) -> (r: Result<
    Option<CursorBitmap>,
    CursorMetaError,
>)
    requires
        data@.len() == size,
        off + BITMAP_HEADER <= size,
    ensures
        match r {
            Ok(None) => parse_bitmap(data@, size, off) == Ok::<Option<BitmapView>, CursorMetaError>(
                None,
            ),
            Ok(Some(b)) => parse_bitmap(data@, size, off) == Ok::<
                Option<BitmapView>,
                CursorMetaError,
            >(Some(b@)),
            Err(e) => parse_bitmap(data@, size, off) == Err::<Option<BitmapView>, CursorMetaError>(
                e,
            ),
        },
{
    let o: usize = off as usize;
    let format: u32 = read_word(data, o);
    let w: u32 = read_word(data, o + 4);
    let h: u32 = read_word(data, o + 8);
    let stride: i32 = read_word(data, o + 12) as i32;
    let rel: u32 = read_word(data, o + 16);
    if format == 0 {
        return Ok(None);
    }
    if w > MAX_CURSOR_SIDE || h > MAX_CURSOR_SIDE {
        return Err(CursorMetaError::BitmapTooLarge(w, h));
    }
    if w == 0 || h == 0 || rel == 0 {
        return Ok(Some(hidden_bitmap()));
    }
    if stride <= 0 {
        return Err(CursorMetaError::UnsupportedFormat(format));
    }
    let pixels: u64 = off as u64 + rel as u64;
    if pixels > u32::MAX as u64 {
        return Err(CursorMetaError::BitmapOffsetOutOfBounds(rel, size));
    }
    assert(0 <= stride * h <= stride * 256) by (nonlinear_arith)
        requires
            0 < stride,
            0 <= h <= 256,
    ;
    assert(stride * (h - 1) == stride * h - stride) by (nonlinear_arith);
    let needed: u64 = stride as u64 * h as u64;
    if needed > u32::MAX as u64 {
        return Err(CursorMetaError::BitmapOffsetOutOfBounds(stride as u32, size));
    }
    let last_row: u64 = needed - stride as u64 + w as u64 * 4;
    if pixels + needed > size as u64 || pixels + last_row > size as u64 {
        return Err(CursorMetaError::BitmapOffsetOutOfBounds(pixels as u32, size));
    }
    if format != SPA_VIDEO_FORMAT_BGRA && format != SPA_VIDEO_FORMAT_RGBA && format
        != SPA_VIDEO_FORMAT_ARGB {
        return Err(CursorMetaError::UnsupportedFormat(format));
    }
    let bgra: Vec<u8> = read_pixels(data, pixels as usize, stride as usize, w, h, format);
    Ok(Some(CursorBitmap { width: w, height: h, bgra }))
}

/// Reads the cursor out of a buffer's metadata. `Ok(None)` says that nothing has
/// changed, an update without a bitmap that the last bitmap stays in use.
pub fn read_meta_cursor(metas: &[SpaMeta]) -> (r: Result<Option<CursorUpdate>, CursorMetaError>)
    requires
        forall|i: int| 0 <= i < metas@.len() ==> (#[trigger] metas@[i]).wf(),
    ensures
        match r {
            Ok(None) => parse_cursor(metas@) == Ok::<Option<CursorView>, CursorMetaError>(None),
            Ok(Some(u)) => parse_cursor(metas@) == Ok::<Option<CursorView>, CursorMetaError>(
                Some(u@),
            ),
            Err(e) => parse_cursor(metas@) == Err::<Option<CursorView>, CursorMetaError>(e),
        },
{
    let mut i: usize = 0;
    while i < metas.len() && metas[i].type_ != SPA_META_CURSOR
        invariant
            i <= metas@.len(),
            first_cursor(metas@, 0) == first_cursor(metas@, i as int),
        decreases metas@.len() - i,
    {
        i += 1;
    }
    if i >= metas.len() {
        return Err(CursorMetaError::Absent);
    }
    let meta: &SpaMeta = &metas[i];
    assert(metas@[i as int].wf());
    assert(first_cursor(metas@, 0) == Some(i as int));
    let size: u32 = meta.size;
    if size < CURSOR_HEADER {
        return Err(CursorMetaError::MetaTooSmall(size));
    }
    let data: &Vec<u8> = match &meta.data {
        Some(d) => d,
        None => {
            return Err(CursorMetaError::MetaTooSmall(size));
        },
    };
    let id: u32 = read_word(data, 0);
    if id == SPA_META_CURSOR_ID_INVALID {
        return Ok(None);
    }
    let mut out: CursorUpdate = CursorUpdate {
        id,
        position_x: read_word(data, 8) as i32,
        position_y: read_word(data, 12) as i32,
        hotspot_x: read_word(data, 16) as i32,
        hotspot_y: read_word(data, 20) as i32,
        bitmap: None,
    };
    let off: u32 = read_word(data, 24);
    if off == 0 {
        return Ok(Some(out));
    }
    if off < CURSOR_HEADER || off as u64 + BITMAP_HEADER as u64 > size as u64 {
        return Err(CursorMetaError::BitmapOffsetOutOfBounds(off, size));
    }
    match read_bitmap(data, size, off) {
        Err(e) => Err(e),
        Ok(bitmap) => {
            out.bitmap = bitmap;
            Ok(Some(out))
        },
    }
}

/// Whatever the metadata holds: an update has an id other than zero, and its
/// bitmap, if it has one, has at most the largest sides and four bytes for each
/// of its pixels.
pub proof fn law_updates_are_bounded(metas: Seq<SpaMeta>)
    ensures
        parse_cursor(metas) matches Ok(Some(u)) ==> {
            &&& u.id != SPA_META_CURSOR_ID_INVALID
            &&& u.bitmap matches Some(b) ==> {
                &&& b.width <= MAX_CURSOR_SIDE
                &&& b.height <= MAX_CURSOR_SIDE
                &&& b.bgra.len() == b.width * b.height * 4
            }
        },
{
    assert(0 * 0 * 4 == 0int) by (nonlinear_arith);
}

/// The same picture sent as RGBA, as ARGB or as BGRA comes out the same: where
/// each source byte stands in its format's own place, the pixels are equal.
pub proof fn law_formats_agree(
    bgra: Seq<u8>,
    other: Seq<u8>,
    stride: int,
    width: u32,
    height: u32,
    format: u32,
)
    requires
        format == SPA_VIDEO_FORMAT_RGBA || format == SPA_VIDEO_FORMAT_ARGB,
        0 < width,
        forall|x: int, row: int, c: int|
            0 <= x < width && 0 <= row < height && 0 <= c < 4 ==> other[#[trigger] (row * stride + x
                * 4 + source_channel(format, c))] == bgra[#[trigger] (row * stride + x * 4 + c)],
    ensures
        bitmap_pixels(other, 0, stride, width, height, format) == bitmap_pixels(
            bgra,
            0,
            stride,
            width,
            height,
            SPA_VIDEO_FORMAT_BGRA,
        ),
{
    let a = bitmap_pixels(other, 0, stride, width, height, format);
    let b = bitmap_pixels(bgra, 0, stride, width, height, SPA_VIDEO_FORMAT_BGRA);
    assert forall|k: int| 0 <= k < a.len() implies a[k] == b[k] by {
        let w = width as int;
        let x = k / 4 % w;
        let row = k / 4 / w;
        assert(k / 4 < w * height);
        assert(0 <= x < w && 0 <= row < height) by (nonlinear_arith)
            requires
                0 < w,
                0 <= k / 4 < w * height,
                x == k / 4 % w,
                row == k / 4 / w,
        ;
        let c = k % 4;
        assert(other[row * stride + x * 4 + source_channel(format, c)] == bgra[row * stride + x * 4
            + c]);
    }
    assert(a =~= b);
}

/// The four bytes from `at` on are those of a number, the least significant first.
pub open spec fn holds_word(data: Seq<u8>, at: int, n: int) -> bool {
    n == data[at] + 256 * (data[at + 1] + 256 * (data[at + 2] + 256 * data[at + 3]))
}

/// A pixel comes out as blue, green, red and alpha, at its place in rows without
/// padding. RGBA (format eleven) has red first and blue third, ARGB (format thirteen)
/// has all four bytes in reverse, BGRA (format twelve) is as it comes out.
pub proof fn law_pixels_come_out_as_bgra(
    data: Seq<u8>,
    at: int,
    stride: int,
    width: u32,
    height: u32,
    format: u32,
    x: int,
    row: int,
)
    requires
        0 <= x < width,
        0 <= row < height,
    ensures
        ({
            let out = bitmap_pixels(data, at, stride, width, height, format);
            let to = (row * width + x) * 4;
            let p = at + row * stride + x * 4;
            &&& 0 <= to
            &&& to + 3 < out.len()
            &&& out.len() == width * height * 4
            &&& format == 11 ==> {
                &&& out[to] == data[p + 2]
                &&& out[to + 1] == data[p + 1]
                &&& out[to + 2] == data[p]
                &&& out[to + 3] == data[p + 3]
            }
            &&& format == 12 ==> {
                &&& out[to] == data[p]
                &&& out[to + 1] == data[p + 1]
                &&& out[to + 2] == data[p + 2]
                &&& out[to + 3] == data[p + 3]
            }
            &&& format == 13 ==> {
                &&& out[to] == data[p + 3]
                &&& out[to + 1] == data[p + 2]
                &&& out[to + 2] == data[p + 1]
                &&& out[to + 3] == data[p]
            }
        }),
{
    let w = width as int;
    lemma_in_rows(row, w, height as int, x);
    lemma_position(row * w + x, w, x, row);
    assert(width as nat * height as nat == w * height as int);
}

/// What the fields of a cursor block hold is what the update says: the id, two words on
/// the position, then the hotspot and where the bitmap is described. Without an id there
/// is nothing new, and without a description no bitmap.
pub proof fn law_cursor_fields_read_back(
    meta: SpaMeta,
    id: u32,
    position: (i32, i32),
    hotspot: (i32, i32),
    off: u32,
)
    requires
        meta.wf(),
        meta.data is Some,
        meta.size >= 28,
        holds_word(meta.data->0@, 0, id as int),
        holds_word(meta.data->0@, 8, position.0 as u32 as int),
        holds_word(meta.data->0@, 12, position.1 as u32 as int),
        holds_word(meta.data->0@, 16, hotspot.0 as u32 as int),
        holds_word(meta.data->0@, 20, hotspot.1 as u32 as int),
        holds_word(meta.data->0@, 24, off as int),
    ensures
        id == 0 ==> parse_block(meta) == Ok::<Option<CursorView>, CursorMetaError>(None),
        id != 0 && off == 0 ==> parse_block(meta) == Ok::<Option<CursorView>, CursorMetaError>(
            Some(
                CursorView {
                    id,
                    position_x: position.0,
                    position_y: position.1,
                    hotspot_x: hotspot.0,
                    hotspot_y: hotspot.1,
                    bitmap: None,
                },
            ),
        ),
        id != 0 && off != 0 && (off < 28 || off + 20 > meta.size) ==> parse_block(meta) == Err::<
            Option<CursorView>,
            CursorMetaError,
        >(CursorMetaError::BitmapOffsetOutOfBounds(off, meta.size)),
        parse_block(meta) matches Ok(Some(u)) ==> {
            &&& u.id == id
            &&& (u.position_x, u.position_y) == position
            &&& (u.hotspot_x, u.hotspot_y) == hotspot
            &&& off == 0 ==> u.bitmap is None
            &&& off != 0 ==> parse_bitmap(meta.data->0@, meta.size, off) == Ok::<
                Option<BitmapView>,
                CursorMetaError,
            >(u.bitmap)
        },
        id != 0 && off >= 28 && off + 20 <= meta.size ==> (parse_block(meta) is Ok <==> parse_bitmap(
            meta.data->0@,
            meta.size,
            off,
        ) is Ok),
{
    let a = position.0;
    let b = position.1;
    let c = hotspot.0;
    let d = hotspot.1;
    assert((a as u32) as i32 == a) by (bit_vector);
    assert((b as u32) as i32 == b) by (bit_vector);
    assert((c as u32) as i32 == c) by (bit_vector);
    assert((d as u32) as i32 == d) by (bit_vector);
}

/// A bitmap that is described by its format, width, height, stride and the place of its
/// rows, and that lies within the block, comes out with its size and its pixels. Nothing
/// is taken over without a format, an empty bitmap or one without a place hides the
/// cursor, and one with a side above 256 is refused.
pub proof fn law_described_bitmaps_are_read(
    data: Seq<u8>,
    off: u32,
    format: u32,
    width: u32,
    height: u32,
    stride: i32,
    rel: u32,
)
    requires
        data.len() <= u32::MAX,
        off + 20 <= data.len(),
        holds_word(data, off as int, format as int),
        holds_word(data, off + 4, width as int),
        holds_word(data, off + 8, height as int),
        holds_word(data, off + 12, stride as u32 as int),
        holds_word(data, off + 16, rel as int),
    ensures
        ({
            let r = parse_bitmap(data, data.len() as u32, off);
            let size = data.len() as u32;
            &&& format == 0 <==> r == Ok::<Option<BitmapView>, CursorMetaError>(None)
            &&& format != 0 && (width > 256 || height > 256) ==> r == Err::<
                Option<BitmapView>,
                CursorMetaError,
            >(CursorMetaError::BitmapTooLarge(width, height))
            &&& format != 0 && width <= 256 && height <= 256 && (width == 0 || height == 0 || rel
                == 0) ==> (r matches Ok(Some(b)) && b.width == 0 && b.height == 0 && b.bgra.len()
                == 0)
            &&& 11 <= format <= 13 && 0 < width <= 256 && 0 < height <= 256 && rel > 0 && stride > 0
                && off + rel + stride * height <= size && off + rel + stride * (height - 1) + 4
                * width <= size ==> (r matches Ok(Some(b))
                && b.width == width && b.height == height && b.bgra == bitmap_pixels(
                data,
                off + rel,
                stride as int,
                width,
                height,
                format,
            ))
            &&& (format != 0 && !(11 <= format <= 13)) && 0 < width <= 256 && 0 < height <= 256
                && rel > 0 ==> r is Err
            &&& (format != 0 && !(11 <= format <= 13)) && 0 < width <= 256 && 0 < height <= 256
                && rel > 0 && stride > 0 && off + rel + stride * height <= size && off + rel + stride
                * (height - 1) + 4 * width <= size ==> r == Err::<
                Option<BitmapView>,
                CursorMetaError,
            >(CursorMetaError::UnsupportedFormat(format))
            &&& 0 < width <= 256 && 0 < height <= 256 && rel > 0 && format != 0 && (stride <= 0
                || off + rel + stride * height > size || off + rel + stride * (height - 1) + 4
                * width > size) ==> r is Err
        }),
{
    assert((stride as u32) as i32 == stride) by (bit_vector);
    assert(stride * (height - 1) == stride * height - stride) by (nonlinear_arith);
}

/// The cursor block that is read is the first one of its kind (number five).
pub proof fn law_the_first_cursor_block_counts(metas: Seq<SpaMeta>, i: int)
    requires
        0 <= i < metas.len(),
        metas[i].type_ == 5,
        forall|j: int| 0 <= j < i ==> (#[trigger] metas[j]).type_ != 5,
    ensures
        parse_cursor(metas) == parse_block(metas[i]),
{
    lemma_first_cursor(metas, 0, i);
}

proof fn lemma_first_cursor(metas: Seq<SpaMeta>, from: int, i: int)
    requires
        0 <= from <= i < metas.len(),
        metas[i].type_ == SPA_META_CURSOR,
        forall|j: int| from <= j < i ==> (#[trigger] metas[j]).type_ != SPA_META_CURSOR,
    ensures
        first_cursor(metas, from) == Some(i),
    decreases i - from,
{
    if from < i {
        lemma_first_cursor(metas, from + 1, i);
    }
}

/// Without a block of that kind there is no cursor.
pub proof fn law_no_cursor_block_is_absent(metas: Seq<SpaMeta>, from: int)
    requires
        0 <= from <= metas.len(),
        forall|j: int| from <= j < metas.len() ==> (#[trigger] metas[j]).type_ != 5,
    ensures
        first_cursor(metas, from) is None,
        from == 0 ==> parse_cursor(metas) == Err::<Option<CursorView>, CursorMetaError>(
            CursorMetaError::Absent,
        ),
    decreases metas.len() - from,
{
    if from < metas.len() {
        law_no_cursor_block_is_absent(metas, from + 1);
    }
}

} // verus!
