//! What the capture stream decides: which parameters it acts on, and how the
//! memory of a delivered buffer becomes a frame.

use std::collections::VecDeque;
use vstd::prelude::*;
use crate::media_linux::wayland_portal::cursor::{CursorMetaError, CursorUpdate};
use crate::media_linux::wayland_portal::format::{
    build, negotiated, offered_properties, parse, BuiltParams, ParseError, PixelFormat, Pod,
    DRM_FORMAT_MOD_INVALID, SPA_PARAM_ENUM_FORMAT, SPA_PARAM_FORMAT, SPA_TYPE_OBJECT_FORMAT,
};
use crate::media_linux::wayland_portal::pod_builder::object_pod;

verus! {

pub const SPA_DATA_MEMPTR: u32 = 1;

pub const SPA_DATA_MEMFD: u32 = 2;

pub const SPA_DATA_DMABUF: u32 = 3;

/// How the memory of a buffer is reached.
#[derive(Debug, Clone, Copy, PartialEq, Eq, Structural)]
pub enum DataPath {
    DmaBuf,
    MemFd,
    MemPtr,
    Unknown,
}

pub open spec fn data_path(raw: u32) -> DataPath {
    if raw == SPA_DATA_DMABUF {
        DataPath::DmaBuf
    } else if raw == SPA_DATA_MEMFD {
        DataPath::MemFd
    } else if raw == SPA_DATA_MEMPTR {
        DataPath::MemPtr
    } else {
        DataPath::Unknown
    }
}

/// The path that a buffer's type tag stands for.
pub fn classify_spa_data_type(raw: u32) -> (r: DataPath)
    ensures
        r == data_path(raw),
{
    if raw == SPA_DATA_DMABUF {
        DataPath::DmaBuf
    } else if raw == SPA_DATA_MEMFD {
        DataPath::MemFd
    } else if raw == SPA_DATA_MEMPTR {
        DataPath::MemPtr
    } else {
        DataPath::Unknown
    }
}

/// A command to the thread that runs the stream.
#[derive(Debug, Clone, Copy, PartialEq, Eq, Structural)]
pub enum LoopCommand {
    Shutdown,
}

/// A frame as it came from the compositor; rows may be padded.
#[derive(Debug)]
pub struct RawFrame {
    pub data: Vec<u8>,
    pub width: u32,
    pub height: u32,
    /// Bytes per row.
    pub stride: u32,
    /// Monotonic time of the capture in microseconds.
    pub ts_us: u64,
}

impl RawFrame {
    /// The bytes of a row that carry pixels.
    pub fn width_bytes(&self) -> (r: usize)
        requires
            self.width * 4 <= usize::MAX,
        ensures
            r == self.width * 4,
    {
        (self.width as usize) * 4
    }

    /// The pixels of row `y`.
    pub fn row(&self, y: u32) -> (r: &[u8])
        requires
            y < self.height,
            y * self.stride + self.width * 4 <= self.data@.len(),
        ensures
            r@ == self.data@.subrange(
                y * self.stride,
                y * self.stride + self.width * 4,
            ),
    {
        proof {
            assert(0 <= y * self.stride) by (nonlinear_arith)
                requires
                    0 <= y,
                    0 <= self.stride,
            ;
            assert(self.data@.len() == self.data.len());
        }
        let off: usize = (y as usize) * (self.stride as usize);
        vstd::slice::slice_subrange(self.data.as_slice(), off, off + self.width_bytes())
    }
}

/// The room that a vector has without growing: `Vec::capacity`. How much an
/// allocator gave is not claimed.
#[verifier::external_body]
fn buffer_room(v: &Vec<u8>) -> (r: usize)
{
    v.capacity()
}

/// What the vector was found to have room for, without growing.
pub closed spec fn reports_room(v: Vec<u8>, room: usize) -> bool {
    call_ensures(buffer_room, (&v,), room)
}

/// The vector is what `Vec::with_capacity` gave for so many bytes.
pub open spec fn made_with_room(min_bytes: usize, v: Vec<u8>) -> bool {
    call_ensures(Vec::<u8>::with_capacity, (min_bytes,), v)
}

/// The same vector without its bytes.
fn cleared(v: Vec<u8>) -> (r: Vec<u8>)
    ensures
        r@ == Seq::<u8>::empty(),
{
    let mut v: Vec<u8> = v;
    v.clear();
    v
}

/// The vector is the other one after it was cleared.
pub closed spec fn emptied(before: Vec<u8>, after: Vec<u8>) -> bool {
    call_ensures(cleared, (before,), after)
}

/// The other vector was emptied and asked for its room again: with so many bytes of
/// it this is that vector, with less it is a new one.
pub open spec fn reused(before: Vec<u8>, min_bytes: usize, r: Vec<u8>) -> bool {
    exists|v: Vec<u8>, left: usize|
        #[trigger] emptied(before, v) && #[trigger] reports_room(v, left) && if left >= min_bytes {
            r == v
        } else {
            made_with_room(min_bytes, r)
        }
}

/// A few buffers kept for reuse.
pub struct FramePool {
    capacity: usize,
    free: VecDeque<Vec<u8>>,
}

impl FramePool {
    /// How many buffers are kept at most.
    pub closed spec fn cap(self) -> nat {
        self.capacity as nat
    }

    /// The buffers kept, the one that came first at the front.
    pub closed spec fn kept(self) -> Seq<Vec<u8>> {
        self.free@
    }

    /// No more buffers are kept than allowed.
    pub open spec fn wf(self) -> bool {
        self.kept().len() <= self.cap()
    }

    pub fn with_capacity(capacity: usize) -> (r: Self)
        requires
            capacity * 24 <= isize::MAX,
        ensures
            r.wf(),
            r.cap() == capacity,
            r.kept() == Seq::<Vec<u8>>::empty(),
    {
        FramePool { capacity, free: VecDeque::with_capacity(capacity) }
    }

    /// Takes the front buffer if it is wanted and another one stays behind.
    fn take_front(&mut self, wanted: bool) -> (r: Option<Vec<u8>>)
        requires
            old(self).wf(),
        ensures
            final(self).wf(),
            final(self).cap() == old(self).cap(),
            if wanted && old(self).kept().len() >= 2 {
                &&& r == Some(old(self).kept()[0])
                &&& final(self).kept() == old(self).kept().skip(1)
            } else {
                &&& r is None
                &&& final(self).kept() == old(self).kept()
            },
    {
        if wanted && self.free.len() >= 2 {
            let ghost before = self.free@;
            let front: Option<Vec<u8>> = self.free.pop_front();
            assert(self.free@ =~= before.skip(1));
            front
        } else {
            None
        }
    }

    /// What taking a buffer with room for `min_bytes` makes of the pool: the front
    /// buffer leaves it if it reports that room and is not the last, and comes back
    /// emptied; else a new one is made and the pool stays as it was.
    pub open spec fn gives(self, min_bytes: usize, r: Vec<u8>, after: FramePool) -> bool {
        if self.kept().len() < 2 {
            made_with_room(min_bytes, r) && after.kept() == self.kept()
        } else {
            exists|room: usize|
                #[trigger] reports_room(self.kept()[0], room) && if room >= min_bytes {
                    &&& after.kept() == self.kept().skip(1)
                    &&& reused(self.kept()[0], min_bytes, r)
                } else {
                    made_with_room(min_bytes, r) && after.kept() == self.kept()
                }
        }
    }

    /// A buffer with room for `min_bytes` was taken.
    pub open spec fn lends(self, min_bytes: usize, after: FramePool) -> bool {
        exists|v: Vec<u8>| #[trigger] self.gives(min_bytes, v, after)
    }

    /// An empty buffer with room for `min_bytes`: the front one of the pool if it
    /// reports that room and is not the last, else a new one.
    pub fn acquire(&mut self, min_bytes: usize) -> (r: Vec<u8>)
        requires
            old(self).wf(),
            min_bytes <= isize::MAX,
        ensures
            r@ == Seq::<u8>::empty(),
            final(self).wf(),
            final(self).cap() == old(self).cap(),
            old(self).gives(min_bytes, r, *final(self)),
    {
        if self.free.len() >= 2 {
            let room: usize = buffer_room(&self.free[0]);
            assert(reports_room(old(self).kept()[0], room));
            match self.take_front(room >= min_bytes) {
                Some(front) => {
                    let v: Vec<u8> = cleared(front);
                    let left: usize = buffer_room(&v);
                    assert(emptied(old(self).kept()[0], v) && reports_room(v, left));
                    if left >= min_bytes {
                        return v;
                    }
                },
                None => {},
            }
        }
        Vec::with_capacity(min_bytes)
    }

    /// Keeps a buffer for reuse, unless enough are kept already.
    pub fn recycle(&mut self, v: Vec<u8>)
        requires
            old(self).wf(),
        ensures
            final(self).wf(),
            final(self).cap() == old(self).cap(),
            final(self).kept() == if old(self).kept().len() < old(self).cap() {
                old(self).kept().push(v)
            } else {
                old(self).kept()
            },
    {
        if self.free.len() < self.capacity {
            self.free.push_back(v);
        }
    }

    pub fn len(&self) -> (r: usize)
        ensures
            r == self.kept().len(),
    {
        self.free.len()
    }

    pub fn is_empty(&self) -> (r: bool)
        ensures
            r == (self.kept().len() == 0),
    {
        self.free.len() == 0
    }
}

/// Why a stream cannot be opened.
#[derive(Debug)]
pub enum PipeWireStreamError {
    SpawnFailed(String),
    Stream(String),
}

impl PipeWireStreamError {
    pub fn to_string(&self) -> (r: String)
        ensures
            r@ == match *self {
                PipeWireStreamError::SpawnFailed(s) => "thread spawn failed: "@ + s@,
                PipeWireStreamError::Stream(s) => "stream error: "@ + s@,
            },
    {
        match self {
            PipeWireStreamError::SpawnFailed(s) => {
                let mut r: String = String::from_str("thread spawn failed: ");
                r.append(s.as_str());
                r
            },
            PipeWireStreamError::Stream(s) => {
                let mut r: String = String::from_str("stream error: ");
                r.append(s.as_str());
                r
            },
        }
    }
}

/// What to do when a parameter of the stream has changed.
#[derive(Debug, Clone, Copy, PartialEq, Eq, Structural)]
pub enum ParamAction {
    Ignore,
    Disconnect,
    SetSize { width: u32, height: u32 },
}

pub open spec fn param_action(id: u32, param: Option<Pod>) -> ParamAction {
    if id != SPA_PARAM_FORMAT || param is None {
        ParamAction::Ignore
    } else {
        match negotiated(param->0) {
            Err(_) => ParamAction::Disconnect,
            Ok(neg) => if neg.modifier == Some(DRM_FORMAT_MOD_INVALID) {
                ParamAction::Disconnect
            } else {
                ParamAction::SetSize { width: neg.width, height: neg.height }
            },
        }
    }
}

/// Only a format is acted on. One that cannot be read, or whose buffers may be
/// tiled, ends the stream; any other sets the picture's size.
pub fn on_param_changed(id: u32, param: &Option<Pod>) -> (r: ParamAction)
    ensures
        r == param_action(id, *param),
{
    if id != SPA_PARAM_FORMAT {
        return ParamAction::Ignore;
    }
    match param {
        None => ParamAction::Ignore,
        Some(p) => match parse(p) {
            Err(_) => ParamAction::Disconnect,
            Ok(neg) => {
                let tiled: bool = match neg.modifier {
                    Some(m) => m == DRM_FORMAT_MOD_INVALID,
                    None => false,
                };
                if tiled {
                    ParamAction::Disconnect
                } else {
                    ParamAction::SetSize { width: neg.width, height: neg.height }
                }
            },
        },
    }
}

/// What to do with the cursor metadata of a buffer.
#[derive(Debug)]
pub enum CursorAction {
    Send(CursorUpdate),
    Nothing,
    Warn(CursorMetaError),
}

/// An update goes on; metadata that is absent or says nothing new is no matter;
/// any other failure is worth a warning.
pub fn on_cursor(read: Result<Option<CursorUpdate>, CursorMetaError>) -> (r: CursorAction)
    ensures
        r == match read {
            Ok(Some(c)) => CursorAction::Send(c),
            Ok(None) => CursorAction::Nothing,
            Err(CursorMetaError::Absent) => CursorAction::Nothing,
            Err(e) => CursorAction::Warn(e),
        },
{
    match read {
        Ok(Some(c)) => CursorAction::Send(c),
        Ok(None) => CursorAction::Nothing,
        Err(CursorMetaError::Absent) => CursorAction::Nothing,
        Err(e) => CursorAction::Warn(e),
    }
}

/// The filled part of a buffer's memory.
#[derive(Debug, Clone, Copy, PartialEq, Eq, Structural)]
pub struct Chunk {
    pub data_type: u32,
    pub stride: i32,
    pub size: u32,
    pub offset: u32,
}

impl Chunk {
    /// Bytes per row; a picture that is stored bottom up has a negative stride.
    pub open spec fn row_bytes(self) -> int {
        if self.stride < 0 {
            -self.stride
        } else {
            self.stride as int
        }
    }

    /// There is something to take.
    pub open spec fn filled(self) -> bool {
        self.size != 0 && self.stride != 0
    }

    /// The picture's size: the negotiated one, or an estimate while none is known.
    pub open spec fn geometry(self, known: (u32, u32)) -> (u32, u32) {
        if known.0 == 0 || known.1 == 0 {
            let rows = self.size as int / self.row_bytes();
            (
                (self.row_bytes() / 4) as u32,
                if rows < 1 {
                    1
                } else {
                    rows as u32
                },
            )
        } else {
            known
        }
    }

    /// The length of the frame's data: its rows, and the whole chunk.
    pub open spec fn frame_len(self, known: (u32, u32)) -> int {
        let rows = self.row_bytes() * self.geometry(known).1;
        if rows < self.size {
            self.size as int
        } else {
            rows
        }
    }

    /// The bytes to copy out of the memory that was reached through the path. A
    /// mapped plane is read from the chunk's offset on; memory that the stream
    /// mapped itself starts with the chunk.
    pub open spec fn source(self, memory: Seq<u8>) -> Seq<u8> {
        let len = memory.len() as int;
        if data_path(self.data_type) == DataPath::DmaBuf {
            let from = if self.offset < len {
                self.offset as int
            } else {
                len
            };
            let to = if self.offset + self.size < len {
                self.offset + self.size
            } else {
                len
            };
            memory.subrange(from, to)
        } else {
            memory.take(
                if self.size < len {
                    self.size as int
                } else {
                    len
                },
            )
        }
    }

    /// The frame that is made of the chunk.
    pub open spec fn makes(
        self,
        f: RawFrame,
        known: (u32, u32),
        memory: Seq<u8>,
        now_us: u64,
    ) -> bool {
        &&& f.width == self.geometry(known).0
        &&& f.height == self.geometry(known).1
        &&& f.stride == self.row_bytes()
        &&& f.ts_us == now_us
        &&& f.data@ == zero_extended(self.source(memory), self.frame_len(known))
    }

    /// Whether the memory can be used: a known path, and memory behind it.
    pub open spec fn usable(self, memory: Option<Seq<u8>>) -> bool {
        match data_path(self.data_type) {
            DataPath::DmaBuf => memory is Some,
            DataPath::MemFd | DataPath::MemPtr => memory matches Some(m) && m.len() > 0,
            DataPath::Unknown => false,
        }
    }
}

/// `source` followed by as many zeros as make it `len` bytes long.
pub open spec fn zero_extended(source: Seq<u8>, len: int) -> Seq<u8> {
    Seq::new(
        len as nat,
        |i: int|
            if i < source.len() {
                source[i]
            } else {
                0u8
            },
    )
}

/// The bytes behind an optional reference.
pub open spec fn memory_view(memory: Option<&[u8]>) -> Option<Seq<u8>> {
    match memory {
        Some(m) => Some(m@),
        None => None,
    }
}

/// Appends `len` bytes: those of `src` from `from` to `to`, then zeros.
fn fill(v: &mut Vec<u8>, src: &[u8], from: usize, to: usize, len: usize)
    requires
        old(v)@.len() == 0,
        from <= to <= src@.len(),
        to - from <= len,
    ensures
        final(v)@ == zero_extended(src@.subrange(from as int, to as int), len as int),
{
    let ghost want = zero_extended(src@.subrange(from as int, to as int), len as int);
    let mut i: usize = 0;
    while i < len
        invariant
            i <= len,
            from <= to <= src@.len(),
            want == zero_extended(src@.subrange(from as int, to as int), len as int),
            v@.len() == i,
            forall|k: int| 0 <= k < i ==> v@[k] == want[k],
        decreases len - i,
    {
        let byte: u8 = if i < to - from {
            src[from + i]
        } else {
            0
        };
        v.push(byte);
        i += 1;
    }
    assert(v@ =~= want);
}

/// Makes a frame out of a delivered buffer, or nothing where there is nothing to
/// take. `memory` is what the buffer's path led to: the mapped plane of a shared
/// buffer, or the memory that the stream has mapped.
pub fn on_process(
    pool: &mut FramePool,
    known: (u32, u32),
    chunk: &Chunk,
    memory: Option<&[u8]>,
    now_us: u64,
) -> (r: Option<RawFrame>)
    requires
        old(pool).wf(),
        chunk.filled() && chunk.usable(memory_view(memory)) ==> chunk.frame_len(known) <= isize::MAX,
    ensures
        final(pool).wf(),
        final(pool).cap() == old(pool).cap(),
        r is Some <==> chunk.filled() && chunk.usable(memory_view(memory)),
        r matches Some(f) ==> chunk.makes(f, known, memory_view(memory)->0, now_us),
        r is None ==> final(pool).kept() == old(pool).kept(),
        r is Some ==> old(pool).lends(chunk.frame_len(known) as usize, *final(pool)),
{
    if chunk.size == 0 || chunk.stride == 0 {
        return None;
    }
    let stride: u32 = if chunk.stride < 0 {
        (-(chunk.stride as i64)) as u32
    } else {
        chunk.stride as u32
    };
    let (width, height): (u32, u32) = if known.0 == 0 || known.1 == 0 {
        let rows: u32 = chunk.size / stride;
        (
            stride / 4,
            if rows < 1 {
                1
            } else {
                rows
            },
        )
    } else {
        known
    };
    let path: DataPath = classify_spa_data_type(chunk.data_type);
    let src: &[u8] = match memory {
        Some(m) => m,
        None => {
            return None;
        },
    };
    match path {
        DataPath::Unknown => {
            return None;
        },
        DataPath::DmaBuf => {},
        DataPath::MemFd | DataPath::MemPtr => {
            if src.len() == 0 {
                return None;
            }
        },
    }
    proof {
        assert(0 <= stride as int * height as int <= 0xFFFF_FFFF * 0xFFFF_FFFF) by (nonlinear_arith)
            requires
                0 <= stride <= 0xFFFF_FFFF,
                0 <= height <= 0xFFFF_FFFF,
        ;
    }
    let rows_len: u64 = stride as u64 * height as u64;
    let len: u64 = if rows_len < chunk.size as u64 {
        chunk.size as u64
    } else {
        rows_len
    };
    let len: usize = len as usize;
    let total: u64 = src.len() as u64;
    let mut v: Vec<u8> = pool.acquire(len);
    let (from, to): (u64, u64) = match path {
        DataPath::DmaBuf => {
            let end: u64 = chunk.offset as u64 + chunk.size as u64;
            (
                if (chunk.offset as u64) < total {
                    chunk.offset as u64
                } else {
                    total
                },
                if end < total {
                    end
                } else {
                    total
                },
            )
        },
        _ => (
            0,
            if (chunk.size as u64) < total {
                chunk.size as u64
            } else {
                total
            },
        ),
    };
    fill(&mut v, src, from as usize, to as usize, len);
    proof {
        assert(src@.subrange(from as int, to as int) =~= chunk.source(src@));
    }
    Some(RawFrame { data: v, width, height, stride, ts_us: now_us })
}

/// The receiving end of a screen cast: the size that was agreed on last, and the
/// buffers that are kept for reuse.
pub struct PipeWireStream {
    size: (u32, u32),
    pool: FramePool,
}

impl PipeWireStream {
    pub closed spec fn size(self) -> (u32, u32) {
        self.size
    }

    pub closed spec fn pool(self) -> FramePool {
        self.pool
    }

    /// At most two buffers are kept.
    pub open spec fn wf(self) -> bool {
        self.pool().wf() && self.pool().cap() == 2
    }

    /// A stream without a size and without buffers.
    pub fn new() -> (r: Self)
        ensures
            r.wf(),
            r.size() == (0u32, 0u32),
            r.pool().kept().len() == 0,
    {
        PipeWireStream { size: (0, 0), pool: FramePool::with_capacity(2) }
    }

    /// The size that was agreed on last; nothing by nothing before that.
    pub fn current_size(&self) -> (r: (u32, u32))
        ensures
            r == self.size(),
    {
        self.size
    }

    /// Acts on a changed parameter: a format that can be used sets the size.
    pub fn param_changed(&mut self, id: u32, param: &Option<Pod>) -> (r: ParamAction)
        ensures
            r == param_action(id, *param),
            final(self).pool() == old(self).pool(),
            final(self).size() == match r {
                ParamAction::SetSize { width, height } => (width, height),
                _ => old(self).size(),
            },
    {
        let action: ParamAction = on_param_changed(id, param);
        match action {
            ParamAction::SetSize { width, height } => {
                self.size = (width, height);
            },
            _ => {},
        }
        action
    }

    /// Makes a frame out of a delivered buffer, or nothing where there is nothing to
    /// take.
    pub fn process(&mut self, chunk: &Chunk, memory: Option<&[u8]>, now_us: u64) -> (r: Option<
        RawFrame,
    >)
        requires
            old(self).wf(),
            chunk.filled() && chunk.usable(memory_view(memory)) ==> chunk.frame_len(
                old(self).size(),
            ) <= isize::MAX,
        ensures
            final(self).wf(),
            final(self).size() == old(self).size(),
            r is Some <==> chunk.filled() && chunk.usable(memory_view(memory)),
            r matches Some(f) ==> chunk.makes(f, old(self).size(), memory_view(memory)->0, now_us),
            r is None ==> final(self).pool().kept() == old(self).pool().kept(),
            r is Some ==> old(self).pool().lends(
                chunk.frame_len(old(self).size()) as usize,
                final(self).pool(),
            ),
    {
        on_process(&mut self.pool, self.size, chunk, memory, now_us)
    }

    /// Takes back a frame that found the channel full: its buffer is kept for reuse
    /// if there is room.
    pub fn channel_full(&mut self, frame: RawFrame)
        requires
            old(self).wf(),
        ensures
            final(self).wf(),
            final(self).size() == old(self).size(),
            final(self).pool().kept() == if old(self).pool().kept().len() < 2 {
                old(self).pool().kept().push(frame.data)
            } else {
                old(self).pool().kept()
            },
    {
        self.pool.recycle(frame.data);
    }
}

/// The size and layout that a format parameter names, or in a word why not.
pub fn parse_video_format(p: &Pod) -> (r: Result<(u32, u32, PixelFormat), &'static str>)
    ensures
        match negotiated(*p) {
            Ok(neg) => r == Ok::<(u32, u32, PixelFormat), &'static str>(
                (neg.width, neg.height, neg.format),
            ),
            Err(e) => r matches Err(why) && why@ == match e {
                ParseError::NotObject => "not an object"@,
                ParseError::WrongType(_) => "wrong pod type"@,
                ParseError::NotVideo => "not video"@,
                ParseError::NotRaw => "not raw"@,
                ParseError::UnsupportedFormat(_) => "unsupported format"@,
                ParseError::MissingSize => "missing size"@,
            },
        },
{
    match parse(p) {
        Ok(neg) => Ok((neg.width, neg.height, neg.format)),
        Err(e) => Err(
            match e {
                ParseError::NotObject => "not an object",
                ParseError::WrongType(_) => "wrong pod type",
                ParseError::NotVideo => "not video",
                ParseError::NotRaw => "not raw",
                ParseError::UnsupportedFormat(_) => "unsupported format",
                ParseError::MissingSize => "missing size",
            },
        ),
    }
}

/// The parameters that the stream is opened with.
pub fn build_format_params() -> (r: BuiltParams)
    ensures
        r.bytes@.len() == 1,
        r.bytes@[0]@ == object_pod(
            SPA_TYPE_OBJECT_FORMAT,
            SPA_PARAM_ENUM_FORMAT,
            offered_properties(),
        ),
{
    build()
}

/// A frame's data holds all of its rows, so that each row can be read.
pub proof fn law_frames_hold_their_rows(chunk: Chunk, known: (u32, u32), memory: Seq<u8>, y: int)
    requires
        chunk.filled(),
        known.0 != 0 && known.1 != 0 ==> known.0 * 4 <= chunk.row_bytes(),
        0 <= y < chunk.geometry(known).1,
    ensures
        y * chunk.row_bytes() + chunk.geometry(known).0 * 4 <= zero_extended(
            chunk.source(memory),
            chunk.frame_len(known),
        ).len(),
{
    let stride = chunk.row_bytes();
    let h = chunk.geometry(known).1 as int;
    assert(y * stride + stride <= stride * h) by (nonlinear_arith)
        requires
            0 <= y < h,
            0 <= stride,
    ;
}

/// Only the parameter of the agreed format (number four) is acted on, and only where it
/// has a value. A value that cannot be read, or whose modifier says that the layout is
/// not given (minus one), ends the stream; any other sets the size to the rectangle that
/// it names, whatever its modifier, be it linear (zero), another, or none.
pub proof fn law_only_an_unknown_layout_ends_the_stream(id: u32, param: Option<Pod>)
    ensures
        id != 4 || param is None <==> param_action(id, param) is Ignore,
        id == 4 ==> (param matches Some(p) ==> {
            &&& negotiated(p) is Err ==> param_action(id, param) is Disconnect
            &&& negotiated(p) matches Ok(neg) ==> {
                &&& neg.modifier is None || neg.modifier->0 != -1 ==> param_action(id, param)
                    == (ParamAction::SetSize { width: neg.width, height: neg.height })
                &&& neg.modifier is Some && neg.modifier->0 == -1 ==> param_action(id, param)
                    is Disconnect
            }
        }),
{
}

/// What kind of memory a buffer has: pointers are type one, shared memory is type two,
/// shared device buffers are type three, and nothing else is known.
pub proof fn law_what_memory_a_buffer_has(raw: u32)
    ensures
        data_path(raw) is MemPtr <==> raw == 1,
        data_path(raw) is MemFd <==> raw == 2,
        data_path(raw) is DmaBuf <==> raw == 3,
{
}

/// A frame holds what the memory held, byte for byte, from the chunk's offset on in a
/// shared device buffer and from the start in other memory, no further than the chunk's
/// size; the rest is zero. It is as long as its rows, or as the chunk if that is longer.
pub proof fn law_frames_hold_the_memory(
    chunk: Chunk,
    f: RawFrame,
    known: (u32, u32),
    memory: Seq<u8>,
    now_us: u64,
    i: int,
)
    requires
        chunk.filled(),
        chunk.usable(Some(memory)),
        chunk.makes(f, known, memory, now_us),
        0 <= i < f.data@.len(),
    ensures
        ({
            let from = if chunk.data_type == 3 {
                chunk.offset as int
            } else {
                0
            };
            &&& i < chunk.size && from + i < memory.len() ==> f.data@[i] == memory[from + i]
            &&& i >= chunk.size || from + i >= memory.len() ==> f.data@[i] == 0
            &&& f.data@.len() >= f.stride * f.height
            &&& f.data@.len() >= chunk.size
            &&& f.data@.len() == f.stride * f.height || f.data@.len() == chunk.size
            &&& f.ts_us == now_us
        }),
{
    assert(f.stride * f.height == chunk.row_bytes() * chunk.geometry(known).1);
}

/// A frame has the agreed size once there is one. Before that it has as many pixels in a
/// row as the row has bytes for, and as many rows as the chunk has bytes for, but one at
/// least. Its stride is the chunk's, whichever way up the picture is stored.
pub proof fn law_frames_have_the_agreed_size(
    chunk: Chunk,
    f: RawFrame,
    known: (u32, u32),
    memory: Seq<u8>,
    now_us: u64,
)
    requires
        chunk.filled(),
        chunk.makes(f, known, memory, now_us),
    ensures
        f.stride == chunk.stride || f.stride == -chunk.stride,
        known.0 > 0 && known.1 > 0 ==> (f.width, f.height) == known,
        known.0 == 0 || known.1 == 0 ==> {
            &&& 4 * f.width <= f.stride < 4 * f.width + 4
            &&& chunk.size >= f.stride ==> f.height * f.stride <= chunk.size < (f.height + 1)
                * f.stride
            &&& chunk.size < f.stride ==> f.height == 1
        },
{
    let stride = chunk.row_bytes();
    let size = chunk.size as int;
    let rows = size / stride;
    assert(rows * stride <= size < (rows + 1) * stride) by (nonlinear_arith)
        requires
            stride > 0,
            size >= 0,
            rows == size / stride,
    ;
    assert(0 <= rows <= size) by (nonlinear_arith)
        requires
            stride > 0,
            size >= 0,
            rows == size / stride,
    ;
    if size >= stride {
        assert(rows >= 1) by (nonlinear_arith)
            requires
                stride > 0,
                size >= stride,
                rows == size / stride,
        ;
    } else {
        assert(rows == 0) by (nonlinear_arith)
            requires
                0 <= size < stride,
                rows == size / stride,
        ;
    }
}

/// A buffer gives a frame exactly if it has bytes and a stride, its memory is of a known
/// kind and there; mapped or pointed-to memory must not be empty.
pub proof fn law_which_buffers_give_frames(chunk: Chunk, memory: Option<Seq<u8>>)
    ensures
        chunk.filled() && chunk.usable(memory) <==> chunk.size > 0 && chunk.stride != 0 && 1
            <= chunk.data_type <= 3 && memory is Some && (chunk.data_type == 3 || memory->0.len()
            > 0),
{
}

/// An update of the cursor goes on as it is; only a failure other than a missing block is
/// warned of.
pub proof fn law_cursor_updates_go_on(
    read: Result<Option<CursorUpdate>, CursorMetaError>,
    r: CursorAction,
)
    requires
        call_ensures(on_cursor, (read,), r),
    ensures
        r is Send <==> read matches Ok(Some(_)),
        r matches CursorAction::Send(c) ==> read == Ok::<Option<CursorUpdate>, CursorMetaError>(
            Some(c),
        ),
        r is Warn <==> read is Err && read->Err_0 != CursorMetaError::Absent,
        r matches CursorAction::Warn(e) ==> read == Err::<Option<CursorUpdate>, CursorMetaError>(e),
{
}

/// The size is that of the last format that could be used: one with a linear layout, or
/// any but an unknown one, sets it, and nothing else changes it.
pub proof fn law_the_last_usable_format_gives_the_size(
    s: &mut PipeWireStream,
    id: u32,
    param: Option<Pod>,
    r: ParamAction,
)
    requires
        call_ensures(PipeWireStream::param_changed, (s, id, &param), r),
    ensures
        ({
            let read = negotiated(param->0);
            let usable = id == 4 && param is Some && read is Ok && read->Ok_0.modifier != Some(
                -1i64,
            );
            &&& usable ==> final(s).size() == (read->Ok_0.width, read->Ok_0.height)
            &&& usable ==> r == (ParamAction::SetSize {
                width: read->Ok_0.width,
                height: read->Ok_0.height,
            })
            &&& !usable ==> final(s).size() == old(s).size()
            &&& r is Disconnect <==> id == 4 && param is Some && !usable
            &&& final(s).pool() == old(s).pool()
        }),
{
}

/// A delivered buffer becomes a frame of the size that was agreed on last, with the bytes
/// of the buffer's memory; the agreed size stays.
pub proof fn law_delivered_buffers_become_frames(
    s: &mut PipeWireStream,
    chunk: Chunk,
    memory: &[u8],
    now_us: u64,
    r: Option<RawFrame>,
    i: int,
)
    requires
        old(s).wf(),
        call_ensures(PipeWireStream::process, (s, &chunk, Some(memory), now_us), r),
        r matches Some(f) ==> 0 <= i < f.data@.len(),
    ensures
        r is Some <==> chunk.size > 0 && chunk.stride != 0 && 1 <= chunk.data_type <= 3 && (
        chunk.data_type == 3 || memory@.len() > 0),
        final(s).size() == old(s).size(),
        r matches Some(f) ==> {
            let from = if chunk.data_type == 3 {
                chunk.offset as int
            } else {
                0
            };
            &&& old(s).size().0 > 0 && old(s).size().1 > 0 ==> (f.width, f.height) == old(s).size()
            &&& i < chunk.size && from + i < memory@.len() ==> f.data@[i] == memory@[from + i]
            &&& i >= chunk.size || from + i >= memory@.len() ==> f.data@[i] == 0
            &&& f.ts_us == now_us
        },
{
    law_which_buffers_give_frames(chunk, Some(memory@));
    if let Some(f) = r {
        law_frames_hold_the_memory(chunk, f, old(s).size(), memory@, now_us, i);
        law_frames_have_the_agreed_size(chunk, f, old(s).size(), memory@, now_us);
    }
}

/// A buffer that is handed back is kept behind the others while fewer are kept than
/// allowed, and dropped otherwise; one that is asked for comes from the front.
pub proof fn law_buffers_wait_in_turn(pool: &mut FramePool, v: Vec<u8>)
    requires
        old(pool).wf(),
        call_ensures(FramePool::recycle, (pool, v), ()),
    ensures
        old(pool).kept().len() < old(pool).cap() ==> final(pool).kept() == old(pool).kept().push(v),
        old(pool).kept().len() == old(pool).cap() ==> final(pool).kept() == old(pool).kept(),
        final(pool).cap() == old(pool).cap(),
{
}

/// A kept buffer is reused exactly if another one stays behind it and it reports the room
/// that is asked for; it then leaves from the front. Otherwise all stay. Whatever comes is
/// empty.
pub proof fn law_a_roomy_front_buffer_is_reused(pool: &mut FramePool, min_bytes: usize, r: Vec<u8>)
    requires
        old(pool).wf(),
        min_bytes <= isize::MAX,
        call_ensures(FramePool::acquire, (pool, min_bytes), r),
    ensures
        r@.len() == 0,
        old(pool).kept().len() >= 2 && (forall|room: usize|
            #[trigger] reports_room(old(pool).kept()[0], room) ==> room >= min_bytes)
            ==> final(pool).kept() == old(pool).kept().drop_first(),
        old(pool).kept().len() < 2 || (forall|room: usize|
            #[trigger] reports_room(old(pool).kept()[0], room) ==> room < min_bytes)
            ==> final(pool).kept() == old(pool).kept() && made_with_room(min_bytes, r),
        final(pool).cap() == old(pool).cap(),
{
    assert(old(pool).kept().len() > 0 ==> old(pool).kept().skip(1)
        =~= old(pool).kept().drop_first());
}

/// A row of a frame is the pixels of that row: four bytes for each, without the padding.
pub proof fn law_rows_are_rows_of_pixels(f: RawFrame, y: u32, row: &[u8], k: int)
    requires
        y < f.height,
        y * f.stride + f.width * 4 <= f.data@.len(),
        call_ensures(RawFrame::row, (&f, y), row),
        0 <= k < row@.len(),
    ensures
        row@.len() == 4 * f.width,
        row@[k] == f.data@[y * f.stride + k],
{
    assert(0 <= y * f.stride) by (nonlinear_arith)
        requires
            0 <= y,
            0 <= f.stride,
    ;
}

} // verus!
