//! What the X11 capture decides: how much of the screen it takes, and what a
//! buffer must hold.

use vstd::prelude::*;
use crate::media_linux::capture_source::CaptureSourceError;
use crate::media_linux::error::LinuxMediaError;
use crate::media_sw::encoder::codable_size;

verus! {

/// The largest picture that the software encoder takes.
pub const MAX_CAPTURE_W: u32 = 3840;

pub const MAX_CAPTURE_H: u32 = 2160;

/// The part of the screen that is captured: its left upper corner, no larger than
/// the encoder takes.
pub open spec fn clipped(width: u16, height: u16) -> (u32, u32) {
    (
        if (width as u32) < MAX_CAPTURE_W {
            width as u32
        } else {
            MAX_CAPTURE_W
        },
        if (height as u32) < MAX_CAPTURE_H {
            height as u32
        } else {
            MAX_CAPTURE_H
        },
    )
}

fn clip_to_encoder(width: u16, height: u16) -> (r: (u32, u32))
    ensures
        r == clipped(width, height),
{
    let w: u32 = width as u32;
    let h: u32 = height as u32;
    (
        if w < MAX_CAPTURE_W {
            w
        } else {
            MAX_CAPTURE_W
        },
        if h < MAX_CAPTURE_H {
            h
        } else {
            MAX_CAPTURE_H
        },
    )
}

/// The calls that a capture makes of the X server.
#[derive(Debug, Clone, Copy, PartialEq, Eq, Structural)]
pub enum X11Call {
    Connect,
    GeometryRequest,
    GeometryReply,
    /// Getting and mapping shared memory, which no server has a part in.
    SharedMemory,
    SegmentId,
    AttachRequest,
    AttachCheck,
    SharedImageRequest,
    SharedImageReply,
    ImageRequest,
    ImageReply,
}

impl X11Call {
    /// What stands before the server's own words.
    pub open spec fn prefix(self) -> Seq<char> {
        match self {
            X11Call::GeometryRequest => "get_geometry req: "@,
            X11Call::GeometryReply => "get_geometry reply: "@,
            X11Call::SegmentId => "shm generate_id: "@,
            X11Call::AttachRequest => "shm_attach req: "@,
            X11Call::AttachCheck => "shm_attach check: "@,
            X11Call::SharedImageRequest => "shm_get_image req: "@,
            X11Call::SharedImageReply => "shm_get_image reply: "@,
            X11Call::ImageRequest => "get_image req: "@,
            _ => ""@,
        }
    }

    /// The error for a failed call, with what the server said of it.
    pub fn failure(self, why: String) -> (r: LinuxMediaError)
        ensures
            match self {
                X11Call::SharedMemory => r is ShmUnavailable,
                X11Call::ImageReply => r is XGetImageFailed,
                _ => r matches LinuxMediaError::X11Connect(text) && text@ == self.prefix() + why@,
            },
    {
        let prefix: &str = match self {
            X11Call::SharedMemory => {
                return LinuxMediaError::ShmUnavailable;
            },
            X11Call::ImageReply => {
                return LinuxMediaError::XGetImageFailed;
            },
            X11Call::Connect => "",
            X11Call::GeometryRequest => "get_geometry req: ",
            X11Call::GeometryReply => "get_geometry reply: ",
            X11Call::SegmentId => "shm generate_id: ",
            X11Call::AttachRequest => "shm_attach req: ",
            X11Call::AttachCheck => "shm_attach check: ",
            X11Call::SharedImageRequest => "shm_get_image req: ",
            X11Call::SharedImageReply => "shm_get_image reply: ",
            X11Call::ImageRequest => "get_image req: ",
        };
        let mut text: String = String::from_str(prefix);
        text.append(why.as_str());
        LinuxMediaError::X11Connect(text)
    }
}

/// How a picture is fetched.
#[derive(Debug, Clone, Copy, PartialEq, Eq, Structural)]
pub enum GrabPath {
    SharedMemory,
    GetImage,
}

/// A capture of the screen's left upper corner.
#[derive(Debug, Clone, Copy, PartialEq, Eq, Structural)]
pub struct X11ShmCapturer {
    width: u32,
    height: u32,
    use_shm: bool,
}

impl X11ShmCapturer {
    pub closed spec fn size(self) -> (u32, u32) {
        (self.width, self.height)
    }

    pub closed spec fn shares_memory(self) -> bool {
        self.use_shm
    }

    /// The picture is no larger than the encoder takes.
    pub open spec fn wf(self) -> bool {
        self.size().0 <= MAX_CAPTURE_W && self.size().1 <= MAX_CAPTURE_H
    }

    pub open spec fn len(self) -> int {
        self.size().0 * self.size().1 * 4
    }

    /// A capture of a screen of the given size, with shared memory if there is some.
    pub fn new(root_width: u16, root_height: u16, has_segment: bool) -> (r: Self)
        ensures
            r.wf(),
            r.size() == clipped(root_width, root_height),
            r.shares_memory() == has_segment,
    {
        let (width, height): (u32, u32) = clip_to_encoder(root_width, root_height);
        X11ShmCapturer { width, height, use_shm: has_segment }
    }

    pub fn width(&self) -> (r: u32)
        ensures
            r == self.size().0,
    {
        self.width
    }

    pub fn height(&self) -> (r: u32)
        ensures
            r == self.size().1,
    {
        self.height
    }

    /// The bytes of a picture.
    pub fn picture_len(&self) -> (r: usize)
        requires
            self.wf(),
        ensures
            r == self.len(),
    {
        let (w, h): (u32, u32) = (self.width, self.height);
        assert(0 <= w * h <= 3840 * 2160) by (nonlinear_arith)
            requires
                0 <= w <= 3840,
                0 <= h <= 2160,
        ;
        (w as usize) * (h as usize) * 4
    }

    /// How to fill a buffer, which must have the picture's size.
    pub fn grab_into(&self, out: &[u8]) -> (r: Result<GrabPath, LinuxMediaError>)
        requires
            self.wf(),
        ensures
            r == if out@.len() != self.len() {
                Err::<GrabPath, LinuxMediaError>(
                    LinuxMediaError::InvalidDimensions(self.size().0, self.size().1),
                )
            } else if self.shares_memory() {
                Ok(GrabPath::SharedMemory)
            } else {
                Ok(GrabPath::GetImage)
            },
    {
        if out.len() != self.picture_len() {
            Err(LinuxMediaError::InvalidDimensions(self.width, self.height))
        } else if self.use_shm {
            Ok(GrabPath::SharedMemory)
        } else {
            Ok(GrabPath::GetImage)
        }
    }

    /// Takes over the image that the server sent, which must fill the buffer.
    pub fn take_image(&self, image: &[u8], out: &mut [u8]) -> (r: Result<(), LinuxMediaError>)
        ensures
            image@.len() == old(out)@.len() ==> r is Ok && final(out)@ == image@,
            image@.len() != old(out)@.len() ==> final(out)@ == old(out)@ && r == Err::<
                (),
                LinuxMediaError,
            >(LinuxMediaError::InvalidDimensions(self.size().0, self.size().1)),
    {
        if image.len() != out.len() {
            return Err(LinuxMediaError::InvalidDimensions(self.width, self.height));
        }
        let mut i: usize = 0;
        while i < image.len()
            invariant
                i <= image@.len(),
                image@.len() == out@.len(),
                out@.take(i as int) == image@.take(i as int),
            decreases image@.len() - i,
        {
            out[i] = image[i];
            i += 1;
            assert(out@.take(i as int) =~= image@.take(i as int));
        }
        assert(out@ =~= out@.take(i as int));
        assert(image@ =~= image@.take(i as int));
        Ok(())
    }
}

/// Whatever the size of the screen, what is captured of it is not too large for the
/// software encoder.
pub proof fn law_captures_fit_the_encoder(root_width: u16, root_height: u16)
    requires
        root_width >= 16,
        root_height >= 16,
    ensures
        codable_size(clipped(root_width, root_height).0, clipped(root_width, root_height).1),
{
}

/// A failed grab ends the capture.
pub fn grab_failure(e: &LinuxMediaError) -> (r: CaptureSourceError)
    ensures
        r matches CaptureSourceError::Terminal { backend, reason } && backend@ == "linux-x11shm"@
            && reason@ == e.message(),
{
    CaptureSourceError::Terminal { backend: "linux-x11shm", reason: e.to_string() }
}

/// Each side of what is captured is the screen's, or the largest that the encoder takes
/// (3840 by 2160) where the screen's is larger.
pub proof fn law_captures_are_as_large_as_can_be(root_width: u16, root_height: u16)
    ensures
        ({
            let (w, h) = clipped(root_width, root_height);
            &&& w <= root_width && w <= 3840 && (w == root_width || w == 3840)
            &&& h <= root_height && h <= 2160 && (h == root_height || h == 2160)
        }),
{
}

/// A buffer is filled exactly if it has four bytes for each pixel of the capture, through
/// shared memory where there is some.
pub proof fn law_which_buffers_are_filled(
    c: X11ShmCapturer,
    out: &[u8],
    r: Result<GrabPath, LinuxMediaError>,
)
    requires
        c.wf(),
        call_ensures(X11ShmCapturer::grab_into, (&c, out), r),
    ensures
        r is Ok <==> out@.len() == c.size().0 * c.size().1 * 4,
        r matches Ok(path) ==> (path is SharedMemory <==> c.shares_memory()),
        r matches Err(e) ==> e == LinuxMediaError::InvalidDimensions(c.size().0, c.size().1),
{
}

} // verus!
