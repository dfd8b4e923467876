//! The portal as a capture source. Pulling frames out of the stream is not part
//! of it yet.

use vstd::prelude::*;
use crate::media_linux::capture_source::{CaptureSource, CaptureSourceError};

verus! {

#[derive(Debug, Clone, Copy, PartialEq, Eq, Structural)]
pub enum WaylandPortalCapturerInitError {
    NotImplemented,
}

impl WaylandPortalCapturerInitError {
    pub fn to_string(&self) -> (r: String)
        ensures
            r@ == "wayland portal capturer not yet implemented"@,
    {
        String::from_str("wayland portal capturer not yet implemented")
    }
}

#[derive(Debug)]
pub struct WaylandPortalCapturer {
    sealed: (),
}

impl WaylandPortalCapturer {
    pub fn new() -> (r: Result<Self, WaylandPortalCapturerInitError>)
        ensures
            r == Err::<Self, WaylandPortalCapturerInitError>(
                WaylandPortalCapturerInitError::NotImplemented,
            ),
    {
        Err(WaylandPortalCapturerInitError::NotImplemented)
    }
}

impl CaptureSource for WaylandPortalCapturer {
    fn geometry(&self) -> (r: (u32, u32))
        ensures
            r == (1u32, 1u32),
    {
        (1, 1)
    }

    fn capture_into(&mut self, out: &mut Vec<u8>) -> (r: Result<(), CaptureSourceError>)
        ensures
            r matches Err(CaptureSourceError::WouldBlock(why)) && why@
                == "wayland portal capturer not yet implemented"@,
            *final(out) == *old(out),
    {
        Err(
            CaptureSourceError::WouldBlock(
                String::from_str("wayland portal capturer not yet implemented"),
            ),
        )
    }
}

} // verus!
