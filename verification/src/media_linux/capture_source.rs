//! What every capture backend offers.

use vstd::prelude::*;

verus! {

/// Why a capture gave no frame.
#[derive(Debug)]
pub enum CaptureSourceError {
    /// Nothing yet; the next try may succeed.
    WouldBlock(String),
    /// Nothing any more.
    Terminal { backend: &'static str, reason: String },
}

impl CaptureSourceError {
    pub open spec fn message(self) -> Seq<char> {
        match self {
            CaptureSourceError::WouldBlock(why) => "would block: "@ + why@,
            CaptureSourceError::Terminal { backend, reason } => "capture terminal on "@ + backend@
                + ": "@ + reason@,
        }
    }

    pub fn to_string(&self) -> (r: String)
        ensures
            r@ == self.message(),
    {
        match self {
            CaptureSourceError::WouldBlock(why) => {
                let mut r: String = String::from_str("would block: ");
                r.append(why.as_str());
                r
            },
            CaptureSourceError::Terminal { backend, reason } => {
                let mut r: String = String::from_str("capture terminal on ");
                r.append(*backend);
                r.append(": ");
                r.append(reason.as_str());
                r
            },
        }
    }
}

/// A source of BGRA frames.
pub trait CaptureSource: Send {
    /// The width and height of the next frame.
    fn geometry(&self) -> (u32, u32);

    /// Waits for a frame and fills `out` with it.
    fn capture_into(&mut self, out: &mut Vec<u8>) -> Result<(), CaptureSourceError>;
}

} // verus!
