//! A captured BGRA picture in memory.

use vstd::prelude::*;

verus! {

/// A BGRA picture; `stride` is in bytes per row.
#[derive(Debug, Clone)]
pub struct BgraFrame {
    pub width: u32,
    pub height: u32,
    pub stride: u32,
    pub bgra: Vec<u8>,
    /// Monotonic time of the capture in microseconds.
    pub capture_ts_us: u64,
}

impl BgraFrame {
    /// The buffer holds exactly the rows.
    pub open spec fn wf(self) -> bool {
        self.bgra@.len() == self.stride * self.height
    }

    /// A black picture without row padding, at time zero.
    pub fn new_zeroed(width: u32, height: u32) -> (r: Self)
        requires
            width * 4 <= u32::MAX,
            width as int * 4 * height as int <= isize::MAX,
        ensures
            r.width == width,
            r.height == height,
            r.stride == width * 4,
            r.bgra@ == Seq::new((width * 4 * height) as nat, |i: int| 0u8),
            r.capture_ts_us == 0,
            r.wf(),
    {
        let stride: u32 = width * 4;
        proof {
            assert(0 <= stride as int * height as int) by (nonlinear_arith)
                requires
                    0 <= stride as int,
                    0 <= height as int,
            ;
        }
        BgraFrame {
            width,
            height,
            stride,
            bgra: vec![0u8; (stride as usize) * (height as usize)],
            capture_ts_us: 0,
        }
    }

    /// The length that `bgra` has in a frame without missing rows.
    pub fn expected_len(&self) -> (r: usize)
        requires
            self.stride as int * self.height as int <= usize::MAX,
        ensures
            r == self.stride * self.height,
    {
        proof {
            assert(0 <= self.stride as int * self.height as int) by (nonlinear_arith)
                requires
                    0 <= self.stride as int,
                    0 <= self.height as int,
            ;
        }
        (self.stride as usize) * (self.height as usize)
    }
}

} // verus!
