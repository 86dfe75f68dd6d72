//! The off-screen pixel surface: an owned byte buffer addressed in row-major
//! order, four bytes per pixel, with `stride == width * 4`.
//!
//! The buffer is empty until the first successful `resize`; resizing always
//! releases the old region and commits a fresh zero-filled one, and a failed
//! resize leaves the surface empty. `release` is total and idempotent.

use vstd::prelude::*;

verus! {

/// Bytes occupied by one pixel (blue, green, red, alpha order in memory).
pub const BYTES_PER_PIXEL: usize = 4;

/// A surface resize failed because the requested byte size cannot be
/// represented (and so cannot be committed) on this machine.
#[derive(Clone, Copy, PartialEq, Eq, Structural, Debug)]
pub struct AllocationError;

/// A CPU-resident pixel buffer with row-major layout and exact stride.
pub struct PixelSurface {
    pub width: usize,
    pub height: usize,
    pub buffer: Vec<u8>,
}

/// A sequence of `n` zero bytes: the content of a freshly committed region.
pub open spec fn zero_bytes(n: nat) -> Seq<u8> {
    Seq::new(n, |i: int| 0u8)
}

/// Whether `width` by `height` describes a committable surface: the stride
/// and the total byte size both fit in `usize`.
pub open spec fn size_representable(width: usize, height: usize) -> bool {
    width * 4 <= usize::MAX && width * height * 4 <= usize::MAX
}

impl PixelSurface {
    /// The surface invariant: stride and total size representable, and the
    /// buffer holds exactly `width * height * 4` bytes.
    pub open spec fn wf(&self) -> bool {
        &&& self.width * 4 <= usize::MAX
        &&& self.width * self.height * 4 <= usize::MAX
        &&& self.buffer@.len() == self.width * self.height * 4
    }

    /// Bytes per row.
    pub open spec fn spec_stride(&self) -> int {
        self.width * 4
    }

    /// An empty surface: no buffer committed until the first resize.
    pub fn new() -> (s: PixelSurface)
        ensures
            s.width == 0,
            s.height == 0,
            s.buffer@.len() == 0,
            s.wf(),
    {
        PixelSurface { width: 0, height: 0, buffer: Vec::new() }
    }

    /// Bytes per row, computed from the width.
    pub fn stride(&self) -> (r: usize)
        requires
            self.wf(),
        ensures
            r == self.spec_stride(),
    {
        self.width * BYTES_PER_PIXEL
    }

    /// Runtime check of the surface invariant, for callers outside the
    /// verified world.
    pub fn invariant_holds(&self) -> (r: bool)
        ensures
            r == self.wf(),
    {
        match self.width.checked_mul(BYTES_PER_PIXEL) {
            None => false,
            Some(stride) => match stride.checked_mul(self.height) {
                None => {
                    proof {
                        assert(self.width * 4 * self.height == self.width * self.height * 4)
                            by (nonlinear_arith);
                    }
                    false
                },
                Some(total) => {
                    proof {
                        assert(self.width * 4 * self.height == self.width * self.height * 4)
                            by (nonlinear_arith);
                    }
                    self.buffer.len() == total
                },
            },
        }
    }

    /// Release the current buffer, if any, and commit a fresh zero-filled
    /// region of `width * height * 4` bytes. Errs exactly when that size is
    /// not representable; the surface is then left empty and unusable until
    /// a later resize succeeds.
    pub fn resize(&mut self, width: usize, height: usize) -> (r: Result<(), AllocationError>)
        ensures
            final(self).wf(),
            r is Ok <==> size_representable(width, height),
            r is Ok ==> final(self).width == width && final(self).height == height
                && final(self).buffer@ == zero_bytes((width * height * 4) as nat),
            r is Err ==> final(self).width == 0 && final(self).height == 0
                && final(self).buffer@.len() == 0,
    {
        self.width = 0;
        self.height = 0;
        self.buffer = Vec::new();
        match width.checked_mul(BYTES_PER_PIXEL) {
            None => Err(AllocationError),
            Some(stride) => match stride.checked_mul(height) {
                None => {
                    proof {
                        assert(width * 4 * height == width * height * 4) by (nonlinear_arith);
                    }
                    Err(AllocationError)
                },
                Some(total) => {
                    proof {
                        assert(width * 4 * height == width * height * 4) by (nonlinear_arith);
                    }
                    let mut buf: Vec<u8> = Vec::new();
                    let mut i: usize = 0;
                    while i < total
                        invariant
                            i <= total,
                            buf@.len() == i,
                            forall|j: int| 0 <= j < i ==> buf@[j] == 0u8,
                        decreases total - i,
                    {
                        buf.push(0u8);
                        i = i + 1;
                    }
                    self.width = width;
                    self.height = height;
                    self.buffer = buf;
                    proof {
                        assert(self.buffer@ =~= zero_bytes((width * height * 4) as nat));
                    }
                    Ok(())
                },
            },
        }
    }

    /// Release the buffer. Total and idempotent: releasing an already-empty
    /// surface is a no-op, never an error, and the surface is always left at
    /// width 0, height 0 with no bytes.
    pub fn release(&mut self)
        ensures
            final(self).width == 0,
            final(self).height == 0,
            final(self).buffer@.len() == 0,
            final(self).wf(),
            final(self)@ == crate::context::released_view(old(self)@),
    {
        self.width = 0;
        self.height = 0;
        self.buffer = Vec::new();
        proof {
            assert(self@ =~= crate::context::released_view(old(self)@));
        }
    }
}

} // verus!
