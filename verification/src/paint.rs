//! The paint driver's source: a per-paint frame id and a count of
//! frames drawn. Paint itself runs synchronously in the caller.

use vstd::prelude::*;

verus! {

/// The successor of `n`, wrapping at the top of `u64`.
pub open spec fn wrap_next(n: u64) -> u64 {
    if n == u64::MAX { 0 } else { (n + 1) as u64 }
}

/// In-flight source of the paint driver.
#[derive(Clone, Copy, PartialEq, Eq, Structural, Debug)]
pub struct PaintState {
    /// Id of the latest paint, one more per paint.
    pub last_frame_id: u64,
    /// Paints since the driver was created.
    pub frames_drawn: u64,
}

impl Default for PaintState {
    fn default() -> (p: Self)
        ensures
            p.last_frame_id == 0,
            p.frames_drawn == 0,
    {
        PaintState { last_frame_id: 0, frames_drawn: 0 }
    }
}

impl PaintState {
    /// Open a paint: advance the frame id and return it.
    pub fn begin_frame(&mut self) -> (id: u64)
        ensures
            final(self).last_frame_id == wrap_next(old(self).last_frame_id),
            final(self).frames_drawn == old(self).frames_drawn,
            id == final(self).last_frame_id,
    {
        self.last_frame_id = self.last_frame_id.wrapping_add(1);
        self.last_frame_id
    }

    /// Close a paint: count it as drawn.
    pub fn end_frame(&mut self)
        ensures
            final(self).frames_drawn == wrap_next(old(self).frames_drawn),
            final(self).last_frame_id == old(self).last_frame_id,
    {
        self.frames_drawn = self.frames_drawn.wrapping_add(1);
    }
}

} // verus!
