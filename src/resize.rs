use vstd::prelude::*;
use crate::size::Size;

verus! {

/// The latest extent the window asked for, and whether it still waits to be
/// applied. Only one request is remembered: a newer one replaces an older one
/// that was not applied yet.
#[derive(Clone, Copy, Debug, PartialEq, Eq, Structural)]
pub struct PendingResize {
    pub size: Size,
    pub dirty: bool,
}

impl PendingResize {
    /// The state after a resize request: a request equal to the recorded
    /// extent changes nothing; any other replaces the recorded extent and
    /// marks it as waiting.
    pub open spec fn noted(self, size: Size) -> Self {
        if size == self.size {
            self
        } else {
            PendingResize { size, dirty: true }
        }
    }

    /// What taking the request hands out: the recorded extent if it waits.
    pub open spec fn taken_spec(self) -> Option<Size> {
        if self.dirty {
            Some(self.size)
        } else {
            None
        }
    }

    /// A clean state that records the extent the surface has now.
    pub fn new(size: Size) -> (r: Self)
        ensures
            r.size == size,
            !r.dirty,
    {
        PendingResize { size, dirty: false }
    }

    pub fn note_resize(&mut self, size: Size)
        ensures
            *final(self) == old(self).noted(size),
    {
        if size != self.size {
            self.size = size;
            self.dirty = true;
        }
    }

    pub fn take_if_dirty(&mut self) -> (r: Option<Size>)
        ensures
            r == old(self).taken_spec(),
            final(self).size == old(self).size,
            !final(self).dirty,
    {
        if self.dirty {
            self.dirty = false;
            Some(self.size)
        } else {
            None
        }
    }
}

} // verus!
