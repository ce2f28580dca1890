use vstd::prelude::*;
use crate::config::{initial_config, ConfigError, SurfaceConfig};
use crate::resize::PendingResize;
use crate::size::Size;

verus! {

/// Why acquiring a frame failed, for failures after which the surface stays usable.
#[derive(Clone, Copy, Debug, PartialEq, Eq, Structural)]
pub enum TransientCause {
    Timeout,
    Outdated,
    OutOfMemory,
    Other,
}

/// A failure to acquire or present a frame.
#[derive(Clone, Copy, Debug, PartialEq, Eq, Structural)]
pub enum SurfaceError {
    /// The surface became invalid; the next configuration brings it back.
    Lost,
    /// The frame could not be had this time.
    Transient(TransientCause),
}

/// What became of one frame. None of these ends the render loop.
#[derive(Clone, Copy, Debug, PartialEq, Eq, Structural)]
pub enum FrameOutcome {
    /// The frame was cleared, submitted and presented.
    Presented,
    /// The surface was lost; the frame was dropped and the loop goes on.
    Lost,
    /// The frame was skipped for the given reason; the loop goes on.
    Skipped(TransientCause),
}

pub open spec fn outcome_of(acquired: Result<(), SurfaceError>) -> FrameOutcome {
    match acquired {
        Ok(()) => FrameOutcome::Presented,
        Err(SurfaceError::Lost) => FrameOutcome::Lost,
        Err(SurfaceError::Transient(cause)) => FrameOutcome::Skipped(cause),
    }
}

pub fn frame_outcome(acquired: Result<(), SurfaceError>) -> (r: FrameOutcome)
    ensures
        r == outcome_of(acquired),
{
    match acquired {
        Ok(()) => FrameOutcome::Presented,
        Err(SurfaceError::Lost) => FrameOutcome::Lost,
        Err(SurfaceError::Transient(cause)) => FrameOutcome::Skipped(cause),
    }
}

/// The state of the one live surface: its configuration, the resize request
/// waiting to be applied, and whether a frame is between acquisition and
/// presentation.
#[derive(Clone, Copy, Debug)]
pub struct SurfaceContext<F, A> {
    pub config: SurfaceConfig<F, A>,
    pub pending: PendingResize,
    pub in_frame: bool,
}

impl<F: Copy, A: Copy> SurfaceContext<F, A> {
    /// The configuration has no zero dimension, and where no request waits
    /// the recorded extent, clamped, is the configured one.
    pub open spec fn wf(self) -> bool {
        &&& self.config.wf()
        &&& !self.pending.dirty ==> self.pending.size.clamped_spec() == self.config.size
    }

    /// A context just configured with `config`, with nothing waiting.
    pub open spec fn fresh(config: SurfaceConfig<F, A>) -> Self {
        SurfaceContext {
            config,
            pending: PendingResize { size: config.size, dirty: false },
            in_frame: false,
        }
    }

    pub open spec fn with_resize(self, size: Size) -> Self {
        SurfaceContext { pending: self.pending.noted(size), ..self }
    }

    /// The extent the next frame reconfigures the surface to, if any: the
    /// waiting request with each dimension raised to at least one pixel,
    /// where that differs from the configured extent.
    pub open spec fn reconfiguration(self) -> Option<Size> {
        match self.pending.taken_spec() {
            Some(s) => if s.clamped_spec() != self.config.size {
                Some(s.clamped_spec())
            } else {
                None
            },
            None => None,
        }
    }

    /// The state once acquisition of a frame has begun.
    pub open spec fn frame_begun(self) -> Self {
        SurfaceContext {
            config: match self.reconfiguration() {
                Some(s) => self.config.resized_spec(s),
                None => self.config,
            },
            pending: PendingResize { dirty: false, ..self.pending },
            in_frame: true,
        }
    }

    /// The state once a frame is over, presented or not.
    pub open spec fn frame_finished(self) -> Self {
        SurfaceContext { in_frame: false, ..self }
    }

    /// Derives the configuration from the surface's capability lists and the
    /// window's extent.
    pub fn new(formats: &Vec<F>, alpha_modes: &Vec<A>, window: Size) -> (r: Result<Self, ConfigError>)
        ensures
            r == (match initial_config(formats@, alpha_modes@, window) {
                Ok(c) => Ok(Self::fresh(c)),
                Err(e) => Err(e),
            }),
            r matches Ok(c) ==> c.wf(),
    {
        match SurfaceConfig::from_capabilities(formats, alpha_modes, window) {
            Ok(config) => Ok(
                SurfaceContext { config, pending: PendingResize::new(config.size), in_frame: false },
            ),
            Err(e) => Err(e),
        }
    }

    /// Records a resize request; it is applied before the next frame is acquired.
    pub fn note_resize(&mut self, size: Size)
        ensures
            *final(self) == old(self).with_resize(size),
            old(self).wf() ==> final(self).wf(),
    {
        self.pending.note_resize(size);
    }

    /// Applies the waiting resize request, if it changes the extent, and marks
    /// acquisition as begun. Returns the configuration the surface must be
    /// given before the frame is acquired, if it changed.
    pub fn begin_frame(&mut self) -> (r: Option<SurfaceConfig<F, A>>)
        requires
            old(self).wf(),
            !old(self).in_frame,
        ensures
            *final(self) == old(self).frame_begun(),
            final(self).wf(),
            r == (match old(self).reconfiguration() {
                Some(s) => Some(old(self).config.resized_spec(s)),
                None => None,
            }),
            r matches Some(c) ==> c == final(self).config,
    {
        let taken = self.pending.take_if_dirty();
        let r = match taken {
            Some(s) => {
                let s = s.clamped();
                if s != self.config.size {
                    self.config = self.config.resized(s);
                    Some(self.config)
                } else {
                    None
                }
            },
            None => None,
        };
        self.in_frame = true;
        r
    }

    /// Ends the frame with what acquisition and presentation gave.
    pub fn finish_frame(&mut self, acquired: Result<(), SurfaceError>) -> (r: FrameOutcome)
        ensures
            *final(self) == old(self).frame_finished(),
            r == outcome_of(acquired),
            old(self).wf() ==> final(self).wf(),
    {
        self.in_frame = false;
        frame_outcome(acquired)
    }
}

} // verus!
