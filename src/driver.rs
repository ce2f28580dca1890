use vstd::prelude::*;
use crate::config::SurfaceConfig;
use crate::context::{frame_outcome, outcome_of, FrameOutcome, SurfaceContext, SurfaceError};
use crate::size::Size;

verus! {

/// A notification from the windowing layer about the one window.
#[derive(Clone, Copy, Debug, PartialEq, Eq, Structural)]
pub enum WindowEvent {
    CloseRequested,
    Resized(Size),
    RedrawRequested,
    Other,
}

/// What the windowing layer and the graphics backend are to do after an event.
#[derive(Clone, Copy, Debug)]
pub enum Action<F, A> {
    Nothing,
    /// Stop the event loop.
    Exit,
    /// Give the surface the configuration, if there is one, then acquire a
    /// frame, clear and present it, report the result with
    /// `FrameDriver::finish_frame`, and ask the window for another redraw.
    Render(Option<SurfaceConfig<F, A>>),
}

#[derive(Clone, Copy, Debug)]
pub enum DriverState<F, A> {
    /// No surface yet: waiting for the first resume.
    Uninitialized,
    Running(SurfaceContext<F, A>),
    /// The window was closed; nothing more is done.
    Terminated,
}

/// The per-event control flow around the surface.
#[derive(Clone, Copy, Debug)]
pub struct FrameDriver<F, A> {
    pub state: DriverState<F, A>,
}

impl<F: Copy, A: Copy> FrameDriver<F, A> {
    pub open spec fn wf(self) -> bool {
        match self.state {
            DriverState::Running(c) => c.wf(),
            _ => true,
        }
    }

    /// The driver after a context built on resume is handed in: it is taken
    /// only where none was built before.
    pub open spec fn installed(self, ctx: SurfaceContext<F, A>) -> Self {
        if self.state is Uninitialized {
            FrameDriver { state: DriverState::Running(ctx) }
        } else {
            self
        }
    }

    /// The driver and the action after a window event.
    pub open spec fn stepped(self, event: WindowEvent) -> (Self, Action<F, A>) {
        match self.state {
            DriverState::Running(c) => match event {
                WindowEvent::CloseRequested => (
                    FrameDriver { state: DriverState::Terminated },
                    Action::Exit,
                ),
                WindowEvent::Resized(s) => if s.has_area() {
                    (FrameDriver { state: DriverState::Running(c.with_resize(s)) }, Action::Nothing)
                } else {
                    (self, Action::Nothing)
                },
                WindowEvent::RedrawRequested => if c.in_frame {
                    (self, Action::Nothing)
                } else {
                    (
                        FrameDriver { state: DriverState::Running(c.frame_begun()) },
                        Action::Render(
                            match c.reconfiguration() {
                                Some(s) => Some(c.config.resized_spec(s)),
                                None => None,
                            },
                        ),
                    )
                },
                WindowEvent::Other => (self, Action::Nothing),
            },
            _ => (self, Action::Nothing),
        }
    }

    /// The driver once the frame that a `Render` action began is over.
    pub open spec fn frame_ended(self) -> Self {
        match self.state {
            DriverState::Running(c) => FrameDriver { state: DriverState::Running(c.frame_finished()) },
            _ => self,
        }
    }

    pub fn new() -> (r: Self)
        ensures
            r.state is Uninitialized,
            r.wf(),
    {
        FrameDriver { state: DriverState::Uninitialized }
    }

    /// Whether a resume has to build the surface context.
    pub fn needs_context(&self) -> (r: bool)
        ensures
            r == self.state is Uninitialized,
    {
        match self.state {
            DriverState::Uninitialized => true,
            _ => false,
        }
    }

    pub fn is_running(&self) -> (r: bool)
        ensures
            r == self.state is Running,
    {
        match self.state {
            DriverState::Running(_) => true,
            _ => false,
        }
    }

    pub fn is_terminated(&self) -> (r: bool)
        ensures
            r == self.state is Terminated,
    {
        match self.state {
            DriverState::Terminated => true,
            _ => false,
        }
    }

    /// The surface configuration while running.
    pub fn current_config(&self) -> (r: Option<SurfaceConfig<F, A>>)
        ensures
            r == (match self.state {
                DriverState::Running(c) => Some(c.config),
                _ => None,
            }),
    {
        match self.state {
            DriverState::Running(c) => Some(c.config),
            _ => None,
        }
    }

    /// Hands in the context built on resume. Returns whether it was taken; a
    /// second one is dropped, so at most one context is ever in use.
    pub fn install(&mut self, ctx: SurfaceContext<F, A>) -> (r: bool)
        requires
            ctx.wf(),
        ensures
            *final(self) == old(self).installed(ctx),
            r == old(self).state is Uninitialized,
            old(self).wf() ==> final(self).wf(),
    {
        match self.state {
            DriverState::Uninitialized => {
                self.state = DriverState::Running(ctx);
                true
            },
            _ => false,
        }
    }

    /// Decides what a window event does.
    pub fn handle_event(&mut self, event: WindowEvent) -> (r: Action<F, A>)
        requires
            old(self).wf(),
        ensures
            (*final(self), r) == old(self).stepped(event),
            final(self).wf(),
    {
        match self.state {
            DriverState::Running(c) => {
                let mut c = c;
                match event {
                    WindowEvent::CloseRequested => {
                        self.state = DriverState::Terminated;
                        Action::Exit
                    },
                    WindowEvent::Resized(s) => {
                        if s.is_nonzero() {
                            c.note_resize(s);
                            self.state = DriverState::Running(c);
                        }
                        Action::Nothing
                    },
                    WindowEvent::RedrawRequested => {
                        if c.in_frame {
                            Action::Nothing
                        } else {
                            let reconfigure = c.begin_frame();
                            self.state = DriverState::Running(c);
                            Action::Render(reconfigure)
                        }
                    },
                    WindowEvent::Other => Action::Nothing,
                }
            },
            _ => Action::Nothing,
        }
    }

    /// Ends the frame that a `Render` action began, with what acquisition and
    /// presentation gave. A lost surface or a skipped frame leaves the driver
    /// running.
    pub fn finish_frame(&mut self, acquired: Result<(), SurfaceError>) -> (r: FrameOutcome)
        ensures
            *final(self) == old(self).frame_ended(),
            r == outcome_of(acquired),
            old(self).wf() ==> final(self).wf(),
    {
        match self.state {
            DriverState::Running(c) => {
                let mut c = c;
                let r = c.finish_frame(acquired);
                self.state = DriverState::Running(c);
                r
            },
            _ => frame_outcome(acquired),
        }
    }
}

} // verus!
