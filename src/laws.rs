use vstd::prelude::*;
use crate::config::initial_config;
use crate::context::{outcome_of, FrameOutcome, SurfaceContext, SurfaceError};
use crate::driver::{Action, DriverState, FrameDriver, WindowEvent};
use crate::size::Size;

verus! {

/// Building the context is idempotent: once a context was taken on resume, a
/// second one handed in leaves the driver as it was, and no further resume
/// asks for one.
pub proof fn resume_builds_once<F: Copy, A: Copy>(
    driver: FrameDriver<F, A>,
    first: SurfaceContext<F, A>,
    second: SurfaceContext<F, A>,
)
    ensures
        driver.installed(first).installed(second) == driver.installed(first),
        driver.state is Uninitialized ==> driver.installed(first).state == DriverState::Running(
            first,
        ),
        !(driver.installed(first).state is Uninitialized),
{
}

/// Repeating a resize request changes nothing more than the first one did.
pub proof fn repeated_resize_is_noop<F: Copy, A: Copy>(ctx: SurfaceContext<F, A>, size: Size)
    ensures
        ctx.with_resize(size).with_resize(size) == ctx.with_resize(size),
{
}

/// Resize requests before a frame are coalesced: after any request followed by
/// a request for an extent other than the configured one, the next frame
/// reconfigures the surface exactly once, to the last extent, and the frame
/// after it does not reconfigure again.
pub proof fn resizes_coalesce<F: Copy, A: Copy>(ctx: SurfaceContext<F, A>, first: Size, last: Size)
    requires
        ctx.wf(),
        last.has_area(),
        last != ctx.config.size,
    ensures
        ctx.with_resize(first).with_resize(last).reconfiguration() == Some(last),
        ctx.with_resize(first).with_resize(last).frame_begun().config == ctx.config.resized_spec(
            last,
        ),
        ctx.with_resize(first).with_resize(last).frame_begun().frame_finished().reconfiguration()
            is None,
{
}

/// A resize request with a zero dimension leaves the driver, and with it the
/// surface configuration, unchanged.
pub proof fn zero_area_resize_ignored<F: Copy, A: Copy>(driver: FrameDriver<F, A>, size: Size)
    requires
        !size.has_area(),
    ensures
        driver.stepped(WindowEvent::Resized(size)) == (driver, Action::<F, A>::Nothing),
{
}

/// A resize requested after acquisition of a frame has begun does not touch
/// that frame's configuration; it is applied when the next frame begins.
pub proof fn resize_during_frame_waits<F: Copy, A: Copy>(ctx: SurfaceContext<F, A>, size: Size)
    requires
        ctx.wf(),
        size.has_area(),
    ensures
        ctx.frame_begun().with_resize(size).config == ctx.frame_begun().config,
        ctx.frame_begun().with_resize(size).frame_finished().config == ctx.frame_begun().config,
        size != ctx.frame_begun().config.size ==> ctx.frame_begun().with_resize(
            size,
        ).frame_finished().frame_begun().config == ctx.frame_begun().config.resized_spec(size),
{
}

/// A window of zero extent yields a surface of one pixel by one.
pub proof fn zero_window_is_one_pixel<F, A>(formats: Seq<F>, alpha_modes: Seq<A>)
    requires
        formats.len() > 0,
        alpha_modes.len() > 0,
    ensures
        initial_config(formats, alpha_modes, Size { width: 0, height: 0 }) matches Ok(c) && c.size
            == (Size { width: 1, height: 1 }),
{
}

/// Whatever a frame gave, a lost surface or a skipped frame included, the
/// driver keeps running with the same configuration.
pub proof fn failed_frame_keeps_running<F: Copy, A: Copy>(driver: FrameDriver<F, A>)
    requires
        driver.state is Running,
    ensures
        driver.frame_ended().state is Running,
        driver.frame_ended().state->Running_0.config == driver.state->Running_0.config,
{
}

/// A lost surface is not fatal. A redraw on a running driver with no open
/// frame applies any waiting resize and begins a frame; when its acquisition
/// reports the surface lost, the frame ends as lost, the driver keeps running
/// with the applied configuration and nothing left waiting, and the next
/// redraw begins a frame again, which is presented once acquisition succeeds.
pub proof fn lost_surface_recovers<F: Copy, A: Copy>(driver: FrameDriver<F, A>)
    requires
        driver.wf(),
        driver.state matches DriverState::Running(c) && !c.in_frame,
    ensures
        driver.stepped(WindowEvent::RedrawRequested).1 is Render,
        outcome_of(Err(SurfaceError::Lost)) == FrameOutcome::Lost,
        ({
            let after = driver.stepped(WindowEvent::RedrawRequested).0.frame_ended();
            &&& after.wf()
            &&& after.state is Running
            &&& after.state->Running_0.config == driver.state->Running_0.frame_begun().config
            &&& (driver.state->Running_0.reconfiguration() matches Some(s)
                ==> after.state->Running_0.config.size == s)
            &&& after.state->Running_0.reconfiguration() is None
            &&& after.stepped(WindowEvent::RedrawRequested).1 is Render
        }),
        outcome_of(Ok(())) == FrameOutcome::Presented,
{
}

} // verus!
