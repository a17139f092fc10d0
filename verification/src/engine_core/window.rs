use vstd::prelude::*;

verus! {

/// Title and size of the application's window.
#[derive(Clone)]
pub struct WindowConfig {
    pub title: String,
    pub height: u32,
    pub width: u32,
}

/// Nanoseconds in a second: the frame statistics are reported once this
/// much time has been accumulated.
pub const NANOS_PER_SECOND: u128 = 1_000_000_000;

/// The longest span a `std::time::Duration` holds, in nanoseconds.
pub const MAX_DURATION_NANOS: u128 = 18_446_744_073_709_551_615_999_999_999;

/// Frames drawn and time spent since the last report.
#[derive(Clone, Copy, Debug, PartialEq, Eq, Structural)]
pub struct FrameStats {
    pub frame_count: u32,
    pub accumulated_nanos: u128,
}

/// The counts handed to the report of resource use.
#[derive(Clone, Copy, Debug, PartialEq, Eq, Structural)]
pub struct FrameReport {
    pub frame_count: u32,
    pub accumulated_nanos: u128,
}

/// The statistics after a frame that took `delta_nanos`, and the report
/// due, if any.
pub open spec fn after_frame(stats: FrameStats, delta_nanos: u128) -> (FrameStats, Option<FrameReport>) {
    let count = (stats.frame_count + 1) as u32;
    let total = (stats.accumulated_nanos + delta_nanos) as u128;
    if total >= NANOS_PER_SECOND {
        (
            FrameStats { frame_count: 0, accumulated_nanos: 0 },
            Some(FrameReport { frame_count: count, accumulated_nanos: total }),
        )
    } else {
        (FrameStats { frame_count: count, accumulated_nanos: total }, None)
    }
}

/// A frame of `delta_nanos` can be counted without overflowing.
pub open spec fn can_record(stats: FrameStats, delta_nanos: u128) -> bool {
    stats.frame_count < u32::MAX && stats.accumulated_nanos + delta_nanos <= MAX_DURATION_NANOS
}

impl FrameStats {
    /// No frame counted yet.
    pub fn new() -> (stats: FrameStats)
        ensures
            stats.frame_count == 0,
            stats.accumulated_nanos == 0,
    {
        FrameStats { frame_count: 0, accumulated_nanos: 0 }
    }

    /// Counts a drawn frame that took `delta_nanos`; once a second or more
    /// has accumulated, returns the counts to report and starts over.
    pub fn record_frame(&mut self, delta_nanos: u128) -> (report: Option<FrameReport>)
        requires
            can_record(*old(self), delta_nanos),
        ensures
            (*final(self), report) == after_frame(*old(self), delta_nanos),
    {
        self.frame_count = self.frame_count + 1;
        self.accumulated_nanos = self.accumulated_nanos + delta_nanos;
        if self.accumulated_nanos >= NANOS_PER_SECOND {
            let report = FrameReport {
                frame_count: self.frame_count,
                accumulated_nanos: self.accumulated_nanos,
            };
            self.frame_count = 0;
            self.accumulated_nanos = 0;
            Some(report)
        } else {
            None
        }
    }
}

/// Law of the frame statistics: starting under a second, they stay under a
/// second after every frame; every report covers at least a second and at
/// least one frame; a frame without a report adds one to the count and its
/// time to the total.
pub proof fn law_frame_stats_stay_under_a_second(stats: FrameStats, delta_nanos: u128)
    requires
        stats.accumulated_nanos < NANOS_PER_SECOND,
        can_record(stats, delta_nanos),
    ensures
        after_frame(stats, delta_nanos).0.accumulated_nanos < NANOS_PER_SECOND,
        after_frame(stats, delta_nanos).1 matches Some(r) ==> r.accumulated_nanos
            >= NANOS_PER_SECOND && r.frame_count >= 1,
        after_frame(stats, delta_nanos).1 is None ==> {
            &&& after_frame(stats, delta_nanos).0.frame_count == stats.frame_count + 1
            &&& after_frame(stats, delta_nanos).0.accumulated_nanos == stats.accumulated_nanos
                + delta_nanos
        },
{
}

/// Why presenting a frame to the window's surface failed.
#[derive(Clone, Copy, Debug, PartialEq, Eq, Structural)]
pub enum SurfaceErrorKind {
    /// Acquiring an image took too long.
    Timeout,
    /// The surface changed and the swapchain no longer matches it.
    Outdated,
    /// The surface was lost.
    Lost,
    /// There is no memory left.
    OutOfMemory,
    /// Any other failure.
    Other,
}

/// What the window does after a frame failed to render.
#[derive(Clone, Copy, Debug, PartialEq, Eq, Structural)]
pub enum RenderErrorResponse {
    /// Reconfigure the surface at the current size.
    Resize,
    /// Leave the event loop.
    Exit,
    /// Print the error and go on.
    Report,
}

/// A lost surface is reconfigured, running out of memory ends the
/// application, and any other error is printed.
pub fn respond_to_render_error(error: SurfaceErrorKind) -> (response: RenderErrorResponse)
    ensures
        error == SurfaceErrorKind::Lost ==> response == RenderErrorResponse::Resize,
        error == SurfaceErrorKind::OutOfMemory ==> response == RenderErrorResponse::Exit,
        error != SurfaceErrorKind::Lost && error != SurfaceErrorKind::OutOfMemory ==> response
            == RenderErrorResponse::Report,
{
    match error {
        SurfaceErrorKind::Lost => RenderErrorResponse::Resize,
        SurfaceErrorKind::OutOfMemory => RenderErrorResponse::Exit,
        _ => RenderErrorResponse::Report,
    }
}

} // verus!
