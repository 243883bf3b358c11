//! Render schedule: the decisions of the frame loop.
//!
//! A render computes a requested number of frames, one after the other, each
//! blended into the accumulator and reported to the consumer. After every
//! completed frame the loop looks for an abort request; one request ends the
//! loop at that frame boundary, and the closing bookkeeping (final time
//! report, clearing the running flag) still takes place, so the consumer is
//! never left believing a render is in progress. The loop's outside work —
//! worker threads, channels, clocks — stays with the unverified driver; the
//! decisions live here as a state machine the driver consults.

use vstd::prelude::*;
use crate::actions::Progress;

verus! {

/// The position of a pixel on the screen; `(0, 0)` is the top left.
#[derive(Clone, Copy, Debug)]
pub struct PixelPos {
    pub x: u32,
    pub y: u32,
}

/// Width and height of the rendered frame, in pixels.
#[derive(Clone, Copy, Debug)]
pub struct Dimensions {
    pub width: u32,
    pub height: u32,
}

/// One render's frame loop as a state machine: how many frames were asked
/// for and are done, whether an abort request has been seen, and whether the
/// render still counts as in progress.
pub struct RenderSchedule {
    total_frames: u32,
    completed_frames: u32,
    abort_seen: bool,
    running: bool,
}

impl RenderSchedule {
    /// How many frames the render was asked for.
    pub closed spec fn spec_total_frames(&self) -> u32 {
        self.total_frames
    }

    /// How many frames are computed and blended so far.
    pub closed spec fn spec_completed_frames(&self) -> u32 {
        self.completed_frames
    }

    /// Whether an abort request has been observed.
    pub closed spec fn spec_abort_seen(&self) -> bool {
        self.abort_seen
    }

    /// Whether the render still counts as in progress.
    pub closed spec fn spec_running(&self) -> bool {
        self.running
    }

    /// Consistency: never more frames done than asked for.
    pub open spec fn wf(&self) -> bool {
        self.spec_completed_frames() <= self.spec_total_frames()
    }

    /// The frame the loop computes next, if any. Frames run in order 0, 1,
    /// 2, ...; nothing is scheduled once all requested frames are done, once
    /// an abort was seen, or once the render was closed.
    pub open spec fn spec_next_frame(&self) -> Option<u32> {
        if self.spec_running() && !self.spec_abort_seen() && self.spec_completed_frames()
            < self.spec_total_frames() {
            Some(self.spec_completed_frames())
        } else {
            None
        }
    }

    /// Opens a render of `total_frames` frames: in progress, nothing done,
    /// no abort seen.
    pub fn start(total_frames: u32) -> (schedule: Self)
        ensures
            schedule.wf(),
            schedule.spec_total_frames() == total_frames,
            schedule.spec_completed_frames() == 0,
            !schedule.spec_abort_seen(),
            schedule.spec_running(),
    {
        RenderSchedule { total_frames, completed_frames: 0, abort_seen: false, running: true }
    }

    /// Answers which frame to compute next, or `None` when the loop must
    /// move on to the closing bookkeeping.
    pub fn next_frame(&self) -> (frame: Option<u32>)
        ensures
            frame == self.spec_next_frame(),
    {
        if self.running && !self.abort_seen && self.completed_frames < self.total_frames {
            Some(self.completed_frames)
        } else {
            None
        }
    }

    /// Records that the scheduled frame is computed and blended, and whether
    /// an abort request arrived by the end of it. An abort takes effect here,
    /// on the frame boundary: with `abort_requested` no further frame is
    /// scheduled.
    pub fn frame_completed(&mut self, abort_requested: bool)
        requires
            old(self).wf(),
            old(self).spec_next_frame() is Some,
        ensures
            final(self).wf(),
            final(self).spec_total_frames() == old(self).spec_total_frames(),
            final(self).spec_completed_frames() == old(self).spec_completed_frames() + 1,
            final(self).spec_abort_seen() == abort_requested,
            final(self).spec_running() == old(self).spec_running(),
            abort_requested ==> final(self).spec_next_frame() is None,
    {
        self.completed_frames = self.completed_frames + 1;
        self.abort_seen = abort_requested;
    }

    /// The progress to report after the last completed frame: frames done
    /// out of frames requested.
    pub fn progress(&self) -> (progress: Progress)
        ensures
            progress.completed_frames == self.spec_completed_frames(),
            progress.total_frames == self.spec_total_frames(),
    {
        Progress { completed_frames: self.completed_frames, total_frames: self.total_frames }
    }

    /// Closes the render. Callable in every state — the closing bookkeeping
    /// is owed whether the render ran to completion or was aborted — and
    /// afterwards no frame is ever scheduled again.
    pub fn finish(&mut self)
        ensures
            final(self).spec_total_frames() == old(self).spec_total_frames(),
            final(self).spec_completed_frames() == old(self).spec_completed_frames(),
            final(self).spec_abort_seen() == old(self).spec_abort_seen(),
            !final(self).spec_running(),
            final(self).spec_next_frame() is None,
    {
        self.running = false;
    }
}

/// Law: aborting is final. In every schedule state that has seen an abort —
/// however many frames were completed before it — no further frame is
/// scheduled: the loop stops before the next frame begins, and only the
/// closing bookkeeping of [`RenderSchedule::finish`] remains.
pub proof fn lemma_abort_stops_schedule(schedule: RenderSchedule)
    requires
        schedule.spec_abort_seen(),
    ensures
        schedule.spec_next_frame() is None,
{
}

} // verus!
