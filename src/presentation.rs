//! State machine of the presentation loop: the configured surface size, what
//! to do after each attempt at a frame, and when to check the overlay's
//! stacking. The GPU calls and the display connection are the caller's.
use vstd::prelude::*;

verus! {

/// Number of event-free frames between two stacking checks.
pub const RESTACK_INTERVAL: u32 = 30;

/// Pause between two iterations of the loop, in nanoseconds (one sixtieth of a second).
pub const FRAME_INTERVAL_NANOS: u32 = 1_000_000_000 / 60;

/// How an attempt to acquire and present a frame ended.
#[derive(Clone, Copy, Debug, PartialEq, Eq, Structural)]
pub enum FrameOutcome {
    Presented,
    Lost,
    Outdated,
    Timeout,
    OutOfMemory,
}

/// What the loop does after an attempt at a frame.
#[derive(Clone, Copy, Debug, PartialEq, Eq, Structural)]
pub enum FrameAction {
    /// Go on with the next iteration.
    Continue,
    /// Configure the surface again with this size, then go on.
    Reconfigure { width: u32, height: u32 },
    /// Report the timeout, then go on.
    ReportTimeout,
    /// Leave the loop.
    Terminate,
}

/// The action taken after `outcome` on a surface configured at `size`.
pub open spec fn frame_action(size: (u32, u32), outcome: FrameOutcome) -> FrameAction {
    match outcome {
        FrameOutcome::Presented => FrameAction::Continue,
        FrameOutcome::Lost | FrameOutcome::Outdated => FrameAction::Reconfigure {
            width: size.0,
            height: size.1,
        },
        FrameOutcome::Timeout => FrameAction::ReportTimeout,
        FrameOutcome::OutOfMemory => FrameAction::Terminate,
    }
}

/// Both sides of `size` are non-zero.
pub open spec fn is_nonzero_size(size: (u32, u32)) -> bool {
    size.0 > 0 && size.1 > 0
}

/// The presentation surface's configured size, and the count of event-free
/// frames since the last stacking check.
pub struct State {
    size: (u32, u32),
    idle_frames: u32,
}

impl State {
    /// The size the surface is configured with.
    pub closed spec fn size_spec(&self) -> (u32, u32) {
        self.size
    }

    /// Event-free frames since the last stacking check.
    pub closed spec fn idle_frames_spec(&self) -> u32 {
        self.idle_frames
    }

    /// The configured size is never zero, and the idle count stays below
    /// `RESTACK_INTERVAL`.
    pub open spec fn wf(&self) -> bool {
        &&& is_nonzero_size(self.size_spec())
        &&& self.idle_frames_spec() < RESTACK_INTERVAL
    }

    /// A loop for a window of `width` by `height` pixels; `None` where either
    /// is zero, since a surface of no area cannot be configured.
    pub fn new(width: u32, height: u32) -> (r: Option<State>)
        ensures
            r is Some <==> is_nonzero_size((width, height)),
            r matches Some(s) ==> {
                &&& s.wf()
                &&& s.size_spec() == (width, height)
                &&& s.idle_frames_spec() == 0
            },
    {
        if width > 0 && height > 0 {
            Some(State { size: (width, height), idle_frames: 0 })
        } else {
            None
        }
    }

    /// The size the surface is configured with.
    pub fn size(&self) -> (r: (u32, u32))
        ensures
            r == self.size_spec(),
    {
        self.size
    }

    /// Event-free frames since the last stacking check.
    pub fn idle_frames(&self) -> (r: u32)
        ensures
            r == self.idle_frames_spec(),
    {
        self.idle_frames
    }

    /// Takes a new window size. A size with a zero side changes nothing;
    /// any other becomes the configured size. Returns whether the surface
    /// must be configured again.
    pub fn resize(&mut self, new_size: (u32, u32)) -> (reconfigure: bool)
        requires
            old(self).wf(),
        ensures
            final(self).wf(),
            reconfigure == is_nonzero_size(new_size),
            is_nonzero_size(new_size) ==> final(self).size_spec() == new_size,
            !is_nonzero_size(new_size) ==> final(self).size_spec() == old(self).size_spec(),
            final(self).idle_frames_spec() == old(self).idle_frames_spec(),
    {
        if new_size.0 > 0 && new_size.1 > 0 {
            self.size = new_size;
            true
        } else {
            false
        }
    }

    /// Decides what follows an attempt at a frame. A lost or outdated surface
    /// is configured again at the size it had; a timeout is reported; running
    /// out of memory ends the loop.
    pub fn on_frame(&mut self, outcome: FrameOutcome) -> (action: FrameAction)
        requires
            old(self).wf(),
        ensures
            final(self).wf(),
            action == frame_action(old(self).size_spec(), outcome),
            final(self).size_spec() == old(self).size_spec(),
            final(self).idle_frames_spec() == old(self).idle_frames_spec(),
    {
        match outcome {
            FrameOutcome::Presented => FrameAction::Continue,
            FrameOutcome::Lost | FrameOutcome::Outdated => {
                let size = self.size;
                let reconfigure = self.resize(size);
                if reconfigure {
                    FrameAction::Reconfigure { width: size.0, height: size.1 }
                } else {
                    FrameAction::Continue
                }
            },
            FrameOutcome::Timeout => FrameAction::ReportTimeout,
            FrameOutcome::OutOfMemory => FrameAction::Terminate,
        }
    }

    /// Takes the result of polling the display connection once. A pending
    /// event changes nothing; otherwise the idle count advances, and every
    /// `RESTACK_INTERVAL`-th event-free frame asks for a stacking check.
    pub fn on_poll(&mut self, event_pending: bool) -> (check_stacking: bool)
        requires
            old(self).wf(),
        ensures
            final(self).wf(),
            final(self).size_spec() == old(self).size_spec(),
            event_pending ==> !check_stacking && final(self).idle_frames_spec()
                == old(self).idle_frames_spec(),
            !event_pending ==> final(self).idle_frames_spec() == (old(
                self,
            ).idle_frames_spec() + 1) % (RESTACK_INTERVAL as int),
            !event_pending ==> (check_stacking <==> final(self).idle_frames_spec() == 0),
    {
        if event_pending {
            false
        } else {
            self.idle_frames = (self.idle_frames + 1) % RESTACK_INTERVAL;
            self.idle_frames == 0
        }
    }
}

/// A surface lost or outdated while presenting is configured again with the
/// size it had before the loss, and the loop goes on.
pub proof fn lemma_lost_surface_recovers(size: (u32, u32), outcome: FrameOutcome)
    requires
        outcome == FrameOutcome::Lost || outcome == FrameOutcome::Outdated,
    ensures
        frame_action(size, outcome) == (FrameAction::Reconfigure { width: size.0, height: size.1 }),
        frame_action(size, outcome) != FrameAction::Terminate,
{
}

} // verus!
