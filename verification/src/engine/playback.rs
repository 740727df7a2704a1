//! The playback loop: which frames are shown, held back or dropped.
use vstd::prelude::*;

verus! {

/// The longest the loop sleeps: about one refresh of the screen.
pub const VSYNC_NS: i64 = 16_666_667;

/// What is to become of the next frame.
#[derive(Debug, Clone, Copy, PartialEq, Eq, Structural)]
pub enum PresentAction {
    /// It is too late.
    Drop,
    /// It is too early.
    Hold,
    Present,
}

/// What the loop has to do next.
#[derive(Debug, Clone, Copy, PartialEq, Eq, Structural)]
pub enum PlaybackCall {
    /// Look at the shutdown flag.
    CheckShutdown,
    /// Ask the clock for the time and the decider for the next frame and its action.
    Decide,
    /// Schedule the frame.
    Schedule { pts: i64 },
    Sleep { ns: u64 },
    /// Get the surface to draw on.
    AcquireSurface,
    /// Draw the scheduled frame, show it, and correct the drift.
    Present { pts: i64 },
    Stop,
}

/// What came of it.
#[derive(Debug, Clone, Copy, PartialEq, Eq, Structural)]
pub enum PlaybackEvent {
    Shutdown { set: bool },
    /// `drift_ns` is the time from the clock to the next frame.
    Decided { action: PresentAction, next_pts: i64, drift_ns: i64 },
    Scheduled,
    Slept,
    /// The surface may be outdated, or lost.
    Surface { ok: bool },
    Presented,
}

#[derive(Debug, Clone, Copy, PartialEq, Eq, Structural)]
pub enum PlaybackStage {
    Top,
    Deciding,
    /// `show` is not set for a frame that is only scheduled.
    Scheduling { pts: i64, show: bool },
    Sleeping,
    Acquiring { pts: i64 },
    Presenting,
    Over,
}

/// The loop.
#[derive(Debug, Clone, Copy, PartialEq, Eq, Structural)]
pub struct PlaybackEngine {
    pub stage: PlaybackStage,
}

/// What a seek does, in this order.
#[derive(Debug, Clone, Copy, PartialEq, Eq, Structural)]
pub enum SeekStep {
    SeekClock { pts: i64 },
    ResetCorrector,
    RequestSeek { pts: i64 },
    ClearRing,
}

/// How long a frame that is too early is waited for.
pub open spec fn hold_ns(drift_ns: i64) -> int {
    let distance = if drift_ns < 0 { -drift_ns } else { drift_ns as int };
    if distance > VSYNC_NS { VSYNC_NS as int } else { distance }
}

impl PlaybackEngine {
    /// The loop at its start.
    pub fn new() -> (r: (Self, PlaybackCall))
        ensures
            r.0.stage is Top,
            r.1 is CheckShutdown,
    {
        (PlaybackEngine { stage: PlaybackStage::Top }, PlaybackCall::CheckShutdown)
    }

    pub open spec fn answers(self, event: PlaybackEvent) -> bool {
        match event {
            PlaybackEvent::Shutdown { .. } => self.stage is Top,
            PlaybackEvent::Decided { .. } => self.stage is Deciding,
            PlaybackEvent::Scheduled => self.stage is Scheduling,
            PlaybackEvent::Slept => self.stage is Sleeping,
            PlaybackEvent::Surface { .. } => self.stage is Acquiring,
            PlaybackEvent::Presented => self.stage is Presenting,
        }
    }

    pub open spec fn again() -> (PlaybackEngine, PlaybackCall) {
        (PlaybackEngine { stage: PlaybackStage::Top }, PlaybackCall::CheckShutdown)
    }

    /// The loop and its call after `event`.
    pub open spec fn after(self, event: PlaybackEvent) -> (PlaybackEngine, PlaybackCall) {
        match event {
            PlaybackEvent::Shutdown { set } => if set {
                (PlaybackEngine { stage: PlaybackStage::Over }, PlaybackCall::Stop)
            } else {
                (PlaybackEngine { stage: PlaybackStage::Deciding }, PlaybackCall::Decide)
            },
            PlaybackEvent::Decided { action, next_pts, drift_ns } => match action {
                PresentAction::Drop => (
                    PlaybackEngine {
                        stage: PlaybackStage::Scheduling { pts: next_pts, show: false },
                    },
                    PlaybackCall::Schedule { pts: next_pts },
                ),
                PresentAction::Hold => (
                    PlaybackEngine { stage: PlaybackStage::Sleeping },
                    PlaybackCall::Sleep { ns: hold_ns(drift_ns) as u64 },
                ),
                PresentAction::Present => (
                    PlaybackEngine {
                        stage: PlaybackStage::Scheduling { pts: next_pts, show: true },
                    },
                    PlaybackCall::Schedule { pts: next_pts },
                ),
            },
            PlaybackEvent::Scheduled => match self.stage {
                PlaybackStage::Scheduling { pts, show: true } => (
                    PlaybackEngine { stage: PlaybackStage::Acquiring { pts } },
                    PlaybackCall::AcquireSurface,
                ),
                _ => Self::again(),
            },
            PlaybackEvent::Slept => Self::again(),
            PlaybackEvent::Surface { ok } => match self.stage {
                PlaybackStage::Acquiring { pts } => if ok {
                    (
                        PlaybackEngine { stage: PlaybackStage::Presenting },
                        PlaybackCall::Present { pts },
                    )
                } else {
                    Self::again()
                },
                _ => Self::again(),
            },
            PlaybackEvent::Presented => Self::again(),
        }
    }

    fn restart(&mut self) -> (r: PlaybackCall)
        ensures
            (*final(self), r) == Self::again(),
    {
        self.stage = PlaybackStage::Top;
        PlaybackCall::CheckShutdown
    }

    /// Take what came of the last call and say what to do next.
    pub fn run(&mut self, event: PlaybackEvent) -> (r: PlaybackCall)
        requires
            old(self).answers(event),
        ensures
            (*final(self), r) == old(self).after(event),
    {
        match event {
            PlaybackEvent::Shutdown { set } => {
                if set {
                    self.stage = PlaybackStage::Over;
                    return PlaybackCall::Stop;
                }
                self.stage = PlaybackStage::Deciding;
                PlaybackCall::Decide
            },
            PlaybackEvent::Decided { action, next_pts, drift_ns } => {
                match action {
                    PresentAction::Drop => {
                        self.stage = PlaybackStage::Scheduling { pts: next_pts, show: false };
                        PlaybackCall::Schedule { pts: next_pts }
                    },
                    PresentAction::Hold => {
                        let ns: i64 = if drift_ns > VSYNC_NS || drift_ns < -VSYNC_NS {
                            VSYNC_NS
                        } else if drift_ns < 0 {
                            -drift_ns
                        } else {
                            drift_ns
                        };
                        self.stage = PlaybackStage::Sleeping;
                        PlaybackCall::Sleep { ns: ns as u64 }
                    },
                    PresentAction::Present => {
                        self.stage = PlaybackStage::Scheduling { pts: next_pts, show: true };
                        PlaybackCall::Schedule { pts: next_pts }
                    },
                }
            },
            PlaybackEvent::Scheduled => {
                match self.stage {
                    PlaybackStage::Scheduling { pts, show } => {
                        if show {
                            self.stage = PlaybackStage::Acquiring { pts };
                            PlaybackCall::AcquireSurface
                        } else {
                            self.restart()
                        }
                    },
                    _ => self.restart(),
                }
            },
            PlaybackEvent::Surface { ok } => {
                match self.stage {
                    PlaybackStage::Acquiring { pts } => {
                        if ok {
                            self.stage = PlaybackStage::Presenting;
                            PlaybackCall::Present { pts }
                        } else {
                            self.restart()
                        }
                    },
                    _ => self.restart(),
                }
            },
            PlaybackEvent::Slept => self.restart(),
            PlaybackEvent::Presented => self.restart(),
        }
    }

    /// What a seek does, in order.
    pub open spec fn seeking(new_pts: i64) -> Seq<SeekStep> {
        seq![
            SeekStep::SeekClock { pts: new_pts },
            SeekStep::ResetCorrector,
            SeekStep::RequestSeek { pts: new_pts },
            SeekStep::ClearRing,
        ]
    }

    /// What seeking to a new time takes: the clock first, so that nothing is decided by the
    /// old one, and the audio that is left last.
    pub fn seek(new_pts: i64) -> (r: [SeekStep; 4])
        ensures
            r@ == Self::seeking(new_pts),
    {
        let steps: [SeekStep; 4] = [
            SeekStep::SeekClock { pts: new_pts },
            SeekStep::ResetCorrector,
            SeekStep::RequestSeek { pts: new_pts },
            SeekStep::ClearRing,
        ];
        assert(steps@ =~= seq![
            SeekStep::SeekClock { pts: new_pts },
            SeekStep::ResetCorrector,
            SeekStep::RequestSeek { pts: new_pts },
            SeekStep::ClearRing,
        ]);
        steps
    }
}

/// A frame that is dropped or held back is not drawn: what is shown was decided to be shown,
/// was scheduled at its own time, and has a surface.
pub proof fn law_only_decided_frames_are_shown(
    engine: PlaybackEngine,
    action: PresentAction,
    next_pts: i64,
    drift_ns: i64,
    ok: bool,
)
    requires
        engine.stage is Deciding,
    ensures
        ({
            let decided = engine.after(PlaybackEvent::Decided { action, next_pts, drift_ns });
            let scheduled = decided.0.after(PlaybackEvent::Scheduled);
            let surfaced = scheduled.0.after(PlaybackEvent::Surface { ok });
            &&& decided.1 is Schedule <==> !(action is Hold)
            &&& decided.1 is Schedule ==> decided.1 == (PlaybackCall::Schedule { pts: next_pts })
            &&& decided.1 is Schedule ==> (scheduled.1 is AcquireSurface <==> action is Present)
            &&& scheduled.1 is AcquireSurface ==> (surfaced.1 is Present <==> ok)
            &&& scheduled.1 is AcquireSurface && ok ==> surfaced.1 == (PlaybackCall::Present {
                pts: next_pts,
            })
        }),
{
}

/// A frame is never waited for longer than a refresh, nor longer than it is early.
pub proof fn law_holds_are_short(drift_ns: i64)
    ensures
        0 <= hold_ns(drift_ns) <= VSYNC_NS,
        drift_ns >= 0 ==> hold_ns(drift_ns) <= drift_ns,
{
}

/// The loop's round: it stops when it is told to and only then, and otherwise decides; a frame
/// that is late is scheduled and not shown, one that is early is waited for, one that is due is
/// scheduled and shown at its own time, unless there is no surface; and then it begins again.
pub proof fn law_every_round_decides(engine: PlaybackEngine, event: PlaybackEvent)
    requires
        engine.answers(event),
    ensures
        ({
            let (after, call) = engine.after(event);
            let again = call is CheckShutdown && after.stage is Top;
            match event {
                PlaybackEvent::Shutdown { set } => {
                    &&& call is Stop <==> set
                    &&& set ==> after.stage is Over
                    &&& !set ==> call is Decide && after.stage is Deciding
                },
                PlaybackEvent::Decided { action, next_pts, drift_ns } => {
                    &&& action is Hold ==> {
                        &&& call is Sleep
                        &&& call->ns == hold_ns(drift_ns)
                        &&& after.stage is Sleeping
                    }
                    &&& !(action is Hold) ==> {
                        &&& call == (PlaybackCall::Schedule { pts: next_pts })
                        &&& after.stage is Scheduling
                        &&& after.stage->Scheduling_pts == next_pts
                        &&& after.stage->show <==> action is Present
                    }
                },
                PlaybackEvent::Scheduled => {
                    &&& engine.stage->show ==> call is AcquireSurface && after.stage == (
                    PlaybackStage::Acquiring { pts: engine.stage->Scheduling_pts })
                    &&& !engine.stage->show ==> again
                },
                PlaybackEvent::Slept => again,
                PlaybackEvent::Surface { ok } => {
                    &&& ok ==> {
                        &&& call == (PlaybackCall::Present { pts: engine.stage->Acquiring_pts })
                        &&& after.stage is Presenting
                    }
                    &&& !ok ==> again
                },
                PlaybackEvent::Presented => again,
            }
        }),
{
}

/// A frame is waited for as long as it is early, or for one refresh of 16666667 nanoseconds if
/// that is less.
pub proof fn law_a_frame_is_waited_for(drift_ns: i64)
    ensures
        -16_666_667 <= drift_ns <= 16_666_667 ==> hold_ns(drift_ns) == drift_ns
            || hold_ns(drift_ns) == -drift_ns,
        hold_ns(drift_ns) >= 0,
        drift_ns > 16_666_667 || drift_ns < -16_666_667 ==> hold_ns(drift_ns) == 16_666_667,
{
}

/// A seek sets the clock to the new time before anything else, resets the correction before it
/// asks for the new frames, asks for them at the same time, and drops the old sound last.
pub proof fn law_a_seek_sets_the_clock_first(new_pts: i64)
    ensures
        PlaybackEngine::seeking(new_pts).len() == 4,
        PlaybackEngine::seeking(new_pts)[0] == (SeekStep::SeekClock { pts: new_pts }),
        PlaybackEngine::seeking(new_pts)[1] is ResetCorrector,
        PlaybackEngine::seeking(new_pts)[2] == (SeekStep::RequestSeek { pts: new_pts }),
        PlaybackEngine::seeking(new_pts)[3] is ClearRing,
{
}

} // verus!
