//! What an export reports and how it is steered.
use vstd::prelude::*;

verus! {

/// Stage of an export.
#[derive(Debug, Clone, PartialEq)]
pub enum ExportPhase {
    Rendering,
    Encoding,
    Muxing,
    Paused,
    Cancelled,
    Done,
    Failed(String),
}

/// Frames an estimate needs before it is worth giving.
pub const ETA_MIN_FRAMES: usize = 5;

/// Frames still to come, where an estimate can be given.
pub open spec fn frames_to_come(frames_done: usize, total_frames: usize) -> Option<usize> {
    if ETA_MIN_FRAMES <= frames_done < total_frames {
        Some((total_frames - frames_done) as usize)
    } else {
        None
    }
}

/// Frames still to come, if an estimate of the time they take can be given: a few frames
/// are done, and not all of them.
pub fn eta_frames(frames_done: usize, total_frames: usize) -> (r: Option<usize>)
    ensures
        r == frames_to_come(frames_done, total_frames),
{
    if frames_done < ETA_MIN_FRAMES || frames_done >= total_frames {
        return None;
    }
    Some(total_frames - frames_done)
}

/// The two flags as a value.
#[derive(Debug, Clone, Copy, PartialEq, Eq, Structural)]
pub struct ControlFlags {
    pub cancelled: bool,
    pub paused: bool,
}

/// One change of the flags.
#[derive(Debug, Clone, Copy, PartialEq, Eq, Structural)]
pub enum ControlRequest {
    Cancel,
    Pause,
    Resume,
}

impl ControlFlags {
    /// The flags once `request` is granted.
    pub open spec fn after(self, request: ControlRequest) -> ControlFlags {
        match request {
            ControlRequest::Cancel => ControlFlags { cancelled: true, ..self },
            ControlRequest::Pause => ControlFlags { paused: true, ..self },
            ControlRequest::Resume => ControlFlags { paused: false, ..self },
        }
    }
}

/// Pause and cancel flags of an export.
///
/// There is one of them per export and no way to copy it: whoever holds a reference to it
/// sees every request.
#[derive(Debug)]
pub struct ExportControl {
    cancelled: bool,
    paused: bool,
}

impl View for ExportControl {
    type V = ControlFlags;

    closed spec fn view(&self) -> ControlFlags {
        ControlFlags { cancelled: self.cancelled, paused: self.paused }
    }
}

impl ExportControl {
    pub fn new() -> (r: Self)
        ensures
            r@ == (ControlFlags { cancelled: false, paused: false }),
    {
        ExportControl { cancelled: false, paused: false }
    }

    /// Ask the export to stop, for good.
    pub fn cancel(&mut self)
        ensures
            final(self)@ == old(self)@.after(ControlRequest::Cancel),
    {
        self.cancelled = true;
    }

    pub fn pause(&mut self)
        ensures
            final(self)@ == old(self)@.after(ControlRequest::Pause),
    {
        self.paused = true;
    }

    pub fn resume(&mut self)
        ensures
            final(self)@ == old(self)@.after(ControlRequest::Resume),
    {
        self.paused = false;
    }

    pub fn is_cancelled(&self) -> (r: bool)
        ensures
            r == self@.cancelled,
    {
        self.cancelled
    }

    pub fn is_paused(&self) -> (r: bool)
        ensures
            r == self@.paused,
    {
        self.paused
    }
}

impl Default for ExportControl {
    fn default() -> (r: Self)
        ensures
            r@ == (ControlFlags { cancelled: false, paused: false }),
    {
        ExportControl::new()
    }
}

/// The flags after a run of requests.
pub open spec fn controlled(flags: ControlFlags, requests: Seq<ControlRequest>) -> ControlFlags
    decreases requests.len(),
{
    if requests.len() == 0 {
        flags
    } else {
        controlled(flags, requests.drop_last()).after(requests.last())
    }
}

/// A cancelled export stays cancelled, whatever is asked of it afterwards, and pausing and
/// resuming cancel nothing.
pub proof fn law_cancelling_is_final(flags: ControlFlags, requests: Seq<ControlRequest>)
    ensures
        controlled(flags, requests).cancelled <==> flags.cancelled || exists|i: int|
            0 <= i < requests.len() && #[trigger] requests[i] is Cancel,
    decreases requests.len(),
{
    if requests.len() > 0 {
        let rest = requests.drop_last();
        law_cancelling_is_final(flags, rest);
        if exists|i: int| 0 <= i < requests.len() && #[trigger] requests[i] is Cancel {
            let i = choose|i: int| 0 <= i < requests.len() && #[trigger] requests[i] is Cancel;
            if i < rest.len() {
                assert(rest[i] is Cancel);
            }
        }
        if exists|i: int| 0 <= i < rest.len() && #[trigger] rest[i] is Cancel {
            let i = choose|i: int| 0 <= i < rest.len() && #[trigger] rest[i] is Cancel;
            assert(requests[i] is Cancel);
        }
        assert(requests[requests.len() - 1] == requests.last());
    }
}

/// Resuming undoes pausing.
pub proof fn law_resume_undoes_pause(flags: ControlFlags)
    requires
        !flags.paused,
    ensures
        flags.after(ControlRequest::Pause).after(ControlRequest::Resume) == flags,
{
}

/// An estimate is given from the fifth frame on and until the last, for all the frames that are
/// not done.
pub proof fn law_estimates_are_of_what_is_left(frames_done: usize, total_frames: usize)
    ensures
        frames_to_come(frames_done, total_frames) is Some <==> 5 <= frames_done < total_frames,
        frames_to_come(frames_done, total_frames) matches Some(left) ==> left + frames_done
            == total_frames,
{
}

/// A request changes the flag it is about, to what it asks for, and no other.
pub proof fn law_requests_change_their_flag(flags: ControlFlags, request: ControlRequest)
    ensures
        flags.after(request).cancelled <==> flags.cancelled || request is Cancel,
        flags.after(request).paused <==> request is Pause || flags.paused && !(request is Resume),
{
}

} // verus!
