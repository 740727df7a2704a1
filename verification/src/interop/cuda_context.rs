//! The CUDA primary context: how it is acquired and how a thread borrows it.
use crate::interop::capability::InteropCapability;
use vstd::prelude::*;
use vstd::string::*;

verus! {

pub const CUDA_SUCCESS: i32 = 0;

/// Blocking synchronisation, the one scheduling flag FFmpeg accepts on the context.
pub const CU_CTX_SCHED_BLOCKING_SYNC: u32 = 0x04;

/// The stream does not wait for the default one.
pub const CU_STREAM_NON_BLOCKING: u32 = 1;

/// Why a CUDA operation failed, with the driver's own words.
#[derive(Debug)]
pub enum CudaError {
    DeviceGet(String),
    CtxRetain(String),
    StreamCreate(String),
    Import(String),
    MapArray(String),
    MapBuffer(String),
}

/// What acquiring the context has to do next.
#[derive(Debug, Clone, Copy, PartialEq, Eq, Structural)]
pub enum ContextCall {
    GetDevice { ordinal: i32 },
    /// Ask for the flags of the primary context and whether it is active.
    GetState,
    /// Set the flags; how that ends does not matter.
    SetFlags { flags: u32 },
    Retain,
    /// Ask which context is current on this thread.
    GetCurrent,
    /// Make the retained context current.
    Bind,
    CreateStream { flags: u32 },
    /// Make `context` current again, none if it is zero.
    Restore { context: u64 },
    Ready { context: CudaContext },
    /// Release the primary context if `release` is set, and give up.
    Failed { release: bool },
}

/// What the driver answered.
#[derive(Debug, Clone, Copy, PartialEq, Eq, Structural)]
pub enum ContextReply {
    Device { status: i32, device: i32 },
    State { status: i32, flags: u32, active: i32 },
    FlagsSet,
    Retained { status: i32, context: u64 },
    Current { status: i32, context: u64 },
    Bound { status: i32 },
    Stream { status: i32, stream: u64 },
    Restored,
}

#[derive(Debug, Clone, Copy, PartialEq, Eq, Structural)]
pub enum ContextStage {
    Device,
    State { device: i32 },
    Flags { device: i32 },
    Retain { device: i32 },
    Current { device: i32, context: u64 },
    Bind { device: i32, context: u64, previous: u64 },
    Stream { device: i32, context: u64, previous: u64 },
    Restore { device: i32, context: u64, status: i32, stream: u64 },
    Over,
}

/// The context being acquired.
#[derive(Debug, Clone, Copy, PartialEq, Eq, Structural)]
pub struct ContextOpening {
    pub stage: ContextStage,
}

/// A retained primary context, and the stream copies run on.
#[derive(Debug, Clone, Copy, PartialEq, Eq, Structural)]
pub struct CudaContext {
    pub device: i32,
    pub context: u64,
    pub stream: u64,
}

/// How a thread gets the context.
#[derive(Debug, Clone, Copy, PartialEq, Eq, Structural)]
pub enum EnterCall {
    /// It has it: do the work, and restore nothing.
    Run,
    /// Make it current.
    Bind { context: u64 },
}

/// What releasing the context has to do.
#[derive(Debug, Clone, Copy, PartialEq, Eq, Structural)]
pub enum ContextDropCall {
    /// With the context current, wait for the stream and destroy it.
    DestroyStream { stream: u64 },
    Release { device: i32 },
}

/// How a thread whose current context is `observed` gets the context `ours`.
pub open spec fn entering(ours: u64, observed: Option<u64>) -> EnterCall {
    if observed == Some(ours) { EnterCall::Run } else { EnterCall::Bind { context: ours } }
}

/// What a thread whose current context was `observed` makes current at the end.
pub open spec fn leaving(observed: Option<u64>, status: i32) -> Option<u64> {
    if status != CUDA_SUCCESS {
        None
    } else {
        match observed {
            Some(context) => Some(context),
            None => Some(0),
        }
    }
}

impl ContextOpening {
    pub open spec fn answers(self, reply: ContextReply) -> bool {
        match reply {
            ContextReply::Device { .. } => self.stage is Device,
            ContextReply::State { .. } => self.stage is State,
            ContextReply::FlagsSet => self.stage is Flags,
            ContextReply::Retained { .. } => self.stage is Retain,
            ContextReply::Current { .. } => self.stage is Current,
            ContextReply::Bound { .. } => self.stage is Bind,
            ContextReply::Stream { .. } => self.stage is Stream,
            ContextReply::Restored => self.stage is Restore,
        }
    }

    pub open spec fn fail(release: bool) -> (ContextOpening, ContextCall) {
        (
            ContextOpening { stage: ContextStage::Over },
            ContextCall::Failed { release },
        )
    }

    pub open spec fn at(stage: ContextStage, call: ContextCall) -> (ContextOpening, ContextCall) {
        (ContextOpening { stage }, call)
    }

    /// What follows `reply`.
    pub open spec fn after(self, reply: ContextReply) -> (ContextOpening, ContextCall) {
        match (self.stage, reply) {
            (ContextStage::Device, ContextReply::Device { status, device }) => if status
                != CUDA_SUCCESS {
                Self::fail(false)
            } else {
                Self::at(ContextStage::State { device }, ContextCall::GetState)
            },
            (ContextStage::State { device }, ContextReply::State { status, flags, active }) =>
                if status == CUDA_SUCCESS && active == 0 && flags != CU_CTX_SCHED_BLOCKING_SYNC {
                    Self::at(
                        ContextStage::Flags { device },
                        ContextCall::SetFlags { flags: CU_CTX_SCHED_BLOCKING_SYNC },
                    )
                } else {
                    Self::at(ContextStage::Retain { device }, ContextCall::Retain)
                },
            (ContextStage::Flags { device }, ContextReply::FlagsSet) => Self::at(
                ContextStage::Retain { device },
                ContextCall::Retain,
            ),
            (ContextStage::Retain { device }, ContextReply::Retained { status, context }) =>
                if status != CUDA_SUCCESS {
                    Self::fail(false)
                } else {
                    Self::at(
                        ContextStage::Current { device, context },
                        ContextCall::GetCurrent,
                    )
                },
            (
                ContextStage::Current { device, context },
                ContextReply::Current { status, context: current },
            ) => Self::at(
                ContextStage::Bind {
                    device,
                    context,
                    previous: if status == CUDA_SUCCESS { current } else { 0 },
                },
                ContextCall::Bind,
            ),
            (ContextStage::Bind { device, context, previous }, ContextReply::Bound { status }) =>
                if status != CUDA_SUCCESS {
                    Self::fail(true)
                } else {
                    Self::at(
                        ContextStage::Stream { device, context, previous },
                        ContextCall::CreateStream { flags: CU_STREAM_NON_BLOCKING },
                    )
                },
            (
                ContextStage::Stream { device, context, previous },
                ContextReply::Stream { status, stream },
            ) => Self::at(
                ContextStage::Restore { device, context, status, stream },
                ContextCall::Restore { context: previous },
            ),
            (ContextStage::Restore { device, context, status, stream }, ContextReply::Restored) =>
                if status != CUDA_SUCCESS {
                    Self::fail(true)
                } else {
                    Self::at(
                        ContextStage::Over,
                        ContextCall::Ready { context: CudaContext { device, context, stream } },
                    )
                },
            _ => Self::fail(false),
        }
    }

    /// Take the driver's answer and say what to do next.
    pub fn resume(&mut self, reply: ContextReply) -> (r: ContextCall)
        requires
            old(self).answers(reply),
        ensures
            (*final(self), r) == old(self).after(reply),
    {
        let (stage, call): (ContextStage, ContextCall) = match (self.stage, reply) {
            (ContextStage::Device, ContextReply::Device { status, device }) => {
                if status != CUDA_SUCCESS {
                    (ContextStage::Over, ContextCall::Failed { release: false })
                } else {
                    (ContextStage::State { device }, ContextCall::GetState)
                }
            },
            (ContextStage::State { device }, ContextReply::State { status, flags, active }) => {
                if status == CUDA_SUCCESS && active == 0 && flags != CU_CTX_SCHED_BLOCKING_SYNC {
                    (
                        ContextStage::Flags { device },
                        ContextCall::SetFlags { flags: CU_CTX_SCHED_BLOCKING_SYNC },
                    )
                } else {
                    (ContextStage::Retain { device }, ContextCall::Retain)
                }
            },
            (ContextStage::Flags { device }, ContextReply::FlagsSet) => (
                ContextStage::Retain { device },
                ContextCall::Retain,
            ),
            (ContextStage::Retain { device }, ContextReply::Retained { status, context }) => {
                if status != CUDA_SUCCESS {
                    (ContextStage::Over, ContextCall::Failed { release: false })
                } else {
                    (ContextStage::Current { device, context }, ContextCall::GetCurrent)
                }
            },
            (
                ContextStage::Current { device, context },
                ContextReply::Current { status, context: current },
            ) => {
                let previous: u64 = if status == CUDA_SUCCESS { current } else { 0 };
                (ContextStage::Bind { device, context, previous }, ContextCall::Bind)
            },
            (ContextStage::Bind { device, context, previous }, ContextReply::Bound { status }) => {
                if status != CUDA_SUCCESS {
                    (ContextStage::Over, ContextCall::Failed { release: true })
                } else {
                    (
                        ContextStage::Stream { device, context, previous },
                        ContextCall::CreateStream { flags: CU_STREAM_NON_BLOCKING },
                    )
                }
            },
            (
                ContextStage::Stream { device, context, previous },
                ContextReply::Stream { status, stream },
            ) => (
                ContextStage::Restore { device, context, status, stream },
                ContextCall::Restore { context: previous },
            ),
            (ContextStage::Restore { device, context, status, stream }, ContextReply::Restored) => {
                if status != CUDA_SUCCESS {
                    (ContextStage::Over, ContextCall::Failed { release: true })
                } else {
                    (
                        ContextStage::Over,
                        ContextCall::Ready { context: CudaContext { device, context, stream } },
                    )
                }
            },
            _ => (ContextStage::Over, ContextCall::Failed { release: false }),
        };
        self.stage = stage;
        call
    }

    /// `error` is what a failure at this stage is reported as.
    pub open spec fn reports(self, text: String, error: CudaError) -> bool {
        match self.stage {
            ContextStage::Device => error == CudaError::DeviceGet(text),
            ContextStage::Retain { .. } => error == CudaError::CtxRetain(text),
            ContextStage::Bind { .. } => error matches CudaError::CtxRetain(t) && t@
                == "the primary context was retained but could not be made current: "@ + text@,
            _ => error == CudaError::StreamCreate(text),
        }
    }

    /// The error that an opening which failed at this stage is reported as; `text` is the
    /// driver's rendering of the status.
    pub fn error(&self, text: String) -> (r: CudaError)
        ensures
            self.reports(text, r),
    {
        match self.stage {
            ContextStage::Device => CudaError::DeviceGet(text),
            ContextStage::Retain { .. } => CudaError::CtxRetain(text),
            ContextStage::Bind { .. } => {
                let mut t = String::from_str(
                    "the primary context was retained but could not be made current: ",
                );
                t.append(text.as_str());
                CudaError::CtxRetain(t)
            },
            _ => CudaError::StreamCreate(text),
        }
    }
}

impl CudaContext {
    /// Start acquiring the primary context of the capability's device.
    pub fn new(capability: &InteropCapability) -> (r: (ContextOpening, ContextCall))
        ensures
            r.0.stage is Device,
            r.1 == (ContextCall::GetDevice { ordinal: capability.cuda_device_ordinal }),
    {
        (
            ContextOpening { stage: ContextStage::Device },
            ContextCall::GetDevice { ordinal: capability.cuda_device_ordinal },
        )
    }

    /// How a thread whose current context is `observed`, if that is known, gets this one.
    pub fn with_context(&self, observed: Option<u64>) -> (r: EnterCall)
        ensures
            r == entering(self.context, observed),
    {
        match observed {
            Some(context) => {
                if context == self.context {
                    return EnterCall::Run;
                }
            },
            None => {},
        }
        EnterCall::Bind { context: self.context }
    }

    /// What the thread makes current when the work is done, once binding came to `status`:
    /// nothing is restored where nothing was bound, and zero unbinds.
    pub fn leave(observed: Option<u64>, status: i32) -> (r: Option<u64>)
        ensures
            r == leaving(observed, status),
    {
        if status != CUDA_SUCCESS {
            return None;
        }
        match observed {
            Some(context) => Some(context),
            None => Some(0),
        }
    }

    /// The handle of the context.
    pub fn raw_context(&self) -> (r: u64)
        ensures
            r == self.context,
    {
        self.context
    }

    /// What releasing the context takes, in order.
    pub open spec fn dropping(&self) -> (ContextDropCall, ContextDropCall) {
        (
            ContextDropCall::DestroyStream { stream: self.stream },
            ContextDropCall::Release { device: self.device },
        )
    }

    /// What releasing the context takes, in order.
    pub fn release(&self) -> (r: (ContextDropCall, ContextDropCall))
        ensures
            r == self.dropping(),
    {
        (
            ContextDropCall::DestroyStream { stream: self.stream },
            ContextDropCall::Release { device: self.device },
        )
    }
}

/// The flags are set before the context is retained, for an active context refuses them,
/// and only where it is not active yet.
pub proof fn law_flags_precede_the_retain(opening: ContextOpening, reply: ContextReply)
    requires
        opening.answers(reply),
    ensures
        opening.after(reply).1 is SetFlags ==> {
            &&& reply matches ContextReply::State { active, .. }
            &&& active == 0
        },
        opening.after(reply).0.stage is Flags ==> opening.stage is State,
        opening.after(reply).1 is Retain ==> opening.stage is State || opening.stage is Flags,
{
}

/// What is retained is released when acquiring the context fails afterwards, and never
/// released otherwise.
pub proof fn law_failures_release_what_was_retained(opening: ContextOpening, reply: ContextReply)
    requires
        opening.answers(reply),
    ensures
        opening.after(reply).1 matches ContextCall::Failed { release } ==> (release <==> (
        opening.stage is Bind || opening.stage is Restore)),
{
}

/// A thread leaves with the context it came with: what it had is made current again, and a
/// thread that had none, or whose context is unknown, is left without one.
pub proof fn law_threads_get_their_context_back(ours: u64, observed: Option<u64>)
    ensures
        ({
            let left_with = match entering(ours, observed) {
                EnterCall::Run => Some(ours),
                EnterCall::Bind { .. } => leaving(observed, CUDA_SUCCESS),
            };
            left_with == Some(
                match observed {
                    Some(context) => context,
                    None => 0u64,
                },
            )
        }),
{
}

/// A context is acquired step by step and belongs together: the device that was given out, its
/// retained context, and a stream of its own that does not wait for the default one.  Flags are
/// set for blocking waits where the context is not active yet and has others.  The thread gets
/// its own context back before anything is said of the outcome.
pub proof fn law_a_context_is_acquired_in_order(opening: ContextOpening, reply: ContextReply)
    requires
        opening.answers(reply),
    ensures
        ({
            let (after, call) = opening.after(reply);
            match (opening.stage, reply) {
                (ContextStage::Device, ContextReply::Device { status, device }) => {
                    &&& call is GetState <==> status == 0
                    &&& status == 0 ==> after.stage == (ContextStage::State { device })
                    &&& status != 0 ==> call == (ContextCall::Failed { release: false })
                },
                (ContextStage::State { device }, ContextReply::State { status, flags, active }) => {
                    let set = status == 0 && active == 0 && flags != 4;
                    &&& set ==> call == (ContextCall::SetFlags { flags: 4 }) && after.stage == (
                    ContextStage::Flags { device })
                    &&& !set ==> call is Retain && after.stage == (ContextStage::Retain { device })
                },
                (ContextStage::Flags { device }, ContextReply::FlagsSet) => call is Retain
                    && after.stage == (ContextStage::Retain { device }),
                (ContextStage::Retain { device }, ContextReply::Retained { status, context }) => {
                    &&& status == 0 ==> call is GetCurrent && after.stage == (
                    ContextStage::Current { device, context })
                    &&& status != 0 ==> call == (ContextCall::Failed { release: false })
                },
                (
                    ContextStage::Current { device, context },
                    ContextReply::Current { status, context: current },
                ) => {
                    &&& call is Bind
                    &&& status == 0 ==> after.stage == (ContextStage::Bind {
                        device,
                        context,
                        previous: current,
                    })
                    &&& status != 0 ==> after.stage == (ContextStage::Bind {
                        device,
                        context,
                        previous: 0,
                    })
                },
                (
                    ContextStage::Bind { device, context, previous },
                    ContextReply::Bound { status },
                ) => {
                    &&& status == 0 ==> call == (ContextCall::CreateStream { flags: 1 })
                        && after.stage == (ContextStage::Stream { device, context, previous })
                    &&& status != 0 ==> call == (ContextCall::Failed { release: true })
                },
                (
                    ContextStage::Stream { device, context, previous },
                    ContextReply::Stream { status, stream },
                ) => {
                    &&& call == (ContextCall::Restore { context: previous })
                    &&& after.stage == (ContextStage::Restore { device, context, status, stream })
                },
                (
                    ContextStage::Restore { device, context, status, stream },
                    ContextReply::Restored,
                ) => {
                    &&& status == 0 ==> {
                        &&& call is Ready
                        &&& call->Ready_context.device == device
                        &&& call->Ready_context.context == context
                        &&& call->Ready_context.stream == stream
                    }
                    &&& status != 0 ==> call == (ContextCall::Failed { release: true })
                },
                _ => true,
            }
        }),
        opening.after(reply).1 is Ready || opening.after(reply).1 is Failed ==> opening.after(
            reply,
        ).0.stage is Over,
{
}

/// A failure is reported as what failed: finding the device, retaining its context, which
/// binding it counts as, or creating the stream.
pub proof fn law_failures_are_reported_by_stage(
    opening: ContextOpening,
    text: String,
    error: CudaError,
)
    requires
        opening.reports(text, error),
    ensures
        opening.stage is Device ==> error is DeviceGet && error->DeviceGet_0@ == text@,
        opening.stage is Retain ==> error is CtxRetain && error->CtxRetain_0@ == text@,
        opening.stage is Bind ==> error is CtxRetain && error->CtxRetain_0@
            == "the primary context was retained but could not be made current: "@ + text@,
        opening.stage is Restore ==> error is StreamCreate && error->StreamCreate_0@ == text@,
{
}

/// A thread that has the context works as it is; any other binds it.  Nothing is restored
/// where binding failed.
pub proof fn law_only_strangers_bind(ours: u64, observed: Option<u64>, status: i32)
    ensures
        entering(ours, observed) is Run <==> observed is Some && observed->0 == ours,
        !(entering(ours, observed) is Run) ==> entering(ours, observed) == (EnterCall::Bind {
            context: ours,
        }),
        leaving(observed, status) is None <==> status != 0,
{
}

/// The stream is destroyed before the context it lives in is released.
pub proof fn law_streams_go_before_their_context(context: CudaContext)
    ensures
        context.dropping().0 == (ContextDropCall::DestroyStream { stream: context.stream }),
        context.dropping().1 == (ContextDropCall::Release { device: context.device }),
{
}

} // verus!
