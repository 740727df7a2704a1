//! Opening an NVENC session: which configuration is tried after which, and what is undone
//! when the driver says no.
use crate::export::job::{ExportJob, VideoCodec};
use crate::interop::cuda_context::CudaError;
use crate::interop::encode_interop::{
    EncodeInterop, EncodeInteropError, EncodeSlot, SessionState, NVENC_INFLIGHT_SLOTS,
    NV_ENC_BUFFER_FORMAT_NV12,
};
use crate::interop::nv12_encode::Nv12EncodeNode;
use crate::interop::nvenc::{
    api_word, high_word, le32, nv_enc_create_bitstream_buffer_ver, nv_enc_event_params_ver,
    nv_enc_initialize_params_ver, nv_enc_open_encode_session_ex_params_ver,
    nv_enc_register_resource_ver, nv_encode_api_function_list_ver, nvenc_api_version, stores_le32,
    struct_word, PresetConfig, CFG_FRAME_INTERVAL_P_OFFSET, NV_ENC_DEVICE_TYPE_CUDA,
    NV_ENC_SUCCESS, NV_ENC_TUNING_INFO_HIGH_QUALITY, PRESET_CFG_OFFSET, PRESET_CONFIG_BUF_BYTES,
};
use vstd::prelude::*;

verus! {

/// One completion event per slot and one for the end of the stream.
pub const EVENT_COUNT: usize = 5;

/// The input is a linear device pointer.
pub const NV_ENC_INPUT_RESOURCE_TYPE_CUDADEVICEPTR: u32 = 1;

/// The registered resource is an encoder input.
pub const NV_ENC_BUFFER_USAGE_INPUT_IMAGE: u32 = 0;

/// Speed presets, tried in this order.
#[derive(Debug, Clone, Copy, PartialEq, Eq, Structural)]
pub enum Preset {
    P4,
    P1,
}

/// What the encoder is initialised with.
#[derive(Debug, Clone, Copy, PartialEq, Eq, Structural)]
pub struct InitParams {
    pub version: u32,
    pub hevc: bool,
    pub preset: Preset,
    pub width: u32,
    pub height: u32,
    pub dar_width: u32,
    pub dar_height: u32,
    pub max_encode_width: u32,
    pub max_encode_height: u32,
    pub frame_rate_num: u32,
    pub frame_rate_den: u32,
    pub enable_encode_async: u32,
    pub enable_ptd: u32,
    pub tuning_info: u32,
    /// The patched configuration is passed rather than none.
    pub explicit_config: bool,
}

/// An input buffer as it is registered.
#[derive(Debug, Clone, Copy, PartialEq, Eq, Structural)]
pub struct RegisterParams {
    pub version: u32,
    pub resource_type: u32,
    pub width: u32,
    pub height: u32,
    pub pitch: u32,
    pub buffer_format: u32,
    pub buffer_usage: u32,
}

/// What the caller has to do with the driver next.
pub enum OpenCall {
    /// Fill the function table, whose first word is `version`.
    CreateInstance { version: u32 },
    OpenSession { version: u32, device_type: u32, api_version: u32 },
    /// Create that many auto-reset events.
    CreateEvents { count: usize },
    /// Unregister the first `unregister` events, close all of them, and then destroy the
    /// session if asked to.
    CloseEvents { unregister: usize, destroy_session: bool },
    /// Have the driver fill in the codec's configuration of the preset.
    QueryPreset { hevc: bool, preset: Preset, tuning_info: u32 },
    Initialize { params: InitParams },
    RegisterEvent { index: usize, version: u32 },
    /// Allocate a buffer of `size` bytes that GPU and CUDA share.
    AllocateSlot { slot: usize, size: u64 },
    RegisterResource { slot: usize, params: RegisterParams },
    CreateBitstream { slot: usize, version: u32 },
    /// The session is open and every slot is set up.
    Ready,
    /// Release the slots, destroy the session if asked to, and give up.
    Failed { error: EncodeInteropError, destroy_session: bool },
}

/// What the driver answered.
pub enum OpenReply {
    /// `has_open` and `has_preset_query` tell whether the table holds the two entries.
    Instance { status: i32, has_open: bool, has_preset_query: bool },
    Session { status: i32 },
    /// Whether every event could be created.
    Events { created: bool },
    EventsClosed,
    Preset { status: i32, filled: Vec<u8> },
    Initialized { status: i32 },
    EventRegistered { status: i32 },
    Slot { result: Result<(), CudaError> },
    Registered { status: i32 },
    Bitstream { status: i32 },
}

/// How far the opening has come.
#[derive(Debug, Clone, Copy, PartialEq, Eq, Structural)]
pub enum Stage {
    CreatingInstance,
    OpeningSession,
    CreatingEvents,
    Querying { is_async: bool, preset: Preset },
    Initializing { is_async: bool, preset: Preset, explicit: bool },
    RegisteringEvent { index: usize },
    ClosingEvents { destroyed: bool },
    /// A second session, to be initialised in synchronous mode.
    Reopening,
    Allocating { slot: usize },
    Registering { slot: usize },
    CreatingBitstream { slot: usize },
    Ready,
    Failed,
}

/// The opening as a value.
#[derive(Clone, Copy)]
pub struct OpenState {
    pub hevc: bool,
    pub width: u32,
    pub height: u32,
    pub frame_rate_num: u32,
    pub frame_rate_den: u32,
    pub pitch: u32,
    pub size: u64,
    pub windows: bool,
    pub api: u32,
    pub has_preset_query: bool,
    pub is_async: bool,
    /// The initialisation that the driver accepted passed the patched configuration.
    pub explicit: bool,
    pub stage: Stage,
}

impl OpenState {
    /// A session is open at this point.
    pub open spec fn session_open(self) -> bool {
        match self.stage {
            Stage::CreatingInstance | Stage::OpeningSession | Stage::Reopening | Stage::Failed =>
                false,
            Stage::ClosingEvents { destroyed } => !destroyed,
            _ => true,
        }
    }

    /// The session has been initialised, which can be done only once.
    pub open spec fn initialized(self) -> bool {
        match self.stage {
            Stage::RegisteringEvent { .. } | Stage::Allocating { .. } | Stage::Registering { .. }
            | Stage::CreatingBitstream { .. } | Stage::Ready => true,
            _ => false,
        }
    }

    pub open spec fn inv(self) -> bool {
        &&& self.is_async ==> self.windows && self.initialized()
        &&& self.explicit ==> self.initialized()
        &&& match self.stage {
            Stage::Querying { is_async, .. } => is_async ==> self.windows,
            Stage::Initializing { is_async, .. } => is_async ==> self.windows,
            Stage::RegisteringEvent { index } => index < EVENT_COUNT && self.windows
                && !self.is_async,
            Stage::Allocating { slot } => slot < NVENC_INFLIGHT_SLOTS,
            Stage::Registering { slot } => slot < NVENC_INFLIGHT_SLOTS,
            Stage::CreatingBitstream { slot } => slot < NVENC_INFLIGHT_SLOTS,
            Stage::CreatingEvents | Stage::ClosingEvents { .. } | Stage::Reopening => self.windows,
            _ => true,
        }
    }

    pub open spec fn answers(self, reply: OpenReply) -> bool {
        match reply {
            OpenReply::Instance { .. } => self.stage is CreatingInstance,
            OpenReply::Session { .. } => self.stage is OpeningSession || self.stage is Reopening,
            OpenReply::Events { .. } => self.stage is CreatingEvents,
            OpenReply::EventsClosed => self.stage is ClosingEvents,
            OpenReply::Preset { filled, .. } => self.stage is Querying && filled@.len()
                == PRESET_CONFIG_BUF_BYTES,
            OpenReply::Initialized { .. } => self.stage is Initializing,
            OpenReply::EventRegistered { .. } => self.stage is RegisteringEvent,
            OpenReply::Slot { .. } => self.stage is Allocating,
            OpenReply::Registered { .. } => self.stage is Registering,
            OpenReply::Bitstream { .. } => self.stage is CreatingBitstream,
        }
    }

    pub open spec fn at(self, stage: Stage) -> OpenState {
        OpenState { stage, ..self }
    }

    pub open spec fn fail(self, error: EncodeInteropError) -> (OpenState, OpenCall) {
        (
            OpenState { is_async: false, explicit: false, ..self.at(Stage::Failed) },
            OpenCall::Failed { error, destroy_session: self.session_open() },
        )
    }

    pub open spec fn init_params(self, is_async: bool, preset: Preset, explicit: bool) -> InitParams {
        InitParams {
            version: high_word(self.api, 7),
            hevc: self.hevc,
            preset,
            width: self.width,
            height: self.height,
            dar_width: self.width,
            dar_height: self.height,
            max_encode_width: self.width,
            max_encode_height: self.height,
            frame_rate_num: self.frame_rate_num,
            frame_rate_den: self.frame_rate_den,
            enable_encode_async: if is_async { 1 } else { 0 },
            enable_ptd: 1,
            tuning_info: NV_ENC_TUNING_INFO_HIGH_QUALITY,
            explicit_config: explicit,
        }
    }

    pub open spec fn initialize(self, is_async: bool, preset: Preset, explicit: bool) -> (
        OpenState,
        OpenCall,
    ) {
        (
            self.at(Stage::Initializing { is_async, preset, explicit }),
            OpenCall::Initialize { params: self.init_params(is_async, preset, explicit) },
        )
    }

    /// Try a preset, with the driver's own configuration of it where it can be had.
    pub open spec fn try_preset(self, is_async: bool, preset: Preset) -> (OpenState, OpenCall) {
        if self.has_preset_query {
            (
                self.at(Stage::Querying { is_async, preset }),
                OpenCall::QueryPreset {
                    hevc: self.hevc,
                    preset,
                    tuning_info: NV_ENC_TUNING_INFO_HIGH_QUALITY,
                },
            )
        } else {
            self.initialize(is_async, preset, false)
        }
    }

    pub open spec fn open_session(self, stage: Stage) -> (OpenState, OpenCall) {
        (
            self.at(stage),
            OpenCall::OpenSession {
                version: struct_word(self.api, 1),
                device_type: NV_ENC_DEVICE_TYPE_CUDA,
                api_version: self.api,
            },
        )
    }

    pub open spec fn register_event(self, index: usize) -> (OpenState, OpenCall) {
        (
            self.at(Stage::RegisteringEvent { index }),
            OpenCall::RegisterEvent { index, version: struct_word(self.api, 2) },
        )
    }

    pub open spec fn close_events(self, unregister: usize, destroy: bool) -> (OpenState, OpenCall) {
        (
            OpenState { explicit: false, ..self.at(Stage::ClosingEvents { destroyed: destroy }) },
            OpenCall::CloseEvents { unregister, destroy_session: destroy },
        )
    }

    pub open spec fn allocate(self, slot: usize) -> (OpenState, OpenCall) {
        if slot < NVENC_INFLIGHT_SLOTS {
            (
                self.at(Stage::Allocating { slot }),
                OpenCall::AllocateSlot { slot, size: self.size },
            )
        } else {
            (self.at(Stage::Ready), OpenCall::Ready)
        }
    }

    /// The driver's configuration is laid out as assumed and may be patched.
    pub open spec fn config_usable(self, status: i32, filled: Seq<u8>) -> bool {
        status == NV_ENC_SUCCESS && le32(filled, PRESET_CFG_OFFSET as int) == high_word(self.api, 9)
    }

    /// What was asked for, and what follows from it alone, is the same in both.
    pub open spec fn same_request(self, other: OpenState) -> bool {
        &&& self.hevc == other.hevc
        &&& self.width == other.width
        &&& self.height == other.height
        &&& self.frame_rate_num == other.frame_rate_num
        &&& self.frame_rate_den == other.frame_rate_den
        &&& self.pitch == other.pitch
        &&& self.size == other.size
        &&& self.windows == other.windows
        &&& self.api == other.api
    }

    /// What follows the driver's answer.
    pub open spec fn after(self, reply: OpenReply) -> (OpenState, OpenCall) {
        match reply {
            OpenReply::Instance { status, has_open, has_preset_query } => {
                let next = OpenState { has_preset_query, ..self };
                if status != NV_ENC_SUCCESS || !has_open {
                    next.fail(EncodeInteropError::ApiLoad)
                } else {
                    next.open_session(Stage::OpeningSession)
                }
            },
            OpenReply::Session { status } => if status != NV_ENC_SUCCESS {
                self.fail(EncodeInteropError::SessionOpen(status))
            } else if self.stage is Reopening || !self.windows {
                self.try_preset(false, Preset::P4)
            } else {
                (
                    self.at(Stage::CreatingEvents),
                    OpenCall::CreateEvents { count: EVENT_COUNT },
                )
            },
            OpenReply::Events { created } => if created {
                self.try_preset(true, Preset::P4)
            } else {
                self.close_events(0, false)
            },
            OpenReply::EventsClosed => if self.session_open() {
                self.try_preset(false, Preset::P4)
            } else {
                self.open_session(Stage::Reopening)
            },
            OpenReply::Preset { status, filled } => match self.stage {
                Stage::Querying { is_async, preset } => self.initialize(
                    is_async,
                    preset,
                    self.config_usable(status, filled@),
                ),
                _ => (self, OpenCall::Ready),
            },
            OpenReply::Initialized { status } => match self.stage {
                Stage::Initializing { is_async, preset, explicit } => if status == NV_ENC_SUCCESS {
                    let next = OpenState { explicit, ..self };
                    if is_async {
                        next.register_event(0)
                    } else {
                        next.allocate(0)
                    }
                } else if explicit {
                    self.initialize(is_async, preset, false)
                } else if preset is P4 {
                    self.try_preset(is_async, Preset::P1)
                } else if is_async {
                    self.close_events(0, false)
                } else {
                    self.fail(EncodeInteropError::Initialize(status))
                },
                _ => (self, OpenCall::Ready),
            },
            OpenReply::EventRegistered { status } => match self.stage {
                Stage::RegisteringEvent { index } => if status != NV_ENC_SUCCESS {
                    self.close_events(index, true)
                } else if index + 1 < EVENT_COUNT {
                    self.register_event((index + 1) as usize)
                } else {
                    OpenState { is_async: true, ..self }.allocate(0)
                },
                _ => (self, OpenCall::Ready),
            },
            OpenReply::Slot { result } => match self.stage {
                Stage::Allocating { slot } => match result {
                    Ok(_) => (
                        self.at(Stage::Registering { slot }),
                        OpenCall::RegisterResource {
                            slot,
                            params: RegisterParams {
                                version: struct_word(self.api, 5),
                                resource_type: NV_ENC_INPUT_RESOURCE_TYPE_CUDADEVICEPTR,
                                width: self.width,
                                height: self.height,
                                pitch: self.pitch,
                                buffer_format: NV_ENC_BUFFER_FORMAT_NV12,
                                buffer_usage: NV_ENC_BUFFER_USAGE_INPUT_IMAGE,
                            },
                        },
                    ),
                    Err(e) => self.fail(EncodeInteropError::Cuda(e)),
                },
                _ => (self, OpenCall::Ready),
            },
            OpenReply::Registered { status } => match self.stage {
                Stage::Registering { slot } => if status != NV_ENC_SUCCESS {
                    self.fail(EncodeInteropError::Register(status))
                } else {
                    (
                        self.at(Stage::CreatingBitstream { slot }),
                        OpenCall::CreateBitstream { slot, version: struct_word(self.api, 1) },
                    )
                },
                _ => (self, OpenCall::Ready),
            },
            OpenReply::Bitstream { status } => match self.stage {
                Stage::CreatingBitstream { slot } => if status != NV_ENC_SUCCESS {
                    self.fail(EncodeInteropError::Initialize(status))
                } else {
                    self.allocate((slot + 1) as usize)
                },
                _ => (self, OpenCall::Ready),
            },
        }
    }
}

/// Where the opening of a session for `job` starts: the rows of the input are padded to
/// 256 bytes, and API version 12.2 is assumed of a driver that does not tell its own.
pub open spec fn start_of(
    job: ExportJob,
    codec: VideoCodec,
    driver_version: Option<(u32, u32)>,
    windows: bool,
) -> OpenState {
    let version = match driver_version {
        Some(v) => v,
        None => (12u32, 2u32),
    };
    let pitch = Nv12EncodeNode::rounded_up(job.width as int, 256);
    OpenState {
        hevc: codec is H265,
        width: job.width,
        height: job.height,
        frame_rate_num: job.frame_rate.num as u32,
        frame_rate_den: job.frame_rate.den as u32,
        pitch: pitch as u32,
        size: Nv12EncodeNode::size_of(job.height as int, pitch) as u64,
        windows,
        api: api_word(version.0, version.1),
        has_preset_query: false,
        is_async: false,
        explicit: false,
        stage: Stage::CreatingInstance,
    }
}

/// An NVENC session being opened.
pub struct SessionOpening {
    state: OpenState,
    /// The configuration the initialisation in progress, or the one that succeeded, uses.
    config: Option<PresetConfig>,
}

impl View for SessionOpening {
    type V = OpenState;

    closed spec fn view(&self) -> OpenState {
        self.state
    }
}

impl SessionOpening {
    /// The patched configuration in use, if any.
    pub closed spec fn config_bytes(&self) -> Option<Seq<u8>> {
        match self.config {
            Some(c) => Some(c.bytes()),
            None => None,
        }
    }

    /// The configuration is held exactly while and after an initialisation that passes it,
    /// and tells the encoder not to reorder.
    pub open spec fn inv(&self) -> bool {
        &&& self@.inv()
        &&& self@.stage matches Stage::Initializing { explicit, .. } ==> (explicit
            <==> self.config_bytes() is Some)
        &&& self@.initialized() ==> (self@.explicit <==> self.config_bytes() is Some)
        &&& self.config_bytes() matches Some(c) ==> le32(c, CFG_FRAME_INTERVAL_P_OFFSET as int) == 1
    }
}

impl EncodeInterop {
    /// Start opening a session for `job`.
    ///
    /// `driver_version` is the newest API version the driver supports, where it said so;
    /// 12.2 is assumed otherwise.
    pub fn open(
        job: &ExportJob,
        codec: VideoCodec,
        driver_version: Option<(u32, u32)>,
        windows: bool,
    ) -> (r: (SessionOpening, OpenCall))
        requires
            Nv12EncodeNode::rounded_up(job.width as int, 256) <= u32::MAX,
            Nv12EncodeNode::size_of(
                job.height as int,
                Nv12EncodeNode::rounded_up(job.width as int, 256),
            ) <= u64::MAX,
        ensures
            ({
                let (opening, call) = r;
                &&& opening.inv()
                &&& opening@ == start_of(*job, codec, driver_version, windows)
                &&& call == (OpenCall::CreateInstance { version: struct_word(opening@.api, 2) })
            }),
    {
        let (major, minor) = match driver_version {
            Some(v) => v,
            None => (12u32, 2u32),
        };
        let api: u32 = nvenc_api_version(major, minor);
        let pitch: u32 = Nv12EncodeNode::aligned_pitch(job.width);
        let state = OpenState {
            hevc: codec == VideoCodec::H265,
            width: job.width,
            height: job.height,
            frame_rate_num: job.frame_rate.num as u32,
            frame_rate_den: job.frame_rate.den as u32,
            pitch,
            size: Nv12EncodeNode::buffer_size(job.height, pitch),
            windows,
            api,
            has_preset_query: false,
            is_async: false,
            explicit: false,
            stage: Stage::CreatingInstance,
        };
        (
            SessionOpening { state, config: None },
            OpenCall::CreateInstance { version: nv_encode_api_function_list_ver(api) },
        )
    }
}

impl SessionOpening {
    /// The opening as it stands.
    pub fn state(&self) -> (r: OpenState)
        ensures
            r == self@,
    {
        self.state
    }

    /// The configuration to initialise with, where one is passed.
    pub fn config(&self) -> (r: Option<&PresetConfig>)
        ensures
            r is Some <==> self.config_bytes() is Some,
            r is Some ==> r->0.bytes() == self.config_bytes()->0,
    {
        match &self.config {
            Some(c) => Some(c),
            None => None,
        }
    }

    fn session_open(&self) -> (r: bool)
        ensures
            r == self@.session_open(),
    {
        match self.state.stage {
            Stage::CreatingInstance | Stage::OpeningSession | Stage::Reopening | Stage::Failed =>
                false,
            Stage::ClosingEvents { destroyed } => !destroyed,
            _ => true,
        }
    }

    fn fail(&mut self, error: EncodeInteropError) -> (r: OpenCall)
        ensures
            (final(self)@, r) == old(self)@.fail(error),
            final(self).config_bytes() == old(self).config_bytes(),
    {
        let destroy_session: bool = self.session_open();
        self.state.stage = Stage::Failed;
        self.state.is_async = false;
        self.state.explicit = false;
        OpenCall::Failed { error, destroy_session }
    }

    fn initialize(&mut self, is_async: bool, preset: Preset, explicit: bool) -> (r: OpenCall)
        ensures
            (final(self)@, r) == old(self)@.initialize(is_async, preset, explicit),
            final(self).config_bytes() == old(self).config_bytes(),
    {
        self.state.stage = Stage::Initializing { is_async, preset, explicit };
        let params = InitParams {
            version: nv_enc_initialize_params_ver(self.state.api),
            hevc: self.state.hevc,
            preset,
            width: self.state.width,
            height: self.state.height,
            dar_width: self.state.width,
            dar_height: self.state.height,
            max_encode_width: self.state.width,
            max_encode_height: self.state.height,
            frame_rate_num: self.state.frame_rate_num,
            frame_rate_den: self.state.frame_rate_den,
            enable_encode_async: if is_async { 1 } else { 0 },
            enable_ptd: 1,
            tuning_info: NV_ENC_TUNING_INFO_HIGH_QUALITY,
            explicit_config: explicit,
        };
        OpenCall::Initialize { params }
    }

    fn try_preset(&mut self, is_async: bool, preset: Preset) -> (r: OpenCall)
        ensures
            (final(self)@, r) == old(self)@.try_preset(is_async, preset),
            final(self).config_bytes() is None,
    {
        self.config = None;
        if self.state.has_preset_query {
            self.state.stage = Stage::Querying { is_async, preset };
            OpenCall::QueryPreset {
                hevc: self.state.hevc,
                preset,
                tuning_info: NV_ENC_TUNING_INFO_HIGH_QUALITY,
            }
        } else {
            self.initialize(is_async, preset, false)
        }
    }

    fn open_session(&mut self, stage: Stage) -> (r: OpenCall)
        ensures
            (final(self)@, r) == old(self)@.open_session(stage),
            final(self).config_bytes() == old(self).config_bytes(),
    {
        self.state.stage = stage;
        OpenCall::OpenSession {
            version: nv_enc_open_encode_session_ex_params_ver(self.state.api),
            device_type: NV_ENC_DEVICE_TYPE_CUDA,
            api_version: self.state.api,
        }
    }

    fn register_event(&mut self, index: usize) -> (r: OpenCall)
        ensures
            (final(self)@, r) == old(self)@.register_event(index),
            final(self).config_bytes() == old(self).config_bytes(),
    {
        self.state.stage = Stage::RegisteringEvent { index };
        OpenCall::RegisterEvent { index, version: nv_enc_event_params_ver(self.state.api) }
    }

    fn close_events(&mut self, unregister: usize, destroy: bool) -> (r: OpenCall)
        ensures
            (final(self)@, r) == old(self)@.close_events(unregister, destroy),
            final(self).config_bytes() == old(self).config_bytes(),
    {
        self.state.stage = Stage::ClosingEvents { destroyed: destroy };
        self.state.explicit = false;
        OpenCall::CloseEvents { unregister, destroy_session: destroy }
    }

    fn allocate(&mut self, slot: usize) -> (r: OpenCall)
        ensures
            (final(self)@, r) == old(self)@.allocate(slot),
            final(self).config_bytes() == old(self).config_bytes(),
    {
        if slot < NVENC_INFLIGHT_SLOTS {
            self.state.stage = Stage::Allocating { slot };
            OpenCall::AllocateSlot { slot, size: self.state.size }
        } else {
            self.state.stage = Stage::Ready;
            OpenCall::Ready
        }
    }

    /// Keep the driver's configuration, patched, if it is laid out as assumed.
    fn take_config(&mut self, status: i32, filled: Vec<u8>) -> (r: bool)
        requires
            filled@.len() == PRESET_CONFIG_BUF_BYTES,
        ensures
            final(self)@ == old(self)@,
            r == old(self)@.config_usable(status, filled@),
            r <==> final(self).config_bytes() is Some,
            final(self).config_bytes() matches Some(c) ==> stores_le32(
                filled@,
                c,
                CFG_FRAME_INTERVAL_P_OFFSET as int,
                1,
            ),
    {
        let mut config = PresetConfig::new(self.state.api);
        config.filled_by(filled);
        let usable: bool = status == NV_ENC_SUCCESS && config.preset_cfg_version_matches();
        if usable {
            config.set_frame_interval_p(1);
            self.config = Some(config);
        } else {
            self.config = None;
        }
        usable
    }

    /// Go on with a session that the driver initialised, or try what is left to try.
    fn initialized(&mut self, status: i32) -> (r: OpenCall)
        requires
            old(self).inv(),
            old(self)@.stage is Initializing,
        ensures
            final(self).inv(),
            (final(self)@, r) == old(self)@.after(OpenReply::Initialized { status }),
            final(self)@.initialized() ==> final(self).config_bytes() == old(self).config_bytes(),
    {
        if let Stage::Initializing { is_async, preset, explicit } = self.state.stage {
            if status == NV_ENC_SUCCESS {
                self.state.explicit = explicit;
                if is_async {
                    self.register_event(0)
                } else {
                    self.allocate(0)
                }
            } else if explicit {
                self.config = None;
                self.initialize(is_async, preset, false)
            } else if preset == Preset::P4 {
                self.try_preset(is_async, Preset::P1)
            } else if is_async {
                self.close_events(0, false)
            } else {
                self.fail(EncodeInteropError::Initialize(status))
            }
        } else {
            OpenCall::Ready
        }
    }

    /// Take the driver's answer and say what to ask next.
    pub fn resume(&mut self, reply: OpenReply) -> (r: OpenCall)
        requires
            old(self).inv(),
            old(self)@.answers(reply),
        ensures
            final(self).inv(),
            (final(self)@, r) == old(self)@.after(reply),
            final(self)@.same_request(old(self)@),
            match reply {
                OpenReply::Preset { status, filled } => match final(self).config_bytes() {
                    Some(config) => stores_le32(
                        filled@,
                        config,
                        CFG_FRAME_INTERVAL_P_OFFSET as int,
                        1,
                    ),
                    None => true,
                },
                _ => final(self)@.initialized() ==> final(self).config_bytes()
                    == old(self).config_bytes(),
            },
    {
        match reply {
            OpenReply::Instance { status, has_open, has_preset_query } => {
                self.state.has_preset_query = has_preset_query;
                if status != NV_ENC_SUCCESS || !has_open {
                    return self.fail(EncodeInteropError::ApiLoad);
                }
                self.open_session(Stage::OpeningSession)
            },
            OpenReply::Session { status } => {
                if status != NV_ENC_SUCCESS {
                    return self.fail(EncodeInteropError::SessionOpen(status));
                }
                if self.state.stage == Stage::Reopening || !self.state.windows {
                    self.try_preset(false, Preset::P4)
                } else {
                    self.state.stage = Stage::CreatingEvents;
                    OpenCall::CreateEvents { count: EVENT_COUNT }
                }
            },
            OpenReply::Events { created } => {
                if created {
                    self.try_preset(true, Preset::P4)
                } else {
                    self.close_events(0, false)
                }
            },
            OpenReply::EventsClosed => {
                if self.session_open() {
                    self.try_preset(false, Preset::P4)
                } else {
                    self.open_session(Stage::Reopening)
                }
            },
            OpenReply::Preset { status, filled } => {
                if let Stage::Querying { is_async, preset } = self.state.stage {
                    let usable: bool = self.take_config(status, filled);
                    self.initialize(is_async, preset, usable)
                } else {
                    OpenCall::Ready
                }
            },
            OpenReply::Initialized { status } => self.initialized(status),
            OpenReply::EventRegistered { status } => {
                if let Stage::RegisteringEvent { index } = self.state.stage {
                    if status != NV_ENC_SUCCESS {
                        self.close_events(index, true)
                    } else if index + 1 < EVENT_COUNT {
                        self.register_event(index + 1)
                    } else {
                        self.state.is_async = true;
                        self.allocate(0)
                    }
                } else {
                    OpenCall::Ready
                }
            },
            OpenReply::Slot { result } => {
                if let Stage::Allocating { slot } = self.state.stage {
                    match result {
                        Ok(_) => {
                            self.state.stage = Stage::Registering { slot };
                            let params = RegisterParams {
                                version: nv_enc_register_resource_ver(self.state.api),
                                resource_type: NV_ENC_INPUT_RESOURCE_TYPE_CUDADEVICEPTR,
                                width: self.state.width,
                                height: self.state.height,
                                pitch: self.state.pitch,
                                buffer_format: NV_ENC_BUFFER_FORMAT_NV12,
                                buffer_usage: NV_ENC_BUFFER_USAGE_INPUT_IMAGE,
                            };
                            OpenCall::RegisterResource { slot, params }
                        },
                        Err(e) => self.fail(EncodeInteropError::Cuda(e)),
                    }
                } else {
                    OpenCall::Ready
                }
            },
            OpenReply::Registered { status } => {
                if let Stage::Registering { slot } = self.state.stage {
                    if status != NV_ENC_SUCCESS {
                        return self.fail(EncodeInteropError::Register(status));
                    }
                    self.state.stage = Stage::CreatingBitstream { slot };
                    OpenCall::CreateBitstream {
                        slot,
                        version: nv_enc_create_bitstream_buffer_ver(self.state.api),
                    }
                } else {
                    OpenCall::Ready
                }
            },
            OpenReply::Bitstream { status } => {
                if let Stage::CreatingBitstream { slot } = self.state.stage {
                    if status != NV_ENC_SUCCESS {
                        return self.fail(EncodeInteropError::Initialize(status));
                    }
                    self.allocate(slot + 1)
                } else {
                    OpenCall::Ready
                }
            },
        }
    }

    /// The session, once everything is set up: `slots` are the buffers that were set up, in
    /// order, and `eos_event` is the event of the end of the stream.
    ///
    /// Frames cannot be reordered if and only if the driver accepted the patched
    /// configuration.
    pub fn session(self, slots: Vec<EncodeSlot>, eos_event: u64) -> (r: EncodeInterop)
        requires
            self.inv(),
            self@.stage is Ready,
            slots@.len() == NVENC_INFLIGHT_SLOTS,
        ensures
            r@ == SessionState::just_opened(
                self@.width,
                self@.height,
                self@.pitch,
                self@.api,
                self@.is_async,
                slots@,
                eos_event,
            ),
            r@.inv(),
            r.reorder_off() == (self.config_bytes() is Some),
            r.reorder_off() == self@.explicit,
    {
        EncodeInterop::opened(
            self.state.width,
            self.state.height,
            self.state.pitch,
            self.state.api,
            self.state.is_async,
            self.config.is_some(),
            slots,
            eos_event,
        )
    }
}

/// Steps left at most.
pub open spec fn steps_left(stage: Stage) -> int {
    match stage {
        Stage::CreatingInstance => 100,
        Stage::OpeningSession => 90,
        Stage::CreatingEvents => 85,
        Stage::Querying { is_async, preset } => (if is_async { 80int } else { 50 }) - (
        if preset is P4 { 0int } else { 3 }),
        Stage::Initializing { is_async, preset, explicit } => (if is_async { 79int } else { 49 })
            - (if preset is P4 { 0int } else { 3 }) - (if explicit { 0int } else { 1 }),
        Stage::RegisteringEvent { index } => 70 - index,
        Stage::ClosingEvents { .. } => 60,
        Stage::Reopening => 55,
        Stage::Allocating { slot } => 40 - 3 * slot,
        Stage::Registering { slot } => 39 - 3 * slot,
        Stage::CreatingBitstream { slot } => 38 - 3 * slot,
        Stage::Ready | Stage::Failed => 0,
    }
}

/// Whatever the driver answers, the opening comes to an end: every answer leaves fewer
/// steps than before.
pub proof fn law_opening_ends(s: OpenState, reply: OpenReply)
    requires
        s.inv(),
        s.answers(reply),
    ensures
        0 <= steps_left(s.after(reply).0.stage) < steps_left(s.stage),
{
}

/// A failed opening leaves no session behind: the session is destroyed if and only if one
/// was open.
pub proof fn law_failed_opening_leaves_no_session(s: OpenState, reply: OpenReply)
    requires
        s.inv(),
        s.answers(reply),
        s.after(reply).1 is Failed,
    ensures
        s.after(reply).1->Failed_destroy_session <==> s.session_open(),
        !s.after(reply).0.session_open(),
        s.after(reply).0.stage is Failed,
{
}

/// A session is initialised in asynchronous mode only on Windows, and works in it only
/// once all of its events are registered; if one cannot be, the session is destroyed and a
/// new one opened.
pub proof fn law_async_needs_every_event(s: OpenState, reply: OpenReply)
    requires
        s.inv(),
        s.answers(reply),
    ensures
        s.after(reply).0.is_async && !s.is_async ==> s.windows && s.stage
            == (Stage::RegisteringEvent { index: (EVENT_COUNT - 1) as usize })
            && reply == (OpenReply::EventRegistered { status: NV_ENC_SUCCESS }),
        s.stage matches Stage::RegisteringEvent { index } ==> (reply->EventRegistered_status
            != NV_ENC_SUCCESS ==> s.after(reply).1 == (OpenCall::CloseEvents {
            unregister: index,
            destroy_session: true,
        })),
{
}

/// The opening after a run of the driver's answers.
pub open spec fn opened_by(s: OpenState, replies: Seq<OpenReply>) -> OpenState
    decreases replies.len(),
{
    if replies.len() == 0 {
        s
    } else {
        opened_by(s, replies.drop_last()).after(replies.last()).0
    }
}

/// Each of the answers is one to the call before it.
pub open spec fn all_answer(s: OpenState, replies: Seq<OpenReply>) -> bool
    decreases replies.len(),
{
    replies.len() > 0 ==> {
        &&& all_answer(s, replies.drop_last())
        &&& opened_by(s, replies.drop_last()).answers(replies.last())
    }
}

/// From its start to its end the opening is of one and the same session: nothing that was
/// asked for changes, whatever the driver answers.
pub proof fn law_opening_keeps_the_request(s: OpenState, replies: Seq<OpenReply>)
    requires
        s.inv(),
        all_answer(s, replies),
    ensures
        opened_by(s, replies).inv(),
        opened_by(s, replies).same_request(s),
    decreases replies.len(),
{
    if replies.len() > 0 {
        law_opening_keeps_the_request(s, replies.drop_last());
    }
}

/// The session that an opening for `job` ends in is the job's: its size, its codec, the
/// padded rows of its width, the driver's API version, and asynchronous only on Windows.
pub proof fn law_session_is_the_jobs(
    job: ExportJob,
    codec: VideoCodec,
    driver_version: Option<(u32, u32)>,
    windows: bool,
    replies: Seq<OpenReply>,
)
    requires
        Nv12EncodeNode::rounded_up(job.width as int, 256) <= u32::MAX,
        all_answer(start_of(job, codec, driver_version, windows), replies),
    ensures
        ({
            let end = opened_by(start_of(job, codec, driver_version, windows), replies);
            &&& end.inv()
            &&& end.width == job.width
            &&& end.height == job.height
            &&& end.hevc <==> codec is H265
            &&& end.pitch == Nv12EncodeNode::rounded_up(job.width as int, 256)
            &&& driver_version matches Some(v) ==> end.api == api_word(v.0, v.1)
            &&& driver_version is None ==> end.api == api_word(12, 2)
            &&& end.is_async ==> windows
        }),
{
    law_opening_keeps_the_request(start_of(job, codec, driver_version, windows), replies);
}

/// Whatever is tried, it is an encoder of the codec and the size asked for, and it is told
/// whether the patched configuration is passed.
pub proof fn law_every_attempt_is_of_the_request(s: OpenState, reply: OpenReply)
    requires
        s.inv(),
        s.answers(reply),
        s.after(reply).1 is Initialize,
    ensures
        ({
            let (next, call) = s.after(reply);
            let params = call->Initialize_params;
            &&& params.hevc == s.hevc
            &&& (params.width, params.height) == (s.width, s.height)
            &&& (params.frame_rate_num, params.frame_rate_den) == (
                s.frame_rate_num,
                s.frame_rate_den,
            )
            &&& next.stage matches Stage::Initializing { explicit, .. } && params.explicit_config
                == explicit
        }),
{
}

/// A session counts as one that does not reorder if and only if the driver accepted an
/// initialisation that passed the patched configuration, and until the session is given
/// up.
pub proof fn law_explicit_is_what_was_accepted(s: OpenState, reply: OpenReply)
    requires
        s.inv(),
        s.answers(reply),
    ensures
        s.after(reply).0.explicit <==> {
            ||| s.explicit && s.after(reply).0.initialized()
            ||| reply == (OpenReply::Initialized { status: NV_ENC_SUCCESS })
                && s.stage->Initializing_explicit
        },
{
}

/// With a configuration in use, the encoder is told not to reorder: every P-frame follows
/// the one before, and the packets come out in the order the frames went in.
pub proof fn law_explicit_config_pins_the_order(filled: Seq<u8>, config: Seq<u8>)
    requires
        filled.len() == PRESET_CONFIG_BUF_BYTES,
        stores_le32(filled, config, CFG_FRAME_INTERVAL_P_OFFSET as int, 1),
    ensures
        le32(config, CFG_FRAME_INTERVAL_P_OFFSET as int) == 1,
        le32(config, PRESET_CFG_OFFSET as int) == le32(filled, PRESET_CFG_OFFSET as int),
{
}

/// Where an opening starts: with the job's extent and rate, rows padded to the next multiple
/// of 256, room for one and a half planes of them, and the driver's own API version or 12.2.
pub proof fn law_an_opening_starts_with_the_job(
    job: ExportJob,
    codec: VideoCodec,
    driver_version: Option<(u32, u32)>,
    windows: bool,
)
    requires
        0 < job.frame_rate.num <= u32::MAX,
        0 < job.frame_rate.den <= u32::MAX,
        job.width <= 0xFFFF,
        job.height <= 0xFFFF,
    ensures
        ({
            let start = start_of(job, codec, driver_version, windows);
            &&& start.width == job.width && start.height == job.height
            &&& start.frame_rate_num == job.frame_rate.num
            &&& start.frame_rate_den == job.frame_rate.den
            &&& start.hevc <==> codec is H265
            &&& start.windows == windows
            &&& start.pitch % 256 == 0
            &&& job.width <= start.pitch < job.width + 256
            &&& job.height % 2 == 0 ==> 2 * start.size == 3 * (start.pitch * job.height)
            &&& start.stage is CreatingInstance
            &&& !start.is_async && !start.explicit && !start.has_preset_query
            &&& driver_version is None ==> start.api == 12 | (2u32 << 24)
            &&& driver_version matches Some(v) ==> start.api == v.0 | (v.1 << 24)
        }),
{
    let (w, h) = (job.width as int, job.height as int);
    let pitch = Nv12EncodeNode::rounded_up(w, 256);
    lemma_padded_rows(w, h);
}

proof fn lemma_padded_rows(w: int, h: int)
    requires
        0 <= w <= 0xFFFF,
        0 <= h <= 0xFFFF,
    ensures
        ({
            let pitch = Nv12EncodeNode::rounded_up(w, 256);
            let size = Nv12EncodeNode::size_of(h, pitch);
            &&& pitch % 256 == 0
            &&& w <= pitch < w + 256
            &&& 0 <= size <= u64::MAX
            &&& h % 2 == 0 ==> 2 * size == 3 * (pitch * h)
        }),
{
    crate::arith::lemma_ceil_div(w, 256);
    crate::arith::lemma_ceil_div(h, 2);
    crate::interop::nv12_encode::law_planes_fill_the_buffer(
        h,
        Nv12EncodeNode::rounded_up(w, 256),
    );
    let pitch = Nv12EncodeNode::rounded_up(w, 256);
    let half = crate::arith::ceil_div(h, 2);
    assert(0 <= pitch * h <= 0x2_0000 * 0x1_0000) by (nonlinear_arith)
        requires
            0 <= pitch <= 0x2_0000,
            0 <= h <= 0x1_0000,
    ;
    assert(0 <= pitch * half <= 0x2_0000 * 0x1_0000) by (nonlinear_arith)
        requires
            0 <= pitch <= 0x2_0000,
            0 <= half <= 0x1_0000,
    ;
    if h % 2 == 0 {
        assert(2 * half == h);
        assert(2 * (pitch * half) == pitch * h) by (nonlinear_arith)
            requires
                2 * half == h,
        ;
    }
}

/// The order of an opening, and what each refusal leads to.  On Windows the session is first
/// tried with events, of which there is one for each of four slots and one for the end; without
/// them, and elsewhere, it is tried without.  Of the presets P4 comes before P1, and each is
/// tried with the driver's configuration where that can be had and read, and then without.
/// Initialised, the session gets four slots, each with a buffer, a registration and a
/// bitstream.
pub proof fn law_everything_is_tried_in_order(s: OpenState, reply: OpenReply)
    requires
        s.inv(),
        s.answers(reply),
    ensures
        ({
            let (after, call) = s.after(reply);
            match reply {
                OpenReply::Instance { status, has_open, has_preset_query } => {
                    &&& after.has_preset_query == has_preset_query
                    &&& call is OpenSession <==> status == 0 && has_open
                    &&& call is OpenSession ==> {
                        &&& after.stage is OpeningSession
                        &&& call->device_type == 1
                        &&& call->api_version == s.api
                    }
                    &&& !(call is OpenSession) ==> call is Failed && call->error is ApiLoad
                },
                OpenReply::Session { status } => {
                    let events = s.windows && s.stage is OpeningSession;
                    &&& status != 0 ==> call is Failed && call->error
                        == EncodeInteropError::SessionOpen(status)
                    &&& status == 0 && events ==> call == (OpenCall::CreateEvents { count: 5 })
                        && after.stage is CreatingEvents
                    &&& status == 0 && !events ==> tries(s, false, Preset::P4, after, call)
                },
                OpenReply::Events { created } => {
                    &&& created ==> tries(s, true, Preset::P4, after, call)
                    &&& !created ==> call == (OpenCall::CloseEvents {
                        unregister: 0,
                        destroy_session: false,
                    })
                },
                OpenReply::EventsClosed => if s.stage == (Stage::ClosingEvents {
                    destroyed: true,
                }) {
                    call is OpenSession && after.stage is Reopening
                } else {
                    tries(s, false, Preset::P4, after, call)
                },
                OpenReply::Preset { status, filled } => {
                    let readable = status == 0 && le32(filled@, 8) == high_word(s.api, 9);
                    &&& call is Initialize
                    &&& call->Initialize_params.explicit_config <==> readable
                    &&& call->Initialize_params.preset == s.stage->Querying_preset
                    &&& call->Initialize_params.enable_encode_async == if s.stage->Querying_is_async {
                        1u32
                    } else {
                        0
                    }
                },
                OpenReply::Initialized { status } => {
                    let (is_async, preset, explicit) = (
                        s.stage->Initializing_is_async,
                        s.stage->Initializing_preset,
                        s.stage->Initializing_explicit,
                    );
                    &&& status == 0 && is_async ==> call is RegisterEvent
                        && call->RegisterEvent_index == 0
                    &&& status == 0 && !is_async ==> call is AllocateSlot
                        && call->AllocateSlot_slot == 0
                    &&& status == 0 ==> after.explicit == explicit
                    &&& status != 0 && explicit ==> {
                        &&& call is Initialize
                        &&& call->Initialize_params.preset == preset
                        &&& !call->Initialize_params.explicit_config
                        &&& call->Initialize_params.enable_encode_async == if is_async {
                            1u32
                        } else {
                            0
                        }
                    }
                    &&& status != 0 && !explicit && preset is P4 ==> tries(
                        s,
                        is_async,
                        Preset::P1,
                        after,
                        call,
                    )
                    &&& status != 0 && !explicit && preset is P1 && is_async ==> call == (
                    OpenCall::CloseEvents { unregister: 0, destroy_session: false })
                    &&& status != 0 && !explicit && preset is P1 && !is_async ==> call is Failed
                        && call->error == EncodeInteropError::Initialize(status)
                },
                OpenReply::EventRegistered { status } => {
                    let index = s.stage->RegisteringEvent_index;
                    &&& status == 0 && index < 4 ==> call is RegisterEvent
                        && call->RegisterEvent_index == index + 1
                    &&& status == 0 && index == 4 ==> call is AllocateSlot
                        && call->AllocateSlot_slot == 0 && after.is_async
                },
                OpenReply::Slot { result } => {
                    let slot = s.stage->Allocating_slot;
                    &&& result is Ok ==> {
                        &&& call is RegisterResource
                        &&& call->RegisterResource_slot == slot
                        &&& call->RegisterResource_params.width == s.width
                        &&& call->RegisterResource_params.height == s.height
                        &&& call->RegisterResource_params.pitch == s.pitch
                        &&& call->RegisterResource_params.buffer_format == 1
                        &&& call->RegisterResource_params.resource_type == 1
                        &&& call->RegisterResource_params.buffer_usage == 0
                        &&& after.stage == (Stage::Registering { slot })
                    }
                    &&& result matches Err(e) ==> call is Failed && call->error
                        == EncodeInteropError::Cuda(e)
                },
                OpenReply::Registered { status } => {
                    let slot = s.stage->Registering_slot;
                    &&& status == 0 ==> call is CreateBitstream && call->CreateBitstream_slot
                        == slot && after.stage == (Stage::CreatingBitstream { slot })
                    &&& status != 0 ==> call is Failed && call->error
                        == EncodeInteropError::Register(status)
                },
                OpenReply::Bitstream { status } => {
                    let slot = s.stage->CreatingBitstream_slot;
                    &&& status == 0 && slot < 3 ==> {
                        &&& call is AllocateSlot
                        &&& call->AllocateSlot_slot == slot + 1
                        &&& call->AllocateSlot_size == s.size
                    }
                    &&& status == 0 && slot == 3 ==> call is Ready && after.stage is Ready
                    &&& status != 0 ==> call is Failed && call->error
                        == EncodeInteropError::Initialize(status)
                },
            }
        }),
{
}

/// The preset is tried: the driver is asked for its configuration where it can be, and the
/// encoder is initialised without one where it cannot.
pub open spec fn tries(
    s: OpenState,
    is_async: bool,
    preset: Preset,
    after: OpenState,
    call: OpenCall,
) -> bool {
    if s.has_preset_query {
        &&& call is QueryPreset
        &&& call->QueryPreset_hevc == s.hevc
        &&& call->QueryPreset_preset == preset
        &&& call->QueryPreset_tuning_info == 1
        &&& after.stage == (Stage::Querying { is_async, preset })
    } else {
        &&& call is Initialize
        &&& call->Initialize_params.preset == preset
        &&& !call->Initialize_params.explicit_config
        &&& call->Initialize_params.enable_encode_async == if is_async { 1u32 } else { 0 }
        &&& after.stage == (Stage::Initializing { is_async, preset, explicit: false })
    }
}

/// An encoder is initialised for frames of the request, shown as they are stored, with the
/// picture type decided by the driver and tuned for quality.
pub proof fn law_initialisation_is_of_the_request(
    s: OpenState,
    is_async: bool,
    preset: Preset,
    explicit: bool,
)
    ensures
        ({
            let params = s.init_params(is_async, preset, explicit);
            &&& params.hevc == s.hevc
            &&& params.preset == preset
            &&& params.width == s.width && params.height == s.height
            &&& params.dar_width == s.width && params.dar_height == s.height
            &&& params.max_encode_width == s.width && params.max_encode_height == s.height
            &&& params.frame_rate_num == s.frame_rate_num
            &&& params.frame_rate_den == s.frame_rate_den
            &&& params.enable_encode_async == 1 <==> is_async
            &&& params.enable_encode_async == 0 <==> !is_async
            &&& params.enable_ptd == 1
            &&& params.tuning_info == 1
            &&& params.explicit_config == explicit
        }),
{
}

/// A failed opening has the session destroyed exactly where one was opened: in every failure
/// but that of the function table and that of the opening itself.  A session of which an event
/// could not be registered is destroyed too, after the events that were are unregistered, and
/// another one is opened without events.
pub proof fn law_what_was_opened_is_destroyed(s: OpenState, reply: OpenReply)
    requires
        s.inv(),
        s.answers(reply),
    ensures
        ({
            let (after, call) = s.after(reply);
            &&& call is Failed ==> {
                &&& call->Failed_destroy_session <==> !(reply is Instance) && !(reply is Session)
                &&& after.stage is Failed
                &&& !after.is_async && !after.explicit
            }
            &&& reply matches OpenReply::EventRegistered { status } ==> status != 0 ==> {
                &&& call == (OpenCall::CloseEvents {
                    unregister: s.stage->RegisteringEvent_index,
                    destroy_session: true,
                })
                &&& after.stage == (Stage::ClosingEvents { destroyed: true })
            }
            &&& reply matches OpenReply::Events { created } ==> !created ==> after.stage == (
            Stage::ClosingEvents { destroyed: false })
            &&& reply is Initialized && call is CloseEvents ==> after.stage == (
            Stage::ClosingEvents { destroyed: false })
        }),
{
}

} // verus!
