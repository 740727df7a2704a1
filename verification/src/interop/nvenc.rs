//! The NVENC API's vocabulary: status codes, version words and the preset configuration.
use vstd::prelude::*;

verus! {

pub const NV_ENC_SUCCESS: i32 = 0;

/// The picture was accepted but the encoder is reordering and has no bitstream yet.
pub const NV_ENC_ERR_NEED_MORE_INPUT: i32 = 17;

pub const NV_ENC_ERR_INVALID_PTR: i32 = 6;

pub const NV_ENC_ERR_INVALID_PARAM: i32 = 8;

pub const NV_ENC_ERR_INVALID_CALL: i32 = 9;

/// Also what the driver reports when the session's CUDA context is gone.
pub const NV_ENC_ERR_OUT_OF_MEMORY: i32 = 10;

pub const NV_ENC_ERR_ENCODER_NOT_INITIALIZED: i32 = 11;

pub const NV_ENC_ERR_UNSUPPORTED_PARAM: i32 = 12;

pub const NV_ENC_ERR_INVALID_VERSION: i32 = 15;

pub const NV_ENC_ERR_MAP_FAILED: i32 = 16;

pub const NV_ENC_ERR_GENERIC: i32 = 20;

pub const NV_ENC_PIC_FLAG_FORCEINTRA: u32 = 0x0000_0001;

pub const NV_ENC_PIC_FLAG_FORCEIDR: u32 = 0x0000_0002;

pub const NV_ENC_PIC_FLAG_OUTPUT_SPSPPS: u32 = 0x0000_0004;

/// End of stream: the picture carries no input, everything held is to be output.
pub const NV_ENC_PIC_FLAG_EOS: u32 = 0x0000_0008;

pub const NV_ENC_PIC_TYPE_P: u32 = 0;

pub const NV_ENC_PIC_TYPE_B: u32 = 1;

pub const NV_ENC_PIC_TYPE_I: u32 = 2;

pub const NV_ENC_PIC_TYPE_IDR: u32 = 3;

pub const NV_ENC_DEVICE_TYPE_CUDA: u32 = 1;

pub const NV_ENC_INPUT_RESOURCE_TYPE_CUDAARRAY: u32 = 0x0000_0002;

/// Buffer formats are bit flags, not a counter.
pub const NV_ENC_BUFFER_FORMAT_ABGR10: u32 = 0x2000_0000;

pub const NV_ENC_BUFFER_FORMAT_ABGR: u32 = 0x1000_0000;

pub const NV_ENC_BUFFER_FORMAT_ARGB10: u32 = 0x0200_0000;

pub const NV_ENC_BUFFER_FORMAT_UNDEFINED: u32 = 0x0000_0000;

pub const NV_ENC_TUNING_INFO_UNDEFINED: u32 = 0;

pub const NV_ENC_TUNING_INFO_HIGH_QUALITY: u32 = 1;

pub const NV_ENC_TUNING_INFO_LOW_LATENCY: u32 = 2;

pub const NV_ENC_TUNING_INFO_ULTRA_LOW_LATENCY: u32 = 3;

pub const NV_ENC_TUNING_INFO_LOSSLESS: u32 = 4;

/// A group of pictures without end: intra frames only on demand.
pub const NV_ENC_INFINITE_GOPLENGTH: u32 = 0xFFFF_FFFF;

/// The vendor's name of a status code.
pub open spec fn status_name(status: int) -> Seq<char> {
        if status == 0 {
            "NV_ENC_SUCCESS"@
        } else if status == 1 {
            "NV_ENC_ERR_NO_ENCODE_DEVICE"@
        } else if status == 2 {
            "NV_ENC_ERR_UNSUPPORTED_DEVICE"@
        } else if status == 3 {
            "NV_ENC_ERR_INVALID_ENCODERDEVICE"@
        } else if status == 4 {
            "NV_ENC_ERR_INVALID_DEVICE"@
        } else if status == 5 {
            "NV_ENC_ERR_DEVICE_NOT_EXIST"@
        } else if status == 6 {
            "NV_ENC_ERR_INVALID_PTR"@
        } else if status == 7 {
            "NV_ENC_ERR_INVALID_EVENT"@
        } else if status == 8 {
            "NV_ENC_ERR_INVALID_PARAM"@
        } else if status == 9 {
            "NV_ENC_ERR_INVALID_CALL"@
        } else if status == 10 {
            "NV_ENC_ERR_OUT_OF_MEMORY"@
        } else if status == 11 {
            "NV_ENC_ERR_ENCODER_NOT_INITIALIZED"@
        } else if status == 12 {
            "NV_ENC_ERR_UNSUPPORTED_PARAM"@
        } else if status == 13 {
            "NV_ENC_ERR_LOCK_BUSY"@
        } else if status == 14 {
            "NV_ENC_ERR_NOT_ENOUGH_BUFFER"@
        } else if status == 15 {
            "NV_ENC_ERR_INVALID_VERSION"@
        } else if status == 16 {
            "NV_ENC_ERR_MAP_FAILED"@
        } else if status == 17 {
            "NV_ENC_ERR_NEED_MORE_INPUT"@
        } else if status == 18 {
            "NV_ENC_ERR_ENCODER_BUSY"@
        } else if status == 19 {
            "NV_ENC_ERR_EVENT_NOT_REGISTERD"@
        } else if status == 20 {
            "NV_ENC_ERR_GENERIC"@
        } else if status == 21 {
            "NV_ENC_ERR_INCOMPATIBLE_CLIENT_KEY"@
        } else if status == 22 {
            "NV_ENC_ERR_UNIMPLEMENTED"@
        } else {
            "NV_ENC_ERR_<unknown>"@
        }
}

/// The vendor's name of a status code.
pub fn nvenc_status_str(status: i32) -> (r: &'static str)
    ensures
        r@ == status_name(status as int),
{
    match status {
        0 => "NV_ENC_SUCCESS",
        1 => "NV_ENC_ERR_NO_ENCODE_DEVICE",
        2 => "NV_ENC_ERR_UNSUPPORTED_DEVICE",
        3 => "NV_ENC_ERR_INVALID_ENCODERDEVICE",
        4 => "NV_ENC_ERR_INVALID_DEVICE",
        5 => "NV_ENC_ERR_DEVICE_NOT_EXIST",
        6 => "NV_ENC_ERR_INVALID_PTR",
        7 => "NV_ENC_ERR_INVALID_EVENT",
        8 => "NV_ENC_ERR_INVALID_PARAM",
        9 => "NV_ENC_ERR_INVALID_CALL",
        10 => "NV_ENC_ERR_OUT_OF_MEMORY",
        11 => "NV_ENC_ERR_ENCODER_NOT_INITIALIZED",
        12 => "NV_ENC_ERR_UNSUPPORTED_PARAM",
        13 => "NV_ENC_ERR_LOCK_BUSY",
        14 => "NV_ENC_ERR_NOT_ENOUGH_BUFFER",
        15 => "NV_ENC_ERR_INVALID_VERSION",
        16 => "NV_ENC_ERR_MAP_FAILED",
        17 => "NV_ENC_ERR_NEED_MORE_INPUT",
        18 => "NV_ENC_ERR_ENCODER_BUSY",
        19 => "NV_ENC_ERR_EVENT_NOT_REGISTERD",
        20 => "NV_ENC_ERR_GENERIC",
        21 => "NV_ENC_ERR_INCOMPATIBLE_CLIENT_KEY",
        22 => "NV_ENC_ERR_UNIMPLEMENTED",
        _ => "NV_ENC_ERR_<unknown>",
    }
}

pub open spec fn is_keyframe(picture_type: u32) -> bool {
    picture_type == NV_ENC_PIC_TYPE_I || picture_type == NV_ENC_PIC_TYPE_IDR
}

/// Whether a picture of this type can be decoded on its own.
pub fn nv_enc_pic_type_is_keyframe(picture_type: u32) -> (r: bool)
    ensures
        r == is_keyframe(picture_type),
{
    picture_type == NV_ENC_PIC_TYPE_I || picture_type == NV_ENC_PIC_TYPE_IDR
}

pub open spec fn api_word(major: u32, minor: u32) -> u32 {
    major | (minor << 24)
}

/// `NVENCAPI_VERSION`: the minor version sits in the top byte.
pub fn nvenc_api_version(major: u32, minor: u32) -> (r: u32)
    ensures
        r == api_word(major, minor),
{
    major | (minor << 24)
}

pub open spec fn struct_word(api: u32, struct_ver: u32) -> u32 {
    api | (struct_ver << 16) | (0x7u32 << 28)
}

/// `NVENCAPI_STRUCT_VERSION`: the API word, the struct's own version and the magic nibble.
pub fn nvenc_struct_version(api_version: u32, struct_ver: u32) -> (r: u32)
    ensures
        r == struct_word(api_version, struct_ver),
{
    api_version | (struct_ver << 16) | (0x7u32 << 28)
}

pub open spec fn high_word(api: u32, struct_ver: u32) -> u32 {
    struct_word(api, struct_ver) | (1u32 << 31)
}

/// Some structs carry the top bit of their version word as well.
pub fn with_high_bit(v: u32) -> (r: u32)
    ensures
        r == v | (1u32 << 31),
{
    v | (1u32 << 31)
}

/// Version word of `NV_ENCODE_API_FUNCTION_LIST`.
pub fn nv_encode_api_function_list_ver(api: u32) -> (r: u32)
    ensures
        r == struct_word(api, 2),
{
    nvenc_struct_version(api, 2)
}

/// Version word of `NV_ENC_OPEN_ENCODE_SESSION_EX_PARAMS`.
pub fn nv_enc_open_encode_session_ex_params_ver(api: u32) -> (r: u32)
    ensures
        r == struct_word(api, 1),
{
    nvenc_struct_version(api, 1)
}

/// Version word of `NV_ENC_INITIALIZE_PARAMS`.
pub fn nv_enc_initialize_params_ver(api: u32) -> (r: u32)
    ensures
        r == high_word(api, 7),
{
    with_high_bit(nvenc_struct_version(api, 7))
}

/// Version word of `NV_ENC_REGISTER_RESOURCE`.
pub fn nv_enc_register_resource_ver(api: u32) -> (r: u32)
    ensures
        r == struct_word(api, 5),
{
    nvenc_struct_version(api, 5)
}

/// Version word of `NV_ENC_MAP_INPUT_RESOURCE`.
pub fn nv_enc_map_input_resource_ver(api: u32) -> (r: u32)
    ensures
        r == struct_word(api, 4),
{
    nvenc_struct_version(api, 4)
}

/// Version word of `NV_ENC_PIC_PARAMS`.
pub fn nv_enc_pic_params_ver(api: u32) -> (r: u32)
    ensures
        r == high_word(api, 7),
{
    with_high_bit(nvenc_struct_version(api, 7))
}

/// Version word of `NV_ENC_LOCK_BITSTREAM`.
pub fn nv_enc_lock_bitstream_ver(api: u32) -> (r: u32)
    ensures
        r == high_word(api, 2),
{
    with_high_bit(nvenc_struct_version(api, 2))
}

/// Version word of `NV_ENC_CREATE_BITSTREAM_BUFFER`.
pub fn nv_enc_create_bitstream_buffer_ver(api: u32) -> (r: u32)
    ensures
        r == struct_word(api, 1),
{
    nvenc_struct_version(api, 1)
}

/// Version word of `NV_ENC_EVENT_PARAMS`.
pub fn nv_enc_event_params_ver(api: u32) -> (r: u32)
    ensures
        r == struct_word(api, 2),
{
    nvenc_struct_version(api, 2)
}

/// Version word of `NV_ENC_CONFIG`.
pub fn nv_enc_config_ver(api: u32) -> (r: u32)
    ensures
        r == high_word(api, 9),
{
    with_high_bit(nvenc_struct_version(api, 9))
}

/// Version word of `NV_ENC_PRESET_CONFIG`.
pub fn nv_enc_preset_config_ver(api: u32) -> (r: u32)
    ensures
        r == high_word(api, 5),
{
    with_high_bit(nvenc_struct_version(api, 5))
}

/// A version word gives back what went into it: the API's major version in the low
/// half, the struct's version above it, then the API's minor version and the magic
/// nibble, whose top bit is set exactly in the words that carry the high bit.
pub proof fn law_version_words_are_fields(major: u32, minor: u32, struct_ver: u32)
    requires
        major <= 0xFFFF,
        minor <= 0xF,
        struct_ver <= 0xFF,
    ensures
        struct_word(api_word(major, minor), struct_ver) & 0xFFFF == major,
        (struct_word(api_word(major, minor), struct_ver) >> 16) & 0xFF == struct_ver,
        (struct_word(api_word(major, minor), struct_ver) >> 24) & 0xF == minor,
        struct_word(api_word(major, minor), struct_ver) >> 28 == 0x7,
        high_word(api_word(major, minor), struct_ver) >> 28 == 0xF,
        high_word(api_word(major, minor), struct_ver) & 0x7FFF_FFFF == struct_word(
            api_word(major, minor),
            struct_ver,
        ),
{
    assert({
        let w = (major | (minor << 24)) | (struct_ver << 16) | (0x7u32 << 28);
        &&& w & 0xFFFF == major
        &&& (w >> 16) & 0xFF == struct_ver
        &&& (w >> 24) & 0xF == minor
        &&& w >> 28 == 0x7
        &&& (w | (1u32 << 31)) >> 28 == 0xF
        &&& (w | (1u32 << 31)) & 0x7FFF_FFFF == w
    }) by (bit_vector)
        requires
            major <= 0xFFFF,
            minor <= 0xF,
            struct_ver <= 0xFF,
    ;
}

/// The `(major, minor)` a driver means by its packed maximum version: the minor in the
/// low four bits, the major in the eight above.  A driver that packs 12.2 answers `0xC2`.
pub open spec fn unpacked_version(packed: u32) -> (u32, u32) {
    ((packed >> 4) & 0xFF, packed & 0xF)
}

/// The newest API version the driver supports.
///
/// `reply` is the driver's packed answer, `None` when there is no driver to ask or
/// the call failed.
pub fn query_max_supported_api_version(reply: Option<u32>) -> (r: Option<(u32, u32)>)
    ensures
        match reply {
            None => r is None,
            Some(packed) => r == Some(unpacked_version(packed)),
        },
{
    match reply {
        Some(packed) => Some(((packed >> 4) & 0xFF, packed & 0xF)),
        None => None,
    }
}

/// Byte offset of `NV_ENC_PRESET_CONFIG::presetCfg`.
pub const PRESET_CFG_OFFSET: usize = 8;

/// Byte offset of `NV_ENC_CONFIG::gopLength` inside `NV_ENC_PRESET_CONFIG`.
pub const CFG_GOP_LENGTH_OFFSET: usize = 28;

/// Byte offset of `NV_ENC_CONFIG::frameIntervalP` inside `NV_ENC_PRESET_CONFIG`.
pub const CFG_FRAME_INTERVAL_P_OFFSET: usize = 32;

/// Room for `NV_ENC_PRESET_CONFIG` in any API version.
pub const PRESET_CONFIG_BUF_BYTES: usize = 16_384;

/// The little-endian 32-bit number at `offset`.
pub open spec fn le32(bytes: Seq<u8>, offset: int) -> int {
    bytes[offset] + 0x100 * bytes[offset + 1] + 0x1_0000 * bytes[offset + 2] + 0x100_0000
        * bytes[offset + 3]
}

/// `after` is `before` with `value` stored little-endian at `offset`.
pub open spec fn stores_le32(before: Seq<u8>, after: Seq<u8>, offset: int, value: u32) -> bool {
    &&& after.len() == before.len()
    &&& le32(after, offset) == value
    &&& forall|i: int|
        0 <= i < before.len() && !(offset <= i < offset + 4) ==> #[trigger] after[i] == before[i]
}

/// A `NV_ENC_PRESET_CONFIG` held as bytes, of which only two numbers are ever changed.
pub struct PresetConfig {
    raw: Vec<u8>,
    api: u32,
}

impl PresetConfig {
    pub closed spec fn bytes(&self) -> Seq<u8> {
        self.raw@
    }

    pub closed spec fn api(&self) -> u32 {
        self.api
    }

    pub open spec fn wf(&self) -> bool {
        self.bytes().len() == PRESET_CONFIG_BUF_BYTES
    }

    /// A zeroed buffer with both version words stamped, ready for the driver to fill.
    pub fn new(api_version: u32) -> (r: Self)
        ensures
            r.wf(),
            r.api() == api_version,
            le32(r.bytes(), 0) == high_word(api_version, 5),
            le32(r.bytes(), PRESET_CFG_OFFSET as int) == high_word(api_version, 9),
            forall|i: int|
                0 <= i < PRESET_CONFIG_BUF_BYTES && !(0 <= i < 4) && !(8 <= i < 12)
                    ==> #[trigger] r.bytes()[i] == 0,
    {
        let mut r = PresetConfig { raw: vec![0u8; PRESET_CONFIG_BUF_BYTES], api: api_version };
        r.write_u32(0, nv_enc_preset_config_ver(api_version));
        r.write_u32(PRESET_CFG_OFFSET, nv_enc_config_ver(api_version));
        r
    }

    /// The buffer after the driver filled it: `filled` in place of the bytes.
    pub fn filled_by(&mut self, filled: Vec<u8>)
        requires
            filled@.len() == PRESET_CONFIG_BUF_BYTES,
        ensures
            final(self).bytes() == filled@,
            final(self).api() == old(self).api(),
    {
        self.raw = filled;
    }

    /// The bytes, for the driver to read.
    pub fn raw_bytes(&self) -> (r: &Vec<u8>)
        ensures
            r@ == self.bytes(),
    {
        &self.raw
    }

    pub fn read_u32(&self, offset: usize) -> (r: u32)
        requires
            offset + 4 <= self.bytes().len(),
        ensures
            r == le32(self.bytes(), offset as int),
    {
        assert(self.raw.len() == self.bytes().len());
        self.raw[offset] as u32 + 0x100 * self.raw[offset + 1] as u32 + 0x1_0000
            * self.raw[offset + 2] as u32 + 0x100_0000 * self.raw[offset + 3] as u32
    }

    pub fn write_u32(&mut self, offset: usize, value: u32)
        requires
            offset + 4 <= old(self).bytes().len(),
        ensures
            stores_le32(old(self).bytes(), final(self).bytes(), offset as int, value),
            final(self).api() == old(self).api(),
    {
        assert(self.raw.len() == self.bytes().len());
        self.raw.set(offset, (value % 0x100) as u8);
        self.raw.set(offset + 1, (value / 0x100 % 0x100) as u8);
        self.raw.set(offset + 2, (value / 0x1_0000 % 0x100) as u8);
        self.raw.set(offset + 3, (value / 0x100_0000) as u8);
    }

    /// Whether the driver's `presetCfg.version` is this API's: the layout is as assumed.
    pub fn preset_cfg_version_matches(&self) -> (r: bool)
        requires
            self.wf(),
        ensures
            r == (le32(self.bytes(), PRESET_CFG_OFFSET as int) == high_word(self.api(), 9)),
    {
        self.read_u32(PRESET_CFG_OFFSET) == nv_enc_config_ver(self.api)
    }

    pub fn preset_cfg_version(&self) -> (r: u32)
        requires
            self.wf(),
        ensures
            r == le32(self.bytes(), PRESET_CFG_OFFSET as int),
    {
        self.read_u32(PRESET_CFG_OFFSET)
    }

    pub fn gop_length(&self) -> (r: u32)
        requires
            self.wf(),
        ensures
            r == le32(self.bytes(), CFG_GOP_LENGTH_OFFSET as int),
    {
        self.read_u32(CFG_GOP_LENGTH_OFFSET)
    }

    pub fn frame_interval_p(&self) -> (r: u32)
        requires
            self.wf(),
        ensures
            r == le32(self.bytes(), CFG_FRAME_INTERVAL_P_OFFSET as int),
    {
        self.read_u32(CFG_FRAME_INTERVAL_P_OFFSET)
    }

    /// Distance between P-frames; 1 keeps output order equal to input order.
    pub fn set_frame_interval_p(&mut self, interval: u32)
        requires
            old(self).wf(),
        ensures
            stores_le32(
                old(self).bytes(),
                final(self).bytes(),
                CFG_FRAME_INTERVAL_P_OFFSET as int,
                interval,
            ),
            final(self).api() == old(self).api(),
    {
        self.write_u32(CFG_FRAME_INTERVAL_P_OFFSET, interval);
    }

    /// Frames between IDR pictures.
    pub fn set_gop_length(&mut self, gop: u32)
        requires
            old(self).wf(),
        ensures
            stores_le32(old(self).bytes(), final(self).bytes(), CFG_GOP_LENGTH_OFFSET as int, gop),
            final(self).api() == old(self).api(),
    {
        self.write_u32(CFG_GOP_LENGTH_OFFSET, gop);
    }
}

/// Patching one field leaves every other number of the configuration as it was, the
/// version word and the other patched field included.
pub proof fn law_patches_stay_apart(before: Seq<u8>, after: Seq<u8>, at: int, other: int, value: u32)
    requires
        stores_le32(before, after, at, value),
        0 <= at <= before.len() - 4,
        0 <= other <= before.len() - 4,
        other + 4 <= at || at + 4 <= other,
    ensures
        le32(after, at) == value,
        le32(after, other) == le32(before, other),
{
}

/// Pictures that are intra coded stand on their own, P- and B-pictures do not.
pub proof fn law_intra_pictures_stand_alone(picture_type: u32)
    ensures
        is_keyframe(picture_type) <==> picture_type == 2 || picture_type == 3,
{
}

/// A packed version is taken apart into what was packed: sixteen times the major version and
/// the minor version.
pub proof fn law_versions_are_unpacked(major: u32, minor: u32)
    requires
        major <= 0xFF,
        minor <= 0xF,
    ensures
        unpacked_version((16 * major + minor) as u32) == (major, minor),
{
    assert({
        let packed = (16 * major + minor) as u32;
        ((packed >> 4) & 0xFF) == major && (packed & 0xF) == minor
    }) by (bit_vector)
        requires
            major <= 0xFF,
            minor <= 0xF,
    ;
}

/// A number is stored with its lowest byte first: each byte is a digit to the base 256, and
/// four bytes make one number only.
pub proof fn law_numbers_are_little_endian(bytes: Seq<u8>, offset: int, value: u32)
    requires
        0 <= offset,
        offset + 4 <= bytes.len(),
    ensures
        le32(bytes, offset) == value <==> {
            &&& bytes[offset] == value % 0x100
            &&& bytes[offset + 1] == value / 0x100 % 0x100
            &&& bytes[offset + 2] == value / 0x1_0000 % 0x100
            &&& bytes[offset + 3] == value / 0x100_0000
        },
{
}

/// A status has the vendor's name: success for zero alone, a name of its own for each code
/// the vendor documents, and one for all others.
pub proof fn law_statuses_have_their_names(status: int)
    ensures
        status == 0 ==> status_name(status) == "NV_ENC_SUCCESS"@,
        status == 6 ==> status_name(status) == "NV_ENC_ERR_INVALID_PTR"@,
        status == 8 ==> status_name(status) == "NV_ENC_ERR_INVALID_PARAM"@,
        status == 9 ==> status_name(status) == "NV_ENC_ERR_INVALID_CALL"@,
        status == 10 ==> status_name(status) == "NV_ENC_ERR_OUT_OF_MEMORY"@,
        status == 11 ==> status_name(status) == "NV_ENC_ERR_ENCODER_NOT_INITIALIZED"@,
        status == 12 ==> status_name(status) == "NV_ENC_ERR_UNSUPPORTED_PARAM"@,
        status == 15 ==> status_name(status) == "NV_ENC_ERR_INVALID_VERSION"@,
        status == 16 ==> status_name(status) == "NV_ENC_ERR_MAP_FAILED"@,
        status == 17 ==> status_name(status) == "NV_ENC_ERR_NEED_MORE_INPUT"@,
        status == 20 ==> status_name(status) == "NV_ENC_ERR_GENERIC"@,
        status < 0 || status > 22 ==> status_name(status) == "NV_ENC_ERR_<unknown>"@,
{
}

} // verus!
