use nexir::interop::nvenc::{
    nv_enc_config_ver, nv_enc_create_bitstream_buffer_ver, nv_enc_event_params_ver,
    nv_enc_initialize_params_ver, nv_enc_lock_bitstream_ver, nv_enc_map_input_resource_ver,
    nv_enc_open_encode_session_ex_params_ver, nv_enc_pic_params_ver, nv_enc_pic_type_is_keyframe,
    nv_enc_preset_config_ver, nv_enc_register_resource_ver, nv_encode_api_function_list_ver,
    nvenc_api_version, nvenc_status_str, nvenc_struct_version, query_max_supported_api_version,
    with_high_bit, PresetConfig, NV_ENC_BUFFER_FORMAT_ABGR, NV_ENC_BUFFER_FORMAT_ABGR10,
    NV_ENC_BUFFER_FORMAT_ARGB10, NV_ENC_ERR_GENERIC, NV_ENC_ERR_NEED_MORE_INPUT,
    NV_ENC_INFINITE_GOPLENGTH, NV_ENC_PIC_TYPE_B, NV_ENC_PIC_TYPE_I, NV_ENC_PIC_TYPE_IDR,
    NV_ENC_PIC_TYPE_P, NV_ENC_SUCCESS, PRESET_CFG_OFFSET, PRESET_CONFIG_BUF_BYTES,
};

#[test]
fn api_version_word_carries_minor_in_bits_24_31() {
    assert_eq!(nvenc_api_version(12, 2), 0x0200_000C);
    assert_ne!(nvenc_api_version(12, 2), 12);
}

#[test]
fn struct_version_words_match_the_vendor_header() {
    let api = nvenc_api_version(12, 2);
    assert_eq!(nv_encode_api_function_list_ver(api), 0x7202_000C);
    assert_eq!(nv_enc_open_encode_session_ex_params_ver(api), 0x7201_000C);
    assert_eq!(nv_enc_initialize_params_ver(api), 0xF207_000C);
    assert_eq!(nv_enc_register_resource_ver(api), 0x7205_000C);
    assert_eq!(nv_enc_map_input_resource_ver(api), 0x7204_000C);
    assert_eq!(nv_enc_pic_params_ver(api), 0xF207_000C);
    assert_eq!(nv_enc_lock_bitstream_ver(api), 0xF202_000C);
    assert_eq!(nv_enc_create_bitstream_buffer_ver(api), 0x7201_000C);
    assert_eq!(nv_enc_event_params_ver(api), 0x7202_000C);
    assert_eq!(nv_enc_config_ver(api), 0xF209_000C);
    assert_eq!(nv_enc_preset_config_ver(api), 0xF205_000C);
}

#[test]
fn buffer_format_abgr10_is_the_bit_flag_not_a_counter() {
    assert_eq!(NV_ENC_BUFFER_FORMAT_ABGR10, 0x2000_0000);
    assert_eq!(NV_ENC_BUFFER_FORMAT_ABGR, 0x1000_0000);
    assert_eq!(NV_ENC_BUFFER_FORMAT_ARGB10, 0x0200_0000);
    assert_ne!(NV_ENC_BUFFER_FORMAT_ABGR10, 2);
}

#[test]
fn version_words_are_made_of_fields() {
    assert_eq!(nvenc_struct_version(0x0200_000C, 3), 0x7203_000C);
    assert_eq!(with_high_bit(0x7203_000C), 0xF203_000C);
    assert_eq!(with_high_bit(0xF203_000C), 0xF203_000C);
}

#[test]
fn a_driver_reports_its_version_in_two_fields() {
    assert_eq!(query_max_supported_api_version(None), None);
    assert_eq!(query_max_supported_api_version(Some(0x0000_00C2)), Some((12, 2)));
    assert_eq!(query_max_supported_api_version(Some(0x0000_00D0)), Some((13, 0)));
}

#[test]
fn status_codes_have_names() {
    assert_eq!(nvenc_status_str(NV_ENC_SUCCESS), "NV_ENC_SUCCESS");
    assert_eq!(nvenc_status_str(NV_ENC_ERR_NEED_MORE_INPUT), "NV_ENC_ERR_NEED_MORE_INPUT");
    assert_eq!(nvenc_status_str(NV_ENC_ERR_GENERIC), "NV_ENC_ERR_GENERIC");
    assert_ne!(nvenc_status_str(9999), nvenc_status_str(NV_ENC_SUCCESS));
}

#[test]
fn only_intra_pictures_are_keyframes() {
    assert!(nv_enc_pic_type_is_keyframe(NV_ENC_PIC_TYPE_IDR));
    assert!(nv_enc_pic_type_is_keyframe(NV_ENC_PIC_TYPE_I));
    assert!(!nv_enc_pic_type_is_keyframe(NV_ENC_PIC_TYPE_P));
    assert!(!nv_enc_pic_type_is_keyframe(NV_ENC_PIC_TYPE_B));
}

#[test]
fn preset_patches_stay_apart() {
    let api = nvenc_api_version(12, 2);
    let mut config = PresetConfig::new(api);
    assert_eq!(config.raw_bytes().len(), PRESET_CONFIG_BUF_BYTES);
    assert_eq!(config.read_u32(0), 0xF205_000C);
    assert_eq!(config.read_u32(PRESET_CFG_OFFSET), 0xF209_000C);
    assert!(config.preset_cfg_version_matches());

    config.set_frame_interval_p(1);
    config.set_gop_length(NV_ENC_INFINITE_GOPLENGTH);
    assert_eq!(config.frame_interval_p(), 1);
    assert_eq!(config.gop_length(), NV_ENC_INFINITE_GOPLENGTH);
    config.set_frame_interval_p(4);
    assert_eq!(config.gop_length(), NV_ENC_INFINITE_GOPLENGTH);
    assert_eq!(config.frame_interval_p(), 4);
    assert_eq!(config.preset_cfg_version(), 0xF209_000C);
}

#[test]
fn a_preset_of_another_version_is_noticed() {
    let api = nvenc_api_version(12, 2);
    let mut config = PresetConfig::new(api);
    let mut filled = config.raw_bytes().clone();
    filled[PRESET_CFG_OFFSET] = 0x0D;
    config.filled_by(filled);
    assert_eq!(config.preset_cfg_version(), 0xF209_000D);
    assert!(!config.preset_cfg_version_matches());
}
