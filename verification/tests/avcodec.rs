use erika::ohos::avcodec::{
    avcc_to_annex_b, avcodec_initialization_failure_stage, check_avcodec, hardware_rejection_stage,
    hvcc_to_annex_b, input_buffer_flags, is_annex_b, is_end_of_stream_buffer,
    length_prefixed_packet_to_annex_b, max_input_size, normalize_codec_config, nv12_region, nv12_view,
    check_input_buffer, decoder_creation_plan, valid_decoder_dimensions, InputBufferError, AcquireStep, CodecConfigError,
    DecoderCreationPlan, DecoderSetupError,
    FrameAccessError, FramePayload, Nv12LayoutError, Nv12Region, OhosNativeBufferConfig,
    OhosNativeBufferImage, OhosVideoCodec, OhosVideoDecoder, OutputLayout, PacketError,
    PacketNormalizer, ReleaseAction, SurfaceFrameQueue, AV_PIXEL_FORMAT_NV12,
    AV_PIXEL_FORMAT_SURFACE_FORMAT,
};
use erika::ohos_av1::{Av1CodecConfigError, HardwareAv1CapabilityRejection};

fn sample_avcc() -> Vec<u8> {
    vec![
        0x01, 0x64, 0x00, 0x1f, 0xff, 0xe1, 0x00, 0x03, 0x67, 0x64, 0x00, 0x01, 0x00, 0x02, 0x68,
        0xee,
    ]
}

fn sample_hvcc() -> Vec<u8> {
    let mut config = vec![0u8; 23];
    config[0] = 1;
    config[21] = 0x03;
    config[22] = 2;
    config.extend_from_slice(&[0x20, 0x00, 0x01, 0x00, 0x02, 0x40, 0x01]);
    config.extend_from_slice(&[0x21, 0x00, 0x01, 0x00, 0x03, 0x42, 0x01, 0x01]);
    config
}

#[test]
fn avcc_parameter_sets_become_annex_b() {
    let (sets, nal_length_size) = avcc_to_annex_b(&sample_avcc()).unwrap();
    assert_eq!(
        sets,
        vec![0, 0, 0, 1, 0x67, 0x64, 0x00, 0, 0, 0, 1, 0x68, 0xee]
    );
    assert_eq!(nal_length_size, Some(4));
}

#[test]
fn avcc_errors_name_the_broken_part() {
    assert_eq!(avcc_to_annex_b(&[1, 2, 3]), Err(CodecConfigError::InvalidAvcRecord));
    assert_eq!(
        avcc_to_annex_b(&[2, 0, 0, 0, 0xff, 0xe0, 0]),
        Err(CodecConfigError::InvalidAvcRecord)
    );
    assert_eq!(
        avcc_to_annex_b(&[1, 0, 0, 0, 0xff, 0xe1, 0x00]),
        Err(CodecConfigError::TruncatedNalLength)
    );
    assert_eq!(
        avcc_to_annex_b(&[1, 0, 0, 0, 0xff, 0xe1, 0x00, 0x05, 0x67]),
        Err(CodecConfigError::TruncatedNalData)
    );
    assert_eq!(
        avcc_to_annex_b(&[1, 0, 0, 0, 0xff, 0xe1, 0x00, 0x01, 0x67]),
        Err(CodecConfigError::MissingPpsCount)
    );
    assert_eq!(
        avcc_to_annex_b(&[1, 0, 0, 0, 0xfd, 0xe0, 0x00]),
        Err(CodecConfigError::AvcWithoutParameterSets)
    );
}

#[test]
fn hvcc_arrays_become_annex_b() {
    let (sets, nal_length_size) = hvcc_to_annex_b(&sample_hvcc()).unwrap();
    assert_eq!(sets, vec![0, 0, 0, 1, 0x40, 0x01, 0, 0, 0, 1, 0x42, 0x01, 0x01]);
    assert_eq!(nal_length_size, Some(4));
}

#[test]
fn hvcc_errors_name_the_broken_part() {
    assert_eq!(hvcc_to_annex_b(&[1; 10]), Err(CodecConfigError::InvalidHevcRecord));
    let mut truncated = vec![0u8; 23];
    truncated[0] = 1;
    truncated[22] = 1;
    truncated.push(0x20);
    assert_eq!(hvcc_to_annex_b(&truncated), Err(CodecConfigError::TruncatedHevcArray));
    let mut empty = vec![0u8; 23];
    empty[0] = 1;
    assert_eq!(hvcc_to_annex_b(&empty), Err(CodecConfigError::HevcWithoutParameterSets));
}

#[test]
fn annex_b_detection_accepts_both_start_codes() {
    assert!(is_annex_b(&[0, 0, 1, 0x67]));
    assert!(is_annex_b(&[0, 0, 0, 1, 0x67]));
    assert!(!is_annex_b(&[0, 0, 2]));
    assert!(!is_annex_b(&[0, 0]));
    assert!(!is_annex_b(&[1, 0x64, 0, 0]));
}

#[test]
fn length_prefixed_packets_become_annex_b() {
    let packet = [0, 0, 0, 2, 0x65, 0x88, 0, 0, 0, 0, 0, 0, 0, 1, 0x41];
    assert_eq!(
        length_prefixed_packet_to_annex_b(&packet, 4),
        Ok(vec![0, 0, 0, 1, 0x65, 0x88, 0, 0, 0, 1, 0x41])
    );
    assert_eq!(
        length_prefixed_packet_to_annex_b(&[0, 1, 0x09], 2),
        Ok(vec![0, 0, 0, 1, 0x09])
    );
    assert_eq!(length_prefixed_packet_to_annex_b(&[], 4), Ok(vec![]));
}

#[test]
fn length_prefixed_packet_errors() {
    assert_eq!(
        length_prefixed_packet_to_annex_b(&[0, 1], 5),
        Err(PacketError::InvalidNalLengthSize(5))
    );
    assert_eq!(
        length_prefixed_packet_to_annex_b(&[0, 1], 0),
        Err(PacketError::InvalidNalLengthSize(0))
    );
    assert_eq!(
        length_prefixed_packet_to_annex_b(&[0, 0], 4),
        Err(PacketError::TruncatedPacket)
    );
    assert_eq!(
        length_prefixed_packet_to_annex_b(&[0, 0, 0, 5, 1], 4),
        Err(PacketError::NalExceedsPacket { nal_size: 5, remaining: 1 })
    );
    assert_eq!(
        length_prefixed_packet_to_annex_b(&[0, 0, 0, 0], 4),
        Err(PacketError::NoNalData)
    );
}

#[test]
fn codec_config_normalization_per_codec() {
    assert_eq!(
        normalize_codec_config(OhosVideoCodec::Avc, &[]),
        Ok((vec![], None, vec![]))
    );
    let annex_b = [0, 0, 0, 1, 0x40, 0x01];
    assert_eq!(
        normalize_codec_config(OhosVideoCodec::Hevc, &annex_b),
        Ok((annex_b.to_vec(), None, annex_b.to_vec()))
    );
    assert_eq!(
        normalize_codec_config(OhosVideoCodec::Av1, &[0x81, 0x08, 0x0c, 0x00, 0x0a, 0x02]),
        Ok((vec![0x0a, 0x02], None, vec![]))
    );
    assert_eq!(
        normalize_codec_config(OhosVideoCodec::Av1, &[0x81, 0x08]),
        Err(CodecConfigError::Av1(Av1CodecConfigError::TruncatedConfigurationRecord))
    );
    let avcc = sample_avcc();
    let (config, nal_length_size, sets) = normalize_codec_config(OhosVideoCodec::Avc, &avcc).unwrap();
    assert_eq!(config, avcc);
    assert_eq!(nal_length_size, Some(4));
    assert_eq!(sets, vec![0, 0, 0, 1, 0x67, 0x64, 0x00, 0, 0, 0, 1, 0x68, 0xee]);
}

#[test]
fn parameter_sets_precede_only_the_first_key_frame_after_a_flush() {
    let (config, mut normalizer) = PacketNormalizer::new(OhosVideoCodec::Avc, &sample_avcc()).unwrap();
    assert_eq!(config, sample_avcc());
    let sets = vec![0, 0, 0, 1, 0x67, 0x64, 0x00, 0, 0, 0, 1, 0x68, 0xee];
    let sample = [0, 0, 0, 1, 0x65];

    let delta = normalizer.prepare(&sample, false).unwrap();
    assert!(!delta.includes_parameter_sets);
    assert_eq!(delta.data, vec![0, 0, 0, 1, 0x65]);

    let key = normalizer.prepare(&sample, true).unwrap();
    assert!(key.includes_parameter_sets);
    let mut expected = sets.clone();
    expected.extend_from_slice(&[0, 0, 0, 1, 0x65]);
    assert_eq!(key.data, expected);

    normalizer.mark_pushed(&key);
    let second_key = normalizer.prepare(&sample, true).unwrap();
    assert!(!second_key.includes_parameter_sets);

    normalizer.reset_after_flush();
    let after_flush = normalizer.prepare(&sample, true).unwrap();
    assert!(after_flush.includes_parameter_sets);
    assert_eq!(after_flush.data, expected);
}

#[test]
fn packet_normalizer_reports_bad_samples() {
    let (_, normalizer) = PacketNormalizer::new(OhosVideoCodec::Avc, &sample_avcc()).unwrap();
    assert!(matches!(
        normalizer.prepare(&[0, 0, 0, 9, 1], true),
        Err(PacketError::NalExceedsPacket { nal_size: 9, remaining: 1 })
    ));
    assert!(matches!(
        PacketNormalizer::new(OhosVideoCodec::Avc, &[1, 2, 3]),
        Err(CodecConfigError::InvalidAvcRecord)
    ));
}

#[test]
fn avcodec_status_check() {
    assert_eq!(check_avcodec(0, "OH_VideoDecoder_Start"), Ok(()));
    let failure = check_avcodec(-3, "OH_VideoDecoder_Start").unwrap_err();
    assert_eq!(failure.operation, "OH_VideoDecoder_Start");
    assert_eq!(failure.code, -3);
}

#[test]
fn decoder_dimensions_must_fit_i32() {
    assert!(valid_decoder_dimensions(1920, 1080));
    assert!(!valid_decoder_dimensions(0, 1080));
    assert!(!valid_decoder_dimensions(1920, 0));
    assert!(!valid_decoder_dimensions(0x8000_0000, 1));
    assert!(valid_decoder_dimensions(0x7fff_ffff, 1));
}

#[test]
fn max_input_size_is_clamped() {
    assert_eq!(max_input_size(1920, 1080), 4_194_304);
    assert_eq!(max_input_size(4096, 4096), 16_777_216);
    assert_eq!(max_input_size(65535, 65535), i32::MAX);
    assert_eq!(max_input_size(0, 0), 4_194_304);
}

#[test]
fn initialization_failures_are_classified_by_call() {
    assert_eq!(
        avcodec_initialization_failure_stage("OH_VideoDecoder_RegisterCallback failed: -1"),
        "register_callback"
    );
    assert_eq!(
        avcodec_initialization_failure_stage("OH_AVFormat_CreateVideoFormat returned null"),
        "create_format"
    );
    assert_eq!(avcodec_initialization_failure_stage("OH_AVFormat_SetIntValue"), "set_format");
    assert_eq!(avcodec_initialization_failure_stage("OH_AVFormat_SetBuffer"), "set_format");
    assert_eq!(
        avcodec_initialization_failure_stage("OH_VideoDecoder_Configure failed"),
        "configure"
    );
    assert_eq!(avcodec_initialization_failure_stage("OH_VideoDecoder_SetSurface"), "set_surface");
    assert_eq!(avcodec_initialization_failure_stage("OH_VideoDecoder_Prepare"), "prepare");
    assert_eq!(avcodec_initialization_failure_stage("OH_VideoDecoder_Start"), "start");
    assert_eq!(avcodec_initialization_failure_stage("unexpected"), "initialize");
}

#[test]
fn stream_change_updates_the_output_layout() {
    let mut layout = OutputLayout::new(1920, 1080);
    assert_eq!(layout.stride, 1920);
    assert_eq!(layout.pixel_format, AV_PIXEL_FORMAT_NV12);
    layout.apply_stream_change(Some(1920), Some(1088), Some(2048), Some(-1), None);
    assert_eq!(layout.width, 1920);
    assert_eq!(layout.height, 1088);
    assert_eq!(layout.stride, 2048);
    assert_eq!(layout.slice_height, 1088);
    assert_eq!(layout.pixel_format, AV_PIXEL_FORMAT_NV12);
    layout.apply_stream_change(Some(0), None, None, None, Some(4));
    assert_eq!(layout.width, 1920);
    assert_eq!(layout.stride, 1920);
    assert_eq!(layout.pixel_format, 4);
}

#[test]
fn nv12_region_locates_both_planes() {
    let layout = OutputLayout::new(4, 2);
    assert_eq!(
        nv12_region(layout, 12, 0),
        Ok(Nv12Region {
            luma_offset: 0,
            luma_len: 8,
            chroma_offset: 8,
            chroma_len: 4,
            stride: 4,
            width: 4,
            height: 2,
        })
    );
    let shifted = nv12_region(layout, 15, 3).unwrap();
    assert_eq!(shifted.luma_offset, 3);
    assert_eq!(shifted.chroma_offset, 11);
    assert_eq!(nv12_region(layout, 12, -5).unwrap().luma_offset, 0);
}

#[test]
fn nv12_region_rejects_bad_layouts() {
    let layout = OutputLayout::new(4, 2);
    assert_eq!(
        nv12_region(layout, 11, 0),
        Err(Nv12LayoutError::InsufficientCapacity { required: 12, capacity: 11 })
    );
    assert_eq!(nv12_region(layout, -1, 0), Err(Nv12LayoutError::CapacityUnavailable));
    let mut surface = layout;
    surface.pixel_format = 4;
    assert_eq!(nv12_region(surface, 100, 0), Err(Nv12LayoutError::UnsupportedPixelFormat(4)));
    assert_eq!(
        nv12_region(OutputLayout::new(5, 2), 100, 0),
        Err(Nv12LayoutError::InvalidLayout(OutputLayout::new(5, 2)))
    );
    assert_eq!(
        nv12_region(OutputLayout::new(0, 2), 100, 0),
        Err(Nv12LayoutError::InvalidLayout(OutputLayout::new(0, 2)))
    );
    let mut huge = OutputLayout::new(4, 2);
    huge.stride = usize::MAX;
    assert_eq!(nv12_region(huge, 100, 0), Err(Nv12LayoutError::LumaStorageOverflow));
}

#[test]
fn nv12_view_cuts_the_planes() {
    let buffer: Vec<u8> = (0u8..16).collect();
    let region = nv12_region(OutputLayout::new(4, 2), 16, 2).unwrap();
    let view = nv12_view(&buffer, region, 42);
    assert_eq!(view.luma, &buffer[2..10]);
    assert_eq!(view.chroma, &buffer[10..14]);
    assert_eq!(view.luma_stride, 4);
    assert_eq!(view.pts_micros, 42);
}

#[test]
fn buffer_flag_helpers() {
    assert!(is_end_of_stream_buffer(1, 0));
    assert!(!is_end_of_stream_buffer(1, 10));
    assert!(!is_end_of_stream_buffer(2, 0));
    assert_eq!(input_buffer_flags(true), 2);
    assert_eq!(input_buffer_flags(false), 0);
    assert_eq!(check_input_buffer(10, 10, true), Ok(()));
    assert_eq!(
        check_input_buffer(11, 10, true),
        Err(InputBufferError::PacketTooLarge { len: 11, capacity: 10 })
    );
    assert_eq!(check_input_buffer(0, -1, true), Err(InputBufferError::StorageUnavailable));
    assert_eq!(check_input_buffer(0, 10, false), Err(InputBufferError::StorageUnavailable));
}

#[test]
fn surface_frame_queue_hands_out_announced_frames() {
    let mut queue = SurfaceFrameQueue::new();
    assert_eq!(queue.poll_acquire(false), AcquireStep::Wait);
    assert_eq!(queue.poll_acquire(true), AcquireStep::TimedOut);
    queue.frame_available();
    queue.frame_available();
    assert!(!queue.wait_expired(true));
    assert_eq!(queue.poll_acquire(false), AcquireStep::Acquired);
    assert_eq!(queue.pending, 1);
    queue.reset_pending_callbacks_after_flush();
    assert_eq!(queue.pending, 0);
    assert!(queue.wait_expired(true));
    queue.mark_external_frame_discarded();
    queue.mark_external_frame_discarded();
    assert_eq!(queue.take_discarded_external_frames(), 2);
    assert_eq!(queue.take_discarded_external_frames(), 0);
    queue.requeue_discarded_external_frames(3);
    assert_eq!(queue.discarded_external_frames, 3);
    queue.frame_available();
    queue.prepare_for_decoder_attachment();
    assert_eq!(queue.pending, 0);
    assert_eq!(queue.discarded_external_frames, 0);
    queue.frame_available();
    queue.shut_down();
    assert_eq!(queue.poll_acquire(false), AcquireStep::ShuttingDown);
    assert_eq!(queue.pending, 1);
}

#[test]
fn pending_frames_saturate_and_discarded_frames_wrap() {
    let mut queue = SurfaceFrameQueue::new();
    queue.pending = usize::MAX;
    queue.frame_available();
    assert_eq!(queue.pending, usize::MAX);
    queue.requeue_discarded_external_frames(usize::MAX);
    assert_eq!(queue.discarded_external_frames, usize::MAX);
    queue.requeue_discarded_external_frames(2);
    assert_eq!(queue.discarded_external_frames, 1);
    queue.discarded_external_frames = usize::MAX;
    queue.mark_external_frame_discarded();
    assert_eq!(queue.discarded_external_frames, 0);
}

#[test]
fn external_texture_frames_latch_once() {
    let mut image = OhosNativeBufferImage { payload: FramePayload::ExternalTexture { pending: true } };
    assert_eq!(image.native_buffer(), Err(FrameAccessError::NoNativeBuffer));
    assert_eq!(image.begin_external_texture_update(), Ok(()));
    assert_eq!(image.begin_external_texture_update(), Err(FrameAccessError::AlreadyUpdated));
    assert_eq!(image.release_to_surface(), ReleaseAction::Nothing);
    assert_eq!(image.release_to_surface(), ReleaseAction::Nothing);
    assert_eq!(image.begin_external_texture_update(), Err(FrameAccessError::FrameReleased));

    let mut unlatched = OhosNativeBufferImage { payload: FramePayload::ExternalTexture { pending: true } };
    assert_eq!(unlatched.release_to_surface(), ReleaseAction::MarkExternalFrameDiscarded);
    assert_eq!(unlatched.payload, FramePayload::Released);
}

#[test]
fn native_buffer_frames_release_their_window_buffer() {
    let config = OhosNativeBufferConfig { width: 1920, height: 1080, format: 12, usage: 0, stride: 1920 };
    assert!(config.has_valid_extent());
    assert!(!OhosNativeBufferConfig::default().has_valid_extent());
    let mut image = OhosNativeBufferImage {
        payload: FramePayload::NativeBuffer { native_window_buffer: 7, native_buffer: 9, config },
    };
    assert_eq!(image.native_buffer(), Ok((9, config)));
    assert_eq!(image.begin_external_texture_update(), Err(FrameAccessError::NotExternalTexture));
    assert_eq!(image.release_to_surface(), ReleaseAction::ReleaseNativeBuffer(7));
    assert_eq!(image.native_buffer(), Err(FrameAccessError::NativeBufferReleased));
    let null_buffer = OhosNativeBufferImage {
        payload: FramePayload::NativeBuffer { native_window_buffer: 7, native_buffer: 0, config },
    };
    assert_eq!(null_buffer.native_buffer(), Err(FrameAccessError::NullNativeBuffer));
}

#[test]
fn codec_names_and_mime_types() {
    assert_eq!(OhosVideoCodec::Av1.mime(), "video/av1");
    assert_eq!(OhosVideoCodec::Avc.mime(), "video/avc");
    assert_eq!(OhosVideoCodec::Hevc.mime(), "video/hevc");
    assert_eq!(OhosVideoCodec::Avc.as_str(), "h264");
    assert_eq!(
        hardware_rejection_stage(HardwareAv1CapabilityRejection::EmptyCodecName),
        "hardware_codec_name_invalid"
    );
    assert_eq!(
        hardware_rejection_stage(HardwareAv1CapabilityRejection::Unavailable),
        "hardware_unavailable"
    );
    assert_eq!(
        hardware_rejection_stage(HardwareAv1CapabilityRejection::UnsupportedVideoSize),
        "hardware_size_unsupported"
    );
}

#[test]
fn decoder_preparation_validates_before_configuring() {
    let (config, packets) = OhosVideoDecoder::prepare(OhosVideoCodec::Avc, 1920, 1080, &sample_avcc()).unwrap();
    assert_eq!(config, sample_avcc());
    assert_eq!(packets.nal_length_size, Some(4));
    assert!(!packets.parameter_sets_sent);
    let decoder = OhosVideoDecoder::created(OhosVideoCodec::Avc, None, true, packets);
    assert!(decoder.uses_surface());
    assert_eq!(decoder.codec_name(), "system-recommended");
    assert!(!decoder.uses_hardware_capability());
    assert_eq!(decoder.configured_pixel_format(), AV_PIXEL_FORMAT_SURFACE_FORMAT);
    assert_eq!(decoder.packets.nal_length_size, Some(4));
    assert!(!decoder.started);

    assert!(matches!(
        OhosVideoDecoder::prepare(OhosVideoCodec::Avc, 0, 1080, &[]),
        Err(DecoderSetupError::InvalidDimensions { width: 0, height: 1080 })
    ));
    assert!(matches!(
        OhosVideoDecoder::prepare(OhosVideoCodec::Av1, 64, 64, &[0x82, 0, 0, 0]),
        Err(DecoderSetupError::Config(CodecConfigError::Av1(
            Av1CodecConfigError::UnsupportedConfigurationRecordVersion(2)
        )))
    ));
    let (_, packets) = OhosVideoDecoder::prepare(OhosVideoCodec::Av1, 64, 64, &[]).unwrap();
    let buffers = OhosVideoDecoder::created(OhosVideoCodec::Av1, Some("codec.av1.hw".to_string()), false, packets);
    assert_eq!(buffers.configured_pixel_format(), AV_PIXEL_FORMAT_NV12);
    assert_eq!(buffers.codec_name(), "codec.av1.hw");
    assert!(buffers.uses_hardware_capability());
}

#[test]
fn av1_uses_the_named_hardware_decoder_and_others_the_mime_decoder() {
    assert_eq!(decoder_creation_plan(OhosVideoCodec::Av1), DecoderCreationPlan::ByHardwareName);
    assert_eq!(decoder_creation_plan(OhosVideoCodec::Avc), DecoderCreationPlan::ByMime);
    assert_eq!(decoder_creation_plan(OhosVideoCodec::Hevc), DecoderCreationPlan::ByMime);
}
