use erika::media::MediaDuration;
use erika::ohos::avcodec::{
    acquire_failure_text, callback_error_text, check_acquired_window_buffer, check_avcodec,
    check_converted_native_buffer, discarded_frame_update_step, external_texture_update_status,
    fence_poll_step, fence_poll_timeout_ms, fence_wait_failure_text, hardware_rejection_text,
    native_buffer_payload, nv12_region, AcquireStep, BufferAttr, CallbackState, CodecConfigError,
    DecodedSurfaceFrame, DecoderSetupError, DiscardedFrameStep, FenceWaitStep, FrameAccessError,
    FramePayload, InputBuffer, InputBufferError, Nv12LayoutError, OhosAvCodecSurface,
    OhosAvCodecSurfaceMode, OhosNativeBufferConfig, OhosNativeBufferImage, OutputBuffer,
    OutputLayout, PacketError, SurfaceError, NATIVE_ERROR_NO_BUFFER,
};
use erika::ohos_av1::{Av1CodecConfigError, HardwareAv1CapabilityRejection};

#[test]
fn configuration_errors_read_like_the_decoder_reports_them() {
    assert_eq!(
        Av1CodecConfigError::TruncatedConfigurationRecord.message(),
        "truncated AV1CodecConfigurationRecord"
    );
    assert_eq!(
        Av1CodecConfigError::UnsupportedConfigurationRecordVersion(2).message(),
        "unsupported AV1CodecConfigurationRecord version 2"
    );
    assert_eq!(
        CodecConfigError::Av1(Av1CodecConfigError::UnsupportedConfigurationRecordVersion(127)).message(),
        "unsupported AV1CodecConfigurationRecord version 127"
    );
    assert_eq!(CodecConfigError::InvalidAvcRecord.message(), "invalid AVCDecoderConfigurationRecord");
    assert_eq!(CodecConfigError::MissingPpsCount.message(), "AVC configuration is missing PPS count");
    assert_eq!(
        CodecConfigError::AvcWithoutParameterSets.message(),
        "AVC configuration contains no SPS/PPS data"
    );
    assert_eq!(CodecConfigError::InvalidHevcRecord.message(), "invalid HEVCDecoderConfigurationRecord");
    assert_eq!(CodecConfigError::TruncatedHevcArray.message(), "truncated HEVC configuration array");
    assert_eq!(
        CodecConfigError::HevcWithoutParameterSets.message(),
        "HEVC configuration contains no VPS/SPS/PPS data"
    );
    assert_eq!(CodecConfigError::TruncatedNalLength.message(), "truncated codec configuration NAL length");
    assert_eq!(CodecConfigError::TruncatedNalData.message(), "truncated codec configuration NAL data");
}

#[test]
fn packet_errors_read_like_the_decoder_reports_them() {
    assert_eq!(PacketError::InvalidNalLengthSize(7).message(), "invalid NAL length size 7");
    assert_eq!(PacketError::TruncatedPacket.message(), "truncated length-prefixed video packet");
    assert_eq!(
        PacketError::NalExceedsPacket { nal_size: 300, remaining: 12 }.message(),
        "video packet NAL size 300 exceeds remaining 12 bytes"
    );
    assert_eq!(PacketError::NoNalData.message(), "length-prefixed video packet contains no NAL data");
    assert_eq!(
        InputBufferError::PacketTooLarge { len: 4096, capacity: 1024 }.message(),
        "compressed packet is 4096 bytes but AVCodec input capacity is 1024 bytes"
    );
    assert_eq!(InputBufferError::StorageUnavailable.message(), "OH_AVBuffer input storage is unavailable");
}

#[test]
fn avcodec_failures_carry_operation_and_status() {
    let failure = check_avcodec(-5, "OH_VideoDecoder_Configure").unwrap_err();
    assert_eq!(failure.message(), "OH_VideoDecoder_Configure failed with OH_AVErrCode -5");
    assert_eq!(
        check_avcodec(i32::MIN, "OH_VideoDecoder_Start").unwrap_err().message(),
        "OH_VideoDecoder_Start failed with OH_AVErrCode -2147483648"
    );
    assert_eq!(callback_error_text(-2), "HarmonyOS AVCodec callback error -2");
    assert_eq!(callback_error_text(17), "HarmonyOS AVCodec callback error 17");
    assert_eq!(
        DecoderSetupError::InvalidDimensions { width: 0, height: 720 }.message(),
        "invalid video dimensions 0x720"
    );
    assert_eq!(
        DecoderSetupError::Config(CodecConfigError::InvalidHevcRecord).message(),
        "invalid HEVCDecoderConfigurationRecord"
    );
}

#[test]
fn hardware_rejections_explain_themselves() {
    assert_eq!(
        hardware_rejection_text(HardwareAv1CapabilityRejection::Unavailable, 1920, 1080),
        "no HarmonyOS hardware AV1 decoder capability is available"
    );
    assert_eq!(
        hardware_rejection_text(HardwareAv1CapabilityRejection::EmptyCodecName, 1920, 1080),
        "HarmonyOS hardware AV1 decoder capability has no valid codec name"
    );
    assert_eq!(
        hardware_rejection_text(HardwareAv1CapabilityRejection::UnsupportedVideoSize, 7680, 4320),
        "HarmonyOS hardware AV1 decoder does not support 7680x4320"
    );
}

#[test]
fn nv12_layout_errors_read_like_the_decoder_reports_them() {
    let mut layout = OutputLayout::new(5, 2);
    assert_eq!(
        nv12_region(layout, 100, 0).unwrap_err().message(),
        "invalid AVCodec output layout OutputLayout { width: 5, height: 2, stride: 5, slice_height: 2, pixel_format: 2 }"
    );
    layout.pixel_format = -3;
    assert_eq!(
        nv12_region(layout, 100, 0).unwrap_err().message(),
        "AVCodec returned unsupported pixel format -3 instead of NV12"
    );
    assert_eq!(
        Nv12LayoutError::InsufficientCapacity { required: 12, capacity: 11 }.message(),
        "AVCodec output layout needs 12 bytes but capacity is 11"
    );
    assert_eq!(Nv12LayoutError::CapacityUnavailable.message(), "OH_AVBuffer output capacity is unavailable");
    assert_eq!(Nv12LayoutError::LumaStorageOverflow.message(), "AVCodec luma layout size overflowed");
    assert_eq!(Nv12LayoutError::VisibleLumaOverflow.message(), "AVCodec visible luma size overflowed");
    assert_eq!(Nv12LayoutError::ChromaOverflow.message(), "AVCodec chroma layout size overflowed");
    assert_eq!(Nv12LayoutError::LayoutSizeOverflow.message(), "AVCodec output layout size overflowed");
}

#[test]
fn frame_access_errors_read_like_the_decoder_reports_them() {
    assert_eq!(FrameAccessError::AlreadyUpdated.message(), "OHOS external texture frame was already updated");
    assert_eq!(
        FrameAccessError::NotExternalTexture.message(),
        "OHOS NativeBuffer frame cannot update an external OES texture"
    );
    assert_eq!(FrameAccessError::FrameReleased.message(), "OHOS native image frame was already released");
    assert_eq!(FrameAccessError::NullNativeBuffer.message(), "OHOS NativeBuffer pointer is null");
    assert_eq!(
        FrameAccessError::NoNativeBuffer.message(),
        "OHOS external OES frame has no acquired NativeBuffer"
    );
    assert_eq!(
        FrameAccessError::NativeBufferReleased.message(),
        "OHOS NativeBuffer frame was already released"
    );
}

#[test]
fn callback_state_queues_in_arrival_order() {
    let mut state = CallbackState::new(1920, 1080);
    assert_eq!(state.layout, OutputLayout::new(1920, 1080));
    assert_eq!(state.take_input(), None);
    state.on_need_input_buffer(0, 0x1000);
    state.on_need_input_buffer(1, 0x2000);
    state.on_need_input_buffer(2, 0);
    let first = state.take_input().unwrap();
    assert_eq!(first, InputBuffer { index: 0, buffer: 0x1000 });
    state.return_input(first);
    assert_eq!(state.take_input(), Some(first));
    assert_eq!(state.take_input(), Some(InputBuffer { index: 1, buffer: 0x2000 }));
    assert_eq!(state.take_input(), None);
    assert_eq!(state.check_callback_error(), Err(-1));
    assert_eq!(state.check_callback_error(), Ok(()));

    let attr = BufferAttr { pts: 40_000, size: 100, offset: 0, flags: 0 };
    state.on_new_output_buffer(5, 0, 0, attr);
    state.on_new_output_buffer(6, 0x3000, -9, attr);
    state.on_new_output_buffer(7, 0x4000, 0, attr);
    state.on_error(3);
    assert_eq!(state.check_callback_error(), Err(-2));
    assert_eq!(state.check_callback_error(), Err(-9));
    assert_eq!(state.check_callback_error(), Err(3));
    state.on_stream_changed(Some(1920), Some(1088), Some(2048), None, None);
    let (output, layout) = state.take_output().unwrap();
    assert_eq!(output, OutputBuffer { index: 7, buffer: 0x4000, attr });
    assert_eq!(layout.stride, 2048);
    assert_eq!(layout.slice_height, 1088);
    assert_eq!(state.take_output(), None);

    state.on_need_input_buffer(8, 0x5000);
    state.on_new_output_buffer(9, 0x6000, 0, attr);
    state.on_error(1);
    state.clear_after_flush();
    assert!(state.inputs.is_empty() && state.outputs.is_empty() && state.errors.is_empty());
    assert_eq!(state.layout.height, 1088);
}

#[test]
fn surface_acquisition_checks() {
    assert_eq!(acquire_failure_text(AcquireStep::TimedOut).unwrap(), "timed out waiting for decoded Surface buffer");
    assert_eq!(acquire_failure_text(AcquireStep::ShuttingDown).unwrap(), "decoded Surface is shutting down");
    assert_eq!(acquire_failure_text(AcquireStep::Acquired), None);
    assert_eq!(acquire_failure_text(AcquireStep::Wait), None);
    assert_eq!(check_acquired_window_buffer(0, 0x10), Ok(()));
    assert_eq!(check_acquired_window_buffer(0, 0), Err(SurfaceError::AcquireWindowBufferFailed(0)));
    assert_eq!(check_acquired_window_buffer(-4, 0x10), Err(SurfaceError::AcquireWindowBufferFailed(-4)));
    assert_eq!(check_converted_native_buffer(0, 0x20), Ok(()));
    assert_eq!(check_converted_native_buffer(2, 0x20), Err(SurfaceError::ConvertNativeBufferFailed(2)));
    let config = OhosNativeBufferConfig { width: 64, height: 32, format: 12, usage: 3, stride: 64 };
    assert_eq!(
        native_buffer_payload(0x10, 0x20, config),
        Ok(FramePayload::NativeBuffer { native_window_buffer: 0x10, native_buffer: 0x20, config })
    );
    let empty = OhosNativeBufferConfig::default();
    let error = native_buffer_payload(0x10, 0x20, empty).unwrap_err();
    assert_eq!(
        error.message(),
        "invalid OH_NativeBuffer config OhosNativeBufferConfig { width: 0, height: 0, format: 0, usage: 0, stride: 0 }"
    );
}

#[test]
fn surface_errors_read_like_the_platform_reports_them() {
    assert_eq!(
        SurfaceError::NativeImageCreateFailed { texture_id: 3, texture_target: 0x8d65 }.message(),
        "OH_NativeImage_Create returned null for texture 3 target 0x8d65"
    );
    assert_eq!(
        SurfaceError::AttachContextFailed(-1).message(),
        "OH_NativeImage_AttachContext failed with -1"
    );
    assert_eq!(
        SurfaceError::SetDefaultUsageFailed(40001000).message(),
        "OH_ConsumerSurface_SetDefaultUsage(HW_TEXTURE) failed with 40001000"
    );
    assert_eq!(SurfaceError::ConsumerSurfaceCreateFailed.message(), "OH_ConsumerSurface_Create returned null");
    assert_eq!(
        SurfaceError::NativeWindowUnavailable.message(),
        "OH_NativeImage_AcquireNativeWindow returned null"
    );
    assert_eq!(
        SurfaceError::FrameListenerFailed(5).message(),
        "OH_NativeImage_SetOnFrameAvailableListener failed with 5"
    );
    assert_eq!(
        SurfaceError::AcquireWindowBufferFailed(7).message(),
        "OH_NativeImage_AcquireNativeWindowBuffer failed with 7"
    );
    assert_eq!(
        SurfaceError::FenceTimedOut.message(),
        "timed out waiting for OHOS NativeBuffer acquire fence"
    );
    assert_eq!(
        SurfaceError::ConvertNativeBufferFailed(8).message(),
        "OH_NativeBuffer_FromNativeWindowBuffer failed with 8"
    );
    assert_eq!(
        SurfaceError::ReleaseWindowBufferFailed(9).message(),
        "OH_NativeImage_ReleaseNativeWindowBuffer failed with 9"
    );
}

#[test]
fn fence_waits_poll_with_the_time_left() {
    assert_eq!(fence_poll_timeout_ms(MediaDuration::from_micros(10)), 1);
    assert_eq!(fence_poll_timeout_ms(MediaDuration::from_millis(100)), 100);
    assert_eq!(fence_poll_timeout_ms(MediaDuration::from_micros(2_500)), 2);
    assert_eq!(fence_poll_timeout_ms(MediaDuration::from_secs(10_000_000)), i32::MAX);
    assert_eq!(fence_poll_step(1, false), FenceWaitStep::Signaled);
    assert_eq!(fence_poll_step(0, true), FenceWaitStep::TimedOut);
    assert_eq!(fence_poll_step(-1, true), FenceWaitStep::Retry);
    assert_eq!(fence_poll_step(-1, false), FenceWaitStep::Failed);
    assert_eq!(
        fence_wait_failure_text("Bad file descriptor (os error 9)"),
        "failed waiting for OHOS NativeBuffer acquire fence: Bad file descriptor (os error 9)"
    );
}

#[test]
fn discarded_frames_are_drained_or_put_back() {
    assert_eq!(discarded_frame_update_step(3, 0, 0), DiscardedFrameStep::Drained);
    assert_eq!(discarded_frame_update_step(3, 1, NATIVE_ERROR_NO_BUFFER), DiscardedFrameStep::Requeue(2));
    match discarded_frame_update_step(3, 2, -7) {
        DiscardedFrameStep::Failed(failure) => {
            assert_eq!(failure.operation, "OH_NativeImage_UpdateSurfaceImage(discarded)");
            assert_eq!(failure.code, -7);
        }
        other => panic!("unexpected {:?}", other),
    }
    assert_eq!(external_texture_update_status(0), Ok(true));
    assert_eq!(external_texture_update_status(NATIVE_ERROR_NO_BUFFER), Ok(false));
    let failure = external_texture_update_status(4).unwrap_err();
    assert_eq!(failure.message(), "OH_NativeImage_UpdateSurfaceImage failed with OH_AVErrCode 4");
}

#[test]
fn surfaces_need_a_native_window() {
    assert_eq!(
        OhosAvCodecSurface::from_image(0x10, 0, OhosAvCodecSurfaceMode::NativeBuffer),
        Err(SurfaceError::NativeWindowUnavailable)
    );
    let mut surface = OhosAvCodecSurface::from_image(0x10, 0x20, OhosAvCodecSurfaceMode::ExternalTexture).unwrap();
    assert_eq!(surface.window(), 0x20);
    assert_eq!(surface.frames.pending, 0);
    surface.frames.frame_available();
    assert_eq!(surface.frames.poll_acquire(false), AcquireStep::Acquired);
    let image = OhosNativeBufferImage { payload: surface.external_texture_payload() };
    assert_eq!(image.payload, FramePayload::ExternalTexture { pending: true });
    let mut layout = OutputLayout::new(1280, 720);
    layout.stride = 1536;
    let output = OutputBuffer { index: 3, buffer: 0x30, attr: BufferAttr { pts: 99, size: 1, offset: 0, flags: 0 } };
    let frame = DecodedSurfaceFrame::new(image, layout, output);
    assert_eq!((frame.width, frame.height, frame.pts_micros), (1280, 720, 99));
    assert_eq!(frame.image, image);
}
