use erika::image::{
    bit_depth, bounded_extent, check_active, check_input_size, check_static_source,
    dynamic_range_for_transfer, frame_dimension, image_metadata, max_image_decode_time,
    check_decode_request, check_visual_track, is_device_loss_error, select_primaries, select_transfer, source_frame_extent,
    stream_index, validate_pixels, DecodedImage, DecodeAction, DecodeEvent, DecodeProgress, ImageDecodeStage,
    ImagePixelFormat, SdrImage, StillImageDecode, VisualTrack, SurfaceAttachPlan, FirstFrameSearch, FirstFrameStep, ImageDecodePolicy, ImageError, PlanarPixelFormat, ReadOutcome,
    ReceiveOutcome, SendOutcome, MAX_IMAGE_INPUT_BYTES,
};
use erika::media::{ColorPrimaries, DecoderBackend, MediaDuration, MediaSourceHint, TransferFunction};
use erika::renderer::output::DynamicRange;
use std::sync::atomic::AtomicBool;
use std::time::{Duration, Instant};
use erika::renderer::pipeline::{ColorRange, MatrixCoefficients};

fn work_limit_message(result: Result<ImageDecodePolicy, ImageError>) -> String {
    match result {
        Err(ImageError::WorkLimit(message)) => message,
        other => panic!("expected a work limit, got {:?}", other),
    }
}

#[test]
fn default_policy_is_valid() {
    let policy = ImageDecodePolicy::default();
    assert_eq!(policy.max_input_bytes, MAX_IMAGE_INPUT_BYTES);
    assert_eq!(policy.max_packets_before_frame, 256);
    assert_eq!(policy.decode_timeout, MediaDuration::from_secs(15));
    assert!(matches!(policy.validate(), Ok(p) if p == policy));
}

#[test]
fn policy_validation_names_the_first_bad_limit() {
    let mut policy = ImageDecodePolicy::default();
    policy.max_input_bytes = 0;
    policy.max_packets_before_frame = 0;
    assert_eq!(
        work_limit_message(policy.validate()),
        "max input bytes must be within 1..=134217728"
    );
    let mut policy = ImageDecodePolicy::default();
    policy.max_source_pixels = 33_554_433;
    assert_eq!(
        work_limit_message(policy.validate()),
        "max source pixels must be within 1..=33554432"
    );
    let mut policy = ImageDecodePolicy::default();
    policy.max_output_pixels = 0;
    assert_eq!(
        work_limit_message(policy.validate()),
        "max output pixels must be within 1..=33554432"
    );
    let mut policy = ImageDecodePolicy::default();
    policy.max_packets_before_frame = 4097;
    assert_eq!(
        work_limit_message(policy.validate()),
        "max packets before frame must be within 1..=4096"
    );
    let mut policy = ImageDecodePolicy::default();
    policy.decode_timeout = MediaDuration::zero();
    assert_eq!(
        work_limit_message(policy.validate()),
        "decode timeout must be within 1ms..=120s"
    );
    policy.decode_timeout = MediaDuration::from_millis(120_001);
    assert_eq!(
        work_limit_message(policy.validate()),
        "decode timeout must be within 1ms..=120s"
    );
    policy.decode_timeout = max_image_decode_time();
    assert!(policy.validate().is_ok());
}

#[test]
fn pixel_limits() {
    assert!(validate_pixels(10, 10, 100).is_ok());
    assert!(matches!(
        validate_pixels(10, 11, 100),
        Err(ImageError::PixelLimit { width: 10, height: 11, max_pixels: 100 })
    ));
    assert!(matches!(
        validate_pixels(0, 10, 100),
        Err(ImageError::PixelLimit { width: 0, height: 10, max_pixels: 100 })
    ));
}

#[test]
fn bounded_extent_keeps_aspect_ratio() {
    assert_eq!(bounded_extent(4000, 3000, 1920, 1080), (1440, 1080));
    assert_eq!(bounded_extent(4000, 1000, 1000, 0), (1000, 250));
    assert_eq!(bounded_extent(100, 50, 0, 0), (100, 50));
    assert_eq!(bounded_extent(100, 50, 200, 200), (100, 50));
    assert_eq!(bounded_extent(10000, 1, 100, 100), (100, 1));
    assert_eq!(bounded_extent(1, 10000, 100, 100), (1, 100));
}

#[test]
fn bounded_extent_fits_the_bounds() {
    for (sw, sh, mw, mh) in [(4000u32, 3000u32, 1920u32, 1080u32), (333, 777, 100, 50), (7, 9000, 3, 3)] {
        let (w, h) = bounded_extent(sw, sh, mw, mh);
        assert!(w >= 1 && h >= 1);
        assert!(w <= mw && h <= mh);
    }
}

#[test]
fn metadata_follows_the_decoded_frame() {
    let metadata = image_metadata(
        64,
        32,
        PlanarPixelFormat::P010,
        ColorPrimaries::Bt2020,
        TransferFunction::Pq,
        MatrixCoefficients::Bt2020Ncl,
        ColorRange::Limited,
    );
    assert_eq!(metadata.bit_depth, 10);
    assert_eq!(metadata.source_dynamic_range, DynamicRange::Hdr10Pq);
    assert_eq!(metadata.decode_backend, DecoderBackend::Software);
    assert!(metadata.is_hdr());
    assert_eq!(bit_depth(PlanarPixelFormat::Nv12), 8);
    assert_eq!(dynamic_range_for_transfer(TransferFunction::Hlg), DynamicRange::Hlg);
    assert_eq!(dynamic_range_for_transfer(TransferFunction::Bt1886), DynamicRange::Sdr);
    assert_eq!(dynamic_range_for_transfer(TransferFunction::Unknown), DynamicRange::Unknown);
    assert_eq!(
        select_primaries(ColorPrimaries::Unknown, ColorPrimaries::Bt709),
        ColorPrimaries::Bt709
    );
    assert_eq!(
        select_primaries(ColorPrimaries::Bt2020, ColorPrimaries::Bt709),
        ColorPrimaries::Bt2020
    );
    assert_eq!(
        select_transfer(TransferFunction::Unknown, TransferFunction::Hlg),
        TransferFunction::Hlg
    );
    assert_eq!(frame_dimension(-4), 0);
    assert_eq!(frame_dimension(720), 720);
}

#[test]
fn static_images_come_only_from_local_sources() {
    assert!(check_static_source("/data/cover.avif", MediaSourceHint::Auto).is_ok());
    assert!(check_static_source("/data/cover.avif", MediaSourceHint::LocalFile).is_ok());
    for (uri, hint) in [
        ("https://example.com/a.avif", MediaSourceHint::Auto),
        ("http://example.com/a.avif", MediaSourceHint::LocalFile),
        ("/data/cover.avif", MediaSourceHint::Http),
    ] {
        match check_static_source(uri, hint) {
            Err(ImageError::Source(message)) => assert_eq!(
                message,
                "static image decode accepts only a cached local file or owned fd"
            ),
            other => panic!("unexpected {:?}", other),
        }
    }
}

#[test]
fn input_size_limit_message() {
    assert!(check_input_size(None, 10).is_ok());
    assert!(check_input_size(Some(10), 10).is_ok());
    match check_input_size(Some(4096), 1024) {
        Err(ImageError::WorkLimit(message)) => assert_eq!(
            message,
            "encoded image is 4096 bytes, exceeding the 1024-byte policy limit"
        ),
        other => panic!("unexpected {:?}", other),
    }
}

#[test]
fn stream_index_must_fit_i32() {
    assert!(matches!(stream_index(3), Ok(3)));
    match stream_index(0x8000_0000) {
        Err(ImageError::Decode(message)) => {
            assert_eq!(message, "visual track id 2147483648 does not fit i32")
        }
        other => panic!("unexpected {:?}", other),
    }
}

#[test]
fn cancellation_wins_over_the_time_budget() {
    let timeout = MediaDuration::from_millis(1500);
    assert!(matches!(
        check_active(true, MediaDuration::from_secs(10), timeout, "decode"),
        Err(ImageError::Cancelled)
    ));
    assert!(check_active(false, MediaDuration::from_millis(1500), timeout, "decode").is_ok());
    match check_active(false, MediaDuration::from_millis(1501), timeout, "decode") {
        Err(ImageError::WorkLimit(message)) => assert_eq!(message, "decode exceeded 1.5 seconds"),
        other => panic!("unexpected {:?}", other),
    }
    match check_active(false, MediaDuration::from_secs(16), MediaDuration::from_secs(15), "demux") {
        Err(ImageError::WorkLimit(message)) => assert_eq!(message, "demux exceeded 15 seconds"),
        other => panic!("unexpected {:?}", other),
    }
}

#[test]
fn first_frame_search_is_bounded() {
    let mut policy = ImageDecodePolicy::default();
    policy.max_packets_before_frame = 2;
    policy.max_input_bytes = 100;
    let mut search = FirstFrameSearch::new(policy);
    assert!(search.begin_round().is_none());
    assert!(matches!(search.after_receive(ReceiveOutcome::NeedMoreInput), FirstFrameStep::ReadPacket));
    assert!(matches!(search.after_read(ReadOutcome::Packet(60)), FirstFrameStep::SendPacket));
    assert!(matches!(search.after_send(SendOutcome::Accepted), FirstFrameStep::ReceiveAgain));
    assert!(search.begin_round().is_none());
    match search.after_read(ReadOutcome::Packet(41)) {
        FirstFrameStep::Fail(ImageError::WorkLimit(message)) => {
            assert_eq!(message, "compressed packets exceeded 100 bytes")
        }
        other => panic!("unexpected {:?}", other),
    }
    match search.begin_round() {
        Some(ImageError::Decode(message)) => assert_eq!(message, "no image frame after 2 packets"),
        other => panic!("unexpected {:?}", other),
    }
}

#[test]
fn first_frame_search_outcomes() {
    let mut search = FirstFrameSearch::new(ImageDecodePolicy::default());
    assert!(matches!(search.after_receive(ReceiveOutcome::Frame), FirstFrameStep::Done));
    assert!(matches!(
        search.after_receive(ReceiveOutcome::EndOfStream),
        FirstFrameStep::Fail(ImageError::NoFrame)
    ));
    assert!(matches!(
        search.after_receive(ReceiveOutcome::Failed("bad".to_string())),
        FirstFrameStep::Fail(ImageError::Decode(ref m)) if m == "bad"
    ));
    assert!(matches!(search.after_read(ReadOutcome::EndOfInput), FirstFrameStep::SendEndOfStream));
    assert!(matches!(
        search.after_read(ReadOutcome::Failed("eof".to_string())),
        FirstFrameStep::Fail(ImageError::Demux(ref m)) if m == "eof"
    ));
    assert!(matches!(search.after_send(SendOutcome::TryAgain), FirstFrameStep::ReceiveAgain));
    assert!(matches!(
        search.after_final_receive(ReceiveOutcome::TryAgain),
        FirstFrameStep::Fail(ImageError::NoFrame)
    ));
    assert!(matches!(search.after_final_receive(ReceiveOutcome::Frame), FirstFrameStep::Done));
}

#[test]
fn sdr_render_extent_is_bounded_and_checked() {
    let metadata = image_metadata(
        4000,
        3000,
        PlanarPixelFormat::Nv12,
        ColorPrimaries::Bt709,
        TransferFunction::Srgb,
        MatrixCoefficients::Bt709,
        ColorRange::Full,
    );
    let mut image = DecodedImage::new(metadata, ImageDecodePolicy::default());
    assert_eq!(image.metadata(), metadata);
    assert!(!image.metadata().is_hdr());
    assert!(matches!(image.render_sdr(1920, 1080), Ok((1440, 1080))));
    assert!(!image.planes_retained());
    match image.render_sdr(1920, 1080) {
        Err(ImageError::Renderer(message)) => assert_eq!(message, "decoded image pixels were already consumed"),
        other => panic!("unexpected {:?}", other),
    }
    let mut policy = ImageDecodePolicy::default();
    policy.max_output_pixels = 1000;
    let mut small = DecodedImage::new(metadata, policy);
    assert!(matches!(
        small.render_sdr(1920, 1080),
        Err(ImageError::PixelLimit { width: 1440, height: 1080, max_pixels: 1000 })
    ));
    assert!(small.planes_retained());
    assert!(small.validate_output_extent(10, 100).is_ok());
}

#[test]
fn decode_requests_are_checked_before_any_work() {
    let policy = ImageDecodePolicy::default();
    assert!(matches!(
        check_decode_request(policy, "/data/a.avif", MediaSourceHint::Auto),
        Ok(p) if p == policy
    ));
    let mut bad = policy;
    bad.max_output_pixels = 0;
    assert!(matches!(
        check_decode_request(bad, "https://x/a.avif", MediaSourceHint::Http),
        Err(ImageError::WorkLimit(ref m)) if m == "max output pixels must be within 1..=33554432"
    ));
    assert!(matches!(
        check_decode_request(policy, "https://x/a.avif", MediaSourceHint::Auto),
        Err(ImageError::Source(_))
    ));
}

#[test]
fn visual_tracks_are_checked_before_decoding() {
    assert!(matches!(check_visual_track(0, 0, 5, 100), Ok(5)));
    assert!(matches!(check_visual_track(10, 10, 1, 100), Ok(1)));
    assert!(matches!(
        check_visual_track(20, 10, 1, 100),
        Err(ImageError::PixelLimit { width: 20, height: 10, max_pixels: 100 })
    ));
    assert!(matches!(
        check_visual_track(0, 10, u64::MAX, 100),
        Err(ImageError::Decode(ref m)) if m == "visual track id 18446744073709551615 does not fit i32"
    ));
}

#[test]
fn decoded_frames_are_bounded_before_repacking() {
    assert!(matches!(
        source_frame_extent(4000, 3000, 1920, 1080, 33_554_432),
        Ok(((4000, 3000), (1440, 1080)))
    ));
    assert!(matches!(
        source_frame_extent(640, 480, 0, 0, 33_554_432),
        Ok(((640, 480), (640, 480)))
    ));
    assert!(matches!(
        source_frame_extent(-1, 480, 0, 0, 33_554_432),
        Err(ImageError::PixelLimit { width: 0, height: 480, max_pixels: 33_554_432 })
    ));
    assert!(matches!(
        source_frame_extent(10_000, 10_000, 0, 0, 33_554_432),
        Err(ImageError::PixelLimit { width: 10_000, height: 10_000, max_pixels: 33_554_432 })
    ));
}

#[test]
fn surface_renderers_take_the_pixels_once() {
    let hdr = image_metadata(
        64,
        64,
        PlanarPixelFormat::P010,
        ColorPrimaries::Bt2020,
        TransferFunction::Hlg,
        MatrixCoefficients::Bt2020Ncl,
        ColorRange::Limited,
    );
    let mut image = DecodedImage::new(hdr, ImageDecodePolicy::default());
    assert!(!image.detach_surface());
    match image.resize_surface() {
        Err(ImageError::Renderer(m)) => assert_eq!(m, "cannot resize before image surface attach"),
        other => panic!("unexpected {:?}", other),
    }
    match image.render_surface() {
        Err(ImageError::Renderer(m)) => assert_eq!(m, "cannot render before image surface attach"),
        other => panic!("unexpected {:?}", other),
    }
    assert_eq!(image.attach_surface(), SurfaceAttachPlan::CreateRenderer { hdr_output: true });
    assert!(image.surface_renderer_created().is_ok());
    assert!(image.surface_attached() && !image.planes_retained());
    assert_eq!(image.attach_surface(), SurfaceAttachPlan::Reattach);
    assert!(image.resize_surface().is_ok());
    assert!(image.render_surface().is_ok());
    assert!(image.detach_surface());
    match image.surface_renderer_created() {
        Err(ImageError::Renderer(m)) => assert_eq!(m, "decoded image pixels were already consumed"),
        other => panic!("unexpected {:?}", other),
    }
    let sdr = image_metadata(
        8,
        8,
        PlanarPixelFormat::Nv12,
        ColorPrimaries::Bt709,
        TransferFunction::Srgb,
        MatrixCoefficients::Bt709,
        ColorRange::Full,
    );
    let fresh = DecodedImage::new(sdr, ImageDecodePolicy::default());
    assert_eq!(fresh.attach_surface(), SurfaceAttachPlan::CreateRenderer { hdr_output: false });
}

#[test]
fn only_device_loss_rebuilds_the_shared_renderer() {
    assert!(is_device_loss_error("wgpu: Device Lost while presenting"));
    assert!(is_device_loss_error("VK_ERROR_DEVICE_LOST"));
    assert!(is_device_loss_error("device lost"));
    assert!(!is_device_loss_error("out of memory"));
    assert!(!is_device_loss_error("device"));
    assert!(!is_device_loss_error(""));
    assert!(!is_device_loss_error("device-lost"));
}

#[test]
fn ensure_active_reads_the_flag_and_the_clock() {
    let started = Instant::now();
    let live = AtomicBool::new(false);
    assert!(erika::image::ensure_active(&live, &started, MediaDuration::from_secs(60), "probe").is_ok());
    let stopped = AtomicBool::new(true);
    assert!(matches!(
        erika::image::ensure_active(&stopped, &started, MediaDuration::from_secs(60), "probe"),
        Err(ImageError::Cancelled)
    ));
    if let Some(long_ago) = Instant::now().checked_sub(Duration::from_secs(5)) {
        match erika::image::ensure_active(&live, &long_ago, MediaDuration::from_millis(1500), "after demux open") {
            Err(ImageError::WorkLimit(message)) => assert_eq!(message, "after demux open exceeded 1.5 seconds"),
            other => panic!("unexpected {:?}", other),
        }
    }
}

#[test]
fn decode_stages_name_themselves_in_budget_messages() {
    use_stage(ImageDecodeStage::BeforeSourceOpen, "before source open");
    use_stage(ImageDecodeStage::AfterSourceOpen, "after source open");
    use_stage(ImageDecodeStage::AfterDemuxOpen, "after demux open");
    use_stage(ImageDecodeStage::AfterStreamProbe, "after stream probe");
    use_stage(ImageDecodeStage::AfterDecoderOpen, "after decoder open");
    use_stage(ImageDecodeStage::Decode, "decode");
    use_stage(ImageDecodeStage::BeforeRepack, "before static image repack");
    use_stage(ImageDecodeStage::AfterRepack, "after static image repack");
}

fn use_stage(stage: ImageDecodeStage, label: &str) {
    assert_eq!(stage.label(), label);
    match check_active(false, MediaDuration::from_secs(2), MediaDuration::from_secs(1), stage.label()) {
        Err(ImageError::WorkLimit(message)) => assert_eq!(message, format!("{label} exceeded 1 seconds")),
        other => panic!("unexpected {:?}", other),
    }
}

#[test]
fn sdr_readbacks_are_tightly_packed_rgba() {
    let image = SdrImage::from_readback(3, 2, vec![7u8; 24]);
    assert_eq!(image.width, 3);
    assert_eq!(image.height, 2);
    assert_eq!(image.row_bytes, 12);
    assert_eq!(image.pixel_format, ImagePixelFormat::Rgba8888);
    assert_eq!(image.rgba, vec![7u8; 24]);
    let wide = SdrImage::from_readback(u32::MAX / 2, 1, Vec::new());
    assert_eq!(wide.row_bytes, u32::MAX);
}

fn expect_check(action: DecodeAction, stage: ImageDecodeStage) {
    match action {
        DecodeAction::CheckActive(s) => assert_eq!(s, stage),
        other => panic!("expected a check at {:?}, got {:?}", stage, other),
    }
}

#[test]
fn still_image_decode_runs_its_checks_in_order() {
    let policy = ImageDecodePolicy::default();
    let (mut d, a) = StillImageDecode::start(policy, "/data/a.avif", MediaSourceHint::Auto, 1920, 1080).unwrap();
    expect_check(a, ImageDecodeStage::BeforeSourceOpen);
    assert!(matches!(d.step(DecodeEvent::Done), DecodeAction::OpenSource));
    expect_check(d.step(DecodeEvent::Done), ImageDecodeStage::AfterSourceOpen);
    assert!(matches!(d.step(DecodeEvent::Done), DecodeAction::MeasureSource));
    assert!(matches!(d.step(DecodeEvent::SourceLength(Some(1000))), DecodeAction::OpenDemuxer));
    expect_check(d.step(DecodeEvent::Done), ImageDecodeStage::AfterDemuxOpen);
    assert!(matches!(d.step(DecodeEvent::Done), DecodeAction::ProbeVisualTrack));
    let track = VisualTrack { width: 4000, height: 3000, track_id: 2 };
    expect_check(d.step(DecodeEvent::Probed(Some(track))), ImageDecodeStage::AfterStreamProbe);
    assert!(matches!(d.step(DecodeEvent::Done), DecodeAction::SelectStream(2)));
    assert!(matches!(d.step(DecodeEvent::Done), DecodeAction::OpenDecoder(2)));
    expect_check(d.step(DecodeEvent::Done), ImageDecodeStage::AfterDecoderOpen);
    assert!(matches!(d.step(DecodeEvent::Done), DecodeAction::SearchFirstFrame));
    expect_check(d.step(DecodeEvent::FirstFrame { width: 4000, height: 3000 }), ImageDecodeStage::BeforeRepack);
    assert!(matches!(d.step(DecodeEvent::Done), DecodeAction::Repack { width: 1440, height: 1080 }));
    expect_check(d.step(DecodeEvent::Repacked(true)), ImageDecodeStage::AfterRepack);
    assert!(matches!(d.step(DecodeEvent::Done), DecodeAction::Finish { width: 4000, height: 3000 }));
    assert_eq!(d.progress, DecodeProgress::Finished);
}

#[test]
fn still_image_decode_refuses_before_opening_anything() {
    let policy = ImageDecodePolicy::default();
    assert!(matches!(
        StillImageDecode::start(policy, "https://x/a.avif", MediaSourceHint::Auto, 0, 0),
        Err(ImageError::Source(_))
    ));
    let (mut d, _) = StillImageDecode::start(policy, "/data/a.avif", MediaSourceHint::Auto, 0, 0).unwrap();
    assert!(matches!(d.step(DecodeEvent::Stopped(ImageError::Cancelled)), DecodeAction::Fail(ImageError::Cancelled)));
    assert_eq!(d.progress, DecodeProgress::Abandoned);
}

#[test]
fn still_image_decode_maps_each_failure() {
    let policy = ImageDecodePolicy::default();
    let (mut d, _) = StillImageDecode::start(policy, "/data/a.avif", MediaSourceHint::Auto, 0, 0).unwrap();
    d.step(DecodeEvent::Done);
    match d.step(DecodeEvent::Failed("no such file".to_string())) {
        DecodeAction::Fail(ImageError::Source(m)) => assert_eq!(m, "no such file"),
        other => panic!("unexpected {:?}", other),
    }

    let (mut d, _) = StillImageDecode::start(policy, "/data/a.avif", MediaSourceHint::Auto, 0, 0).unwrap();
    d.step(DecodeEvent::Done);
    d.step(DecodeEvent::Done);
    d.step(DecodeEvent::Done);
    match d.step(DecodeEvent::SourceLength(Some(MAX_IMAGE_INPUT_BYTES + 1))) {
        DecodeAction::Fail(ImageError::WorkLimit(m)) => assert_eq!(
            m,
            format!("encoded image is {} bytes, exceeding the {}-byte policy limit", MAX_IMAGE_INPUT_BYTES + 1, MAX_IMAGE_INPUT_BYTES)
        ),
        other => panic!("unexpected {:?}", other),
    }

    let (mut d, _) = StillImageDecode::start(policy, "/data/a.avif", MediaSourceHint::Auto, 0, 0).unwrap();
    for event in [DecodeEvent::Done, DecodeEvent::Done, DecodeEvent::Done, DecodeEvent::SourceLength(None)] {
        d.step(event);
    }
    match d.step(DecodeEvent::Failed("bad container".to_string())) {
        DecodeAction::Fail(ImageError::Demux(m)) => assert_eq!(m, "bad container"),
        other => panic!("unexpected {:?}", other),
    }
    let (mut d, _) = StillImageDecode::start(policy, "/data/a.avif", MediaSourceHint::Auto, 0, 0).unwrap();
    for event in [DecodeEvent::Done, DecodeEvent::Done, DecodeEvent::Done, DecodeEvent::SourceLength(None),
        DecodeEvent::Done, DecodeEvent::Done] {
        d.step(event);
    }
    assert!(matches!(d.step(DecodeEvent::Probed(None)), DecodeAction::Fail(ImageError::NoVisualTrack)));

    let (mut d, _) = StillImageDecode::start(policy, "/data/a.avif", MediaSourceHint::Auto, 0, 0).unwrap();
    for event in [DecodeEvent::Done, DecodeEvent::Done, DecodeEvent::Done, DecodeEvent::SourceLength(None),
        DecodeEvent::Done, DecodeEvent::Done,
        DecodeEvent::Probed(Some(VisualTrack { width: 0, height: 0, track_id: 0 })), DecodeEvent::Done,
        DecodeEvent::Done] {
        d.step(event);
    }
    match d.step(DecodeEvent::Failed("no decoder".to_string())) {
        DecodeAction::Fail(ImageError::Decode(m)) => assert_eq!(m, "no decoder"),
        other => panic!("unexpected {:?}", other),
    }
    d = StillImageDecode { progress: DecodeProgress::SearchingFirstFrame, ..d };
    assert!(matches!(
        d.step(DecodeEvent::FirstFrame { width: -1, height: 10 }),
        DecodeAction::Fail(ImageError::PixelLimit { width: 0, height: 10, .. })
    ));
    d = StillImageDecode { progress: DecodeProgress::Repacking, ..d };
    assert!(matches!(d.step(DecodeEvent::Repacked(false)), DecodeAction::Fail(ImageError::UnsupportedPixelFormat)));
}
