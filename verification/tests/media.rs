use erika::media::MediaDuration;
use erika::overlay::{OverlayTimeline, OverlayViewport};
use erika::subtitle::{LibassRenderConfig, SubtitleCue, SubtitleError, SubtitleTimeline};
use erika::subtitle_charset::{detect_and_transcode, inspect, ByteRange, TranscodedMemorySource};

#[test]
fn durations_convert_between_units() {
    let d = MediaDuration::from_millis(1500);
    assert_eq!(d.as_secs(), 1);
    assert_eq!(d.subsec_nanos, 500_000_000);
    assert_eq!(d.as_nanos(), 1_500_000_000);
    assert_eq!(MediaDuration::from_micros(2_000_001).as_nanos(), 2_000_001_000);
    assert_eq!(MediaDuration::from_secs(3).as_nanos(), 3_000_000_000);
    assert!(MediaDuration::zero().is_zero());
    assert!(!MediaDuration::from_micros(1).is_zero());
    assert_eq!(MediaDuration::from_millis(u64::MAX).as_secs(), u64::MAX / 1000);
}

#[test]
fn transcoded_sources_read_clipped_ranges() {
    let source = TranscodedMemorySource::new("mem://sub.srt".to_string(), b"0123456789".to_vec());
    assert_eq!(source.uri(), "mem://sub.srt");
    assert_eq!(source.len(), Some(10));
    assert_eq!(source.read_range(ByteRange { start: 2, length: Some(3) }), b"234".to_vec());
    assert_eq!(source.read_range(ByteRange { start: 8, length: Some(10) }), b"89".to_vec());
    assert_eq!(source.read_range(ByteRange { start: 7, length: None }), b"789".to_vec());
    assert_eq!(source.read_range(ByteRange { start: 10, length: None }), Vec::<u8>::new());
    assert_eq!(source.read_range(ByteRange { start: u64::MAX, length: Some(1) }), Vec::<u8>::new());
    assert_eq!(source.read_range(ByteRange { start: 1, length: Some(u64::MAX) }), b"123456789".to_vec());
}

#[test]
fn charset_detection_is_not_included() {
    assert_eq!(detect_and_transcode(b"\xff\xfeh\x00i\x00"), None);
    let inspection = inspect(b"hello");
    assert_eq!(inspection.detected, "unsupported");
    assert!(inspection.utf8.is_none());
}

#[test]
fn overlay_without_subtitles_is_empty() {
    let mut timeline = OverlayTimeline::default();
    let frame = timeline.render(MediaDuration::from_millis(500), OverlayViewport::new(640, 360));
    assert_eq!(frame.pts, MediaDuration::from_millis(500));
    assert_eq!(frame.viewport, OverlayViewport::new(640, 360));
    assert!(frame.is_empty());
    assert!(!frame.subtitle_changed);
    assert_eq!(OverlayViewport::new(0, 0), OverlayViewport { width: 1, height: 1 });
}

fn hello_cue_timeline() -> SubtitleTimeline {
    SubtitleTimeline::new(vec![SubtitleCue {
        start: MediaDuration::from_secs(1),
        end: MediaDuration::from_secs(3),
        text: "hello".to_string(),
    }])
}

// Subtitle rendering is not part of this AV1/AVIF build: the debug subtitle
// renderer keeps no cues and draws nothing, so even inside a cue's time span
// the overlay frame has no subtitle planes.
#[test]
fn overlay_timeline_renders_subtitles_only() {
    let mut timeline = OverlayTimeline::default().with_subtitles(hello_cue_timeline());
    assert!(timeline.subtitles.is_some());
    let frame = timeline.render(MediaDuration::from_secs(2), OverlayViewport::new(640, 360));
    assert_eq!(frame.pts, MediaDuration::from_secs(2));
    assert_eq!(frame.viewport, OverlayViewport::new(640, 360));
    assert!(frame.is_empty());
    assert!(frame.subtitle_planes.is_empty());
    assert!(frame.subtitle_alpha_planes.is_empty());
    assert!(!frame.subtitle_changed);
}

// With nothing drawn, the debug subtitle frame never changes between renders.
#[test]
fn overlay_timeline_reports_unchanged_debug_subtitles() {
    let mut timeline = OverlayTimeline::default().with_subtitles(hello_cue_timeline());
    let first = timeline.render(MediaDuration::from_secs(2), OverlayViewport::new(640, 360));
    let second = timeline.render(MediaDuration::from_secs(2), OverlayViewport::new(640, 360));
    assert!(!first.subtitle_changed);
    assert!(!second.subtitle_changed);
}

#[test]
fn overlay_ass_subtitles_are_not_included() {
    match OverlayTimeline::default().with_ass_subtitles(b"[Script Info]\n", LibassRenderConfig::default()) {
        Err(SubtitleError::Libass(message)) => assert_eq!(
            message,
            "subtitle support is not included in this AV1/AVIF-specialized Erika build"
        ),
        Ok(_) => panic!("libass is not part of this build"),
        Err(other) => panic!("unexpected {:?}", other),
    }
}
