use erika::media::MediaDuration;
use erika::subtitle::{
    decoded_subtitle_frames_to_ass_script, decoded_subtitle_frames_to_timeline, parse_ass_events,
    parse_srt, parse_subtitle_text_file, parse_webvtt, subtitle_path_extension, uri_path_component,
    AssBitmapPlane, AssColor, AssTrackResources, DecodedSubtitleFrame, LibassRenderConfig,
    LibassRenderPlan, SubtitleAlphaBitmap, SubtitleBitmapColorSpace, SubtitleBitmapPlacement,
    SubtitleBitmapPlane, SubtitleBitmapSet, SubtitleCue, SubtitleError, SubtitleFileFormat,
    SubtitleFontAttachment, SubtitleFrame, SubtitleFrameChange, SubtitleRenderBackend,
    SubtitleRenderOutput, SubtitleRenderRequest, SubtitleRenderer, SubtitleRendererCore,
    SubtitleTextFormat, SubtitleTextSegment, SubtitleTimeline, SubtitleTrackConfig,
    SubtitleTrackSource, SubtitleViewport, SUBTITLE_OVERRIDE_ALL, SUBTITLE_OVERRIDE_LEGACY_FORCE,
};

const REMOVED: &str = "subtitle support is not included in this AV1/AVIF-specialized Erika build";

fn assert_removed<T: std::fmt::Debug>(result: Result<T, SubtitleError>) {
    match result {
        Err(SubtitleError::Libass(message)) => assert_eq!(message, REMOVED),
        other => panic!("expected the removed-feature error, got {:?}", other),
    }
}

#[test]
fn subtitle_formats_follow_the_extension() {
    assert_eq!(SubtitleFileFormat::from_path("movie.srt"), Some(SubtitleFileFormat::Srt));
    assert_eq!(SubtitleFileFormat::from_path("MOVIE.SRT"), Some(SubtitleFileFormat::Srt));
    assert_eq!(SubtitleFileFormat::from_path("a/b.VTT"), Some(SubtitleFileFormat::WebVtt));
    assert_eq!(SubtitleFileFormat::from_path("a.webvtt"), Some(SubtitleFileFormat::WebVtt));
    assert_eq!(SubtitleFileFormat::from_path("song.Ass"), Some(SubtitleFileFormat::Ass));
    assert_eq!(SubtitleFileFormat::from_path("song.ssa"), Some(SubtitleFileFormat::Ass));
    assert_eq!(SubtitleFileFormat::from_path("notes.txt"), None);
    assert_eq!(SubtitleFileFormat::from_path("dir.srt/readme"), None);
    assert_eq!(SubtitleFileFormat::from_path("dir.srt\\readme"), None);
    assert_eq!(SubtitleFileFormat::from_path("srt"), None);
}

#[test]
fn subtitle_format_from_uri_ignores_query_and_fragment() {
    assert_eq!(
        SubtitleFileFormat::from_uri("https://cdn.example/sub.vtt?token=1#t=3"),
        Some(SubtitleFileFormat::WebVtt)
    );
    assert_eq!(SubtitleFileFormat::from_uri("https://cdn.example/sub?x=.srt"), None);
    assert_eq!(uri_path_component("file:///a/b.srt?x#y"), "file:///a/b.srt");
    assert_eq!(uri_path_component("a#b?c"), "a");
    assert_eq!(subtitle_path_extension("dir/file.tar.ass"), Some("ass"));
    assert_eq!(subtitle_path_extension("dir.x/file"), None);
    assert_eq!(subtitle_path_extension("file."), Some(""));
}

#[test]
fn clipping_keeps_the_visible_part() {
    let placement = SubtitleBitmapPlacement::new(-5, 10, 20, 20);
    assert_eq!(
        placement.clipped_to(100, 25),
        Some(SubtitleBitmapPlacement::new(0, 10, 15, 15))
    );
    assert_eq!(SubtitleBitmapPlacement::new(100, 0, 5, 5).clipped_to(100, 100), None);
    assert_eq!(SubtitleBitmapPlacement::new(-10, -10, 5, 5).clipped_to(100, 100), None);
    assert_eq!(
        SubtitleBitmapPlacement::new(1, 2, 3, 4).clipped_to(100, 100),
        Some(SubtitleBitmapPlacement::new(1, 2, 3, 4))
    );
}

#[test]
fn libass_colors_store_transparency() {
    assert_eq!(
        AssColor::from_libass_rgba(0x1122_3380),
        AssColor { red: 0x11, green: 0x22, blue: 0x33, alpha: 0x7f }
    );
    assert_eq!(AssColor::from_libass_rgba(0xffff_ff00).alpha, 255);
}

#[test]
fn alpha_masks_render_premultiplied_coverage() {
    let mask = SubtitleAlphaBitmap::new(
        SubtitleBitmapPlacement::new(3, 4, 2, 2),
        3,
        0x1020_3000,
        vec![255, 128, 9, 0, 64, 9],
    );
    assert_eq!(mask.required_len(), 5);
    assert!(mask.is_valid());
    let plane = mask.to_rgba_plane().unwrap();
    assert_eq!((plane.x, plane.y, plane.width, plane.height), (3, 4, 2, 2));
    assert_eq!(
        plane.rgba,
        vec![
            0x10, 0x20, 0x30, 255, 0x10, 0x20, 0x30, 128, 0x10, 0x20, 0x30, 0, 0x10, 0x20, 0x30, 64
        ]
    );
    let half = SubtitleAlphaBitmap::new(SubtitleBitmapPlacement::new(0, 0, 1, 1), 0, 0xffff_ff80, vec![255]);
    assert_eq!(half.stride, 1);
    assert_eq!(half.to_rgba_plane().unwrap().rgba, vec![255, 255, 255, 127]);
}

#[test]
fn short_or_empty_masks_do_not_render() {
    let short = SubtitleAlphaBitmap::new(SubtitleBitmapPlacement::new(0, 0, 2, 2), 2, 0, vec![1, 2, 3]);
    assert!(!short.is_valid());
    assert_eq!(short.to_rgba_plane(), None);
    let empty = SubtitleAlphaBitmap::new(SubtitleBitmapPlacement::new(0, 0, 0, 2), 0, 0, vec![]);
    assert_eq!(empty.required_len(), 0);
    assert!(empty.is_valid());
    assert_eq!(empty.to_rgba_plane(), None);
}

#[test]
fn bitmap_sets_render_only_renderable_parts() {
    let mut set = SubtitleBitmapSet::new(MediaDuration::from_millis(40), 640, 360)
        .with_color_space(SubtitleBitmapColorSpace::Video)
        .with_changed(false);
    assert_eq!(set.color_space, SubtitleBitmapColorSpace::Video);
    assert!(!set.changed);
    set.push(SubtitleAlphaBitmap::new(SubtitleBitmapPlacement::new(0, 0, 0, 5), 0, 0, vec![]));
    assert!(set.parts.is_empty());
    set.push(SubtitleAlphaBitmap::new(SubtitleBitmapPlacement::new(0, 0, 1, 1), 1, 0xff00_0000, vec![255]));
    set.push(SubtitleAlphaBitmap::new(SubtitleBitmapPlacement::new(0, 0, 2, 2), 2, 0, vec![1]));
    assert_eq!(set.parts.len(), 2);
    let frame = set.to_frame();
    assert_eq!(frame.pts, MediaDuration::from_millis(40));
    assert_eq!(frame.planes.len(), 1);
    assert_eq!(frame.planes[0].rgba, vec![255, 0, 0, 255]);
    let output = SubtitleRenderOutput::Alpha(set.clone()).into_rgba_frame();
    assert_eq!(output, frame);
}

#[test]
fn ass_bitmaps_are_checked_and_rendered() {
    assert_eq!(
        AssBitmapPlane::new(0, 0, 4, 2, 3, 0, vec![0; 8]),
        Err(SubtitleError::InvalidBitmap { width: 4, height: 2, stride: 3, bytes: 8 })
    );
    assert_eq!(
        AssBitmapPlane::new(0, 0, 2, 2, 2, 0, vec![0; 3]),
        Err(SubtitleError::InvalidBitmap { width: 2, height: 2, stride: 2, bytes: 3 })
    );
    let bitmap = AssBitmapPlane::new(1, 2, 1, 2, 1, 0x0000_ff00, vec![255, 0]).unwrap();
    let mask = bitmap.as_alpha_bitmap().unwrap().unwrap();
    assert_eq!(mask.placement, SubtitleBitmapPlacement::new(1, 2, 1, 2));
    let plane = bitmap.to_rgba_plane().unwrap();
    assert_eq!(plane.rgba, vec![0, 0, 255, 255, 0, 0, 255, 0]);
    let empty = AssBitmapPlane::new(0, 0, 0, 0, 0, 0, vec![]).unwrap();
    assert_eq!(empty.as_alpha_bitmap(), Ok(None));
    assert_eq!(
        empty.to_rgba_plane(),
        Err(SubtitleError::InvalidBitmap { width: 0, height: 0, stride: 0, bytes: 0 })
    );
    let frame = SubtitleFrame::from_ass_bitmaps(MediaDuration::from_secs(1), &[empty, bitmap]).unwrap();
    assert_eq!(frame.planes.len(), 1);
    assert_eq!(frame.planes[0], plane);
}

#[test]
fn bitmap_planes_carry_their_canvas() {
    let plane = SubtitleBitmapPlane::new(1, 2, 3, 4, vec![0; 48]);
    assert_eq!((plane.canvas_width, plane.canvas_height), (0, 0));
    let plane = plane.with_canvas(1920, 1080);
    assert_eq!((plane.canvas_width, plane.canvas_height), (1920, 1080));
    assert_eq!(plane.rgba.len(), 48);
}

#[test]
fn debug_renderer_draws_nothing_in_this_build() {
    let timeline = SubtitleTimeline::new(vec![SubtitleCue {
        start: MediaDuration::from_secs(1),
        end: MediaDuration::from_secs(3),
        text: "hello".to_string(),
    }]);
    assert!(timeline.cues().is_empty());
    assert!(timeline.active_cues(MediaDuration::from_secs(2)).is_empty());
    assert!(timeline.render_debug_frame(MediaDuration::from_secs(2), 640, 360).planes.is_empty());
    let mut core = SubtitleRendererCore::new_debug(timeline);
    let result = core.render(MediaDuration::from_secs(2), SubtitleViewport::new(640, 360));
    assert_eq!(result.backend, SubtitleRenderBackend::DebugTimeline);
    assert_eq!(result.change, SubtitleFrameChange::Unchanged);
    assert!(result.frame.planes.is_empty());
    assert_eq!(SubtitleRenderer::backend(&core), SubtitleRenderBackend::DebugTimeline);
    let output = SubtitleRenderer::render(&mut core, SubtitleRenderRequest::new(MediaDuration::from_secs(2), 0, 0))
        .unwrap();
    assert_eq!(output.into_rgba_frame().pts, MediaDuration::from_secs(2));
    let libass = SubtitleRendererCore::render_ass_bitmaps(MediaDuration::from_secs(5), &[]).unwrap();
    assert_eq!(libass.backend, SubtitleRenderBackend::Libass);
}

#[test]
fn removed_entry_points_report_the_build() {
    assert_removed(parse_srt("1\n00:00:01,000 --> 00:00:02,000\nhi\n"));
    assert_removed(parse_webvtt("WEBVTT\n"));
    assert_removed(parse_ass_events("[Events]\n"));
    assert_removed(parse_subtitle_text_file(SubtitleFileFormat::Srt, ""));
    let frames = [DecodedSubtitleFrame::new(1, None, None)];
    assert!(decoded_subtitle_frames_to_timeline(&frames, MediaDuration::from_secs(1)).cues().is_empty());
    assert_eq!(decoded_subtitle_frames_to_ass_script(&frames, MediaDuration::from_secs(1)), None);
}

#[test]
fn decoded_subtitle_frames_collect_text_and_bitmaps() {
    let mut frame = DecodedSubtitleFrame::new(7, Some(MediaDuration::from_millis(1500)), None);
    assert!(frame.is_empty());
    assert_eq!(frame.bitmap.pts, MediaDuration::from_millis(1500));
    frame.push_text(SubtitleTextSegment::new(SubtitleTextFormat::PlainText, String::new()).with_forced(true));
    assert!(frame.is_empty());
    assert!(frame.forced);
    let segment = SubtitleTextSegment::new(SubtitleTextFormat::Ass, "line".to_string());
    assert_eq!(segment.display_text(), "line");
    frame.push_text(segment);
    assert_eq!(frame.text.len(), 1);
    frame.push_bitmap_plane(SubtitleBitmapPlane::new(0, 0, 1, 1, vec![0; 4]), false);
    assert_eq!(frame.bitmap.planes.len(), 1);
    assert!(!frame.has_text());
    assert!(!frame.has_ass_chunks());
    assert!(frame.text_cues(MediaDuration::from_secs(9)).is_empty());
    assert_eq!(frame.to_ass_script(MediaDuration::from_secs(9)), None);
    let frame = frame.with_track_id(9).with_ass_track(Some(std::sync::Arc::new(AssTrackResources::new(
        2,
        b"[Script Info]".to_vec(),
        vec![],
    ))));
    assert_eq!(frame.track_id, 9);
    assert!(frame.ass_track.is_some());
    assert_eq!(DecodedSubtitleFrame::new(1, None, None).bitmap.pts, MediaDuration::zero());
}

#[test]
fn track_sources_and_fonts() {
    assert!(SubtitleTrackSource::embedded(3).is_embedded());
    assert!(!SubtitleTrackSource::embedded(3).can_remove());
    let external = SubtitleTrackConfig::external(4, "file:///a.srt".to_string());
    assert!(external.can_remove());
    assert!(!SubtitleTrackConfig::embedded(1, 2).can_remove());
    assert!(SubtitleTrackSource::external("x".to_string()).is_external());
    let font = SubtitleFontAttachment::new("a.ttf".to_string(), None, vec![], vec![0; 10]);
    assert_eq!(font.byte_len(), 10);
    let resources = AssTrackResources::new(0, vec![], vec![font.clone(), font]);
    assert_eq!(resources.font_bytes(), 20);
}

#[test]
fn libass_plans_and_constants() {
    let request = SubtitleRenderRequest::new(MediaDuration::from_millis(500), 0, 360);
    assert_eq!(request.viewport.width, 1);
    assert_eq!(request.viewport.height, 360);
    let plan = LibassRenderPlan::new(request, LibassRenderConfig::default());
    assert!(plan.operations.is_empty());
    assert_eq!(LibassRenderConfig::default().glyph_cache_limit, 0);
    assert_eq!(SUBTITLE_OVERRIDE_LEGACY_FORCE, (1 << 2) | (1 << 3) | (1 << 4) | (1 << 6));
    assert_eq!(
        SUBTITLE_OVERRIDE_ALL,
        SUBTITLE_OVERRIDE_LEGACY_FORCE | (1 << 5) | (1 << 7) | (1 << 8) | (1 << 11)
    );
    let _ = SubtitleRenderOutput::Rgba(SubtitleFrame { pts: MediaDuration::zero(), planes: vec![] });
}
