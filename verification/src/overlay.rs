//! Overlay composition: the subtitle layer drawn over video.

use vstd::prelude::*;

use crate::media::MediaDuration;
use crate::subtitle::{
    is_removed_error, removed, LibassRenderConfig, Result as SubtitleResult, SubtitleAlphaBitmap,
    SubtitleBitmapPlane, SubtitleFrameChange, SubtitleRenderOutput, SubtitleRendererCore, SubtitleTimeline,
    SubtitleViewport,
};

verus! {

/// Size of the surface overlays are drawn for.
#[derive(Debug, Clone, Copy, PartialEq, Eq, Structural)]
pub struct OverlayViewport {
    pub width: u32,
    pub height: u32,
}

impl OverlayViewport {
    /// A viewport of at least one pixel in each direction.
    pub fn new(width: u32, height: u32) -> (r: Self)
        ensures
            r.width == (if width < 1 { 1 } else { width }),
            r.height == (if height < 1 { 1 } else { height }),
    {
        OverlayViewport {
            width: if width < 1 { 1 } else { width },
            height: if height < 1 { 1 } else { height },
        }
    }
}

/// The overlay content for one presentation time.
#[derive(Debug, Clone, PartialEq)]
pub struct OverlayFrame {
    pub pts: MediaDuration,
    pub viewport: OverlayViewport,
    pub subtitle_planes: Vec<SubtitleBitmapPlane>,
    pub subtitle_alpha_planes: Vec<SubtitleAlphaBitmap>,
    pub subtitle_changed: bool,
}

impl OverlayFrame {
    /// Whether the frame draws nothing.
    pub fn is_empty(&self) -> (r: bool)
        ensures
            r == (self.subtitle_planes@.len() == 0 && self.subtitle_alpha_planes@.len() == 0),
    {
        self.subtitle_planes.len() == 0 && self.subtitle_alpha_planes.len() == 0
    }
}

/// The subtitle source of an overlay timeline.
#[derive(Debug, Clone)]
pub enum OverlaySubtitleRenderer {
    DebugTimeline(SubtitleRendererCore),
}

impl OverlaySubtitleRenderer {
    /// Renders the subtitles at `pts` and says whether they changed since
    /// the previous frame; the debug timeline draws nothing in this build.
    pub fn render(&mut self, pts: MediaDuration, viewport: OverlayViewport) -> (r: SubtitleResult<(SubtitleRenderOutput, bool)>)
        ensures
            r matches Ok((SubtitleRenderOutput::Rgba(frame), changed)) && frame.pts == pts && frame.planes@.len() == 0
                && !changed,
    {
        match self {
            OverlaySubtitleRenderer::DebugTimeline(renderer) => {
                let result = renderer.render(pts, SubtitleViewport::new(viewport.width, viewport.height));
                let changed = result.change == SubtitleFrameChange::Changed;
                Ok((SubtitleRenderOutput::Rgba(result.frame), changed))
            },
        }
    }
}

/// The overlay layers to draw over video.
#[derive(Debug, Clone)]
pub struct OverlayTimeline {
    pub subtitles: Option<OverlaySubtitleRenderer>,
}

impl Default for OverlayTimeline {
    fn default() -> (r: Self)
        ensures
            r.subtitles is None,
    {
        OverlayTimeline::new()
    }
}

impl OverlayTimeline {
    /// A timeline without subtitles.
    pub fn new() -> (r: Self)
        ensures
            r.subtitles is None,
    {
        OverlayTimeline { subtitles: None }
    }

    /// Draws `subtitles` through the debug renderer.
    pub fn with_subtitles(self, subtitles: SubtitleTimeline) -> (r: Self)
        ensures
            r.subtitles is Some,
    {
        OverlayTimeline { subtitles: Some(OverlaySubtitleRenderer::DebugTimeline(SubtitleRendererCore::new_debug(subtitles))) }
    }

    /// ASS subtitles need libass, which is not part of this build.
    pub fn with_ass_subtitles(self, script: &[u8], config: LibassRenderConfig) -> (r: SubtitleResult<Self>)
        ensures
            is_removed_error(r),
    {
        removed()
    }

    /// The overlay frame at `pts`: the subtitle planes and whether they
    /// changed since the previous frame.
    pub fn render(&mut self, pts: MediaDuration, viewport: OverlayViewport) -> (r: OverlayFrame)
        ensures
            r.pts == pts,
            r.viewport == viewport,
            r.subtitle_planes@.len() == 0,
            r.subtitle_alpha_planes@.len() == 0,
            !r.subtitle_changed,
    {
        let rendered = match &mut self.subtitles {
            Some(renderer) => Some(renderer.render(pts, viewport)),
            None => None,
        };
        let (subtitle_planes, subtitle_alpha_planes, subtitle_changed) = match rendered {
            Some(Ok((SubtitleRenderOutput::Rgba(frame), changed))) => (frame.planes, Vec::new(), changed),
            Some(Ok((SubtitleRenderOutput::Alpha(bitmaps), changed))) => (Vec::new(), bitmaps.parts, changed),
            Some(Err(_)) => (Vec::new(), Vec::new(), true),
            None => (Vec::new(), Vec::new(), false),
        };
        OverlayFrame { pts, viewport, subtitle_planes, subtitle_alpha_planes, subtitle_changed }
    }
}

} // verus!
