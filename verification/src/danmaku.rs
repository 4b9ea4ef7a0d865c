//! What remains of the danmaku (bullet comment) subsystem.
//!
//! This build does not parse, lay out or rasterize danmaku; the track,
//! atlas and font-selection types remain so the presenter and C ABI can
//! fail predictably.

use vstd::prelude::*;

use crate::media::MediaDuration;
use crate::subtitle::SubtitleFontAttachment;
use crate::text::string_of;

verus! {

#[derive(Debug)]
pub enum DanmakuError {
    InvalidField(String),
    MissingText,
    Parse(String),
    Io(String),
}

pub type Result<T> = core::result::Result<T, DanmakuError>;

/// The answer of every removed danmaku entry point.
pub open spec fn removed_message() -> Seq<char> {
    "danmaku support is not included in this AV1/AVIF-specialized Erika build"@
}

/// Whether `r` is the "danmaku support is not included" error.
pub open spec fn is_removed_error<T>(r: Result<T>) -> bool {
    r matches Err(DanmakuError::Parse(m)) && m@ == removed_message()
}

/// The error every removed danmaku entry point returns.
pub fn removed<T>() -> (r: Result<T>)
    ensures
        is_removed_error(r),
{
    Err(DanmakuError::Parse(string_of("danmaku support is not included in this AV1/AVIF-specialized Erika build")))
}

/// Smallest track id handed out.
pub const DEFAULT_DANMAKU_TRACK_ID: u64 = 1;
/// Number of debug histogram buckets.
pub const DANMAKU_DEBUG_BUCKETS: usize = 16;

#[derive(Debug, Clone, Copy, PartialEq, Eq, Hash, Structural)]
pub enum DanmakuMode {
    Scroll,
    ScrollReverse,
    Top,
    Bottom,
    Special,
}

impl DanmakuMode {
    /// The mode of a bilibili comment mode number; unknown numbers scroll.
    pub fn from_bilibili_mode(value: u32) -> (r: Self)
        ensures
            value == 6 ==> r == DanmakuMode::ScrollReverse,
            value == 5 ==> r == DanmakuMode::Top,
            value == 4 ==> r == DanmakuMode::Bottom,
            value == 7 ==> r == DanmakuMode::Special,
            !(4 <= value <= 7) ==> r == DanmakuMode::Scroll,
    {
        match value {
            6 => DanmakuMode::ScrollReverse,
            5 => DanmakuMode::Top,
            4 => DanmakuMode::Bottom,
            7 => DanmakuMode::Special,
            _ => DanmakuMode::Scroll,
        }
    }
}

#[derive(Debug, Clone, Copy, PartialEq, Eq, Structural)]
pub enum DanmakuShadowStyle {
    NoShadow,
    Soft,
    Medium,
    Strong,
}

impl Default for DanmakuShadowStyle {
    fn default() -> (r: Self)
        ensures
            r == DanmakuShadowStyle::Strong,
    {
        DanmakuShadowStyle::Strong
    }
}

/// The ABI code of a shadow style.
pub open spec fn shadow_style_code(style: DanmakuShadowStyle) -> i32 {
    match style {
        DanmakuShadowStyle::NoShadow => 0,
        DanmakuShadowStyle::Soft => 1,
        DanmakuShadowStyle::Medium => 2,
        DanmakuShadowStyle::Strong => 3,
    }
}

/// The shadow style an ABI code denotes; unknown codes mean strong.
pub open spec fn spec_shadow_style_from_code(value: i32) -> DanmakuShadowStyle {
    if value == 0 {
        DanmakuShadowStyle::NoShadow
    } else if value == 1 {
        DanmakuShadowStyle::Soft
    } else if value == 2 {
        DanmakuShadowStyle::Medium
    } else {
        DanmakuShadowStyle::Strong
    }
}

impl DanmakuShadowStyle {
    /// Decodes an ABI code.
    pub fn from_code(value: i32) -> (r: Self)
        ensures
            r == spec_shadow_style_from_code(value),
    {
        match value {
            0 => DanmakuShadowStyle::NoShadow,
            1 => DanmakuShadowStyle::Soft,
            2 => DanmakuShadowStyle::Medium,
            _ => DanmakuShadowStyle::Strong,
        }
    }

    /// Encodes as an ABI code.
    pub fn code(self) -> (r: i32)
        ensures
            r == shadow_style_code(self),
    {
        match self {
            DanmakuShadowStyle::NoShadow => 0,
            DanmakuShadowStyle::Soft => 1,
            DanmakuShadowStyle::Medium => 2,
            DanmakuShadowStyle::Strong => 3,
        }
    }
}

/// Decoding the code of a shadow style gives the style back.
pub proof fn lemma_shadow_style_code_round_trip(style: DanmakuShadowStyle)
    ensures
        spec_shadow_style_from_code(shadow_style_code(style)) == style,
{
}

/// Where a danmaku track came from.
#[derive(Debug, Clone, PartialEq, Eq)]
pub enum DanmakuTrackSource {
    Unknown,
    /// A local file, by its path as text.
    File(String),
    Json,
    Remote(String),
    Manual,
}

impl DanmakuTrackSource {
    /// Text describing the source.
    pub fn label(&self) -> (r: String)
        ensures
            self is Unknown ==> r@.len() == 0,
            self matches DanmakuTrackSource::File(path) ==> r@ == path@,
            self is Json ==> r@ == "json"@,
            self matches DanmakuTrackSource::Remote(value) ==> r@ == value@,
            self is Manual ==> r@ == "manual"@,
    {
        match self {
            DanmakuTrackSource::Unknown => String::new(),
            DanmakuTrackSource::File(path) => path.clone(),
            DanmakuTrackSource::Json => string_of("json"),
            DanmakuTrackSource::Remote(value) => value.clone(),
            DanmakuTrackSource::Manual => string_of("manual"),
        }
    }
}

/// A danmaku track; its comments are not kept in this build.
#[derive(Debug, Clone, PartialEq)]
pub struct DanmakuTrack {
    id: u64,
    name: String,
    source: DanmakuTrackSource,
}

impl DanmakuTrack {
    pub closed spec fn spec_id(&self) -> u64 {
        self.id
    }

    pub closed spec fn spec_name(&self) -> Seq<char> {
        self.name@
    }

    pub closed spec fn spec_source(&self) -> DanmakuTrackSource {
        self.source
    }

    /// A track with an id of at least `DEFAULT_DANMAKU_TRACK_ID`.
    pub fn new(id: u64, name: String, source: DanmakuTrackSource) -> (r: Self)
        ensures
            r.spec_id() == (if id < DEFAULT_DANMAKU_TRACK_ID { DEFAULT_DANMAKU_TRACK_ID } else { id }),
            r.spec_name() == name@,
            r.spec_source() == source,
    {
        DanmakuTrack { id: if id < DEFAULT_DANMAKU_TRACK_ID { DEFAULT_DANMAKU_TRACK_ID } else { id }, name, source }
    }

    pub fn id(&self) -> (r: u64)
        ensures
            r == self.spec_id(),
    {
        self.id
    }

    pub fn name(&self) -> (r: &str)
        ensures
            r@ == self.spec_name(),
    {
        self.name.as_str()
    }

    pub fn source(&self) -> (r: &DanmakuTrackSource)
        ensures
            *r == self.spec_source(),
    {
        &self.source
    }

    /// Tracks are never enabled in this build.
    pub fn enabled(&self) -> (r: bool)
        ensures
            !r,
    {
        false
    }

    /// The track's offset in microseconds: always zero.
    pub fn offset(&self) -> (r: i64)
        ensures
            r == 0,
    {
        0
    }

    /// The track's offset: always zero.
    pub fn offset_duration(&self) -> (r: MediaDuration)
        ensures
            r.wf(),
            r.nanos() == 0,
    {
        MediaDuration::zero()
    }

    /// Number of comments: always zero.
    pub fn item_count(&self) -> (r: usize)
        ensures
            r == 0,
    {
        0
    }
}

/// A summary of a danmaku track for the C ABI.
#[derive(Debug, Clone, PartialEq)]
pub struct DanmakuTrackInfo {
    pub id: u64,
    pub name: String,
    pub source: String,
    pub enabled: bool,
    pub offset_micros: i64,
    pub item_count: usize,
}

/// One debug histogram bucket.
#[derive(Debug, Clone, Copy, PartialEq, Eq, Structural)]
pub struct DanmakuDebugBucket {
    pub key: i32,
    pub count: u32,
}

impl Default for DanmakuDebugBucket {
    fn default() -> (r: Self)
        ensures
            r == (DanmakuDebugBucket { key: 0, count: 0 }),
    {
        DanmakuDebugBucket { key: 0, count: 0 }
    }
}

/// The region of a glyph atlas that changed since an earlier version.
#[derive(Debug, Clone, Copy, PartialEq, Eq, Structural)]
pub struct DanmakuAtlasUpdate {
    pub from_version: u64,
    pub x: u32,
    pub y: u32,
    pub width: u32,
    pub height: u32,
}

/// Fill and outline coverage of the rasterized glyphs, one byte per pixel.
#[derive(Debug, Clone, PartialEq, Eq)]
pub struct DanmakuGlyphAtlas {
    pub width: u32,
    pub height: u32,
    pub stride: usize,
    pub fill_alpha: Vec<u8>,
    pub outline_alpha: Vec<u8>,
    pub version: u64,
    pub update: Option<DanmakuAtlasUpdate>,
}

/// Bytes an atlas plane needs: `stride * height`, saturating.
pub open spec fn spec_atlas_required_len(stride: usize, height: u32) -> int {
    if stride as int * height as int > usize::MAX { usize::MAX as int } else { stride as int * height as int }
}

impl DanmakuGlyphAtlas {
    /// Bytes each plane needs.
    pub fn required_len(&self) -> (r: usize)
        ensures
            r == spec_atlas_required_len(self.stride, self.height),
    {
        match self.stride.checked_mul(self.height as usize) {
            Some(v) => v,
            None => usize::MAX,
        }
    }

    /// Whether the atlas is non-empty and both planes hold their bytes.
    pub fn is_valid(&self) -> (r: bool)
        ensures
            r == (self.width > 0 && self.stride >= self.width
                && self.fill_alpha@.len() >= spec_atlas_required_len(self.stride, self.height)
                && self.outline_alpha@.len() >= spec_atlas_required_len(self.stride, self.height)),
    {
        self.width > 0 && self.stride >= self.width as usize && self.fill_alpha.len() >= self.required_len()
            && self.outline_alpha.len() >= self.required_len()
    }

    /// The pending update, when it was computed against `version` of an
    /// atlas with the same geometry as this one.
    pub fn incremental_update_from(&self, version: u64, width: u32, height: u32, stride: usize) -> (r: Option<&DanmakuAtlasUpdate>)
        ensures
            (self.update matches Some(u) && u.from_version == version && self.width == width && self.height == height
                && self.stride == stride) ==> (r matches Some(u) && *u == self.update->0),
            !(self.update matches Some(u) && u.from_version == version && self.width == width && self.height == height
                && self.stride == stride) ==> r is None,
    {
        match &self.update {
            Some(u) => {
                if u.from_version == version && self.width == width && self.height == height && self.stride == stride {
                    Some(u)
                } else {
                    None
                }
            },
            None => None,
        }
    }
}

/// The fonts danmaku are drawn with, versioned by a generation counter.
#[derive(Debug, Clone, PartialEq, Eq)]
pub struct DanmakuFontSelection {
    pub generation: u64,
    pub fonts: Vec<SubtitleFontAttachment>,
}

impl Default for DanmakuFontSelection {
    fn default() -> (r: Self)
        ensures
            r.generation == 0,
            r.fonts@.len() == 0,
    {
        DanmakuFontSelection { generation: 0, fonts: Vec::new() }
    }
}

impl DanmakuFontSelection {
    pub fn new(generation: u64, fonts: Vec<SubtitleFontAttachment>) -> (r: Self)
        ensures
            r.generation == generation,
            r.fonts == fonts,
    {
        DanmakuFontSelection { generation, fonts }
    }
}

/// The danmaku text rasterizer; it draws nothing in this build.
#[derive(Debug, Clone, Copy, PartialEq, Eq, Structural)]
pub struct DanmakuTextRasterizer;

impl Default for DanmakuTextRasterizer {
    fn default() -> (r: Self) {
        DanmakuTextRasterizer
    }
}

impl DanmakuTextRasterizer {
    /// A rasterizer for a text shaper; the shaper is not needed in this build.
    pub fn new<S>(shaper: S) -> (r: Self) {
        DanmakuTextRasterizer
    }
}

} // verus!
