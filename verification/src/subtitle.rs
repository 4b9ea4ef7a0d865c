//! Compatibility-only subtitle types.
//!
//! Decoding, text parsing, charset conversion and libass rendering are not
//! part of the AV1/AVIF-specialized runtime: every parser and renderer entry
//! point answers that subtitle support is not included.  The bitmap
//! primitives stay because the video renderer and the debug HUD share those
//! plain data containers.

use vstd::prelude::*;
use vstd::slice::slice_to_vec;
use vstd::string::StrSliceExecFns;

use crate::media::MediaDuration;
use crate::text::{ascii_lower, char_lower_equals, chars_of, lowercase_equals, string_of};

verus! {

broadcast use vstd::string::group_string_axioms;

#[derive(Debug, Clone, PartialEq, Eq)]
pub enum SubtitleError {
    InvalidTimestamp(String),
    InvalidCue,
    InvalidBitmap { width: u32, height: u32, stride: usize, bytes: usize },
    NullBitmap,
    BitmapListTooLong,
    Libass(String),
}

pub type Result<T> = core::result::Result<T, SubtitleError>;

/// The answer of every removed subtitle entry point.
pub open spec fn removed_message() -> Seq<char> {
    "subtitle support is not included in this AV1/AVIF-specialized Erika build"@
}

/// Whether `r` is the "subtitle support is not included" error.
pub open spec fn is_removed_error<T>(r: Result<T>) -> bool {
    r matches Err(SubtitleError::Libass(m)) && m@ == removed_message()
}

/// The error every removed subtitle entry point returns.
pub fn removed<T>() -> (r: Result<T>)
    ensures
        is_removed_error(r),
{
    Err(SubtitleError::Libass(string_of("subtitle support is not included in this AV1/AVIF-specialized Erika build")))
}

/// Largest single font accepted from memory.
pub const MAX_MEMORY_SUBTITLE_FONT_BYTES: usize = 33554432;
/// Largest total of memory fonts accepted.
pub const MAX_MEMORY_SUBTITLE_FONT_TOTAL_BYTES: usize = 134217728;

/// A font attached to a media file.
#[derive(Debug, Clone, PartialEq, Eq)]
pub struct SubtitleFontAttachment {
    pub name: String,
    pub mime_type: Option<String>,
    pub families: Vec<String>,
    pub data: Vec<u8>,
}

impl SubtitleFontAttachment {
    pub fn new(name: String, mime_type: Option<String>, families: Vec<String>, data: Vec<u8>) -> (r: Self)
        ensures
            r.name == name,
            r.mime_type == mime_type,
            r.families == families,
            r.data == data,
    {
        SubtitleFontAttachment { name, mime_type, families, data }
    }

    /// Size of the font file in bytes.
    pub fn byte_len(&self) -> (r: usize)
        ensures
            r == self.data@.len(),
    {
        self.data.len()
    }
}

/// Total bytes of a list of fonts.
pub open spec fn font_bytes_total(fonts: Seq<SubtitleFontAttachment>) -> int
    decreases fonts.len(),
{
    if fonts.len() == 0 {
        0
    } else {
        font_bytes_total(fonts.drop_last()) + fonts.last().data@.len()
    }
}

/// The codec-private script and the fonts of an embedded ASS track.
#[derive(Debug, Clone, PartialEq, Eq)]
pub struct AssTrackResources {
    pub source_stream_index: i64,
    pub codec_private: Vec<u8>,
    pub fonts: Vec<SubtitleFontAttachment>,
}

impl AssTrackResources {
    pub fn new(source_stream_index: i64, codec_private: Vec<u8>, fonts: Vec<SubtitleFontAttachment>) -> (r: Self)
        ensures
            r.source_stream_index == source_stream_index,
            r.codec_private == codec_private,
            r.fonts == fonts,
    {
        AssTrackResources { source_stream_index, codec_private, fonts }
    }

    /// Total size of the attached fonts.
    pub fn font_bytes(&self) -> (r: usize)
        requires
            font_bytes_total(self.fonts@) <= usize::MAX,
        ensures
            r == font_bytes_total(self.fonts@),
    {
        let mut total: usize = 0;
        let mut i: usize = 0;
        while i < self.fonts.len()
            invariant
                i <= self.fonts@.len(),
                total == font_bytes_total(self.fonts@.take(i as int)),
                font_bytes_total(self.fonts@) <= usize::MAX,
            decreases self.fonts@.len() - i,
        {
            proof {
                assert(self.fonts@.take(i + 1).drop_last() =~= self.fonts@.take(i as int));
                lemma_font_bytes_prefix(self.fonts@, i + 1);
            }
            total = total + self.fonts[i].byte_len();
            i += 1;
        }
        assert(self.fonts@.take(i as int) =~= self.fonts@);
        total
    }
}

proof fn lemma_font_bytes_prefix(fonts: Seq<SubtitleFontAttachment>, n: int)
    requires
        0 <= n <= fonts.len(),
    ensures
        font_bytes_total(fonts.take(n)) <= font_bytes_total(fonts),
    decreases fonts.len(),
{
    if n < fonts.len() {
        assert(fonts.drop_last().take(n) =~= fonts.take(n));
        lemma_font_bytes_prefix(fonts.drop_last(), n);
    } else {
        assert(fonts.take(n) =~= fonts);
    }
}

/// Where a subtitle track comes from.
#[derive(Debug, Clone, PartialEq, Eq)]
pub enum SubtitleTrackSource {
    Embedded { stream_index: i64 },
    External { uri: String },
}

impl SubtitleTrackSource {
    pub fn embedded(stream_index: i64) -> (r: Self)
        ensures
            r == (SubtitleTrackSource::Embedded { stream_index }),
    {
        SubtitleTrackSource::Embedded { stream_index }
    }

    pub fn external(uri: String) -> (r: Self)
        ensures
            r == (SubtitleTrackSource::External { uri }),
    {
        SubtitleTrackSource::External { uri }
    }

    pub fn is_embedded(&self) -> (r: bool)
        ensures
            r == (self is Embedded),
    {
        match self {
            SubtitleTrackSource::Embedded { .. } => true,
            _ => false,
        }
    }

    pub fn is_external(&self) -> (r: bool)
        ensures
            r == (self is External),
    {
        match self {
            SubtitleTrackSource::External { .. } => true,
            _ => false,
        }
    }

    /// Only external tracks can be removed by the user.
    pub fn can_remove(&self) -> (r: bool)
        ensures
            r == (self is External),
    {
        self.is_external()
    }
}

/// A selectable subtitle track.
#[derive(Debug, Clone, PartialEq, Eq)]
pub struct SubtitleTrackConfig {
    pub id: i64,
    pub source: SubtitleTrackSource,
    pub language: Option<String>,
    pub title: Option<String>,
}

impl SubtitleTrackConfig {
    pub fn embedded(id: i64, stream_index: i64) -> (r: Self)
        ensures
            r == (SubtitleTrackConfig {
                id,
                source: SubtitleTrackSource::Embedded { stream_index },
                language: None,
                title: None,
            }),
    {
        SubtitleTrackConfig { id, source: SubtitleTrackSource::embedded(stream_index), language: None, title: None }
    }

    pub fn external(id: i64, uri: String) -> (r: Self)
        ensures
            r == (SubtitleTrackConfig { id, source: SubtitleTrackSource::External { uri }, language: None, title: None }),
    {
        SubtitleTrackConfig { id, source: SubtitleTrackSource::external(uri), language: None, title: None }
    }

    pub fn can_remove(&self) -> (r: bool)
        ensures
            r == (self.source is External),
    {
        self.source.can_remove()
    }
}

#[derive(Debug, Clone, Copy, PartialEq, Eq, Structural)]
pub enum SubtitleTextFormat {
    PlainText,
    Ass,
}

#[derive(Debug, Clone, Copy, PartialEq, Eq, Structural)]
pub enum SubtitleFileFormat {
    Srt,
    WebVtt,
    Ass,
}

/// Index of the first `c` in `s`, or `s.len()` when there is none.
pub open spec fn first_index_of(s: Seq<char>, c: char) -> int
    decreases s.len(),
{
    if s.len() == 0 {
        0
    } else if s[0] == c {
        0
    } else {
        1 + first_index_of(s.drop_first(), c)
    }
}

/// Whether `c` separates path components.
pub open spec fn is_path_separator(c: char) -> bool {
    c == '/' || c == '\\'
}

/// Index of the last path separator in `s`, or -1 when there is none.
pub open spec fn last_separator_index(s: Seq<char>) -> int
    decreases s.len(),
{
    if s.len() == 0 {
        -1
    } else if is_path_separator(s.last()) {
        s.len() - 1
    } else {
        last_separator_index(s.drop_last())
    }
}

/// Index of the last `c` in `s`, or -1 when there is none.
pub open spec fn last_index_of(s: Seq<char>, c: char) -> int
    decreases s.len(),
{
    if s.len() == 0 {
        -1
    } else if s.last() == c {
        s.len() - 1
    } else {
        last_index_of(s.drop_last(), c)
    }
}

/// The path part of a URI: everything before the fragment and the query.
pub open spec fn spec_uri_path_component(uri: Seq<char>) -> Seq<char> {
    let without_fragment = uri.take(first_index_of(uri, '#'));
    without_fragment.take(first_index_of(without_fragment, '?'))
}

/// The last component of a path.
pub open spec fn spec_file_name(path: Seq<char>) -> Seq<char> {
    path.skip(last_separator_index(path) + 1)
}

/// The extension of a path: what follows the last '.' of its last component.
pub open spec fn spec_path_extension(path: Seq<char>) -> Option<Seq<char>> {
    let name = spec_file_name(path);
    let dot = last_index_of(name, '.');
    if dot < 0 { None } else { Some(name.skip(dot + 1)) }
}

/// The subtitle format named by a lowercased extension.
pub open spec fn spec_format_for_extension(ext: Seq<char>) -> Option<SubtitleFileFormat> {
    if lowercase_equals(ext, "srt"@) {
        Some(SubtitleFileFormat::Srt)
    } else if lowercase_equals(ext, "vtt"@) || lowercase_equals(ext, "webvtt"@) {
        Some(SubtitleFileFormat::WebVtt)
    } else if lowercase_equals(ext, "ass"@) || lowercase_equals(ext, "ssa"@) {
        Some(SubtitleFileFormat::Ass)
    } else {
        None
    }
}

/// The subtitle format a path's extension names.
pub open spec fn spec_format_from_path(path: Seq<char>) -> Option<SubtitleFileFormat> {
    match spec_path_extension(path) {
        Some(ext) => spec_format_for_extension(ext),
        None => None,
    }
}

proof fn lemma_first_index_of(s: Seq<char>, c: char, i: int)
    requires
        0 <= i <= s.len(),
        forall|j: int| 0 <= j < i ==> s[j] != c,
        i == s.len() || s[i] == c,
    ensures
        first_index_of(s, c) == i,
    decreases s.len(),
{
    if s.len() > 0 && s[0] != c {
        lemma_first_index_of(s.drop_first(), c, i - 1);
    }
}

proof fn lemma_last_separator_index(s: Seq<char>, k: int)
    requires
        -1 <= k < s.len(),
        forall|j: int| k < j < s.len() ==> !is_path_separator(#[trigger] s[j]),
        k == -1 || is_path_separator(s[k]),
    ensures
        last_separator_index(s) == k,
    decreases s.len(),
{
    if s.len() > 0 && k < s.len() - 1 {
        lemma_last_separator_index(s.drop_last(), k);
    }
}

proof fn lemma_last_index_of(s: Seq<char>, c: char, k: int)
    requires
        -1 <= k < s.len(),
        forall|j: int| k < j < s.len() ==> #[trigger] s[j] != c,
        k == -1 || s[k] == c,
    ensures
        last_index_of(s, c) == k,
    decreases s.len(),
{
    if s.len() > 0 && k < s.len() - 1 {
        lemma_last_index_of(s.drop_last(), c, k);
    }
}

/// Index of the first `c` in `chars[..end]`, or `end`.
fn find_first(chars: &Vec<char>, end: usize, c: char) -> (r: usize)
    requires
        end <= chars@.len(),
    ensures
        r <= end,
        r == first_index_of(chars@.take(end as int), c),
{
    let mut i: usize = 0;
    while i < end && chars[i] != c
        invariant
            i <= end <= chars@.len(),
            forall|j: int| 0 <= j < i ==> chars@[j] != c,
        decreases end - i,
    {
        i += 1;
    }
    proof {
        lemma_first_index_of(chars@.take(end as int), c, i as int);
    }
    i
}

/// The path part of a URI, without its fragment and query.
pub fn uri_path_component(uri: &str) -> (r: &str)
    ensures
        r@ == spec_uri_path_component(uri@),
{
    let chars = chars_of(uri);
    let fragment = find_first(&chars, chars.len(), '#');
    assert(chars@.take(chars@.len() as int) =~= uri@);
    let query = find_first(&chars, fragment, '?');
    assert(uri@.take(fragment as int).take(query as int) =~= uri@.subrange(0, query as int));
    uri.substring_char(0, query)
}

/// The extension of a path's last component, if it has one.
pub fn subtitle_path_extension(path: &str) -> (r: Option<&str>)
    ensures
        match spec_path_extension(path@) {
            Some(ext) => r matches Some(e) && e@ == ext,
            None => r is None,
        },
{
    let chars = chars_of(path);
    let len = chars.len();
    let mut k: usize = len;
    while k > 0 && chars[k - 1] != '/' && chars[k - 1] != '\\'
        invariant
            k <= len == chars@.len(),
            chars@ == path@,
            forall|j: int| k <= j < len ==> !is_path_separator(#[trigger] chars@[j]),
        decreases k,
    {
        k -= 1;
    }
    proof {
        lemma_last_separator_index(path@, k - 1);
    }
    let start = k;
    let ghost name = path@.skip(start as int);
    let mut d: usize = len;
    while d > start && chars[d - 1] != '.'
        invariant
            start <= d <= len == chars@.len(),
            chars@ == path@,
            name == path@.skip(start as int),
            forall|j: int| d <= j < len ==> #[trigger] chars@[j] != '.',
        decreases d,
    {
        d -= 1;
    }
    proof {
        assert forall|j: int| d - start <= j < name.len() implies #[trigger] name[j] != '.' by {
            assert(name[j] == chars@[start + j]);
        }
        lemma_last_index_of(name, '.', d - start - 1);
    }
    if d == start {
        None
    } else {
        assert(name.skip(d - start) =~= path@.subrange(d as int, len as int));
        Some(path.substring_char(d, len))
    }
}

/// Whether the ASCII lowercase of `s` is `lower`, which has no uppercase
/// letters.
fn lowercase_equals_exec(s: &Vec<char>, lower: &str) -> (r: bool)
    requires
        forall|i: int| 0 <= i < lower@.len() ==> !('A' <= #[trigger] lower@[i] <= 'Z'),
    ensures
        r == lowercase_equals(s@, lower@),
{
    let t = chars_of(lower);
    if s.len() != t.len() {
        return false;
    }
    let mut i: usize = 0;
    while i < s.len()
        invariant
            i <= s@.len() == t@.len(),
            t@ == lower@,
            forall|j: int| 0 <= j < lower@.len() ==> !('A' <= #[trigger] lower@[j] <= 'Z'),
            forall|j: int| 0 <= j < i ==> ascii_lower(#[trigger] s@[j]) == t@[j],
        decreases s@.len() - i,
    {
        if !char_lower_equals(s[i], t[i]) {
            return false;
        }
        i += 1;
    }
    true
}

impl SubtitleFileFormat {
    /// The subtitle format named by a path's extension, compared without
    /// ASCII case.
    pub fn from_path(path: &str) -> (r: Option<Self>)
        ensures
            r == spec_format_from_path(path@),
    {
        proof {
            reveal_strlit("srt");
            reveal_strlit("vtt");
            reveal_strlit("webvtt");
            reveal_strlit("ass");
            reveal_strlit("ssa");
        }
        let ext = match subtitle_path_extension(path) {
            Some(e) => chars_of(e),
            None => return None,
        };
        if lowercase_equals_exec(&ext, "srt") {
            Some(SubtitleFileFormat::Srt)
        } else if lowercase_equals_exec(&ext, "vtt") || lowercase_equals_exec(&ext, "webvtt") {
            Some(SubtitleFileFormat::WebVtt)
        } else if lowercase_equals_exec(&ext, "ass") || lowercase_equals_exec(&ext, "ssa") {
            Some(SubtitleFileFormat::Ass)
        } else {
            None
        }
    }

    /// The subtitle format named by the path part of a URI.
    pub fn from_uri(uri: &str) -> (r: Option<Self>)
        ensures
            r == spec_format_from_path(spec_uri_path_component(uri@)),
    {
        SubtitleFileFormat::from_path(uri_path_component(uri))
    }
}

// ---------------------------------------------------------------------------
// Bitmaps
// ---------------------------------------------------------------------------

/// An RGBA subtitle bitmap placed on a canvas.
#[derive(Debug, Clone, PartialEq, Eq)]
pub struct SubtitleBitmapPlane {
    pub x: i32,
    pub y: i32,
    pub width: u32,
    pub height: u32,
    pub canvas_width: u32,
    pub canvas_height: u32,
    pub rgba: Vec<u8>,
}

impl SubtitleBitmapPlane {
    /// A plane with no canvas size (drawn unscaled).
    pub fn new(x: i32, y: i32, width: u32, height: u32, rgba: Vec<u8>) -> (r: Self)
        ensures
            r.x == x && r.y == y && r.width == width && r.height == height,
            r.canvas_width == 0 && r.canvas_height == 0,
            r.rgba == rgba,
    {
        SubtitleBitmapPlane { x, y, width, height, canvas_width: 0, canvas_height: 0, rgba }
    }

    /// Sets the canvas the plane's coordinates refer to.
    pub fn with_canvas(self, width: u32, height: u32) -> (r: Self)
        ensures
            r.x == self.x && r.y == self.y && r.width == self.width && r.height == self.height,
            r.canvas_width == width && r.canvas_height == height,
            r.rgba == self.rgba,
    {
        let mut plane = self;
        plane.canvas_width = width;
        plane.canvas_height = height;
        plane
    }
}

/// A rectangle in frame coordinates.
#[derive(Debug, Clone, Copy, PartialEq, Eq, Structural)]
pub struct SubtitleBitmapPlacement {
    pub x: i32,
    pub y: i32,
    pub width: u32,
    pub height: u32,
}

/// The part of `p` inside a `frame_width`×`frame_height` frame, if any.
pub open spec fn spec_clipped_to(p: SubtitleBitmapPlacement, frame_width: u32, frame_height: u32) -> Option<SubtitleBitmapPlacement> {
    let left: int = if p.x > 0 { p.x as int } else { 0 };
    let top: int = if p.y > 0 { p.y as int } else { 0 };
    let right: int = if p.x + p.width < frame_width { p.x + p.width } else { frame_width as int };
    let bottom: int = if p.y + p.height < frame_height { p.y + p.height } else { frame_height as int };
    if right > left && bottom > top {
        Some(SubtitleBitmapPlacement {
            x: left as i32,
            y: top as i32,
            width: (right - left) as u32,
            height: (bottom - top) as u32,
        })
    } else {
        None
    }
}

impl SubtitleBitmapPlacement {
    pub fn new(x: i32, y: i32, width: u32, height: u32) -> (r: Self)
        ensures
            r == (SubtitleBitmapPlacement { x, y, width, height }),
    {
        SubtitleBitmapPlacement { x, y, width, height }
    }

    /// Intersects the rectangle with the frame; `None` when nothing is left.
    pub fn clipped_to(self, frame_width: u32, frame_height: u32) -> (r: Option<Self>)
        ensures
            r == spec_clipped_to(self, frame_width, frame_height),
            r matches Some(c) ==> 0 <= c.x && 0 <= c.y && c.x + c.width <= frame_width
                && c.y + c.height <= frame_height && c.width > 0 && c.height > 0,
    {
        let left: i64 = if self.x > 0 { self.x as i64 } else { 0 };
        let top: i64 = if self.y > 0 { self.y as i64 } else { 0 };
        let right_edge: i64 = self.x as i64 + self.width as i64;
        let bottom_edge: i64 = self.y as i64 + self.height as i64;
        let right: i64 = if right_edge < frame_width as i64 { right_edge } else { frame_width as i64 };
        let bottom: i64 = if bottom_edge < frame_height as i64 { bottom_edge } else { frame_height as i64 };
        if right > left && bottom > top {
            Some(SubtitleBitmapPlacement::new(left as i32, top as i32, (right - left) as u32, (bottom - top) as u32))
        } else {
            None
        }
    }
}

/// Clipping is idempotent: the clipped rectangle lies inside the frame, so
/// clipping it again changes nothing.
pub proof fn lemma_clipping_is_idempotent(p: SubtitleBitmapPlacement, frame_width: u32, frame_height: u32)
    requires
        spec_clipped_to(p, frame_width, frame_height) is Some,
    ensures
        spec_clipped_to(spec_clipped_to(p, frame_width, frame_height)->0, frame_width, frame_height)
            == spec_clipped_to(p, frame_width, frame_height),
{
}

#[derive(Debug, Clone, Copy, PartialEq, Eq, Structural)]
pub enum SubtitleBitmapColorSpace {
    Srgb,
    Video,
}

impl Default for SubtitleBitmapColorSpace {
    fn default() -> (r: Self)
        ensures
            r == SubtitleBitmapColorSpace::Srgb,
    {
        SubtitleBitmapColorSpace::Srgb
    }
}

/// A libass color split into channels; libass stores transparency, so the
/// alpha channel is its complement.
#[derive(Debug, Clone, Copy, PartialEq, Eq, Structural)]
pub struct AssColor {
    pub red: u8,
    pub green: u8,
    pub blue: u8,
    pub alpha: u8,
}

/// The channels of a libass `RRGGBBTT` color.
pub open spec fn spec_ass_color(color: u32) -> AssColor {
    AssColor {
        red: (color / 0x100_0000) as u8,
        green: ((color / 0x1_0000) % 0x100) as u8,
        blue: ((color / 0x100) % 0x100) as u8,
        alpha: (255 - color % 0x100) as u8,
    }
}

impl AssColor {
    /// Splits a libass `RRGGBBTT` color (TT = transparency).
    pub fn from_libass_rgba(color: u32) -> (r: Self)
        ensures
            r == spec_ass_color(color),
    {
        AssColor {
            red: (color / 0x100_0000) as u8,
            green: ((color / 0x1_0000) % 0x100) as u8,
            blue: ((color / 0x100) % 0x100) as u8,
            alpha: (255 - color % 0x100) as u8,
        }
    }
}

/// Splitting a libass color loses nothing: the channels put back together
/// (alpha turned back into transparency) give the color.
pub proof fn lemma_ass_color_recombines(color: u32)
    ensures
        ({
            let c = spec_ass_color(color);
            c.red as int * 0x100_0000 + c.green as int * 0x1_0000 + c.blue as int * 0x100 + (255 - c.alpha as int)
                == color as int
        }),
{
    let c = spec_ass_color(color);
    assert(c.red as int == color as int / 0x100_0000);
    assert(c.green as int == (color as int / 0x1_0000) % 0x100);
    assert(c.blue as int == (color as int / 0x100) % 0x100);
    assert(255 - c.alpha as int == color as int % 0x100);
    assert(color as int / 0x100_0000 * 0x100_0000 + (color as int / 0x1_0000) % 0x100 * 0x1_0000
        + (color as int / 0x100) % 0x100 * 0x100 + color as int % 0x100 == color as int) by (nonlinear_arith)
        requires 0 <= color as int <= 0xffff_ffff;
}

/// A single-color coverage mask: `alpha` holds one coverage byte per pixel,
/// rows `stride` bytes apart.
#[derive(Debug, Clone, PartialEq, Eq)]
pub struct SubtitleAlphaBitmap {
    pub placement: SubtitleBitmapPlacement,
    pub stride: usize,
    pub color_rgba: u32,
    pub alpha: Vec<u8>,
}

/// Bytes a mask needs: a full stride per row but the last, which needs only
/// its width (saturating at `usize::MAX`).
pub open spec fn spec_required_len(placement: SubtitleBitmapPlacement, stride: usize) -> int {
    if placement.width == 0 || placement.height == 0 {
        0
    } else {
        let rows = stride as int * (placement.height - 1);
        let rows_sat = if rows > usize::MAX { usize::MAX as int } else { rows };
        let total = rows_sat + placement.width;
        if total > usize::MAX { usize::MAX as int } else { total }
    }
}

/// Coverage scaled by the color's alpha, rounded to nearest.
pub open spec fn premultiplied_alpha(color_alpha: u8, coverage: u8) -> u8 {
    ((color_alpha as int * coverage as int + 127) / 255) as u8
}

/// The RGBA bytes of row `y`, pixels `0..x`, of a mask.
pub open spec fn rgba_row(color: AssColor, alpha: Seq<u8>, stride: int, y: int, x: int) -> Seq<u8>
    decreases x,
{
    if x <= 0 {
        Seq::empty()
    } else {
        rgba_row(color, alpha, stride, y, x - 1)
            + seq![color.red, color.green, color.blue, premultiplied_alpha(color.alpha, alpha[y * stride + x - 1])]
    }
}

/// The RGBA bytes of rows `0..y` of a mask `width` pixels wide.
pub open spec fn rgba_rows(color: AssColor, alpha: Seq<u8>, stride: int, width: int, y: int) -> Seq<u8>
    decreases y,
{
    if y <= 0 {
        Seq::empty()
    } else {
        rgba_rows(color, alpha, stride, width, y - 1) + rgba_row(color, alpha, stride, y - 1, width)
    }
}

/// RGBA rows are tightly packed: four bytes per pixel, no padding.
pub proof fn lemma_rgba_rows_len(color: AssColor, alpha: Seq<u8>, stride: int, width: int, y: int)
    requires
        0 <= width,
        0 <= y,
    ensures
        rgba_rows(color, alpha, stride, width, y).len() == 4 * width * y,
    decreases y,
{
    if y > 0 {
        lemma_rgba_rows_len(color, alpha, stride, width, y - 1);
        lemma_rgba_row_len(color, alpha, stride, y - 1, width);
        assert(4 * width * (y - 1) + 4 * width == 4 * width * y) by (nonlinear_arith);
    } else {
        assert(4 * width * y == 0) by (nonlinear_arith)
            requires y == 0;
    }
}

proof fn lemma_rgba_row_len(color: AssColor, alpha: Seq<u8>, stride: int, y: int, x: int)
    requires
        0 <= x,
    ensures
        rgba_row(color, alpha, stride, y, x).len() == 4 * x,
    decreases x,
{
    if x > 0 {
        lemma_rgba_row_len(color, alpha, stride, y, x - 1);
    }
}

proof fn lemma_rgba_row_index(color: AssColor, alpha: Seq<u8>, stride: int, y: int, x: int, i: int)
    requires
        0 <= i < x,
    ensures
        rgba_row(color, alpha, stride, y, x)[4 * i] == color.red,
        rgba_row(color, alpha, stride, y, x)[4 * i + 1] == color.green,
        rgba_row(color, alpha, stride, y, x)[4 * i + 2] == color.blue,
        rgba_row(color, alpha, stride, y, x)[4 * i + 3] == premultiplied_alpha(color.alpha, alpha[y * stride + i]),
    decreases x,
{
    lemma_rgba_row_len(color, alpha, stride, y, x - 1);
    if i < x - 1 {
        lemma_rgba_row_index(color, alpha, stride, y, x - 1, i);
    }
}

proof fn lemma_rgba_rows_index(color: AssColor, alpha: Seq<u8>, stride: int, width: int, y: int, row: int, i: int)
    requires
        0 <= row < y,
        0 <= i < width,
    ensures
        ({
            let k = 4 * (row * width + i);
            let rows = rgba_rows(color, alpha, stride, width, y);
            &&& rows[k] == color.red
            &&& rows[k + 1] == color.green
            &&& rows[k + 2] == color.blue
            &&& rows[k + 3] == premultiplied_alpha(color.alpha, alpha[row * stride + i])
        }),
    decreases y,
{
    lemma_rgba_rows_len(color, alpha, stride, width, y - 1);
    lemma_rgba_row_len(color, alpha, stride, y - 1, width);
    let k = 4 * (row * width + i);
    let prev = rgba_rows(color, alpha, stride, width, y - 1);
    let last = rgba_row(color, alpha, stride, y - 1, width);
    assert(rgba_rows(color, alpha, stride, width, y) == prev + last);
    if row < y - 1 {
        lemma_rgba_rows_index(color, alpha, stride, width, y - 1, row, i);
        assert(k + 3 < 4 * width * (y - 1)) by (nonlinear_arith)
            requires k == 4 * (row * width + i), 0 <= row < y - 1, 0 <= i < width;
        assert((prev + last)[k] == prev[k]);
        assert((prev + last)[k + 1] == prev[k + 1]);
        assert((prev + last)[k + 2] == prev[k + 2]);
        assert((prev + last)[k + 3] == prev[k + 3]);
    } else {
        assert(k == 4 * width * (y - 1) + 4 * i) by (nonlinear_arith)
            requires k == 4 * (row * width + i), row == y - 1;
        lemma_rgba_row_index(color, alpha, stride, y - 1, width, i);
        assert((prev + last)[k] == last[4 * i]);
        assert((prev + last)[k + 1] == last[4 * i + 1]);
        assert((prev + last)[k + 2] == last[4 * i + 2]);
        assert((prev + last)[k + 3] == last[4 * i + 3]);
    }
}

/// Premultiplying scales the coverage by the color's alpha and rounds to
/// the nearest value: `a` is the product divided by 255, to within a half.
proof fn lemma_premultiplied_alpha_rounds(color_alpha: u8, coverage: u8)
    ensures
        premultiplied_alpha(color_alpha, coverage) as int * 255 <= color_alpha as int * coverage as int + 127,
        color_alpha as int * coverage as int + 127 < premultiplied_alpha(color_alpha, coverage) as int * 255 + 255,
{
    let p = color_alpha as int * coverage as int;
    assert(0 <= p <= 255 * 255) by (nonlinear_arith)
        requires p == color_alpha as int * coverage as int, color_alpha <= 255, coverage <= 255;
    let q = (p + 127) / 255;
    assert(0 <= q <= 255);
    assert(q * 255 <= p + 127 < q * 255 + 255);
}

/// Every pixel of a mask's RGBA rendering has the libass color's channels
/// (`RRGGBBTT`), and as alpha the pixel's coverage scaled by the color's
/// opacity (255 minus its transparency `TT`), rounded to the nearest value:
/// full coverage gives the color's opacity, an opaque color gives the
/// coverage, and partial coverage of a translucent color multiplies the two.
pub proof fn lemma_mask_pixels_premultiply_coverage(bitmap: SubtitleAlphaBitmap, plane: SubtitleBitmapPlane, x: int, y: int)
    requires
        renders_to(bitmap, plane),
        0 <= x < bitmap.placement.width,
        0 <= y < bitmap.placement.height,
    ensures
        ({
            let k = 4 * (y * bitmap.placement.width + x);
            let opacity = 255 - bitmap.color_rgba % 256;
            let coverage = bitmap.alpha@[y * bitmap.stride + x];
            let a = plane.rgba@[k + 3] as int;
            &&& plane.rgba@[k] == bitmap.color_rgba / 0x100_0000
            &&& plane.rgba@[k + 1] == (bitmap.color_rgba / 0x1_0000) % 256
            &&& plane.rgba@[k + 2] == (bitmap.color_rgba / 0x100) % 256
            &&& a * 255 <= opacity * coverage + 127 < a * 255 + 255
        }),
{
    let color = spec_ass_color(bitmap.color_rgba);
    lemma_rgba_rows_index(color, bitmap.alpha@, bitmap.stride as int, bitmap.placement.width as int,
        bitmap.placement.height as int, y, x);
    lemma_premultiplied_alpha_rounds(color.alpha, bitmap.alpha@[y * bitmap.stride + x]);
    assert(color.alpha == 255 - bitmap.color_rgba % 256);
}

/// The RGBA rendering of a mask: every pixel gets the mask's color with the
/// coverage scaled by the color's alpha.
pub open spec fn spec_mask_rgba(bitmap: SubtitleAlphaBitmap) -> Seq<u8> {
    rgba_rows(
        spec_ass_color(bitmap.color_rgba),
        bitmap.alpha@,
        bitmap.stride as int,
        bitmap.placement.width as int,
        bitmap.placement.height as int,
    )
}

/// Whether a mask can be rendered: it covers its rows and is not empty.
pub open spec fn spec_renderable(bitmap: SubtitleAlphaBitmap) -> bool {
    bitmap.alpha@.len() >= spec_required_len(bitmap.placement, bitmap.stride)
        && bitmap.placement.width != 0 && bitmap.placement.height != 0
}

/// Whether the RGBA rendering of a mask fits in memory addressable by
/// `usize` (the mask itself, like any byte vector, is shorter than
/// `usize::MAX`).
pub open spec fn rgba_fits(bitmap: SubtitleAlphaBitmap) -> bool {
    bitmap.placement.width as int * bitmap.placement.height as int * 4 <= usize::MAX
        && bitmap.alpha@.len() < usize::MAX
}

/// Whether `plane` is the RGBA rendering of `bitmap`.
pub open spec fn renders_to(bitmap: SubtitleAlphaBitmap, plane: SubtitleBitmapPlane) -> bool {
    &&& plane.x == bitmap.placement.x
    &&& plane.y == bitmap.placement.y
    &&& plane.width == bitmap.placement.width
    &&& plane.height == bitmap.placement.height
    &&& plane.canvas_width == 0
    &&& plane.canvas_height == 0
    &&& plane.rgba@ == spec_mask_rgba(bitmap)
}

proof fn lemma_row_index_bound(y: int, x: int, stride: int, width: int, height: int)
    requires
        0 <= y < height,
        0 <= x < width,
        0 <= stride,
    ensures
        y * stride + x <= stride * (height - 1) + width - 1,
        0 <= y * stride,
{
    assert(y * stride <= (height - 1) * stride) by (nonlinear_arith)
        requires 0 <= y <= height - 1, 0 <= stride;
    assert((height - 1) * stride == stride * (height - 1)) by (nonlinear_arith);
    assert(0 <= y * stride) by (nonlinear_arith) requires 0 <= y, 0 <= stride;
}

impl SubtitleAlphaBitmap {
    /// A mask whose stride is at least its width.
    pub fn new(placement: SubtitleBitmapPlacement, stride: usize, color_rgba: u32, alpha: Vec<u8>) -> (r: Self)
        ensures
            r.placement == placement,
            r.stride == (if stride < placement.width as usize { placement.width as usize } else { stride }),
            r.color_rgba == color_rgba,
            r.alpha == alpha,
    {
        let stride = if stride < placement.width as usize { placement.width as usize } else { stride };
        SubtitleAlphaBitmap { placement, stride, color_rgba, alpha }
    }

    /// Bytes the mask needs.
    pub fn required_len(&self) -> (r: usize)
        ensures
            r == spec_required_len(self.placement, self.stride),
    {
        if self.placement.width == 0 || self.placement.height == 0 {
            0
        } else {
            let rows = match self.stride.checked_mul((self.placement.height - 1) as usize) {
                Some(v) => v,
                None => usize::MAX,
            };
            rows.saturating_add(self.placement.width as usize)
        }
    }

    /// Whether the mask holds all the bytes it needs.
    pub fn is_valid(&self) -> (r: bool)
        ensures
            r == (self.alpha@.len() >= spec_required_len(self.placement, self.stride)),
    {
        self.alpha.len() >= self.required_len()
    }

    /// Renders the mask as RGBA; `None` for an invalid or empty mask.
    pub fn to_rgba_plane(&self) -> (r: Option<SubtitleBitmapPlane>)
        requires
            rgba_fits(*self),
        ensures
            spec_renderable(*self) ==> (r matches Some(p) && renders_to(*self, p)
                && p.rgba@.len() == 4 * self.placement.width * self.placement.height),
            !spec_renderable(*self) ==> r is None,
    {
        if !self.is_valid() || self.placement.width == 0 || self.placement.height == 0 {
            return None;
        }
        let color = AssColor::from_libass_rgba(self.color_rgba);
        let width = self.placement.width as usize;
        let height = self.placement.height as usize;
        let stride = self.stride;
        let ghost alpha = self.alpha@;
        proof {
            assert(stride as int * (height - 1) >= 0) by (nonlinear_arith) requires stride >= 0, height >= 1;
            assert(stride as int * (height - 1) + width <= alpha.len());
        }
        let mut rgba: Vec<u8> = Vec::new();
        let mut y: usize = 0;
        while y < height
            invariant
                y <= height,
                width == self.placement.width,
                height == self.placement.height,
                stride == self.stride,
                alpha == self.alpha@,
                color == spec_ass_color(self.color_rgba),
                stride as int * (height - 1) + width <= alpha.len(),
                alpha.len() < usize::MAX,
                height >= 1,
                rgba@ == rgba_rows(color, alpha, stride as int, width as int, y as int),
            decreases height - y,
        {
            let mut x: usize = 0;
            let ghost rows_before = rgba@;
            while x < width
                invariant
                    y < height,
                    x <= width,
                    width == self.placement.width,
                    height == self.placement.height,
                    stride == self.stride,
                    alpha == self.alpha@,
                    stride as int * (height - 1) + width <= alpha.len(),
                    alpha.len() < usize::MAX,
                    rows_before == rgba_rows(color, alpha, stride as int, width as int, y as int),
                    rgba@ == rows_before + rgba_row(color, alpha, stride as int, y as int, x as int),
                decreases width - x,
            {
                proof {
                    lemma_row_index_bound(y as int, x as int, stride as int, width as int, height as int);
                }
                let index = y * stride + x;
                let coverage = self.alpha[index];
                proof {
                    assert(color.alpha as int * coverage as int <= 255 * 255) by (nonlinear_arith)
                        requires color.alpha <= 255, coverage <= 255, color.alpha >= 0, coverage >= 0;
                    assert(color.alpha as int * coverage as int >= 0) by (nonlinear_arith)
                        requires color.alpha >= 0, coverage >= 0;
                }
                let a: u8 = (((color.alpha as u16) * (coverage as u16) + 127) / 255) as u8;
                rgba.push(color.red);
                rgba.push(color.green);
                rgba.push(color.blue);
                rgba.push(a);
                assert(rgba@ =~= rows_before + rgba_row(color, alpha, stride as int, y as int, x + 1));
                x += 1;
            }
            assert(rgba@ =~= rgba_rows(color, alpha, stride as int, width as int, y + 1));
            y += 1;
        }
        proof {
            lemma_rgba_rows_len(color, alpha, stride as int, width as int, height as int);
        }
        Some(SubtitleBitmapPlane::new(self.placement.x, self.placement.y, self.placement.width, self.placement.height, rgba))
    }
}

/// The masks among `parts` that render.
pub open spec fn renderable_parts(parts: Seq<SubtitleAlphaBitmap>) -> Seq<SubtitleAlphaBitmap>
    decreases parts.len(),
{
    if parts.len() == 0 {
        Seq::empty()
    } else if spec_renderable(parts.last()) {
        renderable_parts(parts.drop_last()).push(parts.last())
    } else {
        renderable_parts(parts.drop_last())
    }
}

/// Whether `planes` are the renderings of `parts`, in order.
pub open spec fn planes_render(parts: Seq<SubtitleAlphaBitmap>, planes: Seq<SubtitleBitmapPlane>) -> bool {
    planes.len() == parts.len() && forall|i: int| 0 <= i < parts.len() ==> renders_to(#[trigger] parts[i], planes[i])
}

/// The bitmaps of a subtitle event before they are composed.
#[derive(Debug, Clone, PartialEq, Eq)]
pub struct SubtitleBitmapSet {
    pub pts: MediaDuration,
    pub frame_width: u32,
    pub frame_height: u32,
    pub color_space: SubtitleBitmapColorSpace,
    pub parts: Vec<SubtitleAlphaBitmap>,
    pub changed: bool,
}

impl SubtitleBitmapSet {
    /// An empty, changed set in the sRGB color space.
    pub fn new(pts: MediaDuration, frame_width: u32, frame_height: u32) -> (r: Self)
        ensures
            r.pts == pts && r.frame_width == frame_width && r.frame_height == frame_height,
            r.color_space == SubtitleBitmapColorSpace::Srgb,
            r.parts@.len() == 0,
            r.changed,
    {
        SubtitleBitmapSet {
            pts,
            frame_width,
            frame_height,
            color_space: SubtitleBitmapColorSpace::Srgb,
            parts: Vec::new(),
            changed: true,
        }
    }

    pub fn with_color_space(self, value: SubtitleBitmapColorSpace) -> (r: Self)
        ensures
            r.pts == self.pts && r.frame_width == self.frame_width && r.frame_height == self.frame_height,
            r.color_space == value,
            r.parts == self.parts,
            r.changed == self.changed,
    {
        let mut set = self;
        set.color_space = value;
        set
    }

    pub fn with_changed(self, value: bool) -> (r: Self)
        ensures
            r.pts == self.pts && r.frame_width == self.frame_width && r.frame_height == self.frame_height,
            r.color_space == self.color_space,
            r.parts == self.parts,
            r.changed == value,
    {
        let mut set = self;
        set.changed = value;
        set
    }

    /// Adds a mask unless it is empty.
    pub fn push(&mut self, bitmap: SubtitleAlphaBitmap)
        ensures
            final(self).parts@ == (if bitmap.placement.width > 0 && bitmap.placement.height > 0 {
                old(self).parts@.push(bitmap)
            } else {
                old(self).parts@
            }),
            final(self).pts == old(self).pts,
            final(self).frame_width == old(self).frame_width,
            final(self).frame_height == old(self).frame_height,
            final(self).color_space == old(self).color_space,
            final(self).changed == old(self).changed,
    {
        if bitmap.placement.width > 0 && bitmap.placement.height > 0 {
            self.parts.push(bitmap);
        }
    }

    /// Renders every mask that can be rendered into RGBA planes.
    pub fn to_frame(&self) -> (r: SubtitleFrame)
        requires
            forall|i: int| 0 <= i < self.parts@.len() ==> rgba_fits(#[trigger] self.parts@[i]),
        ensures
            r.pts == self.pts,
            planes_render(renderable_parts(self.parts@), r.planes@),
    {
        let mut planes: Vec<SubtitleBitmapPlane> = Vec::new();
        let mut i: usize = 0;
        while i < self.parts.len()
            invariant
                i <= self.parts@.len(),
                forall|j: int| 0 <= j < self.parts@.len() ==> rgba_fits(#[trigger] self.parts@[j]),
                planes_render(renderable_parts(self.parts@.take(i as int)), planes@),
            decreases self.parts@.len() - i,
        {
            assert(self.parts@.take(i + 1).drop_last() =~= self.parts@.take(i as int));
            assert(self.parts@.take(i + 1).last() == self.parts@[i as int]);
            match self.parts[i].to_rgba_plane() {
                Some(plane) => {
                    planes.push(plane);
                },
                None => {},
            }
            i += 1;
        }
        assert(self.parts@.take(i as int) =~= self.parts@);
        SubtitleFrame { pts: self.pts, planes }
    }
}

/// Composed RGBA subtitle planes for one presentation time.
#[derive(Debug, Clone, PartialEq, Eq)]
pub struct SubtitleFrame {
    pub pts: MediaDuration,
    pub planes: Vec<SubtitleBitmapPlane>,
}

/// A libass bitmap: a coverage mask of one color.
#[derive(Debug, Clone, PartialEq, Eq)]
pub struct AssBitmapPlane {
    pub x: i32,
    pub y: i32,
    pub width: u32,
    pub height: u32,
    pub stride: usize,
    pub color: u32,
    pub alpha: Vec<u8>,
}

/// The stride a libass bitmap is read with: never below its width.
pub open spec fn effective_stride(b: AssBitmapPlane) -> usize {
    if b.stride < b.width as usize { b.width as usize } else { b.stride }
}

/// The placement of a libass bitmap.
pub open spec fn ass_placement(b: AssBitmapPlane) -> SubtitleBitmapPlacement {
    SubtitleBitmapPlacement { x: b.x, y: b.y, width: b.width, height: b.height }
}

/// Whether a libass bitmap renders.
pub open spec fn ass_renderable(b: AssBitmapPlane) -> bool {
    b.width != 0 && b.height != 0 && b.alpha@.len() >= spec_required_len(ass_placement(b), effective_stride(b))
}

/// Whether `plane` is the RGBA rendering of a libass bitmap.
pub open spec fn ass_renders_to(b: AssBitmapPlane, plane: SubtitleBitmapPlane) -> bool {
    &&& plane.x == b.x
    &&& plane.y == b.y
    &&& plane.width == b.width
    &&& plane.height == b.height
    &&& plane.canvas_width == 0
    &&& plane.canvas_height == 0
    &&& plane.rgba@ == rgba_rows(spec_ass_color(b.color), b.alpha@, effective_stride(b) as int, b.width as int, b.height as int)
}

/// Whether the rendering of a libass bitmap fits in `usize`-addressable memory.
pub open spec fn ass_rgba_fits(b: AssBitmapPlane) -> bool {
    b.width as int * b.height as int * 4 <= usize::MAX && b.alpha@.len() < usize::MAX
}

/// The libass bitmaps among `bitmaps` that render.
pub open spec fn renderable_ass(bitmaps: Seq<AssBitmapPlane>) -> Seq<AssBitmapPlane>
    decreases bitmaps.len(),
{
    if bitmaps.len() == 0 {
        Seq::empty()
    } else if ass_renderable(bitmaps.last()) {
        renderable_ass(bitmaps.drop_last()).push(bitmaps.last())
    } else {
        renderable_ass(bitmaps.drop_last())
    }
}

/// Whether a libass bitmap's fields describe a consistent mask.
pub open spec fn ass_bitmap_accepted(width: u32, height: u32, stride: usize, alpha_len: nat) -> bool {
    let required = stride as int * height as int;
    let required_sat = if required > usize::MAX { usize::MAX as int } else { required };
    stride >= width && alpha_len >= required_sat
}

impl AssBitmapPlane {
    /// Accepts a bitmap whose stride covers its width and whose mask holds
    /// `stride * height` bytes.
    pub fn new(x: i32, y: i32, width: u32, height: u32, stride: usize, color: u32, alpha: Vec<u8>) -> (r: Result<Self>)
        ensures
            ass_bitmap_accepted(width, height, stride, alpha@.len()) ==> (r matches Ok(b) && b.x == x && b.y == y
                && b.width == width && b.height == height && b.stride == stride && b.color == color && b.alpha == alpha),
            !ass_bitmap_accepted(width, height, stride, alpha@.len()) ==> r == Err::<AssBitmapPlane, SubtitleError>(
                SubtitleError::InvalidBitmap { width, height, stride, bytes: alpha@.len() as usize }),
    {
        let required = match stride.checked_mul(height as usize) {
            Some(v) => v,
            None => usize::MAX,
        };
        if stride < width as usize || alpha.len() < required {
            return Err(SubtitleError::InvalidBitmap { width, height, stride, bytes: alpha.len() });
        }
        Ok(AssBitmapPlane { x, y, width, height, stride, color, alpha })
    }

    /// The bitmap as a coverage mask; `None` when it is empty.
    pub fn as_alpha_bitmap(&self) -> (r: Result<Option<SubtitleAlphaBitmap>>)
        ensures
            (self.width == 0 || self.height == 0) ==> r matches Ok(None),
            (self.width != 0 && self.height != 0) ==> (r matches Ok(Some(m)) && m.placement == ass_placement(*self)
                && m.stride == effective_stride(*self) && m.color_rgba == self.color && m.alpha@ == self.alpha@),
    {
        if self.width == 0 || self.height == 0 {
            return Ok(None);
        }
        Ok(Some(SubtitleAlphaBitmap::new(
            SubtitleBitmapPlacement::new(self.x, self.y, self.width, self.height),
            self.stride,
            self.color,
            slice_to_vec(self.alpha.as_slice()),
        )))
    }

    /// Renders the bitmap as RGBA, or reports it invalid.
    pub fn to_rgba_plane(&self) -> (r: Result<SubtitleBitmapPlane>)
        requires
            ass_rgba_fits(*self),
        ensures
            ass_renderable(*self) ==> (r matches Ok(p) && ass_renders_to(*self, p)),
            !ass_renderable(*self) ==> r == Err::<SubtitleBitmapPlane, SubtitleError>(SubtitleError::InvalidBitmap {
                width: self.width, height: self.height, stride: self.stride, bytes: self.alpha@.len() as usize }),
    {
        let invalid = SubtitleError::InvalidBitmap {
            width: self.width,
            height: self.height,
            stride: self.stride,
            bytes: self.alpha.len(),
        };
        match self.as_alpha_bitmap() {
            Ok(Some(mask)) => match mask.to_rgba_plane() {
                Some(plane) => Ok(plane),
                None => Err(invalid),
            },
            Ok(None) => Err(invalid),
            Err(e) => Err(e),
        }
    }
}

impl SubtitleFrame {
    /// Renders the libass bitmaps that can be rendered into a frame.
    pub fn from_ass_bitmaps(pts: MediaDuration, bitmaps: &[AssBitmapPlane]) -> (r: Result<Self>)
        requires
            forall|i: int| 0 <= i < bitmaps@.len() ==> ass_rgba_fits(#[trigger] bitmaps@[i]),
        ensures
            r matches Ok(frame) && frame.pts == pts && frame.planes@.len() == renderable_ass(bitmaps@).len()
                && forall|i: int| 0 <= i < frame.planes@.len() ==> ass_renders_to(#[trigger] renderable_ass(bitmaps@)[i], frame.planes@[i]),
    {
        let mut planes: Vec<SubtitleBitmapPlane> = Vec::new();
        let mut i: usize = 0;
        while i < bitmaps.len()
            invariant
                i <= bitmaps@.len(),
                forall|j: int| 0 <= j < bitmaps@.len() ==> ass_rgba_fits(#[trigger] bitmaps@[j]),
                planes@.len() == renderable_ass(bitmaps@.take(i as int)).len(),
                forall|j: int| 0 <= j < planes@.len() ==> ass_renders_to(#[trigger] renderable_ass(bitmaps@.take(i as int))[j], planes@[j]),
            decreases bitmaps@.len() - i,
        {
            assert(bitmaps@.take(i + 1).drop_last() =~= bitmaps@.take(i as int));
            assert(bitmaps@.take(i + 1).last() == bitmaps@[i as int]);
            match bitmaps[i].as_alpha_bitmap() {
                Ok(Some(mask)) => {
                    match mask.to_rgba_plane() {
                        Some(plane) => planes.push(plane),
                        None => {},
                    }
                },
                _ => {},
            }
            i += 1;
        }
        assert(bitmaps@.take(i as int) =~= bitmaps@);
        Ok(SubtitleFrame { pts, planes })
    }
}

// ---------------------------------------------------------------------------
// Rendering requests and results
// ---------------------------------------------------------------------------

/// The surface a subtitle frame is rendered for.
#[derive(Debug, Clone, Copy, PartialEq, Eq, Structural)]
pub struct SubtitleRenderViewport {
    pub width: u32,
    pub height: u32,
    pub storage_width: u32,
    pub storage_height: u32,
}

impl SubtitleRenderViewport {
    /// A viewport of at least one pixel in each direction, stored at its
    /// display size.
    pub fn new(width: u32, height: u32) -> (r: Self)
        ensures
            r.width == (if width < 1 { 1 } else { width }),
            r.height == (if height < 1 { 1 } else { height }),
            r.storage_width == r.width,
            r.storage_height == r.height,
    {
        let width = if width < 1 { 1 } else { width };
        let height = if height < 1 { 1 } else { height };
        SubtitleRenderViewport { width, height, storage_width: width, storage_height: height }
    }
}

pub type SubtitleViewport = SubtitleRenderViewport;

/// A request to render subtitles at one presentation time.
#[derive(Debug, Clone, Copy, PartialEq, Eq, Structural)]
pub struct SubtitleRenderRequest {
    pub pts: MediaDuration,
    pub viewport: SubtitleRenderViewport,
}

impl SubtitleRenderRequest {
    pub fn new(pts: MediaDuration, width: u32, height: u32) -> (r: Self)
        ensures
            r.pts == pts,
            r.viewport.width == (if width < 1 { 1 } else { width }),
            r.viewport.height == (if height < 1 { 1 } else { height }),
            r.viewport.storage_width == r.viewport.width,
            r.viewport.storage_height == r.viewport.height,
    {
        SubtitleRenderRequest { pts, viewport: SubtitleRenderViewport::new(width, height) }
    }
}

#[derive(Debug, Clone, Copy, PartialEq, Eq, Structural)]
pub enum SubtitleRenderBackend {
    DebugTimeline,
    Libass,
}

pub type SubtitleRendererBackend = SubtitleRenderBackend;

/// What a subtitle renderer produced.
#[derive(Debug, Clone, PartialEq, Eq)]
pub enum SubtitleRenderOutput {
    Rgba(SubtitleFrame),
    Alpha(SubtitleBitmapSet),
}

impl SubtitleRenderOutput {
    /// The output as composed RGBA planes.
    pub fn into_rgba_frame(self) -> (r: SubtitleFrame)
        requires
            self matches SubtitleRenderOutput::Alpha(set) ==> forall|i: int| 0 <= i < set.parts@.len() ==> rgba_fits(
                #[trigger] set.parts@[i]),
        ensures
            self matches SubtitleRenderOutput::Rgba(frame) ==> r == frame,
            self matches SubtitleRenderOutput::Alpha(set) ==> r.pts == set.pts && planes_render(renderable_parts(set.parts@), r.planes@),
    {
        match self {
            SubtitleRenderOutput::Rgba(v) => v,
            SubtitleRenderOutput::Alpha(v) => v.to_frame(),
        }
    }
}

/// A subtitle renderer.
pub trait SubtitleRenderer {
    /// What `render` gives for `request` on a renderer that was `before`
    /// and is `after` the call; a renderer that states nothing promises
    /// nothing.
    open spec fn render_result(before: &Self, after: &Self, request: SubtitleRenderRequest, r: Result<SubtitleRenderOutput>) -> bool {
        true
    }

    fn backend(&self) -> SubtitleRenderBackend;

    fn render(&mut self, request: SubtitleRenderRequest) -> (r: Result<SubtitleRenderOutput>)
        ensures
            Self::render_result(old(self), final(self), request, r),
    ;
}

#[derive(Debug, Clone, Copy, PartialEq, Eq, Structural)]
pub enum SubtitleFrameChange {
    Changed,
    Unchanged,
}

/// A rendered subtitle frame and whether it differs from the previous one.
#[derive(Debug, Clone, PartialEq, Eq)]
pub struct SubtitleRenderResult {
    pub backend: SubtitleRendererBackend,
    pub change: SubtitleFrameChange,
    pub frame: SubtitleFrame,
}

/// A timed subtitle line.
#[derive(Debug, Clone, PartialEq, Eq)]
pub struct SubtitleCue {
    pub start: MediaDuration,
    pub end: MediaDuration,
    pub text: String,
}

/// The cues of a subtitle track; always empty in this build.
#[derive(Debug, Clone)]
pub struct SubtitleTimeline {
    cues: Vec<SubtitleCue>,
}

impl Default for SubtitleTimeline {
    fn default() -> (r: Self)
        ensures
            r.cue_count() == 0,
    {
        SubtitleTimeline { cues: Vec::new() }
    }
}

impl SubtitleTimeline {
    /// Number of cues the timeline holds.
    pub closed spec fn cue_count(&self) -> nat {
        self.cues@.len()
    }

    /// Subtitle parsing is not part of this build, so the timeline drops
    /// the cues it is given.
    pub fn new(cues: Vec<SubtitleCue>) -> (r: Self)
        ensures
            r.cue_count() == 0,
    {
        SubtitleTimeline::default()
    }

    pub fn cues(&self) -> (r: &[SubtitleCue])
        ensures
            r@.len() == self.cue_count(),
    {
        self.cues.as_slice()
    }

    /// No cue is ever active.
    pub fn active_cues(&self, pts: MediaDuration) -> (r: Vec<&SubtitleCue>)
        ensures
            r@.len() == 0,
    {
        Vec::new()
    }

    /// An empty frame at `pts`.
    pub fn render_debug_frame(&self, pts: MediaDuration, width: u32, height: u32) -> (r: SubtitleFrame)
        ensures
            r.pts == pts,
            r.planes@.len() == 0,
    {
        SubtitleFrame { pts, planes: Vec::new() }
    }
}

/// The renderer behind the debug timeline: it has nothing to draw.
#[derive(Debug, Clone)]
pub struct SubtitleRendererCore {
    timeline: SubtitleTimeline,
}

impl Default for SubtitleRendererCore {
    fn default() -> (r: Self)
        ensures
            r.spec_timeline().cue_count() == 0,
    {
        SubtitleRendererCore { timeline: SubtitleTimeline::default() }
    }
}

impl SubtitleRendererCore {
    pub closed spec fn spec_timeline(&self) -> SubtitleTimeline {
        self.timeline
    }

    /// A debug renderer; the timeline's cues are not kept.
    pub fn new_debug(timeline: SubtitleTimeline) -> (r: Self)
        ensures
            r.spec_timeline().cue_count() == 0,
    {
        SubtitleRendererCore::default()
    }

    pub fn timeline(&self) -> (r: &SubtitleTimeline)
        ensures
            *r == self.spec_timeline(),
    {
        &self.timeline
    }

    /// An unchanged, empty frame at `pts`.
    pub fn render(&mut self, pts: MediaDuration, viewport: SubtitleViewport) -> (r: SubtitleRenderResult)
        ensures
            r.backend == SubtitleRenderBackend::DebugTimeline,
            r.change == SubtitleFrameChange::Unchanged,
            r.frame.pts == pts,
            r.frame.planes@.len() == 0,
            final(self).spec_timeline() == old(self).spec_timeline(),
    {
        SubtitleRenderResult {
            backend: SubtitleRenderBackend::DebugTimeline,
            change: SubtitleFrameChange::Unchanged,
            frame: SubtitleFrame { pts, planes: Vec::new() },
        }
    }

    /// An unchanged, empty libass frame at `pts`.
    pub fn render_ass_bitmaps(pts: MediaDuration, bitmaps: &[AssBitmapPlane]) -> (r: Result<SubtitleRenderResult>)
        ensures
            r matches Ok(res) && res.backend == SubtitleRenderBackend::Libass && res.change == SubtitleFrameChange::Unchanged
                && res.frame.pts == pts && res.frame.planes@.len() == 0,
    {
        Ok(SubtitleRenderResult {
            backend: SubtitleRenderBackend::Libass,
            change: SubtitleFrameChange::Unchanged,
            frame: SubtitleFrame { pts, planes: Vec::new() },
        })
    }
}

impl SubtitleRenderer for SubtitleRendererCore {
    fn backend(&self) -> (r: SubtitleRenderBackend)
        ensures
            r == SubtitleRenderBackend::DebugTimeline,
    {
        SubtitleRenderBackend::DebugTimeline
    }

    /// The debug renderer gives its empty frame at the request's time, as
    /// RGBA planes, and keeps its timeline.
    open spec fn render_result(before: &Self, after: &Self, request: SubtitleRenderRequest, r: Result<SubtitleRenderOutput>) -> bool {
        &&& r matches Ok(SubtitleRenderOutput::Rgba(frame)) && frame.pts == request.pts && frame.planes@.len() == 0
        &&& after.spec_timeline() == before.spec_timeline()
    }

    fn render(&mut self, request: SubtitleRenderRequest) -> Result<SubtitleRenderOutput> {
        let result = SubtitleRendererCore::render(self, request.pts, request.viewport);
        Ok(SubtitleRenderOutput::Rgba(result.frame))
    }
}

// ---------------------------------------------------------------------------
// Decoded subtitle packets
// ---------------------------------------------------------------------------

/// A piece of decoded subtitle text.
#[derive(Debug, Clone, PartialEq, Eq)]
pub struct SubtitleTextSegment {
    pub format: SubtitleTextFormat,
    pub text: String,
    pub forced: bool,
}

impl SubtitleTextSegment {
    pub fn new(format: SubtitleTextFormat, text: String) -> (r: Self)
        ensures
            r.format == format && r.text == text && !r.forced,
    {
        SubtitleTextSegment { format, text, forced: false }
    }

    pub fn with_forced(self, forced: bool) -> (r: Self)
        ensures
            r.format == self.format && r.text == self.text && r.forced == forced,
    {
        let mut segment = self;
        segment.forced = forced;
        segment
    }

    /// The text as shown.
    pub fn display_text(&self) -> (r: String)
        ensures
            r@ == self.text@,
    {
        self.text.clone()
    }
}

/// One decoded subtitle packet: its timing, text and bitmaps.
#[derive(Debug, Clone, PartialEq, Eq)]
pub struct DecodedSubtitleFrame {
    pub track_id: i64,
    pub start: Option<MediaDuration>,
    pub end: Option<MediaDuration>,
    pub text: Vec<SubtitleTextSegment>,
    pub bitmap: SubtitleFrame,
    pub forced: bool,
    pub ass_track: Option<std::sync::Arc<AssTrackResources>>,
}

impl DecodedSubtitleFrame {
    /// An empty packet; its bitmap frame starts at `start`, or at zero when
    /// the start is unknown.
    pub fn new(track_id: i64, start: Option<MediaDuration>, end: Option<MediaDuration>) -> (r: Self)
        ensures
            r.track_id == track_id && r.start == start && r.end == end,
            r.text@.len() == 0,
            r.bitmap.planes@.len() == 0,
            start matches Some(s) ==> r.bitmap.pts == s,
            start is None ==> r.bitmap.pts.nanos() == 0,
            !r.forced,
            r.ass_track is None,
    {
        let pts = match start {
            Some(s) => s,
            None => MediaDuration::zero(),
        };
        DecodedSubtitleFrame {
            track_id,
            start,
            end,
            text: Vec::new(),
            bitmap: SubtitleFrame { pts, planes: Vec::new() },
            forced: false,
            ass_track: None,
        }
    }

    /// Whether the packet has neither text nor bitmaps.
    pub fn is_empty(&self) -> (r: bool)
        ensures
            r == (self.text@.len() == 0 && self.bitmap.planes@.len() == 0),
    {
        self.text.len() == 0 && self.bitmap.planes.len() == 0
    }

    /// Adds a text segment (empty text is dropped, but a forced flag is kept).
    pub fn push_text(&mut self, segment: SubtitleTextSegment)
        ensures
            final(self).forced == (old(self).forced || segment.forced),
            final(self).text@ == (if segment.text@.len() == 0 { old(self).text@ } else { old(self).text@.push(segment) }),
            final(self).track_id == old(self).track_id,
            final(self).start == old(self).start,
            final(self).end == old(self).end,
            final(self).bitmap == old(self).bitmap,
            final(self).ass_track == old(self).ass_track,
    {
        self.forced = self.forced || segment.forced;
        if segment.text.as_str().is_empty() {
            return;
        }
        self.text.push(segment);
    }

    /// Adds a bitmap plane.
    pub fn push_bitmap_plane(&mut self, plane: SubtitleBitmapPlane, forced: bool)
        ensures
            final(self).forced == (old(self).forced || forced),
            final(self).bitmap.planes@ == old(self).bitmap.planes@.push(plane),
            final(self).bitmap.pts == old(self).bitmap.pts,
            final(self).text == old(self).text,
            final(self).track_id == old(self).track_id,
            final(self).start == old(self).start,
            final(self).end == old(self).end,
            final(self).ass_track == old(self).ass_track,
    {
        self.forced = self.forced || forced;
        self.bitmap.planes.push(plane);
    }

    pub fn with_track_id(self, track_id: i64) -> (r: Self)
        ensures
            r.track_id == track_id && r.start == self.start && r.end == self.end && r.text == self.text
                && r.bitmap == self.bitmap && r.forced == self.forced && r.ass_track == self.ass_track,
    {
        let mut frame = self;
        frame.track_id = track_id;
        frame
    }

    pub fn with_ass_track(self, resources: Option<std::sync::Arc<AssTrackResources>>) -> (r: Self)
        ensures
            r.track_id == self.track_id && r.start == self.start && r.end == self.end && r.text == self.text
                && r.bitmap == self.bitmap && r.forced == self.forced && r.ass_track == resources,
    {
        let mut frame = self;
        frame.ass_track = resources;
        frame
    }

    /// ASS event chunks are never kept in this build.
    pub fn has_ass_chunks(&self) -> (r: bool)
        ensures !r,
    {
        false
    }

    /// Text is never reported in this build.
    pub fn has_text(&self) -> (r: bool)
        ensures !r,
    {
        false
    }

    /// No cues are produced in this build.
    pub fn text_cues(&self, fallback_end: MediaDuration) -> (r: Vec<SubtitleCue>)
        ensures r@.len() == 0,
    {
        Vec::new()
    }

    /// No ASS script is produced in this build.
    pub fn to_ass_script(&self, fallback_end: MediaDuration) -> (r: Option<String>)
        ensures r is None,
    {
        None
    }
}

// ---------------------------------------------------------------------------
// libass configuration and removed entry points
// ---------------------------------------------------------------------------

/// libass cache limits.
#[derive(Debug, Clone, Copy, PartialEq, Eq, Structural)]
pub struct LibassRenderConfig {
    pub glyph_cache_limit: i32,
    pub bitmap_cache_limit_mb: i32,
}

impl Default for LibassRenderConfig {
    fn default() -> (r: Self)
        ensures
            r == (LibassRenderConfig { glyph_cache_limit: 0, bitmap_cache_limit_mb: 0 }),
    {
        LibassRenderConfig { glyph_cache_limit: 0, bitmap_cache_limit_mb: 0 }
    }
}

/// One libass call of a render plan.
#[derive(Debug, Clone, Copy, PartialEq, Eq, Structural)]
pub enum LibassRenderOperation {
    SetFrameSize { width: u32, height: u32 },
    SetStorageSize { width: u32, height: u32 },
    SetCacheLimits { glyphs: i32, bitmap_mb: i32 },
    RenderFrame { timestamp_ms: i64 },
}

/// The libass calls a render request would make.
#[derive(Debug, Clone, PartialEq, Eq)]
pub struct LibassRenderPlan {
    pub request: SubtitleRenderRequest,
    pub config: LibassRenderConfig,
    pub operations: Vec<LibassRenderOperation>,
}

impl LibassRenderPlan {
    /// A plan with no operations: nothing is rendered in this build.
    pub fn new(request: SubtitleRenderRequest, config: LibassRenderConfig) -> (r: Self)
        ensures
            r.request == request && r.config == config && r.operations@.len() == 0,
    {
        LibassRenderPlan { request, config, operations: Vec::new() }
    }
}

pub const SUBTITLE_OVERRIDE_FONT_SIZE_FIELDS: u32 = 4;
pub const SUBTITLE_OVERRIDE_FONT_NAME: u32 = 8;
pub const SUBTITLE_OVERRIDE_COLORS: u32 = 16;
pub const SUBTITLE_OVERRIDE_ATTRIBUTES: u32 = 32;
pub const SUBTITLE_OVERRIDE_BORDER: u32 = 64;
pub const SUBTITLE_OVERRIDE_ALIGNMENT: u32 = 128;
pub const SUBTITLE_OVERRIDE_MARGINS: u32 = 256;
pub const SUBTITLE_OVERRIDE_BLUR: u32 = 2048;
pub const SUBTITLE_OVERRIDE_LEGACY_FORCE: u32 = 92;
pub const SUBTITLE_OVERRIDE_ALL: u32 = 2556;
pub const DEFAULT_SUBTITLE_PRIMARY_COLOR_RGBA: u32 = 0xffff_ffff;
pub const DEFAULT_SUBTITLE_OUTLINE_COLOR_RGBA: u32 = 0x0000_007f;

/// SRT parsing is not part of this build.
pub fn parse_srt(input: &str) -> (r: Result<SubtitleTimeline>)
    ensures is_removed_error(r),
{
    removed()
}

/// WebVTT parsing is not part of this build.
pub fn parse_webvtt(input: &str) -> (r: Result<SubtitleTimeline>)
    ensures is_removed_error(r),
{
    removed()
}

/// ASS event parsing is not part of this build.
pub fn parse_ass_events(input: &str) -> (r: Result<SubtitleTimeline>)
    ensures is_removed_error(r),
{
    removed()
}

/// Subtitle file parsing is not part of this build.
pub fn parse_subtitle_text_file(format: SubtitleFileFormat, input: &str) -> (r: Result<SubtitleTimeline>)
    ensures is_removed_error(r),
{
    removed()
}

/// Decoded packets never yield cues in this build.
pub fn decoded_subtitle_frames_to_timeline(frames: &[DecodedSubtitleFrame], fallback_end: MediaDuration) -> (r: SubtitleTimeline)
    ensures r.cue_count() == 0,
{
    SubtitleTimeline::default()
}

/// Decoded packets never yield an ASS script in this build.
pub fn decoded_subtitle_frames_to_ass_script(frames: &[DecodedSubtitleFrame], fallback_end: MediaDuration) -> (r: Option<String>)
    ensures r is None,
{
    None
}

} // verus!
