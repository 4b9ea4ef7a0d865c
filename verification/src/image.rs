//! Decode-once still-image policy.
//!
//! Static AVIF images are demuxed and decoded once, then either rendered into
//! a bounded SDR RGBA buffer or retained as 8/10-bit YUV planes for a native
//! HDR surface.  This module holds the limits that bound that work, the
//! checks made between the decode steps, and the geometry of the retained
//! and rendered pixels.

use vstd::prelude::*;
use vstd::string::StringExecFns;

use crate::arith::lemma_mul_u32_fits_u64;
use crate::media::{ColorPrimaries, DecoderBackend, MediaDuration, MediaSourceHint, TransferFunction};
use crate::renderer::output::DynamicRange;
use crate::renderer::pipeline::{ColorRange, MatrixCoefficients};
use crate::text::{
    contains_ignoring_ascii_case, contains_ignoring_ascii_case_exec, decimal, push_decimal, push_seconds, seconds_text,
    spec_starts_with, str_starts_with, string_of,
};

verus! {

/// Largest encoded image accepted.
pub const MAX_IMAGE_INPUT_BYTES: u64 = 134217728;
/// Largest decoded source frame accepted, in pixels.
pub const MAX_IMAGE_SOURCE_PIXELS: u64 = 33554432;
/// Largest rendered output accepted, in pixels.
pub const MAX_IMAGE_OUTPUT_PIXELS: u64 = 33554432;
/// Most packets read while looking for the first frame.
pub const MAX_IMAGE_PACKETS_BEFORE_FRAME: usize = 4096;
/// Longest decode time a policy may allow, in seconds.
pub const MAX_IMAGE_DECODE_SECS: u64 = 120;

/// The longest decode time a policy may allow.
pub fn max_image_decode_time() -> (r: MediaDuration)
    ensures
        r.wf(),
        r.nanos() == 120_000_000_000,
{
    MediaDuration::from_secs(MAX_IMAGE_DECODE_SECS)
}

#[derive(Debug)]
pub enum ImageError {
    Source(String),
    Demux(String),
    NoVisualTrack,
    Decode(String),
    NoFrame,
    UnsupportedPixelFormat,
    Cancelled,
    WorkLimit(String),
    PixelLimit { width: u32, height: u32, max_pixels: u64 },
    Renderer(String),
}

/// Work limits for one still-image decode.
#[derive(Debug, Clone, Copy, PartialEq, Eq, Structural)]
pub struct ImageDecodePolicy {
    pub max_input_bytes: u64,
    pub max_source_pixels: u64,
    pub max_output_pixels: u64,
    pub max_packets_before_frame: usize,
    pub decode_timeout: MediaDuration,
}

impl Default for ImageDecodePolicy {
    fn default() -> (r: Self)
        ensures
            r.max_input_bytes == MAX_IMAGE_INPUT_BYTES,
            r.max_source_pixels == MAX_IMAGE_SOURCE_PIXELS,
            r.max_output_pixels == MAX_IMAGE_OUTPUT_PIXELS,
            r.max_packets_before_frame == 256,
            r.decode_timeout.wf(),
            r.decode_timeout.nanos() == 15_000_000_000,
    {
        ImageDecodePolicy {
            max_input_bytes: MAX_IMAGE_INPUT_BYTES,
            max_source_pixels: MAX_IMAGE_SOURCE_PIXELS,
            max_output_pixels: MAX_IMAGE_OUTPUT_PIXELS,
            max_packets_before_frame: 256,
            decode_timeout: MediaDuration::from_secs(15),
        }
    }
}

/// The message of the first limit of `policy` that lies outside its
/// allowed range, if any.
pub open spec fn spec_policy_violation(policy: ImageDecodePolicy) -> Option<Seq<char>> {
    if policy.max_input_bytes == 0 || policy.max_input_bytes > MAX_IMAGE_INPUT_BYTES {
        Some("max input bytes must be within 1..=134217728"@)
    } else if policy.max_source_pixels == 0 || policy.max_source_pixels > MAX_IMAGE_SOURCE_PIXELS {
        Some("max source pixels must be within 1..=33554432"@)
    } else if policy.max_output_pixels == 0 || policy.max_output_pixels > MAX_IMAGE_OUTPUT_PIXELS {
        Some("max output pixels must be within 1..=33554432"@)
    } else if policy.max_packets_before_frame == 0 || policy.max_packets_before_frame > MAX_IMAGE_PACKETS_BEFORE_FRAME {
        Some("max packets before frame must be within 1..=4096"@)
    } else if policy.decode_timeout.nanos() == 0 || policy.decode_timeout.nanos() > 120_000_000_000 {
        Some("decode timeout must be within 1ms..=120s"@)
    } else {
        None
    }
}

impl ImageDecodePolicy {
    /// Accepts the policy when every limit lies within its allowed range;
    /// otherwise names the first limit that does not.
    pub fn validate(self) -> (r: Result<Self, ImageError>)
        ensures
            match spec_policy_violation(self) {
                None => r matches Ok(p) && p == self,
                Some(msg) => r matches Err(ImageError::WorkLimit(m)) && m@ == msg,
            },
    {
        if self.max_input_bytes == 0 || self.max_input_bytes > MAX_IMAGE_INPUT_BYTES {
            return Err(ImageError::WorkLimit(string_of("max input bytes must be within 1..=134217728")));
        }
        if self.max_source_pixels == 0 || self.max_source_pixels > MAX_IMAGE_SOURCE_PIXELS {
            return Err(ImageError::WorkLimit(string_of("max source pixels must be within 1..=33554432")));
        }
        if self.max_output_pixels == 0 || self.max_output_pixels > MAX_IMAGE_OUTPUT_PIXELS {
            return Err(ImageError::WorkLimit(string_of("max output pixels must be within 1..=33554432")));
        }
        if self.max_packets_before_frame == 0 || self.max_packets_before_frame > MAX_IMAGE_PACKETS_BEFORE_FRAME {
            return Err(ImageError::WorkLimit(string_of("max packets before frame must be within 1..=4096")));
        }
        let limit = max_image_decode_time();
        if self.decode_timeout.is_zero() || self.decode_timeout.as_nanos() > limit.as_nanos() {
            return Err(ImageError::WorkLimit(string_of("decode timeout must be within 1ms..=120s")));
        }
        Ok(self)
    }
}

/// Whether a `width`×`height` frame is non-empty and within `max_pixels`.
pub open spec fn spec_pixels_ok(width: u32, height: u32, max_pixels: u64) -> bool {
    width != 0 && height != 0 && width as int * height as int <= max_pixels
}

/// Rejects an empty frame or one with more than `max_pixels` pixels.
pub fn validate_pixels(width: u32, height: u32, max_pixels: u64) -> (r: Result<(), ImageError>)
    ensures
        spec_pixels_ok(width, height, max_pixels) ==> r is Ok,
        !spec_pixels_ok(width, height, max_pixels) ==> (r matches Err(ImageError::PixelLimit { width: w, height: h, max_pixels: m })
            && w == width && h == height && m == max_pixels),
{
    proof { lemma_mul_u32_fits_u64(width, height); }
    let pixels: u64 = (width as u64) * (height as u64);
    if width == 0 || height == 0 || pixels > max_pixels {
        return Err(ImageError::PixelLimit { width, height, max_pixels });
    }
    Ok(())
}

/// A bound of zero leaves that dimension unbounded.
pub open spec fn effective_bound(bound: u32, source: u32) -> u32 {
    if bound == 0 { source } else { bound }
}

/// The inputs on which the extent is defined: a zero-width source has no
/// aspect ratio to scale when both widths are unbounded and it is too tall.
pub open spec fn bounded_extent_defined(source_width: u32, source_height: u32, max_width: u32, max_height: u32) -> bool {
    !(source_width == 0 && max_width == 0 && source_height > effective_bound(max_height, source_height))
}

/// The largest extent with the source's aspect ratio inside the bounds
/// (rounding the scaled side down, but never below one pixel); a source that
/// already fits keeps its size.
pub open spec fn spec_bounded_extent(source_width: u32, source_height: u32, max_width: u32, max_height: u32) -> (u32, u32) {
    let mw = effective_bound(max_width, source_width) as int;
    let mh = effective_bound(max_height, source_height) as int;
    let sw = source_width as int;
    let sh = source_height as int;
    if sw <= mw && sh <= mh {
        (source_width, source_height)
    } else if mw * sh <= mh * sw {
        let h = sh * mw / sw;
        ((if mw < 1 { 1 } else { mw }) as u32, (if h < 1 { 1 } else { h }) as u32)
    } else {
        let w = sw * mh / sh;
        ((if w < 1 { 1 } else { w }) as u32, (if mh < 1 { 1 } else { mh }) as u32)
    }
}

proof fn lemma_div_le(a: int, b: int, c: int)
    requires
        0 <= a,
        0 < c,
        a <= b * c,
    ensures
        a / c <= b,
{
    assert(a / c <= b) by (nonlinear_arith)
        requires 0 <= a, 0 < c, a <= b * c;
}

proof fn lemma_div_lt(a: int, b: int, c: int)
    requires
        0 <= a,
        0 < c,
        a < b * c,
    ensures
        a / c < b,
{
    assert(a / c < b) by (nonlinear_arith)
        requires 0 <= a, 0 < c, a < b * c;
}

/// The bounded extent keeps the source's aspect ratio up to rounding: the
/// cross products of the two extents differ by less than the source's
/// longer side, so the scaled side is off by less than one pixel.
pub proof fn lemma_bounded_extent_keeps_aspect_ratio(source_width: u32, source_height: u32, max_width: u32, max_height: u32)
    requires
        source_width > 0,
        source_height > 0,
    ensures
        ({
            let e = spec_bounded_extent(source_width, source_height, max_width, max_height);
            let d = e.0 as int * source_height as int - e.1 as int * source_width as int;
            let longer: int = if source_width > source_height { source_width as int } else { source_height as int };
            -longer < d < longer
        }),
{
    let e = spec_bounded_extent(source_width, source_height, max_width, max_height);
    let mw = effective_bound(max_width, source_width) as int;
    let mh = effective_bound(max_height, source_height) as int;
    let sw = source_width as int;
    let sh = source_height as int;
    let longer: int = if sw > sh { sw } else { sh };
    if sw <= mw && sh <= mh {
        assert(e.0 as int == sw && e.1 as int == sh);
        assert(sw * sh - sh * sw == 0) by (nonlinear_arith);
    } else if mw * sh <= mh * sw {
        let q = sh * mw / sw;
        assert(q * sw <= sh * mw < (q + 1) * sw) by (nonlinear_arith)
            requires sw > 0, q == sh * mw / sw, sh * mw >= 0;
        assert(0 <= q <= mh) by (nonlinear_arith)
            requires q * sw <= sh * mw, sh * mw <= mh * sw, sw > 0, sh * mw >= 0, q == sh * mw / sw;
        let h: int = if q < 1 { 1 } else { q };
        let w: int = if mw < 1 { 1 } else { mw };
        assert(e.0 as int == w && e.1 as int == h);
        if mw < 1 {
            assert(q == 0) by (nonlinear_arith) requires q == sh * mw / sw, mw == 0, sw > 0;
            assert(-longer < 1 * sh - 1 * sw < longer);
        } else if q < 1 {
            assert(0 < mw * sh < sw) by (nonlinear_arith)
                requires q < 1, q >= 0, sh * mw < (q + 1) * sw, sw > 0, mw >= 1, sh >= 1;
            assert(-longer < mw * sh - 1 * sw < longer);
        } else {
            assert(0 <= mw * sh - q * sw < sw) by (nonlinear_arith)
                requires q * sw <= sh * mw, sh * mw < (q + 1) * sw;
        }
    } else {
        let q = sw * mh / sh;
        assert(q * sh <= sw * mh < (q + 1) * sh) by (nonlinear_arith)
            requires sh > 0, q == sw * mh / sh, sw * mh >= 0;
        assert(0 <= q <= mw) by (nonlinear_arith)
            requires q * sh <= sw * mh, sw * mh < mw * sh, sh > 0, sw * mh >= 0, q == sw * mh / sh;
        let w: int = if q < 1 { 1 } else { q };
        let h: int = if mh < 1 { 1 } else { mh };
        assert(e.0 as int == w && e.1 as int == h);
        if mh < 1 {
            assert(q == 0) by (nonlinear_arith) requires q == sw * mh / sh, mh == 0, sh > 0;
            assert(-longer < 1 * sh - 1 * sw < longer);
        } else if q < 1 {
            assert(0 < mh * sw < sh) by (nonlinear_arith)
                requires q < 1, q >= 0, sw * mh < (q + 1) * sh, sh > 0, mh >= 1, sw >= 1;
            assert(-longer < 1 * sh - mh * sw < longer);
        } else {
            assert(0 <= mh * sw - q * sh < sh) by (nonlinear_arith)
                requires q * sh <= sw * mh, sw * mh < (q + 1) * sh;
        }
    }
}

/// Scales a source extent down to fit `max_width`×`max_height` (zero meaning
/// unbounded) while keeping its aspect ratio; the bounds are pixel bounds,
/// not a crop.
pub fn bounded_extent(source_width: u32, source_height: u32, max_width: u32, max_height: u32) -> (r: (u32, u32))
    requires
        bounded_extent_defined(source_width, source_height, max_width, max_height),
    ensures
        r == spec_bounded_extent(source_width, source_height, max_width, max_height),
        source_width <= effective_bound(max_width, source_width)
            && source_height <= effective_bound(max_height, source_height) ==> r == (source_width, source_height),
        !(source_width <= effective_bound(max_width, source_width)
            && source_height <= effective_bound(max_height, source_height)) ==> r.0 >= 1 && r.1 >= 1,
        effective_bound(max_width, source_width) >= 1 && effective_bound(max_height, source_height) >= 1 ==>
            r.0 <= effective_bound(max_width, source_width) && r.1 <= effective_bound(max_height, source_height),
{
    let max_width = if max_width == 0 { source_width } else { max_width };
    let max_height = if max_height == 0 { source_height } else { max_height };
    if source_width <= max_width && source_height <= max_height {
        return (source_width, source_height);
    }
    proof {
        lemma_mul_u32_fits_u64(max_width, source_height);
        lemma_mul_u32_fits_u64(max_height, source_width);
        lemma_mul_u32_fits_u64(source_height, max_width);
        lemma_mul_u32_fits_u64(source_width, max_height);
    }
    let width_limited = (max_width as u64) * (source_height as u64) <= (max_height as u64) * (source_width as u64);
    if width_limited {
        proof {
            if source_width == 0 {
                assert(source_height > 0);
                assert(max_height as int * source_width as int == 0) by (nonlinear_arith)
                    requires source_width == 0;
                assert(max_width as int * source_height as int >= 0) by (nonlinear_arith)
                    requires max_width >= 0, source_height >= 0;
                assert(max_width as int * source_height as int == 0);
                assert(max_width == 0) by (nonlinear_arith)
                    requires max_width as int * source_height as int == 0, source_height > 0, max_width >= 0;
            }
        }
        let scaled: u64 = (source_height as u64) * (max_width as u64) / (source_width as u64);
        proof {
            assert(source_height as int * max_width as int == max_width as int * source_height as int) by (nonlinear_arith);
            assert(source_height as int * max_width as int >= 0) by (nonlinear_arith)
                requires max_width >= 0, source_height >= 0;
            lemma_div_le(source_height as int * max_width as int, max_height as int, source_width as int);
        }
        let height: u64 = if scaled < 1 { 1 } else { scaled };
        let width: u32 = if max_width < 1 { 1 } else { max_width };
        (width, height as u32)
    } else {
        proof {
            assert(max_width as int * source_height as int > max_height as int * source_width as int);
            assert(source_width as int * max_height as int == max_height as int * source_width as int) by (nonlinear_arith);
            assert(max_height as int * source_width as int >= 0) by (nonlinear_arith)
                requires max_height >= 0, source_width >= 0;
            if source_height == 0 {
                assert(max_width as int * source_height as int == 0) by (nonlinear_arith)
                    requires source_height == 0;
            }
        }
        let scaled: u64 = (source_width as u64) * (max_height as u64) / (source_height as u64);
        proof {
            lemma_div_lt(source_width as int * max_height as int, max_width as int, source_height as int);
        }
        let width: u64 = if scaled < 1 { 1 } else { scaled };
        let height: u32 = if max_height < 1 { 1 } else { max_height };
        (width as u32, height)
    }
}

#[derive(Debug, Clone, Copy, PartialEq, Eq, Structural)]
pub enum ImagePixelFormat {
    Rgba8888,
}

/// Pixel layout of the retained source planes.
#[derive(Debug, Clone, Copy, PartialEq, Eq, Structural)]
pub enum PlanarPixelFormat {
    Nv12,
    P010,
}

/// What is known of a decoded still image.
#[derive(Debug, Clone, Copy, PartialEq, Eq, Structural)]
pub struct ImageMetadata {
    pub width: u32,
    pub height: u32,
    pub bit_depth: u8,
    pub primaries: ColorPrimaries,
    pub transfer: TransferFunction,
    pub matrix: MatrixCoefficients,
    pub range: ColorRange,
    pub source_dynamic_range: DynamicRange,
    /// Static images are decoded by the CPU-readable software AV1 decoder.
    pub decode_backend: DecoderBackend,
}

impl ImageMetadata {
    /// Metadata as a decode builds it: a non-empty frame of 8- or 10-bit
    /// samples, decoded in software, whose dynamic range is the one its
    /// transfer function signals.
    pub open spec fn is_decoded(self) -> bool {
        &&& self.width != 0 && self.height != 0
        &&& self.bit_depth == 8 || self.bit_depth == 10
        &&& self.source_dynamic_range == spec_dynamic_range_for_transfer(self.transfer)
        &&& self.decode_backend == DecoderBackend::Software
    }

    /// Whether the source carries an HDR signal.
    pub fn is_hdr(self) -> (r: bool)
        ensures
            r == (self.source_dynamic_range is Hdr10Pq || self.source_dynamic_range is Hlg
                || self.source_dynamic_range is UltraHdrGainMap),
    {
        match self.source_dynamic_range {
            DynamicRange::Hdr10Pq | DynamicRange::Hlg | DynamicRange::UltraHdrGainMap => true,
            _ => false,
        }
    }
}

/// A tightly packed SDR RGBA rendering of a still image.
#[derive(Debug, Clone, PartialEq, Eq)]
pub struct SdrImage {
    pub width: u32,
    pub height: u32,
    pub row_bytes: u32,
    pub pixel_format: ImagePixelFormat,
    pub rgba: Vec<u8>,
}

impl SdrImage {
    /// The SDR image of a renderer's `width`×`height` readback: RGBA8888
    /// rows of four bytes per pixel (saturating at `u32::MAX`), with the
    /// readback's bytes as they are.
    pub fn from_readback(width: u32, height: u32, rgba: Vec<u8>) -> (r: SdrImage)
        ensures
            r.width == width,
            r.height == height,
            r.row_bytes == (if width as int * 4 <= u32::MAX { (width * 4) as u32 } else { u32::MAX }),
            r.pixel_format == ImagePixelFormat::Rgba8888,
            r.rgba@ == rgba@,
    {
        let row_bytes: u32 = if width <= u32::MAX / 4 { width * 4 } else { u32::MAX };
        SdrImage { width, height, row_bytes, pixel_format: ImagePixelFormat::Rgba8888, rgba }
    }
}

/// The dynamic range a transfer function signals.
pub open spec fn spec_dynamic_range_for_transfer(transfer: TransferFunction) -> DynamicRange {
    match transfer {
        TransferFunction::Pq => DynamicRange::Hdr10Pq,
        TransferFunction::Hlg => DynamicRange::Hlg,
        TransferFunction::Srgb | TransferFunction::Bt1886 => DynamicRange::Sdr,
        TransferFunction::Unknown => DynamicRange::Unknown,
    }
}

/// A transfer function decides the dynamic range: the SDR transfers (sRGB
/// and BT.1886) are SDR, PQ is HDR10 and HLG is HLG, so an image is HDR
/// exactly when its transfer is PQ or HLG; only an unknown transfer leaves
/// the range unknown, and a transfer alone never signals a gain map.
pub proof fn lemma_dynamic_range_follows_transfer(transfer: TransferFunction)
    ensures
        (spec_dynamic_range_for_transfer(transfer) == DynamicRange::Sdr) <==> (transfer == TransferFunction::Srgb
            || transfer == TransferFunction::Bt1886),
        (spec_dynamic_range_for_transfer(transfer) == DynamicRange::Hdr10Pq) <==> (transfer == TransferFunction::Pq),
        (spec_dynamic_range_for_transfer(transfer) == DynamicRange::Hlg) <==> (transfer == TransferFunction::Hlg),
        (spec_dynamic_range_for_transfer(transfer) == DynamicRange::Unknown) <==> (transfer == TransferFunction::Unknown),
        spec_dynamic_range_for_transfer(transfer) != DynamicRange::UltraHdrGainMap,
{
}

/// Classifies a decoded image's dynamic range by its transfer function.
pub fn dynamic_range_for_transfer(transfer: TransferFunction) -> (r: DynamicRange)
    ensures
        r == spec_dynamic_range_for_transfer(transfer),
{
    match transfer {
        TransferFunction::Pq => DynamicRange::Hdr10Pq,
        TransferFunction::Hlg => DynamicRange::Hlg,
        TransferFunction::Srgb | TransferFunction::Bt1886 => DynamicRange::Sdr,
        TransferFunction::Unknown => DynamicRange::Unknown,
    }
}

/// Bits per sample of the retained planes.
pub fn bit_depth(format: PlanarPixelFormat) -> (r: u8)
    ensures
        r == (if format is Nv12 { 8u8 } else { 10u8 }),
{
    match format {
        PlanarPixelFormat::Nv12 => 8,
        PlanarPixelFormat::P010 => 10,
    }
}

/// The frame's primaries, or the stream's when the frame does not say.
pub fn select_primaries(frame: ColorPrimaries, stream: ColorPrimaries) -> (r: ColorPrimaries)
    ensures
        r == (if frame is Unknown { stream } else { frame }),
{
    if frame == ColorPrimaries::Unknown { stream } else { frame }
}

/// The frame's transfer function, or the stream's when the frame does not say.
pub fn select_transfer(frame: TransferFunction, stream: TransferFunction) -> (r: TransferFunction)
    ensures
        r == (if frame is Unknown { stream } else { frame }),
{
    if frame == TransferFunction::Unknown { stream } else { frame }
}

/// A decoded frame dimension as an image dimension; negative sizes become 0.
pub fn frame_dimension(value: i32) -> (r: u32)
    ensures
        r == (if value < 0 { 0 } else { value as u32 }),
{
    if value < 0 { 0 } else { value as u32 }
}

/// Builds the metadata of a decoded still image.
pub fn image_metadata(
    width: u32,
    height: u32,
    format: PlanarPixelFormat,
    primaries: ColorPrimaries,
    transfer: TransferFunction,
    matrix: MatrixCoefficients,
    range: ColorRange,
) -> (r: ImageMetadata)
    ensures
        r == (ImageMetadata {
            width,
            height,
            bit_depth: if format is Nv12 { 8u8 } else { 10u8 },
            primaries,
            transfer,
            matrix,
            range,
            source_dynamic_range: spec_dynamic_range_for_transfer(transfer),
            decode_backend: DecoderBackend::Software,
        }),
        width != 0 && height != 0 ==> r.is_decoded(),
{
    ImageMetadata {
        width,
        height,
        bit_depth: bit_depth(format),
        primaries,
        transfer,
        matrix,
        range,
        source_dynamic_range: dynamic_range_for_transfer(transfer),
        decode_backend: DecoderBackend::Software,
    }
}

/// Whether a request names a network resource.
pub open spec fn spec_is_remote(uri: Seq<char>, source_hint: MediaSourceHint) -> bool {
    source_hint is Http || spec_starts_with(uri, "http://"@) || spec_starts_with(uri, "https://"@)
}

/// Still images are decoded only from a cached local file or an owned fd.
pub fn check_static_source(uri: &str, source_hint: MediaSourceHint) -> (r: Result<(), ImageError>)
    ensures
        spec_is_remote(uri@, source_hint) ==> (r matches Err(ImageError::Source(m))
            && m@ == "static image decode accepts only a cached local file or owned fd"@),
        !spec_is_remote(uri@, source_hint) ==> r is Ok,
{
    proof {
        reveal_strlit("http://");
        reveal_strlit("https://");
    }
    if source_hint == MediaSourceHint::Http || str_starts_with(uri, "http://") || str_starts_with(uri, "https://") {
        return Err(ImageError::Source(string_of("static image decode accepts only a cached local file or owned fd")));
    }
    Ok(())
}

/// Rejects an encoded image larger than the policy allows; an unknown size
/// passes.
pub fn check_input_size(input_bytes: Option<u64>, max_input_bytes: u64) -> (r: Result<(), ImageError>)
    ensures
        input_bytes matches Some(n) ==> (n > max_input_bytes ==> (r matches Err(ImageError::WorkLimit(m))
            && m@ == "encoded image is "@ + decimal(n as nat) + " bytes, exceeding the "@
                + decimal(max_input_bytes as nat) + "-byte policy limit"@)),
        !(input_bytes matches Some(n) && n > max_input_bytes) ==> r is Ok,
{
    match input_bytes {
        Some(n) => {
            if n > max_input_bytes {
                let mut m = string_of("encoded image is ");
                push_decimal(&mut m, n);
                m.append(" bytes, exceeding the ");
                push_decimal(&mut m, max_input_bytes);
                m.append("-byte policy limit");
                return Err(ImageError::WorkLimit(m));
            }
            Ok(())
        },
        None => Ok(()),
    }
}

/// The demuxer's stream index for a visual track.
pub fn stream_index(track_id: u64) -> (r: Result<i32, ImageError>)
    ensures
        track_id <= i32::MAX ==> (r matches Ok(i) && i == track_id),
        track_id > i32::MAX ==> (r matches Err(ImageError::Decode(m))
            && m@ == "visual track id "@ + decimal(track_id as nat) + " does not fit i32"@),
{
    if track_id <= 0x7fff_ffff {
        Ok(track_id as i32)
    } else {
        let mut m = string_of("visual track id ");
        push_decimal(&mut m, track_id);
        m.append(" does not fit i32");
        Err(ImageError::Decode(m))
    }
}

/// The points of a still-image decode at which cancellation and the time
/// budget are checked.
#[derive(Debug, Clone, Copy, PartialEq, Eq, Structural)]
pub enum ImageDecodeStage {
    BeforeSourceOpen,
    AfterSourceOpen,
    AfterDemuxOpen,
    AfterStreamProbe,
    AfterDecoderOpen,
    /// Every round of the search for the first frame.
    Decode,
    BeforeRepack,
    AfterRepack,
}

/// The name a time-budget message gives a stage.
pub open spec fn stage_label(stage: ImageDecodeStage) -> Seq<char> {
    match stage {
        ImageDecodeStage::BeforeSourceOpen => "before source open"@,
        ImageDecodeStage::AfterSourceOpen => "after source open"@,
        ImageDecodeStage::AfterDemuxOpen => "after demux open"@,
        ImageDecodeStage::AfterStreamProbe => "after stream probe"@,
        ImageDecodeStage::AfterDecoderOpen => "after decoder open"@,
        ImageDecodeStage::Decode => "decode"@,
        ImageDecodeStage::BeforeRepack => "before static image repack"@,
        ImageDecodeStage::AfterRepack => "after static image repack"@,
    }
}

impl ImageDecodeStage {
    /// The name a time-budget message gives the stage.
    pub fn label(self) -> (r: &'static str)
        ensures
            r@ == stage_label(self),
    {
        match self {
            ImageDecodeStage::BeforeSourceOpen => "before source open",
            ImageDecodeStage::AfterSourceOpen => "after source open",
            ImageDecodeStage::AfterDemuxOpen => "after demux open",
            ImageDecodeStage::AfterStreamProbe => "after stream probe",
            ImageDecodeStage::AfterDecoderOpen => "after decoder open",
            ImageDecodeStage::Decode => "decode",
            ImageDecodeStage::BeforeRepack => "before static image repack",
            ImageDecodeStage::AfterRepack => "after static image repack",
        }
    }
}

/// Decides whether decoding may go on: cancellation wins, then the time
/// budget; `stage` names the step in the budget message.
pub fn check_active(cancelled: bool, elapsed: MediaDuration, timeout: MediaDuration, stage: &str) -> (r: Result<(), ImageError>)
    requires
        timeout.wf(),
    ensures
        cancelled ==> r matches Err(ImageError::Cancelled),
        !cancelled && elapsed.nanos() > timeout.nanos() ==> (r matches Err(ImageError::WorkLimit(m))
            && m@ == stage@ + " exceeded "@ + seconds_text(timeout.secs as nat, timeout.subsec_nanos as nat) + " seconds"@),
        !cancelled && elapsed.nanos() <= timeout.nanos() ==> r is Ok,
{
    if cancelled {
        return Err(ImageError::Cancelled);
    }
    if elapsed.as_nanos() > timeout.as_nanos() {
        let mut m = string_of(stage);
        m.append(" exceeded ");
        push_seconds(&mut m, timeout.secs, timeout.subsec_nanos);
        m.append(" seconds");
        return Err(ImageError::WorkLimit(m));
    }
    Ok(())
}

/// `std::time::Instant`, carried through as an opaque start time.
#[verifier::external_type_specification]
#[verifier::external_body]
pub struct ExInstant(std::time::Instant);

/// Time elapsed since `started` on the monotonic clock; it depends on when
/// it is called, so nothing is promised of its value beyond being a
/// well-formed span.
#[verifier::external_body]
fn elapsed_since(started: &std::time::Instant) -> (r: MediaDuration)
    ensures
        r.wf(),
{
    let elapsed = started.elapsed();
    MediaDuration { secs: elapsed.as_secs(), subsec_nanos: elapsed.subsec_nanos() }
}

/// Reads the cancellation flag (with acquire ordering, so work done before
/// the flag was set is visible).
fn cancellation_requested(cancelled: &std::sync::atomic::AtomicBool) -> bool {
    cancelled.load(std::sync::atomic::Ordering::Acquire)
}

/// Checks between decode steps whether the work was cancelled or ran past
/// its time budget.
pub fn ensure_active(
    cancelled: &std::sync::atomic::AtomicBool,
    started: &std::time::Instant,
    timeout: MediaDuration,
    stage: &str,
) -> (r: Result<(), ImageError>)
    requires
        timeout.wf(),
    ensures
        r is Ok || r matches Err(ImageError::Cancelled) || r matches Err(ImageError::WorkLimit(_)),
        r matches Err(ImageError::WorkLimit(m)) ==> m@ == stage@ + " exceeded "@
            + seconds_text(timeout.secs as nat, timeout.subsec_nanos as nat) + " seconds"@,
{
    let is_cancelled = cancellation_requested(cancelled);
    let elapsed = elapsed_since(started);
    check_active(is_cancelled, elapsed, timeout, stage)
}

/// Whether a renderer error's text reports a lost GPU device (compared
/// without ASCII case): only then is the shared SDR renderer rebuilt.
pub fn is_device_loss_error(message: &str) -> (r: bool)
    ensures
        r == (contains_ignoring_ascii_case(message@, "device_lost"@)
            || contains_ignoring_ascii_case(message@, "device lost"@)),
{
    proof {
        reveal_strlit("device_lost");
        reveal_strlit("device lost");
    }
    contains_ignoring_ascii_case_exec(message, "device_lost") || contains_ignoring_ascii_case_exec(message, "device lost")
}

/// What the decoder reported when asked for a frame.
#[derive(Debug, Clone, PartialEq, Eq)]
pub enum ReceiveOutcome {
    Frame,
    EndOfStream,
    NeedMoreInput,
    TryAgain,
    Failed(String),
}

/// What the demuxer reported when asked for a packet.
#[derive(Debug, Clone, PartialEq, Eq)]
pub enum ReadOutcome {
    Packet(usize),
    EndOfInput,
    Failed(String),
}

/// What sending a packet to the decoder did.
#[derive(Debug, Clone, PartialEq, Eq)]
pub enum SendOutcome {
    Accepted,
    TryAgain,
    Failed(String),
}

/// The next action while looking for the first decodable frame.
#[derive(Debug)]
pub enum FirstFrameStep {
    /// The decoder produced the frame.
    Done,
    /// Read the next packet.
    ReadPacket,
    /// Send the packet just read to the decoder.
    SendPacket,
    /// Ask the decoder for a frame again.
    ReceiveAgain,
    /// Signal end of input, then drain one frame.
    SendEndOfStream,
    /// The search failed.
    Fail(ImageError),
}

/// Bounded search for the first frame of a still image: at most
/// `max_packets` receive/read rounds and `max_input_bytes` of compressed data.
#[derive(Debug, Clone, Copy, PartialEq, Eq, Structural)]
pub struct FirstFrameSearch {
    pub rounds: usize,
    pub max_packets: usize,
    pub compressed_bytes: u64,
    pub max_input_bytes: u64,
}

impl FirstFrameSearch {
    /// Starts a search under `policy`.
    pub fn new(policy: ImageDecodePolicy) -> (r: FirstFrameSearch)
        ensures
            r == (FirstFrameSearch {
                rounds: 0,
                max_packets: policy.max_packets_before_frame,
                compressed_bytes: 0,
                max_input_bytes: policy.max_input_bytes,
            }),
    {
        FirstFrameSearch {
            rounds: 0,
            max_packets: policy.max_packets_before_frame,
            compressed_bytes: 0,
            max_input_bytes: policy.max_input_bytes,
        }
    }

    /// Begins a new round; after `max_packets` rounds the search gives up.
    pub fn begin_round(&mut self) -> (r: Option<ImageError>)
        ensures
            old(self).rounds < old(self).max_packets ==> r is None && final(self).rounds == old(self).rounds + 1,
            old(self).rounds >= old(self).max_packets ==> (r matches Some(ImageError::Decode(m))
                && m@ == "no image frame after "@ + decimal(old(self).max_packets as nat) + " packets"@)
                && final(self).rounds == old(self).rounds,
            final(self).max_packets == old(self).max_packets,
            final(self).compressed_bytes == old(self).compressed_bytes,
            final(self).max_input_bytes == old(self).max_input_bytes,
    {
        if self.rounds < self.max_packets {
            self.rounds = self.rounds + 1;
            None
        } else {
            let mut m = string_of("no image frame after ");
            push_decimal(&mut m, self.max_packets as u64);
            m.append(" packets");
            Some(ImageError::Decode(m))
        }
    }

    /// Reacts to the decoder's answer at the start of a round.
    pub fn after_receive(&self, outcome: ReceiveOutcome) -> (r: FirstFrameStep)
        ensures
            outcome is Frame ==> r is Done,
            outcome is EndOfStream ==> r matches FirstFrameStep::Fail(ImageError::NoFrame),
            outcome is NeedMoreInput || outcome is TryAgain ==> r is ReadPacket,
            outcome matches ReceiveOutcome::Failed(e) ==> (r matches FirstFrameStep::Fail(ImageError::Decode(m)) && m@ == e@),
    {
        match outcome {
            ReceiveOutcome::Frame => FirstFrameStep::Done,
            ReceiveOutcome::EndOfStream => FirstFrameStep::Fail(ImageError::NoFrame),
            ReceiveOutcome::NeedMoreInput | ReceiveOutcome::TryAgain => FirstFrameStep::ReadPacket,
            ReceiveOutcome::Failed(e) => FirstFrameStep::Fail(ImageError::Decode(e)),
        }
    }

    /// Reacts to the demuxer's answer, counting the compressed bytes read.
    pub fn after_read(&mut self, outcome: ReadOutcome) -> (r: FirstFrameStep)
        ensures
            outcome matches ReadOutcome::Packet(len) ==> {
                let total = if old(self).compressed_bytes + len > u64::MAX { u64::MAX as int } else { old(self).compressed_bytes + len };
                &&& final(self).compressed_bytes == total
                &&& total > old(self).max_input_bytes ==> (r matches FirstFrameStep::Fail(ImageError::WorkLimit(m))
                    && m@ == "compressed packets exceeded "@ + decimal(old(self).max_input_bytes as nat) + " bytes"@)
                &&& total <= old(self).max_input_bytes ==> r is SendPacket
            },
            outcome is EndOfInput ==> r is SendEndOfStream && *final(self) == *old(self),
            outcome matches ReadOutcome::Failed(e) ==> (r matches FirstFrameStep::Fail(ImageError::Demux(m)) && m@ == e@)
                && *final(self) == *old(self),
            final(self).rounds == old(self).rounds,
            final(self).max_packets == old(self).max_packets,
            final(self).max_input_bytes == old(self).max_input_bytes,
    {
        match outcome {
            ReadOutcome::Packet(len) => {
                self.compressed_bytes = self.compressed_bytes.saturating_add(len as u64);
                if self.compressed_bytes > self.max_input_bytes {
                    let mut m = string_of("compressed packets exceeded ");
                    push_decimal(&mut m, self.max_input_bytes);
                    m.append(" bytes");
                    FirstFrameStep::Fail(ImageError::WorkLimit(m))
                } else {
                    FirstFrameStep::SendPacket
                }
            },
            ReadOutcome::EndOfInput => FirstFrameStep::SendEndOfStream,
            ReadOutcome::Failed(e) => FirstFrameStep::Fail(ImageError::Demux(e)),
        }
    }

    /// Reacts to sending a packet: accepted or busy both start the next round.
    pub fn after_send(&self, outcome: SendOutcome) -> (r: FirstFrameStep)
        ensures
            outcome is Accepted || outcome is TryAgain ==> r is ReceiveAgain,
            outcome matches SendOutcome::Failed(e) ==> (r matches FirstFrameStep::Fail(ImageError::Decode(m)) && m@ == e@),
    {
        match outcome {
            SendOutcome::Accepted | SendOutcome::TryAgain => FirstFrameStep::ReceiveAgain,
            SendOutcome::Failed(e) => FirstFrameStep::Fail(ImageError::Decode(e)),
        }
    }

    /// Reacts to the decoder's answer after end of input was signalled: only
    /// a frame succeeds.
    pub fn after_final_receive(&self, outcome: ReceiveOutcome) -> (r: FirstFrameStep)
        ensures
            outcome is Frame ==> r is Done,
            outcome is EndOfStream || outcome is NeedMoreInput || outcome is TryAgain
                ==> r matches FirstFrameStep::Fail(ImageError::NoFrame),
            outcome matches ReceiveOutcome::Failed(e) ==> (r matches FirstFrameStep::Fail(ImageError::Decode(m)) && m@ == e@),
    {
        match outcome {
            ReceiveOutcome::Frame => FirstFrameStep::Done,
            ReceiveOutcome::EndOfStream | ReceiveOutcome::NeedMoreInput | ReceiveOutcome::TryAgain => {
                FirstFrameStep::Fail(ImageError::NoFrame)
            },
            ReceiveOutcome::Failed(e) => FirstFrameStep::Fail(ImageError::Decode(e)),
        }
    }
}

/// The error of a renderer step that needs the decoded pixels after they
/// were handed to a renderer.
pub open spec fn is_pixels_consumed_error(r: Result<(u32, u32), ImageError>) -> bool {
    r matches Err(ImageError::Renderer(m)) && m@ == "decoded image pixels were already consumed"@
}

/// What a decoded still image holds besides its pixel planes: what is known
/// of it, its output limit, whether the decoded planes are still retained
/// (a renderer consumes them) and whether a surface renderer owns them.
#[derive(Debug, Clone, Copy, PartialEq, Eq, Structural)]
pub struct DecodedImage {
    metadata: ImageMetadata,
    max_output_pixels: u64,
    planes_retained: bool,
    surface_attached: bool,
}

/// How a surface attach proceeds.
#[derive(Debug, Clone, Copy, PartialEq, Eq, Structural)]
pub enum SurfaceAttachPlan {
    /// A surface renderer already owns the pixels; attach it to the new surface.
    Reattach,
    /// Create a surface renderer, HDR-capable for an HDR image, and hand it
    /// the pixels.
    CreateRenderer { hdr_output: bool },
}

impl DecodedImage {
    /// Every decoded image keeps metadata as a decode builds it and an
    /// output limit that a validated policy allows.
    #[verifier::type_invariant]
    spec fn wf(self) -> bool {
        &&& self.metadata.is_decoded()
        &&& 1 <= self.max_output_pixels <= MAX_IMAGE_OUTPUT_PIXELS
    }

    /// What is known of the image.
    pub closed spec fn meta(self) -> ImageMetadata {
        self.metadata
    }

    /// The most pixels an output rendering may have.
    pub closed spec fn output_limit(self) -> u64 {
        self.max_output_pixels
    }

    /// Whether the decoded planes are still held (no renderer took them).
    pub closed spec fn retains_pixels(self) -> bool {
        self.planes_retained
    }

    /// Whether a surface renderer owns the pixels.
    pub closed spec fn has_surface_renderer(self) -> bool {
        self.surface_attached
    }

    /// Describes a freshly decoded image under the output limit of `policy`:
    /// its frame was within the source pixel limit, its metadata is as a
    /// decode builds it, and the policy passed validation.
    pub fn new(metadata: ImageMetadata, policy: ImageDecodePolicy) -> (r: DecodedImage)
        requires
            spec_pixels_ok(metadata.width, metadata.height, policy.max_source_pixels),
            metadata.is_decoded(),
            spec_policy_violation(policy) is None,
        ensures
            r.meta() == metadata,
            r.output_limit() == policy.max_output_pixels,
            r.retains_pixels(),
            !r.has_surface_renderer(),
    {
        DecodedImage { metadata, max_output_pixels: policy.max_output_pixels, planes_retained: true, surface_attached: false }
    }

    /// What is known of the image: metadata as a decode builds it, which
    /// every decoded image keeps.
    pub fn metadata(&self) -> (r: ImageMetadata)
        ensures
            r == self.meta(),
            r.is_decoded(),
    {
        proof { use_type_invariant(self); }
        self.metadata
    }

    /// Whether the decoded planes are still held.
    pub fn planes_retained(&self) -> (r: bool)
        ensures
            r == self.retains_pixels(),
    {
        self.planes_retained
    }

    /// Whether a surface renderer owns the pixels.
    pub fn surface_attached(&self) -> (r: bool)
        ensures
            r == self.has_surface_renderer(),
    {
        self.surface_attached
    }

    /// Rejects an output extent that is empty or exceeds the output limit,
    /// which every decoded image keeps within what a validated policy allows.
    pub fn validate_output_extent(&self, width: u32, height: u32) -> (r: Result<(), ImageError>)
        ensures
            1 <= self.output_limit() <= MAX_IMAGE_OUTPUT_PIXELS,
            spec_pixels_ok(width, height, self.output_limit()) ==> r is Ok,
            !spec_pixels_ok(width, height, self.output_limit()) ==> (r matches Err(ImageError::PixelLimit {
                width: w, height: h, max_pixels: m }) && w == width && h == height && m == self.output_limit()),
    {
        proof { use_type_invariant(self); }
        validate_pixels(width, height, self.max_output_pixels)
    }

    /// Prepares an SDR rendering bounded by `max_width`×`max_height` (zero
    /// meaning unbounded): checks the bounded extent against the output
    /// limit, then hands the retained pixels to the renderer and returns the
    /// extent to render at.
    pub fn render_sdr(&mut self, max_width: u32, max_height: u32) -> (r: Result<(u32, u32), ImageError>)
        ensures
            final(self).meta() == old(self).meta(),
            final(self).output_limit() == old(self).output_limit(),
            final(self).has_surface_renderer() == old(self).has_surface_renderer(),
            ({
                let e = spec_bounded_extent(old(self).meta().width, old(self).meta().height, max_width, max_height);
                &&& !spec_pixels_ok(e.0, e.1, old(self).output_limit()) ==> (r matches Err(ImageError::PixelLimit {
                    width: w, height: h, max_pixels: m }) && w == e.0 && h == e.1 && m == old(self).output_limit())
                    && final(self).retains_pixels() == old(self).retains_pixels()
                &&& spec_pixels_ok(e.0, e.1, old(self).output_limit()) && !old(self).retains_pixels() ==>
                    is_pixels_consumed_error(r) && !final(self).retains_pixels()
                &&& spec_pixels_ok(e.0, e.1, old(self).output_limit()) && old(self).retains_pixels() ==>
                    r == Ok::<(u32, u32), ImageError>(e) && !final(self).retains_pixels()
            }),
    {
        proof { use_type_invariant(&*self); }
        let (width, height) = bounded_extent(self.metadata.width, self.metadata.height, max_width, max_height);
        match validate_pixels(width, height, self.max_output_pixels) {
            Ok(()) => {},
            Err(e) => return Err(e),
        }
        if !self.planes_retained {
            return Err(ImageError::Renderer(string_of("decoded image pixels were already consumed")));
        }
        self.planes_retained = false;
        Ok((width, height))
    }

    /// How attaching a native surface proceeds: an existing surface renderer
    /// is reattached, otherwise one is created (HDR output for an HDR image).
    pub fn attach_surface(&self) -> (r: SurfaceAttachPlan)
        ensures
            self.has_surface_renderer() ==> r == SurfaceAttachPlan::Reattach,
            !self.has_surface_renderer() ==> r == (SurfaceAttachPlan::CreateRenderer {
                hdr_output: self.meta().source_dynamic_range is Hdr10Pq || self.meta().source_dynamic_range is Hlg
                    || self.meta().source_dynamic_range is UltraHdrGainMap,
            }),
    {
        if self.surface_attached {
            SurfaceAttachPlan::Reattach
        } else {
            SurfaceAttachPlan::CreateRenderer { hdr_output: self.metadata.is_hdr() }
        }
    }

    /// Hands the retained pixels to a newly created surface renderer.
    pub fn surface_renderer_created(&mut self) -> (r: Result<(), ImageError>)
        ensures
            final(self).meta() == old(self).meta(),
            final(self).output_limit() == old(self).output_limit(),
            old(self).retains_pixels() ==> r is Ok && !final(self).retains_pixels() && final(self).has_surface_renderer(),
            !old(self).retains_pixels() ==> (r matches Err(ImageError::Renderer(m))
                && m@ == "decoded image pixels were already consumed"@)
                && !final(self).retains_pixels()
                && final(self).has_surface_renderer() == old(self).has_surface_renderer(),
    {
        proof { use_type_invariant(&*self); }
        if !self.planes_retained {
            return Err(ImageError::Renderer(string_of("decoded image pixels were already consumed")));
        }
        self.planes_retained = false;
        self.surface_attached = true;
        Ok(())
    }

    /// A surface can be resized only once a surface renderer exists.
    pub fn resize_surface(&self) -> (r: Result<(), ImageError>)
        ensures
            self.has_surface_renderer() ==> r is Ok,
            !self.has_surface_renderer() ==> (r matches Err(ImageError::Renderer(m))
                && m@ == "cannot resize before image surface attach"@),
    {
        if !self.surface_attached {
            return Err(ImageError::Renderer(string_of("cannot resize before image surface attach")));
        }
        Ok(())
    }

    /// A surface can be rendered only once a surface renderer exists.
    pub fn render_surface(&self) -> (r: Result<(), ImageError>)
        ensures
            self.has_surface_renderer() ==> r is Ok,
            !self.has_surface_renderer() ==> (r matches Err(ImageError::Renderer(m))
                && m@ == "cannot render before image surface attach"@),
    {
        if !self.surface_attached {
            return Err(ImageError::Renderer(string_of("cannot render before image surface attach")));
        }
        Ok(())
    }

    /// Whether detaching has a surface renderer to detach; without one,
    /// detaching does nothing.
    pub fn detach_surface(&self) -> (r: bool)
        ensures
            r == self.has_surface_renderer(),
    {
        self.surface_attached
    }
}

/// Checks a decode request before any work: the policy's limits, then that
/// the source is a cached local file or an owned fd.
pub fn check_decode_request(policy: ImageDecodePolicy, uri: &str, source_hint: MediaSourceHint)
    -> (r: Result<ImageDecodePolicy, ImageError>)
    ensures
        match spec_policy_violation(policy) {
            Some(msg) => r matches Err(ImageError::WorkLimit(m)) && m@ == msg,
            None => {
                &&& spec_is_remote(uri@, source_hint) ==> (r matches Err(ImageError::Source(m))
                    && m@ == "static image decode accepts only a cached local file or owned fd"@)
                &&& !spec_is_remote(uri@, source_hint) ==> r == Ok::<ImageDecodePolicy, ImageError>(policy)
            },
        },
{
    let policy = match policy.validate() {
        Ok(p) => p,
        Err(e) => return Err(e),
    };
    match check_static_source(uri, source_hint) {
        Ok(()) => Ok(policy),
        Err(e) => Err(e),
    }
}

/// Checks the probed visual track: a known size must be within the source
/// pixel limit, and the track id must be a stream index.
pub fn check_visual_track(width: u32, height: u32, track_id: u64, max_source_pixels: u64) -> (r: Result<i32, ImageError>)
    ensures
        (width > 0 && height > 0 && !spec_pixels_ok(width, height, max_source_pixels)) ==> (r matches Err(
            ImageError::PixelLimit { width: w, height: h, max_pixels: m }) && w == width && h == height
            && m == max_source_pixels),
        !(width > 0 && height > 0 && !spec_pixels_ok(width, height, max_source_pixels)) ==> {
            &&& track_id <= i32::MAX ==> r == Ok::<i32, ImageError>(track_id as i32)
            &&& track_id > i32::MAX ==> (r matches Err(ImageError::Decode(m))
                && m@ == "visual track id "@ + decimal(track_id as nat) + " does not fit i32"@)
        },
{
    if width > 0 && height > 0 {
        match validate_pixels(width, height, max_source_pixels) {
            Ok(()) => {},
            Err(e) => return Err(e),
        }
    }
    stream_index(track_id)
}

/// The size of the decoded first frame (negative sizes count as zero),
/// checked against the source pixel limit, and the extent its planes are
/// retained at under `max_width`×`max_height` (zero meaning unbounded).
pub fn source_frame_extent(frame_width: i32, frame_height: i32, max_width: u32, max_height: u32, max_source_pixels: u64)
    -> (r: Result<((u32, u32), (u32, u32)), ImageError>)
    ensures
        ({
            let w: u32 = if frame_width < 0 { 0 } else { frame_width as u32 };
            let h: u32 = if frame_height < 0 { 0 } else { frame_height as u32 };
            &&& spec_pixels_ok(w, h, max_source_pixels) ==> r == Ok::<((u32, u32), (u32, u32)), ImageError>(
                ((w, h), spec_bounded_extent(w, h, max_width, max_height)))
            &&& !spec_pixels_ok(w, h, max_source_pixels) ==> (r matches Err(ImageError::PixelLimit {
                width: ew, height: eh, max_pixels: m }) && ew == w && eh == h && m == max_source_pixels)
        }),
{
    let width = frame_dimension(frame_width);
    let height = frame_dimension(frame_height);
    match validate_pixels(width, height, max_source_pixels) {
        Ok(()) => {},
        Err(e) => return Err(e),
    }
    let retained = bounded_extent(width, height, max_width, max_height);
    Ok(((width, height), retained))
}


/// Where a still-image decode stands: at a cancellation and budget check,
/// or waiting for one piece of outside work.
#[derive(Debug, Clone, Copy, PartialEq, Eq, Structural)]
pub enum DecodeProgress {
    BeforeSourceOpen,
    OpeningSource,
    AfterSourceOpen,
    MeasuringSource,
    OpeningDemuxer,
    AfterDemuxOpen,
    Probing,
    AfterStreamProbe,
    SelectingStream,
    OpeningDecoder,
    AfterDecoderOpen,
    SearchingFirstFrame,
    BeforeRepack,
    Repacking,
    AfterRepack,
    /// The image is ready to be built.
    Finished,
    /// The decode failed; nothing more happens.
    Abandoned,
}

/// The first visual track the demuxer probed.
#[derive(Debug, Clone, Copy, PartialEq, Eq, Structural)]
pub struct VisualTrack {
    pub width: u32,
    pub height: u32,
    pub track_id: u64,
}

/// What the outside work of the last step reported.
#[derive(Debug)]
pub enum DecodeEvent {
    /// The check or the work succeeded.
    Done,
    /// The work failed with this message.
    Failed(String),
    /// A cancellation and budget check, or the first-frame search, stopped
    /// the decode with this error.
    Stopped(ImageError),
    /// The source's size in bytes, when it is known.
    SourceLength(Option<u64>),
    /// The first visual track, if the stream has one.
    Probed(Option<VisualTrack>),
    /// The first frame was decoded, with this size.
    FirstFrame { width: i32, height: i32 },
    /// Whether the frame could be repacked into retained planes.
    Repacked(bool),
}

/// The next piece of work of a still-image decode.
#[derive(Debug)]
pub enum DecodeAction {
    /// Check cancellation and the time budget at this stage.
    CheckActive(ImageDecodeStage),
    OpenSource,
    /// Ask the source for its size in bytes.
    MeasureSource,
    OpenDemuxer,
    ProbeVisualTrack,
    /// Select only this stream of the demuxer.
    SelectStream(i32),
    /// Open the software decoder for this stream's codec parameters.
    OpenDecoder(i32),
    SearchFirstFrame,
    /// Repack the frame into planes of this extent.
    Repack { width: u32, height: u32 },
    /// Build the image of a source of this size from the retained planes.
    Finish { width: u32, height: u32 },
    Fail(ImageError),
}

/// The decisions of a still-image decode, in the order the decode makes
/// them: the request is checked, cancellation and the budget are checked
/// before the source is opened and after each opening step, the source's
/// size, the probed track and the first frame are checked against the
/// policy, and the frame is repacked at the retained extent.
#[derive(Debug, Clone, Copy)]
pub struct StillImageDecode {
    pub progress: DecodeProgress,
    pub policy: ImageDecodePolicy,
    pub max_width: u32,
    pub max_height: u32,
    pub track: VisualTrack,
    pub stream_index: i32,
    pub source_extent: (u32, u32),
    pub retained_extent: (u32, u32),
}

impl StillImageDecode {
    /// The events the decode can be told of where it stands.
    pub open spec fn expects(self, event: DecodeEvent) -> bool {
        match self.progress {
            DecodeProgress::BeforeSourceOpen | DecodeProgress::AfterSourceOpen | DecodeProgress::AfterDemuxOpen
            | DecodeProgress::AfterStreamProbe | DecodeProgress::AfterDecoderOpen | DecodeProgress::BeforeRepack
            | DecodeProgress::AfterRepack => event is Done || event is Stopped,
            DecodeProgress::OpeningSource | DecodeProgress::OpeningDemuxer | DecodeProgress::SelectingStream
            | DecodeProgress::OpeningDecoder => event is Done || event is Failed,
            DecodeProgress::MeasuringSource => event is SourceLength || event is Failed,
            DecodeProgress::Probing => event is Probed,
            DecodeProgress::SearchingFirstFrame => event is FirstFrame || event is Stopped,
            DecodeProgress::Repacking => event is Repacked,
            DecodeProgress::Finished | DecodeProgress::Abandoned => false,
        }
    }

    /// Starts a decode: the request is checked first, then cancellation and
    /// the budget before the source is opened.
    pub fn start(policy: ImageDecodePolicy, uri: &str, source_hint: MediaSourceHint, max_width: u32, max_height: u32)
        -> (r: Result<(StillImageDecode, DecodeAction), ImageError>)
        ensures
            match spec_policy_violation(policy) {
                Some(msg) => r matches Err(ImageError::WorkLimit(m)) && m@ == msg,
                None => {
                    &&& spec_is_remote(uri@, source_hint) ==> (r matches Err(ImageError::Source(m))
                        && m@ == "static image decode accepts only a cached local file or owned fd"@)
                    &&& !spec_is_remote(uri@, source_hint) ==> (r matches Ok((d, a))
                        && d.progress == DecodeProgress::BeforeSourceOpen && d.policy == policy
                        && d.max_width == max_width && d.max_height == max_height
                        && a matches DecodeAction::CheckActive(ImageDecodeStage::BeforeSourceOpen))
                },
            },
    {
        let policy = match check_decode_request(policy, uri, source_hint) {
            Ok(p) => p,
            Err(e) => return Err(e),
        };
        let decode = StillImageDecode {
            progress: DecodeProgress::BeforeSourceOpen,
            policy,
            max_width,
            max_height,
            track: VisualTrack { width: 0, height: 0, track_id: 0 },
            stream_index: 0,
            source_extent: (0, 0),
            retained_extent: (0, 0),
        };
        Ok((decode, DecodeAction::CheckActive(ImageDecodeStage::BeforeSourceOpen)))
    }

    /// Takes in what the last piece of work reported and says what comes
    /// next; the limits, the bounds and what was learnt before stay.
    pub fn step(&mut self, event: DecodeEvent) -> (r: DecodeAction)
        requires
            old(self).expects(event),
        ensures
            final(self).policy == old(self).policy,
            final(self).max_width == old(self).max_width,
            final(self).max_height == old(self).max_height,
            (r is Fail) <==> final(self).progress == DecodeProgress::Abandoned,
            // a check or the first-frame search that stops the decode ends it with its error
            event matches DecodeEvent::Stopped(e) ==> r == DecodeAction::Fail(e),
            // failures of the outside work, by step
            event matches DecodeEvent::Failed(m) ==> r == DecodeAction::Fail(
                match old(self).progress {
                    DecodeProgress::OpeningSource | DecodeProgress::MeasuringSource => ImageError::Source(m),
                    DecodeProgress::OpeningDemuxer | DecodeProgress::SelectingStream => ImageError::Demux(m),
                    _ => ImageError::Decode(m),
                }),
            // steps that succeed
            event is Done ==> match old(self).progress {
                DecodeProgress::BeforeSourceOpen => r is OpenSource
                    && *final(self) == (StillImageDecode { progress: DecodeProgress::OpeningSource, ..*old(self) }),
                DecodeProgress::OpeningSource => r matches DecodeAction::CheckActive(ImageDecodeStage::AfterSourceOpen)
                    && *final(self) == (StillImageDecode { progress: DecodeProgress::AfterSourceOpen, ..*old(self) }),
                DecodeProgress::AfterSourceOpen => r is MeasureSource
                    && *final(self) == (StillImageDecode { progress: DecodeProgress::MeasuringSource, ..*old(self) }),
                DecodeProgress::OpeningDemuxer => r matches DecodeAction::CheckActive(ImageDecodeStage::AfterDemuxOpen)
                    && *final(self) == (StillImageDecode { progress: DecodeProgress::AfterDemuxOpen, ..*old(self) }),
                DecodeProgress::AfterDemuxOpen => r is ProbeVisualTrack
                    && *final(self) == (StillImageDecode { progress: DecodeProgress::Probing, ..*old(self) }),
                DecodeProgress::AfterStreamProbe => {
                    let t = old(self).track;
                    let max = old(self).policy.max_source_pixels;
                    &&& (t.width > 0 && t.height > 0 && !spec_pixels_ok(t.width, t.height, max)) ==> (r matches
                        DecodeAction::Fail(ImageError::PixelLimit { width: w, height: h, max_pixels: mp })
                        && w == t.width && h == t.height && mp == max)
                    &&& !(t.width > 0 && t.height > 0 && !spec_pixels_ok(t.width, t.height, max)) ==> {
                        &&& t.track_id <= i32::MAX ==> (r matches DecodeAction::SelectStream(i) && i == t.track_id
                            && *final(self) == (StillImageDecode { progress: DecodeProgress::SelectingStream,
                                stream_index: i, ..*old(self) }))
                        &&& t.track_id > i32::MAX ==> (r matches DecodeAction::Fail(ImageError::Decode(m))
                            && m@ == "visual track id "@ + decimal(t.track_id as nat) + " does not fit i32"@)
                    }
                },
                DecodeProgress::SelectingStream => r matches DecodeAction::OpenDecoder(i) && i == old(self).stream_index
                    && *final(self) == (StillImageDecode { progress: DecodeProgress::OpeningDecoder, ..*old(self) }),
                DecodeProgress::OpeningDecoder => r matches DecodeAction::CheckActive(ImageDecodeStage::AfterDecoderOpen)
                    && *final(self) == (StillImageDecode { progress: DecodeProgress::AfterDecoderOpen, ..*old(self) }),
                DecodeProgress::AfterDecoderOpen => r is SearchFirstFrame
                    && *final(self) == (StillImageDecode { progress: DecodeProgress::SearchingFirstFrame, ..*old(self) }),
                DecodeProgress::BeforeRepack => r matches DecodeAction::Repack { width, height }
                    && (width, height) == old(self).retained_extent
                    && *final(self) == (StillImageDecode { progress: DecodeProgress::Repacking, ..*old(self) }),
                DecodeProgress::AfterRepack => r matches DecodeAction::Finish { width, height }
                    && (width, height) == old(self).source_extent
                    && *final(self) == (StillImageDecode { progress: DecodeProgress::Finished, ..*old(self) }),
                _ => true,
            },
            // the source's size is checked against the input limit
            event matches DecodeEvent::SourceLength(n) ==> {
                let max = old(self).policy.max_input_bytes;
                &&& (n matches Some(b) && b > max) ==> (r matches DecodeAction::Fail(ImageError::WorkLimit(m))
                    && m@ == "encoded image is "@ + decimal(n->0 as nat) + " bytes, exceeding the "@
                        + decimal(max as nat) + "-byte policy limit"@)
                &&& !(n matches Some(b) && b > max) ==> (r is OpenDemuxer
                    && *final(self) == (StillImageDecode { progress: DecodeProgress::OpeningDemuxer, ..*old(self) }))
            },
            // a stream without a visual track has nothing to decode
            event matches DecodeEvent::Probed(t) ==> match t {
                None => r matches DecodeAction::Fail(ImageError::NoVisualTrack),
                Some(track) => r matches DecodeAction::CheckActive(ImageDecodeStage::AfterStreamProbe)
                    && *final(self) == (StillImageDecode { progress: DecodeProgress::AfterStreamProbe, track,
                        ..*old(self) }),
            },
            // the first frame is checked against the source limit and sets the retained extent
            event matches DecodeEvent::FirstFrame { width: fw, height: fh } ==> {
                let w: u32 = if fw < 0 { 0 } else { fw as u32 };
                let h: u32 = if fh < 0 { 0 } else { fh as u32 };
                let max = old(self).policy.max_source_pixels;
                &&& spec_pixels_ok(w, h, max) ==> (r matches DecodeAction::CheckActive(ImageDecodeStage::BeforeRepack)
                    && *final(self) == (StillImageDecode { progress: DecodeProgress::BeforeRepack,
                        source_extent: (w, h),
                        retained_extent: spec_bounded_extent(w, h, old(self).max_width, old(self).max_height),
                        ..*old(self) }))
                &&& !spec_pixels_ok(w, h, max) ==> (r matches DecodeAction::Fail(ImageError::PixelLimit {
                    width: ew, height: eh, max_pixels: mp }) && ew == w && eh == h && mp == max)
            },
            // a frame that cannot be repacked has an unsupported pixel format
            event matches DecodeEvent::Repacked(ok) ==> if ok {
                r matches DecodeAction::CheckActive(ImageDecodeStage::AfterRepack)
                    && *final(self) == (StillImageDecode { progress: DecodeProgress::AfterRepack, ..*old(self) })
            } else {
                r matches DecodeAction::Fail(ImageError::UnsupportedPixelFormat)
            },
    {
        let progress = self.progress;
        let action = match event {
            DecodeEvent::Stopped(e) => DecodeAction::Fail(e),
            DecodeEvent::Failed(m) => DecodeAction::Fail(match progress {
                DecodeProgress::OpeningSource | DecodeProgress::MeasuringSource => ImageError::Source(m),
                DecodeProgress::OpeningDemuxer | DecodeProgress::SelectingStream => ImageError::Demux(m),
                _ => ImageError::Decode(m),
            }),
            DecodeEvent::Done => match progress {
                DecodeProgress::BeforeSourceOpen => {
                    self.progress = DecodeProgress::OpeningSource;
                    DecodeAction::OpenSource
                },
                DecodeProgress::OpeningSource => {
                    self.progress = DecodeProgress::AfterSourceOpen;
                    DecodeAction::CheckActive(ImageDecodeStage::AfterSourceOpen)
                },
                DecodeProgress::AfterSourceOpen => {
                    self.progress = DecodeProgress::MeasuringSource;
                    DecodeAction::MeasureSource
                },
                DecodeProgress::OpeningDemuxer => {
                    self.progress = DecodeProgress::AfterDemuxOpen;
                    DecodeAction::CheckActive(ImageDecodeStage::AfterDemuxOpen)
                },
                DecodeProgress::AfterDemuxOpen => {
                    self.progress = DecodeProgress::Probing;
                    DecodeAction::ProbeVisualTrack
                },
                DecodeProgress::AfterStreamProbe => {
                    match check_visual_track(self.track.width, self.track.height, self.track.track_id,
                        self.policy.max_source_pixels) {
                        Ok(index) => {
                            self.stream_index = index;
                            self.progress = DecodeProgress::SelectingStream;
                            DecodeAction::SelectStream(index)
                        },
                        Err(e) => DecodeAction::Fail(e),
                    }
                },
                DecodeProgress::SelectingStream => {
                    self.progress = DecodeProgress::OpeningDecoder;
                    DecodeAction::OpenDecoder(self.stream_index)
                },
                DecodeProgress::OpeningDecoder => {
                    self.progress = DecodeProgress::AfterDecoderOpen;
                    DecodeAction::CheckActive(ImageDecodeStage::AfterDecoderOpen)
                },
                DecodeProgress::AfterDecoderOpen => {
                    self.progress = DecodeProgress::SearchingFirstFrame;
                    DecodeAction::SearchFirstFrame
                },
                DecodeProgress::BeforeRepack => {
                    self.progress = DecodeProgress::Repacking;
                    DecodeAction::Repack { width: self.retained_extent.0, height: self.retained_extent.1 }
                },
                _ => {
                    self.progress = DecodeProgress::Finished;
                    DecodeAction::Finish { width: self.source_extent.0, height: self.source_extent.1 }
                },
            },
            DecodeEvent::SourceLength(n) => match check_input_size(n, self.policy.max_input_bytes) {
                Ok(()) => {
                    self.progress = DecodeProgress::OpeningDemuxer;
                    DecodeAction::OpenDemuxer
                },
                Err(e) => DecodeAction::Fail(e),
            },
            DecodeEvent::Probed(t) => match t {
                None => DecodeAction::Fail(ImageError::NoVisualTrack),
                Some(track) => {
                    self.track = track;
                    self.progress = DecodeProgress::AfterStreamProbe;
                    DecodeAction::CheckActive(ImageDecodeStage::AfterStreamProbe)
                },
            },
            DecodeEvent::FirstFrame { width, height } => {
                match source_frame_extent(width, height, self.max_width, self.max_height, self.policy.max_source_pixels) {
                    Ok((source, retained)) => {
                        self.source_extent = source;
                        self.retained_extent = retained;
                        self.progress = DecodeProgress::BeforeRepack;
                        DecodeAction::CheckActive(ImageDecodeStage::BeforeRepack)
                    },
                    Err(e) => DecodeAction::Fail(e),
                }
            },
            DecodeEvent::Repacked(ok) => {
                if ok {
                    self.progress = DecodeProgress::AfterRepack;
                    DecodeAction::CheckActive(ImageDecodeStage::AfterRepack)
                } else {
                    DecodeAction::Fail(ImageError::UnsupportedPixelFormat)
                }
            },
        };
        if let DecodeAction::Fail(_) = &action {
            self.progress = DecodeProgress::Abandoned;
        }
        action
    }
}

} // verus!
