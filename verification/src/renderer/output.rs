//! Output-signal vocabulary shared with the C and Dart APIs: color spaces,
//! surface formats, active encodings, dynamic ranges and the stable reasons
//! for falling back from a requested output mode.

use vstd::prelude::*;

use crate::media::{ColorPrimaries, TransferFunction};
use crate::renderer::pipeline::TargetColorState;

verus! {

#[derive(Debug, Clone, Copy, PartialEq, Eq, Structural)]
pub enum OutputColorSpace {
    Srgb,
    ExtendedSrgbLinear,
    Bt2020Pq,
}

impl OutputColorSpace {
    /// Stable diagnostic label.
    pub fn label(self) -> (r: &'static str)
        ensures
            self is Srgb ==> r@ == "srgb"@,
            self is ExtendedSrgbLinear ==> r@ == "extended-srgb-linear"@,
            self is Bt2020Pq ==> r@ == "bt2020-pq"@,
    {
        match self {
            OutputColorSpace::Srgb => "srgb",
            OutputColorSpace::ExtendedSrgbLinear => "extended-srgb-linear",
            OutputColorSpace::Bt2020Pq => "bt2020-pq",
        }
    }
}

#[derive(Debug, Clone, Copy, PartialEq, Eq, Structural)]
pub enum OutputSurfaceFormat {
    EightBitUnorm,
    TenBitUnorm,
    SixteenBitFloat,
}

impl Default for OutputSurfaceFormat {
    fn default() -> (r: Self)
        ensures
            r == OutputSurfaceFormat::EightBitUnorm,
    {
        OutputSurfaceFormat::EightBitUnorm
    }
}

impl OutputSurfaceFormat {
    /// Stable diagnostic label.
    pub fn label(self) -> (r: &'static str)
        ensures
            self is EightBitUnorm ==> r@ == "8bit-unorm"@,
            self is TenBitUnorm ==> r@ == "10bit-unorm"@,
            self is SixteenBitFloat ==> r@ == "16bit-float"@,
    {
        match self {
            OutputSurfaceFormat::EightBitUnorm => "8bit-unorm",
            OutputSurfaceFormat::TenBitUnorm => "10bit-unorm",
            OutputSurfaceFormat::SixteenBitFloat => "16bit-float",
        }
    }
}

#[derive(Debug, Clone, Copy, PartialEq, Eq, Structural)]
pub enum ActiveOutputEncoding {
    SdrSrgb,
    AppleEdr,
    AndroidExtendedLinearScRgb,
    Hdr10Pq,
}

impl Default for ActiveOutputEncoding {
    fn default() -> (r: Self)
        ensures
            r == ActiveOutputEncoding::SdrSrgb,
    {
        ActiveOutputEncoding::SdrSrgb
    }
}

impl ActiveOutputEncoding {
    /// Stable diagnostic label.
    pub fn label(self) -> (r: &'static str)
        ensures
            self is SdrSrgb ==> r@ == "sdr-srgb"@,
            self is AppleEdr ==> r@ == "apple-edr"@,
            self is AndroidExtendedLinearScRgb ==> r@ == "android-extended-linear-scrgb"@,
            self is Hdr10Pq ==> r@ == "hdr10-pq"@,
    {
        match self {
            ActiveOutputEncoding::SdrSrgb => "sdr-srgb",
            ActiveOutputEncoding::AppleEdr => "apple-edr",
            ActiveOutputEncoding::AndroidExtendedLinearScRgb => "android-extended-linear-scrgb",
            ActiveOutputEncoding::Hdr10Pq => "hdr10-pq",
        }
    }
}

/// Stable, platform-neutral source/output dynamic-range vocabulary; the
/// numeric codes (declaration order, from 0) are mirrored by the C and Dart
/// APIs.
#[derive(Debug, Clone, Copy, PartialEq, Eq, Structural)]
pub enum DynamicRange {
    Unknown,
    Sdr,
    Hdr10Pq,
    Hlg,
    UltraHdrGainMap,
}

impl Default for DynamicRange {
    fn default() -> (r: Self)
        ensures
            r == DynamicRange::Unknown,
    {
        DynamicRange::Unknown
    }
}

impl DynamicRange {
    /// Stable diagnostic label.
    pub fn label(self) -> (r: &'static str)
        ensures
            self is Unknown ==> r@ == "unknown"@,
            self is Sdr ==> r@ == "sdr"@,
            self is Hdr10Pq ==> r@ == "hdr10_pq"@,
            self is Hlg ==> r@ == "hlg"@,
            self is UltraHdrGainMap ==> r@ == "ultra_hdr_gain_map"@,
    {
        match self {
            DynamicRange::Unknown => "unknown",
            DynamicRange::Sdr => "sdr",
            DynamicRange::Hdr10Pq => "hdr10_pq",
            DynamicRange::Hlg => "hlg",
            DynamicRange::UltraHdrGainMap => "ultra_hdr_gain_map",
        }
    }
}

/// Stable reason code explaining why a requested output mode is not active.
/// The codes (declaration order, from 0) are part of the C/Dart ABI.
#[derive(Debug, Clone, Copy, PartialEq, Eq, Structural)]
pub enum OutputFallbackReason {
    NoFallback,
    DisplayHdrUnsupported,
    HybridCompositionRequired,
    WgpuBackendNotVulkan,
    Rgba16FloatSurfaceFormatUnavailable,
    NativeWindowDataSpaceApiUnavailable,
    ScrgbDataSpaceVerificationFailed,
    SurfaceConfigureFailed,
    LegacyAppleEdrUnsupported,
    TenBitSurfaceFormatUnavailable,
    HdrWindowConfigurationFailed,
    HdrMetadataVerificationFailed,
    NativeVsyncUnavailable,
}

impl Default for OutputFallbackReason {
    fn default() -> (r: Self)
        ensures
            r == OutputFallbackReason::NoFallback,
    {
        OutputFallbackReason::NoFallback
    }
}

/// The ABI code of a fallback reason.
pub open spec fn fallback_reason_code(reason: OutputFallbackReason) -> i32 {
    match reason {
        OutputFallbackReason::NoFallback => 0,
        OutputFallbackReason::DisplayHdrUnsupported => 1,
        OutputFallbackReason::HybridCompositionRequired => 2,
        OutputFallbackReason::WgpuBackendNotVulkan => 3,
        OutputFallbackReason::Rgba16FloatSurfaceFormatUnavailable => 4,
        OutputFallbackReason::NativeWindowDataSpaceApiUnavailable => 5,
        OutputFallbackReason::ScrgbDataSpaceVerificationFailed => 6,
        OutputFallbackReason::SurfaceConfigureFailed => 7,
        OutputFallbackReason::LegacyAppleEdrUnsupported => 8,
        OutputFallbackReason::TenBitSurfaceFormatUnavailable => 9,
        OutputFallbackReason::HdrWindowConfigurationFailed => 10,
        OutputFallbackReason::HdrMetadataVerificationFailed => 11,
        OutputFallbackReason::NativeVsyncUnavailable => 12,
    }
}

/// The fallback reason an ABI code denotes; unknown codes mean no fallback.
pub open spec fn spec_fallback_reason_from_raw(value: i32) -> OutputFallbackReason {
    if value == 1 {
        OutputFallbackReason::DisplayHdrUnsupported
    } else if value == 2 {
        OutputFallbackReason::HybridCompositionRequired
    } else if value == 3 {
        OutputFallbackReason::WgpuBackendNotVulkan
    } else if value == 4 {
        OutputFallbackReason::Rgba16FloatSurfaceFormatUnavailable
    } else if value == 5 {
        OutputFallbackReason::NativeWindowDataSpaceApiUnavailable
    } else if value == 6 {
        OutputFallbackReason::ScrgbDataSpaceVerificationFailed
    } else if value == 7 {
        OutputFallbackReason::SurfaceConfigureFailed
    } else if value == 8 {
        OutputFallbackReason::LegacyAppleEdrUnsupported
    } else if value == 9 {
        OutputFallbackReason::TenBitSurfaceFormatUnavailable
    } else if value == 10 {
        OutputFallbackReason::HdrWindowConfigurationFailed
    } else if value == 11 {
        OutputFallbackReason::HdrMetadataVerificationFailed
    } else if value == 12 {
        OutputFallbackReason::NativeVsyncUnavailable
    } else {
        OutputFallbackReason::NoFallback
    }
}

/// The stable label of a fallback reason.
pub open spec fn fallback_reason_label(reason: OutputFallbackReason) -> Seq<char> {
    match reason {
        OutputFallbackReason::NoFallback => "none"@,
        OutputFallbackReason::DisplayHdrUnsupported => "display_hdr_unsupported"@,
        OutputFallbackReason::HybridCompositionRequired => "hybrid_composition_required"@,
        OutputFallbackReason::WgpuBackendNotVulkan => "wgpu_backend_not_vulkan"@,
        OutputFallbackReason::Rgba16FloatSurfaceFormatUnavailable => "rgba16float_surface_format_unavailable"@,
        OutputFallbackReason::NativeWindowDataSpaceApiUnavailable => "native_window_dataspace_api_unavailable"@,
        OutputFallbackReason::ScrgbDataSpaceVerificationFailed => "scrgb_dataspace_verification_failed"@,
        OutputFallbackReason::SurfaceConfigureFailed => "surface_configure_failed"@,
        OutputFallbackReason::LegacyAppleEdrUnsupported => "legacy_apple_edr_unsupported"@,
        OutputFallbackReason::TenBitSurfaceFormatUnavailable => "ten_bit_surface_format_unavailable"@,
        OutputFallbackReason::HdrWindowConfigurationFailed => "hdr_window_configuration_failed"@,
        OutputFallbackReason::HdrMetadataVerificationFailed => "hdr_metadata_verification_failed"@,
        OutputFallbackReason::NativeVsyncUnavailable => "native_vsync_unavailable"@,
    }
}

impl OutputFallbackReason {
    /// Decodes an ABI code; codes that name no reason mean no fallback.
    pub fn from_raw(value: i32) -> (r: Self)
        ensures
            r == spec_fallback_reason_from_raw(value),
    {
        match value {
            1 => OutputFallbackReason::DisplayHdrUnsupported,
            2 => OutputFallbackReason::HybridCompositionRequired,
            3 => OutputFallbackReason::WgpuBackendNotVulkan,
            4 => OutputFallbackReason::Rgba16FloatSurfaceFormatUnavailable,
            5 => OutputFallbackReason::NativeWindowDataSpaceApiUnavailable,
            6 => OutputFallbackReason::ScrgbDataSpaceVerificationFailed,
            7 => OutputFallbackReason::SurfaceConfigureFailed,
            8 => OutputFallbackReason::LegacyAppleEdrUnsupported,
            9 => OutputFallbackReason::TenBitSurfaceFormatUnavailable,
            10 => OutputFallbackReason::HdrWindowConfigurationFailed,
            11 => OutputFallbackReason::HdrMetadataVerificationFailed,
            12 => OutputFallbackReason::NativeVsyncUnavailable,
            _ => OutputFallbackReason::NoFallback,
        }
    }

    /// Stable diagnostic label.
    pub fn label(self) -> (r: &'static str)
        ensures
            r@ == fallback_reason_label(self),
    {
        match self {
            OutputFallbackReason::NoFallback => "none",
            OutputFallbackReason::DisplayHdrUnsupported => "display_hdr_unsupported",
            OutputFallbackReason::HybridCompositionRequired => "hybrid_composition_required",
            OutputFallbackReason::WgpuBackendNotVulkan => "wgpu_backend_not_vulkan",
            OutputFallbackReason::Rgba16FloatSurfaceFormatUnavailable => "rgba16float_surface_format_unavailable",
            OutputFallbackReason::NativeWindowDataSpaceApiUnavailable => "native_window_dataspace_api_unavailable",
            OutputFallbackReason::ScrgbDataSpaceVerificationFailed => "scrgb_dataspace_verification_failed",
            OutputFallbackReason::SurfaceConfigureFailed => "surface_configure_failed",
            OutputFallbackReason::LegacyAppleEdrUnsupported => "legacy_apple_edr_unsupported",
            OutputFallbackReason::TenBitSurfaceFormatUnavailable => "ten_bit_surface_format_unavailable",
            OutputFallbackReason::HdrWindowConfigurationFailed => "hdr_window_configuration_failed",
            OutputFallbackReason::HdrMetadataVerificationFailed => "hdr_metadata_verification_failed",
            OutputFallbackReason::NativeVsyncUnavailable => "native_vsync_unavailable",
        }
    }
}

/// Decoding the ABI code of any fallback reason gives that reason back, and
/// the codes are exactly 0 through 12.
pub proof fn lemma_fallback_reason_code_round_trip(reason: OutputFallbackReason)
    ensures
        spec_fallback_reason_from_raw(fallback_reason_code(reason)) == reason,
        0 <= fallback_reason_code(reason) <= 12,
{
}

/// Every code outside the table decodes to "no fallback".
pub proof fn lemma_unknown_fallback_code_is_none(value: i32)
    requires
        value < 0 || value > 12,
    ensures
        spec_fallback_reason_from_raw(value) == OutputFallbackReason::NoFallback,
{
}

/// The actual signal contract used by a renderer after native surface
/// negotiation.
#[derive(Debug, Clone, Copy, PartialEq, Eq, Structural)]
pub struct OutputDescription {
    pub color_space: OutputColorSpace,
    pub surface_format: OutputSurfaceFormat,
    pub target: TargetColorState,
    pub extended_linear: bool,
}

/// The 8-bit sRGB description every backend can present.
pub open spec fn sdr_description() -> OutputDescription {
    OutputDescription {
        color_space: OutputColorSpace::Srgb,
        surface_format: OutputSurfaceFormat::EightBitUnorm,
        target: TargetColorState { primaries: ColorPrimaries::Bt709, transfer: TransferFunction::Srgb },
        extended_linear: false,
    }
}

/// The 10-bit BT.2020 PQ description of an HDR10 surface.
pub open spec fn hdr10_description() -> OutputDescription {
    OutputDescription {
        color_space: OutputColorSpace::Bt2020Pq,
        surface_format: OutputSurfaceFormat::TenBitUnorm,
        target: TargetColorState { primaries: ColorPrimaries::Bt2020, transfer: TransferFunction::Pq },
        extended_linear: false,
    }
}

/// The 16-bit float extended-sRGB-linear description of Android
/// extended-linear and Apple EDR output.
pub open spec fn extended_linear_description() -> OutputDescription {
    OutputDescription {
        color_space: OutputColorSpace::ExtendedSrgbLinear,
        surface_format: OutputSurfaceFormat::SixteenBitFloat,
        target: TargetColorState { primaries: ColorPrimaries::Bt709, transfer: TransferFunction::Srgb },
        extended_linear: true,
    }
}

impl OutputDescription {
    /// The 8-bit sRGB description every backend can present.
    pub fn sdr() -> (r: Self)
        ensures
            r == sdr_description(),
    {
        OutputDescription {
            color_space: OutputColorSpace::Srgb,
            surface_format: OutputSurfaceFormat::EightBitUnorm,
            target: TargetColorState::sdr(ColorPrimaries::Bt709),
            extended_linear: false,
        }
    }

    /// The 10-bit BT.2020 PQ description of an HDR10 surface.
    pub fn hdr10() -> (r: Self)
        ensures
            r == hdr10_description(),
    {
        OutputDescription {
            color_space: OutputColorSpace::Bt2020Pq,
            surface_format: OutputSurfaceFormat::TenBitUnorm,
            target: TargetColorState::hdr10(ColorPrimaries::Bt2020),
            extended_linear: false,
        }
    }

    /// The extended-sRGB-linear description shared by Android
    /// extended-linear and Apple EDR output; the luminance of its target
    /// (reference white and headroom) is floating point and kept beside it.
    pub fn extended_linear_base() -> (r: Self)
        ensures
            r == extended_linear_description(),
    {
        OutputDescription {
            color_space: OutputColorSpace::ExtendedSrgbLinear,
            surface_format: OutputSurfaceFormat::SixteenBitFloat,
            target: TargetColorState::sdr(ColorPrimaries::Bt709),
            extended_linear: true,
        }
    }

    /// The transfer function the renderer targets.
    pub fn target_transfer(self) -> (r: TransferFunction)
        ensures
            r == self.target.transfer,
    {
        self.target.transfer
    }
}

/// HDR10 output is a PQ signal on a 10-bit surface, distinct from the
/// extended-linear float path and from SDR.
pub proof fn lemma_hdr10_stays_distinct()
    ensures
        hdr10_description() != extended_linear_description(),
        hdr10_description() != sdr_description(),
        !hdr10_description().extended_linear,
        extended_linear_description().extended_linear,
{
}

} // verus!
