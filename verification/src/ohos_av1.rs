//! AV1 codec-configuration handling and hardware-decoder capability selection
//! for the HarmonyOS AVCodec path.

use vstd::prelude::*;
use vstd::string::StringExecFns;

use crate::text::{decimal, push_decimal, string_of};

verus! {

/// Marker bit that distinguishes an `AV1CodecConfigurationRecord` from raw OBUs.
pub const AV1_CODEC_CONFIGURATION_RECORD_MARKER: u8 = 0x80;
/// Mask that extracts the record version from the first byte.
pub const AV1_CODEC_CONFIGURATION_RECORD_VERSION_MASK: u8 = 0x7f;
/// The only record version this decoder understands.
pub const AV1_CODEC_CONFIGURATION_RECORD_VERSION: u8 = 1;
/// Length of the fixed record header that precedes the configuration OBUs.
pub const AV1_CODEC_CONFIGURATION_RECORD_HEADER_LEN: usize = 4;

#[derive(Debug, Clone, Copy, PartialEq, Eq, Structural)]
pub enum Av1CodecConfigError {
    TruncatedConfigurationRecord,
    UnsupportedConfigurationRecordVersion(u8),
}

/// The text of a configuration-record error.
pub open spec fn av1_config_error_message(e: Av1CodecConfigError) -> Seq<char> {
    match e {
        Av1CodecConfigError::TruncatedConfigurationRecord => "truncated AV1CodecConfigurationRecord"@,
        Av1CodecConfigError::UnsupportedConfigurationRecordVersion(v) =>
            "unsupported AV1CodecConfigurationRecord version "@ + decimal(v as nat),
    }
}

impl Av1CodecConfigError {
    /// The error as text.
    pub fn message(&self) -> (r: String)
        ensures
            r@ == av1_config_error_message(*self),
    {
        match self {
            Av1CodecConfigError::TruncatedConfigurationRecord => string_of("truncated AV1CodecConfigurationRecord"),
            Av1CodecConfigError::UnsupportedConfigurationRecordVersion(v) => {
                let mut m = string_of("unsupported AV1CodecConfigurationRecord version ");
                push_decimal(&mut m, *v as u64);
                m
            },
        }
    }
}

/// What the configuration OBUs of `config` are: raw OBUs pass through
/// unchanged, a version-1 record loses its four-byte header.
pub open spec fn spec_av1_codec_config_obus(config: Seq<u8>) -> Result<Seq<u8>, Av1CodecConfigError> {
    if config.len() == 0 || config[0] & 0x80u8 == 0 {
        Ok(config)
    } else if config.len() < 4 {
        Err(Av1CodecConfigError::TruncatedConfigurationRecord)
    } else if config[0] & 0x7fu8 != 1 {
        Err(Av1CodecConfigError::UnsupportedConfigurationRecordVersion(config[0] & 0x7fu8))
    } else {
        Ok(config.skip(4))
    }
}

/// Returns the configuration OBUs held by `config`, which is either a raw OBU
/// stream or an `AV1CodecConfigurationRecord`.
pub fn av1_codec_config_obus(config: &[u8]) -> (r: Result<&[u8], Av1CodecConfigError>)
    ensures
        match r {
            Ok(obus) => spec_av1_codec_config_obus(config@) == Ok::<Seq<u8>, Av1CodecConfigError>(obus@),
            Err(e) => spec_av1_codec_config_obus(config@) == Err::<Seq<u8>, Av1CodecConfigError>(e),
        },
{
    if config.len() == 0 {
        return Ok(config);
    }
    let first = config[0];
    if first & AV1_CODEC_CONFIGURATION_RECORD_MARKER == 0 {
        return Ok(config);
    }
    if config.len() < AV1_CODEC_CONFIGURATION_RECORD_HEADER_LEN {
        return Err(Av1CodecConfigError::TruncatedConfigurationRecord);
    }
    let version = first & AV1_CODEC_CONFIGURATION_RECORD_VERSION_MASK;
    if version != AV1_CODEC_CONFIGURATION_RECORD_VERSION {
        return Err(Av1CodecConfigError::UnsupportedConfigurationRecordVersion(version));
    }
    let obus = &config[AV1_CODEC_CONFIGURATION_RECORD_HEADER_LEN..config.len()];
    assert(obus@ =~= config@.skip(4));
    Ok(obus)
}

/// Raw OBUs (an empty stream, or one whose first byte lacks the record
/// marker) pass through unchanged.
pub proof fn lemma_raw_obus_are_preserved(config: Seq<u8>)
    requires
        config.len() == 0 || config[0] & 0x80u8 == 0,
    ensures
        spec_av1_codec_config_obus(config) == Ok::<Seq<u8>, Av1CodecConfigError>(config),
{
}

/// A version-1 record exposes exactly the configuration OBUs after its
/// four-byte header, and nothing of the header.
pub proof fn lemma_record_exposes_only_configuration_obus(config: Seq<u8>)
    requires
        config.len() >= 4,
        config[0] & 0x80u8 != 0,
        config[0] & 0x7fu8 == 1,
    ensures
        spec_av1_codec_config_obus(config) == Ok::<Seq<u8>, Av1CodecConfigError>(config.skip(4)),
        config.skip(4).len() == config.len() - 4,
        forall|i: int| 0 <= i < config.len() - 4 ==> #[trigger] config.skip(4)[i] == config[i + 4],
{
}

#[derive(Debug, Clone, Copy, PartialEq, Eq, Structural)]
pub enum HardwareAv1CapabilityRejection {
    Unavailable,
    EmptyCodecName,
    UnsupportedVideoSize,
}

/// Accepts a hardware AV1 decoder only when the platform named one and it
/// supports the video size.
pub fn select_hardware_av1_codec_name(
    codec_name: Option<&str>,
    video_size_supported: bool,
) -> (r: Result<&str, HardwareAv1CapabilityRejection>)
    ensures
        codec_name is None ==> r == Err::<&str, _>(HardwareAv1CapabilityRejection::Unavailable),
        codec_name matches Some(name) ==> {
            &&& name@.len() == 0 ==> r == Err::<&str, _>(HardwareAv1CapabilityRejection::EmptyCodecName)
            &&& name@.len() != 0 && !video_size_supported ==> r == Err::<&str, _>(
                HardwareAv1CapabilityRejection::UnsupportedVideoSize,
            )
            &&& name@.len() != 0 && video_size_supported ==> r == Ok::<&str, HardwareAv1CapabilityRejection>(name)
        },
{
    match codec_name {
        None => Err(HardwareAv1CapabilityRejection::Unavailable),
        Some(name) => {
            if name.is_empty() {
                Err(HardwareAv1CapabilityRejection::EmptyCodecName)
            } else if !video_size_supported {
                Err(HardwareAv1CapabilityRejection::UnsupportedVideoSize)
            } else {
                Ok(name)
            }
        },
    }
}

} // verus!
