//! Codec-configuration normalization and packet conversion for the HarmonyOS
//! AVCodec decoder.
//!
//! AVC and HEVC streams carry either Annex-B start codes or ISO-BMFF style
//! length-prefixed NAL units; AVCodec wants Annex-B with the parameter sets in
//! front of the first key frame.  AV1 streams carry configuration OBUs that may
//! be wrapped in an `AV1CodecConfigurationRecord`.

use vstd::prelude::*;
use vstd::slice::slice_to_vec;

use vstd::string::StringExecFns;
use std::collections::VecDeque;

use crate::arith::lemma_mul_u32_fits_u64;
use crate::ohos_av1::{
    av1_codec_config_obus, av1_config_error_message, spec_av1_codec_config_obus, Av1CodecConfigError,
    HardwareAv1CapabilityRejection,
};
use crate::media::MediaDuration;
use crate::text::{decimal, hex, spec_contains, str_contains, push_decimal, push_hex, push_signed_decimal, signed_decimal, string_of};

verus! {

/// The four-byte Annex-B start code written in front of every NAL unit.
pub open spec fn start_code() -> Seq<u8> {
    seq![0u8, 0u8, 0u8, 1u8]
}

/// Errors found while normalizing a decoder configuration record.
#[derive(Debug, Clone, Copy, PartialEq, Eq, Structural)]
pub enum CodecConfigError {
    Av1(Av1CodecConfigError),
    InvalidAvcRecord,
    MissingPpsCount,
    AvcWithoutParameterSets,
    InvalidHevcRecord,
    TruncatedHevcArray,
    HevcWithoutParameterSets,
    TruncatedNalLength,
    TruncatedNalData,
}

/// Errors found while converting a length-prefixed packet to Annex-B.
#[derive(Debug, Clone, Copy, PartialEq, Eq, Structural)]
pub enum PacketError {
    InvalidNalLengthSize(usize),
    TruncatedPacket,
    NalExceedsPacket { nal_size: usize, remaining: usize },
    NoNalData,
}

/// The text of a configuration-record error.
pub open spec fn codec_config_error_message(e: CodecConfigError) -> Seq<char> {
    match e {
        CodecConfigError::Av1(inner) => av1_config_error_message(inner),
        CodecConfigError::InvalidAvcRecord => "invalid AVCDecoderConfigurationRecord"@,
        CodecConfigError::MissingPpsCount => "AVC configuration is missing PPS count"@,
        CodecConfigError::AvcWithoutParameterSets => "AVC configuration contains no SPS/PPS data"@,
        CodecConfigError::InvalidHevcRecord => "invalid HEVCDecoderConfigurationRecord"@,
        CodecConfigError::TruncatedHevcArray => "truncated HEVC configuration array"@,
        CodecConfigError::HevcWithoutParameterSets => "HEVC configuration contains no VPS/SPS/PPS data"@,
        CodecConfigError::TruncatedNalLength => "truncated codec configuration NAL length"@,
        CodecConfigError::TruncatedNalData => "truncated codec configuration NAL data"@,
    }
}

impl CodecConfigError {
    /// The error as text.
    pub fn message(&self) -> (r: String)
        ensures
            r@ == codec_config_error_message(*self),
    {
        match self {
            CodecConfigError::Av1(inner) => inner.message(),
            CodecConfigError::InvalidAvcRecord => string_of("invalid AVCDecoderConfigurationRecord"),
            CodecConfigError::MissingPpsCount => string_of("AVC configuration is missing PPS count"),
            CodecConfigError::AvcWithoutParameterSets => string_of("AVC configuration contains no SPS/PPS data"),
            CodecConfigError::InvalidHevcRecord => string_of("invalid HEVCDecoderConfigurationRecord"),
            CodecConfigError::TruncatedHevcArray => string_of("truncated HEVC configuration array"),
            CodecConfigError::HevcWithoutParameterSets => string_of("HEVC configuration contains no VPS/SPS/PPS data"),
            CodecConfigError::TruncatedNalLength => string_of("truncated codec configuration NAL length"),
            CodecConfigError::TruncatedNalData => string_of("truncated codec configuration NAL data"),
        }
    }
}

/// The text of a packet-conversion error.
pub open spec fn packet_error_message(e: PacketError) -> Seq<char> {
    match e {
        PacketError::InvalidNalLengthSize(n) => "invalid NAL length size "@ + decimal(n as nat),
        PacketError::TruncatedPacket => "truncated length-prefixed video packet"@,
        PacketError::NalExceedsPacket { nal_size, remaining } => "video packet NAL size "@ + decimal(nal_size as nat)
            + " exceeds remaining "@ + decimal(remaining as nat) + " bytes"@,
        PacketError::NoNalData => "length-prefixed video packet contains no NAL data"@,
    }
}

impl PacketError {
    /// The error as text.
    pub fn message(&self) -> (r: String)
        ensures
            r@ == packet_error_message(*self),
    {
        match self {
            PacketError::InvalidNalLengthSize(n) => {
                let mut m = string_of("invalid NAL length size ");
                push_decimal(&mut m, *n as u64);
                m
            },
            PacketError::TruncatedPacket => string_of("truncated length-prefixed video packet"),
            PacketError::NalExceedsPacket { nal_size, remaining } => {
                let mut m = string_of("video packet NAL size ");
                push_decimal(&mut m, *nal_size as u64);
                m.append(" exceeds remaining ");
                push_decimal(&mut m, *remaining as u64);
                m.append(" bytes");
                m
            },
            PacketError::NoNalData => string_of("length-prefixed video packet contains no NAL data"),
        }
    }
}

// ---------------------------------------------------------------------------
// Specifications
// ---------------------------------------------------------------------------

/// Big-endian value of a byte string.
pub open spec fn be_value(s: Seq<u8>) -> nat
    decreases s.len(),
{
    if s.len() == 0 {
        0
    } else {
        be_value(s.drop_last()) * 256 + s.last() as nat
    }
}

/// `256^n`.
pub open spec fn pow256(n: nat) -> nat
    decreases n,
{
    if n == 0 {
        1
    } else {
        256 * pow256((n - 1) as nat)
    }
}

/// One two-byte-length-prefixed NAL unit of a configuration record at
/// `cursor`: the cursor after it and its Annex-B form.
pub open spec fn config_nal(config: Seq<u8>, cursor: int) -> Result<(int, Seq<u8>), CodecConfigError> {
    if cursor + 2 > config.len() {
        Err(CodecConfigError::TruncatedNalLength)
    } else {
        let size = config[cursor] as int * 256 + config[cursor + 1] as int;
        let start = cursor + 2;
        if start + size > config.len() {
            Err(CodecConfigError::TruncatedNalData)
        } else {
            Ok((start + size, start_code() + config.subrange(start, start + size)))
        }
    }
}

/// `count` consecutive configuration NAL units starting at `cursor`,
/// appended to `acc`.
pub open spec fn config_nals(config: Seq<u8>, cursor: int, count: nat, acc: Seq<u8>) -> Result<(int, Seq<u8>), CodecConfigError>
    decreases count,
{
    if count == 0 {
        Ok((cursor, acc))
    } else {
        match config_nal(config, cursor) {
            Err(e) => Err(e),
            Ok((next, nal)) => config_nals(config, next, (count - 1) as nat, acc + nal),
        }
    }
}

/// The parameter sets of an `AVCDecoderConfigurationRecord` in Annex-B form,
/// with the NAL length size its samples use.
pub open spec fn spec_avcc_to_annex_b(config: Seq<u8>) -> Result<(Seq<u8>, usize), CodecConfigError> {
    if config.len() < 7 || config[0] != 1 {
        Err(CodecConfigError::InvalidAvcRecord)
    } else {
        let nal_length_size = (config[4] & 3u8) as usize + 1;
        match config_nals(config, 6, (config[5] & 0x1fu8) as nat, Seq::empty()) {
            Err(e) => Err(e),
            Ok((cursor, sps)) => if cursor >= config.len() {
                Err(CodecConfigError::MissingPpsCount)
            } else {
                match config_nals(config, cursor + 1, config[cursor] as nat, sps) {
                    Err(e) => Err(e),
                    Ok((_, sets)) => if sets.len() == 0 {
                        Err(CodecConfigError::AvcWithoutParameterSets)
                    } else {
                        Ok((sets, nal_length_size as usize))
                    },
                }
            },
        }
    }
}

/// `count` NAL arrays of an `HEVCDecoderConfigurationRecord` starting at
/// `cursor`, appended to `acc`.
pub open spec fn hevc_arrays(config: Seq<u8>, cursor: int, count: nat, acc: Seq<u8>) -> Result<(int, Seq<u8>), CodecConfigError>
    decreases count,
{
    if count == 0 {
        Ok((cursor, acc))
    } else if cursor + 1 + 2 > config.len() {
        Err(CodecConfigError::TruncatedHevcArray)
    } else {
        let nal_count = config[cursor + 1] as nat * 256 + config[cursor + 2] as nat;
        match config_nals(config, cursor + 3, nal_count, acc) {
            Err(e) => Err(e),
            Ok((next, out)) => hevc_arrays(config, next, (count - 1) as nat, out),
        }
    }
}

/// The parameter sets of an `HEVCDecoderConfigurationRecord` in Annex-B form,
/// with the NAL length size its samples use.
pub open spec fn spec_hvcc_to_annex_b(config: Seq<u8>) -> Result<(Seq<u8>, usize), CodecConfigError> {
    if config.len() < 23 || config[0] != 1 {
        Err(CodecConfigError::InvalidHevcRecord)
    } else {
        let nal_length_size = (config[21] & 3u8) as usize + 1;
        match hevc_arrays(config, 23, config[22] as nat, Seq::empty()) {
            Err(e) => Err(e),
            Ok((_, sets)) => if sets.len() == 0 {
                Err(CodecConfigError::HevcWithoutParameterSets)
            } else {
                Ok((sets, nal_length_size as usize))
            },
        }
    }
}

/// Annex-B form of a packet of NAL units, each preceded by an `n`-byte
/// big-endian length; zero-length units are skipped.
pub open spec fn length_prefixed_units(rest: Seq<u8>, n: nat) -> Result<Seq<u8>, PacketError>
    decreases rest.len(),
{
    if rest.len() == 0 || n == 0 {
        Ok(Seq::empty())
    } else if rest.len() < n {
        Err(PacketError::TruncatedPacket)
    } else {
        let size = be_value(rest.take(n as int));
        let after = rest.skip(n as int);
        if size == 0 {
            length_prefixed_units(after, n)
        } else if size > after.len() {
            Err(PacketError::NalExceedsPacket { nal_size: size as usize, remaining: after.len() as usize })
        } else {
            match length_prefixed_units(after.skip(size as int), n) {
                Err(e) => Err(e),
                Ok(tail) => Ok(start_code() + after.take(size as int) + tail),
            }
        }
    }
}

/// Annex-B form of a length-prefixed packet with `n`-byte NAL lengths.
pub open spec fn spec_length_prefixed_packet_to_annex_b(packet: Seq<u8>, n: nat) -> Result<Seq<u8>, PacketError> {
    if !(1 <= n <= 4) {
        Err(PacketError::InvalidNalLengthSize(n as usize))
    } else {
        match length_prefixed_units(packet, n) {
            Err(e) => Err(e),
            Ok(out) => if out.len() == 0 && packet.len() > 0 {
                Err(PacketError::NoNalData)
            } else {
                Ok(out)
            },
        }
    }
}

/// Whether `data` begins with a three- or four-byte Annex-B start code.
pub open spec fn spec_is_annex_b(data: Seq<u8>) -> bool {
    (data.len() >= 3 && data[0] == 0 && data[1] == 0 && data[2] == 1)
    || (data.len() >= 4 && data[0] == 0 && data[1] == 0 && data[2] == 0 && data[3] == 1)
}

// ---------------------------------------------------------------------------
// Lemmas
// ---------------------------------------------------------------------------

proof fn lemma_be_value_bound(s: Seq<u8>)
    ensures
        be_value(s) < pow256(s.len()),
    decreases s.len(),
{
    if s.len() > 0 {
        lemma_be_value_bound(s.drop_last());
        let a = be_value(s.drop_last());
        let p = pow256((s.len() - 1) as nat);
        assert(a * 256 + (s.last() as nat) < 256 * p) by (nonlinear_arith)
            requires a < p, s.last() < 256;
    }
}

proof fn lemma_pow256_4()
    ensures pow256(4) == 0x1_0000_0000,
{
    reveal_with_fuel(pow256, 5);
}

proof fn lemma_pow256_mono(a: nat, b: nat)
    requires a <= b,
    ensures pow256(a) <= pow256(b),
    decreases b,
{
    if a < b {
        lemma_pow256_mono(a, (b - 1) as nat);
    }
}

/// Whether `s` begins with the four-byte start code.
pub open spec fn starts_with_start_code(s: Seq<u8>) -> bool {
    s.len() >= 4 && s.subrange(0, 4) == start_code()
}

/// Appending configuration NAL units keeps what was there, and whatever is
/// appended begins with a start code.
proof fn lemma_config_nals_extend(config: Seq<u8>, cursor: int, count: nat, acc: Seq<u8>)
    ensures
        config_nals(config, cursor, count, acc) matches Ok((_, out)) ==> {
            &&& out.len() >= acc.len()
            &&& out.subrange(0, acc.len() as int) == acc
            &&& out.len() > acc.len() ==> starts_with_start_code(out.skip(acc.len() as int))
        },
    decreases count,
{
    if count > 0 {
        match config_nal(config, cursor) {
            Err(_) => {},
            Ok((next, nal)) => {
                lemma_config_nals_extend(config, next, (count - 1) as nat, acc + nal);
                if let Ok((_, out)) = config_nals(config, cursor, count, acc) {
                    assert(out.subrange(0, acc.len() as int) =~= (acc + nal).subrange(0, acc.len() as int));
                    assert((acc + nal).subrange(0, acc.len() as int) =~= acc);
                    assert(out.skip(acc.len() as int).subrange(0, 4) =~= out.subrange(acc.len() as int, acc.len() as int + 4));
                    assert(out.subrange(acc.len() as int, acc.len() as int + 4)
                        =~= out.subrange(0, (acc + nal).len() as int).subrange(acc.len() as int, acc.len() as int + 4));
                    assert((acc + nal).subrange(acc.len() as int, acc.len() as int + 4) =~= start_code());
                }
            },
        }
    }
}

/// Appending the NAL arrays of an HEVC record keeps what was there, and
/// whatever is appended begins with a start code.
proof fn lemma_hevc_arrays_extend(config: Seq<u8>, cursor: int, count: nat, acc: Seq<u8>)
    ensures
        hevc_arrays(config, cursor, count, acc) matches Ok((_, out)) ==> {
            &&& out.len() >= acc.len()
            &&& out.subrange(0, acc.len() as int) == acc
            &&& out.len() > acc.len() ==> starts_with_start_code(out.skip(acc.len() as int))
        },
    decreases count,
{
    if count > 0 && cursor + 1 + 2 <= config.len() {
        let nal_count = config[cursor + 1] as nat * 256 + config[cursor + 2] as nat;
        lemma_config_nals_extend(config, cursor + 3, nal_count, acc);
        match config_nals(config, cursor + 3, nal_count, acc) {
            Err(_) => {},
            Ok((next, mid)) => {
                lemma_hevc_arrays_extend(config, next, (count - 1) as nat, mid);
                if let Ok((_, out)) = hevc_arrays(config, cursor, count, acc) {
                    assert(out.subrange(0, acc.len() as int) =~= out.subrange(0, mid.len() as int).subrange(0, acc.len() as int));
                    if out.len() > acc.len() {
                        if mid.len() > acc.len() {
                            assert(out.skip(acc.len() as int).subrange(0, 4)
                                =~= out.subrange(0, mid.len() as int).skip(acc.len() as int).subrange(0, 4));
                        } else {
                            assert(out.skip(acc.len() as int) =~= out.skip(mid.len() as int));
                        }
                    }
                }
            },
        }
    }
}

/// The parameter sets taken from an AVC or HEVC configuration record are in
/// Annex-B form: they begin with a start code.
pub proof fn lemma_parameter_sets_are_annex_b(config: Seq<u8>)
    ensures
        spec_avcc_to_annex_b(config) matches Ok((sets, _)) ==> starts_with_start_code(sets) && spec_is_annex_b(sets),
        spec_hvcc_to_annex_b(config) matches Ok((sets, _)) ==> starts_with_start_code(sets) && spec_is_annex_b(sets),
{
    if config.len() >= 7 && config[0] == 1 {
        lemma_config_nals_extend(config, 6, (config[5] & 0x1fu8) as nat, Seq::empty());
        if let Ok((cursor, sps)) = config_nals(config, 6, (config[5] & 0x1fu8) as nat, Seq::empty()) {
            if cursor < config.len() {
                lemma_config_nals_extend(config, cursor + 1, config[cursor] as nat, sps);
                if let Ok((_, sets)) = config_nals(config, cursor + 1, config[cursor] as nat, sps) {
                    if sets.len() > 0 {
                        if sps.len() > 0 {
                            assert(sps.skip(0) =~= sps);
                            assert(sets.subrange(0, 4) =~= sets.subrange(0, sps.len() as int).subrange(0, 4));
                        } else {
                            assert(sets.skip(0) =~= sets);
                        }
                    }
                }
            }
        }
    }
    if config.len() >= 23 && config[0] == 1 {
        lemma_hevc_arrays_extend(config, 23, config[22] as nat, Seq::empty());
        if let Ok((_, sets)) = hevc_arrays(config, 23, config[22] as nat, Seq::empty()) {
            assert(sets.skip(0) =~= sets);
        }
    }
}

/// The Annex-B form of a length-prefixed packet is empty or begins with a
/// start code.
proof fn lemma_length_prefixed_units_start(rest: Seq<u8>, n: nat)
    ensures
        length_prefixed_units(rest, n) matches Ok(out) ==> (out.len() == 0 || starts_with_start_code(out)),
    decreases rest.len(),
{
    if rest.len() > 0 && n > 0 && rest.len() >= n {
        let size = be_value(rest.take(n as int));
        let after = rest.skip(n as int);
        if size == 0 {
            lemma_length_prefixed_units_start(after, n);
        } else if size <= after.len() {
            if let Ok(tail) = length_prefixed_units(after.skip(size as int), n) {
                let out = start_code() + after.take(size as int) + tail;
                assert(out.subrange(0, 4) =~= start_code());
            }
        }
    }
}

/// Every sample a packet normalizer hands to AVCodec is in Annex-B form
/// when the stream is length-prefixed: converted packets are empty or begin
/// with a start code.
pub proof fn lemma_converted_packets_are_annex_b(packet: Seq<u8>, n: nat)
    ensures
        spec_length_prefixed_packet_to_annex_b(packet, n) matches Ok(out) ==> (out.len() == 0
            || (starts_with_start_code(out) && spec_is_annex_b(out))),
{
    lemma_length_prefixed_units_start(packet, n);
}

/// `v` as `n` big-endian bytes.
pub open spec fn be_bytes(v: nat, n: nat) -> Seq<u8>
    decreases n,
{
    if n == 0 {
        Seq::empty()
    } else {
        be_bytes(v / 256, (n - 1) as nat).push((v % 256) as u8)
    }
}

/// NAL units framed the ISO-BMFF way: each preceded by its length in `n`
/// big-endian bytes.
pub open spec fn length_prefixed_framing(units: Seq<Seq<u8>>, n: nat) -> Seq<u8>
    decreases units.len(),
{
    if units.len() == 0 {
        Seq::empty()
    } else {
        be_bytes(units[0].len(), n) + units[0] + length_prefixed_framing(units.drop_first(), n)
    }
}

/// NAL units framed the Annex-B way: each preceded by a start code.
pub open spec fn annex_b_framing(units: Seq<Seq<u8>>) -> Seq<u8>
    decreases units.len(),
{
    if units.len() == 0 {
        Seq::empty()
    } else {
        start_code() + units[0] + annex_b_framing(units.drop_first())
    }
}

proof fn lemma_be_bytes_value(v: nat, n: nat)
    requires
        v < pow256(n),
    ensures
        be_bytes(v, n).len() == n,
        be_value(be_bytes(v, n)) == v,
    decreases n,
{
    if n > 0 {
        let p = pow256((n - 1) as nat);
        assert(v / 256 < p) by (nonlinear_arith)
            requires v < 256 * p, v >= 0;
        lemma_be_bytes_value(v / 256, (n - 1) as nat);
        let s = be_bytes(v, n);
        assert(s.drop_last() =~= be_bytes(v / 256, (n - 1) as nat));
        assert(v / 256 * 256 + v % 256 == v) by (nonlinear_arith)
            requires v >= 0;
    } else {
        assert(pow256(0) == 1);
    }
}

proof fn lemma_framing_len(units: Seq<Seq<u8>>, n: nat)
    requires
        forall|i: int| 0 <= i < units.len() ==> 0 < #[trigger] units[i].len() < pow256(n),
    ensures
        (length_prefixed_framing(units, n).len() == 0) == (units.len() == 0),
        (annex_b_framing(units).len() == 0) == (units.len() == 0),
    decreases units.len(),
{
    if units.len() > 0 {
        assert(units[0].len() > 0);
    }
}

proof fn lemma_length_prefixed_units_of_framing(units: Seq<Seq<u8>>, n: nat)
    requires
        n >= 1,
        forall|i: int| 0 <= i < units.len() ==> 0 < #[trigger] units[i].len() < pow256(n),
    ensures
        length_prefixed_units(length_prefixed_framing(units, n), n) == Ok::<Seq<u8>, PacketError>(annex_b_framing(units)),
    decreases units.len(),
{
    if units.len() > 0 {
        let u = units[0];
        let rest = units.drop_first();
        assert forall|i: int| 0 <= i < rest.len() implies 0 < #[trigger] rest[i].len() < pow256(n) by {
            assert(rest[i] == units[i + 1]);
        }
        lemma_length_prefixed_units_of_framing(rest, n);
        assert(u.len() < pow256(n));
        lemma_be_bytes_value(u.len(), n);
        let prefix = be_bytes(u.len(), n);
        let tail_packet = length_prefixed_framing(rest, n);
        let packet = length_prefixed_framing(units, n);
        assert(packet == prefix + u + tail_packet);
        assert(packet.take(n as int) =~= prefix);
        let after = packet.skip(n as int);
        assert(after =~= u + tail_packet);
        assert(after.take(u.len() as int) =~= u);
        assert(after.skip(u.len() as int) =~= tail_packet);
    }
}

/// Converting NAL units framed with `n`-byte lengths gives the same units,
/// in the same order, framed with start codes.
pub proof fn lemma_length_prefixed_round_trip(units: Seq<Seq<u8>>, n: nat)
    requires
        1 <= n <= 4,
        forall|i: int| 0 <= i < units.len() ==> 0 < #[trigger] units[i].len() < pow256(n),
    ensures
        spec_length_prefixed_packet_to_annex_b(length_prefixed_framing(units, n), n)
            == Ok::<Seq<u8>, PacketError>(annex_b_framing(units)),
{
    lemma_length_prefixed_units_of_framing(units, n);
    lemma_framing_len(units, n);
}

// ---------------------------------------------------------------------------
// Executable code
// ---------------------------------------------------------------------------

/// Appends `src[from..to]` to `out`.
fn append_range(out: &mut Vec<u8>, src: &[u8], from: usize, to: usize)
    requires
        from <= to <= src@.len(),
    ensures
        final(out)@ == old(out)@ + src@.subrange(from as int, to as int),
{
    let mut i = from;
    while i < to
        invariant
            from <= i <= to <= src@.len(),
            out@ == old(out)@ + src@.subrange(from as int, i as int),
        decreases to - i,
    {
        out.push(src[i]);
        assert(src@.subrange(from as int, i + 1) == src@.subrange(from as int, i as int).push(src@[i as int]));
        i += 1;
    }
}

/// Appends the four-byte Annex-B start code to `out`.
fn push_start_code(out: &mut Vec<u8>)
    ensures
        final(out)@ == old(out)@ + start_code(),
{
    out.push(0);
    out.push(0);
    out.push(0);
    out.push(1);
    assert(out@ =~= old(out)@ + start_code());
}

/// Copies one two-byte-length-prefixed NAL unit of a configuration record at
/// `*cursor` into `output` in Annex-B form and moves the cursor past it. On
/// a truncated length the cursor stays; on truncated data it has moved past
/// the length.
pub fn append_config_nal(config: &[u8], cursor: &mut usize, output: &mut Vec<u8>) -> (r: Result<(), CodecConfigError>)
    ensures
        match config_nal(config@, *old(cursor) as int) {
            Ok((next, nal)) => r is Ok && *final(cursor) == next && final(output)@ == old(output)@ + nal,
            Err(e) => r == Err::<(), CodecConfigError>(e) && final(output)@ == old(output)@ && *final(cursor) == (
                if e is TruncatedNalLength { *old(cursor) as int } else { *old(cursor) + 2 }),
        },
{
    if *cursor > config.len() || config.len() - *cursor < 2 {
        return Err(CodecConfigError::TruncatedNalLength);
    }
    let nal_size = (config[*cursor] as usize) * 256 + config[*cursor + 1] as usize;
    *cursor += 2;
    if config.len() - *cursor < nal_size {
        return Err(CodecConfigError::TruncatedNalData);
    }
    let end = *cursor + nal_size;
    push_start_code(output);
    append_range(output, config, *cursor, end);
    *cursor = end;
    Ok(())
}

/// Copies `count` configuration NAL units starting at `*cursor`.
fn append_config_nals(config: &[u8], cursor: &mut usize, count: usize, output: &mut Vec<u8>) -> (r: Result<(), CodecConfigError>)
    requires
        *old(cursor) <= config@.len(),
    ensures
        *final(cursor) <= config@.len(),
        match config_nals(config@, *old(cursor) as int, count as nat, old(output)@) {
            Ok((next, out)) => r is Ok && *final(cursor) == next && final(output)@ == out,
            Err(e) => r == Err::<(), CodecConfigError>(e),
        },
{
    let mut i: usize = 0;
    while i < count
        invariant
            i <= count,
            *cursor <= config@.len(),
            config_nals(config@, *old(cursor) as int, count as nat, old(output)@)
                == config_nals(config@, *cursor as int, (count - i) as nat, output@),
        decreases count - i,
    {
        let ghost before = output@;
        let ghost at = *cursor as int;
        append_config_nal(config, cursor, output)?;
        assert(config_nals(config@, at, (count - i) as nat, before)
            == config_nals(config@, *cursor as int, (count - i - 1) as nat, output@));
        i += 1;
    }
    Ok(())
}

/// Converts an `AVCDecoderConfigurationRecord` into Annex-B parameter sets and
/// reports the NAL length size of the stream's samples.
pub fn avcc_to_annex_b(config: &[u8]) -> (r: Result<(Vec<u8>, Option<usize>), CodecConfigError>)
    ensures
        match spec_avcc_to_annex_b(config@) {
            Ok((sets, n)) => r matches Ok((out, len)) && out@ == sets && len == Some(n),
            Err(e) => r == Err::<(Vec<u8>, Option<usize>), CodecConfigError>(e),
        },
{
    if config.len() < 7 || config[0] != 1 {
        return Err(CodecConfigError::InvalidAvcRecord);
    }
    let nal_length_size = (config[4] & 0x03) as usize + 1;
    let mut cursor: usize = 6;
    let mut output: Vec<u8> = Vec::new();
    let sequence_parameter_sets = (config[5] & 0x1f) as usize;
    append_config_nals(config, &mut cursor, sequence_parameter_sets, &mut output)?;
    if cursor >= config.len() {
        return Err(CodecConfigError::MissingPpsCount);
    }
    let picture_parameter_sets = config[cursor] as usize;
    cursor += 1;
    append_config_nals(config, &mut cursor, picture_parameter_sets, &mut output)?;
    if output.len() == 0 {
        return Err(CodecConfigError::AvcWithoutParameterSets);
    }
    Ok((output, Some(nal_length_size)))
}

/// Converts an `HEVCDecoderConfigurationRecord` into Annex-B parameter sets and
/// reports the NAL length size of the stream's samples.
pub fn hvcc_to_annex_b(config: &[u8]) -> (r: Result<(Vec<u8>, Option<usize>), CodecConfigError>)
    ensures
        match spec_hvcc_to_annex_b(config@) {
            Ok((sets, n)) => r matches Ok((out, len)) && out@ == sets && len == Some(n),
            Err(e) => r == Err::<(Vec<u8>, Option<usize>), CodecConfigError>(e),
        },
{
    if config.len() < 23 || config[0] != 1 {
        return Err(CodecConfigError::InvalidHevcRecord);
    }
    let nal_length_size = (config[21] & 0x03) as usize + 1;
    let array_count = config[22] as usize;
    let mut cursor: usize = 23;
    let mut output: Vec<u8> = Vec::new();
    let mut i: usize = 0;
    while i < array_count
        invariant
            i <= array_count,
            config@.len() >= 23,
            config@[0] == 1,
            array_count == config@[22] as nat,
            cursor <= config@.len(),
            hevc_arrays(config@, 23, array_count as nat, Seq::empty())
                == hevc_arrays(config@, cursor as int, (array_count - i) as nat, output@),
        decreases array_count - i,
    {
        if config.len() - cursor < 3 {
            return Err(CodecConfigError::TruncatedHevcArray);
        }
        let ghost at = cursor as int;
        let ghost before = output@;
        cursor += 1;
        let nal_count = (config[cursor] as usize) * 256 + config[cursor + 1] as usize;
        cursor += 2;
        assert(hevc_arrays(config@, at, (array_count - i) as nat, before) == match config_nals(config@, at + 3, nal_count as nat, before) {
            Err(e) => Err(e),
            Ok((next, out)) => hevc_arrays(config@, next, (array_count - i - 1) as nat, out),
        });
        append_config_nals(config, &mut cursor, nal_count, &mut output)?;
        i += 1;
    }
    if output.len() == 0 {
        return Err(CodecConfigError::HevcWithoutParameterSets);
    }
    Ok((output, Some(nal_length_size)))
}

/// Whether `data` starts with an Annex-B start code.
pub fn is_annex_b(data: &[u8]) -> (r: bool)
    ensures
        r == spec_is_annex_b(data@),
{
    (data.len() >= 3 && data[0] == 0 && data[1] == 0 && data[2] == 1)
        || (data.len() >= 4 && data[0] == 0 && data[1] == 0 && data[2] == 0 && data[3] == 1)
}

/// Converts a packet of length-prefixed NAL units into Annex-B form.
pub fn length_prefixed_packet_to_annex_b(packet: &[u8], nal_length_size: usize) -> (r: Result<Vec<u8>, PacketError>)
    ensures
        match spec_length_prefixed_packet_to_annex_b(packet@, nal_length_size as nat) {
            Ok(out) => r matches Ok(v) && v@ == out,
            Err(e) => r == Err::<Vec<u8>, PacketError>(e),
        },
{
    if !(1 <= nal_length_size && nal_length_size <= 4) {
        return Err(PacketError::InvalidNalLengthSize(nal_length_size));
    }
    let ghost n = nal_length_size as nat;
    let len = packet.len();
    let mut cursor: usize = 0;
    let mut output: Vec<u8> = Vec::new();
    assert(packet@.skip(0) =~= packet@);
    while cursor < len
        invariant
            1 <= n <= 4,
            n == nal_length_size,
            len == packet@.len(),
            cursor <= len,
            length_prefixed_units(packet@.skip(cursor as int), n) matches Ok(rest) ==> (
                length_prefixed_units(packet@, n) == Ok::<Seq<u8>, PacketError>(output@ + rest)),
            length_prefixed_units(packet@.skip(cursor as int), n) matches Err(e) ==> (
                length_prefixed_units(packet@, n) == Err::<Seq<u8>, PacketError>(e)),
        decreases len - cursor,
    {
        let ghost rest = packet@.skip(cursor as int);
        if len - cursor < nal_length_size {
            return Err(PacketError::TruncatedPacket);
        }
        let mut nal_size: usize = 0;
        let mut j: usize = 0;
        while j < nal_length_size
            invariant
                1 <= nal_length_size <= 4,
                j <= nal_length_size,
                cursor + nal_length_size <= len,
                len == packet@.len(),
                nal_size as nat == be_value(packet@.subrange(cursor as int, cursor + j)),
                nal_size < pow256(j as nat),
            decreases nal_length_size - j,
        {
            let byte = packet[cursor + j];
            proof {
                lemma_pow256_mono((j + 1) as nat, 4);
                lemma_pow256_4();
                let s = packet@.subrange(cursor as int, cursor + j + 1);
                assert(s.drop_last() =~= packet@.subrange(cursor as int, cursor + j));
                lemma_be_value_bound(s);
                assert(nal_size * 256 + byte < 256 * pow256(j as nat)) by (nonlinear_arith)
                    requires nal_size < pow256(j as nat), byte < 256;
            }
            nal_size = nal_size * 256 + byte as usize;
            j += 1;
        }
        assert(packet@.subrange(cursor as int, cursor + nal_length_size) =~= rest.take(n as int));
        cursor += nal_length_size;
        assert(rest.skip(n as int) =~= packet@.skip(cursor as int));
        if nal_size != 0 {
            if len - cursor < nal_size {
                return Err(PacketError::NalExceedsPacket { nal_size, remaining: len - cursor });
            }
            let end = cursor + nal_size;
            let ghost before = output@;
            push_start_code(&mut output);
            append_range(&mut output, packet, cursor, end);
            proof {
                let after = packet@.skip(cursor as int);
                assert(after.take(nal_size as int) =~= packet@.subrange(cursor as int, end as int));
                assert(after.skip(nal_size as int) =~= packet@.skip(end as int));
                match length_prefixed_units(packet@.skip(end as int), n) {
                    Ok(tail) => {
                        assert(before + (start_code() + after.take(nal_size as int) + tail)
                            =~= output@ + tail);
                    },
                    Err(_) => {},
                }
            }
            cursor = end;
        }
    }
    assert(packet@.skip(len as int) =~= Seq::<u8>::empty());
    assert(output@ + Seq::<u8>::empty() =~= output@);
    if output.len() == 0 && len > 0 {
        return Err(PacketError::NoNalData);
    }
    Ok(output)
}


// ---------------------------------------------------------------------------
// Codec kinds and configuration normalization
// ---------------------------------------------------------------------------

#[derive(Debug, Clone, Copy, PartialEq, Eq, Structural)]
pub enum OhosVideoCodec {
    Av1,
    Avc,
    Hevc,
}

impl OhosVideoCodec {
    /// MIME type under which AVCodec knows this codec.
    pub fn mime(self) -> (r: &'static str)
        ensures
            self is Av1 ==> r@ == "video/av1"@,
            self is Avc ==> r@ == "video/avc"@,
            self is Hevc ==> r@ == "video/hevc"@,
    {
        match self {
            OhosVideoCodec::Av1 => "video/av1",
            OhosVideoCodec::Avc => "video/avc",
            OhosVideoCodec::Hevc => "video/hevc",
        }
    }

    /// Short codec name used in diagnostics.
    pub fn as_str(self) -> (r: &'static str)
        ensures
            self is Av1 ==> r@ == "av1"@,
            self is Avc ==> r@ == "h264"@,
            self is Hevc ==> r@ == "hevc"@,
    {
        match self {
            OhosVideoCodec::Av1 => "av1",
            OhosVideoCodec::Avc => "h264",
            OhosVideoCodec::Hevc => "hevc",
        }
    }
}

/// What AVCodec receives for a codec configuration: the bytes handed to
/// `OH_MD_KEY_CODEC_CONFIG`, the NAL length size of length-prefixed samples,
/// and the Annex-B parameter sets to put in front of the first key frame.
pub open spec fn spec_normalize_codec_config(codec: OhosVideoCodec, config: Seq<u8>)
    -> Result<(Seq<u8>, Option<usize>, Seq<u8>), CodecConfigError>
{
    if config.len() == 0 {
        Ok((Seq::empty(), None, Seq::empty()))
    } else if codec is Av1 {
        match spec_av1_codec_config_obus(config) {
            Ok(obus) => Ok((obus, None, Seq::empty())),
            Err(e) => Err(CodecConfigError::Av1(e)),
        }
    } else if spec_is_annex_b(config) {
        Ok((config, None, config))
    } else {
        let parsed = if codec is Avc { spec_avcc_to_annex_b(config) } else { spec_hvcc_to_annex_b(config) };
        match parsed {
            Ok((sets, n)) => Ok((config, Some(n), sets)),
            Err(e) => Err(e),
        }
    }
}

/// Splits a container's codec configuration into what AVCodec is configured
/// with, the NAL length size of the samples, and the parameter sets.
pub fn normalize_codec_config(codec: OhosVideoCodec, codec_config: &[u8])
    -> (r: Result<(Vec<u8>, Option<usize>, Vec<u8>), CodecConfigError>)
    ensures
        match spec_normalize_codec_config(codec, codec_config@) {
            Ok((cfg, n, sets)) => r matches Ok((c, m, p)) && c@ == cfg && m == n && p@ == sets,
            Err(e) => r == Err::<(Vec<u8>, Option<usize>, Vec<u8>), CodecConfigError>(e),
        },
{
    if codec_config.len() == 0 {
        return Ok((Vec::new(), None, Vec::new()));
    }
    if codec == OhosVideoCodec::Av1 {
        return match av1_codec_config_obus(codec_config) {
            Ok(obus) => Ok((slice_to_vec(obus), None, Vec::new())),
            Err(e) => Err(CodecConfigError::Av1(e)),
        };
    }
    if is_annex_b(codec_config) {
        return Ok((slice_to_vec(codec_config), None, slice_to_vec(codec_config)));
    }
    let parsed = if codec == OhosVideoCodec::Avc {
        avcc_to_annex_b(codec_config)
    } else {
        hvcc_to_annex_b(codec_config)
    };
    match parsed {
        Ok((sets, n)) => Ok((slice_to_vec(codec_config), n, sets)),
        Err(e) => Err(e),
    }
}

/// One array of an `HEVCDecoderConfigurationRecord`: the NAL unit type
/// byte, the number of units in two big-endian bytes, then each unit after
/// its two-byte big-endian length.
pub open spec fn hevc_array_bytes(kind: u8, units: Seq<Seq<u8>>) -> Seq<u8> {
    seq![kind] + be_bytes(units.len(), 2) + length_prefixed_framing(units, 2)
}

/// Consecutive arrays of an `HEVCDecoderConfigurationRecord`.
pub open spec fn hevc_arrays_bytes(arrays: Seq<(u8, Seq<Seq<u8>>)>) -> Seq<u8>
    decreases arrays.len(),
{
    if arrays.len() == 0 {
        Seq::empty()
    } else {
        hevc_array_bytes(arrays[0].0, arrays[0].1) + hevc_arrays_bytes(arrays.drop_first())
    }
}

/// The NAL units of the arrays, array after array.
pub open spec fn hevc_units(arrays: Seq<(u8, Seq<Seq<u8>>)>) -> Seq<Seq<u8>>
    decreases arrays.len(),
{
    if arrays.len() == 0 {
        Seq::empty()
    } else {
        arrays[0].1 + hevc_units(arrays.drop_first())
    }
}

/// An `HEVCDecoderConfigurationRecord`: its 22 fixed bytes (version byte
/// first, `lengthSizeMinusOne` in the low bits of the last), the number of
/// arrays, then the arrays.
pub open spec fn hvcc_record(header: Seq<u8>, arrays: Seq<(u8, Seq<Seq<u8>>)>) -> Seq<u8> {
    header + seq![arrays.len() as u8] + hevc_arrays_bytes(arrays)
}

/// Whether every array and every unit fits its two-byte count or length.
pub open spec fn hevc_arrays_fit(arrays: Seq<(u8, Seq<Seq<u8>>)>) -> bool {
    forall|i: int| 0 <= i < arrays.len() ==> {
        &&& (#[trigger] arrays[i]).1.len() < 65536
        &&& forall|j: int| 0 <= j < arrays[i].1.len() ==> (#[trigger] arrays[i].1[j]).len() < 65536
    }
}

proof fn lemma_be_bytes2(v: nat)
    requires
        v < 65536,
    ensures
        be_bytes(v, 2).len() == 2,
        be_bytes(v, 2)[0] as int * 256 + be_bytes(v, 2)[1] as int == v,
{
    reveal_with_fuel(be_bytes, 3);
    let b = be_bytes(v, 2);
    assert(b =~= seq![((v / 256) % 256) as u8, (v % 256) as u8]);
    assert((v / 256) % 256 == v / 256);
}

proof fn lemma_annex_b_framing_add(a: Seq<Seq<u8>>, b: Seq<Seq<u8>>)
    ensures
        annex_b_framing(a + b) == annex_b_framing(a) + annex_b_framing(b),
    decreases a.len(),
{
    if a.len() == 0 {
        assert(a + b =~= b);
        assert(annex_b_framing(a) + annex_b_framing(b) =~= annex_b_framing(b));
    } else {
        lemma_annex_b_framing_add(a.drop_first(), b);
        assert((a + b).drop_first() =~= a.drop_first() + b);
        assert((a + b)[0] == a[0]);
        assert(annex_b_framing(a + b) =~= annex_b_framing(a) + annex_b_framing(b));
    }
}

/// Reading `units.len()` configuration NAL units where they stand framed
/// with two-byte lengths gives them in Annex-B form.
proof fn lemma_config_nals_of_framing(config: Seq<u8>, c: int, units: Seq<Seq<u8>>, acc: Seq<u8>)
    requires
        0 <= c,
        c + length_prefixed_framing(units, 2).len() <= config.len(),
        config.subrange(c, c + length_prefixed_framing(units, 2).len()) == length_prefixed_framing(units, 2),
        forall|j: int| 0 <= j < units.len() ==> (#[trigger] units[j]).len() < 65536,
    ensures
        config_nals(config, c, units.len(), acc)
            == Ok::<(int, Seq<u8>), CodecConfigError>((c + length_prefixed_framing(units, 2).len(), acc + annex_b_framing(units))),
    decreases units.len(),
{
    let f = length_prefixed_framing(units, 2);
    if units.len() == 0 {
        assert(acc + annex_b_framing(units) =~= acc);
    } else {
        let u = units[0];
        let rest = units.drop_first();
        assert forall|j: int| 0 <= j < rest.len() implies (#[trigger] rest[j]).len() < 65536 by {
            assert(rest[j] == units[j + 1]);
        }
        lemma_be_bytes2(u.len());
        let pre = be_bytes(u.len(), 2);
        let rf = length_prefixed_framing(rest, 2);
        assert(f == pre + u + rf);
        assert(config[c] == f[0]);
        assert(config[c + 1] == f[1]);
        assert(config[c] as int * 256 + config[c + 1] as int == u.len());
        let start = c + 2;
        assert(config.subrange(start, start + u.len()) =~= u) by {
            assert forall|k: int| 0 <= k < u.len() implies config.subrange(start, start + u.len())[k] == u[k] by {
                assert(config[start + k] == f[2 + k]);
            }
        }
        assert(config.subrange(start + u.len(), start + u.len() + rf.len()) =~= rf) by {
            assert forall|k: int| 0 <= k < rf.len()
                implies config.subrange(start + u.len(), start + u.len() + rf.len())[k] == rf[k] by {
                assert(config[start + u.len() + k] == f[2 + u.len() + k]);
            }
        }
        assert(config_nal(config, c) == Ok::<(int, Seq<u8>), CodecConfigError>((start + u.len(), start_code() + u)));
        lemma_config_nals_of_framing(config, start + u.len(), rest, acc + (start_code() + u));
        assert(acc + (start_code() + u) + annex_b_framing(rest) =~= acc + annex_b_framing(units));
    }
}

/// Reading HEVC arrays where they stand gives their units in Annex-B form.
proof fn lemma_hevc_arrays_of_bytes(config: Seq<u8>, c: int, arrays: Seq<(u8, Seq<Seq<u8>>)>, acc: Seq<u8>)
    requires
        0 <= c,
        c + hevc_arrays_bytes(arrays).len() <= config.len(),
        config.subrange(c, c + hevc_arrays_bytes(arrays).len()) == hevc_arrays_bytes(arrays),
        hevc_arrays_fit(arrays),
    ensures
        hevc_arrays(config, c, arrays.len(), acc)
            == Ok::<(int, Seq<u8>), CodecConfigError>((c + hevc_arrays_bytes(arrays).len(), acc + annex_b_framing(hevc_units(arrays)))),
    decreases arrays.len(),
{
    let all = hevc_arrays_bytes(arrays);
    if arrays.len() == 0 {
        assert(acc + annex_b_framing(hevc_units(arrays)) =~= acc);
    } else {
        let kind = arrays[0].0;
        let units = arrays[0].1;
        let rest = arrays.drop_first();
        assert(hevc_arrays_fit(rest)) by {
            assert forall|i: int| 0 <= i < rest.len() implies {
                &&& (#[trigger] rest[i]).1.len() < 65536
                &&& forall|j: int| 0 <= j < rest[i].1.len() ==> (#[trigger] rest[i].1[j]).len() < 65536
            } by {
                assert(rest[i] == arrays[i + 1]);
            }
        }
        assert(units.len() < 65536);
        assert forall|j: int| 0 <= j < units.len() implies (#[trigger] units[j]).len() < 65536 by {
            assert(arrays[0].1[j] == units[j]);
        }
        lemma_be_bytes2(units.len());
        let a = hevc_array_bytes(kind, units);
        let cnt = be_bytes(units.len(), 2);
        let f = length_prefixed_framing(units, 2);
        let rb = hevc_arrays_bytes(rest);
        assert(all == a + rb);
        assert(a == seq![kind] + cnt + f);
        assert(config[c + 1] == all[1]);
        assert(config[c + 2] == all[2]);
        assert(all[1] == cnt[0]);
        assert(all[2] == cnt[1]);
        assert(c + 1 + 2 <= config.len());
        assert(config.subrange(c + 3, c + 3 + f.len()) =~= f) by {
            assert forall|k: int| 0 <= k < f.len() implies config.subrange(c + 3, c + 3 + f.len())[k] == f[k] by {
                assert(config[c + 3 + k] == all[3 + k]);
            }
        }
        lemma_config_nals_of_framing(config, c + 3, units, acc);
        let next = c + 3 + f.len();
        assert(config.subrange(next, next + rb.len()) =~= rb) by {
            assert forall|k: int| 0 <= k < rb.len() implies config.subrange(next, next + rb.len())[k] == rb[k] by {
                assert(config[next + k] == all[a.len() + k]);
            }
        }
        lemma_hevc_arrays_of_bytes(config, next, rest, acc + annex_b_framing(units));
        lemma_annex_b_framing_add(units, hevc_units(rest));
        assert(hevc_units(arrays) == units + hevc_units(rest));
        assert(acc + annex_b_framing(units) + annex_b_framing(hevc_units(rest)) =~= acc + annex_b_framing(hevc_units(arrays)));
    }
}

/// An HEVC track's configuration record, with its arrays of VPS, SPS and
/// PPS units, configures AVCodec as it stands; the parameter sets sent in
/// front of the first key frame are the arrays' units, in order, each after
/// a start code; and the samples' NAL units are framed with
/// `lengthSizeMinusOne + 1`-byte lengths. A record without any unit is
/// refused.
pub proof fn lemma_hevc_record_normalizes_to_its_units(header: Seq<u8>, arrays: Seq<(u8, Seq<Seq<u8>>)>)
    requires
        header.len() == 22,
        header[0] == 1,
        arrays.len() < 256,
        hevc_arrays_fit(arrays),
    ensures
        hevc_units(arrays).len() > 0 ==> spec_normalize_codec_config(OhosVideoCodec::Hevc, hvcc_record(header, arrays))
            == Ok::<(Seq<u8>, Option<usize>, Seq<u8>), CodecConfigError>((
                hvcc_record(header, arrays),
                Some(((header[21] % 4) + 1) as usize),
                annex_b_framing(hevc_units(arrays)),
            )),
        hevc_units(arrays).len() == 0 ==> spec_normalize_codec_config(OhosVideoCodec::Hevc, hvcc_record(header, arrays))
            == Err::<(Seq<u8>, Option<usize>, Seq<u8>), CodecConfigError>(CodecConfigError::HevcWithoutParameterSets),
{
    let rec = hvcc_record(header, arrays);
    let body = hevc_arrays_bytes(arrays);
    assert(rec.len() == 23 + body.len());
    assert(rec[0] == 1);
    assert(!spec_is_annex_b(rec));
    assert(rec[22] == arrays.len() as u8);
    assert(rec[21] == header[21]);
    let b = header[21];
    assert(b & 3u8 == b % 4) by (bit_vector);
    assert(rec.subrange(23, 23 + body.len() as int) =~= body) by {
        assert forall|k: int| 0 <= k < body.len() implies rec.subrange(23, 23 + body.len() as int)[k] == body[k] by {
            assert(rec[23 + k] == body[k]);
        }
    }
    lemma_hevc_arrays_of_bytes(rec, 23, arrays, Seq::empty());
    assert(Seq::<u8>::empty() + annex_b_framing(hevc_units(arrays)) =~= annex_b_framing(hevc_units(arrays)));
    lemma_annex_b_framing_empty_iff(hevc_units(arrays));
}

/// An `AVCDecoderConfigurationRecord`: its five fixed bytes (version byte
/// first, `lengthSizeMinusOne` in the low bits of the last), the SPS count
/// byte, the SPS units, the PPS count, then the PPS units, each unit after
/// its two-byte big-endian length.
pub open spec fn avcc_record(header: Seq<u8>, sps_count: u8, sps: Seq<Seq<u8>>, pps: Seq<Seq<u8>>) -> Seq<u8> {
    header + seq![sps_count] + length_prefixed_framing(sps, 2) + seq![pps.len() as u8] + length_prefixed_framing(pps, 2)
}

/// An AVC track's configuration record configures AVCodec as it stands; the
/// parameter sets sent in front of the first key frame are its SPS then its
/// PPS units, each after a start code; and the samples' NAL units are
/// framed with `lengthSizeMinusOne + 1`-byte lengths. A record without any
/// unit is refused.
pub proof fn lemma_avc_record_normalizes_to_its_units(header: Seq<u8>, sps_count: u8, sps: Seq<Seq<u8>>, pps: Seq<Seq<u8>>)
    requires
        header.len() == 5,
        header[0] == 1,
        sps_count % 32 == sps.len(),
        pps.len() < 256,
        forall|j: int| 0 <= j < sps.len() ==> (#[trigger] sps[j]).len() < 65536,
        forall|j: int| 0 <= j < pps.len() ==> (#[trigger] pps[j]).len() < 65536,
    ensures
        sps.len() + pps.len() > 0 ==> spec_normalize_codec_config(OhosVideoCodec::Avc, avcc_record(header, sps_count, sps, pps))
            == Ok::<(Seq<u8>, Option<usize>, Seq<u8>), CodecConfigError>((
                avcc_record(header, sps_count, sps, pps),
                Some(((header[4] % 4) + 1) as usize),
                annex_b_framing(sps + pps),
            )),
        sps.len() + pps.len() == 0 ==> spec_normalize_codec_config(OhosVideoCodec::Avc, avcc_record(header, sps_count, sps, pps))
            == Err::<(Seq<u8>, Option<usize>, Seq<u8>), CodecConfigError>(CodecConfigError::AvcWithoutParameterSets),
{
    let rec = avcc_record(header, sps_count, sps, pps);
    let fs = length_prefixed_framing(sps, 2);
    let fp = length_prefixed_framing(pps, 2);
    assert(rec.len() == 7 + fs.len() + fp.len());
    assert(rec[0] == 1);
    assert(!spec_is_annex_b(rec));
    assert(rec[4] == header[4]);
    assert(rec[5] == sps_count);
    let b = header[4];
    assert(b & 3u8 == b % 4) by (bit_vector);
    assert(sps_count & 0x1fu8 == sps_count % 32) by (bit_vector);
    assert(rec.subrange(6, 6 + fs.len() as int) =~= fs) by {
        assert forall|k: int| 0 <= k < fs.len() implies rec.subrange(6, 6 + fs.len() as int)[k] == fs[k] by {
            assert(rec[6 + k] == fs[k]);
        }
    }
    lemma_config_nals_of_framing(rec, 6, sps, Seq::empty());
    let c1: int = 6 + fs.len() as int;
    assert(rec[c1] == pps.len() as u8);
    assert(rec.subrange(c1 + 1, c1 + 1 + fp.len() as int) =~= fp) by {
        assert forall|k: int| 0 <= k < fp.len() implies rec.subrange(c1 + 1, c1 + 1 + fp.len() as int)[k] == fp[k] by {
            assert(rec[c1 + 1 + k] == fp[k]);
        }
    }
    let acc = Seq::<u8>::empty() + annex_b_framing(sps);
    lemma_config_nals_of_framing(rec, c1 + 1, pps, acc);
    lemma_annex_b_framing_add(sps, pps);
    assert(acc + annex_b_framing(pps) =~= annex_b_framing(sps + pps));
    lemma_annex_b_framing_empty_iff(sps + pps);
}

proof fn lemma_annex_b_framing_empty_iff(units: Seq<Seq<u8>>)
    ensures
        (annex_b_framing(units).len() == 0) == (units.len() == 0),
{
    if units.len() > 0 {
        assert(annex_b_framing(units).len() >= 4);
    }
}

// ---------------------------------------------------------------------------
// Packet preparation
// ---------------------------------------------------------------------------

/// Per-decoder packet rewriting state: how samples are framed and whether
/// the parameter sets have already reached the decoder since the last flush.
#[derive(Debug, Clone)]
pub struct PacketNormalizer {
    pub nal_length_size: Option<usize>,
    pub parameter_sets: Vec<u8>,
    pub parameter_sets_sent: bool,
}

/// What a packet normalizer decides with.
pub struct PacketNormalizerView {
    pub nal_length_size: Option<usize>,
    pub parameter_sets: Seq<u8>,
    pub parameter_sets_sent: bool,
}

impl View for PacketNormalizer {
    type V = PacketNormalizerView;

    open spec fn view(&self) -> PacketNormalizerView {
        PacketNormalizerView {
            nal_length_size: self.nal_length_size,
            parameter_sets: self.parameter_sets@,
            parameter_sets_sent: self.parameter_sets_sent,
        }
    }
}

/// Whether a packet with this key-frame flag carries the parameter sets:
/// only a key frame, only while they are pending, only when there are any.
pub open spec fn includes_parameter_sets(n: PacketNormalizerView, is_key: bool) -> bool {
    is_key && !n.parameter_sets_sent && n.parameter_sets.len() > 0
}

/// The normalizer after a packet was pushed to the decoder.
pub open spec fn after_push(n: PacketNormalizerView, included_parameter_sets: bool) -> PacketNormalizerView {
    PacketNormalizerView { parameter_sets_sent: n.parameter_sets_sent || included_parameter_sets, ..n }
}

/// The normalizer after a decoder flush.
pub open spec fn after_flush(n: PacketNormalizerView) -> PacketNormalizerView {
    PacketNormalizerView { parameter_sets_sent: false, ..n }
}

/// The sample bytes in Annex-B form.
pub open spec fn spec_sample(n: PacketNormalizerView, data: Seq<u8>) -> Result<Seq<u8>, PacketError> {
    match n.nal_length_size {
        Some(size) => spec_length_prefixed_packet_to_annex_b(data, size as nat),
        None => Ok(data),
    }
}

/// A packet ready for the AVCodec input buffer.
#[derive(Debug, Clone)]
pub struct PreparedPacket {
    pub data: Vec<u8>,
    pub includes_parameter_sets: bool,
}

impl PacketNormalizer {
    /// Builds the normalizer for a stream from the container's configuration,
    /// returning also the configuration bytes handed to AVCodec.
    pub fn new(codec: OhosVideoCodec, codec_config: &[u8]) -> (r: Result<(Vec<u8>, PacketNormalizer), CodecConfigError>)
        ensures
            match spec_normalize_codec_config(codec, codec_config@) {
                Ok((cfg, n, sets)) => r matches Ok((c, p)) && c@ == cfg && p@ == (PacketNormalizerView {
                    nal_length_size: n,
                    parameter_sets: sets,
                    parameter_sets_sent: false,
                }),
                Err(e) => r is Err && r->Err_0 == e,
            },
    {
        match normalize_codec_config(codec, codec_config) {
            Ok((config, nal_length_size, parameter_sets)) => Ok((
                config,
                PacketNormalizer { nal_length_size, parameter_sets, parameter_sets_sent: false },
            )),
            Err(e) => Err(e),
        }
    }

    /// Rewrites one compressed sample for AVCodec: length-prefixed NAL units
    /// become Annex-B, and the first key frame since the last flush gets the
    /// parameter sets in front.
    pub fn prepare(&self, data: &[u8], is_key: bool) -> (r: Result<PreparedPacket, PacketError>)
        ensures
            match spec_sample(self@, data@) {
                Ok(sample) => r matches Ok(p) && p.includes_parameter_sets == includes_parameter_sets(self@, is_key)
                    && p.data@ == (if p.includes_parameter_sets { self.parameter_sets@ + sample } else { sample }),
                Err(e) => r is Err && r->Err_0 == e,
            },
    {
        let sample = match self.nal_length_size {
            Some(n) => match length_prefixed_packet_to_annex_b(data, n) {
                Ok(v) => v,
                Err(e) => return Err(e),
            },
            None => slice_to_vec(data),
        };
        let includes = is_key && !self.parameter_sets_sent && self.parameter_sets.len() > 0;
        if includes {
            let mut combined: Vec<u8> = Vec::new();
            append_range(&mut combined, self.parameter_sets.as_slice(), 0, self.parameter_sets.len());
            append_range(&mut combined, sample.as_slice(), 0, sample.len());
            Ok(PreparedPacket { data: combined, includes_parameter_sets: true })
        } else {
            Ok(PreparedPacket { data: sample, includes_parameter_sets: false })
        }
    }

    /// Records that a prepared packet was accepted by the decoder.
    pub fn mark_pushed(&mut self, packet: &PreparedPacket)
        ensures
            final(self)@ == after_push(old(self)@, packet.includes_parameter_sets),
    {
        if packet.includes_parameter_sets {
            self.parameter_sets_sent = true;
        }
    }

    /// After a decoder flush the parameter sets must be sent again.
    pub fn reset_after_flush(&mut self)
        ensures
            final(self)@ == after_flush(old(self)@),
    {
        self.parameter_sets_sent = false;
    }
}

/// Parameter sets go in front of one key frame per flush: while they are
/// pending a key frame carries them, once that frame was pushed no frame
/// carries them, and a flush puts the normalizer back as it was.
pub proof fn lemma_parameter_sets_once_per_flush(n: PacketNormalizerView)
    requires
        n.parameter_sets.len() > 0,
        !n.parameter_sets_sent,
    ensures
        includes_parameter_sets(n, true),
        forall|is_key: bool| !includes_parameter_sets(#[trigger] after_push(n, true), is_key),
        after_flush(after_push(n, true)) == n,
{
}

/// Frames that are not key frames never carry parameter sets, and a stream
/// without parameter sets never sends any.
pub proof fn lemma_parameter_sets_only_with_key_frames(n: PacketNormalizerView, is_key: bool)
    ensures
        !includes_parameter_sets(n, false),
        n.parameter_sets.len() == 0 ==> !includes_parameter_sets(n, is_key),
{
}

// ---------------------------------------------------------------------------
// Status codes and decoder construction checks
// ---------------------------------------------------------------------------

/// AVCodec's success status.
pub const AV_ERR_OK: i32 = 0;
/// NV12 pixel format identifier.
pub const AV_PIXEL_FORMAT_NV12: i32 = 2;
/// Pixel format identifier used when the decoder renders into a Surface.
pub const AV_PIXEL_FORMAT_SURFACE_FORMAT: i32 = 4;
/// Buffer flag marking end of stream.
pub const AVCODEC_BUFFER_FLAGS_EOS: u32 = 1;
/// Buffer flag marking a sync (key) frame.
pub const AVCODEC_BUFFER_FLAGS_SYNC_FRAME: u32 = 2;
/// Lower bound of the input buffer size requested from AVCodec.
pub const DEFAULT_MAX_INPUT_SIZE: usize = 4194304;
/// NativeImage status reported when no buffer is queued.
pub const NATIVE_ERROR_NO_BUFFER: i32 = 40601000;

/// A failed AVCodec call: which operation and the status it returned.
#[derive(Debug, Clone, Copy, PartialEq, Eq)]
pub struct AvCodecFailure {
    pub operation: &'static str,
    pub code: i32,
}

/// Maps an AVCodec status to success or to the failed operation.
pub fn check_avcodec(code: i32, operation: &'static str) -> (r: Result<(), AvCodecFailure>)
    ensures
        code == AV_ERR_OK <==> r is Ok,
        r matches Err(f) ==> f.operation == operation && f.code == code,
{
    if code == AV_ERR_OK {
        Ok(())
    } else {
        Err(AvCodecFailure { operation, code })
    }
}

/// The text of a failed AVCodec call.
pub open spec fn avcodec_failure_message(f: AvCodecFailure) -> Seq<char> {
    f.operation@ + " failed with OH_AVErrCode "@ + signed_decimal(f.code as int)
}

impl AvCodecFailure {
    /// The failure as text.
    pub fn message(&self) -> (r: String)
        ensures
            r@ == avcodec_failure_message(*self),
    {
        let mut m = string_of(self.operation);
        m.append(" failed with OH_AVErrCode ");
        push_signed_decimal(&mut m, self.code as i64);
        m
    }
}

/// The text reported for an error code queued by an AVCodec callback.
pub open spec fn callback_error_message(code: i32) -> Seq<char> {
    "HarmonyOS AVCodec callback error "@ + signed_decimal(code as int)
}

/// Formats an error code queued by an AVCodec callback.
pub fn callback_error_text(code: i32) -> (r: String)
    ensures
        r@ == callback_error_message(code),
{
    let mut m = string_of("HarmonyOS AVCodec callback error ");
    push_signed_decimal(&mut m, code as i64);
    m
}

/// Whether the video dimensions can be handed to AVCodec (which takes `i32`).
pub fn valid_decoder_dimensions(width: u32, height: u32) -> (r: bool)
    ensures
        r == (0 < width <= i32::MAX && 0 < height <= i32::MAX),
{
    !(width == 0 || height == 0 || width > 0x7fff_ffff || height > 0x7fff_ffff)
}

/// The input buffer size requested from AVCodec: the frame's pixel count, at
/// least `DEFAULT_MAX_INPUT_SIZE`, at most `i32::MAX`.
pub open spec fn spec_max_input_size(width: u32, height: u32) -> int {
    let pixels = width as int * height as int;
    let floor = if pixels < DEFAULT_MAX_INPUT_SIZE { DEFAULT_MAX_INPUT_SIZE as int } else { pixels };
    if floor > i32::MAX { i32::MAX as int } else { floor }
}

/// Computes the `OH_MD_KEY_MAX_INPUT_SIZE` value for a stream.
pub fn max_input_size(width: u32, height: u32) -> (r: i32)
    ensures
        r == spec_max_input_size(width, height),
{
    proof { lemma_mul_u32_fits_u64(width, height); }
    let pixels: u64 = (width as u64) * (height as u64);
    let floor: u64 = if pixels < DEFAULT_MAX_INPUT_SIZE as u64 { DEFAULT_MAX_INPUT_SIZE as u64 } else { pixels };
    if floor > 0x7fff_ffff { 0x7fff_ffff } else { floor as i32 }
}

/// The initialization stage that a decoder setup failure message names.
pub open spec fn spec_initialization_failure_stage(reason: Seq<char>) -> Seq<char> {
    if spec_contains(reason, "RegisterCallback"@) {
        "register_callback"@
    } else if spec_contains(reason, "CreateVideoFormat"@) {
        "create_format"@
    } else if spec_contains(reason, "SetIntValue"@) || spec_contains(reason, "SetBuffer"@) {
        "set_format"@
    } else if spec_contains(reason, "_Configure"@) {
        "configure"@
    } else if spec_contains(reason, "SetSurface"@) {
        "set_surface"@
    } else if spec_contains(reason, "_Prepare"@) {
        "prepare"@
    } else if spec_contains(reason, "_Start"@) {
        "start"@
    } else {
        "initialize"@
    }
}

/// Classifies a decoder setup failure message by the AVCodec call it names.
pub fn avcodec_initialization_failure_stage(reason: &str) -> (r: &'static str)
    ensures
        r@ == spec_initialization_failure_stage(reason@),
{
    if str_contains(reason, "RegisterCallback") {
        "register_callback"
    } else if str_contains(reason, "CreateVideoFormat") {
        "create_format"
    } else if str_contains(reason, "SetIntValue") || str_contains(reason, "SetBuffer") {
        "set_format"
    } else if str_contains(reason, "_Configure") {
        "configure"
    } else if str_contains(reason, "SetSurface") {
        "set_surface"
    } else if str_contains(reason, "_Prepare") {
        "prepare"
    } else if str_contains(reason, "_Start") {
        "start"
    } else {
        "initialize"
    }
}

// ---------------------------------------------------------------------------
// Decoder output layout
// ---------------------------------------------------------------------------

/// Geometry of the frames the decoder writes into its output buffers.
#[derive(Debug, Clone, Copy, PartialEq, Eq, Structural)]
pub struct OutputLayout {
    pub width: u32,
    pub height: u32,
    pub stride: usize,
    pub slice_height: usize,
    pub pixel_format: i32,
}

impl OutputLayout {
    /// The tightly packed NV12 layout of a `width`×`height` frame.
    pub open spec fn spec_new(width: u32, height: u32) -> OutputLayout {
        OutputLayout {
            width,
            height,
            stride: width as usize,
            slice_height: height as usize,
            pixel_format: AV_PIXEL_FORMAT_NV12,
        }
    }

    /// Tightly packed NV12 layout for the configured size.
    pub fn new(width: u32, height: u32) -> (r: OutputLayout)
        ensures
            r == OutputLayout::spec_new(width, height),
    {
        OutputLayout {
            width,
            height,
            stride: width as usize,
            slice_height: height as usize,
            pixel_format: AV_PIXEL_FORMAT_NV12,
        }
    }

    /// The layout after a stream-change callback that reported the given
    /// format keys (each `None` when the key was absent).
    pub open spec fn spec_after_stream_change(
        self,
        width: Option<i32>,
        height: Option<i32>,
        stride: Option<i32>,
        slice_height: Option<i32>,
        pixel_format: Option<i32>,
    ) -> OutputLayout {
        let w = match width { Some(v) => if v > 0 { v as u32 } else { self.width }, None => self.width };
        let h = match height { Some(v) => if v > 0 { v as u32 } else { self.height }, None => self.height };
        OutputLayout {
            width: w,
            height: h,
            stride: match stride { Some(v) => if v > 0 { v as usize } else { w as usize }, None => w as usize },
            slice_height: match slice_height { Some(v) => if v > 0 { v as usize } else { h as usize }, None => h as usize },
            pixel_format: match pixel_format { Some(v) => v, None => self.pixel_format },
        }
    }

    /// After a stream change, a stride or slice height that was not reported
    /// (or not positive) is the new width or height: the frame is taken as
    /// tightly packed at its new size. Reported positive values are kept as
    /// they are, and a size that was not reported stays.
    pub proof fn lemma_stream_change_packs_new_size(
        self,
        width: Option<i32>,
        height: Option<i32>,
        stride: Option<i32>,
        slice_height: Option<i32>,
        pixel_format: Option<i32>,
    )
        ensures
            ({
                let l = self.spec_after_stream_change(width, height, stride, slice_height, pixel_format);
                &&& !(stride matches Some(v) && v > 0) ==> l.stride == l.width
                &&& !(slice_height matches Some(v) && v > 0) ==> l.slice_height == l.height
                &&& (stride matches Some(v) && v > 0) ==> l.stride == stride->0
                &&& (slice_height matches Some(v) && v > 0) ==> l.slice_height == slice_height->0
                &&& (width matches Some(v) && v > 0) ==> l.width == width->0
                &&& !(width matches Some(v) && v > 0) ==> l.width == self.width
                &&& (height matches Some(v) && v > 0) ==> l.height == height->0
                &&& !(height matches Some(v) && v > 0) ==> l.height == self.height
            }),
    {
    }

    /// Applies a stream-change callback: positive sizes replace the current
    /// ones, a missing or non-positive stride/slice height falls back to the
    /// (new) width/height, and a reported pixel format replaces the old one.
    pub fn apply_stream_change(
        &mut self,
        width: Option<i32>,
        height: Option<i32>,
        stride: Option<i32>,
        slice_height: Option<i32>,
        pixel_format: Option<i32>,
    )
        ensures
            *final(self) == old(self).spec_after_stream_change(width, height, stride, slice_height, pixel_format),
    {
        if let Some(v) = width {
            if v > 0 {
                self.width = v as u32;
            }
        }
        if let Some(v) = height {
            if v > 0 {
                self.height = v as u32;
            }
        }
        self.stride = match stride {
            Some(v) => if v > 0 { v as usize } else { self.width as usize },
            None => self.width as usize,
        };
        self.slice_height = match slice_height {
            Some(v) => if v > 0 { v as usize } else { self.height as usize },
            None => self.height as usize,
        };
        if let Some(v) = pixel_format {
            self.pixel_format = v;
        }
    }
}

/// Why a decoded output buffer cannot be read as NV12.
#[derive(Debug, Clone, Copy, PartialEq, Eq, Structural)]
pub enum Nv12LayoutError {
    UnsupportedPixelFormat(i32),
    InvalidLayout(OutputLayout),
    CapacityUnavailable,
    LumaStorageOverflow,
    VisibleLumaOverflow,
    ChromaOverflow,
    LayoutSizeOverflow,
    InsufficientCapacity { required: usize, capacity: i32 },
}

/// A layout as its derived `Debug` form prints it.
pub open spec fn output_layout_text(layout: OutputLayout) -> Seq<char> {
    "OutputLayout { width: "@ + decimal(layout.width as nat) + ", height: "@ + decimal(layout.height as nat)
        + ", stride: "@ + decimal(layout.stride as nat) + ", slice_height: "@ + decimal(layout.slice_height as nat)
        + ", pixel_format: "@ + signed_decimal(layout.pixel_format as int) + " }"@
}

/// The text of an NV12 layout error.
pub open spec fn nv12_layout_error_message(e: Nv12LayoutError) -> Seq<char> {
    match e {
        Nv12LayoutError::UnsupportedPixelFormat(f) => "AVCodec returned unsupported pixel format "@
            + signed_decimal(f as int) + " instead of NV12"@,
        Nv12LayoutError::InvalidLayout(layout) => "invalid AVCodec output layout "@ + output_layout_text(layout),
        Nv12LayoutError::CapacityUnavailable => "OH_AVBuffer output capacity is unavailable"@,
        Nv12LayoutError::LumaStorageOverflow => "AVCodec luma layout size overflowed"@,
        Nv12LayoutError::VisibleLumaOverflow => "AVCodec visible luma size overflowed"@,
        Nv12LayoutError::ChromaOverflow => "AVCodec chroma layout size overflowed"@,
        Nv12LayoutError::LayoutSizeOverflow => "AVCodec output layout size overflowed"@,
        Nv12LayoutError::InsufficientCapacity { required, capacity } => "AVCodec output layout needs "@
            + decimal(required as nat) + " bytes but capacity is "@ + signed_decimal(capacity as int),
    }
}

fn push_output_layout(m: &mut String, layout: OutputLayout)
    ensures
        final(m)@ == old(m)@ + output_layout_text(layout),
{
    m.append("OutputLayout { width: ");
    push_decimal(m, layout.width as u64);
    m.append(", height: ");
    push_decimal(m, layout.height as u64);
    m.append(", stride: ");
    push_decimal(m, layout.stride as u64);
    m.append(", slice_height: ");
    push_decimal(m, layout.slice_height as u64);
    m.append(", pixel_format: ");
    push_signed_decimal(m, layout.pixel_format as i64);
    m.append(" }");
    assert(m@ =~= old(m)@ + output_layout_text(layout));
}

impl Nv12LayoutError {
    /// The error as text.
    pub fn message(&self) -> (r: String)
        ensures
            r@ == nv12_layout_error_message(*self),
    {
        match self {
            Nv12LayoutError::UnsupportedPixelFormat(f) => {
                let mut m = string_of("AVCodec returned unsupported pixel format ");
                push_signed_decimal(&mut m, *f as i64);
                m.append(" instead of NV12");
                m
            },
            Nv12LayoutError::InvalidLayout(layout) => {
                let mut m = string_of("invalid AVCodec output layout ");
                push_output_layout(&mut m, *layout);
                m
            },
            Nv12LayoutError::CapacityUnavailable => string_of("OH_AVBuffer output capacity is unavailable"),
            Nv12LayoutError::LumaStorageOverflow => string_of("AVCodec luma layout size overflowed"),
            Nv12LayoutError::VisibleLumaOverflow => string_of("AVCodec visible luma size overflowed"),
            Nv12LayoutError::ChromaOverflow => string_of("AVCodec chroma layout size overflowed"),
            Nv12LayoutError::LayoutSizeOverflow => string_of("AVCodec output layout size overflowed"),
            Nv12LayoutError::InsufficientCapacity { required, capacity } => {
                let mut m = string_of("AVCodec output layout needs ");
                push_decimal(&mut m, *required as u64);
                m.append(" bytes but capacity is ");
                push_signed_decimal(&mut m, *capacity as i64);
                m
            },
        }
    }
}

/// Where the visible luma and the chroma planes of an NV12 frame lie inside
/// an output buffer.
#[derive(Debug, Clone, Copy, PartialEq, Eq, Structural)]
pub struct Nv12Region {
    pub luma_offset: usize,
    pub luma_len: usize,
    pub chroma_offset: usize,
    pub chroma_len: usize,
    pub stride: usize,
    pub width: u32,
    pub height: u32,
}

/// The NV12 planes of a buffer of `capacity` bytes whose frame starts at
/// `offset` (negative offsets count as zero).
pub open spec fn spec_nv12_region(layout: OutputLayout, capacity: i32, offset: i32) -> Result<Nv12Region, Nv12LayoutError> {
    let width = layout.width as int;
    let height = layout.height as int;
    let chroma_width = (width + 1) / 2 * 2;
    let chroma_rows = (height + 1) / 2;
    let start: int = if offset > 0 { offset as int } else { 0 };
    let luma_storage = layout.stride as int * layout.slice_height as int;
    let visible_luma = layout.stride as int * height;
    let chroma = layout.stride as int * chroma_rows;
    if layout.pixel_format != AV_PIXEL_FORMAT_NV12 {
        Err(Nv12LayoutError::UnsupportedPixelFormat(layout.pixel_format))
    } else if width == 0 || height == 0 || layout.stride < width || layout.stride < chroma_width
        || layout.slice_height < height {
        Err(Nv12LayoutError::InvalidLayout(layout))
    } else if capacity < 0 {
        Err(Nv12LayoutError::CapacityUnavailable)
    } else if luma_storage > usize::MAX {
        Err(Nv12LayoutError::LumaStorageOverflow)
    } else if visible_luma > usize::MAX {
        Err(Nv12LayoutError::VisibleLumaOverflow)
    } else if chroma > usize::MAX {
        Err(Nv12LayoutError::ChromaOverflow)
    } else if start + luma_storage + chroma > usize::MAX {
        Err(Nv12LayoutError::LayoutSizeOverflow)
    } else if start + luma_storage + chroma > capacity {
        Err(Nv12LayoutError::InsufficientCapacity {
            required: (start + luma_storage + chroma) as usize,
            capacity,
        })
    } else {
        Ok(Nv12Region {
            luma_offset: start as usize,
            luma_len: visible_luma as usize,
            chroma_offset: (start + luma_storage) as usize,
            chroma_len: chroma as usize,
            stride: layout.stride,
            width: layout.width,
            height: layout.height,
        })
    }
}

/// Locates the NV12 planes of a decoded frame inside its output buffer,
/// rejecting layouts that do not fit the buffer.
pub fn nv12_region(layout: OutputLayout, capacity: i32, offset: i32) -> (r: Result<Nv12Region, Nv12LayoutError>)
    ensures
        r == spec_nv12_region(layout, capacity, offset),
{
    if layout.pixel_format != AV_PIXEL_FORMAT_NV12 {
        return Err(Nv12LayoutError::UnsupportedPixelFormat(layout.pixel_format));
    }
    let width = layout.width as u64;
    let height = layout.height as u64;
    let chroma_width: u64 = (width + 1) / 2 * 2;
    let chroma_rows: u64 = (height + 1) / 2;
    if width == 0 || height == 0 || (layout.stride as u64) < width || (layout.stride as u64) < chroma_width
        || (layout.slice_height as u64) < height {
        return Err(Nv12LayoutError::InvalidLayout(layout));
    }
    if capacity < 0 {
        return Err(Nv12LayoutError::CapacityUnavailable);
    }
    let start: usize = if offset > 0 { offset as usize } else { 0 };
    let luma_storage = match layout.stride.checked_mul(layout.slice_height) {
        Some(v) => v,
        None => return Err(Nv12LayoutError::LumaStorageOverflow),
    };
    let visible_luma = match layout.stride.checked_mul(layout.height as usize) {
        Some(v) => v,
        None => return Err(Nv12LayoutError::VisibleLumaOverflow),
    };
    if chroma_rows > usize::MAX as u64 {
        proof {
            assert(layout.stride as int * chroma_rows as int >= chroma_rows as int) by (nonlinear_arith)
                requires layout.stride >= 1, chroma_rows >= 0;
        }
        return Err(Nv12LayoutError::ChromaOverflow);
    }
    let chroma = match layout.stride.checked_mul(chroma_rows as usize) {
        Some(v) => v,
        None => return Err(Nv12LayoutError::ChromaOverflow),
    };
    let planes = match luma_storage.checked_add(chroma) {
        Some(v) => v,
        None => return Err(Nv12LayoutError::LayoutSizeOverflow),
    };
    let required = match start.checked_add(planes) {
        Some(v) => v,
        None => return Err(Nv12LayoutError::LayoutSizeOverflow),
    };
    if required > capacity as usize {
        return Err(Nv12LayoutError::InsufficientCapacity { required, capacity });
    }
    Ok(Nv12Region {
        luma_offset: start,
        luma_len: visible_luma,
        chroma_offset: start + luma_storage,
        chroma_len: chroma,
        stride: layout.stride,
        width: layout.width,
        height: layout.height,
    })
}


// ---------------------------------------------------------------------------
// Callback bookkeeping
// ---------------------------------------------------------------------------

/// An input buffer AVCodec handed out: its index and buffer handle.
#[derive(Debug, Clone, Copy, PartialEq, Eq, Structural)]
pub struct InputBuffer {
    pub index: u32,
    pub buffer: usize,
}

/// `OH_AVCodecBufferAttr`: timing, payload size, offset and flags of a buffer.
#[derive(Debug, Clone, Copy, Default, PartialEq, Eq, Structural)]
pub struct BufferAttr {
    pub pts: i64,
    pub size: i32,
    pub offset: i32,
    pub flags: u32,
}

/// An output buffer AVCodec filled: its index, buffer handle and attributes.
#[derive(Debug, Clone, Copy, PartialEq, Eq, Structural)]
pub struct OutputBuffer {
    pub index: u32,
    pub buffer: usize,
    pub attr: BufferAttr,
}

/// What the AVCodec callbacks reported and the decoder has not consumed yet:
/// free input buffers, filled output buffers and error codes, each in
/// arrival order, plus the current output layout.
#[derive(Debug)]
pub struct CallbackState {
    pub inputs: VecDeque<InputBuffer>,
    pub outputs: VecDeque<OutputBuffer>,
    pub layout: OutputLayout,
    pub errors: VecDeque<i32>,
}

impl CallbackState {
    /// Nothing reported yet; the layout is the configured NV12 size.
    pub fn new(width: u32, height: u32) -> (r: CallbackState)
        ensures
            r.inputs@.len() == 0,
            r.outputs@.len() == 0,
            r.errors@.len() == 0,
            r.layout == OutputLayout::spec_new(width, height),
    {
        CallbackState {
            inputs: VecDeque::new(),
            outputs: VecDeque::new(),
            layout: OutputLayout::new(width, height),
            errors: VecDeque::new(),
        }
    }

    /// `OnError`: queues the error code.
    pub fn on_error(&mut self, code: i32)
        ensures
            final(self).errors@ == old(self).errors@.push(code),
            final(self).inputs@ == old(self).inputs@,
            final(self).outputs@ == old(self).outputs@,
            final(self).layout == old(self).layout,
    {
        self.errors.push_back(code);
    }

    /// `OnNeedInputBuffer`: queues the free input buffer; a null buffer
    /// (handle 0) is queued as error -1 instead.
    pub fn on_need_input_buffer(&mut self, index: u32, buffer: usize)
        ensures
            buffer == 0 ==> final(self).errors@ == old(self).errors@.push(-1i32) && final(self).inputs@ == old(self).inputs@,
            buffer != 0 ==> final(self).inputs@ == old(self).inputs@.push(InputBuffer { index, buffer })
                && final(self).errors@ == old(self).errors@,
            final(self).outputs@ == old(self).outputs@,
            final(self).layout == old(self).layout,
    {
        if buffer == 0 {
            self.errors.push_back(-1);
        } else {
            self.inputs.push_back(InputBuffer { index, buffer });
        }
    }

    /// `OnNewOutputBuffer`: queues the filled output buffer with the
    /// attributes read from it (`attr_status` is the status of that read); a
    /// null buffer is queued as error -2 and a failed read as its status.
    pub fn on_new_output_buffer(&mut self, index: u32, buffer: usize, attr_status: i32, attr: BufferAttr)
        ensures
            buffer == 0 ==> final(self).errors@ == old(self).errors@.push(-2i32) && final(self).outputs@ == old(self).outputs@,
            buffer != 0 && attr_status != AV_ERR_OK ==> final(self).errors@ == old(self).errors@.push(attr_status)
                && final(self).outputs@ == old(self).outputs@,
            buffer != 0 && attr_status == AV_ERR_OK ==> final(self).outputs@ == old(self).outputs@.push(
                OutputBuffer { index, buffer, attr }) && final(self).errors@ == old(self).errors@,
            final(self).inputs@ == old(self).inputs@,
            final(self).layout == old(self).layout,
    {
        if buffer == 0 {
            self.errors.push_back(-2);
        } else if attr_status != AV_ERR_OK {
            self.errors.push_back(attr_status);
        } else {
            self.outputs.push_back(OutputBuffer { index, buffer, attr });
        }
    }

    /// `OnStreamChanged`: applies the reported format keys to the layout.
    pub fn on_stream_changed(
        &mut self,
        width: Option<i32>,
        height: Option<i32>,
        stride: Option<i32>,
        slice_height: Option<i32>,
        pixel_format: Option<i32>,
    )
        ensures
            final(self).layout == old(self).layout.spec_after_stream_change(width, height, stride, slice_height, pixel_format),
            final(self).inputs@ == old(self).inputs@,
            final(self).outputs@ == old(self).outputs@,
            final(self).errors@ == old(self).errors@,
    {
        self.layout.apply_stream_change(width, height, stride, slice_height, pixel_format);
    }

    /// Takes the oldest queued callback error, if any.
    pub fn check_callback_error(&mut self) -> (r: Result<(), i32>)
        ensures
            old(self).errors@.len() == 0 ==> r is Ok && final(self).errors@ == old(self).errors@,
            old(self).errors@.len() > 0 ==> r == Err::<(), i32>(old(self).errors@[0])
                && final(self).errors@ == old(self).errors@.drop_first(),
            final(self).inputs@ == old(self).inputs@,
            final(self).outputs@ == old(self).outputs@,
            final(self).layout == old(self).layout,
    {
        match self.errors.pop_front() {
            Some(code) => Err(code),
            None => Ok(()),
        }
    }

    /// Takes the oldest free input buffer, if any.
    pub fn take_input(&mut self) -> (r: Option<InputBuffer>)
        ensures
            old(self).inputs@.len() == 0 ==> r is None && final(self).inputs@ == old(self).inputs@,
            old(self).inputs@.len() > 0 ==> r == Some(old(self).inputs@[0])
                && final(self).inputs@ == old(self).inputs@.drop_first(),
            final(self).outputs@ == old(self).outputs@,
            final(self).errors@ == old(self).errors@,
            final(self).layout == old(self).layout,
    {
        self.inputs.pop_front()
    }

    /// Puts back an input buffer that could not be filled, so it is the
    /// next one taken.
    pub fn return_input(&mut self, input: InputBuffer)
        ensures
            final(self).inputs@ == seq![input] + old(self).inputs@,
            final(self).outputs@ == old(self).outputs@,
            final(self).errors@ == old(self).errors@,
            final(self).layout == old(self).layout,
    {
        self.inputs.push_front(input);
    }

    /// Takes the oldest filled output buffer with the current layout.
    pub fn take_output(&mut self) -> (r: Option<(OutputBuffer, OutputLayout)>)
        ensures
            old(self).outputs@.len() == 0 ==> r is None && final(self).outputs@ == old(self).outputs@,
            old(self).outputs@.len() > 0 ==> r == Some((old(self).outputs@[0], old(self).layout))
                && final(self).outputs@ == old(self).outputs@.drop_first(),
            final(self).inputs@ == old(self).inputs@,
            final(self).errors@ == old(self).errors@,
            final(self).layout == old(self).layout,
    {
        match self.outputs.pop_front() {
            Some(output) => Some((output, self.layout)),
            None => None,
        }
    }

    /// After a flush every queued buffer and error is stale.
    pub fn clear_after_flush(&mut self)
        ensures
            final(self).inputs@.len() == 0,
            final(self).outputs@.len() == 0,
            final(self).errors@.len() == 0,
            final(self).layout == old(self).layout,
    {
        self.inputs.clear();
        self.outputs.clear();
        self.errors.clear();
    }
}

/// An input buffer put back after a failed fill is handed out again before
/// any other: taking it and returning it leaves the queue as it was.
pub proof fn lemma_returned_input_is_taken_next(inputs: Seq<InputBuffer>)
    requires
        inputs.len() > 0,
    ensures
        seq![inputs[0]] + inputs.drop_first() == inputs,
{
    assert(seq![inputs[0]] + inputs.drop_first() =~= inputs);
}

// ---------------------------------------------------------------------------
// Decoder outputs
// ---------------------------------------------------------------------------

/// Buffer description reported by a NativeBuffer.
#[derive(Debug, Clone, Copy, Default, PartialEq, Eq, Structural)]
pub struct OhosNativeBufferConfig {
    pub width: i32,
    pub height: i32,
    pub format: i32,
    pub usage: i32,
    pub stride: i32,
}

impl OhosNativeBufferConfig {
    /// A NativeBuffer can be imported only when it has a positive size.
    pub fn has_valid_extent(&self) -> (r: bool)
        ensures
            r == (self.width > 0 && self.height > 0),
    {
        self.width > 0 && self.height > 0
    }
}

/// One step of pulling decoded output.
pub enum OhosDecoderOutput<T> {
    NeedMoreInput,
    Frame(T),
    EndOfStream,
}

/// Whether an output buffer only signals end of stream.
pub fn is_end_of_stream_buffer(flags: u32, size: i32) -> (r: bool)
    ensures
        r == (flags & AVCODEC_BUFFER_FLAGS_EOS != 0 && size <= 0),
{
    flags & AVCODEC_BUFFER_FLAGS_EOS != 0 && size <= 0
}

/// Buffer flags for an input packet.
pub fn input_buffer_flags(is_key: bool) -> (r: u32)
    ensures
        r == (if is_key { AVCODEC_BUFFER_FLAGS_SYNC_FRAME } else { 0u32 }),
{
    if is_key { AVCODEC_BUFFER_FLAGS_SYNC_FRAME } else { 0 }
}

/// Why a packet cannot be copied into an AVCodec input buffer.
#[derive(Debug, Clone, Copy, PartialEq, Eq, Structural)]
pub enum InputBufferError {
    /// The buffer reported no capacity or no address.
    StorageUnavailable,
    /// The packet does not fit the buffer, or its size does not fit `i32`.
    PacketTooLarge { len: usize, capacity: i32 },
}

/// The text of an input buffer error.
pub open spec fn input_buffer_error_message(e: InputBufferError) -> Seq<char> {
    match e {
        InputBufferError::StorageUnavailable => "OH_AVBuffer input storage is unavailable"@,
        InputBufferError::PacketTooLarge { len, capacity } => "compressed packet is "@ + decimal(len as nat)
            + " bytes but AVCodec input capacity is "@ + signed_decimal(capacity as int) + " bytes"@,
    }
}

impl InputBufferError {
    /// The error as text.
    pub fn message(&self) -> (r: String)
        ensures
            r@ == input_buffer_error_message(*self),
    {
        match self {
            InputBufferError::StorageUnavailable => string_of("OH_AVBuffer input storage is unavailable"),
            InputBufferError::PacketTooLarge { len, capacity } => {
                let mut m = string_of("compressed packet is ");
                push_decimal(&mut m, *len as u64);
                m.append(" bytes but AVCodec input capacity is ");
                push_signed_decimal(&mut m, *capacity as i64);
                m.append(" bytes");
                m
            },
        }
    }
}

/// Checks that a packet of `len` bytes can be copied into an input buffer
/// of `capacity` bytes (`address_available` tells whether the buffer has an
/// address) and described by an `i32` size.
pub fn check_input_buffer(len: usize, capacity: i32, address_available: bool) -> (r: Result<(), InputBufferError>)
    ensures
        (capacity < 0 || !address_available) ==> r == Err::<(), InputBufferError>(InputBufferError::StorageUnavailable),
        (capacity >= 0 && address_available && (len > capacity || len > i32::MAX)) ==> r == Err::<(), InputBufferError>(
            InputBufferError::PacketTooLarge { len, capacity }),
        (capacity >= 0 && address_available && len <= capacity && len <= i32::MAX) ==> r is Ok,
{
    if capacity < 0 || !address_available {
        return Err(InputBufferError::StorageUnavailable);
    }
    if len > capacity as usize || len > 0x7fff_ffff {
        return Err(InputBufferError::PacketTooLarge { len, capacity });
    }
    Ok(())
}

/// A borrowed view of the visible NV12 planes of a decoded frame.
#[derive(Debug, Clone, Copy)]
pub struct DecodedNv12FrameView<'a> {
    pub luma: &'a [u8],
    pub chroma: &'a [u8],
    pub luma_stride: usize,
    pub chroma_stride: usize,
    pub width: u32,
    pub height: u32,
    pub pts_micros: i64,
}

/// Cuts the NV12 planes described by `region` out of an output buffer.
pub fn nv12_view<'a>(buffer: &'a [u8], region: Nv12Region, pts_micros: i64) -> (r: DecodedNv12FrameView<'a>)
    requires
        region.luma_offset + region.luma_len <= buffer@.len(),
        region.chroma_offset + region.chroma_len <= buffer@.len(),
    ensures
        r.luma@ == buffer@.subrange(region.luma_offset as int, region.luma_offset + region.luma_len),
        r.chroma@ == buffer@.subrange(region.chroma_offset as int, region.chroma_offset + region.chroma_len),
        r.luma_stride == region.stride,
        r.chroma_stride == region.stride,
        r.width == region.width,
        r.height == region.height,
        r.pts_micros == pts_micros,
{
    let _len = buffer.len();
    DecodedNv12FrameView {
        luma: vstd::slice::slice_subrange(buffer, region.luma_offset, region.luma_offset + region.luma_len),
        chroma: vstd::slice::slice_subrange(buffer, region.chroma_offset, region.chroma_offset + region.chroma_len),
        luma_stride: region.stride,
        chroma_stride: region.stride,
        width: region.width,
        height: region.height,
        pts_micros,
    }
}

// ---------------------------------------------------------------------------
// Surface frame bookkeeping
// ---------------------------------------------------------------------------

/// How decoded Surface frames reach the renderer.
#[derive(Debug, Clone, Copy, PartialEq, Eq, Structural)]
pub enum OhosAvCodecSurfaceMode {
    ExternalTexture,
    NativeBuffer,
}

/// Frames announced by the consumer Surface and not yet taken, plus the
/// external-texture frames that were dropped without being latched.
#[derive(Debug, Clone, Copy, PartialEq, Eq, Structural)]
pub struct SurfaceFrameQueue {
    pub pending: usize,
    pub shutting_down: bool,
    pub discarded_external_frames: usize,
}

/// The next step of waiting for a decoded Surface frame.
#[derive(Debug, Clone, Copy, PartialEq, Eq, Structural)]
pub enum AcquireStep {
    Acquired,
    Wait,
    TimedOut,
    ShuttingDown,
}

/// The queue after the Surface announced one more frame (saturating).
pub open spec fn after_frame_available(q: SurfaceFrameQueue) -> SurfaceFrameQueue {
    SurfaceFrameQueue {
        pending: if q.pending == usize::MAX { usize::MAX } else { (q.pending + 1) as usize },
        ..q
    }
}

/// The step an acquire takes on `q` and the queue after it.
pub open spec fn spec_poll_acquire(q: SurfaceFrameQueue, deadline_passed: bool) -> (AcquireStep, SurfaceFrameQueue) {
    if q.pending == 0 && !q.shutting_down {
        (if deadline_passed { AcquireStep::TimedOut } else { AcquireStep::Wait }, q)
    } else if q.shutting_down {
        (AcquireStep::ShuttingDown, q)
    } else {
        (AcquireStep::Acquired, SurfaceFrameQueue { pending: (q.pending - 1) as usize, ..q })
    }
}

/// The queue after `count` discarded frames were added to the count
/// (wrapping, as an atomic add does).
pub open spec fn after_requeue(q: SurfaceFrameQueue, count: usize) -> SurfaceFrameQueue {
    SurfaceFrameQueue {
        discarded_external_frames: if q.discarded_external_frames + count > usize::MAX {
            (q.discarded_external_frames + count - usize::MAX - 1) as usize
        } else {
            (q.discarded_external_frames + count) as usize
        },
        ..q
    }
}

/// `a + b` wrapping at `usize::MAX`.
fn add_wrapping(a: usize, b: usize) -> (r: usize)
    ensures
        r == (if a + b > usize::MAX { a + b - usize::MAX - 1 } else { a + b }),
{
    if a > usize::MAX - b {
        a - (usize::MAX - b) - 1
    } else {
        a + b
    }
}

impl SurfaceFrameQueue {
    /// An idle queue for a freshly created Surface.
    pub fn new() -> (r: SurfaceFrameQueue)
        ensures
            r == (SurfaceFrameQueue { pending: 0, shutting_down: false, discarded_external_frames: 0 }),
    {
        SurfaceFrameQueue { pending: 0, shutting_down: false, discarded_external_frames: 0 }
    }

    /// The Surface announced one more frame.
    pub fn frame_available(&mut self)
        ensures
            *final(self) == after_frame_available(*old(self)),
    {
        self.pending = self.pending.saturating_add(1);
    }

    /// Decides the next step of an acquire: take a pending frame, wait for
    /// one, give up at the deadline, or refuse while shutting down.
    pub fn poll_acquire(&mut self, deadline_passed: bool) -> (r: AcquireStep)
        ensures
            (r, *final(self)) == spec_poll_acquire(*old(self), deadline_passed),
    {
        if self.pending == 0 && !self.shutting_down {
            if deadline_passed { AcquireStep::TimedOut } else { AcquireStep::Wait }
        } else if self.shutting_down {
            AcquireStep::ShuttingDown
        } else {
            self.pending = self.pending - 1;
            AcquireStep::Acquired
        }
    }

    /// Whether a timed-out wait ends the acquire: only when no frame arrived.
    pub fn wait_expired(&self, timed_out: bool) -> (r: bool)
        ensures
            r == (timed_out && self.pending == 0),
    {
        timed_out && self.pending == 0
    }

    /// Forgets the frames announced before a decoder flush.
    pub fn reset_pending_callbacks_after_flush(&mut self)
        ensures
            *final(self) == (SurfaceFrameQueue { pending: 0, ..*old(self) }),
    {
        self.pending = 0;
    }

    /// Clears all frame accounting before a decoder is attached.
    pub fn prepare_for_decoder_attachment(&mut self)
        ensures
            *final(self) == (SurfaceFrameQueue { pending: 0, discarded_external_frames: 0, ..*old(self) }),
    {
        self.reset_pending_callbacks_after_flush();
        self.discarded_external_frames = 0;
    }

    /// Records an external-texture frame that was released before latching.
    pub fn mark_external_frame_discarded(&mut self)
        ensures
            *final(self) == after_requeue(*old(self), 1),
    {
        self.discarded_external_frames = add_wrapping(self.discarded_external_frames, 1);
    }

    /// Takes the number of discarded frames still to be drained.
    pub fn take_discarded_external_frames(&mut self) -> (r: usize)
        ensures
            r == old(self).discarded_external_frames,
            *final(self) == (SurfaceFrameQueue { discarded_external_frames: 0, ..*old(self) }),
    {
        let taken = self.discarded_external_frames;
        self.discarded_external_frames = 0;
        taken
    }

    /// Puts back discarded frames that could not be drained yet.
    pub fn requeue_discarded_external_frames(&mut self, count: usize)
        ensures
            *final(self) == after_requeue(*old(self), count),
    {
        self.discarded_external_frames = add_wrapping(self.discarded_external_frames, count);
    }

    /// The Surface is being destroyed; waiters must stop.
    pub fn shut_down(&mut self)
        ensures
            *final(self) == (SurfaceFrameQueue { shutting_down: true, ..*old(self) }),
    {
        self.shutting_down = true;
    }
}

/// A frame announced while the Surface is live is the one the next acquire
/// takes: announcing and then acquiring leaves the queue as it was.
pub proof fn lemma_acquire_takes_announced_frame(q: SurfaceFrameQueue, deadline_passed: bool)
    requires
        !q.shutting_down,
        q.pending < usize::MAX,
    ensures
        spec_poll_acquire(after_frame_available(q), deadline_passed) == (AcquireStep::Acquired, q),
{
}

/// Shutting down is final: every later acquire is refused and changes
/// nothing, whatever frames are announced.
pub proof fn lemma_shut_down_refuses_every_acquire(q: SurfaceFrameQueue, deadline_passed: bool)
    requires
        q.shutting_down,
    ensures
        spec_poll_acquire(q, deadline_passed) == (AcquireStep::ShuttingDown, q),
        after_frame_available(q).shutting_down,
{
}

/// Taking the discarded-frame count and putting it all back restores the
/// queue.
pub proof fn lemma_requeue_undoes_take(q: SurfaceFrameQueue)
    ensures
        after_requeue(SurfaceFrameQueue { discarded_external_frames: 0, ..q }, q.discarded_external_frames) == q,
{
}

/// The text of an acquire step that ends the acquire with an error.
pub open spec fn acquire_failure_message(step: AcquireStep) -> Option<Seq<char>> {
    match step {
        AcquireStep::TimedOut => Some("timed out waiting for decoded Surface buffer"@),
        AcquireStep::ShuttingDown => Some("decoded Surface is shutting down"@),
        _ => None,
    }
}

/// The error text of an acquire step that fails; `None` for the steps that
/// go on.
pub fn acquire_failure_text(step: AcquireStep) -> (r: Option<String>)
    ensures
        match acquire_failure_message(step) {
            Some(m) => r matches Some(t) && t@ == m,
            None => r is None,
        },
{
    match step {
        AcquireStep::TimedOut => Some(string_of("timed out waiting for decoded Surface buffer")),
        AcquireStep::ShuttingDown => Some(string_of("decoded Surface is shutting down")),
        _ => None,
    }
}

/// Why a consumer Surface could not be set up, or could not hand out a
/// NativeBuffer frame.
#[derive(Debug, Clone, Copy, PartialEq, Eq, Structural)]
pub enum SurfaceError {
    NativeImageCreateFailed { texture_id: u32, texture_target: u32 },
    AttachContextFailed(i32),
    SetDefaultUsageFailed(i32),
    ConsumerSurfaceCreateFailed,
    NativeWindowUnavailable,
    FrameListenerFailed(i32),
    AcquireWindowBufferFailed(i32),
    FenceTimedOut,
    ConvertNativeBufferFailed(i32),
    InvalidNativeBufferConfig(OhosNativeBufferConfig),
    ReleaseWindowBufferFailed(i32),
}

/// A NativeBuffer configuration as its derived `Debug` form prints it.
pub open spec fn native_buffer_config_text(c: OhosNativeBufferConfig) -> Seq<char> {
    "OhosNativeBufferConfig { width: "@ + signed_decimal(c.width as int) + ", height: "@
        + signed_decimal(c.height as int) + ", format: "@ + signed_decimal(c.format as int) + ", usage: "@
        + signed_decimal(c.usage as int) + ", stride: "@ + signed_decimal(c.stride as int) + " }"@
}

/// The text of a Surface error.
pub open spec fn surface_error_message(e: SurfaceError) -> Seq<char> {
    match e {
        SurfaceError::NativeImageCreateFailed { texture_id, texture_target } =>
            "OH_NativeImage_Create returned null for texture "@ + decimal(texture_id as nat) + " target 0x"@
                + hex(texture_target as nat),
        SurfaceError::AttachContextFailed(code) => "OH_NativeImage_AttachContext failed with "@
            + signed_decimal(code as int),
        SurfaceError::SetDefaultUsageFailed(code) => "OH_ConsumerSurface_SetDefaultUsage(HW_TEXTURE) failed with "@
            + signed_decimal(code as int),
        SurfaceError::ConsumerSurfaceCreateFailed => "OH_ConsumerSurface_Create returned null"@,
        SurfaceError::NativeWindowUnavailable => "OH_NativeImage_AcquireNativeWindow returned null"@,
        SurfaceError::FrameListenerFailed(code) => "OH_NativeImage_SetOnFrameAvailableListener failed with "@
            + signed_decimal(code as int),
        SurfaceError::AcquireWindowBufferFailed(code) => "OH_NativeImage_AcquireNativeWindowBuffer failed with "@
            + signed_decimal(code as int),
        SurfaceError::FenceTimedOut => "timed out waiting for OHOS NativeBuffer acquire fence"@,
        SurfaceError::ConvertNativeBufferFailed(code) => "OH_NativeBuffer_FromNativeWindowBuffer failed with "@
            + signed_decimal(code as int),
        SurfaceError::InvalidNativeBufferConfig(config) => "invalid OH_NativeBuffer config "@
            + native_buffer_config_text(config),
        SurfaceError::ReleaseWindowBufferFailed(code) => "OH_NativeImage_ReleaseNativeWindowBuffer failed with "@
            + signed_decimal(code as int),
    }
}

fn push_native_buffer_config(m: &mut String, c: OhosNativeBufferConfig)
    ensures
        final(m)@ == old(m)@ + native_buffer_config_text(c),
{
    m.append("OhosNativeBufferConfig { width: ");
    push_signed_decimal(m, c.width as i64);
    m.append(", height: ");
    push_signed_decimal(m, c.height as i64);
    m.append(", format: ");
    push_signed_decimal(m, c.format as i64);
    m.append(", usage: ");
    push_signed_decimal(m, c.usage as i64);
    m.append(", stride: ");
    push_signed_decimal(m, c.stride as i64);
    m.append(" }");
    assert(m@ =~= old(m)@ + native_buffer_config_text(c));
}

fn code_text(prefix: &str, code: i32) -> (r: String)
    ensures
        r@ == prefix@ + signed_decimal(code as int),
{
    let mut m = string_of(prefix);
    push_signed_decimal(&mut m, code as i64);
    m
}

impl SurfaceError {
    /// The error as text.
    pub fn message(&self) -> (r: String)
        ensures
            r@ == surface_error_message(*self),
    {
        match self {
            SurfaceError::NativeImageCreateFailed { texture_id, texture_target } => {
                let mut m = string_of("OH_NativeImage_Create returned null for texture ");
                push_decimal(&mut m, *texture_id as u64);
                m.append(" target 0x");
                push_hex(&mut m, *texture_target as u64);
                m
            },
            SurfaceError::AttachContextFailed(code) => code_text("OH_NativeImage_AttachContext failed with ", *code),
            SurfaceError::SetDefaultUsageFailed(code) => code_text(
                "OH_ConsumerSurface_SetDefaultUsage(HW_TEXTURE) failed with ",
                *code,
            ),
            SurfaceError::ConsumerSurfaceCreateFailed => string_of("OH_ConsumerSurface_Create returned null"),
            SurfaceError::NativeWindowUnavailable => string_of("OH_NativeImage_AcquireNativeWindow returned null"),
            SurfaceError::FrameListenerFailed(code) => code_text(
                "OH_NativeImage_SetOnFrameAvailableListener failed with ",
                *code,
            ),
            SurfaceError::AcquireWindowBufferFailed(code) => code_text(
                "OH_NativeImage_AcquireNativeWindowBuffer failed with ",
                *code,
            ),
            SurfaceError::FenceTimedOut => string_of("timed out waiting for OHOS NativeBuffer acquire fence"),
            SurfaceError::ConvertNativeBufferFailed(code) => code_text(
                "OH_NativeBuffer_FromNativeWindowBuffer failed with ",
                *code,
            ),
            SurfaceError::InvalidNativeBufferConfig(config) => {
                let mut m = string_of("invalid OH_NativeBuffer config ");
                push_native_buffer_config(&mut m, *config);
                m
            },
            SurfaceError::ReleaseWindowBufferFailed(code) => code_text(
                "OH_NativeImage_ReleaseNativeWindowBuffer failed with ",
                *code,
            ),
        }
    }
}

/// Checks the result of acquiring a window buffer from the consumer
/// Surface: the call must succeed and hand out a non-null buffer.
pub fn check_acquired_window_buffer(code: i32, native_window_buffer: usize) -> (r: Result<(), SurfaceError>)
    ensures
        (code == AV_ERR_OK && native_window_buffer != 0) ==> r is Ok,
        !(code == AV_ERR_OK && native_window_buffer != 0) ==> r == Err::<(), SurfaceError>(
            SurfaceError::AcquireWindowBufferFailed(code)),
{
    if code != AV_ERR_OK || native_window_buffer == 0 {
        Err(SurfaceError::AcquireWindowBufferFailed(code))
    } else {
        Ok(())
    }
}

/// Checks the result of converting a window buffer into a NativeBuffer.
pub fn check_converted_native_buffer(code: i32, native_buffer: usize) -> (r: Result<(), SurfaceError>)
    ensures
        (code == AV_ERR_OK && native_buffer != 0) ==> r is Ok,
        !(code == AV_ERR_OK && native_buffer != 0) ==> r == Err::<(), SurfaceError>(
            SurfaceError::ConvertNativeBufferFailed(code)),
{
    if code != AV_ERR_OK || native_buffer == 0 {
        Err(SurfaceError::ConvertNativeBufferFailed(code))
    } else {
        Ok(())
    }
}

/// The payload of an acquired NativeBuffer frame; a buffer without a
/// positive size cannot be imported.
pub fn native_buffer_payload(native_window_buffer: usize, native_buffer: usize, config: OhosNativeBufferConfig)
    -> (r: Result<FramePayload, SurfaceError>)
    ensures
        (config.width > 0 && config.height > 0) ==> r == Ok::<FramePayload, SurfaceError>(
            FramePayload::NativeBuffer { native_window_buffer, native_buffer, config }),
        !(config.width > 0 && config.height > 0) ==> r == Err::<FramePayload, SurfaceError>(
            SurfaceError::InvalidNativeBufferConfig(config)),
{
    if config.has_valid_extent() {
        Ok(FramePayload::NativeBuffer { native_window_buffer, native_buffer, config })
    } else {
        Err(SurfaceError::InvalidNativeBufferConfig(config))
    }
}

/// The next step of waiting on an acquire fence.
#[derive(Debug, Clone, Copy, PartialEq, Eq, Structural)]
pub enum FenceWaitStep {
    /// The fence signalled; close it and go on.
    Signaled,
    /// The wait ran out of time.
    TimedOut,
    /// The wait was interrupted; poll again with the time left.
    Retry,
    /// The wait failed.
    Failed,
}

/// The poll timeout for the time left until the deadline: whole
/// milliseconds, at least one and at most `i32::MAX`.
pub fn fence_poll_timeout_ms(remaining: MediaDuration) -> (r: i32)
    ensures
        r == (if remaining.nanos() / 1_000_000 < 1 {
            1
        } else if remaining.nanos() / 1_000_000 > i32::MAX {
            i32::MAX as int
        } else {
            remaining.nanos() / 1_000_000
        }),
{
    let millis = remaining.as_millis();
    if millis < 1 {
        1
    } else if millis > 0x7fff_ffff {
        0x7fff_ffff
    } else {
        millis as i32
    }
}

/// Interprets the result of one `poll` on the fence (`interrupted` tells
/// whether a failure was an interruption).
pub fn fence_poll_step(result: i32, interrupted: bool) -> (r: FenceWaitStep)
    ensures
        result > 0 ==> r == FenceWaitStep::Signaled,
        result == 0 ==> r == FenceWaitStep::TimedOut,
        result < 0 && interrupted ==> r == FenceWaitStep::Retry,
        result < 0 && !interrupted ==> r == FenceWaitStep::Failed,
{
    if result > 0 {
        FenceWaitStep::Signaled
    } else if result == 0 {
        FenceWaitStep::TimedOut
    } else if interrupted {
        FenceWaitStep::Retry
    } else {
        FenceWaitStep::Failed
    }
}

/// The text of a failed fence wait, given the system error's text.
pub fn fence_wait_failure_text(error: &str) -> (r: String)
    ensures
        r@ == "failed waiting for OHOS NativeBuffer acquire fence: "@ + error@,
{
    let mut m = string_of("failed waiting for OHOS NativeBuffer acquire fence: ");
    m.append(error);
    m
}

/// What to do after asking the Surface to drop one discarded frame.
#[derive(Debug, Clone, Copy, PartialEq, Eq)]
pub enum DiscardedFrameStep {
    /// The frame was dropped; go on with the next.
    Drained,
    /// No buffer was queued; put back the frames not drained yet and stop.
    Requeue(usize),
    /// The Surface call failed.
    Failed(AvCodecFailure),
}

/// Interprets the status of dropping discarded frame number `index` (from
/// zero) out of `discarded`.
pub fn discarded_frame_update_step(discarded: usize, index: usize, update_code: i32) -> (r: DiscardedFrameStep)
    requires
        index < discarded,
    ensures
        update_code == NATIVE_ERROR_NO_BUFFER ==> r == DiscardedFrameStep::Requeue((discarded - index) as usize),
        update_code == AV_ERR_OK ==> r == DiscardedFrameStep::Drained,
        update_code != NATIVE_ERROR_NO_BUFFER && update_code != AV_ERR_OK ==> (r matches DiscardedFrameStep::Failed(f)
            && f.operation@ == "OH_NativeImage_UpdateSurfaceImage(discarded)"@ && f.code == update_code),
{
    if update_code == NATIVE_ERROR_NO_BUFFER {
        return DiscardedFrameStep::Requeue(discarded - index);
    }
    match check_avcodec(update_code, "OH_NativeImage_UpdateSurfaceImage(discarded)") {
        Ok(()) => DiscardedFrameStep::Drained,
        Err(f) => DiscardedFrameStep::Failed(f),
    }
}

/// Interprets the status of latching the newest Surface image into the
/// external texture: `Ok(true)` when a new image was latched, `Ok(false)`
/// when none was queued.
pub fn external_texture_update_status(update_code: i32) -> (r: Result<bool, AvCodecFailure>)
    ensures
        update_code == NATIVE_ERROR_NO_BUFFER ==> r == Ok::<bool, AvCodecFailure>(false),
        update_code == AV_ERR_OK ==> r == Ok::<bool, AvCodecFailure>(true),
        update_code != NATIVE_ERROR_NO_BUFFER && update_code != AV_ERR_OK ==> (r matches Err(f)
            && f.operation@ == "OH_NativeImage_UpdateSurfaceImage"@ && f.code == update_code),
{
    if update_code == NATIVE_ERROR_NO_BUFFER {
        return Ok(false);
    }
    match check_avcodec(update_code, "OH_NativeImage_UpdateSurfaceImage") {
        Ok(()) => Ok(true),
        Err(f) => Err(f),
    }
}

/// A consumer Surface that a decoder renders into: its NativeImage and
/// NativeWindow handles, how its frames are consumed, and its frame
/// accounting.
#[derive(Debug, Clone, Copy, PartialEq, Eq, Structural)]
pub struct OhosAvCodecSurface {
    pub image: usize,
    pub window: usize,
    pub mode: OhosAvCodecSurfaceMode,
    pub frames: SurfaceFrameQueue,
}

impl OhosAvCodecSurface {
    /// A Surface over a created NativeImage, once its NativeWindow was
    /// acquired (a null window handle fails).
    pub fn from_image(image: usize, window: usize, mode: OhosAvCodecSurfaceMode) -> (r: Result<OhosAvCodecSurface, SurfaceError>)
        ensures
            window == 0 ==> r == Err::<OhosAvCodecSurface, SurfaceError>(SurfaceError::NativeWindowUnavailable),
            window != 0 ==> r == Ok::<OhosAvCodecSurface, SurfaceError>(OhosAvCodecSurface {
                image,
                window,
                mode,
                frames: SurfaceFrameQueue { pending: 0, shutting_down: false, discarded_external_frames: 0 },
            }),
    {
        if window == 0 {
            return Err(SurfaceError::NativeWindowUnavailable);
        }
        Ok(OhosAvCodecSurface { image, window, mode, frames: SurfaceFrameQueue::new() })
    }

    /// The NativeWindow handle decoders render into.
    pub fn window(&self) -> (r: usize)
        ensures
            r == self.window,
    {
        self.window
    }

    /// The payload of a newly acquired external-texture frame: pending
    /// until it is latched.
    pub fn external_texture_payload(&self) -> (r: FramePayload)
        ensures
            r == (FramePayload::ExternalTexture { pending: true }),
    {
        FramePayload::ExternalTexture { pending: true }
    }
}

/// What a decoded Surface frame still holds.
#[derive(Debug, Clone, Copy, PartialEq, Eq, Structural)]
pub enum FramePayload {
    /// An external-texture frame, `pending` until it is latched.
    ExternalTexture { pending: bool },
    /// An acquired NativeBuffer, identified by its window-buffer handle.
    NativeBuffer { native_window_buffer: usize, native_buffer: usize, config: OhosNativeBufferConfig },
    /// The frame went back to the Surface.
    Released,
}

/// Why a frame's payload cannot be used the way it was asked for.
#[derive(Debug, Clone, Copy, PartialEq, Eq, Structural)]
pub enum FrameAccessError {
    /// The external-texture frame was already latched.
    AlreadyUpdated,
    /// A NativeBuffer frame cannot be latched into an OES texture.
    NotExternalTexture,
    /// The frame went back to the Surface before it was latched.
    FrameReleased,
    /// The NativeBuffer handle is null.
    NullNativeBuffer,
    /// An external-texture frame holds no NativeBuffer.
    NoNativeBuffer,
    /// The NativeBuffer went back to the Surface.
    NativeBufferReleased,
}

/// The text of a frame access error.
pub open spec fn frame_access_error_message(e: FrameAccessError) -> Seq<char> {
    match e {
        FrameAccessError::AlreadyUpdated => "OHOS external texture frame was already updated"@,
        FrameAccessError::NotExternalTexture => "OHOS NativeBuffer frame cannot update an external OES texture"@,
        FrameAccessError::FrameReleased => "OHOS native image frame was already released"@,
        FrameAccessError::NullNativeBuffer => "OHOS NativeBuffer pointer is null"@,
        FrameAccessError::NoNativeBuffer => "OHOS external OES frame has no acquired NativeBuffer"@,
        FrameAccessError::NativeBufferReleased => "OHOS NativeBuffer frame was already released"@,
    }
}

impl FrameAccessError {
    /// The error as text.
    pub fn message(&self) -> (r: String)
        ensures
            r@ == frame_access_error_message(*self),
    {
        match self {
            FrameAccessError::AlreadyUpdated => string_of("OHOS external texture frame was already updated"),
            FrameAccessError::NotExternalTexture => string_of("OHOS NativeBuffer frame cannot update an external OES texture"),
            FrameAccessError::FrameReleased => string_of("OHOS native image frame was already released"),
            FrameAccessError::NullNativeBuffer => string_of("OHOS NativeBuffer pointer is null"),
            FrameAccessError::NoNativeBuffer => string_of("OHOS external OES frame has no acquired NativeBuffer"),
            FrameAccessError::NativeBufferReleased => string_of("OHOS NativeBuffer frame was already released"),
        }
    }
}

/// What releasing a frame asks of the Surface.
#[derive(Debug, Clone, Copy, PartialEq, Eq, Structural)]
pub enum ReleaseAction {
    Nothing,
    MarkExternalFrameDiscarded,
    ReleaseNativeBuffer(usize),
}

/// What releasing a frame with this payload asks of the Surface: a
/// never-latched external-texture frame must be drained later, an acquired
/// NativeBuffer goes back now, anything else needs nothing.
pub open spec fn release_action(payload: FramePayload) -> ReleaseAction {
    match payload {
        FramePayload::ExternalTexture { pending } => if pending {
            ReleaseAction::MarkExternalFrameDiscarded
        } else {
            ReleaseAction::Nothing
        },
        FramePayload::NativeBuffer { native_window_buffer, .. } => ReleaseAction::ReleaseNativeBuffer(native_window_buffer),
        FramePayload::Released => ReleaseAction::Nothing,
    }
}

/// A frame's Surface resources go back once: whatever the first release
/// asked for, releasing the released frame again asks for nothing.
pub proof fn lemma_frames_are_released_once(payload: FramePayload)
    ensures
        release_action(FramePayload::Released) == ReleaseAction::Nothing,
        payload matches FramePayload::NativeBuffer { native_window_buffer, .. } ==> release_action(payload)
            == ReleaseAction::ReleaseNativeBuffer(native_window_buffer),
{
}

/// A decoded Surface frame and the state of its payload.
#[derive(Debug, Clone, Copy, PartialEq, Eq, Structural)]
pub struct OhosNativeBufferImage {
    pub payload: FramePayload,
}

impl OhosNativeBufferImage {
    /// Starts latching an external-texture frame; allowed once per frame.
    pub fn begin_external_texture_update(&mut self) -> (r: Result<(), FrameAccessError>)
        ensures
            old(self).payload matches FramePayload::ExternalTexture { pending } && pending ==> r is Ok
                && final(self).payload == (FramePayload::ExternalTexture { pending: false }),
            old(self).payload matches FramePayload::ExternalTexture { pending } && !pending ==>
                r == Err::<(), FrameAccessError>(FrameAccessError::AlreadyUpdated) && *final(self) == *old(self),
            old(self).payload is NativeBuffer ==>
                r == Err::<(), FrameAccessError>(FrameAccessError::NotExternalTexture) && *final(self) == *old(self),
            old(self).payload is Released ==>
                r == Err::<(), FrameAccessError>(FrameAccessError::FrameReleased) && *final(self) == *old(self),
    {
        match self.payload {
            FramePayload::ExternalTexture { pending } => {
                if pending {
                    self.payload = FramePayload::ExternalTexture { pending: false };
                    Ok(())
                } else {
                    Err(FrameAccessError::AlreadyUpdated)
                }
            },
            FramePayload::NativeBuffer { .. } => Err(FrameAccessError::NotExternalTexture),
            FramePayload::Released => Err(FrameAccessError::FrameReleased),
        }
    }

    /// The NativeBuffer handle and its configuration.
    pub fn native_buffer(&self) -> (r: Result<(usize, OhosNativeBufferConfig), FrameAccessError>)
        ensures
            self.payload matches FramePayload::NativeBuffer { native_buffer, config, .. } ==> (
                if native_buffer == 0 {
                    r == Err::<(usize, OhosNativeBufferConfig), FrameAccessError>(FrameAccessError::NullNativeBuffer)
                } else {
                    r == Ok::<(usize, OhosNativeBufferConfig), FrameAccessError>((native_buffer, config))
                }),
            self.payload is ExternalTexture ==> r == Err::<(usize, OhosNativeBufferConfig), FrameAccessError>(
                FrameAccessError::NoNativeBuffer),
            self.payload is Released ==> r == Err::<(usize, OhosNativeBufferConfig), FrameAccessError>(
                FrameAccessError::NativeBufferReleased),
    {
        match self.payload {
            FramePayload::NativeBuffer { native_buffer, config, .. } => {
                if native_buffer == 0 {
                    Err(FrameAccessError::NullNativeBuffer)
                } else {
                    Ok((native_buffer, config))
                }
            },
            FramePayload::ExternalTexture { .. } => Err(FrameAccessError::NoNativeBuffer),
            FramePayload::Released => Err(FrameAccessError::NativeBufferReleased),
        }
    }

    /// Gives the frame back: a never-latched external-texture frame must be
    /// drained from the Surface later, an acquired NativeBuffer is returned
    /// now, and a released frame stays released.
    pub fn release_to_surface(&mut self) -> (r: ReleaseAction)
        ensures
            final(self).payload == FramePayload::Released,
            r == release_action(old(self).payload),
    {
        let action = match self.payload {
            FramePayload::ExternalTexture { pending } => {
                if pending { ReleaseAction::MarkExternalFrameDiscarded } else { ReleaseAction::Nothing }
            },
            FramePayload::NativeBuffer { native_window_buffer, .. } => ReleaseAction::ReleaseNativeBuffer(native_window_buffer),
            FramePayload::Released => ReleaseAction::Nothing,
        };
        self.payload = FramePayload::Released;
        action
    }
}

/// A decoded frame rendered to the Surface: the acquired frame and the size
/// and presentation time it was decoded with.
#[derive(Debug, Clone, Copy, PartialEq, Eq, Structural)]
pub struct DecodedSurfaceFrame {
    pub image: OhosNativeBufferImage,
    pub width: u32,
    pub height: u32,
    pub pts_micros: i64,
}

impl DecodedSurfaceFrame {
    /// The frame acquired for an output buffer rendered under `layout`.
    pub fn new(image: OhosNativeBufferImage, layout: OutputLayout, output: OutputBuffer) -> (r: DecodedSurfaceFrame)
        ensures
            r == (DecodedSurfaceFrame { image, width: layout.width, height: layout.height, pts_micros: output.attr.pts }),
    {
        DecodedSurfaceFrame { image, width: layout.width, height: layout.height, pts_micros: output.attr.pts }
    }
}

// ---------------------------------------------------------------------------
// Decoder state
// ---------------------------------------------------------------------------

/// Why a decoder could not be set up before any AVCodec call.
#[derive(Debug, Clone, Copy, PartialEq, Eq, Structural)]
pub enum DecoderSetupError {
    InvalidDimensions { width: u32, height: u32 },
    Config(CodecConfigError),
}

/// The text of a decoder setup error.
pub open spec fn decoder_setup_error_message(e: DecoderSetupError) -> Seq<char> {
    match e {
        DecoderSetupError::InvalidDimensions { width, height } => "invalid video dimensions "@
            + decimal(width as nat) + "x"@ + decimal(height as nat),
        DecoderSetupError::Config(inner) => codec_config_error_message(inner),
    }
}

impl DecoderSetupError {
    /// The error as text.
    pub fn message(&self) -> (r: String)
        ensures
            r@ == decoder_setup_error_message(*self),
    {
        match self {
            DecoderSetupError::InvalidDimensions { width, height } => {
                let mut m = string_of("invalid video dimensions ");
                push_decimal(&mut m, *width as u64);
                m.append("x");
                push_decimal(&mut m, *height as u64);
                m
            },
            DecoderSetupError::Config(inner) => inner.message(),
        }
    }
}

/// The text reported when no usable hardware AV1 decoder was found for a
/// `width`×`height` stream.
pub open spec fn hardware_rejection_message(rejection: HardwareAv1CapabilityRejection, width: u32, height: u32) -> Seq<char> {
    match rejection {
        HardwareAv1CapabilityRejection::Unavailable => "no HarmonyOS hardware AV1 decoder capability is available"@,
        HardwareAv1CapabilityRejection::EmptyCodecName => "HarmonyOS hardware AV1 decoder capability has no valid codec name"@,
        HardwareAv1CapabilityRejection::UnsupportedVideoSize => "HarmonyOS hardware AV1 decoder does not support "@
            + decimal(width as nat) + "x"@ + decimal(height as nat),
    }
}

/// Formats a hardware AV1 capability rejection for a `width`×`height` stream.
pub fn hardware_rejection_text(rejection: HardwareAv1CapabilityRejection, width: u32, height: u32) -> (r: String)
    ensures
        r@ == hardware_rejection_message(rejection, width, height),
{
    match rejection {
        HardwareAv1CapabilityRejection::Unavailable => string_of("no HarmonyOS hardware AV1 decoder capability is available"),
        HardwareAv1CapabilityRejection::EmptyCodecName => string_of("HarmonyOS hardware AV1 decoder capability has no valid codec name"),
        HardwareAv1CapabilityRejection::UnsupportedVideoSize => {
            let mut m = string_of("HarmonyOS hardware AV1 decoder does not support ");
            push_decimal(&mut m, width as u64);
            m.append("x");
            push_decimal(&mut m, height as u64);
            m
        },
    }
}

/// Diagnostic stage name for a hardware AV1 capability rejection.
pub fn hardware_rejection_stage(rejection: HardwareAv1CapabilityRejection) -> (r: &'static str)
    ensures
        rejection is Unavailable ==> r@ == "hardware_unavailable"@,
        rejection is EmptyCodecName ==> r@ == "hardware_codec_name_invalid"@,
        rejection is UnsupportedVideoSize ==> r@ == "hardware_size_unsupported"@,
{
    match rejection {
        HardwareAv1CapabilityRejection::Unavailable => "hardware_unavailable",
        HardwareAv1CapabilityRejection::EmptyCodecName => "hardware_codec_name_invalid",
        HardwareAv1CapabilityRejection::UnsupportedVideoSize => "hardware_size_unsupported",
    }
}

/// The platform-independent state of a HarmonyOS video decoder: which codec
/// it decodes, how it was chosen, where its frames go, and how packets are
/// rewritten for it.
#[derive(Debug)]
pub struct OhosVideoDecoder {
    pub codec_kind: OhosVideoCodec,
    pub codec_name: String,
    pub hardware_capability: bool,
    pub surface: bool,
    pub packets: PacketNormalizer,
    pub started: bool,
}

/// How the HarmonyOS decoder for a codec is created.
#[derive(Debug, Clone, Copy, PartialEq, Eq, Structural)]
pub enum DecoderCreationPlan {
    /// Look up the hardware decoder for the codec and create it by name.
    ByHardwareName,
    /// Create the system-recommended decoder for the codec's MIME type.
    ByMime,
}

/// AV1 is decoded by the hardware decoder, looked up by name; every other
/// codec by the system-recommended decoder for its MIME type.
pub fn decoder_creation_plan(codec_kind: OhosVideoCodec) -> (r: DecoderCreationPlan)
    ensures
        r == (if codec_kind is Av1 { DecoderCreationPlan::ByHardwareName } else { DecoderCreationPlan::ByMime }),
{
    match codec_kind {
        OhosVideoCodec::Av1 => DecoderCreationPlan::ByHardwareName,
        _ => DecoderCreationPlan::ByMime,
    }
}

/// The name a decoder created by MIME type is known by.
pub open spec fn system_recommended_name() -> Seq<char> {
    "system-recommended"@
}

impl OhosVideoDecoder {
    /// Validates the stream before a decoder is created: the dimensions,
    /// then the codec configuration. Returns the configuration bytes AVCodec
    /// must be configured with and the packet normalizer for the stream.
    pub fn prepare(
        codec_kind: OhosVideoCodec,
        width: u32,
        height: u32,
        codec_config: &[u8],
    ) -> (r: Result<(Vec<u8>, PacketNormalizer), DecoderSetupError>)
        ensures
            !(0 < width <= i32::MAX && 0 < height <= i32::MAX) ==> r == Err::<(Vec<u8>, PacketNormalizer), DecoderSetupError>(
                DecoderSetupError::InvalidDimensions { width, height }),
            (0 < width <= i32::MAX && 0 < height <= i32::MAX) ==> match spec_normalize_codec_config(codec_kind, codec_config@) {
                Ok((cfg, n, sets)) => r matches Ok((c, p)) && c@ == cfg && p.nal_length_size == n
                    && p.parameter_sets@ == sets && !p.parameter_sets_sent,
                Err(e) => r == Err::<(Vec<u8>, PacketNormalizer), DecoderSetupError>(DecoderSetupError::Config(e)),
            },
    {
        if !valid_decoder_dimensions(width, height) {
            return Err(DecoderSetupError::InvalidDimensions { width, height });
        }
        match PacketNormalizer::new(codec_kind, codec_config) {
            Ok((config, packets)) => Ok((config, packets)),
            Err(e) => Err(DecoderSetupError::Config(e)),
        }
    }

    /// The state of a decoder just created by its codec's plan: an AV1
    /// decoder by the hardware decoder's name, any other by MIME type, where
    /// it is known as "system-recommended"; not yet started.
    pub fn created(
        codec_kind: OhosVideoCodec,
        hardware_codec_name: Option<String>,
        surface: bool,
        packets: PacketNormalizer,
    ) -> (r: OhosVideoDecoder)
        requires
            (hardware_codec_name is Some) == (codec_kind is Av1),
        ensures
            r.codec_kind == codec_kind,
            r.hardware_capability == (codec_kind is Av1),
            !(codec_kind is Av1) ==> r.codec_name@ == system_recommended_name(),
            r.codec_name@ == (match hardware_codec_name {
                Some(name) => name@,
                None => system_recommended_name(),
            }),
            r.hardware_capability == hardware_codec_name is Some,
            r.surface == surface,
            r.packets@ == packets@,
            !r.started,
    {
        let hardware_capability = hardware_codec_name.is_some();
        let codec_name = match hardware_codec_name {
            Some(name) => name,
            None => string_of("system-recommended"),
        };
        OhosVideoDecoder { codec_kind, codec_name, hardware_capability, surface, packets, started: false }
    }

    /// Whether decoded frames go to a Surface instead of CPU buffers.
    pub fn uses_surface(&self) -> (r: bool)
        ensures r == self.surface,
    {
        self.surface
    }

    /// The AVCodec decoder name that was instantiated.
    pub fn codec_name(&self) -> (r: &str)
        ensures r@ == self.codec_name@,
    {
        self.codec_name.as_str()
    }

    /// Whether a named hardware capability was selected.
    pub fn uses_hardware_capability(&self) -> (r: bool)
        ensures r == self.hardware_capability,
    {
        self.hardware_capability
    }

    /// The pixel format to configure: Surface output or NV12 buffers.
    pub fn configured_pixel_format(&self) -> (r: i32)
        ensures r == (if self.surface { AV_PIXEL_FORMAT_SURFACE_FORMAT } else { AV_PIXEL_FORMAT_NV12 }),
    {
        if self.surface { AV_PIXEL_FORMAT_SURFACE_FORMAT } else { AV_PIXEL_FORMAT_NV12 }
    }
}

} // verus!
