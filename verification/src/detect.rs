//! AVIF source analysis: container and AV1 header facts, chroma
//! classification, and re-encoding recommendations, without decoding pixels.

use vstd::prelude::*;
use crate::avif_container::{
    av1_header_facts, avif_container_outcome, container_alpha_present, container_animation,
    container_animation_info, container_color, container_colour, container_has_alpha, container_primary,
    container_primary_data, open_container, parse_av1_header, ParseErrorKind,
};

verus! {

/// Confidence level of a quality estimate.
#[derive(Debug, Clone, Copy, PartialEq, Eq, Structural)]
pub enum Confidence {
    /// Extracted from the frame header.
    FromFrameHeader,
    /// Estimated from container metadata.
    Approximate,
}

/// Chroma subsampling mode.
#[derive(Debug, Clone, Copy, PartialEq, Eq, Structural)]
pub enum ChromaSampling {
    Yuv444,
    Yuv422,
    Yuv420,
    Monochrome,
}

/// Re-encoding recommendations.
#[derive(Debug, Clone, Copy, PartialEq, Eq, Structural)]
pub enum Recommendation {
    /// Source is high quality: re-encode at lower quality for size savings.
    ReduceQuality,
    /// Source uses 4:4:4: 4:2:0 would be much smaller for photos.
    UseChromaSubsampling,
    /// Source is 10/12-bit: 8-bit is sufficient for SDR content.
    ReduceBitDepth,
    /// Source quality is already low: avoid generation loss.
    AvoidReencoding,
}

/// Errors that can occur while probing.
#[derive(Debug, Clone, Copy, PartialEq, Eq, Structural)]
pub enum ProbeError {
    /// Data is too short to be an AVIF file.
    TooShort,
    /// Not an AVIF/HEIF file.
    NotAvif,
    /// Container is truncated or malformed.
    Truncated,
    /// Could not find the AV1 codec configuration.
    NoAv1Config,
}

impl ProbeError {
    /// The text reported for each error.
    pub open spec fn text(self) -> Seq<char> {
        match self {
            ProbeError::TooShort => "data too short to be an AVIF file"@,
            ProbeError::NotAvif => "not an AVIF file"@,
            ProbeError::Truncated => "truncated AVIF file"@,
            ProbeError::NoAv1Config => "no AV1 codec configuration found"@,
        }
    }

    /// Human-readable description.
    pub fn message(&self) -> (r: &'static str)
        ensures
            r@ == self.text(),
    {
        match self {
            ProbeError::TooShort => "data too short to be an AVIF file",
            ProbeError::NotAvif => "not an AVIF file",
            ProbeError::Truncated => "truncated AVIF file",
            ProbeError::NoAv1Config => "no AV1 codec configuration found",
        }
    }
}

/// Quality estimate from the AV1 quantizer.
#[derive(Debug, Clone, Copy, PartialEq, Eq, Structural)]
pub struct QualityEstimate {
    /// AV1 base quantizer index (0-255); lower is higher quality.
    pub quantizer: u8,
    pub confidence: Confidence,
}

/// Container color information from the `colr` box.
#[derive(Debug, Clone, Copy, PartialEq, Eq, Structural)]
pub enum ColorFacts {
    /// CICP code points (`nclx`).
    Nclx { color_primaries: u16, transfer_characteristics: u16, matrix_coefficients: u16, full_range: bool },
    /// An ICC profile.
    IccProfile,
    /// No `colr` box.
    Absent,
}

/// Sequence- and frame-header facts from the AV1 bitstream.
#[derive(Debug, Clone, Copy, PartialEq, Eq, Structural)]
pub struct Av1Facts {
    pub max_frame_width: u32,
    pub max_frame_height: u32,
    pub bit_depth: u8,
    pub seq_profile: u8,
    pub monochrome: bool,
    pub subsampling_x: bool,
    pub subsampling_y: bool,
    pub base_q_idx: Option<u8>,
    pub lossless: Option<bool>,
}

/// Result of probing an AVIF file.
#[derive(Debug, Clone, PartialEq, Eq)]
pub struct AvifProbe {
    pub width: u32,
    pub height: u32,
    /// 8, 10 or 12.
    pub bit_depth: u8,
    /// AV1 profile (0 Main, 1 High, 2 Professional).
    pub profile: u8,
    pub monochrome: bool,
    pub chroma_sampling: ChromaSampling,
    pub has_alpha: bool,
    pub has_animation: bool,
    /// `None` when the frame header could not be parsed.
    pub lossless: Option<bool>,
    pub quality: Option<QualityEstimate>,
    pub color_primaries: Option<u8>,
    pub transfer_characteristics: Option<u8>,
    pub matrix_coefficients: Option<u8>,
    pub full_range: Option<bool>,
    pub has_icc_profile: bool,
    pub recommendations: Vec<Recommendation>,
}

/// Chroma classification from the sequence header.
pub open spec fn chroma_of(monochrome: bool, sx: bool, sy: bool) -> ChromaSampling {
    if monochrome {
        ChromaSampling::Monochrome
    } else if sx && sy {
        ChromaSampling::Yuv420
    } else if sx {
        ChromaSampling::Yuv422
    } else {
        ChromaSampling::Yuv444
    }
}

/// The quantizer is known and at most `t`.
pub open spec fn qp_at_most(qp: Option<u8>, t: u8) -> bool {
    match qp {
        Some(q) => q <= t,
        None => false,
    }
}

/// The quantizer is known and at least `t`.
pub open spec fn qp_at_least(qp: Option<u8>, t: u8) -> bool {
    match qp {
        Some(q) => q >= t,
        None => false,
    }
}

/// Quantizers at or below this estimate a quality above 85.
pub open spec fn high_quality_qp_max() -> u8 {
    50
}

/// Quantizers at or above this estimate a quality below 30.
pub open spec fn low_quality_qp_min() -> u8 {
    193
}

/// Transfer characteristics that mark HDR content (PQ and HLG).
pub open spec fn is_hdr_transfer(tc: Option<u8>) -> bool {
    match tc {
        Some(t) => t == 16 || t == 18,
        None => false,
    }
}

/// A sequence holding `r` when `b`, empty otherwise.
pub open spec fn rec_if(b: bool, r: Recommendation) -> Seq<Recommendation> {
    if b { seq![r] } else { Seq::empty() }
}

/// The recommendations, in order: quality reduction or generation-loss
/// warning (never for lossless sources), chroma subsampling for lossy
/// 4:4:4 color, bit-depth reduction for deep SDR content.
pub open spec fn recommendations_spec(
    lossless: Option<bool>,
    qp: Option<u8>,
    chroma: ChromaSampling,
    monochrome: bool,
    bit_depth: u8,
    transfer: Option<u8>,
) -> Seq<Recommendation> {
    let lossy = lossless != Some(true);
    let hi = lossy && qp_at_most(qp, high_quality_qp_max());
    let lo = lossy && qp_at_least(qp, low_quality_qp_min());
    rec_if(hi, Recommendation::ReduceQuality)
        + rec_if(lo, Recommendation::AvoidReencoding)
        + rec_if(chroma == ChromaSampling::Yuv444 && !monochrome && lossy, Recommendation::UseChromaSubsampling)
        + rec_if(bit_depth > 8 && !is_hdr_transfer(transfer), Recommendation::ReduceBitDepth)
}

/// `p` is the probe result for these facts.
pub open spec fn probe_matches(p: AvifProbe, has_alpha: bool, has_animation: bool, color: ColorFacts, av1: Av1Facts) -> bool {
    let chroma = chroma_of(av1.monochrome, av1.subsampling_x, av1.subsampling_y);
    let (cp, tc, mc, fr, icc) = match color {
        ColorFacts::Nclx { color_primaries, transfer_characteristics, matrix_coefficients, full_range } => (
            Some(color_primaries as u8),
            Some(transfer_characteristics as u8),
            Some(matrix_coefficients as u8),
            Some(full_range),
            false,
        ),
        ColorFacts::IccProfile => (None, None, None, None, true),
        ColorFacts::Absent => (None, None, None, None, false),
    };
    &&& p.width == av1.max_frame_width
    &&& p.height == av1.max_frame_height
    &&& p.bit_depth == av1.bit_depth
    &&& p.profile == av1.seq_profile
    &&& p.monochrome == av1.monochrome
    &&& p.chroma_sampling == chroma
    &&& p.has_alpha == has_alpha
    &&& p.has_animation == has_animation
    &&& p.lossless == av1.lossless
    &&& p.quality == match av1.base_q_idx {
        Some(q) => Some(QualityEstimate { quantizer: q, confidence: Confidence::FromFrameHeader }),
        None => None,
    }
    &&& p.color_primaries == cp
    &&& p.transfer_characteristics == tc
    &&& p.matrix_coefficients == mc
    &&& p.full_range == fr
    &&& p.has_icc_profile == icc
    &&& p.recommendations@ == recommendations_spec(av1.lossless, av1.base_q_idx, chroma, av1.monochrome, av1.bit_depth, tc)
}

/// Classify chroma subsampling from the sequence header.
pub fn classify_chroma(monochrome: bool, sx: bool, sy: bool) -> (r: ChromaSampling)
    ensures
        r == chroma_of(monochrome, sx, sy),
{
    if monochrome {
        ChromaSampling::Monochrome
    } else if sx && sy {
        ChromaSampling::Yuv420
    } else if sx {
        ChromaSampling::Yuv422
    } else {
        ChromaSampling::Yuv444
    }
}

/// Build the re-encoding recommendations.
pub fn recommendations_for(
    lossless: Option<bool>,
    qp: Option<u8>,
    chroma: ChromaSampling,
    monochrome: bool,
    bit_depth: u8,
    transfer: Option<u8>,
) -> (r: Vec<Recommendation>)
    ensures
        r@ == recommendations_spec(lossless, qp, chroma, monochrome, bit_depth, transfer),
{
    let mut v: Vec<Recommendation> = Vec::new();
    let lossy = match lossless {
        Some(l) => !l,
        None => true,
    };
    let (hi, lo) = match qp {
        Some(q) => (lossy && q <= 50, lossy && q >= 193),
        None => (false, false),
    };
    if hi {
        v.push(Recommendation::ReduceQuality);
    }
    if lo {
        v.push(Recommendation::AvoidReencoding);
    }
    if chroma == ChromaSampling::Yuv444 && !monochrome && lossy {
        v.push(Recommendation::UseChromaSubsampling);
    }
    let hdr = match transfer {
        Some(t) => t == 16 || t == 18,
        None => false,
    };
    if bit_depth > 8 && !hdr {
        v.push(Recommendation::ReduceBitDepth);
    }
    assert(v@ =~= recommendations_spec(lossless, qp, chroma, monochrome, bit_depth, transfer));
    v
}

/// Assemble the probe result from container and bitstream facts.
pub fn probe_from_facts(has_alpha: bool, has_animation: bool, color: ColorFacts, av1: Av1Facts) -> (r: AvifProbe)
    ensures
        probe_matches(r, has_alpha, has_animation, color, av1),
{
    let (cp, tc, mc, fr, icc) = match color {
        ColorFacts::Nclx { color_primaries, transfer_characteristics, matrix_coefficients, full_range } => (
            Some(color_primaries as u8),
            Some(transfer_characteristics as u8),
            Some(matrix_coefficients as u8),
            Some(full_range),
            false,
        ),
        ColorFacts::IccProfile => (None, None, None, None, true),
        ColorFacts::Absent => (None, None, None, None, false),
    };
    let chroma = classify_chroma(av1.monochrome, av1.subsampling_x, av1.subsampling_y);
    let quality = match av1.base_q_idx {
        Some(q) => Some(QualityEstimate { quantizer: q, confidence: Confidence::FromFrameHeader }),
        None => None,
    };
    let recommendations = recommendations_for(av1.lossless, av1.base_q_idx, chroma, av1.monochrome, av1.bit_depth, tc);
    AvifProbe {
        width: av1.max_frame_width,
        height: av1.max_frame_height,
        bit_depth: av1.bit_depth,
        profile: av1.seq_profile,
        monochrome: av1.monochrome,
        chroma_sampling: chroma,
        has_alpha,
        has_animation,
        lossless: av1.lossless,
        quality,
        color_primaries: cp,
        transfer_characteristics: tc,
        matrix_coefficients: mc,
        full_range: fr,
        has_icc_profile: icc,
        recommendations,
    }
}

/// Lossless sources are never told to reduce quality or avoid re-encoding,
/// and never told to subsample chroma.
pub proof fn law_lossless_gets_no_quality_advice(
    qp: Option<u8>,
    chroma: ChromaSampling,
    monochrome: bool,
    bit_depth: u8,
    transfer: Option<u8>,
)
    ensures
        !recommendations_spec(Some(true), qp, chroma, monochrome, bit_depth, transfer).contains(Recommendation::ReduceQuality),
        !recommendations_spec(Some(true), qp, chroma, monochrome, bit_depth, transfer).contains(Recommendation::AvoidReencoding),
        !recommendations_spec(Some(true), qp, chroma, monochrome, bit_depth, transfer).contains(Recommendation::UseChromaSubsampling),
{
    let s = recommendations_spec(Some(true), qp, chroma, monochrome, bit_depth, transfer);
    assert(s =~= rec_if(bit_depth > 8 && !is_hdr_transfer(transfer), Recommendation::ReduceBitDepth));
}

/// HDR (PQ or HLG) sources are never told to reduce bit depth, and no
/// source is told both to reduce quality and to avoid re-encoding.
pub proof fn law_hdr_keeps_depth_and_advice_is_consistent(
    lossless: Option<bool>,
    qp: Option<u8>,
    chroma: ChromaSampling,
    monochrome: bool,
    bit_depth: u8,
    transfer: Option<u8>,
)
    ensures
        is_hdr_transfer(transfer) ==> !recommendations_spec(lossless, qp, chroma, monochrome, bit_depth, transfer).contains(Recommendation::ReduceBitDepth),
        !(recommendations_spec(lossless, qp, chroma, monochrome, bit_depth, transfer).contains(Recommendation::ReduceQuality)
            && recommendations_spec(lossless, qp, chroma, monochrome, bit_depth, transfer).contains(Recommendation::AvoidReencoding)),
{
    let s = recommendations_spec(lossless, qp, chroma, monochrome, bit_depth, transfer);
    let lossy = lossless != Some(true);
    let hi = lossy && qp_at_most(qp, high_quality_qp_max());
    let lo = lossy && qp_at_least(qp, low_quality_qp_min());
    let c = chroma == ChromaSampling::Yuv444 && !monochrome && lossy;
    let d = bit_depth > 8 && !is_hdr_transfer(transfer);
    assert(!(hi && lo));
    assert forall|r: Recommendation| s.contains(r) implies
        (r == Recommendation::ReduceQuality ==> hi)
        && (r == Recommendation::AvoidReencoding ==> lo)
        && (r == Recommendation::ReduceBitDepth ==> d)
    by {
        let i = choose|i: int| 0 <= i < s.len() && s[i] == r;
        assert(s == rec_if(hi, Recommendation::ReduceQuality) + rec_if(lo, Recommendation::AvoidReencoding)
            + rec_if(c, Recommendation::UseChromaSubsampling) + rec_if(d, Recommendation::ReduceBitDepth));
    }
}

/// The file-type box tag at bytes 4..8.
pub open spec fn has_ftyp(data: Seq<u8>) -> bool {
    data[4] == 0x66 && data[5] == 0x74 && data[6] == 0x79 && data[7] == 0x70
}

/// How a container-parser failure is reported.
pub open spec fn probe_error_for(e: ParseErrorKind) -> ProbeError {
    match e {
        ParseErrorKind::UnexpectedEof => ProbeError::Truncated,
        ParseErrorKind::InvalidData => ProbeError::NotAvif,
        _ => ProbeError::Truncated,
    }
}

/// The result `probe` gives for these bytes: too short, no `ftyp` tag,
/// the container parser's refusal, no usable AV1 payload or header, or the
/// probe of the file's alpha, animation, colour and AV1 header facts.
pub open spec fn probe_outcome(data: Seq<u8>, r: Result<AvifProbe, ProbeError>) -> bool {
    if data.len() < 12 {
        r == Err::<AvifProbe, ProbeError>(ProbeError::TooShort)
    } else if !has_ftyp(data) {
        r == Err::<AvifProbe, ProbeError>(ProbeError::NotAvif)
    } else {
        match avif_container_outcome(data) {
            Err(e) => r == Err::<AvifProbe, ProbeError>(probe_error_for(e)),
            Ok(_) => match container_primary(data) {
                Err(_) => r == Err::<AvifProbe, ProbeError>(ProbeError::NoAv1Config),
                Ok(primary) => match av1_header_facts(primary) {
                    None => r == Err::<AvifProbe, ProbeError>(ProbeError::NoAv1Config),
                    Some(f) => r matches Ok(p) && probe_matches(
                        p,
                        container_alpha_present(data),
                        container_animation(data) is Some,
                        container_colour(data).0,
                        f,
                    ),
                },
            },
        }
    }
}

/// Probe an AVIF file from its raw bytes: container and AV1 header facts,
/// quality estimate, recommendations. No pixel decoding.
pub fn probe(data: &[u8]) -> (r: Result<AvifProbe, ProbeError>)
    ensures
        probe_outcome(data@, r),
{
    if data.len() < 12 {
        return Err(ProbeError::TooShort);
    }
    if !(data[4] == 0x66 && data[5] == 0x74 && data[6] == 0x79 && data[7] == 0x70) {
        return Err(ProbeError::NotAvif);
    }
    let container = match open_container(data) {
        Ok(c) => c,
        Err(ParseErrorKind::UnexpectedEof) => { return Err(ProbeError::Truncated); },
        Err(ParseErrorKind::InvalidData) => { return Err(ProbeError::NotAvif); },
        Err(_) => { return Err(ProbeError::Truncated); },
    };
    let has_alpha = container_has_alpha(&container);
    let has_animation = container_animation_info(&container).is_some();
    let (color, _icc) = container_color(&container);
    let primary = match container_primary_data(&container) {
        Ok(d) => d,
        Err(_) => { return Err(ProbeError::NoAv1Config); },
    };
    let av1 = match parse_av1_header(primary.as_slice()) {
        Some(m) => m,
        None => { return Err(ProbeError::NoAv1Config); },
    };
    Ok(probe_from_facts(has_alpha, has_animation, color, av1))
}

/// Each field of a probe result is the like-named fact: the size, depth,
/// profile, monochrome flag and lossless flag of the AV1 header; the alpha
/// and animation flags as given; each CICP field of an `nclx` box its own
/// field of that box; no CICP fields but the ICC flag for an ICC box; and
/// nothing for an absent box.
pub proof fn law_probe_fields_are_the_facts(p: AvifProbe, has_alpha: bool, has_animation: bool, color: ColorFacts, av1: Av1Facts)
    requires
        probe_matches(p, has_alpha, has_animation, color, av1),
    ensures
        p.width == av1.max_frame_width,
        p.height == av1.max_frame_height,
        p.bit_depth == av1.bit_depth,
        p.profile == av1.seq_profile,
        p.monochrome == av1.monochrome,
        p.has_alpha == has_alpha,
        p.has_animation == has_animation,
        p.lossless == av1.lossless,
        p.quality matches Some(q) ==> av1.base_q_idx == Some(q.quantizer),
        p.quality is None <==> av1.base_q_idx is None,
        color matches ColorFacts::Nclx { color_primaries, transfer_characteristics, matrix_coefficients, full_range } ==> {
            &&& p.color_primaries == Some(color_primaries as u8)
            &&& p.transfer_characteristics == Some(transfer_characteristics as u8)
            &&& p.matrix_coefficients == Some(matrix_coefficients as u8)
            &&& p.full_range == Some(full_range)
            &&& !p.has_icc_profile
        },
        !(color is Nclx) ==> {
            &&& p.color_primaries is None && p.transfer_characteristics is None
            &&& p.matrix_coefficients is None && p.full_range is None
            &&& p.has_icc_profile == (color is IccProfile)
        },
{
}

/// Chroma classification: monochrome wins; otherwise both subsampling flags
/// give 4:2:0, only the horizontal flag 4:2:2, neither 4:4:4.
pub proof fn law_chroma_classification(monochrome: bool, sx: bool, sy: bool)
    ensures
        monochrome ==> chroma_of(monochrome, sx, sy) == ChromaSampling::Monochrome,
        !monochrome && sx && sy ==> chroma_of(monochrome, sx, sy) == ChromaSampling::Yuv420,
        !monochrome && sx && !sy ==> chroma_of(monochrome, sx, sy) == ChromaSampling::Yuv422,
        !monochrome && !sx ==> chroma_of(monochrome, sx, sy) == ChromaSampling::Yuv444,
{
}

} // verus!
