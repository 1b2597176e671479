//! Trusted access to the AVIF container parser and the AV1 header parser
//! of the `zenavif-parse` crate. Every item here is believed, not proved.

use vstd::prelude::*;
use crate::detect::{Av1Facts, ColorFacts};
use crate::image_info::{Av1ConfigFacts, CleanApertureFacts};
use crate::settings::MasteringDisplayConfig;
use crate::knobs::DecodedAnimationInfo;

verus! {

/// The container parser's failure, one variant per parser error variant.
#[derive(Debug, Clone, Copy, PartialEq, Eq, Structural)]
pub enum ParseErrorKind {
    InvalidData,
    Unsupported,
    UnexpectedEof,
    Io,
    NoMoov,
    OutOfMemory,
    ResourceLimitExceeded,
    Stopped,
}

#[verifier::external_type_specification]
#[verifier::external_body]
pub struct ExAvifParser<'a>(zenavif_parse::AvifParser<'a>);

/// Whether (and how) the container parser rejects these bytes.
pub uninterp spec fn avif_container_outcome(data: Seq<u8>) -> Result<(), ParseErrorKind>;

/// The sequence/frame-header facts the AV1 header parser extracts from an
/// OBU stream, or `None` when it rejects the stream.
pub uninterp spec fn av1_header_facts(obu: Seq<u8>) -> Option<Av1Facts>;

/// Calls `zenavif_parse::AvifParser::from_bytes` (default limits, never
/// cancelled). Claimed: the parse succeeds or fails, with which error, as
/// a function of the bytes alone; the error is reported by its variant.
#[verifier::external_body]
pub(crate) fn parse_avif_container<'a>(data: &'a [u8]) -> (r: Result<zenavif_parse::AvifParser<'a>, ParseErrorKind>)
    ensures
        r is Ok <==> avif_container_outcome(data@) is Ok,
        r is Err ==> avif_container_outcome(data@) == Err::<(), ParseErrorKind>(r->Err_0),
{
    match zenavif_parse::AvifParser::from_bytes(data) {
        Ok(p) => Ok(p),
        Err(zenavif_parse::Error::InvalidData(_)) => Err(ParseErrorKind::InvalidData),
        Err(zenavif_parse::Error::Unsupported(_)) => Err(ParseErrorKind::Unsupported),
        Err(zenavif_parse::Error::UnexpectedEOF) => Err(ParseErrorKind::UnexpectedEof),
        Err(zenavif_parse::Error::Io(_)) => Err(ParseErrorKind::Io),
        Err(zenavif_parse::Error::NoMoov) => Err(ParseErrorKind::NoMoov),
        Err(zenavif_parse::Error::OutOfMemory) => Err(ParseErrorKind::OutOfMemory),
        Err(zenavif_parse::Error::ResourceLimitExceeded(_)) => Err(ParseErrorKind::ResourceLimitExceeded),
        Err(zenavif_parse::Error::Stopped(_)) => Err(ParseErrorKind::Stopped),
    }
}

/// A parsed AVIF container together with the bytes it was parsed from.
/// Only [`open_container`] builds one, so its view is always the source.
pub struct AvifContainer<'a> {
    parser: zenavif_parse::AvifParser<'a>,
    source: Ghost<Seq<u8>>,
}

impl<'a> View for AvifContainer<'a> {
    type V = Seq<u8>;

    /// The bytes the container was parsed from.
    closed spec fn view(&self) -> Seq<u8> {
        self.source@
    }
}

/// Parse the container of an AVIF file, remembering its source bytes.
pub fn open_container<'a>(data: &'a [u8]) -> (r: Result<AvifContainer<'a>, ParseErrorKind>)
    ensures
        r is Ok <==> avif_container_outcome(data@) is Ok,
        r matches Err(e) ==> avif_container_outcome(data@) == Err::<(), ParseErrorKind>(e),
        r matches Ok(c) ==> c@ == data@,
{
    match parse_avif_container(data) {
        Ok(parser) => Ok(AvifContainer { parser, source: Ghost(data@) }),
        Err(e) => Err(e),
    }
}

/// Whether `AvifParser::alpha_data` finds an alpha item in these bytes.
pub uninterp spec fn container_alpha_present(data: Seq<u8>) -> bool;

/// What `AvifParser::animation_info` reports for these bytes.
pub uninterp spec fn container_animation(data: Seq<u8>) -> Option<DecodedAnimationInfo>;

/// What `AvifParser::color_info` reports for these bytes: the `colr` facts
/// and, for an ICC profile, its bytes.
pub uninterp spec fn container_colour(data: Seq<u8>) -> (ColorFacts, Option<Seq<u8>>);

/// What `AvifParser::primary_data` gives for these bytes.
pub uninterp spec fn container_primary(data: Seq<u8>) -> Result<Seq<u8>, ParseErrorKind>;

/// The grid output size `AvifParser::grid_config` reports for these bytes.
pub uninterp spec fn container_grid(data: Seq<u8>) -> Option<(u32, u32)>;

/// Whether `AvifParser::alpha_metadata` finds an alpha item in these bytes.
pub uninterp spec fn container_alpha_item(data: Seq<u8>) -> bool;

/// The `av1C` fields `AvifParser::av1_config` reports for these bytes.
pub uninterp spec fn container_codec_config(data: Seq<u8>) -> Option<Av1ConfigFacts>;

/// What `AvifParser::premultiplied_alpha` reports for these bytes.
pub uninterp spec fn container_premultiplied(data: Seq<u8>) -> bool;

/// The AV1 payload `AvifParser::frame` gives for frame `index` of these bytes.
pub uninterp spec fn container_frame(data: Seq<u8>, index: usize) -> Result<Seq<u8>, ParseErrorKind>;

/// Calls `AvifParser::alpha_data` and reports whether an alpha item exists.
/// Claimed: the answer is a function of the source bytes alone.
#[verifier::external_body]
pub(crate) fn container_has_alpha(c: &AvifContainer<'_>) -> (r: bool)
    ensures
        r == container_alpha_present(c@),
{
    c.parser.alpha_data().is_some()
}

/// Calls `AvifParser::animation_info` and copies the animation metadata
/// (`None` for a still image). Claimed: a function of the source bytes alone.
#[verifier::external_body]
pub(crate) fn container_animation_info(c: &AvifContainer<'_>) -> (r: Option<DecodedAnimationInfo>)
    ensures
        r == container_animation(c@),
{
    c.parser.animation_info().map(|a| DecodedAnimationInfo {
        frame_count: a.frame_count,
        loop_count: a.loop_count,
        has_alpha: a.has_alpha,
        timescale: a.timescale,
    })
}

/// Calls `AvifParser::color_info` and converts the `colr` box to plain
/// values, with the ICC profile bytes when it is one. Claimed: a function
/// of the source bytes alone.
#[verifier::external_body]
pub(crate) fn container_color(c: &AvifContainer<'_>) -> (r: (ColorFacts, Option<Vec<u8>>))
    ensures
        r.0 == container_colour(c@).0,
        match container_colour(c@).1 {
            Some(b) => r.1 matches Some(v) && v@ == b,
            None => r.1 is None,
        },
{
    match c.parser.color_info() {
        Some(zenavif_parse::ColorInformation::Nclx { color_primaries, transfer_characteristics, matrix_coefficients, full_range }) =>
            (ColorFacts::Nclx {
                color_primaries: *color_primaries,
                transfer_characteristics: *transfer_characteristics,
                matrix_coefficients: *matrix_coefficients,
                full_range: *full_range,
            }, None),
        Some(zenavif_parse::ColorInformation::IccProfile(icc)) => (ColorFacts::IccProfile, Some(icc.clone())),
        None => (ColorFacts::Absent, None),
    }
}

/// Calls `AvifParser::primary_data` and copies the primary item's AV1
/// payload, or reports the parser error by its variant. Claimed: a function
/// of the source bytes alone.
#[verifier::external_body]
pub(crate) fn container_primary_data(c: &AvifContainer<'_>) -> (r: Result<Vec<u8>, ParseErrorKind>)
    ensures
        match container_primary(c@) {
            Ok(b) => r matches Ok(v) && v@ == b,
            Err(e) => r == Err::<Vec<u8>, ParseErrorKind>(e),
        },
{
    match c.parser.primary_data() {
        Ok(d) => Ok(d.into_owned()),
        Err(zenavif_parse::Error::InvalidData(_)) => Err(ParseErrorKind::InvalidData),
        Err(zenavif_parse::Error::Unsupported(_)) => Err(ParseErrorKind::Unsupported),
        Err(zenavif_parse::Error::UnexpectedEOF) => Err(ParseErrorKind::UnexpectedEof),
        Err(zenavif_parse::Error::Io(_)) => Err(ParseErrorKind::Io),
        Err(zenavif_parse::Error::NoMoov) => Err(ParseErrorKind::NoMoov),
        Err(zenavif_parse::Error::OutOfMemory) => Err(ParseErrorKind::OutOfMemory),
        Err(zenavif_parse::Error::ResourceLimitExceeded(_)) => Err(ParseErrorKind::ResourceLimitExceeded),
        Err(zenavif_parse::Error::Stopped(_)) => Err(ParseErrorKind::Stopped),
    }
}

/// Calls `AvifParser::frame` and copies the frame's AV1 payload, or reports
/// the parser error by its variant. Claimed: a function of the source bytes
/// and the index alone.
#[verifier::external_body]
pub(crate) fn container_frame_data(c: &AvifContainer<'_>, index: usize) -> (r: Result<Vec<u8>, ParseErrorKind>)
    ensures
        match container_frame(c@, index) {
            Ok(b) => r matches Ok(v) && v@ == b,
            Err(e) => r == Err::<Vec<u8>, ParseErrorKind>(e),
        },
{
    match c.parser.frame(index) {
        Ok(f) => Ok(f.data.into_owned()),
        Err(zenavif_parse::Error::InvalidData(_)) => Err(ParseErrorKind::InvalidData),
        Err(zenavif_parse::Error::Unsupported(_)) => Err(ParseErrorKind::Unsupported),
        Err(zenavif_parse::Error::UnexpectedEOF) => Err(ParseErrorKind::UnexpectedEof),
        Err(zenavif_parse::Error::Io(_)) => Err(ParseErrorKind::Io),
        Err(zenavif_parse::Error::NoMoov) => Err(ParseErrorKind::NoMoov),
        Err(zenavif_parse::Error::OutOfMemory) => Err(ParseErrorKind::OutOfMemory),
        Err(zenavif_parse::Error::ResourceLimitExceeded(_)) => Err(ParseErrorKind::ResourceLimitExceeded),
        Err(zenavif_parse::Error::Stopped(_)) => Err(ParseErrorKind::Stopped),
    }
}

/// Calls `AvifParser::grid_config` and returns the declared output size of
/// a grid image (`None` when the primary item is not a grid). Claimed: a
/// function of the source bytes alone.
#[verifier::external_body]
pub(crate) fn container_grid_output(c: &AvifContainer<'_>) -> (r: Option<(u32, u32)>)
    ensures
        r == container_grid(c@),
{
    c.parser.grid_config().map(|g| (g.output_width, g.output_height))
}

/// Calls `AvifParser::alpha_metadata` and reports whether an alpha item
/// exists (whether or not its header parses). Claimed: a function of the
/// source bytes alone.
#[verifier::external_body]
pub(crate) fn container_has_alpha_metadata(c: &AvifContainer<'_>) -> (r: bool)
    ensures
        r == container_alpha_item(c@),
{
    c.parser.alpha_metadata().is_some()
}

/// Calls `AvifParser::av1_config` and copies the `av1C` fields the image
/// description needs. Claimed: a function of the source bytes alone.
#[verifier::external_body]
pub(crate) fn container_av1_config(c: &AvifContainer<'_>) -> (r: Option<Av1ConfigFacts>)
    ensures
        r == container_codec_config(c@),
{
    c.parser.av1_config().map(|a| Av1ConfigFacts {
        bit_depth: a.bit_depth,
        monochrome: a.monochrome,
        chroma_subsampling_x: a.chroma_subsampling_x,
        chroma_subsampling_y: a.chroma_subsampling_y,
    })
}

/// Calls `AvifParser::premultiplied_alpha`. Claimed: a function of the
/// source bytes alone.
#[verifier::external_body]
pub(crate) fn container_premultiplied_alpha(c: &AvifContainer<'_>) -> (r: bool)
    ensures
        r == container_premultiplied(c@),
{
    c.parser.premultiplied_alpha()
}

/// The rotation angle `AvifParser::rotation` reports for these bytes.
pub uninterp spec fn container_rotation(data: Seq<u8>) -> Option<u16>;

/// The mirror axis `AvifParser::mirror` reports for these bytes.
pub uninterp spec fn container_mirror(data: Seq<u8>) -> Option<u8>;

/// The clean aperture `AvifParser::clean_aperture` reports for these bytes.
pub uninterp spec fn container_clean_aperture(data: Seq<u8>) -> Option<CleanApertureFacts>;

/// The `(h, v)` spacing `AvifParser::pixel_aspect_ratio` reports for these bytes.
pub uninterp spec fn container_pixel_aspect(data: Seq<u8>) -> Option<(u32, u32)>;

/// The `(max CLL, max FALL)` `AvifParser::content_light_level` reports for these bytes.
pub uninterp spec fn container_light_level(data: Seq<u8>) -> Option<(u16, u16)>;

/// The mastering display `AvifParser::mastering_display` reports for these bytes.
pub uninterp spec fn container_mastering(data: Seq<u8>) -> Option<MasteringDisplayConfig>;

/// The EXIF payload `AvifParser::exif` resolves for these bytes (`None`
/// when absent or unresolvable).
pub uninterp spec fn container_exif_bytes(data: Seq<u8>) -> Option<Seq<u8>>;

/// The XMP payload `AvifParser::xmp` resolves for these bytes (`None`
/// when absent or unresolvable).
pub uninterp spec fn container_xmp_bytes(data: Seq<u8>) -> Option<Seq<u8>>;

/// The gain map `AvifParser::gain_map` resolves for these bytes: its
/// metadata in `tmap` wire form and its AV1 payload (`None` when absent or
/// unresolvable).
pub uninterp spec fn container_gain_map_item(data: Seq<u8>) -> Option<(Seq<u8>, Seq<u8>)>;

/// What `AvifParser::gain_map_color_info` reports for these bytes: the
/// alternate rendition's `colr` facts and, for an ICC profile, its bytes.
pub uninterp spec fn container_gain_map_colour(data: Seq<u8>) -> (ColorFacts, Option<Seq<u8>>);

/// Calls `AvifParser::rotation` and copies the angle. Claimed: a function
/// of the source bytes alone.
#[verifier::external_body]
pub(crate) fn container_rotation_angle(c: &AvifContainer<'_>) -> (r: Option<u16>)
    ensures
        r == container_rotation(c@),
{
    c.parser.rotation().map(|x| x.angle)
}

/// Calls `AvifParser::mirror` and copies the axis. Claimed: a function of
/// the source bytes alone.
#[verifier::external_body]
pub(crate) fn container_mirror_axis(c: &AvifContainer<'_>) -> (r: Option<u8>)
    ensures
        r == container_mirror(c@),
{
    c.parser.mirror().map(|x| x.axis)
}

/// Calls `AvifParser::clean_aperture` and copies its fields. Claimed: a
/// function of the source bytes alone.
#[verifier::external_body]
pub(crate) fn container_clap(c: &AvifContainer<'_>) -> (r: Option<CleanApertureFacts>)
    ensures
        r == container_clean_aperture(c@),
{
    c.parser.clean_aperture().map(|a| CleanApertureFacts {
        width_n: a.width_n, width_d: a.width_d, height_n: a.height_n, height_d: a.height_d,
        horiz_off_n: a.horiz_off_n, horiz_off_d: a.horiz_off_d, vert_off_n: a.vert_off_n, vert_off_d: a.vert_off_d,
    })
}

/// Calls `AvifParser::pixel_aspect_ratio` and copies the spacings.
/// Claimed: a function of the source bytes alone.
#[verifier::external_body]
pub(crate) fn container_pasp(c: &AvifContainer<'_>) -> (r: Option<(u32, u32)>)
    ensures
        r == container_pixel_aspect(c@),
{
    c.parser.pixel_aspect_ratio().map(|p| (p.h_spacing, p.v_spacing))
}

/// Calls `AvifParser::content_light_level` and copies both levels.
/// Claimed: a function of the source bytes alone.
#[verifier::external_body]
pub(crate) fn container_clli(c: &AvifContainer<'_>) -> (r: Option<(u16, u16)>)
    ensures
        r == container_light_level(c@),
{
    c.parser.content_light_level().map(|l| (l.max_content_light_level, l.max_pic_average_light_level))
}

/// Calls `AvifParser::mastering_display` and copies its fields. Claimed: a
/// function of the source bytes alone.
#[verifier::external_body]
pub(crate) fn container_mdcv(c: &AvifContainer<'_>) -> (r: Option<MasteringDisplayConfig>)
    ensures
        r == container_mastering(c@),
{
    c.parser.mastering_display().map(|m| MasteringDisplayConfig {
        primaries: m.primaries,
        white_point: m.white_point,
        max_luminance: m.max_luminance,
        min_luminance: m.min_luminance,
    })
}

/// Calls `AvifParser::exif` and copies the payload; an unresolvable item
/// gives `None`. Claimed: a function of the source bytes alone.
#[verifier::external_body]
pub(crate) fn container_exif(c: &AvifContainer<'_>) -> (r: Option<Vec<u8>>)
    ensures
        match container_exif_bytes(c@) {
            Some(b) => r matches Some(v) && v@ == b,
            None => r is None,
        },
{
    match c.parser.exif() {
        Some(Ok(d)) => Some(d.into_owned()),
        _ => None,
    }
}

/// Calls `AvifParser::xmp` and copies the payload; an unresolvable item
/// gives `None`. Claimed: a function of the source bytes alone.
#[verifier::external_body]
pub(crate) fn container_xmp(c: &AvifContainer<'_>) -> (r: Option<Vec<u8>>)
    ensures
        match container_xmp_bytes(c@) {
            Some(b) => r matches Some(v) && v@ == b,
            None => r is None,
        },
{
    match c.parser.xmp() {
        Some(Ok(d)) => Some(d.into_owned()),
        _ => None,
    }
}

/// Calls `AvifParser::gain_map` and returns the metadata, written in `tmap`
/// wire form by `GainMapMetadata::to_bytes`, and the AV1 payload; an
/// unresolvable gain map gives `None`. Claimed: a function of the source
/// bytes alone.
#[verifier::external_body]
pub(crate) fn container_gain_map(c: &AvifContainer<'_>) -> (r: Option<(Vec<u8>, Vec<u8>)>)
    ensures
        match container_gain_map_item(c@) {
            Some((t, d)) => r matches Some(v) && v.0@ == t && v.1@ == d,
            None => r is None,
        },
{
    match c.parser.gain_map() {
        Some(Ok(g)) => Some((g.metadata.to_bytes(), g.gain_map_data)),
        _ => None,
    }
}

/// Calls `AvifParser::gain_map_color_info` and converts the alternate
/// rendition's `colr` box to plain values, with the ICC bytes when it is
/// one. Claimed: a function of the source bytes alone.
#[verifier::external_body]
pub(crate) fn container_gain_map_color(c: &AvifContainer<'_>) -> (r: (ColorFacts, Option<Vec<u8>>))
    ensures
        r.0 == container_gain_map_colour(c@).0,
        match container_gain_map_colour(c@).1 {
            Some(b) => r.1 matches Some(v) && v@ == b,
            None => r.1 is None,
        },
{
    match c.parser.gain_map_color_info() {
        Some(zenavif_parse::ColorInformation::Nclx { color_primaries, transfer_characteristics, matrix_coefficients, full_range }) =>
            (ColorFacts::Nclx {
                color_primaries: *color_primaries,
                transfer_characteristics: *transfer_characteristics,
                matrix_coefficients: *matrix_coefficients,
                full_range: *full_range,
            }, None),
        Some(zenavif_parse::ColorInformation::IccProfile(icc)) => (ColorFacts::IccProfile, Some(icc.clone())),
        None => (ColorFacts::Absent, None),
    }
}

/// Calls `zenavif_parse::AV1Metadata::parse_av1_bitstream`. Claimed: its
/// result is a function of the OBU bytes alone.
#[verifier::external_body]
pub(crate) fn parse_av1_header(obu: &[u8]) -> (r: Option<Av1Facts>)
    ensures
        r == av1_header_facts(obu@),
{
    match zenavif_parse::AV1Metadata::parse_av1_bitstream(obu) {
        Ok(m) => Some(Av1Facts {
            max_frame_width: m.max_frame_width.get(),
            max_frame_height: m.max_frame_height.get(),
            bit_depth: m.bit_depth,
            seq_profile: m.seq_profile,
            monochrome: m.monochrome,
            subsampling_x: m.chroma_subsampling.horizontal,
            subsampling_y: m.chroma_subsampling.vertical,
            base_q_idx: m.base_q_idx,
            lossless: m.lossless,
        }),
        Err(_) => None,
    }
}

} // verus!
