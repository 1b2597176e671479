//! Decode-free image description of an AVIF file: dimensions, depth,
//! alpha, colour description and chroma layout, from the container and
//! the AV1 sequence header, with the documented precedence and defaults.

use vstd::prelude::*;
use crate::avif_container::{
    av1_header_facts, avif_container_outcome, container_alpha_item, container_animation,
    container_animation_info, container_av1_config, container_codec_config, container_color,
    container_colour, container_frame, container_frame_data, container_grid, container_grid_output,
    container_has_alpha_metadata, container_premultiplied, container_premultiplied_alpha,
    container_primary, container_primary_data, open_container, parse_av1_header, ParseErrorKind,
    container_clap, container_clean_aperture, container_clli, container_exif, container_exif_bytes,
    container_gain_map, container_gain_map_color, container_gain_map_colour, container_gain_map_item,
    container_light_level, container_mastering, container_mdcv, container_mirror, container_mirror_axis,
    container_pasp, container_pixel_aspect, container_rotation, container_rotation_angle, container_xmp,
    container_xmp_bytes, AvifContainer,
};
use crate::settings::MasteringDisplayConfig;
use crate::knobs::DecodedAnimationInfo;
use crate::cicp::{
    convert_color_primaries, convert_transfer, decoder_primaries_known, decoder_transfer_known, keep_if,
    ChromaSampling, ColorPrimaries, ColorRange, MatrixCoefficients, TransferCharacteristics,
};
use crate::detect::{Av1Facts, ColorFacts};

verus! {

/// The `av1C` codec-configuration fields the description reads.
#[derive(Debug, Clone, Copy, PartialEq, Eq, Structural)]
pub struct Av1ConfigFacts {
    pub bit_depth: u8,
    pub monochrome: bool,
    /// 1 when chroma is horizontally subsampled.
    pub chroma_subsampling_x: u8,
    /// 1 when chroma is vertically subsampled.
    pub chroma_subsampling_y: u8,
}

/// What the container says about the primary image.
#[derive(Debug, Clone, Copy, PartialEq, Eq)]
pub struct ContainerFacts {
    /// An alpha auxiliary item exists.
    pub has_alpha_item: bool,
    pub av1_config: Option<Av1ConfigFacts>,
    pub color: ColorFacts,
    pub premultiplied_alpha: bool,
}

/// Clean aperture (crop) from the `clap` box, as exact rationals.
#[derive(Debug, Clone, Copy, PartialEq, Eq, Structural)]
pub struct CleanApertureFacts {
    pub width_n: u32,
    pub width_d: u32,
    pub height_n: u32,
    pub height_d: u32,
    pub horiz_off_n: i32,
    pub horiz_off_d: u32,
    pub vert_off_n: i32,
    pub vert_off_d: u32,
}

/// A gain map found in the container.
#[derive(Debug, Clone, PartialEq, Eq)]
pub struct GainMapInfo {
    /// ISO 21496-1 metadata in `tmap` wire form.
    pub metadata: Vec<u8>,
    /// The gain map's AV1 payload.
    pub data: Vec<u8>,
    /// The alternate rendition's colour box.
    pub alt_color: ColorFacts,
    /// The alternate rendition's ICC profile, when its colour box is one.
    pub alt_icc: Option<Vec<u8>>,
}

/// Orientation, HDR and attached metadata of the primary item.
#[derive(Debug, Clone, PartialEq, Eq)]
pub struct ItemMetadata {
    /// Counter-clockwise rotation in degrees (`irot`).
    pub rotation: Option<u16>,
    /// Mirror axis (`imir`).
    pub mirror: Option<u8>,
    pub clean_aperture: Option<CleanApertureFacts>,
    /// `(h, v)` pixel spacing (`pasp`).
    pub pixel_aspect_ratio: Option<(u32, u32)>,
    /// `(max CLL, max FALL)` in cd/m² (`clli`).
    pub content_light_level: Option<(u16, u16)>,
    pub mastering_display: Option<MasteringDisplayConfig>,
    pub exif: Option<Vec<u8>>,
    pub xmp: Option<Vec<u8>>,
    pub gain_map: Option<GainMapInfo>,
}

/// `m` is the metadata the container reports for these bytes.
pub open spec fn item_metadata_matches(m: ItemMetadata, data: Seq<u8>) -> bool {
    &&& m.rotation == container_rotation(data)
    &&& m.mirror == container_mirror(data)
    &&& m.clean_aperture == container_clean_aperture(data)
    &&& m.pixel_aspect_ratio == container_pixel_aspect(data)
    &&& m.content_light_level == container_light_level(data)
    &&& m.mastering_display == container_mastering(data)
    &&& icc_view(m.exif) == container_exif_bytes(data)
    &&& icc_view(m.xmp) == container_xmp_bytes(data)
    &&& match container_gain_map_item(data) {
        None => m.gain_map is None,
        Some((tmap, payload)) => m.gain_map matches Some(g) && {
            &&& g.metadata@ == tmap
            &&& g.data@ == payload
            &&& g.alt_color == container_gain_map_colour(data).0
            &&& icc_view(g.alt_icc) == container_gain_map_colour(data).1
        },
    }
}

/// Read the orientation, HDR and attached metadata of a parsed container.
pub fn read_item_metadata(c: &AvifContainer<'_>) -> (r: ItemMetadata)
    ensures
        item_metadata_matches(r, c@),
{
    let gain_map = match container_gain_map(c) {
        Some((metadata, data)) => {
            let (alt_color, alt_icc) = container_gain_map_color(c);
            Some(GainMapInfo { metadata, data, alt_color, alt_icc })
        },
        None => None,
    };
    ItemMetadata {
        rotation: container_rotation_angle(c),
        mirror: container_mirror_axis(c),
        clean_aperture: container_clap(c),
        pixel_aspect_ratio: container_pasp(c),
        content_light_level: container_clli(c),
        mastering_display: container_mdcv(c),
        exif: container_exif(c),
        xmp: container_xmp(c),
        gain_map,
    }
}

/// Metadata about an image, without its pixels.
#[derive(Debug, Clone, PartialEq, Eq)]
pub struct ImageInfoCore {
    pub width: u32,
    pub height: u32,
    /// 8, 10 or 12.
    pub bit_depth: u8,
    pub has_alpha: bool,
    pub premultiplied_alpha: bool,
    pub monochrome: bool,
    pub color_primaries: ColorPrimaries,
    pub transfer_characteristics: TransferCharacteristics,
    pub matrix_coefficients: MatrixCoefficients,
    pub color_range: ColorRange,
    pub chroma_sampling: ChromaSampling,
    /// ICC profile from the container's `colr` box, if it carries one.
    pub icc_profile: Option<Vec<u8>>,
    /// Orientation, HDR and attached metadata.
    pub metadata: ItemMetadata,
}

/// Chroma layout from `av1C`; 4:2:0 when the box is absent.
pub open spec fn chroma_from_config(cfg: Option<Av1ConfigFacts>) -> ChromaSampling {
    match cfg {
        Some(c) => if c.monochrome {
            ChromaSampling::Monochrome
        } else if c.chroma_subsampling_x != 0 && c.chroma_subsampling_y != 0 {
            ChromaSampling::Cs420
        } else if c.chroma_subsampling_x != 0 {
            ChromaSampling::Cs422
        } else {
            ChromaSampling::Cs444
        },
        None => ChromaSampling::Cs420,
    }
}

/// `info` describes a still image with these container facts, picture
/// size and ICC bytes: container `nclx` code points win, otherwise
/// BT.709 primaries, sRGB transfer, BT.601 matrix and full range; depth
/// from `av1C` (8 when absent); alpha when an alpha item exists.
pub open spec fn still_info_matches(info: ImageInfoCore, facts: ContainerFacts, width: u32, height: u32, icc: Option<Seq<u8>>) -> bool {
    let chroma = chroma_from_config(facts.av1_config);
    &&& info.width == width && info.height == height
    &&& info.bit_depth == (match facts.av1_config { Some(c) => c.bit_depth, None => 8u8 })
    &&& info.has_alpha == facts.has_alpha_item
    &&& info.premultiplied_alpha == facts.premultiplied_alpha
    &&& info.chroma_sampling == chroma
    &&& info.monochrome == (chroma == ChromaSampling::Monochrome)
    &&& match facts.color {
        ColorFacts::Nclx { color_primaries, transfer_characteristics, matrix_coefficients, full_range } => {
            &&& info.color_primaries == ColorPrimaries(color_primaries as u8)
            &&& info.transfer_characteristics == TransferCharacteristics(transfer_characteristics as u8)
            &&& info.matrix_coefficients == MatrixCoefficients(matrix_coefficients as u8)
            &&& info.color_range == (if full_range { ColorRange::Full } else { ColorRange::Limited })
        },
        _ => {
            &&& info.color_primaries == ColorPrimaries(1)
            &&& info.transfer_characteristics == TransferCharacteristics(13)
            &&& info.matrix_coefficients == MatrixCoefficients(6)
            &&& info.color_range == ColorRange::Full
        },
    }
    &&& icc_view(info.icc_profile) == (match facts.color {
        ColorFacts::IccProfile => icc,
        _ => None,
    })
}

/// The bytes of an optional ICC profile.
pub open spec fn icc_view(icc: Option<Vec<u8>>) -> Option<Seq<u8>> {
    match icc {
        Some(v) => Some(v@),
        None => None,
    }
}

/// Describe a still image from its container facts and picture size.
pub fn still_image_info(facts: ContainerFacts, width: u32, height: u32, icc: Option<Vec<u8>>, metadata: ItemMetadata) -> (r: ImageInfoCore)
    ensures
        still_info_matches(r, facts, width, height, icc_view(icc)),
        r.metadata == metadata,
{
    let chroma = match facts.av1_config {
        Some(c) => if c.monochrome {
            ChromaSampling::Monochrome
        } else if c.chroma_subsampling_x != 0 && c.chroma_subsampling_y != 0 {
            ChromaSampling::Cs420
        } else if c.chroma_subsampling_x != 0 {
            ChromaSampling::Cs422
        } else {
            ChromaSampling::Cs444
        },
        None => ChromaSampling::Cs420,
    };
    let bit_depth: u8 = match facts.av1_config {
        Some(c) => c.bit_depth,
        None => 8,
    };
    let (cp, tc, mc, range) = match facts.color {
        ColorFacts::Nclx { color_primaries, transfer_characteristics, matrix_coefficients, full_range } => (
            ColorPrimaries(color_primaries as u8),
            TransferCharacteristics(transfer_characteristics as u8),
            MatrixCoefficients(matrix_coefficients as u8),
            if full_range { ColorRange::Full } else { ColorRange::Limited },
        ),
        _ => (ColorPrimaries(1), TransferCharacteristics(13), MatrixCoefficients(6), ColorRange::Full),
    };
    let icc_profile = match facts.color {
        ColorFacts::IccProfile => icc,
        _ => None,
    };
    ImageInfoCore {
        width,
        height,
        bit_depth,
        has_alpha: facts.has_alpha_item,
        premultiplied_alpha: facts.premultiplied_alpha,
        monochrome: chroma == ChromaSampling::Monochrome,
        color_primaries: cp,
        transfer_characteristics: tc,
        matrix_coefficients: mc,
        color_range: range,
        chroma_sampling: chroma,
        icc_profile,
        metadata,
    }
}

/// `info` describes an animation from its track metadata, the AV1 header
/// of its first frame and the colour box the parser reports (the track's
/// for an AVIF sequence): size, depth and chroma from the header, alpha
/// from the track, primaries and transfer from an `nclx` box, an ICC
/// profile from an ICC box. The parser does not expose the header's colour
/// description, so without an `nclx` box primaries and transfer are the
/// unspecified code point 2, and the matrix is always 2 with full range.
pub open spec fn animation_info_matches(
    info: ImageInfoCore,
    track: DecodedAnimationInfo,
    f: Av1Facts,
    color: ColorFacts,
    icc: Option<Seq<u8>>,
    premultiplied: bool,
) -> bool {
    let chroma = if f.monochrome {
        ChromaSampling::Monochrome
    } else if f.subsampling_x && f.subsampling_y {
        ChromaSampling::Cs420
    } else if f.subsampling_x {
        ChromaSampling::Cs422
    } else {
        ChromaSampling::Cs444
    };
    &&& info.width == f.max_frame_width && info.height == f.max_frame_height
    &&& info.bit_depth == f.bit_depth
    &&& info.has_alpha == track.has_alpha
    &&& info.premultiplied_alpha == premultiplied
    &&& info.chroma_sampling == chroma
    &&& info.monochrome == (chroma == ChromaSampling::Monochrome)
    &&& match color {
        ColorFacts::Nclx { color_primaries, transfer_characteristics, .. } => {
            &&& info.color_primaries == ColorPrimaries(color_primaries as u8)
            &&& info.transfer_characteristics == TransferCharacteristics(transfer_characteristics as u8)
        },
        _ => {
            &&& info.color_primaries == ColorPrimaries(2)
            &&& info.transfer_characteristics == TransferCharacteristics(2)
        },
    }
    &&& info.matrix_coefficients == MatrixCoefficients(2)
    &&& info.color_range == ColorRange::Full
    &&& icc_view(info.icc_profile) == (match color {
        ColorFacts::IccProfile => icc,
        _ => None,
    })
}

/// Describe an animation from its track metadata, the AV1 header facts of
/// its first frame, the reported colour box and premultiplication, and the
/// container metadata.
pub fn animation_image_info(
    track: DecodedAnimationInfo,
    f: Av1Facts,
    color: ColorFacts,
    icc: Option<Vec<u8>>,
    premultiplied: bool,
    metadata: ItemMetadata,
) -> (r: ImageInfoCore)
    ensures
        animation_info_matches(r, track, f, color, icc_view(icc), premultiplied),
        r.metadata == metadata,
{
    let chroma = if f.monochrome {
        ChromaSampling::Monochrome
    } else if f.subsampling_x && f.subsampling_y {
        ChromaSampling::Cs420
    } else if f.subsampling_x {
        ChromaSampling::Cs422
    } else {
        ChromaSampling::Cs444
    };
    let (cp, tc) = match color {
        ColorFacts::Nclx { color_primaries, transfer_characteristics, .. } =>
            (ColorPrimaries(color_primaries as u8), TransferCharacteristics(transfer_characteristics as u8)),
        _ => (ColorPrimaries(2), TransferCharacteristics(2)),
    };
    let icc_profile = match color {
        ColorFacts::IccProfile => icc,
        _ => None,
    };
    ImageInfoCore {
        width: f.max_frame_width,
        height: f.max_frame_height,
        bit_depth: f.bit_depth,
        has_alpha: track.has_alpha,
        premultiplied_alpha: premultiplied,
        monochrome: chroma == ChromaSampling::Monochrome,
        color_primaries: cp,
        transfer_characteristics: tc,
        matrix_coefficients: MatrixCoefficients(2),
        color_range: ColorRange::Full,
        chroma_sampling: chroma,
        icc_profile,
        metadata,
    }
}

/// Why an image cannot be described.
#[derive(Debug, Clone, Copy, PartialEq, Eq, Structural)]
pub enum ProbeInfoError {
    /// The container parser refused the file, its primary item or the
    /// animation's first frame.
    Parse(ParseErrorKind),
    /// The AV1 sequence header that gives the size does not parse.
    SequenceHeader,
}

/// The container facts of the primary image of these bytes.
pub open spec fn container_facts_of(data: Seq<u8>) -> ContainerFacts {
    ContainerFacts {
        has_alpha_item: container_alpha_item(data),
        av1_config: container_codec_config(data),
        color: container_colour(data).0,
        premultiplied_alpha: container_premultiplied(data),
    }
}

/// The result `probe_info` gives for these bytes. An animation whose
/// primary item is empty is described from its first frame; otherwise a
/// grid takes the grid's declared size and a single item the size in its
/// AV1 sequence header.
pub open spec fn probe_info_outcome(data: Seq<u8>, r: Result<ImageInfoCore, ProbeInfoError>) -> bool {
    match avif_container_outcome(data) {
        Err(e) => r == Err::<ImageInfoCore, ProbeInfoError>(ProbeInfoError::Parse(e)),
        Ok(_) => match container_primary(data) {
            Err(e) => r == Err::<ImageInfoCore, ProbeInfoError>(ProbeInfoError::Parse(e)),
            Ok(primary) => if primary.len() == 0 && container_animation(data) is Some {
                match container_frame(data, 0) {
                    Err(e) => r == Err::<ImageInfoCore, ProbeInfoError>(ProbeInfoError::Parse(e)),
                    Ok(frame) => match av1_header_facts(frame) {
                        None => r == Err::<ImageInfoCore, ProbeInfoError>(ProbeInfoError::SequenceHeader),
                        Some(f) => r matches Ok(info) && animation_info_matches(
                            info,
                            container_animation(data)->Some_0,
                            f,
                            container_colour(data).0,
                            container_colour(data).1,
                            container_premultiplied(data),
                        ) && item_metadata_matches(info.metadata, data),
                    },
                }
            } else {
                match container_grid(data) {
                    Some((w, h)) => r matches Ok(info)
                        && still_info_matches(info, container_facts_of(data), w, h, container_colour(data).1)
                        && item_metadata_matches(info.metadata, data),
                    None => match av1_header_facts(primary) {
                        None => r == Err::<ImageInfoCore, ProbeInfoError>(ProbeInfoError::SequenceHeader),
                        Some(f) => r matches Ok(info) && still_info_matches(
                            info,
                            container_facts_of(data),
                            f.max_frame_width,
                            f.max_frame_height,
                            container_colour(data).1,
                        ) && item_metadata_matches(info.metadata, data),
                    },
                }
            },
        },
    }
}

/// Describe the primary image of an AVIF file without decoding pixels:
/// grid images take the grid's declared size, single items the size in
/// their AV1 sequence header, and animations without a still item their
/// first frame.
pub fn probe_info(data: &[u8]) -> (r: Result<ImageInfoCore, ProbeInfoError>)
    ensures
        probe_info_outcome(data@, r),
{
    let container = match open_container(data) {
        Ok(c) => c,
        Err(e) => { return Err(ProbeInfoError::Parse(e)); },
    };
    let primary = match container_primary_data(&container) {
        Ok(d) => d,
        Err(e) => { return Err(ProbeInfoError::Parse(e)); },
    };
    if primary.len() == 0 {
        if let Some(track) = container_animation_info(&container) {
            let frame = match container_frame_data(&container, 0) {
                Ok(d) => d,
                Err(e) => { return Err(ProbeInfoError::Parse(e)); },
            };
            let f = match parse_av1_header(frame.as_slice()) {
                Some(f) => f,
                None => { return Err(ProbeInfoError::SequenceHeader); },
            };
            let (color, icc) = container_color(&container);
            let premultiplied = container_premultiplied_alpha(&container);
            let metadata = read_item_metadata(&container);
            return Ok(animation_image_info(track, f, color, icc, premultiplied, metadata));
        }
    }
    let (width, height) = match container_grid_output(&container) {
        Some(dims) => dims,
        None => match parse_av1_header(primary.as_slice()) {
            Some(f) => (f.max_frame_width, f.max_frame_height),
            None => { return Err(ProbeInfoError::SequenceHeader); },
        },
    };
    let (color, icc) = container_color(&container);
    let facts = ContainerFacts {
        has_alpha_item: container_has_alpha_metadata(&container),
        av1_config: container_av1_config(&container),
        color,
        premultiplied_alpha: container_premultiplied_alpha(&container),
    };
    let metadata = read_item_metadata(&container);
    Ok(still_image_info(facts, width, height, icc, metadata))
}

/// Colour primaries, transfer and ICC profile of a decoded frame: the
/// container's `nclx` code points win; with an ICC profile or no `colr`
/// box the frame's own (normalized) code points are used, and the ICC
/// bytes are kept.
pub fn frame_color_fields(color: ColorFacts, icc: Option<Vec<u8>>, av1_primaries: u8, av1_transfer: u8)
    -> (r: (ColorPrimaries, TransferCharacteristics, Option<Vec<u8>>))
    ensures
        match color {
            ColorFacts::Nclx { color_primaries, transfer_characteristics, .. } =>
                r == (ColorPrimaries(color_primaries as u8), TransferCharacteristics(transfer_characteristics as u8), None::<Vec<u8>>),
            ColorFacts::IccProfile =>
                r == (ColorPrimaries(keep_if(decoder_primaries_known(av1_primaries), av1_primaries)),
                    TransferCharacteristics(keep_if(decoder_transfer_known(av1_transfer), av1_transfer)), icc),
            ColorFacts::Absent =>
                r == (ColorPrimaries(keep_if(decoder_primaries_known(av1_primaries), av1_primaries)),
                    TransferCharacteristics(keep_if(decoder_transfer_known(av1_transfer), av1_transfer)), None::<Vec<u8>>),
        },
{
    match color {
        ColorFacts::Nclx { color_primaries, transfer_characteristics, .. } =>
            (ColorPrimaries(color_primaries as u8), TransferCharacteristics(transfer_characteristics as u8), None),
        ColorFacts::IccProfile => (convert_color_primaries(av1_primaries), convert_transfer(av1_transfer), icc),
        ColorFacts::Absent => (convert_color_primaries(av1_primaries), convert_transfer(av1_transfer), None),
    }
}

/// Which pixel conversion a decoded frame takes.
#[derive(Debug, Clone, Copy, PartialEq, Eq, Structural)]
pub enum ConversionRoute {
    /// Native grayscale output (alpha-free monochrome, when negotiated).
    MonochromeGray,
    /// Monochrome expanded to RGB(A).
    Monochrome,
    /// Identity (GBR) planes copied to RGB(A).
    Identity,
    /// Matrix YUV to RGB(A) with chroma upsampling.
    Planar,
}

/// The refusal text for subsampled identity content.
pub open spec fn subsampled_identity_text() -> Seq<char> {
    "matrix_coefficients=0 (identity/GBR) requires 4:4:4 chroma; \
                     subsampled identity has no defined reconstruction"@
}

/// The conversion a frame takes: monochrome first (native gray only
/// without alpha), identity only at 4:4:4 (subsampled identity has no
/// defined reconstruction and is refused), everything else planar.
pub fn conversion_route(chroma: ChromaSampling, identity_matrix: bool, native_gray: bool, has_alpha: bool)
    -> (r: Result<ConversionRoute, &'static str>)
    ensures
        chroma == ChromaSampling::Monochrome && native_gray && !has_alpha ==> r == Ok::<ConversionRoute, &'static str>(ConversionRoute::MonochromeGray),
        chroma == ChromaSampling::Monochrome && !(native_gray && !has_alpha) ==> r == Ok::<ConversionRoute, &'static str>(ConversionRoute::Monochrome),
        chroma == ChromaSampling::Cs444 && identity_matrix ==> r == Ok::<ConversionRoute, &'static str>(ConversionRoute::Identity),
        (chroma == ChromaSampling::Cs420 || chroma == ChromaSampling::Cs422) && identity_matrix ==> (r matches Err(m) && m@ == subsampled_identity_text()),
        chroma != ChromaSampling::Monochrome && !identity_matrix ==> r == Ok::<ConversionRoute, &'static str>(ConversionRoute::Planar),
{
    match chroma {
        ChromaSampling::Monochrome => {
            if native_gray && !has_alpha {
                Ok(ConversionRoute::MonochromeGray)
            } else {
                Ok(ConversionRoute::Monochrome)
            }
        },
        ChromaSampling::Cs444 => {
            if identity_matrix { Ok(ConversionRoute::Identity) } else { Ok(ConversionRoute::Planar) }
        },
        _ => {
            if identity_matrix {
                Err("matrix_coefficients=0 (identity/GBR) requires 4:4:4 chroma; \
                     subsampled identity has no defined reconstruction")
            } else {
                Ok(ConversionRoute::Planar)
            }
        },
    }
}

/// A still's chroma layout follows its `av1C` flags: monochrome wins; both
/// subsampling flags give 4:2:0, only the horizontal one 4:2:2, neither
/// 4:4:4; without `av1C` it is 4:2:0. Its depth is `av1C`'s (8 without),
/// its size the one given, and without a container `nclx` box it is BT.709
/// primaries, sRGB transfer, BT.601 matrix and full range.
pub proof fn law_still_info_layout(info: ImageInfoCore, facts: ContainerFacts, width: u32, height: u32, icc: Option<Seq<u8>>)
    requires
        still_info_matches(info, facts, width, height, icc),
    ensures
        info.width == width && info.height == height,
        facts.av1_config matches Some(c) ==> {
            &&& info.bit_depth == c.bit_depth
            &&& c.monochrome ==> info.chroma_sampling == ChromaSampling::Monochrome && info.monochrome
            &&& !c.monochrome && c.chroma_subsampling_x != 0 && c.chroma_subsampling_y != 0
                ==> info.chroma_sampling == ChromaSampling::Cs420
            &&& !c.monochrome && c.chroma_subsampling_x != 0 && c.chroma_subsampling_y == 0
                ==> info.chroma_sampling == ChromaSampling::Cs422
            &&& !c.monochrome && c.chroma_subsampling_x == 0 ==> info.chroma_sampling == ChromaSampling::Cs444
            &&& !c.monochrome ==> !info.monochrome
        },
        facts.av1_config is None ==> info.bit_depth == 8 && info.chroma_sampling == ChromaSampling::Cs420 && !info.monochrome,
        info.has_alpha == facts.has_alpha_item,
        info.premultiplied_alpha == facts.premultiplied_alpha,
        facts.color matches ColorFacts::Nclx { color_primaries, transfer_characteristics, matrix_coefficients, full_range } ==> {
            &&& info.color_primaries == ColorPrimaries(color_primaries as u8)
            &&& info.transfer_characteristics == TransferCharacteristics(transfer_characteristics as u8)
            &&& info.matrix_coefficients == MatrixCoefficients(matrix_coefficients as u8)
            &&& info.color_range == (if full_range { ColorRange::Full } else { ColorRange::Limited })
        },
        !(facts.color is Nclx) ==> {
            &&& info.color_primaries == ColorPrimaries(1)
            &&& info.transfer_characteristics == TransferCharacteristics(13)
            &&& info.matrix_coefficients == MatrixCoefficients(6)
            &&& info.color_range == ColorRange::Full
        },
{
}

/// An animation's chroma layout follows its first frame's header flags in
/// the same way, and its size and depth are that header's.
pub proof fn law_animation_info_layout(
    info: ImageInfoCore,
    track: DecodedAnimationInfo,
    f: Av1Facts,
    color: ColorFacts,
    icc: Option<Seq<u8>>,
    premultiplied: bool,
)
    requires
        animation_info_matches(info, track, f, color, icc, premultiplied),
    ensures
        info.width == f.max_frame_width && info.height == f.max_frame_height,
        info.bit_depth == f.bit_depth,
        info.has_alpha == track.has_alpha,
        f.monochrome ==> info.chroma_sampling == ChromaSampling::Monochrome && info.monochrome,
        !f.monochrome && f.subsampling_x && f.subsampling_y ==> info.chroma_sampling == ChromaSampling::Cs420,
        !f.monochrome && f.subsampling_x && !f.subsampling_y ==> info.chroma_sampling == ChromaSampling::Cs422,
        !f.monochrome && !f.subsampling_x ==> info.chroma_sampling == ChromaSampling::Cs444,
        !f.monochrome ==> !info.monochrome,
{
}

} // verus!
