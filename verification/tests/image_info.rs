use zenavif::cicp::{ChromaSampling, ColorPrimaries, ColorRange, MatrixCoefficients, TransferCharacteristics};
use zenavif::detect::{Av1Facts, ColorFacts};
use zenavif::knobs::DecodedAnimationInfo;
use zenavif::image_info::{
    animation_image_info, conversion_route, frame_color_fields, probe_info, still_image_info, Av1ConfigFacts, ContainerFacts,
    ConversionRoute, ItemMetadata, ProbeInfoError,
};

fn no_metadata() -> ItemMetadata {
    ItemMetadata {
        rotation: None,
        mirror: None,
        clean_aperture: None,
        pixel_aspect_ratio: None,
        content_light_level: None,
        mastering_display: None,
        exif: None,
        xmp: None,
        gain_map: None,
    }
}

fn facts(color: ColorFacts, cfg: Option<Av1ConfigFacts>) -> ContainerFacts {
    ContainerFacts { has_alpha_item: true, av1_config: cfg, color, premultiplied_alpha: false }
}

#[test]
fn still_info_defaults_without_colr() {
    let info = still_image_info(facts(ColorFacts::Absent, None), 640, 480, None, no_metadata());
    assert_eq!((info.width, info.height, info.bit_depth), (640, 480, 8));
    assert!(info.has_alpha && !info.premultiplied_alpha);
    assert_eq!(info.color_primaries, ColorPrimaries(1));
    assert_eq!(info.transfer_characteristics, TransferCharacteristics(13));
    assert_eq!(info.matrix_coefficients, MatrixCoefficients(6));
    assert_eq!(info.color_range, ColorRange::Full);
    assert_eq!(info.chroma_sampling, ChromaSampling::Cs420);
    assert!(!info.monochrome);
    assert_eq!(info.icc_profile, None);
}

#[test]
fn still_info_prefers_container_nclx() {
    let color = ColorFacts::Nclx { color_primaries: 9, transfer_characteristics: 16, matrix_coefficients: 9, full_range: false };
    let cfg = Av1ConfigFacts { bit_depth: 10, monochrome: false, chroma_subsampling_x: 1, chroma_subsampling_y: 0 };
    let info = still_image_info(facts(color, Some(cfg)), 8, 8, Some(vec![1, 2]), no_metadata());
    assert_eq!(info.bit_depth, 10);
    assert_eq!(info.color_primaries, ColorPrimaries(9));
    assert_eq!(info.transfer_characteristics, TransferCharacteristics(16));
    assert_eq!(info.matrix_coefficients, MatrixCoefficients(9));
    assert_eq!(info.color_range, ColorRange::Limited);
    assert_eq!(info.chroma_sampling, ChromaSampling::Cs422);
    // ICC bytes only accompany an ICC colr.
    assert_eq!(info.icc_profile, None);
}

#[test]
fn still_info_icc_and_monochrome() {
    let cfg = Av1ConfigFacts { bit_depth: 12, monochrome: true, chroma_subsampling_x: 1, chroma_subsampling_y: 1 };
    let info = still_image_info(facts(ColorFacts::IccProfile, Some(cfg)), 1, 1, Some(vec![7, 7]), no_metadata());
    assert_eq!(info.icc_profile, Some(vec![7, 7]));
    assert_eq!(info.chroma_sampling, ChromaSampling::Monochrome);
    assert!(info.monochrome);
    assert_eq!(info.color_primaries, ColorPrimaries(1));
}

#[test]
fn probe_info_rejects_non_avif() {
    assert!(matches!(probe_info(&[]), Err(ProbeInfoError::Parse(_))));
    let mut data = vec![0u8; 32];
    data[0..4].copy_from_slice(&12u32.to_be_bytes());
    data[4..8].copy_from_slice(b"ftyp");
    data[8..12].copy_from_slice(b"isom");
    assert!(matches!(probe_info(&data), Err(ProbeInfoError::Parse(_))));
}

#[test]
fn frame_colors_follow_precedence() {
    let nclx = ColorFacts::Nclx { color_primaries: 12, transfer_characteristics: 16, matrix_coefficients: 0, full_range: true };
    assert_eq!(frame_color_fields(nclx, None, 1, 1), (ColorPrimaries(12), TransferCharacteristics(16), None));
    assert_eq!(
        frame_color_fields(ColorFacts::IccProfile, Some(vec![3]), 9, 18),
        (ColorPrimaries(9), TransferCharacteristics(18), Some(vec![3]))
    );
    // Code points the decoder cannot name become unspecified.
    assert_eq!(frame_color_fields(ColorFacts::Absent, None, 12, 8), (ColorPrimaries(2), TransferCharacteristics(2), None));
}

#[test]
fn conversion_routes() {
    assert_eq!(conversion_route(ChromaSampling::Monochrome, false, true, false), Ok(ConversionRoute::MonochromeGray));
    assert_eq!(conversion_route(ChromaSampling::Monochrome, true, true, true), Ok(ConversionRoute::Monochrome));
    assert_eq!(conversion_route(ChromaSampling::Cs444, true, false, false), Ok(ConversionRoute::Identity));
    assert!(conversion_route(ChromaSampling::Cs420, true, false, false).is_err());
    assert_eq!(conversion_route(ChromaSampling::Cs422, false, false, true), Ok(ConversionRoute::Planar));
}

#[test]
fn subsampled_identity_refusal_names_the_requirement() {
    assert_eq!(
        conversion_route(ChromaSampling::Cs422, true, false, false),
        Err("matrix_coefficients=0 (identity/GBR) requires 4:4:4 chroma; subsampled identity has no defined reconstruction")
    );
}

#[test]
fn animation_described_from_first_frame_header() {
    let track = DecodedAnimationInfo { frame_count: 3, loop_count: 0, has_alpha: true, timescale: 1000 };
    let f = Av1Facts {
        max_frame_width: 320,
        max_frame_height: 200,
        bit_depth: 10,
        seq_profile: 0,
        monochrome: false,
        subsampling_x: true,
        subsampling_y: true,
        base_q_idx: None,
        lossless: None,
    };
    let info = animation_image_info(track, f, ColorFacts::Absent, None, false, no_metadata());
    assert_eq!((info.width, info.height, info.bit_depth), (320, 200, 10));
    assert!(info.has_alpha && !info.premultiplied_alpha && !info.monochrome);
    assert_eq!(info.chroma_sampling, ChromaSampling::Cs420);
    assert_eq!(info.color_primaries, ColorPrimaries(2));
    assert_eq!(info.transfer_characteristics, TransferCharacteristics(2));
    assert_eq!(info.matrix_coefficients, MatrixCoefficients(2));
    assert_eq!(info.color_range, ColorRange::Full);
    assert!(info.icc_profile.is_none());
}

#[test]
fn animation_takes_nclx_primaries_and_icc_from_the_colour_box() {
    let track = DecodedAnimationInfo { frame_count: 2, loop_count: 1, has_alpha: false, timescale: 30 };
    let f = Av1Facts {
        max_frame_width: 16,
        max_frame_height: 8,
        bit_depth: 8,
        seq_profile: 1,
        monochrome: false,
        subsampling_x: false,
        subsampling_y: false,
        base_q_idx: Some(20),
        lossless: Some(false),
    };
    let nclx = ColorFacts::Nclx { color_primaries: 9, transfer_characteristics: 16, matrix_coefficients: 9, full_range: false };
    let mut md = no_metadata();
    md.rotation = Some(90);
    md.exif = Some(vec![1, 2, 3]);
    let info = animation_image_info(track, f, nclx, None, true, md.clone());
    assert_eq!(info.color_primaries, ColorPrimaries(9));
    assert_eq!(info.transfer_characteristics, TransferCharacteristics(16));
    assert_eq!(info.matrix_coefficients, MatrixCoefficients(2));
    assert_eq!(info.chroma_sampling, ChromaSampling::Cs444);
    assert!(info.premultiplied_alpha && !info.has_alpha);
    assert_eq!(info.metadata, md);
    let icc = animation_image_info(track, f, ColorFacts::IccProfile, Some(vec![5, 6]), false, no_metadata());
    assert_eq!(icc.icc_profile, Some(vec![5, 6]));
    assert_eq!(icc.color_primaries, ColorPrimaries(2));
}

#[test]
fn still_info_carries_the_item_metadata() {
    let mut md = no_metadata();
    md.mirror = Some(1);
    md.content_light_level = Some((1000, 400));
    let info = still_image_info(facts(ColorFacts::Absent, None), 4, 4, None, md.clone());
    assert_eq!(info.metadata, md);
}
