use zenavif::detect::{
    classify_chroma, probe, probe_from_facts, recommendations_for, Av1Facts, ChromaSampling,
    ColorFacts, Confidence, ProbeError, QualityEstimate, Recommendation,
};

#[test]
fn test_probe_too_short() {
    assert_eq!(probe(&[]).unwrap_err(), ProbeError::TooShort);
    assert_eq!(probe(&[0; 11]).unwrap_err(), ProbeError::TooShort);
}

#[test]
fn test_probe_not_avif() {
    let mut data = vec![0u8; 32];
    data[0..4].copy_from_slice(&12u32.to_be_bytes());
    data[4..8].copy_from_slice(b"moov");
    data[8..12].copy_from_slice(b"isom");
    assert_eq!(probe(&data).unwrap_err(), ProbeError::NotAvif);

    let mut data = vec![0u8; 32];
    data[0..4].copy_from_slice(&12u32.to_be_bytes());
    data[4..8].copy_from_slice(b"ftyp");
    data[8..12].copy_from_slice(b"isom");
    let err = probe(&data).unwrap_err();
    assert!(err == ProbeError::NotAvif || err == ProbeError::Truncated);
}

#[test]
fn probe_error_messages() {
    assert_eq!(ProbeError::TooShort.message(), "data too short to be an AVIF file");
    assert_eq!(ProbeError::NoAv1Config.message(), "no AV1 codec configuration found");
}

fn facts(depth: u8, mono: bool, sx: bool, sy: bool, q: Option<u8>, lossless: Option<bool>) -> Av1Facts {
    Av1Facts {
        max_frame_width: 640,
        max_frame_height: 480,
        bit_depth: depth,
        seq_profile: 0,
        monochrome: mono,
        subsampling_x: sx,
        subsampling_y: sy,
        base_q_idx: q,
        lossless,
    }
}

#[test]
fn chroma_classification() {
    assert_eq!(classify_chroma(true, true, true), ChromaSampling::Monochrome);
    assert_eq!(classify_chroma(false, true, true), ChromaSampling::Yuv420);
    assert_eq!(classify_chroma(false, true, false), ChromaSampling::Yuv422);
    assert_eq!(classify_chroma(false, false, false), ChromaSampling::Yuv444);
}

#[test]
fn recommendations_in_order() {
    // High quality lossy 4:4:4 10-bit SDR: all but the re-encode warning.
    let r = recommendations_for(Some(false), Some(20), ChromaSampling::Yuv444, false, 10, Some(1));
    assert_eq!(
        r,
        vec![Recommendation::ReduceQuality, Recommendation::UseChromaSubsampling, Recommendation::ReduceBitDepth]
    );
    // Low quality 4:2:0: warn against re-encoding only.
    let r = recommendations_for(None, Some(200), ChromaSampling::Yuv420, false, 8, None);
    assert_eq!(r, vec![Recommendation::AvoidReencoding]);
    // HDR 10-bit keeps its depth.
    let r = recommendations_for(Some(false), Some(100), ChromaSampling::Yuv420, false, 10, Some(16));
    assert!(r.is_empty());
    // Lossless gets no quality or chroma advice.
    let r = recommendations_for(Some(true), Some(0), ChromaSampling::Yuv444, false, 8, None);
    assert!(r.is_empty());
    // Thresholds.
    assert_eq!(recommendations_for(None, Some(50), ChromaSampling::Yuv420, false, 8, None), vec![Recommendation::ReduceQuality]);
    assert!(recommendations_for(None, Some(51), ChromaSampling::Yuv420, false, 8, None).is_empty());
    assert!(recommendations_for(None, Some(192), ChromaSampling::Yuv420, false, 8, None).is_empty());
    assert_eq!(recommendations_for(None, Some(193), ChromaSampling::Yuv420, false, 8, None), vec![Recommendation::AvoidReencoding]);
}

#[test]
fn probe_from_facts_carries_every_fact() {
    let color = ColorFacts::Nclx { color_primaries: 9, transfer_characteristics: 16, matrix_coefficients: 9, full_range: false };
    let p = probe_from_facts(true, false, color, facts(10, false, true, true, Some(40), Some(false)));
    assert_eq!((p.width, p.height, p.bit_depth, p.profile), (640, 480, 10, 0));
    assert_eq!(p.chroma_sampling, ChromaSampling::Yuv420);
    assert!(p.has_alpha && !p.has_animation);
    assert_eq!(p.quality, Some(QualityEstimate { quantizer: 40, confidence: Confidence::FromFrameHeader }));
    assert_eq!(p.color_primaries, Some(9));
    assert_eq!(p.transfer_characteristics, Some(16));
    assert_eq!(p.matrix_coefficients, Some(9));
    assert_eq!(p.full_range, Some(false));
    assert!(!p.has_icc_profile);
    assert_eq!(p.recommendations, vec![Recommendation::ReduceQuality]);

    let p = probe_from_facts(false, true, ColorFacts::IccProfile, facts(8, true, true, true, None, None));
    assert_eq!(p.chroma_sampling, ChromaSampling::Monochrome);
    assert!(p.has_icc_profile);
    assert_eq!(p.color_primaries, None);
    assert_eq!(p.quality, None);
    assert!(p.recommendations.is_empty());
}
