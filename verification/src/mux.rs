//! What each encoder backend tells the AVIF muxer about a coded still:
//! the `av1C`/`colr`/`pixi` facts, which must agree with what the AV1
//! sequence header actually codes.

use vstd::prelude::*;
use crate::backend::wants_identity;
use crate::cicp::{muxer_primaries_known, muxer_transfer_known, keep_if, serialize_primaries, serialize_transfer};
use crate::settings::{EncodeAlphaMode, EncodeSettings};

verus! {

/// The container description of one coded still.
#[derive(Debug, Clone, Copy, PartialEq, Eq)]
pub struct MuxPlan {
    pub width: u32,
    pub height: u32,
    pub bit_depth: u8,
    pub seq_profile: u8,
    /// `(horizontal, vertical)` chroma subsampling.
    pub chroma_subsampling: (bool, bool),
    pub monochrome: bool,
    pub full_range: bool,
    /// Primaries as the muxer can name them (2 when it cannot).
    pub color_primaries: u8,
    /// Transfer as the muxer can name it (2 when it cannot).
    pub transfer_characteristics: u8,
    /// 0 identity, 2 unspecified, 6 BT.601.
    pub matrix_coefficients: u8,
    pub premultiplied_alpha: bool,
}

/// Why a coded still cannot be muxed.
#[derive(Debug, Clone, Copy, PartialEq, Eq, Structural)]
pub enum MuxRefusal {
    WidthExceedsU32,
    HeightExceedsU32,
}

impl MuxRefusal {
    /// The text reported for each refusal.
    pub open spec fn text(self) -> Seq<char> {
        match self {
            MuxRefusal::WidthExceedsU32 => "width exceeds u32"@,
            MuxRefusal::HeightExceedsU32 => "height exceeds u32"@,
        }
    }

    /// The message reported for the refusal.
    pub fn message(&self) -> (r: &'static str)
        ensures
            r@ == self.text(),
    {
        match self {
            MuxRefusal::WidthExceedsU32 => "width exceeds u32",
            MuxRefusal::HeightExceedsU32 => "height exceeds u32",
        }
    }
}

/// The libaom seam's container description: everything as the sequence
/// header codes it; the matrix is identity for the RGB model, unspecified
/// for monochrome, BT.601 otherwise.
pub fn aom_mux_plan(
    config: &EncodeSettings,
    width: usize,
    height: usize,
    seq_profile: u8,
    bit_depth: u8,
    color_primaries: u8,
    transfer_characteristics: u8,
    monochrome: bool,
    chroma: (bool, bool),
    full_range: bool,
) -> (r: Result<MuxPlan, MuxRefusal>)
    ensures
        width > u32::MAX ==> r == Err::<MuxPlan, MuxRefusal>(MuxRefusal::WidthExceedsU32),
        width <= u32::MAX && height > u32::MAX ==> r == Err::<MuxPlan, MuxRefusal>(MuxRefusal::HeightExceedsU32),
        width <= u32::MAX && height <= u32::MAX ==> r == Ok::<MuxPlan, MuxRefusal>(MuxPlan {
            width: width as u32,
            height: height as u32,
            bit_depth,
            seq_profile,
            chroma_subsampling: chroma,
            monochrome,
            full_range,
            color_primaries: keep_if(muxer_primaries_known(color_primaries), color_primaries),
            transfer_characteristics: keep_if(muxer_transfer_known(transfer_characteristics), transfer_characteristics),
            matrix_coefficients: if monochrome { 2 } else if wants_identity(*config) { 0 } else { 6 },
            premultiplied_alpha: false,
        }),
{
    if width > 0xffff_ffffusize {
        return Err(MuxRefusal::WidthExceedsU32);
    }
    if height > 0xffff_ffffusize {
        return Err(MuxRefusal::HeightExceedsU32);
    }
    Ok(MuxPlan {
        width: width as u32,
        height: height as u32,
        bit_depth,
        seq_profile,
        chroma_subsampling: chroma,
        monochrome,
        full_range,
        color_primaries: serialize_primaries(color_primaries),
        transfer_characteristics: serialize_transfer(transfer_characteristics),
        matrix_coefficients: crate::backend::coded_matrix_coefficients(config, monochrome),
        premultiplied_alpha: false,
    })
}

/// The SVT seam's container description: profile 0, 4:2:0, full range,
/// BT.601 (unspecified for monochrome), premultiplied alpha flagged only
/// when an alpha item is written in premultiplied mode.
pub fn svt_mux_plan(
    config: &EncodeSettings,
    width: usize,
    height: usize,
    bit_depth: u8,
    color_primaries: u8,
    transfer_characteristics: u8,
    monochrome: bool,
    has_alpha: bool,
) -> (r: Result<MuxPlan, MuxRefusal>)
    ensures
        width > u32::MAX ==> r == Err::<MuxPlan, MuxRefusal>(MuxRefusal::WidthExceedsU32),
        width <= u32::MAX && height > u32::MAX ==> r == Err::<MuxPlan, MuxRefusal>(MuxRefusal::HeightExceedsU32),
        width <= u32::MAX && height <= u32::MAX ==> r == Ok::<MuxPlan, MuxRefusal>(MuxPlan {
            width: width as u32,
            height: height as u32,
            bit_depth,
            seq_profile: 0,
            chroma_subsampling: (true, true),
            monochrome,
            full_range: true,
            color_primaries: keep_if(muxer_primaries_known(color_primaries), color_primaries),
            transfer_characteristics: keep_if(muxer_transfer_known(transfer_characteristics), transfer_characteristics),
            matrix_coefficients: if monochrome { 2 } else { 6 },
            premultiplied_alpha: has_alpha && config.alpha_color_mode == EncodeAlphaMode::Premultiplied,
        }),
{
    if width > 0xffff_ffffusize {
        return Err(MuxRefusal::WidthExceedsU32);
    }
    if height > 0xffff_ffffusize {
        return Err(MuxRefusal::HeightExceedsU32);
    }
    Ok(MuxPlan {
        width: width as u32,
        height: height as u32,
        bit_depth,
        seq_profile: 0,
        chroma_subsampling: (true, true),
        monochrome,
        full_range: true,
        color_primaries: serialize_primaries(color_primaries),
        transfer_characteristics: serialize_transfer(transfer_characteristics),
        matrix_coefficients: if monochrome { 2 } else { 6 },
        premultiplied_alpha: has_alpha && config.alpha_color_mode == EncodeAlphaMode::Premultiplied,
    })
}

} // verus!
