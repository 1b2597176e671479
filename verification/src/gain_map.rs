//! Validation of a caller-supplied pre-encoded gain map against its own AV1
//! payload, so the container never describes the payload wrongly.

use vstd::prelude::*;
use crate::avif_container::{av1_header_facts, parse_av1_header};
use crate::settings::GainMapConfig;

verus! {

/// Layout facts of the gain-map payload that the container must carry.
#[derive(Debug, Clone, Copy, PartialEq, Eq, Structural)]
pub struct GainMapLayout {
    pub subsampling_x: bool,
    pub subsampling_y: bool,
    pub monochrome: bool,
}

/// Why a gain map is refused.
#[derive(Debug, Clone, Copy, PartialEq, Eq, Structural)]
pub enum GainMapError {
    /// The AV1 payload does not parse.
    PayloadUnparsable,
    /// Declared dimensions differ from the payload's.
    DimensionMismatch { declared_width: u32, declared_height: u32, payload_width: u32, payload_height: u32 },
    /// Declared bit depth differs from the payload's.
    DepthMismatch { declared: u8, payload: u8 },
}

impl GainMapError {
    /// The text reported for each refusal.
    pub open spec fn text(self) -> Seq<char> {
        match self {
            GainMapError::PayloadUnparsable => "gain map AV1 payload failed to parse"@,
            GainMapError::DimensionMismatch { .. } => "gain map dimensions do not match its AV1 payload"@,
            GainMapError::DepthMismatch { .. } => "gain map bit depth does not match its AV1 payload"@,
        }
    }

    /// The message reported for the refusal (the declared and payload
    /// values are carried by the variant).
    pub fn message(&self) -> (r: &'static str)
        ensures
            r@ == self.text(),
    {
        match self {
            GainMapError::PayloadUnparsable => "gain map AV1 payload failed to parse",
            GainMapError::DimensionMismatch { .. } => "gain map dimensions do not match its AV1 payload",
            GainMapError::DepthMismatch { .. } => "gain map bit depth does not match its AV1 payload",
        }
    }
}

/// Check a gain map against its payload and report the payload layout.
pub fn gain_map_layout(gm: &GainMapConfig) -> (r: Result<GainMapLayout, GainMapError>)
    ensures
        match av1_header_facts(gm.av1_data@) {
            None => r == Err::<GainMapLayout, GainMapError>(GainMapError::PayloadUnparsable),
            Some(f) => if f.max_frame_width != gm.width || f.max_frame_height != gm.height {
                r == Err::<GainMapLayout, GainMapError>(GainMapError::DimensionMismatch {
                    declared_width: gm.width,
                    declared_height: gm.height,
                    payload_width: f.max_frame_width,
                    payload_height: f.max_frame_height,
                })
            } else if f.bit_depth != gm.bit_depth {
                r == Err::<GainMapLayout, GainMapError>(GainMapError::DepthMismatch { declared: gm.bit_depth, payload: f.bit_depth })
            } else {
                r == Ok::<GainMapLayout, GainMapError>(GainMapLayout {
                    subsampling_x: f.subsampling_x,
                    subsampling_y: f.subsampling_y,
                    monochrome: f.monochrome,
                })
            },
        },
{
    let md = match parse_av1_header(gm.av1_data.as_slice()) {
        Some(m) => m,
        None => { return Err(GainMapError::PayloadUnparsable); },
    };
    if md.max_frame_width != gm.width || md.max_frame_height != gm.height {
        return Err(GainMapError::DimensionMismatch {
            declared_width: gm.width,
            declared_height: gm.height,
            payload_width: md.max_frame_width,
            payload_height: md.max_frame_height,
        });
    }
    if md.bit_depth != gm.bit_depth {
        return Err(GainMapError::DepthMismatch { declared: gm.bit_depth, payload: md.bit_depth });
    }
    Ok(GainMapLayout { subsampling_x: md.subsampling_x, subsampling_y: md.subsampling_y, monochrome: md.monochrome })
}

} // verus!
