//! CICP (ITU-T H.273) code-point handling: the color description types and
//! the normalizations applied where code points cross into decoder,
//! encoder and muxer enums (code points an enum cannot name become
//! "unspecified", 2).

use vstd::prelude::*;

verus! {

/// Color primaries code point.
#[derive(Debug, Clone, Copy, PartialEq, Eq, Structural)]
pub struct ColorPrimaries(pub u8);

/// Transfer characteristics code point.
#[derive(Debug, Clone, Copy, PartialEq, Eq, Structural)]
pub struct TransferCharacteristics(pub u8);

/// Matrix coefficients code point.
#[derive(Debug, Clone, Copy, PartialEq, Eq, Structural)]
pub struct MatrixCoefficients(pub u8);

/// Color range of decoded samples.
#[derive(Debug, Clone, Copy, PartialEq, Eq, Structural)]
pub enum ColorRange {
    /// Studio range (Y 16-235, UV 16-240 at 8 bits).
    Limited,
    /// Full range.
    Full,
}

/// Chroma subsampling of decoded planes.
#[derive(Debug, Clone, Copy, PartialEq, Eq, Structural)]
pub enum ChromaSampling {
    Cs420,
    Cs422,
    Cs444,
    Monochrome,
}

/// AV1 pixel layout as reported by the decoder.
#[derive(Debug, Clone, Copy, PartialEq, Eq, Structural)]
pub enum PixelLayout {
    I400,
    I420,
    I422,
    I444,
}

/// Conversion-kernel range selector.
#[derive(Debug, Clone, Copy, PartialEq, Eq, Structural)]
pub enum YuvRange {
    Limited,
    Full,
}

/// The unspecified code point.
pub open spec fn unspecified() -> u8 {
    2
}

/// Keep `code` when `known` names it, else unspecified.
pub open spec fn keep_if(known: bool, code: u8) -> u8 {
    if known { code } else { 2 }
}

/// Primaries the decoder distinguishes: BT.709, BT.601, SMPTE 240, BT.2020.
pub open spec fn decoder_primaries_known(c: u8) -> bool {
    c == 1 || c == 6 || c == 7 || c == 9
}

/// Transfers the decoder distinguishes: BT.709, sRGB, PQ, HLG.
pub open spec fn decoder_transfer_known(c: u8) -> bool {
    c == 1 || c == 13 || c == 16 || c == 18
}

/// Matrices the decoder distinguishes: identity, BT.709, BT.601, BT.2020 NCL.
pub open spec fn decoder_matrix_known(c: u8) -> bool {
    c == 0 || c == 1 || c == 6 || c == 9
}

/// Decoder primaries code point to ours.
pub fn convert_color_primaries(code: u8) -> (r: ColorPrimaries)
    ensures
        r.0 == keep_if(decoder_primaries_known(code), code),
{
    if code == 1 || code == 6 || code == 7 || code == 9 { ColorPrimaries(code) } else { ColorPrimaries(2) }
}

/// Decoder transfer code point to ours.
pub fn convert_transfer(code: u8) -> (r: TransferCharacteristics)
    ensures
        r.0 == keep_if(decoder_transfer_known(code), code),
{
    if code == 1 || code == 13 || code == 16 || code == 18 {
        TransferCharacteristics(code)
    } else {
        TransferCharacteristics(2)
    }
}

/// Decoder matrix code point to ours.
pub fn convert_matrix(code: u8) -> (r: MatrixCoefficients)
    ensures
        r.0 == keep_if(decoder_matrix_known(code), code),
{
    if code == 0 || code == 1 || code == 6 || code == 9 { MatrixCoefficients(code) } else { MatrixCoefficients(2) }
}

/// Decoder pixel layout to chroma sampling.
pub fn convert_chroma_sampling(layout: PixelLayout) -> (r: ChromaSampling)
    ensures
        r == match layout {
            PixelLayout::I400 => ChromaSampling::Monochrome,
            PixelLayout::I420 => ChromaSampling::Cs420,
            PixelLayout::I422 => ChromaSampling::Cs422,
            PixelLayout::I444 => ChromaSampling::Cs444,
        },
{
    match layout {
        PixelLayout::I400 => ChromaSampling::Monochrome,
        PixelLayout::I420 => ChromaSampling::Cs420,
        PixelLayout::I422 => ChromaSampling::Cs422,
        PixelLayout::I444 => ChromaSampling::Cs444,
    }
}

/// Color range to the conversion kernels' range.
pub fn to_our_yuv_range(cr: ColorRange) -> (r: YuvRange)
    ensures
        (r == YuvRange::Full) <==> (cr == ColorRange::Full),
{
    match cr {
        ColorRange::Limited => YuvRange::Limited,
        ColorRange::Full => YuvRange::Full,
    }
}

/// Primaries the muxer can name: BT.709, BT.601, BT.2020, DCI-P3, Display P3.
pub open spec fn muxer_primaries_known(c: u8) -> bool {
    c == 1 || c == 6 || c == 9 || c == 11 || c == 12
}

/// Transfers the muxer can name: every code point 1 and 4..=18 except the reserved 3.
pub open spec fn muxer_transfer_known(c: u8) -> bool {
    c == 1 || (4 <= c <= 18)
}

/// Primaries the rav1e-derived encoder can name.
pub open spec fn encoder_primaries_known(c: u8) -> bool {
    c == 1 || (4 <= c <= 12) || c == 22
}

/// Transfers the rav1e-derived encoder can name (no SMPTE 428).
pub open spec fn encoder_transfer_known(c: u8) -> bool {
    c == 1 || (4 <= c <= 16) || c == 18
}

/// Container (muxer) primaries for a requested code point.
pub fn serialize_primaries(cp: u8) -> (r: u8)
    ensures
        r == keep_if(muxer_primaries_known(cp), cp),
{
    if cp == 1 || cp == 6 || cp == 9 || cp == 11 || cp == 12 { cp } else { 2 }
}

/// Container (muxer) transfer for a requested code point.
pub fn serialize_transfer(tc: u8) -> (r: u8)
    ensures
        r == keep_if(muxer_transfer_known(tc), tc),
{
    if tc == 1 || (4 <= tc && tc <= 18) { tc } else { 2 }
}

/// Encoder primaries for a requested code point.
pub fn encoder_primaries(cp: u8) -> (r: u8)
    ensures
        r == keep_if(encoder_primaries_known(cp), cp),
{
    if cp == 1 || (4 <= cp && cp <= 12) || cp == 22 { cp } else { 2 }
}

/// Encoder transfer for a requested code point.
pub fn encoder_transfer(tc: u8) -> (r: u8)
    ensures
        r == keep_if(encoder_transfer_known(tc), tc),
{
    if tc == 1 || (4 <= tc && tc <= 16) || tc == 18 { tc } else { 2 }
}

/// Every normalization is idempotent and never invents a code point: it
/// either keeps the request or yields unspecified.
pub proof fn law_normalization_idempotent(c: u8)
    ensures
        keep_if(muxer_primaries_known(keep_if(muxer_primaries_known(c), c)), keep_if(muxer_primaries_known(c), c))
            == keep_if(muxer_primaries_known(c), c),
        keep_if(muxer_transfer_known(c), c) == c || keep_if(muxer_transfer_known(c), c) == 2,
        keep_if(decoder_primaries_known(c), c) == c || keep_if(decoder_primaries_known(c), c) == 2,
        keep_if(decoder_transfer_known(c), c) == c || keep_if(decoder_transfer_known(c), c) == 2,
        keep_if(decoder_matrix_known(c), c) == c || keep_if(decoder_matrix_known(c), c) == 2,
{
}

} // verus!
