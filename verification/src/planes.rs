//! Tight YUV plane sets handed to the encoders: chroma plane geometry and
//! the 4:2:0 plane container at the coded depth.

use vstd::prelude::*;

verus! {

/// Chroma plane dimensions: halved (rounding up) when subsampled on both
/// axes, full otherwise.
pub fn chroma_plane_dims(width: usize, height: usize, subsampled: bool) -> (r: (usize, usize))
    ensures
        subsampled ==> r == ((width / 2 + width % 2) as usize, (height / 2 + height % 2) as usize),
        !subsampled ==> r == (width, height),
{
    if subsampled {
        (width / 2 + width % 2, height / 2 + height % 2)
    } else {
        (width, height)
    }
}

/// Tight 4:2:0 planes at the depth the colour stream is coded at.
pub enum Yuv420Planes {
    Eight { y: Vec<u8>, u: Vec<u8>, v: Vec<u8> },
    Ten { y: Vec<u16>, u: Vec<u16>, v: Vec<u16> },
}

impl Yuv420Planes {
    /// The coded depth of the planes.
    pub fn bit_depth(&self) -> (r: u8)
        ensures
            r == (match self {
                Yuv420Planes::Eight { .. } => 8u8,
                Yuv420Planes::Ten { .. } => 10u8,
            }),
    {
        match self {
            Yuv420Planes::Eight { .. } => 8,
            Yuv420Planes::Ten { .. } => 10,
        }
    }
}

fn narrow_plane(p: &Vec<u16>) -> (r: Vec<u8>)
    ensures
        r@.len() == p@.len(),
        forall|i: int| 0 <= i < p@.len() ==> #[trigger] r@[i] == (p@[i] as u8),
{
    let mut out: Vec<u8> = Vec::new();
    let mut i: usize = 0;
    while i < p.len()
        invariant
            i <= p@.len(),
            out@.len() == i,
            forall|j: int| 0 <= j < i ==> #[trigger] out@[j] == (p@[j] as u8),
        decreases p@.len() - i,
    {
        out.push(p[i] as u8);
        i = i + 1;
    }
    out
}

/// Package 4:2:0 samples quantized at `bit_depth`: at 8 bits the samples
/// are narrowed into byte planes, otherwise kept as 16-bit planes.
pub fn yuv420_planes_at_depth(y: Vec<u16>, u: Vec<u16>, v: Vec<u16>, bit_depth: u8) -> (r: Yuv420Planes)
    ensures
        bit_depth == 8 ==> (r matches Yuv420Planes::Eight { y: y8, u: u8p, v: v8 } && {
            &&& y8@.len() == y@.len() && u8p@.len() == u@.len() && v8@.len() == v@.len()
            &&& forall|i: int| 0 <= i < y@.len() ==> #[trigger] y8@[i] == (y@[i] as u8)
            &&& forall|i: int| 0 <= i < u@.len() ==> #[trigger] u8p@[i] == (u@[i] as u8)
            &&& forall|i: int| 0 <= i < v@.len() ==> #[trigger] v8@[i] == (v@[i] as u8)
        }),
        bit_depth != 8 ==> r == (Yuv420Planes::Ten { y, u, v }),
{
    if bit_depth == 8 {
        let y8 = narrow_plane(&y);
        let u8p = narrow_plane(&u);
        let v8 = narrow_plane(&v);
        Yuv420Planes::Eight { y: y8, u: u8p, v: v8 }
    } else {
        Yuv420Planes::Ten { y, u, v }
    }
}

} // verus!
