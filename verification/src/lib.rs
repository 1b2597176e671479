//! Verified core of an AVIF codec library: encode planning, backend policy,
//! AV1 bitstream helpers, pixel kernels, grid assembly and resource models.

pub mod settings;
pub mod plan;
pub mod heuristics;
pub mod backend;
pub mod svt_params;
pub mod obu;
pub mod pixels;
pub mod grid;
pub mod strip;
pub mod identity;
pub mod animation;
pub mod planes;
pub mod mux;
pub mod playback;
pub mod detect;
pub mod avif_container;
pub mod image_info;
pub mod cicp;
pub mod knobs;
pub mod route;
pub mod gain_map;
