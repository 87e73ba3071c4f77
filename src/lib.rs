//! Packs terrain texture maps (albedo, ambient occlusion, height, normal and
//! roughness) into two RGBA textures and frames them as PNG or DDS files.

pub mod compose;
pub mod container;
pub mod preview;
pub mod raster;
pub mod run;
pub mod session;
pub mod validate;
