//! Vegetation and rock scattering: the quality ladder and what it selects.

pub mod quality;
