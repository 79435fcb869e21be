//! Verified core of the UVEX image simulator: the switches of the
//! instrument configuration, the layout of the detector mosaic, the file
//! scheme of per-plane detector data, the response curves of each channel, the synthetic dead-pixel maps, and the
//! per-detector decisions of a simulation run.

pub mod config;
pub mod dead_pixels;
pub mod naming;
pub mod detector_effects;
pub mod missing_data;
pub mod mosaic;
pub mod simulation;
pub mod spectral;
