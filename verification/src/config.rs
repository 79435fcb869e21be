use vstd::prelude::*;

verus! {

/// Whether an instrument effect is simulated.
#[derive(Clone, Copy, PartialEq, Eq, Structural, Debug)]
pub enum UseEffect {
    On,
    Off,
}

/// The two imaging channels of UVEX. In detector data the far ultraviolet
/// channel is channel 0 and the near ultraviolet channel is channel 1.
#[derive(Clone, Copy, PartialEq, Eq, Structural, Debug)]
pub enum Channel {
    Fuv,
    Nuv,
}

impl Channel {
    /// The index of the channel in detector data.
    pub fn index(&self) -> (i: usize)
        ensures
            i == (if *self == Channel::Fuv { 0usize } else { 1usize }),
    {
        match self {
            Channel::Fuv => 0,
            Channel::Nuv => 1,
        }
    }
}

impl UseEffect {
    /// True when the effect is switched on.
    pub fn is_on(&self) -> (r: bool)
        ensures
            r == (*self == UseEffect::On),
    {
        match self {
            UseEffect::On => true,
            UseEffect::Off => false,
        }
    }
}

/// The switches, data locations and integer settings of the UVEX instrument
/// configuration. Every entry pairs a switch with the file or directory that
/// holds the data of the effect.
pub struct EffectConfiguration {
    /// FUV contamination curve.
    pub fuv_contamination: (UseEffect, String),
    /// NUV contamination curve.
    pub nuv_contamination: (UseEffect, String),
    /// FUV filter response curve.
    pub fuv_response: (UseEffect, String),
    /// NUV filter response curve.
    pub nuv_response: (UseEffect, String),
    /// NUV quantum efficiency curve.
    pub nuv_qe_response: (UseEffect, String),
    /// Dichroic response curve.
    pub dichroic: (UseEffect, String),
    /// Mirror reflectivity curve.
    pub mirror_response: (UseEffect, String),
    /// FUV point spread functions: the directory of the original files and the directory of the blurred ones.
    pub fuv_psf: (UseEffect, String, String),
    /// NUV point spread functions: the directory of the original files and the directory of the blurred ones.
    pub nuv_psf: (UseEffect, String, String),
    /// FUV flat-field illumination (vignetting) model.
    pub fuv_flatfield_illumination: (UseEffect, String),
    /// NUV flat-field illumination (vignetting) model.
    pub nuv_flatfield_illumination: (UseEffect, String),
    /// Directory of the per-plane FUV read noise maps.
    pub fuv_read_noise: (UseEffect, String),
    /// Directory of the per-plane NUV read noise maps.
    pub nuv_read_noise: (UseEffect, String),
    /// Directory of the per-plane FUV dark current maps.
    pub fuv_dark_current: (UseEffect, String),
    /// Directory of the per-plane NUV dark current maps.
    pub nuv_dark_current: (UseEffect, String),
    /// Directory of the per-plane FUV dead pixel maps.
    pub fuv_dead_pixels: (UseEffect, String),
    /// Directory of the per-plane NUV dead pixel maps.
    pub nuv_dead_pixels: (UseEffect, String),
    /// Switch of the gaussian blur of the point spread functions.
    pub gaussian_blur: UseEffect,
    /// Switch of the read noise.
    pub read_noise: UseEffect,
    /// Switch of the dark current.
    pub dark_current: UseEffect,
    /// Dead pixel switch, then the numbers of scattered dead pixels, dead rows,
    /// dead columns and dead rectangles of a synthetic dead pixel map.
    pub dead_pixels: (UseEffect, usize, usize, usize, usize),
}

impl EffectConfiguration {
    /// The default configuration, with every effect switched to `default`:
    /// the data files lie under the uvex folder on the Desktop, and a synthetic
    /// dead pixel map has 100 scattered pixels, 10 rows, 10 columns and 5
    /// rectangles.
    pub fn default(default: UseEffect) -> (c: EffectConfiguration)
        ensures
            c.fuv_contamination.0 == default && c.fuv_contamination.1@ == "~/Desktop/uvex/spectral_response/UVIM_FUV_contamination.dat"@,
            c.nuv_contamination.0 == default && c.nuv_contamination.1@ == "~/Desktop/uvex/spectral_response/UVIM_NUV_contamination.dat"@,
            c.fuv_response.0 == default && c.fuv_response.1@ == "~/Desktop/uvex/spectral_response/UVIM_FUV_filter_response.dat"@,
            c.nuv_response.0 == default && c.nuv_response.1@ == "~/Desktop/uvex/spectral_response/UVIM_NUV_filter_response.dat"@,
            c.nuv_qe_response.0 == default && c.nuv_qe_response.1@ == "~/Desktop/uvex/spectral_response/UVIM_NUV_QE.dat"@,
            c.dichroic.0 == default && c.dichroic.1@ == "~/Desktop/uvex/spectral_response/UVIM_dichroic_response.dat"@,
            c.mirror_response.0 == default && c.mirror_response.1@ == "~/Desktop/uvex/spectral_response/mirror_reflectivity.dat"@,
            c.fuv_psf.0 == default && c.fuv_psf.1@ == "~/Desktop/uvex/FUV_PSF"@ && c.fuv_psf.2@ == "~/Desktop/uvex/FUV_PSF_BLURRED"@,
            c.nuv_psf.0 == default && c.nuv_psf.1@ == "~/Desktop/uvex/NUV_PSF"@ && c.nuv_psf.2@ == "~/Desktop/uvex/NUV_PSF_BLURRED"@,
            c.fuv_flatfield_illumination.0 == default && c.fuv_flatfield_illumination.1@ == "~/Desktop/uvex/vinietting/FUV_vignetting_model_4096.fits"@,
            c.nuv_flatfield_illumination.0 == default && c.nuv_flatfield_illumination.1@ == "~/Desktop/uvex/vinietting/NUV_vignetting_model_4096.fits"@,
            c.fuv_read_noise.0 == default && c.fuv_read_noise.1@ == "~/Desktop/uvex/detector_effects/fuv_read_noise"@,
            c.nuv_read_noise.0 == default && c.nuv_read_noise.1@ == "~/Desktop/uvex/detector_effects/nuv_read_noise"@,
            c.fuv_dark_current.0 == default && c.fuv_dark_current.1@ == "~/Desktop/uvex/detector_effects/fuv_dark_current"@,
            c.nuv_dark_current.0 == default && c.nuv_dark_current.1@ == "~/Desktop/uvex/detector_effects/nuv_dark_current"@,
            c.fuv_dead_pixels.0 == default && c.fuv_dead_pixels.1@ == "~/Desktop/uvex/detector_effects/fuv_dead_pixels"@,
            c.nuv_dead_pixels.0 == default && c.nuv_dead_pixels.1@ == "~/Desktop/uvex/detector_effects/nuv_dead_pixels"@,
            c.gaussian_blur == default,
            c.read_noise == default,
            c.dark_current == default,
            c.dead_pixels == (default, 100usize, 10usize, 10usize, 5usize),
    {
        EffectConfiguration {
            fuv_contamination: (default, String::from_str("~/Desktop/uvex/spectral_response/UVIM_FUV_contamination.dat")),
            nuv_contamination: (default, String::from_str("~/Desktop/uvex/spectral_response/UVIM_NUV_contamination.dat")),
            fuv_response: (default, String::from_str("~/Desktop/uvex/spectral_response/UVIM_FUV_filter_response.dat")),
            nuv_response: (default, String::from_str("~/Desktop/uvex/spectral_response/UVIM_NUV_filter_response.dat")),
            nuv_qe_response: (default, String::from_str("~/Desktop/uvex/spectral_response/UVIM_NUV_QE.dat")),
            dichroic: (default, String::from_str("~/Desktop/uvex/spectral_response/UVIM_dichroic_response.dat")),
            mirror_response: (default, String::from_str("~/Desktop/uvex/spectral_response/mirror_reflectivity.dat")),
            fuv_psf: (default, String::from_str("~/Desktop/uvex/FUV_PSF"), String::from_str("~/Desktop/uvex/FUV_PSF_BLURRED")),
            nuv_psf: (default, String::from_str("~/Desktop/uvex/NUV_PSF"), String::from_str("~/Desktop/uvex/NUV_PSF_BLURRED")),
            fuv_flatfield_illumination: (default, String::from_str("~/Desktop/uvex/vinietting/FUV_vignetting_model_4096.fits")),
            nuv_flatfield_illumination: (default, String::from_str("~/Desktop/uvex/vinietting/NUV_vignetting_model_4096.fits")),
            fuv_read_noise: (default, String::from_str("~/Desktop/uvex/detector_effects/fuv_read_noise")),
            nuv_read_noise: (default, String::from_str("~/Desktop/uvex/detector_effects/nuv_read_noise")),
            fuv_dark_current: (default, String::from_str("~/Desktop/uvex/detector_effects/fuv_dark_current")),
            nuv_dark_current: (default, String::from_str("~/Desktop/uvex/detector_effects/nuv_dark_current")),
            fuv_dead_pixels: (default, String::from_str("~/Desktop/uvex/detector_effects/fuv_dead_pixels")),
            nuv_dead_pixels: (default, String::from_str("~/Desktop/uvex/detector_effects/nuv_dead_pixels")),
            gaussian_blur: default,
            read_noise: default,
            dark_current: default,
            dead_pixels: (default, 100, 10, 10, 5),
        }
    }
}
} // verus!
