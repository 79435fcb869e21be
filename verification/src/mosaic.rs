use crate::naming::{decimal, decimal_string};
use vstd::prelude::*;

verus! {

/// Pixels along each side of one UVEX detector plane.
pub const PIXELS_PER_DETECTOR: usize = 4096;

/// Detector planes along the x direction of the focal plane.
pub const X_DETECTORS: usize = 3;

/// Detector planes along the y direction of the focal plane.
pub const Y_DETECTORS: usize = 3;

/// How the simulated focal plane is written out.
#[derive(Clone, Copy, PartialEq, Eq, Structural, Debug)]
pub enum DetectorSetup {
    /// One large output matrix holding all detector planes and the gaps
    /// between them.
    Single,
    /// One output matrix per detector plane.
    Multiple,
}

/// Pixels along one direction of a row of `detectors` planes of `pixels`
/// pixels each, with a gap of `gap` pixels between neighbouring planes.
pub open spec fn mosaic_extent(pixels: int, detectors: int, gap: int) -> int {
    pixels * detectors + (detectors - 1) * gap
}

/// The pixel dimensions (x, y) of each output detector: for `Single` the whole
/// mosaic, `pixels_per_detector * n + (n - 1) * gap` along each direction with
/// `n` planes; for `Multiple` one plane.
pub open spec fn output_dimensions_spec(
    mode: DetectorSetup,
    pixels_per_detector: int,
    x_detectors: int,
    y_detectors: int,
    x_gap_pixels: int,
    y_gap_pixels: int,
) -> (int, int) {
    match mode {
        DetectorSetup::Single => (
            mosaic_extent(pixels_per_detector, x_detectors, x_gap_pixels),
            mosaic_extent(pixels_per_detector, y_detectors, y_gap_pixels),
        ),
        DetectorSetup::Multiple => (pixels_per_detector, pixels_per_detector),
    }
}

/// The pixel dimensions (x, y) of each output detector for `mode`.
pub fn output_dimensions(
    mode: DetectorSetup,
    pixels_per_detector: usize,
    x_detectors: usize,
    y_detectors: usize,
    x_gap_pixels: usize,
    y_gap_pixels: usize,
) -> (dims: (usize, usize))
    requires
        1 <= x_detectors,
        1 <= y_detectors,
        mode == DetectorSetup::Single ==> mosaic_extent(
            pixels_per_detector as int,
            x_detectors as int,
            x_gap_pixels as int,
        ) <= usize::MAX,
        mode == DetectorSetup::Single ==> mosaic_extent(
            pixels_per_detector as int,
            y_detectors as int,
            y_gap_pixels as int,
        ) <= usize::MAX,
    ensures
        (dims.0 as int, dims.1 as int) == output_dimensions_spec(
            mode,
            pixels_per_detector as int,
            x_detectors as int,
            y_detectors as int,
            x_gap_pixels as int,
            y_gap_pixels as int,
        ),
{
    match mode {
        DetectorSetup::Single => {
            let x = mosaic_width(pixels_per_detector, x_detectors, x_gap_pixels);
            let y = mosaic_width(pixels_per_detector, y_detectors, y_gap_pixels);
            (x, y)
        },
        DetectorSetup::Multiple => (pixels_per_detector, pixels_per_detector),
    }
}

/// Pixels along one direction of a row of `detectors` planes of `pixels`
/// pixels with gaps of `gap` pixels between them.
fn mosaic_width(pixels: usize, detectors: usize, gap: usize) -> (w: usize)
    requires
        1 <= detectors,
        mosaic_extent(pixels as int, detectors as int, gap as int) <= usize::MAX,
    ensures
        w == mosaic_extent(pixels as int, detectors as int, gap as int),
{
    assert(0 <= pixels * detectors <= mosaic_extent(pixels as int, detectors as int, gap as int))
        by (nonlinear_arith)
        requires
            1 <= detectors,
    ;
    assert(0 <= (detectors - 1) * gap) by (nonlinear_arith)
        requires
            1 <= detectors,
    ;
    pixels * detectors + (detectors - 1) * gap
}

/// Number of output detectors for `mode`: one matrix for `Single`, one per
/// detector plane for `Multiple`.
pub fn output_detector_count(mode: DetectorSetup, x_detectors: usize, y_detectors: usize) -> (n:
    usize)
    requires
        mode == DetectorSetup::Multiple ==> x_detectors * y_detectors <= usize::MAX,
    ensures
        n == (match mode {
            DetectorSetup::Single => 1,
            DetectorSetup::Multiple => x_detectors * y_detectors,
        }),
{
    match mode {
        DetectorSetup::Single => 1,
        DetectorSetup::Multiple => x_detectors * y_detectors,
    }
}

/// One detector of the detector array: its label and its size in pixels
/// (`y_pixels` rows of `x_pixels` pixels, two channels each).
pub struct DetectorShape {
    pub label: String,
    pub x_pixels: usize,
    pub y_pixels: usize,
}

/// The detectors of a detector array laid out on an `x_num` by `y_num` grid:
/// one per grid point, in point order, detector `i` labelled with the decimal
/// notation of `i`, each `num_pixels_y` rows of `num_pixels_x` pixels.
pub fn uvex_detector_array(
    num_pixels_x: usize,
    num_pixels_y: usize,
    x_num: usize,
    y_num: usize,
) -> (detectors: Vec<DetectorShape>)
    requires
        x_num * y_num <= usize::MAX,
    ensures
        detectors@.len() == x_num * y_num,
        forall|i: int|
            0 <= i < x_num * y_num ==> {
                let d = #[trigger] detectors@[i];
                &&& d.label@ == decimal(i as nat)
                &&& d.x_pixels == num_pixels_x
                &&& d.y_pixels == num_pixels_y
            },
{
    let points = x_num * y_num;
    let mut detectors: Vec<DetectorShape> = Vec::new();
    for point in 0..points
        invariant
            points == x_num * y_num,
            detectors@.len() == point,
            forall|i: int|
                0 <= i < point ==> {
                    let d = #[trigger] detectors@[i];
                    &&& d.label@ == decimal(i as nat)
                    &&& d.x_pixels == num_pixels_x
                    &&& d.y_pixels == num_pixels_y
                },
    {
        let label = decimal_string(point);
        detectors.push(DetectorShape { label, x_pixels: num_pixels_x, y_pixels: num_pixels_y });
    }
    detectors
}

/// A row of one plane is the plane itself, and each further plane adds its
/// pixels and one gap.
pub proof fn lemma_mosaic_extent_grows(pixels: int, detectors: int, gap: int)
    requires
        1 <= detectors,
    ensures
        mosaic_extent(pixels, 1, gap) == pixels,
        mosaic_extent(pixels, detectors + 1, gap) == mosaic_extent(pixels, detectors, gap) + pixels + gap,
{
    assert(pixels * (detectors + 1) == pixels * detectors + pixels) by (nonlinear_arith);
    assert(detectors * gap == (detectors - 1) * gap + gap) by (nonlinear_arith);
}

} // verus!
