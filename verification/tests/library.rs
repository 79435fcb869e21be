use uvex_sim::config::{Channel, EffectConfiguration, UseEffect};
use uvex_sim::dead_pixels::{
    dead_pixel_draw_plan, dead_pixel_mask, draw_dead_pixel_layout, hallucinate_dead_pixel_mask,
    layout_from_draws, DeadPixelLayout, DeadRectangle,
};
use uvex_sim::detector_effects::{
    dead_pixels, detector_effect_path, detector_plane_label, load_detector_effects, read_noise,
    DETECTOR_PLANES,
};
use uvex_sim::missing_data::{missing_data_plan, GenerationTask, NoiseField, SYNTHETIC_MAP_SIZE};
use uvex_sim::mosaic::{
    output_detector_count, output_dimensions, uvex_detector_array, DetectorSetup, PIXELS_PER_DETECTOR, X_DETECTORS,
    Y_DETECTORS,
};
use uvex_sim::naming::{decimal_string, push_decimal};
use uvex_sim::spectral::{fuv_nuv, ResponseGrid};
use uvex_sim::simulation::{
    detector_effect_steps, patch_deposits, DetectorEffect, EffectStep, PatchDeposit,
};

fn layout(
    scattered: Vec<usize>,
    rows: Vec<usize>,
    columns: Vec<usize>,
    rectangles: Vec<DeadRectangle>,
) -> DeadPixelLayout {
    DeadPixelLayout { scattered, rows, columns, rectangles }
}

/// Recomputes by brute force whether pixel (row, column) is covered by a defect.
fn covered(l: &DeadPixelLayout, size: usize, row: usize, column: usize) -> bool {
    l.scattered.contains(&(row * size + column))
        || l.rows.contains(&row)
        || l.columns.contains(&column)
        || l.rectangles.iter().any(|r| {
            r.corner_y <= row
                && row < r.corner_y + r.y_size
                && r.corner_x <= column
                && column < r.corner_x + r.x_size
        })
}

#[test]
fn mask_without_defects_is_all_live() {
    let mask = dead_pixel_mask(5, &layout(vec![], vec![], vec![], vec![]));
    assert_eq!(mask, vec![true; 25]);
}

#[test]
fn mask_of_empty_plane_is_empty() {
    let mask = dead_pixel_mask(0, &layout(vec![], vec![], vec![], vec![]));
    assert!(mask.is_empty());
}

#[test]
fn mask_kills_scattered_pixel_row_and_column() {
    // 4 by 4 plane: pixel 5 is (1, 1); row 3; column 0.
    let mask = dead_pixel_mask(4, &layout(vec![5], vec![3], vec![0], vec![]));
    let expected = vec![
        false, true, true, true, //
        false, false, true, true, //
        false, true, true, true, //
        false, false, false, false,
    ];
    assert_eq!(mask, expected);
}

#[test]
fn mask_kills_rectangle() {
    // A 2-wide, 3-high rectangle at column 1, row 0 of a 4 by 4 plane.
    let rect = DeadRectangle { corner_x: 1, corner_y: 0, x_size: 2, y_size: 3 };
    let mask = dead_pixel_mask(4, &layout(vec![], vec![], vec![], vec![rect]));
    let expected = vec![
        true, false, false, true, //
        true, false, false, true, //
        true, false, false, true, //
        true, true, true, true,
    ];
    assert_eq!(mask, expected);
}

#[test]
fn mask_agrees_with_brute_force() {
    let rect = DeadRectangle { corner_x: 2, corner_y: 3, x_size: 4, y_size: 2 };
    let l = layout(vec![0, 47, 47, 63], vec![5, 5], vec![7], vec![rect]);
    let mask = dead_pixel_mask(8, &l);
    assert_eq!(mask.len(), 64);
    for row in 0..8 {
        for column in 0..8 {
            assert_eq!(mask[row * 8 + column], !covered(&l, 8, row, column));
        }
    }
}

#[test]
fn draw_plan_of_dead_pixel_layout() {
    let plan = dead_pixel_draw_plan(300, 2, 1, 1, 2);
    assert_eq!(
        plan,
        vec![
            (0, 90000),
            (0, 90000),
            (0, 300),
            (0, 300),
            (0, 100),
            (0, 100),
            (100, 199),
            (100, 199),
            (0, 100),
            (0, 100),
            (100, 199),
            (100, 199),
        ]
    );
}

#[test]
fn layout_is_made_of_draws_in_order() {
    let values = vec![7, 8, 9, 10, 11, 12, 13, 14, 15, 16, 17, 18];
    let l = layout_from_draws(&values, 2, 1, 1, 2);
    assert_eq!(l.scattered, vec![7, 8]);
    assert_eq!(l.rows, vec![9]);
    assert_eq!(l.columns, vec![10]);
    assert_eq!(
        l.rectangles,
        vec![
            DeadRectangle { corner_x: 11, corner_y: 12, x_size: 13, y_size: 14 },
            DeadRectangle { corner_x: 15, corner_y: 16, x_size: 17, y_size: 18 },
        ]
    );
}

#[test]
fn drawn_layout_has_requested_counts_and_ranges() {
    let size = 260;
    let (values, l) = draw_dead_pixel_layout(size, 30, 4, 5, 6);
    let plan = dead_pixel_draw_plan(size, 30, 4, 5, 6);
    assert_eq!(values.len(), plan.len());
    for (v, (low, high)) in values.iter().zip(plan.iter()) {
        assert!(low <= v && v < high);
    }
    assert_eq!(l.scattered.len(), 30);
    assert_eq!(l.rows.len(), 4);
    assert_eq!(l.columns.len(), 5);
    assert_eq!(l.rectangles.len(), 6);
    assert!(l.scattered.iter().all(|&i| i < size * size));
    assert!(l.rows.iter().all(|&r| r < size));
    assert!(l.columns.iter().all(|&c| c < size));
    for r in &l.rectangles {
        assert!(r.corner_x < size - 200 && r.corner_y < size - 200);
        assert!((100..199).contains(&r.x_size) && (100..199).contains(&r.y_size));
        assert!(r.corner_x + r.x_size <= size && r.corner_y + r.y_size <= size);
    }
    let rebuilt = layout_from_draws(&values, 30, 4, 5, 6);
    assert_eq!(rebuilt.scattered, l.scattered);
    assert_eq!(rebuilt.rectangles, l.rectangles);
}

#[test]
fn drawn_rectangles_stay_inside_smallest_plane() {
    // With 201 pixels per row every rectangle corner is drawn as 0.
    let (_, l) = draw_dead_pixel_layout(201, 0, 0, 0, 10);
    for r in &l.rectangles {
        assert_eq!((r.corner_x, r.corner_y), (0, 0));
    }
}

#[test]
fn hallucinated_mask_matches_its_layout() {
    let size = 230;
    let (values, l, mask) = hallucinate_dead_pixel_mask(size, 50, 2, 3, 2);
    assert_eq!(values.len(), 50 + 2 + 3 + 4 * 2);
    assert_eq!(mask.len(), size * size);
    for row in 0..size {
        for column in 0..size {
            assert_eq!(mask[row * size + column], !covered(&l, size, row, column));
        }
    }
    // Two rectangles of at least 100 by 100 pixels are dead.
    assert!(mask.iter().filter(|&&live| !live).count() >= 100 * 100);
}

#[test]
fn decimal_strings() {
    assert_eq!(decimal_string(0), "0");
    assert_eq!(decimal_string(7), "7");
    assert_eq!(decimal_string(10), "10");
    assert_eq!(decimal_string(907), "907");
    assert_eq!(decimal_string(usize::MAX), usize::MAX.to_string());
    let mut s = String::from("plane ");
    push_decimal(&mut s, 42);
    assert_eq!(s, "plane 42");
}

#[test]
fn effect_path_and_label() {
    assert_eq!(detector_effect_path("dir", "fuv_dark_current", 3), "dir/fuv_dark_current_3.fits");
    assert_eq!(detector_plane_label("Read noise map", 8), "Read noise map for detector 8");
}

#[test]
fn nine_dead_pixel_maps_one_per_plane() {
    let set = dead_pixels("/data/dead");
    assert_eq!(set.label, "Dead Pixel Maps");
    assert_eq!(set.files.len(), DETECTOR_PLANES);
    assert_eq!(DETECTOR_PLANES, 9);
    for (i, f) in set.files.iter().enumerate() {
        assert_eq!(f.plane, i);
        assert_eq!(f.label, format!("Dead Pixel map for detector {}", i));
        assert_eq!(f.path, format!("/data/dead/fuv_dead_pixels_{}.fits", i));
    }
    assert_eq!(set.files[4].path, "/data/dead/fuv_dead_pixels_4.fits");
}

#[test]
fn nine_read_noise_maps_one_per_plane() {
    let set = read_noise("~/Desktop/uvex/detector_effects/fuv_read_noise");
    assert_eq!(set.label, "Read noise Maps");
    assert_eq!(set.files.len(), 9);
    assert_eq!(set.files[0].label, "Read noise map for detector 0");
    assert_eq!(
        set.files[8].path,
        "~/Desktop/uvex/detector_effects/fuv_read_noise/fuv_read_noise_8.fits"
    );
}

#[test]
fn loaded_detector_effects_follow_file_scheme() {
    let set = load_detector_effects("fuv_dark_current", "/data/dark");
    assert_eq!(set.label, "fuv_dark_current");
    assert_eq!(set.files.len(), 9);
    assert_eq!(set.files[2].path, "/data/dark/fuv_dark_current_2.fits");
    assert_eq!(set.files[2].label, "fuv_dark_current for detector 2");
}

#[test]
fn default_configuration() {
    let c = EffectConfiguration::default(UseEffect::On);
    assert_eq!(c.fuv_contamination.0, UseEffect::On);
    assert_eq!(
        c.fuv_contamination.1,
        "~/Desktop/uvex/spectral_response/UVIM_FUV_contamination.dat"
    );
    assert_eq!(c.fuv_psf.2, "~/Desktop/uvex/FUV_PSF_BLURRED");
    assert_eq!(c.nuv_psf.1, "~/Desktop/uvex/NUV_PSF");
    assert_eq!(
        c.nuv_flatfield_illumination.1,
        "~/Desktop/uvex/vinietting/NUV_vignetting_model_4096.fits"
    );
    assert_eq!(c.fuv_dead_pixels.1, "~/Desktop/uvex/detector_effects/fuv_dead_pixels");
    assert_eq!(c.nuv_dead_pixels.1, "~/Desktop/uvex/detector_effects/nuv_dead_pixels");
    assert_eq!(c.fuv_read_noise.1, "~/Desktop/uvex/detector_effects/fuv_read_noise");
    assert_eq!(c.dead_pixels, (UseEffect::On, 100, 10, 10, 5));
    let off = EffectConfiguration::default(UseEffect::Off);
    assert_eq!(off.read_noise, UseEffect::Off);
    assert_eq!(off.mirror_response.0, UseEffect::Off);
    assert!(UseEffect::On.is_on() && !UseEffect::Off.is_on());
}

#[test]
fn missing_data_plan_with_everything_on() {
    let c = EffectConfiguration::default(UseEffect::On);
    let tasks = missing_data_plan(&c);
    assert_eq!(tasks.len(), 9 * 6);
    match &tasks[6] {
        GenerationTask::NormalMap { field, size, path } => {
            assert_eq!(*field, NoiseField::DarkCurrent);
            assert_eq!(*size, SYNTHETIC_MAP_SIZE);
            assert_eq!(
                path,
                "~/Desktop/uvex/detector_effects/fuv_dark_current/fuv_dark_current_1.fits"
            );
        }
        _ => panic!("expected a dark current map"),
    }
    match &tasks[3] {
        GenerationTask::NormalMap { field, path, .. } => {
            assert_eq!(*field, NoiseField::ReadNoise);
            assert!(path.ends_with("nuv_read_noise/nuv_read_noise_0.fits"));
        }
        _ => panic!("expected a read noise map"),
    }
    match &tasks[5] {
        GenerationTask::DeadPixelMap {
            size,
            path,
            num_scattered_pixels,
            num_rows,
            num_columns,
            num_rectangles,
        } => {
            assert_eq!(*size, 4096);
            assert!(path.ends_with("nuv_dead_pixels/nuv_dead_pixels_0.fits"));
            assert_eq!(
                (*num_scattered_pixels, *num_rows, *num_columns, *num_rectangles),
                (100, 10, 10, 5)
            );
        }
        _ => panic!("expected a dead pixel map"),
    }
}

#[test]
fn missing_data_written_where_read() {
    let mut c = EffectConfiguration::default(UseEffect::On);
    c.fuv_dead_pixels.1 = String::from("/elsewhere/dead");
    c.fuv_read_noise.1 = String::from("/elsewhere/noise");
    let tasks = missing_data_plan(&c);
    let written: Vec<String> = tasks
        .iter()
        .filter_map(|t| match t {
            GenerationTask::NormalMap { path, .. } => Some(path.clone()),
            GenerationTask::DeadPixelMap { path, .. } => Some(path.clone()),
            GenerationTask::Skipped { .. } => None,
        })
        .collect();
    let dead = dead_pixels(&c.fuv_dead_pixels.1);
    let noise = read_noise(&c.fuv_read_noise.1);
    for f in dead.files.iter().chain(noise.files.iter()) {
        assert!(written.contains(&f.path));
    }
    for f in load_detector_effects("fuv_dark_current", &c.fuv_dark_current.1).files.iter() {
        assert!(written.contains(&f.path));
    }
}

#[test]
fn missing_data_plan_with_everything_off() {
    let c = EffectConfiguration::default(UseEffect::Off);
    let tasks = missing_data_plan(&c);
    assert_eq!(tasks.len(), 9 * 2);
    for pair in tasks.chunks(2) {
        assert!(matches!(pair[0], GenerationTask::Skipped { field: NoiseField::DarkCurrent }));
        assert!(matches!(pair[1], GenerationTask::Skipped { field: NoiseField::ReadNoise }));
    }
}

#[test]
fn effect_steps_when_on() {
    let c = EffectConfiguration::default(UseEffect::On);
    let steps = detector_effect_steps(&c, 4);
    assert_eq!(
        steps,
        vec![
            EffectStep::AddReadNoise { channel: Channel::Fuv },
            EffectStep::AddReadNoise { channel: Channel::Nuv },
            EffectStep::AddDarkCurrent { channel: Channel::Fuv },
            EffectStep::AddDarkCurrent { channel: Channel::Nuv },
            EffectStep::MultiplyFlatfield { channel: Channel::Fuv },
            EffectStep::MultiplyFlatfield { channel: Channel::Nuv },
            EffectStep::MultiplyDeadPixels { channel: Channel::Fuv },
            EffectStep::MultiplyDeadPixels { channel: Channel::Nuv },
        ]
    );
    assert_eq!(Channel::Fuv.index(), 0);
    assert_eq!(Channel::Nuv.index(), 1);
}

#[test]
fn effect_steps_when_off_warn_once() {
    let c = EffectConfiguration::default(UseEffect::Off);
    assert_eq!(
        detector_effect_steps(&c, 0),
        vec![
            EffectStep::Warn { effect: DetectorEffect::ReadNoise },
            EffectStep::Warn { effect: DetectorEffect::DarkCurrent },
            EffectStep::Warn { effect: DetectorEffect::Flatfield },
            EffectStep::Warn { effect: DetectorEffect::DeadPixels },
        ]
    );
    assert!(detector_effect_steps(&c, 1).is_empty());
}

#[test]
fn flatfield_switch_is_the_fuv_entry() {
    let mut c = EffectConfiguration::default(UseEffect::Off);
    c.fuv_flatfield_illumination.0 = UseEffect::On;
    assert_eq!(
        detector_effect_steps(&c, 2),
        vec![
            EffectStep::MultiplyFlatfield { channel: Channel::Fuv },
            EffectStep::MultiplyFlatfield { channel: Channel::Nuv },
        ]
    );
    let mut c = EffectConfiguration::default(UseEffect::Off);
    c.nuv_flatfield_illumination.0 = UseEffect::On;
    assert!(detector_effect_steps(&c, 2).is_empty());
}

#[test]
fn patch_fully_on_grid() {
    let d = patch_deposits(2, 2, 1, 3, 10, 10);
    assert_eq!(
        d,
        vec![
            PatchDeposit { data_row: 3, data_column: 1, patch_row: 0, patch_column: 0 },
            PatchDeposit { data_row: 4, data_column: 1, patch_row: 1, patch_column: 0 },
            PatchDeposit { data_row: 3, data_column: 2, patch_row: 0, patch_column: 1 },
            PatchDeposit { data_row: 4, data_column: 2, patch_row: 1, patch_column: 1 },
        ]
    );
}

#[test]
fn patch_clipped_at_grid_edge() {
    // 3 by 3 patch at offset (x 8, y 9) on a 10 by 10 grid: only loop column 0
    // (data row 9) of loop rows 0 and 1 (data columns 8 and 9) lands.
    let d = patch_deposits(3, 3, 8, 9, 10, 10);
    assert_eq!(
        d,
        vec![
            PatchDeposit { data_row: 9, data_column: 8, patch_row: 0, patch_column: 0 },
            PatchDeposit { data_row: 9, data_column: 9, patch_row: 0, patch_column: 1 },
        ]
    );
    assert!(patch_deposits(4, 4, 20, 0, 10, 10).is_empty());
}

#[test]
fn patch_on_non_square_grid_uses_transposed_check() {
    // Grid 2 wide (x_num) and 5 high (y_num): the data row (from the loop
    // column) is checked against x_num = 2, the data column (from the loop
    // row) against y_num = 5.
    let d = patch_deposits(3, 3, 0, 0, 2, 5);
    assert_eq!(d.len(), 3 * 2);
    assert!(d.iter().all(|p| p.data_row < 2 && p.data_column < 3));
    assert_eq!(
        d[1],
        PatchDeposit { data_row: 1, data_column: 0, patch_row: 1, patch_column: 0 }
    );
}

#[test]
fn output_dimensions_of_both_setups() {
    assert_eq!(
        output_dimensions(DetectorSetup::Single, PIXELS_PER_DETECTOR, X_DETECTORS, Y_DETECTORS, 0, 0),
        (12288, 12288)
    );
    assert_eq!(
        output_dimensions(DetectorSetup::Single, 4096, 3, 3, 50, 7),
        (4096 * 3 + 2 * 50, 4096 * 3 + 2 * 7)
    );
    assert_eq!(output_dimensions(DetectorSetup::Single, 10, 1, 1, 99, 99), (10, 10));
    assert_eq!(output_dimensions(DetectorSetup::Multiple, 4096, 3, 3, 50, 7), (4096, 4096));
    assert_eq!(output_detector_count(DetectorSetup::Single, 3, 3), 1);
    assert_eq!(output_detector_count(DetectorSetup::Multiple, 3, 3), 9);
}

#[test]
fn detector_array_of_three_by_three() {
    let detectors = uvex_detector_array(4096, 4000, 3, 3);
    assert_eq!(detectors.len(), 9);
    for (i, d) in detectors.iter().enumerate() {
        assert_eq!(d.label, i.to_string());
        assert_eq!((d.x_pixels, d.y_pixels), (4096, 4000));
    }
    assert!(uvex_detector_array(10, 10, 0, 3).is_empty());
}

#[test]
fn channel_response_curves() {
    let c = EffectConfiguration::default(UseEffect::On);
    let (fuv, nuv) = fuv_nuv(&c);
    assert_eq!(fuv.len(), 4);
    assert_eq!(nuv.len(), 5);
    assert_eq!(fuv[0].label, "Mirror");
    assert_eq!(fuv[0].self_compose, Some(3));
    assert_eq!(fuv[0].separator, "    ");
    assert_eq!(fuv[0].path, "~/Desktop/uvex/spectral_response/mirror_reflectivity.dat");
    assert_eq!(fuv[2].column, 1);
    assert_eq!(nuv[2].column, 2);
    assert_eq!(fuv[2].path, nuv[2].path);
    assert_eq!(nuv[1].label, "FUV Contamination");
    assert_eq!(nuv[1].path, c.fuv_contamination.1);
    assert_eq!(nuv[4].grid, ResponseGrid::NuvQe);
    assert_eq!(nuv[4].path, "~/Desktop/uvex/spectral_response/UVIM_NUV_QE.dat");
    assert_eq!(fuv[3].grid, ResponseGrid::FuvResponse);
    assert_eq!(fuv[3].label, "FUV Filter response");
    assert!(nuv.iter().skip(1).all(|curve| curve.self_compose.is_none()));
}
