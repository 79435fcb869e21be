use crate::config::{Channel, EffectConfiguration, UseEffect};
use crate::detector_effects::{
    detector_effect_path, effect_file_path, is_effect_file_set, EffectFileSet, DETECTOR_PLANES,
};
use vstd::prelude::*;

verus! {

/// Side, in pixels, of the synthetic detector maps.
pub const SYNTHETIC_MAP_SIZE: usize = 4096;

/// The detector effects drawn from a normal distribution.
#[derive(Clone, Copy, PartialEq, Eq, Structural, Debug)]
pub enum NoiseField {
    DarkCurrent,
    ReadNoise,
}

/// One step of generating the missing synthetic detector data.
pub enum GenerationTask {
    /// Write a `size` by `size` map drawn from the normal distribution of
    /// `field` (mean and standard deviation of the configuration) to `path`.
    NormalMap { field: NoiseField, size: usize, path: String },
    /// Write a synthetic dead pixel map of a `size` by `size` plane to `path`.
    DeadPixelMap {
        size: usize,
        path: String,
        num_scattered_pixels: usize,
        num_rows: usize,
        num_columns: usize,
        num_rectangles: usize,
    },
    /// Report that `field` is switched off and is not generated.
    Skipped { field: NoiseField },
}

/// A `GenerationTask` with its path as a sequence of characters.
pub enum TaskView {
    NormalMap { field: NoiseField, size: usize, path: Seq<char> },
    DeadPixelMap {
        size: usize,
        path: Seq<char>,
        num_scattered_pixels: usize,
        num_rows: usize,
        num_columns: usize,
        num_rectangles: usize,
    },
    Skipped { field: NoiseField },
}

impl View for GenerationTask {
    type V = TaskView;

    open spec fn view(&self) -> TaskView {
        match self {
            GenerationTask::NormalMap { field, size, path } => TaskView::NormalMap {
                field: *field,
                size: *size,
                path: path@,
            },
            GenerationTask::DeadPixelMap {
                size,
                path,
                num_scattered_pixels,
                num_rows,
                num_columns,
                num_rectangles,
            } => TaskView::DeadPixelMap {
                size: *size,
                path: path@,
                num_scattered_pixels: *num_scattered_pixels,
                num_rows: *num_rows,
                num_columns: *num_columns,
                num_rectangles: *num_rectangles,
            },
            GenerationTask::Skipped { field } => TaskView::Skipped { field: *field },
        }
    }
}

/// The file name stem of a synthetic map of `field` in `channel`.
pub open spec fn noise_file_name(field: NoiseField, channel: Channel) -> Seq<char> {
    match (field, channel) {
        (NoiseField::DarkCurrent, Channel::Fuv) => "fuv_dark_current"@,
        (NoiseField::DarkCurrent, Channel::Nuv) => "nuv_dark_current"@,
        (NoiseField::ReadNoise, Channel::Fuv) => "fuv_read_noise"@,
        (NoiseField::ReadNoise, Channel::Nuv) => "nuv_read_noise"@,
    }
}

/// The directory of the synthetic maps of `field` in `channel`.
pub open spec fn noise_directory(config: EffectConfiguration, field: NoiseField, channel: Channel) -> Seq<char> {
    match (field, channel) {
        (NoiseField::DarkCurrent, Channel::Fuv) => config.fuv_dark_current.1@,
        (NoiseField::DarkCurrent, Channel::Nuv) => config.nuv_dark_current.1@,
        (NoiseField::ReadNoise, Channel::Fuv) => config.fuv_read_noise.1@,
        (NoiseField::ReadNoise, Channel::Nuv) => config.nuv_read_noise.1@,
    }
}

/// The switch of `field`.
pub open spec fn noise_switch(config: EffectConfiguration, field: NoiseField) -> UseEffect {
    match field {
        NoiseField::DarkCurrent => config.dark_current,
        NoiseField::ReadNoise => config.read_noise,
    }
}

/// The tasks of `field` for detector plane `plane`: an FUV and an NUV map when
/// the field is switched on, else a report that it is skipped.
pub open spec fn noise_tasks(config: EffectConfiguration, field: NoiseField, plane: nat) -> Seq<TaskView> {
    if noise_switch(config, field) == UseEffect::On {
        seq![
            TaskView::NormalMap {
                field,
                size: SYNTHETIC_MAP_SIZE,
                path: effect_file_path(noise_directory(config, field, Channel::Fuv), noise_file_name(field, Channel::Fuv), plane),
            },
            TaskView::NormalMap {
                field,
                size: SYNTHETIC_MAP_SIZE,
                path: effect_file_path(noise_directory(config, field, Channel::Nuv), noise_file_name(field, Channel::Nuv), plane),
            },
        ]
    } else {
        seq![TaskView::Skipped { field }]
    }
}

/// A dead pixel map task for `path` with the counts of the configuration.
pub open spec fn dead_pixel_task(config: EffectConfiguration, path: Seq<char>) -> TaskView {
    TaskView::DeadPixelMap {
        size: SYNTHETIC_MAP_SIZE,
        path,
        num_scattered_pixels: config.dead_pixels.1,
        num_rows: config.dead_pixels.2,
        num_columns: config.dead_pixels.3,
        num_rectangles: config.dead_pixels.4,
    }
}

/// The dead pixel tasks of detector plane `plane`: an FUV and an NUV map when
/// dead pixels are switched on, else none.
pub open spec fn dead_pixel_tasks(config: EffectConfiguration, plane: nat) -> Seq<TaskView> {
    if config.dead_pixels.0 == UseEffect::On {
        seq![
            dead_pixel_task(config, effect_file_path(config.fuv_dead_pixels.1@, "fuv_dead_pixels"@, plane)),
            dead_pixel_task(config, effect_file_path(config.nuv_dead_pixels.1@, "nuv_dead_pixels"@, plane)),
        ]
    } else {
        Seq::empty()
    }
}

/// The tasks of detector plane `plane`: dark current, then read noise, then
/// dead pixels.
pub open spec fn plane_tasks(config: EffectConfiguration, plane: nat) -> Seq<TaskView> {
    noise_tasks(config, NoiseField::DarkCurrent, plane) + noise_tasks(config, NoiseField::ReadNoise, plane)
        + dead_pixel_tasks(config, plane)
}

/// The tasks of the first `planes` detector planes, plane by plane.
pub open spec fn missing_data_tasks(config: EffectConfiguration, planes: nat) -> Seq<TaskView>
    decreases planes,
{
    if planes == 0 {
        Seq::empty()
    } else {
        missing_data_tasks(config, (planes - 1) as nat) + plane_tasks(config, (planes - 1) as nat)
    }
}

/// The views of a sequence of tasks.
pub open spec fn task_views(tasks: Seq<GenerationTask>) -> Seq<TaskView> {
    tasks.map_values(|t: GenerationTask| t@)
}

fn push_task(tasks: &mut Vec<GenerationTask>, task: GenerationTask)
    ensures
        task_views(final(tasks)@) == task_views(old(tasks)@).push(task@),
{
    let ghost before = tasks@;
    tasks.push(task);
    assert(task_views(tasks@) =~= task_views(before).push(task@));
}

fn push_noise_tasks(
    tasks: &mut Vec<GenerationTask>,
    config: &EffectConfiguration,
    field: NoiseField,
    plane: usize,
)
    ensures
        task_views(final(tasks)@) == task_views(old(tasks)@) + noise_tasks(*config, field, plane as nat),
{
    let (switch, fuv_directory, nuv_directory, fuv_name, nuv_name) = match field {
        NoiseField::DarkCurrent => (
            config.dark_current,
            config.fuv_dark_current.1.as_str(),
            config.nuv_dark_current.1.as_str(),
            "fuv_dark_current",
            "nuv_dark_current",
        ),
        NoiseField::ReadNoise => (
            config.read_noise,
            config.fuv_read_noise.1.as_str(),
            config.nuv_read_noise.1.as_str(),
            "fuv_read_noise",
            "nuv_read_noise",
        ),
    };
    let ghost before = task_views(tasks@);
    if switch.is_on() {
        let fuv_path = detector_effect_path(fuv_directory, fuv_name, plane);
        push_task(tasks, GenerationTask::NormalMap { field, size: SYNTHETIC_MAP_SIZE, path: fuv_path });
        let nuv_path = detector_effect_path(nuv_directory, nuv_name, plane);
        push_task(tasks, GenerationTask::NormalMap { field, size: SYNTHETIC_MAP_SIZE, path: nuv_path });
    } else {
        push_task(tasks, GenerationTask::Skipped { field });
    }
    assert(task_views(tasks@) =~= before + noise_tasks(*config, field, plane as nat));
}

fn push_dead_pixel_tasks(tasks: &mut Vec<GenerationTask>, config: &EffectConfiguration, plane: usize)
    ensures
        task_views(final(tasks)@) == task_views(old(tasks)@) + dead_pixel_tasks(*config, plane as nat),
{
    let ghost before = task_views(tasks@);
    if config.dead_pixels.0.is_on() {
        let (_, num_scattered_pixels, num_rows, num_columns, num_rectangles) = config.dead_pixels;
        let fuv_path = detector_effect_path(config.fuv_dead_pixels.1.as_str(), "fuv_dead_pixels", plane);
        push_task(
            tasks,
            GenerationTask::DeadPixelMap {
                size: SYNTHETIC_MAP_SIZE,
                path: fuv_path,
                num_scattered_pixels,
                num_rows,
                num_columns,
                num_rectangles,
            },
        );
        let nuv_path = detector_effect_path(config.nuv_dead_pixels.1.as_str(), "nuv_dead_pixels", plane);
        push_task(
            tasks,
            GenerationTask::DeadPixelMap {
                size: SYNTHETIC_MAP_SIZE,
                path: nuv_path,
                num_scattered_pixels,
                num_rows,
                num_columns,
                num_rectangles,
            },
        );
    }
    assert(task_views(tasks@) =~= before + dead_pixel_tasks(*config, plane as nat));
}

/// The synthetic detector data to generate for the nine detector planes,
/// plane by plane: per plane the FUV and NUV dark current maps (or a report
/// that dark current is off), the FUV and NUV read noise maps (or a report
/// that read noise is off), and the FUV and NUV dead pixel maps when dead
/// pixels are on. Each map goes to `{directory}/{stem}_{plane}.fits` in the
/// directory that the configuration gives for it.
pub fn missing_data_plan(config: &EffectConfiguration) -> (tasks: Vec<GenerationTask>)
    ensures
        task_views(tasks@) == missing_data_tasks(*config, DETECTOR_PLANES as nat),
{
    let mut tasks: Vec<GenerationTask> = Vec::new();
    assert(task_views(tasks@) =~= missing_data_tasks(*config, 0));
    for plane in 0..DETECTOR_PLANES
        invariant
            task_views(tasks@) == missing_data_tasks(*config, plane as nat),
    {
        push_noise_tasks(&mut tasks, config, NoiseField::DarkCurrent, plane);
        push_noise_tasks(&mut tasks, config, NoiseField::ReadNoise, plane);
        push_dead_pixel_tasks(&mut tasks, config, plane);
        assert(task_views(tasks@) =~= missing_data_tasks(*config, (plane + 1) as nat));
    }
    tasks
}

/// The plan of the first `planes` planes holds every task of each of them.
pub proof fn lemma_plan_holds_plane_tasks(config: EffectConfiguration, planes: nat, plane: nat, k: int)
    requires
        plane < planes,
        0 <= k < plane_tasks(config, plane).len(),
    ensures
        missing_data_tasks(config, planes).contains(plane_tasks(config, plane)[k]),
    decreases planes,
{
    let prefix = missing_data_tasks(config, (planes - 1) as nat);
    let last = plane_tasks(config, (planes - 1) as nat);
    assert(missing_data_tasks(config, planes) == prefix + last);
    if plane == planes - 1 {
        assert((prefix + last)[prefix.len() + k] == last[k]);
    } else {
        lemma_plan_holds_plane_tasks(config, (planes - 1) as nat, plane, k);
        let j = choose|j: int| 0 <= j < prefix.len() && prefix[j] == plane_tasks(config, plane)[k];
        assert((prefix + last)[j] == prefix[j]);
    }
}

/// Written where read, dark current: when dark current is switched on, the
/// FUV dark current map that the missing-data plan writes for each detector
/// plane is the file that `load_detector_effects("fuv_dark_current", d)` lists
/// for that plane, `d` being the configured FUV dark current directory.
pub proof fn lemma_dark_current_written_where_read(
    config: EffectConfiguration,
    loaded: EffectFileSet,
    plane: int,
)
    requires
        config.dark_current == UseEffect::On,
        is_effect_file_set(
            loaded,
            "fuv_dark_current"@,
            "fuv_dark_current"@,
            config.fuv_dark_current.1@,
            "fuv_dark_current"@,
        ),
        0 <= plane < DETECTOR_PLANES,
    ensures
        missing_data_tasks(config, DETECTOR_PLANES as nat).contains(
            TaskView::NormalMap {
                field: NoiseField::DarkCurrent,
                size: SYNTHETIC_MAP_SIZE,
                path: loaded.files@[plane].path@,
            },
        ),
{
    let p = plane as nat;
    assert(plane_tasks(config, p)[0] == noise_tasks(config, NoiseField::DarkCurrent, p)[0]);
    lemma_plan_holds_plane_tasks(config, DETECTOR_PLANES as nat, p, 0);
}

/// Written where read, read noise: when read noise is switched on, the FUV
/// read noise map that the missing-data plan writes for each detector plane is
/// the file that `read_noise(d)` lists for that plane, `d` being the configured
/// FUV read noise directory.
pub proof fn lemma_read_noise_written_where_read(
    config: EffectConfiguration,
    loaded: EffectFileSet,
    plane: int,
)
    requires
        config.read_noise == UseEffect::On,
        is_effect_file_set(
            loaded,
            "Read noise Maps"@,
            "Read noise map"@,
            config.fuv_read_noise.1@,
            "fuv_read_noise"@,
        ),
        0 <= plane < DETECTOR_PLANES,
    ensures
        missing_data_tasks(config, DETECTOR_PLANES as nat).contains(
            TaskView::NormalMap {
                field: NoiseField::ReadNoise,
                size: SYNTHETIC_MAP_SIZE,
                path: loaded.files@[plane].path@,
            },
        ),
{
    let p = plane as nat;
    let dark = noise_tasks(config, NoiseField::DarkCurrent, p);
    let tasks = plane_tasks(config, p);
    assert(tasks[dark.len() as int] == noise_tasks(config, NoiseField::ReadNoise, p)[0]);
    lemma_plan_holds_plane_tasks(config, DETECTOR_PLANES as nat, p, dark.len() as int);
}

/// Written where read, dead pixels: when dead pixels are switched on, the FUV
/// dead pixel map that the missing-data plan writes for each detector plane is
/// the file that `dead_pixels(d)` lists for that plane, `d` being the
/// configured FUV dead pixel directory.
pub proof fn lemma_dead_pixels_written_where_read(
    config: EffectConfiguration,
    loaded: EffectFileSet,
    plane: int,
)
    requires
        config.dead_pixels.0 == UseEffect::On,
        is_effect_file_set(
            loaded,
            "Dead Pixel Maps"@,
            "Dead Pixel map"@,
            config.fuv_dead_pixels.1@,
            "fuv_dead_pixels"@,
        ),
        0 <= plane < DETECTOR_PLANES,
    ensures
        missing_data_tasks(config, DETECTOR_PLANES as nat).contains(
            dead_pixel_task(config, loaded.files@[plane].path@),
        ),
{
    let p = plane as nat;
    let noise = noise_tasks(config, NoiseField::DarkCurrent, p) + noise_tasks(config, NoiseField::ReadNoise, p);
    let tasks = plane_tasks(config, p);
    assert(tasks == noise + dead_pixel_tasks(config, p));
    assert(tasks[noise.len() as int] == dead_pixel_tasks(config, p)[0]);
    lemma_plan_holds_plane_tasks(config, DETECTOR_PLANES as nat, p, noise.len() as int);
}

spec fn task_is_switched_on(config: EffectConfiguration, t: TaskView) -> bool {
    match t {
        TaskView::NormalMap { field, .. } => (field == NoiseField::DarkCurrent ==> config.dark_current
            == UseEffect::On) && (field == NoiseField::ReadNoise ==> config.read_noise == UseEffect::On),
        TaskView::DeadPixelMap { .. } => config.dead_pixels.0 == UseEffect::On,
        TaskView::Skipped { field } => (field == NoiseField::DarkCurrent ==> config.dark_current
            == UseEffect::Off) && (field == NoiseField::ReadNoise ==> config.read_noise == UseEffect::Off),
    }
}

spec fn tasks_per_plane(config: EffectConfiguration) -> int {
    (if config.dark_current == UseEffect::On { 2int } else { 1int }) + (if config.read_noise
        == UseEffect::On { 2int } else { 1int }) + (if config.dead_pixels.0 == UseEffect::On { 2int } else { 0int })
}

proof fn lemma_plan_shape(config: EffectConfiguration, planes: nat)
    ensures
        missing_data_tasks(config, planes).len() == planes * tasks_per_plane(config),
        forall|k: int|
            0 <= k < missing_data_tasks(config, planes).len() ==> task_is_switched_on(
                config,
                #[trigger] missing_data_tasks(config, planes)[k],
            ),
    decreases planes,
{
    if planes > 0 {
        let p = (planes - 1) as nat;
        lemma_plan_shape(config, p);
        let a = missing_data_tasks(config, p);
        let b = plane_tasks(config, p);
        let t = missing_data_tasks(config, planes);
        assert(t == a + b);
        assert(b.len() == tasks_per_plane(config));
        assert(planes * tasks_per_plane(config) == p * tasks_per_plane(config) + tasks_per_plane(config))
            by (nonlinear_arith)
            requires
                planes == p + 1,
        ;
        assert forall|k: int| 0 <= k < b.len() implies task_is_switched_on(config, #[trigger] b[k]) by {
            let dark = noise_tasks(config, NoiseField::DarkCurrent, p);
            let read = noise_tasks(config, NoiseField::ReadNoise, p);
            let dead = dead_pixel_tasks(config, p);
            if k < dark.len() {
                assert(b[k] == dark[k]);
            } else if k < dark.len() + read.len() {
                assert(b[k] == read[k - dark.len()]);
            } else {
                assert(b[k] == dead[k - dark.len() - read.len()]);
            }
        }
        assert forall|k: int| 0 <= k < t.len() implies task_is_switched_on(config, #[trigger] t[k]) by {
            if k < a.len() {
                assert(t[k] == a[k]);
            } else {
                assert(t[k] == b[k - a.len()]);
            }
        }
    }
}

/// What the missing-data plan writes, for every configuration and detector
/// plane `plane`: when dark current is on, the FUV map
/// `{fuv dark current directory}/fuv_dark_current_{plane}.fits` and the NUV map
/// `{nuv dark current directory}/nuv_dark_current_{plane}.fits`, else a
/// report that it is skipped; likewise for read noise; when dead pixels are
/// on, the FUV and NUV dead pixel maps in their own configured directories
/// with the configured counts. No map of a switched-off effect is written,
/// and the plan holds `2` tasks per switched-on effect and `1` report per
/// switched-off noise field for each of the nine planes.
pub proof fn lemma_plan_writes_each_map(config: EffectConfiguration, plane: int)
    requires
        0 <= plane < DETECTOR_PLANES,
    ensures
        ({
            let t = missing_data_tasks(config, DETECTOR_PLANES as nat);
            let p = plane as nat;
            &&& config.dark_current == UseEffect::On ==> t.contains(
                TaskView::NormalMap {
                    field: NoiseField::DarkCurrent,
                    size: 4096,
                    path: effect_file_path(config.fuv_dark_current.1@, "fuv_dark_current"@, p),
                },
            ) && t.contains(
                TaskView::NormalMap {
                    field: NoiseField::DarkCurrent,
                    size: 4096,
                    path: effect_file_path(config.nuv_dark_current.1@, "nuv_dark_current"@, p),
                },
            )
            &&& config.dark_current == UseEffect::Off ==> t.contains(
                TaskView::Skipped { field: NoiseField::DarkCurrent },
            )
            &&& config.read_noise == UseEffect::On ==> t.contains(
                TaskView::NormalMap {
                    field: NoiseField::ReadNoise,
                    size: 4096,
                    path: effect_file_path(config.fuv_read_noise.1@, "fuv_read_noise"@, p),
                },
            ) && t.contains(
                TaskView::NormalMap {
                    field: NoiseField::ReadNoise,
                    size: 4096,
                    path: effect_file_path(config.nuv_read_noise.1@, "nuv_read_noise"@, p),
                },
            )
            &&& config.read_noise == UseEffect::Off ==> t.contains(
                TaskView::Skipped { field: NoiseField::ReadNoise },
            )
            &&& config.dead_pixels.0 == UseEffect::On ==> t.contains(
                TaskView::DeadPixelMap {
                    size: 4096,
                    path: effect_file_path(config.fuv_dead_pixels.1@, "fuv_dead_pixels"@, p),
                    num_scattered_pixels: config.dead_pixels.1,
                    num_rows: config.dead_pixels.2,
                    num_columns: config.dead_pixels.3,
                    num_rectangles: config.dead_pixels.4,
                },
            ) && t.contains(
                TaskView::DeadPixelMap {
                    size: 4096,
                    path: effect_file_path(config.nuv_dead_pixels.1@, "nuv_dead_pixels"@, p),
                    num_scattered_pixels: config.dead_pixels.1,
                    num_rows: config.dead_pixels.2,
                    num_columns: config.dead_pixels.3,
                    num_rectangles: config.dead_pixels.4,
                },
            )
            &&& forall|k: int|
                0 <= k < t.len() ==> match #[trigger] t[k] {
                    TaskView::NormalMap { field, .. } => (field == NoiseField::DarkCurrent
                        ==> config.dark_current == UseEffect::On) && (field == NoiseField::ReadNoise
                        ==> config.read_noise == UseEffect::On),
                    TaskView::DeadPixelMap { .. } => config.dead_pixels.0 == UseEffect::On,
                    TaskView::Skipped { field } => (field == NoiseField::DarkCurrent
                        ==> config.dark_current == UseEffect::Off) && (field == NoiseField::ReadNoise
                        ==> config.read_noise == UseEffect::Off),
                }
            &&& t.len() == 9 * ((if config.dark_current == UseEffect::On { 2int } else { 1int }) + (
            if config.read_noise == UseEffect::On { 2int } else { 1int }) + (if config.dead_pixels.0
                == UseEffect::On { 2int } else { 0int }))
        }),
{
    let p = plane as nat;
    let n = DETECTOR_PLANES as nat;
    lemma_plan_shape(config, n);
    let dark = noise_tasks(config, NoiseField::DarkCurrent, p);
    let dl = dark.len() as int;
    let read = noise_tasks(config, NoiseField::ReadNoise, p);
    let rl = read.len() as int;
    let tasks = plane_tasks(config, p);
    assert(tasks == dark + read + dead_pixel_tasks(config, p));
    lemma_plan_holds_plane_tasks(config, n, p, 0);
    assert(tasks[0] == dark[0]);
    if config.dark_current == UseEffect::On {
        lemma_plan_holds_plane_tasks(config, n, p, 1);
        assert(tasks[1] == dark[1]);
    }
    lemma_plan_holds_plane_tasks(config, n, p, dl);
    assert(tasks[dl] == read[0]);
    if config.read_noise == UseEffect::On {
        lemma_plan_holds_plane_tasks(config, n, p, dl + 1);
        assert(tasks[dl + 1] == read[1]);
    }
    if config.dead_pixels.0 == UseEffect::On {
        let d = dead_pixel_tasks(config, p);
        lemma_plan_holds_plane_tasks(config, n, p, dl + rl);
        lemma_plan_holds_plane_tasks(config, n, p, dl + rl + 1);
        assert(tasks[dl + rl] == d[0]);
        assert(tasks[dl + rl + 1] == d[1]);
    }
    let t = missing_data_tasks(config, n);
    assert forall|k: int| 0 <= k < t.len() implies match #[trigger] t[k] {
        TaskView::NormalMap { field, .. } => (field == NoiseField::DarkCurrent ==> config.dark_current
            == UseEffect::On) && (field == NoiseField::ReadNoise ==> config.read_noise == UseEffect::On),
        TaskView::DeadPixelMap { .. } => config.dead_pixels.0 == UseEffect::On,
        TaskView::Skipped { field } => (field == NoiseField::DarkCurrent ==> config.dark_current
            == UseEffect::Off) && (field == NoiseField::ReadNoise ==> config.read_noise == UseEffect::Off),
    } by {
        assert(task_is_switched_on(config, t[k]));
    }
}

} // verus!
