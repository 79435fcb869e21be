use crate::config::{Channel, EffectConfiguration, UseEffect};
use vstd::prelude::*;

verus! {

/// The detector effects applied after the point sources are added.
#[derive(Clone, Copy, PartialEq, Eq, Structural, Debug)]
pub enum DetectorEffect {
    ReadNoise,
    DarkCurrent,
    Flatfield,
    DeadPixels,
}

/// One step of finishing a simulated detector.
#[derive(Clone, Copy, PartialEq, Eq, Structural, Debug)]
pub enum EffectStep {
    /// Add the detector's read noise map to `channel`, once.
    AddReadNoise { channel: Channel },
    /// Add the detector's dark current map to `channel`, scaled by the
    /// exposure time of that channel.
    AddDarkCurrent { channel: Channel },
    /// Multiply `channel` by the flat-field illumination of that channel.
    MultiplyFlatfield { channel: Channel },
    /// Multiply `channel` by the detector's dead pixel map, once.
    MultiplyDeadPixels { channel: Channel },
    /// Report that `effect` is switched off.
    Warn { effect: DetectorEffect },
}

/// The steps of one effect: both channels when `switch` is on; when it is
/// off, a warning for the first detector and nothing for the others.
pub open spec fn effect_steps_of(
    switch: UseEffect,
    effect: DetectorEffect,
    fuv: EffectStep,
    nuv: EffectStep,
    detector: int,
) -> Seq<EffectStep> {
    if switch == UseEffect::On {
        seq![fuv, nuv]
    } else if detector == 0 {
        seq![EffectStep::Warn { effect }]
    } else {
        Seq::empty()
    }
}

/// The effect steps of detector `detector`: read noise, dark current,
/// flat-field illumination (switched by the FUV flat-field entry), then dead
/// pixels.
pub open spec fn effect_steps_spec(config: EffectConfiguration, detector: int) -> Seq<EffectStep> {
    effect_steps_of(
        config.read_noise,
        DetectorEffect::ReadNoise,
        EffectStep::AddReadNoise { channel: Channel::Fuv },
        EffectStep::AddReadNoise { channel: Channel::Nuv },
        detector,
    ) + effect_steps_of(
        config.dark_current,
        DetectorEffect::DarkCurrent,
        EffectStep::AddDarkCurrent { channel: Channel::Fuv },
        EffectStep::AddDarkCurrent { channel: Channel::Nuv },
        detector,
    ) + effect_steps_of(
        config.fuv_flatfield_illumination.0,
        DetectorEffect::Flatfield,
        EffectStep::MultiplyFlatfield { channel: Channel::Fuv },
        EffectStep::MultiplyFlatfield { channel: Channel::Nuv },
        detector,
    ) + effect_steps_of(
        config.dead_pixels.0,
        DetectorEffect::DeadPixels,
        EffectStep::MultiplyDeadPixels { channel: Channel::Fuv },
        EffectStep::MultiplyDeadPixels { channel: Channel::Nuv },
        detector,
    )
}

fn push_effect_steps(
    steps: &mut Vec<EffectStep>,
    switch: UseEffect,
    effect: DetectorEffect,
    fuv: EffectStep,
    nuv: EffectStep,
    detector: usize,
)
    ensures
        final(steps)@ == old(steps)@ + effect_steps_of(switch, effect, fuv, nuv, detector as int),
{
    let ghost before = steps@;
    if switch.is_on() {
        steps.push(fuv);
        steps.push(nuv);
    } else if detector == 0 {
        steps.push(EffectStep::Warn { effect });
    }
    assert(steps@ =~= before + effect_steps_of(switch, effect, fuv, nuv, detector as int));
}

/// The effect steps of detector `detector`, in the order they are applied.
pub fn detector_effect_steps(config: &EffectConfiguration, detector: usize) -> (steps: Vec<
    EffectStep,
>)
    ensures
        steps@ == effect_steps_spec(*config, detector as int),
        forall|c: Channel| #[trigger] steps@.contains(EffectStep::AddReadNoise { channel: c }) <==> config.read_noise == UseEffect::On,
        forall|c: Channel| #[trigger] steps@.contains(EffectStep::AddDarkCurrent { channel: c }) <==> config.dark_current == UseEffect::On,
        forall|c: Channel| #[trigger] steps@.contains(EffectStep::MultiplyFlatfield { channel: c }) <==> config.fuv_flatfield_illumination.0 == UseEffect::On,
        forall|c: Channel| #[trigger] steps@.contains(EffectStep::MultiplyDeadPixels { channel: c }) <==> config.dead_pixels.0 == UseEffect::On,
        steps@.contains(EffectStep::Warn { effect: DetectorEffect::ReadNoise }) <==> (config.read_noise == UseEffect::Off && detector == 0),
        steps@.contains(EffectStep::Warn { effect: DetectorEffect::DarkCurrent }) <==> (config.dark_current == UseEffect::Off && detector == 0),
        steps@.contains(EffectStep::Warn { effect: DetectorEffect::Flatfield }) <==> (config.fuv_flatfield_illumination.0 == UseEffect::Off && detector == 0),
        steps@.contains(EffectStep::Warn { effect: DetectorEffect::DeadPixels }) <==> (config.dead_pixels.0 == UseEffect::Off && detector == 0),
        forall|i: int, j: int| 0 <= i < j < steps@.len() ==> step_rank(#[trigger] steps@[i]) < step_rank(#[trigger] steps@[j]),
{
    proof {
        lemma_effect_steps_follow_switches(*config, detector as int);
    }
    let mut steps: Vec<EffectStep> = Vec::new();
    push_effect_steps(
        &mut steps,
        config.read_noise,
        DetectorEffect::ReadNoise,
        EffectStep::AddReadNoise { channel: Channel::Fuv },
        EffectStep::AddReadNoise { channel: Channel::Nuv },
        detector,
    );
    push_effect_steps(
        &mut steps,
        config.dark_current,
        DetectorEffect::DarkCurrent,
        EffectStep::AddDarkCurrent { channel: Channel::Fuv },
        EffectStep::AddDarkCurrent { channel: Channel::Nuv },
        detector,
    );
    push_effect_steps(
        &mut steps,
        config.fuv_flatfield_illumination.0,
        DetectorEffect::Flatfield,
        EffectStep::MultiplyFlatfield { channel: Channel::Fuv },
        EffectStep::MultiplyFlatfield { channel: Channel::Nuv },
        detector,
    );
    push_effect_steps(
        &mut steps,
        config.dead_pixels.0,
        DetectorEffect::DeadPixels,
        EffectStep::MultiplyDeadPixels { channel: Channel::Fuv },
        EffectStep::MultiplyDeadPixels { channel: Channel::Nuv },
        detector,
    );
    assert(steps@ =~= effect_steps_spec(*config, detector as int));
    steps
}

/// Position of an effect step in the order effects are applied: read noise,
/// dark current, flat field, dead pixels; within an effect the FUV channel
/// before the NUV channel, a warning in the place of the effect.
pub open spec fn step_rank(step: EffectStep) -> int {
    match step {
        EffectStep::AddReadNoise { channel } => if channel == Channel::Fuv { 0 } else { 1 },
        EffectStep::AddDarkCurrent { channel } => if channel == Channel::Fuv { 2 } else { 3 },
        EffectStep::MultiplyFlatfield { channel } => if channel == Channel::Fuv { 4 } else { 5 },
        EffectStep::MultiplyDeadPixels { channel } => if channel == Channel::Fuv { 6 } else { 7 },
        EffectStep::Warn { effect } => match effect {
            DetectorEffect::ReadNoise => 0,
            DetectorEffect::DarkCurrent => 2,
            DetectorEffect::Flatfield => 4,
            DetectorEffect::DeadPixels => 6,
        },
    }
}

proof fn lemma_effect_part(
    switch: UseEffect,
    effect: DetectorEffect,
    fuv: EffectStep,
    nuv: EffectStep,
    detector: int,
    base: int,
)
    requires
        step_rank(fuv) == base,
        step_rank(nuv) == base + 1,
        step_rank(EffectStep::Warn { effect }) == base,
    ensures
        ({
            let p = effect_steps_of(switch, effect, fuv, nuv, detector);
            &&& forall|k: int| 0 <= k < p.len() ==> base <= step_rank(#[trigger] p[k]) < base + 2
            &&& forall|i: int, j: int| 0 <= i < j < p.len() ==> step_rank(#[trigger] p[i]) < step_rank(#[trigger] p[j])
            &&& forall|x: EffectStep| #[trigger] p.contains(x) <==> ((switch == UseEffect::On && (x == fuv || x == nuv))
                || (switch == UseEffect::Off && detector == 0 && x == EffectStep::Warn { effect }))
        }),
{
    broadcast use vstd::seq_lib::lemma_seq_contains;

    let p = effect_steps_of(switch, effect, fuv, nuv, detector);
    assert forall|x: EffectStep| #[trigger] p.contains(x) <==> ((switch == UseEffect::On && (x == fuv || x == nuv))
        || (switch == UseEffect::Off && detector == 0 && x == EffectStep::Warn { effect })) by {
        if switch == UseEffect::On {
            assert(p[0] == fuv && p[1] == nuv);
        } else if detector == 0 {
            assert(p[0] == EffectStep::Warn { effect });
        }
    }
}

proof fn lemma_effect_steps_contain(config: EffectConfiguration, detector: int)
    ensures
        ({
            let s = effect_steps_spec(config, detector);
            &&& forall|c: Channel| #[trigger] s.contains(EffectStep::AddReadNoise { channel: c }) <==> config.read_noise == UseEffect::On
            &&& forall|c: Channel| #[trigger] s.contains(EffectStep::AddDarkCurrent { channel: c }) <==> config.dark_current == UseEffect::On
            &&& forall|c: Channel| #[trigger] s.contains(EffectStep::MultiplyFlatfield { channel: c }) <==> config.fuv_flatfield_illumination.0 == UseEffect::On
            &&& forall|c: Channel| #[trigger] s.contains(EffectStep::MultiplyDeadPixels { channel: c }) <==> config.dead_pixels.0 == UseEffect::On
            &&& s.contains(EffectStep::Warn { effect: DetectorEffect::ReadNoise }) <==> (config.read_noise == UseEffect::Off && detector == 0)
            &&& s.contains(EffectStep::Warn { effect: DetectorEffect::DarkCurrent }) <==> (config.dark_current == UseEffect::Off && detector == 0)
            &&& s.contains(EffectStep::Warn { effect: DetectorEffect::Flatfield }) <==> (config.fuv_flatfield_illumination.0 == UseEffect::Off && detector == 0)
            &&& s.contains(EffectStep::Warn { effect: DetectorEffect::DeadPixels }) <==> (config.dead_pixels.0 == UseEffect::Off && detector == 0)
        }),
{
    broadcast use vstd::seq_lib::lemma_seq_concat_contains_all_elements;

    let a = effect_steps_of(config.read_noise, DetectorEffect::ReadNoise, EffectStep::AddReadNoise { channel: Channel::Fuv }, EffectStep::AddReadNoise { channel: Channel::Nuv }, detector);
    let b = effect_steps_of(config.dark_current, DetectorEffect::DarkCurrent, EffectStep::AddDarkCurrent { channel: Channel::Fuv }, EffectStep::AddDarkCurrent { channel: Channel::Nuv }, detector);
    let c = effect_steps_of(config.fuv_flatfield_illumination.0, DetectorEffect::Flatfield, EffectStep::MultiplyFlatfield { channel: Channel::Fuv }, EffectStep::MultiplyFlatfield { channel: Channel::Nuv }, detector);
    let d = effect_steps_of(config.dead_pixels.0, DetectorEffect::DeadPixels, EffectStep::MultiplyDeadPixels { channel: Channel::Fuv }, EffectStep::MultiplyDeadPixels { channel: Channel::Nuv }, detector);
    lemma_effect_part(config.read_noise, DetectorEffect::ReadNoise, EffectStep::AddReadNoise { channel: Channel::Fuv }, EffectStep::AddReadNoise { channel: Channel::Nuv }, detector, 0);
    lemma_effect_part(config.dark_current, DetectorEffect::DarkCurrent, EffectStep::AddDarkCurrent { channel: Channel::Fuv }, EffectStep::AddDarkCurrent { channel: Channel::Nuv }, detector, 2);
    lemma_effect_part(config.fuv_flatfield_illumination.0, DetectorEffect::Flatfield, EffectStep::MultiplyFlatfield { channel: Channel::Fuv }, EffectStep::MultiplyFlatfield { channel: Channel::Nuv }, detector, 4);
    lemma_effect_part(config.dead_pixels.0, DetectorEffect::DeadPixels, EffectStep::MultiplyDeadPixels { channel: Channel::Fuv }, EffectStep::MultiplyDeadPixels { channel: Channel::Nuv }, detector, 6);
    assert(effect_steps_spec(config, detector) == a + b + c + d);
}

proof fn lemma_effect_steps_ordered(config: EffectConfiguration, detector: int)
    ensures
        ({
            let s = effect_steps_spec(config, detector);
            forall|i: int, j: int| 0 <= i < j < s.len() ==> step_rank(#[trigger] s[i]) < step_rank(#[trigger] s[j])
        }),
{
    let a = effect_steps_of(config.read_noise, DetectorEffect::ReadNoise, EffectStep::AddReadNoise { channel: Channel::Fuv }, EffectStep::AddReadNoise { channel: Channel::Nuv }, detector);
    let b = effect_steps_of(config.dark_current, DetectorEffect::DarkCurrent, EffectStep::AddDarkCurrent { channel: Channel::Fuv }, EffectStep::AddDarkCurrent { channel: Channel::Nuv }, detector);
    let c = effect_steps_of(config.fuv_flatfield_illumination.0, DetectorEffect::Flatfield, EffectStep::MultiplyFlatfield { channel: Channel::Fuv }, EffectStep::MultiplyFlatfield { channel: Channel::Nuv }, detector);
    let d = effect_steps_of(config.dead_pixels.0, DetectorEffect::DeadPixels, EffectStep::MultiplyDeadPixels { channel: Channel::Fuv }, EffectStep::MultiplyDeadPixels { channel: Channel::Nuv }, detector);
    lemma_effect_part(config.read_noise, DetectorEffect::ReadNoise, EffectStep::AddReadNoise { channel: Channel::Fuv }, EffectStep::AddReadNoise { channel: Channel::Nuv }, detector, 0);
    lemma_effect_part(config.dark_current, DetectorEffect::DarkCurrent, EffectStep::AddDarkCurrent { channel: Channel::Fuv }, EffectStep::AddDarkCurrent { channel: Channel::Nuv }, detector, 2);
    lemma_effect_part(config.fuv_flatfield_illumination.0, DetectorEffect::Flatfield, EffectStep::MultiplyFlatfield { channel: Channel::Fuv }, EffectStep::MultiplyFlatfield { channel: Channel::Nuv }, detector, 4);
    lemma_effect_part(config.dead_pixels.0, DetectorEffect::DeadPixels, EffectStep::MultiplyDeadPixels { channel: Channel::Fuv }, EffectStep::MultiplyDeadPixels { channel: Channel::Nuv }, detector, 6);
    let ab = a + b;
    let abc = ab + c;
    let s = effect_steps_spec(config, detector);
    assert(s == abc + d);
    assert forall|k: int| 0 <= k < s.len() implies ({
        let r = step_rank(#[trigger] s[k]);
        &&& k < a.len() ==> 0 <= r < 2 && s[k] == a[k]
        &&& a.len() <= k < ab.len() ==> 2 <= r < 4 && s[k] == b[k - a.len()]
        &&& ab.len() <= k < abc.len() ==> 4 <= r < 6 && s[k] == c[k - ab.len()]
        &&& abc.len() <= k ==> 6 <= r < 8 && s[k] == d[k - abc.len()]
    }) by {
        if k < abc.len() {
            assert(s[k] == abc[k]);
            if k < ab.len() {
                assert(abc[k] == ab[k]);
                if k < a.len() {
                    assert(ab[k] == a[k]);
                } else {
                    assert(ab[k] == b[k - a.len()]);
                }
            } else {
                assert(abc[k] == c[k - ab.len()]);
            }
        } else {
            assert(s[k] == d[k - abc.len()]);
        }
    }
    assert forall|i: int, j: int| 0 <= i < j < s.len() implies step_rank(#[trigger] s[i]) < step_rank(#[trigger] s[j]) by {
        if j < a.len() {
            assert(s[i] == a[i] && s[j] == a[j]);
        } else if a.len() <= i && j < ab.len() {
            assert(s[i] == b[i - a.len()] && s[j] == b[j - a.len()]);
        } else if ab.len() <= i && j < abc.len() {
            assert(s[i] == c[i - ab.len()] && s[j] == c[j - ab.len()]);
        } else if abc.len() <= i {
            assert(s[i] == d[i - abc.len()] && s[j] == d[j - abc.len()]);
        }
    }
}

/// Each effect follows its own switch: both channels of an effect are applied
/// exactly when its switch is on (the flat field by the FUV flat-field
/// switch); a switched-off effect is warned about exactly on detector 0; and
/// the steps come strictly in the order read noise, dark current, flat field,
/// dead pixels, FUV before NUV, so none repeats.
pub proof fn lemma_effect_steps_follow_switches(config: EffectConfiguration, detector: int)
    ensures
        ({
            let s = effect_steps_spec(config, detector);
            &&& forall|c: Channel| #[trigger] s.contains(EffectStep::AddReadNoise { channel: c }) <==> config.read_noise == UseEffect::On
            &&& forall|c: Channel| #[trigger] s.contains(EffectStep::AddDarkCurrent { channel: c }) <==> config.dark_current == UseEffect::On
            &&& forall|c: Channel| #[trigger] s.contains(EffectStep::MultiplyFlatfield { channel: c }) <==> config.fuv_flatfield_illumination.0 == UseEffect::On
            &&& forall|c: Channel| #[trigger] s.contains(EffectStep::MultiplyDeadPixels { channel: c }) <==> config.dead_pixels.0 == UseEffect::On
            &&& s.contains(EffectStep::Warn { effect: DetectorEffect::ReadNoise }) <==> (config.read_noise == UseEffect::Off && detector == 0)
            &&& s.contains(EffectStep::Warn { effect: DetectorEffect::DarkCurrent }) <==> (config.dark_current == UseEffect::Off && detector == 0)
            &&& s.contains(EffectStep::Warn { effect: DetectorEffect::Flatfield }) <==> (config.fuv_flatfield_illumination.0 == UseEffect::Off && detector == 0)
            &&& s.contains(EffectStep::Warn { effect: DetectorEffect::DeadPixels }) <==> (config.dead_pixels.0 == UseEffect::Off && detector == 0)
            &&& forall|i: int, j: int| 0 <= i < j < s.len() ==> step_rank(#[trigger] s[i]) < step_rank(#[trigger] s[j])
        }),
{
    lemma_effect_steps_contain(config, detector);
    lemma_effect_steps_ordered(config, detector);
}

/// One pixel of a binned point-spread patch added onto a detector: the patch
/// value at `patch[patch_row][patch_column]` goes to detector pixel
/// `data[data_row][data_column]`.
#[derive(Clone, Copy, PartialEq, Eq, Structural, Debug)]
pub struct PatchDeposit {
    pub data_row: usize,
    pub data_column: usize,
    pub patch_row: usize,
    pub patch_column: usize,
}

/// The deposit of loop position (`row`, `column`) for a patch placed at
/// offset (`x_offset`, `y_offset`): patch value `[column][row]` onto detector
/// pixel `[column + y_offset][row + x_offset]`.
pub open spec fn deposit_at(row: int, column: int, x_offset: int, y_offset: int) -> PatchDeposit {
    PatchDeposit {
        data_row: (column + y_offset) as usize,
        data_column: (row + x_offset) as usize,
        patch_row: column as usize,
        patch_column: row as usize,
    }
}

/// Whether loop position (`row`, `column`) passes the grid check against a
/// detector grid of `x_num` by `y_num` pixels: `column + y_offset < x_num` and
/// `row + x_offset < y_num`.
pub open spec fn lands_on_grid(
    row: int,
    column: int,
    x_offset: int,
    y_offset: int,
    x_num: int,
    y_num: int,
) -> bool {
    column + y_offset < x_num && row + x_offset < y_num
}

/// The deposits of loop row `row`, loop columns `0..columns`, in column order.
pub open spec fn row_deposits(
    row: int,
    columns: nat,
    x_offset: int,
    y_offset: int,
    x_num: int,
    y_num: int,
) -> Seq<PatchDeposit>
    decreases columns,
{
    if columns == 0 {
        Seq::empty()
    } else {
        let c = columns - 1;
        let before = row_deposits(row, (columns - 1) as nat, x_offset, y_offset, x_num, y_num);
        if lands_on_grid(row, c, x_offset, y_offset, x_num, y_num) {
            before.push(deposit_at(row, c, x_offset, y_offset))
        } else {
            before
        }
    }
}

/// The deposits of loop rows `0..rows`, each over loop columns `0..columns`,
/// in loop order.
pub open spec fn patch_deposits_spec(
    rows: nat,
    columns: nat,
    x_offset: int,
    y_offset: int,
    x_num: int,
    y_num: int,
) -> Seq<PatchDeposit>
    decreases rows,
{
    if rows == 0 {
        Seq::empty()
    } else {
        patch_deposits_spec((rows - 1) as nat, columns, x_offset, y_offset, x_num, y_num)
            + row_deposits((rows - 1) as int, columns, x_offset, y_offset, x_num, y_num)
    }
}

/// Whether every deposit passes the grid check (`data_row < x_num`,
/// `data_column < y_num`) and reads the patch transposed: `patch_row` below
/// the loop's column count `patch_width`, `patch_column` below its row count
/// `patch_height`.
pub open spec fn deposits_in_bounds(
    deposits: Seq<PatchDeposit>,
    patch_height: int,
    patch_width: int,
    x_num: int,
    y_num: int,
) -> bool {
    forall|k: int|
        0 <= k < deposits.len() ==> {
            let d = #[trigger] deposits[k];
            &&& d.data_row < x_num
            &&& d.data_column < y_num
            &&& d.patch_row < patch_width
            &&& d.patch_column < patch_height
        }
}

/// What the deposits of one loop row are: every deposit of loop row `row`
/// reads patch value `[c][row]` for some `c < columns` and writes detector
/// pixel `[c + y_offset][row + x_offset]` on the grid; every such `c` that
/// passes the grid check has its deposit; and the deposits come in increasing
/// `c`.
proof fn lemma_row_deposits_facts(
    row: int,
    columns: nat,
    x_offset: int,
    y_offset: int,
    x_num: int,
    y_num: int,
)
    requires
        0 <= row <= usize::MAX,
        0 <= x_offset,
        0 <= y_offset,
        columns <= usize::MAX + 1,
        x_num <= usize::MAX,
        y_num <= usize::MAX,
    ensures
        ({
            let s = row_deposits(row, columns, x_offset, y_offset, x_num, y_num);
            &&& forall|k: int|
                0 <= k < s.len() ==> {
                    let d = #[trigger] s[k];
                    &&& d.patch_column == row
                    &&& d.patch_row < columns
                    &&& d.data_row == d.patch_row + y_offset
                    &&& d.data_column == row + x_offset
                    &&& d.data_row < x_num
                    &&& d.data_column < y_num
                }
            &&& forall|c: int|
                0 <= c < columns && c + y_offset < x_num && row + x_offset < y_num ==> s.contains(
                    #[trigger] deposit_at(row, c, x_offset, y_offset),
                )
            &&& forall|i: int, j: int| 0 <= i < j < s.len() ==> (#[trigger] s[i]).patch_row < (#[trigger] s[j]).patch_row
        }),
    decreases columns,
{
    if columns > 0 {
        let c = columns - 1;
        lemma_row_deposits_facts(row, (columns - 1) as nat, x_offset, y_offset, x_num, y_num);
        let before = row_deposits(row, (columns - 1) as nat, x_offset, y_offset, x_num, y_num);
        let s = row_deposits(row, columns, x_offset, y_offset, x_num, y_num);
        assert forall|cc: int|
            0 <= cc < columns && cc + y_offset < x_num && row + x_offset < y_num implies s.contains(
                #[trigger] deposit_at(row, cc, x_offset, y_offset),
            ) by {
            if cc < c {
                assert(before.contains(deposit_at(row, cc, x_offset, y_offset)));
                let w = choose|w: int| 0 <= w < before.len() && before[w] == deposit_at(row, cc, x_offset, y_offset);
                assert(s[w] == before[w]);
            } else {
                assert(s[before.len() as int] == deposit_at(row, c, x_offset, y_offset));
            }
        }
    }
}

/// What the deposits of a whole patch are: every deposit reads a patch value
/// `[c][r]` with `r < rows` and `c < columns` and writes detector pixel
/// `[c + y_offset][r + x_offset]` on the grid; every such pair that passes the
/// grid check has its deposit; and the deposits come in loop order, by `r`
/// and then by `c`, so none repeats.
proof fn lemma_patch_deposits_facts(
    rows: nat,
    columns: nat,
    x_offset: int,
    y_offset: int,
    x_num: int,
    y_num: int,
)
    requires
        rows <= usize::MAX + 1,
        columns <= usize::MAX + 1,
        0 <= x_offset,
        0 <= y_offset,
        x_num <= usize::MAX,
        y_num <= usize::MAX,
    ensures
        ({
            let s = patch_deposits_spec(rows, columns, x_offset, y_offset, x_num, y_num);
            &&& forall|k: int|
                0 <= k < s.len() ==> {
                    let d = #[trigger] s[k];
                    &&& d.patch_column < rows
                    &&& d.patch_row < columns
                    &&& d.data_row == d.patch_row + y_offset
                    &&& d.data_column == d.patch_column + x_offset
                    &&& d.data_row < x_num
                    &&& d.data_column < y_num
                }
            &&& forall|r: int, c: int|
                0 <= r < rows && 0 <= c < columns && c + y_offset < x_num && r + x_offset < y_num
                    ==> s.contains(#[trigger] deposit_at(r, c, x_offset, y_offset))
            &&& forall|i: int, j: int|
                0 <= i < j < s.len() ==> (#[trigger] s[i]).patch_column < (#[trigger] s[j]).patch_column
                    || (s[i].patch_column == s[j].patch_column && s[i].patch_row < s[j].patch_row)
        }),
    decreases rows,
{
    if rows > 0 {
        let r0 = rows - 1;
        lemma_patch_deposits_facts((rows - 1) as nat, columns, x_offset, y_offset, x_num, y_num);
        lemma_row_deposits_facts(r0, columns, x_offset, y_offset, x_num, y_num);
        let a = patch_deposits_spec((rows - 1) as nat, columns, x_offset, y_offset, x_num, y_num);
        let b = row_deposits(r0, columns, x_offset, y_offset, x_num, y_num);
        let s = patch_deposits_spec(rows, columns, x_offset, y_offset, x_num, y_num);
        assert(s == a + b);
        assert forall|k: int| 0 <= k < s.len() implies {
            let d = #[trigger] s[k];
            &&& d.patch_column < rows
            &&& d.patch_row < columns
            &&& d.data_row == d.patch_row + y_offset
            &&& d.data_column == d.patch_column + x_offset
            &&& d.data_row < x_num
            &&& d.data_column < y_num
        } by {
            if k < a.len() {
                assert(s[k] == a[k]);
            } else {
                assert(s[k] == b[k - a.len()]);
            }
        }
        assert forall|r: int, c: int|
            0 <= r < rows && 0 <= c < columns && c + y_offset < x_num && r + x_offset < y_num
                implies s.contains(#[trigger] deposit_at(r, c, x_offset, y_offset)) by {
            if r < r0 {
                assert(a.contains(deposit_at(r, c, x_offset, y_offset)));
                let w = choose|w: int| 0 <= w < a.len() && a[w] == deposit_at(r, c, x_offset, y_offset);
                assert(s[w] == a[w]);
            } else {
                assert(b.contains(deposit_at(r, c, x_offset, y_offset)));
                let w = choose|w: int| 0 <= w < b.len() && b[w] == deposit_at(r, c, x_offset, y_offset);
                assert(s[a.len() + w] == b[w]);
            }
        }
        assert forall|i: int, j: int| 0 <= i < j < s.len() implies (#[trigger] s[i]).patch_column
            < (#[trigger] s[j]).patch_column || (s[i].patch_column == s[j].patch_column && s[i].patch_row
            < s[j].patch_row) by {
            if j < a.len() {
                assert(s[i] == a[i] && s[j] == a[j]);
            } else if i < a.len() {
                assert(s[i] == a[i] && s[j] == b[j - a.len()]);
            } else {
                assert(s[i] == b[i - a.len()] && s[j] == b[j - a.len()]);
            }
        }
    }
}

/// Where a binned point-spread patch lands on a detector grid of `x_num` by
/// `y_num` pixels when placed at offset (`x_offset`, `y_offset`). The loop
/// runs over `row < patch_height` (the number of patch rows) and, within it,
/// `column < patch_width` (the length of the first patch row); where
/// `column + y_offset < x_num` and `row + x_offset < y_num`, the patch value
/// `[column][row]` goes to detector pixel `[column + y_offset][row + x_offset]`;
/// the rest is dropped. The patch is read transposed and the data row is
/// checked against `x_num`: this agrees with reading patch row `r` into data
/// row `r + y_offset` only for square patches on square grids.
pub fn patch_deposits(
    patch_height: usize,
    patch_width: usize,
    x_offset: usize,
    y_offset: usize,
    x_num: usize,
    y_num: usize,
) -> (deposits: Vec<PatchDeposit>)
    requires
        patch_width + y_offset <= usize::MAX,
        patch_height + x_offset <= usize::MAX,
    ensures
        deposits@ == patch_deposits_spec(
            patch_height as nat,
            patch_width as nat,
            x_offset as int,
            y_offset as int,
            x_num as int,
            y_num as int,
        ),
        deposits_in_bounds(
            deposits@,
            patch_height as int,
            patch_width as int,
            x_num as int,
            y_num as int,
        ),
        forall|k: int|
            0 <= k < deposits@.len() ==> {
                let d = #[trigger] deposits@[k];
                &&& d.patch_column < patch_height
                &&& d.patch_row < patch_width
                &&& d.data_row == d.patch_row + y_offset
                &&& d.data_column == d.patch_column + x_offset
                &&& d.data_row < x_num
                &&& d.data_column < y_num
            },
        forall|row: int, column: int|
            0 <= row < patch_height && 0 <= column < patch_width && column + y_offset < x_num && row
                + x_offset < y_num ==> #[trigger] deposits@.contains(
                (PatchDeposit {
                    data_row: (column + y_offset) as usize,
                    data_column: (row + x_offset) as usize,
                    patch_row: column as usize,
                    patch_column: row as usize,
                }),
            ),
        forall|i: int, j: int|
            0 <= i < j < deposits@.len() ==> (#[trigger] deposits@[i]).patch_column < (
            #[trigger] deposits@[j]).patch_column || (deposits@[i].patch_column
                == deposits@[j].patch_column && deposits@[i].patch_row < deposits@[j].patch_row),
{
    proof {
        lemma_patch_deposits_facts(
            patch_height as nat,
            patch_width as nat,
            x_offset as int,
            y_offset as int,
            x_num as int,
            y_num as int,
        );
    }
    let mut deposits: Vec<PatchDeposit> = Vec::new();
    for row in 0..patch_height
        invariant
            patch_width + y_offset <= usize::MAX,
            patch_height + x_offset <= usize::MAX,
            deposits@ == patch_deposits_spec(
                row as nat,
                patch_width as nat,
                x_offset as int,
                y_offset as int,
                x_num as int,
                y_num as int,
            ),
            deposits_in_bounds(
                deposits@,
                patch_height as int,
                patch_width as int,
                x_num as int,
                y_num as int,
            ),
    {
        let ghost before = deposits@;
        for column in 0..patch_width
            invariant
                patch_width + y_offset <= usize::MAX,
                patch_height + x_offset <= usize::MAX,
                row < patch_height,
                deposits@ == before + row_deposits(
                    row as int,
                    column as nat,
                    x_offset as int,
                    y_offset as int,
                    x_num as int,
                    y_num as int,
                ),
                deposits_in_bounds(
                    deposits@,
                    patch_height as int,
                    patch_width as int,
                    x_num as int,
                    y_num as int,
                ),
        {
            if column + y_offset < x_num && row + x_offset < y_num {
                deposits.push(
                    PatchDeposit {
                        data_row: column + y_offset,
                        data_column: row + x_offset,
                        patch_row: column,
                        patch_column: row,
                    },
                );
            }
            assert(deposits@ =~= before + row_deposits(
                row as int,
                (column + 1) as nat,
                x_offset as int,
                y_offset as int,
                x_num as int,
                y_num as int,
            ));
        }
        assert(deposits@ =~= patch_deposits_spec(
            (row + 1) as nat,
            patch_width as nat,
            x_offset as int,
            y_offset as int,
            x_num as int,
            y_num as int,
        ));
    }
    assert forall|row: int, column: int|
        0 <= row < patch_height && 0 <= column < patch_width && column + y_offset < x_num && row
            + x_offset < y_num implies #[trigger] deposits@.contains(
        (PatchDeposit {
            data_row: (column + y_offset) as usize,
            data_column: (row + x_offset) as usize,
            patch_row: column as usize,
            patch_column: row as usize,
        }),
    ) by {
        assert(deposits@.contains(deposit_at(row, column, x_offset as int, y_offset as int)));
    }
    deposits
}

} // verus!
