use crate::naming::{decimal, digits_value, lemma_decimal_reads_back, push_decimal};
use vstd::prelude::*;

verus! {

/// Number of detector planes of the UVEX focal plane (a 3 by 3 mosaic). Each
/// directory of measured detector effects holds one file per plane.
pub const DETECTOR_PLANES: usize = 9;

/// `{directory}/{file_name}_{plane}.fits`: the file of one detector plane.
pub open spec fn effect_file_path(directory: Seq<char>, file_name: Seq<char>, plane: nat) -> Seq<char> {
    directory + seq!['/'] + file_name + seq!['_'] + decimal(plane) + seq!['.', 'f', 'i', 't', 's']
}

/// `{subject} for detector {plane}`: the label of one detector plane's effect.
pub open spec fn plane_label(subject: Seq<char>, plane: nat) -> Seq<char> {
    subject + seq![' ', 'f', 'o', 'r', ' ', 'd', 'e', 't', 'e', 'c', 't', 'o', 'r', ' '] + decimal(
        plane,
    )
}

/// The file of one detector plane, `{directory}/{file_name}_{plane}.fits`.
pub fn detector_effect_path(directory: &str, file_name: &str, plane: usize) -> (path: String)
    ensures
        path@ == effect_file_path(directory@, file_name@, plane as nat),
{
    proof {
        reveal_strlit("/");
        reveal_strlit("_");
        reveal_strlit(".fits");
    }
    let mut path = String::from_str(directory);
    path.append("/");
    path.append(file_name);
    path.append("_");
    push_decimal(&mut path, plane);
    path.append(".fits");
    assert(path@ =~= effect_file_path(directory@, file_name@, plane as nat));
    path
}

/// The label of one detector plane's effect, `{subject} for detector {plane}`.
pub fn detector_plane_label(subject: &str, plane: usize) -> (label: String)
    ensures
        label@ == plane_label(subject@, plane as nat),
{
    proof {
        reveal_strlit(" for detector ");
    }
    let mut label = String::from_str(subject);
    label.append(" for detector ");
    push_decimal(&mut label, plane);
    assert(label@ =~= plane_label(subject@, plane as nat));
    label
}

/// The data file of one detector plane, with the label of its effect.
pub struct EffectFile {
    pub plane: usize,
    pub label: String,
    pub path: String,
}

/// The files of a detector effect, one per detector plane, in plane order.
pub struct EffectFileSet {
    pub label: String,
    pub files: Vec<EffectFile>,
}

/// `set` is labelled `label` and holds, for each plane `i` in order, the file
/// `{directory}/{file_name}_{i}.fits` labelled `{subject} for detector {i}`.
pub open spec fn is_effect_file_set(
    set: EffectFileSet,
    label: Seq<char>,
    subject: Seq<char>,
    directory: Seq<char>,
    file_name: Seq<char>,
) -> bool {
    &&& set.label@ == label
    &&& set.files@.len() == DETECTOR_PLANES
    &&& forall|i: int|
        0 <= i < DETECTOR_PLANES ==> {
            let f = #[trigger] set.files@[i];
            &&& f.plane == i
            &&& f.label@ == plane_label(subject, i as nat)
            &&& f.path@ == effect_file_path(directory, file_name, i as nat)
        }
}

fn effect_file_set(label: &str, subject: &str, directory: &str, file_name: &str) -> (set:
    EffectFileSet)
    ensures
        is_effect_file_set(set, label@, subject@, directory@, file_name@),
{
    let mut files: Vec<EffectFile> = Vec::new();
    for plane in 0..DETECTOR_PLANES
        invariant
            files@.len() == plane,
            forall|i: int|
                0 <= i < plane ==> {
                    let f = #[trigger] files@[i];
                    &&& f.plane == i
                    &&& f.label@ == plane_label(subject@, i as nat)
                    &&& f.path@ == effect_file_path(directory@, file_name@, i as nat)
                },
    {
        let label = detector_plane_label(subject, plane);
        let path = detector_effect_path(directory, file_name, plane);
        files.push(EffectFile { plane, label, path });
    }
    EffectFileSet { label: String::from_str(label), files }
}

/// The FUV dead pixel maps of the nine detector planes in `directory` (the
/// configured FUV dead pixel directory): `{directory}/fuv_dead_pixels_{i}.fits`,
/// labelled `Dead Pixel map for detector {i}`, the set labelled `Dead Pixel Maps`.
pub fn dead_pixels(directory: &str) -> (set: EffectFileSet)
    ensures
        is_effect_file_set(
            set,
            "Dead Pixel Maps"@,
            "Dead Pixel map"@,
            directory@,
            "fuv_dead_pixels"@,
        ),
{
    effect_file_set("Dead Pixel Maps", "Dead Pixel map", directory, "fuv_dead_pixels")
}

/// The FUV read noise maps of the nine detector planes in `directory` (the
/// configured FUV read noise directory): `{directory}/fuv_read_noise_{i}.fits`,
/// labelled `Read noise map for detector {i}`, the set labelled `Read noise Maps`.
pub fn read_noise(directory: &str) -> (set: EffectFileSet)
    ensures
        is_effect_file_set(
            set,
            "Read noise Maps"@,
            "Read noise map"@,
            directory@,
            "fuv_read_noise"@,
        ),
{
    effect_file_set("Read noise Maps", "Read noise map", directory, "fuv_read_noise")
}

/// The maps of a detector effect stored as `{directory}/{file_name}_{i}.fits`
/// for the nine detector planes, labelled `{file_name} for detector {i}`, the
/// set labelled `file_name`.
pub fn load_detector_effects(file_name: &str, directory: &str) -> (set: EffectFileSet)
    ensures
        is_effect_file_set(set, file_name@, file_name@, directory@, file_name@),
{
    effect_file_set(file_name, file_name, directory, file_name)
}

/// Different detector planes get different files: the path of plane `p` in a
/// directory is `{directory}/{file_name}_` followed by the decimal notation of
/// `p` (which reads back as `p`) and `.fits`.
pub proof fn lemma_plane_paths_distinct(directory: Seq<char>, file_name: Seq<char>, p: nat, q: nat)
    requires
        p != q,
    ensures
        effect_file_path(directory, file_name, p) != effect_file_path(directory, file_name, q),
        ({
            let head = directory + seq!['/'] + file_name + seq!['_'];
            let path = effect_file_path(directory, file_name, p);
            &&& path.subrange(0, head.len() as int) == head
            &&& digits_value(path.subrange(head.len() as int, path.len() - 5)) == p
            &&& path.subrange(path.len() - 5, path.len() as int) == seq!['.', 'f', 'i', 't', 's']
        }),
{
    let head = directory + seq!['/'] + file_name + seq!['_'];
    let tail = seq!['.', 'f', 'i', 't', 's'];
    let a = effect_file_path(directory, file_name, p);
    let b = effect_file_path(directory, file_name, q);
    assert(a == head + decimal(p) + tail);
    assert(b == head + decimal(q) + tail);
    lemma_decimal_reads_back(p);
    lemma_decimal_reads_back(q);
    let hl = head.len() as int;
    assert(a.subrange(0, hl) =~= head);
    assert(a.subrange(hl, a.len() - 5) =~= decimal(p));
    assert(a.subrange(a.len() - 5, a.len() as int) =~= tail);
    if a == b {
        assert(b.subrange(hl, b.len() - 5) =~= decimal(q));
        assert(decimal(p) == decimal(q));
        assert(false);
    }
}

} // verus!
