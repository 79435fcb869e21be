use crate::config::EffectConfiguration;
use vstd::prelude::*;

verus! {

/// The wavelength grid a spectral response curve is read onto.
#[derive(Clone, Copy, PartialEq, Eq, Structural, Debug)]
pub enum ResponseGrid {
    FuvContamination,
    FuvResponse,
    NuvResponse,
    NuvQe,
    Dichroic,
    Mirror,
}

/// A spectral response curve to load: its label, grid, data file, the data
/// column to read, the column separator of the file, and how many times the
/// curve is composed with itself (`None` when it is used as read).
pub struct CurveSource {
    pub label: String,
    pub grid: ResponseGrid,
    pub path: String,
    pub column: usize,
    pub separator: String,
    pub self_compose: Option<usize>,
}

/// A `CurveSource` with its strings as sequences of characters.
pub struct CurveView {
    pub label: Seq<char>,
    pub grid: ResponseGrid,
    pub path: Seq<char>,
    pub column: usize,
    pub separator: Seq<char>,
    pub self_compose: Option<usize>,
}

impl View for CurveSource {
    type V = CurveView;

    open spec fn view(&self) -> CurveView {
        CurveView {
            label: self.label@,
            grid: self.grid,
            path: self.path@,
            column: self.column,
            separator: self.separator@,
            self_compose: self.self_compose,
        }
    }
}

/// The views of a sequence of curves.
pub open spec fn curve_views(curves: Seq<CurveSource>) -> Seq<CurveView> {
    curves.map_values(|c: CurveSource| c@)
}

/// The mirror reflectivity, column 1, composed with itself three times (three
/// mirrors).
pub open spec fn mirror_curve(config: EffectConfiguration) -> CurveView {
    CurveView {
        label: "Mirror"@,
        grid: ResponseGrid::Mirror,
        path: config.mirror_response.1@,
        column: 1,
        separator: "    "@,
        self_compose: Some(3),
    }
}

/// The FUV contamination curve, column 1; both channels use it.
pub open spec fn contamination_curve(config: EffectConfiguration) -> CurveView {
    CurveView {
        label: "FUV Contamination"@,
        grid: ResponseGrid::FuvContamination,
        path: config.fuv_contamination.1@,
        column: 1,
        separator: "   "@,
        self_compose: None,
    }
}

/// A column of the dichroic response: column 1 for FUV, 2 for NUV.
pub open spec fn dichroic_curve(config: EffectConfiguration, label: Seq<char>, column: usize) -> CurveView {
    CurveView {
        label,
        grid: ResponseGrid::Dichroic,
        path: config.dichroic.1@,
        column,
        separator: "      "@,
        self_compose: None,
    }
}

/// A curve read from column 1 of `path` with a three-space separator.
pub open spec fn plain_curve(label: Seq<char>, grid: ResponseGrid, path: Seq<char>) -> CurveView {
    CurveView { label, grid, path, column: 1, separator: "   "@, self_compose: None }
}

/// The curves whose product is the FUV response: mirrors, contamination, FUV
/// dichroic column and FUV filter.
pub open spec fn fuv_curves(config: EffectConfiguration) -> Seq<CurveView> {
    seq![
        mirror_curve(config),
        contamination_curve(config),
        dichroic_curve(config, "FUV_DICHROIC"@, 1),
        plain_curve("FUV Filter response"@, ResponseGrid::FuvResponse, config.fuv_response.1@),
    ]
}

/// The curves whose product is the NUV response: mirrors, the FUV
/// contamination, NUV dichroic column, NUV filter and NUV quantum efficiency.
pub open spec fn nuv_curves(config: EffectConfiguration) -> Seq<CurveView> {
    seq![
        mirror_curve(config),
        contamination_curve(config),
        dichroic_curve(config, "NUV_DICHROIC"@, 2),
        plain_curve("NUV Filter response"@, ResponseGrid::NuvResponse, config.nuv_response.1@),
        plain_curve("NUV_QE"@, ResponseGrid::NuvQe, config.nuv_qe_response.1@),
    ]
}

/// Each curve of a channel response is read from the configured file of its
/// own component: the FUV product is the mirror reflectivity (composed with
/// itself three times), the FUV contamination, dichroic column 1 and the FUV
/// filter response; the NUV product shares the same mirror and contamination
/// curves and takes dichroic column 2, the NUV filter response and the NUV
/// quantum efficiency.
pub proof fn lemma_each_curve_reads_its_own_file(
    config: EffectConfiguration,
    fuv: Seq<CurveView>,
    nuv: Seq<CurveView>,
)
    requires
        fuv == fuv_curves(config),
        nuv == nuv_curves(config),
    ensures
        fuv.len() == 4,
        nuv.len() == 5,
        fuv[0].path == config.mirror_response.1@ && fuv[0].grid == ResponseGrid::Mirror && fuv[0].column == 1 && fuv[0].self_compose == Some(3usize),
        fuv[1].path == config.fuv_contamination.1@ && fuv[1].grid == ResponseGrid::FuvContamination && fuv[1].column == 1 && fuv[1].self_compose.is_none(),
        fuv[2].path == config.dichroic.1@ && fuv[2].grid == ResponseGrid::Dichroic && fuv[2].column == 1 && fuv[2].self_compose.is_none(),
        fuv[3].path == config.fuv_response.1@ && fuv[3].grid == ResponseGrid::FuvResponse && fuv[3].column == 1 && fuv[3].self_compose.is_none(),
        nuv[0] == fuv[0],
        nuv[1] == fuv[1],
        nuv[2].path == config.dichroic.1@ && nuv[2].grid == ResponseGrid::Dichroic && nuv[2].column == 2 && nuv[2].self_compose.is_none(),
        nuv[3].path == config.nuv_response.1@ && nuv[3].grid == ResponseGrid::NuvResponse && nuv[3].column == 1 && nuv[3].self_compose.is_none(),
        nuv[4].path == config.nuv_qe_response.1@ && nuv[4].grid == ResponseGrid::NuvQe && nuv[4].column == 1 && nuv[4].self_compose.is_none(),
{
}

fn curve(
    label: &str,
    grid: ResponseGrid,
    path: &String,
    column: usize,
    separator: &str,
    self_compose: Option<usize>,
) -> (c: CurveSource)
    ensures
        c@ == (CurveView {
            label: label@,
            grid,
            path: path@,
            column,
            separator: separator@,
            self_compose,
        }),
{
    CurveSource {
        label: String::from_str(label),
        grid,
        path: path.clone(),
        column,
        separator: String::from_str(separator),
        self_compose,
    }
}

/// The spectral response curves of the two channels, in the order they are
/// multiplied: (FUV curves, NUV curves).
pub fn fuv_nuv(config: &EffectConfiguration) -> (curves: (Vec<CurveSource>, Vec<CurveSource>))
    ensures
        curve_views(curves.0@) == fuv_curves(*config),
        curve_views(curves.1@) == nuv_curves(*config),
        curve_views(curves.0@).len() == 4,
        curve_views(curves.1@).len() == 5,
        curve_views(curves.0@)[0].path == config.mirror_response.1@ && curve_views(curves.0@)[0].grid == ResponseGrid::Mirror && curve_views(curves.0@)[0].column == 1 && curve_views(curves.0@)[0].self_compose == Some(3usize),
        curve_views(curves.0@)[1].path == config.fuv_contamination.1@ && curve_views(curves.0@)[1].grid == ResponseGrid::FuvContamination && curve_views(curves.0@)[1].column == 1 && curve_views(curves.0@)[1].self_compose.is_none(),
        curve_views(curves.0@)[2].path == config.dichroic.1@ && curve_views(curves.0@)[2].grid == ResponseGrid::Dichroic && curve_views(curves.0@)[2].column == 1 && curve_views(curves.0@)[2].self_compose.is_none(),
        curve_views(curves.0@)[3].path == config.fuv_response.1@ && curve_views(curves.0@)[3].grid == ResponseGrid::FuvResponse && curve_views(curves.0@)[3].column == 1 && curve_views(curves.0@)[3].self_compose.is_none(),
        curve_views(curves.1@)[0] == curve_views(curves.0@)[0],
        curve_views(curves.1@)[1] == curve_views(curves.0@)[1],
        curve_views(curves.1@)[2].path == config.dichroic.1@ && curve_views(curves.1@)[2].grid == ResponseGrid::Dichroic && curve_views(curves.1@)[2].column == 2 && curve_views(curves.1@)[2].self_compose.is_none(),
        curve_views(curves.1@)[3].path == config.nuv_response.1@ && curve_views(curves.1@)[3].grid == ResponseGrid::NuvResponse && curve_views(curves.1@)[3].column == 1 && curve_views(curves.1@)[3].self_compose.is_none(),
        curve_views(curves.1@)[4].path == config.nuv_qe_response.1@ && curve_views(curves.1@)[4].grid == ResponseGrid::NuvQe && curve_views(curves.1@)[4].column == 1 && curve_views(curves.1@)[4].self_compose.is_none(),
{
    let mut fuv: Vec<CurveSource> = Vec::new();
    fuv.push(curve("Mirror", ResponseGrid::Mirror, &config.mirror_response.1, 1, "    ", Some(3)));
    fuv.push(
        curve(
            "FUV Contamination",
            ResponseGrid::FuvContamination,
            &config.fuv_contamination.1,
            1,
            "   ",
            None,
        ),
    );
    fuv.push(curve("FUV_DICHROIC", ResponseGrid::Dichroic, &config.dichroic.1, 1, "      ", None));
    fuv.push(
        curve("FUV Filter response", ResponseGrid::FuvResponse, &config.fuv_response.1, 1, "   ", None),
    );
    assert(curve_views(fuv@) =~= fuv_curves(*config));
    let mut nuv: Vec<CurveSource> = Vec::new();
    nuv.push(curve("Mirror", ResponseGrid::Mirror, &config.mirror_response.1, 1, "    ", Some(3)));
    nuv.push(
        curve(
            "FUV Contamination",
            ResponseGrid::FuvContamination,
            &config.fuv_contamination.1,
            1,
            "   ",
            None,
        ),
    );
    nuv.push(curve("NUV_DICHROIC", ResponseGrid::Dichroic, &config.dichroic.1, 2, "      ", None));
    nuv.push(
        curve("NUV Filter response", ResponseGrid::NuvResponse, &config.nuv_response.1, 1, "   ", None),
    );
    nuv.push(curve("NUV_QE", ResponseGrid::NuvQe, &config.nuv_qe_response.1, 1, "   ", None));
    assert(curve_views(nuv@) =~= nuv_curves(*config));
    proof {
        lemma_each_curve_reads_its_own_file(*config, curve_views(fuv@), curve_views(nuv@));
    }
    (fuv, nuv)
}

} // verus!
