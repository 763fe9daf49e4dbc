//! The stage model: the run modes and, for each, the ordered stages that a
//! run passes through.

use vstd::prelude::*;

verus! {

/// Which operation of the tool a run performs.
#[derive(Clone, Copy, Debug, PartialEq, Eq, Structural)]
pub enum RunMode {
    BuildSpecLib,
    SearchDia,
}

/// One stage of a run: a short key, a label for people, and the lowercase
/// keywords whose presence in a log line signals that the stage was reached.
#[derive(Clone, Debug)]
pub struct StageInfo {
    pub key: &'static str,
    pub label: &'static str,
    pub keywords: Vec<&'static str>,
}

/// A stage as plain data.
#[verifier::ext_equal]
pub struct StageView {
    pub key: Seq<char>,
    pub label: Seq<char>,
    pub keywords: Seq<Seq<char>>,
}

impl View for StageInfo {
    type V = StageView;

    open spec fn view(&self) -> StageView {
        StageView {
            key: self.key@,
            label: self.label@,
            keywords: self.keywords@.map_values(|k: &'static str| k@),
        }
    }
}

/// The stages of a sequence as plain data.
pub open spec fn stage_views(stages: Seq<StageInfo>) -> Seq<StageView> {
    stages.map_values(|s: StageInfo| s@)
}

impl RunMode {
    /// The subcommand of the tool that performs this mode.
    pub open spec fn spec_subcommand(self) -> Seq<char> {
        match self {
            RunMode::BuildSpecLib => "predict"@,
            RunMode::SearchDia => "search"@,
        }
    }

    /// The name of the configuration file that a run of this mode is handed.
    pub open spec fn spec_config_filename(self) -> Seq<char> {
        match self {
            RunMode::BuildSpecLib => "buildspeclib_params.json"@,
            RunMode::SearchDia => "search_params.json"@,
        }
    }

    /// The name under which this mode appears in events.
    pub open spec fn spec_as_str(self) -> Seq<char> {
        match self {
            RunMode::BuildSpecLib => "buildSpecLib"@,
            RunMode::SearchDia => "searchDia"@,
        }
    }

    /// The stages of this mode, in order.
    pub open spec fn spec_stage_sequence(self) -> Seq<StageView> {
        match self {
            RunMode::BuildSpecLib => build_stages(),
            RunMode::SearchDia => search_stages(),
        }
    }

    pub fn subcommand(&self) -> (name: &'static str)
        ensures
            name@ == self.spec_subcommand(),
    {
        match self {
            RunMode::BuildSpecLib => "predict",
            RunMode::SearchDia => "search",
        }
    }

    pub fn config_filename(&self) -> (name: &'static str)
        ensures
            name@ == self.spec_config_filename(),
    {
        match self {
            RunMode::BuildSpecLib => "buildspeclib_params.json",
            RunMode::SearchDia => "search_params.json",
        }
    }

    pub fn as_str(&self) -> (name: &'static str)
        ensures
            name@ == self.spec_as_str(),
    {
        match self {
            RunMode::BuildSpecLib => "buildSpecLib",
            RunMode::SearchDia => "searchDia",
        }
    }

    pub fn stage_sequence(&self) -> (stages: Vec<StageInfo>)
        ensures
            stage_views(stages@) == self.spec_stage_sequence(),
            well_formed_sequence(stage_views(stages@)),
    {
        match self {
            RunMode::BuildSpecLib => build_stage_table(),
            RunMode::SearchDia => search_stage_table(),
        }
    }
}

/// What every stage table obeys: it has a first stage, which has no
/// keywords, and every later stage has at least one.
pub open spec fn well_formed_sequence(stages: Seq<StageView>) -> bool {
    &&& stages.len() >= 1
    &&& stages[0].keywords.len() == 0
    &&& forall|i: int| 1 <= i < stages.len() ==> (#[trigger] stages[i]).keywords.len() > 0
}

/// The stages of a library build.
pub open spec fn build_stages() -> Seq<StageView> {
    seq![
        StageView { key: "starting"@, label: "Starting Pioneer"@, keywords: seq![] },
        StageView {
            key: "prepare"@,
            label: "Preparing inputs"@,
            keywords: seq!["reading"@, "loading"@, "prepare"@, "initializing"@],
        },
        StageView {
            key: "predict"@,
            label: "Predicting spectral library"@,
            keywords: seq![
                "predict"@,
                "altimeter"@,
                "model"@,
                "generating"@,
                "writing predicted"@,
            ],
        },
        StageView {
            key: "write"@,
            label: "Writing spectral library"@,
            keywords: seq!["writing"@, "saving"@, "export"@],
        },
        StageView {
            key: "complete"@,
            label: "Completed"@,
            keywords: seq!["complete"@, "finished"@, "success"@],
        },
    ]
}

/// The stages of a search.
pub open spec fn search_stages() -> Seq<StageView> {
    seq![
        StageView { key: "starting"@, label: "Starting Pioneer"@, keywords: seq![] },
        StageView {
            key: "prepare"@,
            label: "Preparing inputs"@,
            keywords: seq!["reading"@, "loading"@, "preparing"@, "initializing"@],
        },
        StageView {
            key: "presearch"@,
            label: "Tuning search parameters"@,
            keywords: seq!["presearch"@, "tuning"@, "estimating"@],
        },
        StageView {
            key: "first"@,
            label: "Running first pass search"@,
            keywords: seq!["first search"@, "index search"@, "first pass"@],
        },
        StageView {
            key: "quant"@,
            label: "Running quantification search"@,
            keywords: seq!["quant"@, "quantification"@, "scoring"@],
        },
        StageView {
            key: "finishing"@,
            label: "Finalizing results"@,
            keywords: seq!["writing results"@, "post-processing"@, "saving"@],
        },
        StageView {
            key: "complete"@,
            label: "Completed"@,
            keywords: seq!["complete"@, "finished"@, "success"@],
        },
    ]
}

fn stage(key: &'static str, label: &'static str, keywords: Vec<&'static str>) -> (info: StageInfo)
    ensures
        info.key == key,
        info.label == label,
        info.keywords == keywords,
{
    StageInfo { key, label, keywords }
}

fn build_stage_table() -> (stages: Vec<StageInfo>)
    ensures
        stage_views(stages@) == build_stages(),
        well_formed_sequence(stage_views(stages@)),
{
    let mut stages: Vec<StageInfo> = Vec::new();
    stages.push(stage("starting", "Starting Pioneer", Vec::new()));
    stages.push(
        stage("prepare", "Preparing inputs", vec!["reading", "loading", "prepare", "initializing"]),
    );
    stages.push(
        stage(
            "predict",
            "Predicting spectral library",
            vec!["predict", "altimeter", "model", "generating", "writing predicted"],
        ),
    );
    stages.push(stage("write", "Writing spectral library", vec!["writing", "saving", "export"]));
    stages.push(stage("complete", "Completed", vec!["complete", "finished", "success"]));
    proof {
        assert(stage_views(stages@) =~~= build_stages());
    }
    stages
}

fn search_stage_table() -> (stages: Vec<StageInfo>)
    ensures
        stage_views(stages@) == search_stages(),
        well_formed_sequence(stage_views(stages@)),
{
    let mut stages: Vec<StageInfo> = Vec::new();
    stages.push(stage("starting", "Starting Pioneer", Vec::new()));
    stages.push(
        stage("prepare", "Preparing inputs", vec!["reading", "loading", "preparing", "initializing"]),
    );
    stages.push(
        stage("presearch", "Tuning search parameters", vec!["presearch", "tuning", "estimating"]),
    );
    stages.push(
        stage(
            "first",
            "Running first pass search",
            vec!["first search", "index search", "first pass"],
        ),
    );
    stages.push(
        stage("quant", "Running quantification search", vec!["quant", "quantification", "scoring"]),
    );
    stages.push(
        stage(
            "finishing",
            "Finalizing results",
            vec!["writing results", "post-processing", "saving"],
        ),
    );
    stages.push(stage("complete", "Completed", vec!["complete", "finished", "success"]));
    proof {
        assert(stage_views(stages@) =~~= search_stages());
    }
    stages
}

} // verus!
