use pioneer_supervisor::progress::{stage_progress, Progress};
use pioneer_supervisor::stage::RunMode;
use pioneer_supervisor::tracker::{advance, match_normalized, match_stage, stage_matches};

#[test]
fn subcommand_per_mode() {
    assert_eq!(RunMode::BuildSpecLib.subcommand(), "predict");
    assert_eq!(RunMode::SearchDia.subcommand(), "search");
}

#[test]
fn config_filename_per_mode() {
    assert_eq!(RunMode::BuildSpecLib.config_filename(), "buildspeclib_params.json");
    assert_eq!(RunMode::SearchDia.config_filename(), "search_params.json");
}

#[test]
fn mode_names() {
    assert_eq!(RunMode::BuildSpecLib.as_str(), "buildSpecLib");
    assert_eq!(RunMode::SearchDia.as_str(), "searchDia");
}

#[test]
fn build_stage_table() {
    let stages = RunMode::BuildSpecLib.stage_sequence();
    let keys: Vec<&str> = stages.iter().map(|s| s.key).collect();
    assert_eq!(keys, vec!["starting", "prepare", "predict", "write", "complete"]);
    let labels: Vec<&str> = stages.iter().map(|s| s.label).collect();
    assert_eq!(
        labels,
        vec![
            "Starting Pioneer",
            "Preparing inputs",
            "Predicting spectral library",
            "Writing spectral library",
            "Completed"
        ]
    );
    assert!(stages[0].keywords.is_empty());
    assert_eq!(stages[1].keywords, vec!["reading", "loading", "prepare", "initializing"]);
    assert_eq!(
        stages[2].keywords,
        vec!["predict", "altimeter", "model", "generating", "writing predicted"]
    );
    assert_eq!(stages[3].keywords, vec!["writing", "saving", "export"]);
    assert_eq!(stages[4].keywords, vec!["complete", "finished", "success"]);
}

#[test]
fn search_stage_table() {
    let stages = RunMode::SearchDia.stage_sequence();
    let keys: Vec<&str> = stages.iter().map(|s| s.key).collect();
    assert_eq!(
        keys,
        vec!["starting", "prepare", "presearch", "first", "quant", "finishing", "complete"]
    );
    assert!(stages[0].keywords.is_empty());
    assert_eq!(stages[1].keywords, vec!["reading", "loading", "preparing", "initializing"]);
    assert_eq!(stages[2].keywords, vec!["presearch", "tuning", "estimating"]);
    assert_eq!(stages[3].keywords, vec!["first search", "index search", "first pass"]);
    assert_eq!(stages[4].keywords, vec!["quant", "quantification", "scoring"]);
    assert_eq!(stages[5].keywords, vec!["writing results", "post-processing", "saving"]);
    assert_eq!(stages[6].keywords, vec!["complete", "finished", "success"]);
    assert_eq!(stages[5].label, "Finalizing results");
}

#[test]
fn only_the_first_stage_lacks_keywords() {
    for mode in [RunMode::BuildSpecLib, RunMode::SearchDia] {
        let stages = mode.stage_sequence();
        assert!(stages[0].keywords.is_empty());
        for stage in &stages[1..] {
            assert!(!stage.keywords.is_empty());
        }
    }
}

#[test]
fn match_is_case_insensitive() {
    let stages = RunMode::BuildSpecLib.stage_sequence();
    assert_eq!(match_stage("LOADING the FASTA file", 0, &stages), Some(1));
    assert_eq!(match_stage("Running Altimeter", 0, &stages), Some(2));
    assert_eq!(match_stage("Run COMPLETE", 0, &stages), Some(4));
}

#[test]
fn match_normalized_does_not_fold_case() {
    let stages = RunMode::BuildSpecLib.stage_sequence();
    assert_eq!(match_normalized("LOADING", 0, &stages), None);
    assert_eq!(match_normalized("loading", 0, &stages), Some(1));
}

#[test]
fn match_takes_the_lowest_later_stage() {
    let stages = RunMode::BuildSpecLib.stage_sequence();
    assert_eq!(match_stage("writing predicted spectra", 0, &stages), Some(2));
    assert_eq!(match_stage("writing predicted spectra", 2, &stages), Some(3));
    assert_eq!(match_stage("writing predicted spectra", 3, &stages), None);
    assert_eq!(match_stage("saving complete", 1, &stages), Some(3));
}

#[test]
fn match_scans_only_later_stages() {
    let stages = RunMode::BuildSpecLib.stage_sequence();
    assert_eq!(match_stage("loading", 1, &stages), None);
    assert_eq!(match_stage("loading", 2, &stages), None);
    assert_eq!(match_stage("anything at all", 0, &stages), None);
    assert_eq!(match_stage("", 0, &stages), None);
}

#[test]
fn match_past_the_end_finds_nothing() {
    let stages = RunMode::BuildSpecLib.stage_sequence();
    assert_eq!(match_stage("complete", 4, &stages), None);
    assert_eq!(match_stage("complete", 5, &stages), None);
    assert_eq!(match_stage("complete", usize::MAX, &stages), None);
    assert_eq!(match_stage("complete", 0, &[]), None);
}

#[test]
fn search_keywords() {
    let stages = RunMode::SearchDia.stage_sequence();
    assert_eq!(match_stage("Tuning parameters", 0, &stages), Some(2));
    assert_eq!(match_stage("Starting First Pass", 0, &stages), Some(3));
    assert_eq!(match_stage("Quantification done", 3, &stages), Some(4));
    assert_eq!(match_stage("post-processing", 0, &stages), Some(5));
    assert_eq!(match_stage("prepare", 0, &stages), None);
}

#[test]
fn a_stage_without_keywords_matches_every_line() {
    let stages = RunMode::BuildSpecLib.stage_sequence();
    assert!(stage_matches("no keyword here", &stages[0]));
    assert!(stage_matches("", &stages[0]));
    assert!(!stage_matches("no keyword here", &stages[1]));
    assert!(stage_matches("now reading", &stages[1]));
    let mut odd = RunMode::BuildSpecLib.stage_sequence();
    odd[3].keywords.clear();
    assert_eq!(match_stage("no keyword here", 0, &odd), Some(3));
    assert_eq!(match_stage("model", 0, &odd), Some(2));
}

#[test]
fn an_empty_keyword_matches_every_line() {
    let mut odd = RunMode::BuildSpecLib.stage_sequence();
    odd[2].keywords.push("");
    assert_eq!(match_stage("nothing", 0, &odd), Some(2));
}

#[test]
fn stage_index_never_moves_back() {
    let stages = RunMode::BuildSpecLib.stage_sequence();
    let mut index = 0;
    index = advance("Predicting with model", index, &stages);
    assert_eq!(index, 2);
    index = advance("prepare something again", index, &stages);
    assert_eq!(index, 2);
    index = advance("loading", index, &stages);
    assert_eq!(index, 2);
    index = advance("exporting", index, &stages);
    assert_eq!(index, 3);
    index = advance("predict", index, &stages);
    assert_eq!(index, 3);
}

#[test]
fn stage_index_is_monotone_over_many_lines() {
    let stages = RunMode::SearchDia.stage_sequence();
    let lines = [
        "loading", "scoring", "tuning", "first pass", "saving", "quant", "done", "success",
        "reading", "",
    ];
    let mut index = 0;
    for line in lines {
        let next = advance(line, index, &stages);
        assert!(next >= index);
        index = next;
    }
    assert_eq!(index, 6);
}

#[test]
fn progress_of_five_stages() {
    let expected = [0u8, 25, 50, 75, 100];
    for index in 0..5 {
        assert_eq!(stage_progress(index, 5).percent(), expected[index]);
    }
    assert_eq!(stage_progress(1, 5), Progress { done: 1, total: 4 });
}

#[test]
fn progress_of_one_stage() {
    assert_eq!(stage_progress(0, 1).percent(), 100);
    assert_eq!(stage_progress(0, 1), Progress { done: 1, total: 1 });
    assert!(stage_progress(0, 1).is_complete());
}

#[test]
fn progress_of_seven_stages_rounds_down() {
    let expected = [0u8, 16, 33, 50, 66, 83, 100];
    for index in 0..7 {
        assert_eq!(stage_progress(index, 7).percent(), expected[index]);
    }
    assert!(!stage_progress(5, 7).is_complete());
    assert!(stage_progress(6, 7).is_complete());
}

#[test]
fn percent_of_odd_fractions() {
    assert_eq!(Progress { done: 0, total: 0 }.percent(), 100);
    assert_eq!(Progress { done: 9, total: 3 }.percent(), 100);
    assert_eq!(Progress { done: usize::MAX - 1, total: usize::MAX }.percent(), 99);
    assert_eq!(Progress { done: 1, total: 3 }.percent(), 33);
}
