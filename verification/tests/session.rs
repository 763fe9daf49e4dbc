use pioneer_supervisor::config::ConfigTree;
use pioneer_supervisor::defaults::{
    assemble_configs, check_preview_exit, config_source, format_fetch_report, merge_persisted,
    ConfigLoadError, ConfigSet, ConfigSource, ModeInputs,
};
use pioneer_supervisor::discovery::{
    env_candidates, environment_variables, executable_names, first_set, locate_binary, Candidate,
    EnvProbe, Located,
};
use pioneer_supervisor::event::Notice;
use pioneer_supervisor::launch::{
    log_file_name, persisted_file_name, preview_arguments, preview_output, preview_setup,
    run_started, PreviewArgument, PreviewItem, PreviewSetup,
};
use pioneer_supervisor::stage::RunMode;
use pioneer_supervisor::terminal::{linux_terminals, terminal_command, Platform, TerminalCommand};

fn num(text: &str) -> ConfigTree {
    ConfigTree::Number(text.to_string())
}

fn object(entries: Vec<(&str, ConfigTree)>) -> ConfigTree {
    ConfigTree::Object(entries.into_iter().map(|(k, v)| (k.to_string(), v)).collect())
}

fn strings(items: &[&str]) -> Vec<String> {
    items.iter().map(|s| s.to_string()).collect()
}

#[test]
fn error_messages() {
    assert_eq!(
        ConfigLoadError::MissingBinary.message(),
        "Pioneer binary not found. Set `PIONEER_BINARY`/`PIONEER_PATH` or add the executable to PATH (tried `pioneer`, `Pioneer`, `pioneer.exe`, `Pioneer.exe`)."
    );
    assert_eq!(
        ConfigLoadError::Execution("No such file or directory (os error 2)".to_string()).message(),
        "Failed to execute Pioneer: No such file or directory (os error 2)"
    );
    assert_eq!(
        ConfigLoadError::NonZeroExit(Some(2)).message(),
        "Pioneer exited with status Some(2)"
    );
    assert_eq!(
        ConfigLoadError::NonZeroExit(Some(-11)).message(),
        "Pioneer exited with status Some(-11)"
    );
    assert_eq!(ConfigLoadError::NonZeroExit(None).message(), "Pioneer exited with status None");
    assert_eq!(
        ConfigLoadError::Json("expected value at line 1 column 1".to_string()).message(),
        "Failed to parse JSON output: expected value at line 1 column 1"
    );
    assert_eq!(ConfigLoadError::Other("plain".to_string()).message(), "plain");
}

#[test]
fn preview_exit_decides() {
    assert_eq!(check_preview_exit(true, Some(0)), Ok(()));
    assert_eq!(check_preview_exit(true, None), Ok(()));
    assert_eq!(check_preview_exit(false, Some(3)), Err(ConfigLoadError::NonZeroExit(Some(3))));
    assert_eq!(check_preview_exit(false, None), Err(ConfigLoadError::NonZeroExit(None)));
}

#[test]
fn source_of_the_defaults() {
    assert_eq!(config_source(true, true), ConfigSource::Binary);
    assert_eq!(config_source(true, false), ConfigSource::Partial);
    assert_eq!(config_source(false, true), ConfigSource::Partial);
    assert_eq!(config_source(false, false), ConfigSource::Fallback);
    assert_eq!(ConfigSource::Binary.as_str(), "binary");
    assert_eq!(ConfigSource::Partial.as_str(), "partial");
    assert_eq!(ConfigSource::Fallback.as_str(), "fallback");
}

#[test]
fn report_of_failed_fetches() {
    assert_eq!(format_fetch_report(&None, &None), None);
    assert_eq!(
        format_fetch_report(&Some(ConfigLoadError::MissingBinary), &None),
        Some(format!("BuildSpecLib defaults: {}", ConfigLoadError::MissingBinary.message()))
    );
    assert_eq!(
        format_fetch_report(&None, &Some(ConfigLoadError::NonZeroExit(Some(1)))),
        Some("SearchDIA defaults: Pioneer exited with status Some(1)".to_string())
    );
    assert_eq!(
        format_fetch_report(
            &Some(ConfigLoadError::Other("a".to_string())),
            &Some(ConfigLoadError::Other("b".to_string()))
        ),
        Some("BuildSpecLib defaults: a\nSearchDIA defaults: b".to_string())
    );
}

#[test]
fn persisted_overrides_are_merged_onto_defaults() {
    let defaults = object(vec![("a", num("1")), ("b", num("2"))]);
    assert_eq!(merge_persisted(&defaults, &None), None);
    assert_eq!(
        merge_persisted(&defaults, &Some(object(vec![("b", num("3")), ("c", num("4"))]))),
        Some(object(vec![("a", num("1")), ("b", num("3")), ("c", num("4"))]))
    );
}

#[test]
fn assemble_with_both_fetched() {
    let loaded = assemble_configs(
        ModeInputs {
            fallback: object(vec![("a", num("0"))]),
            simplified: object(vec![("s", num("1"))]),
            fetched: Ok(object(vec![("a", num("1")), ("b", num("2"))])),
            persisted: Some(object(vec![("b", num("9"))])),
            persisted_path: Some("/cfg/buildspeclib.json".to_string()),
        },
        ModeInputs {
            fallback: object(vec![("x", num("0"))]),
            simplified: ConfigTree::Null,
            fetched: Ok(object(vec![("x", num("5"))])),
            persisted: None,
            persisted_path: None,
        },
    );
    assert_eq!(loaded.source, ConfigSource::Binary);
    assert_eq!(loaded.binary_error, None);
    assert_eq!(
        loaded.build,
        ConfigSet {
            default_config: object(vec![("a", num("1")), ("b", num("2"))]),
            simplified_config: object(vec![("s", num("1"))]),
            persisted_config: Some(object(vec![("a", num("1")), ("b", num("9"))])),
            persisted_path: Some("/cfg/buildspeclib.json".to_string()),
        }
    );
    assert_eq!(
        loaded.search,
        ConfigSet {
            default_config: object(vec![("x", num("5"))]),
            simplified_config: ConfigTree::Null,
            persisted_config: None,
            persisted_path: None,
        }
    );
}

#[test]
fn assemble_with_one_fetch_failed() {
    let loaded = assemble_configs(
        ModeInputs {
            fallback: object(vec![("a", num("0"))]),
            simplified: ConfigTree::Null,
            fetched: Err(ConfigLoadError::NonZeroExit(Some(1))),
            persisted: Some(object(vec![("k", num("1"))])),
            persisted_path: Some("p".to_string()),
        },
        ModeInputs {
            fallback: object(vec![("x", num("0"))]),
            simplified: ConfigTree::Null,
            fetched: Ok(object(vec![("x", num("5"))])),
            persisted: None,
            persisted_path: Some("q".to_string()),
        },
    );
    assert_eq!(loaded.source, ConfigSource::Partial);
    assert_eq!(
        loaded.binary_error,
        Some("BuildSpecLib defaults: Pioneer exited with status Some(1)".to_string())
    );
    assert_eq!(loaded.build.default_config, object(vec![("a", num("0"))]));
    assert_eq!(
        loaded.build.persisted_config,
        Some(object(vec![("a", num("0")), ("k", num("1"))]))
    );
    assert_eq!(loaded.search.default_config, object(vec![("x", num("5"))]));
    assert_eq!(loaded.search.persisted_path, Some("q".to_string()));
}

#[test]
fn assemble_with_both_fetches_failed() {
    let loaded = assemble_configs(
        ModeInputs {
            fallback: num("1"),
            simplified: ConfigTree::Null,
            fetched: Err(ConfigLoadError::MissingBinary),
            persisted: None,
            persisted_path: None,
        },
        ModeInputs {
            fallback: num("2"),
            simplified: ConfigTree::Null,
            fetched: Err(ConfigLoadError::MissingBinary),
            persisted: None,
            persisted_path: None,
        },
    );
    assert_eq!(loaded.source, ConfigSource::Fallback);
    let message = ConfigLoadError::MissingBinary.message();
    assert_eq!(
        loaded.binary_error,
        Some(format!("BuildSpecLib defaults: {message}\nSearchDIA defaults: {message}"))
    );
    assert_eq!(loaded.build.default_config, num("1"));
    assert_eq!(loaded.search.default_config, num("2"));
}

#[test]
fn names_of_the_search() {
    assert_eq!(
        environment_variables(),
        vec!["PIONEER_BINARY", "PIONEER_PATH", "PIONEER_EXE", "PIONEER"]
    );
    assert_eq!(executable_names(), vec!["pioneer", "Pioneer", "pioneer.exe", "Pioneer.exe"]);
}

#[test]
fn candidates_from_the_environment() {
    assert_eq!(env_candidates(&vec![]), vec![]);
    assert_eq!(
        env_candidates(&vec![EnvProbe::Unset, EnvProbe::Empty, EnvProbe::Unset, EnvProbe::Empty]),
        vec![]
    );
    assert_eq!(
        env_candidates(&vec![
            EnvProbe::File,
            EnvProbe::Unset,
            EnvProbe::Directory,
            EnvProbe::Other
        ]),
        vec![
            Candidate::Value { variable: 0 },
            Candidate::Joined { variable: 2, name: 0 },
            Candidate::Joined { variable: 2, name: 1 },
            Candidate::Joined { variable: 2, name: 2 },
            Candidate::Joined { variable: 2, name: 3 },
            Candidate::Value { variable: 3 },
        ]
    );
}

#[test]
fn first_flag_that_is_set() {
    assert_eq!(first_set(&vec![]), None);
    assert_eq!(first_set(&vec![false, false]), None);
    assert_eq!(first_set(&vec![false, true, true]), Some(1));
    assert_eq!(first_set(&vec![true]), Some(0));
}

#[test]
fn outcome_of_the_search() {
    assert_eq!(locate_binary(Some(2), Some(0)), Ok(Located::AtCandidate(2)));
    assert_eq!(locate_binary(Some(0), None), Ok(Located::AtCandidate(0)));
    assert_eq!(locate_binary(None, Some(3)), Ok(Located::OnSearchPath(3)));
    assert_eq!(locate_binary(None, None), Err(ConfigLoadError::MissingBinary));
}

#[test]
fn log_file_names() {
    assert_eq!(log_file_name(0), "pioneer_run_0.log");
    assert_eq!(log_file_name(7), "pioneer_run_7.log");
    assert_eq!(log_file_name(10), "pioneer_run_10.log");
    assert_eq!(log_file_name(1730073600), "pioneer_run_1730073600.log");
    assert_eq!(log_file_name(u64::MAX), "pioneer_run_18446744073709551615.log");
}

#[test]
fn persisted_file_names() {
    assert_eq!(persisted_file_name(RunMode::BuildSpecLib), "buildspeclib.json");
    assert_eq!(persisted_file_name(RunMode::SearchDia), "searchdia.json");
}

#[test]
fn run_started_notice() {
    assert_eq!(
        run_started(RunMode::SearchDia, "/tmp/x/run.log", "/tmp/x/search_params.json", None),
        Notice::RunStarted {
            mode: RunMode::SearchDia,
            log_path: "/tmp/x/run.log".to_string(),
            config_path: "/tmp/x/search_params.json".to_string(),
            persisted_path: None,
        }
    );
    assert_eq!(
        run_started(RunMode::BuildSpecLib, "l", "c", Some("p".to_string())),
        Notice::RunStarted {
            mode: RunMode::BuildSpecLib,
            log_path: "l".to_string(),
            config_path: "c".to_string(),
            persisted_path: Some("p".to_string()),
        }
    );
}

#[test]
fn build_preview_recipe() {
    assert_eq!(
        preview_setup(RunMode::BuildSpecLib),
        vec![
            PreviewSetup::Directory(PreviewItem::LibraryOut),
            PreviewSetup::File(PreviewItem::Fasta, ">Example\nM\n"),
        ]
    );
    assert_eq!(
        preview_arguments(RunMode::BuildSpecLib),
        vec![
            PreviewArgument::Word("params-predict"),
            PreviewArgument::Path(PreviewItem::LibraryOut),
            PreviewArgument::Word("PreviewLibrary"),
            PreviewArgument::Path(PreviewItem::Fasta),
            PreviewArgument::Word("--params-path"),
            PreviewArgument::Path(PreviewItem::BuildParams),
        ]
    );
    assert_eq!(preview_output(RunMode::BuildSpecLib), PreviewItem::BuildParams);
}

#[test]
fn search_preview_recipe() {
    assert_eq!(
        preview_setup(RunMode::SearchDia),
        vec![
            PreviewSetup::File(PreviewItem::Library, ""),
            PreviewSetup::Directory(PreviewItem::MsData),
            PreviewSetup::Directory(PreviewItem::Results),
        ]
    );
    assert_eq!(
        preview_arguments(RunMode::SearchDia),
        vec![
            PreviewArgument::Word("params-search"),
            PreviewArgument::Path(PreviewItem::Library),
            PreviewArgument::Path(PreviewItem::MsData),
            PreviewArgument::Path(PreviewItem::Results),
            PreviewArgument::Word("--params-path"),
            PreviewArgument::Path(PreviewItem::SearchParams),
        ]
    );
    assert_eq!(preview_output(RunMode::SearchDia), PreviewItem::SearchParams);
}

#[test]
fn preview_item_names() {
    assert_eq!(PreviewItem::LibraryOut.file_name(), "library_preview");
    assert_eq!(PreviewItem::Fasta.file_name(), "preview.fasta");
    assert_eq!(PreviewItem::Library.file_name(), "example_library.poin");
    assert_eq!(PreviewItem::MsData.file_name(), "ms_data");
    assert_eq!(PreviewItem::Results.file_name(), "results");
    assert_eq!(PreviewItem::BuildParams.file_name(), "build_params.json");
    assert_eq!(PreviewItem::SearchParams.file_name(), "search_params.json");
}

#[test]
fn terminals_of_linux() {
    assert_eq!(
        linux_terminals(),
        vec![
            "x-terminal-emulator",
            "gnome-terminal",
            "konsole",
            "xfce4-terminal",
            "mate-terminal",
            "xterm"
        ]
    );
}

#[test]
fn terminal_on_windows() {
    assert_eq!(
        terminal_command(Platform::Windows, "C:\\tmp\\run.log", Some(1)),
        Ok(TerminalCommand {
            program: "powershell".to_string(),
            arguments: strings(&[
                "-NoProfile",
                "-Command",
                "Start-Process powershell -ArgumentList '-NoExit','-Command','Get-Content -Path \"C:\\tmp\\run.log\" -Wait'",
            ]),
        })
    );
}

#[test]
fn terminal_on_macos_escapes_quotes() {
    assert_eq!(
        terminal_command(Platform::MacOs, "/tmp/a \"b\" c.log", None),
        Ok(TerminalCommand {
            program: "osascript".to_string(),
            arguments: strings(&[
                "-e",
                "tell application \"Terminal\" to do script \"tail -n +1 -f /tmp/a \\\"b\\\" c.log\"",
            ]),
        })
    );
    assert_eq!(
        terminal_command(Platform::MacOs, "/tmp/run.log", None),
        Ok(TerminalCommand {
            program: "osascript".to_string(),
            arguments: strings(&[
                "-e",
                "tell application \"Terminal\" to do script \"tail -n +1 -f /tmp/run.log\"",
            ]),
        })
    );
}

#[test]
fn terminal_on_linux() {
    let tail = "tail -n +1 -f '/tmp/run.log' ; read -p \"Press Enter to close...\" _";
    let expected: [(&str, Vec<&str>); 6] = [
        ("x-terminal-emulator", vec!["-e"]),
        ("gnome-terminal", vec!["--"]),
        ("konsole", vec!["--noclose", "-e"]),
        ("xfce4-terminal", vec!["--hold", "-e"]),
        ("mate-terminal", vec!["--"]),
        ("xterm", vec!["-hold", "-e"]),
    ];
    for (at, (program, options)) in expected.iter().enumerate() {
        let mut arguments = strings(options);
        arguments.extend(strings(&["bash", "-lc", tail]));
        assert_eq!(
            terminal_command(Platform::Linux, "/tmp/run.log", Some(at)),
            Ok(TerminalCommand { program: program.to_string(), arguments })
        );
    }
}

#[test]
fn no_terminal() {
    assert_eq!(
        terminal_command(Platform::Linux, "/tmp/run.log", None),
        Err("No compatible terminal found".to_string())
    );
    assert_eq!(
        terminal_command(Platform::Linux, "/tmp/run.log", Some(6)),
        Err("No compatible terminal found".to_string())
    );
    assert_eq!(
        terminal_command(Platform::Other, "/tmp/run.log", Some(0)),
        Err("Unsupported platform".to_string())
    );
}
