//! Which configuration a session starts from: the defaults that the tool
//! reports where it can be asked, the built-in fallbacks where it cannot,
//! and the persisted overrides merged onto either.

use vstd::prelude::*;
use vstd::string::StringExecFns;
use crate::config::{deep_merge, merge_trees, ConfigTree, TreeView};
use crate::event::text_of;
use crate::text::{optional_code_text, push_optional_code};

verus! {

/// Why the tool could not be asked for its defaults. Errors of the
/// operating system and of the JSON parser are held as their text.
#[derive(Debug, PartialEq, Eq)]
pub enum ConfigLoadError {
    MissingBinary,
    Execution(String),
    NonZeroExit(Option<i32>),
    Json(String),
    Other(String),
}

impl ConfigLoadError {
    /// The error as a sentence.
    pub open spec fn spec_message(self) -> Seq<char> {
        match self {
            ConfigLoadError::MissingBinary =>
                "Pioneer binary not found. Set `PIONEER_BINARY`/`PIONEER_PATH` or add the executable to PATH (tried `pioneer`, `Pioneer`, `pioneer.exe`, `Pioneer.exe`)."@,
            ConfigLoadError::Execution(cause) => "Failed to execute Pioneer: "@ + cause@,
            ConfigLoadError::NonZeroExit(code) => "Pioneer exited with status "@
                + optional_code_text(code),
            ConfigLoadError::Json(cause) => "Failed to parse JSON output: "@ + cause@,
            ConfigLoadError::Other(text) => text@,
        }
    }

    pub fn message(&self) -> (message: String)
        ensures
            message@ == self.spec_message(),
    {
        match self {
            ConfigLoadError::MissingBinary => String::from_str(
                "Pioneer binary not found. Set `PIONEER_BINARY`/`PIONEER_PATH` or add the executable to PATH (tried `pioneer`, `Pioneer`, `pioneer.exe`, `Pioneer.exe`).",
            ),
            ConfigLoadError::Execution(cause) => {
                let mut message = String::from_str("Failed to execute Pioneer: ");
                message.append(cause.as_str());
                message
            },
            ConfigLoadError::NonZeroExit(code) => {
                let mut message = String::from_str("Pioneer exited with status ");
                push_optional_code(&mut message, *code);
                message
            },
            ConfigLoadError::Json(cause) => {
                let mut message = String::from_str("Failed to parse JSON output: ");
                message.append(cause.as_str());
                message
            },
            ConfigLoadError::Other(text) => text.clone(),
        }
    }
}

/// What a preview run of the tool amounts to: its exit decides, not its output.
pub fn check_preview_exit(success: bool, exit_code: Option<i32>) -> (checked: Result<
    (),
    ConfigLoadError,
>)
    ensures
        success ==> checked is Ok,
        !success ==> checked == Err::<(), ConfigLoadError>(ConfigLoadError::NonZeroExit(exit_code)),
{
    if success {
        Ok(())
    } else {
        Err(ConfigLoadError::NonZeroExit(exit_code))
    }
}

/// Where the defaults of a session came from.
#[derive(Clone, Copy, Debug, PartialEq, Eq, Structural)]
pub enum ConfigSource {
    /// Both modes from the tool.
    Binary,
    /// One mode from the tool, the other from the fallback.
    Partial,
    /// Both modes from the fallbacks.
    Fallback,
}

impl ConfigSource {
    /// The source as it is named in answers to the shell.
    pub open spec fn spec_as_str(self) -> Seq<char> {
        match self {
            ConfigSource::Binary => "binary"@,
            ConfigSource::Partial => "partial"@,
            ConfigSource::Fallback => "fallback"@,
        }
    }

    pub fn as_str(&self) -> (name: &'static str)
        ensures
            name@ == self.spec_as_str(),
    {
        match self {
            ConfigSource::Binary => "binary",
            ConfigSource::Partial => "partial",
            ConfigSource::Fallback => "fallback",
        }
    }
}

/// The source of the defaults, from whether each mode's were fetched.
pub open spec fn source_of(build_fetched: bool, search_fetched: bool) -> ConfigSource {
    if build_fetched && search_fetched {
        ConfigSource::Binary
    } else if build_fetched || search_fetched {
        ConfigSource::Partial
    } else {
        ConfigSource::Fallback
    }
}

pub fn config_source(build_fetched: bool, search_fetched: bool) -> (source: ConfigSource)
    ensures
        source == source_of(build_fetched, search_fetched),
{
    if build_fetched && search_fetched {
        ConfigSource::Binary
    } else if build_fetched || search_fetched {
        ConfigSource::Partial
    } else {
        ConfigSource::Fallback
    }
}

/// The report of the fetches that failed: one line for each, the build
/// mode's first. Nothing where both succeeded.
pub open spec fn fetch_report(
    build_error: Option<ConfigLoadError>,
    search_error: Option<ConfigLoadError>,
) -> Option<Seq<char>> {
    match (build_error, search_error) {
        (None, None) => None,
        (Some(b), None) => Some("BuildSpecLib defaults: "@ + b.spec_message()),
        (None, Some(s)) => Some("SearchDIA defaults: "@ + s.spec_message()),
        (Some(b), Some(s)) => Some(
            "BuildSpecLib defaults: "@ + b.spec_message() + "\n"@ + "SearchDIA defaults: "@
                + s.spec_message(),
        ),
    }
}

pub fn format_fetch_report(
    build_error: &Option<ConfigLoadError>,
    search_error: &Option<ConfigLoadError>,
) -> (report: Option<String>)
    ensures
        text_of(report) == fetch_report(*build_error, *search_error),
{
    match (build_error, search_error) {
        (None, None) => None,
        (Some(b), None) => {
            let mut report = String::from_str("BuildSpecLib defaults: ");
            report.append(b.message().as_str());
            Some(report)
        },
        (None, Some(s)) => {
            let mut report = String::from_str("SearchDIA defaults: ");
            report.append(s.message().as_str());
            Some(report)
        },
        (Some(b), Some(s)) => {
            let mut report = String::from_str("BuildSpecLib defaults: ");
            report.append(b.message().as_str());
            report.append("\n");
            report.append("SearchDIA defaults: ");
            report.append(s.message().as_str());
            Some(report)
        },
    }
}

/// An optional document as plain data.
pub open spec fn tree_of(tree: Option<ConfigTree>) -> Option<TreeView> {
    match tree {
        Some(t) => Some(t@),
        None => None,
    }
}

/// The persisted overrides of a mode merged onto its defaults, where there are any.
pub open spec fn persisted_onto(defaults: TreeView, persisted: Option<TreeView>) -> Option<TreeView> {
    match persisted {
        Some(over) => Some(merge_trees(defaults, over)),
        None => None,
    }
}

pub fn merge_persisted(defaults: &ConfigTree, persisted: &Option<ConfigTree>) -> (merged: Option<
    ConfigTree,
>)
    ensures
        tree_of(merged) == persisted_onto(defaults@, tree_of(*persisted)),
{
    match persisted {
        Some(over) => Some(deep_merge(defaults, over)),
        None => None,
    }
}

/// What was gathered for one mode.
pub struct ModeInputs {
    /// The built-in defaults.
    pub fallback: ConfigTree,
    /// The built-in simplified configuration.
    pub simplified: ConfigTree,
    /// The defaults that the tool reported, or why it reported none.
    pub fetched: Result<ConfigTree, ConfigLoadError>,
    /// The persisted overrides, where a readable document was found.
    pub persisted: Option<ConfigTree>,
    /// Where the overrides are kept, where the shell has such a place.
    pub persisted_path: Option<String>,
}

/// The configurations of one mode.
#[derive(Debug, PartialEq, Eq)]
pub struct ConfigSet {
    pub default_config: ConfigTree,
    pub simplified_config: ConfigTree,
    pub persisted_config: Option<ConfigTree>,
    pub persisted_path: Option<String>,
}

/// The configurations of both modes, and where the defaults came from.
#[derive(Debug, PartialEq, Eq)]
pub struct LoadedConfigs {
    pub build: ConfigSet,
    pub search: ConfigSet,
    pub source: ConfigSource,
    pub binary_error: Option<String>,
}

/// The defaults of a mode: what the tool reported, else the fallback.
pub open spec fn defaults_of(inputs: ModeInputs) -> TreeView {
    match inputs.fetched {
        Ok(tree) => tree@,
        Err(_) => inputs.fallback@,
    }
}

/// The error of a mode's fetch, where it failed.
pub open spec fn fetch_error(inputs: ModeInputs) -> Option<ConfigLoadError> {
    match inputs.fetched {
        Ok(_) => None,
        Err(e) => Some(e),
    }
}

/// `set` is the configuration set of the mode that `inputs` describes.
pub open spec fn is_config_set(set: ConfigSet, inputs: ModeInputs) -> bool {
    &&& set.default_config@ == defaults_of(inputs)
    &&& set.simplified_config@ == inputs.simplified@
    &&& tree_of(set.persisted_config) == persisted_onto(
        defaults_of(inputs),
        tree_of(inputs.persisted),
    )
    &&& text_of(set.persisted_path) == text_of(inputs.persisted_path)
}

/// The configurations of one mode, and the error of its fetch.
fn config_set(inputs: ModeInputs) -> (result: (ConfigSet, Option<ConfigLoadError>))
    ensures
        is_config_set(result.0, inputs),
        result.1 == fetch_error(inputs),
{
    let ModeInputs { fallback, simplified, fetched, persisted, persisted_path } = inputs;
    let (default_config, error) = match fetched {
        Ok(tree) => (tree, None),
        Err(e) => (fallback, Some(e)),
    };
    let persisted_config = merge_persisted(&default_config, &persisted);
    (
        ConfigSet {
            default_config,
            simplified_config: simplified,
            persisted_config,
            persisted_path,
        },
        error,
    )
}

/// Puts together what a session starts from.
pub fn assemble_configs(build: ModeInputs, search: ModeInputs) -> (loaded: LoadedConfigs)
    ensures
        is_config_set(loaded.build, build),
        is_config_set(loaded.search, search),
        loaded.source == source_of(build.fetched is Ok, search.fetched is Ok),
        text_of(loaded.binary_error) == fetch_report(fetch_error(build), fetch_error(search)),
{
    let (build_set, build_error) = config_set(build);
    let (search_set, search_error) = config_set(search);
    let source = config_source(build_error.is_none(), search_error.is_none());
    let binary_error = format_fetch_report(&build_error, &search_error);
    LoadedConfigs { build: build_set, search: search_set, source, binary_error }
}

} // verus!
