//! What is prepared before the tool is started: the names of the files of
//! a run, the notice that a run has started, and the recipes of the preview
//! runs that ask the tool for its default parameters.

use vstd::prelude::*;
use vstd::string::StringExecFns;
use crate::event::{text_of, Notice, NoticeView};
use crate::stage::RunMode;
use crate::text::{decimal, push_decimal};

verus! {

/// The name of the log of a run that started at `timestamp`, in seconds
/// since the epoch.
pub open spec fn spec_log_file_name(timestamp: u64) -> Seq<char> {
    "pioneer_run_"@ + decimal(timestamp as nat) + ".log"@
}

pub fn log_file_name(timestamp: u64) -> (name: String)
    ensures
        name@ == spec_log_file_name(timestamp),
{
    let mut name = String::from_str("pioneer_run_");
    push_decimal(&mut name, timestamp);
    name.append(".log");
    name
}

/// The name of the file that keeps the persisted configuration of a mode.
pub open spec fn spec_persisted_file_name(mode: RunMode) -> Seq<char> {
    match mode {
        RunMode::BuildSpecLib => "buildspeclib.json"@,
        RunMode::SearchDia => "searchdia.json"@,
    }
}

pub fn persisted_file_name(mode: RunMode) -> (name: &'static str)
    ensures
        name@ == spec_persisted_file_name(mode),
{
    match mode {
        RunMode::BuildSpecLib => "buildspeclib.json",
        RunMode::SearchDia => "searchdia.json",
    }
}

/// The notice that a run has started, with the paths that it uses.
pub fn run_started(
    mode: RunMode,
    log_path: &str,
    config_path: &str,
    persisted_path: Option<String>,
) -> (notice: Notice)
    ensures
        notice@ == (NoticeView::RunStarted {
            mode,
            log_path: log_path@,
            config_path: config_path@,
            persisted_path: text_of(persisted_path),
        }),
{
    Notice::RunStarted {
        mode,
        log_path: String::from_str(log_path),
        config_path: String::from_str(config_path),
        persisted_path,
    }
}

/// A file or directory that a preview run works on, inside a scratch directory.
#[derive(Clone, Copy, Debug, PartialEq, Eq, Structural)]
pub enum PreviewItem {
    /// The directory that a build preview writes its library to.
    LibraryOut,
    /// The sequence file that a build preview reads.
    Fasta,
    /// The library that a search preview reads.
    Library,
    /// The directory of measurements of a search preview.
    MsData,
    /// The directory of results of a search preview.
    Results,
    /// The parameter file that a build preview writes.
    BuildParams,
    /// The parameter file that a search preview writes.
    SearchParams,
}

impl PreviewItem {
    /// The name of the item inside the scratch directory.
    pub open spec fn spec_file_name(self) -> Seq<char> {
        match self {
            PreviewItem::LibraryOut => "library_preview"@,
            PreviewItem::Fasta => "preview.fasta"@,
            PreviewItem::Library => "example_library.poin"@,
            PreviewItem::MsData => "ms_data"@,
            PreviewItem::Results => "results"@,
            PreviewItem::BuildParams => "build_params.json"@,
            PreviewItem::SearchParams => "search_params.json"@,
        }
    }

    pub fn file_name(&self) -> (name: &'static str)
        ensures
            name@ == self.spec_file_name(),
    {
        match self {
            PreviewItem::LibraryOut => "library_preview",
            PreviewItem::Fasta => "preview.fasta",
            PreviewItem::Library => "example_library.poin",
            PreviewItem::MsData => "ms_data",
            PreviewItem::Results => "results",
            PreviewItem::BuildParams => "build_params.json",
            PreviewItem::SearchParams => "search_params.json",
        }
    }
}

/// What has to exist before a preview run.
#[derive(Clone, Copy, Debug, PartialEq, Eq)]
pub enum PreviewSetup {
    /// Create this directory.
    Directory(PreviewItem),
    /// Write this file with these contents.
    File(PreviewItem, &'static str),
}

/// A preparation step as plain data.
pub enum SetupView {
    Directory(PreviewItem),
    File(PreviewItem, Seq<char>),
}

impl View for PreviewSetup {
    type V = SetupView;

    open spec fn view(&self) -> SetupView {
        match *self {
            PreviewSetup::Directory(item) => SetupView::Directory(item),
            PreviewSetup::File(item, contents) => SetupView::File(item, contents@),
        }
    }
}

/// One argument of a preview run.
#[derive(Clone, Copy, Debug, PartialEq, Eq)]
pub enum PreviewArgument {
    /// This word.
    Word(&'static str),
    /// The path of this item.
    Path(PreviewItem),
}

/// An argument as plain data.
pub enum ArgumentView {
    Word(Seq<char>),
    Path(PreviewItem),
}

impl View for PreviewArgument {
    type V = ArgumentView;

    open spec fn view(&self) -> ArgumentView {
        match *self {
            PreviewArgument::Word(word) => ArgumentView::Word(word@),
            PreviewArgument::Path(item) => ArgumentView::Path(item),
        }
    }
}

/// The preparation of the preview run of a mode, in order.
pub open spec fn spec_preview_setup(mode: RunMode) -> Seq<SetupView> {
    match mode {
        RunMode::BuildSpecLib => seq![
            SetupView::Directory(PreviewItem::LibraryOut),
            SetupView::File(PreviewItem::Fasta, ">Example\nM\n"@),
        ],
        RunMode::SearchDia => seq![
            SetupView::File(PreviewItem::Library, ""@),
            SetupView::Directory(PreviewItem::MsData),
            SetupView::Directory(PreviewItem::Results),
        ],
    }
}

/// The arguments of the preview run of a mode, in order.
pub open spec fn spec_preview_arguments(mode: RunMode) -> Seq<ArgumentView> {
    match mode {
        RunMode::BuildSpecLib => seq![
            ArgumentView::Word("params-predict"@),
            ArgumentView::Path(PreviewItem::LibraryOut),
            ArgumentView::Word("PreviewLibrary"@),
            ArgumentView::Path(PreviewItem::Fasta),
            ArgumentView::Word("--params-path"@),
            ArgumentView::Path(PreviewItem::BuildParams),
        ],
        RunMode::SearchDia => seq![
            ArgumentView::Word("params-search"@),
            ArgumentView::Path(PreviewItem::Library),
            ArgumentView::Path(PreviewItem::MsData),
            ArgumentView::Path(PreviewItem::Results),
            ArgumentView::Word("--params-path"@),
            ArgumentView::Path(PreviewItem::SearchParams),
        ],
    }
}

/// The parameter file that the preview run of a mode writes.
pub open spec fn spec_preview_output(mode: RunMode) -> PreviewItem {
    match mode {
        RunMode::BuildSpecLib => PreviewItem::BuildParams,
        RunMode::SearchDia => PreviewItem::SearchParams,
    }
}

pub fn preview_setup(mode: RunMode) -> (steps: Vec<PreviewSetup>)
    ensures
        steps@.map_values(|s: PreviewSetup| s@) == spec_preview_setup(mode),
{
    let steps = match mode {
        RunMode::BuildSpecLib => vec![
            PreviewSetup::Directory(PreviewItem::LibraryOut),
            PreviewSetup::File(PreviewItem::Fasta, ">Example\nM\n"),
        ],
        RunMode::SearchDia => vec![
            PreviewSetup::File(PreviewItem::Library, ""),
            PreviewSetup::Directory(PreviewItem::MsData),
            PreviewSetup::Directory(PreviewItem::Results),
        ],
    };
    assert(steps@.map_values(|s: PreviewSetup| s@) =~= spec_preview_setup(mode));
    steps
}

pub fn preview_arguments(mode: RunMode) -> (arguments: Vec<PreviewArgument>)
    ensures
        arguments@.map_values(|a: PreviewArgument| a@) == spec_preview_arguments(mode),
{
    let arguments = match mode {
        RunMode::BuildSpecLib => vec![
            PreviewArgument::Word("params-predict"),
            PreviewArgument::Path(PreviewItem::LibraryOut),
            PreviewArgument::Word("PreviewLibrary"),
            PreviewArgument::Path(PreviewItem::Fasta),
            PreviewArgument::Word("--params-path"),
            PreviewArgument::Path(PreviewItem::BuildParams),
        ],
        RunMode::SearchDia => vec![
            PreviewArgument::Word("params-search"),
            PreviewArgument::Path(PreviewItem::Library),
            PreviewArgument::Path(PreviewItem::MsData),
            PreviewArgument::Path(PreviewItem::Results),
            PreviewArgument::Word("--params-path"),
            PreviewArgument::Path(PreviewItem::SearchParams),
        ],
    };
    assert(arguments@.map_values(|a: PreviewArgument| a@) =~= spec_preview_arguments(mode));
    arguments
}

pub fn preview_output(mode: RunMode) -> (item: PreviewItem)
    ensures
        item == spec_preview_output(mode),
{
    match mode {
        RunMode::BuildSpecLib => PreviewItem::BuildParams,
        RunMode::SearchDia => PreviewItem::SearchParams,
    }
}

} // verus!
