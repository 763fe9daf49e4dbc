//! Where the tool is looked for. The caller probes the environment and the
//! file system; the order of the search and its outcome are decided here.

use vstd::prelude::*;
use crate::defaults::ConfigLoadError;

verus! {

/// What the caller found for one environment variable.
#[derive(Clone, Copy, Debug, PartialEq, Eq, Structural)]
pub enum EnvProbe {
    /// The variable is not set.
    Unset,
    /// The variable is set to the empty text.
    Empty,
    /// The value names a file.
    File,
    /// The value names a directory.
    Directory,
    /// The value names neither.
    Other,
}

/// A path at which the tool may stand.
#[derive(Clone, Copy, Debug, PartialEq, Eq, Structural)]
pub enum Candidate {
    /// The value of the environment variable with this index.
    Value { variable: usize },
    /// That value as a directory, joined with the executable name with this index.
    Joined { variable: usize, name: usize },
}

/// Where the tool was found.
#[derive(Clone, Copy, Debug, PartialEq, Eq, Structural)]
pub enum Located {
    /// At the candidate with this index.
    AtCandidate(usize),
    /// On the search path, under the executable name with this index.
    OnSearchPath(usize),
}

/// The environment variables that may name the tool, in the order they are asked.
pub open spec fn spec_environment_variables() -> Seq<Seq<char>> {
    seq!["PIONEER_BINARY"@, "PIONEER_PATH"@, "PIONEER_EXE"@, "PIONEER"@]
}

/// The file names under which the tool is looked for, in order.
pub open spec fn spec_executable_names() -> Seq<Seq<char>> {
    seq!["pioneer"@, "Pioneer"@, "pioneer.exe"@, "Pioneer.exe"@]
}

/// The number of executable names.
pub const EXECUTABLE_NAMES: usize = 4;

pub fn environment_variables() -> (names: Vec<&'static str>)
    ensures
        names@.map_values(|n: &'static str| n@) == spec_environment_variables(),
{
    let names = vec!["PIONEER_BINARY", "PIONEER_PATH", "PIONEER_EXE", "PIONEER"];
    assert(names@.map_values(|n: &'static str| n@) =~= spec_environment_variables());
    names
}

pub fn executable_names() -> (names: Vec<&'static str>)
    ensures
        names@.map_values(|n: &'static str| n@) == spec_executable_names(),
        names.len() == EXECUTABLE_NAMES,
{
    let names = vec!["pioneer", "Pioneer", "pioneer.exe", "Pioneer.exe"];
    assert(names@.map_values(|n: &'static str| n@) =~= spec_executable_names());
    names
}

/// The candidates that one variable gives: none where it is unset or
/// empty, each executable name under its value where that is a directory,
/// its value otherwise.
pub open spec fn candidates_of_probe(variable: usize, probe: EnvProbe) -> Seq<Candidate> {
    match probe {
        EnvProbe::Unset => seq![],
        EnvProbe::Empty => seq![],
        EnvProbe::Directory => Seq::new(
            EXECUTABLE_NAMES as nat,
            |name: int| Candidate::Joined { variable, name: name as usize },
        ),
        _ => seq![Candidate::Value { variable }],
    }
}

/// The candidates that the variables give, in the order of the variables.
pub open spec fn candidates_of(probes: Seq<EnvProbe>) -> Seq<Candidate>
    decreases probes.len(),
{
    if probes.len() == 0 {
        seq![]
    } else {
        candidates_of(probes.drop_last()) + candidates_of_probe(
            (probes.len() - 1) as usize,
            probes.last(),
        )
    }
}

/// The candidates from the environment; `probes[i]` is what was found for variable `i`.
pub fn env_candidates(probes: &Vec<EnvProbe>) -> (candidates: Vec<Candidate>)
    ensures
        candidates@ == candidates_of(probes@),
{
    let mut candidates: Vec<Candidate> = Vec::new();
    let mut variable: usize = 0;
    while variable < probes.len()
        invariant
            variable <= probes.len(),
            candidates@ == candidates_of(probes@.take(variable as int)),
        decreases probes.len() - variable,
    {
        let ghost before = candidates@;
        match probes[variable] {
            EnvProbe::Unset => {},
            EnvProbe::Empty => {},
            EnvProbe::Directory => {
                let mut name: usize = 0;
                while name < EXECUTABLE_NAMES
                    invariant
                        name <= EXECUTABLE_NAMES,
                        candidates@ == before + Seq::new(
                            name as nat,
                            |n: int| Candidate::Joined { variable, name: n as usize },
                        ),
                    decreases EXECUTABLE_NAMES - name,
                {
                    candidates.push(Candidate::Joined { variable, name });
                    name += 1;
                    assert(candidates@ =~= before + Seq::new(
                        name as nat,
                        |n: int| Candidate::Joined { variable, name: n as usize },
                    ));
                }
            },
            _ => {
                candidates.push(Candidate::Value { variable });
            },
        }
        proof {
            let upto = probes@.take(variable + 1);
            assert(upto.drop_last() =~= probes@.take(variable as int));
            assert(candidates@ =~= before + candidates_of_probe(variable, probes@[variable as int]));
        }
        variable += 1;
    }
    assert(probes@.take(variable as int) =~= probes@);
    candidates
}

/// `found` is the position of the first flag that is set, if any is.
pub open spec fn is_first_set(flags: Seq<bool>, found: Option<usize>) -> bool {
    match found {
        Some(at) => at < flags.len() && flags[at as int] && forall|j: int|
            0 <= j < at ==> !flags[j],
        None => forall|j: int| 0 <= j < flags.len() ==> !flags[j],
    }
}

/// The position of the first flag that is set.
pub fn first_set(flags: &Vec<bool>) -> (found: Option<usize>)
    ensures
        is_first_set(flags@, found),
{
    let mut at: usize = 0;
    while at < flags.len()
        invariant
            at <= flags.len(),
            forall|j: int| 0 <= j < at ==> !flags@[j],
        decreases flags.len() - at,
    {
        if flags[at] {
            return Some(at);
        }
        at += 1;
    }
    None
}

/// The outcome of the search: the first candidate that is a file, else the
/// first executable name found on the search path, else an error.
pub fn locate_binary(candidate: Option<usize>, on_search_path: Option<usize>) -> (located: Result<
    Located,
    ConfigLoadError,
>)
    ensures
        located == match (candidate, on_search_path) {
            (Some(at), _) => Ok::<Located, ConfigLoadError>(Located::AtCandidate(at)),
            (None, Some(name)) => Ok(Located::OnSearchPath(name)),
            (None, None) => Err(ConfigLoadError::MissingBinary),
        },
{
    match candidate {
        Some(at) => Ok(Located::AtCandidate(at)),
        None => match on_search_path {
            Some(name) => Ok(Located::OnSearchPath(name)),
            None => Err(ConfigLoadError::MissingBinary),
        },
    }
}

} // verus!
