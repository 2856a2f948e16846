//! Finding the base directory of the project: the nearest directory, from a
//! starting path upwards, that holds a `.git` entry.
//!
//! Looking into the file system is the caller's work: it hands in the question
//! "does this directory hold `.git`".

use vstd::prelude::*;
use vstd::string::StringExecFns;

verus! {

/// The name of the entry that marks the base directory.
pub const GIT_DIRECTORY: &'static str = ".git";

/// The path and its ancestors, nearest first. This is what
/// `std::path::Path::ancestors` yields.
pub uninterp spec fn ancestors_of(path: Seq<char>) -> Seq<Seq<char>>;

/// `std::path::Path::ancestors`, each path as a string: the result is
/// `ancestors_of` the path, in the order in which the iterator yields them.
#[verifier::external_body]
fn path_ancestors(path: &str) -> (ancestors: Vec<String>)
    ensures
        ancestors.deep_view() == ancestors_of(path@),
{
    std::path::Path::new(path).ancestors().map(|p| p.to_string_lossy().into_owned()).collect()
}

/// The error for a search that found no base directory.
pub open spec fn not_found_text(start: Seq<char>) -> Seq<char> {
    "Repository main directory not found or .git wasn't found. Started from: "@ + start
}

/// `probe` was asked about the directory `directory` and gave `answer`.
pub open spec fn probed<F: Fn(&String) -> bool>(
    probe: F,
    directory: Seq<char>,
    answer: bool,
) -> bool {
    exists|asked: String| asked@ == directory && #[trigger] probe.ensures((&asked,), answer)
}

/// The first of `candidates` for which `probe` says yes, given that it said
/// no for all before it.
pub fn first_accepted<F: Fn(&String) -> bool>(candidates: &Vec<String>, probe: &F) -> (found: Option<
    usize,
>)
    requires
        forall|directory: &String| probe.requires((directory,)),
    ensures
        match found {
            Some(at) => {
                &&& at < candidates.len()
                &&& probed(*probe, candidates[at as int]@, true)
                &&& forall|j: int| 0 <= j < at ==> probed(*probe, #[trigger] candidates[j]@, false)
            },
            None => forall|j: int|
                0 <= j < candidates.len() ==> probed(*probe, #[trigger] candidates[j]@, false),
        },
{
    let mut at: usize = 0;
    while at < candidates.len()
        invariant
            at <= candidates.len(),
            forall|directory: &String| probe.requires((directory,)),
            forall|j: int| 0 <= j < at ==> probed(*probe, #[trigger] candidates[j]@, false),
        decreases candidates.len() - at,
    {
        if probe(&candidates[at]) {
            return Some(at);
        }
        at += 1;
    }
    None
}

/// Finds the base directory of the project: `start` itself or the nearest of
/// its ancestors for which `holds_git` says yes. `start` is an absolute path
/// in its canonical form.
pub fn get_project_path<F: Fn(&String) -> bool>(start: &str, holds_git: F) -> (found: Result<
    String,
    String,
>)
    requires
        forall|directory: &String| holds_git.requires((directory,)),
    ensures
        match found {
            Ok(base) => exists|at: int|
                {
                    &&& 0 <= at < ancestors_of(start@).len()
                    &&& base@ == #[trigger] ancestors_of(start@)[at]
                    &&& probed(holds_git, base@, true)
                    &&& forall|j: int|
                        0 <= j < at ==> probed(holds_git, #[trigger] ancestors_of(start@)[j], false)
                },
            Err(message) => {
                &&& message@ == not_found_text(start@)
                &&& forall|j: int|
                    0 <= j < ancestors_of(start@).len() ==> probed(
                        holds_git,
                        #[trigger] ancestors_of(start@)[j],
                        false,
                    )
            },
        },
{
    let mut candidates = path_ancestors(start);
    let ghost all = candidates.deep_view();
    match first_accepted(&candidates, &holds_git) {
        Some(at) => {
            proof {
                assert(all[at as int] == candidates[at as int]@);
            }
            let base = candidates.swap_remove(at);
            Ok(base)
        },
        None => {
            let mut message = String::from_str(
                "Repository main directory not found or .git wasn't found. Started from: ",
            );
            message.append(start);
            Err(message)
        },
    }
}

} // verus!
