//! Decisions about revision-control operations on the store.
//!
//! The store's history is kept by an external revision-control tool.
//! These functions decide which tool invocations are due — each given as
//! one argument vector, to be run in the store root by the caller —
//! from the repository markers the caller observed on disk.  Versioning
//! is best-effort: it runs only after a completed write, and its failure
//! rolls nothing back.

use vstd::prelude::*;

verus! {

/// The argument vectors that initialize a repository in the store root:
/// none when a repository marker is already present, else an `init`
/// followed by an initial commit.
pub open spec fn spec_init_commands() -> Seq<Seq<Seq<char>>> {
    seq![
        seq!["git"@, "init"@],
        seq!["commit"@, "-m"@, "Initial commit: Initialize password store"@],
    ]
}

/// The views of an argument vector.
pub open spec fn args_view(c: Vec<String>) -> Seq<Seq<char>> {
    c@.map_values(|a: String| a@)
}

/// Builds one argument vector.
fn make_command(parts: &[&str]) -> (r: Vec<String>)
    ensures
        r@.map_values(|a: String| a@) == parts@.map_values(|p: &str| p@),
{
    let n = parts.len();
    let mut out: Vec<String> = Vec::new();
    let mut i: usize = 0;
    while i < n
        invariant
            i <= n == parts@.len(),
            out@.len() == i,
            forall|j: int| 0 <= j < i ==> (#[trigger] out@[j])@ == parts@[j]@,
        decreases n - i,
    {
        out.push(parts[i].to_owned());
        i = i + 1;
    }
    proof {
        assert(out@.map_values(|a: String| a@) =~= parts@.map_values(|p: &str| p@));
    }
    out
}

/// The tool invocations that initialize the store repository: none when
/// a repository or Git marker already exists, else an `init` followed
/// by an initial commit.
pub fn jj_init_repository(repo_marker_exists: bool, git_marker_exists: bool) -> (r: Vec<
    Vec<String>,
>)
    ensures
        (repo_marker_exists || git_marker_exists) ==> r@.len() == 0,
        !(repo_marker_exists || git_marker_exists) ==> r@.map_values(|c: Vec<String>| args_view(c))
            =~= spec_init_commands(),
{
    let mut out: Vec<Vec<String>> = Vec::new();
    if repo_marker_exists || git_marker_exists {
        return out;
    }
    out.push(make_command(&["git", "init"]));
    out.push(make_command(&["commit", "-m", "Initial commit: Initialize password store"]));
    proof {
        assert(out@.map_values(|c: Vec<String>| args_view(c)) =~~= spec_init_commands());
    }
    out
}

/// The tool invocation that commits a change with the given message, or
/// nothing when no repository marker is present — the store is then not
/// under revision control and no commit may be attempted.
pub fn jj_commit_changes(repo_marker_exists: bool, message: &str) -> (r: Option<Vec<String>>)
    ensures
        r is Some <==> repo_marker_exists,
        r matches Some(c) ==> args_view(c) == seq!["commit"@, "-m"@, message@],
{
    if !repo_marker_exists {
        return None;
    }
    let mut out: Vec<String> = Vec::new();
    out.push("commit".to_owned());
    out.push("-m".to_owned());
    out.push(message.to_owned());
    proof {
        assert(args_view(out) =~= seq!["commit"@, "-m"@, message@]);
    }
    Some(out)
}

} // verus!
