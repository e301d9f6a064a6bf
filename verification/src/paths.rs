//! Locating the generator's root directory across the supported layouts.
//!
//! The layouts are an ordered list of candidate paths relative to the
//! directory of the running executable. The caller probes each candidate on
//! disk; the resolver picks the first one that exists and holds the marker
//! subdirectory, or reports every candidate it considered.

use crate::error::{text_views, BackendError, ErrorView};
use crate::text::{join_path, spec_join};
use vstd::prelude::*;

verus! {

/// What the caller saw of one candidate: whether the directory exists and
/// whether it holds the marker subdirectory.
#[derive(Clone, Copy, Debug, PartialEq, Eq, Structural)]
pub struct Probe {
    pub exists: bool,
    pub has_marker: bool,
}

/// The candidate locations, relative to the executable's directory, in the
/// order in which they are tried: a development checkout first, then the
/// packaged layouts.
pub open spec fn spec_relative_candidates() -> Seq<Seq<char>> {
    seq![
        "../ocaml-backend"@,
        "../../ocaml-backend"@,
        "ocaml-backend"@,
        "../Resources/_up_/ocaml-backend"@,
        "../Resources/ocaml-backend"@,
    ]
}

/// The candidate locations below a given executable directory.
pub open spec fn spec_candidates(exe_dir: Seq<char>) -> Seq<Seq<char>> {
    spec_relative_candidates().map_values(|relative: Seq<char>| spec_join(exe_dir, relative))
}

/// The marker subdirectory of a candidate: the generator's source tree.
pub open spec fn spec_marker_path(candidate: Seq<char>) -> Seq<char> {
    spec_join(candidate, "src"@)
}

/// A candidate matches when it was probed, exists and holds the marker.
pub open spec fn spec_matches(probes: Seq<Probe>, i: int) -> bool {
    0 <= i < probes.len() && probes[i].exists && probes[i].has_marker
}

/// The candidate at `i` is the first one that matches.
pub open spec fn spec_first_match(count: int, probes: Seq<Probe>, i: int) -> bool {
    &&& 0 <= i < count
    &&& spec_matches(probes, i)
    &&& forall|j: int| 0 <= j < i ==> !spec_matches(probes, j)
}

/// Lists the candidate paths for the given executable directory.
pub fn candidate_paths(exe_dir: &str) -> (candidates: Vec<String>)
    ensures
        text_views(candidates@) == spec_candidates(exe_dir@),
{
    let mut candidates: Vec<String> = Vec::new();
    candidates.push(join_path(exe_dir, "../ocaml-backend"));
    candidates.push(join_path(exe_dir, "../../ocaml-backend"));
    candidates.push(join_path(exe_dir, "ocaml-backend"));
    candidates.push(join_path(exe_dir, "../Resources/_up_/ocaml-backend"));
    candidates.push(join_path(exe_dir, "../Resources/ocaml-backend"));
    assert(text_views(candidates@) =~= spec_candidates(exe_dir@));
    candidates
}

/// The path whose presence marks a candidate as the generator's root.
pub fn marker_path(candidate: &str) -> (path: String)
    ensures
        path@ == spec_marker_path(candidate@),
{
    join_path(candidate, "src")
}

/// Picks the generator's root among the candidates.
///
/// `probes[i]` is what the caller saw of `candidates[i]`; a candidate without
/// a probe counts as absent. The result is the first candidate that exists
/// and holds the marker. When none does, the failure lists every candidate.
pub fn get_bundled_ocaml_backend(candidates: Vec<String>, probes: &Vec<Probe>) -> (found: Result<
    String,
    BackendError,
>)
    ensures
        found is Ok <==> exists|i: int|
            0 <= i < candidates@.len() && #[trigger] spec_matches(probes@, i),
        found is Ok ==> exists|i: int|
            #[trigger] spec_first_match(candidates@.len() as int, probes@, i) && found.unwrap()@
                == candidates[i]@,
        found is Err ==> found.unwrap_err()@ == (ErrorView::PathNotFound {
            tried: text_views(candidates@),
        }),
{
    let mut i: usize = 0;
    while i < candidates.len()
        invariant
            i <= candidates.len(),
            forall|j: int| 0 <= j < i ==> !spec_matches(probes@, j),
        decreases candidates.len() - i,
    {
        if i < probes.len() && probes[i].exists && probes[i].has_marker {
            assert(spec_first_match(candidates@.len() as int, probes@, i as int));
            return Ok(candidates[i].clone());
        }
        i = i + 1;
    }
    Err(BackendError::PathNotFound { tried: candidates })
}

} // verus!
