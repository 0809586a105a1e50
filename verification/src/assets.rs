//! First-run installation of the worker's files from the copy bundled with
//! the application.

use vstd::prelude::*;
use vstd::string::StringExecFns;
use crate::paths::join_path;
use crate::paths::joined_path;
use crate::text::concat2;
use crate::text::same_text;

verus! {

/// Whether an entry of the bundled worker is left out when copying: the
/// dependency directory, which is installed afresh, and the configuration
/// file, which is the user's to write.
pub open spec fn skipped(name: Seq<char>, is_dir: bool) -> bool {
    if is_dir {
        name == "node_modules"@
    } else {
        name == "config.json"@
    }
}

/// Whether the entry `name`, a directory or a file, is left out when the
/// bundled worker is copied.
pub fn skips_entry(name: &str, is_dir: bool) -> (b: bool)
    ensures
        b == skipped(name@, is_dir),
{
    if is_dir {
        same_text(name, "node_modules")
    } else {
        same_text(name, "config.json")
    }
}

/// A directory that may hold the bundled worker. Where `needs_entry_point`
/// is set, the directory counts only if the worker's entry point is in it.
#[derive(Debug, Clone, PartialEq, Eq)]
pub struct Candidate {
    pub dir: String,
    pub needs_entry_point: bool,
}

/// A candidate with its directory as a character sequence.
pub struct CandidateView {
    pub dir: Seq<char>,
    pub needs_entry_point: bool,
}

impl View for Candidate {
    type V = CandidateView;

    open spec fn view(&self) -> CandidateView {
        CandidateView { dir: self.dir@, needs_entry_point: self.needs_entry_point }
    }
}

/// The views of `candidates`, in order.
pub open spec fn candidate_views(candidates: Seq<Candidate>) -> Seq<CandidateView> {
    Seq::new(candidates.len(), |i: int| candidates[i]@)
}

/// The bundled worker in the application's resource directory.
pub open spec fn resource_candidates(resource_dir: Option<Seq<char>>) -> Seq<CandidateView> {
    match resource_dir {
        Some(dir) => seq![
            CandidateView { dir: joined_path(dir, "bot"@), needs_entry_point: false },
        ],
        None => Seq::empty(),
    }
}

/// The places near the executable where the bundled worker may lie.
pub open spec fn executable_candidates(exe_dir: Option<Seq<char>>) -> Seq<CandidateView> {
    match exe_dir {
        Some(dir) => {
            let up = joined_path(dir, ".."@);
            seq![
                CandidateView { dir: joined_path(dir, "bot"@), needs_entry_point: true },
                CandidateView {
                    dir: joined_path(joined_path(dir, "_up_"@), "bot"@),
                    needs_entry_point: true,
                },
                CandidateView { dir: joined_path(up, "bot"@), needs_entry_point: true },
                CandidateView {
                    dir: joined_path(joined_path(up, ".."@), "bot"@),
                    needs_entry_point: true,
                },
                CandidateView {
                    dir: joined_path(joined_path(up, "Resources"@), "bot"@),
                    needs_entry_point: true,
                },
            ]
        },
        None => Seq::empty(),
    }
}

/// Where to look for the bundled worker, in the order to look: the
/// resource directory first, then the places near the executable.
pub open spec fn bundle_search(
    resource_dir: Option<Seq<char>>,
    exe_dir: Option<Seq<char>>,
) -> Seq<CandidateView> {
    resource_candidates(resource_dir) + executable_candidates(exe_dir)
}

fn push_candidate(list: &mut Vec<Candidate>, dir: String, needs_entry_point: bool)
    ensures
        candidate_views(final(list)@) == candidate_views(old(list)@).push(
            CandidateView { dir: dir@, needs_entry_point },
        ),
{
    list.push(Candidate { dir, needs_entry_point });
    assert(candidate_views(list@) =~= candidate_views(old(list)@).push(
        CandidateView { dir: dir@, needs_entry_point },
    ));
}

/// The directories to search for the bundled worker, given the
/// application's resource directory and the directory of its executable as
/// far as they are known.
pub fn bundle_candidates(resource_dir: Option<&str>, exe_dir: Option<&str>) -> (list: Vec<
    Candidate,
>)
    ensures
        candidate_views(list@) == bundle_search(
            match resource_dir {
                Some(d) => Some(d@),
                None => None,
            },
            match exe_dir {
                Some(d) => Some(d@),
                None => None,
            },
        ),
{
    let mut list: Vec<Candidate> = Vec::new();
    assert(candidate_views(list@) =~= Seq::<CandidateView>::empty());
    match resource_dir {
        Some(dir) => {
            push_candidate(&mut list, join_path(dir, "bot"), false);
        },
        None => {},
    }
    let ghost first = candidate_views(list@);
    assert(first =~= resource_candidates(
        match resource_dir {
            Some(d) => Some(d@),
            None => None,
        },
    ));
    match exe_dir {
        Some(dir) => {
            let up = join_path(dir, "..");
            let beside = join_path(dir, "_up_");
            let up_up = join_path(up.as_str(), "..");
            let resources = join_path(up.as_str(), "Resources");
            push_candidate(&mut list, join_path(dir, "bot"), true);
            push_candidate(&mut list, join_path(beside.as_str(), "bot"), true);
            push_candidate(&mut list, join_path(up.as_str(), "bot"), true);
            push_candidate(&mut list, join_path(up_up.as_str(), "bot"), true);
            push_candidate(&mut list, join_path(resources.as_str(), "bot"), true);
            assert(candidate_views(list@) =~= first + executable_candidates(Some(dir@)));
        },
        None => {
            assert(candidate_views(list@) =~= first + executable_candidates(None));
        },
    }
    list
}

/// Picks the bundle to copy: the first candidate found. `found[i]` tells
/// whether candidate `i` exists, with the entry point in it where it needs
/// one.
pub fn choose_bundle(found: &Vec<bool>) -> (r: Option<usize>)
    ensures
        match r {
            Some(i) => i < found@.len() && found@[i as int] && forall|j: int|
                0 <= j < i ==> !found@[j],
            None => forall|j: int| 0 <= j < found@.len() ==> !found@[j],
        },
{
    let mut i: usize = 0;
    while i < found.len()
        invariant
            i <= found@.len(),
            forall|j: int| 0 <= j < i ==> !found@[j],
        decreases found.len() - i,
    {
        if found[i] {
            return Some(i);
        }
        i += 1;
    }
    None
}

/// What to do about the worker's files when the application starts.
#[derive(Debug, Clone, Copy, PartialEq, Eq, Structural)]
pub enum FirstRun {
    /// The worker is installed already and is left alone.
    NothingToDo,
    /// The worker's directory is created and the bundle of this candidate
    /// copied into it.
    CopyFrom { candidate: usize },
    /// The worker's directory is created, but there is no bundle to copy:
    /// the worker's files are missing.
    NoBundle,
}

/// The decision on the worker's files, given whether the worker's entry
/// point exists and which candidates were found: an installed worker is
/// never touched; else the first candidate found is copied; else nothing
/// can be done.
pub open spec fn first_run_decision(entry_point_exists: bool, found: Seq<bool>) -> FirstRun {
    if entry_point_exists {
        FirstRun::NothingToDo
    } else if exists|i: int| 0 <= i < found.len() && found[i] {
        FirstRun::CopyFrom { candidate: first_true(found) as usize }
    } else {
        FirstRun::NoBundle
    }
}

/// The position of the first `true` in `found`, or its length where there
/// is none.
pub open spec fn first_true(found: Seq<bool>) -> int
    decreases found.len(),
{
    if found.len() == 0 || found[0] {
        0
    } else {
        1 + first_true(found.drop_first())
    }
}

proof fn lemma_first_true(found: Seq<bool>, n: int)
    requires
        0 <= n <= found.len(),
        forall|j: int| 0 <= j < n ==> !found[j],
        n == found.len() || found[n],
    ensures
        first_true(found) == n,
    decreases n,
{
    if n > 0 {
        let rest = found.drop_first();
        assert forall|j: int| 0 <= j < n - 1 implies !rest[j] by {
            assert(rest[j] == found[j + 1]);
        }
        lemma_first_true(rest, n - 1);
    }
}

/// Decides what to do about the worker's files. `found[i]` tells whether
/// candidate `i` exists, with the entry point in it where it needs one.
pub fn first_run(entry_point_exists: bool, found: &Vec<bool>) -> (r: FirstRun)
    ensures
        r == first_run_decision(entry_point_exists, found@),
        r matches FirstRun::CopyFrom { candidate } ==> candidate < found@.len()
            && found@[candidate as int],
{
    if entry_point_exists {
        return FirstRun::NothingToDo;
    }
    match choose_bundle(found) {
        Some(i) => {
            proof {
                lemma_first_true(found@, i as int);
            }
            FirstRun::CopyFrom { candidate: i }
        },
        None => FirstRun::NoBundle,
    }
}

/// The message for a worker's directory that could not be created.
pub fn directory_failure(reason: &str) -> (r: String)
    ensures
        r@ == "Failed to create bot directory: "@ + reason@,
{
    concat2("Failed to create bot directory: ", reason)
}

/// The message for a bundle that could not be copied.
pub fn copy_failure(reason: &str) -> (r: String)
    ensures
        r@ == "Failed to copy bot files: "@ + reason@,
{
    concat2("Failed to copy bot files: ", reason)
}


} // verus!
