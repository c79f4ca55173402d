use vstd::prelude::*;
use vstd::string::*;

use crate::apply::{sync_effect, Applied, Mirror, TreeMerge};
use crate::object::ObjectId;
use crate::resolve::Ancestry;

verus! {

/// The upstream repository that a missing mirror is cloned from.
pub const UPSTREAM_URL: &'static str = "https://github.com/CobbCoding1/Cano.git";

/// The remote that an existing mirror fetches from.
pub const REMOTE_NAME: &'static str = "origin";

/// The branch that is kept in sync.
pub const BRANCH_NAME: &'static str = "main";

/// The directory that the built binary is installed into.
pub const INSTALL_DIR: &'static str = "/usr/bin/";

/// The installed binary whose presence marks a previous install.
pub const INSTALLED_MARKER: &'static str = "/usr/bin/cano";

/// What a run does once the mirror is open.
#[derive(Clone, Copy, Debug, PartialEq, Eq)]
pub enum RunPlan {
    /// Build and install right away, without looking at the remote.
    BuildOnly,
    /// Fetch the remote branch and apply what came.
    Sync,
}

/// What a run does after fetching.
#[derive(Clone, Copy, Debug, PartialEq, Eq)]
pub enum AfterFetch {
    /// Apply the fetched commit to the branch, then build and install.
    ApplyAndBuild,
    /// Nothing was transferred: the mirror is current and nothing is built.
    AlreadyCurrent,
}

/// Decides the run: a fresh clone is current by definition and a missing
/// install must be made, so both go straight to the build; otherwise sync.
pub fn plan_run(cloned: bool, installed: bool) -> (r: RunPlan)
    ensures
        r == (if cloned || !installed { RunPlan::BuildOnly } else { RunPlan::Sync }),
{
    if cloned || !installed {
        RunPlan::BuildOnly
    } else {
        RunPlan::Sync
    }
}

/// Decides what follows a fetch that transferred `total_objects` objects.
/// A fetch that failed counts as one that transferred nothing.
pub fn after_fetch(total_objects: usize) -> (r: AfterFetch)
    ensures
        r == (if total_objects == 0 { AfterFetch::AlreadyCurrent } else { AfterFetch::ApplyAndBuild }),
{
    if total_objects == 0 {
        AfterFetch::AlreadyCurrent
    } else {
        AfterFetch::ApplyAndBuild
    }
}

/// The outcome of a whole run on an open mirror: the mirror afterwards, the
/// commit created, and whether the build and install pipeline was started.
pub struct RunOutcome {
    pub applied: Applied,
    pub built: bool,
}

/// One run on an open mirror `m`, where `cloned` tells whether it was just
/// cloned, `installed` whether the marker exists, and the fetch (when one is
/// made) transferred `total_objects` objects and brought `fetched`.
pub open spec fn run_effect(
    m: Mirror,
    cloned: bool,
    installed: bool,
    total_objects: usize,
    fetched: ObjectId,
    facts: Ancestry,
    merge: TreeMerge,
) -> RunOutcome {
    if cloned || !installed {
        RunOutcome { applied: Applied { mirror: m, created: None }, built: true }
    } else if total_objects == 0 {
        RunOutcome { applied: Applied { mirror: m, created: None }, built: false }
    } else {
        RunOutcome { applied: sync_effect(m, fetched, facts, merge), built: true }
    }
}

/// The full reference name of the local branch `branch`.
pub fn branch_ref_name(branch: &str) -> (r: String)
    ensures
        r@ == "refs/heads/"@ + branch@,
{
    let mut name = "refs/heads/".to_owned();
    name.append(branch);
    name
}

/// The mirror's directory under the home directory `home`.
pub fn mirror_dir(home: &str) -> (r: String)
    ensures
        r@ == home@ + "/cano/"@,
{
    let mut dir = home.to_owned();
    dir.append("/cano/");
    dir
}

/// Where the build leaves the binary, for the mirror directory `dir`
/// (which ends in a separator).
pub fn artifact_path(dir: &str) -> (r: String)
    ensures
        r@ == dir@ + "build/cano"@,
{
    let mut path = dir.to_owned();
    path.append("build/cano");
    path
}

} // verus!
