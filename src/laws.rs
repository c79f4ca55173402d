use vstd::prelude::*;

use crate::apply::{sync_effect, Mirror, TreeMerge, WorkTree};
use crate::object::ObjectId;
use crate::orchestrate::run_effect;
use crate::resolve::Ancestry;

verus! {

/// When the fetched commit is a proper descendant of the local tip, a sync
/// moves the branch to the fetched commit, force-checks its tree out over any
/// local edits, and creates no commit. Stated of `sync_effect`, the model of
/// what the engine's branch, checkout and commit operations do with the plan
/// that `plan_update` and `finish_merge` make.
pub proof fn sync_fast_forwards_to_descendant(
    m: Mirror,
    local: ObjectId,
    fetched: ObjectId,
    facts: Ancestry,
    merge: TreeMerge,
)
    requires
        m.tip == Some(local),
        facts.consistent_with(m.tip, fetched),
        facts.tip_in_fetched_history,
        local != fetched,
    ensures
        sync_effect(m, fetched, facts, merge).mirror == (Mirror {
            tip: Some(fetched),
            worktree: WorkTree::CheckedOut { commit: fetched },
        }),
        sync_effect(m, fetched, facts, merge).created is None,
{
}

/// When the fetched commit is the local tip or one of its ancestors, a sync
/// leaves the branch tip and working tree unchanged and creates no commit. Stated of the
/// model `sync_effect`.
pub proof fn sync_keeps_tip_when_up_to_date(
    m: Mirror,
    local: ObjectId,
    fetched: ObjectId,
    facts: Ancestry,
    merge: TreeMerge,
)
    requires
        m.tip == Some(local),
        facts.consistent_with(m.tip, fetched),
        facts.fetched_in_tip_history,
    ensures
        sync_effect(m, fetched, facts, merge).mirror == m,
        sync_effect(m, fetched, facts, merge).created is None,
{
}

/// When the two sides have diverged and the tree merge is clean, a sync makes
/// the branch tip a new commit whose parents are the local tip then the
/// fetched commit, whose tree is the merged tree, and checks it out. Stated of the
/// model `sync_effect`.
pub proof fn sync_commits_clean_merge(
    m: Mirror,
    local: ObjectId,
    fetched: ObjectId,
    facts: Ancestry,
    merge: TreeMerge,
)
    requires
        m.tip == Some(local),
        facts.consistent_with(m.tip, fetched),
        !facts.fetched_in_tip_history,
        !facts.tip_in_fetched_history,
        facts.shares_history,
        !merge.has_conflicts,
    ensures
        sync_effect(m, fetched, facts, merge).mirror == (Mirror {
            tip: Some(merge.commit),
            worktree: WorkTree::CheckedOut { commit: merge.commit },
        }),
        sync_effect(m, fetched, facts, merge).created matches Some(c) && c.id == merge.commit
            && c.first_parent == local && c.second_parent == fetched && c.tree == merge.tree,
{
}

/// When the two sides have diverged and the tree merge conflicts, a sync keeps
/// the branch tip, creates no commit, and leaves the conflicted merge of the
/// two sides in the working tree. Stated of the
/// model `sync_effect`.
pub proof fn sync_leaves_conflicts_in_worktree(
    m: Mirror,
    local: ObjectId,
    fetched: ObjectId,
    facts: Ancestry,
    merge: TreeMerge,
)
    requires
        m.tip == Some(local),
        facts.consistent_with(m.tip, fetched),
        !facts.fetched_in_tip_history,
        !facts.tip_in_fetched_history,
        facts.shares_history,
        merge.has_conflicts,
    ensures
        sync_effect(m, fetched, facts, merge).mirror == (Mirror {
            tip: Some(local),
            worktree: WorkTree::Conflicted { ours: local, theirs: fetched },
        }),
        sync_effect(m, fetched, facts, merge).created is None,
{
}

/// Running twice with no new remote objects in between: the second run's
/// fetch transfers nothing, so it leaves the mirror of the first run as it
/// is, creates no commit and builds nothing. Stated of the model `run_effect`,
/// which follows the decisions of `plan_run` and `after_fetch`.
pub proof fn second_run_without_new_objects_changes_nothing(
    m: Mirror,
    fetched: ObjectId,
    facts: Ancestry,
    merge: TreeMerge,
    later_fetched: ObjectId,
    later_facts: Ancestry,
    later_merge: TreeMerge,
    total_objects: usize,
)
    ensures
        ({
            let first = run_effect(m, false, true, total_objects, fetched, facts, merge);
            let second = run_effect(first.applied.mirror, false, true, 0, later_fetched, later_facts, later_merge);
            &&& second.applied.mirror == first.applied.mirror
            &&& second.applied.created is None
            &&& !second.built
        }),
{
}

/// When the local tip and the fetched commit have no common history, a sync
/// does nothing: branch, working tree and history stay as they are. Stated of
/// the model `sync_effect`.
pub proof fn sync_ignores_unrelated_history(
    m: Mirror,
    local: ObjectId,
    fetched: ObjectId,
    facts: Ancestry,
    merge: TreeMerge,
)
    requires
        m.tip == Some(local),
        facts.consistent_with(m.tip, fetched),
        !facts.shares_history,
    ensures
        sync_effect(m, fetched, facts, merge).mirror == m,
        sync_effect(m, fetched, facts, merge).created is None,
{
}

/// A freshly cloned mirror, or one whose binary is not installed, is built
/// without being synchronised: the run leaves it as it is and creates no commit.
/// Stated of the model `run_effect`.
pub proof fn fresh_or_uninstalled_run_builds(
    m: Mirror,
    cloned: bool,
    installed: bool,
    total_objects: usize,
    fetched: ObjectId,
    facts: Ancestry,
    merge: TreeMerge,
)
    requires
        cloned || !installed,
    ensures
        run_effect(m, cloned, installed, total_objects, fetched, facts, merge).built,
        run_effect(m, cloned, installed, total_objects, fetched, facts, merge).applied.mirror == m,
        run_effect(m, cloned, installed, total_objects, fetched, facts, merge).applied.created is None,
{
}

/// Syncing twice with the same fetched commit: once the first sync has left
/// the branch at that commit, the second finds it up to date and changes
/// nothing. Stated of the model `sync_effect`.
pub proof fn resync_with_same_commit_changes_nothing(
    m: Mirror,
    fetched: ObjectId,
    facts: Ancestry,
    merge: TreeMerge,
    later_facts: Ancestry,
    later_merge: TreeMerge,
)
    requires
        facts.consistent_with(m.tip, fetched),
        sync_effect(m, fetched, facts, merge).mirror.tip == Some(fetched),
        later_facts.consistent_with(Some(fetched), fetched),
    ensures
        ({
            let first = sync_effect(m, fetched, facts, merge).mirror;
            &&& sync_effect(first, fetched, later_facts, later_merge).mirror == first
            &&& sync_effect(first, fetched, later_facts, later_merge).created is None
        }),
{
}

} // verus!
