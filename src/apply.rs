use vstd::prelude::*;

use crate::object::ObjectId;
use crate::resolve::{analysis_facts, classify, Ancestry, Classification};

verus! {

/// The change to the local branch that a classification calls for.
#[derive(Clone, Copy, Debug, PartialEq, Eq)]
pub enum Update {
    /// Leave branch and working tree as they are.
    Nothing,
    /// Create the branch at `target`, make it current and force-check it out,
    /// overwriting whatever files are in the way.
    CreateBranch { target: ObjectId },
    /// Point the existing branch at `target`, make it current and force-check
    /// it out, discarding local modifications.
    MoveBranch { target: ObjectId },
    /// Merge the trees of `ours` and `theirs` against their merge base.
    Merge { ours: ObjectId, theirs: ObjectId },
}

/// What is done once the three-way tree merge of a `Merge` update is known.
#[derive(Clone, Copy, Debug, PartialEq, Eq)]
pub enum MergeFinish {
    /// Write the merged tree, commit it with parents `first` then `second`,
    /// advance the current branch to that commit and check it out.
    Commit { first: ObjectId, second: ObjectId },
    /// Write the conflicted index into the working tree; no commit, the branch
    /// stays where it is.
    LeaveConflicts { ours: ObjectId, theirs: ObjectId },
}

/// The update for a branch tip, a fetched commit and their classification.
pub open spec fn update_for(tip: Option<ObjectId>, fetched: ObjectId, class: Classification) -> Update {
    match class {
        Classification::FastForwardFromEmpty => Update::CreateBranch { target: fetched },
        Classification::FastForward => Update::MoveBranch { target: fetched },
        Classification::NormalMerge => Update::Merge { ours: tip.unwrap(), theirs: fetched },
        _ => Update::Nothing,
    }
}

/// Decides how the fetched commit is applied to the local branch whose tip is
/// `tip` (`None` when the branch does not exist yet).
pub fn plan_update(tip: Option<ObjectId>, fetched: ObjectId, facts: &Ancestry) -> (r: Update)
    requires
        facts.consistent_with(tip, fetched),
    ensures
        r == update_for(tip, fetched, facts.class()),
{
    match classify(facts) {
        Classification::FastForwardFromEmpty => Update::CreateBranch { target: fetched },
        Classification::FastForward => Update::MoveBranch { target: fetched },
        Classification::NormalMerge => {
            let ours = match tip {
                Some(t) => t,
                None => fetched,
            };
            Update::Merge { ours, theirs: fetched }
        },
        Classification::UpToDate => Update::Nothing,
        Classification::Unrelated => Update::Nothing,
    }
}

/// Plans the update from the engine's merge-analysis flags for the fetched
/// commit and from whether the two commits have a merge base; `None` when the flags contradict each other (both up to date and
/// fast-forwardable for two different commits), in which case nothing is done.
pub fn plan_from_analysis(
    tip: Option<ObjectId>,
    fetched: ObjectId,
    up_to_date: bool,
    fast_forward: bool,
    has_merge_base: bool,
) -> (r: Option<Update>)
    ensures
        ({
            let facts = analysis_facts(tip, fetched, up_to_date, fast_forward, has_merge_base);
            r == if facts.consistent_with(tip, fetched) {
                Some(update_for(tip, fetched, facts.class()))
            } else {
                None::<Update>
            }
        }),
        !(up_to_date && fast_forward) ==> r is Some,
{
    let facts = Ancestry::from_analysis(tip, fetched, up_to_date, fast_forward, has_merge_base);
    if facts.is_consistent_with(tip, fetched) {
        Some(plan_update(tip, fetched, &facts))
    } else {
        None
    }
}

/// Decides the end of a three-way merge of `ours` (the local tip) and `theirs`
/// (the fetched commit), given whether the tree merge left conflicted paths.
pub fn finish_merge(ours: ObjectId, theirs: ObjectId, has_conflicts: bool) -> (r: MergeFinish)
    ensures
        has_conflicts ==> r == (MergeFinish::LeaveConflicts { ours, theirs }),
        !has_conflicts ==> r == (MergeFinish::Commit { first: ours, second: theirs }),
{
    if has_conflicts {
        MergeFinish::LeaveConflicts { ours, theirs }
    } else {
        MergeFinish::Commit { first: ours, second: theirs }
    }
}

/// The state of the files on disk, as far as synchronisation is concerned.
#[derive(Clone, Copy, Debug, PartialEq, Eq)]
pub enum WorkTree {
    /// Exactly the tree of the given commit.
    CheckedOut { commit: ObjectId },
    /// The conflicted merge of the two commits, with conflict markers.
    Conflicted { ours: ObjectId, theirs: ObjectId },
    /// Anything else (local edits, a state left by some other tool).
    Unknown,
}

/// The local mirror: its branch tip and its working tree.
#[derive(Clone, Copy, Debug, PartialEq, Eq)]
pub struct Mirror {
    pub tip: Option<ObjectId>,
    pub worktree: WorkTree,
}

/// A commit created by a clean merge.
#[derive(Clone, Copy, Debug, PartialEq, Eq)]
pub struct MergeCommit {
    pub id: ObjectId,
    pub first_parent: ObjectId,
    pub second_parent: ObjectId,
    pub tree: ObjectId,
}

/// A mirror after one application, and the commit it created, if any.
pub struct Applied {
    pub mirror: Mirror,
    pub created: Option<MergeCommit>,
}

/// The engine's answer to a tree merge: whether paths conflict, the tree that
/// the merged index writes when none do, and the id of the commit made from it.
pub struct TreeMerge {
    pub has_conflicts: bool,
    pub tree: ObjectId,
    pub commit: ObjectId,
}

/// What carrying out a merge finish does to the mirror: the engine's commit,
/// branch-advance and checkout primitives, or its index checkout.
pub open spec fn finish_effect(m: Mirror, f: MergeFinish, merge: TreeMerge) -> Applied {
    match f {
        MergeFinish::Commit { first, second } => Applied {
            mirror: Mirror {
                tip: Some(merge.commit),
                worktree: WorkTree::CheckedOut { commit: merge.commit },
            },
            created: Some(
                MergeCommit {
                    id: merge.commit,
                    first_parent: first,
                    second_parent: second,
                    tree: merge.tree,
                },
            ),
        },
        MergeFinish::LeaveConflicts { ours, theirs } => Applied {
            mirror: Mirror { tip: m.tip, worktree: WorkTree::Conflicted { ours, theirs } },
            created: None,
        },
    }
}

/// What carrying out an update does to the mirror, the tree merge of a
/// `Merge` update being `merge`.
pub open spec fn update_effect(m: Mirror, u: Update, merge: TreeMerge) -> Applied {
    match u {
        Update::Nothing => Applied { mirror: m, created: None },
        Update::CreateBranch { target } => Applied {
            mirror: Mirror { tip: Some(target), worktree: WorkTree::CheckedOut { commit: target } },
            created: None,
        },
        Update::MoveBranch { target } => Applied {
            mirror: Mirror { tip: Some(target), worktree: WorkTree::CheckedOut { commit: target } },
            created: None,
        },
        Update::Merge { ours, theirs } => finish_effect(
            m,
            if merge.has_conflicts {
                MergeFinish::LeaveConflicts { ours, theirs }
            } else {
                MergeFinish::Commit { first: ours, second: theirs }
            },
            merge,
        ),
    }
}

/// One synchronisation of the mirror with a fetched commit: classify, plan,
/// and carry the plan out.
pub open spec fn sync_effect(m: Mirror, fetched: ObjectId, facts: Ancestry, merge: TreeMerge) -> Applied {
    update_effect(m, update_for(m.tip, fetched, facts.class()), merge)
}

} // verus!
