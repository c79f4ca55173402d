use vstd::prelude::*;

use crate::object::ObjectId;

verus! {

/// What the engine reports about the local branch tip and the fetched commit.
#[derive(Clone, Copy, Debug, PartialEq, Eq)]
pub struct Ancestry {
    /// The local branch reference exists.
    pub branch_exists: bool,
    /// The fetched commit equals the local tip or is one of its ancestors.
    pub fetched_in_tip_history: bool,
    /// The local tip is an ancestor of the fetched commit.
    pub tip_in_fetched_history: bool,
    /// The two commits have at least one common ancestor.
    pub shares_history: bool,
}

/// How a fetched commit relates to the local branch, and so how it is applied.
#[derive(Clone, Copy, Debug, PartialEq, Eq)]
pub enum Classification {
    /// The branch does not exist yet: it is created at the fetched commit.
    FastForwardFromEmpty,
    /// The fetched commit is already contained in the branch.
    UpToDate,
    /// The branch tip is an ancestor of the fetched commit.
    FastForward,
    /// Both sides have diverged from a common ancestor.
    NormalMerge,
    /// No common history: nothing is done.
    Unrelated,
}

/// The report gathered from the engine's merge-analysis flags and from
/// whether a merge base of the tip and the fetched commit exists.
pub open spec fn analysis_facts(
    tip: Option<ObjectId>,
    fetched: ObjectId,
    up_to_date: bool,
    fast_forward: bool,
    has_merge_base: bool,
) -> Ancestry {
    let equal = tip == Some(fetched);
    Ancestry {
        branch_exists: tip is Some,
        fetched_in_tip_history: up_to_date || equal,
        tip_in_fetched_history: fast_forward || equal,
        shares_history: up_to_date || fast_forward || has_merge_base || equal,
    }
}

impl Ancestry {
    /// The report is consistent with the tip it describes: a tip exists exactly
    /// when the branch does, being in one another's history implies shared
    /// history, each commit is in its own history, and two commits that are
    /// each other's ancestors are the same commit.
    pub open spec fn consistent_with(self, tip: Option<ObjectId>, fetched: ObjectId) -> bool {
        &&& tip is Some <==> self.branch_exists
        &&& self.fetched_in_tip_history ==> self.shares_history
        &&& self.tip_in_fetched_history ==> self.shares_history
        &&& tip == Some(fetched) ==> self.fetched_in_tip_history && self.tip_in_fetched_history
        &&& (self.fetched_in_tip_history && self.tip_in_fetched_history) ==> tip == Some(fetched)
    }

    /// Gathers the report from the engine's merge analysis of the fetched
    /// commit against the branch (`up_to_date` and `fast_forward` are its
    /// flags) and from whether the engine found a merge base of the two
    /// (`has_merge_base`). A fetched commit equal to the tip is both contained
    /// in the tip's history and a descendant of it. History is shared when a
    /// merge base exists or either flag is set; the engine's "normal" flag is
    /// not used, since it is also set for commits with no common ancestor.
    pub fn from_analysis(
        tip: Option<ObjectId>,
        fetched: ObjectId,
        up_to_date: bool,
        fast_forward: bool,
        has_merge_base: bool,
    ) -> (r: Ancestry)
        ensures
            r == analysis_facts(tip, fetched, up_to_date, fast_forward, has_merge_base),
            !(up_to_date && fast_forward) ==> r.consistent_with(tip, fetched),
    {
        let equal = fetched.is_tip(tip);
        Ancestry {
            branch_exists: tip.is_some(),
            fetched_in_tip_history: up_to_date || equal,
            tip_in_fetched_history: fast_forward || equal,
            shares_history: up_to_date || fast_forward || has_merge_base || equal,
        }
    }

    /// Tells whether the report is consistent with `tip` and `fetched`.
    pub fn is_consistent_with(&self, tip: Option<ObjectId>, fetched: ObjectId) -> (r: bool)
        ensures
            r == self.consistent_with(tip, fetched),
    {
        let equal = fetched.is_tip(tip);
        (tip.is_some() == self.branch_exists)
            && (!self.fetched_in_tip_history || self.shares_history)
            && (!self.tip_in_fetched_history || self.shares_history)
            && (!equal || (self.fetched_in_tip_history && self.tip_in_fetched_history))
            && (!(self.fetched_in_tip_history && self.tip_in_fetched_history) || equal)
    }

    /// The classification that this report calls for.
    pub open spec fn class(self) -> Classification {
        if !self.branch_exists {
            Classification::FastForwardFromEmpty
        } else if self.fetched_in_tip_history {
            Classification::UpToDate
        } else if self.tip_in_fetched_history {
            Classification::FastForward
        } else if self.shares_history {
            Classification::NormalMerge
        } else {
            Classification::Unrelated
        }
    }
}

/// Classifies the relation between the local branch tip and the fetched commit.
pub fn classify(facts: &Ancestry) -> (r: Classification)
    ensures
        r == facts.class(),
        r is FastForwardFromEmpty <==> !facts.branch_exists,
        r is UpToDate <==> facts.branch_exists && facts.fetched_in_tip_history,
        r is FastForward <==> facts.branch_exists && !facts.fetched_in_tip_history
            && facts.tip_in_fetched_history,
        r is NormalMerge <==> facts.branch_exists && !facts.fetched_in_tip_history
            && !facts.tip_in_fetched_history && facts.shares_history,
{
    if !facts.branch_exists {
        Classification::FastForwardFromEmpty
    } else if facts.fetched_in_tip_history {
        Classification::UpToDate
    } else if facts.tip_in_fetched_history {
        Classification::FastForward
    } else if facts.shares_history {
        Classification::NormalMerge
    } else {
        Classification::Unrelated
    }
}

} // verus!
