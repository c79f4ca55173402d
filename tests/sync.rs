use canoup::apply::{finish_merge, plan_from_analysis, plan_update, MergeFinish, Update};
use canoup::messages::{create_branch_message, fast_forward_message, merge_message};
use canoup::object::ObjectId;
use canoup::orchestrate::{
    after_fetch, artifact_path, branch_ref_name, mirror_dir, plan_run, AfterFetch, RunPlan, BRANCH_NAME,
    REMOTE_NAME,
};
use canoup::resolve::{classify, Ancestry, Classification};

fn id(b: u8) -> ObjectId {
    ObjectId::from_bytes([b; 20])
}

fn facts(branch: bool, fetched_in_tip: bool, tip_in_fetched: bool, shared: bool) -> Ancestry {
    Ancestry {
        branch_exists: branch,
        fetched_in_tip_history: fetched_in_tip,
        tip_in_fetched_history: tip_in_fetched,
        shares_history: shared,
    }
}

#[test]
fn classify_missing_branch_is_fast_forward_from_empty() {
    assert_eq!(classify(&facts(false, false, false, false)), Classification::FastForwardFromEmpty);
}

#[test]
fn classify_equal_commits_is_up_to_date() {
    assert_eq!(classify(&facts(true, true, true, true)), Classification::UpToDate);
}

#[test]
fn classify_ancestor_fetched_is_up_to_date() {
    assert_eq!(classify(&facts(true, true, false, true)), Classification::UpToDate);
}

#[test]
fn classify_descendant_fetched_is_fast_forward() {
    assert_eq!(classify(&facts(true, false, true, true)), Classification::FastForward);
}

#[test]
fn classify_diverged_is_normal_merge() {
    assert_eq!(classify(&facts(true, false, false, true)), Classification::NormalMerge);
}

#[test]
fn classify_unrelated_histories() {
    assert_eq!(classify(&facts(true, false, false, false)), Classification::Unrelated);
}

#[test]
fn fast_forward_moves_branch_to_fetched() {
    let r = plan_update(Some(id(1)), id(2), &facts(true, false, true, true));
    assert_eq!(r, Update::MoveBranch { target: id(2) });
}

#[test]
fn up_to_date_plans_nothing() {
    assert_eq!(plan_update(Some(id(3)), id(3), &facts(true, true, true, true)), Update::Nothing);
    assert_eq!(plan_update(Some(id(3)), id(2), &facts(true, true, false, true)), Update::Nothing);
}

#[test]
fn unrelated_plans_nothing() {
    assert_eq!(plan_update(Some(id(3)), id(4), &facts(true, false, false, false)), Update::Nothing);
}

#[test]
fn diverged_plans_merge_of_tip_and_fetched() {
    let r = plan_update(Some(id(5)), id(6), &facts(true, false, false, true));
    assert_eq!(r, Update::Merge { ours: id(5), theirs: id(6) });
}

#[test]
fn clean_merge_commits_with_local_then_fetched_parent() {
    assert_eq!(
        finish_merge(id(5), id(6), false),
        MergeFinish::Commit { first: id(5), second: id(6) }
    );
}

#[test]
fn conflicted_merge_leaves_conflicts_without_commit() {
    assert_eq!(
        finish_merge(id(5), id(6), true),
        MergeFinish::LeaveConflicts { ours: id(5), theirs: id(6) }
    );
}

#[test]
fn fresh_install_builds_without_syncing() {
    assert_eq!(plan_run(false, false), RunPlan::BuildOnly);
    assert_eq!(plan_run(true, true), RunPlan::BuildOnly);
    assert_eq!(plan_run(false, true), RunPlan::Sync);
}

#[test]
fn fetch_without_objects_is_already_current() {
    assert_eq!(after_fetch(0), AfterFetch::AlreadyCurrent);
    assert_eq!(after_fetch(1), AfterFetch::ApplyAndBuild);
    assert_eq!(after_fetch(usize::MAX), AfterFetch::ApplyAndBuild);
}

#[test]
fn paths_under_home() {
    let dir = mirror_dir("/home/ada");
    assert_eq!(dir, "/home/ada/cano/");
    assert_eq!(artifact_path(&dir), "/home/ada/cano/build/cano");
    assert_eq!(mirror_dir(""), "/cano/");
}

#[test]
fn remote_and_branch_names() {
    assert_eq!(REMOTE_NAME, "origin");
    assert_eq!(BRANCH_NAME, "main");
}

// Empty local state, remote has commit X on "main": the mirror is cloned, the
// run builds right away, and the branch is created at X.
#[test]
fn scenario_empty_mirror_is_cloned_and_built() {
    let x = id(10);
    assert_eq!(plan_run(true, false), RunPlan::BuildOnly);
    assert_eq!(plan_run(true, true), RunPlan::BuildOnly);
    let f = facts(false, false, false, false);
    assert_eq!(classify(&f), Classification::FastForwardFromEmpty);
    assert_eq!(plan_update(None, x, &f), Update::CreateBranch { target: x });
}

// Local tip X, the remote fast-forwards to Y whose parent is X: the branch
// moves to Y, and the run builds.
#[test]
fn scenario_remote_fast_forward() {
    let (x, y) = (id(10), id(11));
    assert_eq!(plan_run(false, true), RunPlan::Sync);
    assert_eq!(after_fetch(3), AfterFetch::ApplyAndBuild);
    let f = facts(true, false, true, true);
    assert_eq!(classify(&f), Classification::FastForward);
    assert_eq!(plan_update(Some(x), y, &f), Update::MoveBranch { target: y });
}

// Local tip X and remote Y both changed one line from their base Z: the merge
// conflicts, no commit is made, the conflicts go to the working tree, and the
// run still builds.
#[test]
fn scenario_conflicting_edits() {
    let (x, y) = (id(10), id(12));
    assert_eq!(after_fetch(4), AfterFetch::ApplyAndBuild);
    let f = facts(true, false, false, true);
    assert_eq!(classify(&f), Classification::NormalMerge);
    let u = plan_update(Some(x), y, &f);
    assert_eq!(u, Update::Merge { ours: x, theirs: y });
    assert_eq!(finish_merge(x, y, true), MergeFinish::LeaveConflicts { ours: x, theirs: y });
}

// A second run with no new remote objects is a no-op; a re-analysis of the
// same commit after a fast-forward finds it up to date.
#[test]
fn second_run_is_a_no_op() {
    let (x, y) = (id(10), id(11));
    assert_eq!(plan_update(Some(x), y, &facts(true, false, true, true)), Update::MoveBranch { target: y });
    assert_eq!(after_fetch(0), AfterFetch::AlreadyCurrent);
    assert_eq!(plan_update(Some(y), y, &facts(true, true, true, true)), Update::Nothing);
}

#[test]
fn ids_compare_by_bytes() {
    assert!(id(7).same(&id(7)));
    assert!(!id(7).same(&id(8)));
    let mut b = [7u8; 20];
    b[19] = 0;
    assert!(!id(7).same(&ObjectId::from_bytes(b)));
    assert!(id(7).is_tip(Some(id(7))));
    assert!(!id(7).is_tip(Some(id(8))));
    assert!(!id(7).is_tip(None));
}

#[test]
fn analysis_of_equal_commits_is_up_to_date_both_ways() {
    let f = Ancestry::from_analysis(Some(id(1)), id(1), true, false, false);
    assert_eq!(f, facts(true, true, true, true));
    assert!(f.is_consistent_with(Some(id(1)), id(1)));
}

#[test]
fn analysis_of_missing_branch() {
    let f = Ancestry::from_analysis(None, id(1), false, true, false);
    assert_eq!(f, facts(false, false, true, true));
    assert!(f.is_consistent_with(None, id(1)));
}

#[test]
fn consistency_rejects_contradictions() {
    assert!(!facts(true, true, true, true).is_consistent_with(Some(id(1)), id(2)));
    assert!(!facts(false, false, false, false).is_consistent_with(Some(id(1)), id(2)));
    assert!(!facts(true, true, false, false).is_consistent_with(Some(id(1)), id(2)));
    assert!(!facts(true, false, false, false).is_consistent_with(Some(id(1)), id(1)));
    assert!(facts(true, false, false, true).is_consistent_with(Some(id(1)), id(2)));
}

#[test]
fn plan_from_analysis_each_flag() {
    let (a, b) = (id(1), id(2));
    assert_eq!(plan_from_analysis(Some(a), b, false, true, false), Some(Update::MoveBranch { target: b }));
    assert_eq!(plan_from_analysis(Some(a), b, true, false, false), Some(Update::Nothing));
    assert_eq!(plan_from_analysis(Some(a), b, false, false, true), Some(Update::Merge { ours: a, theirs: b }));
    assert_eq!(plan_from_analysis(Some(a), b, false, false, false), Some(Update::Nothing));
    assert_eq!(plan_from_analysis(None, b, false, true, false), Some(Update::CreateBranch { target: b }));
    assert_eq!(plan_from_analysis(Some(a), a, false, false, false), Some(Update::Nothing));
    assert_eq!(plan_from_analysis(Some(a), b, true, true, false), None);
}

#[test]
fn unrelated_histories_plan_nothing() {
    let (a, b) = (id(1), id(2));
    assert_eq!(plan_from_analysis(Some(a), b, false, false, false), Some(Update::Nothing));
    let f = Ancestry::from_analysis(Some(a), b, false, false, false);
    assert_eq!(classify(&f), Classification::Unrelated);
}

#[test]
fn merge_base_without_flags_plans_merge() {
    let (a, b) = (id(1), id(2));
    let f = Ancestry::from_analysis(Some(a), b, false, false, true);
    assert_eq!(classify(&f), Classification::NormalMerge);
    assert_eq!(plan_from_analysis(Some(a), b, false, false, true), Some(Update::Merge { ours: a, theirs: b }));
}

#[test]
fn hex_of_ids() {
    assert_eq!(id(0).hex(), "0".repeat(40));
    assert_eq!(id(0xab).hex(), "ab".repeat(20));
    let mut b = [0u8; 20];
    for (i, x) in b.iter_mut().enumerate() {
        *x = (i as u8) * 13;
    }
    assert_eq!(
        ObjectId::from_bytes(b).hex(),
        "000d1a2734414e5b6875828f9ca9b6c3d0ddeaf7"
    );
}

#[test]
fn messages_name_both_commits() {
    let (a, b) = (id(0x01), id(0xfe));
    assert_eq!(
        fast_forward_message("refs/heads/main", b),
        format!("Fast-Forward: Setting refs/heads/main to id: {}", "fe".repeat(20))
    );
    assert_eq!(
        create_branch_message("main", a),
        format!("Setting main to {}", "01".repeat(20))
    );
    assert_eq!(
        merge_message(a, b),
        format!("Merge: {} into {}", "fe".repeat(20), "01".repeat(20))
    );
}

#[test]
fn branch_reference_names() {
    assert_eq!(branch_ref_name(BRANCH_NAME), "refs/heads/main");
    assert_eq!(branch_ref_name(""), "refs/heads/");
}
