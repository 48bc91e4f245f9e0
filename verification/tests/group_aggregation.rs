use build_tracker::error::Error;
use build_tracker::groups::{compute_group_state, GroupState, GroupStore, ProjectState};

#[test]
fn all_members_succeeded_means_complete() {
    let ms = vec![ProjectState::Success, ProjectState::Success];
    assert_eq!(compute_group_state(&ms), GroupState::Complete);
}

#[test]
fn one_failure_fails_fast_whatever_the_rest_does() {
    let ms = vec![
        ProjectState::Failure,
        ProjectState::InProgress,
        ProjectState::NotStarted,
        ProjectState::Success,
    ];
    assert_eq!(compute_group_state(&ms), GroupState::Failed);
}

#[test]
fn unfinished_members_mean_in_progress() {
    let ms = vec![ProjectState::Success, ProjectState::NotStarted];
    assert_eq!(compute_group_state(&ms), GroupState::InProgress);
    let ms = vec![ProjectState::InProgress];
    assert_eq!(compute_group_state(&ms), GroupState::InProgress);
}

#[test]
fn empty_member_set_is_vacuously_complete() {
    let ms: Vec<ProjectState> = vec![];
    assert_eq!(compute_group_state(&ms), GroupState::Complete);
}

fn group_with_two_members() -> (GroupStore, i64) {
    let mut store = GroupStore::new();
    let gid = store.create_group(String::from("core/acme"), 100).unwrap();
    store
        .add_project(gid, String::from("core/acme"), String::from("core/acme"), 1, 100)
        .unwrap();
    store
        .add_project(gid, String::from("core/dep"), String::from("core/dep"), 2, 100)
        .unwrap();
    (store, gid)
}

#[test]
fn recomputation_is_idempotent_on_an_unchanged_member_set() {
    let (mut store, gid) = group_with_two_members();
    store
        .set_project_state_for_job(1, ProjectState::Success, 101)
        .unwrap();
    let first = store.recompute_group(gid, 102).unwrap();
    let second = store.recompute_group(gid, 103).unwrap();
    assert_eq!(first, second);
    assert_eq!(first, GroupState::InProgress);
    assert_eq!(store.get_group(gid).unwrap().group_state, first);
}

#[test]
fn one_failed_job_fails_the_group_while_the_other_still_runs() {
    let (mut store, gid) = group_with_two_members();
    store
        .set_project_state_for_job(2, ProjectState::InProgress, 101)
        .unwrap();
    store
        .set_project_state_for_job(1, ProjectState::Failure, 102)
        .unwrap();
    let st = store.recompute_group(gid, 103).unwrap();
    assert_eq!(st, GroupState::Failed);
    assert_eq!(store.get_group(gid).unwrap().group_state, GroupState::Failed);
}

#[test]
fn group_completes_when_every_member_succeeds() {
    let (mut store, gid) = group_with_two_members();
    store
        .set_project_state_for_job(1, ProjectState::Success, 101)
        .unwrap();
    store
        .set_project_state_for_job(2, ProjectState::Success, 102)
        .unwrap();
    assert_eq!(store.recompute_group(gid, 103).unwrap(), GroupState::Complete);
}

#[test]
fn membership_constraints_are_enforced() {
    let mut store = GroupStore::new();
    let gid = store.create_group(String::from("core/acme"), 100).unwrap();
    assert_eq!(
        store.add_project(999, String::from("p"), String::from("p"), 1, 100),
        Err(Error::NotFound)
    );
    store
        .add_project(gid, String::from("core/acme"), String::from("core/acme"), 1, 100)
        .unwrap();
    // One membership per (group, project) pair.
    assert_eq!(
        store.add_project(gid, String::from("core/acme"), String::from("core/acme"), 5, 100),
        Err(Error::Conflict)
    );
    // One membership per linked job.
    assert_eq!(
        store.add_project(gid, String::from("core/other"), String::from("core/other"), 1, 100),
        Err(Error::Conflict)
    );
}

#[test]
fn recompute_of_a_missing_group_is_not_found() {
    let mut store = GroupStore::new();
    assert_eq!(store.recompute_group(1, 100), Err(Error::NotFound));
    assert_eq!(
        store.set_project_state_for_job(1, ProjectState::Success, 100),
        Err(Error::NotFound)
    );
}
