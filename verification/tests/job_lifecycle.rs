use build_tracker::error::Error;
use build_tracker::jobs::{JobEvent, JobState, JobStore};

fn store_with_one_job(now: i64) -> (JobStore, i64) {
    let mut store = JobStore::new();
    let id = store
        .create_job(
            10,
            77,
            String::from("core/acme"),
            11,
            String::from("plans/plan.sh"),
            String::from("git"),
            String::from("https://example.invalid/acme.git"),
            String::from("stable"),
            now,
        )
        .unwrap();
    (store, id)
}

#[test]
fn created_job_is_pending_with_counter_at_zero() {
    let (store, id) = store_with_one_job(1000);
    let j = store.get_job(id).unwrap();
    assert_eq!(j.id, id);
    assert_eq!(j.job_state, JobState::Pending);
    assert_eq!(j.sync_count, 0);
    assert_eq!(j.worker, "");
    assert_eq!(j.created_at, Some(1000));
    assert_eq!(j.updated_at, Some(1000));
    assert_eq!(j.build_started_at, None);
    assert_eq!(j.build_finished_at, None);
    assert!(!j.scheduler_sync);
    assert!(!j.archived);
}

#[test]
fn each_transition_bumps_the_counter_and_stamps_the_time() {
    let (mut store, id) = store_with_one_job(1000);
    store
        .update_job(id, 0, JobEvent::Dispatch { worker: String::from("w1") }, 1001)
        .unwrap();
    let j = store.get_job(id).unwrap();
    assert_eq!(j.sync_count, 1);
    assert_eq!(j.updated_at, Some(1001));

    store.update_job(id, 1, JobEvent::Start, 1002).unwrap();
    let j = store.get_job(id).unwrap();
    assert_eq!(j.sync_count, 2);
    assert_eq!(j.updated_at, Some(1002));
    assert_eq!(j.job_state, JobState::Processing);
    assert_eq!(j.build_started_at, Some(1002));
}

#[test]
fn stale_token_resolves_as_exactly_one_success_and_one_conflict() {
    let (mut store, id) = store_with_one_job(1000);
    let first = store.update_job(id, 0, JobEvent::Dispatch { worker: String::from("w1") }, 1001);
    assert!(first.is_ok());
    // A concurrent attempt carrying the same, now stale, token.
    let second = store.update_job(id, 0, JobEvent::Cancel, 1001);
    assert_eq!(second, Err(Error::Conflict));
    let j = store.get_job(id).unwrap();
    assert_eq!(j.job_state, JobState::Dispatched);
    assert_eq!(j.sync_count, 1);
}

#[test]
fn finish_timestamp_is_set_exactly_on_terminal_states() {
    let (mut store, id) = store_with_one_job(1000);
    store
        .update_job(id, 0, JobEvent::Dispatch { worker: String::from("w1") }, 1001)
        .unwrap();
    assert_eq!(store.get_job(id).unwrap().build_finished_at, None);
    store.update_job(id, 1, JobEvent::Start, 1002).unwrap();
    assert_eq!(store.get_job(id).unwrap().build_finished_at, None);
    store
        .update_job(
            id,
            2,
            JobEvent::Succeed {
                package_ident: String::from("core/acme/1.0.0/20260101"),
                channel: String::from("stable"),
            },
            1003,
        )
        .unwrap();
    let j = store.get_job(id).unwrap();
    assert_eq!(j.job_state, JobState::Complete);
    assert_eq!(j.build_finished_at, Some(1003));
    assert_eq!(j.package_ident, "core/acme/1.0.0/20260101");
    assert_eq!(j.channel, "stable");
    assert_eq!(j.worker, "");
}

#[test]
fn failure_report_records_the_remote_error() {
    let (mut store, id) = store_with_one_job(1000);
    store
        .update_job(id, 0, JobEvent::Dispatch { worker: String::from("w1") }, 1001)
        .unwrap();
    store
        .update_job(
            id,
            1,
            JobEvent::Fail { code: 7, msg: String::from("compile failed") },
            1002,
        )
        .unwrap();
    let j = store.get_job(id).unwrap();
    assert_eq!(j.job_state, JobState::JobFailed);
    assert_eq!(j.net_error_code, 7);
    assert_eq!(j.net_error_msg, "compile failed");
    assert_eq!(j.build_finished_at, Some(1002));
}

#[test]
fn dispatch_clears_a_previous_remote_error() {
    let (mut store, id) = store_with_one_job(1000);
    store
        .update_job(id, 0, JobEvent::Dispatch { worker: String::from("w1") }, 1001)
        .unwrap();
    store
        .update_job(id, 1, JobEvent::Fail { code: 7, msg: String::from("boom") }, 1002)
        .unwrap();
    // A failed job is terminal; a fresh attempt is a fresh job. Check the
    // clearing on a job that goes back through dispatch instead.
    let (mut store2, id2) = store_with_one_job(2000);
    store2
        .update_job(id2, 0, JobEvent::Dispatch { worker: String::from("w2") }, 2001)
        .unwrap();
    let j = store2.get_job(id2).unwrap();
    assert_eq!(j.net_error_code, 0);
    assert_eq!(j.net_error_msg, "");
    let j_failed = store.get_job(id).unwrap();
    assert_eq!(j_failed.net_error_code, 7);
}

#[test]
fn inadmissible_event_is_a_conflict() {
    let (mut store, id) = store_with_one_job(1000);
    // A pending job has not started: no worker report is admitted.
    let r = store.update_job(id, 0, JobEvent::Start, 1001);
    assert_eq!(r, Err(Error::Conflict));
    let r = store.update_job(
        id,
        0,
        JobEvent::Succeed { package_ident: String::new(), channel: String::new() },
        1001,
    );
    assert_eq!(r, Err(Error::Conflict));
    assert_eq!(store.get_job(id).unwrap().sync_count, 0);
}

#[test]
fn missing_job_is_not_found() {
    let mut store = JobStore::new();
    let r = store.update_job(42, 0, JobEvent::Cancel, 1000);
    assert_eq!(r, Err(Error::NotFound));
    assert!(store.get_job(42).is_none());
}

#[test]
fn cancellation_is_cooperative() {
    let (mut store, id) = store_with_one_job(1000);
    store
        .update_job(id, 0, JobEvent::Dispatch { worker: String::from("w1") }, 1001)
        .unwrap();
    store.update_job(id, 1, JobEvent::Cancel, 1002).unwrap();
    let j = store.get_job(id).unwrap();
    assert_eq!(j.job_state, JobState::CancelPending);
    assert_eq!(j.build_finished_at, None);
    store.update_job(id, 2, JobEvent::CancelAck, 1003).unwrap();
    let j = store.get_job(id).unwrap();
    assert_eq!(j.job_state, JobState::CancelComplete);
    assert_eq!(j.build_finished_at, Some(1003));
}

#[test]
fn rejection_is_terminal_from_pending() {
    let (mut store, id) = store_with_one_job(1000);
    store.update_job(id, 0, JobEvent::Reject, 1001).unwrap();
    let j = store.get_job(id).unwrap();
    assert_eq!(j.job_state, JobState::Rejected);
    assert_eq!(j.build_finished_at, Some(1001));
    // Terminal: nothing more is admitted.
    let r = store.update_job(id, 1, JobEvent::Cancel, 1002);
    assert_eq!(r, Err(Error::Conflict));
}

#[test]
fn dependency_failure_short_circuits_scheduling() {
    let (mut store, id) = store_with_one_job(1000);
    store.update_job(id, 0, JobEvent::DependencyFail, 1001).unwrap();
    let j = store.get_job(id).unwrap();
    assert_eq!(j.job_state, JobState::DependencyFailed);
    assert_eq!(j.build_finished_at, Some(1001));
}

#[test]
fn transitions_clear_the_reconciliation_flag_and_confirmation_restores_it() {
    let (mut store, id) = store_with_one_job(1000);
    store.confirm_sync(id).unwrap();
    assert!(store.get_job(id).unwrap().scheduler_sync);
    store
        .update_job(id, 0, JobEvent::Dispatch { worker: String::from("w1") }, 1001)
        .unwrap();
    assert!(!store.get_job(id).unwrap().scheduler_sync);
    store.confirm_sync(id).unwrap();
    assert!(store.get_job(id).unwrap().scheduler_sync);
    // Re-confirmation is a no-op, not an error.
    store.confirm_sync(id).unwrap();
    assert!(store.get_job(id).unwrap().scheduler_sync);
    assert_eq!(store.confirm_sync(999), Err(Error::NotFound));
}

#[test]
fn exhausted_identity_space_is_a_system_fault() {
    let mut store = JobStore::new();
    store.next_id = i64::MAX;
    let r = store.create_job(
        1,
        1,
        String::from("core/a"),
        1,
        String::from("p"),
        String::from("git"),
        String::from("u"),
        String::from("stable"),
        1,
    );
    assert!(matches!(r, Err(Error::System(_))));
    assert_eq!(store.jobs.len(), 0);
}

#[test]
fn exhausted_transition_counter_is_a_system_fault() {
    let (mut store, id) = store_with_one_job(1000);
    store.jobs[0].sync_count = i32::MAX;
    let r = store.update_job(id, i32::MAX, JobEvent::Cancel, 1001);
    assert!(matches!(r, Err(Error::System(_))));
    assert_eq!(store.jobs[0].job_state, JobState::Pending);
}

#[test]
fn job_identities_are_monotonic() {
    let mut store = JobStore::new();
    let a = store
        .create_job(
            1,
            1,
            String::from("core/a"),
            1,
            String::from("p"),
            String::from("git"),
            String::from("u"),
            String::from("stable"),
            1,
        )
        .unwrap();
    let b = store
        .create_job(
            1,
            2,
            String::from("core/b"),
            1,
            String::from("p"),
            String::from("git"),
            String::from("u"),
            String::from("stable"),
            2,
        )
        .unwrap();
    assert!(b > a);
}
