use build_tracker::error::Error;
use build_tracker::workers::WorkerRegistry;

#[test]
fn mark_busy_twice_conflicts_and_keeps_exactly_one_row() {
    let mut reg = WorkerRegistry::new();
    assert!(reg.mark_busy(String::from("w1"), 7, 100).is_ok());
    let second = reg.mark_busy(String::from("w1"), 7, 101);
    assert_eq!(second, Err(Error::Conflict));
    let pairs: Vec<_> = reg
        .rows
        .iter()
        .filter(|r| r.ident == "w1" && r.job_id == 7)
        .collect();
    assert_eq!(pairs.len(), 1);
    assert_eq!(pairs[0].created_at, Some(100));
}

#[test]
fn same_worker_may_hold_several_jobs() {
    let mut reg = WorkerRegistry::new();
    assert!(reg.mark_busy(String::from("w1"), 7, 100).is_ok());
    assert!(reg.mark_busy(String::from("w1"), 8, 100).is_ok());
    assert_eq!(reg.busy_rows(&String::from("w1")), 2);
}

#[test]
fn mark_idle_releases_and_tolerates_duplicates() {
    let mut reg = WorkerRegistry::new();
    reg.mark_busy(String::from("w1"), 7, 100).unwrap();
    reg.mark_idle(&String::from("w1"), 7);
    assert_eq!(reg.busy_rows(&String::from("w1")), 0);
    // A duplicate completion signal is a no-op, not an error.
    reg.mark_idle(&String::from("w1"), 7);
    assert_eq!(reg.busy_rows(&String::from("w1")), 0);
    // The same pair can be bound again afterwards.
    assert!(reg.mark_busy(String::from("w1"), 7, 102).is_ok());
}

#[test]
fn quarantine_excludes_from_eligibility_regardless_of_prior_state() {
    // A worker that was never busy.
    let mut reg = WorkerRegistry::new();
    reg.quarantine(&String::from("w1"));
    assert!(!reg.is_eligible(&String::from("w1"), 10));

    // A worker currently busy.
    let mut reg = WorkerRegistry::new();
    reg.mark_busy(String::from("w2"), 7, 100).unwrap();
    reg.quarantine(&String::from("w2"));
    assert!(!reg.is_eligible(&String::from("w2"), 10));
    assert!(reg.rows[0].quarantined);

    // A worker that went busy and idle again.
    let mut reg = WorkerRegistry::new();
    reg.mark_busy(String::from("w3"), 7, 100).unwrap();
    reg.mark_idle(&String::from("w3"), 7);
    reg.quarantine(&String::from("w3"));
    assert!(!reg.is_eligible(&String::from("w3"), 10));
}

#[test]
fn rows_acquired_after_quarantine_are_born_flagged() {
    let mut reg = WorkerRegistry::new();
    reg.quarantine(&String::from("w1"));
    reg.mark_busy(String::from("w1"), 7, 100).unwrap();
    assert!(reg.rows[0].quarantined);
}

#[test]
fn quarantine_is_idempotent_and_worker_scoped() {
    let mut reg = WorkerRegistry::new();
    reg.mark_busy(String::from("w1"), 7, 100).unwrap();
    reg.mark_busy(String::from("w2"), 8, 100).unwrap();
    reg.quarantine(&String::from("w1"));
    reg.quarantine(&String::from("w1"));
    assert_eq!(reg.quarantined.len(), 1);
    assert!(!reg.is_eligible(&String::from("w1"), 10));
    assert!(reg.is_eligible(&String::from("w2"), 10));
    assert!(!reg.rows.iter().find(|r| r.ident == "w2").unwrap().quarantined);
}

#[test]
fn clearing_quarantine_restores_eligibility() {
    let mut reg = WorkerRegistry::new();
    reg.mark_busy(String::from("w1"), 7, 100).unwrap();
    reg.quarantine(&String::from("w1"));
    assert!(!reg.is_eligible(&String::from("w1"), 10));
    reg.clear_quarantine(&String::from("w1"));
    assert!(reg.is_eligible(&String::from("w1"), 10));
    assert!(!reg.rows[0].quarantined);
    // Clearing a worker with no standing is a no-op.
    reg.clear_quarantine(&String::from("w9"));
    assert!(reg.is_eligible(&String::from("w9"), 1));
}

#[test]
fn capacity_bounds_eligibility() {
    let mut reg = WorkerRegistry::new();
    assert!(reg.is_eligible(&String::from("w1"), 1));
    assert!(!reg.is_eligible(&String::from("w1"), 0));
    reg.mark_busy(String::from("w1"), 7, 100).unwrap();
    assert!(!reg.is_eligible(&String::from("w1"), 1));
    assert!(reg.is_eligible(&String::from("w1"), 2));
}
