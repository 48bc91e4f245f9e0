//! Job records and their lifecycle state machine.
//!
//! A job is one build attempt for one package. Its state advances only
//! through guarded transitions: every transition carries an
//! optimistic-concurrency token that must equal the job's current
//! `sync_count`, raises that counter by exactly one, stamps the update time,
//! and clears the dispatch-layer reconciliation flag.

use crate::error::Error;
use vstd::prelude::*;

verus! {

/// The lifecycle states of a job. `Pending` is initial; `Complete`,
/// `JobFailed`, `DependencyFailed`, `CancelComplete` and `Rejected` are
/// terminal.
#[derive(Clone, Copy, PartialEq, Eq, Structural, Debug)]
pub enum JobState {
    Pending,
    Dispatched,
    Processing,
    Complete,
    JobFailed,
    DependencyFailed,
    CancelPending,
    CancelComplete,
    Rejected,
}

/// A state no transition leaves.
pub open spec fn is_terminal(s: JobState) -> bool {
    match s {
        JobState::Complete => true,
        JobState::JobFailed => true,
        JobState::DependencyFailed => true,
        JobState::CancelComplete => true,
        JobState::Rejected => true,
        _ => false,
    }
}

/// One build attempt for one package, as persisted in the `jobs` table.
#[derive(Clone, Debug)]
pub struct Job {
    pub id: i64,
    pub owner_id: i64,
    pub job_state: JobState,
    pub project_id: i64,
    pub project_name: String,
    pub project_owner_id: i64,
    pub project_plan_path: String,
    pub vcs: String,
    pub vcs_arguments: String,
    pub net_error_code: i32,
    pub net_error_msg: String,
    pub scheduler_sync: bool,
    pub created_at: Option<i64>,
    pub updated_at: Option<i64>,
    pub build_started_at: Option<i64>,
    pub build_finished_at: Option<i64>,
    pub package_ident: String,
    pub archived: bool,
    pub channel: String,
    pub sync_count: i32,
    pub worker: String,
}

impl Job {
    /// Well-formedness of a job record: the finish timestamp is set exactly
    /// on terminal states, a worker is bound only while the job is
    /// dispatched or processing, and the concurrency counter never runs
    /// backwards past its initial value.
    pub open spec fn wf(self) -> bool {
        &&& (self.build_finished_at is Some <==> is_terminal(self.job_state))
        &&& (self.worker@.len() > 0 ==> self.job_state == JobState::Dispatched
            || self.job_state == JobState::Processing)
        &&& self.sync_count >= 0
    }
}

/// The transition requests a job can receive: assignment to a worker,
/// worker acknowledgements, operator cancellation, plan rejection, and the
/// short-circuit when a dependency's build fails.
pub enum JobEvent {
    Dispatch { worker: String },
    Start,
    Succeed { package_ident: String, channel: String },
    Fail { code: i32, msg: String },
    Cancel,
    CancelAck,
    Reject,
    DependencyFail,
}

/// The state each event moves a job into.
pub open spec fn target_state(e: JobEvent) -> JobState {
    match e {
        JobEvent::Dispatch { .. } => JobState::Dispatched,
        JobEvent::Start => JobState::Processing,
        JobEvent::Succeed { .. } => JobState::Complete,
        JobEvent::Fail { .. } => JobState::JobFailed,
        JobEvent::Cancel => JobState::CancelPending,
        JobEvent::CancelAck => JobState::CancelComplete,
        JobEvent::Reject => JobState::Rejected,
        JobEvent::DependencyFail => JobState::DependencyFailed,
    }
}

/// The transition relation. Worker reports of success or failure are
/// accepted from `Dispatched` as well as `Processing`, since a report may
/// overtake the start acknowledgement; cancellation is available from any
/// active state; a dependency failure short-circuits a job that has not
/// started building.
pub open spec fn event_allowed(s: JobState, e: JobEvent) -> bool {
    match e {
        JobEvent::Dispatch { .. } => s == JobState::Pending,
        JobEvent::Start => s == JobState::Dispatched,
        JobEvent::Succeed { .. } => s == JobState::Dispatched || s == JobState::Processing,
        JobEvent::Fail { .. } => s == JobState::Dispatched || s == JobState::Processing,
        JobEvent::Cancel => s == JobState::Pending || s == JobState::Dispatched
            || s == JobState::Processing,
        JobEvent::CancelAck => s == JobState::CancelPending,
        JobEvent::Reject => s == JobState::Pending,
        JobEvent::DependencyFail => s == JobState::Pending || s == JobState::Dispatched,
    }
}

/// What one applied transition does to a job record: the state moves to the
/// event's target, the concurrency counter rises by exactly one, the update
/// time is stamped, the reconciliation flag is cleared, the fields the
/// event speaks of are written, and everything else is kept.
pub open spec fn transitioned(j: Job, e: JobEvent, now: i64, j2: Job) -> bool {
    &&& j2.job_state == target_state(e)
    &&& j2.sync_count == j.sync_count + 1
    &&& j2.updated_at == Some(now)
    &&& j2.scheduler_sync == false
    &&& j2.id == j.id
    &&& j2.owner_id == j.owner_id
    &&& j2.project_id == j.project_id
    &&& j2.project_name@ == j.project_name@
    &&& j2.project_owner_id == j.project_owner_id
    &&& j2.project_plan_path@ == j.project_plan_path@
    &&& j2.vcs@ == j.vcs@
    &&& j2.vcs_arguments@ == j.vcs_arguments@
    &&& j2.created_at == j.created_at
    &&& j2.archived == j.archived
    &&& j2.worker@ == (match e {
        JobEvent::Dispatch { worker } => worker@,
        JobEvent::Start => j.worker@,
        _ => Seq::<char>::empty(),
    })
    &&& j2.build_started_at == (match e {
        JobEvent::Start => Some(now),
        _ => j.build_started_at,
    })
    &&& j2.build_finished_at == (if is_terminal(target_state(e)) {
        Some(now)
    } else {
        j.build_finished_at
    })
    &&& j2.net_error_code == (match e {
        JobEvent::Dispatch { .. } => 0i32,
        JobEvent::Fail { code, .. } => code,
        _ => j.net_error_code,
    })
    &&& j2.net_error_msg@ == (match e {
        JobEvent::Dispatch { .. } => Seq::<char>::empty(),
        JobEvent::Fail { msg, .. } => msg@,
        _ => j.net_error_msg@,
    })
    &&& j2.package_ident@ == (match e {
        JobEvent::Succeed { package_ident, .. } => package_ident@,
        _ => j.package_ident@,
    })
    &&& j2.channel@ == (match e {
        JobEvent::Succeed { channel, .. } => channel@,
        _ => j.channel@,
    })
}

impl Job {
    /// Applies an already-admitted transition in place.
    fn apply_event(&mut self, e: JobEvent, now: i64)
        requires
            old(self).wf(),
            event_allowed(old(self).job_state, e),
            old(self).sync_count < i32::MAX,
        ensures
            transitioned(*old(self), e, now, *final(self)),
            final(self).wf(),
    {
        match e {
            JobEvent::Dispatch { worker } => {
                self.worker = worker;
                self.net_error_code = 0;
                self.net_error_msg = String::new();
                self.job_state = JobState::Dispatched;
            },
            JobEvent::Start => {
                self.build_started_at = Some(now);
                self.job_state = JobState::Processing;
            },
            JobEvent::Succeed { package_ident, channel } => {
                self.package_ident = package_ident;
                self.channel = channel;
                self.worker = String::new();
                self.build_finished_at = Some(now);
                self.job_state = JobState::Complete;
            },
            JobEvent::Fail { code, msg } => {
                self.net_error_code = code;
                self.net_error_msg = msg;
                self.worker = String::new();
                self.build_finished_at = Some(now);
                self.job_state = JobState::JobFailed;
            },
            JobEvent::Cancel => {
                self.worker = String::new();
                self.job_state = JobState::CancelPending;
            },
            JobEvent::CancelAck => {
                self.worker = String::new();
                self.build_finished_at = Some(now);
                self.job_state = JobState::CancelComplete;
            },
            JobEvent::Reject => {
                self.worker = String::new();
                self.build_finished_at = Some(now);
                self.job_state = JobState::Rejected;
            },
            JobEvent::DependencyFail => {
                self.worker = String::new();
                self.build_finished_at = Some(now);
                self.job_state = JobState::DependencyFailed;
            },
        }
        self.sync_count = self.sync_count + 1;
        self.updated_at = Some(now);
        self.scheduler_sync = false;
    }
}

/// The state the event moves a job into, decided executably.
pub fn target_of(e: &JobEvent) -> (r: JobState)
    ensures
        r == target_state(*e),
{
    match e {
        JobEvent::Dispatch { .. } => JobState::Dispatched,
        JobEvent::Start => JobState::Processing,
        JobEvent::Succeed { .. } => JobState::Complete,
        JobEvent::Fail { .. } => JobState::JobFailed,
        JobEvent::Cancel => JobState::CancelPending,
        JobEvent::CancelAck => JobState::CancelComplete,
        JobEvent::Reject => JobState::Rejected,
        JobEvent::DependencyFail => JobState::DependencyFailed,
    }
}

/// Whether the state is terminal, decided executably.
pub fn terminal_state(s: JobState) -> (r: bool)
    ensures
        r == is_terminal(s),
{
    match s {
        JobState::Complete => true,
        JobState::JobFailed => true,
        JobState::DependencyFailed => true,
        JobState::CancelComplete => true,
        JobState::Rejected => true,
        _ => false,
    }
}

/// Whether the event is admitted from the state, decided executably.
fn allows(s: JobState, e: &JobEvent) -> (r: bool)
    ensures
        r == event_allowed(s, *e),
{
    match e {
        JobEvent::Dispatch { .. } => s == JobState::Pending,
        JobEvent::Start => s == JobState::Dispatched,
        JobEvent::Succeed { .. } => s == JobState::Dispatched || s == JobState::Processing,
        JobEvent::Fail { .. } => s == JobState::Dispatched || s == JobState::Processing,
        JobEvent::Cancel => s == JobState::Pending || s == JobState::Dispatched
            || s == JobState::Processing,
        JobEvent::CancelAck => s == JobState::CancelPending,
        JobEvent::Reject => s == JobState::Pending,
        JobEvent::DependencyFail => s == JobState::Pending || s == JobState::Dispatched,
    }
}

/// Whether some record in the sequence carries the identity.
pub open spec fn has_job(s: Seq<Job>, id: i64) -> bool {
    exists|i: int| 0 <= i < s.len() && (#[trigger] s[i]).id == id
}

/// The position of the record carrying the identity; meaningful only where
/// `has_job` holds and the identities are unique.
pub open spec fn job_index(s: Seq<Job>, id: i64) -> int {
    choose|i: int| 0 <= i < s.len() && (#[trigger] s[i]).id == id
}

/// Pairwise distinct job identities.
pub open spec fn unique_ids(s: Seq<Job>) -> bool {
    forall|i: int, k: int|
        0 <= i < k < s.len() ==> #[trigger] s[i].id != #[trigger] s[k].id
}

/// Whether a transition request is accepted against the given records: the
/// job exists, the token equals its current counter, the counter can still
/// rise, and the event is admitted from its state.
pub open spec fn update_accepted(s: Seq<Job>, id: i64, token: i32, e: JobEvent) -> bool {
    &&& has_job(s, id)
    &&& s[job_index(s, id)].sync_count == token
    &&& token < i32::MAX
    &&& event_allowed(s[job_index(s, id)].job_state, e)
}

/// A freshly created job: `Pending`, counter at zero, unassigned,
/// unreconciled, with both lifecycle timestamps at the creation instant.
pub open spec fn fresh_job(
    j: Job,
    id: i64,
    owner_id: i64,
    project_id: i64,
    project_name: Seq<char>,
    project_owner_id: i64,
    project_plan_path: Seq<char>,
    vcs: Seq<char>,
    vcs_arguments: Seq<char>,
    channel: Seq<char>,
    now: i64,
) -> bool {
    &&& j.id == id
    &&& j.owner_id == owner_id
    &&& j.job_state == JobState::Pending
    &&& j.project_id == project_id
    &&& j.project_name@ == project_name
    &&& j.project_owner_id == project_owner_id
    &&& j.project_plan_path@ == project_plan_path
    &&& j.vcs@ == vcs
    &&& j.vcs_arguments@ == vcs_arguments
    &&& j.net_error_code == 0
    &&& j.net_error_msg@ == Seq::<char>::empty()
    &&& j.scheduler_sync == false
    &&& j.created_at == Some(now)
    &&& j.updated_at == Some(now)
    &&& j.build_started_at is None
    &&& j.build_finished_at is None
    &&& j.package_ident@ == Seq::<char>::empty()
    &&& j.archived == false
    &&& j.channel@ == channel
    &&& j.sync_count == 0
    &&& j.worker@ == Seq::<char>::empty()
}

/// The owner of all job records. Identities are unique and assigned
/// monotonically.
pub struct JobStore {
    pub next_id: i64,
    pub jobs: Vec<Job>,
}

impl JobStore {
    /// Well-formedness of the store: unique, monotonically assigned
    /// identities and well-formed records.
    pub open spec fn wf(self) -> bool {
        &&& 1 <= self.next_id
        &&& unique_ids(self.jobs@)
        &&& forall|i: int| 0 <= i < self.jobs@.len() ==> (#[trigger] self.jobs@[i]).wf()
        &&& forall|i: int|
            0 <= i < self.jobs@.len() ==> 0 < (#[trigger] self.jobs@[i]).id < self.next_id
    }

    /// An empty store.
    pub fn new() -> (r: JobStore)
        ensures
            r.wf(),
            r.jobs@.len() == 0,
            r.next_id == 1,
    {
        JobStore { next_id: 1, jobs: Vec::new() }
    }

    /// The record carrying the identity, if any.
    pub fn get_job(&self, id: i64) -> (r: Option<&Job>)
        requires
            self.wf(),
        ensures
            match r {
                Some(j) => has_job(self.jobs@, id) && *j == self.jobs@[job_index(self.jobs@, id)],
                None => !has_job(self.jobs@, id),
            },
    {
        match find_index(&self.jobs, id) {
            Some(i) => {
                let j = &self.jobs[i];
                proof {
                    lemma_index_unique(self.jobs@, id, i as int);
                }
                Some(j)
            },
            None => None,
        }
    }

    /// Creates a job in the initial state: `Pending`, counter at zero,
    /// unassigned, unreconciled, timestamps set to the creation instant.
    /// Fails only when the identity space is exhausted.
    pub fn create_job(
        &mut self,
        owner_id: i64,
        project_id: i64,
        project_name: String,
        project_owner_id: i64,
        project_plan_path: String,
        vcs: String,
        vcs_arguments: String,
        channel: String,
        now: i64,
    ) -> (r: Result<i64, Error>)
        requires
            old(self).wf(),
        ensures
            final(self).wf(),
            old(self).next_id == i64::MAX ==> (r matches Err(e) && e matches Error::System(_)
                && *final(self) == *old(self)),
            old(self).next_id < i64::MAX ==> {
                &&& r == Result::<i64, Error>::Ok(old(self).next_id)
                &&& final(self).next_id == old(self).next_id + 1
                &&& final(self).jobs@.len() == old(self).jobs@.len() + 1
                &&& final(self).jobs@ == old(self).jobs@.push(
                    final(self).jobs@[old(self).jobs@.len() as int],
                )
                &&& fresh_job(
                    final(self).jobs@[old(self).jobs@.len() as int],
                    old(self).next_id,
                    owner_id,
                    project_id,
                    project_name@,
                    project_owner_id,
                    project_plan_path@,
                    vcs@,
                    vcs_arguments@,
                    channel@,
                    now,
                )
            },
    {
        if self.next_id == i64::MAX {
            return Err(Error::System("job identity space exhausted".to_owned()));
        }
        let id = self.next_id;
        let job = Job {
            id,
            owner_id,
            job_state: JobState::Pending,
            project_id,
            project_name,
            project_owner_id,
            project_plan_path,
            vcs,
            vcs_arguments,
            net_error_code: 0,
            net_error_msg: String::new(),
            scheduler_sync: false,
            created_at: Some(now),
            updated_at: Some(now),
            build_started_at: None,
            build_finished_at: None,
            package_ident: String::new(),
            archived: false,
            channel,
            sync_count: 0,
            worker: String::new(),
        };
        self.jobs.push(job);
        self.next_id = self.next_id + 1;
        Ok(id)
    }

    /// One guarded, transaction-scoped transition: the conditional update
    /// is applied only where the token equals the job's current counter and
    /// the event is admitted from its state. A missing job is absent, a
    /// stale token or an inadmissible event is a conflict, and a record
    /// whose counter can no longer rise is an internal fault; nothing is
    /// changed on any failure.
    pub fn update_job(&mut self, id: i64, token: i32, e: JobEvent, now: i64) -> (r: Result<
        (),
        Error,
    >)
        requires
            old(self).wf(),
        ensures
            final(self).wf(),
            final(self).next_id == old(self).next_id,
            r is Ok <==> update_accepted(old(self).jobs@, id, token, e),
            r is Ok ==> {
                let i = job_index(old(self).jobs@, id);
                &&& final(self).jobs@ == old(self).jobs@.update(i, final(self).jobs@[i])
                &&& transitioned(old(self).jobs@[i], e, now, final(self).jobs@[i])
            },
            r is Err ==> *final(self) == *old(self),
            !has_job(old(self).jobs@, id) ==> r == Result::<(), Error>::Err(Error::NotFound),
            (has_job(old(self).jobs@, id) && {
                let j = old(self).jobs@[job_index(old(self).jobs@, id)];
                j.sync_count != token || !event_allowed(j.job_state, e)
            }) ==> r == Result::<(), Error>::Err(Error::Conflict),
            (has_job(old(self).jobs@, id) && {
                let j = old(self).jobs@[job_index(old(self).jobs@, id)];
                j.sync_count == token && token == i32::MAX && event_allowed(j.job_state, e)
            }) ==> (r matches Err(er) && er matches Error::System(_)),
    {
        let found = find_index(&self.jobs, id);
        match found {
            None => Err(Error::NotFound),
            Some(i) => {
                proof {
                    lemma_index_unique(self.jobs@, id, i as int);
                }
                let token_ok = self.jobs[i].sync_count == token;
                let admitted = allows(self.jobs[i].job_state, &e);
                if !token_ok || !admitted {
                    return Err(Error::Conflict);
                }
                if token == i32::MAX {
                    return Err(Error::System("transition counter exhausted".to_owned()));
                }
                let jm = &mut self.jobs[i];
                jm.apply_event(e, now);
                Ok(())
            },
        }
    }

    /// Records the dispatch layer's confirmation that the job's latest
    /// state change has been reconciled. Re-confirmation is a no-op, not an
    /// error; only a missing job is reported.
    pub fn confirm_sync(&mut self, id: i64) -> (r: Result<(), Error>)
        requires
            old(self).wf(),
        ensures
            final(self).wf(),
            final(self).next_id == old(self).next_id,
            !has_job(old(self).jobs@, id) ==> r == Result::<(), Error>::Err(Error::NotFound)
                && *final(self) == *old(self),
            has_job(old(self).jobs@, id) ==> {
                let i = job_index(old(self).jobs@, id);
                &&& r is Ok
                &&& final(self).jobs@ == old(self).jobs@.update(
                    i,
                    Job { scheduler_sync: true, ..old(self).jobs@[i] },
                )
            },
    {
        let found = find_index(&self.jobs, id);
        match found {
            None => Err(Error::NotFound),
            Some(i) => {
                proof {
                    lemma_index_unique(self.jobs@, id, i as int);
                }
                let jm = &mut self.jobs[i];
                jm.scheduler_sync = true;
                Ok(())
            },
        }
    }
}

/// The position of the record carrying the identity, searched linearly.
fn find_index(jobs: &Vec<Job>, id: i64) -> (r: Option<usize>)
    ensures
        match r {
            Some(i) => i < jobs@.len() && jobs@[i as int].id == id,
            None => !has_job(jobs@, id),
        },
{
    let mut i: usize = 0;
    while i < jobs.len()
        invariant
            i <= jobs@.len(),
            forall|k: int| 0 <= k < i ==> (#[trigger] jobs@[k]).id != id,
        decreases jobs@.len() - i,
    {
        if jobs[i].id == id {
            return Some(i);
        }
        i = i + 1;
    }
    None
}

/// Where identities are unique, any position holding the identity is the
/// position `job_index` names.
proof fn lemma_index_unique(s: Seq<Job>, id: i64, i: int)
    requires
        unique_ids(s),
        0 <= i < s.len(),
        s[i].id == id,
    ensures
        job_index(s, id) == i,
        has_job(s, id),
{
    assert(has_job(s, id));
    let k = job_index(s, id);
    if k != i {
        if k < i {
            assert(s[k].id != s[i].id);
        } else {
            assert(s[i].id != s[k].id);
        }
    }
}

/// Law: a terminal state admits no event at all, so a finished job can
/// never be dispatched, cancelled or reported on again.
pub proof fn lemma_terminal_states_are_final(s: JobState, e: JobEvent)
    requires
        is_terminal(s),
    ensures
        !event_allowed(s, e),
{
}

/// Law: a well-formed job's finish timestamp is set exactly when its state
/// is terminal.
pub proof fn lemma_finished_iff_terminal(j: Job)
    requires
        j.wf(),
    ensures
        j.build_finished_at is Some <==> is_terminal(j.job_state),
{
}

/// Law: every applied transition raises the concurrency counter by exactly
/// one and stamps the update time.
pub proof fn lemma_transition_counts(j: Job, e: JobEvent, now: i64, j2: Job)
    requires
        transitioned(j, e, now, j2),
    ensures
        j2.sync_count == j.sync_count + 1,
        j2.updated_at == Some(now),
{
}

/// Law: of two transition attempts carrying the same token, at most one is
/// accepted. Once the first is applied, the job's counter has moved past
/// the token, so the second attempt finds the token stale and resolves as a
/// conflict rather than silently overwriting.
pub proof fn lemma_stale_token_conflicts(
    s0: Seq<Job>,
    s1: Seq<Job>,
    id: i64,
    token: i32,
    e1: JobEvent,
    e2: JobEvent,
    now: i64,
    j2: Job,
)
    requires
        unique_ids(s0),
        update_accepted(s0, id, token, e1),
        s1 == s0.update(job_index(s0, id), j2),
        transitioned(s0[job_index(s0, id)], e1, now, j2),
    ensures
        has_job(s1, id),
        !update_accepted(s1, id, token, e2),
        s1[job_index(s1, id)].sync_count != token,
{
    let i = job_index(s0, id);
    assert(0 <= i < s0.len() && s0[i].id == id);
    assert(s1[i].id == id);
    assert(has_job(s1, id));
    assert(unique_ids(s1)) by {
        assert forall|p: int, q: int| 0 <= p < q < s1.len() implies #[trigger] s1[p].id
            != #[trigger] s1[q].id by {
            assert(s0[p].id != s0[q].id);
        }
    }
    lemma_index_unique(s1, id, i);
    assert(s1[i].sync_count == token + 1);
}

} // verus!
