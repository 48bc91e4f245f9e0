//! The single entry point request handlers use.
//!
//! The facade composes the job store, the group store and the worker
//! registry: it submits jobs, dispatches them to eligible workers, records
//! worker-reported and operator-initiated transitions, and recomputes the
//! owning group's derived state after every transition that touches a
//! membership's linked job. Every operation is one short, bounded,
//! transaction-scoped update; nothing here blocks on the workers.

use crate::error::Error;
use crate::groups::derived_group_state;
use crate::groups::group_index;
use crate::groups::has_member_job;
use crate::groups::member_job_index;
use crate::groups::member_states;
use crate::groups::project_state_of;
use crate::groups::spec_project_state_of;
use crate::groups::Group;
use crate::groups::GroupProject;
use crate::groups::GroupStore;
use crate::jobs::event_allowed;
use crate::jobs::fresh_job;
use crate::jobs::has_job;
use crate::jobs::is_terminal;
use crate::jobs::job_index;
use crate::jobs::target_of;
use crate::jobs::target_state;
use crate::jobs::terminal_state;
use crate::jobs::transitioned;
use crate::jobs::update_accepted;
use crate::jobs::JobEvent;
use crate::jobs::JobState;
use crate::jobs::JobStore;
use crate::workers::has_pair;
use crate::workers::lemma_pair_index_unique;
use crate::workers::pair_index;
use crate::workers::spec_eligible;
use crate::workers::WorkerRegistry;
use vstd::prelude::*;

verus! {

/// The composed bookkeeping state behind the API boundary.
pub struct OrchestrationFacade {
    pub jobs: JobStore,
    pub groups: GroupStore,
    pub registry: WorkerRegistry,
}

/// The two facade states hold the same records; used to state that a failed
/// operation changed nothing observable.
pub open spec fn observably_same(a: OrchestrationFacade, b: OrchestrationFacade) -> bool {
    &&& a.jobs.jobs@ == b.jobs.jobs@
    &&& a.jobs.next_id == b.jobs.next_id
    &&& a.groups.groups@ == b.groups.groups@
    &&& a.groups.projects@ == b.groups.projects@
    &&& a.groups.next_id == b.groups.next_id
    &&& a.registry.rows@ == b.registry.rows@
    &&& a.registry.quarantined@ == b.registry.quarantined@
}

impl OrchestrationFacade {
    /// Well-formedness of the composed state.
    pub open spec fn wf(self) -> bool {
        self.jobs.wf() && self.groups.wf() && self.registry.wf()
    }

    /// An empty facade.
    pub fn new() -> (r: OrchestrationFacade)
        ensures
            r.wf(),
            r.jobs.jobs@.len() == 0,
            r.groups.groups@.len() == 0,
            r.groups.projects@.len() == 0,
            r.registry.rows@.len() == 0,
            r.registry.quarantined@.len() == 0,
    {
        OrchestrationFacade {
            jobs: JobStore::new(),
            groups: GroupStore::new(),
            registry: WorkerRegistry::new(),
        }
    }

    /// Submits one build attempt: the job is created pending, unassigned,
    /// unreconciled, with its concurrency counter at zero.
    pub fn submit_job(
        &mut self,
        owner_id: i64,
        project_id: i64,
        project_name: String,
        project_owner_id: i64,
        project_plan_path: String,
        vcs: String,
        vcs_arguments: String,
        channel: String,
        now: i64,
    ) -> (r: Result<i64, Error>)
        requires
            old(self).wf(),
        ensures
            final(self).wf(),
            final(self).groups == old(self).groups,
            final(self).registry == old(self).registry,
            old(self).jobs.next_id == i64::MAX ==> (r matches Err(e) && e matches Error::System(
                _,
            ) && observably_same(*final(self), *old(self))),
            old(self).jobs.next_id < i64::MAX ==> {
                &&& r == Result::<i64, Error>::Ok(old(self).jobs.next_id)
                &&& final(self).jobs.next_id == old(self).jobs.next_id + 1
                &&& final(self).jobs.jobs@ == old(self).jobs.jobs@.push(
                    final(self).jobs.jobs@.last(),
                )
                &&& fresh_job(
                    final(self).jobs.jobs@.last(),
                    old(self).jobs.next_id,
                    owner_id,
                    project_id,
                    project_name@,
                    project_owner_id,
                    project_plan_path@,
                    vcs@,
                    vcs_arguments@,
                    channel@,
                    now,
                )
            },
    {
        self.jobs.create_job(
            owner_id,
            project_id,
            project_name,
            project_owner_id,
            project_plan_path,
            vcs,
            vcs_arguments,
            channel,
            now,
        )
    }

    /// Dispatches a pending job to a worker. The worker must be eligible
    /// under the supplied capacity; it is bound to the job and the job moves
    /// to `Dispatched` under the concurrency token, its worker set and its
    /// remote-error fields cleared. An ineligible worker is semantically
    /// invalid; a binding already present, a stale token or an inadmissible
    /// state is a conflict. On any failure nothing observable is changed: a
    /// binding made ahead of a refused transition is released again.
    pub fn dispatch_job(
        &mut self,
        job_id: i64,
        worker: String,
        token: i32,
        capacity: usize,
        now: i64,
    ) -> (r: Result<(), Error>)
        requires
            old(self).wf(),
        ensures
            final(self).wf(),
            final(self).groups == old(self).groups,
            final(self).registry.quarantined@ == old(self).registry.quarantined@,
            r is Err ==> observably_same(*final(self), *old(self)),
            !spec_eligible(
                old(self).registry.rows@,
                old(self).registry.quarantined@,
                worker@,
                capacity,
            ) ==> r == Result::<(), Error>::Err(Error::Unprocessable),
            (spec_eligible(
                old(self).registry.rows@,
                old(self).registry.quarantined@,
                worker@,
                capacity,
            ) && has_pair(old(self).registry.rows@, worker@, job_id)) ==> r == Result::<
                (),
                Error,
            >::Err(Error::Conflict),
            (spec_eligible(
                old(self).registry.rows@,
                old(self).registry.quarantined@,
                worker@,
                capacity,
            ) && !has_pair(old(self).registry.rows@, worker@, job_id) && !has_job(
                old(self).jobs.jobs@,
                job_id,
            )) ==> r == Result::<(), Error>::Err(Error::NotFound),
            (spec_eligible(
                old(self).registry.rows@,
                old(self).registry.quarantined@,
                worker@,
                capacity,
            ) && !has_pair(old(self).registry.rows@, worker@, job_id) && has_job(
                old(self).jobs.jobs@,
                job_id,
            ) && {
                let j = old(self).jobs.jobs@[job_index(old(self).jobs.jobs@, job_id)];
                j.sync_count != token || !event_allowed(
                    j.job_state,
                    JobEvent::Dispatch { worker },
                )
            }) ==> r == Result::<(), Error>::Err(Error::Conflict),
            r is Ok <==> (spec_eligible(
                old(self).registry.rows@,
                old(self).registry.quarantined@,
                worker@,
                capacity,
            ) && !has_pair(old(self).registry.rows@, worker@, job_id) && update_accepted(
                old(self).jobs.jobs@,
                job_id,
                token,
                JobEvent::Dispatch { worker },
            )),
            r is Ok ==> {
                let ji = job_index(old(self).jobs.jobs@, job_id);
                &&& final(self).jobs.jobs@ == old(self).jobs.jobs@.update(
                    ji,
                    final(self).jobs.jobs@[ji],
                )
                &&& transitioned(
                    old(self).jobs.jobs@[ji],
                    JobEvent::Dispatch { worker },
                    now,
                    final(self).jobs.jobs@[ji],
                )
                &&& final(self).jobs.next_id == old(self).jobs.next_id
                &&& final(self).registry.rows@ == old(self).registry.rows@.push(
                    final(self).registry.rows@.last(),
                )
                &&& final(self).registry.rows@.last().ident@ == worker@
                &&& final(self).registry.rows@.last().job_id == job_id
                &&& final(self).registry.rows@.last().quarantined == false
            },
    {
        if !self.registry.is_eligible(&worker, capacity) {
            return Err(Error::Unprocessable);
        }
        let ghost rows0 = self.registry.rows@;
        match self.registry.mark_busy(worker.clone(), job_id, now) {
            Err(e) => Err(e),
            Ok(()) => {
                match self.jobs.update_job(
                    job_id,
                    token,
                    JobEvent::Dispatch { worker: worker.clone() },
                    now,
                ) {
                    Ok(()) => Ok(()),
                    Err(e) => {
                        proof {
                            lemma_pair_index_unique(
                                self.registry.rows@,
                                worker@,
                                job_id,
                                rows0.len() as int,
                            );
                        }
                        self.registry.mark_idle(&worker, job_id);
                        proof {
                            assert(self.registry.rows@ =~= rows0);
                        }
                        Err(e)
                    },
                }
            },
        }
    }

    /// Records a worker-reported or operator-initiated transition. The job
    /// moves under the concurrency token; on entering a terminal state its
    /// worker binding is released; where the job is linked to a group
    /// membership, the membership's summary is rewritten from the job's new
    /// state and the owning group's state is recomputed from the new member
    /// snapshot. Dispatching goes through `dispatch_job` instead, so that
    /// eligibility is checked and the binding made.
    pub fn report_job_event(&mut self, job_id: i64, token: i32, e: JobEvent, now: i64) -> (r:
        Result<JobState, Error>)
        requires
            old(self).wf(),
            !(e matches JobEvent::Dispatch { .. }),
        ensures
            final(self).wf(),
            final(self).registry.quarantined@ == old(self).registry.quarantined@,
            r is Err ==> observably_same(*final(self), *old(self)),
            !has_job(old(self).jobs.jobs@, job_id) ==> r == Result::<JobState, Error>::Err(
                Error::NotFound,
            ),
            (has_job(old(self).jobs.jobs@, job_id) && {
                let j = old(self).jobs.jobs@[job_index(old(self).jobs.jobs@, job_id)];
                j.sync_count != token || !event_allowed(j.job_state, e)
            }) ==> r == Result::<JobState, Error>::Err(Error::Conflict),
            r is Ok <==> update_accepted(old(self).jobs.jobs@, job_id, token, e),
            r is Ok ==> {
                let ji = job_index(old(self).jobs.jobs@, job_id);
                let j0 = old(self).jobs.jobs@[ji];
                &&& r == Result::<JobState, Error>::Ok(target_state(e))
                &&& final(self).jobs.jobs@ == old(self).jobs.jobs@.update(
                    ji,
                    final(self).jobs.jobs@[ji],
                )
                &&& transitioned(j0, e, now, final(self).jobs.jobs@[ji])
                &&& final(self).jobs.next_id == old(self).jobs.next_id
                &&& ((is_terminal(target_state(e)) && has_pair(
                    old(self).registry.rows@,
                    j0.worker@,
                    job_id,
                )) ==> final(self).registry.rows@ == old(self).registry.rows@.remove(
                    pair_index(old(self).registry.rows@, j0.worker@, job_id),
                ))
                &&& ((is_terminal(target_state(e)) && !has_pair(
                    old(self).registry.rows@,
                    j0.worker@,
                    job_id,
                )) ==> final(self).registry.rows@ == old(self).registry.rows@)
                &&& (!is_terminal(target_state(e)) ==> final(self).registry.rows@ == old(
                    self,
                ).registry.rows@)
                &&& final(self).groups.next_id == old(self).groups.next_id
                &&& (!has_member_job(old(self).groups.projects@, job_id) ==> final(self).groups.groups@
                    == old(self).groups.groups@ && final(self).groups.projects@
                    == old(self).groups.projects@)
                &&& (has_member_job(old(self).groups.projects@, job_id) ==> {
                    let mi = member_job_index(old(self).groups.projects@, job_id);
                    let gid = old(self).groups.projects@[mi].owner_id;
                    let gi = group_index(old(self).groups.groups@, gid);
                    let st = derived_group_state(
                        member_states(final(self).groups.projects@, gid),
                    );
                    &&& final(self).groups.projects@ == old(self).groups.projects@.update(
                        mi,
                        GroupProject {
                            project_state: spec_project_state_of(target_state(e)),
                            updated_at: Some(now),
                            ..old(self).groups.projects@[mi]
                        },
                    )
                    &&& final(self).groups.groups@ == old(self).groups.groups@.update(
                        gi,
                        Group {
                            group_state: st,
                            updated_at: Some(now),
                            ..old(self).groups.groups@[gi]
                        },
                    )
                })
            },
    {
        let w = match self.jobs.get_job(job_id) {
            None => {
                return Err(Error::NotFound);
            },
            Some(j) => j.worker.clone(),
        };
        let tgt = target_of(&e);
        match self.jobs.update_job(job_id, token, e, now) {
            Err(er) => Err(er),
            Ok(()) => {
                if terminal_state(tgt) {
                    self.registry.mark_idle(&w, job_id);
                }
                let pst = project_state_of(tgt);
                match self.groups.set_project_state_for_job(job_id, pst, now) {
                    Err(_) => Ok(tgt),
                    Ok(gid) => {
                        proof {
                            let mi = member_job_index(old(self).groups.projects@, job_id);
                            assert(self.groups.projects@[mi].owner_id == gid);
                            assert(crate::groups::has_group(self.groups.groups@, gid));
                        }
                        match self.groups.recompute_group(gid, now) {
                            Ok(_) => Ok(tgt),
                            Err(er) => {
                                // Unreachable: every membership's owner is a
                                // live group, so recomputation cannot miss it.
                                proof {
                                    assert(false);
                                }
                                Err(er)
                            },
                        }
                    },
                }
            },
        }
    }

    /// Records the dispatch layer's confirmation that the job's latest
    /// state change has been reconciled; re-confirmation is a no-op.
    pub fn confirm_job_sync(&mut self, job_id: i64) -> (r: Result<(), Error>)
        requires
            old(self).wf(),
        ensures
            final(self).wf(),
            final(self).groups == old(self).groups,
            final(self).registry == old(self).registry,
            final(self).jobs.next_id == old(self).jobs.next_id,
            !has_job(old(self).jobs.jobs@, job_id) ==> r == Result::<(), Error>::Err(
                Error::NotFound,
            ) && observably_same(*final(self), *old(self)),
            has_job(old(self).jobs.jobs@, job_id) ==> {
                let ji = job_index(old(self).jobs.jobs@, job_id);
                &&& r is Ok
                &&& final(self).jobs.jobs@ == old(self).jobs.jobs@.update(
                    ji,
                    crate::jobs::Job { scheduler_sync: true, ..old(self).jobs.jobs@[ji] },
                )
            },
    {
        self.jobs.confirm_sync(job_id)
    }
}

} // verus!
