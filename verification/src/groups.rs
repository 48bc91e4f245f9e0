//! Build groups and their membership records.
//!
//! A group is a set of jobs built together to satisfy cross-project
//! dependencies. Its state is never set independently: it is a pure function
//! of the states of its member projects, recomputed after each job
//! transition that touches a member's linked job, with a fail-fast policy on
//! member failure.

use crate::error::Error;
use crate::jobs::JobState;
use vstd::prelude::*;

verus! {

/// The lifecycle summary of one member project inside a group.
#[derive(Clone, Copy, PartialEq, Eq, Structural, Debug)]
pub enum ProjectState {
    NotStarted,
    InProgress,
    Success,
    Failure,
}

/// The derived state of a whole group.
#[derive(Clone, Copy, PartialEq, Eq, Structural, Debug)]
pub enum GroupState {
    InProgress,
    Complete,
    Failed,
}

/// The member-project summary a job state folds to: a terminal success is a
/// success, every other terminal state is a failure, and everything between
/// dispatch and the final report is in progress.
pub open spec fn spec_project_state_of(s: JobState) -> ProjectState {
    match s {
        JobState::Pending => ProjectState::NotStarted,
        JobState::Dispatched => ProjectState::InProgress,
        JobState::Processing => ProjectState::InProgress,
        JobState::CancelPending => ProjectState::InProgress,
        JobState::Complete => ProjectState::Success,
        JobState::JobFailed => ProjectState::Failure,
        JobState::DependencyFailed => ProjectState::Failure,
        JobState::CancelComplete => ProjectState::Failure,
        JobState::Rejected => ProjectState::Failure,
    }
}

/// Folds a job state to the member-project summary, executably.
pub fn project_state_of(s: JobState) -> (r: ProjectState)
    ensures
        r == spec_project_state_of(s),
{
    match s {
        JobState::Pending => ProjectState::NotStarted,
        JobState::Dispatched => ProjectState::InProgress,
        JobState::Processing => ProjectState::InProgress,
        JobState::CancelPending => ProjectState::InProgress,
        JobState::Complete => ProjectState::Success,
        JobState::JobFailed => ProjectState::Failure,
        JobState::DependencyFailed => ProjectState::Failure,
        JobState::CancelComplete => ProjectState::Failure,
        JobState::Rejected => ProjectState::Failure,
    }
}

/// Whether some member has failed.
pub open spec fn any_failure(ms: Seq<ProjectState>) -> bool {
    exists|k: int| 0 <= k < ms.len() && (#[trigger] ms[k]) == ProjectState::Failure
}

/// Whether every member has succeeded.
pub open spec fn all_success(ms: Seq<ProjectState>) -> bool {
    forall|k: int| 0 <= k < ms.len() ==> (#[trigger] ms[k]) == ProjectState::Success
}

/// The group state derived from its member states: failed as soon as any
/// member fails (fail-fast), complete exactly when every member has
/// succeeded, in progress otherwise.
pub open spec fn derived_group_state(ms: Seq<ProjectState>) -> GroupState {
    if any_failure(ms) {
        GroupState::Failed
    } else if all_success(ms) {
        GroupState::Complete
    } else {
        GroupState::InProgress
    }
}

/// Computes the derived group state, executably.
pub fn compute_group_state(ms: &Vec<ProjectState>) -> (r: GroupState)
    ensures
        r == derived_group_state(ms@),
{
    let mut any_fail = false;
    let mut all_succ = true;
    let mut i: usize = 0;
    while i < ms.len()
        invariant
            i <= ms@.len(),
            any_fail == exists|k: int|
                0 <= k < i && (#[trigger] ms@[k]) == ProjectState::Failure,
            all_succ == forall|k: int|
                0 <= k < i ==> (#[trigger] ms@[k]) == ProjectState::Success,
        decreases ms@.len() - i,
    {
        let s = ms[i];
        if s == ProjectState::Failure {
            any_fail = true;
        }
        if !(s == ProjectState::Success) {
            all_succ = false;
        }
        i = i + 1;
    }
    if any_fail {
        GroupState::Failed
    } else if all_succ {
        GroupState::Complete
    } else {
        GroupState::InProgress
    }
}

/// One build group, as persisted in the `groups` table; `project_name`
/// names the project whose change triggered the group.
#[derive(Clone, Debug)]
pub struct Group {
    pub id: i64,
    pub group_state: GroupState,
    pub project_name: String,
    pub created_at: Option<i64>,
    pub updated_at: Option<i64>,
}

/// One project's membership within a group, as persisted in the
/// `group_projects` table. `owner_id` is the owning group's identity;
/// `job_id` links the membership to its job and is never reassigned.
#[derive(Clone, Debug)]
pub struct GroupProject {
    pub id: i64,
    pub owner_id: i64,
    pub project_name: String,
    pub project_ident: String,
    pub project_state: ProjectState,
    pub job_id: i64,
    pub created_at: Option<i64>,
    pub updated_at: Option<i64>,
}

/// Whether some group carries the identity.
pub open spec fn has_group(gs: Seq<Group>, id: i64) -> bool {
    exists|i: int| 0 <= i < gs.len() && (#[trigger] gs[i]).id == id
}

/// The position of the group carrying the identity; meaningful only where
/// `has_group` holds and identities are unique.
pub open spec fn group_index(gs: Seq<Group>, id: i64) -> int {
    choose|i: int| 0 <= i < gs.len() && (#[trigger] gs[i]).id == id
}

/// Whether some membership row is linked to the job.
pub open spec fn has_member_job(ps: Seq<GroupProject>, job_id: i64) -> bool {
    exists|i: int| 0 <= i < ps.len() && (#[trigger] ps[i]).job_id == job_id
}

/// The position of the membership row linked to the job; meaningful only
/// where `has_member_job` holds and the links are unique.
pub open spec fn member_job_index(ps: Seq<GroupProject>, job_id: i64) -> int {
    choose|i: int| 0 <= i < ps.len() && (#[trigger] ps[i]).job_id == job_id
}

/// Whether the group already holds a member of that project name.
pub open spec fn has_member_named(ps: Seq<GroupProject>, gid: i64, name: Seq<char>) -> bool {
    exists|i: int|
        0 <= i < ps.len() && (#[trigger] ps[i]).owner_id == gid && ps[i].project_name@ == name
}

/// The states of the group's members, in row order.
pub open spec fn member_states(ps: Seq<GroupProject>, gid: i64) -> Seq<ProjectState>
    decreases ps.len(),
{
    if ps.len() == 0 {
        Seq::empty()
    } else {
        member_states(ps.drop_last(), gid) + (if ps.last().owner_id == gid {
            seq![ps.last().project_state]
        } else {
            Seq::empty()
        })
    }
}

/// The owner of all group and membership records. Identities are unique and
/// assigned monotonically from one counter.
pub struct GroupStore {
    pub next_id: i64,
    pub groups: Vec<Group>,
    pub projects: Vec<GroupProject>,
}

impl GroupStore {
    /// Well-formedness of the store: unique, monotonically assigned
    /// identities; one membership per (group, project) pair; one membership
    /// per linked job.
    pub open spec fn wf(self) -> bool {
        &&& 1 <= self.next_id
        &&& forall|i: int, k: int|
            0 <= i < k < self.groups@.len() ==> (#[trigger] self.groups@[i]).id != (
            #[trigger] self.groups@[k]).id
        &&& forall|i: int|
            0 <= i < self.groups@.len() ==> 0 < (#[trigger] self.groups@[i]).id < self.next_id
        &&& forall|i: int, k: int|
            0 <= i < k < self.projects@.len() ==> (#[trigger] self.projects@[i]).id != (
            #[trigger] self.projects@[k]).id
        &&& forall|i: int|
            0 <= i < self.projects@.len() ==> 0 < (#[trigger] self.projects@[i]).id
                < self.next_id
        &&& forall|i: int, k: int|
            0 <= i < k < self.projects@.len() ==> !((#[trigger] self.projects@[i]).owner_id == (
            #[trigger] self.projects@[k]).owner_id && self.projects@[i].project_name@
                == self.projects@[k].project_name@)
        &&& forall|i: int, k: int|
            0 <= i < k < self.projects@.len() ==> (#[trigger] self.projects@[i]).job_id != (
            #[trigger] self.projects@[k]).job_id
        &&& forall|i: int|
            0 <= i < self.projects@.len() ==> has_group(
                self.groups@,
                (#[trigger] self.projects@[i]).owner_id,
            )
    }

    /// An empty store.
    pub fn new() -> (r: GroupStore)
        ensures
            r.wf(),
            r.groups@.len() == 0,
            r.projects@.len() == 0,
            r.next_id == 1,
    {
        GroupStore { next_id: 1, groups: Vec::new(), projects: Vec::new() }
    }

    /// The group carrying the identity, if any.
    pub fn get_group(&self, id: i64) -> (r: Option<&Group>)
        requires
            self.wf(),
        ensures
            match r {
                Some(g) => has_group(self.groups@, id) && *g == self.groups@[group_index(
                    self.groups@,
                    id,
                )],
                None => !has_group(self.groups@, id),
            },
    {
        match find_group(&self.groups, id) {
            Some(i) => {
                proof {
                    lemma_group_index_unique(self.groups@, id, i as int);
                }
                Some(&self.groups[i])
            },
            None => None,
        }
    }

    /// Creates a group around the triggering project. The group starts in
    /// progress; its members are added afterwards and its state is derived
    /// on recomputation. Fails only when the identity space is exhausted.
    pub fn create_group(&mut self, project_name: String, now: i64) -> (r: Result<i64, Error>)
        requires
            old(self).wf(),
        ensures
            final(self).wf(),
            final(self).projects@ == old(self).projects@,
            old(self).next_id == i64::MAX ==> (r matches Err(e) && e matches Error::System(_)
                && *final(self) == *old(self)),
            old(self).next_id < i64::MAX ==> {
                &&& r == Result::<i64, Error>::Ok(old(self).next_id)
                &&& final(self).next_id == old(self).next_id + 1
                &&& final(self).groups@ == old(self).groups@.push(final(self).groups@.last())
                &&& {
                    let g = final(self).groups@.last();
                    &&& g.id == old(self).next_id
                    &&& g.group_state == GroupState::InProgress
                    &&& g.project_name@ == project_name@
                    &&& g.created_at == Some(now)
                    &&& g.updated_at == Some(now)
                }
            },
    {
        if self.next_id == i64::MAX {
            return Err(Error::System("group identity space exhausted".to_owned()));
        }
        let id = self.next_id;
        let group = Group {
            id,
            group_state: GroupState::InProgress,
            project_name,
            created_at: Some(now),
            updated_at: Some(now),
        };
        self.groups.push(group);
        self.next_id = self.next_id + 1;
        proof {
            assert forall|i: int| 0 <= i < self.projects@.len() implies has_group(
                self.groups@,
                (#[trigger] self.projects@[i]).owner_id,
            ) by {
                let oid = self.projects@[i].owner_id;
                let w = choose|w: int|
                    0 <= w < old(self).groups@.len() && (#[trigger] old(self).groups@[w]).id
                        == oid;
                assert(self.groups@[w].id == oid);
            }
        }
        Ok(id)
    }

    /// Adds one project's membership to a group, linked to its job. The
    /// group must exist, the group may hold only one membership per project
    /// name, and a job may be linked to only one membership.
    pub fn add_project(
        &mut self,
        group_id: i64,
        project_name: String,
        project_ident: String,
        job_id: i64,
        now: i64,
    ) -> (r: Result<i64, Error>)
        requires
            old(self).wf(),
        ensures
            final(self).wf(),
            final(self).groups@ == old(self).groups@,
            !has_group(old(self).groups@, group_id) ==> r == Result::<i64, Error>::Err(
                Error::NotFound,
            ) && *final(self) == *old(self),
            has_group(old(self).groups@, group_id) && (has_member_named(
                old(self).projects@,
                group_id,
                project_name@,
            ) || has_member_job(old(self).projects@, job_id)) ==> r == Result::<i64, Error>::Err(
                Error::Conflict,
            ) && *final(self) == *old(self),
            (has_group(old(self).groups@, group_id) && !has_member_named(
                old(self).projects@,
                group_id,
                project_name@,
            ) && !has_member_job(old(self).projects@, job_id) && old(self).next_id == i64::MAX)
                ==> (r matches Err(e) && e matches Error::System(_) && *final(self) == *old(
                self,
            )),
            (has_group(old(self).groups@, group_id) && !has_member_named(
                old(self).projects@,
                group_id,
                project_name@,
            ) && !has_member_job(old(self).projects@, job_id) && old(self).next_id < i64::MAX)
                ==> {
                &&& r == Result::<i64, Error>::Ok(old(self).next_id)
                &&& final(self).next_id == old(self).next_id + 1
                &&& final(self).projects@ == old(self).projects@.push(
                    final(self).projects@.last(),
                )
                &&& {
                    let p = final(self).projects@.last();
                    &&& p.id == old(self).next_id
                    &&& p.owner_id == group_id
                    &&& p.project_name@ == project_name@
                    &&& p.project_ident@ == project_ident@
                    &&& p.project_state == ProjectState::NotStarted
                    &&& p.job_id == job_id
                    &&& p.created_at == Some(now)
                    &&& p.updated_at == Some(now)
                }
            },
    {
        if find_group(&self.groups, group_id).is_none() {
            return Err(Error::NotFound);
        }
        if find_member_named(&self.projects, group_id, &project_name).is_some() {
            return Err(Error::Conflict);
        }
        if find_member_job(&self.projects, job_id).is_some() {
            return Err(Error::Conflict);
        }
        if self.next_id == i64::MAX {
            return Err(Error::System("membership identity space exhausted".to_owned()));
        }
        let id = self.next_id;
        let row = GroupProject {
            id,
            owner_id: group_id,
            project_name,
            project_ident,
            project_state: ProjectState::NotStarted,
            job_id,
            created_at: Some(now),
            updated_at: Some(now),
        };
        self.projects.push(row);
        self.next_id = self.next_id + 1;
        Ok(id)
    }

    /// Records the member-project summary of the job's latest state on the
    /// membership linked to the job, and names the owning group so its
    /// state can be recomputed.
    pub fn set_project_state_for_job(&mut self, job_id: i64, st: ProjectState, now: i64) -> (r:
        Result<i64, Error>)
        requires
            old(self).wf(),
        ensures
            final(self).wf(),
            final(self).groups@ == old(self).groups@,
            final(self).next_id == old(self).next_id,
            !has_member_job(old(self).projects@, job_id) ==> r == Result::<i64, Error>::Err(
                Error::NotFound,
            ) && *final(self) == *old(self),
            has_member_job(old(self).projects@, job_id) ==> {
                let i = member_job_index(old(self).projects@, job_id);
                &&& r == Result::<i64, Error>::Ok(old(self).projects@[i].owner_id)
                &&& final(self).projects@ == old(self).projects@.update(
                    i,
                    GroupProject {
                        project_state: st,
                        updated_at: Some(now),
                        ..old(self).projects@[i]
                    },
                )
            },
    {
        match find_member_job(&self.projects, job_id) {
            None => Err(Error::NotFound),
            Some(i) => {
                proof {
                    lemma_member_job_index_unique(self.projects@, job_id, i as int);
                }
                let gid = self.projects[i].owner_id;
                let pm = &mut self.projects[i];
                pm.project_state = st;
                pm.updated_at = Some(now);
                Ok(gid)
            },
        }
    }

    /// Recomputes the group's derived state from the current snapshot of
    /// its member states and writes it back. The result depends only on the
    /// member states, never on the state the group held before, so
    /// recomputation is idempotent and concurrent recomputations over the
    /// same snapshot commute.
    pub fn recompute_group(&mut self, group_id: i64, now: i64) -> (r: Result<GroupState, Error>)
        requires
            old(self).wf(),
        ensures
            final(self).wf(),
            final(self).projects@ == old(self).projects@,
            final(self).next_id == old(self).next_id,
            !has_group(old(self).groups@, group_id) ==> r == Result::<GroupState, Error>::Err(
                Error::NotFound,
            ) && *final(self) == *old(self),
            has_group(old(self).groups@, group_id) ==> {
                let gi = group_index(old(self).groups@, group_id);
                let st = derived_group_state(member_states(old(self).projects@, group_id));
                &&& r == Result::<GroupState, Error>::Ok(st)
                &&& final(self).groups@ == old(self).groups@.update(
                    gi,
                    Group { group_state: st, updated_at: Some(now), ..old(self).groups@[gi] },
                )
            },
    {
        match find_group(&self.groups, group_id) {
            None => Err(Error::NotFound),
            Some(gi) => {
                proof {
                    lemma_group_index_unique(self.groups@, group_id, gi as int);
                }
                let states = collect_member_states(&self.projects, group_id);
                let st = compute_group_state(&states);
                let gm = &mut self.groups[gi];
                gm.group_state = st;
                gm.updated_at = Some(now);
                proof {
                    assert forall|i: int| 0 <= i < self.projects@.len() implies has_group(
                        self.groups@,
                        (#[trigger] self.projects@[i]).owner_id,
                    ) by {
                        let oid = self.projects@[i].owner_id;
                        let w = choose|w: int|
                            0 <= w < old(self).groups@.len() && (#[trigger] old(
                                self,
                            ).groups@[w]).id == oid;
                        assert(self.groups@[w].id == oid);
                    }
                }
                Ok(st)
            },
        }
    }
}

/// The member states of the group, collected in row order.
fn collect_member_states(ps: &Vec<GroupProject>, gid: i64) -> (r: Vec<ProjectState>)
    ensures
        r@ == member_states(ps@, gid),
{
    let mut states: Vec<ProjectState> = Vec::new();
    let mut i: usize = 0;
    while i < ps.len()
        invariant
            i <= ps@.len(),
            states@ == member_states(ps@.take(i as int), gid),
        decreases ps@.len() - i,
    {
        proof {
            assert(ps@.take(i as int + 1).drop_last() =~= ps@.take(i as int));
            assert(ps@.take(i as int + 1).last() == ps@[i as int]);
        }
        let ghost pre = states@;
        if ps[i].owner_id == gid {
            states.push(ps[i].project_state);
            proof {
                assert(states@ =~= pre + seq![ps@[i as int].project_state]);
            }
        } else {
            proof {
                assert(states@ =~= pre + Seq::<ProjectState>::empty());
            }
        }
        i = i + 1;
    }
    proof {
        assert(ps@.take(ps@.len() as int) =~= ps@);
    }
    states
}

/// The position of the group carrying the identity, searched linearly.
fn find_group(gs: &Vec<Group>, id: i64) -> (r: Option<usize>)
    ensures
        match r {
            Some(i) => i < gs@.len() && gs@[i as int].id == id,
            None => !has_group(gs@, id),
        },
{
    let mut i: usize = 0;
    while i < gs.len()
        invariant
            i <= gs@.len(),
            forall|k: int| 0 <= k < i ==> (#[trigger] gs@[k]).id != id,
        decreases gs@.len() - i,
    {
        if gs[i].id == id {
            return Some(i);
        }
        i = i + 1;
    }
    None
}

/// The position of the membership linked to the job, searched linearly.
fn find_member_job(ps: &Vec<GroupProject>, job_id: i64) -> (r: Option<usize>)
    ensures
        match r {
            Some(i) => i < ps@.len() && ps@[i as int].job_id == job_id,
            None => !has_member_job(ps@, job_id),
        },
{
    let mut i: usize = 0;
    while i < ps.len()
        invariant
            i <= ps@.len(),
            forall|k: int| 0 <= k < i ==> (#[trigger] ps@[k]).job_id != job_id,
        decreases ps@.len() - i,
    {
        if ps[i].job_id == job_id {
            return Some(i);
        }
        i = i + 1;
    }
    None
}

/// The position of the group's membership of that project name, searched
/// linearly.
fn find_member_named(ps: &Vec<GroupProject>, gid: i64, name: &String) -> (r: Option<usize>)
    ensures
        match r {
            Some(i) => i < ps@.len() && ps@[i as int].owner_id == gid && ps@[
                i as int
            ].project_name@ == name@,
            None => !has_member_named(ps@, gid, name@),
        },
{
    let mut i: usize = 0;
    while i < ps.len()
        invariant
            i <= ps@.len(),
            forall|k: int|
                0 <= k < i ==> !((#[trigger] ps@[k]).owner_id == gid && ps@[k].project_name@
                    == name@),
        decreases ps@.len() - i,
    {
        if ps[i].owner_id == gid && ps[i].project_name.eq(name) {
            return Some(i);
        }
        i = i + 1;
    }
    None
}

/// Where group identities are unique, any position holding the identity is
/// the position `group_index` names.
proof fn lemma_group_index_unique(gs: Seq<Group>, id: i64, i: int)
    requires
        forall|p: int, k: int|
            0 <= p < k < gs.len() ==> (#[trigger] gs[p]).id != (#[trigger] gs[k]).id,
        0 <= i < gs.len(),
        gs[i].id == id,
    ensures
        group_index(gs, id) == i,
        has_group(gs, id),
{
    assert(has_group(gs, id));
    let k = group_index(gs, id);
    if k != i {
        if k < i {
            assert(gs[k].id != gs[i].id);
        } else {
            assert(gs[i].id != gs[k].id);
        }
    }
}

/// Where job links are unique, any position holding the link is the
/// position `member_job_index` names.
proof fn lemma_member_job_index_unique(ps: Seq<GroupProject>, job_id: i64, i: int)
    requires
        forall|p: int, k: int|
            0 <= p < k < ps.len() ==> (#[trigger] ps[p]).job_id != (#[trigger] ps[k]).job_id,
        0 <= i < ps.len(),
        ps[i].job_id == job_id,
    ensures
        member_job_index(ps, job_id) == i,
        has_member_job(ps, job_id),
{
    assert(has_member_job(ps, job_id));
    let k = member_job_index(ps, job_id);
    if k != i {
        if k < i {
            assert(ps[k].job_id != ps[i].job_id);
        } else {
            assert(ps[i].job_id != ps[k].job_id);
        }
    }
}

/// Law: group-state recomputation is idempotent. Two recomputations over an
/// unchanged member set yield the same group state, whatever state the
/// group held before either of them.
pub proof fn lemma_recompute_idempotent(
    ms: Seq<ProjectState>,
    first: GroupState,
    second: GroupState,
)
    requires
        first == derived_group_state(ms),
        second == derived_group_state(ms),
    ensures
        first == second,
{
}

/// Law: the failure policy is fail-fast. One failed member makes the whole
/// group failed, however many members are still pending or in progress.
pub proof fn lemma_fail_fast(ms: Seq<ProjectState>, k: int)
    requires
        0 <= k < ms.len(),
        ms[k] == ProjectState::Failure,
    ensures
        derived_group_state(ms) == GroupState::Failed,
{
    assert(any_failure(ms));
}

} // verus!
