//! Explicit row forms of the persisted tables.
//!
//! The store persists lifecycle states as free-form text. These row types
//! mirror the column layout exactly, and the mapping functions between a
//! row and its entity are the compatibility contract: rendering a state
//! writes its canonical label, and reading a row parses the label and
//! validates the record's invariants before an entity is produced.

use crate::error::Error;
use crate::groups::Group;
use crate::groups::GroupProject;
use crate::groups::GroupState;
use crate::groups::ProjectState;
use crate::jobs::is_terminal;
use crate::jobs::Job;
use crate::jobs::JobState;
use vstd::prelude::*;

verus! {

/// The canonical label of each job state.
pub open spec fn spec_job_state_label(s: JobState) -> Seq<char> {
    match s {
        JobState::Pending => "Pending"@,
        JobState::Dispatched => "Dispatched"@,
        JobState::Processing => "Processing"@,
        JobState::Complete => "Complete"@,
        JobState::JobFailed => "JobFailed"@,
        JobState::DependencyFailed => "DependencyFailed"@,
        JobState::CancelPending => "CancelPending"@,
        JobState::CancelComplete => "CancelComplete"@,
        JobState::Rejected => "Rejected"@,
    }
}

/// Which job state a label denotes, if any.
pub open spec fn spec_parse_job_state(s: Seq<char>) -> Option<JobState> {
    if s == "Pending"@ {
        Some(JobState::Pending)
    } else if s == "Dispatched"@ {
        Some(JobState::Dispatched)
    } else if s == "Processing"@ {
        Some(JobState::Processing)
    } else if s == "Complete"@ {
        Some(JobState::Complete)
    } else if s == "JobFailed"@ {
        Some(JobState::JobFailed)
    } else if s == "DependencyFailed"@ {
        Some(JobState::DependencyFailed)
    } else if s == "CancelPending"@ {
        Some(JobState::CancelPending)
    } else if s == "CancelComplete"@ {
        Some(JobState::CancelComplete)
    } else if s == "Rejected"@ {
        Some(JobState::Rejected)
    } else {
        None
    }
}

/// Renders the canonical label of a job state.
pub fn job_state_label(s: JobState) -> (r: String)
    ensures
        r@ == spec_job_state_label(s),
{
    match s {
        JobState::Pending => "Pending".to_owned(),
        JobState::Dispatched => "Dispatched".to_owned(),
        JobState::Processing => "Processing".to_owned(),
        JobState::Complete => "Complete".to_owned(),
        JobState::JobFailed => "JobFailed".to_owned(),
        JobState::DependencyFailed => "DependencyFailed".to_owned(),
        JobState::CancelPending => "CancelPending".to_owned(),
        JobState::CancelComplete => "CancelComplete".to_owned(),
        JobState::Rejected => "Rejected".to_owned(),
    }
}

/// Parses a job-state label.
pub fn parse_job_state(s: &String) -> (r: Option<JobState>)
    ensures
        r == spec_parse_job_state(s@),
{
    if s.eq(&"Pending".to_owned()) {
        Some(JobState::Pending)
    } else if s.eq(&"Dispatched".to_owned()) {
        Some(JobState::Dispatched)
    } else if s.eq(&"Processing".to_owned()) {
        Some(JobState::Processing)
    } else if s.eq(&"Complete".to_owned()) {
        Some(JobState::Complete)
    } else if s.eq(&"JobFailed".to_owned()) {
        Some(JobState::JobFailed)
    } else if s.eq(&"DependencyFailed".to_owned()) {
        Some(JobState::DependencyFailed)
    } else if s.eq(&"CancelPending".to_owned()) {
        Some(JobState::CancelPending)
    } else if s.eq(&"CancelComplete".to_owned()) {
        Some(JobState::CancelComplete)
    } else if s.eq(&"Rejected".to_owned()) {
        Some(JobState::Rejected)
    } else {
        None
    }
}

/// Law: parsing a rendered job-state label gives back the state; the label
/// vocabulary is unambiguous.
pub proof fn lemma_job_state_round_trip(s: JobState)
    ensures
        spec_parse_job_state(spec_job_state_label(s)) == Some(s),
{
    reveal_strlit("Pending");
    reveal_strlit("Dispatched");
    reveal_strlit("Processing");
    reveal_strlit("Complete");
    reveal_strlit("JobFailed");
    reveal_strlit("DependencyFailed");
    reveal_strlit("CancelPending");
    reveal_strlit("CancelComplete");
    reveal_strlit("Rejected");
    assert("Pending"@.len() == 7);
    assert("Dispatched"@.len() == 10);
    assert("Processing"@.len() == 10);
    assert("Complete"@.len() == 8);
    assert("JobFailed"@.len() == 9);
    assert("DependencyFailed"@.len() == 16);
    assert("CancelPending"@.len() == 13);
    assert("CancelComplete"@.len() == 14);
    assert("Rejected"@.len() == 8);
    assert("Dispatched"@[0] == 'D');
    assert("Processing"@[0] == 'P');
    assert("Complete"@[0] == 'C');
    assert("Rejected"@[0] == 'R');
}

/// The canonical label of each group state.
pub open spec fn spec_group_state_label(s: GroupState) -> Seq<char> {
    match s {
        GroupState::InProgress => "InProgress"@,
        GroupState::Complete => "Complete"@,
        GroupState::Failed => "Failed"@,
    }
}

/// Which group state a label denotes, if any.
pub open spec fn spec_parse_group_state(s: Seq<char>) -> Option<GroupState> {
    if s == "InProgress"@ {
        Some(GroupState::InProgress)
    } else if s == "Complete"@ {
        Some(GroupState::Complete)
    } else if s == "Failed"@ {
        Some(GroupState::Failed)
    } else {
        None
    }
}

/// Renders the canonical label of a group state.
pub fn group_state_label(s: GroupState) -> (r: String)
    ensures
        r@ == spec_group_state_label(s),
{
    match s {
        GroupState::InProgress => "InProgress".to_owned(),
        GroupState::Complete => "Complete".to_owned(),
        GroupState::Failed => "Failed".to_owned(),
    }
}

/// Parses a group-state label.
pub fn parse_group_state(s: &String) -> (r: Option<GroupState>)
    ensures
        r == spec_parse_group_state(s@),
{
    if s.eq(&"InProgress".to_owned()) {
        Some(GroupState::InProgress)
    } else if s.eq(&"Complete".to_owned()) {
        Some(GroupState::Complete)
    } else if s.eq(&"Failed".to_owned()) {
        Some(GroupState::Failed)
    } else {
        None
    }
}

/// Law: parsing a rendered group-state label gives back the state.
pub proof fn lemma_group_state_round_trip(s: GroupState)
    ensures
        spec_parse_group_state(spec_group_state_label(s)) == Some(s),
{
    reveal_strlit("InProgress");
    reveal_strlit("Complete");
    reveal_strlit("Failed");
    assert("InProgress"@.len() == 10);
    assert("Complete"@.len() == 8);
    assert("Failed"@.len() == 6);
}

/// The canonical label of each member-project state.
pub open spec fn spec_project_state_label(s: ProjectState) -> Seq<char> {
    match s {
        ProjectState::NotStarted => "NotStarted"@,
        ProjectState::InProgress => "InProgress"@,
        ProjectState::Success => "Success"@,
        ProjectState::Failure => "Failure"@,
    }
}

/// Which member-project state a label denotes, if any.
pub open spec fn spec_parse_project_state(s: Seq<char>) -> Option<ProjectState> {
    if s == "NotStarted"@ {
        Some(ProjectState::NotStarted)
    } else if s == "InProgress"@ {
        Some(ProjectState::InProgress)
    } else if s == "Success"@ {
        Some(ProjectState::Success)
    } else if s == "Failure"@ {
        Some(ProjectState::Failure)
    } else {
        None
    }
}

/// Renders the canonical label of a member-project state.
pub fn project_state_label(s: ProjectState) -> (r: String)
    ensures
        r@ == spec_project_state_label(s),
{
    match s {
        ProjectState::NotStarted => "NotStarted".to_owned(),
        ProjectState::InProgress => "InProgress".to_owned(),
        ProjectState::Success => "Success".to_owned(),
        ProjectState::Failure => "Failure".to_owned(),
    }
}

/// Parses a member-project-state label.
pub fn parse_project_state(s: &String) -> (r: Option<ProjectState>)
    ensures
        r == spec_parse_project_state(s@),
{
    if s.eq(&"NotStarted".to_owned()) {
        Some(ProjectState::NotStarted)
    } else if s.eq(&"InProgress".to_owned()) {
        Some(ProjectState::InProgress)
    } else if s.eq(&"Success".to_owned()) {
        Some(ProjectState::Success)
    } else if s.eq(&"Failure".to_owned()) {
        Some(ProjectState::Failure)
    } else {
        None
    }
}

/// Law: parsing a rendered member-project-state label gives back the state.
pub proof fn lemma_project_state_round_trip(s: ProjectState)
    ensures
        spec_parse_project_state(spec_project_state_label(s)) == Some(s),
{
    reveal_strlit("NotStarted");
    reveal_strlit("InProgress");
    reveal_strlit("Success");
    reveal_strlit("Failure");
    assert("NotStarted"@.len() == 10);
    assert("InProgress"@.len() == 10);
    assert("Success"@.len() == 7);
    assert("Failure"@.len() == 7);
    assert("NotStarted"@[0] == 'N');
    assert("InProgress"@[0] == 'I');
    assert("Success"@[0] == 'S');
    assert("Failure"@[0] == 'F');
}

/// One row of the `jobs` table, column for column; the state is text.
pub struct JobRow {
    pub id: i64,
    pub owner_id: i64,
    pub job_state: String,
    pub project_id: i64,
    pub project_name: String,
    pub project_owner_id: i64,
    pub project_plan_path: String,
    pub vcs: String,
    pub vcs_arguments: String,
    pub net_error_code: i32,
    pub net_error_msg: String,
    pub scheduler_sync: bool,
    pub created_at: Option<i64>,
    pub updated_at: Option<i64>,
    pub build_started_at: Option<i64>,
    pub build_finished_at: Option<i64>,
    pub package_ident: String,
    pub archived: bool,
    pub channel: String,
    pub sync_count: i32,
    pub worker: String,
}

/// The row carries exactly the entity's columns, with the state rendered to
/// its canonical label.
pub open spec fn job_row_matches(row: JobRow, j: Job) -> bool {
    &&& row.id == j.id
    &&& row.owner_id == j.owner_id
    &&& row.job_state@ == spec_job_state_label(j.job_state)
    &&& row.project_id == j.project_id
    &&& row.project_name@ == j.project_name@
    &&& row.project_owner_id == j.project_owner_id
    &&& row.project_plan_path@ == j.project_plan_path@
    &&& row.vcs@ == j.vcs@
    &&& row.vcs_arguments@ == j.vcs_arguments@
    &&& row.net_error_code == j.net_error_code
    &&& row.net_error_msg@ == j.net_error_msg@
    &&& row.scheduler_sync == j.scheduler_sync
    &&& row.created_at == j.created_at
    &&& row.updated_at == j.updated_at
    &&& row.build_started_at == j.build_started_at
    &&& row.build_finished_at == j.build_finished_at
    &&& row.package_ident@ == j.package_ident@
    &&& row.archived == j.archived
    &&& row.channel@ == j.channel@
    &&& row.sync_count == j.sync_count
    &&& row.worker@ == j.worker@
}

/// Renders a job to its persisted row.
pub fn job_to_row(j: &Job) -> (r: JobRow)
    ensures
        job_row_matches(r, *j),
{
    JobRow {
        id: j.id,
        owner_id: j.owner_id,
        job_state: job_state_label(j.job_state),
        project_id: j.project_id,
        project_name: j.project_name.clone(),
        project_owner_id: j.project_owner_id,
        project_plan_path: j.project_plan_path.clone(),
        vcs: j.vcs.clone(),
        vcs_arguments: j.vcs_arguments.clone(),
        net_error_code: j.net_error_code,
        net_error_msg: j.net_error_msg.clone(),
        scheduler_sync: j.scheduler_sync,
        created_at: j.created_at,
        updated_at: j.updated_at,
        build_started_at: j.build_started_at,
        build_finished_at: j.build_finished_at,
        package_ident: j.package_ident.clone(),
        archived: j.archived,
        channel: j.channel.clone(),
        sync_count: j.sync_count,
        worker: j.worker.clone(),
    }
}

/// Whether a row with that state satisfies the job invariants.
pub open spec fn job_row_wf(row: JobRow, st: JobState) -> bool {
    &&& (row.build_finished_at is Some <==> is_terminal(st))
    &&& (row.worker@.len() > 0 ==> st == JobState::Dispatched || st == JobState::Processing)
    &&& row.sync_count >= 0
}

/// Reads a job back from its persisted row: the state label is parsed and
/// the record's invariants are validated; a row that denotes no state or
/// breaks an invariant is semantically invalid.
pub fn job_from_row(row: JobRow) -> (r: Result<Job, Error>)
    ensures
        match spec_parse_job_state(row.job_state@) {
            Some(st) => {
                if job_row_wf(row, st) {
                    r matches Ok(j) && job_row_matches(row, j) && j.job_state == st && j.wf()
                } else {
                    r == Result::<Job, Error>::Err(Error::Unprocessable)
                }
            },
            None => r == Result::<Job, Error>::Err(Error::Unprocessable),
        },
{
    let st = match parse_job_state(&row.job_state) {
        None => {
            return Err(Error::Unprocessable);
        },
        Some(st) => st,
    };
    let worker_empty = row.worker.eq(&String::new());
    proof {
        if row.worker@ =~= Seq::<char>::empty() {
            assert(row.worker@.len() == 0);
        }
        if row.worker@.len() == 0 {
            assert(row.worker@ =~= Seq::<char>::empty());
        }
    }
    let finished_ok = match row.build_finished_at {
        Some(_) => crate::jobs::terminal_state(st),
        None => !crate::jobs::terminal_state(st),
    };
    let worker_ok = worker_empty || st == JobState::Dispatched || st == JobState::Processing;
    if !finished_ok || !worker_ok || row.sync_count < 0 {
        return Err(Error::Unprocessable);
    }
    proof {
        lemma_job_state_round_trip(st);
    }
    Ok(
        Job {
            id: row.id,
            owner_id: row.owner_id,
            job_state: st,
            project_id: row.project_id,
            project_name: row.project_name,
            project_owner_id: row.project_owner_id,
            project_plan_path: row.project_plan_path,
            vcs: row.vcs,
            vcs_arguments: row.vcs_arguments,
            net_error_code: row.net_error_code,
            net_error_msg: row.net_error_msg,
            scheduler_sync: row.scheduler_sync,
            created_at: row.created_at,
            updated_at: row.updated_at,
            build_started_at: row.build_started_at,
            build_finished_at: row.build_finished_at,
            package_ident: row.package_ident,
            archived: row.archived,
            channel: row.channel,
            sync_count: row.sync_count,
            worker: row.worker,
        },
    )
}

/// One row of the `groups` table, column for column; the state is text.
pub struct GroupRow {
    pub id: i64,
    pub group_state: String,
    pub project_name: String,
    pub created_at: Option<i64>,
    pub updated_at: Option<i64>,
}

/// The row carries exactly the entity's columns, with the state rendered to
/// its canonical label.
pub open spec fn group_row_matches(row: GroupRow, g: Group) -> bool {
    &&& row.id == g.id
    &&& row.group_state@ == spec_group_state_label(g.group_state)
    &&& row.project_name@ == g.project_name@
    &&& row.created_at == g.created_at
    &&& row.updated_at == g.updated_at
}

/// Renders a group to its persisted row.
pub fn group_to_row(g: &Group) -> (r: GroupRow)
    ensures
        group_row_matches(r, *g),
{
    GroupRow {
        id: g.id,
        group_state: group_state_label(g.group_state),
        project_name: g.project_name.clone(),
        created_at: g.created_at,
        updated_at: g.updated_at,
    }
}

/// Reads a group back from its persisted row; a row that denotes no state
/// is semantically invalid.
pub fn group_from_row(row: GroupRow) -> (r: Result<Group, Error>)
    ensures
        match spec_parse_group_state(row.group_state@) {
            Some(st) => r matches Ok(g) && group_row_matches(row, g) && g.group_state == st,
            None => r == Result::<Group, Error>::Err(Error::Unprocessable),
        },
{
    let st = match parse_group_state(&row.group_state) {
        None => {
            return Err(Error::Unprocessable);
        },
        Some(st) => st,
    };
    proof {
        lemma_group_state_round_trip(st);
    }
    Ok(
        Group {
            id: row.id,
            group_state: st,
            project_name: row.project_name,
            created_at: row.created_at,
            updated_at: row.updated_at,
        },
    )
}

/// One row of the `group_projects` table, column for column; the state is
/// text.
pub struct GroupProjectRow {
    pub id: i64,
    pub owner_id: i64,
    pub project_name: String,
    pub project_ident: String,
    pub project_state: String,
    pub job_id: i64,
    pub created_at: Option<i64>,
    pub updated_at: Option<i64>,
}

/// The row carries exactly the entity's columns, with the state rendered to
/// its canonical label.
pub open spec fn group_project_row_matches(row: GroupProjectRow, p: GroupProject) -> bool {
    &&& row.id == p.id
    &&& row.owner_id == p.owner_id
    &&& row.project_name@ == p.project_name@
    &&& row.project_ident@ == p.project_ident@
    &&& row.project_state@ == spec_project_state_label(p.project_state)
    &&& row.job_id == p.job_id
    &&& row.created_at == p.created_at
    &&& row.updated_at == p.updated_at
}

/// Renders a membership to its persisted row.
pub fn group_project_to_row(p: &GroupProject) -> (r: GroupProjectRow)
    ensures
        group_project_row_matches(r, *p),
{
    GroupProjectRow {
        id: p.id,
        owner_id: p.owner_id,
        project_name: p.project_name.clone(),
        project_ident: p.project_ident.clone(),
        project_state: project_state_label(p.project_state),
        job_id: p.job_id,
        created_at: p.created_at,
        updated_at: p.updated_at,
    }
}

/// Reads a membership back from its persisted row; a row that denotes no
/// state is semantically invalid.
pub fn group_project_from_row(row: GroupProjectRow) -> (r: Result<GroupProject, Error>)
    ensures
        match spec_parse_project_state(row.project_state@) {
            Some(st) => r matches Ok(p) && group_project_row_matches(row, p) && p.project_state
                == st,
            None => r == Result::<GroupProject, Error>::Err(Error::Unprocessable),
        },
{
    let st = match parse_project_state(&row.project_state) {
        None => {
            return Err(Error::Unprocessable);
        },
        Some(st) => st,
    };
    proof {
        lemma_project_state_round_trip(st);
    }
    Ok(
        GroupProject {
            id: row.id,
            owner_id: row.owner_id,
            project_name: row.project_name,
            project_ident: row.project_ident,
            project_state: st,
            job_id: row.job_id,
            created_at: row.created_at,
            updated_at: row.updated_at,
        },
    )
}

} // verus!
