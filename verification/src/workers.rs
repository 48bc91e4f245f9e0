//! The build-worker availability registry.
//!
//! A `BusyWorker` row binds a worker to one job it is executing. Quarantine
//! is worker-scoped: it marks every current row of the worker and every row
//! the worker acquires later, and a quarantined worker is excluded from
//! dispatch eligibility until the quarantine is explicitly cleared.

use crate::error::Error;
use vstd::prelude::*;

verus! {

/// One binding of a worker to a job it is executing, as persisted in the
/// `busy_workers` table; the pair (`ident`, `job_id`) is its identity.
#[derive(Clone, Debug)]
pub struct BusyWorker {
    pub ident: String,
    pub job_id: i64,
    pub quarantined: bool,
    pub created_at: Option<i64>,
    pub updated_at: Option<i64>,
}

/// Whether some row carries the pair.
pub open spec fn has_pair(rs: Seq<BusyWorker>, w: Seq<char>, job: i64) -> bool {
    exists|i: int|
        0 <= i < rs.len() && (#[trigger] rs[i]).ident@ == w && rs[i].job_id == job
}

/// The position of the row carrying the pair; meaningful only where
/// `has_pair` holds and the pairs are unique.
pub open spec fn pair_index(rs: Seq<BusyWorker>, w: Seq<char>, job: i64) -> int {
    choose|i: int| 0 <= i < rs.len() && (#[trigger] rs[i]).ident@ == w && rs[i].job_id == job
}

/// How many rows carry the pair.
pub open spec fn count_pair(rs: Seq<BusyWorker>, w: Seq<char>, job: i64) -> nat
    decreases rs.len(),
{
    if rs.len() == 0 {
        0
    } else {
        count_pair(rs.drop_last(), w, job) + (if rs.last().ident@ == w && rs.last().job_id
            == job {
            1nat
        } else {
            0nat
        })
    }
}

/// How many rows the worker holds, whatever the jobs.
pub open spec fn busy_count(rs: Seq<BusyWorker>, w: Seq<char>) -> nat
    decreases rs.len(),
{
    if rs.len() == 0 {
        0
    } else {
        busy_count(rs.drop_last(), w) + (if rs.last().ident@ == w {
            1nat
        } else {
            0nat
        })
    }
}

/// Whether the worker is named in the quarantine list.
pub open spec fn ident_quarantined(q: Seq<String>, w: Seq<char>) -> bool {
    exists|i: int| 0 <= i < q.len() && (#[trigger] q[i])@ == w
}

/// Dispatch eligibility: the worker has no quarantined standing and is
/// below its externally supplied concurrency capacity.
pub open spec fn spec_eligible(
    rs: Seq<BusyWorker>,
    q: Seq<String>,
    w: Seq<char>,
    capacity: usize,
) -> bool {
    !ident_quarantined(q, w) && busy_count(rs, w) < capacity
}

/// The owner of all `BusyWorker` rows and of the worker-scoped quarantine
/// list.
pub struct WorkerRegistry {
    pub rows: Vec<BusyWorker>,
    pub quarantined: Vec<String>,
}

impl WorkerRegistry {
    /// Well-formedness: the (`ident`, `job_id`) pairs are unique, the
    /// quarantine list names each worker at most once, and every row's flag
    /// agrees with the worker's quarantine standing.
    pub open spec fn wf(self) -> bool {
        &&& forall|i: int, k: int|
            0 <= i < k < self.rows@.len() ==> !((#[trigger] self.rows@[i]).ident@ == (
            #[trigger] self.rows@[k]).ident@ && self.rows@[i].job_id == self.rows@[k].job_id)
        &&& forall|i: int, k: int|
            0 <= i < k < self.quarantined@.len() ==> (#[trigger] self.quarantined@[i])@ != (
            #[trigger] self.quarantined@[k])@
        &&& forall|i: int|
            0 <= i < self.rows@.len() ==> (#[trigger] self.rows@[i]).quarantined
                == ident_quarantined(self.quarantined@, self.rows@[i].ident@)
    }

    /// An empty registry.
    pub fn new() -> (r: WorkerRegistry)
        ensures
            r.wf(),
            r.rows@.len() == 0,
            r.quarantined@.len() == 0,
    {
        WorkerRegistry { rows: Vec::new(), quarantined: Vec::new() }
    }

    /// Whether the worker has quarantined standing.
    pub fn is_quarantined(&self, ident: &String) -> (r: bool)
        ensures
            r == ident_quarantined(self.quarantined@, ident@),
    {
        let mut i: usize = 0;
        while i < self.quarantined.len()
            invariant
                i <= self.quarantined@.len(),
                forall|k: int| 0 <= k < i ==> (#[trigger] self.quarantined@[k])@ != ident@,
            decreases self.quarantined@.len() - i,
        {
            if self.quarantined[i].eq(ident) {
                return true;
            }
            i = i + 1;
        }
        false
    }

    /// How many rows the worker currently holds.
    pub fn busy_rows(&self, ident: &String) -> (r: usize)
        ensures
            r == busy_count(self.rows@, ident@),
    {
        let mut i: usize = 0;
        let mut n: usize = 0;
        while i < self.rows.len()
            invariant
                i <= self.rows@.len(),
                n <= i,
                n == busy_count(self.rows@.take(i as int), ident@),
            decreases self.rows@.len() - i,
        {
            proof {
                assert(self.rows@.take(i as int + 1).drop_last() =~= self.rows@.take(i as int));
                assert(self.rows@.take(i as int + 1).last() == self.rows@[i as int]);
            }
            if self.rows[i].ident.eq(ident) {
                n = n + 1;
            }
            i = i + 1;
        }
        proof {
            assert(self.rows@.take(self.rows@.len() as int) =~= self.rows@);
        }
        n
    }

    /// Dispatch eligibility of the worker under the given capacity.
    pub fn is_eligible(&self, ident: &String, capacity: usize) -> (r: bool)
        ensures
            r == spec_eligible(self.rows@, self.quarantined@, ident@, capacity),
    {
        if self.is_quarantined(ident) {
            return false;
        }
        let n = self.busy_rows(ident);
        n < capacity
    }

    /// Binds the worker to the job. A pair already present is a conflict
    /// and changes nothing; a worker never silently drops out of tracking.
    /// A fresh row is flagged with the worker's current quarantine
    /// standing, so rows acquired after a quarantine are born quarantined.
    pub fn mark_busy(&mut self, ident: String, job_id: i64, now: i64) -> (r: Result<(), Error>)
        requires
            old(self).wf(),
        ensures
            final(self).wf(),
            final(self).quarantined@ == old(self).quarantined@,
            r is Ok <==> !has_pair(old(self).rows@, ident@, job_id),
            r is Err ==> r == Result::<(), Error>::Err(Error::Conflict) && *final(self) == *old(
                self,
            ),
            r is Ok ==> {
                let added = final(self).rows@.last();
                &&& final(self).rows@ == old(self).rows@.push(added)
                &&& added.ident@ == ident@
                &&& added.job_id == job_id
                &&& added.quarantined == ident_quarantined(old(self).quarantined@, ident@)
                &&& added.created_at == Some(now)
                &&& added.updated_at == Some(now)
            },
    {
        match find_pair(&self.rows, &ident, job_id) {
            Some(_) => Err(Error::Conflict),
            None => {
                let flag = self.is_quarantined(&ident);
                let row = BusyWorker {
                    ident,
                    job_id,
                    quarantined: flag,
                    created_at: Some(now),
                    updated_at: Some(now),
                };
                self.rows.push(row);
                Ok(())
            },
        }
    }

    /// Releases the worker from the job. An absent pair is a no-op, not an
    /// error, so duplicate completion signals are tolerated.
    pub fn mark_idle(&mut self, ident: &String, job_id: i64)
        requires
            old(self).wf(),
        ensures
            final(self).wf(),
            final(self).quarantined@ == old(self).quarantined@,
            !has_pair(old(self).rows@, ident@, job_id) ==> *final(self) == *old(self),
            has_pair(old(self).rows@, ident@, job_id) ==> final(self).rows@ == old(
                self,
            ).rows@.remove(pair_index(old(self).rows@, ident@, job_id)),
    {
        match find_pair(&self.rows, ident, job_id) {
            None => {},
            Some(i) => {
                proof {
                    lemma_pair_index_unique(self.rows@, ident@, job_id, i as int);
                }
                self.rows.remove(i);
                proof {
                    let s0 = old(self).rows@;
                    let s1 = self.rows@;
                    assert forall|p: int, k: int| 0 <= p < k < s1.len() implies !((
                    #[trigger] s1[p]).ident@ == (#[trigger] s1[k]).ident@ && s1[p].job_id
                        == s1[k].job_id) by {
                        let p0 = if p < i as int {
                            p
                        } else {
                            p + 1
                        };
                        let k0 = if k < i as int {
                            k
                        } else {
                            k + 1
                        };
                        assert(s1[p] == s0[p0] && s1[k] == s0[k0]);
                    }
                    assert forall|p: int| 0 <= p < s1.len() implies (
                    #[trigger] s1[p]).quarantined == ident_quarantined(
                        self.quarantined@,
                        s1[p].ident@,
                    ) by {
                        let p0 = if p < i as int {
                            p
                        } else {
                            p + 1
                        };
                        assert(s1[p] == s0[p0]);
                    }
                }
            },
        }
    }

    /// Quarantines the worker: its standing is recorded, every row it
    /// currently holds is flagged, and rows it acquires later are born
    /// flagged. Idempotent.
    pub fn quarantine(&mut self, ident: &String)
        requires
            old(self).wf(),
        ensures
            final(self).wf(),
            ident_quarantined(final(self).quarantined@, ident@),
            forall|v: Seq<char>|
                #[trigger] ident_quarantined(final(self).quarantined@, v) == (v == ident@
                    || ident_quarantined(old(self).quarantined@, v)),
            final(self).rows@.len() == old(self).rows@.len(),
            forall|p: int|
                0 <= p < old(self).rows@.len() ==> #[trigger] final(self).rows@[p] == (if old(
                    self,
                ).rows@[p].ident@ == ident@ {
                    BusyWorker { quarantined: true, ..old(self).rows@[p] }
                } else {
                    old(self).rows@[p]
                }),
    {
        if !self.is_quarantined(ident) {
            self.quarantined.push(ident.clone());
            proof {
                assert(self.quarantined@[self.quarantined@.len() - 1]@ == ident@);
            }
        }
        let ghost q1 = self.quarantined@;
        let ghost rows0 = self.rows@;
        assert(ident_quarantined(q1, ident@));
        assert forall|v: Seq<char>| #[trigger] ident_quarantined(q1, v) == (v == ident@
            || ident_quarantined(old(self).quarantined@, v)) by {
            if ident_quarantined(q1, v) {
                let w = choose|i: int| 0 <= i < q1.len() && (#[trigger] q1[i])@ == v;
                if w < old(self).quarantined@.len() {
                    assert(ident_quarantined(old(self).quarantined@, v));
                }
            }
            if ident_quarantined(old(self).quarantined@, v) {
                let w = choose|i: int|
                    0 <= i < old(self).quarantined@.len() && (#[trigger] old(
                        self,
                    ).quarantined@[i])@ == v;
                assert(q1[w]@ == v);
            }
        }
        let mut i: usize = 0;
        while i < self.rows.len()
            invariant
                self.quarantined@ == q1,
                self.rows@.len() == rows0.len(),
                i <= rows0.len(),
                ident_quarantined(q1, ident@),
                forall|p: int|
                    0 <= p < i ==> #[trigger] self.rows@[p] == (if rows0[p].ident@ == ident@ {
                        BusyWorker { quarantined: true, ..rows0[p] }
                    } else {
                        rows0[p]
                    }),
                forall|p: int| i <= p < rows0.len() ==> #[trigger] self.rows@[p] == rows0[p],
            decreases rows0.len() - i,
        {
            if self.rows[i].ident.eq(ident) {
                let rm = &mut self.rows[i];
                rm.quarantined = true;
            }
            i = i + 1;
        }
        proof {
            assert forall|p: int| 0 <= p < self.rows@.len() implies (
            #[trigger] self.rows@[p]).quarantined == ident_quarantined(
                self.quarantined@,
                self.rows@[p].ident@,
            ) by {
                assert(rows0[p].quarantined == ident_quarantined(
                    old(self).quarantined@,
                    rows0[p].ident@,
                ));
            }
        }
    }

    /// Clears the worker's quarantine standing and unflags every row it
    /// holds. A worker with no standing is left as it is.
    pub fn clear_quarantine(&mut self, ident: &String)
        requires
            old(self).wf(),
        ensures
            final(self).wf(),
            !ident_quarantined(final(self).quarantined@, ident@),
            forall|v: Seq<char>|
                v != ident@ ==> #[trigger] ident_quarantined(final(self).quarantined@, v)
                    == ident_quarantined(old(self).quarantined@, v),
            final(self).rows@.len() == old(self).rows@.len(),
            forall|p: int|
                0 <= p < old(self).rows@.len() ==> #[trigger] final(self).rows@[p] == (if old(
                    self,
                ).rows@[p].ident@ == ident@ {
                    BusyWorker { quarantined: false, ..old(self).rows@[p] }
                } else {
                    old(self).rows@[p]
                }),
    {
        let ghost q0 = self.quarantined@;
        let found = find_ident(&self.quarantined, ident);
        match found {
            None => {},
            Some(k) => {
                self.quarantined.remove(k);
                proof {
                    let q1 = self.quarantined@;
                    assert forall|p: int| 0 <= p < q1.len() implies (#[trigger] q1[p])@
                        != ident@ by {
                        let p0 = if p < k as int {
                            p
                        } else {
                            p + 1
                        };
                        assert(q1[p] == q0[p0]);
                        if p0 != k as int {
                            assert(q0[p0]@ != q0[k as int]@);
                        }
                    }
                    assert forall|v: Seq<char>|
                        v != ident@ && ident_quarantined(q0, v) implies #[trigger] ident_quarantined(
                        q1,
                        v,
                    ) by {
                        let w = choose|x: int| 0 <= x < q0.len() && (#[trigger] q0[x])@ == v;
                        let w1 = if w < k as int {
                            w
                        } else {
                            w - 1
                        };
                        assert(q1[w1]@ == v);
                    }
                    assert forall|v: Seq<char>|
                        v != ident@ && ident_quarantined(q1, v) implies #[trigger] ident_quarantined(
                        q0,
                        v,
                    ) by {
                        let w = choose|x: int| 0 <= x < q1.len() && (#[trigger] q1[x])@ == v;
                        let w0 = if w < k as int {
                            w
                        } else {
                            w + 1
                        };
                        assert(q0[w0]@ == v);
                    }
                }
            },
        }
        let ghost q1 = self.quarantined@;
        let ghost rows0 = self.rows@;
        let mut p: usize = 0;
        while p < self.rows.len()
            invariant
                self.quarantined@ == q1,
                self.rows@.len() == rows0.len(),
                p <= rows0.len(),
                !ident_quarantined(q1, ident@),
                forall|t: int|
                    0 <= t < p ==> #[trigger] self.rows@[t] == (if rows0[t].ident@ == ident@ {
                        BusyWorker { quarantined: false, ..rows0[t] }
                    } else {
                        rows0[t]
                    }),
                forall|t: int| p <= t < rows0.len() ==> #[trigger] self.rows@[t] == rows0[t],
            decreases rows0.len() - p,
        {
            if self.rows[p].ident.eq(ident) {
                let rm = &mut self.rows[p];
                rm.quarantined = false;
            }
            p = p + 1;
        }
        proof {
            assert forall|t: int| 0 <= t < self.rows@.len() implies (
            #[trigger] self.rows@[t]).quarantined == ident_quarantined(
                self.quarantined@,
                self.rows@[t].ident@,
            ) by {
                assert(rows0[t].quarantined == ident_quarantined(q0, rows0[t].ident@));
            }
        }
    }
}

/// The position of the worker in the quarantine list, searched linearly.
fn find_ident(q: &Vec<String>, ident: &String) -> (r: Option<usize>)
    ensures
        match r {
            Some(i) => i < q@.len() && q@[i as int]@ == ident@,
            None => !ident_quarantined(q@, ident@),
        },
{
    let mut i: usize = 0;
    while i < q.len()
        invariant
            i <= q@.len(),
            forall|k: int| 0 <= k < i ==> (#[trigger] q@[k])@ != ident@,
        decreases q@.len() - i,
    {
        if q[i].eq(ident) {
            return Some(i);
        }
        i = i + 1;
    }
    None
}

/// The position of the row carrying the pair, searched linearly.
fn find_pair(rows: &Vec<BusyWorker>, ident: &String, job_id: i64) -> (r: Option<usize>)
    ensures
        match r {
            Some(i) => i < rows@.len() && rows@[i as int].ident@ == ident@ && rows@[
                i as int
            ].job_id == job_id,
            None => !has_pair(rows@, ident@, job_id),
        },
{
    let mut i: usize = 0;
    while i < rows.len()
        invariant
            i <= rows@.len(),
            forall|k: int|
                0 <= k < i ==> !((#[trigger] rows@[k]).ident@ == ident@ && rows@[k].job_id
                    == job_id),
        decreases rows@.len() - i,
    {
        if rows[i].job_id == job_id && rows[i].ident.eq(ident) {
            return Some(i);
        }
        i = i + 1;
    }
    None
}

/// Where pairs are unique, any position holding the pair is the position
/// `pair_index` names.
pub proof fn lemma_pair_index_unique(rs: Seq<BusyWorker>, w: Seq<char>, job: i64, i: int)
    requires
        forall|p: int, k: int|
            0 <= p < k < rs.len() ==> !((#[trigger] rs[p]).ident@ == (#[trigger] rs[k]).ident@
                && rs[p].job_id == rs[k].job_id),
        0 <= i < rs.len(),
        rs[i].ident@ == w,
        rs[i].job_id == job,
    ensures
        pair_index(rs, w, job) == i,
        has_pair(rs, w, job),
{
    assert(has_pair(rs, w, job));
    let k = pair_index(rs, w, job);
    if k != i {
        if k < i {
            assert(!(rs[k].ident@ == rs[i].ident@ && rs[k].job_id == rs[i].job_id));
        } else {
            assert(!(rs[i].ident@ == rs[k].ident@ && rs[i].job_id == rs[k].job_id));
        }
    }
}

/// Rows outside the pair contribute nothing to its count.
proof fn lemma_count_pair_zero(rs: Seq<BusyWorker>, w: Seq<char>, job: i64)
    requires
        !has_pair(rs, w, job),
    ensures
        count_pair(rs, w, job) == 0,
    decreases rs.len(),
{
    if rs.len() > 0 {
        assert(!has_pair(rs.drop_last(), w, job)) by {
            if has_pair(rs.drop_last(), w, job) {
                let i = choose|i: int|
                    0 <= i < rs.drop_last().len() && (#[trigger] rs.drop_last()[i]).ident@ == w
                        && rs.drop_last()[i].job_id == job;
                assert(rs[i].ident@ == w && rs[i].job_id == job);
            }
        }
        lemma_count_pair_zero(rs.drop_last(), w, job);
        assert(!(rs.last().ident@ == w && rs.last().job_id == job)) by {
            if rs.last().ident@ == w && rs.last().job_id == job {
                assert(rs[rs.len() - 1].ident@ == w && rs[rs.len() - 1].job_id == job);
            }
        }
    }
}

/// Law: after a worker is bound to a job it did not hold, the registry
/// reflects exactly one row for the pair, so a second identical binding
/// attempt finds the pair present and resolves as a conflict.
pub proof fn lemma_mark_busy_once(
    rs0: Seq<BusyWorker>,
    rs1: Seq<BusyWorker>,
    w: Seq<char>,
    job: i64,
    added: BusyWorker,
)
    requires
        !has_pair(rs0, w, job),
        rs1 == rs0.push(added),
        added.ident@ == w,
        added.job_id == job,
    ensures
        has_pair(rs1, w, job),
        count_pair(rs1, w, job) == 1,
{
    assert(rs1[rs1.len() - 1] == added);
    assert(has_pair(rs1, w, job));
    lemma_count_pair_zero(rs0, w, job);
    assert(rs1.drop_last() =~= rs0);
    assert(rs1.last() == added);
}

/// Law: a quarantined worker is never eligible, whatever rows it holds and
/// whatever capacity it is granted.
pub proof fn lemma_quarantine_excludes(
    rs: Seq<BusyWorker>,
    q: Seq<String>,
    w: Seq<char>,
    capacity: usize,
)
    requires
        ident_quarantined(q, w),
    ensures
        !spec_eligible(rs, q, w, capacity),
{
}

} // verus!
