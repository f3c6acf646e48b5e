//! A deferred HTTP POST: created through the admin surface, leased and
//! executed by the watchdog.

use vstd::prelude::*;
use crate::ids::{Id, IdPrefix};
use crate::record::RecordMetadata;

verus! {

/// A deferred HTTP POST. `worker_id` is an opaque lease token: zero
/// means unleased. A task is eligible to run when it is active, unleased
/// and its start time has passed.
#[derive(Debug, Clone)]
pub struct Task {
    pub id: Id,
    pub worker_id: i64,
    pub start_time: i64,
    pub end_time: Option<i64>,
    pub payload: serde_json::Value,
    pub endpoint: String,
    pub status: Option<String>,
    pub awaits: bool,
    pub log_trail: Vec<Vec<u8>>,
    pub metadata: RecordMetadata,
}

/// Whether a task may be picked up at `now`.
pub open spec fn spec_eligible(t: Task, now: i64) -> bool {
    t.metadata.active && t.worker_id == 0 && t.start_time <= now
}

/// Whether two tasks hold the same data, chunk for chunk. Cloning
/// preserves this relation.
pub open spec fn task_like(a: Task, b: Task) -> bool {
    &&& a.id == b.id
    &&& a.worker_id == b.worker_id
    &&& a.start_time == b.start_time
    &&& a.end_time == b.end_time
    &&& a.payload == b.payload
    &&& a.endpoint == b.endpoint
    &&& a.status == b.status
    &&& a.awaits == b.awaits
    &&& a.log_trail@.len() == b.log_trail@.len()
    &&& (forall|i: int|
        0 <= i < a.log_trail@.len() ==> (#[trigger] a.log_trail@[i])@ == b.log_trail@[i]@)
    &&& a.metadata == b.metadata
}

/// Copy one response chunk.
fn clone_bytes(v: &Vec<u8>) -> (r: Vec<u8>)
    ensures
        r@ == v@,
{
    let mut out: Vec<u8> = Vec::new();
    let n = v.len();
    let mut i: usize = 0;
    while i < n
        invariant
            0 <= i <= n,
            n == v@.len(),
            out@ == v@.subrange(0, i as int),
        decreases n - i,
    {
        out.push(v[i]);
        proof {
            assert(out@ =~= v@.subrange(0, i + 1));
        }
        i = i + 1;
    }
    proof {
        assert(v@.subrange(0, n as int) =~= v@);
    }
    out
}

/// Copy a list of response chunks.
fn clone_chunks(v: &Vec<Vec<u8>>) -> (r: Vec<Vec<u8>>)
    ensures
        r@.len() == v@.len(),
        forall|i: int| 0 <= i < v@.len() ==> (#[trigger] r@[i])@ == v@[i]@,
{
    let mut out: Vec<Vec<u8>> = Vec::new();
    let n = v.len();
    let mut i: usize = 0;
    while i < n
        invariant
            0 <= i <= n,
            n == v@.len(),
            out@.len() == i,
            forall|j: int| 0 <= j < i ==> (#[trigger] out@[j])@ == v@[j]@,
        decreases n - i,
    {
        out.push(clone_bytes(&v[i]));
        i = i + 1;
    }
    out
}

impl Task {
    /// The same record over again, its response chunks duplicated.
    pub fn clone_task(&self) -> (r: Task)
        ensures
            task_like(r, *self),
    {
        Task {
            id: self.id.clone(),
            worker_id: self.worker_id,
            start_time: self.start_time,
            end_time: self.end_time,
            payload: self.payload.clone(),
            endpoint: self.endpoint.clone(),
            status: match &self.status {
                Some(s) => Some(s.clone()),
                None => None,
            },
            awaits: self.awaits,
            log_trail: clone_chunks(&self.log_trail),
            metadata: self.metadata,
        }
    }

    /// Whether the watchdog may pick the record up at `now`.
    pub fn eligible(&self, now: i64) -> (r: bool)
        ensures
            r == spec_eligible(*self, now),
    {
        self.metadata.active && self.worker_id == 0 && self.start_time <= now
    }
}

/// What a caller posts to create a task.
#[derive(Debug, Clone)]
pub struct CreateTaskRequest {
    pub start_time: i64,
    pub endpoint: String,
    pub payload: serde_json::Value,
    pub awaits: bool,
}

impl CreateTaskRequest {
    /// The stored task this request creates: fresh id, unleased, active,
    /// created at `now`, and deferred to the caller's start time — the
    /// task becomes eligible exactly when that time has passed.
    pub fn into_task(self, now: i64) -> (r: Task)
        ensures
            r.worker_id == 0,
            r.start_time == self.start_time,
            r.end_time is None,
            r.payload == self.payload,
            r.endpoint == self.endpoint,
            r.status is None,
            r.awaits == self.awaits,
            r.log_trail@.len() == 0,
            r.metadata == RecordMetadata::spec_new(now),
            forall|at: i64| spec_eligible(r, at) <==> self.start_time <= at,
    {
        Task {
            id: Id::now(IdPrefix::Task),
            worker_id: 0,
            start_time: self.start_time,
            end_time: None,
            payload: self.payload,
            endpoint: self.endpoint,
            status: None,
            awaits: self.awaits,
            log_trail: Vec::new(),
            metadata: RecordMetadata::new(now),
        }
    }
}

} // verus!
