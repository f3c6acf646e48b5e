//! The watchdog's task handling: picking eligible tasks, leasing them so
//! no other watchdog replica can run them, and writing back the outcome.
//! The store's atomic update is the linearization point; this module
//! carries its semantics.

use vstd::prelude::*;
use crate::record::RecordMetadata;
use crate::task::{spec_eligible, task_like, Task};
use crate::text::{dec_chars, u64_to_string};

verus! {

/// How long one task's HTTP call may run when it awaits its response.
pub const AWAIT_TIMEOUT_SECS: u64 = 300;

/// The timeout for one task's HTTP call: a fixed generous timeout for
/// tasks that await their response, the configured one otherwise.
pub fn task_timeout_secs(task: &Task, configured: u64) -> (r: u64)
    ensures
        r == (if task.awaits {
            AWAIT_TIMEOUT_SECS as int
        } else {
            configured as int
        }),
{
    if task.awaits {
        AWAIT_TIMEOUT_SECS
    } else {
        configured
    }
}

/// A task as the lease leaves it: taken by worker one, no longer active.
pub open spec fn spec_lease_mark(t: Task) -> Task {
    Task { worker_id: 1, metadata: RecordMetadata { active: false, ..t.metadata }, ..t }
}

/// How many tasks before position `i` are eligible at `now`.
pub open spec fn eligible_rank(tasks: Seq<Task>, now: i64, i: int) -> int
    decreases i,
{
    if i <= 0 {
        0
    } else {
        eligible_rank(tasks, now, i - 1) + (if spec_eligible(tasks[i - 1], now) {
            1int
        } else {
            0int
        })
    }
}

/// Whether the lease takes the task at position `i`: it is eligible and
/// within the batch bound.
pub open spec fn spec_leased_at(tasks: Seq<Task>, now: i64, max: int, i: int) -> bool {
    spec_eligible(tasks[i], now) && eligible_rank(tasks, now, i) < max
}

/// Whether `after` is `before` with one lease applied: every taken task
/// marked (up to chunk copying), the rest untouched.
pub open spec fn is_lease_state(before: Seq<Task>, after: Seq<Task>, now: i64, max: int) -> bool {
    &&& after.len() == before.len()
    &&& (forall|j: int|
        0 <= j < before.len() ==> #[trigger] after[j] == before[j] || (spec_leased_at(
            before,
            now,
            max,
            j,
        ) && task_like(after[j], spec_lease_mark(before[j]))))
    &&& (forall|j: int|
        0 <= j < before.len() && spec_leased_at(before, now, max, j) ==> task_like(
            #[trigger] after[j],
            spec_lease_mark(before[j]),
        ))
}

/// Whether `idxs` lists exactly the positions the lease takes from
/// `tasks` (in order), and `leased` holds those tasks as they were.
pub open spec fn is_leased_selection(
    tasks: Seq<Task>,
    now: i64,
    max: int,
    idxs: Seq<int>,
    leased: Seq<Task>,
) -> bool {
    &&& idxs.len() == leased.len()
    &&& (forall|a: int, b: int| 0 <= a < b < idxs.len() ==> idxs[a] < idxs[b])
    &&& (forall|k: int|
        0 <= k < idxs.len() ==> 0 <= #[trigger] idxs[k] < tasks.len() && spec_leased_at(
            tasks,
            now,
            max,
            idxs[k],
        ) && leased[k] == tasks[idxs[k]])
    &&& (forall|j: int|
        0 <= j < tasks.len() && spec_leased_at(tasks, now, max, j) ==> idxs.contains(j))
}

/// Lease every eligible task, up to `max` of them: mark each as taken in
/// the store model, and hand back the tasks as they were for execution.
pub fn lease_eligible(tasks: &mut Vec<Task>, now: i64, max: u64) -> (r: Vec<Task>)
    ensures
        is_lease_state(old(tasks)@, final(tasks)@, now, max as int),
        r@.len() <= max,
        exists|idxs: Seq<int>| is_leased_selection(old(tasks)@, now, max as int, idxs, r@),
{
    let ghost orig = tasks@;
    let mut leased: Vec<Task> = Vec::new();
    let mut idxs: Ghost<Seq<int>> = Ghost(Seq::empty());
    let n = tasks.len();
    let mut i: usize = 0;
    let mut taken: u64 = 0;
    while i < n
        invariant
            0 <= i <= n,
            n == orig.len(),
            tasks@.len() == orig.len(),
            taken <= max,
            taken == (if eligible_rank(orig, now, i as int) < max {
                eligible_rank(orig, now, i as int)
            } else {
                max as int
            }),
            forall|j: int|
                0 <= j < i && spec_leased_at(orig, now, max as int, j) ==> task_like(
                    #[trigger] tasks@[j],
                    spec_lease_mark(orig[j]),
                ),
            forall|j: int|
                0 <= j < i && !spec_leased_at(orig, now, max as int, j) ==> #[trigger] tasks@[j]
                    == orig[j],
            forall|j: int| i <= j < n ==> #[trigger] tasks@[j] == orig[j],
            leased@.len() == idxs@.len(),
            leased@.len() == taken,
            forall|a: int, b: int| 0 <= a < b < idxs@.len() ==> idxs@[a] < idxs@[b],
            forall|k: int|
                0 <= k < idxs@.len() ==> 0 <= #[trigger] idxs@[k] < i && spec_leased_at(
                    orig,
                    now,
                    max as int,
                    idxs@[k],
                ) && leased@[k] == orig[idxs@[k]],
            forall|j: int|
                0 <= j < i && spec_leased_at(orig, now, max as int, j) ==> idxs@.contains(j),
        decreases n - i,
    {
        let eligible_now = tasks[i].eligible(now);
        proof {
            assert(tasks@[i as int] == orig[i as int]);
            assert(eligible_rank(orig, now, i + 1) == eligible_rank(orig, now, i as int) + (
            if spec_eligible(orig[i as int], now) {
                1int
            } else {
                0int
            }));
        }
        if eligible_now && taken < max {
            let original = tasks.remove(i);
            let mut marked = original.clone_task();
            let ghost m0 = marked;
            marked.worker_id = 1;
            marked.metadata.active = false;
            proof {
                assert(original == orig[i as int]);
                assert(task_like(m0, original));
                assert(marked == (Task {
                    worker_id: 1,
                    metadata: RecordMetadata { active: false, ..m0.metadata },
                    ..m0
                }));
                assert(task_like(marked, spec_lease_mark(orig[i as int])));
            }
            tasks.insert(i, marked);
            leased.push(original);
            proof {
                let prev = idxs@;
                idxs@ = idxs@.push(i as int);
                assert(spec_leased_at(orig, now, max as int, i as int));
                assert(task_like(tasks@[i as int], spec_lease_mark(orig[i as int])));
                assert(idxs@[idxs@.len() - 1] == i as int);
                assert(idxs@.contains(i as int));
                assert(forall|j: int|
                    0 <= j < i && spec_leased_at(orig, now, max as int, j) ==> idxs@.contains(j))
                    by {
                    assert forall|j: int|
                        0 <= j < i && spec_leased_at(orig, now, max as int, j) implies idxs@.contains(
                        j,
                    ) by {
                        assert(prev.contains(j));
                        let k = choose|k: int| 0 <= k < prev.len() && prev[k] == j;
                        assert(idxs@[k] == j);
                    }
                }
            }
            taken = taken + 1;
        } else {
            proof {
                if eligible_now {
                    assert(taken == max);
                    assert(!spec_leased_at(orig, now, max as int, i as int));
                }
            }
        }
        i = i + 1;
    }
    proof {
        assert(is_leased_selection(orig, now, max as int, idxs@, leased@));
    }
    leased
}

/// A task taken by a lease is no longer eligible, whatever the clock
/// says: its lease token is set. So however many watchdogs race, the
/// store's serialized leases hand each task out at most once.
pub proof fn lemma_lease_exclusive(
    before: Seq<Task>,
    after: Seq<Task>,
    now1: i64,
    max1: int,
    now2: i64,
    max2: int,
    i: int,
)
    requires
        0 <= i < before.len(),
        is_lease_state(before, after, now1, max1),
        spec_leased_at(before, now1, max1, i),
    ensures
        !spec_eligible(after[i], now2),
        !spec_leased_at(after, now2, max2, i),
{
    assert(task_like(after[i], spec_lease_mark(before[i])));
    assert(after[i].worker_id == 1);
}

/// Record a finished task: its status text, when it ended, and the
/// response chunks it streamed.
pub fn complete_task(task: &mut Task, status: String, end_time: i64, log_trail: Vec<Vec<u8>>)
    ensures
        *final(task) == (Task {
            status: Some(status),
            end_time: Some(end_time),
            log_trail,
            ..*old(task)
        }),
{
    task.status = Some(status);
    task.end_time = Some(end_time);
    task.log_trail = log_trail;
}

/// What the watchdog was configured with.
#[derive(Debug, Clone)]
pub struct WatchdogConfig {
    pub rate_limiter_refresh_interval: u64,
    pub http_client_timeout_secs: u64,
    pub max_amount_of_tasks_to_process: u64,
}

/// The rendered form of a watchdog configuration, one value per line.
pub open spec fn spec_config_text(c: WatchdogConfig) -> Seq<char> {
    "RATE_LIMITER_REFRESH_INTERVAL: "@ + dec_chars(c.rate_limiter_refresh_interval as int) + "\n"@
        + "HTTP_CLIENT_TIMEOUT_SECS: "@ + dec_chars(c.http_client_timeout_secs as int) + "\n"@
        + "MAX_AMOUNT_OF_TASKS_TO_PROCESS: "@ + dec_chars(c.max_amount_of_tasks_to_process as int)
        + "\n"@
}

impl WatchdogConfig {
    /// Render the configuration for logs.
    pub fn describe(&self) -> (r: String)
        ensures
            r@ == spec_config_text(*self),
    {
        let mut s = "RATE_LIMITER_REFRESH_INTERVAL: ".to_owned();
        s.append(u64_to_string(self.rate_limiter_refresh_interval).as_str());
        s.append("\n");
        s.append("HTTP_CLIENT_TIMEOUT_SECS: ");
        s.append(u64_to_string(self.http_client_timeout_secs).as_str());
        s.append("\n");
        s.append("MAX_AMOUNT_OF_TASKS_TO_PROCESS: ");
        s.append(u64_to_string(self.max_amount_of_tasks_to_process).as_str());
        s.append("\n");
        proof {
            assert(s@ =~= spec_config_text(*self));
        }
        s
    }
}

} // verus!
