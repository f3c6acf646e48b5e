use pica_core::ids::{Id, IdPrefix};
use pica_core::record::RecordMetadata;
use pica_core::task::{CreateTaskRequest, Task};
use pica_core::watchdog::{complete_task, lease_eligible, task_timeout_secs};

fn task_at(start_time: i64, active: bool, worker_id: i64) -> Task {
    let mut metadata = RecordMetadata::new(0);
    metadata.active = active;
    Task {
        id: Id::now(IdPrefix::Task),
        worker_id,
        start_time,
        end_time: None,
        payload: serde_json::Value::Null,
        endpoint: "https://example.invalid/hook".to_string(),
        status: None,
        awaits: false,
        log_trail: Vec::new(),
        metadata,
    }
}

#[test]
fn lease_takes_only_eligible_tasks() {
    let now = 1000;
    let mut tasks = vec![
        task_at(now - 1, true, 0),  // eligible
        task_at(now + 50, true, 0), // not started yet
        task_at(now - 1, false, 0), // inactive
        task_at(now - 1, true, 7),  // already leased
        task_at(now, true, 0),      // eligible (start == now)
    ];
    let leased = lease_eligible(&mut tasks, now, 10);
    assert_eq!(leased.len(), 2);
    assert_eq!(tasks[0].worker_id, 1);
    assert!(!tasks[0].metadata.active);
    assert_eq!(tasks[1].worker_id, 0);
    assert_eq!(tasks[2].worker_id, 0);
    assert_eq!(tasks[3].worker_id, 7);
    assert_eq!(tasks[4].worker_id, 1);
}

#[test]
fn lease_respects_the_batch_bound() {
    let now = 10;
    let mut tasks = vec![
        task_at(1, true, 0),
        task_at(2, true, 0),
        task_at(3, true, 0),
    ];
    let leased = lease_eligible(&mut tasks, now, 2);
    assert_eq!(leased.len(), 2);
    assert_eq!(tasks[2].worker_id, 0);
}

#[test]
fn leased_tasks_never_lease_twice() {
    let now = 10;
    let mut tasks = vec![task_at(1, true, 0), task_at(2, true, 0)];
    let first = lease_eligible(&mut tasks, now, 10);
    assert_eq!(first.len(), 2);
    // A second watchdog tick (or replica) over the leased store gets nothing.
    let second = lease_eligible(&mut tasks, now + 100, 10);
    assert!(second.is_empty());
}

#[test]
fn executed_task_records_its_outcome() {
    let now = 500;
    let request = CreateTaskRequest {
        start_time: now - 1,
        endpoint: "https://example.invalid/run".to_string(),
        payload: serde_json::Value::Null,
        awaits: false,
    };
    let created = request.into_task(now - 5);
    // The caller's start time is honored: the task defers to it.
    assert_eq!(created.start_time, now - 1);
    assert_eq!(created.metadata.created_at, now - 5);
    let mut tasks = vec![created];
    let leased = lease_eligible(&mut tasks, now, 10);
    assert_eq!(leased.len(), 1);
    assert_eq!(tasks[0].worker_id, 1);
    assert!(!tasks[0].metadata.active);

    let mut done = tasks.remove(0);
    complete_task(
        &mut done,
        "200 OK".to_string(),
        now + 3,
        vec![b"chunk".to_vec()],
    );
    assert_eq!(done.status.as_ref().unwrap().as_str(), "200 OK");
    assert_eq!(done.end_time.unwrap(), now + 3);
    assert!(done.end_time.unwrap() >= done.start_time);
    assert_eq!(done.log_trail.len(), 1);
}

#[test]
fn awaiting_tasks_get_the_long_timeout() {
    let mut patient = task_at(0, true, 0);
    patient.awaits = true;
    assert_eq!(task_timeout_secs(&patient, 10), 300);
    let hasty = task_at(0, true, 0);
    assert_eq!(task_timeout_secs(&hasty, 10), 10);
}
