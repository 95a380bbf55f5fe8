use registry_core::tasks::resolve;
use registry_core::tasks::BlockingTaskResult;
use registry_core::tasks::TaskError;
use registry_core::tasks::TaskEvent;
use registry_core::tasks::TaskState;
use registry_core::tasks::WorkerExit;

#[test]
fn returned_value_is_ok() {
    let exit: WorkerExit<u32, String> = WorkerExit::Returned(Ok(7));
    let result: BlockingTaskResult<u32, String> = resolve(exit);
    assert!(matches!(result, BlockingTaskResult::Ok(7)));
}

#[test]
fn returned_error_is_the_inner_error() {
    let exit: WorkerExit<u32, String> = WorkerExit::Returned(Err("not found".to_string()));
    match resolve(exit) {
        Err(TaskError::InnerError(error)) => assert_eq!(error, "not found"),
        other => panic!("expected the inner error, got {:?}", other),
    }
}

#[test]
fn aborted_worker_is_a_fault() {
    let exit: WorkerExit<u32, String> = WorkerExit::Aborted;
    let result = resolve(exit);
    assert!(matches!(result, Err(TaskError::WorkerFault)));
    assert!(result.unwrap_err().is_worker_fault());
}

#[test]
fn only_an_abort_is_a_fault() {
    let done: BlockingTaskResult<u32, String> = resolve(WorkerExit::Returned(Ok(1)));
    assert!(done.is_ok());
    let failed: BlockingTaskResult<u32, String> =
        resolve(WorkerExit::Returned(Err("e".to_string())));
    assert!(!failed.unwrap_err().is_worker_fault());
}

#[test]
fn nothing_is_seen_before_the_end() {
    let state: TaskState<u32, String> = TaskState::dispatched();
    assert!(matches!(state, TaskState::Dispatched));
    assert!(state.outcome().is_none());
    let state: TaskState<u32, String> = TaskState::dispatched().advance(TaskEvent::Started);
    assert!(matches!(state, TaskState::Running));
    assert!(state.outcome().is_none());
}

#[test]
fn dispatched_running_completed() {
    let state: TaskState<u32, String> = TaskState::dispatched()
        .advance(TaskEvent::Started)
        .advance(TaskEvent::Exited(WorkerExit::Returned(Ok(5))));
    assert!(matches!(state, TaskState::Completed(5)));
    assert!(matches!(state.outcome(), Some(Ok(5))));
}

#[test]
fn dispatched_running_failed() {
    let state: TaskState<u32, String> = TaskState::dispatched()
        .advance(TaskEvent::Started)
        .advance(TaskEvent::Exited(WorkerExit::Returned(Err("boom".to_string()))));
    match state.outcome() {
        Some(Err(TaskError::InnerError(error))) => assert_eq!(error, "boom"),
        other => panic!("expected a failure, got {:?}", other),
    }
}

#[test]
fn dispatched_running_faulted() {
    let state: TaskState<u32, String> = TaskState::dispatched()
        .advance(TaskEvent::Started)
        .advance(TaskEvent::Exited(WorkerExit::Aborted));
    assert!(matches!(state, TaskState::Faulted));
    assert!(matches!(state.outcome(), Some(Err(TaskError::WorkerFault))));
}

#[test]
fn abort_before_start_is_a_fault_too() {
    let state: TaskState<u32, String> =
        TaskState::dispatched().advance(TaskEvent::Exited(WorkerExit::Aborted));
    assert!(matches!(state.outcome(), Some(Err(TaskError::WorkerFault))));
}

#[test]
fn second_start_changes_nothing() {
    let state: TaskState<u32, String> = TaskState::dispatched()
        .advance(TaskEvent::Started)
        .advance(TaskEvent::Started);
    assert!(matches!(state, TaskState::Running));
}

#[test]
fn terminal_state_ignores_later_events() {
    let state: TaskState<u32, String> = TaskState::dispatched()
        .advance(TaskEvent::Started)
        .advance(TaskEvent::Exited(WorkerExit::Returned(Ok(5))))
        .advance(TaskEvent::Exited(WorkerExit::Aborted))
        .advance(TaskEvent::Started);
    assert!(matches!(state.outcome(), Some(Ok(5))));
    let fault: TaskState<u32, String> = TaskState::dispatched()
        .advance(TaskEvent::Exited(WorkerExit::Aborted))
        .advance(TaskEvent::Exited(WorkerExit::Returned(Ok(1))));
    assert!(matches!(fault.outcome(), Some(Err(TaskError::WorkerFault))));
}
