//! Outcomes of blocking work that runs on a worker pool.
//!
//! The caller that moves a unit of work to a worker thread suspends once and
//! sees only how the work ended. This module holds those endings and the
//! rules that turn what the worker thread left behind into a typed result.
//! Work that was dispatched is never cancelled: if the caller stops waiting,
//! the work still runs to its end and its result is dropped.

use vstd::prelude::*;

verus! {

/// What a worker thread reports when a unit of work leaves it.
#[derive(Debug)]
pub enum WorkerExit<T, E> {
    /// The work function ran to its end and returned this value.
    Returned(Result<T, E>),
    /// The worker thread ended abruptly before the work produced a value.
    Aborted,
}

/// Why a unit of work produced no value.
#[derive(Debug)]
pub enum TaskError<E> {
    /// The work ran to its end and returned this application error.
    InnerError(E),
    /// The worker thread terminated abnormally. Nothing of the cause is
    /// carried along: it is for the log and not for the client.
    WorkerFault,
}

/// The outcome of one unit of work, as the awaiting caller sees it: the
/// value, the work's own error, or a worker fault.
pub type BlockingTaskResult<T, E> = Result<T, TaskError<E>>;

/// Where a unit of work stands between dispatch and its end.
#[derive(Debug)]
pub enum TaskState<T, E> {
    /// Handed to the pool, not yet picked up by a worker.
    Dispatched,
    /// A worker is running it.
    Running,
    /// Terminal: returned a value.
    Completed(T),
    /// Terminal: returned an application error.
    Failed(E),
    /// Terminal: the worker ended abnormally.
    Faulted,
}

/// What can happen to a unit of work after it was dispatched.
#[derive(Debug)]
pub enum TaskEvent<T, E> {
    /// A worker picked the work up.
    Started,
    /// The work left its worker.
    Exited(WorkerExit<T, E>),
}

/// The result that belongs to a worker's report.
pub open spec fn resolved<T, E>(exit: WorkerExit<T, E>) -> BlockingTaskResult<T, E> {
    match exit {
        WorkerExit::Returned(Ok(value)) => Ok(value),
        WorkerExit::Returned(Err(error)) => Err(TaskError::InnerError(error)),
        WorkerExit::Aborted => Err(TaskError::WorkerFault),
    }
}

/// Turns the worker's report into the caller's result: a returned value is
/// that value, a returned error is that error as the inner error, and an
/// abrupt end is a worker fault.
pub fn resolve<T, E>(exit: WorkerExit<T, E>) -> (result: BlockingTaskResult<T, E>)
    ensures
        result == resolved(exit),
{
    match exit {
        WorkerExit::Returned(Ok(value)) => Ok(value),
        WorkerExit::Returned(Err(error)) => Err(TaskError::InnerError(error)),
        WorkerExit::Aborted => Err(TaskError::WorkerFault),
    }
}

impl<E> TaskError<E> {
    /// Whether the worker ended abnormally, which the client is told as an
    /// internal error without detail.
    pub fn is_worker_fault(&self) -> (fault: bool)
        ensures
            fault == (*self is WorkerFault),
    {
        match self {
            TaskError::WorkerFault => true,
            TaskError::InnerError(_) => false,
        }
    }
}

impl<T, E> TaskState<T, E> {
    /// A terminal state is one that no event changes any more.
    pub open spec fn is_terminal(self) -> bool {
        self is Completed || self is Failed || self is Faulted
    }

    /// The terminal state that shows `result`.
    pub open spec fn settled(result: BlockingTaskResult<T, E>) -> TaskState<T, E> {
        match result {
            Ok(value) => TaskState::Completed(value),
            Err(TaskError::InnerError(error)) => TaskState::Failed(error),
            Err(TaskError::WorkerFault) => TaskState::Faulted,
        }
    }

    /// The state that follows `self` when `event` happens. A terminal state
    /// stays as it is. Before the end, a start leads to `Running` and an exit
    /// to the terminal state of its result, whether or not the start was
    /// seen.
    pub open spec fn next(self, event: TaskEvent<T, E>) -> TaskState<T, E> {
        if self.is_terminal() {
            self
        } else {
            match event {
                TaskEvent::Started => TaskState::Running,
                TaskEvent::Exited(exit) => TaskState::settled(resolved(exit)),
            }
        }
    }

    /// What the awaiting caller can see of this state: nothing before the end.
    pub open spec fn observed(self) -> Option<BlockingTaskResult<T, E>> {
        match self {
            TaskState::Dispatched => None,
            TaskState::Running => None,
            TaskState::Completed(value) => Some(Ok(value)),
            TaskState::Failed(error) => Some(Err(TaskError::InnerError(error))),
            TaskState::Faulted => Some(Err(TaskError::WorkerFault)),
        }
    }

    /// The state of a unit of work that was just handed to the pool.
    pub fn dispatched() -> (state: Self)
        ensures
            state == TaskState::<T, E>::Dispatched,
    {
        TaskState::Dispatched
    }

    /// Applies one event; see `next`.
    pub fn advance(self, event: TaskEvent<T, E>) -> (after: Self)
        ensures
            after == self.next(event),
    {
        match self {
            TaskState::Completed(value) => TaskState::Completed(value),
            TaskState::Failed(error) => TaskState::Failed(error),
            TaskState::Faulted => TaskState::Faulted,
            _ => match event {
                TaskEvent::Started => TaskState::Running,
                TaskEvent::Exited(exit) => match resolve(exit) {
                    Ok(value) => TaskState::Completed(value),
                    Err(TaskError::InnerError(error)) => TaskState::Failed(error),
                    Err(TaskError::WorkerFault) => TaskState::Faulted,
                },
            },
        }
    }

    /// Hands out the result once the work has ended.
    pub fn outcome(self) -> (seen: Option<BlockingTaskResult<T, E>>)
        ensures
            seen == self.observed(),
            seen is Some <==> self.is_terminal(),
    {
        match self {
            TaskState::Dispatched => None,
            TaskState::Running => None,
            TaskState::Completed(value) => Some(Ok(value)),
            TaskState::Failed(error) => Some(Err(TaskError::InnerError(error))),
            TaskState::Faulted => Some(Err(TaskError::WorkerFault)),
        }
    }
}

/// A worker's report decides the result alone: work that returns a value
/// yields that value, work that fails with an application error yields that
/// error, and a worker fault is reported exactly when the worker ended
/// abruptly. A fault is never taken for an error of the work, nor the other
/// way round.
pub proof fn lemma_resolved_cases<T, E>(exit: WorkerExit<T, E>)
    ensures
        exit matches WorkerExit::Returned(Ok(value)) ==> resolved(exit) == Ok::<T, TaskError<E>>(
            value,
        ),
        exit matches WorkerExit::Returned(Err(error)) ==> resolved(exit) == Err::<T, TaskError<E>>(
            TaskError::InnerError(error),
        ),
        exit is Aborted <==> resolved(exit) == Err::<T, TaskError<E>>(TaskError::WorkerFault),
{
}

/// Every exit ends the work: whatever state came before the end, the state
/// after an exit is terminal and shows exactly the exit's result, and no
/// later event changes it. The caller is never left waiting after an exit.
pub proof fn lemma_exit_is_final<T, E>(
    state: TaskState<T, E>,
    exit: WorkerExit<T, E>,
    later: TaskEvent<T, E>,
)
    requires
        !state.is_terminal(),
    ensures
        state.next(TaskEvent::Exited(exit)).is_terminal(),
        state.next(TaskEvent::Exited(exit)).observed() == Some(resolved(exit)),
        state.next(TaskEvent::Exited(exit)).next(later) == state.next(TaskEvent::Exited(exit)),
{
}

} // verus!
