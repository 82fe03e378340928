//! The task entity: its lifecycle states, its errors, and the pre-condition
//! checks that guard each transition.

use vstd::prelude::*;

verus! {

/// The position of a task in its fixed lifecycle: `Todo` at creation, then
/// `Doing`, then `Done`. `Any` is never the status of a stored task; it
/// serves only as a wildcard when filtering queries by status.
#[derive(Debug, Clone, Copy, PartialEq, Eq, Structural)]
pub enum Status {
    /// The task has been created but not yet started.
    Todo,
    /// The task is in progress.
    Doing,
    /// The task is completed.
    Done,
    /// Query wildcard: matches every status, is never a task's own state.
    Any,
}

/// Every failure the library reports. All of them are returned to the
/// caller as values; none is fatal.
#[derive(Debug, PartialEq, Eq)]
pub enum TaskError {
    /// An add was rejected because the task's name is empty.
    EmptyName,
    /// An add was rejected because the task was not in the `Todo` state.
    InvalidInitialStatus,
    /// A transition pre-condition found the task in the wrong state.
    WrongState,
    /// An add was rejected because a stored task already carries the same
    /// name under case-insensitive comparison; the stored task's name is
    /// carried along.
    DuplicateName(String),
    /// No stored task carries the requested id.
    NotFound,
    /// A transition was rejected because the stored task's status does not
    /// allow it.
    InvalidTransition,
}

/// One unit of work. `id` stays `None` until the repository accepts the
/// task; `created_at` and `updated_at` are clock readings in milliseconds
/// since the Unix epoch.
#[derive(Debug)]
pub struct Task {
    /// Unique identifier, assigned by the repository in insertion order.
    pub id: Option<u32>,
    /// Display title; unique case-insensitively across the repository.
    pub name: String,
    /// Free-form text, may be empty.
    pub description: String,
    /// Current lifecycle state.
    pub status: Status,
    /// When the task was constructed; fixed thereafter.
    pub created_at: i64,
    /// When the task last changed status; `None` until the first transition.
    pub updated_at: Option<i64>,
}

/// Relies on `chrono::Utc::now`: the current time, converted to milliseconds
/// since the Unix epoch. Nothing is promised of the value; the clock may
/// move either way between two calls.
#[verifier::external_body]
pub(crate) fn now_millis() -> i64 {
    chrono::Utc::now().timestamp_millis()
}

impl Task {
    /// A fresh task: `Todo`, not yet persisted, stamped with the current
    /// time, never yet updated. No validation happens here; that is a
    /// separate, explicit step.
    pub fn new(name: String, description: String) -> (t: Task)
        ensures
            t.id is None,
            t.name == name,
            t.description == description,
            t.status == Status::Todo,
            t.updated_at is None,
    {
        Task {
            id: None,
            name,
            description,
            status: Status::Todo,
            created_at: now_millis(),
            updated_at: None,
        }
    }

    /// An owned copy, equal to `self` field for field.
    pub fn duplicate(&self) -> (t: Task)
        ensures
            t == *self,
    {
        Task {
            id: self.id,
            name: self.name.clone(),
            description: self.description.clone(),
            status: self.status,
            created_at: self.created_at,
            updated_at: self.updated_at,
        }
    }

    /// Pre-condition check for adding: the name must be non-empty and the
    /// task must still be in its initial `Todo` state. Pure; mutates nothing.
    pub fn before_add(&self) -> (r: Result<(), TaskError>)
        ensures
            self.name@.len() == 0 ==> r == Err::<(), TaskError>(TaskError::EmptyName),
            self.name@.len() != 0 && self.status != Status::Todo ==> r == Err::<(), TaskError>(
                TaskError::InvalidInitialStatus,
            ),
            self.name@.len() != 0 && self.status == Status::Todo ==> r == Ok::<(), TaskError>(()),
    {
        if self.name.as_str().is_empty() {
            return Err(TaskError::EmptyName);
        }
        if self.status != Status::Todo {
            return Err(TaskError::InvalidInitialStatus);
        }
        Ok(())
    }

    /// Pre-condition check for starting work: only a `Todo` task may move
    /// to `Doing`. Pure; mutates nothing.
    pub fn before_move_to_doing(&self) -> (r: Result<(), TaskError>)
        ensures
            self.status == Status::Todo ==> r == Ok::<(), TaskError>(()),
            self.status != Status::Todo ==> r == Err::<(), TaskError>(TaskError::WrongState),
    {
        if self.status != Status::Todo {
            return Err(TaskError::WrongState);
        }
        Ok(())
    }

    /// Pre-condition check for completing: only a `Doing` task may move
    /// to `Done`. Pure; mutates nothing.
    pub fn before_move_to_done(&self) -> (r: Result<(), TaskError>)
        ensures
            self.status == Status::Doing ==> r == Ok::<(), TaskError>(()),
            self.status != Status::Doing ==> r == Err::<(), TaskError>(TaskError::WrongState),
    {
        if self.status != Status::Doing {
            return Err(TaskError::WrongState);
        }
        Ok(())
    }
}

} // verus!
