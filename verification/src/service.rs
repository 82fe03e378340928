//! The service: the thin orchestration layer external collaborators use.
//! It validates against the task's own pre-condition checks before
//! delegating mutation to the injected repository.

use vstd::prelude::*;

use crate::domain::Status;
use crate::domain::Task;
use crate::domain::TaskError;
use crate::repository::added_with;
use crate::repository::filter_status;
use crate::repository::has_matching_name;
use crate::repository::has_task_id;
use crate::repository::is_first_match_name;
use crate::repository::step_outcome;
use crate::repository::tasks_updated;
use crate::repository::wf_tasks;
use crate::repository::TaskRepository;

verus! {

/// Task operations over an injected repository. Every mutation is validated
/// with the task's own pre-condition checks before the repository is asked
/// to perform it.
pub struct TaskService<R: TaskRepository> {
    repo: R,
}

impl<R: TaskRepository> TaskService<R> {
    /// The stored tasks, in insertion order: the injected repository's view.
    pub closed spec fn tasks(&self) -> Seq<Task> {
        self.repo.tasks()
    }

    /// A service over the given repository, which it takes ownership of.
    pub fn new(repo: R) -> (s: Self)
        ensures
            s.tasks() == repo.tasks(),
    {
        Self { repo }
    }

    /// Constructs a task from the given name and description, validates it,
    /// and on success hands it to the repository: rejected with `EmptyName`
    /// when the name is empty, with `DuplicateName` (carrying the first
    /// colliding stored name) when the name collides case-insensitively
    /// with a stored task; otherwise accepted under the next id, with a
    /// view of the stored task returned. The length bound is a machine
    /// limit: the id assigned next must fit in a `u32`.
    pub fn add_task(&mut self, name: &str, desc: &str) -> (r: Result<Task, TaskError>)
        requires
            wf_tasks(old(self).tasks()),
            old(self).tasks().len() < u32::MAX,
        ensures
            wf_tasks(final(self).tasks()),
            name@.len() == 0 ==> final(self).tasks() == old(self).tasks() && r == Err::<
                Task,
                TaskError,
            >(TaskError::EmptyName),
            name@.len() != 0 && has_matching_name(old(self).tasks(), name@) ==> ({
                &&& final(self).tasks() == old(self).tasks()
                &&& (r matches Err(TaskError::DuplicateName(m)) && is_first_match_name(
                    old(self).tasks(),
                    name@,
                    m@,
                ))
            }),
            name@.len() != 0 && !has_matching_name(old(self).tasks(), name@) ==> ({
                &&& final(self).tasks() == old(self).tasks().push(final(self).tasks().last())
                &&& added_with(
                    final(self).tasks().last(),
                    name@,
                    desc@,
                    old(self).tasks().len() as int + 1,
                )
                &&& (r matches Ok(t) && t == final(self).tasks().last())
            }),
    {
        let task = Task::new(name.to_owned(), desc.to_owned());
        match task.before_add() {
            Err(e) => Err(e),
            Ok(()) => self.repo.add_task(task),
        }
    }

    /// Starts work on the task carrying `id`: fails with `NotFound` when the
    /// id is absent and with `WrongState` when the task is not in `Todo`;
    /// otherwise the repository moves it to `Doing` and stamps the update.
    pub fn move_to_doing(&mut self, id: u32) -> (r: Result<(), TaskError>)
        requires
            wf_tasks(old(self).tasks()),
        ensures
            wf_tasks(final(self).tasks()),
            r == step_outcome(old(self).tasks(), id, Status::Todo, TaskError::WrongState),
            r is Ok ==> tasks_updated(old(self).tasks(), final(self).tasks(), id, Status::Doing),
            r is Err ==> final(self).tasks() == old(self).tasks(),
    {
        let found = self.repo.find_by_id(id);
        match found {
            None => Err(TaskError::NotFound),
            Some(task) => match task.before_move_to_doing() {
                Err(e) => Err(e),
                Ok(()) => self.repo.move_to_doing(id),
            },
        }
    }

    /// Completes the task carrying `id`: fails with `NotFound` when the id
    /// is absent and with `WrongState` when the task is not in `Doing`;
    /// otherwise the repository moves it to `Done` and stamps the update.
    pub fn move_to_done(&mut self, id: u32) -> (r: Result<(), TaskError>)
        requires
            wf_tasks(old(self).tasks()),
        ensures
            wf_tasks(final(self).tasks()),
            r == step_outcome(old(self).tasks(), id, Status::Doing, TaskError::WrongState),
            r is Ok ==> tasks_updated(old(self).tasks(), final(self).tasks(), id, Status::Done),
            r is Err ==> final(self).tasks() == old(self).tasks(),
    {
        let found = self.repo.find_by_id(id);
        match found {
            None => Err(TaskError::NotFound),
            Some(task) => match task.before_move_to_done() {
                Err(e) => Err(e),
                Ok(()) => self.repo.move_to_done(id),
            },
        }
    }

    /// Views of the stored tasks whose status passes the filter, in
    /// insertion order; the wildcard `Status::Any` lists every task. Pure
    /// delegation to the repository.
    pub fn list_by_status(&self, status: Status) -> (r: Vec<Task>)
        requires
            wf_tasks(self.tasks()),
        ensures
            r@ == filter_status(self.tasks(), status),
    {
        self.repo.list_by_status(status)
    }

    /// A view of the stored task carrying `id`, if any. Pure delegation to
    /// the repository.
    pub fn find_by_id(&self, id: u32) -> (r: Option<Task>)
        requires
            wf_tasks(self.tasks()),
        ensures
            match r {
                Some(t) => has_task_id(self.tasks(), id) && t == self.tasks()[id as int - 1],
                None => !has_task_id(self.tasks(), id),
            },
    {
        self.repo.find_by_id(id)
    }
}

} // verus!

