//! The repository: the owner of the task collection, the sole authority for
//! identity assignment and uniqueness. Its behaviour is stated over a
//! mathematical model, a sequence of tasks in insertion order.

use vstd::prelude::*;
use vstd::pervasive::VecAdditionalExecFns;

use crate::domain::now_millis;
use crate::domain::Status;
use crate::domain::Task;
use crate::domain::TaskError;
use crate::names::names_equal;
use crate::names::names_match;

verus! {

/// A stored task is well formed at position `i`: its id is `i + 1` (ids are
/// assigned in insertion order, starting at 1), its status is a real
/// lifecycle state, and its update stamp, once set, is no earlier than its
/// creation stamp.
pub open spec fn task_well_formed(t: Task, i: int) -> bool {
    &&& t.id == Some((i + 1) as u32)
    &&& t.status != Status::Any
    &&& (t.updated_at matches Some(u) ==> t.created_at <= u)
}

/// The repository's invariant over its stored sequence. The length bound is
/// a machine limit: every assigned id fits in a `u32`.
pub open spec fn wf_tasks(s: Seq<Task>) -> bool {
    &&& s.len() <= u32::MAX
    &&& forall|i: int| 0 <= i < s.len() ==> task_well_formed(#[trigger] s[i], i)
}

/// Some stored task's name collides with `n` under case-insensitive
/// comparison.
pub open spec fn has_matching_name(s: Seq<Task>, n: Seq<char>) -> bool {
    exists|i: int| 0 <= i < s.len() && names_match(#[trigger] s[i].name@, n)
}

/// `m` is the name of the first stored task that collides with `n`.
pub open spec fn is_first_match_name(s: Seq<Task>, n: Seq<char>, m: Seq<char>) -> bool {
    exists|i: int|
        {
            &&& 0 <= i < s.len()
            &&& names_match(#[trigger] s[i].name@, n)
            &&& m == s[i].name@
            &&& forall|j: int| 0 <= j < i ==> !names_match(#[trigger] s[j].name@, n)
        }
}

/// No two stored tasks share a name under case-insensitive comparison.
pub open spec fn distinct_names(s: Seq<Task>) -> bool {
    forall|i: int, j: int|
        0 <= i < j < s.len() ==> !names_match(#[trigger] s[i].name@, #[trigger] s[j].name@)
}

/// What a freshly accepted task looks like: the given name and description,
/// the assigned id, the initial status, no update stamp yet.
pub open spec fn added_with(stored: Task, name: Seq<char>, desc: Seq<char>, id: int) -> bool {
    &&& stored.id == Some(id as u32)
    &&& stored.name@ == name
    &&& stored.description@ == desc
    &&& stored.status == Status::Todo
    &&& stored.updated_at is None
}

/// Whether any stored task carries `id`. Ids are assigned by position, so
/// under `wf_tasks` this is a bounds check.
pub open spec fn has_task_id(s: Seq<Task>, id: u32) -> bool {
    1 <= id && id as int <= s.len()
}

/// The outcome of asking for a transition of task `id` out of state `need`:
/// the task must exist and must currently sit in `need`, else the given
/// state error comes back.
pub open spec fn step_outcome(s: Seq<Task>, id: u32, need: Status, wrong: TaskError) -> Result<
    (),
    TaskError,
> {
    if !has_task_id(s, id) {
        Err(TaskError::NotFound)
    } else if s[id as int - 1].status != need {
        Err(wrong)
    } else {
        Ok(())
    }
}

/// How a task changes under a transition to `st`: identity and descriptive
/// fields are kept, the status becomes `st`, and the update stamp is set,
/// never earlier than the creation stamp.
pub open spec fn transitioned(pre: Task, post: Task, st: Status) -> bool {
    &&& post.id == pre.id
    &&& post.name == pre.name
    &&& post.description == pre.description
    &&& post.created_at == pre.created_at
    &&& post.status == st
    &&& (post.updated_at matches Some(u) && pre.created_at <= u)
}

/// How the whole store changes under a transition of task `id` to `st`:
/// only the task at that id moves, every other entry is kept as it was.
pub open spec fn tasks_updated(pre: Seq<Task>, post: Seq<Task>, id: u32, st: Status) -> bool {
    &&& has_task_id(pre, id)
    &&& post == pre.update(id as int - 1, post[id as int - 1])
    &&& transitioned(pre[id as int - 1], post[id as int - 1], st)
}

/// Whether a task's status passes the query filter `f`: the wildcard admits
/// everything, any other filter admits exactly itself.
pub open spec fn status_matches(st: Status, f: Status) -> bool {
    f == Status::Any || st == f
}

/// The tasks that pass the filter `f`, in insertion order.
pub open spec fn filter_status(s: Seq<Task>, f: Status) -> Seq<Task>
    decreases s.len(),
{
    if s.len() == 0 {
        Seq::empty()
    } else {
        let rest = filter_status(s.drop_last(), f);
        if status_matches(s.last().status, f) {
            rest.push(s.last())
        } else {
            rest
        }
    }
}

/// The slot (position) in the store that an id addresses, if any. Ids are
/// assigned by position, so under `wf_tasks` this is where the task with
/// that id stands.
pub open spec fn id_slot(s: Seq<Task>, id: Option<u32>) -> Option<int> {
    match id {
        Some(k) => if has_task_id(s, k) {
            Some(k as int - 1)
        } else {
            None
        },
        None => None,
    }
}

/// The behaviour a task repository must provide. Any conforming store is a
/// valid drop-in replacement for the in-memory one; the service is generic
/// over this trait.
pub trait TaskRepository: Sized {
    /// The stored tasks, in insertion order.
    spec fn tasks(&self) -> Seq<Task>;

    /// Accepts a new task: rejects it with `DuplicateName` (carrying the
    /// first colliding stored name) when its name collides
    /// case-insensitively with a stored one; otherwise assigns the next id,
    /// appends it, and returns a view of the stored task. The length bound
    /// is a machine limit: the id assigned next must fit in a `u32`.
    fn add_task(&mut self, task: Task) -> (r: Result<Task, TaskError>)
        requires
            wf_tasks(old(self).tasks()),
            old(self).tasks().len() < u32::MAX,
            task.id is None,
            task.status == Status::Todo,
            task.updated_at is None,
        ensures
            wf_tasks(final(self).tasks()),
            has_matching_name(old(self).tasks(), task.name@) ==> ({
                &&& final(self).tasks() == old(self).tasks()
                &&& (r matches Err(TaskError::DuplicateName(m)) && is_first_match_name(
                    old(self).tasks(),
                    task.name@,
                    m@,
                ))
            }),
            !has_matching_name(old(self).tasks(), task.name@) ==> ({
                &&& final(self).tasks() == old(self).tasks().push(final(self).tasks().last())
                &&& added_with(
                    final(self).tasks().last(),
                    task.name@,
                    task.description@,
                    old(self).tasks().len() as int + 1,
                )
                &&& final(self).tasks().last().created_at == task.created_at
                &&& (r matches Ok(t) && t == final(self).tasks().last())
            }),
    ;

    /// Replaces the stored task carrying `task.id` with `task`; fails with
    /// `NotFound` when no stored task carries that id. The replacement must
    /// be a plausible task for that slot, which is what the `requires`
    /// demand.
    fn update(&mut self, task: Task) -> (r: Result<(), TaskError>)
        requires
            wf_tasks(old(self).tasks()),
            task.status != Status::Any,
            task.updated_at matches Some(u) ==> task.created_at <= u,
        ensures
            wf_tasks(final(self).tasks()),
            match id_slot(old(self).tasks(), task.id) {
                Some(i) => r == Ok::<(), TaskError>(()) && final(self).tasks() == old(
                    self,
                ).tasks().update(i, task),
                None => r == Err::<(), TaskError>(TaskError::NotFound) && final(self).tasks()
                    == old(self).tasks(),
            },
    ;

    /// Moves the task carrying `id` from `Todo` to `Doing` and sets its
    /// update stamp; fails with `NotFound` when the id is absent and with
    /// `InvalidTransition` when the task is not in `Todo`.
    fn move_to_doing(&mut self, id: u32) -> (r: Result<(), TaskError>)
        requires
            wf_tasks(old(self).tasks()),
        ensures
            wf_tasks(final(self).tasks()),
            r == step_outcome(old(self).tasks(), id, Status::Todo, TaskError::InvalidTransition),
            r is Ok ==> tasks_updated(old(self).tasks(), final(self).tasks(), id, Status::Doing),
            r is Err ==> final(self).tasks() == old(self).tasks(),
    ;

    /// Moves the task carrying `id` from `Doing` to `Done` and sets its
    /// update stamp; fails with `NotFound` when the id is absent and with
    /// `InvalidTransition` when the task is not in `Doing`.
    fn move_to_done(&mut self, id: u32) -> (r: Result<(), TaskError>)
        requires
            wf_tasks(old(self).tasks()),
        ensures
            wf_tasks(final(self).tasks()),
            r == step_outcome(old(self).tasks(), id, Status::Doing, TaskError::InvalidTransition),
            r is Ok ==> tasks_updated(old(self).tasks(), final(self).tasks(), id, Status::Done),
            r is Err ==> final(self).tasks() == old(self).tasks(),
    ;

    /// Views of the stored tasks whose status passes the filter, in
    /// insertion order; the wildcard `Status::Any` lists every task.
    fn list_by_status(&self, status: Status) -> (r: Vec<Task>)
        requires
            wf_tasks(self.tasks()),
        ensures
            r@ == filter_status(self.tasks(), status),
    ;

    /// A view of the stored task carrying `id`, if any.
    fn find_by_id(&self, id: u32) -> (r: Option<Task>)
        requires
            wf_tasks(self.tasks()),
        ensures
            match r {
                Some(t) => has_task_id(self.tasks(), id) && t == self.tasks()[id as int - 1],
                None => !has_task_id(self.tasks(), id),
            },
    ;

    /// A view of the first stored task whose name matches `name`
    /// case-insensitively, if any.
    fn find_by_name(&self, name: &str) -> (r: Option<Task>)
        requires
            wf_tasks(self.tasks()),
        ensures
            match r {
                Some(t) => exists|i: int|
                    {
                        &&& 0 <= i < self.tasks().len()
                        &&& t == self.tasks()[i]
                        &&& names_match(#[trigger] self.tasks()[i].name@, name@)
                        &&& forall|j: int|
                            0 <= j < i ==> !names_match(#[trigger] self.tasks()[j].name@, name@)
                    },
                None => !has_matching_name(self.tasks(), name@),
            },
    ;
}

/// In-memory implementation of a task repository: the tasks sit in a vector,
/// in insertion order, append-only.
pub struct InMemoryTaskRepository {
    tasks: Vec<Task>,
}

impl InMemoryTaskRepository {
    /// A new, empty repository.
    pub fn new() -> (r: Self)
        ensures
            r.tasks() == Seq::<Task>::empty(),
            wf_tasks(r.tasks()),
    {
        Self { tasks: Vec::new() }
    }
}

impl TaskRepository for InMemoryTaskRepository {
    closed spec fn tasks(&self) -> Seq<Task> {
        self.tasks@
    }

    fn add_task(&mut self, task: Task) -> (r: Result<Task, TaskError>) {
        let found = self.find_by_name(task.name.as_str());
        match found {
            Some(t) => Err(TaskError::DuplicateName(t.name)),
            None => {
                let mut task = task;
                let id = self.tasks.len() + 1;
                task.id = Some(id as u32);
                let stored = task.duplicate();
                self.tasks.push(task);
                Ok(stored)
            },
        }
    }

    fn update(&mut self, task: Task) -> (r: Result<(), TaskError>) {
        match task.id {
            None => Err(TaskError::NotFound),
            Some(k) => {
                if 1 <= k && k as usize <= self.tasks.len() {
                    let i = k as usize - 1;
                    self.tasks.set(i, task);
                    Ok(())
                } else {
                    Err(TaskError::NotFound)
                }
            },
        }
    }

    fn move_to_doing(&mut self, id: u32) -> (r: Result<(), TaskError>) {
        if id < 1 || id as usize > self.tasks.len() {
            return Err(TaskError::NotFound);
        }
        let i = id as usize - 1;
        if self.tasks[i].status != Status::Todo {
            return Err(TaskError::InvalidTransition);
        }
        let mut t = self.tasks[i].duplicate();
        let now = now_millis();
        let ts = if now >= t.created_at {
            now
        } else {
            t.created_at
        };
        t.status = Status::Doing;
        t.updated_at = Some(ts);
        self.tasks.set(i, t);
        Ok(())
    }

    fn move_to_done(&mut self, id: u32) -> (r: Result<(), TaskError>) {
        if id < 1 || id as usize > self.tasks.len() {
            return Err(TaskError::NotFound);
        }
        let i = id as usize - 1;
        if self.tasks[i].status != Status::Doing {
            return Err(TaskError::InvalidTransition);
        }
        let mut t = self.tasks[i].duplicate();
        let now = now_millis();
        let ts = if now >= t.created_at {
            now
        } else {
            t.created_at
        };
        t.status = Status::Done;
        t.updated_at = Some(ts);
        self.tasks.set(i, t);
        Ok(())
    }

    fn list_by_status(&self, status: Status) -> (r: Vec<Task>) {
        let mut out: Vec<Task> = Vec::new();
        let mut i: usize = 0;
        while i < self.tasks.len()
            invariant
                i <= self.tasks@.len(),
                out@ == filter_status(self.tasks@.subrange(0, i as int), status),
            decreases self.tasks@.len() - i,
        {
            proof {
                let pre = self.tasks@.subrange(0, i as int);
                let post = self.tasks@.subrange(0, i as int + 1);
                assert(post.drop_last() =~= pre);
                assert(post.last() == self.tasks@[i as int]);
            }
            if status == Status::Any || self.tasks[i].status == status {
                out.push(self.tasks[i].duplicate());
            }
            i = i + 1;
        }
        proof {
            assert(self.tasks@.subrange(0, self.tasks@.len() as int) =~= self.tasks@);
        }
        out
    }

    fn find_by_id(&self, id: u32) -> (r: Option<Task>) {
        if 1 <= id && id as usize <= self.tasks.len() {
            Some(self.tasks[id as usize - 1].duplicate())
        } else {
            None
        }
    }

    fn find_by_name(&self, name: &str) -> (r: Option<Task>) {
        let mut i: usize = 0;
        while i < self.tasks.len()
            invariant
                i <= self.tasks@.len(),
                forall|j: int| 0 <= j < i ==> !names_match(#[trigger] self.tasks@[j].name@, name@),
            decreases self.tasks@.len() - i,
        {
            if names_equal(self.tasks[i].name.as_str(), name) {
                let t = self.tasks[i].duplicate();
                proof {
                    let gi = i as int;
                    assert(names_match(self.tasks()[gi].name@, name@));
                    assert(t == self.tasks()[gi]);
                }
                return Some(t);
            }
            i = i + 1;
        }
        proof {
            assert(forall|j: int|
                0 <= j < self.tasks().len() ==> !names_match(
                    #[trigger] self.tasks()[j].name@,
                    name@,
                ));
        }
        None
    }
}

} // verus!
