//! Laws the library states of its model: properties that relate several
//! operations, proved once over every store and every input.

use vstd::prelude::*;

use crate::domain::Status;
use crate::domain::Task;
use crate::domain::TaskError;
use crate::names::names_match;
use crate::repository::distinct_names;
use crate::repository::filter_status;
use crate::repository::has_matching_name;
use crate::repository::has_task_id;
use crate::repository::step_outcome;
use crate::repository::tasks_updated;
use crate::repository::wf_tasks;

verus! {

/// Ids are assigned as a strictly increasing sequence starting at 1, in
/// insertion order: the task at position `i` carries id `i + 1`, so of two
/// stored tasks the later one always carries the larger id.
pub proof fn lemma_ids_strictly_increasing(s: Seq<Task>, i: int, j: int)
    requires
        wf_tasks(s),
        0 <= i <= j < s.len(),
    ensures
        s[i].id == Some((i + 1) as u32),
        s[j].id == Some((j + 1) as u32),
        i < j ==> i + 1 < j + 1,
{
}

/// Two names that differ only by case collide: once a task is stored, an
/// add under any spelling of its name finds a match and is rejected with
/// `DuplicateName` (by the contract of `add_task`).
pub proof fn lemma_case_duplicate_collides(s: Seq<Task>, t: Task, n: Seq<char>)
    ensures
        names_match(t.name@, n) ==> has_matching_name(s.push(t), n),
{
    if names_match(t.name@, n) {
        assert(s.push(t)[s.len() as int].name@ == t.name@);
    }
}

/// Case-insensitive uniqueness is an invariant: a store with pairwise
/// distinct names keeps them distinct under an add that found no match,
/// which is the only add that `add_task` accepts.
pub proof fn lemma_add_keeps_names_distinct(s: Seq<Task>, t: Task)
    ensures
        distinct_names(s) && !has_matching_name(s, t.name@) ==> distinct_names(s.push(t)),
{
    if distinct_names(s) && !has_matching_name(s, t.name@) {
        let s1 = s.push(t);
        assert forall|i: int, j: int| 0 <= i < j < s1.len() implies !names_match(
            s1[i].name@,
            s1[j].name@,
        ) by {
            if j == s.len() {
                assert(s1[i] == s[i]);
                assert(!names_match(s[i].name@, t.name@));
            } else {
                assert(s1[i] == s[i] && s1[j] == s[j]);
            }
        }
    }
}

/// Case-insensitive uniqueness also survives every transition: a transition
/// touches one task's status and stamp, never any task's name.
pub proof fn lemma_transition_keeps_names_distinct(
    pre: Seq<Task>,
    post: Seq<Task>,
    id: u32,
    st: Status,
)
    requires
        tasks_updated(pre, post, id, st),
        distinct_names(pre),
    ensures
        distinct_names(post),
{
    assert forall|i: int, j: int| 0 <= i < j < post.len() implies !names_match(
        post[i].name@,
        post[j].name@,
    ) by {
        assert(post[i].name == pre[i].name);
        assert(post[j].name == pre[j].name);
        assert(!names_match(pre[i].name@, pre[j].name@));
    }
}

/// A task that never passed through `Doing` cannot reach `Done`: as long as
/// a task still sits in `Todo` — as a freshly added one does — asking to
/// complete it yields the given state error, never success.
pub proof fn lemma_todo_task_cannot_complete(s: Seq<Task>, id: u32, wrong: TaskError)
    requires
        has_task_id(s, id),
        s[id as int - 1].status == Status::Todo,
    ensures
        step_outcome(s, id, Status::Doing, wrong) == Err::<(), TaskError>(wrong),
{
}

/// The lifecycle runs exactly once: from `Todo`, starting the task is
/// allowed and completing is not; from `Doing`, completing is allowed and
/// starting is not; once `Done`, both fail with the given state error.
pub proof fn lemma_lifecycle_runs_once(
    s0: Seq<Task>,
    s1: Seq<Task>,
    s2: Seq<Task>,
    id: u32,
    wrong: TaskError,
)
    requires
        has_task_id(s0, id),
        s0[id as int - 1].status == Status::Todo,
        tasks_updated(s0, s1, id, Status::Doing),
        tasks_updated(s1, s2, id, Status::Done),
    ensures
        step_outcome(s0, id, Status::Todo, wrong) == Ok::<(), TaskError>(()),
        step_outcome(s0, id, Status::Doing, wrong) == Err::<(), TaskError>(wrong),
        step_outcome(s1, id, Status::Doing, wrong) == Ok::<(), TaskError>(()),
        step_outcome(s1, id, Status::Todo, wrong) == Err::<(), TaskError>(wrong),
        step_outcome(s2, id, Status::Todo, wrong) == Err::<(), TaskError>(wrong),
        step_outcome(s2, id, Status::Doing, wrong) == Err::<(), TaskError>(wrong),
{
}

/// The wildcard filter keeps every task: listing with `Status::Any` returns
/// the whole store, in insertion order.
pub proof fn lemma_wildcard_lists_all(s: Seq<Task>)
    ensures
        filter_status(s, Status::Any) == s,
    decreases s.len(),
{
    if s.len() == 0 {
        assert(filter_status(s, Status::Any) =~= s);
    } else {
        lemma_wildcard_lists_all(s.drop_last());
        assert(filter_status(s, Status::Any) =~= s);
    }
}

/// Round trip: a name that was free before an add is found afterwards under
/// any spelling that matches it case-insensitively, and the first match is
/// the task that was just added — so `find_by_name` hands back its name,
/// description and `Todo` status unchanged (by the contract of
/// `find_by_name`).
pub proof fn lemma_add_then_find_round_trip(s: Seq<Task>, t: Task, n: Seq<char>)
    ensures
        !has_matching_name(s, t.name@) && names_match(n, t.name@) ==> ({
            let s1 = s.push(t);
            &&& names_match(s1[s.len() as int].name@, n)
            &&& forall|j: int| 0 <= j < s.len() ==> !names_match(#[trigger] s1[j].name@, n)
        }),
{
    if !has_matching_name(s, t.name@) && names_match(n, t.name@) {
        let s1 = s.push(t);
        assert(s1[s.len() as int].name@ == t.name@);
        assert forall|j: int| 0 <= j < s.len() implies !names_match(
            #[trigger] s1[j].name@,
            n,
        ) by {
            assert(s1[j] == s[j]);
            assert(!names_match(s[j].name@, t.name@));
        }
    }
}

/// A transition never invents or loses tasks and never touches identity:
/// the store keeps its length, and the moved task keeps its id, name,
/// description and creation stamp, while its update stamp is set to no
/// earlier than its creation.
pub proof fn lemma_transition_preserves_identity(
    pre: Seq<Task>,
    post: Seq<Task>,
    id: u32,
    st: Status,
)
    requires
        tasks_updated(pre, post, id, st),
    ensures
        post.len() == pre.len(),
        post[id as int - 1].id == pre[id as int - 1].id,
        post[id as int - 1].name == pre[id as int - 1].name,
        post[id as int - 1].description == pre[id as int - 1].description,
        post[id as int - 1].status == st,
        post[id as int - 1].updated_at matches Some(u) && post[id as int - 1].created_at <= u,
        forall|j: int| 0 <= j < pre.len() && j != id as int - 1 ==> post[j] == pre[j],
{
    assert(post =~= pre.update(id as int - 1, post[id as int - 1]));
}

} // verus!
