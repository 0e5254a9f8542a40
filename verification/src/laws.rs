//! Laws of the task store, proved over its mathematical model.
//!
//! Every executable transition of `Tasks` states in its contract that the new
//! model is a step function of the old one and that the invariant is kept;
//! the lemmas here draw out what those step functions guarantee together:
//! exclusivity of the three containers, first-in-first-out dequeuing, the
//! immutability of finished records, and the silent disappearance of a task
//! whose process could not be spawned.

use vstd::prelude::*;

use crate::store::TasksModel;
use crate::task::OutputModel;

verus! {

/// The empty store satisfies the invariant; together with the transition
/// contracts of `Tasks`, every reachable store state satisfies it.
pub proof fn lemma_initial_inv()
    ensures
        TasksModel::initial().inv(),
{
}

/// Exclusivity: under the store invariant an id is never in two of the three
/// containers at once — never both pending and running, never both pending
/// and finished, and never both running and finished.
pub proof fn lemma_id_in_at_most_one_container(m: TasksModel, id: usize)
    requires
        m.inv(),
    ensures
        !(m.id_pending(id) && m.running.contains_key(id)),
        !(m.id_pending(id) && m.finished.contains_key(id)),
        !(m.running.contains_key(id) && m.finished.contains_key(id)),
{
}

/// First in, first out: one dequeue hands out exactly the head of the queue,
/// and any two tasks that stay pending keep their relative order.  So a task
/// submitted strictly before another is dequeued no later than it: either the
/// earlier one is at the head and is the one handed out, or both move one
/// place forward with the earlier one still in front.
pub proof fn lemma_dequeue_fifo(m: TasksModel, i: int, j: int)
    requires
        m.inv(),
        0 <= i < j < m.queue.len(),
    ensures
        m.dequeue_step().queue.len() == m.queue.len() - 1,
        i > 0 ==> m.dequeue_step().queue[i - 1] == m.queue[i] && m.dequeue_step().queue[j - 1]
            == m.queue[j],
        i == 0 ==> m.dequeue_step().queue[j - 1] == m.queue[j],
{
}

/// Submission order is queue order: a submission goes to the tail of the
/// queue and moves no task already pending.
pub proof fn lemma_submit_appends(m: TasksModel, cmd: Seq<char>, k: int)
    requires
        m.inv(),
        0 <= k < m.queue.len(),
    ensures
        m.submit_step(cmd).queue.len() == m.queue.len() + 1,
        m.submit_step(cmd).queue[k] == m.queue[k],
        m.submit_step(cmd).queue.last() == (m.next_id, cmd),
{
}

/// Finished records are immutable: no transition of the store changes or
/// removes an entry of the finished-set, so fetching the output of a finished
/// id yields the same result after any transition — and in particular two
/// fetches of the same finished id always agree.
pub proof fn lemma_finished_records_immutable(
    m: TasksModel,
    id: usize,
    other: usize,
    cmd: Seq<char>,
    time: i64,
    out: OutputModel,
)
    requires
        m.inv(),
        m.finished.contains_key(id),
    ensures
        m.push_step(other, cmd).finished == m.finished,
        m.submit_step(cmd).finished == m.finished,
        m.dequeue_step().finished == m.finished,
        m.begin_step(other, cmd, time).finished == m.finished,
        m.discard_step(other).finished == m.finished,
        m.running.contains_key(other) ==> m.finish_step(other, time, out).finished.contains_key(id)
            && m.finish_step(other, time, out).finished[id] == m.finished[id],
        m.fetch_output(id) == m.finished[id].output,
        m.fetch_output(id) is Some,
{
}

/// Each completion adds exactly one finished record: ids are map keys and a
/// running id is never already finished, so completing n distinct tasks makes
/// exactly n finished entries.
pub proof fn lemma_completion_adds_one_record(
    m: TasksModel,
    id: usize,
    time: i64,
    out: OutputModel,
)
    requires
        m.inv(),
        m.finished.dom().finite(),
        m.running.contains_key(id),
    ensures
        m.finish_step(id, time, out).finished.dom().finite(),
        m.finish_step(id, time, out).finished.dom().len() == m.finished.dom().len() + 1,
{
    assert(!m.finished.contains_key(id));
    assert(m.finish_step(id, time, out).finished.dom() =~= m.finished.dom().insert(id));
}

/// A spawn failure leaves no trace: after the discarding step the id is no
/// longer running, the finished-set is exactly what it was, and if the id had
/// never finished, fetching its output still fails rather than producing an
/// empty success.
pub proof fn lemma_spawn_failure_vanishes(m: TasksModel, id: usize)
    requires
        m.inv(),
    ensures
        !m.discard_step(id).running.contains_key(id),
        m.discard_step(id).finished == m.finished,
        !m.finished.contains_key(id) ==> m.discard_step(id).fetch_output(id) is None,
{
}

} // verus!
