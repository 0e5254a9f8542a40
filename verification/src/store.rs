//! The task store: the pending queue, the running-set and the finished-set,
//! with the state-transition protocol a worker drives a task through.
//!
//! The three containers live in one structure, so one lock around the whole
//! store (taken by the embedding program) makes every transition atomic: an
//! id can never be observed in two containers at once.  Each transition is
//! specified as a step function on the mathematical model `TasksModel`, and
//! every operation preserves the invariant `TasksModel::inv`.

use std::collections::HashMap;
use std::collections::VecDeque;
use vstd::prelude::*;

use crate::task::CapturedOutput;
use crate::task::CommandStatus;
use crate::task::OutputModel;
use crate::task::Task;
use crate::task::TaskModel;

verus! {

/// Mathematical model of the task store: the pending queue as a sequence of
/// (id, command) pairs in submission order, the running-set and finished-set
/// as maps from id to task record, and the next id to hand out.
pub ghost struct TasksModel {
    pub queue: Seq<(usize, Seq<char>)>,
    pub running: Map<usize, TaskModel>,
    pub finished: Map<usize, TaskModel>,
    pub next_id: usize,
}

impl TasksModel {
    /// Whether `id` is waiting in the pending queue.
    pub open spec fn id_pending(self, id: usize) -> bool {
        exists|k: int| 0 <= k < self.queue.len() && (#[trigger] self.queue[k]).0 == id
    }

    /// The store's invariant: queued ids are distinct and in no map, a
    /// running id is not finished, every id is below `next_id`, running
    /// records have the running shape and finished records the finished one.
    pub open spec fn inv(self) -> bool {
        &&& (forall|k1: int, k2: int|
            0 <= k1 < k2 < self.queue.len() ==> (#[trigger] self.queue[k1]).0 != (
            #[trigger] self.queue[k2]).0)
        &&& (forall|k: int|
            0 <= k < self.queue.len() ==> {
                let id = (#[trigger] self.queue[k]).0;
                &&& !self.running.contains_key(id)
                &&& !self.finished.contains_key(id)
                &&& id < self.next_id
            })
        &&& (forall|id: usize|
            #[trigger] self.running.contains_key(id) ==> {
                &&& !self.finished.contains_key(id)
                &&& id < self.next_id
                &&& self.running[id].is_running_record()
            })
        &&& (forall|id: usize|
            #[trigger] self.finished.contains_key(id) ==> {
                &&& id < self.next_id
                &&& self.finished[id].is_finished_record()
            })
    }

    /// The store before anything was submitted.
    pub open spec fn initial() -> TasksModel {
        TasksModel {
            queue: Seq::empty(),
            running: Map::empty(),
            finished: Map::empty(),
            next_id: 0,
        }
    }

    /// Appending a task under a chosen fresh id to the tail of the queue.
    /// `next_id` stays above every id seen so far.
    pub open spec fn push_step(self, id: usize, cmd: Seq<char>) -> TasksModel {
        TasksModel {
            queue: self.queue.push((id, cmd)),
            running: self.running,
            finished: self.finished,
            next_id: if id >= self.next_id {
                (id + 1) as usize
            } else {
                self.next_id
            },
        }
    }

    /// Submitting a command: it enters the queue under the next id.
    pub open spec fn submit_step(self, cmd: Seq<char>) -> TasksModel {
        self.push_step(self.next_id, cmd)
    }

    /// Removing the head of the (non-empty) queue.
    pub open spec fn dequeue_step(self) -> TasksModel {
        TasksModel {
            queue: self.queue.drop_first(),
            running: self.running,
            finished: self.finished,
            next_id: self.next_id,
        }
    }

    /// The record a worker publishes when it claims a task.
    pub open spec fn running_record(cmd: Seq<char>, start_time: i64) -> TaskModel {
        TaskModel {
            command: cmd,
            start_time: start_time,
            finish_time: None,
            status: CommandStatus::Running,
            output: None,
        }
    }

    /// Claiming a dequeued task: its record enters the running-set.
    pub open spec fn begin_step(self, id: usize, cmd: Seq<char>, start_time: i64) -> TasksModel {
        TasksModel {
            queue: self.queue,
            running: self.running.insert(id, Self::running_record(cmd, start_time)),
            finished: self.finished,
            next_id: self.next_id,
        }
    }

    /// Completing a running task: in one step its record leaves the
    /// running-set and enters the finished-set, with the command string and
    /// start time preserved and the captured output attached.
    pub open spec fn finish_step(self, id: usize, finish_time: i64, out: OutputModel) -> TasksModel {
        TasksModel {
            queue: self.queue,
            running: self.running.remove(id),
            finished: self.finished.insert(
                id,
                TaskModel {
                    command: self.running[id].command,
                    start_time: self.running[id].start_time,
                    finish_time: Some(finish_time),
                    status: CommandStatus::Finished,
                    output: Some(out),
                },
            ),
            next_id: self.next_id,
        }
    }

    /// A spawn failure: the record leaves the running-set and the task never
    /// reaches the finished-set.
    pub open spec fn discard_step(self, id: usize) -> TasksModel {
        TasksModel {
            queue: self.queue,
            running: self.running.remove(id),
            finished: self.finished,
            next_id: self.next_id,
        }
    }

    /// What querying the captured output of `id` denotes: the output stored
    /// in the finished-set, or nothing when `id` is not there.
    pub open spec fn fetch_output(self, id: usize) -> Option<OutputModel> {
        if self.finished.contains_key(id) {
            self.finished[id].output
        } else {
            None
        }
    }
}

/// The task store itself.  The queue holds (id, command) pairs in submission
/// order; the two maps key task records by id.
pub struct Tasks {
    queue: VecDeque<(usize, String)>,
    currently_running: HashMap<usize, Task>,
    finished: HashMap<usize, Task>,
    next_id: usize,
}

impl View for Tasks {
    type V = TasksModel;

    closed spec fn view(&self) -> TasksModel {
        TasksModel {
            queue: self.queue@.map_values(|p: (usize, String)| (p.0, p.1@)),
            running: self.currently_running@.map_values(|t: Task| t@),
            finished: self.finished@.map_values(|t: Task| t@),
            next_id: self.next_id,
        }
    }
}

impl Default for Tasks {
    /// An empty store.
    fn default() -> (r: Tasks)
        ensures
            r@ == TasksModel::initial(),
            r.wf(),
    {
        let r = Tasks {
            queue: VecDeque::new(),
            currently_running: HashMap::new(),
            finished: HashMap::new(),
            next_id: 0,
        };
        proof {
            assert(r@.queue =~= TasksModel::initial().queue);
            assert(r@.running =~= TasksModel::initial().running);
            assert(r@.finished =~= TasksModel::initial().finished);
        }
        r
    }
}

impl Tasks {
    /// Well-formedness: the model satisfies the store invariant.
    pub open spec fn wf(&self) -> bool {
        self@.inv()
    }

    /// Appends a task to the tail of the pending queue under a caller-chosen
    /// id, which must be fresh: ids are never reused.
    pub fn push_queue(&mut self, id: usize, cmd: String)
        requires
            old(self).wf(),
            !old(self)@.id_pending(id),
            !old(self)@.running.contains_key(id),
            !old(self)@.finished.contains_key(id),
            id < usize::MAX,
        ensures
            final(self).wf(),
            final(self)@ == old(self)@.push_step(id, cmd@),
    {
        if id >= self.next_id {
            self.next_id = id + 1;
        }
        self.queue.push_back((id, cmd));
        proof {
            assert(self@.queue =~= old(self)@.queue.push((id, cmd@)));
            assert(self@ == old(self)@.push_step(id, cmd@));
        }
    }

    /// Allocates the next sequential id, enqueues the command under it, and
    /// returns the id.  Non-blocking; the queue is unbounded.
    pub fn submit(&mut self, cmd: String) -> (id: usize)
        requires
            old(self).wf(),
            old(self)@.next_id < usize::MAX,
        ensures
            final(self).wf(),
            id == old(self)@.next_id,
            final(self)@ == old(self)@.submit_step(cmd@),
    {
        let id = self.next_id;
        self.push_queue(id, cmd);
        id
    }

    /// Removes and returns the head of the pending queue, or nothing if the
    /// queue is empty.  The head is the earliest submission still pending,
    /// and it comes back fresh with respect to both maps.
    pub fn dequeue(&mut self) -> (r: Option<(usize, String)>)
        requires
            old(self).wf(),
        ensures
            final(self).wf(),
            old(self)@.queue.len() == 0 ==> r is None && final(self)@ == old(self)@,
            old(self)@.queue.len() > 0 ==> {
                &&& r matches Some(p)
                &&& p.0 == old(self)@.queue[0].0
                &&& p.1@ == old(self)@.queue[0].1
                &&& final(self)@ == old(self)@.dequeue_step()
                &&& !final(self)@.id_pending(p.0)
                &&& !final(self)@.running.contains_key(p.0)
                &&& !final(self)@.finished.contains_key(p.0)
                &&& p.0 < final(self)@.next_id
            },
    {
        match self.queue.pop_front() {
            None => None,
            Some(p) => {
                proof {
                    assert(old(self)@.queue[0] == (p.0, p.1@));
                    assert(self@.queue =~= old(self)@.queue.drop_first());
                    assert(self@ == old(self)@.dequeue_step());
                    assert forall|k: int|
                        0 <= k < self@.queue.len() implies (#[trigger] self@.queue[k]).0 != p.0 by {
                        assert(self@.queue[k] == old(self)@.queue[k + 1]);
                        assert((old(self)@.queue[0]).0 != (old(self)@.queue[k + 1]).0);
                    }
                }
                Some(p)
            },
        }
    }

    /// Publishes the record of a claimed task into the running-set, stamped
    /// with the given start time.  The id must be the one just dequeued:
    /// pending nowhere, in neither map, and below the id bound.
    pub fn begin_execution_at(&mut self, id: usize, cmd: &str, start_time: i64)
        requires
            old(self).wf(),
            !old(self)@.id_pending(id),
            !old(self)@.running.contains_key(id),
            !old(self)@.finished.contains_key(id),
            id < old(self)@.next_id,
        ensures
            final(self).wf(),
            final(self)@ == old(self)@.begin_step(id, cmd@, start_time),
    {
        let task = Task {
            command: cmd.to_owned(),
            start_time: start_time,
            finish_time: None,
            status: CommandStatus::Running,
            output: None,
        };
        self.currently_running.insert(id, task);
        proof {
            assert(self@.running =~= old(self)@.running.insert(
                id,
                TasksModel::running_record(cmd@, start_time),
            ));
            assert(self@ == old(self)@.begin_step(id, cmd@, start_time));
        }
    }

    /// Moves a running task into the finished-set in one step: the command
    /// string and start time are preserved, the finish time is stamped, and
    /// the captured output is attached.  The finish time may not precede the
    /// start time.
    pub fn record_completion_at(&mut self, id: usize, finish_time: i64, output: CapturedOutput)
        requires
            old(self).wf(),
            old(self)@.running.contains_key(id),
            old(self)@.running[id].start_time <= finish_time,
        ensures
            final(self).wf(),
            final(self)@ == old(self)@.finish_step(id, finish_time, output@),
    {
        let rec = match self.currently_running.remove(&id) {
            Some(rec) => rec,
            None => {
                proof {
                    assert(false);
                }
                vstd::pervasive::unreached()
            },
        };
        let done = Task {
            command: rec.command,
            start_time: rec.start_time,
            finish_time: Some(finish_time),
            status: CommandStatus::Finished,
            output: Some(output),
        };
        self.finished.insert(id, done);
        proof {
            assert(self@.running =~= old(self)@.running.remove(id));
            assert(done@ == old(self)@.finish_step(id, finish_time, output@).finished[id]);
            assert(self@.finished =~= old(self)@.finish_step(id, finish_time, output@).finished);
            assert(self@ == old(self)@.finish_step(id, finish_time, output@));
        }
    }

    /// Drops a task whose process could not be spawned: the id leaves the
    /// running-set and the finished-set is untouched, so the task vanishes.
    /// This mirrors the documented silent-loss policy for spawn failures.
    pub fn record_spawn_failure(&mut self, id: usize)
        requires
            old(self).wf(),
        ensures
            final(self).wf(),
            final(self)@ == old(self)@.discard_step(id),
    {
        self.currently_running.remove(&id);
        proof {
            assert(self@.running =~= old(self)@.running.remove(id));
            assert(self@ == old(self)@.discard_step(id));
        }
    }

    /// Claims a dequeued task, stamping its record with the wall-clock time
    /// at which execution begins; the stamp is returned.  Nothing is promised
    /// of the stamp's value: it is whatever the clock read.
    pub fn begin_execution(&mut self, id: usize, cmd: &str) -> (start_time: i64)
        requires
            old(self).wf(),
            !old(self)@.id_pending(id),
            !old(self)@.running.contains_key(id),
            !old(self)@.finished.contains_key(id),
            id < old(self)@.next_id,
        ensures
            final(self).wf(),
            final(self)@ == old(self)@.begin_step(id, cmd@, start_time),
    {
        let start_time = now_millis();
        self.begin_execution_at(id, cmd, start_time);
        start_time
    }

    /// Completes a running task, stamping its record with the wall-clock time
    /// at which the process exited; the stamp is returned.  Should the clock
    /// have stepped backwards meanwhile, the stamp is held at the start time,
    /// so a finished record never ends before it began.
    pub fn record_completion(&mut self, id: usize, output: CapturedOutput) -> (finish_time: i64)
        requires
            old(self).wf(),
            old(self)@.running.contains_key(id),
        ensures
            final(self).wf(),
            old(self)@.running[id].start_time <= finish_time,
            final(self)@ == old(self)@.finish_step(id, finish_time, output@),
    {
        let now = now_millis();
        let started = match self.currently_running.get(&id) {
            Some(rec) => rec.start_time,
            None => {
                proof {
                    assert(false);
                }
                0
            },
        };
        let finish_time = if now < started {
            started
        } else {
            now
        };
        self.record_completion_at(id, finish_time, output);
        finish_time
    }

    /// Whether `id` is waiting in the pending queue, so that an embedding
    /// program can test every condition of the claiming protocol before it
    /// publishes a running record.
    pub fn is_pending(&self, id: usize) -> (r: bool)
        ensures
            r == self@.id_pending(id),
    {
        let mut k: usize = 0;
        while k < self.queue.len()
            invariant
                k <= self.queue@.len(),
                forall|j: int| 0 <= j < k ==> (#[trigger] self@.queue[j]).0 != id,
            decreases self.queue@.len() - k,
        {
            if self.queue[k].0 == id {
                proof {
                    assert(self@.queue[k as int].0 == id);
                }
                return true;
            }
            k = k + 1;
        }
        false
    }

    /// The id the next submission will receive.
    pub fn next_id(&self) -> (r: usize)
        ensures
            r == self@.next_id,
    {
        self.next_id
    }

    /// A shared view of the running-set, for display.
    pub fn get_currently_running(&self) -> (r: &HashMap<usize, Task>)
        ensures
            r@.map_values(|t: Task| t@) == self@.running,
    {
        &self.currently_running
    }

    /// A shared view of the finished-set, for display.
    pub fn get_finished(&self) -> (r: &HashMap<usize, Task>)
        ensures
            r@.map_values(|t: Task| t@) == self@.finished,
    {
        &self.finished
    }
}

/// Relies on std's `SystemTime::now` and `duration_since(UNIX_EPOCH)`: the
/// wall-clock time as milliseconds since the Unix epoch, negative when the
/// platform clock reads before the epoch.  Both branches of the result are
/// handled, so the read cannot panic.  The value depends on the clock alone,
/// so nothing is stated of it.
#[verifier::external_body]
fn now_millis() -> i64 {
    match std::time::SystemTime::now().duration_since(std::time::UNIX_EPOCH) {
        Ok(since) => since.as_millis() as i64,
        Err(before) => -(before.duration().as_millis() as i64),
    }
}

/// Returns the captured output of a finished task, or nothing when the id is
/// not in the finished-set (never submitted, still pending or running, or
/// lost to a spawn failure).  Absence is reported, never a default output.
pub fn get_output(id: usize, tasks: &Tasks) -> (r: Option<CapturedOutput>)
    requires
        tasks.wf(),
    ensures
        tasks@.finished.contains_key(id) ==> (r matches Some(o) && tasks@.fetch_output(id) == Some(
            o@,
        )),
        !tasks@.finished.contains_key(id) ==> r is None,
{
    match tasks.finished.get(&id) {
        None => None,
        Some(t) => {
            proof {
                assert(tasks@.finished.contains_key(id));
                assert(tasks@.finished[id] == t@);
            }
            match &t.output {
                Some(o) => Some(o.duplicate()),
                None => {
                    proof {
                        assert(false);
                    }
                    None
                },
            }
        },
    }
}

} // verus!
