//! The worker pool: how many workers there are, the queue that feeds them,
//! and what a worker does from start to the end of the process.

use std::collections::VecDeque;
use vstd::prelude::*;
use crate::task::Task;

verus! {

/// Seconds a worker waits before it looks at the queue again after the queue
/// could not hand out a job.
pub const RETRY_DELAY_SECS: u64 = 1;

/// The pool of workers as the request handlers see it: its size, and the
/// jobs that wait for a worker, oldest first.
#[derive(Clone, Debug, PartialEq, Eq)]
pub struct ThreadPool {
    pub size: usize,
    pub queue: VecDeque<Task>,
}

/// The number of workers: the configured number, or else one for each CPU.
pub open spec fn worker_count_of(configured: Option<usize>, cpus: usize) -> usize {
    match configured {
        Some(n) => n,
        None => cpus,
    }
}

/// Picks the number of workers.
pub fn worker_count(configured: Option<usize>, cpus: usize) -> (count: usize)
    ensures
        count == worker_count_of(configured, cpus),
{
    match configured {
        Some(n) => n,
        None => cpus,
    }
}

/// Calls `num_cpus::get`, the number of CPUs that this process can use. It
/// differs from machine to machine; it is documented to be at least 1.
#[verifier::external_body]
fn available_cpus() -> (cpus: usize)
    ensures
        cpus >= 1,
{
    num_cpus::get()
}

impl ThreadPool {
    /// A pool with the given number of workers, or with one worker for each
    /// CPU where no number is given. No job waits yet.
    pub fn new(num_threads: Option<usize>) -> (pool: ThreadPool)
        ensures
            pool.queue@ == Seq::<Task>::empty(),
            num_threads matches Some(n) ==> pool.size == n,
            num_threads is None ==> pool.size >= 1,
    {
        let size = match num_threads {
            Some(n) => n,
            None => worker_count(None, available_cpus()),
        };
        ThreadPool { size, queue: VecDeque::new() }
    }

    /// Puts a job at the end of the queue.
    pub fn enqueue(&mut self, task: Task)
        ensures
            final(self).size == old(self).size,
            final(self).queue@ == old(self).queue@.push(task),
    {
        self.queue.push_back(task);
    }

    /// Takes the job that has waited longest out of the queue, if any waits.
    pub fn dequeue(&mut self) -> (task: Option<Task>)
        ensures
            final(self).size == old(self).size,
            old(self).queue@.len() == 0 ==> task is None,
            old(self).queue@.len() == 0 ==> final(self).queue@ == old(self).queue@,
            old(self).queue@.len() > 0 ==> task == Some(old(self).queue@[0]),
            old(self).queue@.len() > 0 ==> final(self).queue@ == old(self).queue@.drop_first(),
    {
        self.queue.pop_front()
    }

    /// How many jobs wait for a worker.
    pub fn waiting(&self) -> (count: usize)
        ensures
            count == self.queue@.len(),
    {
        self.queue.len()
    }
}

/// Jobs leave the queue in the order in which they came: of two jobs put in
/// one after the other, the first is taken out first, once the jobs that
/// waited before them are gone.
pub proof fn queue_is_first_in_first_out(queue: Seq<Task>, first: Task, second: Task)
    ensures
        queue.push(first).push(second).skip(queue.len() as int) == seq![first, second],
        forall|i: int|
            0 <= i < queue.len() ==> (#[trigger] queue.push(first).push(second)[i]) == queue[i],
{
}

/// What a worker is doing.
#[derive(Clone, Copy, Debug, PartialEq, Eq, Structural)]
pub enum WorkerPhase {
    Created,
    /// The codec library is being initialised.
    Initializing,
    /// The codec library's logging is being silenced.
    Quieting,
    /// The worker waits for a job.
    Waiting,
    /// The worker runs a job.
    Running,
    /// The worker pauses after the queue could not hand out a job.
    Sleeping,
}

/// A worker of the pool.
#[derive(Clone, Copy, Debug, PartialEq, Eq, Structural)]
pub struct Worker {
    pub id: usize,
    pub phase: WorkerPhase,
}

/// How the step that the worker was told to take has ended.
#[derive(Clone, Copy, Debug, PartialEq, Eq, Structural)]
pub enum WorkerEvent {
    /// The thread has started.
    Start,
    /// The step is done.
    Done,
    /// The step has failed.
    Failed,
    /// A job was taken from the queue.
    Job,
    /// The queue could not hand out a job: it is closed.
    Closed,
}

/// What the worker's thread is to do next.
#[derive(Clone, Copy, Debug, PartialEq, Eq, Structural)]
pub enum WorkerAction {
    /// Initialise the codec library; a failure is logged and the worker goes
    /// on.
    InitLibrary,
    /// Set the codec library's log level to quiet.
    SilenceLibrary,
    /// Wait for the next job of the queue.
    Receive,
    /// Run the job that was received; a failure is logged and the worker
    /// goes on.
    Execute,
    /// Pause for this many seconds.
    Sleep(u64),
}

/// The worker after `event`, and what it does next. A worker initialises the
/// codec library once and then takes job after job; nothing that a job or
/// the queue reports stops it.
pub open spec fn worker_next(worker: Worker, event: WorkerEvent) -> (Worker, WorkerAction) {
    match worker.phase {
        WorkerPhase::Created => (
            Worker { phase: WorkerPhase::Initializing, ..worker },
            WorkerAction::InitLibrary,
        ),
        WorkerPhase::Initializing => (
            Worker { phase: WorkerPhase::Quieting, ..worker },
            WorkerAction::SilenceLibrary,
        ),
        WorkerPhase::Quieting => (
            Worker { phase: WorkerPhase::Waiting, ..worker },
            WorkerAction::Receive,
        ),
        WorkerPhase::Waiting => match event {
            WorkerEvent::Job => (
                Worker { phase: WorkerPhase::Running, ..worker },
                WorkerAction::Execute,
            ),
            _ => (
                Worker { phase: WorkerPhase::Sleeping, ..worker },
                WorkerAction::Sleep(RETRY_DELAY_SECS),
            ),
        },
        WorkerPhase::Running => (
            Worker { phase: WorkerPhase::Waiting, ..worker },
            WorkerAction::Receive,
        ),
        WorkerPhase::Sleeping => (
            Worker { phase: WorkerPhase::Waiting, ..worker },
            WorkerAction::Receive,
        ),
    }
}

impl Worker {
    /// A worker that has not started. Its first event is
    /// `WorkerEvent::Start`.
    pub fn new(id: usize) -> (worker: Worker)
        ensures
            worker == (Worker { id, phase: WorkerPhase::Created }),
    {
        Worker { id, phase: WorkerPhase::Created }
    }

    /// Takes in how the last step ended and says what the worker does next.
    pub fn step(self, event: WorkerEvent) -> (out: (Worker, WorkerAction))
        ensures
            out == worker_next(self, event),
    {
        let (phase, action) = match self.phase {
            WorkerPhase::Created => (WorkerPhase::Initializing, WorkerAction::InitLibrary),
            WorkerPhase::Initializing => (WorkerPhase::Quieting, WorkerAction::SilenceLibrary),
            WorkerPhase::Quieting => (WorkerPhase::Waiting, WorkerAction::Receive),
            WorkerPhase::Waiting => match event {
                WorkerEvent::Job => (WorkerPhase::Running, WorkerAction::Execute),
                _ => (WorkerPhase::Sleeping, WorkerAction::Sleep(RETRY_DELAY_SECS)),
            },
            WorkerPhase::Running => (WorkerPhase::Waiting, WorkerAction::Receive),
            WorkerPhase::Sleeping => (WorkerPhase::Waiting, WorkerAction::Receive),
        };
        (Worker { id: self.id, phase }, action)
    }
}

/// The worker after `events`, and what it has been told to do.
pub open spec fn worker_run(id: usize, events: Seq<WorkerEvent>) -> (Worker, Seq<WorkerAction>)
    decreases events.len(),
{
    if events.len() == 0 {
        (Worker { id, phase: WorkerPhase::Created }, Seq::<WorkerAction>::empty())
    } else {
        let before = worker_run(id, events.drop_last());
        let step = worker_next(before.0, events.last());
        (step.0, before.1.push(step.1))
    }
}

/// How often the codec library is initialised among `actions`.
pub open spec fn initialisations(actions: Seq<WorkerAction>) -> nat
    decreases actions.len(),
{
    if actions.len() == 0 {
        0
    } else {
        initialisations(actions.drop_last()) + if actions.last() == WorkerAction::InitLibrary {
            1nat
        } else {
            0nat
        }
    }
}

/// How many jobs are run among `actions`.
pub open spec fn executions(actions: Seq<WorkerAction>) -> nat
    decreases actions.len(),
{
    if actions.len() == 0 {
        0
    } else {
        executions(actions.drop_last()) + if actions.last() == WorkerAction::Execute {
            1nat
        } else {
            0nat
        }
    }
}

spec fn started_in_order(worker: Worker, steps: nat, actions: Seq<WorkerAction>) -> bool {
    match worker.phase {
        WorkerPhase::Created => steps == 0 && initialisations(actions) == 0 && executions(
            actions,
        ) == 0,
        WorkerPhase::Initializing => steps == 1 && initialisations(actions) == 1 && executions(
            actions,
        ) == 0,
        WorkerPhase::Quieting => steps == 2 && initialisations(actions) == 1 && executions(
            actions,
        ) == 0,
        _ => steps >= 3 && initialisations(actions) == 1 && (steps == 3 ==> executions(actions)
            == 0),
    }
}

proof fn lemma_started_in_order(id: usize, events: Seq<WorkerEvent>)
    ensures
        worker_run(id, events).0.id == id,
        started_in_order(worker_run(id, events).0, events.len(), worker_run(id, events).1),
    decreases events.len(),
{
    if events.len() > 0 {
        lemma_started_in_order(id, events.drop_last());
        let before = worker_run(id, events.drop_last());
        let step = worker_next(before.0, events.last());
        assert(before.1.push(step.1).drop_last() =~= before.1);
    }
}

/// A worker initialises the codec library exactly once, before it runs any
/// job, and keeps its identity.
pub proof fn library_is_initialised_once(id: usize, events: Seq<WorkerEvent>)
    ensures
        worker_run(id, events).0.id == id,
        events.len() > 0 ==> initialisations(worker_run(id, events).1) == 1,
        executions(worker_run(id, events).1) > 0 ==> events.len() > 3,
{
    lemma_started_in_order(id, events);
}

/// A worker runs a job only when the queue has handed one out, and then
/// runs it at once.
pub proof fn worker_runs_what_it_receives(worker: Worker, event: WorkerEvent)
    ensures
        worker_next(worker, event).1 == WorkerAction::Execute <==> (worker.phase is Waiting
            && event == WorkerEvent::Job),
{
}

/// Nothing stops a worker: whatever a job or the queue reports, the worker
/// is back waiting for the next job after at most two steps.
pub proof fn worker_returns_to_queue(worker: Worker, first: WorkerEvent, second: WorkerEvent)
    requires
        worker.phase is Waiting || worker.phase is Running || worker.phase is Sleeping,
    ensures
        worker_next(worker, first).0.phase is Waiting || worker_next(
            worker_next(worker, first).0,
            second,
        ).0.phase is Waiting,
{
}

} // verus!
