//! The dispatching side of the pool: how many workers to start, and the task
//! submitter that feeds the single-producer/multiple-consumer task channel.
use crate::ledger::{accept_spec, LedgerError, TaskLedger};
use crate::startup::{
    failures_view, lemma_started_iff_all_ok, startup_outcome, InitReport, PoolInitError,
};
use crate::task::{Message, Task, TaskResult};
use vstd::prelude::*;

verus! {

/// Declares `spmc::Sender`, the sending end of the task channel, as an
/// opaque type.
#[verifier::external_type_specification]
#[verifier::external_body]
#[verifier::reject_recursive_types(T)]
pub struct ExSpmcSender<T: Send>(spmc::Sender<T>);

/// Declares `std::sync::mpsc::Receiver`, the receiving end of the result
/// channel, as an opaque type.
#[verifier::external_type_specification]
#[verifier::external_body]
#[verifier::reject_recursive_types(T)]
pub struct ExMpscReceiver<T>(std::sync::mpsc::Receiver<T>);

/// Relies on `std::sync::mpsc::Receiver::recv`: it blocks for the next
/// result and fails only when every sender is gone. Nothing is promised of
/// the value received.
#[verifier::external_body]
fn channel_recv(rx: &std::sync::mpsc::Receiver<TaskResult>) -> (r: Option<TaskResult>) {
    rx.recv().ok()
}

/// Relies on `num_cpus::get`: the number of logical cores this process may
/// run on. Nothing is promised of the value.
#[verifier::external_body]
fn available_cores() -> (r: usize) {
    num_cpus::get()
}

/// Relies on `spmc::Sender::send`: it queues the message for one receiver,
/// and fails only when no receiver is left. Whether it fails depends on the
/// other threads, so nothing is promised of the result.
#[verifier::external_body]
fn channel_send(tx: &mut spmc::Sender<Message>, m: Message) -> (r: bool) {
    tx.send(m).is_ok()
}

/// A failure of the pool as a whole.
#[derive(Debug)]
pub enum PoolError {
    /// Some workers could not create their engine.
    Init(PoolInitError),
    /// A channel broke: the other side is gone.
    Channel,
    /// The worker with this index panicked or could not be joined.
    Join(usize),
    /// A task id was submitted twice, or a result came for an id that was not
    /// submitted or was already answered.
    Ledger(LedgerError),
}

/// The number of workers to start: the number asked for, or when none (or
/// zero) is asked for, one per available core, and at least one.
pub fn worker_count(requested: Option<usize>) -> (r: usize)
    ensures
        r >= 1,
        requested is Some && requested->Some_0 > 0 ==> r == requested->Some_0,
{
    match requested {
        Some(n) if n > 0 => n,
        _ => {
            let cores = available_cores();
            if cores == 0 {
                1
            } else {
                cores
            }
        },
    }
}

/// What a message on the task channel stands for: a task's id, or `None` for
/// a shutdown signal.
pub open spec fn message_tag(m: Message) -> Option<u32> {
    match m {
        Some(t) => Some(t.id),
        None => None,
    }
}

/// The tags of `k` shutdown signals.
pub open spec fn shutdown_signals(k: nat) -> Seq<Option<u32>> {
    Seq::new(k, |i: int| None::<u32>)
}

/// The sending end of the task channel.
pub struct TaskSubmitter {
    tx: spmc::Sender<Message>,
    /// What has been handed to the channel, in order.
    sent: Ghost<Seq<Option<u32>>>,
}

impl TaskSubmitter {
    /// The tags of the messages handed to the channel so far, in order.
    pub closed spec fn sent(&self) -> Seq<Option<u32>> {
        self.sent@
    }

    /// A submitter over the sending end of a task channel.
    pub fn new(tx: spmc::Sender<Message>) -> (r: TaskSubmitter)
        ensures
            r.sent() == Seq::<Option<u32>>::empty(),
    {
        TaskSubmitter { tx, sent: Ghost(Seq::empty()) }
    }

    fn send_message(&mut self, m: Message) -> (r: bool)
        ensures
            final(self).sent() == old(self).sent().push(message_tag(m)),
    {
        let ghost tag = message_tag(m);
        let ok = channel_send(&mut self.tx, m);
        self.sent = Ghost(self.sent@.push(tag));
        ok
    }

    /// Hands a task to the channel, for exactly one idle worker. Fails when no
    /// worker is left to receive it.
    pub fn submit(&mut self, task: Task) -> (r: Result<(), PoolError>)
        ensures
            final(self).sent() == old(self).sent().push(Some(task.id)),
            r is Err ==> r matches Err(PoolError::Channel),
    {
        if self.send_message(Some(task)) {
            Ok(())
        } else {
            Err(PoolError::Channel)
        }
    }

    /// Sends one shutdown signal per worker, so that each of `workers` workers
    /// receives its own. Stops at the first signal the channel refuses.
    pub fn shutdown(&mut self, workers: usize) -> (r: Result<(), PoolError>)
        ensures
            workers == 0 ==> r is Ok,
            r is Ok ==> final(self).sent() == old(self).sent() + shutdown_signals(workers as nat),
            r is Err ==> r matches Err(PoolError::Channel),
            r is Err ==> exists|k: nat|
                1 <= k <= workers && final(self).sent() == old(self).sent()
                    + #[trigger] shutdown_signals(k),
    {
        let mut i: usize = 0;
        while i < workers
            invariant
                i <= workers,
                self.sent@ == old(self).sent() + shutdown_signals(i as nat),
            decreases workers - i,
        {
            let ok = self.send_message(None);
            assert(self.sent() =~= old(self).sent() + shutdown_signals((i + 1) as nat));
            if !ok {
                assert(final(self).sent() == old(self).sent() + shutdown_signals((i + 1) as nat));
                return Err(PoolError::Channel);
            }
            i += 1;
        }
        Ok(())
    }
}


/// The dispatching side of a started pool: it submits tasks, receives their
/// results and holds each result against the submitted ids.
pub struct Dispatcher {
    submitter: TaskSubmitter,
    results: std::sync::mpsc::Receiver<TaskResult>,
    ledger: TaskLedger,
}

impl Dispatcher {
    pub closed spec fn wf(&self) -> bool {
        self.ledger.wf()
    }

    /// The ids of the tasks submitted so far.
    pub closed spec fn submitted(&self) -> Set<u32> {
        self.ledger.submitted()
    }

    /// The ids whose result has been received.
    pub closed spec fn answered(&self) -> Set<u32> {
        self.ledger.answered()
    }

    /// The tags of the messages handed to the task channel, in order.
    pub closed spec fn sent(&self) -> Seq<Option<u32>> {
        self.submitter.sent()
    }

    /// A dispatcher over the two channel ends, with nothing submitted yet.
    pub fn new(tasks: spmc::Sender<Message>, results: std::sync::mpsc::Receiver<TaskResult>) -> (r:
        Dispatcher)
        ensures
            r.wf(),
            r.submitted() == Set::<u32>::empty(),
            r.answered() == Set::<u32>::empty(),
            r.sent() == Seq::<Option<u32>>::empty(),
    {
        Dispatcher { submitter: TaskSubmitter::new(tasks), results, ledger: TaskLedger::new() }
    }

    /// Submits a task. A task whose id was already submitted is refused and
    /// not sent.
    pub fn submit(&mut self, task: Task) -> (r: Result<(), PoolError>)
        requires
            old(self).wf(),
        ensures
            final(self).wf(),
            final(self).answered() == old(self).answered(),
            old(self).submitted().contains(task.id) <==> r matches Err(
                PoolError::Ledger(LedgerError::DuplicateTask),
            ),
            old(self).submitted().contains(task.id) ==> final(self).sent() == old(self).sent()
                && final(self).submitted() == old(self).submitted(),
            !old(self).submitted().contains(task.id) ==> final(self).sent() == old(self).sent().push(
                Some(task.id),
            ) && final(self).submitted() == old(self).submitted().insert(task.id) && (r is Ok
                || r matches Err(PoolError::Channel)),
    {
        match self.ledger.register(task.id) {
            Err(e) => Err(PoolError::Ledger(e)),
            Ok(()) => self.submitter.submit(task),
        }
    }

    /// Receives the next result. A result for an id that was not submitted,
    /// or that was already answered, is refused.
    pub fn receive(&mut self) -> (r: Result<TaskResult, PoolError>)
        requires
            old(self).wf(),
        ensures
            final(self).wf(),
            final(self).submitted() == old(self).submitted(),
            final(self).sent() == old(self).sent(),
            r matches Ok(res) ==> accept_spec(old(self).submitted(), old(self).answered(), res.id)
                == Ok::<Set<u32>, LedgerError>(final(self).answered()),
            r matches Err(PoolError::Ledger(_)) ==> final(self).answered() == old(self).answered(),
            r matches Err(e) ==> (e matches PoolError::Channel || e matches PoolError::Ledger(
                LedgerError::UnknownTask,
            ) || e matches PoolError::Ledger(LedgerError::DuplicateResult)),
            r matches Err(PoolError::Channel) ==> final(self).answered() == old(self).answered(),
            r matches Err(PoolError::Ledger(e)) ==> exists|id: u32|
                #[trigger] accept_spec(old(self).submitted(), old(self).answered(), id) == Err::<
                    Set<u32>,
                    LedgerError,
                >(e),
    {
        match channel_recv(&self.results) {
            None => Err(PoolError::Channel),
            Some(res) => match self.ledger.accept(res.id) {
                Ok(()) => Ok(res),
                Err(e) => {
                    assert(accept_spec(old(self).submitted(), old(self).answered(), res.id) == Err::<
                        Set<u32>,
                        LedgerError,
                    >(e));
                    Err(PoolError::Ledger(e))
                },
            },
        }
    }

    /// Whether every submitted task's result has been received.
    pub fn is_drained(&self) -> (r: bool)
        requires
            self.wf(),
        ensures
            r == (self.answered() == self.submitted()),
    {
        self.ledger.is_drained()
    }

    /// Sends one shutdown signal to each of `workers` workers.
    pub fn shutdown(&mut self, workers: usize) -> (r: Result<(), PoolError>)
        requires
            old(self).wf(),
        ensures
            final(self).wf(),
            final(self).submitted() == old(self).submitted(),
            final(self).answered() == old(self).answered(),
            workers == 0 ==> r is Ok,
            r is Ok ==> final(self).sent() == old(self).sent() + shutdown_signals(workers as nat),
            r is Err ==> r matches Err(PoolError::Channel),
            r is Err ==> exists|k: nat|
                1 <= k <= workers && final(self).sent() == old(self).sent()
                    + #[trigger] shutdown_signals(k),
    {
        self.submitter.shutdown(workers)
    }
}


/// A startup that failed: the workers that could not start, and the
/// shutdown signals sent so that every worker thread ends and can be joined.
/// No task can be sent any more: the task channel's sending end is gone.
pub struct FailedStart {
    pub error: PoolInitError,
    /// Whether the channel took every worker's shutdown signal.
    pub signalled: Result<(), PoolError>,
    /// Everything that was handed to the task channel.
    pub sent: Ghost<Seq<Option<u32>>>,
}

/// What a failed start sent: each of the `workers` workers its shutdown
/// signal, or, when the channel refused one, the signals up to that one.
pub open spec fn failed_start_signals(f: FailedStart, workers: nat) -> bool {
    match f.signalled {
        Ok(()) => f.sent@ == shutdown_signals(workers),
        Err(e) => e matches PoolError::Channel && exists|k: nat|
            1 <= k <= workers && f.sent@ == #[trigger] shutdown_signals(k),
    }
}

/// How startup ended.
pub enum Startup {
    /// Every worker started: the dispatcher is ready for tasks.
    Started(Dispatcher),
    /// Some workers failed.
    Failed(FailedStart),
}

/// Ends startup once every worker has passed the startup barrier. When any
/// worker failed, no task is ever sent: each worker is sent its shutdown
/// signal, and nothing else, so that all threads can be joined.
pub fn open(report: &InitReport, tasks: spmc::Sender<Message>, results: std::sync::mpsc::Receiver<
    TaskResult,
>) -> (r: Startup)
    ensures
        match startup_outcome(report@) {
            Ok(_) => r matches Startup::Started(d) && d.wf() && d.submitted() == Set::<u32>::empty()
                && d.answered() == Set::<u32>::empty() && d.sent() == Seq::<Option<u32>>::empty()
                && forall|i: int|
                0 <= i < report@.len() ==> #[trigger] report@[i] == Some(Ok::<(), Seq<char>>(())),
            Err(failures) => r matches Startup::Failed(f) && failures_view(f.error) == failures
                && failed_start_signals(f, report@.len()),
        },
{
    proof {
        lemma_started_iff_all_ok(report@);
    }
    let mut dispatcher = Dispatcher::new(tasks, results);
    match report.finish() {
        Ok(_) => Startup::Started(dispatcher),
        Err(error) => {
            let workers = report.worker_count();
            let signalled = dispatcher.shutdown(workers);
            let ghost sent = dispatcher.sent();
            proof {
                assert(Seq::<Option<u32>>::empty() + shutdown_signals(workers as nat) =~= shutdown_signals(workers as nat));
                assert forall|k: nat| #[trigger] shutdown_signals(k) == Seq::<Option<u32>>::empty() + shutdown_signals(k) by {
                    assert(Seq::<Option<u32>>::empty() + shutdown_signals(k) =~= shutdown_signals(k));
                }
            }
            Startup::Failed(FailedStart { error, signalled, sent: Ghost(sent) })
        },
    }
}

} // verus!
