//! The dispatcher protocol: one dedicated thread owns all device
//! submission, and a bounded hand-off of capacity one carries frame jobs
//! from producer threads to it. A producer that submits a job receives a
//! [`PresentBarrier`] and blocks on it (explicitly, or implicitly when
//! the barrier is dropped) until the dispatcher signals that job
//! complete.
//!
//! The thread and its receive loop belong to the device layer; this
//! module holds the verified halves: building and sending the job/signal
//! pair, executing a job and signalling its completion, the barrier
//! itself, and [`FrameHandOff`], the plain model of the hand-off whose
//! contracts pin down the backpressure discipline (at most one queued
//! job, at most one executing job, a second producer refused until the
//! slot drains).

use std::sync::Arc;
use std::sync::mpsc::{Receiver, Sender, SyncSender};
use vstd::prelude::*;

use crate::render_system::RenderSystem;

verus! {

/// Relies on std's `mpsc::Sender`: the sending half of the one-shot
/// completion channel.
#[verifier::external_type_specification]
#[verifier::external_body]
#[verifier::reject_recursive_types(T)]
pub struct ExSender<T>(Sender<T>);

/// Relies on std's `mpsc::SyncSender`: the sending half of the bounded
/// job hand-off; its `send` blocks while the channel is full.
#[verifier::external_type_specification]
#[verifier::external_body]
#[verifier::reject_recursive_types(T)]
pub struct ExSyncSender<T>(SyncSender<T>);

/// Relies on std's `mpsc::Receiver`: the receiving half of a channel;
/// its `recv` blocks until a message arrives or every sender is gone.
#[verifier::external_type_specification]
#[verifier::external_body]
#[verifier::reject_recursive_types(T)]
pub struct ExReceiver<T>(Receiver<T>);

/// Sending or receiving failed because the other side is gone: the
/// dispatcher thread has exited, or every producer handle was dropped.
#[derive(Clone, Copy, Debug, PartialEq, Eq, Structural)]
pub enum DispatchError {
    Disconnected,
}

/// Why the hand-off refused a producer's job.
#[derive(Clone, Copy, Debug, PartialEq, Eq, Structural)]
pub enum HandOffRefusal {
    /// The slot already holds a job; the producer must wait for the
    /// dispatcher to drain it. In the threaded engine this is where the
    /// producer blocks.
    Busy,
    /// The hand-off is closed; no job will ever be accepted again.
    Closed,
}

/// Relies on std's `mpsc::channel`: a fresh asynchronous channel pair,
/// used as the one-shot completion signal for a single job.
#[verifier::external_body]
fn signal_channel() -> (r: (Sender<()>, Receiver<()>)) {
    std::sync::mpsc::channel()
}

/// Relies on std's `SyncSender::send`: blocks while the bounded channel
/// is full — the backpressure this engine runs on — delivers the value
/// in FIFO order otherwise, and fails only when the receiver is gone.
#[verifier::external_body]
fn hand_off_send<T>(sender: &SyncSender<T>, value: T) -> (r: Result<(), DispatchError>) {
    match sender.send(value) {
        Ok(()) => Ok(()),
        Err(_) => Err(DispatchError::Disconnected),
    }
}

/// Relies on std's `Sender::send`: delivers the completion signal unless
/// the waiting side already dropped its barrier.
#[verifier::external_body]
fn signal_send(sender: &Sender<()>) -> (r: Result<(), DispatchError>) {
    match sender.send(()) {
        Ok(()) => Ok(()),
        Err(_) => Err(DispatchError::Disconnected),
    }
}

/// Relies on std's `Receiver::recv`: blocks until the one-shot signal
/// arrives or the sending side is gone; either way the job is no longer
/// pending afterwards.
#[verifier::external_body]
fn signal_recv(receiver: &Receiver<()>) -> (r: Result<(), DispatchError>)
    opens_invariants none
    no_unwind
{
    match receiver.recv() {
        Ok(()) => Ok(()),
        Err(_) => Err(DispatchError::Disconnected),
    }
}

/// The one-shot completion token a producer holds after submitting a
/// frame job. An explicit `blocking_wait` consumes the pending signal;
/// dropping the barrier without waiting performs the same blocking wait,
/// so a producer can never leak a pending job or run ahead of the frame
/// it requested.
pub struct PresentBarrier {
    receiver: Option<Receiver<()>>,
}

impl PresentBarrier {
    /// A signal is still owed: the barrier has not been waited on yet.
    pub closed spec fn armed(&self) -> bool {
        self.receiver is Some
    }

    /// Blocks until the dispatcher signals the corresponding job complete
    /// (or the dispatcher is gone). Afterwards the barrier is spent:
    /// waiting again returns immediately.
    pub fn blocking_wait(&mut self)
        ensures
            !final(self).armed(),
        opens_invariants none
        no_unwind
    {
        match &self.receiver {
            Some(receiver) => {
                let _ = signal_recv(receiver);
                self.receiver = None;
            }
            None => {}
        }
    }
}

impl Drop for PresentBarrier {
    /// Dropping an unconsumed barrier still blocks until the job
    /// completes.
    fn drop(&mut self)
        opens_invariants none
        no_unwind
    {
        self.blocking_wait()
    }
}

/// Builds one frame job's completion pair and hands the job through the
/// bounded hand-off, blocking while the dispatcher is mid-frame. On
/// success the caller holds the armed barrier for exactly this job; when
/// the dispatcher is gone the send fails, the job is dropped, and only
/// the error comes back.
pub fn submit_job<J>(sender: &SyncSender<(J, Sender<()>)>, job: J) -> (r: Result<
    PresentBarrier,
    DispatchError,
>)
    ensures
        r matches Ok(barrier) ==> barrier.armed(),
{
    let (signal_tx, signal_rx) = signal_channel();
    match hand_off_send(sender, (job, signal_tx)) {
        Ok(()) => Ok(PresentBarrier { receiver: Some(signal_rx) }),
        Err(e) => Err(e),
    }
}

/// One turn of the dispatcher loop's work: runs the received frame job to
/// completion, then signals the producer's barrier. The loop around it —
/// receive, execute, repeat until the hand-off closes — is the device
/// layer's, since it owns the thread.
pub fn run_and_signal<RS: RenderSystem>(
    job: &mut RS,
    graphics_objects: Arc<RS::Context>,
    done: &Sender<()>,
) {
    job.run(graphics_objects);
    let _ = signal_send(done);
}

/// The bounded hand-off, as a plain state machine over job numbers: at
/// most one job queued in the capacity-one slot, at most one job
/// executing, completions signalled in execution order. Its contracts are
/// the backpressure discipline: a producer's send is refused (in the
/// threaded engine: blocks) exactly while the slot is occupied or the
/// hand-off is closed, and a queued job enters execution only when the
/// dispatcher — which runs one job at a time — has finished the previous
/// one.
pub struct FrameHandOff {
    /// The job sitting in the capacity-one channel slot.
    pub queued: Option<u64>,
    /// The job the dispatcher is executing.
    pub in_execution: Option<u64>,
    /// Jobs whose completion was signalled, in order.
    pub completed: Vec<u64>,
    /// Every producer handle is gone; the dispatcher drains and exits.
    pub closed: bool,
}

impl FrameHandOff {
    /// An open hand-off with nothing queued, nothing executing, nothing
    /// completed.
    pub fn new() -> (s: Self)
        ensures
            s.queued is None,
            s.in_execution is None,
            s.completed@ =~= Seq::<u64>::empty(),
            !s.closed,
    {
        FrameHandOff { queued: None, in_execution: None, completed: Vec::new(), closed: false }
    }

    /// A producer offers a job. It is accepted exactly when the hand-off
    /// is open and the slot is empty; otherwise the producer is refused
    /// and nothing changes — in the threaded engine the producer blocks
    /// here until the dispatcher drains the slot.
    pub fn try_send(&mut self, job: u64) -> (r: Result<(), HandOffRefusal>)
        ensures
            r is Ok <==> (!old(self).closed && old(self).queued is None),
            r == Result::<(), HandOffRefusal>::Err(HandOffRefusal::Closed) <==> old(self).closed,
            r == Result::<(), HandOffRefusal>::Err(HandOffRefusal::Busy) <==> (!old(self).closed
                && old(self).queued is Some),
            r is Ok ==> *final(self) == (FrameHandOff { queued: Some(job), ..*old(self) }),
            r is Err ==> *final(self) == *old(self),
    {
        if self.closed {
            Err(HandOffRefusal::Closed)
        } else if self.queued.is_some() {
            Err(HandOffRefusal::Busy)
        } else {
            self.queued = Some(job);
            Ok(())
        }
    }

    /// The dispatcher picks up the queued job, if any. It can do so only
    /// between jobs — never while one is executing, which is what keeps
    /// executions exclusive — and afterwards the slot is free for the
    /// next producer.
    pub fn take_next(&mut self) -> (r: Option<u64>)
        requires
            old(self).in_execution is None,
        ensures
            r == old(self).queued,
            final(self).queued is None,
            final(self).in_execution == old(self).queued,
            final(self).completed == old(self).completed,
            final(self).closed == old(self).closed,
    {
        let job = self.queued;
        self.queued = None;
        match job {
            Some(j) => {
                self.in_execution = Some(j);
                Some(j)
            }
            None => None,
        }
    }

    /// The dispatcher finishes the executing job and signals its
    /// completion; only then can the next job enter execution.
    pub fn finish_running(&mut self) -> (r: u64)
        requires
            old(self).in_execution is Some,
        ensures
            r == old(self).in_execution->0,
            final(self).in_execution is None,
            final(self).queued == old(self).queued,
            final(self).completed@ == old(self).completed@.push(r),
            final(self).closed == old(self).closed,
    {
        let job: u64 = match self.in_execution {
            Some(j) => j,
            None => {
                proof {
                    assert(false);
                }
                0
            }
        };
        self.in_execution = None;
        self.completed.push(job);
        job
    }

    /// The last producer handle is dropped: the hand-off closes, which is
    /// the dispatcher's only shutdown path.
    pub fn close(&mut self)
        ensures
            *final(self) == (FrameHandOff { closed: true, ..*old(self) }),
    {
        self.closed = true;
    }
}

/// Backpressure: while one job sits unclaimed in the slot, any further
/// send is refused and changes nothing — in the threaded engine the
/// second producer blocks — and only the dispatcher's pickup (which by
/// [`FrameHandOff::take_next`]'s contract happens strictly between
/// executions) drains the slot. Stated over one step of
/// [`FrameHandOff::try_send`]: `pre` is any state with the slot occupied,
/// and `post`, `r` are any outcome its contract admits for a second send.
pub proof fn lemma_backpressure(
    pre: FrameHandOff,
    post: FrameHandOff,
    second: u64,
    r: Result<(), HandOffRefusal>,
)
    requires
        pre.queued is Some,
        r is Ok <==> (!pre.closed && pre.queued is None),
        r is Ok ==> post == (FrameHandOff { queued: Some(second), ..pre }),
        r is Err ==> post == pre,
    ensures
        r is Err,
        post == pre,
{
}

} // verus!
