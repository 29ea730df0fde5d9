use std::sync::mpsc::{sync_channel, Sender, SyncSender};

use aspen_renderer::dispatcher::{submit_job, DispatchError, FrameHandOff, HandOffRefusal};

#[test]
fn second_send_is_held_back_until_the_slot_drains() {
    let mut hand_off = FrameHandOff::new();
    assert_eq!(hand_off.try_send(1), Ok(()));
    // The slot is full: a second producer is refused (in the threaded
    // engine it blocks right here).
    assert_eq!(hand_off.try_send(2), Err(HandOffRefusal::Busy));
    assert_eq!(hand_off.queued, Some(1));
    // The dispatcher picks the job up; only now does the next send land.
    assert_eq!(hand_off.take_next(), Some(1));
    assert_eq!(hand_off.in_execution, Some(1));
    assert_eq!(hand_off.try_send(2), Ok(()));
    // One queued and one executing: a third is refused again.
    assert_eq!(hand_off.try_send(3), Err(HandOffRefusal::Busy));
    let done = hand_off.finish_running();
    assert_eq!(done, 1);
    assert_eq!(hand_off.completed, vec![1]);
    assert_eq!(hand_off.take_next(), Some(2));
    assert_eq!(hand_off.finish_running(), 2);
    assert_eq!(hand_off.completed, vec![1, 2]);
}

#[test]
fn jobs_complete_in_hand_off_order() {
    let mut hand_off = FrameHandOff::new();
    for job in 10..15u64 {
        assert_eq!(hand_off.try_send(job), Ok(()));
        assert_eq!(hand_off.take_next(), Some(job));
        assert_eq!(hand_off.finish_running(), job);
    }
    assert_eq!(hand_off.completed, vec![10, 11, 12, 13, 14]);
}

#[test]
fn closed_hand_off_refuses_jobs_and_drains_empty() {
    let mut hand_off = FrameHandOff::new();
    hand_off.close();
    assert_eq!(hand_off.try_send(1), Err(HandOffRefusal::Closed));
    assert_eq!(hand_off.take_next(), None);
}

#[test]
fn submitted_job_travels_with_its_completion_signal() {
    let (job_tx, job_rx): (SyncSender<(u64, Sender<()>)>, _) = sync_channel(1);
    let mut barrier = submit_job(&job_tx, 42u64).unwrap();
    // The dispatcher side receives the job paired with the signal for
    // exactly this barrier.
    let (job, signal) = job_rx.recv().unwrap();
    assert_eq!(job, 42);
    signal.send(()).unwrap();
    barrier.blocking_wait();
    // The barrier is spent: waiting again returns at once even though no
    // further signal will ever arrive.
    barrier.blocking_wait();
}

#[test]
fn dropping_an_unconsumed_barrier_waits_for_the_job() {
    let (job_tx, job_rx): (SyncSender<(u64, Sender<()>)>, _) = sync_channel(1);
    let barrier = submit_job(&job_tx, 7u64).unwrap();
    let (job, signal) = job_rx.recv().unwrap();
    assert_eq!(job, 7);
    signal.send(()).unwrap();
    // Never waited on explicitly: the drop performs the blocking wait and
    // consumes the signal sent above.
    drop(barrier);
}

#[test]
fn submitting_to_a_gone_dispatcher_reports_disconnection() {
    let (job_tx, job_rx): (SyncSender<(u64, Sender<()>)>, _) = sync_channel(1);
    drop(job_rx);
    let refused = submit_job(&job_tx, 3u64);
    assert!(matches!(refused, Err(DispatchError::Disconnected)));
}
