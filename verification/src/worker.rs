//! The submission side of the worker pool.
//!
//! The pool hands jobs to a long-lived dispatcher task over a bounded
//! channel — the channel's capacity is the queue bound `Q` — and shares a
//! semaphore whose permits cap the concurrent conversions at `W`. The
//! dispatcher loop itself suspends on those primitives and so lives with
//! the runtime glue; the decisions it carries out are modeled and proved
//! by the state machine in `dispatch`. What stands here is the submitter's
//! half:
//! building a job with its single-use result channel and offering it to
//! the queue without ever blocking the caller.

use vstd::prelude::*;

use crate::error::ConvertError;

verus! {

#[verifier::external_type_specification]
#[verifier::external_body]
#[verifier::reject_recursive_types(T)]
pub struct ExMpscSender<T>(tokio::sync::mpsc::Sender<T>);

#[verifier::external_type_specification]
#[verifier::external_body]
#[verifier::reject_recursive_types(T)]
pub struct ExOneshotSender<T>(tokio::sync::oneshot::Sender<T>);

#[verifier::external_type_specification]
#[verifier::external_body]
#[verifier::reject_recursive_types(T)]
pub struct ExOneshotReceiver<T>(tokio::sync::oneshot::Receiver<T>);

#[verifier::external_type_specification]
#[verifier::external_body]
pub struct ExOneshotRecvError(tokio::sync::oneshot::error::RecvError);

#[verifier::external_type_specification]
#[verifier::external_body]
pub struct ExSemaphore(tokio::sync::Semaphore);

/// A conversion job as it travels from a submitter to the dispatcher.
pub struct Job {
    /// Raw HEIC input bytes.
    pub input: Vec<u8>,
    /// Requested JPEG quality.
    pub quality: u8,
    /// Producer half of the job's single-use result channel.
    pub response_tx: tokio::sync::oneshot::Sender<Result<Vec<u8>, ConvertError>>,
}

/// Relies on tokio::sync::oneshot::channel: returns a connected
/// single-use sender/receiver pair carrying one job's result.
#[verifier::external_body]
fn oneshot_pair() -> (tokio::sync::oneshot::Sender<Result<Vec<u8>, ConvertError>>, tokio::sync::oneshot::Receiver<
    Result<Vec<u8>, ConvertError>,
>) {
    tokio::sync::oneshot::channel()
}

/// Relies on tokio::sync::mpsc::Sender::try_send: offers the job to the
/// back of the bounded channel without waiting, and hands the job back
/// untouched when the channel is at capacity or closed.
#[verifier::external_body]
fn try_send_job(job_tx: &tokio::sync::mpsc::Sender<Job>, job: Job) -> (r: Result<(), Job>)
    ensures
        r matches Err(j) ==> j == job,
{
    match job_tx.try_send(job) {
        Ok(()) => Ok(()),
        Err(tokio::sync::mpsc::error::TrySendError::Full(j)) => Err(j),
        Err(tokio::sync::mpsc::error::TrySendError::Closed(j)) => Err(j),
    }
}

/// Relies on tokio::sync::Semaphore::available_permits: how many permits
/// are free at this instant. The count is immediately stale under
/// concurrent use, so nothing more is claimed of it.
#[verifier::external_body]
fn free_permits(semaphore: &std::sync::Arc<tokio::sync::Semaphore>) -> usize {
    semaphore.available_permits()
}

/// Handle through which request handlers submit conversion jobs.
pub struct WorkerPool {
    job_tx: tokio::sync::mpsc::Sender<Job>,
    semaphore: std::sync::Arc<tokio::sync::Semaphore>,
}

impl WorkerPool {
    /// A pool handle over the submission side of the bounded job channel
    /// and the shared permit pool; the dispatcher task owns the other
    /// ends.
    pub fn from_parts(
        job_tx: tokio::sync::mpsc::Sender<Job>,
        semaphore: std::sync::Arc<tokio::sync::Semaphore>,
    ) -> WorkerPool {
        WorkerPool { job_tx, semaphore }
    }

    /// Submit one job: build its single-use result channel and offer the
    /// job to the bounded queue, never waiting for space. The only error
    /// a submitter can observe is `QueueFull` — a queue already holding
    /// its full capacity (or already torn down) rejects synchronously.
    /// On success the caller holds the receiver on which exactly one
    /// terminal outcome will arrive.
    pub fn submit(&self, input: Vec<u8>, quality: u8) -> (r: Result<
        tokio::sync::oneshot::Receiver<Result<Vec<u8>, ConvertError>>,
        ConvertError,
    >)
        ensures
            r matches Err(e) ==> e == ConvertError::QueueFull,
    {
        let (response_tx, response_rx) = oneshot_pair();
        let job = Job { input, quality, response_tx };
        match try_send_job(&self.job_tx, job) {
            Ok(()) => Ok(response_rx),
            Err(_) => Err(ConvertError::QueueFull),
        }
    }

    /// How many conversion permits are currently free.
    pub fn available_permits(&self) -> usize {
        free_permits(&self.semaphore)
    }
}

} // verus!
