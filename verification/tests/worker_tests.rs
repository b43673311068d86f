use std::sync::Arc;

use heictojpg::error::ConvertError;
use heictojpg::worker::{Job, WorkerPool};

type ConvertResult = Result<Vec<u8>, ConvertError>;

/// A dispatcher loop over the pool's primitives, as the application runs
/// it: pull a job, acquire a permit before pulling the next, run the
/// capability on the blocking pool, release the permit on every exit
/// path, deliver exactly one result.
fn spawn_dispatcher<F>(
    mut job_rx: tokio::sync::mpsc::Receiver<Job>,
    semaphore: Arc<tokio::sync::Semaphore>,
    capability: F,
) where
    F: Fn(Vec<u8>, u8) -> ConvertResult + Clone + Send + Sync + 'static,
{
    tokio::spawn(async move {
        while let Some(job) = job_rx.recv().await {
            let permit = match semaphore.clone().acquire_owned().await {
                Ok(p) => p,
                Err(_) => break,
            };
            let cap = capability.clone();
            tokio::spawn(async move {
                let _permit = permit;
                let result = tokio::task::spawn_blocking(move || cap(job.input, job.quality))
                    .await
                    .unwrap_or_else(|e| Err(ConvertError::Internal(e.to_string())));
                let _ = job.response_tx.send(result);
            });
        }
    });
}

#[test]
fn submit_rejects_when_queue_is_full() {
    let rt = tokio::runtime::Runtime::new().unwrap();
    rt.block_on(async {
        let (job_tx, _job_rx) = tokio::sync::mpsc::channel::<Job>(2);
        let semaphore = Arc::new(tokio::sync::Semaphore::new(1));
        let pool = WorkerPool::from_parts(job_tx, semaphore);
        // Nothing consumes the queue: its capacity is the admission limit.
        assert!(pool.submit(vec![1], 80).is_ok());
        assert!(pool.submit(vec![2], 80).is_ok());
        let third = pool.submit(vec![3], 80);
        assert!(matches!(third, Err(ConvertError::QueueFull)));
        // Queue occupancy, not permits, decides admission.
        assert_eq!(pool.available_permits(), 1);
    });
}

#[test]
fn results_come_back_on_the_job_channel() {
    let rt = tokio::runtime::Runtime::new().unwrap();
    rt.block_on(async {
        let (job_tx, job_rx) = tokio::sync::mpsc::channel::<Job>(8);
        let semaphore = Arc::new(tokio::sync::Semaphore::new(2));
        let pool = WorkerPool::from_parts(job_tx, semaphore.clone());
        spawn_dispatcher(job_rx, semaphore, |input, quality| {
            let mut out = input;
            out.push(quality);
            Ok(out)
        });
        let rx1 = pool.submit(vec![1], 80).unwrap();
        let rx2 = pool.submit(vec![2], 90).unwrap();
        assert_eq!(rx1.await.unwrap().unwrap(), vec![1, 80]);
        assert_eq!(rx2.await.unwrap().unwrap(), vec![2, 90]);
    });
}

#[test]
fn typed_failures_reach_the_submitter_verbatim() {
    let rt = tokio::runtime::Runtime::new().unwrap();
    rt.block_on(async {
        let (job_tx, job_rx) = tokio::sync::mpsc::channel::<Job>(8);
        let semaphore = Arc::new(tokio::sync::Semaphore::new(1));
        let pool = WorkerPool::from_parts(job_tx, semaphore.clone());
        spawn_dispatcher(job_rx, semaphore, |_input, quality| {
            Err(ConvertError::InvalidQuality(quality))
        });
        let rx = pool.submit(vec![1], 42).unwrap();
        assert!(matches!(
            rx.await.unwrap(),
            Err(ConvertError::InvalidQuality(42))
        ));
    });
}

#[test]
fn panicking_capability_yields_internal_and_pool_survives() {
    let rt = tokio::runtime::Runtime::new().unwrap();
    rt.block_on(async {
        let (job_tx, job_rx) = tokio::sync::mpsc::channel::<Job>(8);
        let semaphore = Arc::new(tokio::sync::Semaphore::new(1));
        let pool = WorkerPool::from_parts(job_tx, semaphore.clone());
        spawn_dispatcher(job_rx, semaphore.clone(), |input, _quality| {
            if input[0] == 1 {
                panic!("capability aborted deliberately");
            }
            Ok(input)
        });
        // First job panics inside the capability: the submitter sees an
        // infrastructure error, not a hang.
        let rx = pool.submit(vec![1], 80).unwrap();
        let outcome = rx.await.unwrap();
        assert!(matches!(outcome, Err(ConvertError::Internal(_))));
        // The permit was released: with a single permit, a later job can
        // only run to completion if the panicked one gave its permit back.
        let rx2 = pool.submit(vec![2], 80).unwrap();
        assert_eq!(rx2.await.unwrap().unwrap(), vec![2]);
        // The execution task drops its permit after delivering the result,
        // so wait for the count rather than sampling one racy instant.
        let mut settled = false;
        for _ in 0..200 {
            if pool.available_permits() == 1 {
                settled = true;
                break;
            }
            tokio::time::sleep(std::time::Duration::from_millis(10)).await;
        }
        assert!(settled, "permit was not returned after the panicked job");
    });
}

#[test]
fn abandoned_handle_neither_crashes_nor_leaks_a_permit() {
    let rt = tokio::runtime::Runtime::new().unwrap();
    rt.block_on(async {
        let (job_tx, job_rx) = tokio::sync::mpsc::channel::<Job>(8);
        let semaphore = Arc::new(tokio::sync::Semaphore::new(1));
        let pool = WorkerPool::from_parts(job_tx, semaphore.clone());
        let (done_tx, mut done_rx) = tokio::sync::mpsc::channel::<()>(8);
        spawn_dispatcher(job_rx, semaphore.clone(), move |input, _quality| {
            let _ = done_tx.blocking_send(());
            Ok(input)
        });
        // Abandon the handle before the job completes: the conversion
        // still runs, its result is discarded, the permit comes back.
        let rx = pool.submit(vec![1], 80).unwrap();
        drop(rx);
        done_rx.recv().await.unwrap();
        // The dispatcher is still alive and serving.
        let rx2 = pool.submit(vec![2], 80).unwrap();
        assert_eq!(rx2.await.unwrap().unwrap(), vec![2]);
    });
}

#[test]
fn invalid_quality_rejection_consumes_no_lasting_capacity() {
    let rt = tokio::runtime::Runtime::new().unwrap();
    rt.block_on(async {
        let (job_tx, job_rx) = tokio::sync::mpsc::channel::<Job>(8);
        let semaphore = Arc::new(tokio::sync::Semaphore::new(1));
        let pool = WorkerPool::from_parts(job_tx, semaphore.clone());
        // The capability is the library's conversion around a stub codec.
        spawn_dispatcher(job_rx, semaphore, |input, quality| {
            let options = heictojpg::converter::ConvertOptions {
                max_resolution: 1000,
                min_quality: 60,
                max_quality: 95,
            };
            heictojpg::converter::convert(
                input,
                quality,
                &options,
                |_data: Vec<u8>| {
                    Ok(heictojpg::converter::RawImage {
                        width: 1,
                        height: 1,
                        stride: 3,
                        data: vec![1, 2, 3],
                    })
                },
                |_rgb: Vec<u8>, _w: u32, _h: u32, q: u8| Ok(vec![q]),
            )
        });
        // Quality below the minimum: the submitter sees InvalidQuality.
        let rx = pool.submit(vec![1], 59).unwrap();
        assert!(matches!(
            rx.await.unwrap(),
            Err(ConvertError::InvalidQuality(59))
        ));
        // With a single permit, a following valid job can only complete if
        // the rejected one left no permit behind.
        let rx2 = pool.submit(vec![2], 80).unwrap();
        assert_eq!(rx2.await.unwrap().unwrap(), vec![80]);
    });
}

#[test]
fn dropped_dispatcher_surfaces_as_closed_channel() {
    let rt = tokio::runtime::Runtime::new().unwrap();
    rt.block_on(async {
        let (job_tx, job_rx) = tokio::sync::mpsc::channel::<Job>(8);
        let semaphore = Arc::new(tokio::sync::Semaphore::new(1));
        let pool = WorkerPool::from_parts(job_tx, semaphore);
        let rx = pool.submit(vec![1], 80).unwrap();
        // Tear the consumer side down without ever sending: the awaiting
        // caller observes the producer-dropped condition, which the
        // service maps to its infrastructure error.
        drop(job_rx);
        assert!(rx.await.is_err());
    });
}
