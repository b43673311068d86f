//! The admission-control and dispatch state machine.
//!
//! Every decision of the dispatch subsystem lives here as verified code:
//! whether a submission is admitted into the bounded queue, which pending
//! job starts next and under what permit budget, and what a submitter
//! observes when a job finishes. The runtime merely carries these
//! decisions between tasks; the invariants — queue occupancy never above
//! `Q`, at most `W` conversions running, FIFO dispatch, a permit released
//! on every exit path, exactly one terminal outcome per job — are stated
//! and proved on this machine.

use vstd::prelude::*;
use vstd::string::StringExecFns;

use crate::error::ConvertError;

verus! {

/// How one job's execution ended.
#[derive(Debug)]
pub enum JobOutcome {
    /// The conversion produced the output bytes.
    Success(Vec<u8>),
    /// The conversion capability rejected the input with a typed error.
    Failed(ConvertError),
    /// The execution unit itself aborted abnormally (panic or teardown);
    /// carries the runtime's description of the crash.
    Crashed(String),
}

/// What a job's submitter must observe for a given execution outcome:
/// success bytes or a typed error verbatim, and for an abnormal abort an
/// infrastructure error carrying the crash description — never a silently
/// swallowed result.
pub open spec fn outcome_delivery(outcome: JobOutcome, v: Result<Vec<u8>, ConvertError>) -> bool {
    match outcome {
        JobOutcome::Success(bytes) => v == Ok::<Vec<u8>, ConvertError>(bytes),
        JobOutcome::Failed(e) => v == Err::<Vec<u8>, ConvertError>(e),
        JobOutcome::Crashed(m) => v == Err::<Vec<u8>, ConvertError>(ConvertError::Internal(m)),
    }
}

/// State of a single-use result channel.
#[derive(Debug)]
pub enum SlotState {
    /// No value delivered yet; the producer side is still alive.
    Pending,
    /// Exactly one value was delivered; terminal.
    Sent(Result<Vec<u8>, ConvertError>),
    /// The producer was torn down without sending; terminal.
    Dropped,
}

/// Model of the single-producer, single-consumer, single-value result
/// channel: at most one value is ever sent (`send` consumes the pending
/// state), and the consumer observes either that value or the
/// producer-dropped condition.
#[derive(Debug)]
pub struct ResultSlot {
    /// Where the channel stands: pending, delivered, or torn down.
    pub state: SlotState,
    /// Whether the consumer has walked away from the handle.
    pub abandoned: bool,
}

impl ResultSlot {
    /// A fresh channel: nothing sent, consumer listening.
    pub fn new() -> (s: ResultSlot)
        ensures
            s.state is Pending,
            !s.abandoned,
    {
        ResultSlot { state: SlotState::Pending, abandoned: false }
    }

    /// Deliver the single value. Requires the pending state, so a second
    /// send is impossible. Delivery to an abandoned consumer is a no-op,
    /// not an error: `delivered` reports whether anyone will see the value.
    pub fn send(&mut self, value: Result<Vec<u8>, ConvertError>) -> (delivered: bool)
        requires
            old(self).state is Pending,
        ensures
            final(self).state == SlotState::Sent(value),
            final(self).abandoned == old(self).abandoned,
            delivered == !old(self).abandoned,
    {
        let delivered = !self.abandoned;
        self.state = SlotState::Sent(value);
        delivered
    }

    /// The producer side is torn down before sending (dispatcher shut
    /// down or crashed).
    pub fn drop_producer(&mut self)
        requires
            old(self).state is Pending,
        ensures
            final(self).state is Dropped,
            final(self).abandoned == old(self).abandoned,
    {
        self.state = SlotState::Dropped;
    }

    /// The consumer abandons the handle (caller disconnected). The channel
    /// itself is unaffected: an in-flight job still runs to completion.
    pub fn abandon(&mut self)
        ensures
            final(self).state == old(self).state,
            final(self).abandoned,
    {
        self.abandoned = true;
    }

    /// What the awaiting caller observes once the channel is terminal:
    /// the delivered value verbatim, or the distinguishable infrastructure
    /// error when the producer vanished without sending.
    pub fn take(self) -> (r: Result<Vec<u8>, ConvertError>)
        requires
            !(self.state is Pending),
        ensures
            self.state matches SlotState::Sent(v) ==> r == v,
            self.state is Dropped ==> (r matches Err(ConvertError::Internal(m)) && m@ == "Worker dropped"@),
    {
        match self.state {
            SlotState::Sent(v) => v,
            SlotState::Dropped => Err(ConvertError::Internal(String::from_str("Worker dropped"))),
            SlotState::Pending => {
                proof {
                    assert(false);
                }
                Err(ConvertError::Internal(String::from_str("Worker dropped")))
            },
        }
    }
}

/// Strictly increasing sequence of job sequence numbers.
pub open spec fn ascending(s: Seq<u64>) -> bool {
    forall|i: int, j: int| 0 <= i < j < s.len() ==> s[i] < s[j]
}

/// The dispatch state machine. `queued` is the bounded FIFO queue of
/// pending jobs, front first; `running` the jobs currently holding one of
/// the `workers` permits; `next_seq` numbers submissions in order. The
/// ghost traces `started` and `finished` record dispatch and completion
/// order for the stated laws.
pub struct Dispatcher {
    /// Queue capacity `Q`, fixed at construction.
    pub capacity: usize,
    /// Permit budget `W`, fixed at construction.
    pub workers: usize,
    /// Sequence numbers of jobs admitted and not yet dispatched, in
    /// submission order.
    pub queued: Vec<u64>,
    /// Sequence numbers of jobs currently executing, each holding a permit.
    pub running: Vec<u64>,
    /// Sequence number the next accepted submission receives.
    pub next_seq: u64,
    /// Whether the submission side has been shut down; a closed queue
    /// accepts nothing more while jobs already admitted still drain.
    pub closed: bool,
    /// Dispatch trace: sequence numbers in the order they started.
    pub started: Ghost<Seq<u64>>,
    /// Completion trace: sequence numbers in the order they finished.
    pub finished: Ghost<Seq<u64>>,
}

impl Dispatcher {
    /// Dispatcher invariant: occupancy within `Q`, concurrency within `W`,
    /// all three job records ordered and mutually consistent, and every
    /// accepted job in exactly one of queued, running, finished.
    pub open spec fn wf(&self) -> bool {
        &&& self.capacity >= 1
        &&& self.workers >= 1
        &&& self.queued@.len() <= self.capacity
        &&& self.running@.len() <= self.workers
        &&& ascending(self.queued@)
        &&& ascending(self.running@)
        &&& ascending(self.started@)
        &&& (forall|i: int| 0 <= i < self.queued@.len() ==> #[trigger] self.queued@[i] < self.next_seq)
        &&& (forall|i: int| 0 <= i < self.running@.len() ==> #[trigger] self.running@[i] < self.next_seq)
        &&& (forall|i: int| 0 <= i < self.started@.len() ==> #[trigger] self.started@[i] < self.next_seq)
        &&& (forall|i: int, j: int|
            0 <= i < self.running@.len() && 0 <= j < self.queued@.len()
                ==> #[trigger] self.running@[i] < #[trigger] self.queued@[j])
        &&& (forall|i: int, j: int|
            0 <= i < self.started@.len() && 0 <= j < self.queued@.len()
                ==> #[trigger] self.started@[i] < #[trigger] self.queued@[j])
        &&& self.next_seq == self.queued@.len() + self.running@.len() + self.finished@.len()
    }

    /// A fresh dispatcher for a queue of capacity `Q` and a permit budget
    /// of `W` workers.
    pub fn new(capacity: usize, workers: usize) -> (d: Dispatcher)
        requires
            capacity >= 1,
            workers >= 1,
        ensures
            d.wf(),
            d.capacity == capacity,
            d.workers == workers,
            d.queued@.len() == 0,
            d.running@.len() == 0,
            d.started@.len() == 0,
            d.finished@.len() == 0,
            d.next_seq == 0,
            !d.closed,
    {
        Dispatcher {
            capacity,
            workers,
            queued: Vec::new(),
            running: Vec::new(),
            next_seq: 0,
            closed: false,
            started: Ghost(Seq::empty()),
            finished: Ghost(Seq::empty()),
        }
    }

    /// Whether the next submission would be admitted: capacity `Q` is the
    /// only admission limit while the queue is open, and a closed queue
    /// admits nothing.
    pub open spec fn can_accept(&self) -> bool {
        !self.closed && self.queued@.len() < self.capacity
    }

    /// Submit one job. Never blocks: the job is admitted exactly when the
    /// queue is open and holds fewer than `Q` pending jobs, and is
    /// otherwise rejected synchronously with `QueueFull`, leaving the
    /// state untouched.
    pub fn submit(&mut self) -> (r: Result<u64, ConvertError>)
        requires
            old(self).wf(),
            old(self).next_seq < u64::MAX,
        ensures
            final(self).wf(),
            final(self).capacity == old(self).capacity,
            final(self).workers == old(self).workers,
            final(self).closed == old(self).closed,
            r is Ok <==> old(self).can_accept(),
            r matches Ok(seq) ==> {
                &&& seq == old(self).next_seq
                &&& final(self).queued@ == old(self).queued@.push(seq)
                &&& final(self).running@ == old(self).running@
                &&& final(self).started@ == old(self).started@
                &&& final(self).finished@ == old(self).finished@
                &&& final(self).next_seq == old(self).next_seq + 1
            },
            r is Err ==> {
                &&& r == Err::<u64, ConvertError>(ConvertError::QueueFull)
                &&& *final(self) == *old(self)
            },
    {
        if !self.closed && self.queued.len() < self.capacity {
            let seq = self.next_seq;
            self.queued.push(seq);
            self.next_seq = self.next_seq + 1;
            proof {
                assert forall|i: int, j: int|
                    0 <= i < j < self.queued@.len() implies self.queued@[i] < self.queued@[j] by {
                    if j + 1 == self.queued@.len() {
                        assert(self.queued@[j] == seq);
                    }
                }
            }
            Ok(seq)
        } else {
            Err(ConvertError::QueueFull)
        }
    }

    /// Dispatch the next job, honouring the permit budget: a job starts
    /// exactly when one is pending and fewer than `W` are running, and it
    /// is always the head of the queue — FIFO, no priority.
    pub fn start_next(&mut self) -> (r: Option<u64>)
        requires
            old(self).wf(),
        ensures
            final(self).wf(),
            final(self).capacity == old(self).capacity,
            final(self).workers == old(self).workers,
            final(self).next_seq == old(self).next_seq,
            final(self).closed == old(self).closed,
            r is Some <==> (old(self).queued@.len() > 0 && old(self).running@.len() < old(self).workers),
            r matches Some(seq) ==> {
                &&& seq == old(self).queued@[0]
                &&& final(self).queued@ == old(self).queued@.subrange(1, old(self).queued@.len() as int)
                &&& final(self).running@ == old(self).running@.push(seq)
                &&& final(self).started@ == old(self).started@.push(seq)
                &&& final(self).finished@ == old(self).finished@
            },
            r is None ==> *final(self) == *old(self),
    {
        if self.queued.len() > 0 && self.running.len() < self.workers {
            let seq = self.queued.remove(0);
            self.running.push(seq);
            proof {
                self.started@ = self.started@.push(seq);
                assert(self.queued@ =~= old(self).queued@.subrange(1, old(self).queued@.len() as int));
                assert forall|i: int, j: int|
                    0 <= i < j < self.running@.len() implies self.running@[i] < self.running@[j] by {
                    if j + 1 == self.running@.len() {
                        assert(self.running@[j] == seq);
                        assert(old(self).running@[i] < old(self).queued@[0]);
                    }
                }
                assert forall|i: int, j: int|
                    0 <= i < j < self.started@.len() implies self.started@[i] < self.started@[j] by {
                    if j + 1 == self.started@.len() {
                        assert(self.started@[j] == seq);
                        assert(old(self).started@[i] < old(self).queued@[0]);
                    }
                }
            }
            Some(seq)
        } else {
            None
        }
    }

    /// Complete the running job `seq` and deliver its outcome through the
    /// job's result channel. The permit is released — `running` shrinks by
    /// one — for every outcome: success, typed failure, or abnormal abort,
    /// and whether or not the submitter still listens. Exactly one value
    /// reaches the channel; delivery to an abandoned handle is a no-op.
    pub fn finish(&mut self, seq: u64, outcome: JobOutcome, sink: &mut ResultSlot) -> (delivered:
        bool)
        requires
            old(self).wf(),
            old(self).running@.contains(seq),
            old(sink).state is Pending,
        ensures
            final(self).wf(),
            final(self).capacity == old(self).capacity,
            final(self).workers == old(self).workers,
            final(self).next_seq == old(self).next_seq,
            final(self).closed == old(self).closed,
            final(self).queued@ == old(self).queued@,
            final(self).started@ == old(self).started@,
            final(self).finished@ == old(self).finished@.push(seq),
            final(self).running@.len() == old(self).running@.len() - 1,
            exists|i: int|
                0 <= i < old(self).running@.len() && old(self).running@[i] == seq
                    && final(self).running@ == #[trigger] old(self).running@.remove(i),
            final(sink).abandoned == old(sink).abandoned,
            (final(sink).state matches SlotState::Sent(v) && outcome_delivery(outcome, v)),
            delivered == !old(sink).abandoned,
    {
        let value: Result<Vec<u8>, ConvertError> = match outcome {
            JobOutcome::Success(bytes) => Ok(bytes),
            JobOutcome::Failed(e) => Err(e),
            JobOutcome::Crashed(m) => Err(ConvertError::Internal(m)),
        };
        let mut i: usize = 0;
        while i < self.running.len() && self.running[i] != seq
            invariant
                *self == *old(self),
                i <= self.running@.len(),
                forall|k: int| 0 <= k < i ==> self.running@[k] != seq,
            decreases self.running@.len() - i,
        {
            i += 1;
        }
        proof {
            if i == self.running@.len() {
                let j = choose|j: int|
                    0 <= j < self.running@.len() && self.running@[j] == seq;
                assert(false);
            }
        }
        self.running.remove(i);
        proof {
            self.finished@ = self.finished@.push(seq);
            let gi = i as int;
            let olds = old(self).running@;
            let news = self.running@;
            assert forall|a: int, b: int| 0 <= a < b < news.len() implies news[a] < news[b] by {
                assert(news[a] == if a < gi {
                    olds[a]
                } else {
                    olds[a + 1]
                });
                assert(news[b] == if b < gi {
                    olds[b]
                } else {
                    olds[b + 1]
                });
            }
            assert forall|a: int, j: int|
                0 <= a < news.len() && 0 <= j < self.queued@.len() implies #[trigger] news[a]
                < #[trigger] self.queued@[j] by {
                assert(news[a] == if a < gi {
                    olds[a]
                } else {
                    olds[a + 1]
                });
            }
            assert forall|a: int| 0 <= a < news.len() implies #[trigger] news[a]
                < self.next_seq by {
                assert(news[a] == if a < gi {
                    olds[a]
                } else {
                    olds[a + 1]
                });
            }
        }
        sink.send(value)
    }

    /// Shut the submission side down: every later submission is rejected,
    /// while jobs already admitted still dispatch and drain in place.
    pub fn close(&mut self)
        requires
            old(self).wf(),
        ensures
            final(self).wf(),
            final(self).closed,
            final(self).capacity == old(self).capacity,
            final(self).workers == old(self).workers,
            final(self).next_seq == old(self).next_seq,
            final(self).queued@ == old(self).queued@,
            final(self).running@ == old(self).running@,
            final(self).started@ == old(self).started@,
            final(self).finished@ == old(self).finished@,
    {
        self.closed = true;
    }

    /// Permits not currently held: the concurrency budget minus the
    /// running conversions.
    pub fn available_permits(&self) -> (r: usize)
        requires
            self.wf(),
        ensures
            r == self.workers - self.running@.len(),
    {
        self.workers - self.running.len()
    }
}

/// Admission bound. While no job has finished, every accepted job is
/// either still queued (at most `Q`) or running (at most `W`), so at most
/// `Q + W` submissions can have been accepted: of `Q + W + 1` submissions
/// whose jobs all block, at least one is rejected with `QueueFull`.
pub proof fn lemma_admission_bound(d: Dispatcher)
    requires
        d.wf(),
        d.finished@.len() == 0,
    ensures
        d.next_seq <= d.capacity + d.workers,
{
}

/// Concurrency bound. A well-formed dispatcher never holds more than `W`
/// jobs in execution, whatever the submission pattern: every path through
/// `submit`, `start_next` and `finish` preserves `wf`, and `wf` bounds the
/// running set by the permit budget.
pub proof fn lemma_concurrency_bound(d: Dispatcher)
    requires
        d.wf(),
    ensures
        d.running@.len() <= d.workers,
{
}

/// FIFO dispatch. Jobs start in submission order: the dispatch trace is
/// strictly increasing in sequence number, and every job already
/// dispatched was submitted before every job still waiting in the queue.
pub proof fn lemma_fifo_dispatch(d: Dispatcher)
    requires
        d.wf(),
    ensures
        forall|i: int, j: int| 0 <= i < j < d.started@.len() ==> d.started@[i] < d.started@[j],
        forall|i: int, j: int|
            0 <= i < d.started@.len() && 0 <= j < d.queued@.len()
                ==> #[trigger] d.started@[i] < #[trigger] d.queued@[j],
{
}

} // verus!
