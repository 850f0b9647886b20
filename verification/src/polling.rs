//! The polling protocol: a request handler looks for its proofs at a fixed
//! interval until they are done or its time is up. The handler owns the
//! clock and the sleeping; what to do at each wake-up is decided here.

use crate::pipeline::{Pipeline, PipelineView};
use vstd::prelude::*;

verus! {

pub const DEFAULT_BATCH_PROOF_POLLING_INTERVAL_MS: u64 = 60000;

pub const DEFAULT_BATCH_PROOF_POLLING_TIMEOUT_MS: u64 = 3600000;

pub const DEFAULT_AGGREGATED_PROOF_POLLING_INTERVAL_MS: u64 = 10000;

pub const DEFAULT_AGGREGATED_PROOF_POLLING_TIMEOUT_MS: u64 = 1800000;

pub const DEFAULT_FINAL_PROOF_POLLING_INTERVAL_MS: u64 = 10000;

pub const DEFAULT_FINAL_PROOF_POLLING_TIMEOUT_MS: u64 = 1800000;

/// How often a handler looks, and how long it waits in all, in milliseconds.
#[derive(Clone, Copy, Debug, PartialEq, Eq, Structural)]
pub struct PollTiming {
    pub interval_ms: u64,
    pub timeout_ms: u64,
}

/// What a handler does after a wake-up.
#[derive(Clone, Copy, Debug, PartialEq, Eq, Structural)]
pub enum PollAction {
    /// Sleep until this time, then look again.
    WaitUntil(u64),
    /// The proofs are done: answer the request.
    Finish,
    /// The time is up: fail the request.
    TimedOut,
}

/// The time by which a wait that starts at `now_ms` is given up.
pub open spec fn deadline_of(timing: PollTiming, now_ms: u64) -> u64 {
    if now_ms + timing.timeout_ms > u64::MAX {
        u64::MAX
    } else {
        (now_ms + timing.timeout_ms) as u64
    }
}

/// The step between two looks: the interval, and one millisecond where the
/// interval is zero, so that time always moves on.
pub open spec fn poll_step(interval_ms: u64) -> int {
    if interval_ms == 0 {
        1
    } else {
        interval_ms as int
    }
}

/// The decision at a wake-up at `now_ms`: proofs that are done end the wait,
/// even at the deadline; else the wait is given up from the deadline on, and
/// never before; else the next look is one step later, or at the deadline
/// where that comes first.
pub open spec fn poll_action(interval_ms: u64, deadline_ms: u64, now_ms: u64, done: bool) -> PollAction {
    if done {
        PollAction::Finish
    } else if now_ms >= deadline_ms {
        PollAction::TimedOut
    } else if now_ms + poll_step(interval_ms) >= deadline_ms {
        PollAction::WaitUntil(deadline_ms)
    } else {
        PollAction::WaitUntil((now_ms + poll_step(interval_ms)) as u64)
    }
}

/// The time at which a wait for proofs that are never done is given up, when
/// the handler wakes at `now_ms` and then at each time it was told to.
pub open spec fn abort_time(interval_ms: u64, deadline_ms: u64, now_ms: u64) -> u64
    decreases deadline_ms - now_ms,
{
    match poll_action(interval_ms, deadline_ms, now_ms, false) {
        PollAction::WaitUntil(next) => {
            if now_ms < next <= deadline_ms {
                abort_time(interval_ms, deadline_ms, next)
            } else {
                now_ms
            }
        },
        _ => now_ms,
    }
}

/// How many times a handler looks before such a wait is given up.
pub open spec fn looks_before_abort(interval_ms: u64, deadline_ms: u64, now_ms: u64) -> nat
    decreases deadline_ms - now_ms,
{
    match poll_action(interval_ms, deadline_ms, now_ms, false) {
        PollAction::WaitUntil(next) => {
            if now_ms < next <= deadline_ms {
                1 + looks_before_abort(interval_ms, deadline_ms, next)
            } else {
                0
            }
        },
        _ => 0,
    }
}

pub fn batch_proof_timing() -> (t: PollTiming)
    ensures
        t == (PollTiming {
            interval_ms: DEFAULT_BATCH_PROOF_POLLING_INTERVAL_MS,
            timeout_ms: DEFAULT_BATCH_PROOF_POLLING_TIMEOUT_MS,
        }),
{
    PollTiming {
        interval_ms: DEFAULT_BATCH_PROOF_POLLING_INTERVAL_MS,
        timeout_ms: DEFAULT_BATCH_PROOF_POLLING_TIMEOUT_MS,
    }
}

pub fn aggregated_proof_timing() -> (t: PollTiming)
    ensures
        t == (PollTiming {
            interval_ms: DEFAULT_AGGREGATED_PROOF_POLLING_INTERVAL_MS,
            timeout_ms: DEFAULT_AGGREGATED_PROOF_POLLING_TIMEOUT_MS,
        }),
{
    PollTiming {
        interval_ms: DEFAULT_AGGREGATED_PROOF_POLLING_INTERVAL_MS,
        timeout_ms: DEFAULT_AGGREGATED_PROOF_POLLING_TIMEOUT_MS,
    }
}

pub fn final_proof_timing() -> (t: PollTiming)
    ensures
        t == (PollTiming {
            interval_ms: DEFAULT_FINAL_PROOF_POLLING_INTERVAL_MS,
            timeout_ms: DEFAULT_FINAL_PROOF_POLLING_TIMEOUT_MS,
        }),
{
    PollTiming {
        interval_ms: DEFAULT_FINAL_PROOF_POLLING_INTERVAL_MS,
        timeout_ms: DEFAULT_FINAL_PROOF_POLLING_TIMEOUT_MS,
    }
}

/// One wait: its interval and the time by which it is given up.
#[derive(Clone, Copy, Debug, PartialEq, Eq, Structural)]
pub struct Poller {
    pub interval_ms: u64,
    pub deadline_ms: u64,
}

impl Poller {
    /// Starts a wait at `now_ms`.
    pub fn start(timing: PollTiming, now_ms: u64) -> (p: Self)
        ensures
            p.interval_ms == timing.interval_ms,
            p.deadline_ms == deadline_of(timing, now_ms),
    {
        let deadline_ms: u64 = if timing.timeout_ms > u64::MAX - now_ms {
            u64::MAX
        } else {
            now_ms + timing.timeout_ms
        };
        Poller { interval_ms: timing.interval_ms, deadline_ms }
    }

    /// Decides what to do at a wake-up at `now_ms`, given whether the
    /// proofs were found done.
    pub fn on_wake(&self, now_ms: u64, done: bool) -> (action: PollAction)
        ensures
            action == poll_action(self.interval_ms, self.deadline_ms, now_ms, done),
    {
        if done {
            PollAction::Finish
        } else if now_ms >= self.deadline_ms {
            PollAction::TimedOut
        } else {
            let step: u64 = if self.interval_ms == 0 {
                1
            } else {
                self.interval_ms
            };
            if step >= self.deadline_ms - now_ms {
                PollAction::WaitUntil(self.deadline_ms)
            } else {
                PollAction::WaitUntil(now_ms + step)
            }
        }
    }
}

/// The proofs that one batch request waits for, with the ones found done so
/// far. A proof is looked up by its key and stays done once it was found.
pub struct BatchPoll {
    keys: Vec<String>,
    done: Vec<bool>,
}

pub struct BatchPollView {
    pub keys: Seq<Seq<char>>,
    pub done: Seq<bool>,
}

impl BatchPollView {
    pub open spec fn wf(self) -> bool {
        self.keys.len() == self.done.len()
    }

    /// Whether every proof was found done.
    pub open spec fn is_finished(self) -> bool {
        forall|i: int| 0 <= i < self.done.len() ==> self.done[i]
    }

    /// The state after looking once into `pipeline`: a proof that was found
    /// done stays so, and a proof that the pipeline has ready is found.
    pub open spec fn looked(self, pipeline: PipelineView) -> BatchPollView {
        BatchPollView {
            keys: self.keys,
            done: Seq::new(
                self.done.len(),
                |i: int| self.done[i] || pipeline.proof_result(self.keys[i]) is Ok,
            ),
        }
    }
}

impl View for BatchPoll {
    type V = BatchPollView;

    closed spec fn view(&self) -> BatchPollView {
        BatchPollView { keys: Seq::new(self.keys@.len(), |i: int| self.keys@[i]@), done: self.done@ }
    }
}

impl BatchPoll {
    pub closed spec fn wf(&self) -> bool {
        self.keys@.len() == self.done@.len()
    }

    /// Starts to wait for the proofs under `keys`, none of them found yet.
    pub fn new(keys: Vec<String>) -> (poll: Self)
        ensures
            poll.wf(),
            poll@.wf(),
            poll@.keys == Seq::new(keys@.len(), |i: int| keys@[i]@),
            poll@.done == Seq::new(keys@.len(), |i: int| false),
    {
        let mut done: Vec<bool> = Vec::new();
        let mut i: usize = 0;
        while i < keys.len()
            invariant
                i <= keys@.len(),
                done@.len() == i,
                forall|j: int| 0 <= j < i ==> !done@[j],
            decreases keys@.len() - i,
        {
            done.push(false);
            i += 1;
        }
        let poll = BatchPoll { keys, done };
        assert(poll@.done =~= Seq::new(keys@.len(), |i: int| false));
        poll
    }

    /// The number of proofs waited for.
    pub fn len(&self) -> (n: usize)
        requires
            self.wf(),
        ensures
            n == self@.keys.len(),
            self@.wf(),
    {
        self.keys.len()
    }

    /// The key of the `i`-th proof.
    pub fn key(&self, i: usize) -> (key: &String)
        requires
            self.wf(),
            i < self@.keys.len(),
        ensures
            key@ == self@.keys[i as int],
    {
        &self.keys[i]
    }

    /// Whether the `i`-th proof was found done.
    pub fn is_done(&self, i: usize) -> (b: bool)
        requires
            self.wf(),
            i < self@.keys.len(),
        ensures
            b == self@.done[i as int],
    {
        self.done[i]
    }

    /// Looks once for every proof that was not found yet.
    pub fn look(&mut self, pipeline: &Pipeline)
        requires
            old(self).wf(),
            pipeline.wf(),
        ensures
            final(self).wf(),
            final(self)@ == old(self)@.looked(pipeline@),
    {
        let mut i: usize = 0;
        while i < self.keys.len()
            invariant
                self.wf(),
                pipeline.wf(),
                self.keys == old(self).keys,
                i <= self.keys@.len(),
                forall|j: int|
                    0 <= j < i ==> self.done@[j] == (old(self).done@[j] || pipeline@.proof_result(
                        self.keys@[j]@,
                    ) is Ok),
                forall|j: int| i <= j < self.done@.len() ==> self.done@[j] == old(self).done@[j],
            decreases self.keys@.len() - i,
        {
            if !self.done[i] {
                match pipeline.get_proof(self.keys[i].clone(), 0) {
                    Ok(_) => {
                        self.done[i] = true;
                    },
                    Err(_) => {},
                }
            }
            i += 1;
        }
        assert(self@.done =~= old(self)@.looked(pipeline@).done);
    }

    /// Whether every proof was found done.
    pub fn is_finished(&self) -> (b: bool)
        requires
            self.wf(),
        ensures
            b == self@.is_finished(),
    {
        let mut i: usize = 0;
        while i < self.done.len()
            invariant
                i <= self.done@.len(),
                forall|j: int| 0 <= j < i ==> self.done@[j],
            decreases self.done@.len() - i,
        {
            if !self.done[i] {
                assert(!self@.done[i as int]);
                return false;
            }
            i += 1;
        }
        true
    }

    /// Gives the keys back, in the order they were given in.
    pub fn into_keys(self) -> (keys: Vec<String>)
        ensures
            Seq::new(keys@.len(), |i: int| keys@[i]@) == self@.keys,
    {
        self.keys
    }
}

/// A wait is never given up before its deadline.
pub proof fn lemma_no_early_timeout(interval_ms: u64, deadline_ms: u64, now_ms: u64, done: bool)
    requires
        now_ms < deadline_ms,
    ensures
        poll_action(interval_ms, deadline_ms, now_ms, done) != PollAction::TimedOut,
{
}

/// From the deadline on, a wait for proofs that are not done is given up.
pub proof fn lemma_timeout_at_deadline(interval_ms: u64, deadline_ms: u64, now_ms: u64)
    requires
        now_ms >= deadline_ms,
    ensures
        poll_action(interval_ms, deadline_ms, now_ms, false) == PollAction::TimedOut,
{
}

/// Before the deadline, a handler whose proofs are not done is told to look
/// again later, no later than one step on and no later than the deadline.
pub proof fn lemma_next_look(interval_ms: u64, deadline_ms: u64, now_ms: u64)
    requires
        now_ms < deadline_ms,
    ensures
        poll_action(interval_ms, deadline_ms, now_ms, false) matches PollAction::WaitUntil(next)
            && now_ms < next <= deadline_ms && next <= now_ms + poll_step(interval_ms),
{
}

/// A wait for proofs that are never done is given up at its deadline: not
/// earlier, and not later. It takes no more looks than there are
/// milliseconds left.
pub proof fn lemma_abort_at_deadline(interval_ms: u64, deadline_ms: u64, now_ms: u64)
    requires
        now_ms <= deadline_ms,
    ensures
        abort_time(interval_ms, deadline_ms, now_ms) == deadline_ms,
        looks_before_abort(interval_ms, deadline_ms, now_ms) <= deadline_ms - now_ms,
    decreases deadline_ms - now_ms,
{
    if now_ms < deadline_ms {
        lemma_next_look(interval_ms, deadline_ms, now_ms);
        let next = poll_action(interval_ms, deadline_ms, now_ms, false)->WaitUntil_0;
        lemma_abort_at_deadline(interval_ms, deadline_ms, next);
    }
}

/// A request that starts at `start_ms` and whose proofs are never done fails
/// exactly when its timeout has passed.
pub proof fn lemma_timeout_after_timeout(timing: PollTiming, start_ms: u64)
    requires
        start_ms + timing.timeout_ms <= u64::MAX,
    ensures
        abort_time(timing.interval_ms, deadline_of(timing, start_ms), start_ms) == start_ms
            + timing.timeout_ms,
{
    lemma_abort_at_deadline(timing.interval_ms, deadline_of(timing, start_ms), start_ms);
}

} // verus!
