//! The confirmation state machine.
//!
//! A submitted transaction is observed through repeated
//! resynchronize-and-look-up rounds until it reaches a terminal status.
//! The decisions of that loop — when to query, what each ledger answer
//! means, when the wait budget is spent — are all here and fully verified;
//! the surrounding process performs the actual network calls and sleeps
//! and feeds every answer back in.

use vstd::prelude::*;
use crate::errors::ConfirmationError;

verus! {

/// Lifecycle status of a submitted transaction as the ledger reports it.
#[derive(Clone, Copy, PartialEq, Eq, Structural, Debug)]
pub enum TransactionStatus {
    /// Accepted but not yet part of a block.
    Pending,
    /// Part of the block with the given height.  Terminal.
    Committed { block_num: u32 },
    /// Rejected or superseded; the ledger's cause code is carried verbatim.
    /// Terminal.
    Discarded { cause: u64 },
}

impl TransactionStatus {
    /// Terminal statuses end the state machine; nothing follows them.
    pub open spec fn is_terminal(self) -> bool {
        self is Committed || self is Discarded
    }

    /// Executable test for a terminal status.
    pub fn terminal(&self) -> (r: bool)
        ensures
            r == self.is_terminal(),
    {
        match self {
            TransactionStatus::Pending => false,
            TransactionStatus::Committed { .. } => true,
            TransactionStatus::Discarded { .. } => true,
        }
    }
}

/// `next` may lawfully follow `prev` in the confirmation lifecycle: a
/// pending transaction may move anywhere, a terminal status only repeats
/// itself.
pub open spec fn status_can_advance(prev: TransactionStatus, next: TransactionStatus) -> bool {
    prev is Pending || next == prev
}

/// Once a terminal status is reached, no different status can lawfully
/// follow: the lifecycle has no transition out of Committed or Discarded.
pub proof fn lemma_terminal_status_is_final(prev: TransactionStatus, next: TransactionStatus)
    requires
        prev.is_terminal(),
        status_can_advance(prev, next),
    ensures
        next == prev,
{
}

/// Checks whether a status reported by the ledger may lawfully follow the
/// last recorded one, and hands it back for recording if so.  `None`
/// signals a regression out of a terminal status, which is a collaborator
/// fault and must never be folded into the record.
pub fn reconcile_status(prev: TransactionStatus, observed: TransactionStatus) -> (r: Option<TransactionStatus>)
    ensures
        r == if status_can_advance(prev, observed) {
            Some(observed)
        } else {
            None::<TransactionStatus>
        },
{
    match prev {
        TransactionStatus::Pending => Some(observed),
        _ => {
            if observed == prev {
                Some(observed)
            } else {
                None
            }
        },
    }
}

/// Wait budget of one confirmation wait: how long to sleep between ledger
/// queries and how much waiting is allowed in total.
#[derive(Clone, Copy, PartialEq, Eq, Structural, Debug)]
pub struct PollBudget {
    /// Sleep between two query rounds, in milliseconds.  At least one, so
    /// that every round makes progress and the wait terminates.
    pub poll_interval_ms: u64,
    /// Total wait allowed, in milliseconds.
    pub max_wait_ms: u64,
    /// Wait spent so far, in milliseconds.
    pub waited_ms: u64,
}

impl PollBudget {
    pub open spec fn wf(self) -> bool {
        1 <= self.poll_interval_ms && self.waited_ms <= self.max_wait_ms
    }

    /// The budget after one more sleep, capped at the total.
    pub open spec fn advanced_spec(self) -> PollBudget {
        if self.max_wait_ms - self.waited_ms < self.poll_interval_ms {
            PollBudget { waited_ms: self.max_wait_ms, ..self }
        } else {
            PollBudget { waited_ms: (self.waited_ms + self.poll_interval_ms) as u64, ..self }
        }
    }

    /// A fresh budget with nothing waited yet.
    pub fn begin(poll_interval_ms: u64, max_wait_ms: u64) -> (r: PollBudget)
        requires
            1 <= poll_interval_ms,
        ensures
            r == (PollBudget { poll_interval_ms, max_wait_ms, waited_ms: 0 }),
            r.wf(),
    {
        PollBudget { poll_interval_ms, max_wait_ms, waited_ms: 0 }
    }

    /// Whether the budget still allows a ledger query.
    pub fn may_query(&self) -> (r: bool)
        ensures
            r == (self.waited_ms < self.max_wait_ms),
    {
        self.waited_ms < self.max_wait_ms
    }

    /// The budget after sleeping one poll interval.
    pub fn after_sleep(self) -> (r: PollBudget)
        requires
            self.wf(),
        ensures
            r == self.advanced_spec(),
            r.wf(),
            self.waited_ms < self.max_wait_ms ==> self.waited_ms < r.waited_ms,
    {
        let room = self.max_wait_ms - self.waited_ms;
        if room < self.poll_interval_ms {
            PollBudget { waited_ms: self.max_wait_ms, ..self }
        } else {
            PollBudget { waited_ms: self.waited_ms + self.poll_interval_ms, ..self }
        }
    }
}

/// What the state machine decides after one resynchronize-and-look-up
/// round.
#[derive(Clone, Copy, PartialEq, Eq, Debug)]
pub enum PollStep {
    /// Still pending: sleep one interval, then query again with the
    /// advanced budget.
    KeepWaiting(PollBudget),
    /// The wait is over, successfully or not.
    Settled(Result<u32, ConfirmationError>),
}

/// Meaning of one lookup answer, given the current budget.
pub open spec fn absorb_spec(budget: PollBudget, observed: Option<TransactionStatus>) -> PollStep {
    match observed {
        Option::None => PollStep::Settled(Err(ConfirmationError::TransactionNotFound)),
        Option::Some(TransactionStatus::Pending) => PollStep::KeepWaiting(budget.advanced_spec()),
        Option::Some(TransactionStatus::Committed { block_num }) => PollStep::Settled(Ok(block_num)),
        Option::Some(TransactionStatus::Discarded { cause }) => PollStep::Settled(
            Err(ConfirmationError::Discarded { cause }),
        ),
    }
}

/// Absorbs one lookup answer: a missing transaction is a distinct failure,
/// a pending one costs one sleep, a terminal one settles the wait.
pub fn poll_absorb(budget: PollBudget, observed: Option<TransactionStatus>) -> (r: PollStep)
    requires
        budget.wf(),
    ensures
        r == absorb_spec(budget, observed),
        r matches PollStep::KeepWaiting(b) ==> b.wf(),
{
    match observed {
        None => PollStep::Settled(Err(ConfirmationError::TransactionNotFound)),
        Some(TransactionStatus::Pending) => PollStep::KeepWaiting(budget.after_sleep()),
        Some(TransactionStatus::Committed { block_num }) => PollStep::Settled(Ok(block_num)),
        Some(TransactionStatus::Discarded { cause }) => PollStep::Settled(
            Err(ConfirmationError::Discarded { cause }),
        ),
    }
}

/// The lookup answers in `obs` suffice to drive the budget to exhaustion.
pub open spec fn covers(obs: Seq<Option<TransactionStatus>>, budget: PollBudget) -> bool {
    obs.len() * budget.poll_interval_ms >= budget.max_wait_ms - budget.waited_ms
}

/// Outcome of the whole wait, given the sequence of lookup answers the
/// ledger returns, one per query round: a timeout once the budget is
/// spent, otherwise the meaning of the first answer, recursing over the
/// rest while the transaction stays pending.
pub open spec fn awaited_outcome(obs: Seq<Option<TransactionStatus>>, budget: PollBudget) -> Result<
    u32,
    ConfirmationError,
>
    decreases obs.len(),
{
    if budget.waited_ms >= budget.max_wait_ms {
        Err(ConfirmationError::Timeout)
    } else if obs.len() == 0 {
        Err(ConfirmationError::Timeout)
    } else {
        match obs[0] {
            Option::None => Err(ConfirmationError::TransactionNotFound),
            Option::Some(TransactionStatus::Pending) => awaited_outcome(
                obs.drop_first(),
                budget.advanced_spec(),
            ),
            Option::Some(TransactionStatus::Committed { block_num }) => Ok(block_num),
            Option::Some(TransactionStatus::Discarded { cause }) => Err(
                ConfirmationError::Discarded { cause },
            ),
        }
    }
}

/// With a zero wait budget the wait times out at once: no lookup answer is
/// consumed and no other outcome is possible, whatever the ledger would
/// have answered.
pub proof fn lemma_zero_wait_times_out(obs: Seq<Option<TransactionStatus>>, budget: PollBudget)
    requires
        budget.max_wait_ms == 0,
    ensures
        awaited_outcome(obs, budget) == Err::<u32, ConfirmationError>(ConfirmationError::Timeout),
{
}

/// Runs the confirmation wait over recorded lookup answers:
/// `observations[k]` is what the k-th resynchronize-and-look-up round
/// reported.  The answers must be plentiful enough to cover the whole
/// budget; the wait stops as soon as an answer settles it.
pub fn await_commitment(
    observations: &Vec<Option<TransactionStatus>>,
    poll_interval_ms: u64,
    max_wait_ms: u64,
) -> (r: Result<u32, ConfirmationError>)
    requires
        1 <= poll_interval_ms,
        observations@.len() * poll_interval_ms >= max_wait_ms,
    ensures
        r == awaited_outcome(
            observations@,
            (PollBudget { poll_interval_ms, max_wait_ms, waited_ms: 0 }),
        ),
        max_wait_ms == 0 ==> r == Err::<u32, ConfirmationError>(ConfirmationError::Timeout),
{
    let ghost budget0 = PollBudget { poll_interval_ms, max_wait_ms, waited_ms: 0 };
    let mut budget = PollBudget::begin(poll_interval_ms, max_wait_ms);
    let n = observations.len();
    let mut k: usize = 0;
    proof {
        assert(observations@.skip(0) =~= observations@);
    }
    loop
        invariant
            budget0 == (PollBudget { poll_interval_ms, max_wait_ms, waited_ms: 0 }),
            budget.wf(),
            budget.poll_interval_ms == poll_interval_ms,
            budget.max_wait_ms == max_wait_ms,
            n == observations@.len(),
            k <= n,
            covers(observations@.skip(k as int), budget),
            awaited_outcome(observations@.skip(k as int), budget) == awaited_outcome(
                observations@,
                budget0,
            ),
        decreases budget.max_wait_ms - budget.waited_ms,
    {
        if !budget.may_query() {
            return Err(ConfirmationError::Timeout);
        }
        proof {
            let tail = observations@.skip(k as int);
            assert(tail.len() * budget.poll_interval_ms >= budget.max_wait_ms - budget.waited_ms);
            if tail.len() == 0 {
                assert(tail.len() * budget.poll_interval_ms == 0) by (nonlinear_arith)
                    requires
                        tail.len() == 0,
                ;
                assert(false);
            }
        }
        let observed = observations[k];
        let step = poll_absorb(budget, observed);
        proof {
            let tail = observations@.skip(k as int);
            assert(tail[0] == observations@[k as int]);
            assert(tail.drop_first() =~= observations@.skip(k as int + 1));
        }
        match step {
            PollStep::Settled(outcome) => {
                return outcome;
            },
            PollStep::KeepWaiting(advanced) => {
                proof {
                    let tail = observations@.skip(k as int);
                    let next = observations@.skip(k as int + 1);
                    assert(next.len() == tail.len() - 1);
                    assert((tail.len() - 1) * budget.poll_interval_ms
                        == tail.len() * budget.poll_interval_ms - budget.poll_interval_ms)
                        by (nonlinear_arith);
                    assert(covers(next, advanced));
                }
                budget = advanced;
                k = k + 1;
            },
        }
    }
}

} // verus!
