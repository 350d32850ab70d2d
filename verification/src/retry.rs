//! Sending with a bounded number of tries and a fixed pause after each
//! failure.
//!
//! The sender itself is outside this library: it makes one attempt whenever
//! [`RetrySender::next_step`] asks for one and reports how it went to
//! [`RetrySender::record`].

use vstd::prelude::*;

verus! {

/// How many times a magic packet is sent at most.
pub const MAX_TRIES: u8 = 3;

/// The pause after a failed attempt, in milliseconds.
pub const RETRY_DELAY_MS: u64 = 500;

/// Why a bounded-retry send gave up.
#[derive(Clone, Copy, Debug, PartialEq, Eq, Structural)]
pub enum RetryError {
    /// Every attempt that the budget allows has failed.
    RetriesExhausted,
}

/// What a bounded-retry send asks of its driver.
#[derive(Clone, Copy, Debug, PartialEq, Eq, Structural)]
pub enum RetryStep {
    /// Make one attempt and report its outcome.
    Attempt,
    /// An attempt has succeeded: stop.
    Succeeded,
    /// The budget is used up: stop and report the failure.
    Exhausted,
}

/// The progress of one bounded-retry send.
#[derive(Clone, Copy, Debug, PartialEq, Eq, Structural)]
pub struct RetrySender {
    /// How many attempts may be made.
    pub max_attempts: u8,
    /// How many attempts have been made.
    pub attempts: u8,
    /// Whether the last attempt succeeded.
    pub succeeded: bool,
}

impl RetrySender {
    /// At most `max_attempts` attempts are made, and a success is the last one.
    pub open spec fn wf(self) -> bool {
        &&& self.attempts <= self.max_attempts
        &&& self.succeeded ==> self.attempts > 0
    }

    /// What the sender asks for in this state.
    pub open spec fn step(self) -> RetryStep {
        if self.succeeded {
            RetryStep::Succeeded
        } else if self.attempts < self.max_attempts {
            RetryStep::Attempt
        } else {
            RetryStep::Exhausted
        }
    }

    /// The state after one more attempt with the given outcome.
    pub open spec fn recorded(self, sent: bool) -> RetrySender {
        RetrySender {
            max_attempts: self.max_attempts,
            attempts: (self.attempts + 1) as u8,
            succeeded: sent,
        }
    }

    /// The state after a driver has worked through `outcomes`, the outcomes
    /// that its attempts would have in order: it makes the next attempt only
    /// while the sender asks for one.
    pub open spec fn driven(self, outcomes: Seq<bool>) -> RetrySender
        decreases outcomes.len(),
    {
        if outcomes.len() == 0 || self.step() != RetryStep::Attempt {
            self
        } else {
            self.recorded(outcomes[0]).driven(outcomes.drop_first())
        }
    }

    /// The result of a send that has come to its end.
    pub open spec fn result(self) -> Result<(), RetryError> {
        if self.succeeded {
            Ok(())
        } else {
            Err(RetryError::RetriesExhausted)
        }
    }

    /// A send that has made no attempt yet.
    pub fn new(max_attempts: u8) -> (sender: RetrySender)
        ensures
            sender == (RetrySender { max_attempts, attempts: 0, succeeded: false }),
            sender.wf(),
    {
        RetrySender { max_attempts, attempts: 0, succeeded: false }
    }

    /// What the driver has to do next.
    pub fn next_step(&self) -> (step: RetryStep)
        ensures
            step == self.step(),
    {
        if self.succeeded {
            RetryStep::Succeeded
        } else if self.attempts < self.max_attempts {
            RetryStep::Attempt
        } else {
            RetryStep::Exhausted
        }
    }

    /// Takes note of the outcome of the attempt that was asked for. After a
    /// failure the driver has to pause for the returned number of
    /// milliseconds before it asks what to do next; after a success there is
    /// no pause.
    pub fn record(&mut self, sent: bool) -> (pause: Option<u64>)
        requires
            old(self).wf(),
            old(self).step() == RetryStep::Attempt,
        ensures
            *final(self) == old(self).recorded(sent),
            final(self).wf(),
            pause == if sent {
                None
            } else {
                Some(RETRY_DELAY_MS)
            },
    {
        self.attempts = self.attempts + 1;
        self.succeeded = sent;
        if sent {
            None
        } else {
            Some(RETRY_DELAY_MS)
        }
    }

    /// The result of the send once no further attempt is asked for.
    pub fn finish(&self) -> (r: Result<(), RetryError>)
        requires
            self.step() != RetryStep::Attempt,
        ensures
            r == self.result(),
    {
        if self.succeeded {
            Ok(())
        } else {
            Err(RetryError::RetriesExhausted)
        }
    }
}

/// The position of the first success among `outcomes`, or their number if
/// there is none.
pub open spec fn first_success(outcomes: Seq<bool>) -> nat
    decreases outcomes.len(),
{
    if outcomes.len() == 0 || outcomes[0] {
        0
    } else {
        1 + first_success(outcomes.drop_first())
    }
}

/// A send never makes more attempts than its budget, whatever the outcomes.
pub proof fn attempts_stay_within_budget(sender: RetrySender, outcomes: Seq<bool>)
    requires
        sender.wf(),
    ensures
        sender.driven(outcomes).wf(),
        sender.driven(outcomes).max_attempts == sender.max_attempts,
        sender.attempts <= sender.driven(outcomes).attempts <= sender.max_attempts,
    decreases outcomes.len(),
{
    if outcomes.len() > 0 && sender.step() == RetryStep::Attempt {
        attempts_stay_within_budget(sender.recorded(outcomes[0]), outcomes.drop_first());
    }
}

/// A fresh send succeeds exactly if one of the first `max_attempts` outcomes
/// is a success, and it stops with the first success: it has then made one
/// attempt more than there were failures before it.
pub proof fn succeeds_on_first_success(max_attempts: u8, outcomes: Seq<bool>)
    requires
        first_success(outcomes) < outcomes.len(),
        first_success(outcomes) < max_attempts,
    ensures
        ({
            let end = (RetrySender { max_attempts, attempts: 0, succeeded: false }).driven(outcomes);
            &&& end.step() == RetryStep::Succeeded
            &&& end.result() == Ok::<(), RetryError>(())
            &&& end.attempts == first_success(outcomes) + 1
        }),
{
    lemma_driven(RetrySender { max_attempts, attempts: 0, succeeded: false }, outcomes);
}

/// A fresh send whose first `max_attempts` outcomes are all failures gives
/// up after exactly `max_attempts` attempts.
pub proof fn exhausted_after_budget(max_attempts: u8, outcomes: Seq<bool>)
    requires
        outcomes.len() >= max_attempts,
        first_success(outcomes) >= max_attempts,
    ensures
        ({
            let end = (RetrySender { max_attempts, attempts: 0, succeeded: false }).driven(outcomes);
            &&& end.step() == RetryStep::Exhausted
            &&& end.result() == Err::<(), RetryError>(RetryError::RetriesExhausted)
            &&& end.attempts == max_attempts
        }),
{
    lemma_driven(RetrySender { max_attempts, attempts: 0, succeeded: false }, outcomes);
}

/// Where a send that still fails ends up, by the first success ahead.
proof fn lemma_driven(sender: RetrySender, outcomes: Seq<bool>)
    requires
        sender.wf(),
        !sender.succeeded,
    ensures
        ({
            let end = sender.driven(outcomes);
            let left = sender.max_attempts - sender.attempts;
            let k = first_success(outcomes);
            &&& k < outcomes.len() && k < left ==> end.succeeded && end.attempts == sender.attempts
                + k + 1
            &&& k >= left && outcomes.len() >= left ==> !end.succeeded && end.attempts
                == sender.max_attempts
            &&& end.max_attempts == sender.max_attempts
        }),
    decreases outcomes.len(),
{
    if outcomes.len() > 0 && sender.step() == RetryStep::Attempt {
        if !outcomes[0] {
            lemma_driven(sender.recorded(false), outcomes.drop_first());
        } else {
            let next = sender.recorded(true);
            assert(next.driven(outcomes.drop_first()) == next);
        }
    }
}

} // verus!
