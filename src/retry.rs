use vstd::prelude::*;
use crate::error::AudioError;

verus! {

/// How many times one command is attempted before its failure is reported.
pub const MAX_RETRY_ATTEMPTS: u32 = 3;

/// The unit of the linear backoff between attempts, in milliseconds.
pub const RETRY_BASE_DELAY_MS: u64 = 500;

/// What one run of the external tool came to.
#[derive(Debug)]
pub enum CommandOutcome {
    /// The process ran to its end, with this exit verdict and output.
    Exited { success: bool, stdout: String, stderr: String },
    /// The process could not be started; the text of the I/O error.
    SpawnFailed(String),
}

/// What the caller does after an attempt.
#[derive(Debug, PartialEq, Eq)]
pub enum RetryAction {
    /// Sleep this many milliseconds, then run the command again.
    RetryAfter(u64),
    /// The call is over, with this result.
    Finish(Result<String, AudioError>),
}

/// The error that a failed attempt stands for.
pub open spec fn attempt_error(o: CommandOutcome) -> AudioError {
    match o {
        CommandOutcome::Exited { stderr, .. } => AudioError::CommandFailed(stderr),
        CommandOutcome::SpawnFailed(detail) => AudioError::CommandFailed(detail),
    }
}

pub open spec fn attempt_succeeded(o: CommandOutcome) -> bool {
    o matches CommandOutcome::Exited { success: true, .. }
}

/// The action after attempt number `attempt` (counted from 1) came to `o`:
/// a success ends the call with the standard output verbatim; a failure
/// before the last attempt waits `RETRY_BASE_DELAY_MS * attempt`; the last
/// failure ends the call with its own error, without waiting.
pub open spec fn next_action(attempt: u32, o: CommandOutcome) -> RetryAction {
    match o {
        CommandOutcome::Exited { success: true, stdout, .. } => RetryAction::Finish(Ok(stdout)),
        _ => if attempt < MAX_RETRY_ATTEMPTS {
            RetryAction::RetryAfter((RETRY_BASE_DELAY_MS * attempt) as u64)
        } else {
            RetryAction::Finish(Err(attempt_error(o)))
        },
    }
}

/// The course of a call whose attempts, from number `attempt` on, come to
/// `outcomes` in turn: how many attempts are made, the waits between them,
/// and the result (`None` where the outcomes run out first).
pub open spec fn run_retry(attempt: u32, outcomes: Seq<CommandOutcome>) -> (nat, Seq<u64>, Option<Result<String, AudioError>>)
    decreases outcomes.len(),
{
    if outcomes.len() == 0 || attempt > MAX_RETRY_ATTEMPTS {
        (0, Seq::empty(), None)
    } else {
        match next_action(attempt, outcomes[0]) {
            RetryAction::Finish(r) => (1, Seq::empty(), Some(r)),
            RetryAction::RetryAfter(d) => {
                let rest = run_retry((attempt + 1) as u32, outcomes.drop_first());
                (rest.0 + 1, seq![d] + rest.1, rest.2)
            },
        }
    }
}

/// The retry state of one command call.
pub struct CommandRetry {
    attempt: u32,
}

impl CommandRetry {
    /// The number of the attempt now being made, from 1.
    pub closed spec fn attempt(&self) -> u32 {
        self.attempt
    }

    /// The attempt number stays within the allowed attempts.
    #[verifier::type_invariant]
    spec fn inv(&self) -> bool {
        1 <= self.attempt <= MAX_RETRY_ATTEMPTS
    }

    /// A call about to make its first attempt.
    pub fn new() -> (r: Self)
        ensures
            r.attempt() == 1,
    {
        CommandRetry { attempt: 1 }
    }

    /// The number of the attempt now being made, from 1.
    pub fn current_attempt(&self) -> (r: u32)
        ensures
            r == self.attempt(),
    {
        self.attempt
    }

    /// Records the outcome of the current attempt and says what comes next.
    pub fn record(&mut self, outcome: CommandOutcome) -> (r: RetryAction)
        ensures
            r == next_action(old(self).attempt(), outcome),
            1 <= final(self).attempt() <= MAX_RETRY_ATTEMPTS,
            r is RetryAfter ==> final(self).attempt() == old(self).attempt() + 1,
            r is Finish ==> final(self).attempt() == old(self).attempt(),
    {
        proof {
            use_type_invariant(&*self);
        }
        match outcome {
            CommandOutcome::Exited { success, stdout, stderr } => {
                if success {
                    return RetryAction::Finish(Ok(stdout));
                }
                if self.attempt < MAX_RETRY_ATTEMPTS {
                    let delay: u64 = RETRY_BASE_DELAY_MS * (self.attempt as u64);
                    self.attempt = self.attempt + 1;
                    RetryAction::RetryAfter(delay)
                } else {
                    RetryAction::Finish(Err(AudioError::CommandFailed(stderr)))
                }
            },
            CommandOutcome::SpawnFailed(detail) => {
                if self.attempt < MAX_RETRY_ATTEMPTS {
                    let delay: u64 = RETRY_BASE_DELAY_MS * (self.attempt as u64);
                    self.attempt = self.attempt + 1;
                    RetryAction::RetryAfter(delay)
                } else {
                    RetryAction::Finish(Err(AudioError::CommandFailed(detail)))
                }
            },
        }
    }
}

/// A command whose every attempt fails is attempted exactly
/// `MAX_RETRY_ATTEMPTS` times; the waits between attempts grow linearly and
/// strictly, and the call reports the error of the last attempt.
pub proof fn lemma_permanent_failure(outcomes: Seq<CommandOutcome>)
    requires
        outcomes.len() >= MAX_RETRY_ATTEMPTS,
        forall|i: int| 0 <= i < outcomes.len() ==> !attempt_succeeded(#[trigger] outcomes[i]),
    ensures
        run_retry(1, outcomes).0 == MAX_RETRY_ATTEMPTS,
        run_retry(1, outcomes).1 == seq![RETRY_BASE_DELAY_MS, (2 * RETRY_BASE_DELAY_MS) as u64],
        run_retry(1, outcomes).1[0] < run_retry(1, outcomes).1[1],
        run_retry(1, outcomes).2 == Some(Err::<String, AudioError>(attempt_error(outcomes[2]))),
{
    let o1 = outcomes.drop_first();
    let o2 = o1.drop_first();
    assert(!attempt_succeeded(outcomes[0]));
    assert(!attempt_succeeded(o1[0]) && o1[0] == outcomes[1]);
    assert(!attempt_succeeded(o2[0]) && o2[0] == outcomes[2]);
    assert(run_retry(3, o2) == (1nat, Seq::<u64>::empty(), Some(Err::<String, AudioError>(attempt_error(outcomes[2])))));
    assert(run_retry(2, o1).1 =~= seq![1000u64]);
    assert(run_retry(1, outcomes).1 =~= seq![500u64, 1000u64]);
}

/// The first successful attempt ends the call with its standard output.
pub proof fn lemma_success_ends_call(attempt: u32, o: CommandOutcome)
    requires
        attempt_succeeded(o),
    ensures
        next_action(attempt, o) == (RetryAction::Finish(Ok(o->stdout))),
{
}

} // verus!
