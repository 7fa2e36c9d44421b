use vstd::prelude::*;
use vstd::arithmetic::power2::pow2;

use crate::error::AppError;

verus! {

/// How many times a Gemini request is attempted before its failure is reported.
pub const MAX_RETRIES: u32 = 3;

/// What one attempt at a Gemini request gave back.
#[derive(Debug, Clone)]
pub enum AttemptOutcome {
    /// A success status; the text of the first part of the first candidate, if the reply had one.
    Reply(Option<String>),
    /// A success status, but the body could not be read as JSON; the client's error text.
    UnreadableReply(String),
    /// A failure status (as the client writes it) and the body that came with it.
    HttpFailure { status: String, body: String },
    /// The request did not complete; the client's error text.
    ConnectionFailure(String),
}

/// What to do after an attempt.
#[derive(Debug)]
pub enum RetryStep {
    /// Stop and answer with this result.
    Finish(Result<String, AppError>),
    /// Wait this many seconds, then make the next attempt.
    RetryAfter(u64),
}

/// Seconds to wait after failed attempt number `attempt` (counting from 1).
pub open spec fn backoff_seconds(attempt: nat) -> nat {
    pow2(attempt)
}

fn backoff(attempt: u32) -> (d: u64)
    requires
        attempt < MAX_RETRIES,
    ensures
        d == backoff_seconds(attempt as nat),
{
    let mut d: u64 = 1;
    let mut i: u32 = 0;
    proof {
        vstd::arithmetic::power2::lemma2_to64();
    }
    while i < attempt
        invariant
            i <= attempt < MAX_RETRIES,
            d == pow2(i as nat),
            pow2(0) == 1 && pow2(1) == 2 && pow2(2) == 4,
        decreases attempt - i,
    {
        d = d * 2;
        i = i + 1;
    }
    d
}

/// The step to take after attempt number `attempt` (counting from 1) came back
/// with `outcome`: a reply ends the request; a failure is retried after
/// `2^attempt` seconds until `MAX_RETRIES` attempts have been made, and then
/// it is reported.
pub open spec fn is_next_step(attempt: nat, outcome: AttemptOutcome, step: RetryStep) -> bool {
    match outcome {
        AttemptOutcome::Reply(Some(text)) => step == RetryStep::Finish(Ok(text)),
        AttemptOutcome::Reply(None) => step matches RetryStep::Finish(Err(AppError::Gemini(m)))
            && m@ == "Invalid or unexpected response format"@,
        AttemptOutcome::UnreadableReply(e) => step == RetryStep::Finish(Err(AppError::Reqwest(e))),
        AttemptOutcome::HttpFailure { status, body } => if attempt >= MAX_RETRIES {
            step matches RetryStep::Finish(Err(AppError::Gemini(m))) && m@ == "HTTP Error "@
                + status@ + ": "@ + body@
        } else {
            step == RetryStep::RetryAfter(backoff_seconds(attempt) as u64)
        },
        AttemptOutcome::ConnectionFailure(e) => if attempt >= MAX_RETRIES {
            step == RetryStep::Finish(Err(AppError::Reqwest(e)))
        } else {
            step == RetryStep::RetryAfter(backoff_seconds(attempt) as u64)
        },
    }
}

/// The step the client takes after attempt number `attempt` came back with `outcome`.
pub fn next_step(attempt: u32, outcome: AttemptOutcome) -> (step: RetryStep)
    ensures
        is_next_step(attempt as nat, outcome, step),
{
    match outcome {
        AttemptOutcome::Reply(Some(text)) => RetryStep::Finish(Ok(text)),
        AttemptOutcome::Reply(None) => RetryStep::Finish(
            Err(AppError::Gemini(String::from_str("Invalid or unexpected response format"))),
        ),
        AttemptOutcome::UnreadableReply(e) => RetryStep::Finish(Err(AppError::Reqwest(e))),
        AttemptOutcome::HttpFailure { status, body } => {
            if attempt >= MAX_RETRIES {
                let m = String::from_str("HTTP Error ").concat(status.as_str()).concat(": ").concat(
                    body.as_str(),
                );
                RetryStep::Finish(Err(AppError::Gemini(m)))
            } else {
                RetryStep::RetryAfter(backoff(attempt))
            }
        },
        AttemptOutcome::ConnectionFailure(e) => {
            if attempt >= MAX_RETRIES {
                RetryStep::Finish(Err(AppError::Reqwest(e)))
            } else {
                RetryStep::RetryAfter(backoff(attempt))
            }
        },
    }
}

} // verus!

verus! {

/// Whether the attempt numbered `attempt` ends the request, whatever else it returns.
pub open spec fn ends_request(attempt: nat, outcome: AttemptOutcome) -> bool {
    match outcome {
        AttemptOutcome::HttpFailure { .. } | AttemptOutcome::ConnectionFailure(_) => attempt
            >= MAX_RETRIES,
        _ => true,
    }
}

/// The attempts made so far for one Gemini request.
pub struct RetryState {
    attempts: u32,
}

impl RetryState {
    /// How many attempts have been recorded.
    pub closed spec fn attempts(&self) -> nat {
        self.attempts as nat
    }

    pub fn new() -> (s: RetryState)
        ensures
            s.attempts() == 0,
    {
        RetryState { attempts: 0 }
    }

    /// Records the outcome of the next attempt and says what to do next.
    /// A retry is only ever asked for while fewer than `MAX_RETRIES` attempts
    /// have been made, so a request is attempted at most `MAX_RETRIES` times.
    pub fn record(&mut self, outcome: AttemptOutcome) -> (step: RetryStep)
        requires
            old(self).attempts() < MAX_RETRIES,
        ensures
            final(self).attempts() == old(self).attempts() + 1,
            step is Finish <==> ends_request(final(self).attempts(), outcome),
            is_next_step(final(self).attempts(), outcome, step),
            step is RetryAfter ==> final(self).attempts() < MAX_RETRIES,
    {
        self.attempts = self.attempts + 1;
        next_step(self.attempts, outcome)
    }
}

} // verus!

verus! {

/// Whether a failed attempt is retried depends only on the attempt number:
/// whatever the HTTP status and body, or the connection error, an attempt
/// before the last is retried after `2^attempt` seconds, and the last one is
/// reported (an HTTP failure as `HTTP Error <status>: <body>`).
pub proof fn lemma_failures_retried_by_attempt_only(
    attempt: nat,
    status: String,
    body: String,
    error: String,
    step: RetryStep,
)
    requires
        is_next_step(attempt, AttemptOutcome::HttpFailure { status, body }, step)
            || is_next_step(attempt, AttemptOutcome::ConnectionFailure(error), step),
    ensures
        attempt < MAX_RETRIES ==> step == RetryStep::RetryAfter(pow2(attempt) as u64),
        attempt == 1 ==> step == RetryStep::RetryAfter(2),
        attempt == 2 ==> step == RetryStep::RetryAfter(4),
        attempt >= MAX_RETRIES ==> step is Finish,
        attempt >= MAX_RETRIES && is_next_step(
            attempt,
            AttemptOutcome::HttpFailure { status, body },
            step,
        ) ==> (step matches RetryStep::Finish(Err(AppError::Gemini(m))) && m@ == "HTTP Error "@
            + status@ + ": "@ + body@),
        !ends_request(attempt, AttemptOutcome::HttpFailure { status, body }) <==> attempt
            < MAX_RETRIES,
        !ends_request(attempt, AttemptOutcome::ConnectionFailure(error)) <==> attempt
            < MAX_RETRIES,
{
    vstd::arithmetic::power2::lemma2_to64();
    if attempt >= MAX_RETRIES && is_next_step(attempt, AttemptOutcome::ConnectionFailure(error), step) {
        assert(step == RetryStep::Finish(Err(AppError::Reqwest(error))));
    }
}

} // verus!

verus! {

/// A reply ends the request at any attempt: its text is returned as it came,
/// and a reply without text, or one that cannot be read, is reported at once.
pub proof fn lemma_replies_end_the_request(
    attempt: nat,
    text: String,
    error: String,
    step: RetryStep,
)
    ensures
        is_next_step(attempt, AttemptOutcome::Reply(Some(text)), step) ==> step
            == RetryStep::Finish(Ok(text)),
        is_next_step(attempt, AttemptOutcome::Reply(None), step) ==> (step matches RetryStep::Finish(
            Err(AppError::Gemini(_)),
        )),
        is_next_step(attempt, AttemptOutcome::UnreadableReply(error), step) ==> step
            == RetryStep::Finish(Err(AppError::Reqwest(error))),
        ends_request(attempt, AttemptOutcome::Reply(Some(text))),
        ends_request(attempt, AttemptOutcome::Reply(None)),
        ends_request(attempt, AttemptOutcome::UnreadableReply(error)),
{
}

} // verus!
