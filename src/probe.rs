use vstd::prelude::*;
use crate::decode::{DecodeError, decode_text, decode_text_spec};
use crate::metrics::{MetricBatch, translate};
use crate::status::SystemStatus;

verus! {

/// The status endpoint of the worker pool.
pub const STATUS_URL: &'static str = "https://lichess.org/fishnet/status";

/// Where an invocation stands.
#[derive(Clone, Copy, Debug, PartialEq, Eq, Structural)]
pub enum Stage {
    /// Waiting for the status document.
    Fetching,
    /// Waiting for the sink to accept the batch.
    Submitting,
    /// The sink accepted the batch.
    Completed,
    /// The invocation failed; nothing was delivered.
    Failed,
}

/// Why an invocation failed.
#[derive(Clone, Debug)]
pub enum ProbeError {
    /// The status endpoint could not be reached, with the cause.
    Transport(String),
    /// The status document did not fit the schema.
    Decode(DecodeError),
    /// The sink did not accept the batch, with the cause.
    Submission(String),
}

/// What the runner of an invocation is to do next.
#[derive(Clone, Debug)]
pub enum Action {
    /// Hand this batch, whole, to the sink, in one call.
    Submit(MetricBatch),
    /// Acknowledge the trigger: the invocation succeeded.
    Complete,
    /// Report the invocation as failed.
    Fail(ProbeError),
}

/// The decisions of one invocation: fetch, translate, submit once.
#[derive(Clone, Copy, Debug, PartialEq, Eq, Structural)]
pub struct Invocation {
    pub stage: Stage,
    /// Submission calls asked for so far.
    pub submissions: u64,
    /// Points that the sink has accepted.
    pub delivered: u64,
}

impl Invocation {
    /// An invocation that has not fetched yet.
    pub open spec fn initial() -> Invocation {
        Invocation { stage: Stage::Fetching, submissions: 0, delivered: 0 }
    }

    /// Bookkeeping after the status document was decoded, or failed to be.
    pub open spec fn after_status(self, decoded: bool) -> Invocation {
        if decoded {
            Invocation { stage: Stage::Submitting, submissions: 1, delivered: 0 }
        } else {
            Invocation { stage: Stage::Failed, submissions: 0, delivered: 0 }
        }
    }

    /// Bookkeeping after the sink accepted the batch or refused it.
    pub open spec fn after_submission(self, accepted: bool) -> Invocation {
        if accepted {
            Invocation { stage: Stage::Completed, submissions: self.submissions, delivered: 6 }
        } else {
            Invocation { stage: Stage::Failed, submissions: self.submissions, delivered: 0 }
        }
    }

    /// At most one submission, and either no point delivered or all six.
    pub open spec fn wf(self) -> bool {
        &&& self.submissions <= 1
        &&& self.stage is Fetching ==> self.submissions == 0
        &&& (self.stage is Submitting || self.stage is Completed) ==> self.submissions == 1
        &&& if self.stage is Completed {
            self.delivered == 6
        } else {
            self.delivered == 0
        }
    }

    /// Starts an invocation; the runner then fetches `STATUS_URL`.
    pub fn new() -> (r: Invocation)
        ensures
            r == Invocation::initial(),
            r.wf(),
    {
        Invocation { stage: Stage::Fetching, submissions: 0, delivered: 0 }
    }

    /// Takes the decoded status document: a status is translated and its
    /// batch submitted; a decode error fails the invocation with no point.
    pub fn on_status(&mut self, decoded: Result<SystemStatus, DecodeError>) -> (a: Action)
        requires
            old(self).wf(),
            old(self).stage is Fetching,
        ensures
            *final(self) == old(self).after_status(decoded is Ok),
            final(self).wf(),
            match decoded {
                Ok(s) => a matches Action::Submit(b) && b.is_batch_of(s),
                Err(e) => a matches Action::Fail(ProbeError::Decode(d)) && d == e,
            },
    {
        match decoded {
            Ok(s) => {
                let batch = translate(&s);
                *self = Invocation { stage: Stage::Submitting, submissions: 1, delivered: 0 };
                Action::Submit(batch)
            },
            Err(e) => {
                *self = Invocation { stage: Stage::Failed, submissions: 0, delivered: 0 };
                Action::Fail(ProbeError::Decode(e))
            },
        }
    }

    /// Takes the outcome of the fetch: the body of the response, or the
    /// transport failure's cause.
    pub fn on_fetched(&mut self, fetched: Result<String, String>) -> (a: Action)
        requires
            old(self).wf(),
            old(self).stage is Fetching,
        ensures
            final(self).wf(),
            match fetched {
                Err(cause) => {
                    &&& *final(self) == old(self).after_status(false)
                    &&& a matches Action::Fail(ProbeError::Transport(m)) && m@ == cause@
                },
                Ok(body) => {
                    &&& *final(self) == old(self).after_status(decode_text_spec(body@) is Ok)
                    &&& match decode_text_spec(body@) {
                        Ok(s) => a matches Action::Submit(b) && b.is_batch_of(s),
                        Err(e) => a matches Action::Fail(ProbeError::Decode(d)) && d == e,
                    }
                },
            },
    {
        match fetched {
            Err(cause) => {
                *self = Invocation { stage: Stage::Failed, submissions: 0, delivered: 0 };
                Action::Fail(ProbeError::Transport(cause))
            },
            Ok(body) => self.on_status(decode_text(body.as_str())),
        }
    }

    /// Takes the sink's answer to the one submission: acceptance completes
    /// the invocation, a refusal fails it with nothing delivered.
    pub fn on_submitted(&mut self, outcome: Result<(), String>) -> (a: Action)
        requires
            old(self).wf(),
            old(self).stage is Submitting,
        ensures
            *final(self) == old(self).after_submission(outcome is Ok),
            final(self).wf(),
            match outcome {
                Ok(_) => a is Complete,
                Err(cause) => a matches Action::Fail(ProbeError::Submission(m)) && m@ == cause@,
            },
    {
        match outcome {
            Ok(_) => {
                *self = Invocation { stage: Stage::Completed, submissions: self.submissions, delivered: 6 };
                Action::Complete
            },
            Err(cause) => {
                *self = Invocation { stage: Stage::Failed, submissions: self.submissions, delivered: 0 };
                Action::Fail(ProbeError::Submission(cause))
            },
        }
    }
}

/// Whatever the fetch and the sink answer, an invocation asks for at most one
/// submission; where the sink refuses it, no point counts as delivered, and
/// where it accepts it, all six do.
pub proof fn lemma_all_or_nothing(decoded: bool, accepted: bool)
    ensures
        Invocation::initial().after_status(decoded).submissions <= 1,
        decoded ==> {
            let done = Invocation::initial().after_status(decoded).after_submission(accepted);
            &&& done.submissions == 1
            &&& done.wf()
            &&& !accepted ==> done.delivered == 0 && done.stage is Failed
            &&& accepted ==> done.delivered == 6 && done.stage is Completed
        },
        !decoded ==> Invocation::initial().after_status(decoded).submissions == 0,
{
}

} // verus!
