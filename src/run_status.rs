use vstd::prelude::*;

verus! {

/// The status of one run of the assistant on a conversation thread, as the
/// service reports it.
#[derive(Debug, Clone, Copy, PartialEq, Eq, Structural)]
pub enum RunStatus {
    Queued,
    InProgress,
    RequiresAction,
    Cancelling,
    Cancelled,
    Failed,
    Completed,
    Expired,
    Incomplete,
}

/// What the poller does after it has seen a status.
#[derive(Debug, Clone, Copy, PartialEq, Eq, Structural)]
pub enum PollStep {
    /// The run is still going: wait, then ask for its status again.
    Wait,
    /// The run has finished: fetch the newest message of the thread.
    FetchReply,
    /// The run failed: the exchange ends with an error.
    Fail,
    /// The run ended without a result: stop polling.
    Stop,
}

impl RunStatus {
    /// The run has not reached an end yet.
    pub open spec fn is_pending(self) -> bool {
        ||| self is Queued
        ||| self is InProgress
        ||| self is RequiresAction
        ||| self is Cancelling
    }

    /// The run ended without producing a reply and without failing.
    pub open spec fn is_abandoned(self) -> bool {
        ||| self is Cancelled
        ||| self is Expired
        ||| self is Incomplete
    }

    /// The text logged when this status is seen.
    pub open spec fn note_spec(self) -> Seq<char> {
        match self {
            RunStatus::Queued => "> Run Queued"@,
            RunStatus::InProgress => "> In Progress ..."@,
            RunStatus::RequiresAction => "> Run Requires Action"@,
            RunStatus::Cancelling => "> Run Cancelling"@,
            RunStatus::Cancelled => "> Run Cancelled"@,
            RunStatus::Failed => "> Run Failed"@,
            RunStatus::Completed => "> Run Completed"@,
            RunStatus::Expired => "> Run Expired"@,
            RunStatus::Incomplete => "> Run Incomplete"@,
        }
    }

    /// Decides what the poller does next on this status.
    pub fn next_step(self) -> (r: PollStep)
        ensures
            r == PollStep::Wait <==> self.is_pending(),
            r == PollStep::FetchReply <==> self is Completed,
            r == PollStep::Fail <==> self is Failed,
            r == PollStep::Stop <==> self.is_abandoned(),
    {
        match self {
            RunStatus::Completed => PollStep::FetchReply,
            RunStatus::Failed => PollStep::Fail,
            RunStatus::Cancelled | RunStatus::Expired | RunStatus::Incomplete => PollStep::Stop,
            RunStatus::Queued
            | RunStatus::InProgress
            | RunStatus::RequiresAction
            | RunStatus::Cancelling => PollStep::Wait,
        }
    }

    /// The line logged when this status is seen.
    pub fn note(self) -> (r: &'static str)
        ensures
            r@ == self.note_spec(),
    {
        match self {
            RunStatus::Queued => "> Run Queued",
            RunStatus::InProgress => "> In Progress ...",
            RunStatus::RequiresAction => "> Run Requires Action",
            RunStatus::Cancelling => "> Run Cancelling",
            RunStatus::Cancelled => "> Run Cancelled",
            RunStatus::Failed => "> Run Failed",
            RunStatus::Completed => "> Run Completed",
            RunStatus::Expired => "> Run Expired",
            RunStatus::Incomplete => "> Run Incomplete",
        }
    }
}

} // verus!
