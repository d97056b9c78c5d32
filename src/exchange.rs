use vstd::prelude::*;
use crate::reply::{newest_message_id, newest_of, reply_of, reply_text, MessageContent, ReplyError};
use crate::run_status::{PollStep, RunStatus};

verus! {

/// Seconds to wait before asking again for the status of a run that is still going.
pub const POLL_INTERVAL_SECS: u64 = 1;

/// How many messages of the thread are listed when the reply is fetched.
pub const LISTING_LIMIT: u32 = 10;

/// Why an exchange ended without a reply.
#[derive(Debug, Clone, Copy, PartialEq, Eq, Structural)]
pub enum ExchangeError {
    /// The service reported the run as failed.
    RunFailed,
    /// The run was cancelled, expired or left incomplete.
    NoResponse,
    /// The newest message held no usable text.
    Reply(ReplyError),
    /// An event came that the current phase does not wait for.
    OutOfOrder,
}

/// The phase of one exchange: a user message is posted to the thread, a run
/// of the assistant is started on it, polled until it ends, and the newest
/// message of the thread is read back.
#[derive(Debug, Clone, PartialEq, Eq)]
pub enum Exchange {
    /// Waiting for the user message to be posted.
    Posting,
    /// Waiting for the run to be created.
    Starting,
    /// Waiting for a status report of the given run.
    Polling { run_id: String },
    /// Waiting for the listing of the thread's messages.
    Listing,
    /// Waiting for the newest message.
    Reading,
    /// The exchange is over.
    Finished,
}

/// What the service reported back after an action.
#[derive(Debug, Clone, PartialEq, Eq)]
pub enum Event {
    MessagePosted,
    RunStarted { run_id: String },
    StatusSeen { status: RunStatus },
    MessagesListed { ids: Vec<String> },
    MessageRead { contents: Vec<MessageContent> },
}

/// The next call to make, or the end of the exchange.
#[derive(Debug, Clone, PartialEq, Eq)]
pub enum Action {
    /// Post the user's text to the thread.
    PostMessage { text: String },
    /// Start a run of the assistant on the thread.
    StartRun { parallel_tool_calls: bool },
    /// Wait the given number of seconds, then fetch the status of the run.
    CheckRun { run_id: String, wait_secs: u64 },
    /// List the newest messages of the thread.
    ListMessages { limit: u32 },
    /// Fetch the message with the given id.
    ReadMessage { message_id: String },
    /// The exchange is over: this is the reply.
    Reply { text: String },
    /// The exchange is over without a reply.
    Fail { error: ExchangeError },
}

impl Exchange {
    /// The phase waits for this kind of event.
    pub open spec fn expects(self, event: Event) -> bool {
        ||| self is Posting && event is MessagePosted
        ||| self is Starting && event is RunStarted
        ||| self is Polling && event is StatusSeen
        ||| self is Listing && event is MessagesListed
        ||| self is Reading && event is MessageRead
    }

    /// Opens an exchange for the given user text.
    pub fn start(text: String) -> (r: (Exchange, Action))
        ensures
            r.0 is Posting,
            r.1 == (Action::PostMessage { text }),
    {
        (Exchange::Posting, Action::PostMessage { text })
    }

    /// Moves the exchange on by one event and says what to do next.
    pub fn step(&mut self, event: Event) -> (a: Action)
        ensures
            !old(self).expects(event) ==> {
                &&& *final(self) is Finished
                &&& a == (Action::Fail { error: ExchangeError::OutOfOrder })
            },
            (*old(self)) is Posting && event is MessagePosted ==> {
                &&& *final(self) is Starting
                &&& a == (Action::StartRun { parallel_tool_calls: false })
            },
            (*old(self)) is Starting && event is RunStarted ==> {
                &&& *final(self) == (Exchange::Polling { run_id: event->run_id })
                &&& a == (Action::CheckRun { run_id: event->run_id, wait_secs: 0 })
            },
            (*old(self)) is Polling && event is StatusSeen ==> {
                let status = event->status;
                &&& status.is_pending() ==> {
                    &&& *final(self) == *old(self)
                    &&& a == (Action::CheckRun {
                        run_id: (*old(self))->run_id,
                        wait_secs: POLL_INTERVAL_SECS,
                    })
                }
                &&& status is Completed ==> {
                    &&& *final(self) is Listing
                    &&& a == (Action::ListMessages { limit: LISTING_LIMIT })
                }
                &&& status is Failed ==> {
                    &&& *final(self) is Finished
                    &&& a == (Action::Fail { error: ExchangeError::RunFailed })
                }
                &&& status.is_abandoned() ==> {
                    &&& *final(self) is Finished
                    &&& a == (Action::Fail { error: ExchangeError::NoResponse })
                }
            },
            (*old(self)) is Listing && event is MessagesListed ==> match newest_of(event->ids@) {
                Ok(id) => *final(self) is Reading && a == (Action::ReadMessage { message_id: id }),
                Err(e) => *final(self) is Finished && a == (Action::Fail {
                    error: ExchangeError::Reply(e),
                }),
            },
            (*old(self)) is Reading && event is MessageRead ==> {
                &&& *final(self) is Finished
                &&& a == match reply_of(event->contents@) {
                    Ok(text) => Action::Reply { text },
                    Err(e) => Action::Fail { error: ExchangeError::Reply(e) },
                }
            },
            *final(self) is Finished <==> (a is Reply || a is Fail),
    {
        let (next, action) = match (&*self, event) {
            (Exchange::Posting, Event::MessagePosted) => {
                (Exchange::Starting, Action::StartRun { parallel_tool_calls: false })
            },
            (Exchange::Starting, Event::RunStarted { run_id }) => {
                (Exchange::Polling { run_id: run_id.clone() }, Action::CheckRun { run_id, wait_secs: 0 })
            },
            (Exchange::Polling { run_id }, Event::StatusSeen { status }) => {
                match status.next_step() {
                    PollStep::Wait => (
                        Exchange::Polling { run_id: run_id.clone() },
                        Action::CheckRun { run_id: run_id.clone(), wait_secs: POLL_INTERVAL_SECS },
                    ),
                    PollStep::FetchReply => (
                        Exchange::Listing,
                        Action::ListMessages { limit: LISTING_LIMIT },
                    ),
                    PollStep::Fail => (
                        Exchange::Finished,
                        Action::Fail { error: ExchangeError::RunFailed },
                    ),
                    PollStep::Stop => (
                        Exchange::Finished,
                        Action::Fail { error: ExchangeError::NoResponse },
                    ),
                }
            },
            (Exchange::Listing, Event::MessagesListed { ids }) => {
                match newest_message_id(&ids) {
                    Ok(message_id) => (Exchange::Reading, Action::ReadMessage { message_id }),
                    Err(e) => (Exchange::Finished, Action::Fail { error: ExchangeError::Reply(e) }),
                }
            },
            (Exchange::Reading, Event::MessageRead { contents }) => {
                match reply_text(&contents) {
                    Ok(text) => (Exchange::Finished, Action::Reply { text }),
                    Err(e) => (Exchange::Finished, Action::Fail { error: ExchangeError::Reply(e) }),
                }
            },
            _ => (Exchange::Finished, Action::Fail { error: ExchangeError::OutOfOrder }),
        };
        *self = next;
        action
    }
}

} // verus!
