use chet_bot::exchange::{Action, Event, Exchange, ExchangeError, LISTING_LIMIT, POLL_INTERVAL_SECS};
use chet_bot::reply::{MessageContent, ReplyError};
use chet_bot::run_status::RunStatus;

fn polling(run_id: &str) -> Exchange {
    let (mut ex, _) = Exchange::start("hi".to_string());
    ex.step(Event::MessagePosted);
    ex.step(Event::RunStarted { run_id: run_id.to_string() });
    ex
}

#[test]
fn full_exchange_gives_reply() {
    let (mut ex, a) = Exchange::start("hello chet".to_string());
    assert_eq!(ex, Exchange::Posting);
    assert_eq!(a, Action::PostMessage { text: "hello chet".to_string() });
    assert_eq!(ex.step(Event::MessagePosted), Action::StartRun { parallel_tool_calls: false });
    assert_eq!(ex, Exchange::Starting);
    let a = ex.step(Event::RunStarted { run_id: "run_1".to_string() });
    assert_eq!(a, Action::CheckRun { run_id: "run_1".to_string(), wait_secs: 0 });
    let a = ex.step(Event::StatusSeen { status: RunStatus::Queued });
    assert_eq!(a, Action::CheckRun { run_id: "run_1".to_string(), wait_secs: 1 });
    let a = ex.step(Event::StatusSeen { status: RunStatus::InProgress });
    assert_eq!(a, Action::CheckRun { run_id: "run_1".to_string(), wait_secs: POLL_INTERVAL_SECS });
    assert_eq!(ex, Exchange::Polling { run_id: "run_1".to_string() });
    let a = ex.step(Event::StatusSeen { status: RunStatus::Completed });
    assert_eq!(a, Action::ListMessages { limit: 10 });
    assert_eq!(LISTING_LIMIT, 10);
    let a = ex.step(Event::MessagesListed { ids: vec!["msg_2".to_string(), "msg_1".to_string()] });
    assert_eq!(a, Action::ReadMessage { message_id: "msg_2".to_string() });
    let a = ex.step(Event::MessageRead { contents: vec![MessageContent::Text("sure, whatever".to_string())] });
    assert_eq!(a, Action::Reply { text: "sure, whatever".to_string() });
    assert_eq!(ex, Exchange::Finished);
}

#[test]
fn failed_run_ends_with_error() {
    let mut ex = polling("run_f");
    let a = ex.step(Event::StatusSeen { status: RunStatus::Failed });
    assert_eq!(a, Action::Fail { error: ExchangeError::RunFailed });
    assert_eq!(ex, Exchange::Finished);
}

#[test]
fn cancelled_expired_incomplete_end_without_response() {
    for s in [RunStatus::Cancelled, RunStatus::Expired, RunStatus::Incomplete] {
        let mut ex = polling("run_c");
        assert_eq!(ex.step(Event::StatusSeen { status: s }), Action::Fail { error: ExchangeError::NoResponse });
        assert_eq!(ex, Exchange::Finished);
    }
}

#[test]
fn requires_action_and_cancelling_keep_polling() {
    let mut ex = polling("run_r");
    for s in [RunStatus::RequiresAction, RunStatus::Cancelling] {
        assert_eq!(ex.step(Event::StatusSeen { status: s }), Action::CheckRun { run_id: "run_r".to_string(), wait_secs: 1 });
    }
}

#[test]
fn empty_listing_fails() {
    let mut ex = polling("run_e");
    ex.step(Event::StatusSeen { status: RunStatus::Completed });
    assert_eq!(ex.step(Event::MessagesListed { ids: vec![] }), Action::Fail { error: ExchangeError::Reply(ReplyError::NoMessage) });
    assert_eq!(ex, Exchange::Finished);
}

#[test]
fn image_reply_fails() {
    let mut ex = polling("run_i");
    ex.step(Event::StatusSeen { status: RunStatus::Completed });
    ex.step(Event::MessagesListed { ids: vec!["m".to_string()] });
    assert_eq!(ex.step(Event::MessageRead { contents: vec![MessageContent::ImageUrl] }), Action::Fail { error: ExchangeError::Reply(ReplyError::NotText) });
}

#[test]
fn empty_message_fails() {
    let mut ex = polling("run_m");
    ex.step(Event::StatusSeen { status: RunStatus::Completed });
    ex.step(Event::MessagesListed { ids: vec!["m".to_string()] });
    assert_eq!(ex.step(Event::MessageRead { contents: vec![] }), Action::Fail { error: ExchangeError::Reply(ReplyError::EmptyMessage) });
}

#[test]
fn event_out_of_order_fails() {
    let (mut ex, _) = Exchange::start("x".to_string());
    assert_eq!(ex.step(Event::StatusSeen { status: RunStatus::Completed }), Action::Fail { error: ExchangeError::OutOfOrder });
    assert_eq!(ex, Exchange::Finished);
    assert_eq!(ex.step(Event::MessagePosted), Action::Fail { error: ExchangeError::OutOfOrder });
}
