//! Decision logic of a chat bot that relays messages to a hosted assistant
//! service: what to do after each status report of a run, how the reply is
//! taken from the newest message, and the order of the calls of one exchange.
pub mod run_status;
pub mod reply;
pub mod exchange;
