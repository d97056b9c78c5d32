use vstd::prelude::*;

verus! {

/// One part of a message of the thread.
#[derive(Debug, Clone, PartialEq, Eq)]
pub enum MessageContent {
    Text(String),
    ImageFile,
    ImageUrl,
}

/// Why no reply text could be taken from what the service returned.
#[derive(Debug, Clone, Copy, PartialEq, Eq, Structural)]
pub enum ReplyError {
    /// The thread listed no message.
    NoMessage,
    /// The newest message has no content.
    EmptyMessage,
    /// The first part of the newest message is an image, not text.
    NotText,
}

/// The newest message is the first of a listing, which the service orders
/// from newest to oldest.
pub open spec fn newest_of(ids: Seq<String>) -> Result<String, ReplyError> {
    if ids.len() == 0 {
        Err(ReplyError::NoMessage)
    } else {
        Ok(ids[0])
    }
}

/// The reply is the text of the first part of the message.
pub open spec fn reply_of(contents: Seq<MessageContent>) -> Result<String, ReplyError> {
    if contents.len() == 0 {
        Err(ReplyError::EmptyMessage)
    } else {
        match contents[0] {
            MessageContent::Text(t) => Ok(t),
            _ => Err(ReplyError::NotText),
        }
    }
}

/// Picks the id of the newest message out of a listing of the thread.
pub fn newest_message_id(ids: &Vec<String>) -> (r: Result<String, ReplyError>)
    ensures
        r == newest_of(ids@),
{
    if ids.len() == 0 {
        Err(ReplyError::NoMessage)
    } else {
        Ok(ids[0].clone())
    }
}

/// Takes the reply text out of the parts of a message.
pub fn reply_text(contents: &Vec<MessageContent>) -> (r: Result<String, ReplyError>)
    ensures
        r == reply_of(contents@),
{
    if contents.len() == 0 {
        return Err(ReplyError::EmptyMessage);
    }
    match &contents[0] {
        MessageContent::Text(t) => Ok(t.clone()),
        MessageContent::ImageFile | MessageContent::ImageUrl => Err(ReplyError::NotText),
    }
}

} // verus!
