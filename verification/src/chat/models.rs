//! Chat messages as they are stored per conversation.
use vstd::prelude::*;
use crate::stamp::UtcTime;

verus! {

/// Whether a message was received or sent.
#[derive(Debug, Clone, Copy, PartialEq, Eq, Structural)]
pub enum Direction {
    Incoming,
    Outgoing,
}

/// Where a message stands on its way to the reader.
#[derive(Debug, Clone, Copy, PartialEq, Eq, Structural)]
pub enum MessageStatus {
    Queued,
    Delivered,
    Read,
    Failed,
}

/// The kind of content a message carries.
#[derive(Debug, Clone, Copy, PartialEq, Eq, Structural)]
pub enum MessageType {
    Text,
}

/// A stored chat message; its id is a UUID held as an integer.
#[derive(Debug)]
pub struct Message {
    pub id: u128,
    pub direction: Direction,
    pub timestamp: UtcTime,
    pub status: MessageStatus,
    pub message_type: MessageType,
    pub content: String,
    pub signature: Option<String>,
    pub reply_to: Option<u128>,
}

impl Clone for Message {
    fn clone(&self) -> (r: Self)
        ensures
            r == *self,
    {
        Message {
            id: self.id,
            direction: self.direction,
            timestamp: self.timestamp,
            status: self.status,
            message_type: self.message_type,
            content: self.content.clone(),
            signature: match &self.signature {
                Some(s) => Some(s.clone()),
                None => None,
            },
            reply_to: self.reply_to,
        }
    }
}

/// A message that was received and is not read yet.
pub open spec fn is_unread(m: Message) -> bool {
    m.direction == Direction::Incoming && m.status != MessageStatus::Read
}

} // verus!
