//! The message log: the append-only record of a conversation.

use vstd::prelude::*;
use vstd::slice::slice_subrange;
use crate::message::{Message, MessageView, message_views};

verus! {

/// Why a read of the log was refused.
#[derive(Clone, Copy, Debug, PartialEq, Eq, Structural)]
pub enum LogError {
    /// The requested range reaches past the end of the log.
    OutOfRange,
}

/// The ordered record of every message of a conversation. Messages are only
/// ever added at the end; nothing is removed or rewritten.
pub struct Conversation {
    messages: Vec<Message>,
}

impl View for Conversation {
    type V = Seq<MessageView>;

    closed spec fn view(&self) -> Seq<MessageView> {
        message_views(self.messages@)
    }
}

impl Conversation {
    /// An empty log.
    pub fn new() -> (log: Conversation)
        ensures
            log@ == Seq::<MessageView>::empty(),
    {
        let log = Conversation { messages: Vec::new() };
        assert(log@ =~= Seq::<MessageView>::empty());
        log
    }

    /// Adds `message` at the end of the log.
    pub fn append(&mut self, message: Message)
        ensures
            final(self)@ == old(self)@.push(message@),
    {
        self.messages.push(message);
        assert(self@ =~= old(self)@.push(message@));
    }

    /// The number of messages in the log.
    pub fn len(&self) -> (len: usize)
        ensures
            len == self@.len(),
    {
        self.messages.len()
    }

    /// The number of complete or started exchanges: half the number of
    /// messages, rounded down.
    pub fn exchange_count(&self) -> (count: usize)
        ensures
            count == self@.len() / 2,
    {
        self.messages.len() / 2
    }

    /// All messages of the log, oldest first.
    pub fn messages(&self) -> (all: &[Message])
        ensures
            message_views(all@) == self@,
    {
        self.messages.as_slice()
    }

    /// The messages from index `start` up to, but not including, index `end`.
    /// A range that reaches past the end of the log is refused.
    pub fn slice(&self, start: usize, end: usize) -> (range: Result<&[Message], LogError>)
        requires
            start <= end,
        ensures
            end <= self@.len() ==> range is Ok && message_views(range->Ok_0@) == self@.subrange(
                start as int,
                end as int,
            ),
            end > self@.len() ==> range == Err::<&[Message], LogError>(LogError::OutOfRange),
    {
        if end > self.messages.len() {
            return Err(LogError::OutOfRange);
        }
        let range = slice_subrange(self.messages.as_slice(), start, end);
        assert(message_views(range@) =~= self@.subrange(start as int, end as int));
        Ok(range)
    }
}

} // verus!
