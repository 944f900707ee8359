//! The outbound queue of one connection: unbounded, first in, first out.

use std::collections::VecDeque;
use vstd::prelude::*;

verus! {

/// What a queue is: the peer it was opened for and the messages that wait,
/// oldest first.
pub struct QueueState {
    pub owner: Seq<char>,
    pub pending: Seq<Seq<char>>,
}

/// Messages that wait to be written to one connection's transport.
pub struct OutboundQueue {
    owner: String,
    pending: VecDeque<String>,
}

impl View for OutboundQueue {
    type V = QueueState;

    closed spec fn view(&self) -> QueueState {
        QueueState { owner: self.owner@, pending: self.pending@.map_values(|m: String| m@) }
    }
}

impl OutboundQueue {
    /// An empty queue for the connection of `owner`.
    pub fn new(owner: &str) -> (queue: OutboundQueue)
        ensures
            queue@ == (QueueState { owner: owner@, pending: Seq::empty() }),
    {
        let queue = OutboundQueue { owner: String::from_str(owner), pending: VecDeque::new() };
        assert(queue@.pending =~= Seq::empty());
        queue
    }

    /// The peer identifier that the queue was opened for.
    pub fn owner(&self) -> (owner: &str)
        ensures
            owner@ == self@.owner,
    {
        self.owner.as_str()
    }

    /// How many messages wait.
    pub fn len(&self) -> (len: usize)
        ensures
            len == self@.pending.len(),
    {
        self.pending.len()
    }

    /// Puts a message behind those that wait. Never blocks and never refuses.
    pub fn enqueue(&mut self, message: String)
        ensures
            final(self)@ == (QueueState {
                owner: old(self)@.owner,
                pending: old(self)@.pending.push(message@),
            }),
    {
        self.pending.push_back(message);
        assert(final(self)@.pending =~= old(self)@.pending.push(message@));
    }

    /// Takes the message that has waited longest, if one waits.
    pub fn dequeue(&mut self) -> (message: Option<String>)
        ensures
            match message {
                Some(m) => {
                    &&& old(self)@.pending.len() > 0
                    &&& m@ == old(self)@.pending[0]
                    &&& final(self)@ == (QueueState {
                        owner: old(self)@.owner,
                        pending: old(self)@.pending.drop_first(),
                    })
                },
                None => old(self)@.pending.len() == 0 && final(self)@ == old(self)@,
            },
    {
        let message = self.pending.pop_front();
        assert(message is Some ==> final(self)@.pending =~= old(self)@.pending.drop_first());
        message
    }
}

} // verus!
