//! A bounded, insertion-ordered store of the most recent messages.

use std::collections::VecDeque;
use vstd::prelude::*;

use crate::message::ChatMessage;

verus! {

/// The buffer contents after one `add_message` of `m` into a buffer of
/// capacity `cap` that currently holds `s`: the oldest entry is evicted first
/// when the buffer is full, and a buffer of capacity zero stays empty.
pub open spec fn buffer_after_append(
    s: Seq<ChatMessage>,
    cap: nat,
    m: ChatMessage,
) -> Seq<ChatMessage> {
    if cap == 0 {
        s
    } else if s.len() < cap {
        s.push(m)
    } else {
        s.drop_first().push(m)
    }
}

/// The buffer contents after appending each message of `msgs` in order into
/// an initially empty buffer of capacity `cap`.
pub open spec fn buffer_after_appends(cap: nat, msgs: Seq<ChatMessage>) -> Seq<ChatMessage>
    decreases msgs.len(),
{
    if msgs.len() == 0 {
        Seq::<ChatMessage>::empty()
    } else {
        buffer_after_append(buffer_after_appends(cap, msgs.drop_last()), cap, msgs.last())
    }
}

/// The suffix of `msgs` holding its last `cap` elements, or all of `msgs` if
/// it has no more than `cap` elements.
pub open spec fn last_up_to(cap: nat, msgs: Seq<ChatMessage>) -> Seq<ChatMessage> {
    if msgs.len() <= cap {
        msgs
    } else {
        msgs.skip(msgs.len() - cap)
    }
}

/// Law: after any sequence of appends into an initially empty buffer of
/// capacity `cap`, the buffer never holds more than `cap` messages, and it
/// holds exactly the last `cap` appended messages in insertion order.
pub proof fn lemma_buffer_retains_recent(cap: nat, msgs: Seq<ChatMessage>)
    ensures
        buffer_after_appends(cap, msgs).len() <= cap,
        buffer_after_appends(cap, msgs) == last_up_to(cap, msgs),
    decreases msgs.len(),
{
    if msgs.len() > 0 {
        lemma_buffer_retains_recent(cap, msgs.drop_last());
        assert(msgs.drop_last().push(msgs.last()) =~= msgs);
    }
    assert(buffer_after_appends(cap, msgs) =~= last_up_to(cap, msgs));
}

/// A fixed-capacity ordered store of normalized messages: oldest first,
/// mutated only by appending at the newest end with FIFO eviction.
#[derive(Debug)]
pub struct ChatHistory {
    pub messages: VecDeque<ChatMessage>,
    pub max_size: usize,
}

impl ChatHistory {
    /// The buffer never holds more messages than its capacity.
    pub open spec fn wf(&self) -> bool {
        self.messages@.len() <= self.max_size
    }

    /// Creates an empty buffer of capacity `max_size`.
    pub fn new(max_size: usize) -> (r: Self)
        ensures
            r.wf(),
            r.max_size == max_size,
            r.messages@ == Seq::<ChatMessage>::empty(),
    {
        Self { messages: VecDeque::with_capacity(max_size), max_size }
    }

    /// Appends `message` at the newest end, evicting the oldest entry first
    /// when the buffer is full.
    pub fn add_message(&mut self, message: ChatMessage)
        requires
            old(self).wf(),
        ensures
            final(self).wf(),
            final(self).max_size == old(self).max_size,
            final(self).messages@ == buffer_after_append(
                old(self).messages@,
                old(self).max_size as nat,
                message,
            ),
    {
        if self.max_size == 0 {
            return ;
        }
        if self.messages.len() >= self.max_size {
            self.messages.pop_front();
        }
        self.messages.push_back(message);
    }

    /// Returns all currently held messages, oldest first, without mutating
    /// the buffer.
    pub fn get_messages(&self) -> (r: Vec<ChatMessage>)
        ensures
            r@.len() == self.messages@.len(),
            forall|i: int| 0 <= i < r@.len() ==> #[trigger] r@[i]@ == self.messages@[i]@,
    {
        let mut r: Vec<ChatMessage> = Vec::new();
        let mut i: usize = 0;
        while i < self.messages.len()
            invariant
                i <= self.messages@.len(),
                r@.len() == i,
                forall|j: int| 0 <= j < i ==> #[trigger] r@[j]@ == self.messages@[j]@,
            decreases self.messages@.len() - i,
        {
            r.push(self.messages[i].clone());
            i = i + 1;
        }
        r
    }
}

} // verus!
