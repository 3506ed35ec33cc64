//! Presentation-side view state over a list of normalized messages.

use vstd::prelude::*;

use crate::message::ChatMessage;

verus! {

/// The state a presentation layer keeps while it loads and shows a chat:
/// the records shown so far, whether a load is in flight, the last error
/// text, the chat being shown, and whether older history may remain.
#[derive(Debug)]
pub struct ChatState {
    pub messages: Vec<ChatMessage>,
    pub loading: bool,
    pub error: Option<String>,
    pub chat_id: Option<i64>,
    pub has_more_history: bool,
}

impl Default for ChatState {
    /// The initial state: nothing shown, nothing in flight, no error, no
    /// chat chosen, and history still assumed available.
    fn default() -> (r: Self)
        ensures
            r.messages@ == Seq::<ChatMessage>::empty(),
            !r.loading,
            r.error is None,
            r.chat_id is None,
            r.has_more_history,
    {
        Self {
            messages: Vec::new(),
            loading: false,
            error: Option::None,
            chat_id: Option::None,
            has_more_history: true,
        }
    }
}

} // verus!
