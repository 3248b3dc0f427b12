//! The conversation state: the append-only ordered list of all messages
//! exchanged so far, created once per invocation and sent in full with
//! every turn. Only the orchestrator mutates it.

use vstd::prelude::*;

use crate::messages::Message;
use crate::messages::MessageView;
use crate::messages::user_message_view;

verus! {

/// The ordered sequence of messages exchanged with the model, seeded with
/// the user's prompt and growing monotonically as turns complete.
pub struct ConversationState {
    messages: Vec<Message>,
}

impl View for ConversationState {
    type V = Seq<MessageView>;

    closed spec fn view(&self) -> Seq<MessageView> {
        self.messages@.map_values(|m: Message| m@)
    }
}

impl ConversationState {
    /// A fresh conversation holding exactly the user's prompt.
    pub fn new(user_prompt: String) -> (r: ConversationState)
        ensures
            r@ == seq![user_message_view(user_prompt@)],
    {
        let mut messages: Vec<Message> = Vec::new();
        messages.push(Message::user(user_prompt));
        let r = ConversationState { messages };
        proof {
            assert(r@ =~= seq![user_message_view(user_prompt@)]);
        }
        r
    }

    /// Appends one message; nothing already recorded changes.
    pub(crate) fn push_message(&mut self, m: Message)
        ensures
            final (self)@ == old(self)@.push(m@),
    {
        let ghost prior = self.messages@;
        self.messages.push(m);
        proof {
            assert(self.messages@.map_values(|x: Message| x@) =~= prior.map_values(
                |x: Message| x@,
            ).push(m@));
        }
    }

    /// How many messages the conversation holds.
    pub fn len(&self) -> (n: usize)
        ensures
            n == self@.len(),
    {
        self.messages.len()
    }

    /// The messages in order, for building the next request.
    pub fn messages(&self) -> (r: &Vec<Message>)
        ensures
            r@.map_values(|m: Message| m@) == self@,
    {
        &self.messages
    }
}

} // verus!
