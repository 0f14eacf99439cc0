//! The chat handler: the dialogue goes to the chat persona as it stands,
//! followed by the persona's framing.

use crate::llm::{streaming_body, Request, RequestView, LLM};
use crate::message::{Message, MessageType, MessageView};
use vstd::prelude::*;

verus! {

/// What a persona is asked about a dialogue: the dialogue, then the
/// persona's framing as a message of the user.
pub open spec fn framed(messages: Seq<MessageView>, framing: Seq<char>) -> Seq<MessageView> {
    messages.push(MessageView { role: MessageType::USER, content: framing })
}

/// The request that puts the dialogue to the chat persona. The dialogue
/// itself is left as it is: the framing goes into a copy.
pub fn ask_chat(messages: Vec<Message>, chat_llm: &LLM) -> (r: Request)
    ensures
        r@ == (RequestView {
            url: chat_llm@.url,
            body: streaming_body(
                chat_llm@.model,
                framed(messages.deep_view(), chat_llm@.system_prompt),
            ),
        }),
{
    let mut messages = messages;
    let ghost before = messages.deep_view();
    messages.push(Message::new(MessageType::USER, chat_llm.system_prompt.clone()));
    assert(messages.deep_view() =~= framed(before, chat_llm@.system_prompt));
    chat_llm.ask(&messages)
}

} // verus!
