//! The resume handler: the dialogue goes to the resume persona, which sums
//! it up instead of answering its last message.

use crate::chat::framed;
use crate::llm::{streaming_body, Request, RequestView, LLM};
use crate::message::{Message, MessageType};
use vstd::prelude::*;

verus! {

/// The request that puts the dialogue to the resume persona. The dialogue
/// itself is left as it is: the framing goes into a copy.
pub fn resume_conv(messages: Vec<Message>, resume_llm: &LLM) -> (r: Request)
    ensures
        r@ == (RequestView {
            url: resume_llm@.url,
            body: streaming_body(
                resume_llm@.model,
                framed(messages.deep_view(), resume_llm@.system_prompt),
            ),
        }),
{
    let mut messages = messages;
    let ghost before = messages.deep_view();
    messages.push(Message::new(MessageType::USER, resume_llm.system_prompt.clone()));
    assert(messages.deep_view() =~= framed(before, resume_llm@.system_prompt));
    resume_llm.ask(&messages)
}

} // verus!
