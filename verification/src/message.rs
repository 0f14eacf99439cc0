//! The messages of a dialogue.

use crate::json::{member_views, object_value, text_value, Json, JsonView};
use vstd::prelude::*;

verus! {

/// Who wrote a message.
#[derive(Debug, Clone, Copy, PartialEq, Eq, Structural)]
pub enum MessageType {
    ASSISTANT,
    SYSTEM,
    USER,
}

impl MessageType {
    /// The role's name as the completion service spells it.
    pub open spec fn name(self) -> Seq<char> {
        match self {
            MessageType::ASSISTANT => "assistant"@,
            MessageType::SYSTEM => "system"@,
            MessageType::USER => "user"@,
        }
    }

    /// The prefix under which a message of this role is shown.
    pub open spec fn label(self) -> Seq<char> {
        match self {
            MessageType::ASSISTANT => "Néo AI: "@,
            MessageType::SYSTEM => "System: "@,
            MessageType::USER => "You: "@,
        }
    }

    /// The role's name as the completion service spells it.
    pub fn to_string(&self) -> (r: String)
        ensures
            r@ == self.name(),
    {
        match self {
            MessageType::ASSISTANT => "assistant".to_owned(),
            MessageType::SYSTEM => "system".to_owned(),
            MessageType::USER => "user".to_owned(),
        }
    }
}

/// One message of a dialogue: who wrote it, and what.
#[derive(Debug, PartialEq, Eq)]
pub struct Message {
    pub role: MessageType,
    pub content: String,
}

/// The mathematical value of a `Message`.
pub ghost struct MessageView {
    pub role: MessageType,
    pub content: Seq<char>,
}

impl View for Message {
    type V = MessageView;

    open spec fn view(&self) -> MessageView {
        MessageView { role: self.role, content: self.content@ }
    }
}

impl DeepView for Message {
    type V = MessageView;

    open spec fn deep_view(&self) -> MessageView {
        self@
    }
}

impl Clone for Message {
    fn clone(&self) -> (r: Message)
        ensures
            r == *self,
    {
        Message { role: self.role, content: self.content.clone() }
    }
}

impl MessageView {
    /// The message as the completion service reads it: an object with the
    /// members `role` and `content`.
    pub open spec fn json(self) -> JsonView {
        JsonView::Object(
            seq![
                ("role"@, JsonView::Text(self.role.name())),
                ("content"@, JsonView::Text(self.content)),
            ],
        )
    }

    /// The message as it is shown to the user.
    pub open spec fn shown(self) -> Seq<char> {
        self.role.label() + self.content
    }
}

impl Message {
    /// The message of `role` that says `content`.
    pub fn new(role: MessageType, content: String) -> (r: Message)
        ensures
            r.role == role,
            r.content == content,
    {
        Message { role, content }
    }

    /// An empty message of the user.
    pub fn default() -> (r: Message)
        ensures
            r@ == (MessageView { role: MessageType::USER, content: Seq::empty() }),
    {
        Message { role: MessageType::USER, content: String::new() }
    }

    /// The message as it is shown to the user: a prefix that names the
    /// author, then the content.
    pub fn to_string(&self) -> (r: String)
        ensures
            r@ == self@.shown(),
    {
        let mut r = match self.role {
            MessageType::ASSISTANT => "Néo AI: ".to_owned(),
            MessageType::SYSTEM => "System: ".to_owned(),
            MessageType::USER => "You: ".to_owned(),
        };
        r.append(self.content.as_str());
        r
    }

    /// The message as the completion service reads it.
    pub fn to_json(&self) -> (r: Json)
        ensures
            r@ == self@.json(),
    {
        let mut members: Vec<(String, Json)> = Vec::new();
        members.push(("role".to_owned(), Json::Text(self.role.to_string())));
        members.push(("content".to_owned(), text_value(self.content.as_str())));
        assert(member_views(members@) =~= self@.json()->Object_0);
        object_value(members)
    }
}

} // verus!
