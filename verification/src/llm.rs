//! The wire client: the two requests that a persona sends to its completion
//! endpoint, and the reading of the two kinds of response.
//!
//! Nothing here touches the network. A request is a value that the caller
//! sends; a response is bytes that the caller hands back.

use crate::json::{
    array_value, member_views, object_value, parse, parsed, text_value, views, Json, JsonView,
};
use crate::message::{Message, MessageView};
use crate::text::{decimal, decimal_string};
use vstd::prelude::*;
use vstd::string::StringSliceAdditionalSpecFns;

verus! {

/// Why an exchange with an endpoint failed.
#[derive(Debug, PartialEq, Eq)]
pub enum AskError {
    /// The transport failed; the text is the transport's own account.
    Network(String),
    /// The endpoint answered with a status that is not a success.
    Upstream(u16),
    /// A record of a stream was not valid JSON, or a document had an
    /// unexpected shape.
    Protocol,
    /// A tool-call response held no array at `message.tool_calls`.
    MissingToolCall,
    /// The first tool call held no argument of this name.
    MissingField(String),
}

/// The mathematical value of an `AskError`.
pub ghost enum AskErrorView {
    Network(Seq<char>),
    Upstream(u16),
    Protocol,
    MissingToolCall,
    MissingField(Seq<char>),
}

impl View for AskError {
    type V = AskErrorView;

    open spec fn view(&self) -> AskErrorView {
        match self {
            AskError::Network(detail) => AskErrorView::Network(detail@),
            AskError::Upstream(status) => AskErrorView::Upstream(*status),
            AskError::Protocol => AskErrorView::Protocol,
            AskError::MissingToolCall => AskErrorView::MissingToolCall,
            AskError::MissingField(name) => AskErrorView::MissingField(name@),
        }
    }
}

impl AskErrorView {
    /// The error in words, as the user reads it.
    pub open spec fn description(self) -> Seq<char> {
        match self {
            AskErrorView::Network(detail) => "network error: "@ + detail,
            AskErrorView::Upstream(status) => "upstream error: status "@ + decimal(status as nat),
            AskErrorView::Protocol => "protocol error: malformed response"@,
            AskErrorView::MissingToolCall => "tool_calls not found"@,
            AskErrorView::MissingField(name) => "missing field: "@ + name,
        }
    }
}

impl AskError {
    /// The error in words, as the user reads it.
    pub fn to_string(&self) -> (r: String)
        ensures
            r@ == self@.description(),
    {
        match self {
            AskError::Network(detail) => {
                let mut r = "network error: ".to_owned();
                r.append(detail.as_str());
                r
            },
            AskError::Upstream(status) => {
                let mut r = "upstream error: status ".to_owned();
                let digits = decimal_string(*status);
                r.append(digits.as_str());
                r
            },
            AskError::Protocol => "protocol error: malformed response".to_owned(),
            AskError::MissingToolCall => "tool_calls not found".to_owned(),
            AskError::MissingField(name) => {
                let mut r = "missing field: ".to_owned();
                r.append(name.as_str());
                r
            },
        }
    }
}

impl Clone for AskError {
    fn clone(&self) -> (r: AskError)
        ensures
            r == *self,
    {
        match self {
            AskError::Network(detail) => AskError::Network(detail.clone()),
            AskError::Upstream(status) => AskError::Upstream(*status),
            AskError::Protocol => AskError::Protocol,
            AskError::MissingToolCall => AskError::MissingToolCall,
            AskError::MissingField(name) => AskError::MissingField(name.clone()),
        }
    }
}

/// A status of the success class, 200 to 299.
pub open spec fn is_success(status: u16) -> bool {
    200 <= status <= 299
}

/// Accepts a response by its status: a status outside the success class is
/// an `Upstream` error that carries it.
pub fn check_status(status: u16) -> (r: Result<(), AskError>)
    ensures
        match r {
            Ok(_) => is_success(status),
            Err(e) => !is_success(status) && e@ == AskErrorView::Upstream(status),
        },
{
    if 200 <= status && status <= 299 {
        Ok(())
    } else {
        Err(AskError::Upstream(status))
    }
}

/// A request for the caller to send: `POST` to `url` with `body` as JSON.
#[derive(Debug, PartialEq, Eq)]
pub struct Request {
    pub url: String,
    pub body: Json,
}

/// The mathematical value of a `Request`.
pub ghost struct RequestView {
    pub url: Seq<char>,
    pub body: JsonView,
}

impl View for Request {
    type V = RequestView;

    open spec fn view(&self) -> RequestView {
        RequestView { url: self.url@, body: self.body@ }
    }
}

/// The messages as the completion service reads them, in order.
pub open spec fn messages_json(messages: Seq<MessageView>) -> Seq<JsonView> {
    Seq::new(messages.len(), |i: int| messages[i].json())
}

/// The body of a streaming completion request.
pub open spec fn streaming_body(model: Seq<char>, messages: Seq<MessageView>) -> JsonView {
    JsonView::Object(
        seq![
            ("model"@, JsonView::Text(model)),
            ("messages"@, JsonView::Array(messages_json(messages))),
            ("stream"@, JsonView::Bool(true)),
        ],
    )
}

/// The body of a tool-call request.
pub open spec fn tool_body(
    model: Seq<char>,
    messages: Seq<MessageView>,
    tools: JsonView,
) -> JsonView {
    JsonView::Object(
        seq![
            ("model"@, JsonView::Text(model)),
            ("messages"@, JsonView::Array(messages_json(messages))),
            ("stream"@, JsonView::Bool(false)),
            ("tools"@, tools),
        ],
    )
}

/// Writes the messages as the completion service reads them.
pub fn messages_to_json(messages: &Vec<Message>) -> (r: Json)
    ensures
        r@ == JsonView::Array(messages_json(messages.deep_view())),
{
    let mut items: Vec<Json> = Vec::new();
    let mut i: usize = 0;
    while i < messages.len()
        invariant
            i <= messages.len(),
            items.len() == i,
            forall|k: int| 0 <= k < i ==> items[k]@ == messages[k]@.json(),
        decreases messages.len() - i,
    {
        items.push(messages[i].to_json());
        i = i + 1;
    }
    assert(views(items@) =~= messages_json(messages.deep_view()));
    array_value(items)
}

/// A persona: the endpoint, the model, the system prompt and the tool schema
/// that serve one role of the pipeline.
#[derive(Debug, PartialEq, Eq)]
pub struct LLM {
    pub url: String,
    pub model: String,
    pub system_prompt: String,
    pub tools: Json,
}

/// The mathematical value of an `LLM`.
pub ghost struct LLMView {
    pub url: Seq<char>,
    pub model: Seq<char>,
    pub system_prompt: Seq<char>,
    pub tools: JsonView,
}

impl View for LLM {
    type V = LLMView;

    open spec fn view(&self) -> LLMView {
        LLMView {
            url: self.url@,
            model: self.model@,
            system_prompt: self.system_prompt@,
            tools: self.tools@,
        }
    }
}

/// The string at member `key` of `document`.
pub open spec fn text_member(document: JsonView, key: Seq<char>) -> Option<Seq<char>> {
    match document.get(key) {
        Some(value) => value.text(),
        None => None,
    }
}

/// The persona that a configuration document describes: `url`, `model` and
/// `system_prompt` are strings; `tools` is any value, `null` where the
/// document has none.
pub open spec fn persona_of(document: JsonView) -> Option<LLMView> {
    if text_member(document, "url"@) is Some && text_member(document, "model"@) is Some
        && text_member(document, "system_prompt"@) is Some {
        Some(
            LLMView {
                url: text_member(document, "url"@)->0,
                model: text_member(document, "model"@)->0,
                system_prompt: text_member(document, "system_prompt"@)->0,
                tools: match document.get("tools"@) {
                    Some(tools) => tools,
                    None => JsonView::Null,
                },
            },
        )
    } else {
        None
    }
}

/// The persona that a configuration text describes; `None` where the text
/// is not JSON or the document lacks a member.
pub open spec fn persona_of_text(config: Seq<u8>) -> Option<LLMView> {
    match parsed(config) {
        Some(document) => persona_of(document),
        None => None,
    }
}

/// A copy of the string at member `key` of `document`.
pub fn copy_text_member(document: &Json, key: &str) -> (r: Option<String>)
    ensures
        match r {
            Some(s) => text_member(document@, key@) == Some(s@),
            None => text_member(document@, key@) is None,
        },
{
    match document.get(key) {
        Some(value) => match value.as_text() {
            Some(s) => Some(s.clone()),
            None => None,
        },
        None => None,
    }
}

impl LLM {
    /// Reads a persona from the text of its configuration.
    pub fn new(config: &str) -> (r: Option<LLM>)
        ensures
            match r {
                Some(llm) => persona_of_text(config.spec_bytes()) == Some(llm@),
                None => persona_of_text(config.spec_bytes()) is None,
            },
    {
        match parse(config.as_bytes()) {
            Some(document) => LLM::from_json(&document),
            None => None,
        }
    }

    /// Reads a persona from its configuration document.
    pub fn from_json(document: &Json) -> (r: Option<LLM>)
        ensures
            match r {
                Some(llm) => persona_of(document@) == Some(llm@),
                None => persona_of(document@) is None,
            },
    {
        let url = copy_text_member(document, "url");
        let model = copy_text_member(document, "model");
        let system_prompt = copy_text_member(document, "system_prompt");
        match (url, model, system_prompt) {
            (Some(url), Some(model), Some(system_prompt)) => {
                let tools = match document.get("tools") {
                    Some(tools) => tools.clone(),
                    None => Json::Null,
                };
                Some(LLM { url, model, system_prompt, tools })
            },
            _ => None,
        }
    }

    /// The streaming completion request that puts `messages` to the persona.
    pub fn ask(&self, messages: &Vec<Message>) -> (r: Request)
        ensures
            r@ == (RequestView {
                url: self@.url,
                body: streaming_body(self@.model, messages.deep_view()),
            }),
    {
        let mut members: Vec<(String, Json)> = Vec::new();
        members.push(("model".to_owned(), text_value(self.model.as_str())));
        members.push(("messages".to_owned(), messages_to_json(messages)));
        members.push(("stream".to_owned(), Json::Bool(true)));
        assert(member_views(members@) =~= streaming_body(
            self@.model,
            messages.deep_view(),
        )->Object_0);
        Request { url: self.url.clone(), body: object_value(members) }
    }

    /// The tool-call request that puts `messages` to the persona, with the
    /// persona's tool schema.
    pub fn ask_tools(&self, messages: &Vec<Message>) -> (r: Request)
        ensures
            r@ == (RequestView {
                url: self@.url,
                body: tool_body(self@.model, messages.deep_view(), self@.tools),
            }),
    {
        let mut members: Vec<(String, Json)> = Vec::new();
        members.push(("model".to_owned(), text_value(self.model.as_str())));
        members.push(("messages".to_owned(), messages_to_json(messages)));
        members.push(("stream".to_owned(), Json::Bool(false)));
        members.push(("tools".to_owned(), self.tools.clone()));
        assert(member_views(members@) =~= tool_body(
            self@.model,
            messages.deep_view(),
            self@.tools,
        )->Object_0);
        Request { url: self.url.clone(), body: object_value(members) }
    }
}

impl Clone for LLM {
    fn clone(&self) -> (r: LLM)
        ensures
            r@ == self@,
    {
        LLM {
            url: self.url.clone(),
            model: self.model.clone(),
            system_prompt: self.system_prompt.clone(),
            tools: self.tools.clone(),
        }
    }
}

/// The member `inner` of the member `outer` of `document`.
pub open spec fn nested(document: JsonView, outer: Seq<char>, inner: Seq<char>) -> Option<
    JsonView,
> {
    match document.get(outer) {
        Some(value) => value.get(inner),
        None => None,
    }
}

/// Whether a record of a stream ends it: its member `done` is `true`.
pub open spec fn record_done(record: JsonView) -> bool {
    record.get("done"@) == Some(JsonView::Bool(true))
}

/// The text that a record of a stream carries: the string at
/// `message.content`, and nothing where the record has none.
pub open spec fn record_fragment(record: JsonView) -> Seq<char> {
    match nested(record, "message"@, "content"@) {
        Some(JsonView::Text(fragment)) => fragment,
        _ => Seq::empty(),
    }
}

/// A streamed reply under assembly: the text received so far, and whether
/// the record that ends the stream was seen.
#[derive(Debug, PartialEq, Eq)]
pub struct Completion {
    text: String,
    done: bool,
}

/// The mathematical value of a `Completion`.
pub ghost struct CompletionView {
    pub text: Seq<char>,
    pub done: bool,
}

impl CompletionView {
    /// The reply before any record.
    pub open spec fn start() -> CompletionView {
        CompletionView { text: Seq::empty(), done: false }
    }

    /// The reply after one more record. A record that ends the stream adds
    /// nothing; after it, no record changes the reply.
    pub open spec fn after(self, record: JsonView) -> CompletionView {
        if self.done {
            self
        } else if record_done(record) {
            CompletionView { text: self.text, done: true }
        } else {
            CompletionView { text: self.text + record_fragment(record), done: false }
        }
    }

    /// The reply after one more chunk, which is one record as JSON text;
    /// `None` where the chunk is not valid JSON. Once the stream has ended,
    /// a chunk is not read.
    pub open spec fn after_chunk(self, chunk: Seq<u8>) -> Option<CompletionView> {
        if self.done {
            Some(self)
        } else {
            match parsed(chunk) {
                Some(record) => Some(self.after(record)),
                None => None,
            }
        }
    }

    /// The reply after the chunks of a stream, in order; `None` where one of
    /// them is read and is not valid JSON.
    pub open spec fn fed(self, chunks: Seq<Seq<u8>>) -> Option<CompletionView>
        decreases chunks.len(),
    {
        if chunks.len() == 0 {
            Some(self)
        } else {
            match self.after_chunk(chunks[0]) {
                Some(next) => next.fed(chunks.drop_first()),
                None => None,
            }
        }
    }

    /// Once the stream has ended, further chunks change nothing.
    pub proof fn lemma_done_is_final(self, chunks: Seq<Seq<u8>>)
        requires
            self.done,
        ensures
            self.fed(chunks) == Some(self),
        decreases chunks.len(),
    {
        if chunks.len() > 0 {
            self.lemma_done_is_final(chunks.drop_first());
        }
    }
}

/// The text of a reply only grows: a record adds its fragment at the end,
/// or nothing.
pub proof fn lemma_text_only_grows(reply: CompletionView, record: JsonView)
    ensures
        reply.text.is_prefix_of(reply.after(record).text),
        reply.done ==> reply.after(record) == reply,
{
}

/// A record without a string at `message.content` adds no character to the
/// text: only fragments are put together.
pub proof fn lemma_record_without_fragment_adds_nothing(reply: CompletionView, record: JsonView)
    requires
        !(nested(record, "message"@, "content"@) matches Some(JsonView::Text(_))),
    ensures
        reply.after(record).text == reply.text,
{
}

/// A stream can be read in parts: the reply after all chunks is the reply
/// after the later chunks, taken up from the reply after the earlier ones.
pub proof fn lemma_fed_in_parts(
    reply: CompletionView,
    earlier: Seq<Seq<u8>>,
    later: Seq<Seq<u8>>,
)
    ensures
        reply.fed(earlier + later) == match reply.fed(earlier) {
            Some(between) => between.fed(later),
            None => None,
        },
    decreases earlier.len(),
{
    if earlier.len() > 0 {
        assert((earlier + later).drop_first() == earlier.drop_first() + later);
        if let Some(next) = reply.after_chunk(earlier[0]) {
            lemma_fed_in_parts(next, earlier.drop_first(), later);
        }
    }
}

impl View for Completion {
    type V = CompletionView;

    closed spec fn view(&self) -> CompletionView {
        CompletionView { text: self.text@, done: self.done }
    }
}

impl Completion {
    /// The reply before any record.
    pub fn new() -> (r: Completion)
        ensures
            r@ == CompletionView::start(),
    {
        Completion { text: String::new(), done: false }
    }

    /// Takes one record of the stream.
    pub fn accept(&mut self, record: &Json)
        ensures
            final(self)@ == old(self)@.after(record@),
    {
        if self.done {
            return ;
        }
        let ended = match record.get("done") {
            Some(flag) => match flag.as_bool() {
                Some(b) => b,
                None => false,
            },
            None => false,
        };
        if ended {
            self.done = true;
            return ;
        }
        let fragment = match record.get("message") {
            Some(message) => match message.get("content") {
                Some(content) => content.as_text(),
                None => None,
            },
            None => None,
        };
        if let Some(text) = fragment {
            self.text.append(text.as_str());
        }
    }

    /// Takes one chunk of the stream: one record as JSON text.
    ///
    /// A chunk that is not valid JSON is a `Protocol` error and leaves the
    /// reply as it was. Once the stream has ended, chunks are not read.
    pub fn feed(&mut self, chunk: &[u8]) -> (r: Result<(), AskError>)
        ensures
            match r {
                Ok(_) => old(self)@.after_chunk(chunk@) == Some(final(self)@),
                Err(e) => old(self)@.after_chunk(chunk@) is None && e@ == AskErrorView::Protocol
                    && final(self)@ == old(self)@,
            },
    {
        if self.done {
            return Ok(());
        }
        match parse(chunk) {
            Some(record) => {
                self.accept(&record);
                Ok(())
            },
            None => Err(AskError::Protocol),
        }
    }

    /// Whether the record that ends the stream was seen.
    pub fn is_done(&self) -> (r: bool)
        ensures
            r == self@.done,
    {
        self.done
    }

    /// The text received.
    pub fn into_text(self) -> (r: String)
        ensures
            r@ == self@.text,
    {
        self.text
    }
}

/// Reassembles a streamed reply from the chunks of its stream: the
/// fragments of the records, in order of arrival, up to the record that
/// ends the stream or to the last chunk.
///
/// One chunk that is not valid JSON fails the whole reply with `Protocol`.
pub fn complete_streaming(chunks: &Vec<Vec<u8>>) -> (r: Result<String, AskError>)
    ensures
        match r {
            Ok(text) => CompletionView::start().fed(chunks.deep_view()) matches Some(reply)
                && text@ == reply.text,
            Err(e) => CompletionView::start().fed(chunks.deep_view()) is None && e@
                == AskErrorView::Protocol,
        },
{
    let mut reply = Completion::new();
    let mut i: usize = 0;
    let ghost all = chunks.deep_view();
    assert(all.skip(0) == all);
    while i < chunks.len() && !reply.is_done()
        invariant
            i <= chunks.len(),
            all == chunks.deep_view(),
            CompletionView::start().fed(all) == reply@.fed(all.skip(i as int)),
        decreases chunks.len() - i,
    {
        assert(all.skip(i as int).drop_first() == all.skip(i + 1));
        assert(all.skip(i as int)[0] == chunks[i as int]@);
        match reply.feed(chunks[i].as_slice()) {
            Ok(_) => {},
            Err(e) => {
                return Err(e);
            },
        }
        i = i + 1;
    }
    proof {
        if reply@.done {
            reply@.lemma_done_is_final(all.skip(i as int));
        }
    }
    Ok(reply.into_text())
}

/// The decision that a tool-call completion returns: its calls, in order.
/// Each call is the document that the service sent for it, an object with
/// the member `function`, which holds `name` and `arguments`.
#[derive(Debug, PartialEq, Eq)]
pub struct ToolCallResult {
    pub calls: Vec<Json>,
}

impl View for ToolCallResult {
    type V = Seq<JsonView>;

    open spec fn view(&self) -> Seq<JsonView> {
        views(self.calls@)
    }
}

/// The calls of a tool-call response: the elements of the array at
/// `message.tool_calls`.
pub open spec fn tool_calls_of(response: JsonView) -> Option<Seq<JsonView>> {
    match nested(response, "message"@, "tool_calls"@) {
        Some(JsonView::Array(calls)) => Some(calls),
        _ => None,
    }
}

/// The argument `name` of the first of `calls`: the member `name` of its
/// `function.arguments`.
pub open spec fn first_argument(calls: Seq<JsonView>, name: Seq<char>) -> Option<JsonView> {
    if calls.len() == 0 {
        None
    } else {
        match nested(calls[0], "function"@, "arguments"@) {
            Some(arguments) => arguments.get(name),
            None => None,
        }
    }
}

/// The name of the function that the first of `calls` names.
pub open spec fn first_function(calls: Seq<JsonView>) -> Option<Seq<char>> {
    if calls.len() == 0 {
        None
    } else {
        match nested(calls[0], "function"@, "name"@) {
            Some(name) => name.text(),
            None => None,
        }
    }
}

impl ToolCallResult {
    /// The argument `name` of the first call.
    pub fn argument(&self, name: &str) -> (r: Option<&Json>)
        ensures
            match r {
                Some(value) => first_argument(self@, name@) == Some(value@),
                None => first_argument(self@, name@) is None,
            },
    {
        if self.calls.len() == 0 {
            return None;
        }
        match self.calls[0].get("function") {
            Some(function) => match function.get("arguments") {
                Some(arguments) => arguments.get(name),
                None => None,
            },
            None => None,
        }
    }

    /// The name of the function that the first call names.
    pub fn function_name(&self) -> (r: Option<&String>)
        ensures
            match r {
                Some(name) => first_function(self@) == Some(name@),
                None => first_function(self@) is None,
            },
    {
        if self.calls.len() == 0 {
            return None;
        }
        match self.calls[0].get("function") {
            Some(function) => match function.get("name") {
                Some(name) => name.as_text(),
                None => None,
            },
            None => None,
        }
    }
}

/// Reads the calls out of a tool-call response.
///
/// A response without an array at `message.tool_calls` is a
/// `MissingToolCall` error: the model gave no structured answer.
pub fn tool_calls(response: &Json) -> (r: Result<ToolCallResult, AskError>)
    ensures
        match r {
            Ok(result) => tool_calls_of(response@) == Some(result@),
            Err(e) => tool_calls_of(response@) is None && e@ == AskErrorView::MissingToolCall,
        },
{
    let found = match response.get("message") {
        Some(message) => message.get("tool_calls"),
        None => None,
    };
    match found {
        Some(value) => match value.as_array() {
            Some(items) => {
                let mut calls: Vec<Json> = Vec::new();
                let mut i: usize = 0;
                while i < items.len()
                    invariant
                        i <= items.len(),
                        calls.len() == i,
                        forall|k: int| 0 <= k < i ==> calls[k]@ == items[k]@,
                    decreases items.len() - i,
                {
                    calls.push(items[i].clone());
                    i = i + 1;
                }
                Ok(ToolCallResult { calls })
            },
            None => Err(AskError::MissingToolCall),
        },
        None => Err(AskError::MissingToolCall),
    }
}

/// The outcome of a tool-call exchange whose response body was `body`.
pub open spec fn tool_outcome(body: Seq<u8>) -> Result<Seq<JsonView>, AskErrorView> {
    match parsed(body) {
        None => Err(AskErrorView::Protocol),
        Some(response) => match tool_calls_of(response) {
            Some(calls) => Ok(calls),
            None => Err(AskErrorView::MissingToolCall),
        },
    }
}

/// Reads the body of a tool-call response: one JSON document, whose array
/// at `message.tool_calls` is the result.
///
/// A body that is not JSON is a `Protocol` error; a document without that
/// array is a `MissingToolCall` error.
pub fn complete_tool(body: &[u8]) -> (r: Result<ToolCallResult, AskError>)
    ensures
        match r {
            Ok(result) => tool_outcome(body@) == Ok::<Seq<JsonView>, AskErrorView>(result@),
            Err(e) => tool_outcome(body@) == Err::<Seq<JsonView>, AskErrorView>(e@),
        },
{
    match parse(body) {
        Some(response) => tool_calls(&response),
        None => Err(AskError::Protocol),
    }
}

} // verus!
