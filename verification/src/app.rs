//! The orchestrator: one dialogue, and the turns that extend it.
//!
//! A turn begins with the user's message, goes on with the category that
//! the categorizer gives it and with the handler that the category selects,
//! and ends with the handler's reply, or with the failure that took its
//! place. `App` holds the dialogue and the phase of the turn. It performs
//! no request itself: each step names the request to perform next, and
//! takes the outcome of the one before.

use crate::chat::{ask_chat, framed};
use crate::json::JsonView;
use crate::llm::{
    first_argument, streaming_body, tool_body, AskError, AskErrorView, LLMView, Request,
    RequestView, ToolCallResult, LLM,
};
use crate::message::{Message, MessageType, MessageView};
use crate::resume::resume_conv;
use crate::text::{same_text, unwrap_text, unwrapped};
use vstd::prelude::*;

verus! {

/// The handlers that can answer a turn.
#[derive(Debug, Clone, Copy, PartialEq, Eq, Structural)]
pub enum Handler {
    Chat,
    Resume,
    Wikipedia,
}

/// The handler that a category selects: `resume` and `wikipedia` select
/// their handlers, every other category selects the chat handler.
pub open spec fn handler_for(category: Seq<char>) -> Handler {
    if category == "resume"@ {
        Handler::Resume
    } else if category == "wikipedia"@ {
        Handler::Wikipedia
    } else {
        Handler::Chat
    }
}

/// Selects the handler of a category. A category that the table does not
/// hold is no error: it goes to the chat handler.
pub fn route(category: &str) -> (r: Handler)
    ensures
        r == handler_for(category@),
{
    if same_text(category, "resume") {
        Handler::Resume
    } else if same_text(category, "wikipedia") {
        Handler::Wikipedia
    } else {
        Handler::Chat
    }
}

/// The category that a categorization returned, or why it returned none:
/// the string at the argument `category` of the first call, without the
/// double quotes and white space around it.
///
/// No argument of that name is a `MissingField` error; one that is no
/// string is a `Protocol` error. The category is not held against the
/// categories that exist.
pub open spec fn category_outcome(calls: Seq<JsonView>) -> Result<Seq<char>, AskErrorView> {
    match first_argument(calls, "category"@) {
        Some(JsonView::Text(raw)) => Ok(unwrapped(raw)),
        Some(_) => Err(AskErrorView::Protocol),
        None => Err(AskErrorView::MissingField("category"@)),
    }
}

/// Reads the category out of the result of a categorization.
pub fn category_of(calls: &ToolCallResult) -> (r: Result<String, AskError>)
    ensures
        match r {
            Ok(category) => category_outcome(calls@) == Ok::<Seq<char>, AskErrorView>(category@),
            Err(e) => category_outcome(calls@) == Err::<Seq<char>, AskErrorView>(e@),
        },
{
    match calls.argument("category") {
        Some(value) => match value.as_text() {
            Some(raw) => Ok(unwrap_text(raw.as_str())),
            None => Err(AskError::Protocol),
        },
        None => Err(AskError::MissingField("category".to_owned())),
    }
}

/// The phase of a turn.
///
/// Between `Categorizing` and `Handling` the category is mapped to its
/// handler. That takes no request, so the orchestrator never rests there:
/// `categorize_ask` goes through it.
#[derive(Debug, Clone, Copy, PartialEq, Eq, Structural)]
pub enum Phase {
    /// No turn is under way.
    Idle,
    /// The categorizer was asked.
    Categorizing,
    /// The handler was asked.
    Handling(Handler),
}

/// What the caller does next.
#[derive(Debug, PartialEq, Eq)]
pub enum AppAction {
    /// Send this tool-call request to the categorizer and hand its outcome
    /// to `categorize_ask`.
    Categorize(Request),
    /// Send this streaming request and hand the reply to `answer`.
    Ask(Request),
    /// Run the encyclopedia handler on the dialogue and hand its reply to
    /// `answer`.
    AskWiki,
    /// Nothing: no request is open.
    Wait,
}

/// The mathematical value of an `AppAction`.
pub ghost enum AppActionView {
    Categorize(RequestView),
    Ask(RequestView),
    AskWiki,
    Wait,
}

impl View for AppAction {
    type V = AppActionView;

    open spec fn view(&self) -> AppActionView {
        match self {
            AppAction::Categorize(request) => AppActionView::Categorize(request@),
            AppAction::Ask(request) => AppActionView::Ask(request@),
            AppAction::AskWiki => AppActionView::AskWiki,
            AppAction::Wait => AppActionView::Wait,
        }
    }
}

/// The orchestrator of one dialogue.
#[derive(Debug, PartialEq, Eq)]
pub struct App {
    messages: Vec<Message>,
    phase: Phase,
    categorize_llm: LLM,
    chat_llm: LLM,
    resume_llm: LLM,
}

/// The mathematical value of an `App`.
pub ghost struct AppView {
    /// The dialogue.
    pub messages: Seq<MessageView>,
    pub phase: Phase,
    pub categorize_llm: LLMView,
    pub chat_llm: LLMView,
    pub resume_llm: LLMView,
}

impl View for App {
    type V = AppView;

    closed spec fn view(&self) -> AppView {
        AppView {
            messages: self.messages.deep_view(),
            phase: self.phase,
            categorize_llm: self.categorize_llm@,
            chat_llm: self.chat_llm@,
            resume_llm: self.resume_llm@,
        }
    }
}

/// The outcome of a categorization, as a value.
pub open spec fn calls_view(outcome: Result<ToolCallResult, AskError>) -> Result<
    Seq<JsonView>,
    AskErrorView,
> {
    match outcome {
        Ok(calls) => Ok(calls@),
        Err(error) => Err(error@),
    }
}

/// The outcome of a handler, as a value.
pub open spec fn reply_view(outcome: Result<String, AskError>) -> Result<Seq<char>, AskErrorView> {
    match outcome {
        Ok(text) => Ok(text@),
        Err(error) => Err(error@),
    }
}

impl AppView {
    /// A dialogue that holds the categorizer's system prompt and nothing
    /// else, with no turn under way.
    pub open spec fn start(categorize_llm: LLMView, chat_llm: LLMView, resume_llm: LLMView) -> AppView {
        AppView {
            messages: seq![
                MessageView { role: MessageType::SYSTEM, content: categorize_llm.system_prompt },
            ],
            phase: Phase::Idle,
            categorize_llm,
            chat_llm,
            resume_llm,
        }
    }

    /// The orchestrator with one more message and in the given phase.
    pub open spec fn says(self, role: MessageType, content: Seq<char>, phase: Phase) -> AppView {
        AppView { messages: self.messages.push(MessageView { role, content }), phase, ..self }
    }

    /// The request that puts the dialogue to the categorizer.
    pub open spec fn categorization(self) -> AppActionView {
        AppActionView::Categorize(
            RequestView {
                url: self.categorize_llm.url,
                body: tool_body(
                    self.categorize_llm.model,
                    self.messages,
                    self.categorize_llm.tools,
                ),
            },
        )
    }

    /// What asks `handler` for the reply to the dialogue.
    pub open spec fn request_of(self, handler: Handler) -> AppActionView {
        match handler {
            Handler::Chat => AppActionView::Ask(
                RequestView {
                    url: self.chat_llm.url,
                    body: streaming_body(
                        self.chat_llm.model,
                        framed(self.messages, self.chat_llm.system_prompt),
                    ),
                },
            ),
            Handler::Resume => AppActionView::Ask(
                RequestView {
                    url: self.resume_llm.url,
                    body: streaming_body(
                        self.resume_llm.model,
                        framed(self.messages, self.resume_llm.system_prompt),
                    ),
                },
            ),
            Handler::Wikipedia => AppActionView::AskWiki,
        }
    }

    /// The user's message opens a turn: it joins the dialogue, and the
    /// categorizer is asked. While a turn is under way, nothing happens.
    pub open spec fn send_message(self, content: Seq<char>) -> (AppView, AppActionView) {
        if self.phase is Idle {
            let next = self.says(MessageType::USER, content, Phase::Categorizing);
            (next, next.categorization())
        } else {
            (self, AppActionView::Wait)
        }
    }

    /// The turn goes to the handler of `mode`.
    pub open spec fn ask(self, mode: Seq<char>) -> (AppView, AppActionView) {
        let handler = handler_for(mode);
        (AppView { phase: Phase::Handling(handler), ..self }, self.request_of(handler))
    }

    /// The turn ends with `error` in the place of a reply.
    pub open spec fn fails(self, error: AskErrorView) -> (AppView, AppActionView) {
        (self.says(MessageType::ASSISTANT, error.description(), Phase::Idle), AppActionView::Wait)
    }

    /// The outcome of the categorization: a category sends the turn to its
    /// handler, a failure ends the turn with its description as the
    /// assistant's message. While the categorizer was not asked, nothing
    /// happens.
    pub open spec fn categorize_ask(self, outcome: Result<Seq<JsonView>, AskErrorView>) -> (
        AppView,
        AppActionView,
    ) {
        if self.phase is Categorizing {
            match outcome {
                Ok(calls) => match category_outcome(calls) {
                    Ok(category) => self.ask(category),
                    Err(error) => self.fails(error),
                },
                Err(error) => self.fails(error),
            }
        } else {
            (self, AppActionView::Wait)
        }
    }

    /// The outcome of the handler ends the turn: the reply, or the
    /// description of the failure, joins the dialogue as the assistant's
    /// message. While no handler was asked, nothing happens.
    pub open spec fn answer(self, outcome: Result<Seq<char>, AskErrorView>) -> AppView {
        if self.phase is Handling {
            self.says(
                MessageType::ASSISTANT,
                match outcome {
                    Ok(text) => text,
                    Err(error) => error.description(),
                },
                Phase::Idle,
            )
        } else {
            self
        }
    }

    /// The user asks for a summary: the resume persona's prompt joins the
    /// dialogue as the user's message, and the dialogue goes to the resume
    /// persona as it then stands. While a turn is under way, nothing
    /// happens.
    pub open spec fn resume_conv(self) -> (AppView, AppActionView) {
        if self.phase is Idle {
            let next = self.says(
                MessageType::USER,
                self.resume_llm.system_prompt,
                Phase::Handling(Handler::Resume),
            );
            (
                next,
                AppActionView::Ask(
                    RequestView {
                        url: self.resume_llm.url,
                        body: streaming_body(self.resume_llm.model, next.messages),
                    },
                ),
            )
        } else {
            (self, AppActionView::Wait)
        }
    }
}

/// A copy of the messages.
pub fn copy_messages(messages: &Vec<Message>) -> (r: Vec<Message>)
    ensures
        r@ == messages@,
{
    let mut r: Vec<Message> = Vec::new();
    let mut i: usize = 0;
    while i < messages.len()
        invariant
            i <= messages.len(),
            r@ == messages@.take(i as int),
        decreases messages.len() - i,
    {
        r.push(messages[i].clone());
        i = i + 1;
    }
    r
}

impl App {
    /// An orchestrator with the three personas it needs. The dialogue
    /// begins with the categorizer's system prompt.
    pub fn new(categorize_llm: LLM, chat_llm: LLM, resume_llm: LLM) -> (r: App)
        ensures
            r@ == AppView::start(categorize_llm@, chat_llm@, resume_llm@),
    {
        let mut messages: Vec<Message> = Vec::new();
        messages.push(Message::new(MessageType::SYSTEM, categorize_llm.system_prompt.clone()));
        assert(messages.deep_view() =~= AppView::start(
            categorize_llm@,
            chat_llm@,
            resume_llm@,
        ).messages);
        App { messages, phase: Phase::Idle, categorize_llm, chat_llm, resume_llm }
    }

    /// The dialogue.
    pub fn messages(&self) -> (r: &Vec<Message>)
        ensures
            r.deep_view() == self@.messages,
    {
        &self.messages
    }

    /// The phase of the turn.
    pub fn phase(&self) -> (r: Phase)
        ensures
            r == self@.phase,
    {
        self.phase
    }

    /// Adds a message to the dialogue.
    fn append_message(&mut self, msg: String, role: MessageType)
        ensures
            final(self)@ == old(self)@.says(role, msg@, old(self)@.phase),
    {
        let ghost before = self.messages.deep_view();
        let message = Message::new(role, msg);
        self.messages.push(message);
        assert(self.messages.deep_view() =~= before.push(
            MessageView { role, content: msg@ },
        ));
    }

    /// Sends the turn to the handler of `mode`.
    fn ask(&mut self, mode: &str) -> (action: AppAction)
        ensures
            (final(self)@, action@) == old(self)@.ask(mode@),
    {
        let handler = route(mode);
        self.phase = Phase::Handling(handler);
        match handler {
            Handler::Chat => AppAction::Ask(
                ask_chat(copy_messages(&self.messages), &self.chat_llm),
            ),
            Handler::Resume => AppAction::Ask(
                resume_conv(copy_messages(&self.messages), &self.resume_llm),
            ),
            Handler::Wikipedia => AppAction::AskWiki,
        }
    }

    /// Ends the turn with `error` in the place of a reply.
    fn fail(&mut self, error: AskError) -> (action: AppAction)
        ensures
            (final(self)@, action@) == old(self)@.fails(error@),
    {
        self.append_message(error.to_string(), MessageType::ASSISTANT);
        self.phase = Phase::Idle;
        AppAction::Wait
    }

    /// Takes the user's message and opens a turn with it.
    pub fn send_message(&mut self, content: String) -> (action: AppAction)
        ensures
            (final(self)@, action@) == old(self)@.send_message(content@),
    {
        match self.phase {
            Phase::Idle => {
                self.append_message(content, MessageType::USER);
                self.phase = Phase::Categorizing;
                AppAction::Categorize(self.categorize_llm.ask_tools(&self.messages))
            },
            _ => AppAction::Wait,
        }
    }

    /// Takes the outcome of the categorization and sends the turn on.
    pub fn categorize_ask(&mut self, outcome: Result<ToolCallResult, AskError>) -> (action:
        AppAction)
        ensures
            (final(self)@, action@) == old(self)@.categorize_ask(calls_view(outcome)),
    {
        match self.phase {
            Phase::Categorizing => match outcome {
                Ok(calls) => match category_of(&calls) {
                    Ok(category) => self.ask(category.as_str()),
                    Err(error) => self.fail(error),
                },
                Err(error) => self.fail(error),
            },
            _ => AppAction::Wait,
        }
    }

    /// Takes the outcome of the handler and ends the turn with it.
    pub fn answer(&mut self, outcome: Result<String, AskError>)
        ensures
            final(self)@ == old(self)@.answer(reply_view(outcome)),
    {
        match self.phase {
            Phase::Handling(_) => {
                let text = match outcome {
                    Ok(text) => text,
                    Err(error) => error.to_string(),
                };
                self.append_message(text, MessageType::ASSISTANT);
                self.phase = Phase::Idle;
            },
            _ => {},
        }
    }

    /// Opens a turn that sums the dialogue up.
    pub fn resume_conv(&mut self) -> (action: AppAction)
        ensures
            (final(self)@, action@) == old(self)@.resume_conv(),
    {
        match self.phase {
            Phase::Idle => {
                self.append_message(self.resume_llm.system_prompt.clone(), MessageType::USER);
                self.phase = Phase::Handling(Handler::Resume);
                AppAction::Ask(self.resume_llm.ask(&self.messages))
            },
            _ => AppAction::Wait,
        }
    }
}

/// A category that the dispatch table does not hold goes to the chat
/// handler.
pub proof fn lemma_unknown_category_goes_to_chat(category: Seq<char>)
    requires
        category != "resume"@,
        category != "wikipedia"@,
    ensures
        handler_for(category) == Handler::Chat,
{
}

/// Whatever the categorizer returns, the turn goes on: to a handler, or to
/// its end with the failure as the reply. No category is an error.
pub proof fn lemma_every_category_is_routed(app: AppView, calls: Seq<JsonView>)
    requires
        app.phase is Categorizing,
        category_outcome(calls) is Ok,
    ensures
        app.categorize_ask(Ok(calls)).0.phase == Phase::Handling(
            handler_for(category_outcome(calls)->Ok_0),
        ),
        app.categorize_ask(Ok(calls)).0.messages == app.messages,
{
}

/// The dialogue only grows: whatever happens, the messages that were there
/// stay, in their order, at the start of the dialogue.
pub proof fn lemma_dialogue_only_grows(
    app: AppView,
    content: Seq<char>,
    categorized: Result<Seq<JsonView>, AskErrorView>,
    replied: Result<Seq<char>, AskErrorView>,
)
    ensures
        app.messages.is_prefix_of(app.send_message(content).0.messages),
        app.messages.is_prefix_of(app.categorize_ask(categorized).0.messages),
        app.messages.is_prefix_of(app.answer(replied).messages),
        app.messages.is_prefix_of(app.resume_conv().0.messages),
{
}

/// While a turn is under way, a new message of the user is not taken: the
/// orchestrator stays as it is and names no request.
pub proof fn lemma_one_turn_at_a_time(app: AppView, content: Seq<char>)
    requires
        !(app.phase is Idle),
    ensures
        app.send_message(content) == (app, AppActionView::Wait),
        app.resume_conv() == (app, AppActionView::Wait),
{
}

/// The dialogue after a whole turn, from the user's message to the end:
/// the turn ends with the categorization where that fails, else with the
/// handler's outcome.
pub open spec fn after_turn(
    app: AppView,
    content: Seq<char>,
    categorized: Result<Seq<JsonView>, AskErrorView>,
    replied: Result<Seq<char>, AskErrorView>,
) -> AppView {
    let routed = app.send_message(content).0.categorize_ask(categorized).0;
    if routed.phase is Idle {
        routed
    } else {
        routed.answer(replied)
    }
}

/// A turn adds exactly two messages to the dialogue, the user's and then
/// the assistant's, whatever the categorizer and the handler return and
/// however many requests the handler makes on the way; and it leaves the
/// orchestrator ready for the next turn.
pub proof fn lemma_turn_adds_two(
    app: AppView,
    content: Seq<char>,
    categorized: Result<Seq<JsonView>, AskErrorView>,
    replied: Result<Seq<char>, AskErrorView>,
)
    requires
        app.phase is Idle,
    ensures
        ({
            let done = after_turn(app, content, categorized, replied);
            let n = app.messages.len() as int;
            &&& done.phase is Idle
            &&& done.messages.len() == n + 2
            &&& done.messages.take(n) == app.messages
            &&& done.messages[n] == (MessageView { role: MessageType::USER, content })
            &&& done.messages[n + 1].role == MessageType::ASSISTANT
        }),
{
}

/// The assistant's message at the end of a turn: the handler's reply where
/// both the categorizer and the handler succeed, else the description of
/// the first failure.
pub proof fn lemma_turn_reply(
    app: AppView,
    content: Seq<char>,
    categorized: Result<Seq<JsonView>, AskErrorView>,
    replied: Result<Seq<char>, AskErrorView>,
)
    requires
        app.phase is Idle,
    ensures
        after_turn(app, content, categorized, replied).messages.last().content == match categorized {
            Err(error) => error.description(),
            Ok(calls) => match category_outcome(calls) {
                Err(error) => error.description(),
                Ok(_) => match replied {
                    Ok(text) => text,
                    Err(error) => error.description(),
                },
            },
        },
{
}

/// A summary takes a turn of its own: it adds the resume persona's prompt
/// as the user's message, then the assistant's message.
pub proof fn lemma_summary_adds_two(app: AppView, replied: Result<Seq<char>, AskErrorView>)
    requires
        app.phase is Idle,
    ensures
        ({
            let done = app.resume_conv().0.answer(replied);
            let n = app.messages.len() as int;
            &&& done.phase is Idle
            &&& done.messages.len() == n + 2
            &&& done.messages.take(n) == app.messages
            &&& done.messages[n] == (MessageView {
                role: MessageType::USER,
                content: app.resume_llm.system_prompt,
            })
            &&& done.messages[n + 1].role == MessageType::ASSISTANT
        }),
{
}

} // verus!
