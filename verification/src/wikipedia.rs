//! The encyclopedia handler: answering a question from an article of an
//! offline mirror.
//!
//! The handler runs in five stages. It asks a model for search queries,
//! searches the mirror for each query in turn, asks a model for the best of
//! the titles found, fetches that article and reduces it to plain text, and
//! asks a model to answer from the text. `WikiAsk` is the state of one such
//! run. It performs no request itself: each step names the request to
//! perform next, and takes the response to the one before.

use crate::html::{article_titles, extract_text_from_tags, extracted, listed_titles, regex_captures, tag_pattern};
use crate::json::{parse, parsed, JsonView};
use crate::llm::{
    copy_text_member, first_argument, streaming_body, text_member, tool_body, AskError,
    AskErrorView, LLMView, Request, RequestView, ToolCallResult, LLM,
};
use crate::message::{Message, MessageType, MessageView};
use crate::text::{join, joined};
use crate::url::{content_address, content_url, search_address, search_url};
use vstd::prelude::*;
use vstd::string::StringSliceAdditionalSpecFns;

verus! {

/// The mirror and the personas that the handler works with.
#[derive(Debug, PartialEq, Eq)]
pub struct Wiki {
    /// The persona that turns a question into search queries.
    pub search: LLM,
    /// The persona that picks the best of the titles found.
    pub best: LLM,
    /// The persona that answers from the article.
    pub resume: LLM,
    /// The base address of the mirror.
    pub wiki_url: String,
    /// The name of the collection to search and to read.
    pub zim_name: String,
}

/// The mathematical value of a `Wiki`.
pub ghost struct WikiView {
    pub search: LLMView,
    pub best: LLMView,
    pub resume: LLMView,
    pub wiki_url: Seq<char>,
    pub zim_name: Seq<char>,
}

impl View for Wiki {
    type V = WikiView;

    open spec fn view(&self) -> WikiView {
        WikiView {
            search: self.search@,
            best: self.best@,
            resume: self.resume@,
            wiki_url: self.wiki_url@,
            zim_name: self.zim_name@,
        }
    }
}

/// The mirror that a settings text names: the strings at `wiki_url` and
/// `zim_name` of the JSON document that the text is; `None` where the text
/// is not JSON or lacks one of the two.
pub open spec fn mirror_of(settings: Seq<u8>) -> Option<(Seq<char>, Seq<char>)> {
    match parsed(settings) {
        Some(document) => if text_member(document, "wiki_url"@) is Some && text_member(
            document,
            "zim_name"@,
        ) is Some {
            Some((text_member(document, "wiki_url"@)->0, text_member(document, "zim_name"@)->0))
        } else {
            None
        },
        None => None,
    }
}

impl Wiki {
    /// The handler's configuration: the three personas, and the mirror
    /// that the settings text names.
    pub fn new(search: LLM, best: LLM, resume: LLM, settings: &str) -> (r: Option<Wiki>)
        ensures
            match r {
                Some(wiki) => mirror_of(settings.spec_bytes()) == Some(
                    (wiki@.wiki_url, wiki@.zim_name),
                ) && wiki@.search == search@ && wiki@.best == best@ && wiki@.resume == resume@,
                None => mirror_of(settings.spec_bytes()) is None,
            },
    {
        let document = match parse(settings.as_bytes()) {
            Some(document) => document,
            None => {
                return None;
            },
        };
        let wiki_url = copy_text_member(&document, "wiki_url");
        let zim_name = copy_text_member(&document, "zim_name");
        match (wiki_url, zim_name) {
            (Some(wiki_url), Some(zim_name)) => Some(
                Wiki { search, best, resume, wiki_url, zim_name },
            ),
            _ => None,
        }
    }
}

/// A message of the given role and content.
pub open spec fn message(role: MessageType, content: Seq<char>) -> MessageView {
    MessageView { role, content }
}

/// What the search persona is asked: its system prompt, then the user's
/// question as the user wrote it.
pub open spec fn expansion_context(prompt: Seq<char>, question: MessageView) -> Seq<MessageView> {
    seq![message(MessageType::SYSTEM, prompt), question]
}

/// The list of the titles found: the titles in the order in which they
/// were found, separated by a comma and a space.
pub open spec fn headings(articles: Seq<Seq<char>>) -> Seq<char> {
    joined(articles, ", "@)
}

/// The instruction to pick one of the headings for the question.
pub open spec fn selection_prompt(question: Seq<char>, headings: Seq<char>) -> Seq<char> {
    "The user's query is: "@ + question + ". Here are the headings:\n"@ + headings
        + "\n\nPlease select the most relevant heading. Output the heading only and nothing else."@
}

/// What the selection persona is asked: its system prompt, then the
/// instruction to pick one of the titles found.
pub open spec fn selection_context(
    prompt: Seq<char>,
    question: Seq<char>,
    articles: Seq<Seq<char>>,
) -> Seq<MessageView> {
    seq![
        message(MessageType::SYSTEM, prompt),
        message(MessageType::USER, selection_prompt(question, headings(articles))),
    ]
}

/// What the answering persona is asked: its system prompt, the question
/// restated, and the text of the article. Nothing of the dialogue goes
/// into it.
pub open spec fn synthesis_context(
    prompt: Seq<char>,
    question: Seq<char>,
    content: Seq<char>,
) -> Seq<MessageView> {
    seq![
        message(MessageType::SYSTEM, prompt),
        message(MessageType::USER, "The users query is: "@ + question),
        message(MessageType::USER, "The search results are: "@ + content),
    ]
}

/// The strings that `items` are; `None` where one of them is no string.
pub open spec fn texts_of(items: Seq<JsonView>) -> Option<Seq<Seq<char>>> {
    if forall|i: int| 0 <= i < items.len() ==> (#[trigger] items[i]) is Text {
        Some(Seq::new(items.len(), |i: int| items[i]->Text_0))
    } else {
        None
    }
}

/// The search queries that a query expansion returned, or why it returned
/// none: the array of strings at the argument `queries` of the first call.
///
/// No array there, or an empty one, is a `MissingField` error. An element
/// that is no string is a `Protocol` error.
pub open spec fn expansion_outcome(calls: Seq<JsonView>) -> Result<Seq<Seq<char>>, AskErrorView> {
    match first_argument(calls, "queries"@) {
        Some(JsonView::Array(items)) => if items.len() == 0 {
            Err(AskErrorView::MissingField("queries"@))
        } else {
            match texts_of(items) {
                Some(queries) => Ok(queries),
                None => Err(AskErrorView::Protocol),
            }
        },
        _ => Err(AskErrorView::MissingField("queries"@)),
    }
}

/// Reads the search queries out of the result of a query expansion.
pub fn queries_of(calls: &ToolCallResult) -> (r: Result<Vec<String>, AskError>)
    ensures
        match r {
            Ok(queries) => queries.len() > 0 && expansion_outcome(calls@) == Ok::<
                Seq<Seq<char>>,
                AskErrorView,
            >(queries.deep_view()),
            Err(e) => expansion_outcome(calls@) == Err::<Seq<Seq<char>>, AskErrorView>(e@),
        },
{
    let items = match calls.argument("queries") {
        Some(value) => match value.as_array() {
            Some(items) => items,
            None => {
                return Err(AskError::MissingField("queries".to_owned()));
            },
        },
        None => {
            return Err(AskError::MissingField("queries".to_owned()));
        },
    };
    if items.len() == 0 {
        return Err(AskError::MissingField("queries".to_owned()));
    }
    let ghost shown = crate::json::views(items@);
    let mut queries: Vec<String> = Vec::new();
    let mut i: usize = 0;
    while i < items.len()
        invariant
            i <= items.len(),
            queries.len() == i,
            shown == crate::json::views(items@),
            expansion_outcome(calls@) == match texts_of(shown) {
                Some(queries) => Ok::<Seq<Seq<char>>, AskErrorView>(queries),
                None => Err::<Seq<Seq<char>>, AskErrorView>(AskErrorView::Protocol),
            },
            forall|k: int| 0 <= k < i ==> (#[trigger] shown[k]) == JsonView::Text(queries[k]@),
        decreases items.len() - i,
    {
        match items[i].as_text() {
            Some(query) => {
                queries.push(query.clone());
            },
            None => {
                assert(!(shown[i as int] is Text));
                return Err(AskError::Protocol);
            },
        }
        i = i + 1;
    }
    assert(texts_of(shown)->0 =~= queries.deep_view());
    Ok(queries)
}

/// The request that asks the search persona for search queries.
pub fn expansion_request(question: &Message, search: &LLM) -> (r: Request)
    ensures
        r@ == (RequestView {
            url: search@.url,
            body: tool_body(
                search@.model,
                expansion_context(search@.system_prompt, question@),
                search@.tools,
            ),
        }),
{
    let mut context: Vec<Message> = Vec::new();
    context.push(Message::new(MessageType::SYSTEM, search.system_prompt.clone()));
    context.push(question.clone());
    assert(context.deep_view() =~= expansion_context(search@.system_prompt, question@));
    search.ask_tools(&context)
}

/// The titles that the search pages list, page after page; `None` where a
/// page lists none: where it cannot be read or has no results container. A
/// title that several pages list stands once for each.
pub open spec fn gathered(pages: Seq<Seq<char>>) -> Option<Seq<Seq<char>>>
    decreases pages.len(),
{
    if pages.len() == 0 {
        Some(Seq::empty())
    } else {
        match (gathered(pages.drop_last()), listed_titles(pages.last())) {
            (Some(earlier), Some(titles)) => Some(earlier + titles),
            _ => None,
        }
    }
}

/// Collects the article titles of the search pages, one page for each
/// query, into one list: the titles of the first page in their order, then
/// those of the second, and so on. Nothing is left out or moved.
///
/// Returns `None` exactly where a page lists no titles: where it cannot be
/// read or has no results container.
pub fn search_articles(pages: &Vec<String>) -> (r: Option<Vec<String>>)
    ensures
        match r {
            Some(articles) => gathered(pages.deep_view()) == Some(articles.deep_view()),
            None => gathered(pages.deep_view()) is None,
        },
{
    let mut articles: Vec<String> = Vec::new();
    let mut i: usize = 0;
    let ghost all = pages.deep_view();
    while i < pages.len()
        invariant
            i <= pages.len(),
            all == pages.deep_view(),
            gathered(all.take(i as int)) == Some(articles.deep_view()),
        decreases pages.len() - i,
    {
        proof {
            assert(all.take(i + 1).drop_last() == all.take(i as int));
        }
        match article_titles(pages[i].as_str()) {
            Some(titles) => {
                let mut titles = titles;
                articles.append(&mut titles);
            },
            None => {
                proof {
                    lemma_gathered_fails_for_good(all, i + 1);
                }
                return None;
            },
        }
        i = i + 1;
    }
    assert(all.take(pages.len() as int) == all);
    Some(articles)
}

/// Once a page that lists no titles was met, no further page brings the
/// titles back.
pub proof fn lemma_gathered_fails_for_good(pages: Seq<Seq<char>>, upto: int)
    requires
        0 <= upto <= pages.len(),
        gathered(pages.take(upto)) is None,
    ensures
        gathered(pages) is None,
    decreases pages.len() - upto,
{
    if upto < pages.len() {
        assert(pages.take(upto + 1).drop_last() == pages.take(upto));
        lemma_gathered_fails_for_good(pages, upto + 1);
    } else {
        assert(pages.take(upto) == pages);
    }
}

/// The request that asks the selection persona for the best of `articles`
/// for the question `user_query`. The model's reply is the title chosen.
pub fn find_get_best_article(articles: &Vec<String>, user_query: &str, best_llm: &LLM) -> (r:
    Request)
    ensures
        r@ == (RequestView {
            url: best_llm@.url,
            body: streaming_body(
                best_llm@.model,
                selection_context(best_llm@.system_prompt, user_query@, articles.deep_view()),
            ),
        }),
{
    let articles_headings = join(articles, ", ");
    let mut prompt = "The user's query is: ".to_owned();
    prompt.append(user_query);
    prompt.append(". Here are the headings:\n");
    prompt.append(articles_headings.as_str());
    prompt.append(
        "\n\nPlease select the most relevant heading. Output the heading only and nothing else.",
    );
    let mut context: Vec<Message> = Vec::new();
    context.push(Message::new(MessageType::SYSTEM, best_llm.system_prompt.clone()));
    context.push(Message::new(MessageType::USER, prompt));
    assert(context.deep_view() =~= selection_context(
        best_llm@.system_prompt,
        user_query@,
        articles.deep_view(),
    ));
    best_llm.ask(&context)
}

/// The request that asks the answering persona to answer `user_query`
/// from `content`, the text of the article.
pub fn synthesis_request(user_query: &str, content: &str, resume: &LLM) -> (r: Request)
    ensures
        r@ == (RequestView {
            url: resume@.url,
            body: streaming_body(
                resume@.model,
                synthesis_context(resume@.system_prompt, user_query@, content@),
            ),
        }),
{
    let mut restated = "The users query is: ".to_owned();
    restated.append(user_query);
    let mut results = "The search results are: ".to_owned();
    results.append(content);
    let mut context: Vec<Message> = Vec::new();
    context.push(Message::new(MessageType::SYSTEM, resume.system_prompt.clone()));
    context.push(Message::new(MessageType::USER, restated));
    context.push(Message::new(MessageType::USER, results));
    assert(context.deep_view() =~= synthesis_context(
        resume@.system_prompt,
        user_query@,
        content@,
    ));
    resume.ask(&context)
}

/// Where a run of the handler stands.
#[derive(Debug, Clone, Copy, PartialEq, Eq, Structural)]
pub enum WikiStage {
    /// The search queries were asked for.
    Expanding,
    /// A search of the mirror is under way.
    Searching,
    /// The best title was asked for.
    Selecting,
    /// The article is being fetched.
    Fetching,
    /// The answer was asked for.
    Synthesizing,
    /// The run is over: it has replied or aborted.
    Closed,
}

/// What came back for the request that the step before named.
#[derive(Debug, PartialEq, Eq)]
pub enum WikiEvent {
    /// The result of a tool-call request.
    ToolCalls(ToolCallResult),
    /// The body of a page of the mirror.
    Page(String),
    /// The text of a streamed reply.
    Text(String),
    /// The request failed.
    Failed(AskError),
}

/// The mathematical value of a `WikiEvent`.
pub ghost enum WikiEventView {
    ToolCalls(Seq<JsonView>),
    Page(Seq<char>),
    Text(Seq<char>),
    Failed(AskErrorView),
}

impl View for WikiEvent {
    type V = WikiEventView;

    open spec fn view(&self) -> WikiEventView {
        match self {
            WikiEvent::ToolCalls(calls) => WikiEventView::ToolCalls(calls@),
            WikiEvent::Page(page) => WikiEventView::Page(page@),
            WikiEvent::Text(text) => WikiEventView::Text(text@),
            WikiEvent::Failed(error) => WikiEventView::Failed(error@),
        }
    }
}

/// What the caller does next.
#[derive(Debug, PartialEq, Eq)]
pub enum WikiAction {
    /// Send this tool-call request and hand back its result.
    AskTools(Request),
    /// `GET` this address of the mirror and hand back the page.
    Fetch(String),
    /// Send this streaming request and hand back the reply.
    Ask(Request),
    /// The run is over: this is the handler's reply.
    Reply(String),
    /// The run is over: it failed, and there is no reply.
    Abort(AskError),
}

/// The mathematical value of a `WikiAction`.
pub ghost enum WikiActionView {
    AskTools(RequestView),
    Fetch(Seq<char>),
    Ask(RequestView),
    Reply(Seq<char>),
    Abort(AskErrorView),
}

impl View for WikiAction {
    type V = WikiActionView;

    open spec fn view(&self) -> WikiActionView {
        match self {
            WikiAction::AskTools(request) => WikiActionView::AskTools(request@),
            WikiAction::Fetch(address) => WikiActionView::Fetch(address@),
            WikiAction::Ask(request) => WikiActionView::Ask(request@),
            WikiAction::Reply(text) => WikiActionView::Reply(text@),
            WikiAction::Abort(error) => WikiActionView::Abort(error@),
        }
    }
}

/// One run of the handler.
#[derive(Debug, PartialEq, Eq)]
pub struct WikiAsk {
    wiki: Wiki,
    question: Message,
    stage: WikiStage,
    queries: Vec<String>,
    asked: usize,
    articles: Vec<String>,
}

/// The mathematical value of a `WikiAsk`.
pub ghost struct WikiAskView {
    pub wiki: WikiView,
    /// The user's question: the latest message of the user in the
    /// dialogue.
    pub question: MessageView,
    pub stage: WikiStage,
    /// The search queries, once they are known.
    pub queries: Seq<Seq<char>>,
    /// How many of the queries were sent to the mirror.
    pub asked: nat,
    /// The titles found so far.
    pub articles: Seq<Seq<char>>,
}

impl View for WikiAsk {
    type V = WikiAskView;

    closed spec fn view(&self) -> WikiAskView {
        WikiAskView {
            wiki: self.wiki@,
            question: self.question@,
            stage: self.stage,
            queries: self.queries.deep_view(),
            asked: self.asked as nat,
            articles: self.articles.deep_view(),
        }
    }
}

impl WikiAskView {
    /// A run that has just asked for the search queries.
    pub open spec fn start(wiki: WikiView, question: MessageView) -> WikiAskView {
        WikiAskView {
            wiki,
            question,
            stage: WikiStage::Expanding,
            queries: Seq::empty(),
            asked: 0,
            articles: Seq::empty(),
        }
    }

    /// The request for the search queries.
    pub open spec fn expansion(self) -> WikiActionView {
        WikiActionView::AskTools(
            RequestView {
                url: self.wiki.search.url,
                body: tool_body(
                    self.wiki.search.model,
                    expansion_context(self.wiki.search.system_prompt, self.question),
                    self.wiki.search.tools,
                ),
            },
        )
    }

    /// The search of the mirror for the query `index`.
    pub open spec fn search(self, index: int) -> WikiActionView {
        WikiActionView::Fetch(
            search_address(self.wiki.wiki_url, self.wiki.zim_name, self.queries[index]),
        )
    }

    /// The request for the best of `articles`.
    pub open spec fn selection(self, articles: Seq<Seq<char>>) -> WikiActionView {
        WikiActionView::Ask(
            RequestView {
                url: self.wiki.best.url,
                body: streaming_body(
                    self.wiki.best.model,
                    selection_context(
                        self.wiki.best.system_prompt,
                        self.question.content,
                        articles,
                    ),
                ),
            },
        )
    }

    /// The fetch of the article `title`.
    pub open spec fn fetch(self, title: Seq<char>) -> WikiActionView {
        WikiActionView::Fetch(content_address(self.wiki.wiki_url, self.wiki.zim_name, title))
    }

    /// The request for the answer from `content`.
    pub open spec fn synthesis(self, content: Seq<char>) -> WikiActionView {
        WikiActionView::Ask(
            RequestView {
                url: self.wiki.resume.url,
                body: streaming_body(
                    self.wiki.resume.model,
                    synthesis_context(
                        self.wiki.resume.system_prompt,
                        self.question.content,
                        content,
                    ),
                ),
            },
        )
    }

    /// The run, over: what it had gathered is dropped.
    pub open spec fn closed(self) -> WikiAskView {
        WikiAskView {
            stage: WikiStage::Closed,
            queries: Seq::empty(),
            asked: 0,
            articles: Seq::empty(),
            ..self
        }
    }

    /// The run after `event`, and what the caller does next.
    ///
    /// A failure, at whatever stage, closes the run with that failure. So
    /// does a response from which the stage cannot go on: an expansion
    /// without queries, a search page that cannot be read or has no results
    /// container. An event that is not the response that the stage waits
    /// for closes the run with a `Protocol` error. A closed run stays
    /// closed.
    pub open spec fn step(self, event: WikiEventView) -> (WikiAskView, WikiActionView) {
        match (self.stage, event) {
            (WikiStage::Closed, _) => (self, WikiActionView::Abort(AskErrorView::Protocol)),
            (_, WikiEventView::Failed(error)) => (self.closed(), WikiActionView::Abort(error)),
            (WikiStage::Expanding, WikiEventView::ToolCalls(calls)) => match expansion_outcome(
                calls,
            ) {
                Ok(queries) => {
                    let next = WikiAskView {
                        stage: WikiStage::Searching,
                        queries,
                        asked: 1,
                        ..self
                    };
                    (next, next.search(0))
                },
                Err(error) => (self.closed(), WikiActionView::Abort(error)),
            },
            (WikiStage::Searching, WikiEventView::Page(page)) => match listed_titles(page) {
                Some(titles) => {
                    let articles = self.articles + titles;
                    if self.asked < self.queries.len() {
                        (
                            WikiAskView { articles, asked: self.asked + 1, ..self },
                            self.search(self.asked as int),
                        )
                    } else {
                        (
                            WikiAskView { stage: WikiStage::Selecting, articles, ..self },
                            self.selection(articles),
                        )
                    }
                },
                None => (self.closed(), WikiActionView::Abort(AskErrorView::Protocol)),
            },
            (WikiStage::Selecting, WikiEventView::Text(title)) => (
                WikiAskView { stage: WikiStage::Fetching, ..self },
                self.fetch(title),
            ),
            (WikiStage::Fetching, WikiEventView::Page(page)) => (
                WikiAskView { stage: WikiStage::Synthesizing, ..self },
                self.synthesis(extracted(regex_captures(tag_pattern(), page))),
            ),
            (WikiStage::Synthesizing, WikiEventView::Text(answer)) => (
                self.closed(),
                WikiActionView::Reply(answer),
            ),
            _ => (self.closed(), WikiActionView::Abort(AskErrorView::Protocol)),
        }
    }
}

/// The latest message of the user in a dialogue: the last message of role
/// `USER`; `None` where the user has said nothing.
pub open spec fn latest_user(messages: Seq<MessageView>) -> Option<MessageView>
    decreases messages.len(),
{
    if messages.len() == 0 {
        None
    } else if messages.last().role == MessageType::USER {
        Some(messages.last())
    } else {
        latest_user(messages.drop_last())
    }
}

/// Starts a run of the handler for the latest message of the user in
/// `messages`, the question: the first thing to do is to ask for search
/// queries.
///
/// Returns `None` exactly where the dialogue holds no message of the user.
pub fn ask_wiki(messages: &Vec<Message>, wiki: Wiki) -> (r: Option<(WikiAsk, WikiAction)>)
    ensures
        match r {
            Some(started) => {
                &&& latest_user(messages.deep_view()) matches Some(question)
                &&& started.0@ == WikiAskView::start(wiki@, question)
                &&& started.1@ == started.0@.expansion()
            },
            None => latest_user(messages.deep_view()) is None,
        },
{
    let ghost all = messages.deep_view();
    let mut i: usize = messages.len();
    assert(all.take(i as int) == all);
    while i > 0 && messages[i - 1].role != MessageType::USER
        invariant
            i <= messages.len(),
            all == messages.deep_view(),
            latest_user(all) == latest_user(all.take(i as int)),
        decreases i,
    {
        assert(all.take(i as int).drop_last() == all.take(i - 1));
        i = i - 1;
    }
    if i == 0 {
        return None;
    }
    let question = messages[i - 1].clone();
    assert(all.take(i as int).last() == question@);
    let request = expansion_request(&question, &wiki.search);
    let run = WikiAsk {
        wiki,
        question,
        stage: WikiStage::Expanding,
        queries: Vec::new(),
        asked: 0,
        articles: Vec::new(),
    };
    assert(run.queries.deep_view() =~= Seq::<Seq<char>>::empty());
    assert(run.articles.deep_view() =~= Seq::<Seq<char>>::empty());
    Some((run, WikiAction::AskTools(request)))
}

impl WikiAsk {
    /// Where the run stands.
    pub fn stage(&self) -> (r: WikiStage)
        ensures
            r == self@.stage,
    {
        self.stage
    }

    /// Closes the run and drops what it had gathered.
    fn close(&mut self)
        ensures
            final(self)@ == old(self)@.closed(),
    {
        self.stage = WikiStage::Closed;
        self.queries = Vec::new();
        self.asked = 0;
        self.articles = Vec::new();
        assert(self.articles.deep_view() =~= Seq::<Seq<char>>::empty());
    }

    /// Takes the response to the request that the step before named, and
    /// names what to do next.
    pub fn step(&mut self, event: WikiEvent) -> (action: WikiAction)
        ensures
            (final(self)@, action@) == old(self)@.step(event@),
    {
        if self.stage == WikiStage::Closed {
            return WikiAction::Abort(AskError::Protocol);
        }
        match event {
            WikiEvent::Failed(error) => {
                self.close();
                WikiAction::Abort(error)
            },
            WikiEvent::ToolCalls(calls) => {
                if self.stage == WikiStage::Expanding {
                    match queries_of(&calls) {
                        Ok(queries) => {
                            self.stage = WikiStage::Searching;
                            self.queries = queries;
                            self.asked = 1;
                            WikiAction::Fetch(
                                search_url(
                                    self.wiki.wiki_url.as_str(),
                                    self.wiki.zim_name.as_str(),
                                    self.queries[0].as_str(),
                                ),
                            )
                        },
                        Err(error) => {
                            self.close();
                            WikiAction::Abort(error)
                        },
                    }
                } else {
                    self.close();
                    WikiAction::Abort(AskError::Protocol)
                }
            },
            WikiEvent::Page(page) => {
                if self.stage == WikiStage::Searching {
                    match article_titles(page.as_str()) {
                        Some(titles) => {
                            let ghost before = self.articles.deep_view();
                            let mut titles = titles;
                            let ghost added = titles.deep_view();
                            self.articles.append(&mut titles);
                            assert(self.articles.deep_view() =~= before + added);
                            if self.asked < self.queries.len() {
                                let address = search_url(
                                    self.wiki.wiki_url.as_str(),
                                    self.wiki.zim_name.as_str(),
                                    self.queries[self.asked].as_str(),
                                );
                                self.asked = self.asked + 1;
                                WikiAction::Fetch(address)
                            } else {
                                self.stage = WikiStage::Selecting;
                                WikiAction::Ask(
                                    find_get_best_article(
                                        &self.articles,
                                        self.question.content.as_str(),
                                        &self.wiki.best,
                                    ),
                                )
                            }
                        },
                        None => {
                            self.close();
                            WikiAction::Abort(AskError::Protocol)
                        },
                    }
                } else if self.stage == WikiStage::Fetching {
                    let content = extract_text_from_tags(page.as_str());
                    self.stage = WikiStage::Synthesizing;
                    WikiAction::Ask(
                        synthesis_request(
                            self.question.content.as_str(),
                            content.as_str(),
                            &self.wiki.resume,
                        ),
                    )
                } else {
                    self.close();
                    WikiAction::Abort(AskError::Protocol)
                }
            },
            WikiEvent::Text(text) => {
                if self.stage == WikiStage::Selecting {
                    self.stage = WikiStage::Fetching;
                    WikiAction::Fetch(
                        content_url(
                            self.wiki.wiki_url.as_str(),
                            self.wiki.zim_name.as_str(),
                            text.as_str(),
                        ),
                    )
                } else if self.stage == WikiStage::Synthesizing {
                    self.close();
                    WikiAction::Reply(text)
                } else {
                    self.close();
                    WikiAction::Abort(AskError::Protocol)
                }
            },
        }
    }
}

/// The titles of the search pages are gathered as they stand: where page
/// `i` lists the titles `titles[i]`, the list gathered is `titles[0]`, then
/// `titles[1]`, and so on. Order is kept and no duplicate is removed.
pub proof fn lemma_gathered_is_flatten(pages: Seq<Seq<char>>, titles: Seq<Seq<Seq<char>>>)
    requires
        titles.len() == pages.len(),
        forall|i: int| 0 <= i < pages.len() ==> listed_titles(#[trigger] pages[i]) == Some(titles[i]),
    ensures
        gathered(pages) == Some(titles.flatten()),
    decreases pages.len(),
{
    if pages.len() > 0 {
        lemma_gathered_is_flatten(pages.drop_last(), titles.drop_last());
        titles.drop_last().lemma_flatten_push(titles.last());
        assert(titles.drop_last().push(titles.last()) == titles);
    }
}

impl WikiAskView {
    /// The run after the search pages `pages` came in, one after the other.
    pub open spec fn after_pages(self, pages: Seq<Seq<char>>) -> WikiAskView
        decreases pages.len(),
    {
        if pages.len() == 0 {
            self
        } else {
            self.after_pages(pages.drop_last()).step(WikiEventView::Page(pages.last())).0
        }
    }
}

impl WikiAskView {
    /// What holds of every run that was started by `ask_wiki` and moved on
    /// by `step`. Before the queries are known, and after the run is
    /// closed, the run holds neither queries nor titles. While it searches,
    /// at least one query was sent and none beyond the last. From the
    /// selection on, all queries were sent.
    pub open spec fn wf(self) -> bool {
        match self.stage {
            WikiStage::Expanding | WikiStage::Closed => self.queries.len() == 0 && self.asked == 0
                && self.articles.len() == 0,
            WikiStage::Searching => 1 <= self.asked <= self.queries.len(),
            _ => 1 <= self.asked == self.queries.len(),
        }
    }
}

/// A run starts well-formed, and every step keeps it so.
pub proof fn lemma_runs_stay_well_formed(
    wiki: WikiView,
    question: MessageView,
    run: WikiAskView,
    event: WikiEventView,
)
    ensures
        WikiAskView::start(wiki, question).wf(),
        run.wf() ==> run.step(event).0.wf(),
{
}

/// The whole search stage, from the expansion to the selection. Where the
/// expansion returns queries and each of them, in turn, gets a search page
/// that lists its titles, the run sends one search for each query, in
/// order, and then asks for the best of all titles found, as `gathered`
/// lists them.
pub proof fn lemma_every_query_is_searched(
    run: WikiAskView,
    calls: Seq<JsonView>,
    pages: Seq<Seq<char>>,
)
    requires
        run.wf(),
        run.stage is Expanding,
        expansion_outcome(calls) is Ok,
        pages.len() == expansion_outcome(calls)->Ok_0.len(),
        gathered(pages) is Some,
    ensures
        ({
            let queries = expansion_outcome(calls)->Ok_0;
            let searching = run.step(WikiEventView::ToolCalls(calls));
            &&& searching.1 == searching.0.search(0)
            &&& forall|k: int|
                0 <= k && k + 1 < pages.len() ==> (#[trigger] searching.0.after_pages(
                    pages.take(k),
                )).step(WikiEventView::Page(pages[k])).1 == searching.0.search(k + 1)
            &&& searching.0.after_pages(pages) == (WikiAskView {
                stage: WikiStage::Selecting,
                queries,
                asked: queries.len(),
                articles: gathered(pages)->0,
                ..run
            })
        }),
{
    let queries = expansion_outcome(calls)->Ok_0;
    let searching = run.step(WikiEventView::ToolCalls(calls)).0;
    lemma_search_gathers_in_order(searching, pages);
    assert forall|k: int| 0 <= k && k + 1 < pages.len() implies (#[trigger] searching.after_pages(
        pages.take(k),
    )).step(WikiEventView::Page(pages[k])).1 == searching.search(k + 1) by {
        lemma_gathered_prefix(pages, k);
        lemma_search_gathers_in_order(searching, pages.take(k));
    }
}

/// Where all pages list titles, so do the first `k` of them.
pub proof fn lemma_gathered_prefix(pages: Seq<Seq<char>>, k: int)
    requires
        0 <= k <= pages.len(),
        gathered(pages) is Some,
    ensures
        gathered(pages.take(k)) is Some,
        k < pages.len() ==> listed_titles(pages[k]) is Some,
    decreases pages.len(),
{
    if k + 1 < pages.len() {
        lemma_gathered_prefix(pages.drop_last(), k);
        assert(pages.drop_last().take(k) == pages.take(k));
    } else if k == pages.len() {
        assert(pages.take(k) == pages);
    }
}

/// An expansion that returns no query aborts the run with `MissingField`:
/// the step names no search, and the run is closed.
pub proof fn lemma_empty_expansion_aborts(run: WikiAskView, calls: Seq<JsonView>)
    requires
        run.stage is Expanding,
        first_argument(calls, "queries"@) == Some(JsonView::Array(Seq::empty())),
    ensures
        run.step(WikiEventView::ToolCalls(calls)) == (
            run.closed(),
            WikiActionView::Abort(AskErrorView::MissingField("queries"@)),
        ),
{
}

/// A search is named only for a query that the expansion returned: the
/// step out of the expansion names the search for the first query, or
/// aborts.
pub proof fn lemma_search_needs_a_query(run: WikiAskView, event: WikiEventView)
    requires
        run.stage is Expanding,
    ensures
        match run.step(event).1 {
            WikiActionView::Fetch(address) => event matches WikiEventView::ToolCalls(calls)
                && expansion_outcome(calls) matches Ok(queries) && queries.len() > 0 && address
                == search_address(run.wiki.wiki_url, run.wiki.zim_name, queries[0]),
            WikiActionView::Abort(_) => run.step(event).0 == run.closed(),
            _ => false,
        },
{
}

/// The search stage gathers the titles of its pages in order. From a run
/// that searches, with `asked` queries sent, the pages that come in add
/// their titles behind those already found, page after page. While queries
/// are left, each page is followed by the search for the next query; the
/// page of the last query is followed by the selection among all titles.
pub proof fn lemma_search_gathers_in_order(run: WikiAskView, pages: Seq<Seq<char>>)
    requires
        run.stage is Searching,
        1 <= run.asked <= run.queries.len(),
        pages.len() <= run.queries.len() - run.asked + 1,
        gathered(pages) is Some,
    ensures
        ({
            let after = run.after_pages(pages);
            let found = run.articles + gathered(pages)->0;
            if pages.len() == run.queries.len() - run.asked + 1 {
                after == (WikiAskView {
                    stage: WikiStage::Selecting,
                    articles: found,
                    asked: run.queries.len(),
                    ..run
                })
            } else {
                after == (WikiAskView { articles: found, asked: run.asked + pages.len(), ..run })
            }
        }),
    decreases pages.len(),
{
    if pages.len() > 0 {
        let earlier = pages.drop_last();
        lemma_search_gathers_in_order(run, earlier);
        let before = run.after_pages(earlier);
        let titles = listed_titles(pages.last())->0;
        assert(before.articles + titles =~= run.articles + (gathered(earlier)->0 + titles));
    }
}

/// A failure at any stage ends the run without a reply, and what the run
/// had gathered is dropped.
pub proof fn lemma_failure_aborts(run: WikiAskView, error: AskErrorView)
    requires
        !(run.stage is Closed),
    ensures
        run.step(WikiEventView::Failed(error)) == (run.closed(), WikiActionView::Abort(error)),
        run.closed().articles.len() == 0,
        run.closed().queries.len() == 0,
{
}

/// A run replies only at the end of its last stage, and with the text
/// that the answering persona returned.
pub proof fn lemma_reply_is_the_synthesis(run: WikiAskView, event: WikiEventView)
    ensures
        run.step(event).1 matches WikiActionView::Reply(text) ==> run.stage is Synthesizing
            && event == WikiEventView::Text(text) && run.step(event).0.stage is Closed,
{
}

} // verus!
