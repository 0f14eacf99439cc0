use neo_ai::app::{category_of, copy_messages, route, App, AppAction, Handler, Phase};
use neo_ai::json::Json;
use neo_ai::llm::{complete_tool, AskError, ToolCallResult, LLM};
use neo_ai::message::{Message, MessageType};
use neo_ai::wikipedia::{ask_wiki, Wiki, WikiAction, WikiEvent, WikiStage};

fn text(s: &str) -> Json {
    Json::Text(s.to_string())
}

fn persona(name: &str) -> LLM {
    LLM {
        url: format!("http://localhost/{}", name),
        model: format!("{}-model", name),
        system_prompt: format!("{} prompt", name),
        tools: Json::Null,
    }
}

fn app() -> App {
    App::new(persona("categorize"), persona("chat"), persona("resume"))
}

fn calls_with(arguments: &str) -> ToolCallResult {
    let body = format!(
        "{{\"message\":{{\"tool_calls\":[{{\"function\":{{\"name\":\"f\",\"arguments\":{}}}}}]}}}}",
        arguments
    );
    complete_tool(body.as_bytes()).unwrap()
}

fn said(role: MessageType, content: &str) -> Message {
    Message::new(role, content.to_string())
}

#[test]
fn quotes_around_the_category_are_stripped() {
    let calls = calls_with("{\"category\":\"\\\"wikipedia\\\"\"}");
    assert_eq!(category_of(&calls), Ok("wikipedia".to_string()));
}

#[test]
fn category_is_passed_on_as_it_is() {
    assert_eq!(category_of(&calls_with("{\"category\":\" chat\\n\"}")), Ok("chat".to_string()));
    assert_eq!(category_of(&calls_with("{\"category\":\"unknown\"}")), Ok("unknown".to_string()));
    assert_eq!(category_of(&calls_with("{\"category\":\"\"}")), Ok(String::new()));
}

#[test]
fn missing_category_is_a_missing_field() {
    assert_eq!(
        category_of(&calls_with("{\"other\":1}")),
        Err(AskError::MissingField("category".to_string()))
    );
    assert_eq!(
        category_of(&ToolCallResult { calls: vec![] }),
        Err(AskError::MissingField("category".to_string()))
    );
}

#[test]
fn category_that_is_no_string_is_a_protocol_error() {
    assert_eq!(category_of(&calls_with("{\"category\":5}")), Err(AskError::Protocol));
    assert_eq!(category_of(&calls_with("{\"category\":null}")), Err(AskError::Protocol));
}

#[test]
fn unknown_category_goes_to_chat() {
    assert_eq!(route("unknown"), Handler::Chat);
    assert_eq!(route(""), Handler::Chat);
    assert_eq!(route("Wikipedia"), Handler::Chat);
    assert_eq!(route("chat"), Handler::Chat);
    assert_eq!(route("code"), Handler::Chat);
}

#[test]
fn known_categories_go_to_their_handlers() {
    assert_eq!(route("resume"), Handler::Resume);
    assert_eq!(route("wikipedia"), Handler::Wikipedia);
}

#[test]
fn dialogue_begins_with_the_system_prompt() {
    let app = app();
    assert_eq!(app.messages(), &vec![said(MessageType::SYSTEM, "categorize prompt")]);
    assert_eq!(app.phase(), Phase::Idle);
}

#[test]
fn user_message_opens_a_turn() {
    let mut app = app();
    let action = app.send_message("Hello".to_string());
    assert_eq!(app.phase(), Phase::Categorizing);
    assert_eq!(
        app.messages(),
        &vec![said(MessageType::SYSTEM, "categorize prompt"), said(MessageType::USER, "Hello")]
    );
    assert_eq!(
        action,
        AppAction::Categorize(persona("categorize").ask_tools(app.messages()))
    );
}

#[test]
fn chat_turn_adds_two_messages() {
    let mut app = app();
    let before = app.messages().len();
    app.send_message("Hello".to_string());
    let action = app.categorize_ask(Ok(calls_with("{\"category\":\"chat\"}")));
    assert_eq!(app.phase(), Phase::Handling(Handler::Chat));
    let mut context = copy_messages(app.messages());
    context.push(said(MessageType::USER, "chat prompt"));
    assert_eq!(action, AppAction::Ask(persona("chat").ask(&context)));
    assert_eq!(app.messages().len(), before + 1);
    app.answer(Ok("Hi there".to_string()));
    assert_eq!(app.phase(), Phase::Idle);
    assert_eq!(app.messages().len(), before + 2);
    assert_eq!(app.messages()[before], said(MessageType::USER, "Hello"));
    assert_eq!(app.messages()[before + 1], said(MessageType::ASSISTANT, "Hi there"));
}

#[test]
fn unknown_category_is_answered_by_chat() {
    let mut app = app();
    app.send_message("Hello".to_string());
    let action = app.categorize_ask(Ok(calls_with("{\"category\":\"unknown\"}")));
    assert_eq!(app.phase(), Phase::Handling(Handler::Chat));
    assert!(matches!(action, AppAction::Ask(_)));
}

#[test]
fn resume_category_asks_the_resume_persona() {
    let mut app = app();
    app.send_message("Sum it up".to_string());
    let action = app.categorize_ask(Ok(calls_with("{\"category\":\"resume\"}")));
    assert_eq!(app.phase(), Phase::Handling(Handler::Resume));
    let mut context = copy_messages(app.messages());
    context.push(said(MessageType::USER, "resume prompt"));
    assert_eq!(action, AppAction::Ask(persona("resume").ask(&context)));
}

#[test]
fn wikipedia_category_runs_the_encyclopedia_handler() {
    let mut app = app();
    app.send_message("Tell me about volcanoes".to_string());
    let action = app.categorize_ask(Ok(calls_with("{\"category\":\"wikipedia\"}")));
    assert_eq!(action, AppAction::AskWiki);
    assert_eq!(app.phase(), Phase::Handling(Handler::Wikipedia));
}

#[test]
fn failed_categorization_ends_the_turn_with_the_error() {
    let mut app = app();
    let before = app.messages().len();
    app.send_message("Hello".to_string());
    let action = app.categorize_ask(Err(AskError::MissingToolCall));
    assert_eq!(action, AppAction::Wait);
    assert_eq!(app.phase(), Phase::Idle);
    assert_eq!(app.messages().len(), before + 2);
    assert_eq!(
        app.messages()[before + 1],
        said(MessageType::ASSISTANT, "tool_calls not found")
    );
}

#[test]
fn missing_category_ends_the_turn_with_the_error() {
    let mut app = app();
    app.send_message("Hello".to_string());
    let action = app.categorize_ask(Ok(calls_with("{}")));
    assert_eq!(action, AppAction::Wait);
    assert_eq!(app.phase(), Phase::Idle);
    assert_eq!(
        app.messages().last(),
        Some(&said(MessageType::ASSISTANT, "missing field: category"))
    );
}

#[test]
fn failed_handler_ends_the_turn_with_the_error() {
    let mut app = app();
    let before = app.messages().len();
    app.send_message("Hello".to_string());
    app.categorize_ask(Ok(calls_with("{\"category\":\"chat\"}")));
    app.answer(Err(AskError::Upstream(502)));
    assert_eq!(app.phase(), Phase::Idle);
    assert_eq!(app.messages().len(), before + 2);
    assert_eq!(
        app.messages().last(),
        Some(&said(MessageType::ASSISTANT, "upstream error: status 502"))
    );
}

#[test]
fn no_second_turn_while_one_is_under_way() {
    let mut app = app();
    app.send_message("first".to_string());
    let len = app.messages().len();
    assert_eq!(app.send_message("second".to_string()), AppAction::Wait);
    assert_eq!(app.resume_conv(), AppAction::Wait);
    assert_eq!(app.messages().len(), len);
    assert_eq!(app.phase(), Phase::Categorizing);
    app.categorize_ask(Ok(calls_with("{\"category\":\"chat\"}")));
    assert_eq!(app.send_message("third".to_string()), AppAction::Wait);
    assert_eq!(app.messages().len(), len);
}

#[test]
fn outcomes_out_of_turn_change_nothing() {
    let mut app = app();
    app.answer(Ok("stray".to_string()));
    assert_eq!(app.categorize_ask(Err(AskError::Protocol)), AppAction::Wait);
    assert_eq!(app.messages().len(), 1);
    assert_eq!(app.phase(), Phase::Idle);
    app.send_message("Hello".to_string());
    app.answer(Ok("too early".to_string()));
    assert_eq!(app.messages().len(), 2);
    assert_eq!(app.phase(), Phase::Categorizing);
}

#[test]
fn summary_is_a_turn_of_its_own() {
    let mut app = app();
    let action = app.resume_conv();
    assert_eq!(app.phase(), Phase::Handling(Handler::Resume));
    assert_eq!(app.messages().last(), Some(&said(MessageType::USER, "resume prompt")));
    assert_eq!(action, AppAction::Ask(persona("resume").ask(app.messages())));
    app.answer(Ok("summary".to_string()));
    assert_eq!(app.messages().len(), 3);
    assert_eq!(app.messages().last(), Some(&said(MessageType::ASSISTANT, "summary")));
    assert_eq!(app.phase(), Phase::Idle);
}

#[test]
fn earlier_messages_stay_as_they_were() {
    let mut app = app();
    app.send_message("one".to_string());
    app.categorize_ask(Ok(calls_with("{\"category\":\"chat\"}")));
    app.answer(Ok("two".to_string()));
    let before = copy_messages(app.messages());
    app.send_message("three".to_string());
    app.categorize_ask(Err(AskError::Network("down".to_string())));
    assert_eq!(&app.messages()[..before.len()], &before[..]);
    assert_eq!(app.messages().len(), before.len() + 2);
    assert_eq!(app.messages().last(), Some(&said(MessageType::ASSISTANT, "network error: down")));
}

fn results_page(titles: &[&str]) -> String {
    let mut page = String::from("<html><body><div class=\"results\"><ul>");
    for title in titles {
        page.push_str(&format!("<li><a href=\"/x\">{}</a></li>", title));
    }
    page.push_str("</ul></div></body></html>");
    page
}

#[test]
fn encyclopedia_turn_adds_two_messages() {
    let mut app = app();
    let before = copy_messages(app.messages());

    let action = app.send_message("Tell me about volcanoes".to_string());
    assert!(matches!(action, AppAction::Categorize(_)));
    let action = app.categorize_ask(Ok(calls_with("{\"category\":\"wikipedia\"}")));
    assert_eq!(action, AppAction::AskWiki);
    assert_eq!(app.messages().len(), before.len() + 1);

    let wiki = Wiki {
        search: persona("search"),
        best: persona("best"),
        resume: persona("resume"),
        wiki_url: "http://mirror".to_string(),
        zim_name: "zim".to_string(),
    };
    let (mut run, first) = ask_wiki(app.messages(), wiki).unwrap();
    assert!(matches!(first, WikiAction::AskTools(_)));
    let mut requests = 1;
    let mut action = run.step(WikiEvent::ToolCalls(calls_with(
        "{\"queries\":[\"volcano\",\"lava\",\"eruption\"]}",
    )));
    let pages = [
        results_page(&["Volcano", "Volcanism"]),
        results_page(&["Lava", "Lava dome", "Volcano"]),
        results_page(&["Eruption"]),
    ];
    for page in pages {
        assert!(matches!(action, WikiAction::Fetch(_)));
        requests += 1;
        action = run.step(WikiEvent::Page(page));
    }
    match &action {
        WikiAction::Ask(request) => {
            let messages = request.body.get("messages").unwrap().as_array().unwrap();
            let prompt = messages[1].get("content").unwrap().as_text().unwrap();
            assert!(prompt.contains(
                "Here are the headings:\nVolcano, Volcanism, Lava, Lava dome, Volcano, Eruption\n"
            ));
        }
        other => panic!("unexpected action: {:?}", other),
    }
    requests += 1;
    action = run.step(WikiEvent::Text("Volcano".to_string()));
    assert_eq!(action, WikiAction::Fetch("http://mirror/content/zim/A/Volcano".to_string()));
    requests += 1;
    action = run.step(WikiEvent::Page("<h1>Volcano</h1><p>A rupture in the crust.</p>".to_string()));
    match &action {
        WikiAction::Ask(request) => {
            let messages = request.body.get("messages").unwrap().as_array().unwrap();
            assert_eq!(messages.len(), 3);
            assert_eq!(
                messages[2].get("content"),
                Some(&text("The search results are: Volcano A rupture in the crust."))
            );
        }
        other => panic!("unexpected action: {:?}", other),
    }
    requests += 1;
    action = run.step(WikiEvent::Text("A volcano is a rupture in the crust.".to_string()));
    assert_eq!(run.stage(), WikiStage::Closed);
    assert_eq!(requests, 7);
    assert_eq!(app.messages().len(), before.len() + 1);

    let reply = match action {
        WikiAction::Reply(text) => Ok(text),
        WikiAction::Abort(error) => Err(error),
        other => panic!("unexpected action: {:?}", other),
    };
    app.answer(reply);
    assert_eq!(app.phase(), Phase::Idle);
    assert_eq!(app.messages().len(), before.len() + 2);
    assert_eq!(&app.messages()[..before.len()], &before[..]);
    assert_eq!(app.messages()[before.len()], said(MessageType::USER, "Tell me about volcanoes"));
    assert_eq!(
        app.messages()[before.len() + 1],
        said(MessageType::ASSISTANT, "A volcano is a rupture in the crust.")
    );
}

#[test]
fn aborted_encyclopedia_turn_adds_two_messages() {
    let mut app = app();
    let before = app.messages().len();
    app.send_message("Tell me about volcanoes".to_string());
    app.categorize_ask(Ok(calls_with("{\"category\":\"wikipedia\"}")));
    let wiki = Wiki {
        search: persona("search"),
        best: persona("best"),
        resume: persona("resume"),
        wiki_url: "http://mirror".to_string(),
        zim_name: "zim".to_string(),
    };
    let (mut run, _) = ask_wiki(app.messages(), wiki).unwrap();
    let action = run.step(WikiEvent::ToolCalls(calls_with("{\"queries\":[]}")));
    let reply = match action {
        WikiAction::Abort(error) => Err(error),
        other => panic!("unexpected action: {:?}", other),
    };
    app.answer(reply);
    assert_eq!(app.messages().len(), before + 2);
    assert_eq!(
        app.messages().last(),
        Some(&said(MessageType::ASSISTANT, "missing field: queries"))
    );
}
