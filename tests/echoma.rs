use echoma::client::{Client, ClientStep};
use echoma::cmd::{final_output, strip_tag, Cmd, CmdRes, Executor, Phase, Start, GREETING_REPLY};
use echoma::config::{
    config_model_or_default, config_web_listen_or_default, config_web_port_or_default, log_file,
    log_level, log_level_str, port_text, Config,
};
use echoma::session::{PromptStyle, Session};
use echoma::text::{contains, join_all, remove_all, str_eq};
use echoma::{USER_CHATTING_NAME, USER_CHATTING_NAME_SHORT};

fn strings(parts: &[&str]) -> Vec<String> {
    parts.iter().map(|p| p.to_string()).collect()
}

fn session_with(turns: &[(&str, &str)]) -> Session {
    let mut s = Session::new();
    for (i, o) in turns {
        s.append(i, o);
    }
    s
}

fn config_with(level: Option<&str>) -> Config {
    Config {
        web_listen: Some("127.0.0.1".to_string()),
        web_port: Some(9000),
        log_level: level.map(|l| l.to_string()),
        log_file: Some("chat.log".to_string()),
        model: Some("tiny.gguf".to_string()),
    }
}

/// Runs a message executor over the tokens the engine would produce,
/// stopping as soon as a token is refused; returns the delivered events.
fn run_message(exec: &mut Executor, session: &mut Session, tokens: &[&str]) -> Vec<CmdRes> {
    let mut events = Vec::new();
    match exec.start(session) {
        Start::Generate(_) => {}
        Start::Respond(_) => panic!("a message must ask for a generation"),
    }
    for t in tokens {
        match exec.on_token(t.to_string()) {
            Some(ev) => events.push(ev),
            None => break,
        }
    }
    events.push(exec.finish(session));
    events
}

#[test]
fn classify_greeting_any_case() {
    assert_eq!(Cmd::from("hi echo"), Cmd::Greeting);
    assert_eq!(Cmd::from("HI ECHO"), Cmd::Greeting);
    assert_eq!(Cmd::from("Hi Echo"), Cmd::Greeting);
}

#[test]
fn classify_exit_any_case() {
    assert_eq!(Cmd::from("exit"), Cmd::Exit);
    assert_eq!(Cmd::from("EXIT"), Cmd::Exit);
    assert_eq!(Cmd::from("eXiT"), Cmd::Exit);
}

#[test]
fn classify_message_keeps_text() {
    assert_eq!(Cmd::from("Tell me a joke"), Cmd::Message("Tell me a joke".to_string()));
    assert_eq!(Cmd::from("hi echo!"), Cmd::Message("hi echo!".to_string()));
    assert_eq!(Cmd::from("exit now"), Cmd::Message("exit now".to_string()));
    assert_eq!(Cmd::from(""), Cmd::Message(String::new()));
}

#[test]
fn classify_from_lowered_text() {
    assert_eq!(Cmd::from_lowered("hi echo", "Hi ECHO"), Cmd::Greeting);
    assert_eq!(Cmd::from_lowered("exit", "Exit"), Cmd::Exit);
    assert_eq!(Cmd::from_lowered("hello", "HeLLo"), Cmd::Message("HeLLo".to_string()));
}

#[test]
fn greeting_scenario() {
    let mut session = session_with(&[("a", "b"), ("c", "d")]);
    let mut exec = Executor::new("hi echo", PromptStyle::Stateless);
    match exec.start(&mut session) {
        Start::Respond(events) => assert_eq!(
            events,
            vec![CmdRes::Content("Hello, what can I do for you?".to_string()), CmdRes::Over]
        ),
        Start::Generate(_) => panic!("a greeting runs no generation"),
    }
    assert_eq!(session.turn_count(), 0);
    assert_eq!(exec.phase(), Phase::Completed);
    assert_eq!(GREETING_REPLY, "Hello, what can I do for you?");
}

#[test]
fn exit_scenario() {
    let mut session = session_with(&[("a", "b")]);
    let mut exec = Executor::new("exit", PromptStyle::WithContext);
    match exec.start(&mut session) {
        Start::Respond(events) => assert_eq!(events, vec![CmdRes::Exit]),
        Start::Generate(_) => panic!("exit runs no generation"),
    }
    assert_eq!(session.turn_count(), 1);
    assert_eq!(session.turn(0), ("a".to_string(), "b".to_string()));
    assert_eq!(exec.phase(), Phase::Completed);
}

#[test]
fn message_scenario_stateless() {
    let mut session = Session::new();
    let mut exec = Executor::new("Tell me a joke", PromptStyle::Stateless);
    match exec.start(&mut session) {
        Start::Generate(req) => {
            assert_eq!(req.prompt, "Instruct: Tell me a joke\nOutput:");
            assert_eq!(req.stop_prompts, vec!["Userc33dc3a".to_string()]);
        }
        Start::Respond(_) => panic!("a message must ask for a generation"),
    }
    assert_eq!(exec.phase(), Phase::Running);
    let tokens = [" Why", " did", " the", " chicken", " cross", " the", " road?", " "];
    let mut events = Vec::new();
    for t in tokens {
        events.push(exec.on_token(t.to_string()).expect("plain tokens are forwarded"));
    }
    events.push(exec.finish(&mut session));
    let mut expected: Vec<CmdRes> =
        tokens.iter().map(|t| CmdRes::Content(t.to_string())).collect();
    expected.push(CmdRes::Over);
    assert_eq!(events, expected);
    assert_eq!(session.turn_count(), 1);
    assert_eq!(
        session.turn(0),
        ("Tell me a joke".to_string(), "Why did the chicken cross the road?".to_string())
    );
    assert_eq!(exec.phase(), Phase::Completed);
}

#[test]
fn message_scenario_with_context_first_turn() {
    let mut session = Session::new();
    let mut exec = Executor::new("Tell me a joke", PromptStyle::WithContext);
    match exec.start(&mut session) {
        Start::Generate(req) => assert_eq!(
            req.prompt,
            "Userc33dc3a: Hi.\nAI: Hi, what can I do for you?\nUserc33dc3a: Tell me a joke\nAI:"
        ),
        Start::Respond(_) => panic!("a message must ask for a generation"),
    }
}

#[test]
fn second_message_with_context() {
    let mut session = Session::new();
    let mut first = Executor::new("Tell me a joke", PromptStyle::WithContext);
    run_message(&mut first, &mut session, &["Why", " did", " the", " chicken"]);
    assert_eq!(session.turn(0).1, "Why did the chicken");
    let mut second = Executor::new("Another one", PromptStyle::WithContext);
    match second.start(&mut session) {
        Start::Generate(req) => assert_eq!(
            req.prompt,
            "Userc33dc3a: Hi.\nAI: Hi, what can I do for you?\n\
             Userc33dc3a: Tell me a joke\nAI:Why did the chicken\n\
             Userc33dc3a: Another one\nAI:"
        ),
        Start::Respond(_) => panic!("a message must ask for a generation"),
    }
}

#[test]
fn context_prompt_shows_only_latest_turn() {
    let mut session = session_with(&[("one", "1"), ("two", "2")]);
    let p = session.gen_prompt_with_context("three");
    assert_eq!(
        p,
        "Userc33dc3a: Hi.\nAI: Hi, what can I do for you?\nUserc33dc3a: two\nAI:2\nUserc33dc3a: three\nAI:"
    );
    assert_eq!(session.turn_count(), 2);
}

#[test]
fn render_prompt_follows_style() {
    let mut session = session_with(&[("q", "a")]);
    assert_eq!(session.render_prompt("x", PromptStyle::Stateless), session.gen_prompt("x"));
    assert_eq!(
        session.render_prompt("x", PromptStyle::WithContext),
        session.gen_prompt_with_context("x")
    );
    assert_eq!(session.gen_prompt("x"), "Instruct: x\nOutput:");
}

#[test]
fn tagged_token_stops_generation() {
    let mut session = Session::new();
    let mut exec = Executor::new("hello", PromptStyle::Stateless);
    let events = run_message(
        &mut exec,
        &mut session,
        &["Hi", " there", "\nUserc33dc3", "a: more", " text"],
    );
    assert_eq!(
        events,
        vec![
            CmdRes::Content("Hi".to_string()),
            CmdRes::Content(" there".to_string()),
            CmdRes::Over
        ]
    );
    assert_eq!(session.turn(0), ("hello".to_string(), "Hi there".to_string()));
}

#[test]
fn no_token_after_stop() {
    let mut session = Session::new();
    let mut exec = Executor::new("hello", PromptStyle::Stateless);
    exec.start(&mut session);
    assert_eq!(exec.on_token("xUserc33dc3y".to_string()), None);
    assert_eq!(exec.on_token("plain".to_string()), None);
    assert!(exec.streamed().is_empty());
    assert_eq!(exec.finish(&mut session), CmdRes::Over);
    assert_eq!(session.turn(0), ("hello".to_string(), String::new()));
}

#[test]
fn failed_generation_leaves_session() {
    let mut session = session_with(&[("a", "b")]);
    let mut exec = Executor::new("question", PromptStyle::Stateless);
    exec.start(&mut session);
    assert!(exec.on_token("part".to_string()).is_some());
    exec.fail();
    assert_eq!(exec.phase(), Phase::Failed);
    assert_eq!(session.turn_count(), 1);
}

#[test]
fn executor_keeps_command() {
    let exec = Executor::new("Some text", PromptStyle::Stateless);
    assert_eq!(exec.cmd(), &Cmd::Message("Some text".to_string()));
    assert_eq!(exec.phase(), Phase::Created);
}

#[test]
fn clear_twice_same_as_once() {
    let mut s = session_with(&[("a", "b"), ("c", "d")]);
    s.clear();
    assert_eq!(s.turn_count(), 0);
    s.clear();
    assert_eq!(s.turn_count(), 0);
    s.append("e", "f");
    assert_eq!(s.turn(0), ("e".to_string(), "f".to_string()));
}

#[test]
fn append_keeps_order() {
    let s = session_with(&[("first", "1"), ("second", "2")]);
    assert_eq!(s.turn_count(), 2);
    assert_eq!(s.turn(0), ("first".to_string(), "1".to_string()));
    assert_eq!(s.turn(1), ("second".to_string(), "2".to_string()));
}

#[test]
fn output_strips_tag_and_trims() {
    let chunks = strings(&["  Hi Userc33", "dc3 there  "]);
    assert_eq!(strip_tag(&chunks), "  Hi  there  ");
    assert_eq!(final_output(&chunks), "Hi  there");
    assert_eq!(final_output(&strings(&[])), "");
    assert_eq!(final_output(&strings(&["\t a \n"])), "a");
}

#[test]
fn text_helpers() {
    assert!(contains("abcUserc33dc3", USER_CHATTING_NAME_SHORT));
    assert!(contains(USER_CHATTING_NAME, USER_CHATTING_NAME_SHORT));
    assert!(!contains("Userc33dc", USER_CHATTING_NAME_SHORT));
    assert!(contains("abc", ""));
    assert_eq!(remove_all("aXXbXXXc", "XX"), "abXc");
    assert_eq!(remove_all("héllo", "l"), "héo");
    assert!(str_eq("exit", "exit"));
    assert!(!str_eq("exit", "exi"));
    assert_eq!(join_all(&strings(&["a", "", "bc"])), "abc");
}

#[test]
fn client_gathers_until_over() {
    let mut c = Client::new();
    assert_eq!(c.receive(CmdRes::Content(" Why".to_string())), ClientStep::Continue);
    assert_eq!(c.receive(CmdRes::Content(" not Userc33dc3".to_string())), ClientStep::Continue);
    assert_eq!(c.receive(CmdRes::Over), ClientStep::Print("Why not".to_string()));
    assert_eq!(c.receive(CmdRes::Over), ClientStep::Print(String::new()));
}

#[test]
fn client_quits_on_exit() {
    let mut c = Client::new();
    assert_eq!(c.receive(CmdRes::Exit), ClientStep::Quit);
}

#[test]
fn log_level_defaults_and_names() {
    assert_eq!(log_level(&None), 4);
    assert_eq!(log_level_str(&None), "info");
    assert_eq!(log_level(&Some(config_with(None))), 4);
    let names = ["off", "critical", "error", "warning", "info", "debug", "trace"];
    for (i, n) in names.iter().enumerate() {
        assert_eq!(log_level(&Some(config_with(Some(n)))), i);
    }
    assert_eq!(log_level(&Some(config_with(Some("verbose")))), 0);
    assert_eq!(log_level(&Some(config_with(Some("DEBUG")))), 0);
}

#[test]
fn config_defaults() {
    assert_eq!(log_file(&None), "smail-server.log");
    assert_eq!(config_web_listen_or_default(&None), "0.0.0.0");
    assert_eq!(config_web_port_or_default(&None), "8633");
    assert_eq!(config_model_or_default(&None), "phi-2.Q4_0.gguf");
    let empty = Config { web_listen: None, web_port: None, log_level: None, log_file: None, model: None };
    let empty = Some(empty);
    assert_eq!(log_file(&empty), "smail-server.log");
    assert_eq!(config_web_port_or_default(&empty), "8633");
}

#[test]
fn config_given_values() {
    let c = Some(config_with(Some("trace")));
    assert_eq!(log_file(&c), "chat.log");
    assert_eq!(config_web_listen_or_default(&c), "127.0.0.1");
    assert_eq!(config_web_port_or_default(&c), "9000");
    assert_eq!(config_model_or_default(&c), "tiny.gguf");
}

#[test]
fn port_text_decimal() {
    assert_eq!(port_text(0), "0");
    assert_eq!(port_text(7), "7");
    assert_eq!(port_text(80), "80");
    assert_eq!(port_text(8633), "8633");
    assert_eq!(port_text(65535), "65535");
}
