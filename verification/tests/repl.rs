use claude_cli::output::Stream;
use claude_cli::repl::{Action, CommandResult, Display, Event, Key, KeyCode, Repl};
use claude_cli::session::{Message, SessionInfo, Timestamp};
use std::sync::Arc;

const CTRL_C: Key = Key { code: KeyCode::Char('c'), control: true };
const CTRL_D: Key = Key { code: KeyCode::Char('d'), control: true };
const ENTER: Key = Key { code: KeyCode::Enter, control: false };

fn repl(has_hooks: bool) -> Repl<u8, u8> {
    let session = SessionInfo {
        id: "id-1".to_string(),
        model: "m".to_string(),
        working_dir: "/work".to_string(),
    };
    let messages = vec![Message::Recorded(Arc::new(1)), Message::Recorded(Arc::new(2))];
    Repl::new("acme".to_string(), session, has_hooks, messages, Arc::new(5))
}

fn show(messages: &[Message<u8>]) -> Vec<String> {
    messages
        .iter()
        .map(|m| match m {
            Message::User(text) => format!("user {}", text),
            Message::Assistant(text) => format!("assistant {}", text),
            Message::Recorded(m) => format!("recorded {}", m),
        })
        .collect()
}

fn display(is_streaming: bool) -> Display<u8, u8> {
    Display {
        messages: vec![Message::Assistant("shown".to_string())],
        is_streaming,
        streaming_text: "so far".to_string(),
        status_message: Some("busy".to_string()),
        config: Arc::new(8),
    }
}

fn press(repl: &mut Repl<u8, u8>, key: Key, input_is_empty: bool) -> Action<u8> {
    repl.step(Event::Key { key, input_is_empty })
}

fn command(repl: &mut Repl<u8, u8>, result: CommandResult<u8, u8>) -> Action<u8> {
    repl.step(Event::CommandDone(Some(result)))
}

#[test]
fn sessions_begin_at_rest() {
    let repl = repl(false);
    assert_eq!(show(&repl.messages), vec!["recorded 1", "recorded 2"]);
    assert_eq!(show(&repl.display.messages), show(&repl.messages));
    assert!(!repl.display.is_streaming);
    assert_eq!(repl.display.status_message, None);
    assert!(!repl.cancellable);
    assert!(!repl.querying);
}

#[test]
fn control_c_ends_a_session_at_rest() {
    assert!(matches!(press(&mut repl(false), CTRL_C, false), Action::Quit));
}

#[test]
fn control_c_cancels_a_query_and_then_ends_the_session() {
    let mut repl = repl(false);
    assert!(matches!(repl.step(Event::Input("hi".to_string())), Action::StartQuery(_)));
    assert!(repl.display.is_streaming);
    assert!(matches!(press(&mut repl, CTRL_C, true), Action::CancelQuery));
    assert!(!repl.display.is_streaming);
    assert_eq!(repl.display.status_message, Some("Cancelled.".to_string()));
    assert!(matches!(repl.step(Event::Ready), Action::Poll));
    assert!(matches!(press(&mut repl, CTRL_C, true), Action::Quit));
}

#[test]
fn control_c_without_a_query_only_stops_the_display() {
    let mut repl = repl(false);
    repl.display.is_streaming = true;
    assert!(matches!(press(&mut repl, CTRL_C, true), Action::Poll));
    assert!(!repl.display.is_streaming);
}

#[test]
fn control_d_needs_an_empty_line() {
    assert!(matches!(press(&mut repl(false), CTRL_D, true), Action::Quit));
    assert!(matches!(press(&mut repl(false), CTRL_D, false), Action::HandleKey));
}

#[test]
fn plain_letters_go_to_the_display() {
    for code in [KeyCode::Char('c'), KeyCode::Char('d'), KeyCode::Other] {
        let mut repl = repl(false);
        assert!(matches!(press(&mut repl, Key { code, control: false }, true), Action::HandleKey));
        assert!(matches!(repl.step(Event::KeyHandled(display(false))), Action::Drain));
    }
}

#[test]
fn enter_submits_only_when_nothing_streams() {
    let mut repl = repl(false);
    assert!(matches!(press(&mut repl, ENTER, false), Action::TakeInput));
    repl.display.is_streaming = true;
    assert!(matches!(press(&mut repl, ENTER, false), Action::HandleKey));
}

#[test]
fn empty_lines_are_passed_over() {
    let mut repl = repl(true);
    assert!(matches!(repl.step(Event::Input("".to_string())), Action::Poll));
    assert_eq!(repl.messages.len(), 2);
}

#[test]
fn slash_commands_stay_out_of_the_conversation() {
    let mut repl = repl(true);
    match repl.step(Event::Input("/help me".to_string())) {
        Action::RunCommand { input, messages } => {
            assert_eq!(input, "/help me");
            assert_eq!(show(&messages), vec!["recorded 1", "recorded 2"]);
        }
        _ => panic!("no command"),
    }
    assert_eq!(repl.messages.len(), 2);
    assert_eq!(repl.display.messages.len(), 2);
}

#[test]
fn a_prompt_starts_a_query_on_the_conversation() {
    let mut repl = repl(false);
    repl.display.streaming_text = "old".to_string();
    match repl.step(Event::Input("hi".to_string())) {
        Action::StartQuery(messages) => {
            assert_eq!(show(&messages), vec!["recorded 1", "recorded 2", "user hi"]);
        }
        _ => panic!("no query"),
    }
    assert_eq!(show(&repl.messages), vec!["recorded 1", "recorded 2", "user hi"]);
    assert_eq!(show(&repl.display.messages), vec!["recorded 1", "recorded 2", "user hi"]);
    assert!(repl.display.is_streaming);
    assert_eq!(repl.display.streaming_text, "");
    assert!(repl.cancellable);
    assert!(repl.querying);
}

#[test]
fn hooks_hear_of_a_prompt_first() {
    let mut repl = repl(true);
    match repl.step(Event::Input("hi".to_string())) {
        Action::RunHooks { context, input } => {
            assert_eq!(input, "hi");
            assert_eq!(context.event, "UserPromptSubmit");
            assert_eq!(context.tool_name, None);
            assert_eq!(context.tool_input, None);
            assert_eq!(context.tool_output, Some("hi".to_string()));
            assert_eq!(context.is_error, None);
            assert_eq!(context.session_id, Some("id-1".to_string()));
        }
        _ => panic!("no hooks"),
    }
    assert_eq!(repl.messages.len(), 2);
    match repl.step(Event::HooksDone("hi".to_string())) {
        Action::StartQuery(messages) => assert_eq!(messages.len(), 3),
        _ => panic!("no query"),
    }
}

#[test]
fn the_exit_command_ends_the_session() {
    assert!(matches!(command(&mut repl(false), CommandResult::Exit), Action::Quit));
}

#[test]
fn clearing_empties_both_lists() {
    let mut repl = repl(false);
    assert!(matches!(command(&mut repl, CommandResult::ClearConversation), Action::Poll));
    assert!(repl.messages.is_empty());
    assert!(repl.display.messages.is_empty());
    assert_eq!(repl.display.status_message, Some("Conversation cleared.".to_string()));
}

#[test]
fn rewinding_tells_how_many_messages_went() {
    let mut session = repl(false);
    assert!(matches!(
        command(&mut session, CommandResult::SetMessages(vec![Message::User("a".to_string())])),
        Action::Poll
    ));
    assert_eq!(session.display.status_message, Some("Rewound 1 message.".to_string()));
    assert_eq!(show(&session.messages), vec!["user a"]);
    assert_eq!(show(&session.display.messages), vec!["user a"]);

    let mut session = repl(false);
    command(&mut session, CommandResult::SetMessages(vec![]));
    assert_eq!(session.display.status_message, Some("Rewound 2 messages.".to_string()));

    let longer = vec![
        Message::User("a".to_string()),
        Message::User("b".to_string()),
        Message::User("c".to_string()),
    ];
    let mut session = repl(false);
    command(&mut session, CommandResult::SetMessages(longer));
    assert_eq!(session.display.status_message, Some("Rewound 0 messages.".to_string()));
    assert_eq!(session.messages.len(), 3);
}

#[test]
fn messages_of_commands_are_shown_and_not_sent() {
    let mut repl = repl(false);
    assert!(matches!(command(&mut repl, CommandResult::Message("info".to_string())), Action::Poll));
    assert_eq!(repl.messages.len(), 2);
    assert_eq!(show(&repl.display.messages), vec!["recorded 1", "recorded 2", "assistant info"]);
}

#[test]
fn messages_for_the_model_are_sent() {
    for has_hooks in [false, true] {
        let mut repl = repl(has_hooks);
        match command(&mut repl, CommandResult::UserMessage("look".to_string())) {
            Action::StartQuery(messages) => {
                assert_eq!(show(&messages), vec!["recorded 1", "recorded 2", "user look"]);
            }
            _ => panic!("no query"),
        }
        assert_eq!(show(&repl.messages), vec!["recorded 1", "recorded 2", "user look"]);
        assert_eq!(show(&repl.display.messages), vec!["recorded 1", "recorded 2", "user look"]);
        assert!(repl.display.is_streaming);
        assert!(repl.cancellable);
        assert!(repl.querying);
    }
}

#[test]
fn configuration_changes_reach_display_and_commands() {
    let mut repl = repl(false);
    command(&mut repl, CommandResult::ConfigChange(Arc::new(6)));
    assert_eq!(*repl.display.config, 6);
    assert_eq!(*repl.command_config, 6);
    assert_eq!(repl.display.status_message, Some("Configuration updated.".to_string()));
    command(&mut repl, CommandResult::ConfigChangeMessage(Arc::new(7), "dark".to_string()));
    assert_eq!(*repl.display.config, 7);
    assert_eq!(*repl.command_config, 7);
    assert_eq!(repl.display.status_message, Some("dark".to_string()));
}

#[test]
fn failed_commands_show_in_the_status_line() {
    let mut repl = repl(false);
    assert!(matches!(command(&mut repl, CommandResult::Error("no".to_string())), Action::Poll));
    assert_eq!(repl.display.status_message, Some("Error: no".to_string()));
}

#[test]
fn silent_and_unknown_commands_change_nothing() {
    let mut repl = repl(false);
    assert!(matches!(command(&mut repl, CommandResult::Silent), Action::Poll));
    assert!(matches!(repl.step(Event::CommandDone(None)), Action::Poll));
    assert_eq!(repl.messages.len(), 2);
    assert_eq!(repl.display.status_message, None);
}

#[test]
fn a_successful_login_ends_the_session() {
    let mut repl = repl(false);
    assert!(matches!(
        command(&mut repl, CommandResult::StartOAuthFlow(true)),
        Action::Login { with_claude_ai: true }
    ));
    match repl.step(Event::LoginDone(Ok(()))) {
        Action::LeaveAfterLogin(report) => {
            assert_eq!(report.output.len(), 1);
            assert_eq!(report.output[0].stream, Stream::Stderr);
            assert_eq!(
                report.output[0].text,
                "\nLogin successful! Please restart acme to use the new credentials.\n"
            );
        }
        _ => panic!("session goes on"),
    }
    assert_eq!(repl.display.status_message, Some("Login successful!".to_string()));
}

#[test]
fn after_a_failed_login_the_session_goes_on() {
    let mut repl = repl(false);
    assert!(matches!(
        command(&mut repl, CommandResult::StartOAuthFlow(false)),
        Action::Login { with_claude_ai: false }
    ));
    match repl.step(Event::LoginDone(Err("denied".to_string()))) {
        Action::ResumeAfterLogin(report) => {
            assert_eq!(report.output[0].stream, Stream::Stderr);
            assert_eq!(report.output[0].text, "\nLogin failed: denied\n");
        }
        _ => panic!("session ended"),
    }
    assert!(matches!(repl.step(Event::Ready), Action::Poll));
}

#[test]
fn an_ended_query_is_collected_and_saved() {
    let mut repl = repl(false);
    repl.step(Event::Input("hi".to_string()));
    assert!(matches!(repl.step(Event::Idle), Action::Drain));
    assert!(matches!(repl.step(Event::Drained { display: display(true), task_finished: false }), Action::Settle));
    assert!(matches!(repl.step(Event::Settled { should_quit: false }), Action::Poll));
    assert!(matches!(repl.step(Event::Idle), Action::Drain));
    assert!(matches!(repl.step(Event::Drained { display: display(true), task_finished: true }), Action::CollectQuery));
    let messages = vec![Message::User("hi".to_string()), Message::Recorded(Arc::new(9))];
    let created_at = Timestamp { seconds: 1, nanoseconds: 0 };
    let updated_at = Timestamp { seconds: 2, nanoseconds: 0 };
    match repl.step(Event::QueryDone { messages, created_at, updated_at }) {
        Action::SaveSession(record) => {
            assert_eq!(record.id, "id-1");
            assert_eq!(record.model, "m");
            assert_eq!(record.working_dir, Some("/work".to_string()));
            assert_eq!(record.title, None);
            assert_eq!(record.created_at, created_at);
            assert_eq!(record.updated_at, updated_at);
            assert_eq!(show(&record.messages), vec!["user hi", "recorded 9"]);
        }
        _ => panic!("not saved"),
    }
    assert_eq!(show(&repl.messages), vec!["user hi", "recorded 9"]);
    assert!(!repl.display.is_streaming);
    assert!(!repl.querying);
    assert_eq!(repl.display.status_message, None);
}

#[test]
fn nothing_is_collected_without_a_query() {
    assert!(matches!(
        repl(false).step(Event::Drained { display: display(true), task_finished: true }),
        Action::Settle
    ));
}

#[test]
fn the_display_can_end_the_session() {
    assert!(matches!(repl(false).step(Event::Settled { should_quit: true }), Action::Quit));
    assert!(matches!(repl(false).step(Event::Settled { should_quit: false }), Action::Poll));
}

#[test]
fn what_the_display_changed_is_taken_over() {
    let mut session = repl(false);
    session.step(Event::KeyHandled(display(true)));
    assert_eq!(show(&session.display.messages), vec!["assistant shown"]);
    assert!(session.display.is_streaming);
    assert_eq!(session.display.streaming_text, "so far");
    assert_eq!(session.display.status_message, Some("busy".to_string()));
    assert_eq!(*session.display.config, 8);
    assert_eq!(*session.command_config, 5);
    assert_eq!(show(&session.messages), vec!["recorded 1", "recorded 2"]);
    session.step(Event::Drained { display: display(false), task_finished: false });
    assert!(!session.display.is_streaming);
}
