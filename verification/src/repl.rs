//! The interactive session: what each key, command and finished query leads to.
//!
//! [`Repl::step`] takes what just happened and says what to do next. Drawing, reading keys,
//! running commands, hooks and queries, and saving are left to the caller, who reports back with
//! the next [`Event`].

use crate::json::{json_tree, Json};
use crate::output::{silence, Report, Reported, Stream, Written};
use crate::session::{
    add_message, copy_messages, recorded, said, session_record, Message, Said, Saved, SessionInfo,
    SessionRecord, Timestamp,
};
use crate::text::{begins_with, decimal, decimal_text, starts_with_char, text_of};
use serde_json::Value;
use std::sync::Arc;
use vstd::prelude::*;
use vstd::string::*;

verus! {

/// The keys that the session tells apart.
#[derive(Clone, Copy, Debug, PartialEq, Eq, Structural)]
pub enum KeyCode {
    Char(char),
    Enter,
    Other,
}

/// A key press; `control` tells whether the control key was among the modifiers.
#[derive(Clone, Copy, Debug, PartialEq, Eq, Structural)]
pub struct Key {
    pub code: KeyCode,
    pub control: bool,
}

/// What a slash command asks of the session.
pub enum CommandResult<M, C> {
    Exit,
    ClearConversation,
    SetMessages(Vec<Message<M>>),
    Message(String),
    ConfigChange(Arc<C>),
    ConfigChangeMessage(Arc<C>, String),
    UserMessage(String),
    StartOAuthFlow(bool),
    Error(String),
    Silent,
}

/// What just happened.
pub enum Event<M, C> {
    /// A key was pressed.
    Key { key: Key, input_is_empty: bool },
    /// No key was pressed.
    Idle,
    /// The display has dealt with the key that it was handed, and now stands like this.
    KeyHandled(Display<M, C>),
    /// The input line was taken from the display.
    Input(String),
    /// A slash command ran; there is no result where no command has that name.
    CommandDone(Option<CommandResult<M, C>>),
    /// The login flow ended.
    LoginDone(Result<(), String>),
    /// The hooks for this prompt ran.
    HooksDone(String),
    /// The last action is done and there is nothing to tell of it.
    Ready,
    /// The display has taken in all query events and now stands like this; tells whether the
    /// running query's task ended.
    Drained { display: Display<M, C>, task_finished: bool },
    /// The ended query's messages, and the times at which its session is recorded.
    QueryDone { messages: Vec<Message<M>>, created_at: Timestamp, updated_at: Timestamp },
    /// The turn of the loop is over; tells whether the display asks to quit.
    Settled { should_quit: bool },
}

/// What hooks are told of a submitted prompt.
pub struct HookContext {
    pub event: String,
    pub tool_name: Option<String>,
    pub tool_input: Option<Value>,
    pub tool_output: Option<String>,
    pub is_error: Option<bool>,
    pub session_id: Option<String>,
}

/// What to do next; each says which event answers it.
pub enum Action<M> {
    /// Draw, then wait briefly for a key: `Key` or `Idle`.
    Poll,
    /// End the session.
    Quit,
    /// Cancel the current query: `Ready`.
    CancelQuery,
    /// Hand the key to the display: `KeyHandled`.
    HandleKey,
    /// Take the input line from the display: `Input`.
    TakeInput,
    /// Run a slash command on these messages: `CommandDone`.
    RunCommand { input: String, messages: Vec<Message<M>> },
    /// Give the terminal back and run the login flow: `LoginDone`.
    Login { with_claude_ai: bool },
    /// Write the report, then end the session.
    LeaveAfterLogin(Report),
    /// Write the report and set the terminal up again: `Ready`.
    ResumeAfterLogin(Report),
    /// Run the hooks for this prompt: `HooksDone`.
    RunHooks { context: HookContext, input: String },
    /// Start a query on these messages: `Ready`.
    StartQuery(Vec<Message<M>>),
    /// Let the display take in all waiting query events: `Drained`.
    Drain,
    /// Collect the messages of the ended query: `QueryDone`.
    CollectQuery,
    /// Save the session: `Settled`.
    SaveSession(SessionRecord<M>),
    /// End the turn of the loop: `Settled`.
    Settle,
}

/// What hooks are told, as contracts see it.
pub struct HookTold {
    pub event: Seq<char>,
    pub tool_name: Option<Seq<char>>,
    pub tool_input: Option<Json>,
    pub tool_output: Option<Seq<char>>,
    pub is_error: Option<bool>,
    pub session_id: Option<Seq<char>>,
}

impl View for HookContext {
    type V = HookTold;

    open spec fn view(&self) -> HookTold {
        HookTold {
            event: self.event@,
            tool_name: text_of(self.tool_name),
            tool_input: match self.tool_input {
                Some(input) => Some(json_tree(input)),
                None => None,
            },
            tool_output: text_of(self.tool_output),
            is_error: self.is_error,
            session_id: text_of(self.session_id),
        }
    }
}

/// An [`Action`], as contracts see it.
pub enum Todo<M> {
    Poll,
    Quit,
    CancelQuery,
    HandleKey,
    TakeInput,
    RunCommand { input: Seq<char>, messages: Seq<Said<M>> },
    Login { with_claude_ai: bool },
    LeaveAfterLogin(Reported),
    ResumeAfterLogin(Reported),
    RunHooks { context: HookTold, input: Seq<char> },
    StartQuery(Seq<Said<M>>),
    Drain,
    CollectQuery,
    SaveSession(Saved<M>),
    Settle,
}

impl<M> View for Action<M> {
    type V = Todo<M>;

    open spec fn view(&self) -> Todo<M> {
        match self {
            Action::Poll => Todo::Poll,
            Action::Quit => Todo::Quit,
            Action::CancelQuery => Todo::CancelQuery,
            Action::HandleKey => Todo::HandleKey,
            Action::TakeInput => Todo::TakeInput,
            Action::RunCommand { input, messages } => Todo::RunCommand {
                input: input@,
                messages: said(messages@),
            },
            Action::Login { with_claude_ai } => Todo::Login { with_claude_ai: *with_claude_ai },
            Action::LeaveAfterLogin(report) => Todo::LeaveAfterLogin(report@),
            Action::ResumeAfterLogin(report) => Todo::ResumeAfterLogin(report@),
            Action::RunHooks { context, input } => Todo::RunHooks {
                context: context@,
                input: input@,
            },
            Action::StartQuery(messages) => Todo::StartQuery(said(messages@)),
            Action::Drain => Todo::Drain,
            Action::CollectQuery => Todo::CollectQuery,
            Action::SaveSession(record) => Todo::SaveSession(record@),
            Action::Settle => Todo::Settle,
        }
    }
}

/// What the display shows. Besides the session, the display itself changes this: when it deals
/// with a key, and when it takes in query events.
pub struct Display<M, C> {
    /// The conversation that is shown.
    pub messages: Vec<Message<M>>,
    /// Whether an answer is streaming in.
    pub is_streaming: bool,
    /// The answer so far.
    pub streaming_text: String,
    /// The message in the status line.
    pub status_message: Option<String>,
    /// The configuration that the display uses.
    pub config: Arc<C>,
}

/// A [`Display`], as contracts see it.
pub struct Displayed<M, C> {
    pub messages: Seq<Said<M>>,
    pub is_streaming: bool,
    pub streaming_text: Seq<char>,
    pub status_message: Option<Seq<char>>,
    pub config: C,
}

impl<M, C> View for Display<M, C> {
    type V = Displayed<M, C>;

    open spec fn view(&self) -> Displayed<M, C> {
        Displayed {
            messages: said(self.messages@),
            is_streaming: self.is_streaming,
            streaming_text: self.streaming_text@,
            status_message: text_of(self.status_message),
            config: *self.config,
        }
    }
}

/// The state of an interactive session. `M` is a recorded message, `C` a configuration.
pub struct Repl<M, C> {
    /// The program's name.
    pub program: String,
    /// What the session is saved under; fixed from the start.
    pub session: SessionInfo,
    /// Whether hooks were configured at the start.
    pub has_hooks: bool,
    /// The conversation, which queries and commands work on.
    pub messages: Vec<Message<M>>,
    /// What the display shows.
    pub display: Display<M, C>,
    /// The configuration that commands work on.
    pub command_config: Arc<C>,
    /// Whether some query can be told to stop.
    pub cancellable: bool,
    /// Whether a query's outcome is still to be collected.
    pub querying: bool,
}

/// The state of an interactive session, as contracts see it.
pub struct ReplState<M, C> {
    pub program: Seq<char>,
    pub session: SessionInfo,
    pub has_hooks: bool,
    pub messages: Seq<Said<M>>,
    pub display: Displayed<M, C>,
    pub command_config: C,
    pub cancellable: bool,
    pub querying: bool,
}

impl<M, C> View for Repl<M, C> {
    type V = ReplState<M, C>;

    open spec fn view(&self) -> ReplState<M, C> {
        ReplState {
            program: self.program@,
            session: self.session,
            has_hooks: self.has_hooks,
            messages: said(self.messages@),
            display: self.display@,
            command_config: *self.command_config,
            cancellable: self.cancellable,
            querying: self.querying,
        }
    }
}

/// Control and the letter `c`.
pub open spec fn is_interrupt(key: Key) -> bool {
    key.code == KeyCode::Char('c') && key.control
}

/// Control and the letter `d`.
pub open spec fn is_end_of_input(key: Key) -> bool {
    key.code == KeyCode::Char('d') && key.control
}

/// What hooks are told of the prompt `input`.
pub open spec fn prompt_told(input: Seq<char>, session_id: Seq<char>) -> HookTold {
    HookTold {
        event: "UserPromptSubmit"@,
        tool_name: None,
        tool_input: None,
        tool_output: Some(input),
        is_error: None,
        session_id: Some(session_id),
    }
}

/// The status line after the conversation lost `removed` messages.
pub open spec fn rewound(removed: nat) -> Seq<char> {
    "Rewound "@ + decimal(removed) + " message"@ + (if removed == 1 {
        ""@
    } else {
        "s"@
    }) + "."@
}

/// How many messages fewer than `before` are left in `after`.
pub open spec fn lost(before: nat, after: nat) -> nat {
    if before >= after {
        (before - after) as nat
    } else {
        0
    }
}

impl<M, C> ReplState<M, C> {
    /// The same state under another status line.
    pub open spec fn with_status(self, status: Seq<char>) -> Self {
        ReplState {
            display: Displayed { status_message: Some(status), ..self.display },
            ..self
        }
    }

    /// The same state with another conversation on display.
    pub open spec fn showing(self, messages: Seq<Said<M>>) -> Self {
        ReplState { display: Displayed { messages, ..self.display }, ..self }
    }

    /// The same state with nothing streaming.
    pub open spec fn stopped(self) -> Self {
        ReplState { display: Displayed { is_streaming: false, ..self.display }, ..self }
    }

    /// The same state under another configuration.
    pub open spec fn with_config(self, config: C) -> Self {
        ReplState {
            display: Displayed { config, ..self.display },
            command_config: config,
            ..self
        }
    }

    /// The state after a key, and what to do about it.
    pub open spec fn after_key(self, key: Key, input_is_empty: bool) -> (Self, Todo<M>) {
        if is_interrupt(key) {
            if self.display.is_streaming {
                (
                    self.stopped().with_status("Cancelled."@),
                    if self.cancellable {
                        Todo::CancelQuery
                    } else {
                        Todo::Poll
                    },
                )
            } else {
                (self, Todo::Quit)
            }
        } else if is_end_of_input(key) && input_is_empty {
            (self, Todo::Quit)
        } else if key.code == KeyCode::Enter && !self.display.is_streaming {
            (self, Todo::TakeInput)
        } else {
            (self, Todo::HandleKey)
        }
    }

    /// The state once a query on the prompt `input` has started, and the messages that it is
    /// started on.
    pub open spec fn after_prompt(self, input: Seq<char>) -> (Self, Todo<M>) {
        let messages = self.messages.push(Said::User(input));
        (
            ReplState {
                messages,
                display: Displayed {
                    messages: self.display.messages.push(Said::User(input)),
                    is_streaming: true,
                    streaming_text: Seq::empty(),
                    ..self.display
                },
                cancellable: true,
                querying: true,
                ..self
            },
            Todo::StartQuery(messages),
        )
    }

    /// The state after the input line was taken, and what to do with it: nothing if it is empty,
    /// a command if it begins with a slash, else a prompt, of which hooks hear first.
    pub open spec fn after_input(self, input: Seq<char>) -> (Self, Todo<M>) {
        if input.len() == 0 {
            (self, Todo::Poll)
        } else if begins_with(input, '/') {
            (self, Todo::RunCommand { input, messages: self.messages })
        } else if self.has_hooks {
            (self, Todo::RunHooks { context: prompt_told(input, self.session.id@), input })
        } else {
            self.after_prompt(input)
        }
    }

    /// The state after a slash command, and what to do next. A message for the model that a
    /// command gives is sent like a prompt; hooks hear only of what the user typed.
    pub open spec fn after_command(self, result: Option<CommandResult<M, C>>) -> (Self, Todo<M>) {
        match result {
            Some(CommandResult::Exit) => (self, Todo::Quit),
            Some(CommandResult::ClearConversation) => (
                ReplState { messages: Seq::empty(), ..self }.showing(Seq::empty()).with_status(
                    "Conversation cleared."@,
                ),
                Todo::Poll,
            ),
            Some(CommandResult::SetMessages(messages)) => (
                ReplState { messages: said(messages@), ..self }.showing(
                    said(messages@),
                ).with_status(rewound(lost(self.messages.len(), messages@.len()))),
                Todo::Poll,
            ),
            Some(CommandResult::Message(text)) => (
                self.showing(self.display.messages.push(Said::Assistant(text@))),
                Todo::Poll,
            ),
            Some(CommandResult::ConfigChange(config)) => (
                self.with_config(*config).with_status("Configuration updated."@),
                Todo::Poll,
            ),
            Some(CommandResult::ConfigChangeMessage(config, text)) => (
                self.with_config(*config).with_status(text@),
                Todo::Poll,
            ),
            Some(CommandResult::UserMessage(text)) => self.after_prompt(text@),
            Some(CommandResult::StartOAuthFlow(with_claude_ai)) => (
                self,
                Todo::Login { with_claude_ai },
            ),
            Some(CommandResult::Error(text)) => (
                self.with_status("Error: "@ + text@),
                Todo::Poll,
            ),
            Some(CommandResult::Silent) => (self, Todo::Poll),
            None => (self, Todo::Poll),
        }
    }

    /// The state after the login flow, and how the session goes on. New credentials need a
    /// restart.
    pub open spec fn after_login(self, outcome: Result<(), String>) -> (Self, Todo<M>) {
        match outcome {
            Ok(_) => (
                self.with_status("Login successful!"@),
                Todo::LeaveAfterLogin(
                    silence().say(
                        Stream::Stderr,
                        "\nLogin successful! Please restart "@ + self.program
                            + " to use the new credentials."@,
                    ),
                ),
            ),
            Err(reason) => (
                self,
                Todo::ResumeAfterLogin(
                    silence().say(Stream::Stderr, "\nLogin failed: "@ + reason@),
                ),
            ),
        }
    }

    /// The state once an ended query's messages are taken over, and the record to save.
    pub open spec fn after_query(
        self,
        messages: Seq<Said<M>>,
        created_at: Timestamp,
        updated_at: Timestamp,
    ) -> (Self, Todo<M>) {
        (
            ReplState {
                messages,
                display: Displayed { is_streaming: false, status_message: None, ..self.display },
                querying: false,
                ..self
            },
            Todo::SaveSession(recorded(self.session, messages, created_at, updated_at)),
        )
    }

    /// The state after an event, and what to do next.
    pub open spec fn after(self, event: Event<M, C>) -> (Self, Todo<M>) {
        match event {
            Event::Key { key, input_is_empty } => self.after_key(key, input_is_empty),
            Event::Idle => (self, Todo::Drain),
            Event::KeyHandled(display) => (ReplState { display: display@, ..self }, Todo::Drain),
            Event::Input(input) => self.after_input(input@),
            Event::CommandDone(result) => self.after_command(result),
            Event::LoginDone(outcome) => self.after_login(outcome),
            Event::HooksDone(input) => self.after_prompt(input@),
            Event::Ready => (self, Todo::Poll),
            Event::Drained { display, task_finished } => (
                ReplState { display: display@, ..self },
                if self.querying && task_finished {
                    Todo::CollectQuery
                } else {
                    Todo::Settle
                },
            ),
            Event::QueryDone { messages, created_at, updated_at } => self.after_query(
                said(messages@),
                created_at,
                updated_at,
            ),
            Event::Settled { should_quit } => (
                self,
                if should_quit {
                    Todo::Quit
                } else {
                    Todo::Poll
                },
            ),
        }
    }

    /// A query whose outcome is still to be collected can be cancelled.
    pub open spec fn well_formed(self) -> bool {
        self.querying ==> self.cancellable
    }
}

impl<M, C> Repl<M, C> {
    /// A session that begins with `messages`; the first thing to do is [`Action::Poll`].
    pub fn new(
        program: String,
        session: SessionInfo,
        has_hooks: bool,
        messages: Vec<Message<M>>,
        config: Arc<C>,
    ) -> (repl: Repl<M, C>)
        ensures
            repl@ == (ReplState {
                program: program@,
                session,
                has_hooks,
                messages: said(messages@),
                display: Displayed {
                    messages: said(messages@),
                    is_streaming: false,
                    streaming_text: Seq::empty(),
                    status_message: None,
                    config: *config,
                },
                command_config: *config,
                cancellable: false,
                querying: false,
            }),
            repl@.well_formed(),
    {
        let shown: Vec<Message<M>> = copy_messages(&messages);
        Repl {
            program,
            session,
            has_hooks,
            messages,
            display: Display {
                messages: shown,
                is_streaming: false,
                streaming_text: String::new(),
                status_message: None,
                config: config.clone(),
            },
            command_config: config,
            cancellable: false,
            querying: false,
        }
    }

    /// Takes in what just happened and says what to do next.
    pub fn step(&mut self, event: Event<M, C>) -> (action: Action<M>)
        ensures
            (final(self)@, action@) == old(self)@.after(event),
            old(self)@.well_formed() ==> final(self)@.well_formed(),
    {
        match event {
            Event::Key { key, input_is_empty } => self.on_key(key, input_is_empty),
            Event::Idle => Action::Drain,
            Event::KeyHandled(display) => {
                self.display = display;
                Action::Drain
            },
            Event::Input(input) => self.on_input(input),
            Event::CommandDone(result) => self.on_command(result),
            Event::LoginDone(outcome) => self.on_login(outcome),
            Event::HooksDone(input) => self.on_prompt(input),
            Event::Ready => Action::Poll,
            Event::Drained { display, task_finished } => {
                self.display = display;
                if self.querying && task_finished {
                    Action::CollectQuery
                } else {
                    Action::Settle
                }
            },
            Event::QueryDone { messages, created_at, updated_at } => self.on_query(
                messages,
                created_at,
                updated_at,
            ),
            Event::Settled { should_quit } => if should_quit {
                Action::Quit
            } else {
                Action::Poll
            },
        }
    }

    fn on_key(&mut self, key: Key, input_is_empty: bool) -> (action: Action<M>)
        ensures
            (final(self)@, action@) == old(self)@.after_key(key, input_is_empty),
    {
        if key.code == KeyCode::Char('c') && key.control {
            if self.display.is_streaming {
                self.display.is_streaming = false;
                self.display.status_message = Some("Cancelled.".to_string());
                if self.cancellable {
                    Action::CancelQuery
                } else {
                    Action::Poll
                }
            } else {
                Action::Quit
            }
        } else if key.code == KeyCode::Char('d') && key.control && input_is_empty {
            Action::Quit
        } else if key.code == KeyCode::Enter && !self.display.is_streaming {
            Action::TakeInput
        } else {
            Action::HandleKey
        }
    }

    fn on_input(&mut self, input: String) -> (action: Action<M>)
        ensures
            (final(self)@, action@) == old(self)@.after_input(input@),
    {
        if input.as_str().is_empty() {
            Action::Poll
        } else if starts_with_char(input.as_str(), '/') {
            Action::RunCommand { input, messages: copy_messages(&self.messages) }
        } else if self.has_hooks {
            let context = HookContext {
                event: "UserPromptSubmit".to_string(),
                tool_name: None,
                tool_input: None,
                tool_output: Some(input.clone()),
                is_error: None,
                session_id: Some(self.session.id.clone()),
            };
            Action::RunHooks { context, input }
        } else {
            self.on_prompt(input)
        }
    }

    fn on_prompt(&mut self, input: String) -> (action: Action<M>)
        ensures
            (final(self)@, action@) == old(self)@.after_prompt(input@),
    {
        add_message(&mut self.messages, Message::User(input.clone()));
        add_message(&mut self.display.messages, Message::User(input));
        self.display.is_streaming = true;
        self.display.streaming_text = String::new();
        self.cancellable = true;
        self.querying = true;
        Action::StartQuery(copy_messages(&self.messages))
    }

    fn on_command(&mut self, result: Option<CommandResult<M, C>>) -> (action: Action<M>)
        ensures
            (final(self)@, action@) == old(self)@.after_command(result),
    {
        match result {
            Some(CommandResult::Exit) => Action::Quit,
            Some(CommandResult::ClearConversation) => {
                self.messages = Vec::new();
                self.display.messages = Vec::new();
                self.display.status_message = Some("Conversation cleared.".to_string());
                proof {
                    assert(said(self.messages@) =~= Seq::empty());
                    assert(said(self.display.messages@) =~= Seq::empty());
                }
                Action::Poll
            },
            Some(CommandResult::SetMessages(messages)) => {
                let before: usize = self.messages.len();
                let after: usize = messages.len();
                let removed: u64 = if before >= after {
                    (before - after) as u64
                } else {
                    0
                };
                self.messages = copy_messages(&messages);
                self.display.messages = messages;
                let ending: &str = if removed == 1 {
                    ""
                } else {
                    "s"
                };
                self.display.status_message = Some(
                    "Rewound ".to_string().concat(decimal_text(removed).as_str()).concat(
                        " message",
                    ).concat(ending).concat("."),
                );
                Action::Poll
            },
            Some(CommandResult::Message(text)) => {
                add_message(&mut self.display.messages, Message::Assistant(text));
                Action::Poll
            },
            Some(CommandResult::ConfigChange(config)) => {
                self.command_config = config.clone();
                self.display.config = config;
                self.display.status_message = Some("Configuration updated.".to_string());
                Action::Poll
            },
            Some(CommandResult::ConfigChangeMessage(config, text)) => {
                self.command_config = config.clone();
                self.display.config = config;
                self.display.status_message = Some(text);
                Action::Poll
            },
            Some(CommandResult::UserMessage(text)) => self.on_prompt(text),
            Some(CommandResult::StartOAuthFlow(with_claude_ai)) => Action::Login { with_claude_ai },
            Some(CommandResult::Error(text)) => {
                self.display.status_message = Some("Error: ".to_string().concat(text.as_str()));
                Action::Poll
            },
            Some(CommandResult::Silent) => Action::Poll,
            None => Action::Poll,
        }
    }

    fn on_login(&mut self, outcome: Result<(), String>) -> (action: Action<M>)
        ensures
            (final(self)@, action@) == old(self)@.after_login(outcome),
    {
        match outcome {
            Ok(_) => {
                self.display.status_message = Some("Login successful!".to_string());
                let text: String = "\nLogin successful! Please restart ".to_string().concat(
                    self.program.as_str(),
                ).concat(" to use the new credentials.");
                Action::LeaveAfterLogin(Report::new().say(Stream::Stderr, text))
            },
            Err(reason) => {
                let text: String = "\nLogin failed: ".to_string().concat(reason.as_str());
                Action::ResumeAfterLogin(Report::new().say(Stream::Stderr, text))
            },
        }
    }

    fn on_query(
        &mut self,
        messages: Vec<Message<M>>,
        created_at: Timestamp,
        updated_at: Timestamp,
    ) -> (action: Action<M>)
        ensures
            (final(self)@, action@) == old(self)@.after_query(
                said(messages@),
                created_at,
                updated_at,
            ),
    {
        self.messages = messages;
        self.display.is_streaming = false;
        self.display.status_message = None;
        self.querying = false;
        Action::SaveSession(session_record(&self.session, &self.messages, created_at, updated_at))
    }
}

/// The state after a run of events.
pub open spec fn after_all<M, C>(start: ReplState<M, C>, events: Seq<Event<M, C>>) -> ReplState<M, C>
    decreases events.len(),
{
    if events.len() == 0 {
        start
    } else {
        after_all(start, events.drop_last()).after(events.last()).0
    }
}

/// However a session runs, a query whose outcome is still to be collected can be cancelled, and
/// the session keeps the identity, the program name and the hooks that it started with.
pub proof fn sessions_stay_sound<M, C>(start: ReplState<M, C>, events: Seq<Event<M, C>>)
    requires
        start.well_formed(),
    ensures
        after_all(start, events).well_formed(),
        after_all(start, events).session == start.session,
        after_all(start, events).program == start.program,
        after_all(start, events).has_hooks == start.has_hooks,
    decreases events.len(),
{
    if events.len() > 0 {
        sessions_stay_sound(start, events.drop_last());
    }
}

/// Control-C while an answer streams in reaches the query that is still to be collected.
pub proof fn interrupt_reaches_the_query<M, C>(
    state: ReplState<M, C>,
    key: Key,
    input_is_empty: bool,
)
    requires
        state.well_formed(),
        state.querying,
        state.display.is_streaming,
        is_interrupt(key),
    ensures
        state.after_key(key, input_is_empty).1 == Todo::<M>::CancelQuery,
{
}

/// Two presses of Control-C with nothing in between end the session, whatever it was doing.
pub proof fn second_interrupt_quits<M, C>(
    state: ReplState<M, C>,
    first: Key,
    second: Key,
    empty_at_first: bool,
    empty_at_second: bool,
)
    requires
        is_interrupt(first),
        is_interrupt(second),
    ensures
        state.after_key(first, empty_at_first).1 == Todo::<M>::Quit || state.after_key(
            first,
            empty_at_first,
        ).0.after_key(second, empty_at_second).1 == Todo::<M>::Quit,
{
}

/// While an answer streams in, Enter submits nothing: the key goes to the display.
pub proof fn enter_waits_for_the_answer<M, C>(
    state: ReplState<M, C>,
    key: Key,
    input_is_empty: bool,
)
    requires
        state.display.is_streaming,
        key.code == KeyCode::Enter,
    ensures
        state.after_key(key, input_is_empty) == (state, Todo::<M>::HandleKey),
{
}

/// Control-D ends the session only on an empty input line.
pub proof fn end_of_input_needs_an_empty_line<M, C>(
    state: ReplState<M, C>,
    key: Key,
    input_is_empty: bool,
)
    requires
        is_end_of_input(key),
    ensures
        state.after_key(key, input_is_empty) == (state, if input_is_empty {
            Todo::<M>::Quit
        } else {
            Todo::<M>::HandleKey
        }),
{
}

/// A line that begins with a slash is never put to the model: it changes nothing by itself and
/// is run as a command on the conversation as it stands.
pub proof fn commands_stay_out_of_the_conversation<M, C>(
    state: ReplState<M, C>,
    input: Seq<char>,
)
    requires
        begins_with(input, '/'),
    ensures
        state.after_input(input) == (
            state,
            Todo::RunCommand { input, messages: state.messages },
        ),
{
}

/// Hooks hear of a prompt and change nothing about it: once they have run, the session stands
/// where it would stand without them, and the same query starts.
pub proof fn hooks_only_listen<M, C>(state: ReplState<M, C>, input: String)
    requires
        state.has_hooks,
        input@.len() > 0,
        !begins_with(input@, '/'),
    ensures
        state.after(Event::Input(input)) == (
            state,
            Todo::<M>::RunHooks { context: prompt_told(input@, state.session.id@), input: input@ },
        ),
        ({
            let bare = ReplState { has_hooks: false, ..state };
            let (without, asked) = bare.after(Event::Input(input));
            state.after(Event::HooksDone(input)) == (
                ReplState { has_hooks: true, ..without },
                asked,
            )
        }),
{
}

/// A message for the model that a command gives leads to the very state and the very query that
/// a prompt of the same text leads to once hooks have run.
pub proof fn messages_of_commands_are_sent<M, C>(state: ReplState<M, C>, text: String)
    ensures
        state.after(Event::CommandDone(Some(CommandResult::UserMessage(text)))) == state.after(
            Event::HooksDone(text),
        ),
        state.after(Event::CommandDone(Some(CommandResult::UserMessage(text)))).1
            == Todo::StartQuery(state.messages.push(Said::User(text@))),
{
}

/// A prompt is added once, at the end, to the conversation and to what is shown, and the query
/// runs on exactly the conversation with the prompt.
pub proof fn prompts_are_added_once<M, C>(state: ReplState<M, C>, input: Seq<char>)
    ensures
        ({
            let (next, asked) = state.after_prompt(input);
            &&& next.messages == state.messages.push(Said::User(input))
            &&& next.display.messages == state.display.messages.push(Said::User(input))
            &&& asked == Todo::StartQuery(next.messages)
        }),
{
}

/// Whether an event may change the conversation: a prompt, an ended query, or a command that
/// clears, replaces or extends it.
pub open spec fn touches_conversation<M, C>(event: Event<M, C>) -> bool {
    match event {
        Event::Input(input) => input@.len() > 0 && !begins_with(input@, '/'),
        Event::HooksDone(_) => true,
        Event::QueryDone { .. } => true,
        Event::CommandDone(Some(CommandResult::ClearConversation)) => true,
        Event::CommandDone(Some(CommandResult::SetMessages(_))) => true,
        Event::CommandDone(Some(CommandResult::UserMessage(_))) => true,
        _ => false,
    }
}

/// Nothing but a prompt, an ended query, or a command that clears, replaces or extends the
/// conversation changes it; a command's message is shown and never sent.
pub proof fn conversation_is_kept<M, C>(state: ReplState<M, C>, event: Event<M, C>)
    requires
        !touches_conversation(event),
    ensures
        state.after(event).0.messages == state.messages,
{
}

/// Whether an event ends the session in `state`.
pub open spec fn ends_session<M, C>(state: ReplState<M, C>, event: Event<M, C>) -> bool {
    match event {
        Event::Key { key, input_is_empty } => {
            ||| is_interrupt(key) && !state.display.is_streaming
            ||| is_end_of_input(key) && input_is_empty
        },
        Event::CommandDone(Some(CommandResult::Exit)) => true,
        Event::LoginDone(Ok(_)) => true,
        Event::Settled { should_quit } => should_quit,
        _ => false,
    }
}

/// A session ends on Control-C with nothing streaming, on Control-D on an empty line, on the exit
/// command, on a successful login or when the display asks to quit, and on nothing else.
pub proof fn sessions_end_when_asked<M, C>(state: ReplState<M, C>, event: Event<M, C>)
    ensures
        (state.after(event).1 is Quit || state.after(event).1 is LeaveAfterLogin) <==> ends_session(
            state,
            event,
        ),
{
}

/// A change of configuration reaches the display and the commands alike, and leaves the
/// conversation, the hooks and the identity of the session alone.
pub proof fn configurations_change_together<M, C>(state: ReplState<M, C>, config: Arc<C>)
    ensures
        ({
            let (next, _) = state.after(Event::CommandDone(Some(CommandResult::ConfigChange(config))));
            &&& next.display.config == *config
            &&& next.command_config == *config
            &&& next.messages == state.messages
            &&& next.display.messages == state.display.messages
            &&& next.has_hooks == state.has_hooks
            &&& next.session == state.session
        }),
{
}

/// The session is saved with the messages of the ended query, under the identity that it has
/// had from the start, and with nothing streaming any more.
pub proof fn ended_queries_are_saved<M, C>(
    state: ReplState<M, C>,
    messages: Vec<Message<M>>,
    created_at: Timestamp,
    updated_at: Timestamp,
)
    ensures
        ({
            let (next, asked) = state.after(Event::QueryDone { messages, created_at, updated_at });
            &&& asked matches Todo::SaveSession(record) && record.messages == next.messages
                && record.id == state.session.id@
            &&& next.messages == said(messages@)
            &&& !next.display.is_streaming
            &&& !next.querying
        }),
{
}

/// Whether an ended query is collected rests with the query alone: once its task has ended it is
/// collected, whatever the display shows and whether or not it still streams; otherwise the turn
/// ends. The display is taken over as it stands, and all else stays.
pub proof fn ended_queries_are_collected<M, C>(
    state: ReplState<M, C>,
    one: Display<M, C>,
    other: Display<M, C>,
    task_finished: bool,
)
    ensures
        ({
            let (next, asked) = state.after(Event::Drained { display: one, task_finished });
            &&& state.querying && task_finished ==> asked is CollectQuery
            &&& !state.querying || !task_finished ==> asked is Settle
            &&& asked == state.after(Event::Drained { display: other, task_finished }).1
            &&& next == (ReplState { display: one@, ..state })
        }),
{
}

/// Control-C stops a streaming answer, says so and cancels the query if there is one to cancel;
/// with nothing streaming it ends the session and changes nothing.
pub proof fn interrupts_stop_or_quit<M, C>(
    state: ReplState<M, C>,
    key: Key,
    input_is_empty: bool,
)
    requires
        key.code == KeyCode::Char('c'),
        key.control,
    ensures
        ({
            let (next, asked) = state.after(Event::Key { key, input_is_empty });
            &&& state.display.is_streaming ==> next == (ReplState {
                display: Displayed {
                    is_streaming: false,
                    status_message: Some("Cancelled."@),
                    ..state.display
                },
                ..state
            })
            &&& state.display.is_streaming && state.cancellable ==> asked is CancelQuery
            &&& state.display.is_streaming && !state.cancellable ==> asked is Poll
            &&& !state.display.is_streaming ==> next == state && asked is Quit
        }),
{
}

/// Every key but Control-C leaves the state alone. Control-D on an empty line ends the session,
/// Enter takes the input line where nothing streams, and all else goes to the display: a letter
/// without the control key, Control-D on a line with text, Enter while an answer streams in.
pub proof fn other_keys_change_nothing<M, C>(
    state: ReplState<M, C>,
    key: Key,
    input_is_empty: bool,
)
    requires
        !(key.code == KeyCode::Char('c') && key.control),
    ensures
        ({
            let (next, asked) = state.after(Event::Key { key, input_is_empty });
            let leaves = key.code == KeyCode::Char('d') && key.control && input_is_empty;
            let submits = key.code is Enter && !state.display.is_streaming;
            &&& next == state
            &&& asked is Quit <==> leaves
            &&& asked is TakeInput <==> submits
            &&& asked is HandleKey <==> !leaves && !submits
        }),
{
}

/// An input line is a command exactly where its first character is a slash, and then runs whole on
/// the whole conversation; an empty one does nothing; any other is told to hooks, if there are
/// any, under the right event, whole, with the identity of the session. None of these changes the
/// state.
pub proof fn input_lines_are_sorted<M, C>(state: ReplState<M, C>, input: String)
    requires
        input@.len() == 0 || input@[0] == '/' || state.has_hooks,
    ensures
        ({
            let (next, asked) = state.after(Event::Input(input));
            &&& next == state
            &&& input@.len() == 0 ==> asked is Poll
            &&& input@.len() > 0 && input@[0] == '/' ==> asked == (Todo::<M>::RunCommand {
                input: input@,
                messages: state.messages,
            })
            &&& input@.len() > 0 && input@[0] != '/' ==> asked == (Todo::<M>::RunHooks {
                context: HookTold {
                    event: "UserPromptSubmit"@,
                    tool_name: None,
                    tool_input: None,
                    tool_output: Some(input@),
                    is_error: None,
                    session_id: Some(state.session.id@),
                },
                input: input@,
            })
        }),
{
}

/// A prompt, whether it comes straight from the input line, from hooks that have run or from a
/// command, joins the conversation and what is shown, whole and last; an answer then streams in
/// from nothing, and the query runs on the conversation with the prompt. Nothing else changes.
pub proof fn prompts_start_queries<M, C>(state: ReplState<M, C>, text: String, event: Event<M, C>)
    requires
        ({
            ||| event == Event::<M, C>::HooksDone(text)
            ||| event == Event::<M, C>::CommandDone(Some(CommandResult::UserMessage(text)))
            ||| event == Event::<M, C>::Input(text) && !state.has_hooks && text@.len() > 0
                && text@[0] != '/'
        }),
    ensures
        ({
            let (next, asked) = state.after(event);
            &&& next == (ReplState {
                messages: state.messages.push(Said::User(text@)),
                display: Displayed {
                    messages: state.display.messages.push(Said::User(text@)),
                    is_streaming: true,
                    streaming_text: Seq::empty(),
                    ..state.display
                },
                cancellable: true,
                querying: true,
                ..state
            })
            &&& asked == Todo::StartQuery(state.messages.push(Said::User(text@)))
        }),
{
}

/// A command that clears empties the conversation and what is shown and says so; one that gives
/// messages puts exactly those in place of both and tells how many fewer they are, never fewer
/// than none. Nothing else changes.
pub proof fn conversations_are_replaced<M, C>(state: ReplState<M, C>, messages: Vec<Message<M>>)
    ensures
        state.after(Event::CommandDone(Some(CommandResult::ClearConversation))) == (
            ReplState {
                messages: Seq::empty(),
                display: Displayed {
                    messages: Seq::empty(),
                    status_message: Some("Conversation cleared."@),
                    ..state.display
                },
                ..state
            },
            Todo::<M>::Poll,
        ),
        ({
            let (next, asked) = state.after(
                Event::CommandDone(Some(CommandResult::SetMessages(messages))),
            );
            let before = state.messages.len();
            let after = messages@.len();
            let removed: nat = if before > after {
                (before - after) as nat
            } else {
                0
            };
            let told = if removed == 1 {
                "Rewound "@ + decimal(removed) + " message"@ + "."@
            } else {
                "Rewound "@ + decimal(removed) + " message"@ + "s"@ + "."@
            };
            &&& next == (ReplState {
                messages: said(messages@),
                display: Displayed {
                    messages: said(messages@),
                    status_message: Some(told),
                    ..state.display
                },
                ..state
            })
            &&& asked is Poll
        }),
{
    reveal_strlit("");
    assert(forall|s: Seq<char>| #[trigger] (s.add(""@)) =~= s);
}

/// A command's message is shown whole and last, as the assistant's, and changes nothing else; its
/// failure is told whole in the status line and changes nothing else; one without a result, or
/// with nothing to tell, changes nothing at all.
pub proof fn command_texts_are_shown<M, C>(state: ReplState<M, C>, text: String)
    ensures
        state.after(Event::CommandDone(Some(CommandResult::Message(text)))) == (
            ReplState {
                display: Displayed {
                    messages: state.display.messages.push(Said::Assistant(text@)),
                    ..state.display
                },
                ..state
            },
            Todo::<M>::Poll,
        ),
        state.after(Event::CommandDone(Some(CommandResult::Error(text)))) == (
            ReplState {
                display: Displayed {
                    status_message: Some("Error: "@ + text@),
                    ..state.display
                },
                ..state
            },
            Todo::<M>::Poll,
        ),
        state.after(Event::CommandDone(Some(CommandResult::Silent))) == (state, Todo::<M>::Poll),
        state.after(Event::CommandDone(None)) == (state, Todo::<M>::Poll),
{
}

/// A new configuration goes to the display and to the commands, with the text that comes with it,
/// or a standard one, in the status line. Nothing else changes.
pub proof fn configurations_are_announced<M, C>(
    state: ReplState<M, C>,
    config: Arc<C>,
    text: String,
)
    ensures
        state.after(Event::CommandDone(Some(CommandResult::ConfigChange(config)))) == (
            ReplState {
                display: Displayed {
                    config: *config,
                    status_message: Some("Configuration updated."@),
                    ..state.display
                },
                command_config: *config,
                ..state
            },
            Todo::<M>::Poll,
        ),
        state.after(Event::CommandDone(Some(CommandResult::ConfigChangeMessage(config, text)))) == (
            ReplState {
                display: Displayed {
                    config: *config,
                    status_message: Some(text@),
                    ..state.display
                },
                command_config: *config,
                ..state
            },
            Todo::<M>::Poll,
        ),
{
}

/// The exit command ends the session, and the login command starts a login of the kind that it
/// asks for; neither changes the state.
pub proof fn commands_leave_or_log_in<M, C>(state: ReplState<M, C>, with_claude_ai: bool)
    ensures
        state.after(Event::CommandDone(Some(CommandResult::Exit))) == (state, Todo::<M>::Quit),
        state.after(Event::CommandDone(Some(CommandResult::StartOAuthFlow(with_claude_ai)))) == (
            state,
            Todo::<M>::Login { with_claude_ai },
        ),
{
}

/// After a login that worked the session ends, with a line on standard error that asks for a
/// restart; after one that did not it goes on as it was, with the whole reason on standard error.
pub proof fn logins_end_or_resume<M, C>(state: ReplState<M, C>, reason: String)
    ensures
        ({
            let (next, asked) = state.after(Event::LoginDone(Ok(())));
            &&& next == (ReplState {
                display: Displayed {
                    status_message: Some("Login successful!"@),
                    ..state.display
                },
                ..state
            })
            &&& asked matches Todo::LeaveAfterLogin(report) && report.exit is None && report.output
                =~= seq![
                Written {
                    stream: Stream::Stderr,
                    text: "\nLogin successful! Please restart "@ + state.program
                        + " to use the new credentials."@ + "\n"@,
                },
            ]
        }),
        ({
            let (next, asked) = state.after(Event::LoginDone(Err(reason)));
            &&& next == state
            &&& asked matches Todo::ResumeAfterLogin(report) && report.exit is None
                && report.output =~= seq![
                Written { stream: Stream::Stderr, text: "\nLogin failed: "@ + reason@ + "\n"@ },
            ]
        }),
{
}

/// An ended query's messages become the conversation, whole; nothing streams or is to be collected
/// any more, the status line is cleared, and the session is saved under its own identity, model
/// and directory, untitled, with those messages and times. Nothing else changes.
pub proof fn ended_queries_are_recorded<M, C>(
    state: ReplState<M, C>,
    messages: Vec<Message<M>>,
    created_at: Timestamp,
    updated_at: Timestamp,
)
    ensures
        state.after(Event::QueryDone { messages, created_at, updated_at }) == (
            ReplState {
                messages: said(messages@),
                display: Displayed { is_streaming: false, status_message: None, ..state.display },
                querying: false,
                ..state
            },
            Todo::SaveSession(
                Saved {
                    id: state.session.id@,
                    created_at,
                    updated_at,
                    messages: said(messages@),
                    model: state.session.model@,
                    title: None,
                    working_dir: Some(state.session.working_dir@),
                },
            ),
        ),
{
}

/// A turn without a key, and one whose key the display has dealt with, go on to the query events;
/// what was asked for and is done leads to the next turn; and a turn ends the session exactly
/// where the display asks for it. Only what the display itself changed is taken over.
pub proof fn turns_follow_one_another<M, C>(
    state: ReplState<M, C>,
    display: Display<M, C>,
    should_quit: bool,
)
    ensures
        state.after(Event::Idle) == (state, Todo::<M>::Drain),
        state.after(Event::KeyHandled(display)) == (
            ReplState { display: display@, ..state },
            Todo::<M>::Drain,
        ),
        state.after(Event::Ready) == (state, Todo::<M>::Poll),
        state.after(Event::Settled { should_quit }).0 == state,
        should_quit ==> state.after(Event::Settled { should_quit }).1 is Quit,
        !should_quit ==> state.after(Event::Settled { should_quit }).1 is Poll,
{
}

/// A session and its display are seen as they stand, field by field.
pub proof fn sessions_are_seen_whole<M, C>(repl: Repl<M, C>, display: Display<M, C>)
    ensures
        repl@.program == repl.program@,
        repl@.session == repl.session,
        repl@.has_hooks == repl.has_hooks,
        repl@.messages == said(repl.messages@),
        repl@.display == repl.display@,
        repl@.command_config == *repl.command_config,
        repl@.cancellable == repl.cancellable,
        repl@.querying == repl.querying,
        display@.messages == said(display.messages@),
        display@.is_streaming == display.is_streaming,
        display@.streaming_text == display.streaming_text@,
        display@.status_message == text_of(display.status_message),
        display@.config == *display.config,
{
}

/// What is asked for is seen as it stands, and so is what hooks are told.
pub proof fn actions_are_seen_whole<M>(action: Action<M>, context: HookContext)
    ensures
        match action {
            Action::Poll => action@ is Poll,
            Action::Quit => action@ is Quit,
            Action::CancelQuery => action@ is CancelQuery,
            Action::HandleKey => action@ is HandleKey,
            Action::TakeInput => action@ is TakeInput,
            Action::RunCommand { input, messages } => action@ == (Todo::RunCommand {
                input: input@,
                messages: said(messages@),
            }),
            Action::Login { with_claude_ai } => action@ == (Todo::<M>::Login { with_claude_ai }),
            Action::LeaveAfterLogin(report) => action@ == Todo::<M>::LeaveAfterLogin(report@),
            Action::ResumeAfterLogin(report) => action@ == Todo::<M>::ResumeAfterLogin(report@),
            Action::RunHooks { context, input } => action@ == (Todo::<M>::RunHooks {
                context: context@,
                input: input@,
            }),
            Action::StartQuery(messages) => action@ == Todo::StartQuery(said(messages@)),
            Action::Drain => action@ is Drain,
            Action::CollectQuery => action@ is CollectQuery,
            Action::SaveSession(record) => action@ == Todo::SaveSession(record@),
            Action::Settle => action@ is Settle,
        },
        context@.event == context.event@,
        context@.tool_name == text_of(context.tool_name),
        context@.tool_input is Some <==> context.tool_input is Some,
        context.tool_input matches Some(input) ==> context@.tool_input == Some(json_tree(input)),
        context@.tool_output == text_of(context.tool_output),
        context@.is_error == context.is_error,
        context@.session_id == text_of(context.session_id),
{
}

/// Whatever happens, a query that has not been collected can be cancelled.
pub proof fn running_queries_can_be_cancelled<M, C>(state: ReplState<M, C>, event: Event<M, C>)
    requires
        state.querying ==> state.cancellable,
    ensures
        state.well_formed(),
        state.after(event).0.querying ==> state.after(event).0.cancellable,
        state.after(event).0.well_formed(),
{
}

} // verus!
