//! The credential commands: logging in, logging out, and telling which credential is in use.

use crate::json::{
    bool_value, json_null_or_string, json_pretty, json_tree, object_value, optional_text,
    pretty_text, text_value, Json,
};
use crate::output::{line, silence, Output, Report, Reported, Stream, Written};
use crate::startup::{has_key, key_is_set};
use crate::text::{any_is, same_text, text_of, texts};
use serde_json::Value;
use vstd::prelude::*;
use vstd::string::*;

verus! {

/// What a credential command asks for.
#[derive(Debug)]
pub enum AuthCommand {
    /// Write the line, then log in: with a subscription account, or else at the console, which
    /// makes an API key.
    Login { announce: Output, with_claude_ai: bool },
    /// Remove stored credentials.
    Logout,
    /// Tell the status.
    Status { json: bool },
    /// Explain the usage.
    Usage(Report),
}

/// An [`AuthCommand`], as contracts see it.
pub enum Asked {
    Login { announce: Written, with_claude_ai: bool },
    Logout,
    Status { json: bool },
    Usage(Reported),
}

impl View for AuthCommand {
    type V = Asked;

    open spec fn view(&self) -> Asked {
        match self {
            AuthCommand::Login { announce, with_claude_ai } => Asked::Login {
                announce: announce@,
                with_claude_ai: *with_claude_ai,
            },
            AuthCommand::Logout => Asked::Logout,
            AuthCommand::Status { json } => Asked::Status { json: *json },
            AuthCommand::Usage(report) => Asked::Usage(report@),
        }
    }
}

/// The name of the service that subscription accounts belong to. It goes with the program's name,
/// which is the same in every run.
pub open spec fn account_service(program: Seq<char>) -> Seq<char> {
    program + ".ai"@
}

/// The name of the service that subscription accounts belong to.
fn account_service_text(program: &str) -> (service: String)
    ensures
        service@ == account_service(program@),
{
    program.to_string().concat(".ai")
}

/// The usage after a command that is not known.
pub open spec fn unknown_usage(program: Seq<char>, unknown: Seq<char>) -> Reported {
    silence().say(Stream::Stderr, "Unknown auth subcommand: '"@ + unknown + "'"@).say(
        Stream::Stderr,
        ""@,
    ).say(Stream::Stderr, "Usage: "@ + program + " auth <subcommand>"@).say(
        Stream::Stderr,
        "  login [--console]   Authenticate ("@ + account_service(program)
            + " by default; --console for API key)"@,
    ).say(Stream::Stderr, "  logout              Remove stored credentials"@).say(
        Stream::Stderr,
        "  status [--json]     Show authentication status"@,
    ).then_exit(1)
}

/// The usage where no command was given.
pub open spec fn missing_usage(program: Seq<char>) -> Reported {
    silence().say(Stream::Stderr, "Usage: "@ + program + " auth <login|logout|status>"@).say(
        Stream::Stderr,
        "  login [--console]   Authenticate with Anthropic"@,
    ).say(Stream::Stderr, "  logout              Remove stored credentials"@).say(
        Stream::Stderr,
        "  status [--json]     Show authentication status"@,
    ).then_exit(1)
}

/// What the arguments of a credential command ask for.
pub open spec fn asked(program: Seq<char>, args: Seq<Seq<char>>) -> Asked {
    if args.len() == 0 {
        Asked::Usage(missing_usage(program))
    } else if args[0] == "login"@ {
        Asked::Login {
            announce: line(Stream::Stdout, "Starting authentication..."@),
            with_claude_ai: !args.contains("--console"@),
        }
    } else if args[0] == "logout"@ {
        Asked::Logout
    } else if args[0] == "status"@ {
        Asked::Status { json: args.contains("--json"@) }
    } else {
        Asked::Usage(unknown_usage(program, args[0]))
    }
}

/// Finds out what the arguments of a credential command ask for.
pub fn auth_command(program: &str, args: &Vec<String>) -> (command: AuthCommand)
    ensures
        command@ == asked(program@, texts(args@)),
{
    if args.len() == 0 {
        return AuthCommand::Usage(
            Report::new().say(
                Stream::Stderr,
                "Usage: ".to_string().concat(program).concat(" auth <login|logout|status>"),
            ).say(
                Stream::Stderr,
                "  login [--console]   Authenticate with Anthropic".to_string(),
            ).say(
                Stream::Stderr,
                "  logout              Remove stored credentials".to_string(),
            ).say(
                Stream::Stderr,
                "  status [--json]     Show authentication status".to_string(),
            ).then_exit(1),
        );
    }
    let name: &str = args[0].as_str();
    proof {
        assert(texts(args@)[0] == name@);
    }
    if same_text(name, "login") {
        return AuthCommand::Login {
            announce: Output::line(Stream::Stdout, "Starting authentication...".to_string()),
            with_claude_ai: !any_is(args, "--console"),
        };
    }
    if same_text(name, "logout") {
        return AuthCommand::Logout;
    }
    if same_text(name, "status") {
        return AuthCommand::Status { json: any_is(args, "--json") };
    }
    let service: String = account_service_text(program);
    AuthCommand::Usage(
        Report::new().say(
            Stream::Stderr,
            "Unknown auth subcommand: '".to_string().concat(name).concat("'"),
        ).say(Stream::Stderr, "".to_string()).say(
            Stream::Stderr,
            "Usage: ".to_string().concat(program).concat(" auth <subcommand>"),
        ).say(
            Stream::Stderr,
            "  login [--console]   Authenticate (".to_string().concat(service.as_str()).concat(
                " by default; --console for API key)",
            ),
        ).say(
            Stream::Stderr,
            "  logout              Remove stored credentials".to_string(),
        ).say(
            Stream::Stderr,
            "  status [--json]     Show authentication status".to_string(),
        ).then_exit(1),
    )
}

/// What a login gave.
#[derive(Debug)]
pub struct LoggedIn {
    pub email: Option<String>,
    pub use_bearer_auth: bool,
}

/// What is written after a login.
pub open spec fn login_reported(program: Seq<char>, outcome: Result<LoggedIn, String>) -> Reported {
    match outcome {
        Ok(login) => {
            let greeting = silence().say(Stream::Stdout, "Successfully logged in!"@);
            let account = match login.email {
                Some(email) => greeting.say(Stream::Stdout, "  Account: "@ + email@),
                None => greeting,
            };
            account.say(
                Stream::Stdout,
                "  Auth method: "@ + (if login.use_bearer_auth {
                    account_service(program)
                } else {
                    "console (API key)"@
                }),
            ).then_exit(0)
        },
        Err(reason) => silence().say(Stream::Stderr, "Login failed: "@ + reason@).then_exit(1),
    }
}

/// Reports what a login came to.
pub fn login_report(program: &str, outcome: Result<LoggedIn, String>) -> (report: Report)
    ensures
        report@ == login_reported(program@, outcome),
{
    match outcome {
        Ok(login) => {
            let greeting = Report::new().say(
                Stream::Stdout,
                "Successfully logged in!".to_string(),
            );
            let account = match login.email {
                Some(email) => greeting.say(
                    Stream::Stdout,
                    "  Account: ".to_string().concat(email.as_str()),
                ),
                None => greeting,
            };
            let method: String = if login.use_bearer_auth {
                account_service_text(program)
            } else {
                "console (API key)".to_string()
            };
            account.say(
                Stream::Stdout,
                "  Auth method: ".to_string().concat(method.as_str()),
            ).then_exit(0)
        },
        Err(reason) => Report::new().say(
            Stream::Stderr,
            "Login failed: ".to_string().concat(reason.as_str()),
        ).then_exit(1),
    }
}

/// The account of a saved login.
#[derive(Debug)]
pub struct Account {
    /// Whether its token is sent as a bearer token.
    pub uses_bearer_auth: bool,
    pub email: Option<String>,
    pub organization_uuid: Option<String>,
    pub subscription_type: Option<String>,
}

/// All credentials that there are.
#[derive(Debug)]
pub struct Credentials {
    /// A saved login.
    pub account: Option<Account>,
    /// The key in the environment.
    pub env_api_key: Option<String>,
    /// The key in the saved settings.
    pub settings_api_key: Option<String>,
}

/// Which credential is in use.
#[derive(Clone, Copy, Debug, PartialEq, Eq, Structural)]
pub enum AuthMethod {
    /// A subscription account.
    Account,
    /// A key that a login made.
    OauthToken,
    /// A key from the environment or the settings.
    ApiKey,
    /// None.
    Nothing,
}

/// Which credential is in use: a saved login before any key.
pub open spec fn method_in_use(credentials: Credentials) -> AuthMethod {
    match credentials.account {
        Some(account) => if account.uses_bearer_auth {
            AuthMethod::Account
        } else {
            AuthMethod::OauthToken
        },
        None => if has_key(text_of(credentials.env_api_key)) || has_key(
            text_of(credentials.settings_api_key),
        ) {
            AuthMethod::ApiKey
        } else {
            AuthMethod::Nothing
        },
    }
}

/// Finds out which credential is in use.
pub fn auth_method(credentials: &Credentials) -> (method: AuthMethod)
    ensures
        method == method_in_use(*credentials),
{
    match &credentials.account {
        Some(account) => if account.uses_bearer_auth {
            AuthMethod::Account
        } else {
            AuthMethod::OauthToken
        },
        None => if key_is_set(&credentials.env_api_key) || key_is_set(
            &credentials.settings_api_key,
        ) {
            AuthMethod::ApiKey
        } else {
            AuthMethod::Nothing
        },
    }
}

/// The name of a method.
pub open spec fn method_name(method: AuthMethod, program: Seq<char>) -> Seq<char> {
    match method {
        AuthMethod::Account => account_service(program),
        AuthMethod::OauthToken => "oauth_token"@,
        AuthMethod::ApiKey => "api_key"@,
        AuthMethod::Nothing => "none"@,
    }
}

/// The name of a method.
pub fn method_name_text(method: AuthMethod, program: &str) -> (name: String)
    ensures
        name@ == method_name(method, program@),
{
    match method {
        AuthMethod::Account => account_service_text(program),
        AuthMethod::OauthToken => "oauth_token".to_string(),
        AuthMethod::ApiKey => "api_key".to_string(),
        AuthMethod::Nothing => "none".to_string(),
    }
}

/// Where a key comes from, as the status in JSON has it.
pub open spec fn key_source(credentials: Credentials) -> Option<Seq<char>> {
    if has_key(text_of(credentials.env_api_key)) {
        Some("ANTHROPIC_API_KEY"@)
    } else if has_key(text_of(credentials.settings_api_key)) {
        Some("settings"@)
    } else {
        None
    }
}

/// The members that every status has.
pub open spec fn status_members(credentials: Credentials, program: Seq<char>) -> Map<
    Seq<char>,
    Json,
> {
    let method = method_in_use(credentials);
    map![
        "loggedIn"@ => Json::Bool(method != AuthMethod::Nothing),
        "authMethod"@ => Json::Text(method_name(method, program)),
    ]
}

/// The members of a status, with the source of the key where there is a key.
pub open spec fn status_members_with_source(credentials: Credentials, program: Seq<char>) -> Map<
    Seq<char>,
    Json,
> {
    match key_source(credentials) {
        Some(source) => status_members(credentials, program).insert(
            "apiKeySource"@,
            Json::Text(source),
        ),
        None => status_members(credentials, program),
    }
}

/// The status in JSON: whether there is a credential and which one, the source of the key where
/// there is a key, and the details of a subscription account.
pub open spec fn status_tree(credentials: Credentials, program: Seq<char>) -> Json {
    let members = status_members_with_source(credentials, program);
    match credentials.account {
        Some(account) => if account.uses_bearer_auth {
            Json::Object(
                members.insert("email"@, optional_text(text_of(account.email))).insert(
                    "orgId"@,
                    optional_text(text_of(account.organization_uuid)),
                ).insert("subscriptionType"@, optional_text(text_of(account.subscription_type))),
            )
        } else {
            Json::Object(members)
        },
        None => Json::Object(members),
    }
}

/// The status in JSON.
pub fn status_json(credentials: &Credentials, program: &str) -> (value: Value)
    ensures
        json_tree(value) == status_tree(*credentials, program@),
{
    let method: AuthMethod = auth_method(credentials);
    let mut object = serde_json::Map::new();
    object.insert("loggedIn".to_string(), bool_value(method != AuthMethod::Nothing));
    object.insert("authMethod".to_string(), text_value(method_name_text(method, program)));
    if key_is_set(&credentials.env_api_key) {
        object.insert(
            "apiKeySource".to_string(),
            text_value("ANTHROPIC_API_KEY".to_string()),
        );
    } else if key_is_set(&credentials.settings_api_key) {
        object.insert("apiKeySource".to_string(), text_value("settings".to_string()));
    }
    if let Some(account) = &credentials.account {
        if account.uses_bearer_auth {
            object.insert("email".to_string(), json_null_or_string(&account.email));
            object.insert("orgId".to_string(), json_null_or_string(&account.organization_uuid));
            object.insert(
                "subscriptionType".to_string(),
                json_null_or_string(&account.subscription_type),
            );
        }
    }
    object_value(object)
}

/// A report with a line more where there is something to say.
pub open spec fn told_if(told: Reported, label: Seq<char>, text: Option<Seq<char>>) -> Reported {
    match text {
        Some(text) => told.say(Stream::Stdout, label + text),
        None => told,
    }
}

/// Adds a line where there is something to say.
fn tell_if(report: Report, label: &str, text: &Option<String>) -> (told: Report)
    ensures
        told@ == told_if(report@, label@, text_of(*text)),
{
    match text {
        Some(text) => report.say(Stream::Stdout, label.to_string().concat(text.as_str())),
        None => report,
    }
}

/// What is told of a saved login.
pub open spec fn account_told(told: Reported, account: Account, program: Seq<char>) -> Reported {
    let email = told_if(told, "  Account: "@, text_of(account.email));
    let organization = told_if(email, "  Organization: "@, text_of(account.organization_uuid));
    let subscription = told_if(
        organization,
        "  Subscription: "@,
        text_of(account.subscription_type),
    );
    subscription.say(
        Stream::Stdout,
        "  Auth method: "@ + (if account.uses_bearer_auth {
            account_service(program)
        } else {
            "Console (OAuth API key)"@
        }),
    )
}

/// The status in words.
pub open spec fn status_told(credentials: Credentials, program: Seq<char>) -> Reported {
    if method_in_use(credentials) == AuthMethod::Nothing {
        silence().say(
            Stream::Stdout,
            "Not logged in. Run `"@ + program + " auth login` to authenticate."@,
        )
    } else {
        let told = silence().say(Stream::Stdout, "Logged in."@);
        match credentials.account {
            Some(account) => account_told(told, account, program),
            None => told.say(
                Stream::Stdout,
                "  API key: "@ + (if has_key(text_of(credentials.env_api_key)) {
                    "ANTHROPIC_API_KEY (environment variable)"@
                } else {
                    "settings.json"@
                }),
            ),
        }
    }
}

/// Tells the status in words.
fn status_words(credentials: &Credentials, program: &str) -> (report: Report)
    ensures
        report@ == status_told(*credentials, program@),
{
    if auth_method(credentials) == AuthMethod::Nothing {
        return Report::new().say(
            Stream::Stdout,
            "Not logged in. Run `".to_string().concat(program).concat(
                " auth login` to authenticate.",
            ),
        );
    }
    let told = Report::new().say(Stream::Stdout, "Logged in.".to_string());
    match &credentials.account {
        Some(account) => {
            let email = tell_if(told, "  Account: ", &account.email);
            let organization = tell_if(email, "  Organization: ", &account.organization_uuid);
            let subscription = tell_if(organization, "  Subscription: ", &account.subscription_type);
            let method: String = if account.uses_bearer_auth {
                account_service_text(program)
            } else {
                "Console (OAuth API key)".to_string()
            };
            subscription.say(
                Stream::Stdout,
                "  Auth method: ".to_string().concat(method.as_str()),
            )
        },
        None => {
            let source: &str = if key_is_set(&credentials.env_api_key) {
                "ANTHROPIC_API_KEY (environment variable)"
            } else {
                "settings.json"
            };
            told.say(Stream::Stdout, "  API key: ".to_string().concat(source))
        },
    }
}

/// The status, in JSON or in words, and the exit status that goes with it.
pub open spec fn status_reported(
    credentials: Credentials,
    program: Seq<char>,
    json_output: bool,
) -> Reported {
    let told = if json_output {
        silence().say(Stream::Stdout, json_pretty(status_tree(credentials, program)))
    } else {
        status_told(credentials, program)
    };
    told.then_exit(
        if method_in_use(credentials) == AuthMethod::Nothing {
            1
        } else {
            0
        },
    )
}

/// Tells the status, in JSON or in words: the program then exits with 0 if there is a credential
/// and with 1 if there is none.
pub fn auth_status(credentials: &Credentials, program: &str, json_output: bool) -> (report: Report)
    ensures
        report@ == status_reported(*credentials, program@, json_output),
{
    let report = if json_output {
        Report::new().say(Stream::Stdout, pretty_text(&status_json(credentials, program)))
    } else {
        status_words(credentials, program)
    };
    if auth_method(credentials) == AuthMethod::Nothing {
        report.then_exit(1)
    } else {
        report.then_exit(0)
    }
}

/// What happened while logging out.
#[derive(Debug)]
pub enum LogoutEvent {
    /// Nothing yet.
    Start,
    /// Clearing the saved login ended.
    TokensCleared(Result<(), String>),
    /// Loading the settings ended; gives the API key in them.
    SettingsLoaded(Result<Option<String>, String>),
    /// Saving the settings without their API key ended.
    SettingsSaved(Result<(), String>),
}

/// What to do next while logging out; each says which event answers it.
#[derive(Debug)]
pub enum LogoutAction {
    /// Clear the saved login: `TokensCleared`.
    ClearTokens,
    /// Load the settings: `SettingsLoaded`.
    LoadSettings,
    /// Take the API key out of the settings and save them: `SettingsSaved`.
    SaveWithoutKey,
    /// Exit as the report says.
    Finish,
}

/// A logout: what there is to write of it so far, and whether a credential may be left.
#[derive(Debug)]
pub struct Logout {
    pub report: Report,
    pub had_error: bool,
}

/// A [`Logout`], as contracts see it.
pub struct LogoutState {
    pub report: Reported,
    pub had_error: bool,
}

impl View for Logout {
    type V = LogoutState;

    open spec fn view(&self) -> LogoutState {
        LogoutState { report: self.report@, had_error: self.had_error }
    }
}

impl LogoutState {
    /// The same logout after a warning; `leaves_credential` tells whether a credential may be left
    /// on account of it.
    pub open spec fn warned(self, text: Seq<char>, leaves_credential: bool) -> LogoutState {
        LogoutState {
            report: self.report.say(Stream::Stderr, "Warning: failed to "@ + text),
            had_error: self.had_error || leaves_credential,
        }
    }

    /// The logout at its end.
    pub open spec fn finished(self) -> LogoutState {
        LogoutState {
            report: if self.had_error {
                self.report.say(Stream::Stderr, "Logout completed with warnings."@).then_exit(1)
            } else {
                self.report.say(
                    Stream::Stdout,
                    "Successfully logged out from your Anthropic account."@,
                ).then_exit(0)
            },
            had_error: self.had_error,
        }
    }

    /// The logout after an event, and what to do next: the saved login is cleared, then any API
    /// key is taken out of the settings. Settings that cannot be read hold no key that could be
    /// taken out, so they are only warned of.
    pub open spec fn after(self, event: LogoutEvent) -> (LogoutState, LogoutAction) {
        match event {
            LogoutEvent::Start => (self, LogoutAction::ClearTokens),
            LogoutEvent::TokensCleared(Ok(_)) => (self, LogoutAction::LoadSettings),
            LogoutEvent::TokensCleared(Err(reason)) => (
                self.warned("clear OAuth tokens: "@ + reason@, true),
                LogoutAction::LoadSettings,
            ),
            LogoutEvent::SettingsLoaded(Ok(Some(_))) => (self, LogoutAction::SaveWithoutKey),
            LogoutEvent::SettingsLoaded(Ok(None)) => (self.finished(), LogoutAction::Finish),
            LogoutEvent::SettingsLoaded(Err(reason)) => (
                self.warned("load settings.json: "@ + reason@, false).finished(),
                LogoutAction::Finish,
            ),
            LogoutEvent::SettingsSaved(Ok(_)) => (self.finished(), LogoutAction::Finish),
            LogoutEvent::SettingsSaved(Err(reason)) => (
                self.warned("update settings.json: "@ + reason@, true).finished(),
                LogoutAction::Finish,
            ),
        }
    }
}

/// A logout at its beginning.
pub open spec fn logout_begun() -> LogoutState {
    LogoutState { report: silence(), had_error: false }
}

impl Logout {
    /// A logout at its beginning.
    pub fn new() -> (logout: Logout)
        ensures
            logout@ == logout_begun(),
    {
        Logout { report: Report::new(), had_error: false }
    }

    /// Takes in what happened and says what to do next.
    pub fn step(self, event: LogoutEvent) -> (next: (Logout, LogoutAction))
        ensures
            (next.0@, next.1) == self@.after(event),
    {
        match event {
            LogoutEvent::Start => (self, LogoutAction::ClearTokens),
            LogoutEvent::TokensCleared(Ok(_)) => (self, LogoutAction::LoadSettings),
            LogoutEvent::TokensCleared(Err(reason)) => (
                self.warn("clear OAuth tokens: ".to_string().concat(reason.as_str()), true),
                LogoutAction::LoadSettings,
            ),
            LogoutEvent::SettingsLoaded(Ok(Some(_))) => (self, LogoutAction::SaveWithoutKey),
            LogoutEvent::SettingsLoaded(Ok(None)) => (self.finish(), LogoutAction::Finish),
            LogoutEvent::SettingsLoaded(Err(reason)) => (
                self.warn(
                    "load settings.json: ".to_string().concat(reason.as_str()),
                    false,
                ).finish(),
                LogoutAction::Finish,
            ),
            LogoutEvent::SettingsSaved(Ok(_)) => (self.finish(), LogoutAction::Finish),
            LogoutEvent::SettingsSaved(Err(reason)) => (
                self.warn(
                    "update settings.json: ".to_string().concat(reason.as_str()),
                    true,
                ).finish(),
                LogoutAction::Finish,
            ),
        }
    }

    fn warn(self, text: String, leaves_credential: bool) -> (warned: Logout)
        ensures
            warned@ == self@.warned(text@, leaves_credential),
    {
        Logout {
            report: self.report.say(
                Stream::Stderr,
                "Warning: failed to ".to_string().concat(text.as_str()),
            ),
            had_error: self.had_error || leaves_credential,
        }
    }

    fn finish(self) -> (finished: Logout)
        ensures
            finished@ == self@.finished(),
    {
        let report = if self.had_error {
            self.report.say(
                Stream::Stderr,
                "Logout completed with warnings.".to_string(),
            ).then_exit(1)
        } else {
            self.report.say(
                Stream::Stdout,
                "Successfully logged out from your Anthropic account.".to_string(),
            ).then_exit(0)
        };
        Logout { report, had_error: self.had_error }
    }
}

/// A command that is not known, and no command at all, end the program badly; every known command
/// is carried out whatever else is on the line.
pub proof fn unknown_commands_fail(program: Seq<char>, args: Seq<Seq<char>>)
    ensures
        asked(program, args) matches Asked::Usage(report) ==> report.exit == Some(1i32),
        asked(program, args) is Usage <==> (args.len() == 0 || (args[0] != "login"@ && args[0]
            != "logout"@ && args[0] != "status"@)),
{
    reveal_strlit("login");
    reveal_strlit("logout");
    reveal_strlit("status");
}

/// A login is made with a subscription account unless the console is asked for.
pub proof fn logins_use_the_account_by_default(program: Seq<char>, args: Seq<Seq<char>>)
    requires
        args.len() > 0,
        args[0] == "login"@,
    ensures
        asked(program, args) matches Asked::Login { with_claude_ai, .. } && (with_claude_ai
            <==> !args.contains("--console"@)),
{
}

/// The status exits with 0 exactly where there is a credential, in JSON as in words.
pub proof fn status_exit_tells_of_credentials(
    credentials: Credentials,
    program: Seq<char>,
    json_output: bool,
)
    ensures
        status_reported(credentials, program, json_output).exit == Some(
            if credentials.account is Some || has_key(text_of(credentials.env_api_key)) || has_key(
                text_of(credentials.settings_api_key),
            ) {
                0i32
            } else {
                1i32
            },
        ),
{
}

/// A saved login is in use before any key; keys only tell where there is none.
pub proof fn saved_logins_come_first(account: Account, one: Credentials, other: Credentials)
    requires
        one.account == Some(account),
        other.account == Some(account),
    ensures
        method_in_use(one) == method_in_use(other),
        method_in_use(one) == AuthMethod::Account || method_in_use(one) == AuthMethod::OauthToken,
{
}

/// An empty key counts as no key.
pub proof fn empty_keys_do_not_count(credentials: Credentials)
    requires
        credentials.account is None,
        credentials.env_api_key matches Some(key) ==> key@.len() == 0,
        credentials.settings_api_key matches Some(key) ==> key@.len() == 0,
    ensures
        method_in_use(credentials) == AuthMethod::Nothing,
{
}

/// The status in JSON says truly whether there is a credential and which; it names the source of
/// a key wherever there is a key, even where a saved login is in use; and it has the details of
/// an account exactly where that is a subscription account.
pub proof fn json_status_is_complete(credentials: Credentials, program: Seq<char>)
    ensures
        status_tree(credentials, program) is Object,
        ({
            let members = status_tree(credentials, program)->Object_0;
            let method = method_in_use(credentials);
            &&& members.dom().contains("loggedIn"@)
            &&& members["loggedIn"@] == Json::Bool(method != AuthMethod::Nothing)
            &&& members.dom().contains("authMethod"@)
            &&& members["authMethod"@] == Json::Text(method_name(method, program))
            &&& members.dom().contains("apiKeySource"@) <==> has_key(
                text_of(credentials.env_api_key),
            ) || has_key(text_of(credentials.settings_api_key))
            &&& members.dom().contains("email"@) <==> method == AuthMethod::Account
            &&& members.dom().contains("orgId"@) <==> method == AuthMethod::Account
            &&& members.dom().contains("subscriptionType"@) <==> method == AuthMethod::Account
        }),
{
    reveal_strlit("loggedIn");
    reveal_strlit("authMethod");
    reveal_strlit("apiKeySource");
    reveal_strlit("email");
    reveal_strlit("orgId");
    reveal_strlit("subscriptionType");
    assert("loggedIn"@.len() == 8 && "authMethod"@.len() == 10 && "apiKeySource"@.len() == 12);
    assert("email"@.len() == 5 && "orgId"@.len() == 5 && "subscriptionType"@.len() == 16);
    assert("email"@[0] == 'e' && "orgId"@[0] == 'o');
}

/// How a whole logout ends, given how each step came out; the last is only taken where the
/// settings hold a key.
pub open spec fn logged_out(
    cleared: Result<(), String>,
    loaded: Result<Option<String>, String>,
    saved: Result<(), String>,
) -> LogoutState {
    let (begun, _) = logout_begun().after(LogoutEvent::Start);
    let (tokens, _) = begun.after(LogoutEvent::TokensCleared(cleared));
    let (settings, next) = tokens.after(LogoutEvent::SettingsLoaded(loaded));
    if next is SaveWithoutKey {
        settings.after(LogoutEvent::SettingsSaved(saved)).0
    } else {
        settings
    }
}

/// A logout exits with 0 exactly where no credential is known to be left: the saved login was
/// cleared, and a key in the settings was taken out.
pub proof fn logouts_succeed_when_nothing_is_left(
    cleared: Result<(), String>,
    loaded: Result<Option<String>, String>,
    saved: Result<(), String>,
)
    ensures
        logged_out(cleared, loaded, saved).report.exit == Some(
            if cleared is Ok && (loaded matches Ok(Some(_)) ==> saved is Ok) {
                0i32
            } else {
                1i32
            },
        ),
{
}

/// A saved login that cannot be cleared does not keep the key in the settings from being
/// removed: the settings are loaded all the same, and saved without their key if they hold one.
pub proof fn logouts_go_on_after_a_failure(
    state: LogoutState,
    cleared: Result<(), String>,
    key: String,
)
    ensures
        state.after(LogoutEvent::TokensCleared(cleared)).1 == LogoutAction::LoadSettings,
        state.after(LogoutEvent::SettingsLoaded(Ok(Some(key)))).1 == LogoutAction::SaveWithoutKey,
{
}

/// The first argument alone picks the command, letter for letter. A login is announced in one
/// line and goes to the console exactly where some argument is `--console`; the status is in JSON
/// exactly where some argument is `--json`.
pub proof fn first_arguments_pick_the_command(program: Seq<char>, args: Seq<Seq<char>>)
    requires
        args.len() > 0,
    ensures
        args[0] == "login"@ ==> asked(program, args) == (Asked::Login {
            announce: Written {
                stream: Stream::Stdout,
                text: "Starting authentication..."@ + "\n"@,
            },
            with_claude_ai: forall|i: int| 0 <= i < args.len() ==> #[trigger] args[i]
                != "--console"@,
        }),
        args[0] == "logout"@ ==> asked(program, args) is Logout,
        args[0] == "status"@ ==> asked(program, args) == (Asked::Status {
            json: exists|i: int| 0 <= i < args.len() && #[trigger] args[i] == "--json"@,
        }),
        args[0] != "login"@ && args[0] != "logout"@ && args[0] != "status"@ ==> asked(
            program,
            args,
        ) is Usage,
{
    reveal_strlit("login");
    reveal_strlit("logout");
    reveal_strlit("status");
    assert("login"@.len() == 5 && "logout"@.len() == 6 && "status"@[0] == 's' && "logout"@[0]
        == 'l');
}

/// An unknown command is told by its whole name, an empty line and the usage, all on standard
/// error.
pub proof fn unknown_commands_are_named(program: Seq<char>, args: Seq<Seq<char>>)
    requires
        args.len() > 0,
        args[0] != "login"@,
        args[0] != "logout"@,
        args[0] != "status"@,
    ensures
        asked(program, args) matches Asked::Usage(report) && report.exit == Some(1i32)
            && report.output =~= seq![
            Written {
                stream: Stream::Stderr,
                text: "Unknown auth subcommand: '"@ + args[0] + "'"@ + "\n"@,
            },
            Written { stream: Stream::Stderr, text: "\n"@ },
            Written {
                stream: Stream::Stderr,
                text: "Usage: "@ + program + " auth <subcommand>"@ + "\n"@,
            },
            Written {
                stream: Stream::Stderr,
                text: "  login [--console]   Authenticate ("@ + (program + ".ai"@)
                    + " by default; --console for API key)"@ + "\n"@,
            },
            Written {
                stream: Stream::Stderr,
                text: "  logout              Remove stored credentials"@ + "\n"@,
            },
            Written {
                stream: Stream::Stderr,
                text: "  status [--json]     Show authentication status"@ + "\n"@,
            },
        ],
{
    reveal_strlit("");
    assert(""@ + "\n"@ =~= "\n"@);
}

/// Where no command was given, the usage is told on standard error.
pub proof fn missing_commands_get_the_usage(program: Seq<char>)
    ensures
        asked(program, Seq::empty()) matches Asked::Usage(report) && report.exit == Some(1i32)
            && report.output =~= seq![
            Written {
                stream: Stream::Stderr,
                text: "Usage: "@ + program + " auth <login|logout|status>"@ + "\n"@,
            },
            Written {
                stream: Stream::Stderr,
                text: "  login [--console]   Authenticate with Anthropic"@ + "\n"@,
            },
            Written {
                stream: Stream::Stderr,
                text: "  logout              Remove stored credentials"@ + "\n"@,
            },
            Written {
                stream: Stream::Stderr,
                text: "  status [--json]     Show authentication status"@ + "\n"@,
            },
        ],
{
}

/// A command is seen as it stands.
pub proof fn commands_are_seen_whole(command: AuthCommand)
    ensures
        match command {
            AuthCommand::Login { announce, with_claude_ai } => command@ == (Asked::Login {
                announce: announce@,
                with_claude_ai,
            }),
            AuthCommand::Logout => command@ is Logout,
            AuthCommand::Status { json } => command@ == (Asked::Status { json }),
            AuthCommand::Usage(report) => command@ == Asked::Usage(report@),
        },
{
}

/// A login that worked tells, on standard output, the whole address where there is one and then
/// the method, and ends the program well; one that did not is told with the whole reason on
/// standard error and ends it badly.
pub proof fn logins_are_told_whole(program: Seq<char>, login: LoggedIn, reason: String)
    ensures
        ({
            let report = login_reported(program, Ok(login));
            let shown: int = if login.email is Some {
                1
            } else {
                0
            };
            &&& report.exit == Some(0i32)
            &&& report.output.len() == 2 + shown
            &&& report.output[0] == Written {
                stream: Stream::Stdout,
                text: "Successfully logged in!"@ + "\n"@,
            }
            &&& login.email matches Some(email) ==> report.output[1] == Written {
                stream: Stream::Stdout,
                text: "  Account: "@ + email@ + "\n"@,
            }
            &&& login.use_bearer_auth ==> report.output[1 + shown] == Written {
                stream: Stream::Stdout,
                text: "  Auth method: "@ + (program + ".ai"@) + "\n"@,
            }
            &&& !login.use_bearer_auth ==> report.output[1 + shown] == Written {
                stream: Stream::Stdout,
                text: "  Auth method: "@ + "console (API key)"@ + "\n"@,
            }
        }),
        login_reported(program, Err(reason)).output =~= seq![
            Written { stream: Stream::Stderr, text: "Login failed: "@ + reason@ + "\n"@ },
        ],
        login_reported(program, Err(reason)).exit == Some(1i32),
{
}

/// Whether there is a key that is not empty.
pub open spec fn is_nonempty(key: Option<String>) -> bool {
    match key {
        Some(key) => key@.len() != 0,
        None => false,
    }
}

/// A saved login is in use wherever there is one, by its own kind; without one, a key is in use
/// exactly where there is one that is not empty.
pub proof fn credentials_in_use(credentials: Credentials)
    ensures
        credentials.account matches Some(account) ==> method_in_use(credentials) == if account.uses_bearer_auth {
            AuthMethod::Account
        } else {
            AuthMethod::OauthToken
        },
        credentials.account is None ==> method_in_use(credentials) == if is_nonempty(
            credentials.env_api_key,
        ) || is_nonempty(credentials.settings_api_key) {
            AuthMethod::ApiKey
        } else {
            AuthMethod::Nothing
        },
{
}

/// In the JSON status, the members of a subscription account hold its address, organization and
/// subscription character for character, and `null` exactly where the account has none.
pub proof fn json_status_holds_the_account(
    account: Account,
    env_api_key: Option<String>,
    settings_api_key: Option<String>,
    program: Seq<char>,
)
    requires
        account.uses_bearer_auth,
    ensures
        status_tree(
            Credentials { account: Some(account), env_api_key, settings_api_key },
            program,
        ) matches Json::Object(members) && {
            &&& members["email"@] == match account.email {
                Some(text) => Json::Text(text@),
                None => Json::Null,
            }
            &&& members["orgId"@] == match account.organization_uuid {
                Some(text) => Json::Text(text@),
                None => Json::Null,
            }
            &&& members["subscriptionType"@] == match account.subscription_type {
                Some(text) => Json::Text(text@),
                None => Json::Null,
            }
        },
{
    reveal_strlit("email");
    reveal_strlit("orgId");
    reveal_strlit("subscriptionType");
    assert("email"@.len() == 5 && "orgId"@.len() == 5 && "subscriptionType"@.len() == 16);
    assert("email"@[0] == 'e' && "orgId"@[0] == 'o');
}

/// In the JSON status, the other members hold whether there is a credential, the name of the one
/// in use, and the source of the key: the environment wherever it has a key, else the settings.
/// There are no members but these and those of the account.
pub proof fn json_status_holds_method_and_source(credentials: Credentials, program: Seq<char>)
    ensures
        status_tree(credentials, program) matches Json::Object(members) && {
            let env = is_nonempty(credentials.env_api_key);
            let settings = is_nonempty(credentials.settings_api_key);
            let common = set!["loggedIn"@, "authMethod"@];
            let with_source = if env || settings {
                common.insert("apiKeySource"@)
            } else {
                common
            };
            &&& members["loggedIn"@] == Json::Bool(credentials.account is Some || env || settings)
            &&& members["authMethod"@] == Json::Text(
                match credentials.account {
                    Some(account) => if account.uses_bearer_auth {
                        program + ".ai"@
                    } else {
                        "oauth_token"@
                    },
                    None => if env || settings {
                        "api_key"@
                    } else {
                        "none"@
                    },
                },
            )
            &&& env ==> members["apiKeySource"@] == Json::Text("ANTHROPIC_API_KEY"@)
            &&& !env && settings ==> members["apiKeySource"@] == Json::Text("settings"@)
            &&& members.dom() =~= if credentials.account is Some
                && credentials.account->0.uses_bearer_auth {
                with_source.insert("email"@).insert("orgId"@).insert("subscriptionType"@)
            } else {
                with_source
            }
        },
{
    reveal_strlit("loggedIn");
    reveal_strlit("authMethod");
    reveal_strlit("apiKeySource");
    reveal_strlit("email");
    reveal_strlit("orgId");
    reveal_strlit("subscriptionType");
    assert("loggedIn"@.len() == 8 && "authMethod"@.len() == 10 && "apiKeySource"@.len() == 12);
    assert("email"@.len() == 5 && "orgId"@.len() == 5 && "subscriptionType"@.len() == 16);
}

/// The JSON status is the whole tree, printed over several lines, and nothing else.
pub proof fn json_status_is_printed_whole(credentials: Credentials, program: Seq<char>)
    ensures
        status_reported(credentials, program, true).output =~= seq![
            Written {
                stream: Stream::Stdout,
                text: json_pretty(status_tree(credentials, program)) + "\n"@,
            },
        ],
{
}

/// The status in words tells of a saved login every detail that it has, whole and in order:
/// address, organization, subscription, and last the method.
pub proof fn status_words_tell_the_account(credentials: Credentials, program: Seq<char>)
    requires
        credentials.account is Some,
    ensures
        ({
            let account = credentials.account->0;
            let told = status_reported(credentials, program, false).output;
            let email: int = if account.email is Some {
                1
            } else {
                0
            };
            let organization: int = if account.organization_uuid is Some {
                1
            } else {
                0
            };
            let subscription: int = if account.subscription_type is Some {
                1
            } else {
                0
            };
            &&& told.len() == 2 + email + organization + subscription
            &&& told[0] == Written { stream: Stream::Stdout, text: "Logged in."@ + "\n"@ }
            &&& account.email matches Some(text) ==> told[1] == Written {
                stream: Stream::Stdout,
                text: "  Account: "@ + text@ + "\n"@,
            }
            &&& account.organization_uuid matches Some(text) ==> told[1 + email] == Written {
                stream: Stream::Stdout,
                text: "  Organization: "@ + text@ + "\n"@,
            }
            &&& account.subscription_type matches Some(text) ==> told[1 + email + organization]
                == Written {
                stream: Stream::Stdout,
                text: "  Subscription: "@ + text@ + "\n"@,
            }
            &&& told[told.len() - 1] == Written {
                stream: Stream::Stdout,
                text: "  Auth method: "@ + (if account.uses_bearer_auth {
                    program + ".ai"@
                } else {
                    "Console (OAuth API key)"@
                }) + "\n"@,
            }
        }),
{
}

/// Without a saved login, the status in words tells the source of the key, the environment before
/// the settings, or that there is none and how to get one.
pub proof fn status_words_tell_the_key(credentials: Credentials, program: Seq<char>)
    requires
        credentials.account is None,
    ensures
        ({
            let told = status_reported(credentials, program, false).output;
            let env = is_nonempty(credentials.env_api_key);
            let settings = is_nonempty(credentials.settings_api_key);
            if env || settings {
                told =~= seq![
                    Written { stream: Stream::Stdout, text: "Logged in."@ + "\n"@ },
                    Written {
                        stream: Stream::Stdout,
                        text: "  API key: "@ + (if env {
                            "ANTHROPIC_API_KEY (environment variable)"@
                        } else {
                            "settings.json"@
                        }) + "\n"@,
                    },
                ]
            } else {
                told =~= seq![
                    Written {
                        stream: Stream::Stdout,
                        text: "Not logged in. Run `"@ + program
                            + " auth login` to authenticate."@ + "\n"@,
                    },
                ]
            }
        }),
{
}

/// The line that a step of a logout is warned of with.
pub open spec fn warning(what: Seq<char>, reason: Seq<char>) -> Written {
    Written {
        stream: Stream::Stderr,
        text: "Warning: failed to "@ + (what + reason) + "\n"@,
    }
}

/// A whole logout writes a warning with the whole reason for each step that failed, in the order
/// of the steps, and then one last line: on standard output where it succeeded, on standard error
/// where a credential may be left.
pub proof fn logouts_are_told_whole(
    cleared: Result<(), String>,
    loaded: Result<Option<String>, String>,
    saved: Result<(), String>,
)
    ensures
        ({
            let told = logged_out(cleared, loaded, saved).report.output;
            let first = match cleared {
                Err(reason) => seq![warning("clear OAuth tokens: "@, reason@)],
                Ok(_) => Seq::empty(),
            };
            let second = match loaded {
                Err(reason) => seq![warning("load settings.json: "@, reason@)],
                Ok(Some(_)) => match saved {
                    Err(reason) => seq![warning("update settings.json: "@, reason@)],
                    Ok(_) => Seq::empty(),
                },
                Ok(None) => Seq::empty(),
            };
            let left = cleared is Err || (loaded matches Ok(Some(_)) && saved is Err);
            let last = if left {
                Written {
                    stream: Stream::Stderr,
                    text: "Logout completed with warnings."@ + "\n"@,
                }
            } else {
                Written {
                    stream: Stream::Stdout,
                    text: "Successfully logged out from your Anthropic account."@ + "\n"@,
                }
            };
            told =~= (first + second).push(last)
        }),
{
}

/// The steps of a logout follow one another: the saved login first, then the settings, which are
/// saved exactly where they hold a key, be it empty, and then the end. What was written and what
/// failed so far is kept at every step.
pub proof fn logout_steps_follow(state: LogoutState, event: LogoutEvent)
    ensures
        ({
            let (next, action) = state.after(event);
            &&& event is Start ==> action is ClearTokens && next == state
            &&& event is TokensCleared ==> action is LoadSettings
            &&& event matches LogoutEvent::SettingsLoaded(loaded) ==> (action is SaveWithoutKey
                <==> loaded is Ok && loaded->Ok_0 is Some)
            &&& event matches LogoutEvent::SettingsLoaded(loaded) ==> (action is Finish <==> !(
            loaded is Ok && loaded->Ok_0 is Some))
            &&& event is SettingsSaved ==> action is Finish
            &&& next.report.output.len() >= state.report.output.len()
            &&& next.report.output.subrange(0, state.report.output.len() as int)
                =~= state.report.output
            &&& state.had_error ==> next.had_error
            &&& action is Finish ==> next.report.exit is Some
            &&& !(action is Finish) ==> next.report.exit == state.report.exit
        }),
{
}

/// A logout is seen as it stands, and begins with nothing written and nothing failed.
pub proof fn logouts_are_seen_whole(logout: Logout)
    ensures
        logout@.report == logout.report@,
        logout@.had_error == logout.had_error,
        logout_begun().report.output.len() == 0,
        logout_begun().report.exit is None,
        !logout_begun().had_error,
{
}

} // verus!
