//! What the program does first: the shortcuts that are taken before options are read, named
//! commands, and the credential that requests are made with.

use crate::output::{line, silence, Output, Report, Reported, Stream, Written};
use crate::text::{any_is, begins_with, same_text, starts_with_char, text_of, texts};
use vstd::prelude::*;
use vstd::string::*;

verus! {

/// What the raw arguments ask for.
pub enum Launch {
    /// Print the version.
    Version,
    /// Run `auth` with these arguments.
    Auth(Vec<String>),
    /// Look for a command of this name and run it with these arguments; where there is none,
    /// start a session.
    Named { name: String, rest: Vec<String> },
    /// Read the options and start a session.
    Session,
}

/// A [`Launch`], as contracts see it.
pub enum Launched {
    Version,
    Auth(Seq<Seq<char>>),
    Named { name: Seq<char>, rest: Seq<Seq<char>> },
    Session,
}

impl View for Launch {
    type V = Launched;

    open spec fn view(&self) -> Launched {
        match self {
            Launch::Version => Launched::Version,
            Launch::Auth(rest) => Launched::Auth(texts(rest@)),
            Launch::Named { name, rest } => Launched::Named { name: name@, rest: texts(rest@) },
            Launch::Session => Launched::Session,
        }
    }
}

/// Whether some argument asks for the version.
pub open spec fn asks_version(args: Seq<Seq<char>>) -> bool {
    args.contains("--version"@) || args.contains("-V"@)
}

/// What the raw arguments ask for, the program's own name first among them: the version, if any
/// argument asks for it; else `auth`; else a command by name, unless the first argument is an
/// option or a slash command; else a session.
pub open spec fn launched(args: Seq<Seq<char>>) -> Launched {
    if asks_version(args) {
        Launched::Version
    } else if args.len() < 2 {
        Launched::Session
    } else if args[1] == "auth"@ {
        Launched::Auth(args.skip(2))
    } else if begins_with(args[1], '-') || begins_with(args[1], '/') {
        Launched::Session
    } else {
        Launched::Named { name: args[1], rest: args.skip(2) }
    }
}

/// Copies of the arguments from the third on.
fn arguments_after_command(args: &Vec<String>) -> (rest: Vec<String>)
    requires
        args@.len() >= 2,
    ensures
        texts(rest@) == texts(args@).skip(2),
{
    let mut rest: Vec<String> = Vec::new();
    let mut i: usize = 2;
    while i < args.len()
        invariant
            2 <= i <= args@.len(),
            rest@.len() == i - 2,
            forall|j: int| 0 <= j < rest@.len() ==> (#[trigger] rest@[j])@ == args@[j + 2]@,
        decreases args@.len() - i,
    {
        rest.push(args[i].clone());
        i = i + 1;
    }
    proof {
        assert(texts(rest@) =~= texts(args@).skip(2));
    }
    rest
}

/// Finds out what the raw arguments ask for.
pub fn launch(args: &Vec<String>) -> (launch: Launch)
    ensures
        launch@ == launched(texts(args@)),
{
    if any_is(args, "--version") || any_is(args, "-V") {
        return Launch::Version;
    }
    if args.len() < 2 {
        return Launch::Session;
    }
    let name: &str = args[1].as_str();
    proof {
        assert(texts(args@)[1] == name@);
    }
    if same_text(name, "auth") {
        return Launch::Auth(arguments_after_command(args));
    }
    if starts_with_char(name, '-') || starts_with_char(name, '/') {
        return Launch::Session;
    }
    Launch::Named { name: name.to_string(), rest: arguments_after_command(args) }
}

/// The line that tells the version.
pub fn version_line(program: &str, version: &str) -> (output: Output)
    ensures
        output@ == line(Stream::Stdout, program@ + " "@ + version@),
{
    Output::line(Stream::Stdout, program.to_string().concat(" ").concat(version))
}

/// What a named command came to.
#[derive(Debug)]
pub enum NamedOutcome {
    /// A message to print.
    Message(String),
    /// A message meant for the model; there is none yet, so it is printed.
    UserMessage(String),
    /// The command failed.
    Error(String),
    /// Anything that only means something within a session.
    Other,
}

/// What a named command's outcome leads to: a message is printed and ends the program well, a
/// failure is told together with the usage and ends it badly, and after anything else the program
/// starts as usual.
pub open spec fn named_reported(outcome: NamedOutcome, usage: Seq<char>) -> Reported {
    match outcome {
        NamedOutcome::Message(text) => silence().say(Stream::Stdout, text@).then_exit(0),
        NamedOutcome::UserMessage(text) => silence().say(Stream::Stdout, text@).then_exit(0),
        NamedOutcome::Error(text) => silence().say(Stream::Stderr, "Error: "@ + text@).say(
            Stream::Stderr,
            "Usage: "@ + usage,
        ).then_exit(1),
        NamedOutcome::Other => silence(),
    }
}

/// Reports what a named command came to.
pub fn named_report(outcome: NamedOutcome, usage: &str) -> (report: Report)
    ensures
        report@ == named_reported(outcome, usage@),
{
    match outcome {
        NamedOutcome::Message(text) => Report::new().say(Stream::Stdout, text).then_exit(0),
        NamedOutcome::UserMessage(text) => Report::new().say(Stream::Stdout, text).then_exit(0),
        NamedOutcome::Error(text) => Report::new().say(
            Stream::Stderr,
            "Error: ".to_string().concat(text.as_str()),
        ).say(Stream::Stderr, "Usage: ".to_string().concat(usage)).then_exit(1),
        NamedOutcome::Other => Report::new(),
    }
}

/// A credential, and whether it is sent as a bearer token.
#[derive(Debug)]
pub struct Credential {
    pub secret: String,
    pub use_bearer_auth: bool,
}

/// A [`Credential`], as contracts see it.
pub struct Presented {
    pub secret: Seq<char>,
    pub use_bearer_auth: bool,
}

impl View for Credential {
    type V = Presented;

    open spec fn view(&self) -> Presented {
        Presented { secret: self.secret@, use_bearer_auth: self.use_bearer_auth }
    }
}

/// Where a credential comes from.
#[derive(Clone, Copy, Debug, PartialEq, Eq, Structural)]
pub enum Source {
    /// A key in the configuration or the environment.
    Given,
    /// A login of an earlier run.
    SavedLogin,
}

/// Whether a key is there and not empty.
pub open spec fn has_key(key: Option<Seq<char>>) -> bool {
    key matches Some(key) && key.len() > 0
}

/// Whether a key is there and not empty.
pub fn key_is_set(key: &Option<String>) -> (set: bool)
    ensures
        set == has_key(text_of(*key)),
{
    match key {
        Some(key) => !key.as_str().is_empty(),
        None => false,
    }
}

/// Where a credential that was found comes from: keys are tried before saved logins.
pub fn credential_source(config_key: &Option<String>, env_key: &Option<String>) -> (source: Source)
    ensures
        source == if has_key(text_of(*config_key)) || has_key(text_of(*env_key)) {
            Source::Given
        } else {
            Source::SavedLogin
        },
{
    if key_is_set(config_key) || key_is_set(env_key) {
        Source::Given
    } else {
        Source::SavedLogin
    }
}

/// A credential that was found.
#[derive(Debug)]
pub struct Found {
    pub credential: Credential,
    pub source: Source,
}

/// How the program comes by a credential.
pub enum Authentication {
    /// Use this one.
    Use(Credential),
    /// Give up, for this reason.
    Refuse(String),
    /// Write this line, then run the login flow.
    LogIn(Output),
}

/// An [`Authentication`], as contracts see it.
pub enum Authenticated {
    Use(Presented),
    Refuse(Seq<char>),
    LogIn(Written),
}

impl View for Authentication {
    type V = Authenticated;

    open spec fn view(&self) -> Authenticated {
        match self {
            Authentication::Use(credential) => Authenticated::Use(credential@),
            Authentication::Refuse(reason) => Authenticated::Refuse(reason@),
            Authentication::LogIn(output) => Authenticated::LogIn(output@),
        }
    }
}

/// The harmless credential that a local backend is given where there is no other.
pub open spec fn placeholder() -> Presented {
    Presented { secret: "local"@, use_bearer_auth: false }
}

/// Whether a credential that was found may be used: a saved login is kept from local backends.
pub open spec fn is_usable(found: Found, local_backend: bool) -> bool {
    !local_backend || found.source == Source::Given
}

/// How the program comes by a credential where it found none to use: on a local backend by a
/// placeholder, else by a login, for which there must be a user.
pub open spec fn authenticated_afresh(
    program: Seq<char>,
    local_backend: bool,
    headless: bool,
) -> Authenticated {
    if local_backend {
        Authenticated::Use(placeholder())
    } else if headless {
        Authenticated::Refuse(
            "No API key found. Set ANTHROPIC_API_KEY, use --api-key, or run `"@ + program
                + " login`."@,
        )
    } else {
        Authenticated::LogIn(
            line(Stream::Stderr, "No authentication found. Starting login flow..."@),
        )
    }
}

/// How the program comes by a credential.
pub open spec fn authenticated(
    program: Seq<char>,
    found: Option<Found>,
    local_backend: bool,
    headless: bool,
) -> Authenticated {
    match found {
        Some(found) => if is_usable(found, local_backend) {
            Authenticated::Use(found.credential@)
        } else {
            authenticated_afresh(program, local_backend, headless)
        },
        None => authenticated_afresh(program, local_backend, headless),
    }
}

/// Decides how the program comes by a credential.
pub fn authenticate(
    program: &str,
    found: Option<Found>,
    local_backend: bool,
    headless: bool,
) -> (authentication: Authentication)
    ensures
        authentication@ == authenticated(program@, found, local_backend, headless),
{
    if let Some(found) = found {
        if !local_backend || found.source == Source::Given {
            return Authentication::Use(found.credential);
        }
    }
    if local_backend {
        Authentication::Use(Credential { secret: "local".to_string(), use_bearer_auth: false })
    } else if headless {
        Authentication::Refuse(
            "No API key found. Set ANTHROPIC_API_KEY, use --api-key, or run `".to_string().concat(
                program,
            ).concat(" login`."),
        )
    } else {
        Authentication::LogIn(
            Output::line(
                Stream::Stderr,
                "No authentication found. Starting login flow...".to_string(),
            ),
        )
    }
}

/// What is written once the login flow has given a credential.
pub fn login_done() -> (output: Output)
    ensures
        output@ == line(Stream::Stdout, "Login successful!"@),
{
    Output::line(Stream::Stdout, "Login successful!".to_string())
}

/// The version is told wherever the request for it stands, and nothing else happens then.
pub proof fn version_wins(args: Seq<Seq<char>>, i: int)
    requires
        0 <= i < args.len(),
        args[i] == "--version"@ || args[i] == "-V"@,
    ensures
        launched(args) == Launched::Version,
{
}

/// An option or a slash command in the first place is never taken for a named command, nor is
/// the word that starts the credential commands.
pub proof fn named_commands_are_words(args: Seq<Seq<char>>)
    requires
        launched(args) is Named,
    ensures
        args.len() >= 2,
        launched(args)->name == args[1],
        launched(args)->rest == args.skip(2),
        !begins_with(args[1], '-'),
        !begins_with(args[1], '/'),
        args[1] != "auth"@,
        !asks_version(args),
{
}

/// A local backend needs no key: without one it is given the placeholder, and the program neither
/// gives up nor starts a login.
pub proof fn local_backends_need_no_key(program: Seq<char>, headless: bool)
    ensures
        authenticated(program, None, true, headless) == Authenticated::Use(placeholder()),
{
}

/// A saved login is never sent to a local backend: the placeholder is.
pub proof fn saved_logins_never_reach_local_backends(
    program: Seq<char>,
    found: Found,
    headless: bool,
)
    requires
        found.source == Source::SavedLogin,
    ensures
        authenticated(program, Some(found), true, headless) == Authenticated::Use(placeholder()),
{
}

/// A key that was given is used, whatever the backend and whether or not anyone is watching.
pub proof fn given_keys_are_used(
    program: Seq<char>,
    found: Found,
    local_backend: bool,
    headless: bool,
)
    requires
        found.source == Source::Given,
    ensures
        authenticated(program, Some(found), local_backend, headless) == Authenticated::Use(
            found.credential@,
        ),
{
}

/// The placeholder is for local backends alone: elsewhere what is used was found.
pub proof fn credentials_elsewhere_were_found(
    program: Seq<char>,
    found: Option<Found>,
    headless: bool,
)
    ensures
        authenticated(program, found, false, headless) is Use <==> found is Some,
        found matches Some(found) ==> authenticated(program, Some(found), false, headless)
            == Authenticated::Use(found.credential@),
{
}

/// A headless run never starts a login, and neither does a local backend.
pub proof fn logins_need_a_user_and_a_remote_backend(
    program: Seq<char>,
    found: Option<Found>,
    local_backend: bool,
    headless: bool,
)
    ensures
        authenticated(program, found, local_backend, headless) is LogIn <==> found is None
            && !local_backend && !headless,
{
}

/// The version is told only where some argument is `--version` or `-V`, letter for letter: no
/// other argument, such as the short form of the verbose option, brings it up.
pub proof fn versions_are_told_only_on_request(args: Seq<Seq<char>>)
    ensures
        launched(args) is Version <==> exists|i: int|
            0 <= i < args.len() && (#[trigger] args[i] == "--version"@ || args[i] == "-V"@),
{
    if exists|i: int|
        0 <= i < args.len() && (#[trigger] args[i] == "--version"@ || args[i] == "-V"@) {
        let i = choose|i: int|
            0 <= i < args.len() && (#[trigger] args[i] == "--version"@ || args[i] == "-V"@);
        assert(args.contains(args[i]));
    }
}

/// Where no version is asked for, the first argument decides: `auth`, letter for letter, is the
/// credential commands; one that begins with a dash or a slash, or none at all, is a session; and
/// any other is looked up as a command. All that follows it is handed on, in order.
pub proof fn first_arguments_decide(args: Seq<Seq<char>>)
    requires
        forall|i: int|
            0 <= i < args.len() ==> #[trigger] args[i] != "--version"@ && args[i] != "-V"@,
    ensures
        args.len() < 2 ==> launched(args) is Session,
        args.len() >= 2 ==> {
            let first = args[1];
            let rest = args.subrange(2, args.len() as int);
            let option = first.len() > 0 && (first[0] == '-' || first[0] == '/');
            &&& first == "auth"@ ==> launched(args) == Launched::Auth(rest)
            &&& option ==> launched(args) is Session
            &&& first != "auth"@ && !option ==> launched(args) == Launched::Named {
                name: first,
                rest,
            }
        },
{
    versions_are_told_only_on_request(args);
    reveal_strlit("auth");
    if args.len() >= 2 {
        assert(args.skip(2) =~= args.subrange(2, args.len() as int));
    }
}

/// A launch is seen as it stands: the name and every argument.
pub proof fn launches_are_seen_whole(launch: Launch)
    ensures
        launch is Version <==> launch@ is Version,
        launch is Session <==> launch@ is Session,
        launch matches Launch::Auth(rest) ==> launch@ == Launched::Auth(texts(rest@)),
        launch matches Launch::Named { name, rest } ==> launch@ == (Launched::Named {
            name: name@,
            rest: texts(rest@),
        }),
{
}

/// A named command's message is printed whole, and the program ends well; its failure is told
/// whole, followed by the usage, on standard error, and the program ends badly; nothing else is
/// told or ends the program.
pub proof fn named_outcomes_are_told(outcome: NamedOutcome, usage: Seq<char>)
    ensures
        ({
            let report = named_reported(outcome, usage);
            match outcome {
                NamedOutcome::Message(text) | NamedOutcome::UserMessage(text) => {
                    &&& report.output.len() == 1
                    &&& report.output[0].stream is Stdout
                    &&& report.output[0].text == text@ + "\n"@
                    &&& report.exit == Some(0i32)
                },
                NamedOutcome::Error(text) => {
                    &&& report.output.len() == 2
                    &&& report.output[0].stream is Stderr
                    &&& report.output[0].text == "Error: "@ + text@ + "\n"@
                    &&& report.output[1].stream is Stderr
                    &&& report.output[1].text == "Usage: "@ + usage + "\n"@
                    &&& report.exit == Some(1i32)
                },
                NamedOutcome::Other => report.output.len() == 0 && report.exit is None,
            }
        }),
{
}

/// A key counts exactly where it is there and has at least one character.
pub proof fn keys_count_unless_empty(key: Seq<char>)
    ensures
        has_key(Some(key)) <==> key.len() != 0,
        !has_key(None),
{
}

/// The placeholder is the word `local`, not sent as a bearer token. A credential is seen as it
/// stands, and so is the way to one.
pub proof fn credentials_are_seen_whole(credential: Credential, authentication: Authentication)
    ensures
        placeholder().secret == "local"@,
        !placeholder().use_bearer_auth,
        credential@.secret == credential.secret@,
        credential@.use_bearer_auth == credential.use_bearer_auth,
        match authentication {
            Authentication::Use(credential) => authentication@ == Authenticated::Use(credential@),
            Authentication::Refuse(reason) => authentication@ == Authenticated::Refuse(reason@),
            Authentication::LogIn(output) => authentication@ == Authenticated::LogIn(output@),
        },
{
}

/// Without a credential and away from local backends, a headless run is told how to get one, and
/// any other is told on standard error that a login starts.
pub proof fn missing_credentials_are_told(program: Seq<char>)
    ensures
        authenticated(program, None, false, true) == Authenticated::Refuse(
            "No API key found. Set ANTHROPIC_API_KEY, use --api-key, or run `"@ + program
                + " login`."@,
        ),
        authenticated(program, None, false, false) == Authenticated::LogIn(
            Written {
                stream: Stream::Stderr,
                text: "No authentication found. Starting login flow..."@ + "\n"@,
            },
        ),
{
}

} // verus!
