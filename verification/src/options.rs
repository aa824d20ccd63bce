//! Command-line options, and the configuration that they make of the saved settings.

use crate::text::text_of;
use vstd::prelude::*;

verus! {

/// How tools get permission, as chosen on the command line.
#[derive(Clone, Copy, Debug, PartialEq, Eq, Structural)]
pub enum CliPermissionMode {
    Default,
    AcceptEdits,
    BypassPermissions,
    Plan,
}

/// How tools get permission.
#[derive(Clone, Copy, Debug, PartialEq, Eq, Structural)]
pub enum PermissionMode {
    Default,
    AcceptEdits,
    BypassPermissions,
    Plan,
}

impl From<CliPermissionMode> for PermissionMode {
    fn from(m: CliPermissionMode) -> (mode: PermissionMode) {
        match m {
            CliPermissionMode::Default => PermissionMode::Default,
            CliPermissionMode::AcceptEdits => PermissionMode::AcceptEdits,
            CliPermissionMode::BypassPermissions => PermissionMode::BypassPermissions,
            CliPermissionMode::Plan => PermissionMode::Plan,
        }
    }
}

impl vstd::std_specs::convert::FromSpecImpl<CliPermissionMode> for PermissionMode {
    open spec fn obeys_from_spec() -> bool {
        true
    }

    open spec fn from_spec(m: CliPermissionMode) -> PermissionMode {
        chosen_permission_mode(m)
    }
}

/// The mode of the same name.
pub open spec fn chosen_permission_mode(m: CliPermissionMode) -> PermissionMode {
    match m {
        CliPermissionMode::Default => PermissionMode::Default,
        CliPermissionMode::AcceptEdits => PermissionMode::AcceptEdits,
        CliPermissionMode::BypassPermissions => PermissionMode::BypassPermissions,
        CliPermissionMode::Plan => PermissionMode::Plan,
    }
}

/// The form of the answer, as chosen on the command line.
#[derive(Clone, Copy, Debug, PartialEq, Eq, Structural)]
pub enum CliOutputFormat {
    Text,
    Json,
    StreamJson,
}

/// The form of the answer.
#[derive(Clone, Copy, Debug, PartialEq, Eq, Structural)]
pub enum OutputFormat {
    Text,
    Json,
    StreamJson,
}

impl From<CliOutputFormat> for OutputFormat {
    fn from(f: CliOutputFormat) -> (format: OutputFormat) {
        match f {
            CliOutputFormat::Text => OutputFormat::Text,
            CliOutputFormat::Json => OutputFormat::Json,
            CliOutputFormat::StreamJson => OutputFormat::StreamJson,
        }
    }
}

impl vstd::std_specs::convert::FromSpecImpl<CliOutputFormat> for OutputFormat {
    open spec fn obeys_from_spec() -> bool {
        true
    }

    open spec fn from_spec(f: CliOutputFormat) -> OutputFormat {
        chosen_output_format(f)
    }
}

/// The form of the same name.
pub open spec fn chosen_output_format(f: CliOutputFormat) -> OutputFormat {
    match f {
        CliOutputFormat::Text => OutputFormat::Text,
        CliOutputFormat::Json => OutputFormat::Json,
        CliOutputFormat::StreamJson => OutputFormat::StreamJson,
    }
}

/// The command line. `P` is a path.
#[derive(Debug)]
pub struct Cli<P> {
    /// Initial prompt to send (enables headless mode).
    pub prompt: Option<String>,
    /// Send the prompt and exit.
    pub print: bool,
    /// Model to use.
    pub model: String,
    /// Permission mode.
    pub permission_mode: CliPermissionMode,
    /// Resume a previous session by its identifier.
    pub resume: Option<String>,
    /// Maximum number of agentic turns.
    pub max_turns: u32,
    /// Custom system prompt.
    pub system_prompt: Option<String>,
    /// Text to append to the system prompt.
    pub append_system_prompt: Option<String>,
    /// Disable memory files.
    pub no_claude_md: bool,
    /// Output format.
    pub output_format: CliOutputFormat,
    /// Enable verbose logging.
    pub verbose: bool,
    /// API key.
    pub api_key: Option<String>,
    /// Maximum tokens per response.
    pub max_tokens: Option<u32>,
    /// Working directory.
    pub cwd: Option<P>,
    /// Bypass all permission checks.
    pub dangerously_skip_permissions: bool,
    /// Print the system prompt and exit.
    pub dump_system_prompt: bool,
    /// Server definitions in JSON.
    pub mcp_config: Option<String>,
    /// Disable automatic compaction.
    pub no_auto_compact: bool,
}

/// The part of the configuration that the command line bears on. `P` is a path.
#[derive(Debug)]
pub struct Config<P> {
    pub api_key: Option<String>,
    pub model: Option<String>,
    pub max_tokens: Option<u32>,
    pub verbose: bool,
    pub output_format: OutputFormat,
    pub disable_claude_mds: bool,
    pub custom_system_prompt: Option<String>,
    pub append_system_prompt: Option<String>,
    pub permission_mode: PermissionMode,
    pub auto_compact: bool,
    pub project_dir: Option<P>,
}

/// A [`Config`], as contracts see it.
pub struct Configured<P> {
    pub api_key: Option<Seq<char>>,
    pub model: Option<Seq<char>>,
    pub max_tokens: Option<u32>,
    pub verbose: bool,
    pub output_format: OutputFormat,
    pub disable_claude_mds: bool,
    pub custom_system_prompt: Option<Seq<char>>,
    pub append_system_prompt: Option<Seq<char>>,
    pub permission_mode: PermissionMode,
    pub auto_compact: bool,
    pub project_dir: Option<P>,
}

impl<P> View for Config<P> {
    type V = Configured<P>;

    open spec fn view(&self) -> Configured<P> {
        Configured {
            api_key: text_of(self.api_key),
            model: text_of(self.model),
            max_tokens: self.max_tokens,
            verbose: self.verbose,
            output_format: self.output_format,
            disable_claude_mds: self.disable_claude_mds,
            custom_system_prompt: text_of(self.custom_system_prompt),
            append_system_prompt: text_of(self.append_system_prompt),
            permission_mode: self.permission_mode,
            auto_compact: self.auto_compact,
            project_dir: self.project_dir,
        }
    }
}

/// `given` where it was given, else what was `saved`.
pub open spec fn given_or<T>(given: Option<T>, saved: Option<T>) -> Option<T> {
    if given is Some {
        given
    } else {
        saved
    }
}

/// The configuration that the command line makes of the saved one.
pub open spec fn configured<P>(cli: Cli<P>, saved: Configured<P>, cwd: P) -> Configured<P> {
    Configured {
        api_key: given_or(text_of(cli.api_key), saved.api_key),
        model: Some(cli.model@),
        max_tokens: given_or(cli.max_tokens, saved.max_tokens),
        verbose: cli.verbose,
        output_format: chosen_output_format(cli.output_format),
        disable_claude_mds: cli.no_claude_md,
        custom_system_prompt: given_or(text_of(cli.system_prompt), saved.custom_system_prompt),
        append_system_prompt: given_or(
            text_of(cli.append_system_prompt),
            saved.append_system_prompt,
        ),
        permission_mode: if cli.dangerously_skip_permissions {
            PermissionMode::BypassPermissions
        } else {
            chosen_permission_mode(cli.permission_mode)
        },
        auto_compact: saved.auto_compact && !cli.no_auto_compact,
        project_dir: Some(cwd),
    }
}

/// A copy of `given` where it was given, else what was `saved`.
fn text_given_or(given: &Option<String>, saved: Option<String>) -> (text: Option<String>)
    ensures
        text_of(text) == given_or(text_of(*given), text_of(saved)),
{
    match given {
        Some(text) => Some(text.clone()),
        None => saved,
    }
}

/// The configuration that the command line makes of the saved one.
pub fn effective_config<P>(cli: &Cli<P>, saved: Config<P>, cwd: P) -> (config: Config<P>)
    ensures
        config@ == configured(*cli, saved@, cwd),
{
    Config {
        api_key: text_given_or(&cli.api_key, saved.api_key),
        model: Some(cli.model.clone()),
        max_tokens: match cli.max_tokens {
            Some(max_tokens) => Some(max_tokens),
            None => saved.max_tokens,
        },
        verbose: cli.verbose,
        output_format: OutputFormat::from(cli.output_format),
        disable_claude_mds: cli.no_claude_md,
        custom_system_prompt: text_given_or(&cli.system_prompt, saved.custom_system_prompt),
        append_system_prompt: text_given_or(&cli.append_system_prompt, saved.append_system_prompt),
        permission_mode: if cli.dangerously_skip_permissions {
            PermissionMode::BypassPermissions
        } else {
            PermissionMode::from(cli.permission_mode)
        },
        auto_compact: saved.auto_compact && !cli.no_auto_compact,
        project_dir: Some(cwd),
    }
}

/// The directory to work in: the requested one, else the current one, else `here`.
pub fn working_dir<P>(requested: Option<P>, current: Option<P>, here: P) -> (dir: P)
    ensures
        Some(dir) == given_or(given_or(requested, current), Some(here)),
{
    match requested {
        Some(dir) => dir,
        None => match current {
            Some(dir) => dir,
            None => here,
        },
    }
}

/// The level of messages that are logged where the environment names none.
pub fn log_level(verbose: bool) -> (level: &'static str)
    ensures
        level@ == if verbose {
            "debug"@
        } else {
            "warn"@
        },
{
    if verbose {
        "debug"
    } else {
        "warn"
    }
}

/// Whether the program answers one prompt and exits.
pub open spec fn runs_headless<P>(cli: Cli<P>) -> bool {
    cli.print || cli.prompt is Some
}

/// Whether the program answers one prompt and exits.
pub fn is_headless<P>(cli: &Cli<P>) -> (headless: bool)
    ensures
        headless == runs_headless(*cli),
{
    cli.print || cli.prompt.is_some()
}

/// Who decides whether a tool may run: a rule that denies writes by default, or one that lets
/// them through because the user is watching.
#[derive(Clone, Copy, Debug, PartialEq, Eq, Structural)]
pub enum PermissionHandler {
    Auto { mode: PermissionMode },
    Interactive { mode: PermissionMode },
}

/// The handler for a run in the given mode.
pub fn permission_handler(headless: bool, mode: PermissionMode) -> (handler: PermissionHandler)
    ensures
        handler == if headless {
            PermissionHandler::Auto { mode }
        } else {
            PermissionHandler::Interactive { mode }
        },
{
    if headless {
        PermissionHandler::Auto { mode }
    } else {
        PermissionHandler::Interactive { mode }
    }
}

/// The settings of a query. `S` is an output style.
#[derive(Debug)]
pub struct QuerySettings<S> {
    pub model: String,
    pub max_tokens: u32,
    pub max_turns: u32,
    pub system_prompt: Option<String>,
    pub append_system_prompt: Option<String>,
    pub output_style: S,
    pub working_directory: Option<String>,
    pub thinking_budget: Option<u32>,
}

/// The settings of all queries of a run: the whole system prompt stands in one piece, so nothing
/// is left to append.
pub fn query_settings<S>(
    model: String,
    max_tokens: u32,
    max_turns: u32,
    system_prompt: String,
    output_style: S,
    working_directory: String,
) -> (settings: QuerySettings<S>)
    ensures
        settings.model@ == model@,
        settings.max_tokens == max_tokens,
        settings.max_turns == max_turns,
        text_of(settings.system_prompt) == Some(system_prompt@),
        settings.append_system_prompt is None,
        settings.output_style == output_style,
        text_of(settings.working_directory) == Some(working_directory@),
        settings.thinking_budget is None,
{
    QuerySettings {
        model,
        max_tokens,
        max_turns,
        system_prompt: Some(system_prompt),
        append_system_prompt: None,
        output_style,
        working_directory: Some(working_directory),
        thinking_budget: None,
    }
}

/// An option that was given wins over the saved settings; one that was not leaves them alone.
pub proof fn options_override_settings<P>(cli: Cli<P>, saved: Configured<P>, cwd: P)
    ensures
        ({
            let config = configured(cli, saved, cwd);
            &&& cli.api_key matches Some(key) ==> config.api_key == Some(key@)
            &&& cli.api_key is None ==> config.api_key == saved.api_key
            &&& cli.max_tokens is Some ==> config.max_tokens == cli.max_tokens
            &&& cli.max_tokens is None ==> config.max_tokens == saved.max_tokens
            &&& cli.system_prompt matches Some(text) ==> config.custom_system_prompt == Some(text@)
            &&& cli.system_prompt is None ==> config.custom_system_prompt
                == saved.custom_system_prompt
            &&& cli.append_system_prompt matches Some(text) ==> config.append_system_prompt
                == Some(text@)
            &&& cli.append_system_prompt is None ==> config.append_system_prompt
                == saved.append_system_prompt
        }),
{
}

/// Permissions are bypassed only where the command line says so: by the flag for it, which wins
/// over any mode, or by the mode of that name. Saved settings never bypass them.
pub proof fn permissions_are_bypassed_only_on_request<P>(
    cli: Cli<P>,
    saved: Configured<P>,
    cwd: P,
)
    ensures
        configured(cli, saved, cwd).permission_mode == PermissionMode::BypassPermissions <==> (
        cli.dangerously_skip_permissions || cli.permission_mode
            == CliPermissionMode::BypassPermissions),
{
}

/// Automatic compaction can be switched off on the command line, never on.
pub proof fn compaction_is_only_switched_off<P>(cli: Cli<P>, saved: Configured<P>, cwd: P)
    ensures
        configured(cli, saved, cwd).auto_compact ==> saved.auto_compact,
        cli.no_auto_compact ==> !configured(cli, saved, cwd).auto_compact,
        !cli.no_auto_compact ==> configured(cli, saved, cwd).auto_compact == saved.auto_compact,
{
}

/// Applying the same command line twice is applying it once.
pub proof fn configuring_is_idempotent<P>(cli: Cli<P>, saved: Configured<P>, cwd: P)
    ensures
        configured(cli, configured(cli, saved, cwd), cwd) == configured(cli, saved, cwd),
{
}

/// Model, verbosity, memory files and project directory are those of the command line whatever
/// was saved.
pub proof fn some_settings_are_never_kept<P>(cli: Cli<P>, saved: Configured<P>, cwd: P)
    ensures
        ({
            let config = configured(cli, saved, cwd);
            &&& config.model == Some(cli.model@)
            &&& config.verbose == cli.verbose
            &&& config.disable_claude_mds == cli.no_claude_md
            &&& config.project_dir == Some(cwd)
        }),
{
}

/// A mode or form keeps its name on the way from the command line into the configuration, and the
/// flag for skipping permissions wins over every mode.
pub proof fn choices_keep_their_names<P>(cli: Cli<P>, saved: Configured<P>, cwd: P)
    ensures
        ({
            let mode = configured(cli, saved, cwd).permission_mode;
            let skips = cli.dangerously_skip_permissions;
            &&& skips ==> mode is BypassPermissions
            &&& !skips ==> (mode is Default <==> cli.permission_mode is Default)
            &&& !skips ==> (mode is AcceptEdits <==> cli.permission_mode is AcceptEdits)
            &&& !skips ==> (mode is BypassPermissions <==> cli.permission_mode is BypassPermissions)
            &&& !skips ==> (mode is Plan <==> cli.permission_mode is Plan)
        }),
        ({
            let form = configured(cli, saved, cwd).output_format;
            &&& form is Text <==> cli.output_format is Text
            &&& form is Json <==> cli.output_format is Json
            &&& form is StreamJson <==> cli.output_format is StreamJson
        }),
{
}

/// What is given is taken, and what was saved stands only where nothing is given.
pub proof fn given_comes_before_saved<T>(given: T, saved: Option<T>)
    ensures
        given_or(Some(given), saved) == Some(given),
        given_or(None, saved) == saved,
{
}

/// A run is headless exactly where printing is asked for or there is a prompt, be it empty.
pub proof fn headless_runs_are_asked_for<P>(cli: Cli<P>)
    ensures
        cli.print ==> runs_headless(cli),
        cli.prompt is Some ==> runs_headless(cli),
        !cli.print && cli.prompt is None ==> !runs_headless(cli),
{
}

/// A configuration is seen as it stands, field by field.
pub proof fn configurations_are_seen_whole<P>(config: Config<P>)
    ensures
        config@.api_key == text_of(config.api_key),
        config@.model == text_of(config.model),
        config@.max_tokens == config.max_tokens,
        config@.verbose == config.verbose,
        config@.output_format == config.output_format,
        config@.disable_claude_mds == config.disable_claude_mds,
        config@.custom_system_prompt == text_of(config.custom_system_prompt),
        config@.append_system_prompt == text_of(config.append_system_prompt),
        config@.permission_mode == config.permission_mode,
        config@.auto_compact == config.auto_compact,
        config@.project_dir == config.project_dir,
{
}

} // verus!
