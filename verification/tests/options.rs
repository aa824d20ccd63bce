use claude_cli::options::{
    effective_config, is_headless, log_level, permission_handler, query_settings, working_dir, Cli,
    CliOutputFormat, CliPermissionMode, Config, OutputFormat, PermissionHandler, PermissionMode,
};

fn cli() -> Cli<String> {
    Cli {
        prompt: None,
        print: false,
        model: "model-b".to_string(),
        permission_mode: CliPermissionMode::Default,
        resume: None,
        max_turns: 10,
        system_prompt: None,
        append_system_prompt: None,
        no_claude_md: false,
        output_format: CliOutputFormat::Text,
        verbose: false,
        api_key: None,
        max_tokens: None,
        cwd: None,
        dangerously_skip_permissions: false,
        dump_system_prompt: false,
        mcp_config: None,
        no_auto_compact: false,
    }
}

fn saved() -> Config<String> {
    Config {
        api_key: Some("saved-key".to_string()),
        model: Some("model-a".to_string()),
        max_tokens: Some(100),
        verbose: true,
        output_format: OutputFormat::Json,
        disable_claude_mds: true,
        custom_system_prompt: Some("saved prompt".to_string()),
        append_system_prompt: Some("saved appendix".to_string()),
        permission_mode: PermissionMode::BypassPermissions,
        auto_compact: true,
        project_dir: Some("/old".to_string()),
    }
}

#[test]
fn settings_survive_where_no_option_is_given() {
    let config = effective_config(&cli(), saved(), "/work".to_string());
    assert_eq!(config.api_key, Some("saved-key".to_string()));
    assert_eq!(config.max_tokens, Some(100));
    assert_eq!(config.custom_system_prompt, Some("saved prompt".to_string()));
    assert_eq!(config.append_system_prompt, Some("saved appendix".to_string()));
    assert!(config.auto_compact);
}

#[test]
fn some_settings_always_follow_the_command_line() {
    let config = effective_config(&cli(), saved(), "/work".to_string());
    assert_eq!(config.model, Some("model-b".to_string()));
    assert!(!config.verbose);
    assert_eq!(config.output_format, OutputFormat::Text);
    assert!(!config.disable_claude_mds);
    assert_eq!(config.permission_mode, PermissionMode::Default);
    assert_eq!(config.project_dir, Some("/work".to_string()));
}

#[test]
fn options_override_saved_settings() {
    let mut cli = cli();
    cli.api_key = Some("k".to_string());
    cli.max_tokens = Some(7);
    cli.system_prompt = Some("p".to_string());
    cli.append_system_prompt = Some("q".to_string());
    cli.verbose = true;
    cli.no_claude_md = true;
    cli.no_auto_compact = true;
    cli.output_format = CliOutputFormat::StreamJson;
    cli.permission_mode = CliPermissionMode::Plan;
    let config = effective_config(&cli, saved(), "/work".to_string());
    assert_eq!(config.api_key, Some("k".to_string()));
    assert_eq!(config.max_tokens, Some(7));
    assert_eq!(config.custom_system_prompt, Some("p".to_string()));
    assert_eq!(config.append_system_prompt, Some("q".to_string()));
    assert!(config.verbose);
    assert!(config.disable_claude_mds);
    assert!(!config.auto_compact);
    assert_eq!(config.output_format, OutputFormat::StreamJson);
    assert_eq!(config.permission_mode, PermissionMode::Plan);
}

#[test]
fn skipping_permissions_wins_over_any_mode() {
    let mut cli = cli();
    cli.permission_mode = CliPermissionMode::Plan;
    cli.dangerously_skip_permissions = true;
    let config = effective_config(&cli, saved(), "/work".to_string());
    assert_eq!(config.permission_mode, PermissionMode::BypassPermissions);
}

#[test]
fn compaction_is_never_switched_on() {
    let mut settings = saved();
    settings.auto_compact = false;
    assert!(!effective_config(&cli(), settings, "/work".to_string()).auto_compact);
}

#[test]
fn configuring_twice_changes_nothing_more() {
    let once = effective_config(&cli(), saved(), "/work".to_string());
    let again = effective_config(
        &cli(),
        effective_config(&cli(), saved(), "/work".to_string()),
        "/work".to_string(),
    );
    assert_eq!(format!("{:?}", once), format!("{:?}", again));
}

#[test]
fn modes_keep_their_names() {
    assert_eq!(PermissionMode::from(CliPermissionMode::Default), PermissionMode::Default);
    assert_eq!(PermissionMode::from(CliPermissionMode::AcceptEdits), PermissionMode::AcceptEdits);
    assert_eq!(
        PermissionMode::from(CliPermissionMode::BypassPermissions),
        PermissionMode::BypassPermissions
    );
    assert_eq!(PermissionMode::from(CliPermissionMode::Plan), PermissionMode::Plan);
    assert_eq!(OutputFormat::from(CliOutputFormat::Text), OutputFormat::Text);
    assert_eq!(OutputFormat::from(CliOutputFormat::Json), OutputFormat::Json);
    assert_eq!(OutputFormat::from(CliOutputFormat::StreamJson), OutputFormat::StreamJson);
}

#[test]
fn a_prompt_or_the_print_flag_makes_a_headless_run() {
    let mut options = cli();
    assert!(!is_headless(&options));
    options.print = true;
    assert!(is_headless(&options));
    options.print = false;
    options.prompt = Some("".to_string());
    assert!(is_headless(&options));
}

#[test]
fn headless_runs_decide_permissions_by_rule() {
    let mode = PermissionMode::AcceptEdits;
    assert_eq!(permission_handler(true, mode), PermissionHandler::Auto { mode });
    assert_eq!(permission_handler(false, mode), PermissionHandler::Interactive { mode });
}

#[test]
fn the_working_directory_has_fallbacks() {
    assert_eq!(working_dir(Some("/a"), Some("/b"), "."), "/a");
    assert_eq!(working_dir(None, Some("/b"), "."), "/b");
    assert_eq!(working_dir(None, None, "."), ".");
}

#[test]
fn verbose_runs_log_more() {
    assert_eq!(log_level(true), "debug");
    assert_eq!(log_level(false), "warn");
}

#[test]
fn query_settings_hold_one_whole_prompt() {
    let settings = query_settings("m".to_string(), 5, 10, "p".to_string(), 3u8, "/work".to_string());
    assert_eq!(settings.model, "m");
    assert_eq!(settings.max_tokens, 5);
    assert_eq!(settings.max_turns, 10);
    assert_eq!(settings.system_prompt, Some("p".to_string()));
    assert_eq!(settings.append_system_prompt, None);
    assert_eq!(settings.output_style, 3);
    assert_eq!(settings.working_directory, Some("/work".to_string()));
    assert_eq!(settings.thinking_budget, None);
}
