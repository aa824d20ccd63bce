use claude_cli::auth::{
    auth_command, auth_method, auth_status, login_report, method_name_text, status_json, Account,
    AuthCommand, AuthMethod, Credentials, LoggedIn, Logout, LogoutAction, LogoutEvent,
};
use claude_cli::output::{Report, Stream};
use serde_json::Value;

fn args(items: &[&str]) -> Vec<String> {
    items.iter().map(|s| s.to_string()).collect()
}

fn text(s: &str) -> Option<String> {
    Some(s.to_string())
}

fn lines(report: &Report) -> Vec<&str> {
    report.output.iter().map(|o| o.text.as_str()).collect()
}

fn all_on(report: &Report, stream: Stream) -> bool {
    report.output.iter().all(|o| o.stream == stream)
}

fn nothing() -> Credentials {
    Credentials { account: None, env_api_key: None, settings_api_key: None }
}

fn account(uses_bearer_auth: bool) -> Account {
    Account {
        uses_bearer_auth,
        email: text("me@example.com"),
        organization_uuid: text("org-1"),
        subscription_type: None,
    }
}

#[test]
fn login_uses_the_account_unless_the_console_is_asked_for() {
    match auth_command("acme", &args(&["login"])) {
        AuthCommand::Login { announce, with_claude_ai } => {
            assert!(with_claude_ai);
            assert_eq!(announce.stream, Stream::Stdout);
            assert_eq!(announce.text, "Starting authentication...\n");
        }
        _ => panic!("not a login"),
    }
    match auth_command("acme", &args(&["login", "x", "--console"])) {
        AuthCommand::Login { with_claude_ai, .. } => assert!(!with_claude_ai),
        _ => panic!("not a login"),
    }
}

#[test]
fn logout_and_status_are_recognised() {
    assert!(matches!(auth_command("acme", &args(&["logout", "now"])), AuthCommand::Logout));
    assert!(matches!(auth_command("acme", &args(&["status"])), AuthCommand::Status { json: false }));
    assert!(matches!(
        auth_command("acme", &args(&["status", "--json"])),
        AuthCommand::Status { json: true }
    ));
}

#[test]
fn an_unknown_command_gets_the_usage() {
    match auth_command("acme", &args(&["whoami"])) {
        AuthCommand::Usage(report) => {
            assert_eq!(report.exit, Some(1));
            assert!(all_on(&report, Stream::Stderr));
            assert_eq!(
                lines(&report),
                vec![
                    "Unknown auth subcommand: 'whoami'\n",
                    "\n",
                    "Usage: acme auth <subcommand>\n",
                    "  login [--console]   Authenticate (acme.ai by default; --console for API key)\n",
                    "  logout              Remove stored credentials\n",
                    "  status [--json]     Show authentication status\n",
                ]
            );
        }
        _ => panic!("no usage"),
    }
}

#[test]
fn a_missing_command_gets_the_usage() {
    match auth_command("acme", &args(&[])) {
        AuthCommand::Usage(report) => {
            assert_eq!(report.exit, Some(1));
            assert!(all_on(&report, Stream::Stderr));
            assert_eq!(
                lines(&report),
                vec![
                    "Usage: acme auth <login|logout|status>\n",
                    "  login [--console]   Authenticate with Anthropic\n",
                    "  logout              Remove stored credentials\n",
                    "  status [--json]     Show authentication status\n",
                ]
            );
        }
        _ => panic!("no usage"),
    }
}

#[test]
fn a_login_tells_the_account_and_the_method() {
    let report = login_report(
        "acme",
        Ok(LoggedIn { email: text("me@example.com"), use_bearer_auth: true }),
    );
    assert_eq!(report.exit, Some(0));
    assert!(all_on(&report, Stream::Stdout));
    assert_eq!(
        lines(&report),
        vec!["Successfully logged in!\n", "  Account: me@example.com\n", "  Auth method: acme.ai\n"]
    );
    let report = login_report("acme", Ok(LoggedIn { email: None, use_bearer_auth: false }));
    assert_eq!(report.exit, Some(0));
    assert_eq!(
        lines(&report),
        vec!["Successfully logged in!\n", "  Auth method: console (API key)\n"]
    );
}

#[test]
fn a_failed_login_exits_badly() {
    let report = login_report("acme", Err("denied".to_string()));
    assert_eq!(report.exit, Some(1));
    assert!(all_on(&report, Stream::Stderr));
    assert_eq!(lines(&report), vec!["Login failed: denied\n"]);
}

#[test]
fn a_saved_login_is_in_use_before_any_key() {
    let mut credentials = nothing();
    assert_eq!(auth_method(&credentials), AuthMethod::Nothing);
    credentials.settings_api_key = text("k");
    assert_eq!(auth_method(&credentials), AuthMethod::ApiKey);
    credentials.settings_api_key = None;
    credentials.env_api_key = text("k");
    assert_eq!(auth_method(&credentials), AuthMethod::ApiKey);
    credentials.account = Some(account(false));
    assert_eq!(auth_method(&credentials), AuthMethod::OauthToken);
    credentials.account = Some(account(true));
    assert_eq!(auth_method(&credentials), AuthMethod::Account);
}

#[test]
fn empty_keys_are_no_keys() {
    let credentials =
        Credentials { account: None, env_api_key: text(""), settings_api_key: text("") };
    assert_eq!(auth_method(&credentials), AuthMethod::Nothing);
    assert_eq!(auth_status(&credentials, "acme", false).exit, Some(1));
}

#[test]
fn methods_have_names() {
    assert_eq!(method_name_text(AuthMethod::Account, "acme"), "acme.ai");
    assert_eq!(method_name_text(AuthMethod::OauthToken, "acme"), "oauth_token");
    assert_eq!(method_name_text(AuthMethod::ApiKey, "acme"), "api_key");
    assert_eq!(method_name_text(AuthMethod::Nothing, "acme"), "none");
}

#[test]
fn the_status_in_words_without_credentials() {
    let report = auth_status(&nothing(), "acme", false);
    assert_eq!(report.exit, Some(1));
    assert!(all_on(&report, Stream::Stdout));
    assert_eq!(lines(&report), vec!["Not logged in. Run `acme auth login` to authenticate.\n"]);
}

#[test]
fn the_status_in_words_with_an_account() {
    let mut credentials = nothing();
    credentials.account = Some(account(true));
    let report = auth_status(&credentials, "acme", false);
    assert_eq!(report.exit, Some(0));
    assert_eq!(
        lines(&report),
        vec![
            "Logged in.\n",
            "  Account: me@example.com\n",
            "  Organization: org-1\n",
            "  Auth method: acme.ai\n",
        ]
    );
    credentials.account = Some(Account {
        uses_bearer_auth: false,
        email: None,
        organization_uuid: None,
        subscription_type: text("pro"),
    });
    assert_eq!(
        lines(&auth_status(&credentials, "acme", false)),
        vec!["Logged in.\n", "  Subscription: pro\n", "  Auth method: Console (OAuth API key)\n"]
    );
}

#[test]
fn the_status_in_words_with_a_key() {
    let mut credentials = nothing();
    credentials.settings_api_key = text("k");
    assert_eq!(
        lines(&auth_status(&credentials, "acme", false)),
        vec!["Logged in.\n", "  API key: settings.json\n"]
    );
    credentials.env_api_key = text("k");
    let report = auth_status(&credentials, "acme", false);
    assert_eq!(report.exit, Some(0));
    assert_eq!(
        lines(&report),
        vec!["Logged in.\n", "  API key: ANTHROPIC_API_KEY (environment variable)\n"]
    );
}

#[test]
fn the_status_in_json_without_credentials() {
    let report = auth_status(&nothing(), "acme", true);
    assert_eq!(report.exit, Some(1));
    assert!(all_on(&report, Stream::Stdout));
    assert_eq!(lines(&report), vec!["{\n  \"authMethod\": \"none\",\n  \"loggedIn\": false\n}\n"]);
}

#[test]
fn the_status_in_json_with_an_account_and_a_key() {
    let credentials = Credentials {
        account: Some(account(true)),
        env_api_key: None,
        settings_api_key: text("k"),
    };
    let report = auth_status(&credentials, "acme", true);
    assert_eq!(report.exit, Some(0));
    assert_eq!(
        lines(&report),
        vec![
            "{\n  \"apiKeySource\": \"settings\",\n  \"authMethod\": \"acme.ai\",\n  \"email\": \"me@example.com\",\n  \"loggedIn\": true,\n  \"orgId\": \"org-1\",\n  \"subscriptionType\": null\n}\n"
        ]
    );
}

#[test]
fn the_status_in_json_keeps_console_accounts_private() {
    let credentials = Credentials {
        account: Some(account(false)),
        env_api_key: text("k"),
        settings_api_key: text("k"),
    };
    let value = status_json(&credentials, "acme");
    assert_eq!(value["loggedIn"], Value::Bool(true));
    assert_eq!(value["authMethod"], Value::String("oauth_token".to_string()));
    assert_eq!(value["apiKeySource"], Value::String("ANTHROPIC_API_KEY".to_string()));
    assert_eq!(value.as_object().map(|o| o.len()), Some(3));
}

fn log_out(
    cleared: Result<(), String>,
    loaded: Result<Option<String>, String>,
    saved: Result<(), String>,
) -> (Report, bool) {
    let (logout, action) = Logout::new().step(LogoutEvent::Start);
    assert!(matches!(action, LogoutAction::ClearTokens));
    let (logout, action) = logout.step(LogoutEvent::TokensCleared(cleared));
    assert!(matches!(action, LogoutAction::LoadSettings));
    let (logout, action) = logout.step(LogoutEvent::SettingsLoaded(loaded));
    match action {
        LogoutAction::SaveWithoutKey => {
            let (logout, action) = logout.step(LogoutEvent::SettingsSaved(saved));
            assert!(matches!(action, LogoutAction::Finish));
            (logout.report, true)
        }
        LogoutAction::Finish => (logout.report, false),
        _ => panic!("unexpected action"),
    }
}

#[test]
fn a_logout_removes_the_key_from_the_settings() {
    let (report, saved) = log_out(Ok(()), Ok(text("k")), Ok(()));
    assert!(saved);
    assert_eq!(report.exit, Some(0));
    assert!(all_on(&report, Stream::Stdout));
    assert_eq!(lines(&report), vec!["Successfully logged out from your Anthropic account.\n"]);
    assert!(log_out(Ok(()), Ok(text("")), Ok(())).1);
}

#[test]
fn a_logout_without_a_key_saves_nothing() {
    let (report, saved) = log_out(Ok(()), Ok(None), Err("unused".to_string()));
    assert!(!saved);
    assert_eq!(report.exit, Some(0));
}

#[test]
fn a_logout_that_leaves_a_credential_exits_badly() {
    let (report, saved) = log_out(Err("busy".to_string()), Ok(text("k")), Err("full".to_string()));
    assert!(saved);
    assert_eq!(report.exit, Some(1));
    assert!(all_on(&report, Stream::Stderr));
    assert_eq!(
        lines(&report),
        vec![
            "Warning: failed to clear OAuth tokens: busy\n",
            "Warning: failed to update settings.json: full\n",
            "Logout completed with warnings.\n",
        ]
    );
}

#[test]
fn settings_that_cannot_be_read_only_give_a_warning() {
    let (report, saved) = log_out(Ok(()), Err("bad".to_string()), Ok(()));
    assert!(!saved);
    assert_eq!(report.exit, Some(0));
    assert_eq!(report.output[0].stream, Stream::Stderr);
    assert_eq!(report.output[1].stream, Stream::Stdout);
    assert_eq!(
        lines(&report),
        vec![
            "Warning: failed to load settings.json: bad\n",
            "Successfully logged out from your Anthropic account.\n",
        ]
    );
}
