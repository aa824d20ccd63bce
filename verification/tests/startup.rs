use claude_cli::output::Stream;
use claude_cli::startup::{
    authenticate, credential_source, key_is_set, launch, login_done, named_report, version_line,
    Authentication, Credential, Found, Launch, NamedOutcome, Source,
};

fn args(items: &[&str]) -> Vec<String> {
    items.iter().map(|s| s.to_string()).collect()
}

fn found(source: Source) -> Option<Found> {
    Some(Found {
        credential: Credential { secret: "token".to_string(), use_bearer_auth: true },
        source,
    })
}

#[test]
fn the_version_is_told_wherever_it_is_asked_for() {
    assert!(matches!(launch(&args(&["acme", "--version"])), Launch::Version));
    assert!(matches!(launch(&args(&["acme", "auth", "login", "-V"])), Launch::Version));
    assert!(matches!(launch(&args(&["-V"])), Launch::Version));
    let output = version_line("acme", "1.2.3");
    assert_eq!(output.stream, Stream::Stdout);
    assert_eq!(output.text, "acme 1.2.3\n");
}

#[test]
fn credential_commands_get_the_rest_of_the_line() {
    match launch(&args(&["acme", "auth", "status", "--json"])) {
        Launch::Auth(rest) => assert_eq!(rest, args(&["status", "--json"])),
        _ => panic!("not a credential command"),
    }
    match launch(&args(&["acme", "auth"])) {
        Launch::Auth(rest) => assert!(rest.is_empty()),
        _ => panic!("not a credential command"),
    }
}

#[test]
fn words_are_looked_up_as_commands() {
    match launch(&args(&["acme", "branch", "new", "name"])) {
        Launch::Named { name, rest } => {
            assert_eq!(name, "branch");
            assert_eq!(rest, args(&["new", "name"]));
        }
        _ => panic!("not a named command"),
    }
    match launch(&args(&["acme", ""])) {
        Launch::Named { name, rest } => {
            assert_eq!(name, "");
            assert!(rest.is_empty());
        }
        _ => panic!("not a named command"),
    }
}

#[test]
fn options_and_slash_commands_start_a_session() {
    assert!(matches!(launch(&args(&["acme"])), Launch::Session));
    assert!(matches!(launch(&args(&[])), Launch::Session));
    assert!(matches!(launch(&args(&["acme", "-p", "hi"])), Launch::Session));
    assert!(matches!(launch(&args(&["acme", "/help"])), Launch::Session));
    assert!(matches!(launch(&args(&["acme", "--print", "auth"])), Launch::Session));
}

#[test]
fn named_commands_report_their_outcome() {
    for outcome in [
        NamedOutcome::Message("done".to_string()),
        NamedOutcome::UserMessage("done".to_string()),
    ] {
        let report = named_report(outcome, "usage");
        assert_eq!(report.exit, Some(0));
        assert_eq!(report.output.len(), 1);
        assert_eq!(report.output[0].stream, Stream::Stdout);
        assert_eq!(report.output[0].text, "done\n");
    }
    let report = named_report(NamedOutcome::Error("no".to_string()), "acme branch <name>");
    assert_eq!(report.exit, Some(1));
    assert_eq!(report.output.len(), 2);
    assert!(report.output.iter().all(|o| o.stream == Stream::Stderr));
    assert_eq!(report.output[0].text, "Error: no\n");
    assert_eq!(report.output[1].text, "Usage: acme branch <name>\n");
    let report = named_report(NamedOutcome::Other, "usage");
    assert_eq!(report.exit, None);
    assert!(report.output.is_empty());
}

#[test]
fn a_given_key_is_used_everywhere() {
    for local in [false, true] {
        for headless in [false, true] {
            match authenticate("acme", found(Source::Given), local, headless) {
                Authentication::Use(credential) => {
                    assert_eq!(credential.secret, "token");
                    assert!(credential.use_bearer_auth);
                }
                _ => panic!("not used"),
            }
        }
    }
}

#[test]
fn a_saved_login_is_kept_from_local_backends() {
    match authenticate("acme", found(Source::SavedLogin), true, false) {
        Authentication::Use(credential) => {
            assert_eq!(credential.secret, "local");
            assert!(!credential.use_bearer_auth);
        }
        _ => panic!("no placeholder"),
    }
    match authenticate("acme", found(Source::SavedLogin), false, true) {
        Authentication::Use(credential) => assert_eq!(credential.secret, "token"),
        _ => panic!("not used"),
    }
}

#[test]
fn a_local_backend_needs_no_key() {
    for headless in [false, true] {
        match authenticate("acme", None, true, headless) {
            Authentication::Use(credential) => {
                assert_eq!(credential.secret, "local");
                assert!(!credential.use_bearer_auth);
            }
            _ => panic!("no placeholder"),
        }
    }
}

#[test]
fn without_a_key_a_headless_run_gives_up() {
    match authenticate("acme", None, false, true) {
        Authentication::Refuse(reason) => assert_eq!(
            reason,
            "No API key found. Set ANTHROPIC_API_KEY, use --api-key, or run `acme login`."
        ),
        _ => panic!("not refused"),
    }
}

#[test]
fn without_a_key_a_user_logs_in() {
    match authenticate("acme", None, false, false) {
        Authentication::LogIn(output) => {
            assert_eq!(output.stream, Stream::Stderr);
            assert_eq!(output.text, "No authentication found. Starting login flow...\n");
        }
        _ => panic!("no login"),
    }
    assert_eq!(login_done().stream, Stream::Stdout);
    assert_eq!(login_done().text, "Login successful!\n");
}

#[test]
fn keys_are_tried_before_saved_logins() {
    let none = None;
    let empty = Some("".to_string());
    let key = Some("k".to_string());
    assert_eq!(credential_source(&key, &none), Source::Given);
    assert_eq!(credential_source(&none, &key), Source::Given);
    assert_eq!(credential_source(&empty, &none), Source::SavedLogin);
    assert_eq!(credential_source(&none, &none), Source::SavedLogin);
    assert!(key_is_set(&key));
    assert!(!key_is_set(&empty));
    assert!(!key_is_set(&none));
}
