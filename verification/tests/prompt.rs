use claude_cli::output::Stream;
use claude_cli::prompt::{context_dump, headless_prompt, system_prompt};

#[test]
fn the_system_prompt_has_its_parts_in_order() {
    assert_eq!(system_prompt("base", "sys", "user", &None, &None), "base\n\nsys\n\nuser");
    assert_eq!(
        system_prompt("base", "sys", "user", &None, &Some("more".to_string())),
        "base\n\nsys\n\nuser\n\nmore"
    );
}

#[test]
fn a_custom_prompt_replaces_the_built_in_one() {
    let custom = Some("mine".to_string());
    assert_eq!(system_prompt("base", "sys", "user", &custom, &None), "mine\n\nsys\n\nuser");
    assert_eq!(
        system_prompt("base", "sys", "user", &custom, &None),
        system_prompt("other", "sys", "user", &custom, &None)
    );
}

#[test]
fn the_dump_holds_both_contexts() {
    assert_eq!(context_dump("sys", "user"), "sys\n\nuser");
}

#[test]
fn a_prompt_on_the_command_line_is_taken_as_it_stands() {
    assert_eq!(headless_prompt(Some("  hi ".to_string()), "ignored").ok(), Some("  hi ".to_string()));
    assert_eq!(headless_prompt(Some(" ".to_string()), "").ok(), Some(" ".to_string()));
}

#[test]
fn a_prompt_from_standard_input_is_trimmed() {
    assert_eq!(headless_prompt(None, "\n explain this \n").ok(), Some("explain this".to_string()));
}

#[test]
fn an_empty_prompt_is_refused() {
    for (argument, stdin) in [(None, " \n"), (None, ""), (Some("".to_string()), "text")] {
        match headless_prompt(argument, stdin) {
            Ok(_) => panic!("accepted"),
            Err(report) => {
                assert_eq!(report.exit, Some(1));
                assert_eq!(report.output.len(), 1);
                assert_eq!(report.output[0].stream, Stream::Stderr);
                assert_eq!(
                    report.output[0].text,
                    "Error: No prompt provided. Use --print <prompt> or pipe text to stdin.\n"
                );
            }
        }
    }
}
