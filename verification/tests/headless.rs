use claude_cli::headless::{
    error_json, json_line, result_json, stream_end_json, text_delta_json, tool_start_json, Headless,
    QueryEvent, QueryOutcome, Spending, Usage,
};
use claude_cli::options::CliOutputFormat;
use claude_cli::output::{Output, Stream};
use serde_json::Value;

fn delta(text: &str) -> QueryEvent {
    QueryEvent::TextDelta(text.to_string())
}

fn spending() -> Spending {
    Spending {
        input_tokens: 1200,
        output_tokens: 34,
        cost_usd: Value::from(0.25f64),
        cost_text: format!("{:.4}", 0.25f64),
    }
}

fn usage() -> Usage {
    Usage {
        input_tokens: 1,
        output_tokens: 2,
        cache_creation_input_tokens: 3,
        cache_read_input_tokens: 4,
    }
}

fn end_turn(text: &str) -> QueryOutcome {
    QueryOutcome::EndTurn { message_text: text.to_string(), usage: usage() }
}

fn events() -> Vec<QueryEvent> {
    vec![
        delta("Hel"),
        QueryEvent::ToolStart("Bash".to_string()),
        QueryEvent::Other,
        QueryEvent::Error("slow".to_string()),
        delta("lo\n\"x\""),
    ]
}

fn on(stream: Stream, written: &[Output]) -> String {
    written.iter().filter(|o| o.stream == stream).map(|o| o.text.as_str()).collect()
}

fn run(format: CliOutputFormat, outcome: QueryOutcome, verbose: bool) -> (Vec<Output>, Option<i32>) {
    let mut run = Headless::new(format);
    let mut written = vec![];
    for event in &events() {
        written.extend(run.on_event(event));
    }
    assert_eq!(run.full_text, "Hello\n\"x\"");
    let report = run.finish(outcome, spending(), verbose);
    written.extend(report.output);
    (written, report.exit)
}

#[test]
fn text_puts_the_answer_on_standard_output() {
    let (written, exit) = run(CliOutputFormat::Text, end_turn("unused"), false);
    assert_eq!(exit, None);
    assert_eq!(on(Stream::Stdout, &written), "Hello\n\"x\"\n");
    assert_eq!(on(Stream::Stderr, &written), "\n[Bash...]\n\nError: slow\n");
}

#[test]
fn verbose_text_tells_what_the_run_took() {
    let (written, exit) = run(CliOutputFormat::Text, QueryOutcome::Other, true);
    assert_eq!(exit, None);
    assert_eq!(on(Stream::Stdout, &written), "Hello\n\"x\"\n");
    assert_eq!(
        on(Stream::Stderr, &written),
        "\n[Bash...]\n\nError: slow\n\nTokens: 1200 in / 34 out | Cost: $0.2500\n"
    );
}

#[test]
fn failed_text_runs_exit_badly() {
    let (written, exit) = run(CliOutputFormat::Text, QueryOutcome::Error("gone".to_string()), false);
    assert_eq!(exit, Some(1));
    assert_eq!(on(Stream::Stdout, &written), "Hello\n\"x\"\n");
    assert_eq!(on(Stream::Stderr, &written), "\n[Bash...]\n\nError: slow\nError: gone\n");
}

#[test]
fn json_gives_the_answer_at_the_end() {
    let (written, exit) = run(CliOutputFormat::Json, end_turn("unused"), true);
    assert_eq!(exit, None);
    assert_eq!(
        on(Stream::Stdout, &written),
        "{\"tool\":\"Bash\",\"type\":\"tool_start\"}\n{\"cost_usd\":0.25,\"result\":\"Hello\\n\\\"x\\\"\",\"type\":\"result\",\"usage\":{\"cache_creation_input_tokens\":3,\"cache_read_input_tokens\":4,\"input_tokens\":1,\"output_tokens\":2}}\n"
    );
    assert_eq!(on(Stream::Stderr, &written), "{\"error\":\"slow\",\"type\":\"error\"}\n");
}

#[test]
fn json_falls_back_on_the_final_message() {
    let report = Headless::new(CliOutputFormat::Json).finish(end_turn("whole"), spending(), false);
    let value: Value = match serde_json::from_str(&report.output[0].text) {
        Ok(value) => value,
        Err(_) => panic!("not JSON"),
    };
    assert_eq!(value["result"], Value::String("whole".to_string()));
    assert_eq!(value["type"], Value::String("result".to_string()));
}

#[test]
fn streamed_json_has_a_line_for_each_event() {
    let (written, exit) = run(CliOutputFormat::StreamJson, end_turn("unused"), false);
    assert_eq!(exit, None);
    assert_eq!(
        on(Stream::Stdout, &written),
        "{\"text\":\"Hel\",\"type\":\"text_delta\"}\n{\"tool\":\"Bash\",\"type\":\"tool_start\"}\n{\"text\":\"lo\\n\\\"x\\\"\",\"type\":\"text_delta\"}\n{\"cost_usd\":0.25,\"type\":\"result\",\"usage\":{\"input_tokens\":1,\"output_tokens\":2}}\n"
    );
    assert_eq!(on(Stream::Stderr, &written), "{\"error\":\"slow\",\"type\":\"error\"}\n");
}

#[test]
fn failed_json_runs_tell_the_error_and_exit_badly() {
    for format in [CliOutputFormat::Json, CliOutputFormat::StreamJson] {
        let report =
            Headless::new(format).finish(QueryOutcome::Error("gone".to_string()), spending(), true);
        assert_eq!(report.exit, Some(1));
        assert_eq!(report.output.len(), 1);
        assert_eq!(report.output[0].stream, Stream::Stderr);
        assert_eq!(report.output[0].text, "{\"error\":\"gone\",\"type\":\"error\"}\n");
    }
}

#[test]
fn json_runs_that_just_stop_say_nothing() {
    for format in [CliOutputFormat::Json, CliOutputFormat::StreamJson] {
        let report = Headless::new(format).finish(QueryOutcome::Other, spending(), true);
        assert_eq!(report.exit, None);
        assert!(report.output.is_empty());
    }
}

#[test]
fn json_events_hold_what_they_tell_of() {
    assert_eq!(text_delta_json("a")["text"], Value::String("a".to_string()));
    assert_eq!(tool_start_json("a")["tool"], Value::String("a".to_string()));
    assert_eq!(error_json("a")["error"], Value::String("a".to_string()));
    assert_eq!(
        result_json("a".to_string(), usage(), Value::Null)["usage"]["cache_read_input_tokens"],
        Value::from(4u64)
    );
    assert_eq!(stream_end_json(usage(), Value::Null)["cost_usd"], Value::Null);
    let output = json_line(Stream::Stderr, &error_json("a"));
    assert_eq!(output.stream, Stream::Stderr);
    assert_eq!(output.text, "{\"error\":\"a\",\"type\":\"error\"}\n");
}
