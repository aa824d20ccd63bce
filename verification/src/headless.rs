//! The headless run: what is written while an answer streams in, and when it is complete.

use crate::json::{
    compact_text, json_compact, json_tree, object_value, text_value, unsigned_value, Json,
};
use crate::options::CliOutputFormat;
use crate::output::{line, silence, Output, Report, Reported, Stream, Written};
use crate::text::{decimal, decimal_text};
use serde_json::Value;
use vstd::prelude::*;
use vstd::string::*;

verus! {

/// What a query tells of while it runs.
#[derive(Debug)]
pub enum QueryEvent {
    /// A piece of the answer.
    TextDelta(String),
    /// A tool starts.
    ToolStart(String),
    /// Something went wrong.
    Error(String),
    /// Anything else.
    Other,
}

/// The tokens that a query took.
#[derive(Clone, Copy, Debug, PartialEq, Eq, Structural)]
pub struct Usage {
    pub input_tokens: u64,
    pub output_tokens: u64,
    pub cache_creation_input_tokens: u64,
    pub cache_read_input_tokens: u64,
}

/// How a query ended.
#[derive(Debug)]
pub enum QueryOutcome {
    /// The model ended its turn with a message of this text.
    EndTurn { message_text: String, usage: Usage },
    /// The query failed.
    Error(String),
    /// The query stopped for another reason.
    Other,
}

/// What a whole run took: its tokens, and its cost in dollars as a JSON number and to four
/// decimal places.
#[derive(Debug)]
pub struct Spending {
    pub input_tokens: u64,
    pub output_tokens: u64,
    pub cost_usd: Value,
    pub cost_text: String,
}

/// The JSON that tells of a piece of the answer.
pub open spec fn text_delta_tree(text: Seq<char>) -> Json {
    Json::Object(map!["type"@ => Json::Text("text_delta"@), "text"@ => Json::Text(text)])
}

/// The JSON that tells of a piece of the answer.
pub fn text_delta_json(text: &str) -> (value: Value)
    ensures
        json_tree(value) == text_delta_tree(text@),
{
    let mut object = serde_json::Map::new();
    object.insert("type".to_string(), text_value("text_delta".to_string()));
    object.insert("text".to_string(), text_value(text.to_string()));
    object_value(object)
}

/// The JSON that tells of a tool's start.
pub open spec fn tool_start_tree(tool: Seq<char>) -> Json {
    Json::Object(map!["type"@ => Json::Text("tool_start"@), "tool"@ => Json::Text(tool)])
}

/// The JSON that tells of a tool's start.
pub fn tool_start_json(tool: &str) -> (value: Value)
    ensures
        json_tree(value) == tool_start_tree(tool@),
{
    let mut object = serde_json::Map::new();
    object.insert("type".to_string(), text_value("tool_start".to_string()));
    object.insert("tool".to_string(), text_value(tool.to_string()));
    object_value(object)
}

/// The JSON that tells of an error.
pub open spec fn error_tree(error: Seq<char>) -> Json {
    Json::Object(map!["type"@ => Json::Text("error"@), "error"@ => Json::Text(error)])
}

/// The JSON that tells of an error.
pub fn error_json(error: &str) -> (value: Value)
    ensures
        json_tree(value) == error_tree(error@),
{
    let mut object = serde_json::Map::new();
    object.insert("type".to_string(), text_value("error".to_string()));
    object.insert("error".to_string(), text_value(error.to_string()));
    object_value(object)
}

/// The JSON that gives the complete answer, all token counts and the cost.
pub open spec fn result_tree(answer: Seq<char>, usage: Usage, cost_usd: Json) -> Json {
    Json::Object(
        map![
            "type"@ => Json::Text("result"@),
            "result"@ => Json::Text(answer),
            "usage"@ => Json::Object(
                map![
                    "input_tokens"@ => Json::Unsigned(usage.input_tokens as nat),
                    "output_tokens"@ => Json::Unsigned(usage.output_tokens as nat),
                    "cache_creation_input_tokens"@ => Json::Unsigned(
                        usage.cache_creation_input_tokens as nat,
                    ),
                    "cache_read_input_tokens"@ => Json::Unsigned(
                        usage.cache_read_input_tokens as nat,
                    ),
                ],
            ),
            "cost_usd"@ => cost_usd,
        ],
    )
}

/// The JSON that gives the complete answer, all token counts and the cost.
pub fn result_json(answer: String, usage: Usage, cost_usd: Value) -> (value: Value)
    ensures
        json_tree(value) == result_tree(answer@, usage, json_tree(cost_usd)),
{
    let mut counts = serde_json::Map::new();
    counts.insert("input_tokens".to_string(), unsigned_value(usage.input_tokens));
    counts.insert("output_tokens".to_string(), unsigned_value(usage.output_tokens));
    counts.insert(
        "cache_creation_input_tokens".to_string(),
        unsigned_value(usage.cache_creation_input_tokens),
    );
    counts.insert(
        "cache_read_input_tokens".to_string(),
        unsigned_value(usage.cache_read_input_tokens),
    );
    let mut object = serde_json::Map::new();
    object.insert("type".to_string(), text_value("result".to_string()));
    object.insert("result".to_string(), text_value(answer));
    object.insert("usage".to_string(), object_value(counts));
    object.insert("cost_usd".to_string(), cost_usd);
    object_value(object)
}

/// The JSON that closes a stream: the token counts and the cost.
pub open spec fn stream_end_tree(usage: Usage, cost_usd: Json) -> Json {
    Json::Object(
        map![
            "type"@ => Json::Text("result"@),
            "usage"@ => Json::Object(
                map![
                    "input_tokens"@ => Json::Unsigned(usage.input_tokens as nat),
                    "output_tokens"@ => Json::Unsigned(usage.output_tokens as nat),
                ],
            ),
            "cost_usd"@ => cost_usd,
        ],
    )
}

/// The JSON that closes a stream: the token counts and the cost.
pub fn stream_end_json(usage: Usage, cost_usd: Value) -> (value: Value)
    ensures
        json_tree(value) == stream_end_tree(usage, json_tree(cost_usd)),
{
    let mut counts = serde_json::Map::new();
    counts.insert("input_tokens".to_string(), unsigned_value(usage.input_tokens));
    counts.insert("output_tokens".to_string(), unsigned_value(usage.output_tokens));
    let mut object = serde_json::Map::new();
    object.insert("type".to_string(), text_value("result".to_string()));
    object.insert("usage".to_string(), object_value(counts));
    object.insert("cost_usd".to_string(), cost_usd);
    object_value(object)
}

/// A line of JSON.
pub fn json_line(stream: Stream, value: &Value) -> (output: Output)
    ensures
        output@ == line(stream, json_compact(json_tree(*value))),
{
    Output::line(stream, compact_text(value))
}

/// A headless run: the form of its output, and the answer so far.
#[derive(Debug)]
pub struct Headless {
    pub format: CliOutputFormat,
    pub full_text: String,
}

/// The piece of the answer that an event brings.
pub open spec fn delta(event: QueryEvent) -> Seq<char> {
    match event {
        QueryEvent::TextDelta(text) => text@,
        _ => Seq::empty(),
    }
}

/// What is written of an event. As text, the answer goes to standard output piece by piece and
/// all else to standard error. As JSON, tools and errors get a line each; the answer does only in
/// a stream.
pub open spec fn event_written(format: CliOutputFormat, event: QueryEvent) -> Option<Written> {
    match event {
        QueryEvent::TextDelta(text) => match format {
            CliOutputFormat::Text => Some(Written { stream: Stream::Stdout, text: text@ }),
            CliOutputFormat::Json => None,
            CliOutputFormat::StreamJson => Some(
                line(Stream::Stdout, json_compact(text_delta_tree(text@))),
            ),
        },
        QueryEvent::ToolStart(tool) => match format {
            CliOutputFormat::Text => Some(line(Stream::Stderr, "\n["@ + tool@ + "...]"@)),
            _ => Some(line(Stream::Stdout, json_compact(tool_start_tree(tool@)))),
        },
        QueryEvent::Error(error) => match format {
            CliOutputFormat::Text => Some(line(Stream::Stderr, "\nError: "@ + error@)),
            _ => Some(line(Stream::Stderr, json_compact(error_tree(error@)))),
        },
        QueryEvent::Other => None,
    }
}

/// The answer to report: what streamed in, or the final message where nothing did.
pub open spec fn answer(streamed: Seq<char>, message: Seq<char>) -> Seq<char> {
    if streamed.len() == 0 {
        message
    } else {
        streamed
    }
}

/// The line that tells what a run took.
pub open spec fn spending_line(spending: Spending) -> Seq<char> {
    "\nTokens: "@ + decimal(spending.input_tokens as nat) + " in / "@ + decimal(
        spending.output_tokens as nat,
    ) + " out | Cost: $"@ + spending.cost_text@
}

/// What is written when the query has ended, and the exit status where it failed.
pub open spec fn end_reported(
    format: CliOutputFormat,
    streamed: Seq<char>,
    outcome: QueryOutcome,
    spending: Spending,
    verbose: bool,
) -> Reported {
    match format {
        CliOutputFormat::Text => {
            let ended = silence().say(Stream::Stdout, ""@);
            let counted = if verbose {
                ended.say(Stream::Stderr, spending_line(spending))
            } else {
                ended
            };
            match outcome {
                QueryOutcome::Error(error) => counted.say(
                    Stream::Stderr,
                    "Error: "@ + error@,
                ).then_exit(1),
                _ => counted,
            }
        },
        _ => match outcome {
            QueryOutcome::EndTurn { message_text, usage } => silence().say(
                Stream::Stdout,
                json_compact(
                    if format == CliOutputFormat::Json {
                        result_tree(
                            answer(streamed, message_text@),
                            usage,
                            json_tree(spending.cost_usd),
                        )
                    } else {
                        stream_end_tree(usage, json_tree(spending.cost_usd))
                    },
                ),
            ),
            QueryOutcome::Error(error) => silence().say(
                Stream::Stderr,
                json_compact(error_tree(error@)),
            ).then_exit(1),
            QueryOutcome::Other => silence(),
        },
    }
}

impl Headless {
    /// A run that has not brought anything yet.
    pub fn new(format: CliOutputFormat) -> (run: Headless)
        ensures
            run.format == format,
            run.full_text@ == Seq::<char>::empty(),
    {
        Headless { format, full_text: String::new() }
    }

    /// Takes in an event and says what to write of it.
    pub fn on_event(&mut self, event: &QueryEvent) -> (output: Option<Output>)
        ensures
            final(self).format == old(self).format,
            final(self).full_text@ == old(self).full_text@ + delta(*event),
            output is Some <==> event_written(old(self).format, *event) is Some,
            output is Some ==> Some(output->0@) == event_written(old(self).format, *event),
    {
        match event {
            QueryEvent::TextDelta(text) => {
                self.full_text.append(text.as_str());
                match self.format {
                    CliOutputFormat::Text => Some(
                        Output { stream: Stream::Stdout, text: text.clone() },
                    ),
                    CliOutputFormat::Json => None,
                    CliOutputFormat::StreamJson => Some(
                        json_line(Stream::Stdout, &text_delta_json(text.as_str())),
                    ),
                }
            },
            QueryEvent::ToolStart(tool) => {
                proof {
                    assert(self.full_text@ =~= self.full_text@ + delta(*event));
                }
                match self.format {
                    CliOutputFormat::Text => Some(
                        Output::line(
                            Stream::Stderr,
                            "\n[".to_string().concat(tool.as_str()).concat("...]"),
                        ),
                    ),
                    _ => Some(json_line(Stream::Stdout, &tool_start_json(tool.as_str()))),
                }
            },
            QueryEvent::Error(error) => {
                proof {
                    assert(self.full_text@ =~= self.full_text@ + delta(*event));
                }
                match self.format {
                    CliOutputFormat::Text => Some(
                        Output::line(
                            Stream::Stderr,
                            "\nError: ".to_string().concat(error.as_str()),
                        ),
                    ),
                    _ => Some(json_line(Stream::Stderr, &error_json(error.as_str()))),
                }
            },
            QueryEvent::Other => {
                proof {
                    assert(self.full_text@ =~= self.full_text@ + delta(*event));
                }
                None
            },
        }
    }

    /// Says what to write when the query has ended, and with which status the program exits.
    pub fn finish(self, outcome: QueryOutcome, spending: Spending, verbose: bool) -> (report:
        Report)
        ensures
            report@ == end_reported(self.format, self.full_text@, outcome, spending, verbose),
    {
        match self.format {
            CliOutputFormat::Text => {
                let ended = Report::new().say(Stream::Stdout, "".to_string());
                let counted = if verbose {
                    let input: String = decimal_text(spending.input_tokens);
                    let output: String = decimal_text(spending.output_tokens);
                    ended.say(
                        Stream::Stderr,
                        "\nTokens: ".to_string().concat(input.as_str()).concat(" in / ").concat(
                            output.as_str(),
                        ).concat(" out | Cost: $").concat(spending.cost_text.as_str()),
                    )
                } else {
                    ended
                };
                match outcome {
                    QueryOutcome::Error(error) => counted.say(
                        Stream::Stderr,
                        "Error: ".to_string().concat(error.as_str()),
                    ).then_exit(1),
                    _ => counted,
                }
            },
            _ => match outcome {
                QueryOutcome::EndTurn { message_text, usage } => {
                    let value: Value = if self.format == CliOutputFormat::Json {
                        let complete: String = if self.full_text.as_str().is_empty() {
                            message_text
                        } else {
                            self.full_text
                        };
                        result_json(complete, usage, spending.cost_usd)
                    } else {
                        stream_end_json(usage, spending.cost_usd)
                    };
                    Report::new().say(Stream::Stdout, compact_text(&value))
                },
                QueryOutcome::Error(error) => Report::new().say(
                    Stream::Stderr,
                    compact_text(&error_json(error.as_str())),
                ).then_exit(1),
                QueryOutcome::Other => Report::new(),
            },
        }
    }
}

/// The answer that a run of events brings.
pub open spec fn streamed(events: Seq<QueryEvent>) -> Seq<char>
    decreases events.len(),
{
    if events.len() == 0 {
        Seq::empty()
    } else {
        streamed(events.drop_last()) + delta(events.last())
    }
}

/// All that is written of a run of events.
pub open spec fn all_written(format: CliOutputFormat, events: Seq<QueryEvent>) -> Seq<Written>
    decreases events.len(),
{
    if events.len() == 0 {
        Seq::empty()
    } else {
        let before = all_written(format, events.drop_last());
        match event_written(format, events.last()) {
            Some(written) => before.push(written),
            None => before,
        }
    }
}

/// The text that reaches a stream.
pub open spec fn text_on(stream: Stream, written: Seq<Written>) -> Seq<char>
    decreases written.len(),
{
    if written.len() == 0 {
        Seq::empty()
    } else {
        let before = text_on(stream, written.drop_last());
        if written.last().stream == stream {
            before + written.last().text
        } else {
            before
        }
    }
}

/// As text, standard output carries the answer and nothing else, however the tools and errors
/// in between are told of.
pub proof fn stdout_is_the_answer(events: Seq<QueryEvent>)
    ensures
        text_on(Stream::Stdout, all_written(CliOutputFormat::Text, events)) == streamed(events),
    decreases events.len(),
{
    if events.len() > 0 {
        stdout_is_the_answer(events.drop_last());
        let before = all_written(CliOutputFormat::Text, events.drop_last());
        match event_written(CliOutputFormat::Text, events.last()) {
            Some(written) => {
                assert(before.push(written).drop_last() =~= before);
                assert(streamed(events.drop_last()) + Seq::<char>::empty() =~= streamed(
                    events.drop_last(),
                ));
            },
            None => {
                assert(streamed(events.drop_last()) + Seq::<char>::empty() =~= streamed(
                    events.drop_last(),
                ));
            },
        }
    }
}

/// As one JSON result, nothing is written of an answer while it streams in: only tools and
/// errors are told of.
pub proof fn json_answers_come_whole(event: QueryEvent)
    ensures
        event is TextDelta ==> event_written(CliOutputFormat::Json, event) is None,
        event is ToolStart || event is Error ==> event_written(CliOutputFormat::Json, event)
            is Some,
{
}

/// The two JSON forms tell alike of tools and errors.
pub proof fn json_forms_agree(event: QueryEvent)
    requires
        !(event is TextDelta),
    ensures
        event_written(CliOutputFormat::Json, event) == event_written(
            CliOutputFormat::StreamJson,
            event,
        ),
{
}

/// In whatever form, the program fails exactly where the query did.
pub proof fn failures_are_reported_alike(
    format: CliOutputFormat,
    streamed: Seq<char>,
    outcome: QueryOutcome,
    spending: Spending,
    verbose: bool,
)
    ensures
        end_reported(format, streamed, outcome, spending, verbose).exit == if outcome is Error {
            Some(1i32)
        } else {
            None
        },
{
}

proof fn text_on_concatenates(stream: Stream, first: Seq<Written>, second: Seq<Written>)
    ensures
        text_on(stream, first + second) == text_on(stream, first) + text_on(stream, second),
    decreases second.len(),
{
    if second.len() == 0 {
        assert(first + second =~= first);
        assert(text_on(stream, first) + Seq::<char>::empty() =~= text_on(stream, first));
    } else {
        text_on_concatenates(stream, first, second.drop_last());
        assert((first + second).drop_last() =~= first + second.drop_last());
        let text = second.last().text;
        let before = text_on(stream, second.drop_last());
        assert((text_on(stream, first) + before) + text =~= text_on(stream, first) + (before
            + text));
    }
}

proof fn text_reports_end_with_a_newline(
    streamed: Seq<char>,
    outcome: QueryOutcome,
    spending: Spending,
    verbose: bool,
)
    ensures
        text_on(
            Stream::Stdout,
            end_reported(CliOutputFormat::Text, streamed, outcome, spending, verbose).output,
        ) == "\n"@,
{
    let ended = silence().say(Stream::Stdout, ""@);
    let counted = if verbose {
        ended.say(Stream::Stderr, spending_line(spending))
    } else {
        ended
    };
    let all = end_reported(CliOutputFormat::Text, streamed, outcome, spending, verbose).output;
    assert(text_on(Stream::Stdout, ended.output) == "\n"@) by {
        reveal_strlit("");
        assert(ended.output.drop_last() =~= Seq::empty());
        assert(text_on(Stream::Stdout, Seq::empty()) =~= Seq::empty());
        assert(Seq::<char>::empty() + (""@ + "\n"@) =~= "\n"@);
    }
    if verbose {
        assert(counted.output.drop_last() =~= ended.output);
        assert(counted.output.last().stream == Stream::Stderr);
    }
    assert(text_on(Stream::Stdout, counted.output) == "\n"@);
    if outcome is Error {
        assert(all.drop_last() =~= counted.output);
        assert(all.last().stream == Stream::Stderr);
    } else {
        assert(all == counted.output);
    }
}

/// A whole run in the text form puts the answer and a newline on standard output, and nothing
/// else: tools, errors, token counts and the failure itself go to standard error.
pub proof fn text_runs_print_the_answer(
    events: Seq<QueryEvent>,
    outcome: QueryOutcome,
    spending: Spending,
    verbose: bool,
)
    ensures
        text_on(
            Stream::Stdout,
            all_written(CliOutputFormat::Text, events) + end_reported(
                CliOutputFormat::Text,
                streamed(events),
                outcome,
                spending,
                verbose,
            ).output,
        ) == streamed(events) + "\n"@,
{
    stdout_is_the_answer(events);
    text_reports_end_with_a_newline(streamed(events), outcome, spending, verbose);
    text_on_concatenates(
        Stream::Stdout,
        all_written(CliOutputFormat::Text, events),
        end_reported(CliOutputFormat::Text, streamed(events), outcome, spending, verbose).output,
    );
}

/// As one JSON result, the answer reported is the one that streamed in; the final message stands
/// in for it only where nothing streamed.
pub proof fn json_results_hold_the_answer(
    events: Seq<QueryEvent>,
    message_text: String,
    usage: Usage,
    spending: Spending,
    verbose: bool,
)
    ensures
        end_reported(
            CliOutputFormat::Json,
            streamed(events),
            QueryOutcome::EndTurn { message_text, usage },
            spending,
            verbose,
        ) == silence().say(
            Stream::Stdout,
            json_compact(
                result_tree(
                    if streamed(events).len() > 0 {
                        streamed(events)
                    } else {
                        message_text@
                    },
                    usage,
                    json_tree(spending.cost_usd),
                ),
            ),
        ),
{
}

/// Every JSON record holds what it tells of character for character, under the right type, and
/// nothing else.
pub proof fn json_events_hold_their_text(text: Seq<char>)
    ensures
        text_delta_tree(text) matches Json::Object(members) && members.dom() =~= set![
            "type"@,
            "text"@,
        ] && members["type"@] == Json::Text("text_delta"@) && members["text"@] == Json::Text(text),
        tool_start_tree(text) matches Json::Object(members) && members.dom() =~= set![
            "type"@,
            "tool"@,
        ] && members["type"@] == Json::Text("tool_start"@) && members["tool"@] == Json::Text(text),
        error_tree(text) matches Json::Object(members) && members.dom() =~= set![
            "type"@,
            "error"@,
        ] && members["type"@] == Json::Text("error"@) && members["error"@] == Json::Text(text),
{
    reveal_strlit("type");
    reveal_strlit("text");
    reveal_strlit("tool");
    reveal_strlit("error");
    assert("type"@[1] == 'y' && "text"@[1] == 'e' && "tool"@[1] == 'o' && "error"@[1] == 'r');
}

/// The JSON result holds the answer character for character, each token count under its own name,
/// and the cost as it is; the record that closes a stream holds the same counts and cost.
pub proof fn json_results_hold_every_count(text: Seq<char>, usage: Usage, cost_usd: Json)
    ensures
        result_tree(text, usage, cost_usd) matches Json::Object(members) && members.dom() =~= set![
            "type"@,
            "result"@,
            "usage"@,
            "cost_usd"@,
        ] && members["type"@] == Json::Text("result"@) && members["result"@] == Json::Text(text)
            && members["cost_usd"@] == cost_usd && (members["usage"@] matches Json::Object(counts)
            && counts.dom() =~= set![
            "input_tokens"@,
            "output_tokens"@,
            "cache_creation_input_tokens"@,
            "cache_read_input_tokens"@,
        ] && counts["input_tokens"@] == Json::Unsigned(usage.input_tokens as nat)
            && counts["output_tokens"@] == Json::Unsigned(usage.output_tokens as nat)
            && counts["cache_creation_input_tokens"@] == Json::Unsigned(
            usage.cache_creation_input_tokens as nat,
        ) && counts["cache_read_input_tokens"@] == Json::Unsigned(
            usage.cache_read_input_tokens as nat,
        )),
        stream_end_tree(usage, cost_usd) matches Json::Object(members) && members.dom() =~= set![
            "type"@,
            "usage"@,
            "cost_usd"@,
        ] && members["type"@] == Json::Text("result"@) && members["cost_usd"@] == cost_usd && (
        members["usage"@] matches Json::Object(counts) && counts.dom() =~= set![
            "input_tokens"@,
            "output_tokens"@,
        ] && counts["input_tokens"@] == Json::Unsigned(usage.input_tokens as nat)
            && counts["output_tokens"@] == Json::Unsigned(usage.output_tokens as nat)),
{
    reveal_strlit("type");
    reveal_strlit("result");
    reveal_strlit("usage");
    reveal_strlit("cost_usd");
    reveal_strlit("input_tokens");
    reveal_strlit("output_tokens");
    reveal_strlit("cache_creation_input_tokens");
    reveal_strlit("cache_read_input_tokens");
    assert("type"@.len() == 4 && "result"@.len() == 6 && "usage"@.len() == 5 && "cost_usd"@.len()
        == 8);
    assert("input_tokens"@.len() == 12 && "output_tokens"@.len() == 13);
    assert("cache_creation_input_tokens"@.len() == 27 && "cache_read_input_tokens"@.len() == 23);
}

/// A piece of the answer is written as it came: as text on standard output with nothing added,
/// in a stream as one line of JSON there, and not at all while a single result is awaited.
pub proof fn pieces_are_written_as_they_came(text: String)
    ensures
        event_written(CliOutputFormat::Text, QueryEvent::TextDelta(text)) == Some(
            Written { stream: Stream::Stdout, text: text@ },
        ),
        event_written(CliOutputFormat::StreamJson, QueryEvent::TextDelta(text)) == Some(
            Written {
                stream: Stream::Stdout,
                text: json_compact(text_delta_tree(text@)) + "\n"@,
            },
        ),
        event_written(CliOutputFormat::Json, QueryEvent::TextDelta(text)) is None,
{
}

/// Tools and errors are told whole: as text in a line on standard error; as JSON in one line, a
/// tool on standard output and an error on standard error. Nothing is written of anything else.
pub proof fn tools_and_errors_are_told_whole(format: CliOutputFormat, text: String)
    ensures
        event_written(format, QueryEvent::ToolStart(text)) == Some(
            if format is Text {
                Written { stream: Stream::Stderr, text: "\n["@ + text@ + "...]"@ + "\n"@ }
            } else {
                Written {
                    stream: Stream::Stdout,
                    text: json_compact(tool_start_tree(text@)) + "\n"@,
                }
            },
        ),
        event_written(format, QueryEvent::Error(text)) == Some(
            if format is Text {
                Written { stream: Stream::Stderr, text: "\nError: "@ + text@ + "\n"@ }
            } else {
                Written { stream: Stream::Stderr, text: json_compact(error_tree(text@)) + "\n"@ }
            },
        ),
        event_written(format, QueryEvent::Other) is None,
{
}

/// The text that a JSON record holds under `text`.
pub open spec fn text_member(tree: Json) -> Seq<char> {
    tree->Object_0["text"@]->Text_0
}

/// The texts of all pieces that a stream of JSON tells of, put together.
pub open spec fn told_in_stream(events: Seq<QueryEvent>) -> Seq<char>
    decreases events.len(),
{
    if events.len() == 0 {
        Seq::empty()
    } else {
        told_in_stream(events.drop_last()) + match events.last() {
            QueryEvent::TextDelta(text) => text_member(text_delta_tree(text@)),
            _ => Seq::empty(),
        }
    }
}

/// The pieces that a stream of JSON tells of, put together, are the streamed answer, with no
/// character lost at their edges.
pub proof fn streamed_pieces_make_the_answer(events: Seq<QueryEvent>)
    ensures
        told_in_stream(events) == streamed(events),
    decreases events.len(),
{
    if events.len() > 0 {
        streamed_pieces_make_the_answer(events.drop_last());
        if let QueryEvent::TextDelta(text) = events.last() {
            json_events_hold_their_text(text@);
        }
    }
}

/// The streamed answer grows by each piece, whole, and by nothing else.
pub proof fn answers_grow_by_their_pieces(events: Seq<QueryEvent>, event: QueryEvent)
    ensures
        streamed(events.push(event)) == match event {
            QueryEvent::TextDelta(text) => streamed(events) + text@,
            _ => streamed(events),
        },
        streamed(Seq::empty()).len() == 0,
        delta(event) == match event {
            QueryEvent::TextDelta(text) => text@,
            _ => Seq::empty(),
        },
{
    assert(events.push(event).drop_last() =~= events);
    assert(streamed(events) + Seq::<char>::empty() =~= streamed(events));
}

/// At the end of a turn, each JSON form writes one line on standard output and nothing else: the
/// whole result, with the streamed answer or, where nothing streamed, the final message; or the
/// record that closes the stream.
pub proof fn ended_turns_are_told_in_json(
    answer_so_far: Seq<char>,
    message_text: String,
    usage: Usage,
    spending: Spending,
    verbose: bool,
)
    ensures
        ({
            let outcome = QueryOutcome::EndTurn { message_text, usage };
            let cost = json_tree(spending.cost_usd);
            let whole = end_reported(
                CliOutputFormat::Json,
                answer_so_far,
                outcome,
                spending,
                verbose,
            );
            let closing = end_reported(
                CliOutputFormat::StreamJson,
                answer_so_far,
                outcome,
                spending,
                verbose,
            );
            &&& whole.output.len() == 1
            &&& whole.output[0].stream is Stdout
            &&& answer_so_far.len() > 0 ==> whole.output[0].text == json_compact(
                result_tree(answer_so_far, usage, cost),
            ) + "\n"@
            &&& answer_so_far.len() == 0 ==> whole.output[0].text == json_compact(
                result_tree(message_text@, usage, cost),
            ) + "\n"@
            &&& closing.output.len() == 1
            &&& closing.output[0].stream is Stdout
            &&& closing.output[0].text == json_compact(stream_end_tree(usage, cost)) + "\n"@
            &&& whole.exit is None && closing.exit is None
        }),
{
}

/// In the JSON forms a failed query is told whole in one line on standard error, and one that
/// merely stopped is not told of at all.
pub proof fn other_ends_are_told_in_json(
    format: CliOutputFormat,
    answer_so_far: Seq<char>,
    error: String,
    spending: Spending,
    verbose: bool,
)
    requires
        !(format is Text),
    ensures
        ({
            let failed = end_reported(
                format,
                answer_so_far,
                QueryOutcome::Error(error),
                spending,
                verbose,
            );
            let stopped = end_reported(
                format,
                answer_so_far,
                QueryOutcome::Other,
                spending,
                verbose,
            );
            &&& failed.output.len() == 1
            &&& failed.output[0].stream is Stderr
            &&& failed.output[0].text == json_compact(error_tree(error@)) + "\n"@
            &&& failed.exit == Some(1i32)
            &&& stopped.output.len() == 0
            &&& stopped.exit is None
        }),
{
}

/// In the text form a newline closes the answer; a verbose run then tells both token counts and
/// the cost in one line on standard error, and a failed query is told whole in the line after
/// that. Nothing else is written.
pub proof fn text_ends_are_told_whole(
    answer_so_far: Seq<char>,
    outcome: QueryOutcome,
    spending: Spending,
    verbose: bool,
)
    ensures
        ({
            let report = end_reported(
                CliOutputFormat::Text,
                answer_so_far,
                outcome,
                spending,
                verbose,
            );
            let counts: int = if verbose {
                1
            } else {
                0
            };
            let errors: int = if outcome is Error {
                1
            } else {
                0
            };
            &&& report.output.len() == 1 + counts + errors
            &&& report.output[0] == Written { stream: Stream::Stdout, text: "\n"@ }
            &&& verbose ==> report.output[1] == Written {
                stream: Stream::Stderr,
                text: "\nTokens: "@ + decimal(spending.input_tokens as nat) + " in / "@ + decimal(
                    spending.output_tokens as nat,
                ) + " out | Cost: $"@ + spending.cost_text@ + "\n"@,
            }
            &&& outcome matches QueryOutcome::Error(error) ==> report.output[1 + counts]
                == Written { stream: Stream::Stderr, text: "Error: "@ + error@ + "\n"@ }
            &&& report.exit == if outcome is Error {
                Some(1i32)
            } else {
                None
            }
        }),
{
    reveal_strlit("");
    assert(""@ + "\n"@ =~= "\n"@);
}

} // verus!
