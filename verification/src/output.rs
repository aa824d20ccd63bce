//! What the program writes, and the status that it ends with.

use vstd::prelude::*;
use vstd::string::*;

verus! {

/// Where a piece of text is written.
#[derive(Clone, Copy, Debug, PartialEq, Eq, Structural)]
pub enum Stream {
    Stdout,
    Stderr,
}

/// A piece of text to write as it stands: a line ends with its own newline.
#[derive(Debug)]
pub struct Output {
    pub stream: Stream,
    pub text: String,
}

/// An [`Output`], as contracts see it.
pub struct Written {
    pub stream: Stream,
    pub text: Seq<char>,
}

impl View for Output {
    type V = Written;

    open spec fn view(&self) -> Written {
        Written { stream: self.stream, text: self.text@ }
    }
}

/// Text on a line of its own.
pub open spec fn line(stream: Stream, text: Seq<char>) -> Written {
    Written { stream, text: text + "\n"@ }
}

/// All that the program writes at some point, in order, and the exit status with which it then
/// ends, if it does.
#[derive(Debug)]
pub struct Report {
    pub output: Vec<Output>,
    pub exit: Option<i32>,
}

/// A [`Report`], as contracts see it.
pub struct Reported {
    pub output: Seq<Written>,
    pub exit: Option<i32>,
}

impl View for Report {
    type V = Reported;

    open spec fn view(&self) -> Reported {
        Reported { output: self.output@.map_values(|o: Output| o@), exit: self.exit }
    }
}

impl Reported {
    /// The same report with a line more.
    pub open spec fn say(self, stream: Stream, text: Seq<char>) -> Reported {
        Reported { output: self.output.push(line(stream, text)), exit: self.exit }
    }

    /// The same report, after which the program ends with `status`.
    pub open spec fn then_exit(self, status: i32) -> Reported {
        Reported { output: self.output, exit: Some(status) }
    }
}

/// The report that says nothing and lets the program go on.
pub open spec fn silence() -> Reported {
    Reported { output: Seq::empty(), exit: None }
}

impl Output {
    /// A line of text.
    pub fn line(stream: Stream, text: String) -> (output: Output)
        ensures
            output@ == line(stream, text@),
    {
        Output { stream, text: text.concat("\n") }
    }
}

impl Report {
    /// A report that says nothing and lets the program go on.
    pub fn new() -> (report: Report)
        ensures
            report@ == silence(),
    {
        let report = Report { output: Vec::new(), exit: None };
        proof {
            assert(report@.output =~= silence().output);
        }
        report
    }

    /// Adds a line.
    pub fn say(self, stream: Stream, text: String) -> (report: Report)
        ensures
            report@ == self@.say(stream, text@),
    {
        let mut output: Vec<Output> = self.output;
        output.push(Output::line(stream, text));
        let report = Report { output, exit: self.exit };
        proof {
            assert(report@.output =~= self@.say(stream, text@).output);
        }
        report
    }

    /// Makes the program end with `status` once the report is written.
    pub fn then_exit(self, status: i32) -> (report: Report)
        ensures
            report@ == self@.then_exit(status),
    {
        Report { output: self.output, exit: Some(status) }
    }
}

/// An output is seen as it stands: its stream and its whole text.
pub proof fn outputs_are_seen_whole(output: Output)
    ensures
        output@.stream == output.stream,
        output@.text == output.text@,
{
}

/// A report is seen as it stands: all its outputs in order, and its exit status.
pub proof fn reports_are_seen_whole(report: Report)
    ensures
        report@.output.len() == report.output@.len(),
        forall|i: int|
            0 <= i < report.output@.len() ==> (#[trigger] report@.output[i]).stream
                == report.output@[i].stream && report@.output[i].text
                == report.output@[i].text@,
        report@.exit == report.exit,
{
}

/// Saying something adds one output after all that was there, on the given stream, with the text
/// and a newline after it; the exit status stays. Setting the exit status leaves the outputs. A
/// report begins with no output and no exit status.
pub proof fn reports_grow_line_by_line(
    report: Reported,
    stream: Stream,
    text: Seq<char>,
    status: i32,
)
    ensures
        report.say(stream, text).output.len() == report.output.len() + 1,
        report.say(stream, text).output.drop_last() == report.output,
        report.say(stream, text).output.last().stream == stream,
        report.say(stream, text).output.last().text.len() == text.len() + 1,
        report.say(stream, text).output.last().text.drop_last() == text,
        report.say(stream, text).output.last().text.last() == '\n',
        report.say(stream, text).exit == report.exit,
        report.then_exit(status).output == report.output,
        report.then_exit(status).exit == Some(status),
        silence().output.len() == 0,
        silence().exit is None,
        line(stream, text) == report.say(stream, text).output.last(),
{
    reveal_strlit("\n");
    assert(report.say(stream, text).output.drop_last() =~= report.output);
    assert(report.say(stream, text).output.last().text.drop_last() =~= text);
}

} // verus!
