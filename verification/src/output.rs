//! The output of a sidecar: the lines it writes, the line that marks its
//! exit, and how a line is echoed and logged.

use vstd::prelude::*;
use vstd::string::StringExecFns;

verus! {

/// Where a diagnostic line comes from: one of the two output pipes of the
/// child, or the task that waits for its exit.
#[derive(Clone, Copy, Debug, PartialEq, Eq, Structural)]
pub enum Stream {
    Stdout,
    Stderr,
    Exit,
}

/// One line of diagnostic output.
#[derive(Debug, PartialEq, Eq)]
pub struct DiagnosticLine {
    pub stream: Stream,
    pub text: String,
}

/// A diagnostic line as a plain value.
pub struct LineView {
    pub stream: Stream,
    pub text: Seq<char>,
}

impl View for DiagnosticLine {
    type V = LineView;

    open spec fn view(&self) -> LineView {
        LineView { stream: self.stream, text: self.text@ }
    }
}

impl Clone for DiagnosticLine {
    fn clone(&self) -> (r: DiagnosticLine)
        ensures
            r@ == self@,
    {
        DiagnosticLine { stream: self.stream, text: self.text.clone() }
    }
}

/// The lines of a list as plain values.
pub open spec fn line_views(lines: Seq<DiagnosticLine>) -> Seq<LineView> {
    lines.map_values(|l: DiagnosticLine| l@)
}

/// The name of a stream as it stands between brackets in the log.
pub open spec fn stream_tag(stream: Stream) -> Seq<char> {
    match stream {
        Stream::Stdout => "stdout"@,
        Stream::Stderr => "stderr"@,
        Stream::Exit => "exit"@,
    }
}

/// The record of one line in the log file: the stream between brackets, a
/// space, the text, and a line feed.
pub open spec fn log_record(line: LineView) -> Seq<char> {
    "["@ + stream_tag(line.stream) + "] "@ + line.text + "\n"@
}

/// What is echoed to the supervisor's own output for one line of the sidecar
/// `name`: the stream between brackets, the name, a colon, and the text.
pub open spec fn echo_record(name: Seq<char>, line: LineView) -> Seq<char> {
    "["@ + stream_tag(line.stream) + "] "@ + name + ": "@ + line.text
}

/// The log file of the sidecar `name` under the application data directory.
pub open spec fn log_path(app_data_dir: Seq<char>, name: Seq<char>) -> Seq<char> {
    app_data_dir + "/log/sidecar-"@ + name + ".log"@
}

/// The log of a sequence of lines: their records, one after the other.
pub open spec fn log_text(lines: Seq<LineView>) -> Seq<char>
    decreases lines.len(),
{
    if lines.len() == 0 {
        Seq::empty()
    } else {
        log_text(lines.drop_last()) + log_record(lines.last())
    }
}

impl Stream {
    /// The name of the stream as it stands between brackets in the log.
    pub fn tag(self) -> (r: &'static str)
        ensures
            r@ == stream_tag(self),
    {
        match self {
            Stream::Stdout => "stdout",
            Stream::Stderr => "stderr",
            Stream::Exit => "exit",
        }
    }
}

impl DiagnosticLine {
    /// A line of `stream` with the given text.
    pub fn new(stream: Stream, text: &str) -> (r: DiagnosticLine)
        ensures
            r@ == (LineView { stream, text: text@ }),
    {
        DiagnosticLine { stream, text: text.to_owned() }
    }

    /// The record of this line in the log file.
    pub fn log_record(&self) -> (r: String)
        ensures
            r@ == log_record(self@),
    {
        let mut r = "[".to_owned();
        r.append(self.stream.tag());
        r.append("] ");
        r.append(self.text.as_str());
        r.append("\n");
        r
    }

    /// What is echoed for this line of the sidecar `name`.
    pub fn echo_record(&self, name: &str) -> (r: String)
        ensures
            r@ == echo_record(name@, self@),
    {
        let mut r = "[".to_owned();
        r.append(self.stream.tag());
        r.append("] ");
        r.append(name);
        r.append(": ");
        r.append(self.text.as_str());
        r
    }
}

/// The line that marks the exit of a sidecar with the given status text.
pub open spec fn exit_marker(status: Seq<char>) -> LineView {
    LineView { stream: Stream::Exit, text: "exit: "@ + status }
}

/// The line that marks the exit of a sidecar with the given status text.
pub fn exit_line(status: &str) -> (line: DiagnosticLine)
    ensures
        line@ == exit_marker(status@),
{
    let mut text = "exit: ".to_owned();
    text.append(status);
    DiagnosticLine { stream: Stream::Exit, text }
}

/// The log file of the sidecar `name` under the application data directory.
pub fn log_file_path(app_data_dir: &str, name: &str) -> (r: String)
    ensures
        r@ == log_path(app_data_dir@, name@),
{
    let mut r = app_data_dir.to_owned();
    r.append("/log/sidecar-");
    r.append(name);
    r.append(".log");
    r
}

/// The log of `lines`: what the log file holds after each of them was
/// appended in turn to an empty file.
pub fn render_log(lines: &Vec<DiagnosticLine>) -> (r: String)
    ensures
        r@ == log_text(line_views(lines@)),
{
    let mut r = String::new();
    let mut i: usize = 0;
    while i < lines.len()
        invariant
            i <= lines@.len(),
            r@ == log_text(line_views(lines@).take(i as int)),
        decreases lines@.len() - i,
    {
        let record = lines[i].log_record();
        r.append(record.as_str());
        proof {
            let all = line_views(lines@);
            assert(all.take(i + 1).drop_last() =~= all.take(i as int));
            assert(all.take(i + 1).last() == lines@[i as int]@);
        }
        i += 1;
    }
    assert(line_views(lines@).take(i as int) =~= line_views(lines@));
    r
}

/// A copy of `lines`.
pub fn copy_lines(lines: &Vec<DiagnosticLine>) -> (copy: Vec<DiagnosticLine>)
    ensures
        line_views(copy@) == line_views(lines@),
{
    let mut copy: Vec<DiagnosticLine> = Vec::new();
    let mut i: usize = 0;
    while i < lines.len()
        invariant
            i <= lines@.len(),
            line_views(copy@) == line_views(lines@).take(i as int),
        decreases lines@.len() - i,
    {
        let ghost before = copy@;
        copy.push(lines[i].clone());
        proof {
            assert(line_views(copy@) =~= line_views(before).push(lines@[i as int]@));
            assert(line_views(lines@).take(i + 1) =~= line_views(lines@).take(i as int).push(
                lines@[i as int]@,
            ));
        }
        i += 1;
    }
    assert(line_views(lines@).take(i as int) =~= line_views(lines@));
    copy
}

/// Appending lines to a log only adds to its end.
pub proof fn lemma_log_append_only(earlier: Seq<LineView>, later: Seq<LineView>)
    ensures
        log_text(earlier + later) == log_text(earlier) + log_text(later),
    decreases later.len(),
{
    if later.len() == 0 {
        assert(earlier + later =~= earlier);
        assert(log_text(earlier) + log_text(later) =~= log_text(earlier));
    } else {
        lemma_log_append_only(earlier, later.drop_last());
        assert((earlier + later).drop_last() =~= earlier + later.drop_last());
        assert((earlier + later).last() == later.last());
        assert(log_text(earlier + later) =~= log_text(earlier) + log_text(later));
    }
}

} // verus!
