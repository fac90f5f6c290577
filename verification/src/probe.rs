//! The liveness probe made shortly after a spawn.
//!
//! The probe waits for a grace period, collects the diagnostic lines that
//! the sidecar has written by then, asks whether the process is still alive
//! and reports what it found. Waiting, receiving and asking are done by the
//! caller: [`Prober::step`] says what to do next and takes what came of it.

use crate::output::{copy_lines, line_views, DiagnosticLine, LineView, Stream};
use vstd::prelude::*;

verus! {

/// How long the probe waits and how much it collects.
#[derive(Clone, Copy, Debug, PartialEq, Eq, Structural)]
pub struct ProbeConfig {
    /// Milliseconds to wait before looking at the sidecar.
    pub grace_ms: u64,
    /// Milliseconds to wait for each buffered line.
    pub receive_timeout_ms: u64,
    /// The most lines the probe collects.
    pub line_cap: usize,
}

/// What the probe found.
#[derive(Debug, PartialEq, Eq)]
pub enum LivenessResult {
    /// The process had not failed by the end of the grace period.
    Alive,
    /// The process was gone; the lines say what it wrote before.
    ExitedEarly(Vec<DiagnosticLine>),
}

/// A probe result as a plain value.
pub enum LivenessView {
    Alive,
    ExitedEarly(Seq<LineView>),
}

impl View for LivenessResult {
    type V = LivenessView;

    open spec fn view(&self) -> LivenessView {
        match self {
            LivenessResult::Alive => LivenessView::Alive,
            LivenessResult::ExitedEarly(lines) => LivenessView::ExitedEarly(line_views(lines@)),
        }
    }
}

/// The line reported for a sidecar that exited without writing anything.
pub open spec fn no_output_line() -> LineView {
    LineView { stream: Stream::Exit, text: "exited with no output"@ }
}

/// The result for a process that is alive or not, given the lines collected.
pub open spec fn verdict(alive: bool, lines: Seq<LineView>) -> LivenessView {
    if alive {
        LivenessView::Alive
    } else if lines.len() == 0 {
        LivenessView::ExitedEarly(seq![no_output_line()])
    } else {
        LivenessView::ExitedEarly(lines)
    }
}

/// Where a probe stands.
#[derive(Clone, Copy, Debug, PartialEq, Eq, Structural)]
pub enum ProbePhase {
    /// The grace period is running.
    Waiting,
    /// Buffered lines are being collected.
    Draining,
    /// The operating system is being asked about the process.
    Querying,
    /// The result is known.
    Finished { alive: bool },
}

/// What happened since the last step.
#[derive(Debug, PartialEq, Eq)]
pub enum ProbeEvent {
    /// The grace period is over.
    GraceElapsed,
    /// A buffered line was received.
    Line(DiagnosticLine),
    /// No line came within the timeout, or the channel is closed.
    NoLine,
    /// The operating system said whether the process is alive.
    Liveness(bool),
}

/// A probe event as a plain value.
pub enum ProbeEventView {
    GraceElapsed,
    Line(LineView),
    NoLine,
    Liveness(bool),
}

impl View for ProbeEvent {
    type V = ProbeEventView;

    open spec fn view(&self) -> ProbeEventView {
        match self {
            ProbeEvent::GraceElapsed => ProbeEventView::GraceElapsed,
            ProbeEvent::Line(line) => ProbeEventView::Line(line@),
            ProbeEvent::NoLine => ProbeEventView::NoLine,
            ProbeEvent::Liveness(alive) => ProbeEventView::Liveness(*alive),
        }
    }
}

/// What the caller is to do next.
#[derive(Debug, PartialEq, Eq)]
pub enum ProbeAction {
    /// Sleep for this long, then hand in `GraceElapsed`.
    Sleep { millis: u64 },
    /// Try to receive one line for at most this long, then hand in `Line` or
    /// `NoLine`.
    Receive { timeout_ms: u64 },
    /// Ask whether the process is alive, then hand in `Liveness`.
    QueryLiveness { pid: u32 },
    /// The probe is over.
    Report(LivenessResult),
}

/// A probe action as a plain value.
pub enum ProbeActionView {
    Sleep { millis: u64 },
    Receive { timeout_ms: u64 },
    QueryLiveness { pid: u32 },
    Report(LivenessView),
}

impl View for ProbeAction {
    type V = ProbeActionView;

    open spec fn view(&self) -> ProbeActionView {
        match self {
            ProbeAction::Sleep { millis } => ProbeActionView::Sleep { millis: *millis },
            ProbeAction::Receive { timeout_ms } => ProbeActionView::Receive {
                timeout_ms: *timeout_ms,
            },
            ProbeAction::QueryLiveness { pid } => ProbeActionView::QueryLiveness { pid: *pid },
            ProbeAction::Report(result) => ProbeActionView::Report(result@),
        }
    }
}

/// The state of a probe as a plain value.
pub struct ProberView {
    pub pid: u32,
    pub config: ProbeConfig,
    pub phase: ProbePhase,
    pub lines: Seq<LineView>,
}

impl ProberView {
    /// The probe never holds more lines than its cap.
    pub open spec fn wf(self) -> bool {
        self.lines.len() <= self.config.line_cap
    }
}

/// The state of a probe that has just begun.
pub open spec fn probe_start(pid: u32, config: ProbeConfig) -> ProberView {
    ProberView { pid, config, phase: ProbePhase::Waiting, lines: Seq::empty() }
}

/// What a probe in `state` asks of its caller.
pub open spec fn pending(state: ProberView) -> ProbeActionView {
    match state.phase {
        ProbePhase::Waiting => ProbeActionView::Sleep { millis: state.config.grace_ms },
        ProbePhase::Draining => ProbeActionView::Receive {
            timeout_ms: state.config.receive_timeout_ms,
        },
        ProbePhase::Querying => ProbeActionView::QueryLiveness { pid: state.pid },
        ProbePhase::Finished { alive } => ProbeActionView::Report(verdict(alive, state.lines)),
    }
}

/// The phase after the grace period or after a line: collect while there is
/// room, then ask about the process.
pub open spec fn phase_for(held: nat, cap: nat) -> ProbePhase {
    if held < cap {
        ProbePhase::Draining
    } else {
        ProbePhase::Querying
    }
}

/// The state that follows `state` on `event`. An event that the probe is not
/// waiting for changes nothing.
pub open spec fn probe_step(state: ProberView, event: ProbeEventView) -> ProberView {
    match (state.phase, event) {
        (ProbePhase::Waiting, ProbeEventView::GraceElapsed) => ProberView {
            phase: phase_for(state.lines.len(), state.config.line_cap as nat),
            ..state
        },
        (ProbePhase::Draining, ProbeEventView::Line(line)) => if state.lines.len()
            < state.config.line_cap {
            ProberView {
                phase: phase_for(state.lines.len() + 1, state.config.line_cap as nat),
                lines: state.lines.push(line),
                ..state
            }
        } else {
            ProberView { phase: ProbePhase::Querying, ..state }
        },
        (ProbePhase::Draining, ProbeEventView::NoLine) => ProberView {
            phase: ProbePhase::Querying,
            ..state
        },
        (ProbePhase::Querying, ProbeEventView::Liveness(alive)) => ProberView {
            phase: ProbePhase::Finished { alive },
            ..state
        },
        _ => state,
    }
}

/// The state after a sequence of events.
pub open spec fn probe_run(state: ProberView, events: Seq<ProbeEventView>) -> ProberView
    decreases events.len(),
{
    if events.len() == 0 {
        state
    } else {
        probe_run(probe_step(state, events[0]), events.drop_first())
    }
}

/// The events of a probe during which `lines` were buffered and the process
/// was found alive or not: the grace period ends, the lines are received,
/// a receive times out unless the cap was reached, and the operating system
/// answers.
pub open spec fn probe_script(lines: Seq<LineView>, cap: nat, alive: bool) -> Seq<ProbeEventView> {
    seq![ProbeEventView::GraceElapsed] + lines.map_values(|l: LineView| ProbeEventView::Line(l))
        + (if lines.len() < cap {
        seq![ProbeEventView::NoLine]
    } else {
        Seq::empty()
    }) + seq![ProbeEventView::Liveness(alive)]
}

/// A liveness probe in progress.
pub struct Prober {
    pid: u32,
    config: ProbeConfig,
    phase: ProbePhase,
    lines: Vec<DiagnosticLine>,
}

impl View for Prober {
    type V = ProberView;

    closed spec fn view(&self) -> ProberView {
        ProberView {
            pid: self.pid,
            config: self.config,
            phase: self.phase,
            lines: line_views(self.lines@),
        }
    }
}

/// The usual probe: half a second of grace, at most ten lines, and a
/// twentieth of a second for each.
pub fn standard_probe() -> (config: ProbeConfig)
    ensures
        config == (ProbeConfig { grace_ms: 500, receive_timeout_ms: 50, line_cap: 10 }),
{
    ProbeConfig { grace_ms: 500, receive_timeout_ms: 50, line_cap: 10 }
}

/// The result for a process that is alive or not, given the lines collected.
pub fn probe_verdict(alive: bool, lines: Vec<DiagnosticLine>) -> (result: LivenessResult)
    ensures
        result@ == verdict(alive, line_views(lines@)),
{
    if alive {
        LivenessResult::Alive
    } else if lines.len() == 0 {
        let mut only: Vec<DiagnosticLine> = Vec::new();
        only.push(DiagnosticLine::new(Stream::Exit, "exited with no output"));
        assert(line_views(only@) =~= seq![no_output_line()]);
        LivenessResult::ExitedEarly(only)
    } else {
        LivenessResult::ExitedEarly(lines)
    }
}

impl Prober {
    /// The probe never holds more lines than its cap.
    #[verifier::type_invariant]
    spec fn inv(self) -> bool {
        self.lines@.len() <= self.config.line_cap
    }

    /// Begins a probe of the process `pid` and says what to do first.
    pub fn start(pid: u32, config: ProbeConfig) -> (r: (Prober, ProbeAction))
        ensures
            r.0@ == probe_start(pid, config),
            r.1@ == pending(r.0@),
    {
        let prober = Prober { pid, config, phase: ProbePhase::Waiting, lines: Vec::new() };
        assert(line_views(prober.lines@) =~= Seq::empty());
        (prober, ProbeAction::Sleep { millis: config.grace_ms })
    }

    /// What the probe asks of its caller.
    pub fn action(&self) -> (action: ProbeAction)
        ensures
            action@ == pending(self@),
    {
        match self.phase {
            ProbePhase::Waiting => ProbeAction::Sleep { millis: self.config.grace_ms },
            ProbePhase::Draining => ProbeAction::Receive {
                timeout_ms: self.config.receive_timeout_ms,
            },
            ProbePhase::Querying => ProbeAction::QueryLiveness { pid: self.pid },
            ProbePhase::Finished { alive } => ProbeAction::Report(
                probe_verdict(alive, copy_lines(&self.lines)),
            ),
        }
    }

    /// Takes what came of the last action and says what to do next.
    pub fn step(self, event: ProbeEvent) -> (r: (Prober, ProbeAction))
        ensures
            r.0@ == probe_step(self@, event@),
            r.1@ == pending(r.0@),
    {
        proof {
            use_type_invariant(&self);
        }
        let Prober { pid, config, phase, lines } = self;
        let mut lines = lines;
        let next = match (phase, event) {
            (ProbePhase::Waiting, ProbeEvent::GraceElapsed) => {
                if lines.len() < config.line_cap {
                    ProbePhase::Draining
                } else {
                    ProbePhase::Querying
                }
            },
            (ProbePhase::Draining, ProbeEvent::Line(line)) => {
                if lines.len() < config.line_cap {
                    let ghost before = lines@;
                    lines.push(line);
                    assert(line_views(lines@) =~= line_views(before).push(line@));
                    if lines.len() < config.line_cap {
                        ProbePhase::Draining
                    } else {
                        ProbePhase::Querying
                    }
                } else {
                    ProbePhase::Querying
                }
            },
            (ProbePhase::Draining, ProbeEvent::NoLine) => ProbePhase::Querying,
            (ProbePhase::Querying, ProbeEvent::Liveness(alive)) => ProbePhase::Finished { alive },
            _ => phase,
        };
        let prober = Prober { pid, config, phase: next, lines };
        let action = prober.action();
        (prober, action)
    }

    /// The lines collected so far.
    pub fn into_lines(self) -> (lines: Vec<DiagnosticLine>)
        ensures
            line_views(lines@) == self@.lines,
    {
        self.lines
    }

    /// The process under probe.
    pub fn pid(&self) -> (pid: u32)
        ensures
            pid == self@.pid,
    {
        self.pid
    }

    /// Where the probe stands.
    pub fn phase(&self) -> (phase: ProbePhase)
        ensures
            phase == self@.phase,
    {
        self.phase
    }
}

/// A step keeps the number of collected lines within the cap.
pub proof fn lemma_step_keeps_cap(state: ProberView, event: ProbeEventView)
    requires
        state.wf(),
    ensures
        probe_step(state, event).wf(),
        probe_step(state, event).pid == state.pid,
        probe_step(state, event).config == state.config,
{
}

/// Once a probe has finished, no event changes its result.
pub proof fn lemma_finished_is_final(state: ProberView, event: ProbeEventView)
    requires
        state.phase is Finished,
    ensures
        probe_step(state, event) == state,
{
}

/// Running two sequences of events in turn is running them joined.
pub proof fn lemma_run_joined(
    state: ProberView,
    first: Seq<ProbeEventView>,
    second: Seq<ProbeEventView>,
)
    ensures
        probe_run(state, first + second) == probe_run(probe_run(state, first), second),
    decreases first.len(),
{
    if first.len() == 0 {
        assert(first + second =~= second);
    } else {
        assert((first + second)[0] == first[0]);
        assert((first + second).drop_first() =~= first.drop_first() + second);
        lemma_run_joined(probe_step(state, first[0]), first.drop_first(), second);
    }
}

/// Running one event is taking one step.
proof fn lemma_run_one(state: ProberView, event: ProbeEventView)
    ensures
        probe_run(state, seq![event]) == probe_step(state, event),
{
    let events = seq![event];
    assert(events.drop_first() =~= Seq::<ProbeEventView>::empty());
    assert(probe_run(probe_step(state, events[0]), events.drop_first()) == probe_step(
        state,
        event,
    ));
}

/// A collecting probe that receives lines for which it has room holds them
/// all afterwards, in the order received.
proof fn lemma_run_lines(state: ProberView, lines: Seq<LineView>)
    requires
        state.phase == phase_for(state.lines.len(), state.config.line_cap as nat),
        state.lines.len() + lines.len() <= state.config.line_cap,
    ensures
        probe_run(state, lines.map_values(|l: LineView| ProbeEventView::Line(l))) == (ProberView {
            phase: phase_for(state.lines.len() + lines.len(), state.config.line_cap as nat),
            lines: state.lines + lines,
            ..state
        }),
    decreases lines.len(),
{
    let events = lines.map_values(|l: LineView| ProbeEventView::Line(l));
    if lines.len() == 0 {
        assert(state.lines + lines =~= state.lines);
    } else {
        let next = probe_step(state, events[0]);
        assert(events[0] == ProbeEventView::Line(lines[0]));
        assert(events.drop_first() =~= lines.drop_first().map_values(
            |l: LineView| ProbeEventView::Line(l),
        ));
        lemma_run_lines(next, lines.drop_first());
        assert(state.lines.push(lines[0]) + lines.drop_first() =~= state.lines + lines);
    }
}

/// A probe during which `lines` were buffered, no more than the cap allows,
/// ends with the result for those lines: `Alive` where the process was found
/// alive, and otherwise `ExitedEarly` with all of the lines in the order in
/// which they were written, or with the one line that says that there was no
/// output.
pub proof fn lemma_probe_reports(pid: u32, config: ProbeConfig, lines: Seq<LineView>, alive: bool)
    requires
        lines.len() <= config.line_cap,
    ensures
        pending(
            probe_run(probe_start(pid, config), probe_script(lines, config.line_cap as nat, alive)),
        ) == ProbeActionView::Report(verdict(alive, lines)),
        !alive && lines.len() == 0 ==> verdict(alive, lines) == LivenessView::ExitedEarly(
            seq![no_output_line()],
        ),
        !alive && lines.len() > 0 ==> verdict(alive, lines) == LivenessView::ExitedEarly(lines),
        alive ==> verdict(alive, lines) == LivenessView::Alive,
{
    let cap = config.line_cap as nat;
    let start = probe_start(pid, config);
    let grace = seq![ProbeEventView::GraceElapsed];
    let received = lines.map_values(|l: LineView| ProbeEventView::Line(l));
    let timeout = if lines.len() < cap {
        seq![ProbeEventView::NoLine]
    } else {
        Seq::empty()
    };
    let answer = seq![ProbeEventView::Liveness(alive)];
    assert(probe_script(lines, cap, alive) == grace + received + timeout + answer);
    lemma_run_joined(start, grace + received + timeout, answer);
    lemma_run_joined(start, grace + received, timeout);
    lemma_run_joined(start, grace, received);
    lemma_run_one(start, ProbeEventView::GraceElapsed);
    let waited = probe_run(start, grace);
    lemma_run_lines(waited, lines);
    let drained = probe_run(waited, received);
    assert(drained.lines =~= lines);
    let asked = probe_run(drained, timeout);
    if lines.len() < cap {
        lemma_run_one(drained, ProbeEventView::NoLine);
    }
    assert(asked.phase == ProbePhase::Querying);
    lemma_run_one(asked, ProbeEventView::Liveness(alive));
}

} // verus!
