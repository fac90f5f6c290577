//! The bounded channel between the output drain and the liveness probe.
//!
//! The drain never waits for the probe: a line for which there is no room,
//! or that comes after the probe has stopped listening, is dropped from the
//! channel. It still reaches the log.

use crate::output::{echo_record, line_views, log_record, DiagnosticLine, LineView};
use vstd::prelude::*;

verus! {

/// The state of a channel as a plain value.
pub struct ChannelView {
    /// The lines sent and not yet received, oldest first.
    pub buffered: Seq<LineView>,
    /// The most lines the channel holds.
    pub capacity: nat,
    /// Whether the probe still receives.
    pub listening: bool,
}

/// Whether `channel` takes one more line.
pub open spec fn accepts(channel: ChannelView) -> bool {
    channel.listening && channel.buffered.len() < channel.capacity
}

/// The channel after an attempt to send `line`.
pub open spec fn after_send(channel: ChannelView, line: LineView) -> ChannelView {
    if accepts(channel) {
        ChannelView { buffered: channel.buffered.push(line), ..channel }
    } else {
        channel
    }
}

/// The channel after an attempt to receive.
pub open spec fn after_receive(channel: ChannelView) -> ChannelView {
    if channel.buffered.len() > 0 {
        ChannelView { buffered: channel.buffered.drop_first(), ..channel }
    } else {
        channel
    }
}

/// A bounded first-in, first-out buffer of diagnostic lines.
pub struct DiagnosticChannel {
    buffered: Vec<DiagnosticLine>,
    capacity: usize,
    listening: bool,
}

impl View for DiagnosticChannel {
    type V = ChannelView;

    closed spec fn view(&self) -> ChannelView {
        ChannelView {
            buffered: line_views(self.buffered@),
            capacity: self.capacity as nat,
            listening: self.listening,
        }
    }
}

/// What the drain does with one line besides sending it to the probe.
pub struct Delivery {
    /// The text for the supervisor's own output.
    pub echo: String,
    /// The text to append to the log file.
    pub record: String,
    /// Whether the channel took the line.
    pub sent: bool,
}

impl DiagnosticChannel {
    /// The channel never holds more lines than its capacity.
    #[verifier::type_invariant]
    spec fn inv(self) -> bool {
        self.buffered@.len() <= self.capacity
    }

    /// An empty channel for at most `capacity` lines, with the probe
    /// listening.
    pub fn new(capacity: usize) -> (channel: DiagnosticChannel)
        ensures
            channel@ == (ChannelView {
                buffered: Seq::empty(),
                capacity: capacity as nat,
                listening: true,
            }),
    {
        let channel = DiagnosticChannel { buffered: Vec::new(), capacity, listening: true };
        assert(line_views(channel.buffered@) =~= Seq::empty());
        channel
    }

    /// The number of lines waiting to be received.
    pub fn len(&self) -> (n: usize)
        ensures
            n == self@.buffered.len(),
            n <= self@.capacity,
    {
        proof {
            use_type_invariant(self);
        }
        self.buffered.len()
    }

    /// Whether the probe still receives.
    pub fn is_listening(&self) -> (listening: bool)
        ensures
            listening == self@.listening,
    {
        self.listening
    }

    /// Hands out what is buffered and leaves the channel empty.
    fn take_buffered(&mut self) -> (held: Vec<DiagnosticLine>)
        ensures
            held == old(self).buffered,
            final(self).buffered@.len() == 0,
            final(self).capacity == old(self).capacity,
            final(self).listening == old(self).listening,
    {
        let mut held: Vec<DiagnosticLine> = Vec::new();
        core::mem::swap(&mut self.buffered, &mut held);
        held
    }

    /// Sends `line` if the probe is listening and there is room, and says
    /// whether it did. The sender never waits.
    pub fn try_send(&mut self, line: DiagnosticLine) -> (sent: bool)
        ensures
            final(self)@ == after_send(old(self)@, line@),
            sent == accepts(old(self)@),
    {
        proof {
            use_type_invariant(&*self);
        }
        let sent = self.listening && self.buffered.len() < self.capacity;
        if sent {
            let mut buffered = self.take_buffered();
            let ghost before = buffered@;
            buffered.push(line);
            assert(line_views(buffered@) =~= line_views(before).push(line@));
            self.buffered = buffered;
        }
        sent
    }

    /// Receives the oldest line, if one is waiting.
    pub fn receive(&mut self) -> (received: Option<DiagnosticLine>)
        ensures
            final(self)@ == after_receive(old(self)@),
            match received {
                Some(line) => old(self)@.buffered.len() > 0 && line@ == old(self)@.buffered[0],
                None => old(self)@.buffered.len() == 0,
            },
    {
        proof {
            use_type_invariant(&*self);
        }
        if self.buffered.len() > 0 {
            let mut buffered = self.take_buffered();
            let ghost before = buffered@;
            let line = buffered.remove(0);
            assert(line_views(buffered@) =~= line_views(before).drop_first());
            self.buffered = buffered;
            Some(line)
        } else {
            None
        }
    }

    /// Ends the probe's part: what is buffered is dropped, and so is every
    /// line sent from now on.
    pub fn stop_listening(&mut self)
        ensures
            final(self)@ == (ChannelView {
                buffered: Seq::empty(),
                listening: false,
                ..old(self)@
            }),
    {
        let dropped = self.take_buffered();
        self.listening = false;
        assert(line_views(self.buffered@) =~= Seq::empty());
    }

    /// Handles one line of the sidecar `name`: says what to echo and what to
    /// append to the log, and sends the line to the probe if it can.
    pub fn deliver(&mut self, name: &str, line: DiagnosticLine) -> (delivery: Delivery)
        ensures
            final(self)@ == after_send(old(self)@, line@),
            delivery.echo@ == echo_record(name@, line@),
            delivery.record@ == log_record(line@),
            delivery.sent == accepts(old(self)@),
    {
        let echo = line.echo_record(name);
        let record = line.log_record();
        let sent = self.try_send(line);
        Delivery { echo, record, sent }
    }
}

/// The channel after attempts to send `lines`, one after the other.
pub open spec fn after_sends(channel: ChannelView, lines: Seq<LineView>) -> ChannelView
    decreases lines.len(),
{
    if lines.len() == 0 {
        channel
    } else {
        after_send(after_sends(channel, lines.drop_last()), lines.last())
    }
}

/// Lines are received in the order in which they were sent: a listening
/// channel with room for `lines` holds them afterwards behind what it held
/// before, in the order sent, and the oldest line is received first.
pub proof fn lemma_first_in_first_out(channel: ChannelView, lines: Seq<LineView>)
    requires
        channel.listening,
        channel.buffered.len() + lines.len() <= channel.capacity,
    ensures
        after_sends(channel, lines) == (ChannelView {
            buffered: channel.buffered + lines,
            ..channel
        }),
        channel.buffered.len() == 0 && lines.len() > 0 ==> after_receive(
            after_sends(channel, lines),
        ) == (ChannelView { buffered: lines.drop_first(), ..channel }),
    decreases lines.len(),
{
    if lines.len() == 0 {
        assert(channel.buffered + lines =~= channel.buffered);
    } else {
        lemma_first_in_first_out(channel, lines.drop_last());
        assert((channel.buffered + lines.drop_last()).push(lines.last()) =~= channel.buffered
            + lines);
        if channel.buffered.len() == 0 {
            assert((channel.buffered + lines).drop_first() =~= lines.drop_first());
        }
    }
}

/// A send never lets the channel grow beyond its capacity, and a channel
/// whose probe has stopped listening stays as it is.
pub proof fn lemma_send_is_bounded(channel: ChannelView, line: LineView)
    requires
        channel.buffered.len() <= channel.capacity,
    ensures
        after_send(channel, line).buffered.len() <= channel.capacity,
        !channel.listening ==> after_send(channel, line) == channel,
{
}

} // verus!
