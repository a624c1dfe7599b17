//! The log event a game sends, its severity, and how it is rendered and routed.

use vstd::prelude::*;
use vstd::string::StringExecFns;

verus! {

/// How serious a log event is, as the game reports it.
#[derive(Clone, Copy, Debug, PartialEq, Eq, Structural)]
pub enum Severity {
    Message,
    Info,
    Success,
    Warning,
    Error,
    Fatal,
    Debug,
    Quit,
}

/// The output channel a rendered event is written to.
#[derive(Clone, Copy, Debug, PartialEq, Eq, Structural)]
pub enum Sink {
    Info,
    Error,
    Warning,
    Debug,
}

impl Severity {
    /// The variant's name, which is what a rendered line shows between brackets.
    pub open spec fn spec_tag(self) -> Seq<char> {
        match self {
            Severity::Message => "Message"@,
            Severity::Info => "Info"@,
            Severity::Success => "Success"@,
            Severity::Warning => "Warning"@,
            Severity::Error => "Error"@,
            Severity::Fatal => "Fatal"@,
            Severity::Debug => "Debug"@,
            Severity::Quit => "Quit"@,
        }
    }

    /// The routing table: every severity has exactly one sink.
    pub open spec fn spec_sink(self) -> Sink {
        match self {
            Severity::Message => Sink::Info,
            Severity::Info => Sink::Info,
            Severity::Success => Sink::Info,
            Severity::Quit => Sink::Info,
            Severity::Error => Sink::Error,
            Severity::Fatal => Sink::Error,
            Severity::Warning => Sink::Warning,
            Severity::Debug => Sink::Debug,
        }
    }

    /// The variant's name as text.
    pub fn tag(&self) -> (name: &'static str)
        ensures
            name@ == self.spec_tag(),
    {
        match self {
            Severity::Message => "Message",
            Severity::Info => "Info",
            Severity::Success => "Success",
            Severity::Warning => "Warning",
            Severity::Error => "Error",
            Severity::Fatal => "Fatal",
            Severity::Debug => "Debug",
            Severity::Quit => "Quit",
        }
    }

    /// The sink that events of this severity are written to.
    pub fn sink(&self) -> (sink: Sink)
        ensures
            sink == self.spec_sink(),
    {
        match self {
            Severity::Message | Severity::Info | Severity::Success | Severity::Quit => Sink::Info,
            Severity::Error | Severity::Fatal => Sink::Error,
            Severity::Warning => Sink::Warning,
            Severity::Debug => Sink::Debug,
        }
    }
}

/// One structured message received from the game.
#[derive(Clone, Debug, PartialEq, Eq)]
pub struct LogEvent {
    /// Who sent the message, usually a mod's name.
    pub sender_name: Option<String>,
    /// What kind of sender it was.
    pub sender_type: Option<String>,
    /// The severity the sender gave the message.
    pub message_type: Severity,
    /// The text of the message; it may be empty.
    pub message: String,
}

/// What a log event holds, as plain values.
pub struct LogEventView {
    pub sender_name: Option<Seq<char>>,
    pub sender_type: Option<Seq<char>>,
    pub message_type: Severity,
    pub message: Seq<char>,
}

/// A rendered event together with the sink it goes to.
#[derive(Clone, Debug, PartialEq, Eq)]
pub struct LogLine {
    pub sink: Sink,
    pub text: String,
}

/// What a log line holds, as plain values.
pub struct LogLineView {
    pub sink: Sink,
    pub text: Seq<char>,
}

/// The text shown for an identity field: the field, or `Unknown` where it is absent.
pub open spec fn spec_or_unknown(field: Option<Seq<char>>) -> Seq<char> {
    match field {
        Some(text) => text,
        None => "Unknown"@,
    }
}

/// The rendered form of an event: `[name::type][severity] message`.
pub open spec fn spec_render(event: LogEventView) -> Seq<char> {
    "["@ + spec_or_unknown(event.sender_name) + "::"@ + spec_or_unknown(event.sender_type) + "]["@
        + event.message_type.spec_tag() + "] "@ + event.message
}

/// The line that dispatch writes for an event.
pub open spec fn spec_line(event: LogEventView) -> LogLineView {
    LogLineView { sink: event.message_type.spec_sink(), text: spec_render(event) }
}

impl View for LogEvent {
    type V = LogEventView;

    open spec fn view(&self) -> LogEventView {
        LogEventView {
            sender_name: match self.sender_name {
                Some(name) => Some(name@),
                None => None,
            },
            sender_type: match self.sender_type {
                Some(kind) => Some(kind@),
                None => None,
            },
            message_type: self.message_type,
            message: self.message@,
        }
    }
}

impl View for LogLine {
    type V = LogLineView;

    open spec fn view(&self) -> LogLineView {
        LogLineView { sink: self.sink, text: self.text@ }
    }
}

fn or_unknown(field: &Option<String>) -> (text: &str)
    ensures
        text@ == spec_or_unknown(
            match *field {
                Some(name) => Some(name@),
                None => None,
            },
        ),
{
    match field {
        Some(name) => name.as_str(),
        None => "Unknown",
    }
}

impl LogEvent {
    /// Builds the event for one well-formed frame.
    pub fn new(
        sender_name: Option<String>,
        sender_type: Option<String>,
        message_type: Severity,
        message: String,
    ) -> (event: LogEvent)
        ensures
            event.sender_name == sender_name,
            event.sender_type == sender_type,
            event.message_type == message_type,
            event.message == message,
    {
        LogEvent { sender_name, sender_type, message_type, message }
    }

    /// Renders the event as `[name::type][severity] message`, each absent
    /// identity field shown as `Unknown`.
    pub fn render(&self) -> (text: String)
        ensures
            text@ == spec_render(self@),
    {
        let mut text = String::from_str("[");
        text.append(or_unknown(&self.sender_name));
        text.append("::");
        text.append(or_unknown(&self.sender_type));
        text.append("][");
        text.append(self.message_type.tag());
        text.append("] ");
        text.append(self.message.as_str());
        text
    }
}

/// Renders one received event and picks its sink by severity.
pub fn handle_game_log(message: &LogEvent) -> (line: LogLine)
    ensures
        line@ == spec_line(message@),
{
    LogLine { sink: message.message_type.sink(), text: message.render() }
}

/// The lines for a run of received events.
pub open spec fn spec_lines(events: Seq<LogEvent>) -> Seq<LogLineView> {
    events.map_values(|event: LogEvent| spec_line(event@))
}

/// Handles every event that the queue delivered, in the order of delivery:
/// one line for each event, none dropped, none added, none moved.
pub fn dispatch_all(events: &Vec<LogEvent>) -> (lines: Vec<LogLine>)
    ensures
        lines@.len() == events@.len(),
        forall|k: int| 0 <= k < events@.len() ==> (#[trigger] lines@[k])@ == spec_line(events@[k]@),
        lines@.map_values(|line: LogLine| line@) == spec_lines(events@),
{
    let mut lines: Vec<LogLine> = Vec::new();
    let mut i: usize = 0;
    while i < events.len()
        invariant
            0 <= i <= events.len(),
            lines@.len() == i,
            forall|k: int| 0 <= k < i ==> (#[trigger] lines@[k])@ == spec_line(events@[k]@),
        decreases events.len() - i,
    {
        lines.push(handle_game_log(&events[i]));
        i += 1;
    }
    assert(lines@.map_values(|line: LogLine| line@) =~= spec_lines(events@));
    lines
}

/// The routing table read from the sinks' side: the info sink takes messages,
/// infos, successes and quits, the error sink errors and fatals, the warning
/// sink warnings and the debug sink debug output, and nothing else.
pub proof fn lemma_routing_table(severity: Severity)
    ensures
        severity.spec_sink() == Sink::Info <==> severity == Severity::Message || severity
            == Severity::Info || severity == Severity::Success || severity == Severity::Quit,
        severity.spec_sink() == Sink::Error <==> severity == Severity::Error || severity
            == Severity::Fatal,
        severity.spec_sink() == Sink::Warning <==> severity == Severity::Warning,
        severity.spec_sink() == Sink::Debug <==> severity == Severity::Debug,
{
}

/// Dispatch keeps what the queue delivered: the lines of a run of events are
/// as many as the events, and the line in each place is that of the event in
/// the same place, so nothing is lost, added or reordered.
pub proof fn lemma_dispatch_keeps_order(events: Seq<LogEvent>, k: int)
    requires
        0 <= k < events.len(),
    ensures
        spec_lines(events).len() == events.len(),
        spec_lines(events)[k] == spec_line(events[k]@),
        spec_lines(events)[k].text == spec_render(events[k]@),
        spec_lines(events)[k].sink == events[k].message_type.spec_sink(),
{
}

} // verus!
