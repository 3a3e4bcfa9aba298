use vstd::prelude::*;

use crate::logs::{timeout_error, ErrorState, IoErrorKind};
use crate::strings::same_text;
use crate::text::view_lines;

verus! {

/// How one pass over the log stream ended.
#[derive(Debug, Clone, Copy, PartialEq, Eq, Structural)]
pub enum ObserveResult {
    /// The stream broke off: open it again.
    Continue,
    /// The stream ended.
    Stop,
    /// The line to stop on arrived.
    StopOn,
}

/// What the log stream delivered.
pub enum LogStreamEvent {
    /// The stream could not be opened (with the error's text).
    OpenFailed(String),
    /// A line that parsed: its time (milliseconds) and its message in lower case.
    Line { time: i64, lowercase: String },
    /// A line that did not parse as a time, a space and a message.
    Unparsed,
    /// The stream ended.
    End,
    /// The stream failed: the error's kind and the debug texts of its sources.
    Error { kind: IoErrorKind, sources: Vec<String> },
    /// Observing was cancelled.
    Cancelled,
}

/// What to do after an event of the log stream.
#[derive(Debug, Clone, Copy, PartialEq, Eq, Structural)]
pub enum ObserveAction {
    /// Wait for the next event.
    Next,
    /// Send the line on, then wait for the next event.
    SendLine,
    /// Send the error on as a line, then stop this pass.
    SendErrorAndFinish,
    /// Stop this pass.
    Finish,
}

/// The line at `time` with the lower-case message `lowercase` is the line to stop on.
pub open spec fn is_stop_line(time: i64, lowercase: Seq<char>, stop_on: Option<(i64, String)>) -> bool {
    match stop_on {
        Some((t, log)) => t == time && log@ == lowercase,
        None => false,
    }
}

/// Returns `true` when the line at `time` with the lower-case message `lowercase` is the line to
/// stop on.
pub fn should_stop_on(time: i64, lowercase: &str, stop_on: &Option<(i64, String)>) -> (r: bool)
    ensures
        r == is_stop_line(time, lowercase@, *stop_on),
{
    match stop_on {
        Some((t, log)) => *t == time && same_text(log.as_str(), lowercase),
        None => false,
    }
}

/// One pass over the log stream: the time of the last line sent, the time-out tracking and how
/// the pass ended so far.
pub struct ObservePass {
    pub last_message_time: Option<i64>,
    pub error_state: ErrorState,
    pub result: ObserveResult,
}

impl ObservePass {
    /// A pass that starts after the line at `since_time` (from the tail when none).
    pub fn new(since_time: Option<i64>) -> (r: Self)
        ensures
            r.last_message_time == since_time,
            !r.error_state.seen(),
            r.result == ObserveResult::Continue,
    {
        ObservePass { last_message_time: since_time, error_state: ErrorState::new(), result: ObserveResult::Continue }
    }

    /// Decides what follows `event`. A stream that cannot be opened, or fails, has its error sent
    /// (all but the first time-out in a row of a failing stream) and ends the pass to be retried;
    /// a parsed line is sent and its time kept, unless it is the line to stop on, which ends the
    /// pass; the end of the stream ends it for good; a cancellation just ends it.
    pub fn step(&mut self, event: &LogStreamEvent, stop_on: &Option<(i64, String)>) -> (r: ObserveAction)
        ensures
            match *event {
                LogStreamEvent::OpenFailed(_) => {
                    &&& r == ObserveAction::SendErrorAndFinish
                    &&& final(self).result == ObserveResult::Continue
                    &&& final(self).last_message_time == old(self).last_message_time
                    &&& final(self).error_state.seen() == old(self).error_state.seen()
                },
                LogStreamEvent::Line { time, lowercase } => {
                    &&& !final(self).error_state.seen()
                    &&& final(self).last_message_time == Some(time)
                    &&& if is_stop_line(time, lowercase@, *stop_on) {
                        r == ObserveAction::Finish && final(self).result == ObserveResult::StopOn
                    } else {
                        r == ObserveAction::SendLine && final(self).result == old(self).result
                    }
                },
                LogStreamEvent::Unparsed => {
                    &&& r == ObserveAction::Next
                    &&& !final(self).error_state.seen()
                    &&& final(self).last_message_time == old(self).last_message_time
                    &&& final(self).result == old(self).result
                },
                LogStreamEvent::End => {
                    &&& r == ObserveAction::Finish
                    &&& final(self).result == ObserveResult::Stop
                    &&& final(self).last_message_time == old(self).last_message_time
                    &&& final(self).error_state.seen() == old(self).error_state.seen()
                },
                LogStreamEvent::Error { kind, sources } => {
                    let first_timeout = !old(self).error_state.seen() && timeout_error(kind, view_lines(sources@));
                    &&& r == if first_timeout { ObserveAction::Finish } else { ObserveAction::SendErrorAndFinish }
                    &&& final(self).error_state.seen() == (old(self).error_state.seen() || first_timeout)
                    &&& final(self).last_message_time == old(self).last_message_time
                    &&& final(self).result == old(self).result
                },
                LogStreamEvent::Cancelled => {
                    &&& r == ObserveAction::Finish
                    &&& final(self).last_message_time == old(self).last_message_time
                    &&& final(self).result == old(self).result
                    &&& final(self).error_state.seen() == old(self).error_state.seen()
                },
            },
    {
        match event {
            LogStreamEvent::OpenFailed(_) => {
                self.result = ObserveResult::Continue;
                ObserveAction::SendErrorAndFinish
            },
            LogStreamEvent::Line { time, lowercase } => {
                self.error_state.reset();
                self.last_message_time = Some(*time);
                if should_stop_on(*time, lowercase.as_str(), stop_on) {
                    self.result = ObserveResult::StopOn;
                    ObserveAction::Finish
                } else {
                    ObserveAction::SendLine
                }
            },
            LogStreamEvent::Unparsed => {
                self.error_state.reset();
                ObserveAction::Next
            },
            LogStreamEvent::End => {
                self.result = ObserveResult::Stop;
                ObserveAction::Finish
            },
            LogStreamEvent::Error { kind, sources } => {
                if self.error_state.should_show_error(*kind, sources) {
                    ObserveAction::SendErrorAndFinish
                } else {
                    ObserveAction::Finish
                }
            },
            LogStreamEvent::Cancelled => ObserveAction::Finish,
        }
    }
}

/// What the observer does once a pass over the stream ended.
#[derive(Debug, Clone, Copy, PartialEq, Eq, Structural)]
pub enum RestartAction {
    /// Wait (with back-off) and open the stream again from the last line's time.
    Retry,
    /// Stop observing; send the closing message first when `send_closing_message`.
    Finish { send_closing_message: bool },
}

/// Decides, once a pass ended with `result`, whether to open the stream again: only a broken-off
/// stream is reopened, unless observing was cancelled; stopping on the requested line sends no
/// closing message.
pub fn after_pass(result: ObserveResult, cancelled: bool) -> (r: RestartAction)
    ensures
        r == if !cancelled && result == ObserveResult::Continue {
            RestartAction::Retry
        } else {
            RestartAction::Finish { send_closing_message: result != ObserveResult::StopOn }
        },
{
    if !cancelled && result == ObserveResult::Continue {
        RestartAction::Retry
    } else {
        RestartAction::Finish { send_closing_message: result != ObserveResult::StopOn }
    }
}

/// The text of the message sent when observing stops.
pub open spec fn closing_text(namespace: Seq<char>, name: Seq<char>, container: Option<Seq<char>>) -> Seq<char> {
    "Logs stream closed "@ + namespace + seq!['/'] + name + seq![' ', '('] + match container {
        Some(c) => c,
        None => seq![],
    } + seq![')']
}

/// Returns the message sent when observing the logs of `container` of pod `name` stops.
pub fn closing_message(namespace: &str, name: &str, container: Option<&str>) -> (r: String)
    ensures
        r@ == closing_text(namespace@, name@, match container {
            Some(c) => Some(c@),
            None => None,
        }),
{
    let mut msg = String::from_str("Logs stream closed ");
    proof {
        reveal_strlit("Logs stream closed ");
    }
    <String as vstd::string::StringExecFns>::append(&mut msg, namespace);
    crate::strings::push_char(&mut msg, '/');
    <String as vstd::string::StringExecFns>::append(&mut msg, name);
    crate::strings::push_char(&mut msg, ' ');
    crate::strings::push_char(&mut msg, '(');
    match container {
        Some(c) => <String as vstd::string::StringExecFns>::append(&mut msg, c),
        None => {},
    }
    crate::strings::push_char(&mut msg, ')');
    let ghost c = match container {
        Some(c) => Some(c@),
        None => None,
    };
    assert(msg@ =~= closing_text(namespace@, name@, c));
    msg
}

} // verus!
