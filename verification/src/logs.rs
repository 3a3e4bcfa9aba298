use vstd::prelude::*;
use vstd::string::StrSliceExecFns;

use crate::pattern::{contains_text, occurs_in_at};
use crate::text::view_lines;

verus! {

/// Log line kind.
#[derive(Debug, Clone, Copy, PartialEq, Eq, Structural)]
pub enum LineKind {
    LogLine,
    FetchInfo,
    Error,
}

/// Possible errors from the logs observer.
#[derive(Debug)]
pub enum LogsObserverError {
    /// Kubernetes client error (with the client's own message).
    KubeClientError(String),
}

impl LogsObserverError {
    /// Returns the error message.
    pub fn message(&self) -> (r: &'static str)
        ensures
            r@ == "kubernetes client error"@,
    {
        "kubernetes client error"
    }
}

/// Possible errors from the logs view.
#[derive(Debug)]
pub enum LogsViewError {
    /// No containers to observe provided.
    NoContainersToObserve,
    /// Kubernetes client error.
    ObserverError(LogsObserverError),
}

impl LogsViewError {
    /// Returns the error message.
    pub fn message(&self) -> (r: &'static str)
        ensures
            self is NoContainersToObserve ==> r@ == "no containers provided"@,
            self is ObserverError ==> r@ == "kubernetes client error"@,
    {
        match self {
            LogsViewError::NoContainersToObserve => "no containers provided",
            LogsViewError::ObserverError(_) => "kubernetes client error",
        }
    }
}

impl From<LogsObserverError> for LogsViewError {
    fn from(value: LogsObserverError) -> (r: Self) {
        LogsViewError::ObserverError(value)
    }
}

impl vstd::std_specs::convert::FromSpecImpl<LogsObserverError> for LogsViewError {
    open spec fn obeys_from_spec() -> bool {
        true
    }

    open spec fn from_spec(v: LogsObserverError) -> Self {
        LogsViewError::ObserverError(v)
    }
}

/// The kind of an I/O error, as far as telling a time-out goes.
#[derive(Debug, Clone, Copy, PartialEq, Eq, Structural)]
pub enum IoErrorKind {
    TimedOut,
    Other,
    Another,
}

/// An error is a time-out: of that kind, or of kind `Other` with a source whose debug text mentions
/// `TimedOut`.
pub open spec fn timeout_error(kind: IoErrorKind, sources: Seq<Seq<char>>) -> bool {
    ||| kind is TimedOut
    ||| kind is Other && exists|k: int, i: int| 0 <= k < sources.len() && #[trigger] occurs_in_at(sources[k], "TimedOut"@, i)
}

/// Tracks whether a time-out error was already seen since the last received line.
pub struct ErrorState {
    timeout_seen: bool,
}

impl ErrorState {
    /// Whether a time-out was seen.
    pub closed spec fn seen(&self) -> bool {
        self.timeout_seen
    }

    /// Creates new [`ErrorState`] instance.
    pub fn new() -> (r: Self)
        ensures
            !r.seen(),
    {
        ErrorState { timeout_seen: false }
    }

    /// Returns `true` if the error (its kind and the debug texts of its sources) is a time-out.
    pub fn is_timeout_error(kind: IoErrorKind, sources: &Vec<String>) -> (r: bool)
        ensures
            r == timeout_error(kind, view_lines(sources@)),
    {
        let ghost texts = view_lines(sources@);
        if kind == IoErrorKind::TimedOut {
            return true;
        }
        if kind == IoErrorKind::Other {
            let mut k: usize = 0;
            while k < sources.len()
                invariant
                    k <= sources@.len(),
                    kind == IoErrorKind::Other,
                    texts == view_lines(sources@),
                    forall|j: int, i: int| 0 <= j < k ==> !#[trigger] occurs_in_at(texts[j], "TimedOut"@, i),
                decreases sources@.len() - k,
            {
                if contains_text(sources[k].as_str(), "TimedOut") {
                    proof {
                        let i = choose|i: int| occurs_in_at(sources@[k as int]@, "TimedOut"@, i);
                        assert(texts[k as int] == sources@[k as int]@);
                        assert(occurs_in_at(texts[k as int], "TimedOut"@, i));
                    }
                    return true;
                }
                assert(texts[k as int] == sources@[k as int]@);
                k = k + 1;
            }
        }
        false
    }

    /// Resets the state after a line was received.
    pub fn reset(&mut self)
        ensures
            !final(self).seen(),
    {
        self.timeout_seen = false;
    }

    /// Returns `true` if the error should be shown: all but the first time-out in a row are.
    pub fn should_show_error(&mut self, kind: IoErrorKind, sources: &Vec<String>) -> (r: bool)
        ensures
            ({
                let first_timeout = !old(self).seen() && timeout_error(kind, view_lines(sources@));
                &&& r == !first_timeout
                &&& final(self).seen() == (old(self).seen() || first_timeout)
            }),
    {
        if !self.timeout_seen && Self::is_timeout_error(kind, sources) {
            self.timeout_seen = true;
            false
        } else {
            true
        }
    }
}


/// Returns the container's name as an owned string together with its length in characters (zero
/// when there is no container).
pub fn get_container(container: Option<&str>) -> (r: (Option<String>, usize))
    ensures
        r.0.is_some() == container.is_some(),
        container.is_some() ==> r.0.unwrap()@ == container.unwrap()@ && r.1 == container.unwrap()@.len(),
        container.is_none() ==> r.1 == 0,
{
    match container {
        Some(c) => (Some(String::from_str(c)), c.unicode_len()),
        None => (None, 0),
    }
}

} // verus!
