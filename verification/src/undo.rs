use std::time::{Duration, Instant};
use vstd::prelude::*;

use crate::position::ContentPosition;
use crate::selection::{ordered, Selection};

verus! {

#[verifier::external_type_specification]
#[verifier::external_body]
pub struct ExInstant(Instant);

/// Calls `Instant::now`. The result depends on the clock, so nothing is stated about it.
#[verifier::external_body]
pub(crate) fn instant_now() -> Instant {
    Instant::now()
}

/// Calls `Instant::elapsed`. The result depends on the clock, so nothing is stated about it.
#[verifier::external_body]
pub(crate) fn elapsed(since: &Instant) -> Duration {
    since.elapsed()
}

/// Calls `Duration::as_nanos`. The durations this crate reads come from the clock, so nothing is
/// stated about the result.
#[verifier::external_body]
pub(crate) fn as_nanos(duration: &Duration) -> u128 {
    duration.as_nanos()
}

/// Represents the type of change stored in an undo/redo entry.
#[derive(Debug, Clone, Copy, PartialEq, Eq, Structural)]
pub enum UndoMode {
    Insert,
    Remove,
    Cut,
    Paste,
    Swap,
}

/// Stores a single undo/redo action.
#[derive(Debug)]
pub struct Undo {
    pub pos: ContentPosition,
    pub end: Option<ContentPosition>,
    pub ch: char,
    pub text: Option<Vec<String>>,
    pub mode: UndoMode,
    /// When the change was made, in nanoseconds on the content's monotonic clock.
    pub when: u64,
}

impl Undo {
    /// Creates a new undo/redo entry representing an inserted character.
    pub fn insert(pos: ContentPosition, ch: char, when: u64) -> (r: Self)
        ensures
            r.pos == pos,
            r.end is None,
            r.ch == ch,
            r.text is None,
            r.when == when,
            r.mode == UndoMode::Insert,
    {
        Self { pos, end: None, ch, text: None, mode: UndoMode::Insert, when }
    }

    /// Creates a new undo/redo entry representing a removed character.
    pub fn remove(pos: ContentPosition, ch: char, when: u64) -> (r: Self)
        ensures
            r.pos == pos,
            r.end is None,
            r.ch == ch,
            r.text is None,
            r.when == when,
            r.mode == UndoMode::Remove,
    {
        Self { pos, end: None, ch, text: None, mode: UndoMode::Remove, when }
    }

    /// Creates a new undo/redo entry representing a cut (range removal).
    pub fn cut(range: &Selection, removed_text: Vec<String>, when: u64) -> (r: Self)
        ensures
            r.pos == ordered(range.start, range.end).0,
            r.end == Some(ordered(range.start, range.end).1),
            r.ch == ' ',
            r.text == Some(removed_text),
            r.when == when,
            r.mode == UndoMode::Cut,
    {
        let (start, end) = range.sorted();
        Self { pos: start, end: Some(end), ch: ' ', text: Some(removed_text), mode: UndoMode::Cut, when }
    }

    /// Creates a new undo/redo entry representing a paste (range insertion).
    pub fn paste(range: &Selection, when: u64) -> (r: Self)
        ensures
            r.pos == ordered(range.start, range.end).0,
            r.end == Some(ordered(range.start, range.end).1),
            r.ch == ' ',
            r.text is None,
            r.when == when,
            r.mode == UndoMode::Paste,
    {
        let (start, end) = range.sorted();
        Self { pos: start, end: Some(end), ch: ' ', text: None, mode: UndoMode::Paste, when }
    }

    /// Creates a new undo/redo entry representing a lines swap.
    pub fn swap(first_line: usize, second_line: usize, when: u64) -> (r: Self)
        ensures
            r.pos == (ContentPosition { x: 0, y: first_line }),
            r.end == Some(ContentPosition { x: 0, y: second_line }),
            r.ch == ' ',
            r.text is None,
            r.when == when,
            r.mode == UndoMode::Swap,
    {
        Self {
            pos: ContentPosition::new(0, first_line),
            end: Some(ContentPosition::new(0, second_line)),
            ch: ' ',
            text: None,
            mode: UndoMode::Swap,
            when,
        }
    }
}

/// The later of two successive entries came at most `threshold` nanoseconds after the earlier one
/// (a later entry with an earlier time counts as no time at all).
pub open spec fn close_in_time(later: Undo, earlier: Undo, threshold: u64) -> bool {
    (if later.when >= earlier.when { later.when - earlier.when } else { 0 }) <= threshold
}

/// The length of the run of quick successive entries that ends with entry `n - 1` of `u`: each
/// entry of it came at most `threshold` after the one before, and the entry before the run did not.
pub open spec fn recent_run_len(u: Seq<Undo>, n: int, threshold: u64) -> nat
    decreases n,
{
    if n <= 0 {
        0
    } else if n == 1 {
        1
    } else if close_in_time(u[n - 1], u[n - 2], threshold) {
        1 + recent_run_len(u, n - 1, threshold)
    } else {
        1
    }
}

/// A run of `g` entries ending at `n - 1` whose successive entries are close in time, and that
/// cannot be extended, is the recent run.
proof fn lemma_recent_run(u: Seq<Undo>, n: int, g: int, threshold: u64)
    requires
        1 <= g <= n <= u.len(),
        forall|j: int| n - g <= j < n - 1 ==> #[trigger] close_in_time(u[j + 1], u[j], threshold),
        n - g > 0 ==> !close_in_time(u[n - g], u[n - g - 1], threshold),
    ensures
        recent_run_len(u, n, threshold) == g,
    decreases g,
{
    if g > 1 {
        assert(close_in_time(u[n - 2 + 1], u[n - 2], threshold));
        lemma_recent_run(u, n - 1, g - 1, threshold);
    }
}

/// Pops the most recent undo actions that occurred within the given `threshold` time window.\
/// This groups quick successive edits into a single undo step: the result is the run of entries at
/// the top of the stack, each made at most `threshold` nanoseconds after the one before it, most
/// recent first; the entry below the run, if any, was made more than `threshold` before the run's
/// oldest entry.
pub fn pop_recent_group(vec: &mut Vec<Undo>, threshold: u64) -> (group: Vec<Undo>)
    ensures
        group@.len() == recent_run_len(old(vec)@, old(vec)@.len() as int, threshold),
        group@.len() <= old(vec)@.len(),
        old(vec)@.len() > 0 ==> group@.len() >= 1,
        final(vec)@ == old(vec)@.take(old(vec)@.len() - group@.len()),
        group@ == old(vec)@.skip(old(vec)@.len() - group@.len()).reverse(),
        forall|i: int| 0 <= i < group@.len() - 1 ==> #[trigger] close_in_time(group@[i], group@[i + 1], threshold),
        group@.len() > 0 && final(vec)@.len() > 0 ==> !close_in_time(group@.last(), final(vec)@.last(), threshold),
{
    let ghost orig = vec@;
    let ghost n = orig.len() as int;
    let mut group: Vec<Undo> = Vec::new();
    match vec.pop() {
        None => {
            assert(orig.skip(orig.len() as int).reverse() =~= group@);
            assert(orig.take(orig.len() as int) =~= orig);
        },
        Some(last) => {
            let mut reference_time = last.when;
            group.push(last);
            assert(group@ =~= orig.skip(orig.len() - 1).reverse());
            loop
                invariant
                    1 <= group@.len() <= orig.len(),
                    n == orig.len(),
                    vec@ == orig.take(orig.len() - group@.len()),
                    group@ == orig.skip(orig.len() - group@.len()).reverse(),
                    reference_time == orig[n - group@.len()].when,
                    forall|j: int| n - group@.len() <= j < n - 1 ==> #[trigger] close_in_time(orig[j + 1], orig[j], threshold),
                ensures
                    n - group@.len() > 0 ==> !close_in_time(orig[n - group@.len()], orig[n - group@.len() - 1], threshold),
                decreases vec@.len(),
            {
                if vec.len() == 0 {
                    break;
                }
                let k = vec.len();
                let earlier = vec[k - 1].when;
                let gap: u64 = if reference_time >= earlier { reference_time - earlier } else { 0 };
                proof {
                    assert(vec@[k - 1] == orig[n - group@.len() - 1]);
                }
                if gap > threshold {
                    break;
                }
                match vec.pop() {
                    Some(action) => {
                        reference_time = action.when;
                        group.push(action);
                        assert(group@ =~= orig.skip(orig.len() - group@.len()).reverse());
                    },
                    None => {
                        break;
                    },
                }
            }
            proof {
                lemma_recent_run(orig, n, group@.len() as int, threshold);
            }
        },
    }
    proof {
        let g = group@.len() as int;
        assert forall|i: int| 0 <= i < g - 1 implies #[trigger] close_in_time(group@[i], group@[i + 1], threshold) by {
            assert(group@[i] == orig[n - 1 - i] && group@[i + 1] == orig[n - 2 - i]);
            assert(close_in_time(orig[(n - 2 - i) + 1], orig[n - 2 - i], threshold));
        }
        if g > 0 && vec@.len() > 0 {
            assert(group@.last() == orig[n - g]);
            assert(vec@.last() == orig[n - g - 1]);
        }
    }
    group
}

} // verus!
