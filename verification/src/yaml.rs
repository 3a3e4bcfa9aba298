use std::collections::HashSet;
use std::hash::{DefaultHasher, Hash, Hasher};
use std::time::Instant;
use vstd::std_specs::hash::DefaultHasherAdditionalSpecFns;
use vstd::prelude::*;

use crate::lowercase::{lemma_lower_insert, lemma_lower_joined, lemma_lower_removal, lower_lines};
use crate::selection::{ordered, Selection};
use crate::content::Content;
use crate::matching::{find_all, matches_from};
use crate::position::{sat_add, ContentPosition, MatchPosition};
use crate::strings::{
    ascii_lower, char_count, char_is_whitespace, is_white_space, char_slice, chars_of, insert_char_at, push_char, remove_char_at,
    to_ascii_lowercase,
};
use crate::text::{
    insert_fits, joined, lines_after_insert, lines_after_removal, position_after_insert, position_before, removal_allowed,
    removed_lines, selection_bounds, view_lines, VecStringExt,
};
use crate::undo::{as_nanos, elapsed, instant_now, pop_recent_group, recent_run_len, Undo, UndoMode};

verus! {

broadcast use vstd::std_specs::hash::group_hash_axioms;

/// The abstract state of a YAML document being viewed or edited: its lines, the lines modified
/// since the last highlighting request, and the tracked longest line.
pub struct ContentModel {
    pub plain: Seq<Seq<char>>,
    pub modified: Set<usize>,
    pub max_size: usize,
    pub max_line_no: usize,
}

/// Index and length of the longest of the first `n` lines; the last one wins on ties, `(0, 0)`
/// when there are none.
pub open spec fn longest_upto(p: Seq<Seq<char>>, n: int) -> (usize, usize)
    decreases n,
{
    if n <= 0 {
        (0, 0)
    } else {
        let (i, m) = longest_upto(p, n - 1);
        if p[n - 1].len() >= m {
            ((n - 1) as usize, p[n - 1].len() as usize)
        } else {
            (i, m)
        }
    }
}

/// Index and length of the longest line (the last one on ties, `(0, 0)` when there are none).
pub open spec fn longest_line(p: Seq<Seq<char>>) -> (usize, usize) {
    longest_upto(p, p.len() as int)
}

/// Updates the tracked longest line `(ml, ms)` with the lines `lo..hi` that exist and are strictly longer.
pub open spec fn scan_longer(p: Seq<Seq<char>>, lo: int, hi: int, ml: usize, ms: usize) -> (usize, usize)
    decreases hi - lo,
{
    if hi <= lo {
        (ml, ms)
    } else {
        let (l2, s2) = scan_longer(p, lo, hi - 1, ml, ms);
        if hi - 1 < p.len() && p[hi - 1].len() > s2 {
            ((hi - 1) as usize, p[hi - 1].len() as usize)
        } else {
            (l2, s2)
        }
    }
}

/// Marks line `n` as modified when it exists.
pub open spec fn mark(m: ContentModel, n: int) -> ContentModel {
    if 0 <= n < m.plain.len() {
        ContentModel { modified: m.modified.insert(n as usize), ..m }
    } else {
        m
    }
}

/// Recalculates the tracked longest line after lines `start..=end` changed: a full recalculation
/// when the tracked line is in that range, otherwise only longer lines in that range are taken;
/// nothing happens when no line is marked as modified.
pub open spec fn recalc(m: ContentModel, start: int, end: int) -> ContentModel {
    if m.modified.is_empty() {
        m
    } else if start <= m.max_line_no <= end {
        let (ml, ms) = longest_line(m.plain);
        ContentModel { max_line_no: ml, max_size: ms, ..m }
    } else {
        let (ml, ms) = scan_longer(m.plain, start, end + 1, m.max_line_no, m.max_size);
        ContentModel { max_line_no: ml, max_size: ms, ..m }
    }
}

proof fn lemma_scan_past_end(p: Seq<Seq<char>>, lo: int, hi: int, ml: usize, ms: usize)
    requires
        hi >= p.len(),
    ensures
        scan_longer(p, lo, hi, ml, ms) == scan_longer(p, lo, if lo > p.len() { lo } else { p.len() as int }, ml, ms),
    decreases hi - lo,
{
    if hi > lo && hi > p.len() {
        lemma_scan_past_end(p, lo, hi - 1, ml, ms);
    }
}

/// Returns the index and characters count of the longest line (the last one on ties, `(0, 0)`
/// when there are no lines).
pub fn get_longest_line(plain: &[String]) -> (r: (usize, usize))
    ensures
        r == longest_line(view_lines(plain@)),
{
    let ghost p = view_lines(plain@);
    let mut best: (usize, usize) = (0, 0);
    let mut i: usize = 0;
    while i < plain.len()
        invariant
            i <= plain@.len(),
            p == view_lines(plain@),
            best == longest_upto(p, i as int),
        decreases plain@.len() - i,
    {
        let len = char_count(&plain[i]);
        if len >= best.1 {
            best = (i, len);
        }
        i = i + 1;
    }
    best
}


/// `m` with its lines replaced by `p`.
pub open spec fn with_plain(m: ContentModel, p: Seq<Seq<char>>) -> ContentModel {
    ContentModel { plain: p, ..m }
}

/// Inserts an empty line at `n` (appends it when `n` is past the end).
pub open spec fn model_add_empty_line(m: ContentModel, n: int) -> ContentModel {
    let p = if n < m.plain.len() { m.plain.insert(n, Seq::<char>::empty()) } else { m.plain.push(Seq::<char>::empty()) };
    recalc(mark(with_plain(m, p), n), n, n)
}

/// Joins line `n` with the next one.
pub open spec fn model_join(m: ContentModel, n: int) -> ContentModel {
    recalc(mark(mark(with_plain(m, joined(m.plain, n)), n), n + 1), n, n + 1)
}

/// `p` with line `y` split in two before character `x`.
pub open spec fn split_line(p: Seq<Seq<char>>, x: int, y: int) -> Seq<Seq<char>> {
    p.take(y) + seq![p[y].subrange(0, x), p[y].subrange(x, p[y].len() as int)] + p.skip(y + 1)
}

/// Splits line `y` in two before character `x`.
pub open spec fn model_split(m: ContentModel, x: int, y: int) -> ContentModel {
    recalc(mark(mark(with_plain(m, split_line(m.plain, x, y)), y), y + 1), y, y + 1)
}

/// Replaces line `y` by `line`, marking it as modified.
pub open spec fn model_set_line(m: ContentModel, y: int, line: Seq<char>) -> ContentModel {
    recalc(mark(with_plain(m, m.plain.update(y, line)), y), y, y)
}

/// Inserts a character at `pos`; a line break splits the line (a position past the end of the
/// line adds an empty line after it), nothing happens past the last line.
pub open spec fn model_insert_char(m: ContentModel, pos: ContentPosition, ch: char) -> ContentModel {
    let p = m.plain;
    let x = pos.x as int;
    let y = pos.y as int;
    if y < p.len() && x < p[y].len() {
        if ch == '\n' {
            if x == 0 { model_add_empty_line(m, y) } else { model_split(m, x, y) }
        } else {
            model_set_line(m, y, p[y].insert(x, ch))
        }
    } else if y < p.len() {
        if ch == '\n' { model_add_empty_line(m, y + 1) } else { model_set_line(m, y, p[y].push(ch)) }
    } else {
        m
    }
}

/// Removes the character at column `x` of line `y`.
pub open spec fn model_remove_ch(m: ContentModel, x: int, y: int) -> ContentModel {
    model_set_line(m, y, m.plain[y].remove(x))
}

/// Swaps two lines when both exist, marking both as modified.
pub open spec fn model_swap(m: ContentModel, a: int, b: int) -> ContentModel {
    let p = m.plain;
    let q = if a < p.len() && b < p.len() { p.update(a, p[b]).update(b, p[a]) } else { p };
    recalc(mark(mark(with_plain(m, q), a), b), a, b)
}


/// Removes a character at `pos` (the one before it for a backspace); at a line start a backspace
/// joins the line with the previous one, past a line end a delete joins it with the next one.
/// Returns the new model, the new cursor position and the removal (its position and character) that
/// an undo entry records.
pub open spec fn model_remove_char(m: ContentModel, pos: ContentPosition, is_backspace: bool) -> (
    ContentModel,
    Option<ContentPosition>,
    Option<(ContentPosition, char)>,
) {
    let p = m.plain;
    let x = pos.x as int;
    let y = pos.y as int;
    if is_backspace && x == 0 {
        if 0 < y < p.len() {
            let np = ContentPosition { x: p[y - 1].len() as usize, y: (y - 1) as usize };
            (model_join(m, y - 1), Some(np), Some((np, '\n')))
        } else {
            (m, Some(pos), None)
        }
    } else if y < p.len() && x < p[y].len() {
        let t = if is_backspace { x - 1 } else { x };
        let np = ContentPosition { x: t as usize, y: pos.y };
        (model_remove_ch(m, t, y), Some(np), Some((np, p[y][t])))
    } else if y < p.len() {
        let t = if is_backspace { if x >= 1 { x - 1 } else { 0 } } else { x };
        if t < p[y].len() {
            let np = ContentPosition { x: t as usize, y: pos.y };
            (model_remove_ch(m, t, y), Some(np), Some((np, p[y][t])))
        } else if y + 1 < p.len() {
            let np = ContentPosition { x: p[y].len() as usize, y: pos.y };
            (model_join(m, y), Some(np), Some((np, '\n')))
        } else {
            (m, None, None)
        }
    } else {
        (m, None, None)
    }
}

/// Removes a range of text, marking the lines of both (unsorted) range ends as modified.
pub open spec fn model_remove_text(m: ContentModel, range: Selection) -> ContentModel {
    let (sl, el, s, e) = selection_bounds(m.plain, range);
    let p = lines_after_removal(m.plain, sl, el, s, e);
    recalc(mark(mark(with_plain(m, p), range.start.y as int), range.end.y as int), range.start.y as int, range.end.y as int)
}

/// The lines removed by `model_remove_text`.
pub open spec fn model_removed_text(m: ContentModel, range: Selection) -> Seq<Seq<char>> {
    let (sl, el, s, e) = selection_bounds(m.plain, range);
    removed_lines(m.plain, sl, el, s, e)
}

/// Inserts text, marking the insertion line and the line `text.len()` below it as modified.
pub open spec fn model_insert_text(m: ContentModel, pos: ContentPosition, text: Seq<Seq<char>>) -> ContentModel {
    let y = pos.y as int;
    let p = lines_after_insert(m.plain, y, pos.x as int, text);
    recalc(mark(mark(with_plain(m, p), y), y + text.len()), y, y + text.len())
}

/// The position right after text inserted by `model_insert_text`.
pub open spec fn inserted_end(m: ContentModel, pos: ContentPosition, text: Seq<Seq<char>>) -> ContentPosition {
    let (x, y) = position_after_insert(m.plain, pos.y as int, pos.x as int, text);
    ContentPosition { x: x as usize, y: y as usize }
}

/// The inputs on which inserting text is defined: the sizes involved fit in `usize`, and the line
/// before the end of text that ends with a line break exists.
pub open spec fn text_insert_allowed(m: ContentModel, position: ContentPosition, text: Seq<Seq<char>>) -> bool {
    let end = inserted_end(m, position, text);
    &&& insert_fits(m.plain, position.y as int, text)
    &&& position.y + text.len() <= usize::MAX
    &&& end.x == 0 && end.y > 0 ==> end.y - 1 < model_insert_text(m, position, text).plain.len()
}

/// `u` records the given change (any time stamp).
pub open spec fn records(
    u: Undo,
    mode: UndoMode,
    pos: ContentPosition,
    end: Option<ContentPosition>,
    ch: char,
    text: Option<Vec<String>>,
) -> bool {
    &&& u.mode == mode
    &&& u.pos == pos
    &&& u.end == end
    &&& u.ch == ch
    &&& u.text == text
}

/// What an edit records for undo, short of its time stamp: its kind, start, end, character and,
/// for a cut, the removed lines.
pub struct EntryShape {
    pub mode: UndoMode,
    pub pos: ContentPosition,
    pub end: Option<ContentPosition>,
    pub ch: char,
    pub text: Option<Seq<Seq<char>>>,
}

/// The entry `a` has the shape `e` (any time stamp).
pub open spec fn has_shape(a: Undo, e: EntryShape) -> bool {
    &&& a.mode == e.mode
    &&& a.pos == e.pos
    &&& a.end == e.end
    &&& a.ch == e.ch
    &&& match e.text {
        Some(t) => a.text is Some && view_lines(a.text->0@) == t,
        None => a.text is None,
    }
}

/// The entries `s` have the shapes `shapes`, one for one.
pub open spec fn shapes_match(s: Seq<Undo>, shapes: Seq<EntryShape>) -> bool {
    &&& s.len() == shapes.len()
    &&& forall|i: int| 0 <= i < s.len() ==> has_shape(#[trigger] s[i], shapes[i])
}

/// The history `(u2, r2)` (undo and redo stacks) is `(u, r)` with entries of the given shapes
/// pushed in order; the redo stack is emptied when `touched` (an edit was made, even one that
/// changed nothing) and kept otherwise.
pub open spec fn history_after(
    u: Seq<Undo>,
    r: Seq<Vec<Undo>>,
    u2: Seq<Undo>,
    r2: Seq<Vec<Undo>>,
    shapes: Seq<EntryShape>,
    touched: bool,
) -> bool {
    &&& u.len() <= u2.len()
    &&& u2.take(u.len() as int) == u
    &&& shapes_match(u2.skip(u.len() as int), shapes)
    &&& r2 == (if touched { Seq::<Vec<Undo>>::empty() } else { r })
}

/// Two histories in a row make one.
pub proof fn lemma_history_then(
    u: Seq<Undo>,
    r: Seq<Vec<Undo>>,
    u1: Seq<Undo>,
    r1: Seq<Vec<Undo>>,
    s1: Seq<EntryShape>,
    t1: bool,
    u2: Seq<Undo>,
    r2: Seq<Vec<Undo>>,
    s2: Seq<EntryShape>,
    t2: bool,
)
    requires
        history_after(u, r, u1, r1, s1, t1),
        history_after(u1, r1, u2, r2, s2, t2),
    ensures
        history_after(u, r, u2, r2, s1 + s2, t1 || t2),
{
    let n = u.len() as int;
    let n1 = u1.len() as int;
    assert(u2.take(n) =~= u1.take(n));
    let d = u2.skip(n);
    let d1 = u1.skip(n);
    let d2 = u2.skip(n1);
    assert forall|i: int| 0 <= i < d.len() implies has_shape(#[trigger] d[i], (s1 + s2)[i]) by {
        if i < s1.len() {
            assert(d[i] == u1[n + i]);
            assert(d1[i] == u1[n + i]);
        } else {
            assert(d[i] == d2[i - s1.len()]);
        }
    }
}

/// One entry pushed on the undo stack with the redo stack emptied.
pub proof fn lemma_history_push(u: Seq<Undo>, r: Seq<Vec<Undo>>, u2: Seq<Undo>, r2: Seq<Vec<Undo>>, e: EntryShape)
    requires
        u2.len() == u.len() + 1,
        u2.drop_last() == u,
        has_shape(u2.last(), e),
        r2 == Seq::<Vec<Undo>>::empty(),
    ensures
        history_after(u, r, u2, r2, seq![e], true),
{
    assert(u2.take(u.len() as int) =~= u2.drop_last());
    assert(u2.skip(u.len() as int)[0] == u2.last());
}

/// Nothing pushed and, unless `touched`, nothing changed.
pub proof fn lemma_history_none(u: Seq<Undo>, r: Seq<Vec<Undo>>, touched: bool)
    ensures
        history_after(u, r, u, if touched { Seq::<Vec<Undo>>::empty() } else { r }, Seq::empty(), touched),
{
    assert(u.take(u.len() as int) =~= u);
}


/// Number of leading spaces of `s`.
pub open spec fn leading_space_count(s: Seq<char>) -> nat
    decreases s.len(),
{
    if s.len() > 0 && s[0] == ' ' { 1 + leading_space_count(s.drop_first()) } else { 0 }
}

/// Match positions of `pat` in `line` (line number `y`), left to right.
pub open spec fn line_match_positions(line: Seq<char>, pat: Seq<char>, y: int) -> Seq<MatchPosition> {
    matches_from(line, pat, 0).map_values(|x: int| MatchPosition { x: x as usize, y: y as usize, length: pat.len() as usize })
}

/// All match positions of `pat` in the first `n` lines, line by line.
pub open spec fn matches_upto(lines: Seq<Seq<char>>, pat: Seq<char>, n: int) -> Seq<MatchPosition>
    decreases n,
{
    if n <= 0 {
        seq![]
    } else {
        matches_upto(lines, pat, n - 1) + line_match_positions(lines[n - 1], pat, n - 1)
    }
}

/// The first match of `pat` at or after line `y`.
pub open spec fn first_match_from(lines: Seq<Seq<char>>, pat: Seq<char>, y: int) -> Option<MatchPosition>
    decreases lines.len() - y,
{
    if y < 0 || y >= lines.len() {
        None
    } else if matches_from(lines[y], pat, 0).len() > 0 {
        Some(MatchPosition { x: matches_from(lines[y], pat, 0)[0] as usize, y: y as usize, length: pat.len() as usize })
    } else {
        first_match_from(lines, pat, y + 1)
    }
}

/// The characters of `line` from `from` to `to`, both clamped to the line.
pub open spec fn clamped_slice(line: Seq<char>, from: int, to: int) -> Seq<char> {
    let a = if from < line.len() { from } else { line.len() as int };
    let b = if to < line.len() { to } else { line.len() as int };
    if a <= b { line.subrange(a, b) } else { seq![] }
}

/// The text of line `i` within the selected range `sl:s ..= el:e` (a column past the end of the
/// line stands for its line break).
pub open spec fn selected_piece(line: Seq<char>, i: int, sl: int, el: int, s: int, e: int) -> Seq<char> {
    let eol: Seq<char> = if line.len() < e + 1 { seq!['\n'] } else { seq![] };
    if i == sl && i == el {
        clamped_slice(line, s, s + (if e + 1 >= s { e + 1 - s } else { 0 })) + eol
    } else if i == sl {
        clamped_slice(line, s, line.len() as int) + seq!['\n']
    } else if i == el {
        clamped_slice(line, 0, e + 1) + eol
    } else {
        line + seq!['\n']
    }
}

/// Concatenation of the selected pieces of lines `sl..i`.
pub open spec fn selected_text_upto(p: Seq<Seq<char>>, sl: int, el: int, s: int, e: int, i: int) -> Seq<char>
    decreases i - sl,
{
    if i <= sl {
        seq![]
    } else {
        selected_text_upto(p, sl, el, s, e, i - 1) + selected_piece(p[i - 1], i - 1, sl, el, s, e)
    }
}

/// The hash of the plain lines of `m` (a `DefaultHasher` fed with them).
pub open spec fn plain_hash(m: ContentModel) -> u64 {
    DefaultHasher::spec_finish(hash_writes(m.plain))
}

impl ContentModel {
    /// The matches that a search for `pattern` finds: its ASCII case-insensitive occurrences, line by
    /// line, left to right.
    pub open spec fn search_results(self, pattern: Seq<char>) -> Seq<MatchPosition> {
        matches_upto(lower_lines(self.plain), ascii_lower(pattern), self.plain.len() as int)
    }
}

/// Lines joined with line breaks.
pub open spec fn joined_text(p: Seq<Seq<char>>) -> Seq<char>
    decreases p.len(),
{
    if p.len() == 0 {
        seq![]
    } else if p.len() == 1 {
        p[0]
    } else {
        joined_text(p.drop_last()) + seq!['\n'] + p.last()
    }
}

/// The plain text of the content, or of a range of it.
pub open spec fn plain_text(p: Seq<Seq<char>>, range: Option<Selection>) -> Seq<char> {
    match range {
        None => joined_text(p),
        Some(r) => {
            let (start, end) = ordered(r.start, r.end);
            let last = if p.len() >= 1 { p.len() - 1 } else { 0 };
            let sl = if start.y < last { start.y as int } else { last };
            let el = if end.y < last { end.y as int } else { last };
            selected_text_upto(p, sl, el, start.x as int, end.x as int, el + 1)
        },
    }
}

/// The writes that hashing a vector of lines makes to a hasher.
pub uninterp spec fn hash_writes(lines: Seq<Seq<char>>) -> Seq<Seq<u8>>;

/// Feeds the lines to a `DefaultHasher` (calls `Hash::hash` for `Vec<String>`). Within one build of
/// the program the writes it makes depend on the lines alone (std does not promise the same bytes
/// on other platforms); they are named `hash_writes`, and what they are is not stated.
#[verifier::external_body]
fn hash_into(plain: &Vec<String>, hasher: &mut DefaultHasher)
    ensures
        final(hasher)@ == old(hasher)@ + hash_writes(view_lines(plain@)),
{
    plain.hash(hasher);
}


/// First column of the run of non-whitespace characters of `line` that ends at column `x`.
pub open spec fn word_start(line: Seq<char>, x: int) -> int
    decreases x,
{
    if x > 0 && x - 1 < line.len() && !is_white_space(line[x - 1]) { word_start(line, x - 1) } else { x }
}

/// Last column of the run of non-whitespace characters of `line` that starts at column `x`.
pub open spec fn word_end(line: Seq<char>, x: int) -> int
    decreases line.len() - x,
{
    if 0 <= x && x + 1 < line.len() && !is_white_space(line[x + 1]) { word_end(line, x + 1) } else { x }
}

/// Bounds of the run of non-whitespace characters around column `x` of line `y`, if the character
/// there is not whitespace.
pub open spec fn word_around(p: Seq<Seq<char>>, position: ContentPosition) -> Option<(usize, usize)> {
    let y = position.y as int;
    let x = position.x as int;
    if y < p.len() && x < p[y].len() && !is_white_space(p[y][x]) {
        Some((word_start(p[y], x) as usize, word_end(p[y], x) as usize))
    } else {
        None
    }
}

/// Swaps two entries of a vector of strings.
fn swap_entries(v: &mut Vec<String>, a: usize, b: usize)
    requires
        a < old(v).len(),
        b < old(v).len(),
    ensures
        final(v)@ == old(v)@.update(a as int, old(v)@[b as int]).update(b as int, old(v)@[a as int]),
{
    let first = v[a].clone();
    let second = v[b].clone();
    v.set(a, second);
    v.set(b, first);
}

/// The change an entry makes when it is replayed: its own change going forward (redo), the
/// opposite change going backward (undo).
pub open spec fn replay_mode(mode: UndoMode, forward: bool) -> UndoMode {
    if forward {
        mode
    } else {
        match mode {
            UndoMode::Insert => UndoMode::Remove,
            UndoMode::Remove => UndoMode::Insert,
            UndoMode::Cut => UndoMode::Paste,
            UndoMode::Paste => UndoMode::Cut,
            UndoMode::Swap => UndoMode::Swap,
        }
    }
}

/// The range that an entry covers (from its position to its end).
pub open spec fn entry_range(a: Undo) -> Selection {
    Selection { start: a.pos, end: a.end->0 }
}

/// The position right after a character inserted at `pos`.
pub open spec fn after_char(pos: ContentPosition, ch: char) -> ContentPosition {
    if ch == '\n' {
        ContentPosition { x: 0, y: sat_add(pos.y, 1) }
    } else {
        ContentPosition { x: sat_add(pos.x, 1), y: pos.y }
    }
}

/// The text stored in an entry can be put back at its position.
pub open spec fn text_insertable(m: ContentModel, a: Undo) -> bool {
    &&& a.end is Some
    &&& a.text is Some
    &&& insert_fits(m.plain, a.pos.y as int, view_lines(a.text->0@))
    &&& a.pos.y + a.text->0@.len() <= usize::MAX
    &&& a.end->0.x < usize::MAX
}

/// The range covered by an entry can be taken out.
pub open spec fn range_removable(m: ContentModel, a: Undo) -> bool {
    &&& a.end is Some
    &&& removal_allowed(m.plain, entry_range(a))
}

/// Replays one history entry on `m`: the new model, and the cursor position the entry yields
/// (`None` when it yields none). An entry whose range or text does not fit the content is skipped.
pub open spec fn replay(m: ContentModel, a: Undo, forward: bool) -> (ContentModel, Option<ContentPosition>) {
    match replay_mode(a.mode, forward) {
        UndoMode::Insert => (model_insert_char(m, a.pos, a.ch), Some(after_char(a.pos, a.ch))),
        UndoMode::Remove => (model_remove_char(m, a.pos, false).0, Some(a.pos)),
        UndoMode::Cut => if range_removable(m, a) {
            (model_remove_text(m, entry_range(a)), Some(a.pos))
        } else {
            (m, None)
        },
        UndoMode::Paste => if text_insertable(m, a) {
            (
                model_insert_text(m, a.pos, view_lines(a.text->0@)),
                Some(ContentPosition { x: (a.end->0.x + 1) as usize, y: a.end->0.y }),
            )
        } else {
            (m, None)
        },
        UndoMode::Swap => if a.end is Some {
            (model_swap(m, a.pos.y as int, a.end->0.y as int), Some(a.end->0))
        } else {
            (m, None)
        },
    }
}

/// `b` is entry `a` after it was replayed on `m`: a removal keeps the removed text, an insertion
/// hands its text over; everything else stays.
pub open spec fn replayed_entry(m: ContentModel, a: Undo, forward: bool, b: Undo) -> bool {
    &&& b.pos == a.pos
    &&& b.end == a.end
    &&& b.ch == a.ch
    &&& b.mode == a.mode
    &&& b.when == a.when
    &&& match replay_mode(a.mode, forward) {
        UndoMode::Cut => if range_removable(m, a) {
            b.text is Some && view_lines(b.text->0@) == model_removed_text(m, entry_range(a))
        } else {
            b.text == a.text
        },
        UndoMode::Paste => if text_insertable(m, a) { b.text is None } else { b.text == a.text },
        _ => b.text == a.text,
    }
}

/// The model after replaying the first `i` entries of `g`.
pub open spec fn replay_models(m: ContentModel, g: Seq<Undo>, forward: bool, i: int) -> ContentModel
    decreases i,
{
    if i <= 0 {
        m
    } else {
        replay(replay_models(m, g, forward, i - 1), g[i - 1], forward).0
    }
}

/// The cursor position yielded by the last of the first `i` entries of `g` that yields one.
pub open spec fn replay_position(m: ContentModel, g: Seq<Undo>, forward: bool, i: int) -> Option<ContentPosition>
    decreases i,
{
    if i <= 0 {
        None
    } else {
        match replay(replay_models(m, g, forward, i - 1), g[i - 1], forward).1 {
            Some(p) => Some(p),
            None => replay_position(m, g, forward, i - 1),
        }
    }
}

/// `h` holds the entries of `g` as they are after replaying them one after another from `m`.
pub open spec fn replayed_group(m: ContentModel, g: Seq<Undo>, forward: bool, h: Seq<Undo>) -> bool {
    &&& h.len() == g.len()
    &&& forall|j: int| 0 <= j < g.len() ==> #[trigger] replayed_entry(replay_models(m, g, forward, j), g[j], forward, h[j])
}

/// Edits made at most this many nanoseconds apart undo and redo together.
pub const UNDO_GROUP_NANOS: u64 = 300_000_000;

/// The entries of `v` in reverse order.
fn reversed(v: Vec<Undo>) -> (r: Vec<Undo>)
    ensures
        r@.len() == v@.len(),
        forall|j: int| 0 <= j < v@.len() ==> r@[j] == v@[v@.len() - 1 - j],
{
    let ghost g = v@;
    let mut v = v;
    let mut r: Vec<Undo> = Vec::new();
    while v.len() > 0
        invariant
            v@.len() + r@.len() == g.len(),
            forall|j: int| 0 <= j < v@.len() ==> v@[j] == g[j],
            forall|j: int| 0 <= j < r@.len() ==> r@[j] == g[g.len() - 1 - j],
        decreases v@.len(),
    {
        match v.pop() {
            Some(a) => r.push(a),
            None => {},
        }
    }
    r
}

/// Number of lines before and after the modified section to include in the re-highlighting process.
pub const HIGHLIGHT_CONTEXT_LINES_NO: usize = 800;

/// The lines to re-highlight after edits: `start..=end` is sent to the highlighter, `first..=last`
/// are the modified lines.
#[derive(Debug, Clone, Copy, PartialEq, Eq, Structural)]
pub struct HighlightWindow {
    pub start: usize,
    pub end: usize,
    pub first: usize,
    pub last: usize,
}

/// The smallest element of `s`.
pub open spec fn least(s: Set<usize>) -> usize {
    choose|x: usize| s.contains(x) && forall|y: usize| #[trigger] s.contains(y) ==> x <= y
}

/// The largest element of `s`.
pub open spec fn greatest(s: Set<usize>) -> usize {
    choose|x: usize| s.contains(x) && forall|y: usize| #[trigger] s.contains(y) ==> y <= x
}

/// The lines to re-highlight: the modified lines with `HIGHLIGHT_CONTEXT_LINES_NO` lines of context
/// on each side (held within the content); none when no line is modified.
pub open spec fn highlight_window(m: ContentModel) -> Option<HighlightWindow> {
    if m.modified.is_empty() {
        None
    } else {
        let first = least(m.modified);
        let last = greatest(m.modified);
        let after = sat_add(last, HIGHLIGHT_CONTEXT_LINES_NO);
        let bottom = if m.plain.len() >= 1 { (m.plain.len() - 1) as usize } else { 0usize };
        Some(HighlightWindow {
            start: if first >= HIGHLIGHT_CONTEXT_LINES_NO { (first - HIGHLIGHT_CONTEXT_LINES_NO) as usize } else { 0 },
            end: if after < bottom { after } else { bottom },
            first,
            last,
        })
    }
}

/// The lines `start..=end` of `plain`.
fn lines_between(plain: &Vec<String>, start: usize, end: usize) -> (r: Vec<String>)
    requires
        start <= end < plain@.len(),
    ensures
        view_lines(r@) == view_lines(plain@).subrange(start as int, end + 1),
{
    let n = plain.len();
    let mut lines: Vec<String> = Vec::new();
    let mut i = start;
    while i <= end
        invariant
            start <= i <= end + 1,
            end < n,
            n == plain@.len(),
            view_lines(lines@) == view_lines(plain@).subrange(start as int, i as int),
        decreases end + 1 - i,
    {
        let line = plain[i].clone();
        let ghost before = lines@;
        let ghost lv = line@;
        assert(lv == plain@[i as int]@);
        lines.push(line);
        assert(view_lines(lines@) =~= view_lines(before).push(lv));
        assert(view_lines(plain@).subrange(start as int, i + 1) =~= view_lines(plain@).subrange(start as int, i as int).push(lv));
        i = i + 1;
    }
    lines
}

/// Styled YAML content: its plain lines, their lower-case copies used by the search, and the
/// edit history.
pub struct YamlContent {
    pub plain: Vec<String>,
    pub lowercase: Vec<String>,
    max_size: usize,
    max_line_no: usize,
    is_editable: bool,
    modified: HashSet<usize>,
    undo: Vec<Undo>,
    redo: Vec<Vec<Undo>>,
    /// Start of the clock that times the edits.
    clock_start: Instant,
}

impl View for YamlContent {
    type V = ContentModel;

    closed spec fn view(&self) -> ContentModel {
        ContentModel {
            plain: view_lines(self.plain@),
            modified: self.modified@,
            max_size: self.max_size,
            max_line_no: self.max_line_no,
        }
    }
}

impl YamlContent {
    /// Creates new [`YamlContent`] instance from its plain lines.
    pub fn new(plain: Vec<String>, is_editable: bool) -> (r: Self)
        ensures
            r.wf(),
            r@.plain == view_lines(plain@),
            r@.modified == Set::<usize>::empty(),
            (r@.max_line_no, r@.max_size) == longest_line(view_lines(plain@)),
            r.editable() == is_editable,
            r.undo_stack() == Seq::<Undo>::empty(),
            r.redo_stack() == Seq::<Vec<Undo>>::empty(),
    {
        let (max_line_no, max_size) = get_longest_line(plain.as_slice());
        let mut lowercase: Vec<String> = Vec::new();
        let mut i: usize = 0;
        while i < plain.len()
            invariant
                i <= plain@.len(),
                lowercase@.len() == i,
                forall|j: int| 0 <= j < i ==> #[trigger] lowercase@[j]@ == ascii_lower(plain@[j]@),
            decreases plain@.len() - i,
        {
            lowercase.push(to_ascii_lowercase(plain[i].as_str()));
            i = i + 1;
        }
        Self {
            plain,
            lowercase,
            max_size,
            max_line_no,
            is_editable,
            modified: HashSet::new(),
            undo: Vec::new(),
            redo: Vec::new(),
            clock_start: instant_now(),
        }
    }

    /// Returns a hash calculated over the plain lines.
    pub fn hash(&self) -> (r: u64)
        ensures
            r == plain_hash(self@),
    {
        let mut hasher = DefaultHasher::new();
        hash_into(&self.plain, &mut hasher);
        assert(hasher@ =~= hash_writes(self@.plain));
        hasher.finish()
    }

    /// Returns `true` if content can be edited.
    pub fn is_editable(&self) -> (r: bool)
        ensures
            r == self.editable(),
    {
        self.is_editable
    }

    /// Returns text of the line under `line_no` index.
    pub fn line(&self, line_no: usize) -> (r: Option<&str>)
        ensures
            line_no < self@.plain.len() ==> r is Some && r->0@ == self@.plain[line_no as int],
            line_no >= self@.plain.len() ==> r is None,
    {
        if line_no < self.plain.len() {
            Some(self.plain[line_no].as_str())
        } else {
            None
        }
    }

    /// Returns the number of leading spaces in the line at the given `line_no`.
    pub fn leading_spaces(&self, line_no: usize) -> (r: Option<usize>)
        ensures
            line_no < self@.plain.len() ==> r == Some(leading_space_count(self@.plain[line_no as int]) as usize),
            line_no >= self@.plain.len() ==> r is None,
    {
        if line_no >= self.plain.len() {
            return None;
        }
        let chars = chars_of(self.plain[line_no].as_str());
        let mut count: usize = 0;
        assert(chars@.skip(0) =~= chars@);
        while count < chars.len() && chars[count] == ' '
            invariant
                count <= chars@.len(),
                forall|k: int| 0 <= k < count ==> chars@[k] == ' ',
                leading_space_count(chars@) == count + leading_space_count(chars@.skip(count as int)),
            decreases chars@.len() - count,
        {
            assert(chars@.skip(count as int).drop_first() =~= chars@.skip(count + 1));
            count = count + 1;
        }
        assert(leading_space_count(chars@.skip(count as int)) == 0);
        Some(count)
    }

    /// Converts the content to a plain `String` representation, optionally restricting the range of
    /// the content to be converted.
    pub fn to_plain_text(&self, range: Option<Selection>) -> (r: String)
        requires
            range is Some ==> self@.plain.len() > 0 && ordered(range->0.start, range->0.end).1.x < usize::MAX,
        ensures
            r@ == plain_text(self@.plain, range),
    {
        let ghost p = self@.plain;
        match range {
            None => {
                let mut result = String::new();
                let mut i: usize = 0;
                while i < self.plain.len()
                    invariant
                        i <= self.plain@.len(),
                        p == view_lines(self.plain@),
                        result@ == joined_text(p.take(i as int)),
                    decreases self.plain@.len() - i,
                {
                    if i > 0 {
                        push_char(&mut result, '\n');
                    }
                    result = crate::strings::concat(&result, &self.plain[i]);
                    proof {
                        let t = p.take(i + 1);
                        assert(t.drop_last() =~= p.take(i as int));
                        if i == 0 {
                            assert(t.len() == 1);
                        }
                    }
                    i = i + 1;
                }
                assert(p.take(p.len() as int) =~= p);
                result
            },
            Some(r) => {
                let (start, end) = r.sorted();
                let n = self.plain.len();
                let last = n - 1;
                let start_line = if start.y < last { start.y } else { last };
                let end_line = if end.y < last { end.y } else { last };
                let mut result = String::new();
                let mut i = start_line;
                while i <= end_line
                    invariant
                        start_line <= i <= end_line + 1,
                        end_line < self.plain@.len(),
                        n == self.plain@.len(),
                        end.x < usize::MAX,
                        p == view_lines(self.plain@),
                        result@ == selected_text_upto(p, start_line as int, end_line as int, start.x as int, end.x as int, i as int),
                    decreases end_line + 1 - i,
                {
                    let line = &self.plain[i];
                    let len = char_count(line);
                    let piece = if i == start_line && i == end_line {
                        let count = if end.x + 1 >= start.x { end.x + 1 - start.x } else { 0 };
                        let a = if start.x < len { start.x } else { len };
                        let b = if count <= len - a { a + count } else { len };
                        let mut t = char_slice(line, a, b);
                        if len < end.x + 1 {
                            push_char(&mut t, '\n');
                        }
                        t
                    } else if i == start_line {
                        let a = if start.x < len { start.x } else { len };
                        let mut t = char_slice(line, a, len);
                        push_char(&mut t, '\n');
                        t
                    } else if i == end_line {
                        let b = if end.x + 1 < len { end.x + 1 } else { len };
                        let mut t = char_slice(line, 0, b);
                        if len < end.x + 1 {
                            push_char(&mut t, '\n');
                        }
                        t
                    } else {
                        let mut t = line.clone();
                        push_char(&mut t, '\n');
                        t
                    };
                    assert(piece@ =~= selected_piece(p[i as int], i as int, start_line as int, end_line as int, start.x as int, end.x as int));
                    result = crate::strings::concat(&result, &piece);
                    i = i + 1;
                }
                result
            },
        }
    }

    /// Searches content for the specified pattern (ASCII case-insensitive) and returns the first match.
    pub fn search_first(&self, pattern: &str) -> (r: Option<MatchPosition>)
        requires
            self.wf(),
        ensures
            r == first_match_from(lower_lines(self@.plain), ascii_lower(pattern@), 0),
    {
        let lower = to_ascii_lowercase(pattern);
        let pat = chars_of(lower.as_str());
        let plen = pat.len();
        let ghost lw = lower_lines(self@.plain);
        proof {
            self.lemma_wf_view();
        }
        let mut y: usize = 0;
        while y < self.lowercase.len()
            invariant
                y <= self.lowercase@.len(),
                lw == view_lines(self.lowercase@),
                lw == lower_lines(self@.plain),
                pat@ == ascii_lower(pattern@),
                plen == pat@.len(),
                first_match_from(lw, pat@, 0) == first_match_from(lw, pat@, y as int),
            decreases self.lowercase@.len() - y,
        {
            let line = chars_of(self.lowercase[y].as_str());
            let found = find_all(&line, &pat);
            assert(lw[y as int] == line@);
            if found.len() > 0 {
                assert(found@.map_values(|x: usize| x as int)[0] == found@[0] as int);
                assert(matches_from(line@, pat@, 0)[0] == found@[0] as int);
                assert(lw.len() == self.lowercase@.len());
                assert(first_match_from(lw, pat@, y as int) == Some(MatchPosition { x: found@[0], y, length: plen }));
                let m = MatchPosition::new(found[0], y, plen);
                assert(m == MatchPosition { x: found@[0], y, length: plen });
                return Some(m);
            }
            assert(found@.map_values(|x: usize| x as int).len() == 0);
            y = y + 1;
        }
        None
    }

    /// Searches content for the specified pattern (ASCII case-insensitive): all non-overlapping
    /// matches, line by line, left to right.
    pub fn search(&self, pattern: &str) -> (r: Vec<MatchPosition>)
        requires
            self.wf(),
        ensures
            r@ == self@.search_results(pattern@),
    {
        let lower = to_ascii_lowercase(pattern);
        let pat = chars_of(lower.as_str());
        let plen = pat.len();
        let ghost lw = lower_lines(self@.plain);
        proof {
            self.lemma_wf_view();
        }
        let mut matches: Vec<MatchPosition> = Vec::new();
        let mut y: usize = 0;
        while y < self.lowercase.len()
            invariant
                y <= self.lowercase@.len(),
                lw == view_lines(self.lowercase@),
                lw == lower_lines(self@.plain),
                pat@ == ascii_lower(pattern@),
                plen == pat@.len(),
                matches@ == matches_upto(lw, pat@, y as int),
            decreases self.lowercase@.len() - y,
        {
            let line = chars_of(self.lowercase[y].as_str());
            let found = find_all(&line, &pat);
            let ghost before = matches@;
            let mut k: usize = 0;
            while k < found.len()
                invariant
                    k <= found@.len(),
                    matches@ == before + line_match_positions(line@, pat@, y as int).take(k as int),
                    found@.map_values(|x: usize| x as int) == matches_from(line@, pat@, 0),
                    plen == pat@.len(),
                decreases found@.len() - k,
            {
                matches.push(MatchPosition::new(found[k], y, plen));
                assert(found@.map_values(|x: usize| x as int)[k as int] == found@[k as int] as int);
                assert(line_match_positions(line@, pat@, y as int).take(k + 1) =~= line_match_positions(line@, pat@, y as int).take(k as int).push(MatchPosition { x: found@[k as int], y, length: plen }));
                k = k + 1;
            }
            assert(line_match_positions(line@, pat@, y as int).take(k as int) =~= line_match_positions(line@, pat@, y as int));
            assert(lw[y as int] == line@);
            y = y + 1;
        }
        matches
    }

    /// Inserts specified character to the content at a position `x:y`, recording it for undo.
    pub fn insert_char(&mut self, position: ContentPosition, ch: char)
        requires
            old(self).wf(),
        ensures
            final(self).wf(),
            final(self)@ == model_insert_char(old(self)@, position, ch),
            final(self).redo_stack() == Seq::<Vec<Undo>>::empty(),
            final(self).undo_stack().drop_last() == old(self).undo_stack(),
            final(self).undo_stack().len() == old(self).undo_stack().len() + 1,
            records(final(self).undo_stack().last(), UndoMode::Insert, position, None, ch, None),
            final(self).editable() == old(self).editable(),
    {
        self.redo.clear();
        self.undo.push(Undo::insert(position, ch, self.now()));
        assert(self.undo@.drop_last() =~= old(self).undo@);
        self.insert_char_internal(position, ch);
    }

    /// Inserts specified text at a position `x:y` and returns the position right after it,
    /// recording the inserted range for undo.
    pub fn insert_text(&mut self, position: ContentPosition, text: Vec<String>) -> (r: ContentPosition)
        requires
            old(self).wf(),
            text_insert_allowed(old(self)@, position, view_lines(text@)),
        ensures
            final(self).wf(),
            final(self)@ == model_insert_text(old(self)@, position, view_lines(text@)),
            r == inserted_end(old(self)@, position, view_lines(text@)),
            final(self).redo_stack() == Seq::<Vec<Undo>>::empty(),
            final(self).undo_stack().drop_last() == old(self).undo_stack(),
            final(self).undo_stack().len() == old(self).undo_stack().len() + 1,
            ({
                let (lx, ly) = position_before(final(self)@.plain, (r.x as int, r.y as int));
                let left = ContentPosition { x: lx as usize, y: ly as usize };
                records(final(self).undo_stack().last(), UndoMode::Paste, ordered(position, left).0, Some(ordered(position, left).1), ' ', None)
            }),
            final(self).editable() == old(self).editable(),
    {
        self.redo.clear();
        let end = self.insert_text_internal(position, text);
        let left = self.move_position_left(end);
        self.undo.push(Undo::paste(&Selection::new(position, left), self.now()));
        assert(self.undo@.drop_last() =~= old(self).undo@);
        end
    }

    /// Deletes character at a position `x:y` (the one before it for a backspace), recording it for
    /// undo; returns the new position.
    pub fn remove_char(&mut self, position: ContentPosition, is_backspace: bool) -> (r: Option<ContentPosition>)
        requires
            old(self).wf(),
        ensures
            final(self).wf(),
            final(self)@ == model_remove_char(old(self)@, position, is_backspace).0,
            r == model_remove_char(old(self)@, position, is_backspace).1,
            final(self).redo_stack() == Seq::<Vec<Undo>>::empty(),
            match model_remove_char(old(self)@, position, is_backspace).2 {
                Some((np, ch)) => {
                    &&& final(self).undo_stack().len() == old(self).undo_stack().len() + 1
                    &&& final(self).undo_stack().drop_last() == old(self).undo_stack()
                    &&& records(final(self).undo_stack().last(), UndoMode::Remove, np, None, ch, None)
                },
                None => final(self).undo_stack() == old(self).undo_stack(),
            },
            final(self).editable() == old(self).editable(),
    {
        self.redo.clear();
        self.remove_char_internal(position, is_backspace, true)
    }

    /// Removes the specified `range` from the content, recording the removed text for undo.
    pub fn remove_text(&mut self, range: Selection)
        requires
            old(self).wf(),
            removal_allowed(old(self)@.plain, range),
        ensures
            final(self).wf(),
            final(self)@ == model_remove_text(old(self)@, range),
            final(self).redo_stack() == Seq::<Vec<Undo>>::empty(),
            final(self).undo_stack().drop_last() == old(self).undo_stack(),
            final(self).undo_stack().len() == old(self).undo_stack().len() + 1,
            ({
                let u = final(self).undo_stack().last();
                &&& u.mode == UndoMode::Cut
                &&& u.pos == ordered(range.start, range.end).0
                &&& u.end == Some(ordered(range.start, range.end).1)
                &&& u.ch == ' '
                &&& u.text is Some
                &&& view_lines(u.text->0@) == model_removed_text(old(self)@, range)
            }),
            final(self).editable() == old(self).editable(),
    {
        let removed = self.remove_text_internal(&range);
        self.redo.clear();
        self.undo.push(Undo::cut(&range, removed, self.now()));
        assert(self.undo@.drop_last() =~= old(self).undo@);
    }

    /// Swaps two lines in the content, recording it for undo.
    pub fn swap_lines(&mut self, first_line: usize, second_line: usize)
        requires
            old(self).wf(),
        ensures
            final(self).wf(),
            final(self)@ == model_swap(old(self)@, first_line as int, second_line as int),
            final(self).redo_stack() == Seq::<Vec<Undo>>::empty(),
            final(self).undo_stack().drop_last() == old(self).undo_stack(),
            final(self).undo_stack().len() == old(self).undo_stack().len() + 1,
            records(
                final(self).undo_stack().last(),
                UndoMode::Swap,
                ContentPosition { x: 0, y: first_line },
                Some(ContentPosition { x: 0, y: second_line }),
                ' ',
                None,
            ),
            final(self).editable() == old(self).editable(),
    {
        self.swap_lines_internal(first_line, second_line);
        self.redo.clear();
        self.undo.push(Undo::swap(first_line, second_line, self.now()));
        assert(self.undo@.drop_last() =~= old(self).undo@);
    }

    /// What undoing gives: the content model afterwards and the cursor position it yields. The
    /// most recent run of edits made at most [`UNDO_GROUP_NANOS`] apart is reverted, newest first;
    /// nothing changes when there is no edit to undo.
    pub open spec fn undo_outcome(&self) -> (ContentModel, Option<ContentPosition>) {
        let u = self.undo_stack();
        let k = recent_run_len(u, u.len() as int, UNDO_GROUP_NANOS) as int;
        let g = u.skip(u.len() - k).reverse();
        if k >= 1 { (replay_models(self@, g, false, k), replay_position(self@, g, false, k)) } else { (self@, None) }
    }

    /// What redoing gives: the content model afterwards and the cursor position it yields. The
    /// most recently undone group is applied again, oldest change first; nothing changes when no
    /// group was undone.
    pub open spec fn redo_outcome(&self) -> (ContentModel, Option<ContentPosition>) {
        let rs = self.redo_stack();
        if rs.len() == 0 {
            (self@, None)
        } else {
            let g = rs.last()@.reverse();
            (replay_models(self@, g, true, g.len() as int), replay_position(self@, g, true, g.len() as int))
        }
    }

    /// How undoing changes the history of `self` into `(u2, r2)` (undo and redo stacks): the most
    /// recent run of edits leaves the undo stack and, replayed backwards on the content, goes on
    /// the redo stack as one group; nothing changes when there is no edit to undo.
    pub open spec fn undo_history(&self, u2: Seq<Undo>, r2: Seq<Vec<Undo>>) -> bool {
        let u = self.undo_stack();
        let r = self.redo_stack();
        let k = recent_run_len(u, u.len() as int, UNDO_GROUP_NANOS) as int;
        let g = u.skip(u.len() - k).reverse();
        &&& u2 == u.take(u.len() - k)
        &&& k >= 1 ==> {
            &&& r2.drop_last() == r
            &&& r2.len() == r.len() + 1
            &&& replayed_group(self@, g, false, r2.last()@)
        }
        &&& k == 0 ==> r2 == r
    }

    /// How redoing changes the history of `self` into `(u2, r2)`: the most recently undone group
    /// leaves the redo stack and, replayed forwards on the content, goes back on the undo stack;
    /// nothing changes when no group was undone.
    pub open spec fn redo_history(&self, u2: Seq<Undo>, r2: Seq<Vec<Undo>>) -> bool {
        let u = self.undo_stack();
        let r = self.redo_stack();
        &&& r.len() == 0 ==> u2 == u && r2 == r
        &&& r.len() > 0 ==> {
            let g = r.last()@.reverse();
            &&& r2 == r.drop_last()
            &&& u.len() <= u2.len()
            &&& u2.take(u.len() as int) == u
            &&& replayed_group(self@, g, true, u2.skip(u.len() as int))
        }
    }

    /// Reverts the most recent group of changes (those made within 300 ms of each other) and
    /// returns the cursor position after them; the reverted group goes to the redo stack.
    #[verifier::rlimit(40)]
    pub fn undo(&mut self) -> (r: Option<ContentPosition>)
        requires
            old(self).wf(),
        ensures
            final(self).wf(),
            final(self).editable() == old(self).editable(),
            old(self).undo_stack().len() - final(self).undo_stack().len() == recent_run_len(
                old(self).undo_stack(),
                old(self).undo_stack().len() as int,
                UNDO_GROUP_NANOS,
            ),
            (final(self)@, r) == old(self).undo_outcome(),
            old(self).undo_history(final(self).undo_stack(), final(self).redo_stack()),
            ({
                let u = old(self).undo_stack();
                let k = u.len() - final(self).undo_stack().len();
                let g = u.skip(u.len() - k).reverse();
                &&& 0 <= k <= u.len()
                &&& final(self).undo_stack() == u.take(u.len() - k)
                &&& (u.len() > 0 <==> k >= 1)
                &&& k >= 1 ==> {
                    &&& final(self)@ == replay_models(old(self)@, g, false, k)
                    &&& r == replay_position(old(self)@, g, false, k)
                    &&& final(self).redo_stack().drop_last() == old(self).redo_stack()
                    &&& final(self).redo_stack().len() == old(self).redo_stack().len() + 1
                    &&& replayed_group(old(self)@, g, false, final(self).redo_stack().last()@)
                }
                &&& k == 0 ==> {
                    &&& r is None
                    &&& final(self)@ == old(self)@
                    &&& final(self).redo_stack() == old(self).redo_stack()
                }
            }),
    {
        let group = pop_recent_group(&mut self.undo, UNDO_GROUP_NANOS);
        let ghost g = group@;
        let ghost k = recent_run_len(old(self).undo@, old(self).undo@.len() as int, UNDO_GROUP_NANOS);
        assert(old(self).undo@.len() - self.undo@.len() == k);
        if group.len() == 0 {
            return None;
        }
        let pending = reversed(group);
        let ghost popped = self.undo@;
        let (done, result) = self.replay_all(pending, Ghost(g), false);
        assert(self.undo@ == popped);
        self.redo.push(done);
        assert(self.redo@.drop_last() =~= old(self).redo@);
        result
    }

    /// Re-applies the most recently undone group of changes and returns the cursor position after
    /// it; the group goes back to the undo stack.
    pub fn redo(&mut self) -> (r: Option<ContentPosition>)
        requires
            old(self).wf(),
        ensures
            final(self).wf(),
            final(self).editable() == old(self).editable(),
            (final(self)@, r) == old(self).redo_outcome(),
            old(self).redo_history(final(self).undo_stack(), final(self).redo_stack()),
            old(self).redo_stack().len() == 0 ==> {
                &&& r is None
                &&& final(self)@ == old(self)@
                &&& final(self).undo_stack() == old(self).undo_stack()
                &&& final(self).redo_stack() == old(self).redo_stack()
            },
            old(self).redo_stack().len() > 0 ==> ({
                let g = old(self).redo_stack().last()@.reverse();
                let u = old(self).undo_stack();
                &&& final(self).redo_stack() == old(self).redo_stack().drop_last()
                &&& final(self)@ == replay_models(old(self)@, g, true, g.len() as int)
                &&& r == replay_position(old(self)@, g, true, g.len() as int)
                &&& final(self).undo_stack().take(u.len() as int) == u
                &&& replayed_group(old(self)@, g, true, final(self).undo_stack().skip(u.len() as int))
            }),
    {
        let group = match self.redo.pop() {
            Some(group) => group,
            None => {
                return None;
            },
        };
        let ghost g = group@.reverse();
        assert(forall|j: int| 0 <= j < g.len() ==> group@[j] == #[trigger] g[g.len() - 1 - j]);
        let (mut done, result) = self.replay_all(group, Ghost(g), true);
        let ghost u = self.undo@;
        self.undo.append(&mut done);
        assert(self.undo@.take(u.len() as int) =~= u);
        result
    }

    /// Replays the entries of `pending` (which holds `g` in reverse order, so the first entry of `g`
    /// is replayed first) and returns them as they are afterwards, with the last cursor position
    /// yielded.
    fn replay_all(&mut self, pending: Vec<Undo>, Ghost(g): Ghost<Seq<Undo>>, forward: bool) -> (r: (Vec<Undo>, Option<ContentPosition>))
        requires
            old(self).wf(),
            pending@.len() == g.len(),
            forall|j: int| 0 <= j < g.len() ==> pending@[j] == g[g.len() - 1 - j],
        ensures
            final(self).wf(),
            final(self)@ == replay_models(old(self)@, g, forward, g.len() as int),
            r.1 == replay_position(old(self)@, g, forward, g.len() as int),
            replayed_group(old(self)@, g, forward, r.0@),
            final(self).same_history(old(self)),
    {
        let ghost m0 = self@;
        let mut pending = pending;
        let mut done: Vec<Undo> = Vec::new();
        let mut result: Option<ContentPosition> = None;
        while pending.len() > 0
            invariant
                self.wf(),
                done@.len() + pending@.len() == g.len(),
                forall|j: int| 0 <= j < pending@.len() ==> pending@[j] == g[g.len() - 1 - j],
                self@ == replay_models(m0, g, forward, done@.len() as int),
                result == replay_position(m0, g, forward, done@.len() as int),
                forall|j: int| 0 <= j < done@.len() ==> #[trigger] replayed_entry(replay_models(m0, g, forward, j), g[j], forward, done@[j]),
                self.same_history(old(self)),
            decreases pending@.len(),
        {
            let ghost i = done@.len() as int;
            match pending.pop() {
                Some(a) => {
                    assert(a == g[i]);
                    let mut a = a;
                    let p = self.apply_entry(&mut a, forward);
                    if p.is_some() {
                        result = p;
                    }
                    done.push(a);
                },
                None => {},
            }
        }
        (done, result)
    }

    /// Replays one history entry (its opposite change when going backward) and returns the cursor
    /// position it yields.
    fn apply_entry(&mut self, action: &mut Undo, forward: bool) -> (r: Option<ContentPosition>)
        requires
            old(self).wf(),
        ensures
            final(self).wf(),
            final(self)@ == replay(old(self)@, *old(action), forward).0,
            r == replay(old(self)@, *old(action), forward).1,
            replayed_entry(old(self)@, *old(action), forward, *final(action)),
            final(self).same_history(old(self)),
    {
        let mode = match (action.mode, forward) {
            (UndoMode::Insert, false) => UndoMode::Remove,
            (UndoMode::Remove, false) => UndoMode::Insert,
            (UndoMode::Cut, false) => UndoMode::Paste,
            (UndoMode::Paste, false) => UndoMode::Cut,
            (m, _) => m,
        };
        match mode {
            UndoMode::Insert => {
                self.insert_char_internal(action.pos, action.ch);
                if action.ch == '\n' {
                    Some(ContentPosition::new(0, action.pos.y.saturating_add(1)))
                } else {
                    Some(ContentPosition::new(action.pos.x.saturating_add(1), action.pos.y))
                }
            },
            UndoMode::Remove => {
                self.remove_char_internal(action.pos, false, false);
                Some(action.pos)
            },
            UndoMode::Cut => {
                match action.end {
                    Some(end) => {
                        let range = Selection::new(action.pos, end);
                        if self.can_remove_text(&range) {
                            action.text = Some(self.remove_text_internal(&range));
                            Some(action.pos)
                        } else {
                            None
                        }
                    },
                    None => None,
                }
            },
            UndoMode::Paste => {
                match action.end {
                    Some(end) => {
                        let fits = match &action.text {
                            Some(text) => end.x < usize::MAX && self.can_insert_text(action.pos, text),
                            None => false,
                        };
                        if fits {
                            match action.text.take() {
                                Some(text) => {
                                    self.insert_text_internal(action.pos, text);
                                    Some(ContentPosition { x: end.x + 1, y: end.y })
                                },
                                None => None,
                            }
                        } else {
                            None
                        }
                    },
                    None => None,
                }
            },
            UndoMode::Swap => {
                match action.end {
                    Some(end) => {
                        self.swap_lines_internal(action.pos.y, end.y);
                        Some(end)
                    },
                    None => None,
                }
            },
        }
    }

    /// Whether `text` can be inserted at `position` (the sizes involved fit in `usize`).
    fn can_insert_text(&self, position: ContentPosition, text: &Vec<String>) -> (r: bool)
        ensures
            r == (insert_fits(self@.plain, position.y as int, view_lines(text@)) && position.y + text@.len() <= usize::MAX),
    {
        let n = self.plain.len();
        if text.len() > usize::MAX - n || position.y > usize::MAX - text.len() {
            return false;
        }
        if position.y < n && text.len() > 0 {
            let a = char_count(&self.plain[position.y]);
            let b = char_count(&text[0]);
            a <= usize::MAX - b
        } else {
            true
        }
    }

    /// Whether `range` can be removed from the content.
    fn can_remove_text(&self, range: &Selection) -> (r: bool)
        ensures
            r == removal_allowed(self@.plain, *range),
    {
        let n = self.plain.len();
        if n == 0 {
            return false;
        }
        let (start, end) = range.sorted();
        if end.x == usize::MAX {
            return false;
        }
        let sl = if start.y < n - 1 { start.y } else { n - 1 };
        let el = if end.y < n - 1 { end.y } else { n - 1 };
        if sl != el {
            return true;
        }
        let len = char_count(&self.plain[sl]);
        !(start.x < len && end.x + 1 < len && start.x > end.x + 1)
    }

    /// Returns the first and last modified lines, if any line is modified.
    fn modified_bounds(&self) -> (r: Option<(usize, usize)>)
        ensures
            r is None ==> self@.modified.is_empty(),
            r matches Some((first, last)) ==> {
                &&& self@.modified.contains(first)
                &&& self@.modified.contains(last)
                &&& forall|line: usize| #[trigger] self@.modified.contains(line) ==> first <= line <= last
            },
    {
        let mut bounds: Option<(usize, usize)> = None;
        let ghost set = self@.modified;
        for line in it: self.modified.iter()
            invariant
                set == self@.modified,
                it.seq().unref().to_set() == set,
                bounds is None ==> it.index() == 0,
                bounds matches Some((first, last)) ==> {
                    &&& set.contains(first)
                    &&& set.contains(last)
                    &&& forall|i: int| 0 <= i < it.index() ==> first <= *#[trigger] it.seq()[i] <= last
                },
        {
            let line = *line;
            bounds = match bounds {
                None => Some((line, line)),
                Some((first, last)) => Some((if line < first { line } else { first }, if line > last { line } else { last })),
            };
        }
        bounds
    }

    /// Returns the lines to re-highlight after edits, if any line is modified.
    pub fn pending_highlight(&self) -> (r: Option<HighlightWindow>)
        ensures
            r == highlight_window(self@),
    {
        match self.modified_bounds() {
            None => None,
            Some((first, last)) => {
                proof {
                    let set = self@.modified;
                    assert(set.contains(first) && forall|y: usize| #[trigger] set.contains(y) ==> first <= y);
                    let a = least(set);
                    assert(set.contains(a) && forall|y: usize| #[trigger] set.contains(y) ==> a <= y);
                    assert(a <= first && first <= a);
                    assert(set.contains(last) && forall|y: usize| #[trigger] set.contains(y) ==> y <= last);
                    let b = greatest(set);
                    assert(set.contains(b) && forall|y: usize| #[trigger] set.contains(y) ==> y <= b);
                    assert(b <= last && last <= b);
                }
                let n = self.plain.len();
                let after = last.saturating_add(HIGHLIGHT_CONTEXT_LINES_NO);
                let bottom = n.saturating_sub(1);
                Some(HighlightWindow {
                    start: first.saturating_sub(HIGHLIGHT_CONTEXT_LINES_NO),
                    end: if after < bottom { after } else { bottom },
                    first,
                    last,
                })
            },
        }
    }

    /// Takes the lines to re-highlight after edits (with the window they come from), and forgets
    /// the modifications.
    pub fn take_highlight_request(&mut self) -> (r: Option<(HighlightWindow, Vec<String>)>)
        requires
            old(self).wf(),
            highlight_window(old(self)@) matches Some(w) ==> w.start <= w.end < old(self)@.plain.len(),
        ensures
            final(self).wf(),
            final(self).same_history(old(self)),
            match r {
                None => highlight_window(old(self)@) is None && final(self)@ == old(self)@,
                Some((w, lines)) => {
                    &&& highlight_window(old(self)@) == Some(w)
                    &&& view_lines(lines@) == old(self)@.plain.subrange(w.start as int, w.end + 1)
                    &&& final(self)@ == (ContentModel { modified: Set::<usize>::empty(), ..old(self)@ })
                },
            },
    {
        match self.pending_highlight() {
            None => None,
            Some(w) => {
                let lines = lines_between(&self.plain, w.start, w.end);
                self.modified.clear();
                assert(self@ == ContentModel { modified: Set::<usize>::empty(), ..old(self)@ });
                Some((w, lines))
            },
        }
    }

    /// Marks lines `first..=last` as modified again, when their highlighting could not be applied.
    pub fn restore_modified(&mut self, first: usize, last: usize)
        requires
            old(self).wf(),
        ensures
            final(self).wf(),
            final(self).same_history(old(self)),
            final(self)@ == (ContentModel {
                modified: old(self)@.modified.union(Set::new(|line: usize| first <= line <= last)),
                ..old(self)@
            }),
    {
        if first > last {
            assert(old(self)@.modified.union(Set::new(|line: usize| first <= line <= last)) =~= old(self)@.modified);
            return;
        }
        let mut line = first;
        assert(old(self)@.modified.union(Set::new(|l: usize| first <= l < first)) =~= old(self)@.modified);
        while line < last
            invariant
                first <= line <= last,
                self.wf(),
                self.same_history(old(self)),
                self@ == (ContentModel { modified: old(self)@.modified.union(Set::new(|l: usize| first <= l < line)), ..old(self)@ }),
            decreases last - line,
        {
            self.modified.insert(line);
            assert(old(self)@.modified.union(Set::new(|l: usize| first <= l < line + 1)) =~= old(self)@.modified.union(
                Set::new(|l: usize| first <= l < line),
            ).insert(line));
            line = line + 1;
        }
        self.modified.insert(last);
        assert(old(self)@.modified.union(Set::new(|l: usize| first <= l <= last)) =~= old(self)@.modified.union(
            Set::new(|l: usize| first <= l < last),
        ).insert(last));
    }

    /// The lower-case copies are the ASCII lower-case form of the plain lines.
    pub closed spec fn wf(&self) -> bool {
        &&& self.lowercase@.len() == self.plain@.len()
        &&& forall|i: int| 0 <= i < self.plain@.len() ==> #[trigger] self.lowercase@[i]@ == ascii_lower(self.plain@[i]@)
    }

    proof fn lemma_wf_view(&self)
        requires
            self.wf(),
        ensures
            view_lines(self.lowercase@) == lower_lines(view_lines(self.plain@)),
    {
        assert(view_lines(self.lowercase@) =~= lower_lines(view_lines(self.plain@)));
    }

    /// Whether the content can be edited.
    pub closed spec fn editable(&self) -> bool {
        self.is_editable
    }

    /// The undo stack (most recent last).
    pub closed spec fn undo_stack(&self) -> Seq<Undo> {
        self.undo@
    }

    /// The redo stack of undone groups (most recent last).
    pub closed spec fn redo_stack(&self) -> Seq<Vec<Undo>> {
        self.redo@
    }

    /// The edit history and settings are left as they are.
    pub closed spec fn same_history(&self, other: &Self) -> bool {
        &&& self.undo == other.undo
        &&& self.redo == other.redo
        &&& self.is_editable == other.is_editable
    }

    /// The time on the content's clock, in nanoseconds (saturating at `u64::MAX`).
    fn now(&self) -> u64 {
        let nanos = as_nanos(&elapsed(&self.clock_start));
        if nanos <= 18446744073709551615u128 { nanos as u64 } else { u64::MAX }
    }

    fn add_empty_line(&mut self, line_no: usize)
        requires
            old(self).wf(),
        ensures
            final(self).wf(),
            final(self)@ == model_add_empty_line(old(self)@, line_no as int),
            final(self).same_history(old(self)),
    {
        let ghost p = view_lines(self.plain@);
        if line_no < self.plain.len() {
            self.plain.insert(line_no, String::new());
            self.lowercase.insert(line_no, String::new());
            assert(view_lines(self.plain@) =~= p.insert(line_no as int, Seq::<char>::empty()));
        } else {
            self.plain.push(String::new());
            self.lowercase.push(String::new());
            assert(view_lines(self.plain@) =~= p.push(Seq::<char>::empty()));
        }
        assert(ascii_lower(Seq::<char>::empty()) =~= Seq::<char>::empty());
        self.mark_line_as_modified(line_no);
        self.recalculate_max_size(line_no, line_no);
    }

    fn join_lines(&mut self, line_no: usize) -> (r: ContentPosition)
        requires
            old(self).wf(),
            line_no < old(self)@.plain.len(),
        ensures
            final(self).wf(),
            final(self)@ == model_join(old(self)@, line_no as int),
            r == (ContentPosition { x: old(self)@.plain[line_no as int].len() as usize, y: line_no }),
            final(self).same_history(old(self)),
    {
        let ghost p = view_lines(self.plain@);
        let n = self.plain.len();
        proof {
            self.lemma_wf_view();
            lemma_lower_joined(p, line_no as int);
        }
        let new_x = char_count(&self.plain[line_no]);
        self.plain.join_lines(line_no);
        self.lowercase.join_lines(line_no);
        proof {
            assert(view_lines(self.lowercase@) == lower_lines(view_lines(self.plain@)));
            assert forall|i: int| 0 <= i < self.plain@.len() implies #[trigger] self.lowercase@[i]@ == ascii_lower(self.plain@[i]@) by {
                assert(view_lines(self.lowercase@)[i] == lower_lines(view_lines(self.plain@))[i]);
            }
        }
        self.mark_line_as_modified(line_no);
        self.mark_line_as_modified(line_no + 1);
        self.recalculate_max_size(line_no, line_no + 1);
        ContentPosition::new(new_x, line_no)
    }

    fn split_lines(&mut self, x: usize, y: usize)
        requires
            old(self).wf(),
            y < old(self)@.plain.len(),
            x <= old(self)@.plain[y as int].len(),
        ensures
            final(self).wf(),
            final(self)@ == model_split(old(self)@, x as int, y as int),
            final(self).same_history(old(self)),
    {
        let ghost p = view_lines(self.plain@);
        let ghost lw = view_lines(self.lowercase@);
        assert(lw[y as int] == ascii_lower(p[y as int]));
        let _lines = self.plain.len();
        let n = char_count(&self.plain[y]);
        let split_plain = char_slice(&self.plain[y], x, n);
        let head_plain = char_slice(&self.plain[y], 0, x);
        let split_lowercase = char_slice(&self.lowercase[y], x, n);
        let head_lowercase = char_slice(&self.lowercase[y], 0, x);
        let insert_at = y + 1;
        if insert_at < self.plain.len() {
            self.plain.insert(insert_at, split_plain);
            self.lowercase.insert(insert_at, split_lowercase);
        } else {
            self.plain.push(split_plain);
            self.lowercase.push(split_lowercase);
        }
        self.plain.set(y, head_plain);
        self.lowercase.set(y, head_lowercase);
        assert(view_lines(self.plain@) =~= split_line(p, x as int, y as int));
        assert(ascii_lower(p[y as int].subrange(0, x as int)) =~= lw[y as int].subrange(0, x as int));
        assert(ascii_lower(p[y as int].subrange(x as int, n as int)) =~= lw[y as int].subrange(x as int, n as int));
        self.mark_line_as_modified(y);
        self.mark_line_as_modified(insert_at);
        self.recalculate_max_size(y, insert_at);
    }

    /// Replaces line `y` by `line` in both copies and marks it as modified.
    fn set_line(&mut self, y: usize, line: String)
        requires
            old(self).wf(),
            y < old(self)@.plain.len(),
        ensures
            final(self).wf(),
            final(self)@ == model_set_line(old(self)@, y as int, line@),
            final(self).same_history(old(self)),
    {
        let ghost p = view_lines(self.plain@);
        let lower = to_ascii_lowercase(line.as_str());
        self.plain.set(y, line);
        self.lowercase.set(y, lower);
        assert(view_lines(self.plain@) =~= p.update(y as int, line@));
        self.mark_line_as_modified(y);
        self.recalculate_max_size(y, y);
    }

    fn insert_char_internal(&mut self, pos: ContentPosition, ch: char)
        requires
            old(self).wf(),
        ensures
            final(self).wf(),
            final(self)@ == model_insert_char(old(self)@, pos, ch),
            final(self).same_history(old(self)),
    {
        if pos.y < self.plain.len() {
            let n = char_count(&self.plain[pos.y]);
            if pos.x < n {
                if ch == '\n' {
                    if pos.x == 0 {
                        self.add_empty_line(pos.y);
                    } else {
                        self.split_lines(pos.x, pos.y);
                    }
                } else {
                    let line = insert_char_at(&self.plain[pos.y], pos.x, ch);
                    self.set_line(pos.y, line);
                }
            } else {
                if ch == '\n' {
                    self.add_empty_line(pos.y + 1);
                } else {
                    let mut line = self.plain[pos.y].clone();
                    push_char(&mut line, ch);
                    self.set_line(pos.y, line);
                }
            }
        }
    }

    /// Removes and returns the character at column `x` of line `y`.
    fn remove_ch(&mut self, x: usize, y: usize) -> (removed: char)
        requires
            old(self).wf(),
            y < old(self)@.plain.len(),
            x < old(self)@.plain[y as int].len(),
        ensures
            final(self).wf(),
            final(self)@ == model_remove_ch(old(self)@, x as int, y as int),
            removed == old(self)@.plain[y as int][x as int],
            final(self).same_history(old(self)),
    {
        let removed = self.plain[y].as_str().get_char(x);
        let line = remove_char_at(&self.plain[y], x);
        self.set_line(y, line);
        removed
    }

    fn remove_char_internal(&mut self, pos: ContentPosition, is_backspace: bool, track_undo: bool) -> (r: Option<ContentPosition>)
        requires
            old(self).wf(),
        ensures
            final(self).wf(),
            final(self)@ == model_remove_char(old(self)@, pos, is_backspace).0,
            r == model_remove_char(old(self)@, pos, is_backspace).1,
            final(self).redo == old(self).redo,
            final(self).is_editable == old(self).is_editable,
            match model_remove_char(old(self)@, pos, is_backspace).2 {
                Some((np, ch)) if track_undo => {
                    &&& final(self).undo@.len() == old(self).undo@.len() + 1
                    &&& final(self).undo@.drop_last() == old(self).undo@
                    &&& records(final(self).undo@.last(), UndoMode::Remove, np, None, ch, None)
                },
                _ => final(self).undo == old(self).undo,
            },
    {
        let n = self.plain.len();
        if is_backspace && pos.x == 0 {
            if pos.y > 0 && pos.y < n {
                let new_pos = self.join_lines(pos.y - 1);
                return Some(self.track_remove(new_pos, '\n', track_undo));
            }
            return Some(pos);
        }
        if pos.y < n {
            let len = char_count(&self.plain[pos.y]);
            if pos.x < len {
                let x = if is_backspace { pos.x - 1 } else { pos.x };
                let ch = self.remove_ch(x, pos.y);
                return Some(self.track_remove(ContentPosition::new(x, pos.y), ch, track_undo));
            }
            let x = if is_backspace { pos.x.saturating_sub(1) } else { pos.x };
            if x < len {
                let ch = self.remove_ch(x, pos.y);
                Some(self.track_remove(ContentPosition::new(x, pos.y), ch, track_undo))
            } else if pos.y + 1 < n {
                let new_pos = self.join_lines(pos.y);
                Some(self.track_remove(new_pos, '\n', track_undo))
            } else {
                None
            }
        } else {
            None
        }
    }

    fn track_remove(&mut self, pos: ContentPosition, ch: char, track: bool) -> (r: ContentPosition)
        ensures
            r == pos,
            final(self)@ == old(self)@,
            final(self).plain == old(self).plain,
            final(self).lowercase == old(self).lowercase,
            final(self).redo == old(self).redo,
            final(self).is_editable == old(self).is_editable,
            track ==> {
                &&& final(self).undo@.len() == old(self).undo@.len() + 1
                &&& final(self).undo@.drop_last() == old(self).undo@
                &&& records(final(self).undo@.last(), UndoMode::Remove, pos, None, ch, None)
            },
            !track ==> final(self).undo == old(self).undo,
    {
        if track {
            self.undo.push(Undo::remove(pos, ch, self.now()));
            assert(self.undo@.drop_last() =~= old(self).undo@);
        }
        pos
    }

    fn remove_text_internal(&mut self, range: &Selection) -> (removed: Vec<String>)
        requires
            old(self).wf(),
            removal_allowed(old(self)@.plain, *range),
        ensures
            final(self).wf(),
            final(self)@ == model_remove_text(old(self)@, *range),
            view_lines(removed@) == model_removed_text(old(self)@, *range),
            final(self).same_history(old(self)),
    {
        let ghost p = view_lines(self.plain@);
        proof {
            self.lemma_wf_view();
            let (sl, el, s, e) = selection_bounds(p, *range);
            lemma_lower_removal(p, sl, el, s, e);
            assert(selection_bounds(lower_lines(p), *range) == selection_bounds(p, *range));
        }
        self.lowercase.remove_text(range);
        let result = self.plain.remove_text(range);
        proof {
            let (sl, el, s, e) = selection_bounds(p, *range);
            assert(view_lines(self.plain@) == lines_after_removal(p, sl, el, s, e));
            assert(view_lines(self.lowercase@) == lines_after_removal(lower_lines(p), sl, el, s, e));
            assert(view_lines(self.lowercase@) == lower_lines(view_lines(self.plain@)));
            assert(self.lowercase@.len() == view_lines(self.lowercase@).len());
            assert(self.plain@.len() == view_lines(self.plain@).len());
            assert forall|i: int| 0 <= i < self.plain@.len() implies #[trigger] self.lowercase@[i]@ == ascii_lower(self.plain@[i]@) by {
                assert(view_lines(self.lowercase@)[i] == lower_lines(view_lines(self.plain@))[i]);
            }
        }
        self.mark_line_as_modified(range.start.y);
        self.mark_line_as_modified(range.end.y);
        self.recalculate_max_size(range.start.y, range.end.y);
        result
    }

    /// Inserts text at `position` without recording it for undo; returns the position right after it.
    pub fn insert_text_internal(&mut self, position: ContentPosition, text: Vec<String>) -> (r: ContentPosition)
        requires
            old(self).wf(),
            insert_fits(old(self)@.plain, position.y as int, view_lines(text@)),
            position.y + text.len() <= usize::MAX,
        ensures
            final(self).wf(),
            final(self)@ == model_insert_text(old(self)@, position, view_lines(text@)),
            r == inserted_end(old(self)@, position, view_lines(text@)),
            final(self).same_history(old(self)),
            final(self).undo_stack() == old(self).undo_stack(),
            final(self).redo_stack() == old(self).redo_stack(),
    {
        let ghost p = view_lines(self.plain@);
        let ghost tv = view_lines(text@);
        let end_line = position.y + text.len();
        let mut lower_text: Vec<String> = Vec::new();
        let mut i: usize = 0;
        while i < text.len()
            invariant
                i <= text@.len(),
                lower_text@.len() == i,
                forall|j: int| 0 <= j < i ==> #[trigger] lower_text@[j]@ == ascii_lower(text@[j]@),
            decreases text@.len() - i,
        {
            lower_text.push(to_ascii_lowercase(text[i].as_str()));
            i = i + 1;
        }
        proof {
            self.lemma_wf_view();
            assert(view_lines(lower_text@) =~= lower_lines(tv));
            lemma_lower_insert(p, position.y as int, position.x as int, tv);
            assert(lower_lines(p).len() == p.len());
            if 0 <= position.y < p.len() && tv.len() > 0 {
                assert(lower_lines(p)[position.y as int].len() == p[position.y as int].len());
                assert(lower_lines(tv)[0].len() == tv[0].len());
            }
        }
        self.lowercase.insert_text(position, lower_text);
        let result = self.plain.insert_text(position, text);
        proof {
            assert(view_lines(self.lowercase@) == lower_lines(view_lines(self.plain@)));
            assert(self.lowercase@.len() == view_lines(self.lowercase@).len());
            assert(self.plain@.len() == view_lines(self.plain@).len());
            assert forall|i: int| 0 <= i < self.plain@.len() implies #[trigger] self.lowercase@[i]@ == ascii_lower(self.plain@[i]@) by {
                assert(view_lines(self.lowercase@)[i] == lower_lines(view_lines(self.plain@))[i]);
            }
        }
        self.mark_line_as_modified(position.y);
        self.mark_line_as_modified(end_line);
        self.recalculate_max_size(position.y, end_line);
        result
    }

    fn move_position_left(&self, position: ContentPosition) -> (r: ContentPosition)
        requires
            position.x == 0 && position.y > 0 ==> position.y - 1 < self@.plain.len(),
        ensures
            (r.x as int, r.y as int) == position_before(self@.plain, (position.x as int, position.y as int)),
    {
        if position.x == 0 && position.y > 0 {
            let new_y = position.y - 1;
            ContentPosition::new(char_count(&self.plain[new_y]), new_y)
        } else {
            ContentPosition::new(position.x.saturating_sub(1), position.y)
        }
    }

    fn swap_lines_internal(&mut self, first_line: usize, second_line: usize)
        requires
            old(self).wf(),
        ensures
            final(self).wf(),
            final(self)@ == model_swap(old(self)@, first_line as int, second_line as int),
            final(self).same_history(old(self)),
    {
        let ghost p = view_lines(self.plain@);
        if first_line < self.plain.len() && second_line < self.plain.len() {
            swap_entries(&mut self.plain, first_line, second_line);
            swap_entries(&mut self.lowercase, first_line, second_line);
        }
        assert(view_lines(self.plain@) =~= if first_line < p.len() && second_line < p.len() {
            p.update(first_line as int, p[second_line as int]).update(second_line as int, p[first_line as int])
        } else {
            p
        });
        self.mark_line_as_modified(first_line);
        self.mark_line_as_modified(second_line);
        self.recalculate_max_size(first_line, second_line);
    }

    fn mark_line_as_modified(&mut self, line_no: usize)
        ensures
            final(self)@ == mark(old(self)@, line_no as int),
            final(self).plain == old(self).plain,
            final(self).lowercase == old(self).lowercase,
            final(self).undo == old(self).undo,
            final(self).redo == old(self).redo,
            final(self).is_editable == old(self).is_editable,
    {
        if line_no < self.plain.len() {
            self.modified.insert(line_no);
        }
    }

    /// Recalculates the maximum line size across the modified lines and updates `max_size` if needed.
    fn recalculate_max_size(&mut self, start: usize, end: usize)
        ensures
            final(self)@ == recalc(old(self)@, start as int, end as int),
            final(self).plain == old(self).plain,
            final(self).lowercase == old(self).lowercase,
            final(self).modified == old(self).modified,
            final(self).undo == old(self).undo,
            final(self).redo == old(self).redo,
            final(self).is_editable == old(self).is_editable,
    {
        if self.modified.is_empty() {
            return;
        }
        let needs_full_recalc = start <= self.max_line_no && self.max_line_no <= end;
        if needs_full_recalc {
            let (line_no, size) = get_longest_line(self.plain.as_slice());
            self.max_line_no = line_no;
            self.max_size = size;
        } else {
            let ghost p = view_lines(self.plain@);
            let ghost ml0 = self.max_line_no;
            let ghost ms0 = self.max_size;
            let n = self.plain.len();
            let stop = if end < n { end + 1 } else { n };
            let mut line_no = start;
            if line_no < stop {
                while line_no < stop
                    invariant
                        start <= line_no <= stop <= n,
                        n == self.plain@.len(),
                        p == view_lines(self.plain@),
                        (self.max_line_no, self.max_size) == scan_longer(p, start as int, line_no as int, ml0, ms0),
                        self.plain == old(self).plain,
                        self.lowercase == old(self).lowercase,
                        self.modified == old(self).modified,
                        self.undo == old(self).undo,
                        self.redo == old(self).redo,
                        self.is_editable == old(self).is_editable,
                    decreases stop - line_no,
                {
                    let len = char_count(&self.plain[line_no]);
                    if len > self.max_size {
                        self.max_size = len;
                        self.max_line_no = line_no;
                    }
                    line_no = line_no + 1;
                }
            }
            proof {
                if end + 1 > n {
                    lemma_scan_past_end(p, start as int, end + 1, ml0, ms0);
                }
            }
        }
    }
}

impl Content for YamlContent {
    open spec fn line_count(&self) -> nat {
        self@.plain.len()
    }

    open spec fn line_width(&self, line_no: int) -> nat {
        if 0 <= line_no < self@.plain.len() { self@.plain[line_no].len() } else { 0 }
    }

    open spec fn widest(&self) -> nat {
        sat_add(self@.max_size, 1) as nat
    }

    open spec fn word_span(&self, position: ContentPosition) -> Option<(usize, usize)> {
        word_around(self@.plain, position)
    }

    fn len(&self) -> (r: usize) {
        self.plain.len()
    }

    fn max_size(&self) -> (r: usize) {
        self.max_size.saturating_add(1)
    }

    fn line_size(&self, line_no: usize) -> (r: usize) {
        if line_no < self.plain.len() {
            char_count(&self.plain[line_no])
        } else {
            0
        }
    }

    fn word_bounds(&self, position: ContentPosition) -> (r: Option<(usize, usize)>) {
        if position.y >= self.plain.len() {
            return None;
        }
        let line = chars_of(self.plain[position.y].as_str());
        let x = position.x;
        if x >= line.len() || char_is_whitespace(line[x]) {
            return None;
        }
        let mut start = x;
        while start > 0 && !char_is_whitespace(line[start - 1])
            invariant
                start <= x < line@.len(),
                word_start(line@, start as int) == word_start(line@, x as int),
            decreases start,
        {
            start = start - 1;
        }
        let mut end = x;
        let n = line.len();
        while end < n - 1 && !char_is_whitespace(line[end + 1])
            invariant
                x <= end < line@.len(),
                n == line@.len(),
                word_end(line@, end as int) == word_end(line@, x as int),
            decreases line@.len() - end,
        {
            end = end + 1;
        }
        Some((start, end))
    }
}

} // verus!
