use vstd::prelude::*;

use crate::position::ContentPosition;
use crate::selection::{ordered, Selection};
use crate::strings::{char_count, char_slice, concat};
use crate::utf8::{byte_offset, char_to_index};
use vstd::utf8::encode_utf8;

verus! {

/// The character sequences held by a vector of strings.
pub open spec fn view_lines(lines: Seq<String>) -> Seq<Seq<char>> {
    lines.map_values(|s: String| s@)
}

/// `l` with line `n` and line `n + 1` merged into one (unchanged when there is no line `n + 1`).
pub open spec fn joined(l: Seq<Seq<char>>, n: int) -> Seq<Seq<char>> {
    if 0 <= n && n + 1 < l.len() {
        l.take(n).push(l[n] + l[n + 1]) + l.skip(n + 2)
    } else {
        l
    }
}

pub open spec fn min_int(a: int, b: int) -> int {
    if a <= b { a } else { b }
}

/// Column at which a removal starts on line `sl`.
pub open spec fn cut_start(l: Seq<Seq<char>>, sl: int, s: int) -> int {
    min_int(s, l[sl].len() as int)
}

/// Column at which a removal ends (exclusive) on line `el`.
pub open spec fn cut_end(l: Seq<Seq<char>>, el: int, e: int) -> int {
    min_int(e + 1, l[el].len() as int)
}

/// `true` when a removal on line `el` ending at column `e` also removes the line break after it.
pub open spec fn takes_line_break(l: Seq<Seq<char>>, el: int, e: int) -> bool {
    e >= l[el].len()
}

/// The case where the start column lies past the end of a one-line range that ends inside the line.
pub open spec fn removal_is_empty(l: Seq<Seq<char>>, sl: int, el: int, s: int, e: int) -> bool {
    sl == el && e < l[el].len() && l[sl].len() <= s
}

/// The case where removal would cut a line backwards (start column after end column + 1).
pub open spec fn removal_is_reversed(l: Seq<Seq<char>>, sl: int, el: int, s: int, e: int) -> bool {
    sl == el && s < l[sl].len() && e + 1 < l[sl].len() && s > e + 1
}

/// The lines taken out when removing from column `s` of line `sl` to column `e` of line `el` (inclusive).
/// A column past the end of a line stands for the line break after it; an empty line at the end of
/// the result marks that a line break was removed.
pub open spec fn removed_lines(l: Seq<Seq<char>>, sl: int, el: int, s: int, e: int) -> Seq<Seq<char>> {
    let cs = cut_start(l, sl, s);
    let ce = cut_end(l, el, e);
    let eol: Seq<Seq<char>> = if takes_line_break(l, el, e) { seq![Seq::<char>::empty()] } else { seq![] };
    if removal_is_empty(l, sl, el, s, e) {
        seq![]
    } else if sl == el {
        seq![l[sl].subrange(cs, ce)] + eol
    } else {
        seq![l[sl].subrange(cs, l[sl].len() as int)] + l.subrange(sl + 1, el) + seq![
            l[el].subrange(0, ce),
        ] + eol
    }
}

/// The lines left after removing from column `s` of line `sl` to column `e` of line `el` (inclusive).
pub open spec fn lines_after_removal(l: Seq<Seq<char>>, sl: int, el: int, s: int, e: int) -> Seq<Seq<char>> {
    let cs = cut_start(l, sl, s);
    let ce = cut_end(l, el, e);
    let merges_next = takes_line_break(l, el, e) && el + 1 < l.len();
    let suffix = if merges_next { l[el + 1] } else { l[el].subrange(ce, l[el].len() as int) };
    let tail = if merges_next { l.skip(el + 2) } else { l.skip(el + 1) };
    if removal_is_empty(l, sl, el, s, e) {
        l
    } else {
        l.take(sl).push(l[sl].subrange(0, cs) + suffix) + tail
    }
}

/// Appends the content of the next line to the line at `line_no` and removes the next line.
fn join_next(lines: &mut Vec<String>, line_no: usize)
    ensures
        view_lines(final(lines)@) == joined(view_lines(old(lines)@), line_no as int),
{
    if line_no < lines.len() && line_no + 1 < lines.len() {
        let next = lines.remove(line_no + 1);
        let merged = concat(&lines[line_no], &next);
        lines.set(line_no, merged);
        proof {
            let l = view_lines(old(lines)@);
            assert(view_lines(final(lines)@) =~= joined(l, line_no as int));
        }
    }
}

/// Removes columns `start..=end` of line `line_no`; a column past the end of the line stands for
/// the line break after it.
fn remove_line(lines: &mut Vec<String>, line_no: usize, start: usize, end: usize) -> (removed: Vec<String>)
    requires
        line_no < old(lines).len(),
        end < usize::MAX,
        !removal_is_reversed(view_lines(old(lines)@), line_no as int, line_no as int, start as int, end as int),
    ensures
        view_lines(removed@) == removed_lines(view_lines(old(lines)@), line_no as int, line_no as int, start as int, end as int),
        view_lines(final(lines)@) == lines_after_removal(view_lines(old(lines)@), line_no as int, line_no as int, start as int, end as int),
{
    let ghost l = view_lines(lines@);
    let line_len = char_count(&lines[line_no]);
    let is_eol = line_len <= end;
    if start < line_len {
        if end + 1 < line_len {
            let removed = char_slice(&lines[line_no], start, end + 1);
            let left = char_slice(&lines[line_no], 0, start);
            let right = char_slice(&lines[line_no], end + 1, line_len);
            let merged = concat(&left, &right);
            lines.set(line_no, merged);
            let result = vec![removed];
            assert(view_lines(result@) =~= removed_lines(l, line_no as int, line_no as int, start as int, end as int));
            assert(view_lines(lines@) =~= lines_after_removal(l, line_no as int, line_no as int, start as int, end as int));
            result
        } else {
            let removed = char_slice(&lines[line_no], start, line_len);
            let left = char_slice(&lines[line_no], 0, start);
            lines.set(line_no, left);
            if is_eol {
                let ghost mid = view_lines(lines@);
                join_next(lines, line_no);
                let result = vec![removed, String::new()];
                assert(view_lines(result@) =~= removed_lines(l, line_no as int, line_no as int, start as int, end as int));
                assert(view_lines(lines@) =~= lines_after_removal(l, line_no as int, line_no as int, start as int, end as int));
                result
            } else {
                let result = vec![removed];
                assert(view_lines(result@) =~= removed_lines(l, line_no as int, line_no as int, start as int, end as int));
                assert(view_lines(lines@) =~= lines_after_removal(l, line_no as int, line_no as int, start as int, end as int));
                result
            }
        }
    } else if is_eol {
        assert(l[line_no as int].subrange(line_len as int, line_len as int) =~= Seq::<char>::empty());
        assert(l[line_no as int].subrange(0, line_len as int) =~= l[line_no as int]);
        join_next(lines, line_no);
        let result = vec![String::new(), String::new()];
        assert(view_lines(result@) =~= removed_lines(l, line_no as int, line_no as int, start as int, end as int));
        assert(view_lines(lines@) =~= lines_after_removal(l, line_no as int, line_no as int, start as int, end as int));
        result
    } else {
        let result = Vec::new();
        assert(view_lines(result@) =~= removed_lines(l, line_no as int, line_no as int, start as int, end as int));
        result
    }
}

/// Removes and returns lines `from..=to`; nothing when the range is empty or starts past the end.
fn drain_lines(lines: &mut Vec<String>, from: usize, to: usize) -> (drained: Vec<String>)
    requires
        !(from <= to && from < old(lines).len() && to >= old(lines).len()),
    ensures
        from <= to && from < old(lines).len() ==> {
            &&& drained@ == old(lines)@.subrange(from as int, to + 1)
            &&& final(lines)@ == old(lines)@.take(from as int) + old(lines)@.skip(to + 1)
        },
        !(from <= to && from < old(lines).len()) ==> {
            &&& drained@ == Seq::<String>::empty()
            &&& final(lines)@ == old(lines)@
        },
{
    let ghost orig = lines@;
    let mut drained: Vec<String> = Vec::new();
    if from <= to && from < lines.len() {
        let mut i: usize = from;
        assert(orig.len() == lines.len());
        while i <= to
            invariant
                from <= i <= to + 1,
                orig.len() <= usize::MAX,
                to < orig.len(),
                lines@ == orig.take(from as int) + orig.skip(i as int),
                drained@ == orig.subrange(from as int, i as int),
            decreases to + 1 - i,
        {
            let x = lines.remove(from);
            drained.push(x);
            assert(lines@ =~= orig.take(from as int) + orig.skip(i + 1));
            assert(drained@ =~= orig.subrange(from as int, i + 1));
            i = i + 1;
        }
    } else {
        assert(drained@ =~= Seq::<String>::empty());
    }
    drained
}

/// Cuts line `n` at column `min(at, len)`: keeps the head in place and returns the tail.
fn split_off_tail(lines: &mut Vec<String>, n: usize, at: usize) -> (tail: String)
    requires
        n < old(lines).len(),
    ensures
        ({
            let l = view_lines(old(lines)@);
            let c = min_int(at as int, l[n as int].len() as int);
            &&& final(lines)@.len() == old(lines)@.len()
            &&& tail@ == l[n as int].subrange(c, l[n as int].len() as int)
            &&& view_lines(final(lines)@) == l.update(n as int, l[n as int].subrange(0, c))
        }),
{
    let ghost l = view_lines(lines@);
    let len = char_count(&lines[n]);
    let c = if at < len { at } else { len };
    let tail = char_slice(&lines[n], c, len);
    let head = char_slice(&lines[n], 0, c);
    lines.set(n, head);
    assert(view_lines(lines@) =~= l.update(n as int, l[n as int].subrange(0, c as int)));
    tail
}

/// Cuts line `n` at column `min(at, len)`: keeps the tail in place and returns the head.
fn split_off_head(lines: &mut Vec<String>, n: usize, at: usize) -> (head: String)
    requires
        n < old(lines).len(),
    ensures
        ({
            let l = view_lines(old(lines)@);
            let c = min_int(at as int, l[n as int].len() as int);
            &&& final(lines)@.len() == old(lines)@.len()
            &&& head@ == l[n as int].subrange(0, c)
            &&& view_lines(final(lines)@) == l.update(n as int, l[n as int].subrange(c, l[n as int].len() as int))
        }),
{
    let ghost l = view_lines(lines@);
    let len = char_count(&lines[n]);
    let c = if at < len { at } else { len };
    let head = char_slice(&lines[n], 0, c);
    let tail = char_slice(&lines[n], c, len);
    lines.set(n, tail);
    assert(view_lines(lines@) =~= l.update(n as int, l[n as int].subrange(c as int, len as int)));
    head
}

/// Removes the text from column `start` of line `start_line` to column `end` of line `end_line`
/// (inclusive), where `start_line < end_line`.
#[verifier::rlimit(80)]
#[verifier::spinoff_prover]
fn remove_lines(lines: &mut Vec<String>, start_line: usize, end_line: usize, start: usize, end: usize) -> (removed: Vec<String>)
    requires
        start_line < end_line < old(lines).len(),
        end < usize::MAX,
    ensures
        view_lines(removed@) == removed_lines(view_lines(old(lines)@), start_line as int, end_line as int, start as int, end as int),
        view_lines(final(lines)@) == lines_after_removal(view_lines(old(lines)@), start_line as int, end_line as int, start as int, end as int),
{
    let ghost l = view_lines(lines@);
    let start_len = char_count(&lines[start_line]);
    let end_len = char_count(&lines[end_line]);
    let is_end_eol = end_len <= end;
    let remove_start = start == 0 && start < start_len;
    let ghost cs = cut_start(l, start_line as int, start as int);
    let ghost ce = cut_end(l, end_line as int, end as int);

    let first = split_off_tail(lines, start_line, start);
    let last = split_off_head(lines, end_line, end + 1);
    let ghost bj = view_lines(lines@);
    assert(bj =~= l.update(start_line as int, l[start_line as int].subrange(0, cs)).update(
        end_line as int, l[end_line as int].subrange(ce, l[end_line as int].len() as int)));

    if is_end_eol {
        join_next(lines, end_line);
    }
    let ghost merges_next = is_end_eol && end_line + 1 < l.len();
    let ghost suffix = if merges_next { l[end_line + 1] } else { l[end_line as int].subrange(ce, l[end_line as int].len() as int) };
    let ghost tail = if merges_next { l.skip(end_line + 2) } else { l.skip(end_line + 1) };
    let ghost aj = view_lines(lines@);
    proof {
        if merges_next {
            assert(bj[end_line as int] =~= Seq::<char>::empty());
            assert(aj[end_line as int] =~= suffix);
        }
        assert(aj =~= bj.take(end_line as int).push(suffix) + tail);
    }

    let ghost before_drain = lines@;
    assert(view_lines(before_drain).len() == before_drain.len());
    let mut middle = drain_lines(lines, start_line + 1, end_line - 1);
    let ghost ad = view_lines(lines@);
    assert(view_lines(middle@) =~= aj.subrange(start_line + 1, end_line as int));
    assert(view_lines(middle@) =~= l.subrange(start_line + 1, end_line as int));
    assert(ad =~= aj.take(start_line + 1) + aj.skip(end_line as int));
    assert(aj.take(start_line + 1) =~= l.take(start_line as int).push(l[start_line as int].subrange(0, cs)));
    assert(aj.skip(end_line as int) =~= seq![suffix] + tail);
    assert(ad =~= l.take(start_line as int).push(l[start_line as int].subrange(0, cs)).push(suffix) + tail);
    assert(ad.len() == lines@.len());

    if remove_start {
        lines.remove(start_line);
        assert(l[start_line as int].subrange(0, cs) + suffix =~= suffix);
        assert(view_lines(lines@) =~= ad.remove(start_line as int));
    } else {
        join_next(lines, start_line);
    }
    assert(view_lines(lines@) =~= lines_after_removal(l, start_line as int, end_line as int, start as int, end as int));

    let mut removed: Vec<String> = Vec::new();
    removed.push(first);
    removed.append(&mut middle);
    removed.push(last);
    if is_end_eol {
        removed.push(String::new());
    }
    assert(view_lines(removed@) =~= removed_lines(l, start_line as int, end_line as int, start as int, end as int));
    removed
}

/// Column at which text is inserted on line `y` (a column past the end stands for the end).
pub open spec fn insert_column(l: Seq<Seq<char>>, y: int, x: int) -> int {
    min_int(x, l[y].len() as int)
}

/// The lines after inserting `text` (split into lines) at column `x` of line `y`. Several lines of
/// text replace a content made of one empty line, wherever they are inserted. Otherwise a line
/// index past the end appends the text as new lines; within a line, the text goes in at the column,
/// or at the end of the line when the column lies past it, and several lines split the line there.
pub open spec fn lines_after_insert(l: Seq<Seq<char>>, y: int, x: int, text: Seq<Seq<char>>) -> Seq<Seq<char>> {
    let k = text.len() as int;
    if k == 0 {
        l
    } else if k >= 2 && is_single_empty(l) {
        text
    } else if y >= l.len() {
        l + text
    } else {
        let c = insert_column(l, y, x);
        let head = l[y].subrange(0, c);
        let tail = l[y].subrange(c, l[y].len() as int);
        if k == 1 {
            l.update(y, head + text[0] + tail)
        } else {
            l.take(y).push(head + text[0]) + text.subrange(1, k - 1).push(text[k - 1] + tail) + l.skip(y + 1)
        }
    }
}

/// The lines are exactly one empty line.
pub open spec fn is_single_empty(l: Seq<Seq<char>>) -> bool {
    l.len() == 1 && l[0].len() == 0
}

/// The position right after the inserted text.
pub open spec fn position_after_insert(l: Seq<Seq<char>>, y: int, x: int, text: Seq<Seq<char>>) -> (int, int) {
    let k = text.len() as int;
    if k == 0 {
        (x, y)
    } else if k >= 2 && is_single_empty(l) {
        (text[k - 1].len() as int, k - 1)
    } else if y >= l.len() {
        (text[k - 1].len() as int, l.len() + k - 1)
    } else if k == 1 {
        (insert_column(l, y, x) + text[0].len(), y)
    } else {
        (text[k - 1].len() as int, y + k - 1)
    }
}

/// Machine limits for an insertion: the line count, and the length of an edited line, fit in `usize`.
pub open spec fn insert_fits(l: Seq<Seq<char>>, y: int, text: Seq<Seq<char>>) -> bool {
    &&& l.len() + text.len() <= usize::MAX
    &&& (0 <= y < l.len() && text.len() > 0) ==> l[y].len() + text[0].len() <= usize::MAX
}

/// Inserts a single line of `text` at `position`.
fn insert_line(lines: &mut Vec<String>, position: ContentPosition, text: String) -> (r: ContentPosition)
    requires
        insert_fits(view_lines(old(lines)@), position.y as int, seq![text@]),
    ensures
        view_lines(final(lines)@) == lines_after_insert(view_lines(old(lines)@), position.y as int, position.x as int, seq![text@]),
        (r.x as int, r.y as int) == position_after_insert(view_lines(old(lines)@), position.y as int, position.x as int, seq![text@]),
{
    let ghost l = view_lines(lines@);
    let ghost tv = seq![text@];
    let text_len = char_count(&text);
    if position.y >= lines.len() {
        let n = lines.len();
        lines.push(text);
        assert(view_lines(lines@) =~= l + tv);
        return ContentPosition::new(text_len, n);
    }
    let y = position.y;
    let line_len = char_count(&lines[y]);
    let c = if position.x < line_len { position.x } else { line_len };
    let head = char_slice(&lines[y], 0, c);
    let tail = char_slice(&lines[y], c, line_len);
    let first = concat(&head, &text);
    let merged = concat(&first, &tail);
    lines.set(y, merged);
    assert(view_lines(lines@) =~= lines_after_insert(l, y as int, position.x as int, tv));
    ContentPosition::new(c + text_len, y)
}

/// Inserts several lines of `text` at `position`.
fn insert_lines(lines: &mut Vec<String>, position: ContentPosition, text: Vec<String>) -> (r: ContentPosition)
    requires
        text.len() >= 2,
        insert_fits(view_lines(old(lines)@), position.y as int, view_lines(text@)),
    ensures
        view_lines(final(lines)@) == lines_after_insert(view_lines(old(lines)@), position.y as int, position.x as int, view_lines(text@)),
        (r.x as int, r.y as int) == position_after_insert(view_lines(old(lines)@), position.y as int, position.x as int, view_lines(text@)),
{
    let ghost l = view_lines(lines@);
    let ghost tv = view_lines(text@);
    let mut text = text;
    let k = text.len();
    let last_len = char_count(&text[k - 1]);
    if lines.len() == 1 && char_count(&lines[0]) == 0 {
        *lines = text;
        assert(view_lines(lines@) =~= tv);
        return ContentPosition::new(last_len, k - 1);
    }
    proof {
        if lines@.len() == 1 {
            assert(lines@[0]@.len() != 0);
        }
    }
    if position.y >= lines.len() {
        let n = lines.len();
        lines.append(&mut text);
        assert(view_lines(lines@) =~= l + tv);
        return ContentPosition::new(last_len, n + k - 1);
    }
    let y = position.y;
    let line_len = char_count(&lines[y]);
    let c = if position.x < line_len { position.x } else { line_len };
    let head = char_slice(&lines[y], 0, c);
    let tail = char_slice(&lines[y], c, line_len);

    let mut rest = text.split_off(1);
    let last_text = rest.pop();
    let last_text = match last_text {
        Some(t) => t,
        None => String::new(),
    };
    let first = concat(&head, &text[0]);
    let last = concat(&last_text, &tail);
    assert(view_lines(rest@) =~= tv.subrange(1, k - 1));
    rest.push(last);
    lines.set(y, first);
    let mut after = lines.split_off(y + 1);
    lines.append(&mut rest);
    lines.append(&mut after);
    assert(view_lines(lines@) =~= lines_after_insert(l, y as int, position.x as int, tv));
    ContentPosition::new(last_len, y + k - 1)
}

/// A character position within a line: its character index and its byte index.
#[derive(Debug, Clone, Copy, PartialEq, Eq, Structural)]
pub struct CharPosition {
    pub char: usize,
    pub index: usize,
}

/// The character at a column and the one before it.
#[derive(Debug, Clone, Copy, PartialEq, Eq, Structural)]
pub struct PositionSet {
    pub x_prev: CharPosition,
    pub x: CharPosition,
}

/// The character position `k` of `s` (character index and byte index).
pub open spec fn char_position(s: Seq<char>, k: int) -> CharPosition {
    CharPosition { char: k as usize, index: byte_offset(s, k) as usize }
}

/// Every line's UTF-8 encoding fits in `usize` bytes.
pub open spec fn lines_fit(lines: Seq<String>) -> bool {
    forall|i: int| 0 <= i < lines.len() ==> encode_utf8(#[trigger] lines[i]@).len() <= usize::MAX
}

/// Returns the character at `position` and the one before it (character and byte indices), or `None`
/// when there is no character at `position`.
pub fn get_char_position(lines: &[String], position: ContentPosition) -> (r: Option<PositionSet>)
    requires
        lines_fit(lines@),
    ensures
        r == (if position.y < lines@.len() && position.x < lines@[position.y as int]@.len() {
            Some(PositionSet {
                x_prev: if position.x >= 1 {
                    char_position(lines@[position.y as int]@, position.x - 1)
                } else {
                    CharPosition { char: 0, index: 0 }
                },
                x: char_position(lines@[position.y as int]@, position.x as int),
            })
        } else {
            None
        }),
{
    if position.y >= lines.len() {
        return None;
    }
    let line = lines[position.y].as_str();
    assert(encode_utf8(lines@[position.y as int]@).len() <= usize::MAX);
    match char_to_index(line, position.x) {
        None => None,
        Some(index) => {
            let x_prev = if position.x >= 1 {
                match char_to_index(line, position.x - 1) {
                    Some(prev) => CharPosition { char: position.x - 1, index: prev },
                    None => CharPosition { char: 0, index: 0 },
                }
            } else {
                CharPosition { char: 0, index: 0 }
            };
            Some(PositionSet { x_prev, x: CharPosition { char: position.x, index } })
        },
    }
}

/// The line range and columns covered by a selection on `l`: the positions are put in document
/// order and their lines are clamped to the last line.
pub open spec fn selection_bounds(l: Seq<Seq<char>>, range: Selection) -> (int, int, int, int) {
    let (start, end) = ordered(range.start, range.end);
    let last = l.len() - 1;
    (min_int(start.y as int, last), min_int(end.y as int, last), start.x as int, end.x as int)
}

/// The inputs on which a removal is defined: some line exists, the end column has a successor, and
/// the range does not run backwards within one line.
pub open spec fn removal_allowed(l: Seq<Seq<char>>, range: Selection) -> bool {
    let (sl, el, s, e) = selection_bounds(l, range);
    &&& l.len() > 0
    &&& e < usize::MAX
    &&& !removal_is_reversed(l, sl, el, s, e)
}

/// Text editing operations on a vector of lines.
pub trait VecStringExt: Sized {
    /// The lines, as character sequences.
    spec fn text_lines(&self) -> Seq<Seq<char>>;

    /// Appends the content of the next line to the line at `line_no` and removes the next line.
    fn join_lines(&mut self, line_no: usize)
        ensures
            final(self).text_lines() == joined(old(self).text_lines(), line_no as int),
    ;

    /// Removes and returns the specified `range` from the vector of `String`s.
    fn remove_text(&mut self, range: &Selection) -> (removed: Vec<String>)
        requires
            removal_allowed(old(self).text_lines(), *range),
        ensures
            ({
                let l = old(self).text_lines();
                let (sl, el, s, e) = selection_bounds(l, *range);
                &&& view_lines(removed@) == removed_lines(l, sl, el, s, e)
                &&& final(self).text_lines() == lines_after_removal(l, sl, el, s, e)
            }),
    ;

    /// Inserts specified `text` at `position` to the vector of `String`s.
    fn insert_text(&mut self, position: ContentPosition, text: Vec<String>) -> (r: ContentPosition)
        requires
            insert_fits(old(self).text_lines(), position.y as int, view_lines(text@)),
        ensures
            final(self).text_lines() == lines_after_insert(old(self).text_lines(), position.y as int, position.x as int, view_lines(text@)),
            (r.x as int, r.y as int) == position_after_insert(old(self).text_lines(), position.y as int, position.x as int, view_lines(text@)),
    ;
}

impl VecStringExt for Vec<String> {
    open spec fn text_lines(&self) -> Seq<Seq<char>> {
        view_lines(self@)
    }

    fn join_lines(&mut self, line_no: usize) {
        join_next(self, line_no);
    }

    fn remove_text(&mut self, range: &Selection) -> (removed: Vec<String>) {
        let (start, end) = range.sorted();
        let last = self.len() - 1;
        let start_line = if start.y < last { start.y } else { last };
        let end_line = if end.y < last { end.y } else { last };
        if start_line == end_line {
            remove_line(self, end_line, start.x, end.x)
        } else {
            remove_lines(self, start_line, end_line, start.x, end.x)
        }
    }

    fn insert_text(&mut self, position: ContentPosition, text: Vec<String>) -> (r: ContentPosition) {
        let ghost orig = text@;
        let mut text = text;
        match text.len() {
            0 => position,
            1 => {
                let t = text.swap_remove(0);
                assert(view_lines(orig) =~= seq![t@]);
                insert_line(self, position, t)
            },
            _ => insert_lines(self, position, text),
        }
    }
}

/// Returns the position right after the last character of the last line (`0:0` when there are no lines).
pub fn get_end_position(lines: &[String]) -> (r: ContentPosition)
    ensures
        r.y == (if lines@.len() == 0 { 0 } else { lines@.len() - 1 }),
        r.x == (if lines@.len() == 0 { 0 } else { lines@.last()@.len() }),
{
    let n = lines.len();
    if n == 0 {
        ContentPosition::new(0, 0)
    } else {
        ContentPosition::new(char_count(&lines[n - 1]), n - 1)
    }
}

/// The position one character before `p` (the end of the previous line when `p` starts a line).
pub open spec fn position_before(l: Seq<Seq<char>>, p: (int, int)) -> (int, int) {
    if p.0 == 0 && p.1 > 0 {
        (l[p.1 - 1].len() as int, p.1 - 1)
    } else {
        (if p.0 >= 1 { p.0 - 1 } else { 0 }, p.1)
    }
}

} // verus!
