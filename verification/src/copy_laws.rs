use vstd::prelude::*;

use crate::events::{ctrl_key, KeyCombination, KeyModifiers};
use crate::position::ContentPosition;
use crate::selection::{after_key, after_key_final, is_selection_key, ordered, SelectState, Selection};
use crate::text::{cut_end, cut_start, removal_allowed, removal_is_empty, removed_lines, selection_bounds, takes_line_break};
use crate::viewer::selection_of;
use crate::strings::is_white_space;
use crate::yaml::{word_around, word_end, word_start, joined_text, plain_text, selected_piece, selected_text_upto, YamlContent};

verus! {

/// Copying a selection inside one line gives exactly its characters, from the start column up to
/// and including the end column, whichever end of the selection comes first.
pub proof fn law_copy_within_line(p: Seq<Seq<char>>, y: usize, a: usize, b: usize)
    requires
        y < p.len(),
        a < p[y as int].len(),
        b < p[y as int].len(),
    ensures
        ({
            let (s, e) = if a <= b { (a as int, b as int) } else { (b as int, a as int) };
            let range = Selection { start: ContentPosition { x: a, y }, end: ContentPosition { x: b, y } };
            plain_text(p, Some(range)) == p[y as int].subrange(s, e + 1)
        }),
{
    let range = Selection { start: ContentPosition { x: a, y }, end: ContentPosition { x: b, y } };
    let (start, end) = ordered(range.start, range.end);
    assert(start.y == y && end.y == y);
    let line = p[y as int];
    let s = start.x as int;
    let e = end.x as int;
    assert(s <= e);
    assert(selected_text_upto(p, y as int, y as int, s, e, y as int) == Seq::<char>::empty());
    assert(selected_piece(line, y as int, y as int, y as int, s, e) =~= line.subrange(s, e + 1));
    assert(plain_text(p, Some(range)) =~= line.subrange(s, e + 1));
}

/// The pieces of lines `sl + 1 ..= i - 1` copied from a range spanning lines `sl..el` are the
/// lines that removing it takes out, joined with line breaks.
proof fn lemma_copied_lines(p: Seq<Seq<char>>, sl: int, el: int, s: int, e: int, i: int)
    requires
        0 <= sl < el < p.len(),
        sl < i <= el,
    ensures
        selected_text_upto(p, sl, el, s, e, i) == joined_text(removed_lines(p, sl, el, s, e).take(i - sl)) + seq!['\n'],
    decreases i - sl,
{
    let r = removed_lines(p, sl, el, s, e);
    assert(r[0] == p[sl].subrange(cut_start(p, sl, s), p[sl].len() as int));
    if i == sl + 1 {
        assert(r.take(1) =~= seq![r[0]]);
        assert(selected_text_upto(p, sl, el, s, e, sl) == Seq::<char>::empty());
        assert(selected_piece(p[sl], sl, sl, el, s, e) =~= r[0] + seq!['\n']);
        assert(selected_text_upto(p, sl, el, s, e, i) =~= r[0] + seq!['\n']);
    } else {
        lemma_copied_lines(p, sl, el, s, e, i - 1);
        let k = i - sl;
        assert(r[k - 1] == p[i - 1]);
        assert(r.take(k).drop_last() =~= r.take(k - 1));
        assert(r.take(k).last() == p[i - 1]);
        assert(selected_piece(p[i - 1], i - 1, sl, el, s, e) == p[i - 1] + seq!['\n']);
        assert(selected_text_upto(p, sl, el, s, e, i) =~= joined_text(r.take(k - 1)) + seq!['\n'] + p[i - 1] + seq!['\n']);
    }
}

/// Copying a range gives the text that removing it takes out: the removed lines joined with line
/// breaks (a column past the end of a line copies its line break).
pub proof fn law_copy_is_removed_text(p: Seq<Seq<char>>, range: Selection)
    requires
        removal_allowed(p, range),
    ensures
        ({
            let (sl, el, s, e) = selection_bounds(p, range);
            plain_text(p, Some(range)) == joined_text(removed_lines(p, sl, el, s, e))
        }),
{
    let (sl, el, s, e) = selection_bounds(p, range);
    let r = removed_lines(p, sl, el, s, e);
    let line = p[el];
    let cs = cut_start(p, sl, s);
    let ce = cut_end(p, el, e);
    let eol: Seq<char> = if line.len() < e + 1 { seq!['\n'] } else { seq![] };
    let t = plain_text(p, Some(range));
    assert(t == selected_text_upto(p, sl, el, s, e, el + 1));
    if sl == el {
        assert(selected_text_upto(p, sl, el, s, e, sl) == Seq::<char>::empty());
        if removal_is_empty(p, sl, el, s, e) {
            assert(selected_piece(line, el, sl, el, s, e) =~= Seq::<char>::empty());
        } else if takes_line_break(p, el, e) {
            assert(r =~= seq![line.subrange(cs, ce), Seq::<char>::empty()]);
            assert(r.drop_last() =~= seq![line.subrange(cs, ce)]);
            assert(joined_text(r.drop_last()) == line.subrange(cs, ce));
            assert(r.last() == Seq::<char>::empty());
            assert(joined_text(r) == joined_text(r.drop_last()) + seq!['\n'] + r.last());
            assert(selected_piece(line, el, sl, el, s, e) =~= line.subrange(cs, ce) + seq!['\n']);
            assert(joined_text(r) =~= line.subrange(cs, ce) + seq!['\n']);
        } else {
            assert(r =~= seq![line.subrange(cs, ce)]);
            assert(selected_piece(line, el, sl, el, s, e) =~= line.subrange(cs, ce));
        }
        assert(t =~= joined_text(r));
    } else {
        lemma_copied_lines(p, sl, el, s, e, el);
        let k = el - sl;
        let front = r.take(k + 1);
        assert(front.drop_last() =~= r.take(k));
        assert(front.last() == line.subrange(0, ce));
        assert(selected_piece(line, el, sl, el, s, e) =~= line.subrange(0, ce) + eol);
        assert(t =~= joined_text(r.take(k)) + seq!['\n'] + line.subrange(0, ce) + eol);
        if takes_line_break(p, el, e) {
            assert(r =~= front.push(Seq::<char>::empty()));
            assert(r.drop_last() =~= front);
            assert(joined_text(r) =~= joined_text(front) + seq!['\n']);
        } else {
            assert(r =~= front);
        }
        assert(t =~= joined_text(r));
    }
}

/// Selecting with `Shift` and a cursor key on one line, from a cursor at `c` (no selection
/// started) to where the key moved it, `c2`: the selection covers exactly the characters the
/// cursor passed over, forwards or backwards, and copying it gives them.
pub proof fn law_shift_selection_copies_passed_text(
    s: SelectState,
    key: KeyCombination,
    content: &YamlContent,
    c: ContentPosition,
    c2: ContentPosition,
)
    requires
        s.init is None,
        key.modifiers == KeyModifiers::spec_shift(),
        is_selection_key(key.code),
        c.y == c2.y,
        c.y < content@.plain.len(),
        c.x <= content@.plain[c.y as int].len(),
        c2.x <= content@.plain[c.y as int].len(),
        c.x != c2.x,
    ensures
        ({
            let sel = selection_of(after_key_final(after_key(s, key, content, Some(c)), key, content, c2));
            let (a, b) = if c.x < c2.x { (c.x, c2.x) } else { (c2.x, c.x) };
            &&& sel == Some(Selection {
                start: ContentPosition { x: if c.x < c2.x { c.x } else { (c.x - 1) as usize }, y: c.y },
                end: ContentPosition { x: if c.x < c2.x { (c2.x - 1) as usize } else { c2.x }, y: c.y },
            })
            &&& plain_text(content@.plain, sel) == content@.plain[c.y as int].subrange(a as int, b as int)
        }),
{
    let sel = selection_of(after_key_final(after_key(s, key, content, Some(c)), key, content, c2));
    assert(key != ctrl_key('a'));
    if c.x < c2.x {
        law_copy_within_line(content@.plain, c.y, c.x, (c2.x - 1) as usize);
    } else {
        law_copy_within_line(content@.plain, c.y, (c.x - 1) as usize, c2.x);
    }
}


/// The run found back from column `x`: it starts at or before `x`, holds no whitespace before
/// `x`, and starts at the line start or right after a whitespace character.
proof fn lemma_word_start(line: Seq<char>, x: int)
    requires
        0 <= x <= line.len(),
    ensures
        0 <= word_start(line, x) <= x,
        forall|k: int| word_start(line, x) <= k < x ==> !is_white_space(#[trigger] line[k]),
        word_start(line, x) == 0 || is_white_space(line[word_start(line, x) - 1]),
    decreases x,
{
    if x > 0 && !is_white_space(line[x - 1]) {
        lemma_word_start(line, x - 1);
    }
}

/// The run found forward from column `x`: it ends at or after `x` within the line, holds no
/// whitespace after `x`, and ends at the line end or right before a whitespace character.
proof fn lemma_word_end(line: Seq<char>, x: int)
    requires
        0 <= x < line.len(),
    ensures
        x <= word_end(line, x) < line.len(),
        forall|k: int| x < k <= word_end(line, x) ==> !is_white_space(#[trigger] line[k]),
        word_end(line, x) == line.len() - 1 || is_white_space(line[word_end(line, x) + 1]),
    decreases line.len() - x,
{
    if x + 1 < line.len() && !is_white_space(line[x + 1]) {
        lemma_word_end(line, x + 1);
    }
}

/// The word a double click selects: there is one exactly when the character under the pointer is
/// not whitespace, and then it is the whole run of non-whitespace characters around it, from a
/// line start or whitespace to a line end or whitespace; copying it gives those characters.
pub proof fn law_word_is_maximal_run(p: Seq<Seq<char>>, position: ContentPosition)
    requires
        position.y < p.len() ==> p[position.y as int].len() <= usize::MAX,
    ensures
        (word_around(p, position) is Some) == (position.y < p.len() && position.x < p[position.y as int].len()
            && !is_white_space(p[position.y as int][position.x as int])),
        word_around(p, position) matches Some((a, b)) ==> {
            let line = p[position.y as int];
            &&& a <= position.x <= b < line.len()
            &&& forall|k: int| a <= k <= b ==> !is_white_space(#[trigger] line[k])
            &&& (a == 0 || is_white_space(line[a - 1]))
            &&& (b == line.len() - 1 || is_white_space(line[b + 1]))
            &&& plain_text(
                p,
                Some(Selection { start: ContentPosition { x: a, y: position.y }, end: ContentPosition { x: b, y: position.y } }),
            ) == line.subrange(a as int, b + 1)
        },
{
    let y = position.y as int;
    let x = position.x as int;
    if y < p.len() && x < p[y].len() && !is_white_space(p[y][x]) {
        let line = p[y];
        lemma_word_start(line, x);
        lemma_word_end(line, x);
        let a = word_start(line, x);
        let b = word_end(line, x);
        law_copy_within_line(p, position.y, a as usize, b as usize);
    }
}

} // verus!
