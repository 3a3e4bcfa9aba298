use vstd::prelude::*;

use crate::position::{ContentPosition, ScreenPosition};
use crate::undo::{Undo, UndoMode};
use crate::edit::{moved_in, width_in, EditState, NewCursorPosition};
use crate::viewer::{max_vstart_of, navigated, scrolled_to, ViewerState};
use crate::yaml::{
    entry_range, inserted_end, model_insert_char, model_insert_text, model_join, model_remove_ch, model_remove_char, model_remove_text,
    model_removed_text, model_swap, range_removable, replay, replayed_entry, text_insertable, ContentModel,
};
use crate::text::view_lines;
use crate::selection::{in_order, ordered, Selection};
use crate::text::{
    cut_end, cut_start, insert_column, insert_fits, position_after_insert, position_before, lines_after_insert, lines_after_removal, removal_allowed, removal_is_empty,
    removed_lines, selection_bounds, takes_line_break,
};

verus! {

/// Putting the removed lines back at the start of the removed range restores the original lines,
/// when the range starts within its line and does not take the (non-existent) line break after
/// the last line.
pub proof fn law_reinsert_after_removal(l: Seq<Seq<char>>, range: Selection)
    requires
        removal_allowed(l, range),
        ({
            let (sl, el, s, e) = selection_bounds(l, range);
            &&& s <= l[sl].len()
            &&& !(takes_line_break(l, el, e) && el == l.len() - 1)
        }),
    ensures
        ({
            let (sl, el, s, e) = selection_bounds(l, range);
            lines_after_insert(lines_after_removal(l, sl, el, s, e), sl, s, removed_lines(l, sl, el, s, e)) == l
        }),
{
    let (sl, el, s, e) = selection_bounds(l, range);
    if !removal_is_empty(l, sl, el, s, e) {
        let after = lines_after_removal(l, sl, el, s, e);
        let removed = removed_lines(l, sl, el, s, e);
        let cs = cut_start(l, sl, s);
        let ce = cut_end(l, el, e);
        let merges_next = takes_line_break(l, el, e) && el + 1 < l.len();
        let suffix = if merges_next { l[el + 1] } else { l[el].subrange(ce, l[el].len() as int) };
        let prefix = l[sl].subrange(0, cs);
        assert(cs == s);
        assert(after[sl] == prefix + suffix);
        assert(insert_column(after, sl, s) == s);
        assert((prefix + suffix).subrange(0, s) =~= prefix);
        assert((prefix + suffix).subrange(s, (prefix + suffix).len() as int) =~= suffix);
        let back = lines_after_insert(after, sl, s, removed);
        if sl == el {
            if takes_line_break(l, el, e) {
                assert(removed.len() == 2);
                assert(prefix + removed[0] =~= l[sl]);
                assert(removed[1] + suffix =~= l[sl + 1]);
                assert(back =~= l);
            } else {
                assert(removed.len() == 1);
                assert(prefix + removed[0] + suffix =~= l[sl]);
                assert(back =~= l);
            }
        } else {
            assert(prefix + removed[0] =~= l[sl]);
            if takes_line_break(l, el, e) {
                assert(l[el].subrange(0, ce) =~= l[el]);
                assert(removed[removed.len() - 1] + suffix =~= l[el + 1]);
                assert(back =~= l);
            } else {
                assert(removed[removed.len() - 1] + suffix =~= l[el]);
                assert(back =~= l);
            }
        }
    }
}

/// Removing the range from the insertion point to the character before the position returned by
/// an insertion gives back the inserted lines and the original lines, when the inserted text is not
/// empty and the insertion point lies within its line.
#[verifier::rlimit(60)]
pub proof fn law_remove_after_insert(l: Seq<Seq<char>>, x: usize, y: usize, text: Seq<Seq<char>>)
    requires
        y < l.len(),
        x <= l[y as int].len(),
        text.len() >= 1,
        !(text.len() == 1 && text[0].len() == 0),
        insert_fits(l, y as int, text),
        l[y as int].len() + text[0].len() < usize::MAX,
        forall|i: int| 0 <= i < text.len() ==> #[trigger] text[i].len() < usize::MAX,
    ensures
        ({
            let after = lines_after_insert(l, y as int, x as int, text);
            let (ex, ey) = position_before(after, position_after_insert(l, y as int, x as int, text));
            let range = Selection { start: ContentPosition { x, y }, end: ContentPosition { x: ex as usize, y: ey as usize } };
            let (sl, el, s, e) = selection_bounds(after, range);
            &&& removal_allowed(after, range)
            &&& removed_lines(after, sl, el, s, e) == text
            &&& lines_after_removal(after, sl, el, s, e) == l
        }),
{
    let k = text.len() as int;
    let yi = y as int;
    let after = lines_after_insert(l, yi, x as int, text);
    let c = insert_column(l, yi, x as int);
    assert(c == x);
    let head = l[yi].subrange(0, c);
    let tail = l[yi].subrange(c, l[yi].len() as int);
    let (ex, ey) = position_before(after, position_after_insert(l, yi, x as int, text));
    let range = Selection { start: ContentPosition { x, y }, end: ContentPosition { x: ex as usize, y: ey as usize } };
    if k == 1 {
        assert(after[yi] == head + text[0] + tail);
        assert(ey == yi && ex == x + text[0].len() - 1);
        let (sl, el, s, e) = selection_bounds(after, range);
        assert(sl == yi && el == yi && s == x && e == ex);
        assert(after[yi].subrange(x as int, ex + 1) =~= text[0]);
        assert(removed_lines(after, sl, el, s, e) =~= text);
        assert(after[yi].subrange(0, x as int) + after[yi].subrange(ex + 1, after[yi].len() as int) =~= l[yi]);
        assert(lines_after_removal(after, sl, el, s, e) =~= l);
    } else {
        let last = text[k - 1];
        assert(after.len() == l.len() + k - 1);
        assert(after[yi] == head + text[0]);
        assert(after[yi + k - 1] == last + tail);
        assert(forall|i: int| 1 <= i < k - 1 ==> after[yi + i] == text[i]);
        if last.len() > 0 {
            assert(ey == yi + k - 1 && ex == last.len() - 1);
            let (sl, el, s, e) = selection_bounds(after, range);
            assert(sl == yi && el == yi + k - 1 && s == x && e == ex);
            assert(after[yi].subrange(x as int, after[yi].len() as int) =~= text[0]);
            assert(after[el].subrange(0, ex + 1) =~= last);
            assert(after.subrange(yi + 1, el) =~= text.subrange(1, k - 1));
            assert(removed_lines(after, sl, el, s, e) =~= text);
            assert(after[yi].subrange(0, x as int) + after[el].subrange(ex + 1, after[el].len() as int) =~= l[yi]);
            assert(after.skip(el + 1) =~= l.skip(yi + 1));
            assert(lines_after_removal(after, sl, el, s, e) =~= l);
        } else {
            assert(ey == yi + k - 2 && ex == after[yi + k - 2].len());
            let (sl, el, s, e) = selection_bounds(after, range);
            assert(sl == yi && el == yi + k - 2 && s == x && e == ex);
            assert(after[yi + k - 1] =~= tail);
            assert(last =~= Seq::<char>::empty());
            assert(after[yi].subrange(x as int, after[yi].len() as int) =~= text[0]);
            assert(after[el].subrange(0, after[el].len() as int) =~= after[el]);
            assert(after[yi].subrange(0, x as int) + after[el + 1] =~= l[yi]);
            assert(after.skip(el + 2) =~= l.skip(yi + 1));
            if k == 2 {
                assert(removed_lines(after, sl, el, s, e) =~= text);
            } else {
                assert(after.subrange(yi + 1, el) =~= text.subrange(1, k - 2));
                assert(after[el] == text[k - 2]);
                assert(removed_lines(after, sl, el, s, e) =~= text);
            }
            assert(lines_after_removal(after, sl, el, s, e) =~= l);
        }
    }
}

/// Undoing the insertion of a character gives back the lines as they were before it, when the
/// character went into an existing line, at most right after its end.
pub proof fn law_undo_insert_char(m: ContentModel, a: Undo)
    requires
        a.mode == UndoMode::Insert,
        a.pos.y < m.plain.len(),
        a.pos.x <= m.plain[a.pos.y as int].len(),
    ensures
        replay(model_insert_char(m, a.pos, a.ch), a, false).0.plain == m.plain,
{
    let p = m.plain;
    let x = a.pos.x as int;
    let y = a.pos.y as int;
    let m1 = model_insert_char(m, a.pos, a.ch);
    let q = m1.plain;
    if a.ch == '\n' {
        if x < p[y].len() {
            if x == 0 {
                assert(q =~= p.insert(y, Seq::<char>::empty()));
                assert(q[y] + q[y + 1] =~= p[y]);
            } else {
                assert(q[y] =~= p[y].subrange(0, x));
                assert(q[y] + q[y + 1] =~= p[y]);
            }
            assert(q.take(y).push(q[y] + q[y + 1]) + q.skip(y + 2) =~= p);
        } else {
            assert(q[y] == p[y]);
            assert(q[y + 1] =~= Seq::<char>::empty());
            assert(q[y] + q[y + 1] =~= p[y]);
            assert(q.take(y).push(q[y] + q[y + 1]) + q.skip(y + 2) =~= p);
        }
    } else {
        if x < p[y].len() {
            assert(q[y] == p[y].insert(x, a.ch));
        } else {
            assert(q[y] == p[y].push(a.ch));
        }
        assert(q[y].remove(x) =~= p[y]);
        assert(q.update(y, q[y].remove(x)) =~= p);
    }
}

/// Swapping the same two lines twice gives back the original lines.
pub proof fn law_swap_twice(m: ContentModel, first: usize, second: usize)
    ensures
        model_swap(model_swap(m, first as int, second as int), first as int, second as int).plain == m.plain,
{
    let p = m.plain;
    let (a, b) = (first as int, second as int);
    if a < p.len() && b < p.len() {
        let q = p.update(a, p[b]).update(b, p[a]);
        assert(q.update(a, q[b]).update(b, q[a]) =~= p);
    }
}

/// Breaking a joined line where the first part ended gives back the two lines.
proof fn lemma_split_after_join(m: ContentModel, n: int)
    requires
        0 <= n,
        n + 1 < m.plain.len() <= usize::MAX,
        m.plain[n].len() <= usize::MAX,
    ensures
        model_insert_char(model_join(m, n), ContentPosition { x: m.plain[n].len() as usize, y: n as usize }, '\n').plain
            == m.plain,
{
    let p = m.plain;
    let q = model_join(m, n).plain;
    let len = p[n].len() as int;
    assert(q =~= p.take(n).push(p[n] + p[n + 1]) + p.skip(n + 2));
    assert(q[n] =~= p[n] + p[n + 1]);
    let r = model_insert_char(model_join(m, n), ContentPosition { x: len as usize, y: n as usize }, '\n').plain;
    assert(q.skip(n + 1) =~= p.skip(n + 2));
    assert(q.take(n) =~= p.take(n));
    if len < q[n].len() {
        if len == 0 {
            assert(p[n] =~= Seq::<char>::empty());
            assert(r == q.insert(n, Seq::<char>::empty()));
            assert(r =~= p);
        } else {
            assert(q[n].subrange(0, len) =~= p[n]);
            assert(q[n].subrange(len, q[n].len() as int) =~= p[n + 1]);
            assert(r == q.take(n) + seq![q[n].subrange(0, len), q[n].subrange(len, q[n].len() as int)] + q.skip(n + 1));
            assert(r =~= p);
        }
    } else {
        assert(p[n + 1] =~= Seq::<char>::empty());
        assert(q[n] =~= p[n]);
        if n + 1 < q.len() {
            assert(r == q.insert(n + 1, Seq::<char>::empty()));
        } else {
            assert(r == q.push(Seq::<char>::empty()));
        }
        assert(r =~= p);
    }
}

/// Putting a removed character back where it was gives back the line, when it is not a line break.
proof fn lemma_reinsert_char(m: ContentModel, t: int, y: int)
    requires
        0 <= y < m.plain.len() <= usize::MAX,
        0 <= t < m.plain[y].len() <= usize::MAX,
        m.plain[y][t] != '\n',
    ensures
        model_insert_char(model_remove_ch(m, t, y), ContentPosition { x: t as usize, y: y as usize }, m.plain[y][t]).plain
            == m.plain,
{
    let p = m.plain;
    let q = model_remove_ch(m, t, y).plain;
    assert(q[y] =~= p[y].remove(t));
    if t < q[y].len() {
        assert(q[y].insert(t, p[y][t]) =~= p[y]);
    } else {
        assert(q[y].push(p[y][t]) =~= p[y]);
    }
    let r = model_insert_char(model_remove_ch(m, t, y), ContentPosition { x: t as usize, y: y as usize }, p[y][t]).plain;
    assert(r =~= p);
}

/// Undoing the removal of a character gives back the lines as they were before it, when no line
/// holds a line break character.
pub proof fn law_undo_remove_char(m: ContentModel, pos: ContentPosition, is_backspace: bool, a: Undo)
    requires
        m.plain.len() <= usize::MAX,
        forall|i: int| 0 <= i < m.plain.len() ==> #[trigger] m.plain[i].len() <= usize::MAX,
        forall|i: int, j: int| 0 <= i < m.plain.len() && 0 <= j < m.plain[i].len() ==> m.plain[i][j] != '\n',
        a.mode == UndoMode::Remove,
        model_remove_char(m, pos, is_backspace).2 == Some((a.pos, a.ch)),
    ensures
        replay(model_remove_char(m, pos, is_backspace).0, a, false).0.plain == m.plain,
{
    let p = m.plain;
    let x = pos.x as int;
    let y = pos.y as int;
    if is_backspace && x == 0 {
        lemma_split_after_join(m, y - 1);
    } else if y < p.len() && x < p[y].len() {
        let t = if is_backspace { x - 1 } else { x };
        lemma_reinsert_char(m, t, y);
    } else {
        let t = if is_backspace { if x >= 1 { x - 1 } else { 0 } } else { x };
        if t < p[y].len() {
            lemma_reinsert_char(m, t, y);
        } else {
            lemma_split_after_join(m, y);
        }
    }
}

/// Undoing the removal of a range puts the removed text back, giving the lines as they were before,
/// when the range starts on an existing line within it, does not take the (non-existent) line break
/// after the last line, and the removed text fits back.
pub proof fn law_undo_remove_text(m: ContentModel, range: Selection, a: Undo)
    requires
        removal_allowed(m.plain, range),
        ordered(range.start, range.end).0.y < m.plain.len(),
        ({
            let (sl, el, s, e) = selection_bounds(m.plain, range);
            &&& s <= m.plain[sl].len()
            &&& !(takes_line_break(m.plain, el, e) && el == m.plain.len() - 1)
        }),
        a.mode == UndoMode::Cut,
        a.pos == ordered(range.start, range.end).0,
        a.end == Some(ordered(range.start, range.end).1),
        a.text is Some,
        view_lines(a.text->0@) == model_removed_text(m, range),
        text_insertable(model_remove_text(m, range), a),
    ensures
        replay(model_remove_text(m, range), a, false).0.plain == m.plain,
{
    law_reinsert_after_removal(m.plain, range);
}

/// Undoing the insertion of text removes it again, giving the lines as they were before, when the
/// text is not empty and went into an existing line, within it.
pub proof fn law_undo_insert_text(m: ContentModel, position: ContentPosition, text: Seq<Seq<char>>, a: Undo)
    requires
        position.y < m.plain.len(),
        position.x <= m.plain[position.y as int].len(),
        text.len() >= 1,
        !(text.len() == 1 && text[0].len() == 0),
        insert_fits(m.plain, position.y as int, text),
        m.plain[position.y as int].len() + text[0].len() < usize::MAX,
        forall|i: int| 0 <= i < text.len() ==> #[trigger] text[i].len() < usize::MAX,
        a.mode == UndoMode::Paste,
        ({
            let after = model_insert_text(m, position, text);
            let end = inserted_end(m, position, text);
            let (lx, ly) = position_before(after.plain, (end.x as int, end.y as int));
            let left = ContentPosition { x: lx as usize, y: ly as usize };
            &&& a.pos == ordered(position, left).0
            &&& a.end == Some(ordered(position, left).1)
        }),
    ensures
        replay(model_insert_text(m, position, text), a, false).0.plain == m.plain,
{
    let l = m.plain;
    let (x, y) = (position.x, position.y);
    law_remove_after_insert(l, x, y, text);
    let after = lines_after_insert(l, y as int, x as int, text);
    let (px, py) = position_after_insert(l, y as int, x as int, text);
    let k = text.len() as int;
    assert(insert_column(l, y as int, x as int) == x);
    assert(0 <= px <= usize::MAX && 0 <= py <= usize::MAX);
    let (ex, ey) = position_before(after, (px, py));
    if k == 1 {
        assert(ey == y && ex >= x);
    } else {
        assert(after.len() == l.len() + k - 1);
        if text[k - 1].len() > 0 {
            assert(ey == y + k - 1);
        } else {
            assert(after[y + k - 2].len() <= usize::MAX) by {
                if k == 2 {
                    assert(after[y as int] == l[y as int].subrange(0, x as int) + text[0]);
                } else {
                    assert(after[y + k - 2] == text[k - 2]);
                }
            }
            assert(ey == y + k - 2);
            if k == 2 {
                assert(after[y as int] == l[y as int].subrange(0, x as int) + text[0]);
                assert(ex >= x);
            }
        }
    }
    let left = ContentPosition { x: ex as usize, y: ey as usize };
    assert(in_order(position, left));
    assert(entry_range(a) == Selection { start: position, end: left });
}

/// The lines after inserting a character depend on the lines alone.
proof fn lemma_insert_char_plain(m1: ContentModel, m2: ContentModel, pos: ContentPosition, ch: char)
    requires
        m1.plain == m2.plain,
    ensures
        model_insert_char(m1, pos, ch).plain == model_insert_char(m2, pos, ch).plain,
{
}

/// Redoing an undone character insertion inserts the character again, when it went into an
/// existing line, at most right after its end.
pub proof fn law_redo_after_undo_insert_char(m: ContentModel, a: Undo, b: Undo)
    requires
        a.mode == UndoMode::Insert,
        a.pos.y < m.plain.len(),
        a.pos.x <= m.plain[a.pos.y as int].len(),
        b.mode == a.mode && b.pos == a.pos && b.ch == a.ch,
    ensures
        replay(replay(model_insert_char(m, a.pos, a.ch), a, false).0, b, true).0.plain == model_insert_char(m, a.pos, a.ch).plain,
{
    law_undo_insert_char(m, a);
    let undone = replay(model_insert_char(m, a.pos, a.ch), a, false).0;
    lemma_insert_char_plain(undone, m, a.pos, a.ch);
}

/// The lines after removing a character depend on the lines alone.
proof fn lemma_remove_char_plain(m1: ContentModel, m2: ContentModel, pos: ContentPosition, is_backspace: bool)
    requires
        m1.plain == m2.plain,
    ensures
        model_remove_char(m1, pos, is_backspace).0.plain == model_remove_char(m2, pos, is_backspace).0.plain,
{
}

/// Redoing an undone character removal removes the same character again, giving the lines as they
/// were after the removal (on the inputs of `law_undo_remove_char`).
pub proof fn law_redo_after_undo_remove_char(m: ContentModel, pos: ContentPosition, is_backspace: bool, a: Undo, b: Undo)
    requires
        m.plain.len() <= usize::MAX,
        forall|i: int| 0 <= i < m.plain.len() ==> #[trigger] m.plain[i].len() <= usize::MAX,
        forall|i: int, j: int| 0 <= i < m.plain.len() && 0 <= j < m.plain[i].len() ==> m.plain[i][j] != '\n',
        a.mode == UndoMode::Remove,
        model_remove_char(m, pos, is_backspace).2 == Some((a.pos, a.ch)),
        b.mode == a.mode && b.pos == a.pos && b.ch == a.ch,
    ensures
        replay(replay(model_remove_char(m, pos, is_backspace).0, a, false).0, b, true).0.plain
            == model_remove_char(m, pos, is_backspace).0.plain,
{
    law_undo_remove_char(m, pos, is_backspace, a);
    let undone = replay(model_remove_char(m, pos, is_backspace).0, a, false).0;
    lemma_remove_char_plain(undone, m, a.pos, false);
}

/// Redoing an undone removal of a range removes it again, giving the lines as they were after the
/// removal (on the inputs on which undoing it gives back the lines, see `law_undo_remove_text`).
pub proof fn law_redo_after_undo_remove_text(m: ContentModel, range: Selection, a: Undo, b: Undo)
    requires
        removal_allowed(m.plain, range),
        ordered(range.start, range.end).0.y < m.plain.len(),
        ({
            let (sl, el, s, e) = selection_bounds(m.plain, range);
            &&& !removal_is_empty(m.plain, sl, el, s, e)
            &&& s <= m.plain[sl].len()
            &&& !(takes_line_break(m.plain, el, e) && el == m.plain.len() - 1)
        }),
        a.mode == UndoMode::Cut,
        a.pos == ordered(range.start, range.end).0,
        a.end == Some(ordered(range.start, range.end).1),
        a.text is Some,
        view_lines(a.text->0@) == model_removed_text(m, range),
        text_insertable(model_remove_text(m, range), a),
        replayed_entry(model_remove_text(m, range), a, false, b),
    ensures
        replay(replay(model_remove_text(m, range), a, false).0, b, true).0.plain == model_remove_text(m, range).plain,
{
    law_undo_remove_text(m, range, a);
    let undone = replay(model_remove_text(m, range), a, false).0;
    let (p, q) = ordered(range.start, range.end);
    assert(in_order(p, q));
    assert(ordered(p, q) == (p, q));
    assert(entry_range(b) == Selection { start: p, end: q });
    assert(selection_bounds(undone.plain, entry_range(b)) == selection_bounds(m.plain, range));
    assert(range_removable(undone, b));
}

/// Redoing an undone insertion of text inserts it again, giving the lines as they were after the
/// insertion (on the inputs on which undoing it gives back the lines, see `law_undo_insert_text`,
/// and where the text can be put back).
#[verifier::rlimit(60)]
pub proof fn law_redo_after_undo_insert_text(m: ContentModel, position: ContentPosition, text: Seq<Seq<char>>, a: Undo, b: Undo)
    requires
        position.y < m.plain.len(),
        position.x <= m.plain[position.y as int].len(),
        text.len() >= 1,
        !(text.len() == 1 && text[0].len() == 0),
        insert_fits(m.plain, position.y as int, text),
        m.plain[position.y as int].len() + text[0].len() < usize::MAX,
        forall|i: int| 0 <= i < text.len() ==> #[trigger] text[i].len() < usize::MAX,
        position.y + text.len() <= usize::MAX,
        a.mode == UndoMode::Paste,
        ({
            let after = model_insert_text(m, position, text);
            let end = inserted_end(m, position, text);
            let (lx, ly) = position_before(after.plain, (end.x as int, end.y as int));
            let left = ContentPosition { x: lx as usize, y: ly as usize };
            &&& a.pos == ordered(position, left).0
            &&& a.end == Some(ordered(position, left).1)
            &&& ordered(position, left).1.x < usize::MAX
        }),
        replayed_entry(model_insert_text(m, position, text), a, false, b),
    ensures
        replay(replay(model_insert_text(m, position, text), a, false).0, b, true).0.plain == model_insert_text(m, position, text).plain,
{
    law_undo_insert_text(m, position, text, a);
    law_remove_after_insert(m.plain, position.x, position.y, text);
    let after = model_insert_text(m, position, text);
    let undone = replay(after, a, false).0;
    assert(entry_range(a) == Selection { start: a.pos, end: a.end->0 });
    assert(a.pos == position);
    assert(range_removable(after, a));
    assert(view_lines(b.text->0@) == text);
    assert(text_insertable(undone, b));
}

/// After an edit-mode move the cursor stays on an existing line (when there is one), at most right
/// after its end.
pub proof fn law_cursor_stays_in_content(s: EditState, pos: NewCursorPosition, m: ContentModel, is_mouse: bool)
    requires
        0 < m.plain.len() <= usize::MAX,
        forall|i: int| 0 <= i < m.plain.len() ==> #[trigger] m.plain[i].len() <= usize::MAX,
    ensures
        moved_in(s, pos, m, is_mouse).cursor.y < m.plain.len(),
        moved_in(s, pos, m, is_mouse).cursor.x <= width_in(m, moved_in(s, pos, m, is_mouse).cursor.y as int),
{
}

/// Scrolling to a line of the content shows it: afterwards it lies on the page.
pub proof fn law_scroll_to_shows_line(v: ViewerState, line: usize, col: usize, width: usize)
    requires
        v.content is Some,
        v.page_area.height > 0,
        line < v.content->0@.plain.len() <= usize::MAX,
    ensures
        scrolled_to(v, line, col, width).y <= line,
        line < scrolled_to(v, line, col, width).y + v.page_area.height,
{
    let h = v.page_area.height as int;
    let n = v.content->0@.plain.len() as int;
    assert(max_vstart_of(v) == if n >= h { n - h } else { 0 });
}

/// Moving between matches keeps the current match number within `1..=total` (or none): with more
/// than one match, forward goes to the next number and past the last to none, backward to the
/// previous one and before the first to none, and from none to the first or the last; with one
/// match or none the number stays. The one exception is moving forward from the last of
/// `usize::MAX` matches, where the number stays at the last.
pub proof fn law_navigate_match_number(v: ViewerState, forward: bool, offset: Option<ScreenPosition>)
    requires
        v.current is Some ==> v.matches is Some && 1 <= v.current->0 <= v.matches->0.len(),
        v.matches is Some ==> v.matches->0.len() <= usize::MAX,
        !(forward && v.matches is Some && v.matches->0.len() == usize::MAX && v.current == Some(usize::MAX)),
    ensures
        ({
            let t = match v.matches {
                Some(ms) => ms.len(),
                None => 0,
            };
            let c2 = navigated(v, forward, offset).current;
            &&& c2 is Some ==> 1 <= c2->0 <= t
            &&& t <= 1 ==> c2 == v.current
            &&& t > 1 ==> c2 == match v.current {
                None => Some(if forward { 1 } else { t as usize }),
                Some(c) => if forward {
                    if c < t { Some((c + 1) as usize) } else { None }
                } else {
                    if c > 1 { Some((c - 1) as usize) } else { None }
                },
            }
        }),
{
}

} // verus!
