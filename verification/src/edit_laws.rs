use vstd::prelude::*;

use crate::edit::{key_code_fits, key_code_outcome, moved_in, spaces_inserted, EditState};
use crate::events::KeyCode;
use crate::position::{ContentPosition, Rect};
use crate::yaml::{leading_space_count, model_insert_char, ContentModel};

verus! {

/// Inserting a character other than a line break at a position within an existing line puts it
/// there, leaving the other lines as they are.
proof fn lemma_insert_char_in_line(m: ContentModel, pos: ContentPosition, ch: char)
    requires
        pos.y < m.plain.len(),
        pos.x <= m.plain[pos.y as int].len(),
        ch != '\n',
    ensures
        model_insert_char(m, pos, ch).plain == m.plain.update(pos.y as int, m.plain[pos.y as int].insert(pos.x as int, ch)),
{
    let line = m.plain[pos.y as int];
    if pos.x as int == line.len() {
        assert(line.push(ch) =~= line.insert(pos.x as int, ch));
    }
}

/// The characters that typing `key` puts in front of the cursor: the character itself, or two
/// spaces for `Tab`.
pub open spec fn typed_chars(key: KeyCode) -> Seq<char> {
    match key {
        KeyCode::Char(c) => seq![c],
        _ => seq![' ', ' '],
    }
}

/// Typing a character (other than a line break) or a `Tab` at a cursor within its line inserts
/// the typed characters at the cursor and asks for the cursor right after them: the requested
/// column is the old one plus the number of characters inserted, everything before the old column
/// and everything from it on is kept around them, and no other line changes.
pub proof fn law_typing_moves_cursor_past_insert(
    m: ContentModel,
    key: KeyCode,
    cursor: ContentPosition,
    area: Rect,
    typed_slowly: bool,
)
    requires
        cursor.y < m.plain.len(),
        cursor.x <= m.plain[cursor.y as int].len(),
        match key {
            KeyCode::Char(c) => c != '\n',
            KeyCode::Tab => true,
            _ => false,
        },
        key_code_fits(key, cursor),
    ensures
        ({
            let (m2, moves) = key_code_outcome(m, key, cursor, area, typed_slowly);
            let y = cursor.y as int;
            let x = cursor.x as int;
            let t = typed_chars(key);
            let nx = x + t.len();
            let old_line = m.plain[y];
            let new_line = m2.plain[y];
            &&& moves == (Some(Some(nx as usize)), None::<usize>)
            &&& new_line.len() == old_line.len() + t.len()
            &&& new_line.take(x) == old_line.take(x)
            &&& new_line.subrange(x, nx) == t
            &&& new_line.skip(nx) == old_line.skip(x)
            &&& m2.plain.len() == m.plain.len()
            &&& forall|i: int| 0 <= i < m.plain.len() && i != y ==> m2.plain[i] == m.plain[i]
        }),
{
    let y = cursor.y as int;
    let x = cursor.x as int;
    let line = m.plain[y];
    match key {
        KeyCode::Char(c) => {
            lemma_insert_char_in_line(m, cursor, c);
            let nl = line.insert(x, c);
            assert(nl.take(x) =~= line.take(x));
            assert(nl.subrange(x, x + 1) =~= seq![c]);
            assert(nl.skip(x + 1) =~= line.skip(x));
        },
        _ => {
            lemma_insert_char_in_line(m, cursor, ' ');
            let m1 = model_insert_char(m, cursor, ' ');
            let l1 = line.insert(x, ' ');
            lemma_insert_char_in_line(m1, cursor, ' ');
            let nl = l1.insert(x, ' ');
            assert(nl.take(x) =~= line.take(x));
            assert(nl.subrange(x, x + 2) =~= seq![' ', ' ']);
            assert(nl.skip(x + 2) =~= line.skip(x));
        },
    }
}

/// Deleting a character within a line: `Backspace` after column 0 removes the character before the
/// cursor and asks for the cursor one column back, `Delete` before the line end removes the
/// character under the cursor and keeps the column; either way the text before the new cursor and
/// the text after the removed character stay, and the line is one character shorter.
pub proof fn law_delete_within_line(m: ContentModel, key: KeyCode, cursor: ContentPosition, area: Rect, typed_slowly: bool)
    requires
        cursor.y < m.plain.len(),
        key is Backspace ==> 1 <= cursor.x <= m.plain[cursor.y as int].len(),
        key is Delete ==> cursor.x < m.plain[cursor.y as int].len(),
        key is Backspace || key is Delete,
    ensures
        ({
            let (m2, moves) = key_code_outcome(m, key, cursor, area, typed_slowly);
            let y = cursor.y as int;
            let x = cursor.x as int;
            let nx = if key is Backspace { x - 1 } else { x };
            let old_line = m.plain[y];
            let new_line = m2.plain[y];
            &&& moves == (Some(Some(nx as usize)), Some(cursor.y))
            &&& new_line.len() + 1 == old_line.len()
            &&& new_line.take(nx) == old_line.take(nx)
            &&& new_line.skip(nx) == old_line.skip(nx + 1)
            &&& m2.plain.len() == m.plain.len()
            &&& forall|i: int| 0 <= i < m.plain.len() && i != y ==> m2.plain[i] == m.plain[i]
        }),
{
    let y = cursor.y as int;
    let x = cursor.x as int;
    let nx = if key is Backspace { x - 1 } else { x };
    let line = m.plain[y];
    let nl = line.remove(nx);
    assert(nl.take(nx) =~= line.take(nx));
    assert(nl.skip(nx) =~= line.skip(nx + 1));
}

/// `n` spaces.
pub open spec fn space_run(n: nat) -> Seq<char> {
    Seq::new(n, |i: int| ' ')
}

/// Inserting `count` spaces one after another at the start of a line puts them in front of it.
proof fn lemma_spaces_inserted(m: ContentModel, count: nat, row: usize)
    requires
        row < m.plain.len(),
        count <= usize::MAX,
    ensures
        spaces_inserted(m, count, row).plain == m.plain.update(row as int, space_run(count) + m.plain[row as int]),
    decreases count,
{
    if count == 0 {
        assert(space_run(0) + m.plain[row as int] =~= m.plain[row as int]);
        assert(m.plain.update(row as int, m.plain[row as int]) =~= m.plain);
    } else {
        lemma_spaces_inserted(m, (count - 1) as nat, row);
        let m1 = spaces_inserted(m, (count - 1) as nat, row);
        let l1 = space_run((count - 1) as nat) + m.plain[row as int];
        lemma_insert_char_in_line(m1, ContentPosition { x: (count - 1) as usize, y: row }, ' ');
        assert(l1.insert(count - 1, ' ') =~= space_run(count) + m.plain[row as int]);
        assert(m1.plain.update(row as int, l1.insert(count - 1, ' ')) =~= m.plain.update(row as int, space_run(count) + m.plain[row as int]));
    }
}

/// `Enter` at a cursor within its line splits the line there: the text before the cursor stays
/// on its line and the text from the cursor on moves to a new next line. Typed by hand it starts
/// the new line with as many spaces as the split line starts with (keeping the indentation),
/// pasted it adds none; the cursor goes right after those spaces on the new line.
pub proof fn law_enter_keeps_indentation(m: ContentModel, cursor: ContentPosition, area: Rect, typed_slowly: bool)
    requires
        cursor.y < m.plain.len(),
        cursor.x <= m.plain[cursor.y as int].len(),
        key_code_fits(KeyCode::Enter, cursor),
    ensures
        ({
            let (m2, moves) = key_code_outcome(m, KeyCode::Enter, cursor, area, typed_slowly);
            let y = cursor.y as int;
            let x = cursor.x as int;
            let old_line = m.plain[y];
            let head = old_line.take(x);
            let k = if typed_slowly { leading_space_count(head) } else { 0 };
            &&& moves == (Some(Some(k as usize)), Some((cursor.y + 1) as usize))
            &&& m2.plain.len() == m.plain.len() + 1
            &&& m2.plain[y] == head
            &&& m2.plain[y + 1] == space_run(k) + old_line.skip(x)
            &&& forall|i: int| 0 <= i < y ==> m2.plain[i] == m.plain[i]
            &&& forall|i: int| y + 1 < i < m2.plain.len() ==> m2.plain[i] == m.plain[i - 1]
        }),
{
    let y = cursor.y as int;
    let x = cursor.x as int;
    let line = m.plain[y];
    let m1 = model_insert_char(m, cursor, '\n');
    let expected = m.plain.take(y) + seq![line.take(x), line.skip(x)] + m.plain.skip(y + 1);
    if x == 0 {
        assert(line.take(0) =~= Seq::<char>::empty());
        assert(line.skip(0) =~= line);
        assert(m1.plain =~= expected);
    } else if x < line.len() {
        assert(line.subrange(0, x) =~= line.take(x));
        assert(line.subrange(x, line.len() as int) =~= line.skip(x));
        assert(m1.plain =~= expected);
    } else {
        assert(line.take(x) =~= line);
        assert(line.skip(x) =~= Seq::<char>::empty());
        assert(m1.plain =~= expected);
    }
    assert(m1.plain[y] == line.take(x));
    if typed_slowly {
        let k = leading_space_count(m1.plain[y]) as usize;
        lemma_leading_space_count_bound(line.take(x));
        lemma_spaces_inserted(m1, k as nat, (cursor.y + 1) as usize);
    } else {
        assert(space_run(0) + line.skip(x) =~= line.skip(x));
    }
}

/// A line starts with at most as many spaces as it has characters.
proof fn lemma_leading_space_count_bound(s: Seq<char>)
    ensures
        leading_space_count(s) <= s.len(),
    decreases s.len(),
{
    if s.len() > 0 && s[0] == ' ' {
        lemma_leading_space_count_bound(s.drop_first());
    }
}

/// The edit state after pressing `key` in edit mode, for a key that moves the cursor without
/// changing the content.
pub open spec fn after_move_key(s: EditState, m: ContentModel, key: KeyCode, area: Rect) -> EditState {
    moved_in(s, key_code_outcome(m, key, s.cursor, area, false).1, m, false)
}

/// Moving the cursor in edit mode: `Right` goes to the next character, or from a line end to the
/// start of the next line; `Left` goes back the same way, so `Right` then `Left` returns to where
/// the cursor was (except at the very end, where `Right` stays); `Home` and `End` go to the start
/// and the end of the line.
pub proof fn law_cursor_moves(s: EditState, m: ContentModel, area: Rect)
    requires
        s.cursor.y < m.plain.len(),
        s.cursor.x <= m.plain[s.cursor.y as int].len(),
        m.plain.len() <= usize::MAX,
        forall|i: int| 0 <= i < m.plain.len() ==> #[trigger] m.plain[i].len() < usize::MAX,
    ensures
        ({
            let c = s.cursor;
            let w = m.plain[c.y as int].len();
            let at_end = c.x == w && c.y + 1 == m.plain.len();
            let right = after_move_key(s, m, KeyCode::Right, area);
            let back = after_move_key(right, m, KeyCode::Left, area);
            &&& right.cursor == (if c.x < w {
                ContentPosition { x: (c.x + 1) as usize, y: c.y }
            } else if !at_end {
                ContentPosition { x: 0, y: (c.y + 1) as usize }
            } else {
                c
            })
            &&& !at_end ==> back.cursor == c
            &&& after_move_key(s, m, KeyCode::Home, area).cursor == ContentPosition { x: 0, y: c.y }
            &&& after_move_key(s, m, KeyCode::End, area).cursor == ContentPosition { x: w as usize, y: c.y }
        }),
{
    let c = s.cursor;
    let w = m.plain[c.y as int].len();
    if c.x == w && c.y + 1 < m.plain.len() {
        assert(m.plain[c.y + 1].len() < usize::MAX);
    }
}

} // verus!
