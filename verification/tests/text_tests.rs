use mirante::position::{ContentPosition, MatchPosition, ScreenPosition};
use mirante::selection::{sort, Selection};
use mirante::text::{get_char_position, get_end_position, CharPosition, PositionSet, VecStringExt};
use mirante::utf8::char_to_index;

#[test]
fn char_index_counts_bytes() {
    let line = "apiVersiąn: v1 #with comment";
    assert_eq!(Some(19), char_to_index(line, 18));
    assert_eq!(Some(8), char_to_index(line, 8));
    assert_eq!(Some(10), char_to_index(line, 9));
    assert_eq!(None, char_to_index(line, 28));
}

#[test]
fn char_position_reports_previous_character() {
    let lines = vec!["ąb".to_owned(), "cd".to_owned()];
    assert_eq!(
        Some(PositionSet { x_prev: CharPosition { char: 0, index: 0 }, x: CharPosition { char: 1, index: 2 } }),
        get_char_position(&lines, ContentPosition::new(1, 0))
    );
    assert_eq!(
        Some(PositionSet { x_prev: CharPosition { char: 0, index: 0 }, x: CharPosition { char: 0, index: 0 } }),
        get_char_position(&lines, ContentPosition::new(0, 1))
    );
    assert_eq!(None, get_char_position(&lines, ContentPosition::new(2, 0)));
    assert_eq!(None, get_char_position(&lines, ContentPosition::new(0, 2)));
}

#[test]
fn end_position_is_after_last_character() {
    assert_eq!(ContentPosition::new(3, 1), get_end_position(&["a".to_owned(), "ąbc".to_owned()]));
    assert_eq!(ContentPosition::new(0, 0), get_end_position(&[]));
}

#[test]
fn join_lines_merges_with_next() {
    let mut lines = vec!["a".to_owned(), "b".to_owned(), "c".to_owned()];
    lines.join_lines(1);
    assert_eq!(vec!["a".to_owned(), "bc".to_owned()], lines);
    lines.join_lines(1);
    assert_eq!(vec!["a".to_owned(), "bc".to_owned()], lines);
}

#[test]
fn reinserting_removed_text_restores_lines() {
    let original = vec!["first line".to_owned(), "second line".to_owned(), "third".to_owned()];
    let mut lines = original.clone();
    let removed = lines.remove_text(&Selection::new(ContentPosition::new(6, 0), ContentPosition::new(5, 1)));
    assert_eq!(vec!["first  line".to_owned(), "third".to_owned()], lines);
    lines.insert_text(ContentPosition::new(6, 0), removed);
    assert_eq!(original, lines);
}

#[test]
fn removing_inserted_text_restores_lines() {
    let original = vec!["kind: Pod".to_owned()];
    let mut lines = original.clone();
    let end = lines.insert_text(ContentPosition::new(4, 0), vec!["X".to_owned(), "Y".to_owned()]);
    assert_eq!(ContentPosition::new(1, 1), end);
    let removed = lines.remove_text(&Selection::new(ContentPosition::new(4, 0), ContentPosition::new(0, 1)));
    assert_eq!(vec!["X".to_owned(), "Y".to_owned()], removed);
    assert_eq!(original, lines);
}

#[test]
fn positions_and_selections() {
    let mut p = ContentPosition::new(1, 1);
    p.sub_x(5);
    p.add_y(usize::MAX);
    assert_eq!(ContentPosition::new(0, usize::MAX), p);
    p.add_x(3);
    p.sub_y(usize::MAX);
    assert_eq!(ContentPosition::new(3, 0), p);
    let a = ContentPosition::new(5, 1);
    let b = ContentPosition::new(2, 3);
    assert_eq!((a, b), sort(b, a));
    assert!(Selection::new(a, b).is_end_after_start());
    assert!(!Selection::new(b, a).is_end_after_start());
    assert_eq!((a, b), Selection::new(b, a).sorted());
    assert_eq!(Selection::new(ContentPosition::new(0, 4), ContentPosition::new(7, 4)), Selection::from_line_end(7, 4));
    let m = MatchPosition::new(usize::MAX - 1, 2, 3).adjust_by(ScreenPosition::new(5, 1));
    assert_eq!(MatchPosition::new(usize::MAX, 3, 3), m);
}

#[test]
fn several_lines_replace_a_single_empty_line() {
    let mut lines = vec![String::new()];
    let pos = lines.insert_text(ContentPosition::new(0, 3), vec!["a".to_owned(), "bc".to_owned()]);
    assert_eq!(vec!["a".to_owned(), "bc".to_owned()], lines);
    assert_eq!(ContentPosition::new(2, 1), pos);
}

#[test]
fn one_line_after_a_single_empty_line_is_appended() {
    let mut lines = vec![String::new()];
    let pos = lines.insert_text(ContentPosition::new(0, 3), vec!["abc".to_owned()]);
    assert_eq!(vec![String::new(), "abc".to_owned()], lines);
    assert_eq!(ContentPosition::new(3, 1), pos);
}

#[test]
fn several_lines_past_the_line_end_go_at_its_end() {
    let mut lines = vec!["ab".to_owned(), "cd".to_owned()];
    let pos = lines.insert_text(ContentPosition::new(5, 0), vec!["x".to_owned(), "y".to_owned(), "zz".to_owned()]);
    assert_eq!(vec!["abx".to_owned(), "y".to_owned(), "zz".to_owned(), "cd".to_owned()], lines);
    assert_eq!(ContentPosition::new(2, 2), pos);
}

#[test]
fn several_lines_replace_a_single_empty_line_at_any_column() {
    let mut lines = vec![String::new()];
    let pos = lines.insert_text(ContentPosition::new(4, 0), vec!["a".to_owned(), "bc".to_owned()]);
    assert_eq!(vec!["a".to_owned(), "bc".to_owned()], lines);
    assert_eq!(ContentPosition::new(2, 1), pos);
}
