use mirante::content::Content;
use mirante::position::{ContentPosition, MatchPosition};
use mirante::selection::Selection;
use mirante::yaml::YamlContent;

fn lines(text: &str) -> Vec<String> {
    text.split('\n').map(String::from).collect()
}

#[test]
fn insert_text_internal_test() {
    let mut content = YamlContent::new(Vec::new(), false);
    content.insert_text_internal(ContentPosition::new(0, 0), vec!["first".to_owned(), "second".to_owned()]);
    assert_eq!("first\nsecond", content.plain.join("\n"));

    content.insert_text_internal(ContentPosition::new(0, 1), vec![String::new(), String::new()]);
    assert_eq!("first\n\nsecond", content.plain.join("\n"));
}

#[test]
fn to_plain_text_test() {
    let mut content = YamlContent::new(Vec::new(), false);
    content.insert_text_internal(ContentPosition::new(0, 0), vec!["first".to_owned(), "second".to_owned()]);

    let result = content.to_plain_text(Some(Selection {
        start: ContentPosition::new(5, 0),
        end: ContentPosition::new(5, 0),
    }));

    assert_eq!("\n", result);
}

#[test]
fn to_plain_text_whole_and_range() {
    let content = YamlContent::new(lines("kind: Pod\nmetadata:\n  name: test"), true);
    assert_eq!("kind: Pod\nmetadata:\n  name: test", content.to_plain_text(None));
    let part = content.to_plain_text(Some(Selection::new(ContentPosition::new(6, 0), ContentPosition::new(3, 2))));
    assert_eq!("Pod\nmetadata:\n  na", part);
}

#[test]
fn undo_restores_inserted_char() {
    let mut content = YamlContent::new(lines("kind: Pod\nmetadata:"), true);
    content.insert_char(ContentPosition::new(4, 0), 'X');
    assert_eq!("kindX: Pod", content.plain[0]);
    let pos = content.undo();
    assert_eq!(Some(ContentPosition::new(4, 0)), pos);
    assert_eq!("kind: Pod\nmetadata:", content.plain.join("\n"));
    assert_eq!("kind: pod", content.lowercase[0]);
}

#[test]
fn undo_restores_split_line() {
    let mut content = YamlContent::new(lines("kind: Pod\nmetadata:"), true);
    content.insert_char(ContentPosition::new(5, 0), '\n');
    assert_eq!("kind:\n Pod\nmetadata:", content.plain.join("\n"));
    content.undo();
    assert_eq!("kind: Pod\nmetadata:", content.plain.join("\n"));
}

#[test]
fn redo_reapplies_undone_insert() {
    let mut content = YamlContent::new(lines("abc"), true);
    content.insert_char(ContentPosition::new(1, 0), 'Z');
    content.undo();
    assert_eq!("abc", content.plain[0]);
    let pos = content.redo();
    assert_eq!("aZbc", content.plain[0]);
    assert_eq!(Some(ContentPosition::new(2, 0)), pos);
    assert_eq!(None, content.redo());
}

#[test]
fn undo_with_empty_history_does_nothing() {
    let mut content = YamlContent::new(lines("abc"), true);
    assert_eq!(None, content.undo());
    assert_eq!(None, content.redo());
    assert_eq!("abc", content.plain[0]);
}

#[test]
fn undo_restores_removed_char() {
    let mut content = YamlContent::new(lines("first\nsecond"), true);
    let pos = content.remove_char(ContentPosition::new(0, 1), true);
    assert_eq!(Some(ContentPosition::new(5, 0)), pos);
    assert_eq!("firstsecond", content.plain.join("\n"));
    content.undo();
    assert_eq!("first\nsecond", content.plain.join("\n"));
}

#[test]
fn redo_removes_undone_char_again() {
    let mut content = YamlContent::new(lines("first\nsecond"), true);
    content.remove_char(ContentPosition::new(3, 1), true);
    assert_eq!("first\nseond", content.plain.join("\n"));
    content.undo();
    assert_eq!("first\nsecond", content.plain.join("\n"));
    content.redo();
    assert_eq!("first\nseond", content.plain.join("\n"));
}

#[test]
fn remove_char_delete_and_backspace() {
    let mut content = YamlContent::new(lines("abc"), true);
    assert_eq!(Some(ContentPosition::new(1, 0)), content.remove_char(ContentPosition::new(1, 0), false));
    assert_eq!("ac", content.plain[0]);
    assert_eq!(Some(ContentPosition::new(0, 0)), content.remove_char(ContentPosition::new(1, 0), true));
    assert_eq!("c", content.plain[0]);
    assert_eq!(None, content.remove_char(ContentPosition::new(5, 0), false));
    assert_eq!(None, content.remove_char(ContentPosition::new(0, 3), false));
}

#[test]
fn undo_restores_removed_text() {
    let text = "apiVersion: v1\nkind: Pod\nmetadata:";
    let mut content = YamlContent::new(lines(text), true);
    content.remove_text(Selection::new(ContentPosition::new(3, 0), ContentPosition::new(2, 1)));
    assert_eq!("apid: Pod\nmetadata:", content.plain.join("\n"));
    let pos = content.undo();
    assert_eq!(text, content.plain.join("\n"));
    assert_eq!(Some(ContentPosition::new(3, 1)), pos);
    content.redo();
    assert_eq!("apid: Pod\nmetadata:", content.plain.join("\n"));
}

#[test]
fn undo_removes_inserted_text() {
    let text = "kind: Pod\nmetadata:";
    let mut content = YamlContent::new(lines(text), true);
    let end = content.insert_text(ContentPosition::new(4, 0), lines("one\ntwo"));
    assert_eq!(ContentPosition::new(3, 1), end);
    assert_eq!("kindone\ntwo: Pod\nmetadata:", content.plain.join("\n"));
    content.undo();
    assert_eq!(text, content.plain.join("\n"));
}

#[test]
fn redo_reinserts_undone_text() {
    let text = "kind: Pod\nmetadata:";
    let mut content = YamlContent::new(lines(text), true);
    content.insert_text(ContentPosition::new(4, 0), lines("one\ntwo"));
    content.undo();
    assert_eq!(text, content.plain.join("\n"));
    content.redo();
    assert_eq!("kindone\ntwo: Pod\nmetadata:", content.plain.join("\n"));
}

#[test]
fn swap_lines_and_undo() {
    let mut content = YamlContent::new(lines("a\nb\nc"), true);
    content.swap_lines(0, 2);
    assert_eq!("c\nb\na", content.plain.join("\n"));
    let pos = content.undo();
    assert_eq!(Some(ContentPosition::new(0, 2)), pos);
    assert_eq!("a\nb\nc", content.plain.join("\n"));
}

#[test]
fn search_is_case_insensitive() {
    let content = YamlContent::new(lines("Name: x\nname: NAME"), false);
    let found = content.search("name");
    assert_eq!(
        vec![MatchPosition::new(0, 0, 4), MatchPosition::new(0, 1, 4), MatchPosition::new(6, 1, 4)],
        found
    );
    assert_eq!(Some(MatchPosition::new(0, 0, 4)), content.search_first("NAME"));
    assert_eq!(None, content.search_first("missing"));
}

#[test]
fn line_queries() {
    let content = YamlContent::new(lines("kind: Pod\n    name: abc"), true);
    assert_eq!(Some("kind: Pod"), content.line(0));
    assert_eq!(None, content.line(2));
    assert_eq!(Some(4), content.leading_spaces(1));
    assert_eq!(None, content.leading_spaces(2));
    assert_eq!(2, content.len());
    assert_eq!(14, content.max_size());
    assert_eq!(9, content.line_size(0));
    assert_eq!(0, content.line_size(5));
    assert!(content.is_editable());
}

#[test]
fn word_bounds_finds_word() {
    let content = YamlContent::new(lines("kind: Pod  name"), true);
    assert_eq!(Some((0, 4)), content.word_bounds(ContentPosition::new(2, 0)));
    assert_eq!(Some((6, 8)), content.word_bounds(ContentPosition::new(7, 0)));
    assert_eq!(None, content.word_bounds(ContentPosition::new(5, 0)));
    assert_eq!(None, content.word_bounds(ContentPosition::new(0, 1)));
}

#[test]
fn hash_depends_on_lines() {
    let a = YamlContent::new(lines("a\nb"), true);
    let b = YamlContent::new(lines("a\nb"), false);
    let c = YamlContent::new(lines("a\nc"), true);
    assert_eq!(a.hash(), b.hash());
    assert_ne!(a.hash(), c.hash());
}

#[test]
fn longest_line_is_tracked() {
    let mut content = YamlContent::new(lines("ab\nabcd"), true);
    assert_eq!(5, content.max_size());
    content.insert_char(ContentPosition::new(0, 0), 'x');
    content.insert_char(ContentPosition::new(0, 0), 'x');
    content.insert_char(ContentPosition::new(0, 0), 'x');
    assert_eq!(6, content.max_size());
}

#[test]
fn highlight_window_covers_modified_lines() {
    let text = (0..2000).map(|i| format!("line{i}")).collect::<Vec<_>>().join("\n");
    let mut content = YamlContent::new(lines(&text), true);
    assert_eq!(None, content.pending_highlight());
    content.insert_char(ContentPosition::new(0, 1000), 'x');
    content.insert_char(ContentPosition::new(0, 1500), 'y');
    let window = content.pending_highlight().unwrap();
    assert_eq!((200, 1999, 1000, 1500), (window.start, window.end, window.first, window.last));
    let (taken, highlighted) = content.take_highlight_request().unwrap();
    assert_eq!(window, taken);
    assert_eq!(1800, highlighted.len());
    assert_eq!("xline1000", highlighted[800]);
    assert_eq!(None, content.pending_highlight());
    content.restore_modified(3, 5);
    let window = content.pending_highlight().unwrap();
    assert_eq!((0, 805, 3, 5), (window.start, window.end, window.first, window.last));
}
