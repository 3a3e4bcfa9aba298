use mirante::edit::{ContentEditWidget, EditContext};
use mirante::events::{KeyCode, KeyCombination, KeyModifiers, MouseEvent, MouseEventKind, ResponseEvent, TuiEvent};
use mirante::position::{ContentPosition, Rect, ScreenPosition};
use mirante::selection::{SelectContext, Selection};
use mirante::viewer::ContentViewer;
use mirante::yaml::YamlContent;

fn lines(text: &str) -> Vec<String> {
    text.split('\n').map(String::from).collect()
}

fn key(code: KeyCode, modifiers: KeyModifiers) -> TuiEvent {
    TuiEvent::Key(KeyCombination::new(code, modifiers))
}

fn mouse(kind: MouseEventKind, column: u16, row: u16) -> TuiEvent {
    TuiEvent::Mouse(MouseEvent { kind, column, row, modifiers: KeyModifiers::none() })
}

#[test]
fn ctrl_a_selects_everything() {
    let mut content = YamlContent::new(lines("ab\ncde"), true);
    let mut select = SelectContext::default();
    let mut page = ContentPosition::new(0, 0);
    select.process_event(&key(KeyCode::Char('a'), KeyModifiers::control()), &mut content, &mut page, None, Rect::new(0, 0, 80, 24));
    assert_eq!(
        Some(Selection::new(ContentPosition::new(0, 0), ContentPosition::new(2, 1))),
        select.get_selection()
    );
}

#[test]
fn shift_arrow_extends_selection() {
    let mut content = YamlContent::new(lines("abcd"), true);
    let mut select = SelectContext::default();
    let mut page = ContentPosition::new(0, 0);
    let event = key(KeyCode::Right, KeyModifiers::shift());
    select.process_event(&event, &mut content, &mut page, Some(ContentPosition::new(1, 0)), Rect::new(0, 0, 80, 24));
    select.process_event_final(&event, &content, ContentPosition::new(3, 0));
    assert_eq!(
        Some(Selection::new(ContentPosition::new(1, 0), ContentPosition::new(2, 0))),
        select.get_selection()
    );
    select.process_event_final(&key(KeyCode::Char('x'), KeyModifiers::none()), &content, ContentPosition::new(3, 0));
    assert_eq!(None, select.get_selection());
}

#[test]
fn mouse_click_and_drag_select_text() {
    let mut content = YamlContent::new(lines("ab\ncde"), true);
    let mut select = SelectContext::default();
    let mut page = ContentPosition::new(0, 0);
    let area = Rect::new(0, 0, 80, 24);
    select.process_event(&mouse(MouseEventKind::LeftClick, 3, 0), &mut content, &mut page, None, area);
    assert_eq!(None, select.get_selection());
    select.process_event(&mouse(MouseEventKind::LeftDrag, 5, 1), &mut content, &mut page, None, area);
    assert_eq!(
        Some(Selection::new(ContentPosition::new(2, 0), ContentPosition::new(2, 1))),
        select.get_selection()
    );
    assert_eq!(ContentPosition::new(0, 0), page);
}

#[test]
fn double_click_selects_word() {
    let mut content = YamlContent::new(lines("kind: Pod"), true);
    let mut select = SelectContext::default();
    let mut page = ContentPosition::new(0, 0);
    select.process_event(&mouse(MouseEventKind::LeftDoubleClick, 7, 0), &mut content, &mut page, None, Rect::new(0, 0, 80, 24));
    assert_eq!(
        Some(Selection::new(ContentPosition::new(6, 0), ContentPosition::new(8, 0))),
        select.get_selection()
    );
}

#[test]
fn typing_moves_the_cursor() {
    let mut content = YamlContent::new(lines("ab\ncd"), true);
    let mut edit = EditContext::new();
    let area = Rect::new(0, 0, 80, 24);
    edit.enable(ContentPosition::new(0, 0), None, Some(ContentPosition::new(1, 0)), 24, &mut content);
    assert!(edit.enabled());
    assert_eq!(ContentPosition::new(1, 0), edit.cursor_position());

    let r = edit.process_event(&key(KeyCode::Char('x'), KeyModifiers::none()), &mut content, ContentPosition::new(0, 0), None, area);
    assert_eq!(ResponseEvent::Handled, r);
    assert_eq!("axb", content.plain[0]);
    assert_eq!(ContentPosition::new(2, 0), edit.cursor_position());

    edit.process_event(&key(KeyCode::End, KeyModifiers::none()), &mut content, ContentPosition::new(0, 0), None, area);
    assert_eq!(ContentPosition::new(3, 0), edit.cursor_position());
    edit.process_event(&key(KeyCode::Right, KeyModifiers::none()), &mut content, ContentPosition::new(0, 0), None, area);
    assert_eq!(ContentPosition::new(0, 1), edit.cursor_position());
    edit.process_event(&key(KeyCode::Backspace, KeyModifiers::none()), &mut content, ContentPosition::new(0, 0), None, area);
    assert_eq!("axbcd", content.plain[0]);
    assert_eq!(ContentPosition::new(3, 0), edit.cursor_position());
    edit.process_event(&key(KeyCode::Home, KeyModifiers::none()), &mut content, ContentPosition::new(0, 0), None, area);
    assert_eq!(ContentPosition::new(0, 0), edit.cursor_position());
    edit.process_event(&key(KeyCode::Enter, KeyModifiers::none()), &mut content, ContentPosition::new(0, 0), None, area);
    assert_eq!("\naxbcd", content.plain.join("\n"));
    assert_eq!(ContentPosition::new(0, 1), edit.cursor_position());
}

#[test]
fn delete_with_selection_removes_it() {
    let mut content = YamlContent::new(lines("abcdef"), true);
    let mut edit = EditContext::new();
    let area = Rect::new(0, 0, 80, 24);
    edit.enable(ContentPosition::new(0, 0), None, Some(ContentPosition::new(0, 0)), 24, &mut content);
    let selection = Some(Selection::new(ContentPosition::new(1, 0), ContentPosition::new(3, 0)));
    edit.process_event(&key(KeyCode::Delete, KeyModifiers::none()), &mut content, ContentPosition::new(0, 0), selection, area);
    assert_eq!("aef", content.plain[0]);
    assert_eq!(ContentPosition::new(1, 0), edit.cursor_position());
}

#[test]
fn click_moves_cursor_within_line() {
    let mut content = YamlContent::new(lines("abc\nde"), true);
    let mut edit = EditContext::new();
    let area = Rect::new(0, 0, 80, 24);
    edit.enable(ContentPosition::new(0, 0), None, Some(ContentPosition::new(0, 0)), 24, &mut content);
    let r = edit.process_event(&mouse(MouseEventKind::LeftClick, 10, 1), &mut content, ContentPosition::new(0, 0), None, area);
    assert_eq!(ResponseEvent::Handled, r);
    assert_eq!(ContentPosition::new(2, 1), edit.cursor_position());
    let r = edit.process_event(&mouse(MouseEventKind::ScrollUp, 10, 1), &mut content, ContentPosition::new(0, 0), None, area);
    assert_eq!(ResponseEvent::NotHandled, r);
}

#[test]
fn viewer_search_and_navigation() {
    let mut viewer = ContentViewer::new(Rect::new(0, 0, 20, 5));
    viewer.set_content(YamlContent::new(lines("name: a\nkind: Pod\nname: b\nx\nname: c"), true));
    assert!(viewer.search("NAME", false));
    assert!(!viewer.search("NAME", false));
    assert_eq!(Some(3), viewer.matches_count());
    assert_eq!(Some(" :3".to_owned()), viewer.get_footer_text());
    viewer.navigate_match(true, None);
    assert_eq!(Some(1), viewer.current_match_index());
    assert_eq!(Some(" 1:3".to_owned()), viewer.get_footer_text());
    viewer.navigate_match(false, None);
    assert_eq!(None, viewer.current_match_index());
    viewer.navigate_match(false, None);
    assert_eq!(Some(3), viewer.current_match_index());
    assert_eq!(Some(ContentPosition::new(0, 4)), viewer.current_match_position());
    assert_eq!(None, viewer.get_footer_message(true));
    assert!(viewer.search("missing", false));
    assert_eq!(Some(" 0".to_owned()), viewer.get_footer_text());
}

#[test]
fn viewer_scrolls_to_lines() {
    let text = (0..30).map(|i| format!("line {i}")).collect::<Vec<_>>().join("\n");
    let mut viewer = ContentViewer::new(Rect::new(0, 0, 20, 5));
    viewer.set_content(YamlContent::new(lines(&text), true));
    viewer.scroll_to(20, 0, 1);
    assert_eq!(ContentPosition::new(0, 18), viewer.page_position());
    viewer.scroll_to_end();
    assert_eq!(ContentPosition::new(0, 25), viewer.page_position());
    assert!(viewer.is_at_end());
    viewer.set_page_start(100);
    assert_eq!(ContentPosition::new(0, 25), viewer.page_position());
    let r = viewer.process_event(&key(KeyCode::Home, KeyModifiers::none()));
    assert_eq!(ResponseEvent::Handled, r);
    assert!(viewer.is_at_beginning());
    viewer.process_event(&key(KeyCode::PageDown, KeyModifiers::none()));
    assert_eq!(ContentPosition::new(0, 5), viewer.page_position());
}

#[test]
fn viewer_edit_mode_tracks_modification() {
    let mut viewer = ContentViewer::new(Rect::new(0, 0, 20, 5));
    viewer.set_content(YamlContent::new(lines("abc"), true));
    assert!(viewer.enable_edit_mode(false));
    assert!(viewer.is_in_edit_mode());
    assert!(!viewer.is_modified());
    viewer.process_event(&key(KeyCode::Char('x'), KeyModifiers::none()));
    assert!(viewer.is_modified());
    assert_eq!(Some("xabc"), viewer.get_current_line());
    assert!(viewer.disable_edit_mode());
    assert!(!viewer.is_in_edit_mode());
    assert!(viewer.is_modified());
}

#[test]
fn viewer_starts_new_resource_at_name() {
    let mut viewer = ContentViewer::new(Rect::new(0, 0, 20, 5));
    viewer.set_content(YamlContent::new(lines("kind: Pod\nmetadata:\n  name: ''"), true));
    assert!(viewer.enable_edit_mode(true));
    viewer.insert_text(vec!["web".to_owned()], false);
    assert_eq!(Some("  name: 'web'"), viewer.get_current_line());
}

#[test]
fn viewer_ignores_read_only_content() {
    let mut viewer = ContentViewer::new(Rect::new(0, 0, 20, 5));
    viewer.set_content(YamlContent::new(lines("abc"), false));
    assert!(!viewer.enable_edit_mode(false));
}

#[test]
fn viewer_selection_and_horizontal_scroll() {
    let mut viewer = ContentViewer::new(Rect::new(0, 0, 5, 3));
    assert!(!viewer.has_content());
    viewer.set_content(YamlContent::new(lines("a very long line of text\nshort"), false));
    assert!(viewer.has_content());
    viewer.process_event(&mouse(MouseEventKind::LeftClick, 0, 0));
    viewer.process_event(&mouse(MouseEventKind::LeftDrag, 1, 1));
    assert!(viewer.has_selection());
    assert_eq!(
        Some(Selection::new(ContentPosition::new(0, 0), ContentPosition::new(0, 1))),
        viewer.get_selection()
    );
    viewer.clear_selection();
    assert!(!viewer.has_selection());
    viewer.process_event(&key(KeyCode::End, KeyModifiers::control()));
    assert_eq!(ContentPosition::new(20, 0), viewer.page_position());
    viewer.reset_horizontal_scroll();
    assert_eq!(ContentPosition::new(0, 0), viewer.page_position());
}

#[test]
fn edit_cursor_cell_on_page() {
    let mut edit = EditContext::new();
    edit.set_cursor(ContentPosition::new(5, 3));
    let page = ContentPosition::new(2, 1);
    let widget = ContentEditWidget::new(&edit, &page);
    assert_eq!(Some(ScreenPosition::new(4, 4)), widget.cursor_cell(Rect::new(1, 2, 10, 5)));
    assert_eq!(None, widget.cursor_cell(Rect::new(1, 2, 3, 5)));
    let page = ContentPosition::new(6, 0);
    assert_eq!(None, ContentEditWidget::new(&edit, &page).cursor_cell(Rect::new(0, 0, 10, 10)));
}

#[test]
fn control_z_undoes_and_control_y_redoes() {
    let mut content = YamlContent::new(lines("ab\ncd"), true);
    let mut edit = EditContext::new();
    let area = Rect::new(0, 0, 80, 24);
    let page = ContentPosition::new(0, 0);
    edit.enable(page, None, Some(ContentPosition::new(1, 0)), 24, &mut content);
    edit.process_event(&key(KeyCode::Char('x'), KeyModifiers::none()), &mut content, page, None, area);
    assert_eq!("axb\ncd", content.plain.join("\n"));
    let r = edit.process_event(&key(KeyCode::Char('z'), KeyModifiers::control()), &mut content, page, None, area);
    assert_eq!(ResponseEvent::Handled, r);
    assert_eq!("ab\ncd", content.plain.join("\n"));
    assert_eq!(ContentPosition::new(1, 0), edit.cursor_position());
    edit.process_event(&key(KeyCode::Char('y'), KeyModifiers::control()), &mut content, page, None, area);
    assert_eq!("axb\ncd", content.plain.join("\n"));
    assert_eq!(ContentPosition::new(2, 0), edit.cursor_position());
}

#[test]
fn an_edit_after_undo_drops_the_redo_history() {
    let mut content = YamlContent::new(lines("ab"), true);
    let mut edit = EditContext::new();
    let area = Rect::new(0, 0, 80, 24);
    let page = ContentPosition::new(0, 0);
    edit.enable(page, None, Some(ContentPosition::new(1, 0)), 24, &mut content);
    edit.process_event(&key(KeyCode::Char('x'), KeyModifiers::none()), &mut content, page, None, area);
    edit.process_event(&key(KeyCode::Char('z'), KeyModifiers::control()), &mut content, page, None, area);
    assert_eq!("ab", content.plain[0]);
    edit.process_event(&key(KeyCode::Char('q'), KeyModifiers::none()), &mut content, page, None, area);
    assert_eq!("aqb", content.plain[0]);
    edit.process_event(&key(KeyCode::Char('y'), KeyModifiers::control()), &mut content, page, None, area);
    assert_eq!("aqb", content.plain[0]);
}

#[test]
fn a_cursor_move_keeps_the_redo_history() {
    let mut content = YamlContent::new(lines("ab"), true);
    let mut edit = EditContext::new();
    let area = Rect::new(0, 0, 80, 24);
    let page = ContentPosition::new(0, 0);
    edit.enable(page, None, Some(ContentPosition::new(1, 0)), 24, &mut content);
    edit.process_event(&key(KeyCode::Char('x'), KeyModifiers::none()), &mut content, page, None, area);
    edit.process_event(&key(KeyCode::Char('z'), KeyModifiers::control()), &mut content, page, None, area);
    edit.process_event(&key(KeyCode::Home, KeyModifiers::none()), &mut content, page, None, area);
    assert_eq!(ContentPosition::new(0, 0), edit.cursor_position());
    edit.process_event(&key(KeyCode::Char('y'), KeyModifiers::control()), &mut content, page, None, area);
    assert_eq!("axb", content.plain[0]);
}

#[test]
fn undo_restores_a_cut_line() {
    let mut content = YamlContent::new(lines("one\ntwo\nthree"), true);
    let mut edit = EditContext::new();
    let area = Rect::new(0, 0, 80, 24);
    let page = ContentPosition::new(0, 0);
    edit.enable(page, None, Some(ContentPosition::new(0, 1)), 24, &mut content);
    edit.process_event(&key(KeyCode::Char('x'), KeyModifiers::control()), &mut content, page, None, area);
    assert_eq!("one\nthree", content.plain.join("\n"));
    edit.process_event(&key(KeyCode::Char('z'), KeyModifiers::control()), &mut content, page, None, area);
    assert_eq!("one\ntwo\nthree", content.plain.join("\n"));
}
