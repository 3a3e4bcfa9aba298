use mirante::describe_content::DescribeContent;
use mirante::events::{KeyCode, KeyCombination, KeyModifiers, MouseEvent, MouseEventKind, ResponseEvent, TuiEvent};
use mirante::position::{ContentPosition, Rect};

fn content() -> DescribeContent {
    DescribeContent {
        page_start: ContentPosition::new(0, 0),
        max_width: 50,
        max_height: 100,
        area: Rect::new(0, 0, 22, 10),
    }
}

fn key(code: KeyCode, modifiers: KeyModifiers) -> TuiEvent {
    TuiEvent::Key(KeyCombination::new(code, modifiers))
}

fn wheel(kind: MouseEventKind, modifiers: KeyModifiers) -> TuiEvent {
    TuiEvent::Mouse(MouseEvent { kind, column: 0, row: 0, modifiers })
}

#[test]
fn scroll_keys_move_and_clamp_page() {
    let mut c = content();
    assert_eq!(ResponseEvent::Handled, c.process_scroll_event(&key(KeyCode::PageDown, KeyModifiers::none())));
    assert_eq!(ContentPosition::new(0, 10), c.page_start);
    assert_eq!(ResponseEvent::Handled, c.process_scroll_event(&key(KeyCode::End, KeyModifiers::none())));
    assert_eq!(ContentPosition::new(0, 90), c.page_start);
    c.process_scroll_event(&key(KeyCode::Down, KeyModifiers::none()));
    assert_eq!(ContentPosition::new(0, 90), c.page_start);
    c.process_scroll_event(&key(KeyCode::End, KeyModifiers::control()));
    assert_eq!(ContentPosition::new(30, 90), c.page_start);
    c.process_scroll_event(&key(KeyCode::PageUp, KeyModifiers::control()));
    assert_eq!(ContentPosition::new(8, 90), c.page_start);
    c.process_scroll_event(&key(KeyCode::Home, KeyModifiers::none()));
    assert_eq!(ContentPosition::new(8, 0), c.page_start);
    c.process_scroll_event(&key(KeyCode::Home, KeyModifiers::control()));
    assert_eq!(ContentPosition::new(0, 0), c.page_start);
    assert_eq!(ResponseEvent::NotHandled, c.process_scroll_event(&key(KeyCode::Enter, KeyModifiers::none())));
    assert_eq!(ResponseEvent::NotHandled, c.process_scroll_event(&TuiEvent::Command));
}

#[test]
fn wheel_scrolls_and_control_wheel_scrolls_sideways() {
    let mut c = content();
    c.process_scroll_event(&wheel(MouseEventKind::ScrollDown, KeyModifiers::none()));
    assert_eq!(ContentPosition::new(0, 1), c.page_start);
    c.process_scroll_event(&wheel(MouseEventKind::ScrollDown, KeyModifiers::control()));
    assert_eq!(ContentPosition::new(1, 1), c.page_start);
    c.process_scroll_event(&wheel(MouseEventKind::ScrollLeft, KeyModifiers::none()));
    assert_eq!(ContentPosition::new(0, 1), c.page_start);
    assert_eq!(ResponseEvent::NotHandled, c.process_scroll_event(&wheel(MouseEventKind::LeftClick, KeyModifiers::none())));
}

#[test]
fn sections_are_brought_into_view() {
    let mut c = content();
    c.page_start = ContentPosition::new(5, 20);
    c.ensure_section_visible(Rect::new(0, 25, 10, 3));
    assert_eq!(ContentPosition::new(5, 20), c.page_start);
    c.ensure_section_visible(Rect::new(0, 35, 10, 4));
    assert_eq!(ContentPosition::new(0, 29), c.page_start);
    c.ensure_section_visible(Rect::new(0, 3, 10, 4));
    assert_eq!(ContentPosition::new(0, 3), c.page_start);
    c.ensure_section_visible(Rect::new(0, 200, 10, 4));
    assert_eq!(ContentPosition::new(0, 90), c.page_start);
}
