use mirante::events::{KeyCode, KeyCombination, KeyModifiers, MouseEvent, MouseEventKind, ResponseEvent, TuiEvent};
use mirante::list_viewer::{line_click_action, list_viewer_action, sort_column, LineClickAction, ListAction, ListBindings, ListViewerState};
use mirante::position::Rect;

fn state() -> ListViewerState {
    ListViewerState { has_api_error: false, is_full_view: false, area: Rect::new(1, 5, 20, 10), is_header_visible: true, offset: 3 }
}

const NONE: ListBindings = ListBindings { select: false, select_all: false, invert_selection: false };

fn click(column: u16, row: u16, modifiers: KeyModifiers) -> TuiEvent {
    TuiEvent::Mouse(MouseEvent { kind: MouseEventKind::LeftClick, column, row, modifiers })
}

#[test]
fn list_viewer_asks_table_then_decides() {
    let ev = TuiEvent::Key(KeyCombination::new(KeyCode::Down, KeyModifiers::none()));
    assert_eq!(ListAction::AskTable, list_viewer_action(state(), &ev, NONE, None));
    assert_eq!(ListAction::Handled, list_viewer_action(state(), &ev, NONE, Some(ResponseEvent::Handled)));
    assert_eq!(ListAction::NotHandled, list_viewer_action(state(), &ev, NONE, Some(ResponseEvent::NotHandled)));
    let bound = ListBindings { select: false, select_all: true, invert_selection: true };
    assert_eq!(ListAction::SelectAll, list_viewer_action(state(), &ev, bound, Some(ResponseEvent::NotHandled)));
    let mut s = state();
    s.has_api_error = true;
    assert_eq!(ListAction::NotHandled, list_viewer_action(s, &ev, NONE, None));
    let alt0 = TuiEvent::Key(KeyCombination::new(KeyCode::Char('0'), KeyModifiers::alt()));
    assert_eq!(ListAction::Handled, list_viewer_action(state(), &alt0, NONE, None));
}

#[test]
fn list_viewer_clicks() {
    let answered = Some(ResponseEvent::NotHandled);
    assert_eq!(
        ListAction::ClickLine { line: 2, with_control: true },
        list_viewer_action(state(), &click(4, 7, KeyModifiers::control()), NONE, answered)
    );
    assert_eq!(ListAction::ClickHeader { position: 7 }, list_viewer_action(state(), &click(5, 4, KeyModifiers::none()), NONE, answered));
    assert_eq!(ListAction::NotHandled, list_viewer_action(state(), &click(5, 2, KeyModifiers::none()), NONE, answered));
    assert_eq!(LineClickAction::Unhighlight, line_click_action(false, true));
    assert_eq!(LineClickAction::SelectHighlighted, line_click_action(true, true));
    assert_eq!(LineClickAction::KeepHighlight, line_click_action(true, false));
    assert_eq!(1, sort_column(2, true));
    assert_eq!(3, sort_column(3, false));
    assert_eq!(0, sort_column(0, true));
}
