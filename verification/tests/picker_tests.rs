use mirante::events::{KeyCode, KeyCombination, KeyModifiers, MouseEvent, MouseEventKind, ResponseEvent, TuiEvent};
use mirante::picker::{picker_action, PickerAction, PickerAnswers, PickerBindings, PickerState};
use mirante::position::Rect;

fn state() -> PickerState {
    PickerState {
        is_visible: true,
        has_value: true,
        patterns_area: Rect::new(10, 5, 30, 12),
        items_area: Rect::new(11, 8, 28, 8),
        highlight_on_complete: true,
        is_anything_highlighted: false,
    }
}

fn none() -> PickerBindings {
    PickerBindings { reset: false, navigate_delete: false, navigate_back: false, navigate_complete: false, navigate_into: false }
}

fn answers() -> PickerAnswers {
    PickerAnswers { reset_allowed: None, close_on_cancel: None, close_on_click: None, pre_processed_took: None, accepted: None, post_processed_took: None }
}

fn click(column: u16, row: u16) -> TuiEvent {
    TuiEvent::Mouse(MouseEvent { kind: MouseEventKind::LeftClick, column, row, modifiers: KeyModifiers::none() })
}

#[test]
fn picker_cancel_and_item_clicks() {
    let key = TuiEvent::Key(KeyCombination::new(KeyCode::Char('a'), KeyModifiers::none()));
    let mut s = state();
    s.is_visible = false;
    assert_eq!(PickerAction::Respond(ResponseEvent::NotHandled), picker_action(s, &key, none(), answers()));
    assert_eq!(PickerAction::AskCloseOnCancel, picker_action(state(), &click(2, 2), none(), answers()));
    let mut a = answers();
    a.close_on_cancel = Some(true);
    assert_eq!(PickerAction::Cancel, picker_action(state(), &click(2, 2), none(), a));
    assert_eq!(PickerAction::HighlightAndAskClose { line: 2 }, picker_action(state(), &click(12, 10), none(), answers()));
    let mut a = answers();
    a.close_on_click = Some(false);
    assert_eq!(PickerAction::ClearItems, picker_action(state(), &click(12, 10), none(), a));
    a.close_on_click = Some(true);
    assert_eq!(PickerAction::CloseWithHighlighted, picker_action(state(), &click(12, 10), none(), a));
}

#[test]
fn picker_keys_and_input_steps() {
    let key = TuiEvent::Key(KeyCombination::new(KeyCode::Char('a'), KeyModifiers::none()));
    let mut b = none();
    b.reset = true;
    assert_eq!(PickerAction::AskReset, picker_action(state(), &key, b, answers()));
    let mut a = answers();
    a.reset_allowed = Some(true);
    assert_eq!(PickerAction::Reset, picker_action(state(), &key, b, a));
    let mut b = none();
    b.navigate_complete = true;
    assert_eq!(PickerAction::Complete { highlight_first: true }, picker_action(state(), &key, b, answers()));
    assert_eq!(PickerAction::AskPreProcess, picker_action(state(), &key, none(), answers()));
    let mut a = answers();
    a.pre_processed_took = Some(true);
    assert_eq!(PickerAction::PassOnPreProcessed, picker_action(state(), &key, none(), a));
    a.pre_processed_took = Some(false);
    assert_eq!(PickerAction::AskInput, picker_action(state(), &key, none(), a));
    a.accepted = Some(true);
    assert_eq!(PickerAction::Enter, picker_action(state(), &key, none(), a));
    a.accepted = Some(false);
    assert_eq!(PickerAction::AskPostProcess, picker_action(state(), &key, none(), a));
    a.post_processed_took = Some(false);
    assert_eq!(PickerAction::Respond(ResponseEvent::Handled), picker_action(state(), &key, none(), a));
    a.post_processed_took = Some(true);
    assert_eq!(PickerAction::PassOnPostProcessed, picker_action(state(), &key, none(), a));
}
