use mirante::events::{KeyCode, KeyCombination, KeyModifiers, MouseEvent, MouseEventKind, TuiEvent};
use mirante::forwards_view::{forwards_view_action, modal_followup, ForwardsAction, ForwardsBindings, ForwardsViewState, ModalFollowup};
use mirante::position::Rect;

fn state() -> ForwardsViewState {
    ForwardsViewState {
        is_filter_visible: false,
        is_modal_visible: false,
        is_command_palette_visible: false,
        list_area: Rect::new(0, 2, 40, 10),
        has_highlighted_item: true,
    }
}

fn none() -> ForwardsBindings {
    ForwardsBindings {
        command_palette_open: false,
        mouse_menu_open: false,
        filter_pin: false,
        navigate_back: false,
        port_forwards_open: false,
        navigate_delete: false,
        filter_open: false,
        port_forwards_cleanup: false,
        is_filter_reset: false,
    }
}

#[test]
fn forwards_view_widgets_come_first() {
    let ev = TuiEvent::Key(KeyCombination::new(KeyCode::Esc, KeyModifiers::none()));
    let mut s = state();
    s.is_modal_visible = true;
    s.is_command_palette_visible = true;
    assert_eq!(ForwardsAction::ToModal, forwards_view_action(s, &ev, none(), None));
    s.is_modal_visible = false;
    assert_eq!(ForwardsAction::ToCommandPalette, forwards_view_action(s, &ev, none(), None));
    assert_eq!(ForwardsAction::PassOnPaletteAnswer, forwards_view_action(s, &ev, none(), Some(true)));
    let mut b = none();
    b.navigate_back = true;
    assert_eq!(ForwardsAction::Cancel, forwards_view_action(s, &ev, b, Some(false)));
}

#[test]
fn forwards_view_commands_and_clicks() {
    let right = TuiEvent::Mouse(MouseEvent { kind: MouseEventKind::RightClick, column: 5, row: 6, modifiers: KeyModifiers::none() });
    assert_eq!(ForwardsAction::RightClick { line: 4, column: 5, row: 6 }, forwards_view_action(state(), &right, none(), None));
    let ev = TuiEvent::Key(KeyCombination::new(KeyCode::Char('d'), KeyModifiers::control()));
    let mut b = none();
    b.navigate_delete = true;
    b.port_forwards_cleanup = true;
    assert_eq!(ForwardsAction::AskStopSelected, forwards_view_action(state(), &ev, b, None));
    b.mouse_menu_open = true;
    assert_eq!(ForwardsAction::ShowMouseMenuForHighlighted, forwards_view_action(state(), &ev, b, None));
    assert_eq!(ForwardsAction::ToList, forwards_view_action(state(), &ev, none(), None));
    assert_eq!(ModalFollowup::StopSelected, modal_followup(Some("delete")));
    assert_eq!(ModalFollowup::StopStale, modal_followup(Some("cleanup")));
    assert_eq!(ModalFollowup::Nothing, modal_followup(Some("other")));
    assert_eq!(ModalFollowup::Nothing, modal_followup(None));
}
