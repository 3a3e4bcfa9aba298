use vstd::prelude::*;

use crate::events::{MouseEventKind, TuiEvent};
use crate::position::{sat_sub16, Rect, ScreenPosition};
use crate::strings::same_text;

verus! {

/// What the port forwards view's decisions read of its state.
#[derive(Debug, Clone, Copy, PartialEq, Eq, Structural)]
pub struct ForwardsViewState {
    pub is_filter_visible: bool,
    pub is_modal_visible: bool,
    pub is_command_palette_visible: bool,
    /// The area of the list items.
    pub list_area: Rect,
    /// A highlighted item with a line and a name exists.
    pub has_highlighted_item: bool,
}

/// Which of the view's key commands the event is bound to, and whether the filter takes it as a
/// reset of the filter.
#[derive(Debug, Clone, Copy, PartialEq, Eq, Structural)]
pub struct ForwardsBindings {
    pub command_palette_open: bool,
    pub mouse_menu_open: bool,
    pub filter_pin: bool,
    pub navigate_back: bool,
    pub port_forwards_open: bool,
    pub navigate_delete: bool,
    pub filter_open: bool,
    pub port_forwards_cleanup: bool,
    pub is_filter_reset: bool,
}

/// What the port forwards view does with an event.
#[derive(Debug, Clone, Copy, PartialEq, Eq, Structural)]
pub enum ForwardsAction {
    /// Hand the event to the filter input, apply the filter when it is valid; handled.
    ToFilter,
    /// Hand the event to the modal dialog and act on its answer (see [`modal_followup`]); handled.
    ToModal,
    /// Hand the event to the command palette, then decide again with its answer.
    ToCommandPalette,
    /// Return the command palette's own answer, whatever it is.
    PassOnPaletteAnswer,
    /// Open the command palette; handled.
    ShowCommandPalette,
    /// Highlight the item on `line` (or none), then open the mouse menu at the click; handled.
    RightClick { line: u16, column: u16, row: u16 },
    /// Open the mouse menu at the highlighted item; handled.
    ShowMouseMenuForHighlighted,
    /// Pin or unpin the filter and return what that answers.
    ToggleFilterPin,
    /// Reset the filter and apply it; handled.
    ResetFilter,
    /// Leave the view.
    Cancel,
    /// Ask whether to stop the selected port forwards; handled.
    AskStopSelected,
    /// Show the filter input; handled.
    ShowFilter,
    /// Ask whether to stop the stale port forwards; handled.
    AskStopStale,
    /// Hand the event to the list and return its answer.
    ToList,
}

/// What follows the modal dialog's answer.
#[derive(Debug, Clone, Copy, PartialEq, Eq, Structural)]
pub enum ModalFollowup {
    StopSelected,
    StopStale,
    Nothing,
}

/// The view's decision on `event`; `palette_took` says, once the command palette was asked,
/// whether it took the event (answered anything but "not handled"). Open widgets come first (the filter input, the modal dialog, the command palette), then
/// the mouse menu, the filter commands and the view's own commands; the rest goes to the list.
pub open spec fn forwards_decision(
    s: ForwardsViewState,
    event: TuiEvent,
    bound: ForwardsBindings,
    palette_took: Option<bool>,
) -> ForwardsAction {
    if s.is_filter_visible {
        ForwardsAction::ToFilter
    } else if s.is_modal_visible {
        ForwardsAction::ToModal
    } else if s.is_command_palette_visible && palette_took is None {
        ForwardsAction::ToCommandPalette
    } else if s.is_command_palette_visible && palette_took == Some(true) {
        ForwardsAction::PassOnPaletteAnswer
    } else if bound.command_palette_open {
        ForwardsAction::ShowCommandPalette
    } else if (match event {
        TuiEvent::Mouse(m) => m.kind == MouseEventKind::RightClick && s.list_area.spec_contains(ScreenPosition { x: m.column, y: m.row }),
        _ => false,
    }) {
        let m = event->Mouse_0;
        ForwardsAction::RightClick { line: sat_sub16(m.row, s.list_area.y), column: m.column, row: m.row }
    } else if bound.mouse_menu_open && s.has_highlighted_item {
        ForwardsAction::ShowMouseMenuForHighlighted
    } else if bound.filter_pin {
        ForwardsAction::ToggleFilterPin
    } else if bound.is_filter_reset {
        ForwardsAction::ResetFilter
    } else if bound.navigate_back || bound.port_forwards_open {
        ForwardsAction::Cancel
    } else if bound.navigate_delete {
        ForwardsAction::AskStopSelected
    } else if bound.filter_open {
        ForwardsAction::ShowFilter
    } else if bound.port_forwards_cleanup {
        ForwardsAction::AskStopStale
    } else {
        ForwardsAction::ToList
    }
}

/// Decides what the port forwards view does with `event`.
pub fn forwards_view_action(
    s: ForwardsViewState,
    event: &TuiEvent,
    bound: ForwardsBindings,
    palette_took: Option<bool>,
) -> (r: ForwardsAction)
    ensures
        r == forwards_decision(s, *event, bound, palette_took),
{
    if s.is_filter_visible {
        return ForwardsAction::ToFilter;
    }
    if s.is_modal_visible {
        return ForwardsAction::ToModal;
    }
    if s.is_command_palette_visible {
        match palette_took {
            None => return ForwardsAction::ToCommandPalette,
            Some(true) => return ForwardsAction::PassOnPaletteAnswer,
            Some(false) => {},
        }
    }
    if bound.command_palette_open {
        return ForwardsAction::ShowCommandPalette;
    }
    match event {
        TuiEvent::Mouse(m) => {
            if m.kind == MouseEventKind::RightClick && s.list_area.contains(ScreenPosition { x: m.column, y: m.row }) {
                return ForwardsAction::RightClick { line: m.row.saturating_sub(s.list_area.y), column: m.column, row: m.row };
            }
        },
        _ => {},
    }
    if bound.mouse_menu_open && s.has_highlighted_item {
        return ForwardsAction::ShowMouseMenuForHighlighted;
    }
    if bound.filter_pin {
        return ForwardsAction::ToggleFilterPin;
    }
    if bound.is_filter_reset {
        return ForwardsAction::ResetFilter;
    }
    if bound.navigate_back || bound.port_forwards_open {
        return ForwardsAction::Cancel;
    }
    if bound.navigate_delete {
        return ForwardsAction::AskStopSelected;
    }
    if bound.filter_open {
        return ForwardsAction::ShowFilter;
    }
    if bound.port_forwards_cleanup {
        return ForwardsAction::AskStopStale;
    }
    ForwardsAction::ToList
}

/// What follows the modal dialog's answer: the `delete` action stops the selected port forwards,
/// the `cleanup` action the stale ones; anything else does nothing more.
pub fn modal_followup(action: Option<&str>) -> (r: ModalFollowup)
    ensures
        r == match action {
            Some(a) => if a@ == "delete"@ {
                ModalFollowup::StopSelected
            } else if a@ == "cleanup"@ {
                ModalFollowup::StopStale
            } else {
                ModalFollowup::Nothing
            },
            None => ModalFollowup::Nothing,
        },
{
    match action {
        Some(a) => {
            if same_text(a, "delete") {
                ModalFollowup::StopSelected
            } else if same_text(a, "cleanup") {
                ModalFollowup::StopStale
            } else {
                ModalFollowup::Nothing
            }
        },
        None => ModalFollowup::Nothing,
    }
}

} // verus!
