use vstd::prelude::*;

use crate::events::{KeyModifiers, MouseEventKind, ResponseEvent, TuiEvent};
use crate::position::{sat_sub16, Rect, ScreenPosition};

verus! {

/// What the picker's decisions read of its state.
#[derive(Debug, Clone, Copy, PartialEq, Eq, Structural)]
pub struct PickerState {
    pub is_visible: bool,
    /// The input holds some text.
    pub has_value: bool,
    /// The area of the whole picker.
    pub patterns_area: Rect,
    /// The area of its list of items.
    pub items_area: Rect,
    /// Completing highlights the first item when none is highlighted.
    pub highlight_on_complete: bool,
    /// An item is highlighted.
    pub is_anything_highlighted: bool,
}

/// Which of the picker's key commands the event is bound to.
#[derive(Debug, Clone, Copy, PartialEq, Eq, Structural)]
pub struct PickerBindings {
    /// The behaviour's reset command.
    pub reset: bool,
    pub navigate_delete: bool,
    pub navigate_back: bool,
    pub navigate_complete: bool,
    pub navigate_into: bool,
}

/// The answers of the steps already taken for the event, in the order they are asked for.
#[derive(Debug, Clone, Copy, PartialEq, Eq, Structural)]
pub struct PickerAnswers {
    /// Whether the behaviour allows the reset, once asked.
    pub reset_allowed: Option<bool>,
    /// Whether the behaviour allows closing on cancel, once asked.
    pub close_on_cancel: Option<bool>,
    /// Whether the behaviour allows closing on the clicked item, once asked.
    pub close_on_click: Option<bool>,
    /// Whether the behaviour took the event before the input saw it, once asked.
    pub pre_processed_took: Option<bool>,
    /// Whether the input accepted its text, once it saw the event.
    pub accepted: Option<bool>,
    /// Whether the behaviour took the event after the input saw it (and the value was
    /// validated), once asked.
    pub post_processed_took: Option<bool>,
}

/// The picker's next step for an event.
#[derive(Debug, Clone, Copy, PartialEq, Eq, Structural)]
pub enum PickerAction {
    /// Return this answer.
    Respond(ResponseEvent),
    /// Return the behaviour's own answer from before the input saw the event, whatever it is.
    PassOnPreProcessed,
    /// Return the behaviour's own answer from after the input saw the event, whatever it is.
    PassOnPostProcessed,
    /// Ask the behaviour whether to reset, then decide again.
    AskReset,
    /// Reset the input; handled.
    Reset,
    /// Remove the highlighted item where the behaviour allows it (saving the history when it
    /// removed one); handled.
    DeleteHighlighted,
    /// Ask the behaviour whether to close on cancel, then decide again.
    AskCloseOnCancel,
    /// Hide the picker (restoring the value where the behaviour says so) and return the
    /// behaviour's cancel answer.
    Cancel,
    /// Highlight the item on `line` and ask the behaviour whether to close, then decide again.
    HighlightAndAskClose { line: u16 },
    /// Complete with the highlighted item, remember the pattern, hide the picker and return where
    /// the behaviour navigates.
    CloseWithHighlighted,
    /// Clear the list of items; handled.
    ClearItems,
    /// Insert the clipboard's text into the input; handled.
    Paste,
    /// Complete the input with the highlighted item (highlighting the first item first when
    /// `highlight_first`); handled.
    Complete { highlight_first: bool },
    /// Act as on the enter key (the behaviour decides whether the picker closes).
    Enter,
    /// Ask the behaviour before the input, then decide again.
    AskPreProcess,
    /// Hand the event to the input, then decide again.
    AskInput,
    /// Validate the value and ask the behaviour after the input, then decide again; when the
    /// behaviour does not take the event, it is handled.
    AskPostProcess,
}

/// A left click outside `area`.
pub open spec fn is_click_outside(event: TuiEvent, area: Rect) -> bool {
    match event {
        TuiEvent::Mouse(m) => m.kind == MouseEventKind::LeftClick && !area.spec_contains(ScreenPosition { x: m.column, y: m.row }),
        _ => false,
    }
}

/// The line (from the top of `area`) of a left click without modifiers inside `area`.
pub open spec fn clicked_line(event: TuiEvent, area: Rect) -> Option<u16> {
    match event {
        TuiEvent::Mouse(m) => if m.kind == MouseEventKind::LeftClick && m.modifiers == KeyModifiers::spec_none() && area.spec_contains(
            ScreenPosition { x: m.column, y: m.row },
        ) {
            Some(sat_sub16(m.row, area.y))
        } else {
            None
        },
        _ => None,
    }
}

/// The picker's next step for `event`, given the answers so far.
pub open spec fn picker_decision(s: PickerState, event: TuiEvent, bound: PickerBindings, a: PickerAnswers) -> PickerAction {
    if !s.is_visible {
        PickerAction::Respond(ResponseEvent::NotHandled)
    } else if bound.reset && s.has_value && a.reset_allowed is None {
        PickerAction::AskReset
    } else if bound.reset && s.has_value && a.reset_allowed == Some(true) {
        PickerAction::Reset
    } else if bound.navigate_delete {
        PickerAction::DeleteHighlighted
    } else if (bound.navigate_back || is_click_outside(event, s.patterns_area)) && a.close_on_cancel is None {
        PickerAction::AskCloseOnCancel
    } else if (bound.navigate_back || is_click_outside(event, s.patterns_area)) && a.close_on_cancel == Some(true) {
        PickerAction::Cancel
    } else if clicked_line(event, s.items_area) is Some {
        match a.close_on_click {
            None => PickerAction::HighlightAndAskClose { line: clicked_line(event, s.items_area)->0 },
            Some(true) => PickerAction::CloseWithHighlighted,
            Some(false) => PickerAction::ClearItems,
        }
    } else if (match event {
        TuiEvent::Mouse(m) => m.kind == MouseEventKind::RightClick,
        _ => false,
    }) {
        PickerAction::Paste
    } else if bound.navigate_complete {
        PickerAction::Complete { highlight_first: s.highlight_on_complete && !s.is_anything_highlighted }
    } else if bound.navigate_into {
        PickerAction::Enter
    } else if a.pre_processed_took is None {
        PickerAction::AskPreProcess
    } else if a.pre_processed_took == Some(true) {
        PickerAction::PassOnPreProcessed
    } else if a.accepted is None {
        PickerAction::AskInput
    } else if a.accepted == Some(true) {
        PickerAction::Enter
    } else if a.post_processed_took is None {
        PickerAction::AskPostProcess
    } else if a.post_processed_took == Some(true) {
        PickerAction::PassOnPostProcessed
    } else {
        PickerAction::Respond(ResponseEvent::Handled)
    }
}

/// Decides the picker's next step for `event`.
pub fn picker_action(s: PickerState, event: &TuiEvent, bound: PickerBindings, a: PickerAnswers) -> (r: PickerAction)
    ensures
        r == picker_decision(s, *event, bound, a),
{
    if !s.is_visible {
        return PickerAction::Respond(ResponseEvent::NotHandled);
    }
    if bound.reset && s.has_value {
        match a.reset_allowed {
            None => return PickerAction::AskReset,
            Some(true) => return PickerAction::Reset,
            Some(false) => {},
        }
    }
    if bound.navigate_delete {
        return PickerAction::DeleteHighlighted;
    }
    let (click_outside, line, right_click) = match event {
        TuiEvent::Mouse(m) => {
            let p = ScreenPosition { x: m.column, y: m.row };
            let left = m.kind == MouseEventKind::LeftClick;
            let line = if left && m.modifiers == KeyModifiers::none() && s.items_area.contains(p) {
                Some(m.row.saturating_sub(s.items_area.y))
            } else {
                None
            };
            (left && !s.patterns_area.contains(p), line, m.kind == MouseEventKind::RightClick)
        },
        _ => (false, None, false),
    };
    if bound.navigate_back || click_outside {
        match a.close_on_cancel {
            None => return PickerAction::AskCloseOnCancel,
            Some(true) => return PickerAction::Cancel,
            Some(false) => {},
        }
    }
    match line {
        Some(l) => {
            return match a.close_on_click {
                None => PickerAction::HighlightAndAskClose { line: l },
                Some(true) => PickerAction::CloseWithHighlighted,
                Some(false) => PickerAction::ClearItems,
            };
        },
        None => {},
    }
    if right_click {
        return PickerAction::Paste;
    }
    if bound.navigate_complete {
        return PickerAction::Complete { highlight_first: s.highlight_on_complete && !s.is_anything_highlighted };
    }
    if bound.navigate_into {
        return PickerAction::Enter;
    }
    match a.pre_processed_took {
        None => return PickerAction::AskPreProcess,
        Some(true) => return PickerAction::PassOnPreProcessed,
        Some(false) => {},
    }
    match a.accepted {
        None => return PickerAction::AskInput,
        Some(true) => return PickerAction::Enter,
        Some(false) => {},
    }
    match a.post_processed_took {
        None => PickerAction::AskPostProcess,
        Some(true) => PickerAction::PassOnPostProcessed,
        Some(false) => PickerAction::Respond(ResponseEvent::Handled),
    }
}

} // verus!
