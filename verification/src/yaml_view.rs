use vstd::prelude::*;

use crate::events::{ctrl_key, is_ctrl_key, MouseEventKind, ResponseEvent, TuiEvent};

verus! {

/// What the YAML view's decisions read of its state.
#[derive(Debug, Clone, Copy, PartialEq, Eq, Structural)]
pub struct YamlViewState {
    /// The resource is a new one, not yet created.
    pub is_new: bool,
    /// The view was opened for editing.
    pub is_edit: bool,
    /// The content was changed.
    pub is_modified: bool,
    /// The viewer is in edit mode.
    pub is_in_edit_mode: bool,
    /// The resource is a secret.
    pub is_secret: bool,
    /// The search input holds a pattern.
    pub has_search_value: bool,
    /// A search was made.
    pub has_matches: bool,
}

/// Which of the view's key commands the event is bound to.
#[derive(Debug, Clone, Copy, PartialEq, Eq, Structural)]
pub struct YamlBindings {
    pub yaml_edit: bool,
    pub navigate_back: bool,
    pub command_palette_open: bool,
    pub search_open: bool,
    pub search_reset: bool,
    pub yaml_decode: bool,
    pub content_copy: bool,
    pub content_save: bool,
    pub match_next: bool,
    pub match_previous: bool,
}

/// The answers of the steps already taken for the event, in the order they are asked for.
#[derive(Debug, Clone, Copy, PartialEq, Eq, Structural)]
pub struct YamlAnswers {
    /// Whether one of the open widgets took the event, once they were asked.
    pub widgets_took: Option<bool>,
    /// Whether edit mode could be entered, once tried.
    pub enabled_edit: Option<bool>,
    /// Whether edit mode could be left, once tried.
    pub disabled_edit: Option<bool>,
    /// The current line was copied for `Control`+`x`.
    pub copied_for_cut: bool,
    /// The viewer's answer, once asked.
    pub viewer: Option<ResponseEvent>,
}

/// The next step of the YAML view for an event.
#[derive(Debug, Clone, Copy, PartialEq, Eq, Structural)]
pub enum YamlViewAction {
    /// Return this answer.
    Respond(ResponseEvent),
    /// Return the answer of the widget that took the event, whatever it is.
    PassOnWidgetAnswer,
    /// Hand the event to the open widgets, then decide again with their answer.
    AskWidgets,
    /// Try to enter edit mode, then decide again with the outcome.
    TryEnableEdit,
    /// Try to leave edit mode, then decide again with the outcome.
    TryDisableEdit,
    /// Edit mode was left: show the hint for modified content (or hide it); handled.
    EditLeft { modified: bool },
    /// Close the view (asking first about unsaved changes).
    CloseView,
    /// Leave the view.
    Cancel,
    /// Open the mouse menu at the click; handled.
    ShowMouseMenu { column: u16, row: u16 },
    /// Insert the clipboard at the cursor and scroll to it; handled.
    Paste,
    /// Copy the current line (the selection) to the clipboard; handled.
    CopyLine,
    /// Copy the current line (the selection) to the clipboard, then decide again.
    CopyLineForCut,
    /// Hand the event to the viewer, then decide again with its answer.
    AskViewer,
    ShowCommandPalette,
    ShowSearch,
    ClearSearch,
    ToggleDecode,
    /// Copy the whole content to the clipboard; handled.
    CopyAll,
    ShowFilePicker,
    /// Move to the next and then the previous match, where asked; not handled.
    NavigateMatches { next: bool, previous: bool },
}

/// The YAML view's next step for `event`, given the answers so far.
pub open spec fn yaml_view_decision(s: YamlViewState, event: TuiEvent, bound: YamlBindings, a: YamlAnswers) -> YamlViewAction {
    let edit_key = |c: char| match event {
        TuiEvent::Key(k) => k == ctrl_key(c),
        _ => false,
    };
    if a.widgets_took is None {
        YamlViewAction::AskWidgets
    } else if a.widgets_took == Some(true) {
        YamlViewAction::PassOnWidgetAnswer
    } else if bound.yaml_edit && a.enabled_edit is None {
        YamlViewAction::TryEnableEdit
    } else if bound.yaml_edit && a.enabled_edit == Some(true) {
        YamlViewAction::Respond(ResponseEvent::Handled)
    } else if bound.navigate_back && s.is_new {
        YamlViewAction::CloseView
    } else if bound.navigate_back && s.is_edit && !s.is_modified {
        YamlViewAction::Cancel
    } else if bound.navigate_back && a.disabled_edit is None {
        YamlViewAction::TryDisableEdit
    } else if bound.navigate_back && a.disabled_edit == Some(true) {
        YamlViewAction::EditLeft { modified: s.is_modified }
    } else if (match event {
        TuiEvent::Mouse(m) => m.kind == MouseEventKind::RightClick,
        _ => false,
    }) {
        YamlViewAction::ShowMouseMenu { column: event->Mouse_0.column, row: event->Mouse_0.row }
    } else if s.is_in_edit_mode && edit_key('v') {
        YamlViewAction::Paste
    } else if s.is_in_edit_mode && edit_key('c') {
        YamlViewAction::CopyLine
    } else if s.is_in_edit_mode && edit_key('x') && !a.copied_for_cut {
        YamlViewAction::CopyLineForCut
    } else if a.viewer is None {
        YamlViewAction::AskViewer
    } else if a.viewer != Some(ResponseEvent::NotHandled) {
        YamlViewAction::Respond(a.viewer->0)
    } else if s.is_in_edit_mode {
        YamlViewAction::Respond(ResponseEvent::NotHandled)
    } else if bound.command_palette_open {
        YamlViewAction::ShowCommandPalette
    } else if bound.search_open {
        YamlViewAction::ShowSearch
    } else if bound.search_reset && s.has_search_value {
        YamlViewAction::ClearSearch
    } else if bound.navigate_back {
        YamlViewAction::CloseView
    } else if bound.yaml_decode && s.is_secret {
        YamlViewAction::ToggleDecode
    } else if bound.content_copy {
        YamlViewAction::CopyAll
    } else if bound.content_save {
        YamlViewAction::ShowFilePicker
    } else {
        YamlViewAction::NavigateMatches { next: bound.match_next && s.has_matches, previous: bound.match_previous && s.has_matches }
    }
}

/// Decides the YAML view's next step for `event`.
pub fn yaml_view_action(s: YamlViewState, event: &TuiEvent, bound: YamlBindings, a: YamlAnswers) -> (r: YamlViewAction)
    ensures
        r == yaml_view_decision(s, *event, bound, a),
{
    match a.widgets_took {
        None => return YamlViewAction::AskWidgets,
        Some(true) => return YamlViewAction::PassOnWidgetAnswer,
        Some(false) => {},
    }
    if bound.yaml_edit {
        match a.enabled_edit {
            None => return YamlViewAction::TryEnableEdit,
            Some(true) => return YamlViewAction::Respond(ResponseEvent::Handled),
            Some(false) => {},
        }
    }
    if bound.navigate_back {
        if s.is_new {
            return YamlViewAction::CloseView;
        }
        if s.is_edit && !s.is_modified {
            return YamlViewAction::Cancel;
        }
        match a.disabled_edit {
            None => return YamlViewAction::TryDisableEdit,
            Some(true) => return YamlViewAction::EditLeft { modified: s.is_modified },
            Some(false) => {},
        }
    }
    let (is_v, is_c, is_x) = match event {
        TuiEvent::Mouse(m) => {
            if m.kind == MouseEventKind::RightClick {
                return YamlViewAction::ShowMouseMenu { column: m.column, row: m.row };
            }
            (false, false, false)
        },
        TuiEvent::Key(k) => (is_ctrl_key(k, 'v'), is_ctrl_key(k, 'c'), is_ctrl_key(k, 'x')),
        TuiEvent::Command => (false, false, false),
    };
    if s.is_in_edit_mode {
        if is_v {
            return YamlViewAction::Paste;
        }
        if is_c {
            return YamlViewAction::CopyLine;
        }
        if is_x && !a.copied_for_cut {
            return YamlViewAction::CopyLineForCut;
        }
    }
    match a.viewer {
        None => return YamlViewAction::AskViewer,
        Some(ResponseEvent::Handled) => return YamlViewAction::Respond(ResponseEvent::Handled),
        Some(ResponseEvent::NotHandled) => {},
    }
    if s.is_in_edit_mode {
        return YamlViewAction::Respond(ResponseEvent::NotHandled);
    }
    if bound.command_palette_open {
        return YamlViewAction::ShowCommandPalette;
    }
    if bound.search_open {
        return YamlViewAction::ShowSearch;
    }
    if bound.search_reset && s.has_search_value {
        return YamlViewAction::ClearSearch;
    }
    if bound.navigate_back {
        return YamlViewAction::CloseView;
    }
    if bound.yaml_decode && s.is_secret {
        return YamlViewAction::ToggleDecode;
    }
    if bound.content_copy {
        return YamlViewAction::CopyAll;
    }
    if bound.content_save {
        return YamlViewAction::ShowFilePicker;
    }
    YamlViewAction::NavigateMatches { next: bound.match_next && s.has_matches, previous: bound.match_previous && s.has_matches }
}

} // verus!
