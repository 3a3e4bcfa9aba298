use vstd::prelude::*;

use crate::events::{KeyCode, KeyModifiers, MouseEventKind, ResponseEvent, TuiEvent};
use crate::position::{sat_add, sat_sub, sat_sub16, Rect, ScreenPosition};

verus! {

/// What the list viewer's decisions read of its state.
#[derive(Debug, Clone, Copy, PartialEq, Eq, Structural)]
pub struct ListViewerState {
    /// The list could not be fetched or updated.
    pub has_api_error: bool,
    /// The list shows all its columns.
    pub is_full_view: bool,
    /// The area of the list items.
    pub area: Rect,
    /// The header row above the items is drawn.
    pub is_header_visible: bool,
    /// The horizontal offset of the table.
    pub offset: usize,
}

/// Which of the list viewer's key commands the event is bound to.
#[derive(Debug, Clone, Copy, PartialEq, Eq, Structural)]
pub struct ListBindings {
    pub select: bool,
    pub select_all: bool,
    pub invert_selection: bool,
}

/// What the list viewer does with an event.
#[derive(Debug, Clone, Copy, PartialEq, Eq, Structural)]
pub enum ListAction {
    /// The event is not for the list.
    NotHandled,
    /// The event is consumed with nothing more to do.
    Handled,
    /// Hand the event to the table first, then decide again with its answer.
    AskTable,
    /// Select the highlighted item (the event is handled).
    SelectHighlighted,
    /// Select all items (the event is handled).
    SelectAll,
    /// Invert the selection (the event is handled).
    InvertSelection,
    /// A click on item line `line` (counted from the top of the area); see [`line_click_action`].
    ClickLine { line: u16, with_control: bool },
    /// A click on the header at text position `position`; see [`sort_column`].
    ClickHeader { position: usize },
}

/// What follows a click on an item line.
#[derive(Debug, Clone, Copy, PartialEq, Eq, Structural)]
pub enum LineClickAction {
    /// Select the item now highlighted.
    SelectHighlighted,
    /// Keep the item highlighted.
    KeepHighlight,
    /// No item is on that line: remove the highlight.
    Unhighlight,
}

/// Only `Control` is held.
pub open spec fn control_only(m: KeyModifiers) -> bool {
    m == KeyModifiers { control: true, ..KeyModifiers::spec_none() }
}

/// Only `Alt` is held.
pub open spec fn alt_only(m: KeyModifiers) -> bool {
    m == KeyModifiers { alt: true, ..KeyModifiers::spec_none() }
}

/// The header row: the row above the item area, as wide as it.
pub open spec fn header_row(area: Rect) -> Rect {
    Rect { x: area.x, y: sat_sub16(area.y, 1), width: area.width, height: 1 }
}

/// The list viewer's decision on `event`; `table_answer` is the table's answer once it was asked.
/// With an API error nothing is handled; `Alt`+`0` is swallowed outside the full view; then the
/// table has the first say; then the select commands; then a left click on an item line or on the
/// header.
pub open spec fn list_decision(s: ListViewerState, event: TuiEvent, bound: ListBindings, table_answer: Option<ResponseEvent>) -> ListAction {
    if s.has_api_error {
        ListAction::NotHandled
    } else if (match event {
        TuiEvent::Key(k) => k.code == KeyCode::Char('0') && alt_only(k.modifiers) && !s.is_full_view,
        _ => false,
    }) {
        ListAction::Handled
    } else if table_answer is None {
        ListAction::AskTable
    } else if table_answer == Some(ResponseEvent::Handled) {
        ListAction::Handled
    } else if bound.select {
        ListAction::SelectHighlighted
    } else if bound.select_all {
        ListAction::SelectAll
    } else if bound.invert_selection {
        ListAction::InvertSelection
    } else {
        match event {
            TuiEvent::Mouse(m) => if m.kind == MouseEventKind::LeftClick {
                let p = ScreenPosition { x: m.column, y: m.row };
                if s.area.spec_contains(p) {
                    ListAction::ClickLine { line: sat_sub16(m.row, s.area.y), with_control: control_only(m.modifiers) }
                } else if s.is_header_visible && header_row(s.area).spec_contains(p) {
                    ListAction::ClickHeader { position: (sat_sub16(m.column, s.area.x) + s.offset) as usize }
                } else {
                    ListAction::NotHandled
                }
            } else {
                ListAction::NotHandled
            },
            _ => ListAction::NotHandled,
        }
    }
}

/// Decides what the list viewer does with `event`.
pub fn list_viewer_action(s: ListViewerState, event: &TuiEvent, bound: ListBindings, table_answer: Option<ResponseEvent>) -> (r: ListAction)
    requires
        s.offset + u16::MAX <= usize::MAX,
    ensures
        r == list_decision(s, *event, bound, table_answer),
{
    if s.has_api_error {
        return ListAction::NotHandled;
    }
    match event {
        TuiEvent::Key(k) => {
            if k.code == KeyCode::Char('0') && k.modifiers == KeyModifiers::alt() && !s.is_full_view {
                return ListAction::Handled;
            }
        },
        _ => {},
    }
    match table_answer {
        None => return ListAction::AskTable,
        Some(ResponseEvent::Handled) => return ListAction::Handled,
        Some(ResponseEvent::NotHandled) => {},
    }
    if bound.select {
        return ListAction::SelectHighlighted;
    }
    if bound.select_all {
        return ListAction::SelectAll;
    }
    if bound.invert_selection {
        return ListAction::InvertSelection;
    }
    match event {
        TuiEvent::Mouse(m) => {
            if m.kind == MouseEventKind::LeftClick {
                let p = ScreenPosition { x: m.column, y: m.row };
                if s.area.contains(p) {
                    return ListAction::ClickLine {
                        line: m.row.saturating_sub(s.area.y),
                        with_control: m.modifiers == KeyModifiers::control(),
                    };
                }
                let header = Rect::new(s.area.x, s.area.y.saturating_sub(1), s.area.width, 1);
                if s.is_header_visible && header.contains(p) {
                    return ListAction::ClickHeader { position: m.column.saturating_sub(s.area.x) as usize + s.offset };
                }
            }
            ListAction::NotHandled
        },
        _ => ListAction::NotHandled,
    }
}

/// What follows a click on an item line, from whether an item was found on it to highlight.
pub fn line_click_action(found: bool, with_control: bool) -> (r: LineClickAction)
    ensures
        r == (if !found {
            LineClickAction::Unhighlight
        } else if with_control {
            LineClickAction::SelectHighlighted
        } else {
            LineClickAction::KeepHighlight
        }),
{
    if !found {
        LineClickAction::Unhighlight
    } else if with_control {
        LineClickAction::SelectHighlighted
    } else {
        LineClickAction::KeepHighlight
    }
}

/// The column to sort by for a header click on column `column_no` (counted among the shown
/// columns; outside the full view the hidden first column is added).
pub fn sort_column(column_no: usize, is_full_view: bool) -> (r: usize)
    ensures
        r == sat_sub(sat_add(column_no, if is_full_view { 0 } else { 1 }), 1),
{
    column_no.saturating_add(if is_full_view { 0 } else { 1 }).saturating_sub(1)
}

} // verus!
