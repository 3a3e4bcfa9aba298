use vstd::prelude::*;

use crate::events::{KeyCode, KeyCombination, KeyModifiers, MouseEvent, MouseEventKind, TuiEvent};
use crate::viewer::{max_hstart_of, max_vstart_of, scroll_outcome, ViewerState};

verus! {

/// A key with no modifiers.
pub open spec fn plain_key(code: KeyCode) -> TuiEvent {
    TuiEvent::Key(KeyCombination { code, modifiers: KeyModifiers::spec_none() })
}

/// `PageUp` moves the page up by the page height (stopping at the first line) and `PageDown` down
/// by it (stopping at the last page), keeping the column; away from the content's edges
/// `PageDown` then `PageUp` comes back to the same page.
pub proof fn law_page_keys(v: ViewerState)
    requires
        v.page_start.y <= max_vstart_of(v),
        v.page_start.x <= max_hstart_of(v),
    ensures
        ({
            let h = v.page_area.height as int;
            let ps = v.page_start;
            let up = scroll_outcome(v, plain_key(KeyCode::PageUp)).0.page_start;
            let down = scroll_outcome(v, plain_key(KeyCode::PageDown)).0.page_start;
            &&& up.x == ps.x && down.x == ps.x
            &&& ps.y - up.y == (if ps.y >= h { h } else { ps.y as int })
            &&& down.y - ps.y == (if ps.y + h <= max_vstart_of(v) { h } else { max_vstart_of(v) - ps.y })
            &&& ps.y + h <= max_vstart_of(v) ==> scroll_outcome(
                scroll_outcome(v, plain_key(KeyCode::PageDown)).0,
                plain_key(KeyCode::PageUp),
            ).0.page_start == ps
        }),
{
    let ps = v.page_start;
    let h = v.page_area.height as usize;
    let v2 = scroll_outcome(v, plain_key(KeyCode::PageDown)).0;
    assert(max_vstart_of(v2) == max_vstart_of(v));
    assert(max_hstart_of(v2) == max_hstart_of(v));
    if ps.y + h <= max_vstart_of(v) {
        assert(v2.page_start.y == ps.y + h);
    }
}

/// A wheel action with no modifiers.
pub open spec fn plain_wheel(kind: MouseEventKind) -> TuiEvent {
    TuiEvent::Mouse(MouseEvent { kind, column: 0, row: 0, modifiers: KeyModifiers::spec_none() })
}

/// `Up` and the wheel up move the page up one line (not past the first), `Down` and the wheel
/// down one line (not past the last page), `Home` to the first line and `End` to the last page;
/// the column stays.
pub proof fn law_line_keys(v: ViewerState)
    requires
        v.page_start.y <= max_vstart_of(v),
        v.page_start.x <= max_hstart_of(v),
    ensures
        ({
            let ps = v.page_start;
            let up = scroll_outcome(v, plain_key(KeyCode::Up)).0.page_start;
            let down = scroll_outcome(v, plain_key(KeyCode::Down)).0.page_start;
            let wheel_up = scroll_outcome(v, plain_wheel(MouseEventKind::ScrollUp)).0.page_start;
            let wheel_down = scroll_outcome(v, plain_wheel(MouseEventKind::ScrollDown)).0.page_start;
            let home = scroll_outcome(v, plain_key(KeyCode::Home)).0.page_start;
            let end = scroll_outcome(v, plain_key(KeyCode::End)).0.page_start;
            &&& up.x == ps.x && down.x == ps.x && home.x == ps.x && end.x == ps.x
            &&& ps.y - up.y == (if ps.y >= 1 { 1int } else { 0 })
            &&& down.y - ps.y == (if ps.y < max_vstart_of(v) { 1int } else { 0 })
            &&& wheel_up == up && wheel_down == down
            &&& home.y == 0 && end.y == max_vstart_of(v)
        }),
{
}

} // verus!
