use vstd::prelude::*;

use crate::events::{KeyCode, KeyModifiers, MouseEventKind, ResponseEvent, TuiEvent};
use crate::position::{sat_add, sat_add16, sat_sub, sat_sub16, ContentPosition, Rect};

verus! {

/// Describe resource content, as far as its scrolling goes: the page position, the size of the
/// whole content and the area it is drawn in.
#[derive(Debug, Clone, Copy, PartialEq, Eq, Structural)]
pub struct DescribeContent {
    pub page_start: ContentPosition,
    pub max_width: usize,
    pub max_height: usize,
    pub area: Rect,
}

/// Only `Control` is held.
pub open spec fn is_control(m: KeyModifiers) -> bool {
    m == KeyModifiers { control: true, ..KeyModifiers::spec_none() }
}

/// The page position moved by `dx` columns (right when `right`) with saturation.
pub open spec fn moved_x(p: ContentPosition, dx: usize, right: bool) -> ContentPosition {
    ContentPosition { x: if right { sat_add(p.x, dx) } else { sat_sub(p.x, dx) }, y: p.y }
}

/// The page position moved by `dy` lines (down when `down`) with saturation.
pub open spec fn moved_y(p: ContentPosition, dy: usize, down: bool) -> ContentPosition {
    ContentPosition { x: p.x, y: if down { sat_add(p.y, dy) } else { sat_sub(p.y, dy) } }
}

impl DescribeContent {
    /// The page position kept within the content: at most the content width less the area width
    /// (without its two border columns), and at most the content height less the area height.
    pub open spec fn clamped(self, p: ContentPosition) -> ContentPosition {
        let max_x = sat_sub(self.max_width, sat_sub16(self.area.width, 2) as usize);
        let max_y = sat_sub(self.max_height, self.area.height as usize);
        ContentPosition { x: if p.x > max_x { max_x } else { p.x }, y: if p.y > max_y { max_y } else { p.y } }
    }

    /// Where a scroll event moves the page, before it is kept within the content; `None` for an
    /// event that does not scroll. With `Control`, `Home`, `PageUp`, `PageDown` and `End` and the
    /// vertical wheel scroll horizontally.
    pub open spec fn scroll_target(self, event: TuiEvent) -> Option<ContentPosition> {
        let p = self.page_start;
        let w = self.area.width as usize;
        let h = self.area.height as usize;
        match event {
            TuiEvent::Key(k) => {
                let ctrl = is_control(k.modifiers);
                if k.code == KeyCode::Home && ctrl {
                    Some(ContentPosition { x: 0, ..p })
                } else if k.code == KeyCode::PageUp && ctrl {
                    Some(moved_x(p, w, false))
                } else if k.code == KeyCode::Left {
                    Some(moved_x(p, 1, false))
                } else if k.code == KeyCode::Right {
                    Some(moved_x(p, 1, true))
                } else if k.code == KeyCode::PageDown && ctrl {
                    Some(moved_x(p, w, true))
                } else if k.code == KeyCode::End && ctrl {
                    Some(ContentPosition { x: self.max_width, ..p })
                } else if k.code == KeyCode::Home {
                    Some(ContentPosition { y: 0, ..p })
                } else if k.code == KeyCode::PageUp {
                    Some(moved_y(p, h, false))
                } else if k.code == KeyCode::Up {
                    Some(moved_y(p, 1, false))
                } else if k.code == KeyCode::Down {
                    Some(moved_y(p, 1, true))
                } else if k.code == KeyCode::PageDown {
                    Some(moved_y(p, h, true))
                } else if k.code == KeyCode::End {
                    Some(ContentPosition { y: self.max_height, ..p })
                } else {
                    None
                }
            },
            TuiEvent::Mouse(m) => {
                let ctrl = is_control(m.modifiers);
                if m.kind == MouseEventKind::ScrollUp && ctrl {
                    Some(moved_x(p, 1, false))
                } else if m.kind == MouseEventKind::ScrollDown && ctrl {
                    Some(moved_x(p, 1, true))
                } else if m.kind == MouseEventKind::ScrollLeft {
                    Some(moved_x(p, 1, false))
                } else if m.kind == MouseEventKind::ScrollRight {
                    Some(moved_x(p, 1, true))
                } else if m.kind == MouseEventKind::ScrollUp {
                    Some(moved_y(p, 1, false))
                } else if m.kind == MouseEventKind::ScrollDown {
                    Some(moved_y(p, 1, true))
                } else {
                    None
                }
            },
            TuiEvent::Command => None,
        }
    }

    /// Keeps the page position within the content.
    pub fn update_page_start(&mut self)
        ensures
            *final(self) == (DescribeContent { page_start: old(self).clamped(old(self).page_start), ..*old(self) }),
    {
        let max_width = self.max_width.saturating_sub(self.area.width.saturating_sub(2) as usize);
        if self.page_start.x > max_width {
            self.page_start.x = max_width;
        }
        let max_height = self.max_height.saturating_sub(self.area.height as usize);
        if self.page_start.y > max_height {
            self.page_start.y = max_height;
        }
    }

    /// Scrolls the page on a key or mouse scroll event, keeping it within the content.
    pub fn process_scroll_event(&mut self, event: &TuiEvent) -> (r: ResponseEvent)
        ensures
            match old(self).scroll_target(*event) {
                Some(p) => r == ResponseEvent::Handled && *final(self) == (DescribeContent {
                    page_start: old(self).clamped(p),
                    ..*old(self)
                }),
                None => r == ResponseEvent::NotHandled && *final(self) == *old(self),
            },
    {
        let w = self.area.width as usize;
        let h = self.area.height as usize;
        match event {
            TuiEvent::Key(key) => {
                let ctrl = key.modifiers == KeyModifiers::control();
                if key.code == KeyCode::Home && ctrl {
                    self.page_start.x = 0;
                } else if key.code == KeyCode::PageUp && ctrl {
                    self.page_start.sub_x(w);
                } else if key.code == KeyCode::Left {
                    self.page_start.sub_x(1);
                } else if key.code == KeyCode::Right {
                    self.page_start.add_x(1);
                } else if key.code == KeyCode::PageDown && ctrl {
                    self.page_start.add_x(w);
                } else if key.code == KeyCode::End && ctrl {
                    self.page_start.x = self.max_width;
                } else if key.code == KeyCode::Home {
                    self.page_start.y = 0;
                } else if key.code == KeyCode::PageUp {
                    self.page_start.sub_y(h);
                } else if key.code == KeyCode::Up {
                    self.page_start.sub_y(1);
                } else if key.code == KeyCode::Down {
                    self.page_start.add_y(1);
                } else if key.code == KeyCode::PageDown {
                    self.page_start.add_y(h);
                } else if key.code == KeyCode::End {
                    self.page_start.y = self.max_height;
                } else {
                    return ResponseEvent::NotHandled;
                }
            },
            TuiEvent::Mouse(mouse) => {
                let ctrl = mouse.modifiers == KeyModifiers::control();
                if mouse.kind == MouseEventKind::ScrollUp && ctrl {
                    self.page_start.sub_x(1);
                } else if mouse.kind == MouseEventKind::ScrollDown && ctrl {
                    self.page_start.add_x(1);
                } else if mouse.kind == MouseEventKind::ScrollLeft {
                    self.page_start.sub_x(1);
                } else if mouse.kind == MouseEventKind::ScrollRight {
                    self.page_start.add_x(1);
                } else if mouse.kind == MouseEventKind::ScrollUp {
                    self.page_start.sub_y(1);
                } else if mouse.kind == MouseEventKind::ScrollDown {
                    self.page_start.add_y(1);
                } else {
                    return ResponseEvent::NotHandled;
                }
            },
            TuiEvent::Command => return ResponseEvent::NotHandled,
        }
        self.update_page_start();
        ResponseEvent::Handled
    }

    /// The page position after making a section visible: a section starting above the page
    /// starts the page (at its left edge); one ending below the page ends it.
    pub open spec fn visible_target(self, section: Rect) -> Option<ContentPosition> {
        let page_y = self.page_start.y;
        let section_start = section.y as usize;
        let page_end = sat_add(page_y, self.area.height as usize);
        let section_end = sat_add16(section.y, section.height) as usize;
        if section_start < page_y {
            Some(ContentPosition { x: 0, y: section_start })
        } else if section_end > page_end {
            Some(ContentPosition { x: 0, y: sat_sub(section_end, self.area.height as usize) })
        } else {
            None
        }
    }

    /// Scrolls the page so that the `section` area (in content coordinates) is visible.
    pub fn ensure_section_visible(&mut self, section: Rect)
        ensures
            *final(self) == match old(self).visible_target(section) {
                Some(p) => DescribeContent { page_start: old(self).clamped(p), ..*old(self) },
                None => *old(self),
            },
    {
        let page_start = self.page_start.y;
        let section_start = section.y as usize;
        if section_start < page_start {
            self.page_start.x = 0;
            self.page_start.y = section_start;
            self.update_page_start();
            return;
        }
        let page_end = page_start.saturating_add(self.area.height as usize);
        let section_end = section.y.saturating_add(section.height) as usize;
        if section_end > page_end {
            self.page_start.x = 0;
            self.page_start.y = section_end.saturating_sub(self.area.height as usize);
            self.update_page_start();
        }
    }
}

} // verus!
