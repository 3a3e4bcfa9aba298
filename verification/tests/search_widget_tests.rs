use mirante::position::{ContentPosition, MatchPosition, Rect, ScreenPosition, SearchData};
use mirante::search_widget::SearchResultsWidget;

fn data(current: Option<usize>) -> SearchData {
    let mut d = SearchData::new();
    d.matches = Some(vec![MatchPosition::new(2, 1, 3), MatchPosition::new(0, 4, 2)]);
    d.current = current;
    d
}

fn at(x: u16, y: u16) -> ScreenPosition {
    ScreenPosition { x, y }
}

#[test]
fn all_matches_are_highlighted() {
    let d = data(None);
    let w = SearchResultsWidget::new(ContentPosition::new(0, 0), &d);
    let cells = w.highlighted_cells(Rect::new(1, 2, 10, 5));
    assert_eq!(vec![at(5, 3), at(4, 3), at(3, 3), at(2, 6), at(1, 6)], cells);
}

#[test]
fn only_current_match_is_highlighted() {
    let d = data(Some(2));
    let w = SearchResultsWidget::new(ContentPosition::new(0, 0), &d);
    assert_eq!(vec![at(2, 6), at(1, 6)], w.highlighted_cells(Rect::new(1, 2, 10, 5)));
    let d = data(Some(0));
    let w = SearchResultsWidget::new(ContentPosition::new(0, 0), &d);
    assert_eq!(vec![at(5, 3), at(4, 3), at(3, 3)], w.highlighted_cells(Rect::new(1, 2, 10, 5)));
}

#[test]
fn scrolled_page_clips_matches() {
    let d = data(None);
    let w = SearchResultsWidget::new(ContentPosition::new(3, 2), &d);
    assert_eq!(Vec::<ScreenPosition>::new(), w.highlighted_cells(Rect::new(1, 2, 10, 5)));
    let w = SearchResultsWidget::new(ContentPosition::new(3, 0), &d);
    assert_eq!(vec![at(2, 3), at(1, 3)], w.highlighted_cells(Rect::new(1, 2, 10, 5)));
}

#[test]
fn offset_moves_matches() {
    let d = data(Some(1));
    let w = SearchResultsWidget::new(ContentPosition::new(0, 0), &d).with_offset(Some(at(1, 1)));
    assert_eq!(vec![at(6, 4), at(5, 4), at(4, 4)], w.highlighted_cells(Rect::new(1, 2, 10, 5)));
}

#[test]
fn no_matches_nothing_highlighted() {
    let d = SearchData::new();
    let w = SearchResultsWidget::new(ContentPosition::new(0, 0), &d);
    assert!(w.highlighted_cells(Rect::new(0, 0, 10, 10)).is_empty());
}
