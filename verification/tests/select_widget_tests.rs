use mirante::position::{ContentPosition, Rect};
use mirante::select_widget::{ContentSelectWidget, SelectedSpan};
use mirante::selection::SelectContext;
use mirante::yaml::YamlContent;

fn span(y: u16, from: u16, to: u16) -> SelectedSpan {
    SelectedSpan { y, from, to }
}

fn content() -> YamlContent {
    YamlContent::new(vec!["abcdef".to_owned(), "gh".to_owned(), "ijklmnop".to_owned()], false)
}

#[test]
fn selection_spans_cover_selected_lines() {
    let c = content();
    let mut select = SelectContext::default();
    select.start = Some(ContentPosition::new(1, 2));
    select.end = Some(ContentPosition::new(2, 0));
    let page = ContentPosition::new(0, 0);
    let widget = ContentSelectWidget::new(&select, &c, &page);
    assert_eq!(vec![span(0, 3, 7), span(1, 1, 3), span(2, 1, 2)], widget.highlighted_spans(Rect::new(1, 0, 10, 5)));
}

#[test]
fn selection_spans_on_scrolled_page() {
    let c = content();
    let mut select = SelectContext::default();
    select.start = Some(ContentPosition::new(4, 0));
    select.end = Some(ContentPosition::new(5, 2));
    let page = ContentPosition::new(3, 1);
    let widget = ContentSelectWidget::new(&select, &c, &page);
    // line 0 is above the page; line 1 ends left of the page
    assert_eq!(vec![span(3, 2, 4)], widget.highlighted_spans(Rect::new(2, 2, 10, 5)));
}

#[test]
fn no_selection_no_spans() {
    let c = content();
    let select = SelectContext::default();
    let page = ContentPosition::new(0, 0);
    assert!(ContentSelectWidget::new(&select, &c, &page).highlighted_spans(Rect::new(0, 0, 10, 5)).is_empty());
}
