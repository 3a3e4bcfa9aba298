use mirante::list_header::{HeaderCell, HeaderWidget};

fn widget(offset: usize, is_focused: bool) -> HeaderWidget {
    HeaderWidget {
        header: "NAME↑ AGE".to_owned(),
        offset,
        is_full_view: false,
        sort_symbols: vec![' ', 'N', 'A'],
        show_border: true,
        is_focused,
    }
}

fn cell(x: u16, ch: char, underlined: bool) -> HeaderCell {
    HeaderCell { x, ch, underlined, is_arrow: ch == '↑' || ch == '↓' }
}

#[test]
fn header_underlines_sort_symbol_of_each_column() {
    let row = widget(0, true).render_cells(0, 20, 20);
    assert_eq!((0, '\u{e0c7}'), row.left_border);
    assert_eq!((19, '\u{e0c6}'), row.right_border);
    let expected = vec![
        cell(1, 'N', true),
        cell(2, 'A', false),
        cell(3, 'M', false),
        cell(4, 'E', false),
        cell(5, '↑', false),
        cell(6, ' ', false),
        cell(7, 'A', true),
        cell(8, 'G', false),
        cell(9, 'E', false),
    ];
    assert_eq!(expected, row.cells);
    assert!(row.cells[4].is_arrow);
}

#[test]
fn header_scrolled_and_cut_at_right_border() {
    let row = widget(2, true).render_cells(0, 20, 20);
    assert_eq!(7, row.cells.len());
    assert_eq!(cell(1, 'M', false), row.cells[0]);
    assert_eq!(cell(5, 'A', true), row.cells[4]);

    let row = widget(0, true).render_cells(0, 5, 20);
    assert_eq!((4, '\u{e0c6}'), row.right_border);
    assert_eq!(vec![cell(1, 'N', true), cell(2, 'A', false), cell(3, 'M', false)], row.cells);
}

#[test]
fn unfocused_header_underlines_nothing() {
    let mut w = widget(0, false);
    w.show_border = false;
    let row = w.render_cells(3, 20, 10);
    assert_eq!((3, ' '), row.left_border);
    assert_eq!((9, ' '), row.right_border);
    assert_eq!(5, row.cells.len());
    assert!(row.cells.iter().all(|c| !c.underlined));
}
