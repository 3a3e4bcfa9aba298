use mirante::cell::Cell;
use mirante::table_row::BasicRow;

#[test]
fn basic_row_columns() {
    let cells = vec![Cell::raw("10", "0010"), Cell::from(None::<String>), Cell::from("x".to_owned())];
    let row = BasicRow::new("id-1".to_owned(), "main".to_owned(), cells);
    assert_eq!("id-1", row.uid());
    assert_eq!("", row.group());
    assert_eq!("main", row.name());
    let texts: Vec<&str> = (0..6).map(|c| row.column_text(c)).collect();
    assert_eq!(vec!["", "main", "10", "n/a", "x", "n/a"], texts);
    let sort: Vec<&str> = (0..6).map(|c| row.column_sort_text(c)).collect();
    assert_eq!(vec!["", "main", "0010", "n/a", "x", "n/a"], sort);
    assert_eq!("main  ", row.get_name(6));
    assert_eq!("ma", row.get_name(2));
}
