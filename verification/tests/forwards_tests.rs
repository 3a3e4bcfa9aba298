use mirante::forwards::{PortForwardItem, PortForwardTask};

fn task(start_time: Option<i64>) -> PortForwardTask {
    PortForwardTask {
        uuid: "u-1".to_owned(),
        namespace: "default".to_owned(),
        name: Some("nginx-0".to_owned()),
        container: Some("web".to_owned()),
        start_time,
        bind_address: "127.0.0.1".to_owned(),
        port: 8080,
        overall_connections: 12,
        active_connections: 1,
        connection_errors: 1234567,
    }
}

#[test]
fn port_forward_columns() {
    let item = PortForwardItem::from(&task(Some(1_700_000_000_123)));
    assert_eq!("u-1", item.uid());
    assert_eq!(Some("web"), item.container());
    assert_eq!(Some(1_700_000_000_123), item.creation_timestamp());
    let texts: Vec<&str> = (0..9).map(|c| item.column_text(c)).collect();
    assert_eq!(vec!["default", "nginx-0", "127.0.0.1", "8080", "1", "1234567", "12", "1700000000123", "n/a"], texts);
    let sort: Vec<&str> = (0..9).map(|c| item.column_sort_text(c)).collect();
    assert_eq!(vec!["default", "nginx-0", "127.0.0.1", "008080", "000001", "1234567", "000012", "1700000000123", "n/a"], sort);
}

#[test]
fn port_forward_without_start_time_or_name() {
    let mut t = task(None);
    t.name = None;
    let item = PortForwardItem::from(&t);
    assert_eq!("", item.name());
    assert_eq!("n/a", item.column_text(7));
    assert_eq!("n/a", item.column_sort_text(7));
}

#[test]
fn port_forward_name_is_fitted_to_width() {
    let item = PortForwardItem::from(&task(None));
    assert_eq!("nginx-0   ", item.get_name(10));
    assert_eq!("ngi", item.get_name(3));
}
