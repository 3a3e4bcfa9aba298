use mirante::values::{map_join, map_to_string, selector, sort_texts, update_strategy, RollingUpdate, Selector, UpdateStrategy};

fn entry(key: &str, value: Option<&str>) -> (String, Option<String>) {
    (key.to_owned(), value.map(String::from))
}

#[test]
fn texts_sort_by_code_point() {
    let sorted = sort_texts(vec!["b".to_owned(), "B".to_owned(), "ab".to_owned(), "a".to_owned(), "ą".to_owned(), "b".to_owned()]);
    assert_eq!(vec!["B", "a", "ab", "b", "b", "ą"], sorted);
}

#[test]
fn map_entries_are_sorted_and_joined() {
    let entries = vec![entry("tier", Some("web")), entry("app", Some("nginx")), entry("empty", None)];
    assert_eq!(Some("app=nginx, empty=, tier=web".to_owned()), map_to_string(Some(&entries)));
    assert_eq!(None, map_to_string(Some(&Vec::new())));
    assert_eq!(None, map_to_string(None));
}

#[test]
fn mapped_values_are_joined_in_order() {
    let values = vec![Some("z".to_owned()), None, Some("a".to_owned())];
    assert_eq!(Some("z, a".to_owned()), map_join(Some(&values)));
    assert_eq!(None, map_join(Some(&vec![None, None])));
    assert_eq!(None, map_join(None));
}

#[test]
fn selector_uses_labels_and_expressions() {
    let sel = Selector {
        match_labels: Some(vec![entry("b", Some("2")), entry("a", Some("1"))]),
        match_expressions: Some(vec![Some("{\"key\":\"x\"}".to_owned())]),
        entries: vec![entry("matchLabels", Some("{...}"))],
    };
    assert_eq!(Some("a=1, b=2, {\"key\":\"x\"}".to_owned()), selector(Some(&sel)));

    let plain = Selector { match_labels: None, match_expressions: None, entries: vec![entry("role", Some("db")), entry("app", Some("x"))] };
    assert_eq!(Some("app=x, role=db".to_owned()), selector(Some(&plain)));

    let empty = Selector { match_labels: Some(Vec::new()), match_expressions: Some(vec![None]), entries: Vec::new() };
    assert_eq!(None, selector(Some(&empty)));
    assert_eq!(None, selector(None));
}

#[test]
fn update_strategy_text() {
    let rolling = UpdateStrategy {
        kind: Some("RollingUpdate".to_owned()),
        rolling_update: Some(RollingUpdate {
            max_unavailable: Some("25%".to_owned()),
            max_surge: None,
            partition: Some("0".to_owned()),
        }),
    };
    assert_eq!(Some("RollingUpdate, 25% max unavailable, partition 0".to_owned()), update_strategy(Some(&rolling)));

    let recreate = UpdateStrategy { kind: Some("Recreate".to_owned()), rolling_update: None };
    assert_eq!(Some("Recreate".to_owned()), update_strategy(Some(&recreate)));

    let nothing = UpdateStrategy { kind: None, rolling_update: Some(RollingUpdate { max_unavailable: None, max_surge: None, partition: None }) };
    assert_eq!(None, update_strategy(Some(&nothing)));
    assert_eq!(None, update_strategy(None));
}
