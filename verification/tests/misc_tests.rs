use mirante::cell::Cell;
use mirante::describe::{find_node_address, NodeAddress, SectionData, SectionDataExt, daemonset_pods, deployment_replicas, job_status, replicaset_replicas, statefulset_replicas, uppercase_first_letter, pod_security_context, projected_properties, PodSecurityValues, ProjectedRef, ProjectedSource, ValueKind};
use mirante::events::{KeyModifiers, MouseEvent, MouseEventKind, TuiEvent};
use mirante::logs::{get_container, ErrorState, IoErrorKind, LogsObserverError, LogsViewError};
use mirante::pattern::PatternItem;
use mirante::position::{Rect, ScreenPosition};
use mirante::resources::{build_cache_key, NextRefreshActions, Scope};
use mirante::screen::{buffer_contents, buffer_contents_between, find_word_bounds, CellGrid, ScreenSelection};
use mirante::widgets::{add_new_lines, combine_values, normalize, validate_path};

#[test]
fn pattern_item_rows() {
    let mut item = PatternItem::fixed("Hello".to_owned());
    assert!(item.is_fixed());
    assert_eq!("Hello", item.value());
    assert_eq!("Hello     ", item.get_name(10));
    item.set_icon(Some("*"));
    assert_eq!(Some("*"), item.icon());
    assert_eq!("Hello    *", item.get_name(10));
    assert_eq!("Hello \u{241d}descrip\u{241d} *", item.get_name_with_description(15, "description"));
    assert_eq!("Hello", item.column_text(1));
    assert_eq!("Hello", item.uid());
    assert_eq!("Hello", item.name());
    assert_eq!("n/a", item.group());
    assert_eq!("n/a", item.column_text(2));
    item.set_sort_value(Some("b".to_owned()));
    assert_eq!("b", item.column_sort_text(1));
    assert_eq!("Hello", item.into_value());
}

#[test]
fn pattern_item_matching_ignores_case() {
    let item = PatternItem::from_history("Kube-System");
    assert!(!item.is_fixed());
    assert!(item.contains("SYSTEM"));
    assert!(!item.contains("default"));
    assert!(item.starts_with("kube"));
    assert!(!item.starts_with("system"));
    assert!(item.is_equal("KUBE-SYSTEM"));
    assert!(!item.is_equal("kube"));
}

#[test]
fn uppercase_first_letter_test() {
    assert_eq!("Pod", uppercase_first_letter("pod"));
    assert_eq!("", uppercase_first_letter(""));
    assert_eq!("Ąb", uppercase_first_letter("ąb"));
    assert_eq!("SSx", uppercase_first_letter("ßx"));
}

#[test]
fn resource_summaries() {
    assert_eq!(
        Some("3 desired | 3 current | 2 ready | 0 available | 3 up-to-date | 0 misscheduled".to_owned()),
        daemonset_pods(Some(3), Some(3), Some(2), None, Some(3), Some(0))
    );
    assert_eq!(
        Some("1 desired | 0 updated | 0 total | 0 available | 0 unavailable".to_owned()),
        deployment_replicas(None, None, None, None, None)
    );
    assert_eq!(
        Some("-1 active | 4 ready | 2 succeeded | 0 failed | 0 terminating".to_owned()),
        job_status(Some(-1), Some(2), None, Some(4), None)
    );
    assert_eq!(
        Some("2 current | 1 desired | 2 ready | 2 available".to_owned()),
        replicaset_replicas(Some(2), None, Some(2), Some(2))
    );
    assert_eq!(
        Some("5 desired | 5 current | 5 ready | 5 available | 5 updated".to_owned()),
        statefulset_replicas(Some(5), Some(5), Some(5), Some(5), Some(5))
    );
}

#[test]
fn add_new_lines_test() {
    assert_eq!("a\nb\nc", add_new_lines("abc"));
    assert_eq!("", add_new_lines(""));
    assert_eq!("ą", add_new_lines("ą"));
}

#[test]
fn path_checks() {
    assert_eq!("/home/user", combine_values("/home/", "user"));
    assert!(!validate_path(""));
    assert!(!validate_path("a\0b"));
    assert!(validate_path("/tmp/../file.yaml"));
    assert!(validate_path("./a//b/"));
    let long = "x".repeat(256);
    assert!(!validate_path(&format!("/tmp/{long}")));
    assert!(validate_path(&format!("/tmp/{}", "x".repeat(255))));
}

#[test]
fn logs_errors() {
    let error = LogsViewError::from(LogsObserverError::KubeClientError("boom".to_owned()));
    assert_eq!("kubernetes client error", error.message());
    assert_eq!("no containers provided", LogsViewError::NoContainersToObserve.message());
    assert_eq!("kubernetes client error", LogsObserverError::KubeClientError(String::new()).message());
}

#[test]
fn only_first_timeout_in_a_row_is_hidden() {
    let mut state = ErrorState::new();
    let none: Vec<String> = Vec::new();
    assert!(!state.should_show_error(IoErrorKind::TimedOut, &none));
    assert!(state.should_show_error(IoErrorKind::TimedOut, &none));
    state.reset();
    let sources = vec!["hyper::Error(Io, Custom { kind: TimedOut })".to_owned()];
    assert!(!state.should_show_error(IoErrorKind::Other, &sources));
    assert!(state.should_show_error(IoErrorKind::Another, &none));
    assert!(ErrorState::is_timeout_error(IoErrorKind::Other, &sources));
    assert!(!ErrorState::is_timeout_error(IoErrorKind::Another, &sources));
    assert!(!ErrorState::is_timeout_error(IoErrorKind::Other, &none));
}

#[test]
fn next_refresh_actions_clear() {
    let mut actions = NextRefreshActions::from_previous(
        Some(("pod".to_owned(), "default".to_owned())),
        Some("web".to_owned()),
        7,
        (2, true),
    );
    actions.clear();
    assert!(actions.highlight_item.is_none());
    assert!(actions.apply_filter.is_none());
    assert_eq!(Some(7), actions.apply_offset);
    assert_eq!(Some((2, true)), actions.sort_info);
}

fn grid(rows: &[&str], width: u16, height: u16) -> CellGrid {
    CellGrid {
        rows: rows.iter().map(|r| r.chars().map(|c| c.to_string()).collect()).collect(),
        width,
        height,
    }
}

#[test]
fn reads_text_from_screen_cells() {
    let g = grid(&["ab  c   ", "        ", "  de    "], 8, 3);
    let area = Rect::new(0, 0, 8, 3);
    assert_eq!("ab  c\n\n  de", buffer_contents(&g, area));
    assert_eq!("c\n", buffer_contents_between(&g, area, 0, 4, 1, 3));
    assert_eq!("b  c", buffer_contents_between(&g, area, 0, 1, 0, 6));
}

#[test]
fn word_bounds_on_screen() {
    let g = grid(&["ab cde f"], 8, 1);
    assert_eq!((3, 5), find_word_bounds(&g, 4, 0));
    assert_eq!((2, 2), find_word_bounds(&g, 2, 0));
    assert_eq!((7, 7), find_word_bounds(&g, 7, 0));
}

#[test]
fn screen_selection_follows_mouse() {
    let g = grid(&["ab cde f", "xyz     "], 8, 2);
    let area = Rect::new(0, 0, 8, 2);
    let mut selection = ScreenSelection::new();
    let at = |kind, column, row| TuiEvent::Mouse(MouseEvent { kind, column, row, modifiers: KeyModifiers::none() });
    selection.process_event_with_content(&at(MouseEventKind::LeftClick, 5, 1), &g, area);
    assert_eq!(None, selection.sorted());
    selection.process_event_with_content(&at(MouseEventKind::LeftDrag, 1, 0), &g, area);
    assert_eq!(Some((ScreenPosition::new(1, 0), ScreenPosition::new(5, 1))), selection.sorted());
    selection.process_event_with_content(&at(MouseEventKind::LeftDoubleClick, 4, 0), &g, area);
    assert_eq!(Some((ScreenPosition::new(3, 0), ScreenPosition::new(5, 0))), selection.sorted());
    selection.process_event_with_content(&at(MouseEventKind::LeftTripleClick, 4, 1), &g, area);
    assert_eq!(Some((ScreenPosition::new(0, 1), ScreenPosition::new(7, 1))), selection.sorted());
    selection.reset();
    assert_eq!(None, selection.sorted());
}

#[test]
fn table_cells() {
    let cell = Cell::raw("abc", "sort");
    assert_eq!("abc", cell.text());
    assert_eq!("sort", cell.sort_text());
    let cell = Cell::integer(Some(42), 3);
    assert_eq!("42", cell.text());
    assert_eq!("1042", cell.sort_text());
    let cell = Cell::integer(None, 2);
    assert_eq!("0", cell.text());
    assert_eq!("100", cell.sort_text());
    assert_eq!("05", Cell::integer(Some(-5), 1).sort_text());
    assert_eq!("-40", Cell::integer(Some(-50), 1).sort_text());
    let mut cell = Cell::from("value".to_owned());
    assert_eq!(Some("value"), cell.raw_text());
    assert_eq!("value", cell.sort_text());
    cell.set_raw_text("other".to_owned());
    assert_eq!("other", cell.sort_text());
    let empty = Cell::from(None::<String>);
    assert_eq!("n/a", empty.text());
    assert_eq!("n/a", empty.sort_text());
    assert_eq!(None, empty.raw_text());
    assert_eq!("true", Cell::from_bool(true).text());
}

#[test]
fn cache_keys() {
    assert_eq!("default/pods/deployments", build_cache_key(Scope::Namespaced, "deployments", "default", true, None));
    assert_eq!("ns/services/app=web", build_cache_key(Scope::Namespaced, "services", "ns", false, Some("app=web")));
    assert_eq!("ns/services/", build_cache_key(Scope::Namespaced, "services", "ns", false, None));
    assert_eq!("nodes/", build_cache_key(Scope::Cluster, "nodes", "ns", true, None));
}

#[test]
fn normalize_drops_repeated_separators_and_dots() {
    assert_eq!("/a/b", normalize("/a//./b/"));
    assert_eq!("./a/..", normalize(".//a/./../"));
    assert_eq!(".", normalize("."));
    assert_eq!("/", normalize("//"));
    assert_eq!("", normalize(""));
    assert_eq!(".a/b", normalize(".a/b/."));
}

#[test]
fn container_name_and_length() {
    assert_eq!((Some("ąb".to_owned()), 2), get_container(Some("ąb")));
    assert_eq!((None, 0), get_container(None));
}

#[test]
fn node_address_of_type() {
    let addresses = vec![
        NodeAddress { kind: None, address: Some("x".to_owned()) },
        NodeAddress { kind: Some("Hostname".to_owned()), address: Some("node-1".to_owned()) },
        NodeAddress { kind: Some("InternalIP".to_owned()), address: None },
        NodeAddress { kind: Some("InternalIP".to_owned()), address: Some("10.0.0.1".to_owned()) },
    ];
    assert_eq!(Some("node-1".to_owned()), find_node_address(&addresses, "Hostname"));
    assert_eq!(None, find_node_address(&addresses, "InternalIP"));
    assert_eq!(None, find_node_address(&addresses, "ExternalIP"));
}

#[test]
fn sections_are_indented() {
    let sections: Vec<SectionData<&str, u8, bool>> =
        vec![SectionData::Text("a", 1), SectionData::Resources(7, 0), SectionData::List(true, 2)];
    let indented = sections.with_indent(3);
    assert_eq!(3, indented.len());
    assert!(matches!(indented[0], SectionData::Text("a", 4)));
    assert!(matches!(indented[1], SectionData::Resources(7, 3)));
    assert!(matches!(indented[2], SectionData::List(true, 5)));
}

#[test]
fn screen_selection_spans() {
    let g = grid(&["ab cde f", "xyz     ", "        ", "        "], 8, 4);
    let area = Rect::new(2, 1, 8, 4);
    let mut selection = ScreenSelection::new();
    let at = |kind, column, row| TuiEvent::Mouse(MouseEvent { kind, column, row, modifiers: KeyModifiers::none() });
    assert!(selection.spans(area).is_empty());
    selection.process_event_with_content(&at(MouseEventKind::LeftClick, 5, 4), &g, area);
    selection.process_event_with_content(&at(MouseEventKind::LeftDrag, 4, 2), &g, area);
    let spans: Vec<(u16, u16, u16)> = selection.spans(area).iter().map(|s| (s.y, s.from, s.to)).collect();
    assert_eq!(vec![(2, 4, 9), (3, 2, 9), (4, 2, 5)], spans);
    selection.process_event_with_content(&at(MouseEventKind::LeftDrag, 3, 4), &g, area);
    let spans: Vec<(u16, u16, u16)> = selection.spans(area).iter().map(|s| (s.y, s.from, s.to)).collect();
    assert_eq!(vec![(4, 3, 5)], spans);
}

#[test]
fn integer_cells_sort_like_their_values() {
    let values = [-99i64, -5, 0, 3, 42, 99];
    let texts: Vec<String> = values.iter().map(|v| Cell::integer(Some(*v), 2).sort_text().to_owned()).collect();
    assert_eq!(vec!["001", "095", "100", "103", "142", "199"], texts);
    for pair in texts.windows(2) {
        assert!(pair[0] < pair[1]);
    }
    assert_eq!(Some("-5"), Cell::integer(Some(-5), 2).raw_text());
}

#[test]
fn pod_security_context_lists_present_items() {
    let values = PodSecurityValues {
        run_as_user: Some(1000),
        run_as_group: None,
        run_as_non_root: Some(true),
        fs_group: Some(2000),
        supplemental_groups: Some(vec![Some(1), None, Some(3)]),
        seccomp_type: Some("RuntimeDefault".to_owned()),
    };
    assert_eq!(
        Some("runAsUser=1000, runAsNonRoot=true, fsGroup=2000, supplementalGroups=1/3, seccomp=RuntimeDefault".to_owned()),
        pod_security_context(Some(&values))
    );
}

#[test]
fn pod_security_context_without_items_is_none() {
    let empty = PodSecurityValues {
        run_as_user: None,
        run_as_group: None,
        run_as_non_root: None,
        fs_group: None,
        supplemental_groups: Some(vec![None]),
        seccomp_type: None,
    };
    assert_eq!(None, pod_security_context(Some(&empty)));
    assert_eq!(None, pod_security_context(None));
}

#[test]
fn pod_security_context_writes_negative_numbers_and_false() {
    let values = PodSecurityValues {
        run_as_user: None,
        run_as_group: Some(-5),
        run_as_non_root: Some(false),
        fs_group: None,
        supplemental_groups: None,
        seccomp_type: None,
    };
    assert_eq!(Some("runAsGroup=-5, runAsNonRoot=false".to_owned()), pod_security_context(Some(&values)));
}

#[test]
fn projected_properties_list_each_source() {
    let sources = vec![
        ProjectedSource {
            secret: Some(ProjectedRef { name: Some("token".to_owned()), optional: "true".to_owned() }),
            config_map: None,
            downward_api: false,
            token_expiration_seconds: None,
        },
        ProjectedSource {
            secret: None,
            config_map: Some(ProjectedRef { name: None, optional: String::new() }),
            downward_api: true,
            token_expiration_seconds: Some("3600".to_owned()),
        },
    ];
    let expected = vec![
        ("Type", "Projected".to_owned(), ValueKind::String),
        ("SecretName", "token".to_owned(), ValueKind::String),
        ("Optional", "true".to_owned(), ValueKind::Boolean),
        ("Optional", String::new(), ValueKind::Boolean),
        ("DownwardAPI", "true".to_owned(), ValueKind::Boolean),
        ("TokenExpirationSeconds", "3600".to_owned(), ValueKind::Numeric),
    ];
    assert_eq!(expected, projected_properties(Some(&sources)));
    assert_eq!(vec![("Type", "Projected".to_owned(), ValueKind::String)], projected_properties(None));
}
