use mirante::events::{KeyCode, KeyCombination, KeyModifiers, MouseEvent, MouseEventKind, ResponseEvent, TuiEvent};
use mirante::yaml_view::{yaml_view_action, YamlAnswers, YamlBindings, YamlViewAction, YamlViewState};

fn state() -> YamlViewState {
    YamlViewState {
        is_new: false,
        is_edit: false,
        is_modified: false,
        is_in_edit_mode: false,
        is_secret: false,
        has_search_value: false,
        has_matches: true,
    }
}

fn none() -> YamlBindings {
    YamlBindings {
        yaml_edit: false,
        navigate_back: false,
        command_palette_open: false,
        search_open: false,
        search_reset: false,
        yaml_decode: false,
        content_copy: false,
        content_save: false,
        match_next: false,
        match_previous: false,
    }
}

fn answers() -> YamlAnswers {
    YamlAnswers { widgets_took: Some(false), enabled_edit: None, disabled_edit: None, copied_for_cut: false, viewer: None }
}

fn ctrl(c: char) -> TuiEvent {
    TuiEvent::Key(KeyCombination::new(KeyCode::Char(c), KeyModifiers::control()))
}

#[test]
fn yaml_view_steps_for_edit_and_back() {
    let ev = ctrl('e');
    let mut a = answers();
    a.widgets_took = None;
    assert_eq!(YamlViewAction::AskWidgets, yaml_view_action(state(), &ev, none(), a));
    a.widgets_took = Some(true);
    assert_eq!(YamlViewAction::PassOnWidgetAnswer, yaml_view_action(state(), &ev, none(), a));
    let mut b = none();
    b.yaml_edit = true;
    assert_eq!(YamlViewAction::TryEnableEdit, yaml_view_action(state(), &ev, b, answers()));
    let mut a = answers();
    a.enabled_edit = Some(true);
    assert_eq!(YamlViewAction::Respond(ResponseEvent::Handled), yaml_view_action(state(), &ev, b, a));

    let mut b = none();
    b.navigate_back = true;
    let mut s = state();
    s.is_modified = true;
    assert_eq!(YamlViewAction::TryDisableEdit, yaml_view_action(s, &ev, b, answers()));
    let mut a = answers();
    a.disabled_edit = Some(true);
    assert_eq!(YamlViewAction::EditLeft { modified: true }, yaml_view_action(s, &ev, b, a));
    a.disabled_edit = Some(false);
    a.viewer = Some(ResponseEvent::NotHandled);
    assert_eq!(YamlViewAction::CloseView, yaml_view_action(s, &ev, b, a));
    s.is_edit = true;
    s.is_modified = false;
    assert_eq!(YamlViewAction::Cancel, yaml_view_action(s, &ev, b, answers()));
}

#[test]
fn yaml_view_edit_mode_keys_and_commands() {
    let mut s = state();
    s.is_in_edit_mode = true;
    assert_eq!(YamlViewAction::Paste, yaml_view_action(s, &ctrl('v'), none(), answers()));
    assert_eq!(YamlViewAction::CopyLine, yaml_view_action(s, &ctrl('c'), none(), answers()));
    assert_eq!(YamlViewAction::CopyLineForCut, yaml_view_action(s, &ctrl('x'), none(), answers()));
    let mut a = answers();
    a.copied_for_cut = true;
    assert_eq!(YamlViewAction::AskViewer, yaml_view_action(s, &ctrl('x'), none(), a));
    a.viewer = Some(ResponseEvent::NotHandled);
    assert_eq!(YamlViewAction::Respond(ResponseEvent::NotHandled), yaml_view_action(s, &ctrl('x'), none(), a));

    let right = TuiEvent::Mouse(MouseEvent { kind: MouseEventKind::RightClick, column: 3, row: 4, modifiers: KeyModifiers::none() });
    assert_eq!(YamlViewAction::ShowMouseMenu { column: 3, row: 4 }, yaml_view_action(state(), &right, none(), answers()));

    let ev = ctrl('n');
    let mut a = answers();
    a.viewer = Some(ResponseEvent::NotHandled);
    let mut b = none();
    b.match_next = true;
    b.match_previous = true;
    assert_eq!(YamlViewAction::NavigateMatches { next: true, previous: true }, yaml_view_action(state(), &ev, b, a));
    b.yaml_decode = true;
    assert_eq!(YamlViewAction::NavigateMatches { next: true, previous: true }, yaml_view_action(state(), &ev, b, a));
    let mut s = state();
    s.is_secret = true;
    assert_eq!(YamlViewAction::ToggleDecode, yaml_view_action(s, &ev, b, a));
    b.search_reset = true;
    s.has_search_value = true;
    assert_eq!(YamlViewAction::ClearSearch, yaml_view_action(s, &ev, b, a));
}
