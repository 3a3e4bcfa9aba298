use mirante::resource_table::{
    enter_action, highlighted_resource_action, EnterAction, ResourceAction, ResourceBindings, ResourceKind, ResourceSummary,
};

fn none() -> ResourceBindings {
    ResourceBindings {
        navigate_into: false,
        events_show: false,
        involved_object_show: false,
        describe_open: false,
        yaml_open: false,
        yaml_decode: false,
        yaml_edit: false,
        logs_open: false,
        previous_logs_open: false,
        port_forwards_create: false,
        container_attach: false,
        shell_open: false,
    }
}

fn pod(tag_count: usize, single: bool) -> Option<ResourceSummary> {
    Some(ResourceSummary { is_all_namespaces: false, has_involved_object: false, tag_count, has_single_container: single })
}

#[test]
fn highlighted_resource_commands() {
    assert_eq!(ResourceAction::NotHandled, highlighted_resource_action(ResourceKind::Pods, None, true, none(), None, 3));
    assert_eq!(ResourceAction::Enter, highlighted_resource_action(ResourceKind::Pods, pod(1, true), true, none(), Some(2), 3));
    assert_eq!(ResourceAction::NotHandled, highlighted_resource_action(ResourceKind::Pods, pod(1, true), true, none(), Some(3), 3));
    let mut b = none();
    b.logs_open = true;
    assert_eq!(
        ResourceAction::ViewLogs { single_container: false, previous: false },
        highlighted_resource_action(ResourceKind::Pods, pod(2, false), true, b, None, 3)
    );
    let mut b = none();
    b.shell_open = true;
    assert_eq!(ResourceAction::OpenShell, highlighted_resource_action(ResourceKind::Pods, pod(1, true), true, b, None, 3));
    assert_eq!(ResourceAction::Enter, highlighted_resource_action(ResourceKind::Pods, pod(2, false), true, b, None, 3));
    assert_eq!(ResourceAction::NotHandled, highlighted_resource_action(ResourceKind::Deployments, pod(0, false), true, b, None, 3));
    let mut b = none();
    b.events_show = true;
    assert_eq!(ResourceAction::NotHandled, highlighted_resource_action(ResourceKind::Containers, pod(0, false), true, b, None, 3));
    assert_eq!(ResourceAction::ViewEvents, highlighted_resource_action(ResourceKind::Pods, pod(0, false), true, b, None, 3));
    let mut b = none();
    b.yaml_decode = true;
    b.yaml_edit = true;
    assert_eq!(
        ResourceAction::ViewYaml { decode: true, edit: false },
        highlighted_resource_action(ResourceKind::Secrets, pod(0, false), false, b, None, 3)
    );
    assert_eq!(ResourceAction::NotHandled, highlighted_resource_action(ResourceKind::Nodes, pod(0, false), false, b, None, 3));
    assert_eq!(
        ResourceAction::ViewYaml { decode: true, edit: true },
        highlighted_resource_action(ResourceKind::Nodes, pod(0, false), true, b, None, 3)
    );
}

#[test]
fn entering_resources() {
    assert_eq!(EnterAction::ViewSelector(ResourceKind::ReplicaSets), enter_action(ResourceKind::Deployments));
    assert_eq!(EnterAction::ViewSelector(ResourceKind::Pods), enter_action(ResourceKind::Services));
    assert_eq!(EnterAction::ChangeToPods, enter_action(ResourceKind::Namespaces));
    assert_eq!(EnterAction::ViewContainers, enter_action(ResourceKind::Pods));
    assert_eq!(EnterAction::ViewLogs, enter_action(ResourceKind::Containers));
    assert_eq!(EnterAction::ViewYaml, enter_action(ResourceKind::Secrets));
}
