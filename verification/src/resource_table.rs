use vstd::prelude::*;

verus! {

/// The kinds of resources whose lists act differently.
#[derive(Debug, Clone, Copy, PartialEq, Eq, Structural)]
pub enum ResourceKind {
    Nodes,
    Jobs,
    Deployments,
    Services,
    ReplicaSets,
    StatefulSets,
    DaemonSets,
    Namespaces,
    Pods,
    Containers,
    Secrets,
    Other,
}

/// What the decisions read of the highlighted resource.
#[derive(Debug, Clone, Copy, PartialEq, Eq, Structural)]
pub struct ResourceSummary {
    /// It is the item standing for all namespaces.
    pub is_all_namespaces: bool,
    /// It refers to an involved object.
    pub has_involved_object: bool,
    /// The number of its tags (`0` when it has no data).
    pub tag_count: usize,
    /// It is a pod with a single container.
    pub has_single_container: bool,
}

/// Which of the list's key commands the event is bound to.
#[derive(Debug, Clone, Copy, PartialEq, Eq, Structural)]
pub struct ResourceBindings {
    pub navigate_into: bool,
    pub events_show: bool,
    pub involved_object_show: bool,
    pub describe_open: bool,
    pub yaml_open: bool,
    pub yaml_decode: bool,
    pub yaml_edit: bool,
    pub logs_open: bool,
    pub previous_logs_open: bool,
    pub port_forwards_create: bool,
    pub container_attach: bool,
    pub shell_open: bool,
}

/// What the list does with an event on its highlighted resource.
#[derive(Debug, Clone, Copy, PartialEq, Eq, Structural)]
pub enum ResourceAction {
    NotHandled,
    /// Go into the resource (see [`enter_action`]).
    Enter,
    ViewEvents,
    ViewInvolved,
    Describe,
    ViewYaml { decode: bool, edit: bool },
    ViewLogs { single_container: bool, previous: bool },
    ViewPorts,
    Attach,
    OpenShell,
}

/// What going into a resource of a kind shows.
#[derive(Debug, Clone, Copy, PartialEq, Eq, Structural)]
pub enum EnterAction {
    ViewNodes,
    ViewJobs,
    /// The resources of the given kind that the resource selects.
    ViewSelector(ResourceKind),
    /// The pods of the namespace.
    ChangeToPods,
    ViewContainers,
    ViewLogs,
    ViewYaml,
}

/// The decision on an event for the highlighted resource (`None` when nothing is highlighted) of
/// a list of `kind` holding `len` items; `click_line` is the line of an unmodified left double
/// click in the list area.
pub open spec fn resource_decision(
    kind: ResourceKind,
    res: Option<ResourceSummary>,
    editable: bool,
    bound: ResourceBindings,
    click_line: Option<u16>,
    len: usize,
) -> ResourceAction {
    match res {
        None => ResourceAction::NotHandled,
        Some(r) => {
            let is_container = kind == ResourceKind::Containers;
            if bound.navigate_into || (click_line is Some && (click_line->0 as int) < len) {
                ResourceAction::Enter
            } else if bound.events_show {
                if !is_container && !r.is_all_namespaces { ResourceAction::ViewEvents } else { ResourceAction::NotHandled }
            } else if bound.involved_object_show && r.has_involved_object {
                ResourceAction::ViewInvolved
            } else if bound.describe_open {
                ResourceAction::Describe
            } else if bound.yaml_open || (bound.yaml_decode && kind == ResourceKind::Secrets) {
                ResourceAction::ViewYaml { decode: bound.yaml_decode, edit: false }
            } else if bound.yaml_edit && editable {
                ResourceAction::ViewYaml { decode: true, edit: true }
            } else if is_container || kind == ResourceKind::Pods {
                let single = !(!is_container && r.tag_count > 1);
                if bound.logs_open {
                    ResourceAction::ViewLogs { single_container: single, previous: false }
                } else if bound.previous_logs_open {
                    ResourceAction::ViewLogs { single_container: single, previous: true }
                } else if is_container || r.has_single_container {
                    if bound.port_forwards_create {
                        ResourceAction::ViewPorts
                    } else if bound.container_attach {
                        ResourceAction::Attach
                    } else if bound.shell_open {
                        ResourceAction::OpenShell
                    } else {
                        ResourceAction::NotHandled
                    }
                } else if bound.port_forwards_create || bound.container_attach || bound.shell_open {
                    ResourceAction::Enter
                } else {
                    ResourceAction::NotHandled
                }
            } else {
                ResourceAction::NotHandled
            }
        },
    }
}

/// Decides what the list does with an event for its highlighted resource.
pub fn highlighted_resource_action(
    kind: ResourceKind,
    res: Option<ResourceSummary>,
    editable: bool,
    bound: ResourceBindings,
    click_line: Option<u16>,
    len: usize,
) -> (r: ResourceAction)
    ensures
        r == resource_decision(kind, res, editable, bound, click_line, len),
{
    let r = match res {
        None => return ResourceAction::NotHandled,
        Some(r) => r,
    };
    if bound.navigate_into {
        return ResourceAction::Enter;
    }
    match click_line {
        Some(line) => {
            if (line as usize) < len {
                return ResourceAction::Enter;
            }
        },
        None => {},
    }
    let is_container = kind == ResourceKind::Containers;
    if bound.events_show {
        if !is_container && !r.is_all_namespaces {
            return ResourceAction::ViewEvents;
        }
        return ResourceAction::NotHandled;
    }
    if bound.involved_object_show && r.has_involved_object {
        return ResourceAction::ViewInvolved;
    }
    if bound.describe_open {
        return ResourceAction::Describe;
    }
    if bound.yaml_open || (bound.yaml_decode && kind == ResourceKind::Secrets) {
        return ResourceAction::ViewYaml { decode: bound.yaml_decode, edit: false };
    }
    if bound.yaml_edit && editable {
        return ResourceAction::ViewYaml { decode: true, edit: true };
    }
    if is_container || kind == ResourceKind::Pods {
        let is_multiple = !is_container && r.tag_count > 1;
        if bound.logs_open {
            return ResourceAction::ViewLogs { single_container: !is_multiple, previous: false };
        }
        if bound.previous_logs_open {
            return ResourceAction::ViewLogs { single_container: !is_multiple, previous: true };
        }
        if is_container || r.has_single_container {
            if bound.port_forwards_create {
                return ResourceAction::ViewPorts;
            }
            if bound.container_attach {
                return ResourceAction::Attach;
            }
            if bound.shell_open {
                return ResourceAction::OpenShell;
            }
        } else if bound.port_forwards_create || bound.container_attach || bound.shell_open {
            return ResourceAction::Enter;
        }
    }
    ResourceAction::NotHandled
}

/// What going into a resource of `kind` shows: nodes and jobs their own views, deployments their
/// replica sets, services, replica sets, stateful sets and daemon sets their pods, a namespace its
/// pods, a pod its containers, a container its logs, anything else its YAML.
pub fn enter_action(kind: ResourceKind) -> (r: EnterAction)
    ensures
        r == match kind {
            ResourceKind::Nodes => EnterAction::ViewNodes,
            ResourceKind::Jobs => EnterAction::ViewJobs,
            ResourceKind::Deployments => EnterAction::ViewSelector(ResourceKind::ReplicaSets),
            ResourceKind::Services | ResourceKind::ReplicaSets | ResourceKind::StatefulSets | ResourceKind::DaemonSets =>
                EnterAction::ViewSelector(ResourceKind::Pods),
            ResourceKind::Namespaces => EnterAction::ChangeToPods,
            ResourceKind::Pods => EnterAction::ViewContainers,
            ResourceKind::Containers => EnterAction::ViewLogs,
            _ => EnterAction::ViewYaml,
        },
{
    match kind {
        ResourceKind::Nodes => EnterAction::ViewNodes,
        ResourceKind::Jobs => EnterAction::ViewJobs,
        ResourceKind::Deployments => EnterAction::ViewSelector(ResourceKind::ReplicaSets),
        ResourceKind::Services | ResourceKind::ReplicaSets | ResourceKind::StatefulSets | ResourceKind::DaemonSets =>
            EnterAction::ViewSelector(ResourceKind::Pods),
        ResourceKind::Namespaces => EnterAction::ChangeToPods,
        ResourceKind::Pods => EnterAction::ViewContainers,
        ResourceKind::Containers => EnterAction::ViewLogs,
        _ => EnterAction::ViewYaml,
    }
}

} // verus!
