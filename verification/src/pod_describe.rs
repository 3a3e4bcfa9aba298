use vstd::prelude::*;

use crate::describe::{SectionData, int_text, pod_security_context, push_i64, security_context_text, PodSecurityValues, ValueKind};
use crate::describe_builder::{
    bool_or_false, int_or_empty, line_view, text_or_empty, SpanRole, with_line, with_section, with_sub_section, BuilderState, StyledLine, TextSectionBuilder,
};
use crate::strings::push_char;
use crate::text::view_lines;
use crate::values::{comma, join_text, join_texts, joined_by, map_join, map_text, map_to_string, opt_text};

verus! {

/// A text, or nothing.
pub open spec fn or_empty(t: Option<Seq<char>>) -> Seq<char> {
    match t {
        Some(t) => t,
        None => seq![],
    }
}

/// The items of an optional list.
pub open spec fn list_values(l: Option<Vec<Option<String>>>) -> Option<Seq<Option<String>>> {
    match l {
        Some(v) => Some(v@),
        None => None,
    }
}

/// Joins the texts present in an optional list with `", "` (see [`map_join`]).
pub(crate) fn joined_list(values: &Option<Vec<Option<String>>>) -> (r: Option<String>)
    ensures
        text_or_empty(r) == or_empty(join_text(list_values(*values))),
{
    let r = match values {
        Some(v) => map_join(Some(v)),
        None => map_join(None),
    };
    assert(opt_text(r) == join_text(list_values(*values)));
    r
}

/// A copy of an optional text.
pub(crate) fn copied(value: &Option<String>) -> (r: Option<String>)
    ensures
        r == *value,
{
    match value {
        Some(v) => Some(v.clone()),
        None => None,
    }
}

/// The network addresses in a pod's status: its IP and IPs, and its host's IP and IPs (each list
/// item is the text of its `ip`, where it has one).
pub struct PodStatusNetwork {
    pub pod_ip: Option<String>,
    pub pod_ips: Option<Vec<Option<String>>>,
    pub host_ip: Option<String>,
    pub host_ips: Option<Vec<Option<String>>>,
}

/// What the networking part of a pod's describe view reads: its status addresses (where it has a
/// status) and its spec's network and DNS settings; a DNS option is its name and value, where
/// they are strings.
pub struct PodNetworkValues {
    pub status: Option<PodStatusNetwork>,
    pub host_network: Option<bool>,
    pub dns_policy: Option<String>,
    pub nameservers: Option<Vec<Option<String>>>,
    pub dns_options: Option<Vec<(Option<String>, Option<String>)>>,
    pub searches: Option<Vec<Option<String>>>,
}

/// The DNS options that have both a name and a value, as `name=value`, in order.
pub open spec fn dns_option_items(options: Seq<(Option<String>, Option<String>)>) -> Seq<Seq<char>>
    decreases options.len(),
{
    if options.len() == 0 {
        seq![]
    } else {
        let rest = dns_option_items(options.drop_last());
        match options.last() {
            (Some(name), Some(value)) => rest.push(name@ + seq!['='] + value@),
            _ => rest,
        }
    }
}

/// The DNS options joined with `", "` as `name=value` (`None` when there are none with both).
pub open spec fn dns_options_text(options: Option<Seq<(Option<String>, Option<String>)>>) -> Option<Seq<char>> {
    match options {
        Some(o) => if dns_option_items(o).len() == 0 { None } else { Some(joined_by(dns_option_items(o), comma())) },
        None => None,
    }
}

/// Builds the text of a pod's DNS options.
pub fn dns_options(values: Option<&Vec<(Option<String>, Option<String>)>>) -> (r: Option<String>)
    ensures
        opt_text(r) == dns_options_text(
            match values {
                Some(v) => Some(v@),
                None => None,
            },
        ),
{
    let values = match values {
        Some(v) => v,
        None => return None,
    };
    let mut items: Vec<String> = Vec::new();
    let mut i: usize = 0;
    assert(values@.take(0) =~= Seq::<(Option<String>, Option<String>)>::empty());
    while i < values.len()
        invariant
            i <= values@.len(),
            view_lines(items@) == dns_option_items(values@.take(i as int)),
        decreases values@.len() - i,
    {
        let ghost before = view_lines(items@);
        assert(values@.take(i + 1).drop_last() =~= values@.take(i as int));
        assert(values@.take(i + 1).last() == values@[i as int]);
        let (name, value) = &values[i];
        assert(*name == values@[i as int].0 && *value == values@[i as int].1);
        match (name, value) {
            (Some(name), Some(value)) => {
                let mut text = name.clone();
                push_char(&mut text, '=');
                <String as vstd::string::StringExecFns>::append(&mut text, value.as_str());
                assert(text@ =~= name@ + seq!['='] + value@);
                items.push(text);
                assert(view_lines(items@) =~= before.push(text@));
                assert(dns_option_items(values@.take(i + 1)) == before.push(name@ + seq!['='] + value@));
            },
            _ => {
                assert(view_lines(items@) =~= before);
            },
        }
        assert(view_lines(items@) == dns_option_items(values@.take(i + 1)));
        i = i + 1;
    }
    assert(values@.take(values@.len() as int) =~= values@);
    if items.len() == 0 {
        None
    } else {
        Some(join_texts(&items))
    }
}

/// The builder state after the networking part of a pod was added: a `Networking` section (a
/// sub-section for a template), the status addresses where there is a status, then the spec's
/// network and DNS settings.
pub open spec fn networking_state(s: BuilderState, d: PodNetworkValues, is_template: bool) -> BuilderState {
    let s1 = if is_template {
        with_sub_section(s, "Networking"@, 0, 2, Some(16))
    } else {
        with_section(s, "Networking"@, 0, 2, Some(16))
    };
    let s2 = match d.status {
        Some(st) => {
            let a = with_line(s1, "Pod IP"@, text_or_empty(st.pod_ip), ValueKind::String);
            let b = with_line(a, "Pod IPs"@, or_empty(join_text(list_values(st.pod_ips))), ValueKind::String);
            let c = with_line(b, "Host IP"@, text_or_empty(st.host_ip), ValueKind::String);
            with_line(c, "Host IPs"@, or_empty(join_text(list_values(st.host_ips))), ValueKind::String)
        },
        None => s1,
    };
    let s3 = with_line(s2, "Host Network"@, bool_or_false(d.host_network), ValueKind::Boolean);
    let s4 = with_line(s3, "DNS Policy"@, text_or_empty(d.dns_policy), ValueKind::String);
    let s5 = with_line(s4, "DNS Nameservers"@, or_empty(join_text(list_values(d.nameservers))), ValueKind::String);
    let s6 = with_line(s5, "DNS Options"@,
        or_empty(
            dns_options_text(
                match d.dns_options {
                    Some(o) => Some(o@),
                    None => None,
                },
            ),
        ),
        ValueKind::String,
    );
    with_line(s6, "DNS Searches"@, or_empty(join_text(list_values(d.searches))), ValueKind::String)
}

/// Adds the networking part of a pod (or pod template) to a describe section.
pub fn add_networking_section(builder: &mut TextSectionBuilder, data: &PodNetworkValues, is_template: bool)
    ensures
        final(builder)@ == networking_state(old(builder)@, *data, is_template),
{
    if is_template {
        builder.sub_section("Networking", 0, 2, Some(16));
    } else {
        builder.start_section("Networking", 0, 2, Some(16));
    }
    if let Some(status) = &data.status {
        builder.add_str("Pod IP", copied(&status.pod_ip));
        builder.add_str("Pod IPs", joined_list(&status.pod_ips));
        builder.add_str("Host IP", copied(&status.host_ip));
        builder.add_str("Host IPs", joined_list(&status.host_ips));
    }
    builder.add_bool("Host Network", data.host_network);
    builder.add_str("DNS Policy", copied(&data.dns_policy));
    builder.add_str("DNS Nameservers", joined_list(&data.nameservers));
    let options = match &data.dns_options {
        Some(o) => dns_options(Some(o)),
        None => dns_options(None),
    };
    assert(text_or_empty(options) == or_empty(opt_text(options)));
    builder.add_str("DNS Options", options);
    builder.add_str("DNS Searches", joined_list(&data.searches));
}


/// The status part that the runtime section of a pod reads.
pub struct PodStatusRuntime {
    pub qos_class: Option<String>,
}

/// What the runtime part of a pod's describe view reads: the spec's runtime settings, the status
/// quality of service (where there is a status), the names of the image pull secrets and the
/// security context (where it is an object).
pub struct PodRuntimeValues {
    pub service_account: Option<String>,
    pub runtime_class: Option<String>,
    pub restart_policy: Option<String>,
    pub status: Option<PodStatusRuntime>,
    pub image_pull_secrets: Option<Vec<Option<String>>>,
    pub enable_service_links: Option<bool>,
    pub share_process_namespace: Option<bool>,
    pub host_pid: Option<bool>,
    pub host_ipc: Option<bool>,
    pub security_context: Option<PodSecurityValues>,
}

/// The builder state after the runtime part of a pod was added.
pub open spec fn runtime_state(s: BuilderState, d: PodRuntimeValues) -> BuilderState {
    let s1 = with_section(s, "Runtime"@, 0, 2, Some(24));
    let s2 = with_line(s1, "Service Account"@, text_or_empty(d.service_account), ValueKind::String);
    let s3 = with_line(s2, "Runtime Class"@, text_or_empty(d.runtime_class), ValueKind::String);
    let s4 = with_line(s3, "Restart Policy"@, text_or_empty(d.restart_policy), ValueKind::String);
    let s5 = match d.status {
        Some(st) => with_line(s4, "QoS Class"@, text_or_empty(st.qos_class), ValueKind::String),
        None => s4,
    };
    let s6 = with_line(s5, "Image Pull Secrets"@, or_empty(join_text(list_values(d.image_pull_secrets))), ValueKind::String);
    let s7 = with_line(s6, "Enable Service Links"@, bool_or_false(d.enable_service_links), ValueKind::Boolean);
    let s8 = with_line(s7, "Share Process Namespace"@, bool_or_false(d.share_process_namespace), ValueKind::Boolean);
    let s9 = with_line(s8, "Host PID"@, bool_or_false(d.host_pid), ValueKind::Boolean);
    let s10 = with_line(s9, "Host IPC"@, bool_or_false(d.host_ipc), ValueKind::Boolean);
    let security = match d.security_context {
        Some(v) => or_empty(security_context_text(v)),
        None => seq![],
    };
    with_line(s10, "Security Context"@, security, ValueKind::String)
}

/// Adds the runtime part of a pod to a describe section.
pub fn add_runtime_section(builder: &mut TextSectionBuilder, data: &PodRuntimeValues)
    ensures
        final(builder)@ == runtime_state(old(builder)@, *data),
{
    builder.start_section("Runtime", 0, 2, Some(24));
    builder.add_str("Service Account", copied(&data.service_account));
    builder.add_str("Runtime Class", copied(&data.runtime_class));
    builder.add_str("Restart Policy", copied(&data.restart_policy));
    if let Some(status) = &data.status {
        builder.add_str("QoS Class", copied(&status.qos_class));
    }
    builder.add_str("Image Pull Secrets", joined_list(&data.image_pull_secrets));
    builder.add_bool("Enable Service Links", data.enable_service_links);
    builder.add_bool("Share Process Namespace", data.share_process_namespace);
    builder.add_bool("Host PID", data.host_pid);
    builder.add_bool("Host IPC", data.host_ipc);
    let security = match &data.security_context {
        Some(v) => pod_security_context(Some(v)),
        None => pod_security_context(None),
    };
    assert(text_or_empty(security) == match data.security_context {
        Some(v) => or_empty(security_context_text(v)),
        None => seq![],
    });
    builder.add_str("Security Context", security);
}


/// A topology spread constraint as the scheduling section reads it.
pub struct SpreadConstraint {
    pub topology_key: Option<String>,
    pub when_unsatisfiable: Option<String>,
    pub max_skew: Option<i64>,
}

/// `"{topology key} / {when unsatisfiable} / skew {max skew}"`, each part empty when missing.
pub open spec fn constraint_text(c: SpreadConstraint) -> Seq<char> {
    text_or_empty(c.topology_key) + " / "@ + text_or_empty(c.when_unsatisfiable) + " / skew "@ + match c.max_skew {
        Some(n) => int_text(n as int),
        None => seq![],
    }
}

/// The texts of the constraints, in order.
pub open spec fn constraint_texts(cs: Seq<SpreadConstraint>) -> Seq<Seq<char>> {
    cs.map_values(|c: SpreadConstraint| constraint_text(c))
}

/// The constraints joined with `", "` (`None` for no list or an empty one).
pub open spec fn constraints_text(cs: Option<Seq<SpreadConstraint>>) -> Option<Seq<char>> {
    match cs {
        Some(c) => if c.len() == 0 { None } else { Some(joined_by(constraint_texts(c), comma())) },
        None => None,
    }
}

/// Builds the text of a pod's topology spread constraints. Every item holds `skew`, so none is
/// left out as blank.
pub fn topology_spread_constraints(values: Option<&Vec<SpreadConstraint>>) -> (r: Option<String>)
    ensures
        opt_text(r) == constraints_text(
            match values {
                Some(v) => Some(v@),
                None => None,
            },
        ),
{
    let values = match values {
        Some(v) => v,
        None => return None,
    };
    let mut items: Vec<String> = Vec::new();
    let mut i: usize = 0;
    while i < values.len()
        invariant
            i <= values@.len(),
            view_lines(items@) == constraint_texts(values@.take(i as int)),
        decreases values@.len() - i,
    {
        let c = &values[i];
        let mut text = String::new();
        if let Some(k) = &c.topology_key {
            <String as vstd::string::StringExecFns>::append(&mut text, k.as_str());
        }
        <String as vstd::string::StringExecFns>::append(&mut text, " / ");
        if let Some(w) = &c.when_unsatisfiable {
            <String as vstd::string::StringExecFns>::append(&mut text, w.as_str());
        }
        <String as vstd::string::StringExecFns>::append(&mut text, " / skew ");
        if let Some(n) = c.max_skew {
            push_i64(&mut text, n);
        }
        assert(text@ =~= constraint_text(*c));
        let ghost before = view_lines(items@);
        items.push(text);
        assert(view_lines(items@) =~= before.push(text@));
        assert(constraint_texts(values@.take(i + 1)) =~= constraint_texts(values@.take(i as int)).push(constraint_text(values@[i as int])));
        i = i + 1;
    }
    assert(values@.take(values@.len() as int) =~= values@);
    if items.len() == 0 {
        None
    } else {
        Some(join_texts(&items))
    }
}

/// What the scheduling part of a pod's describe view reads: the spec's scheduling settings, the
/// nominated node (where there is a status: `Some` holding the optional name), the node selector
/// entries (each value as text where it has one), and the names of the scheduling and readiness
/// gates.
pub struct PodSchedulingValues {
    pub node_name: Option<String>,
    pub nominated_node: Option<Option<String>>,
    pub scheduler_name: Option<String>,
    pub priority: Option<i64>,
    pub priority_class: Option<String>,
    pub preemption_policy: Option<String>,
    pub node_selector: Option<Vec<(String, Option<String>)>>,
    pub scheduling_gates: Option<Vec<Option<String>>>,
    pub readiness_gates: Option<Vec<Option<String>>>,
    pub topology_spread_constraints: Option<Vec<SpreadConstraint>>,
}

/// The builder state after the scheduling part of a pod was added.
pub open spec fn scheduling_state(s: BuilderState, d: PodSchedulingValues) -> BuilderState {
    let s1 = with_section(s, "Scheduling"@, 0, 2, Some(28));
    let s2 = with_line(s1, "Node"@, text_or_empty(d.node_name), ValueKind::String);
    let s3 = match d.nominated_node {
        Some(n) => with_line(s2, "Nominated Node"@, text_or_empty(n), ValueKind::String),
        None => s2,
    };
    let s4 = with_line(s3, "Scheduler"@, text_or_empty(d.scheduler_name), ValueKind::String);
    let s5 = with_line(s4, "Priority"@, int_or_empty(d.priority), ValueKind::Numeric);
    let s6 = with_line(s5, "Priority Class"@, text_or_empty(d.priority_class), ValueKind::String);
    let s7 = with_line(s6, "Preemption Policy"@, text_or_empty(d.preemption_policy), ValueKind::String);
    let s8 = with_line(s7, "Node Selector"@,
        or_empty(
            map_text(
                match d.node_selector {
                    Some(e) => Some(e@),
                    None => None,
                },
            ),
        ),
        ValueKind::String,
    );
    let s9 = with_line(s8, "Scheduling Gates"@, or_empty(join_text(list_values(d.scheduling_gates))), ValueKind::String);
    let s10 = with_line(s9, "Readiness Gates"@, or_empty(join_text(list_values(d.readiness_gates))), ValueKind::String);
    with_line(s10, "Topology Spread Constraints"@,
        or_empty(
            constraints_text(
                match d.topology_spread_constraints {
                    Some(c) => Some(c@),
                    None => None,
                },
            ),
        ),
        ValueKind::String,
    )
}

/// Adds the scheduling part of a pod to a describe section.
pub fn add_scheduling_section(builder: &mut TextSectionBuilder, data: &PodSchedulingValues)
    ensures
        final(builder)@ == scheduling_state(old(builder)@, *data),
{
    builder.start_section("Scheduling", 0, 2, Some(28));
    builder.add_str("Node", copied(&data.node_name));
    if let Some(nominated) = &data.nominated_node {
        builder.add_str("Nominated Node", copied(nominated));
    }
    builder.add_str("Scheduler", copied(&data.scheduler_name));
    builder.add_inum("Priority", data.priority);
    builder.add_str("Priority Class", copied(&data.priority_class));
    builder.add_str("Preemption Policy", copied(&data.preemption_policy));
    let selector = match &data.node_selector {
        Some(e) => map_to_string(Some(e)),
        None => map_to_string(None),
    };
    assert(text_or_empty(selector) == or_empty(opt_text(selector)));
    builder.add_str("Node Selector", selector);
    builder.add_str("Scheduling Gates", joined_list(&data.scheduling_gates));
    builder.add_str("Readiness Gates", joined_list(&data.readiness_gates));
    let constraints = match &data.topology_spread_constraints {
        Some(c) => topology_spread_constraints(Some(c)),
        None => topology_spread_constraints(None),
    };
    assert(text_or_empty(constraints) == or_empty(opt_text(constraints)));
    builder.add_str("Topology Spread Constraints", constraints);
}


/// What the data section of a pod's describe view reads.
pub struct PodDataValues {
    pub network: PodNetworkValues,
    pub scheduling: PodSchedulingValues,
    pub runtime: PodRuntimeValues,
}

/// The lines of a pod's data section: its networking, scheduling and runtime parts.
pub open spec fn data_lines(d: PodDataValues, is_template: bool) -> Seq<Seq<(SpanRole, Seq<char>)>> {
    let s0 = BuilderState { lines: seq![], indent: 0, width: None };
    runtime_state(scheduling_state(networking_state(s0, d.network, is_template), d.scheduling), d.runtime).lines
}

/// Rebuilds the lines of a pod's data section (only a text section is rebuilt; its indentation
/// is kept).
pub fn update_data_section<R, L>(data: &PodDataValues, section: &mut SectionData<Vec<StyledLine>, R, L>, is_template: bool)
    ensures
        match *old(section) {
            SectionData::Text(_, indent) => match *final(section) {
                SectionData::Text(lines, i) => i == indent && lines@.map_values(|l: StyledLine| line_view(l@)) == data_lines(
                    *data,
                    is_template,
                ),
                _ => false,
            },
            _ => *final(section) == *old(section),
        },
{
    if let SectionData::Text(lines, _) = section {
        let mut builder = TextSectionBuilder::new(Vec::new());
        assert(builder@.lines =~= seq![]);
        add_networking_section(&mut builder, &data.network, is_template);
        add_scheduling_section(&mut builder, &data.scheduling);
        add_runtime_section(&mut builder, &data.runtime);
        *lines = builder.into_lines();
    }
}

} // verus!
