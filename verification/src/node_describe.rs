use vstd::prelude::*;

use crate::describe::{find_node_address, node_address, NodeAddress, SectionData, ValueKind};
use crate::describe_builder::{
    bool_or_false, line_view, text_or_empty, with_line, with_section, BuilderState, SpanRole, StyledLine, TextSectionBuilder,
};
use crate::pod_describe::{copied, joined_list, list_values, or_empty};
use crate::strings::push_char;
use crate::text::view_lines;
use vstd::utf8::encode_utf8;
use crate::values::{comma, join_text, join_texts, joined_by, opt_text};

verus! {

/// The address of the given type in an optional address list.
pub open spec fn address_of(addresses: Option<Vec<NodeAddress>>, address_type: Seq<char>) -> Option<Seq<char>> {
    match addresses {
        Some(a) => node_address(a@, address_type),
        None => None,
    }
}

/// Returns the address of the given type from an optional address list.
fn address_in(addresses: &Option<Vec<NodeAddress>>, address_type: &str) -> (r: Option<String>)
    ensures
        opt_text(r) == address_of(*addresses, address_type@),
{
    match addresses {
        Some(a) => find_node_address(a.as_slice(), address_type),
        None => None,
    }
}

/// The addresses that have both a type and an address, as `type=address`, in order.
pub open spec fn address_items(addresses: Seq<NodeAddress>) -> Seq<Seq<char>>
    decreases addresses.len(),
{
    if addresses.len() == 0 {
        seq![]
    } else {
        let rest = address_items(addresses.drop_last());
        let a = addresses.last();
        match (a.kind, a.address) {
            (Some(kind), Some(address)) => rest.push(kind@ + seq!['='] + address@),
            _ => rest,
        }
    }
}

/// The items joined with `", "` (`None` when there are none).
pub open spec fn joined_items(items: Seq<Seq<char>>) -> Option<Seq<char>> {
    if items.len() == 0 { None } else { Some(joined_by(items, comma())) }
}

/// Builds the text of a node's addresses: `type=address` for each that has both.
pub fn node_addresses(values: Option<&Vec<NodeAddress>>) -> (r: Option<String>)
    ensures
        opt_text(r) == match values {
            Some(v) => joined_items(address_items(v@)),
            None => None,
        },
{
    let values = match values {
        Some(v) => v,
        None => return None,
    };
    let mut items: Vec<String> = Vec::new();
    let mut i: usize = 0;
    assert(values@.take(0) =~= Seq::<NodeAddress>::empty());
    while i < values.len()
        invariant
            i <= values@.len(),
            view_lines(items@) == address_items(values@.take(i as int)),
        decreases values@.len() - i,
    {
        let ghost before = view_lines(items@);
        assert(values@.take(i + 1).drop_last() =~= values@.take(i as int));
        assert(values@.take(i + 1).last() == values@[i as int]);
        let a = &values[i];
        match (&a.kind, &a.address) {
            (Some(kind), Some(address)) => {
                let mut text = kind.clone();
                push_char(&mut text, '=');
                <String as vstd::string::StringExecFns>::append(&mut text, address.as_str());
                assert(text@ =~= kind@ + seq!['='] + address@);
                items.push(text);
                assert(view_lines(items@) =~= before.push(text@));
            },
            _ => {
                assert(view_lines(items@) =~= before);
            },
        }
        assert(view_lines(items@) == address_items(values@.take(i + 1)));
        i = i + 1;
    }
    assert(values@.take(values@.len() as int) =~= values@);
    if items.len() == 0 {
        None
    } else {
        Some(join_texts(&items))
    }
}

/// A taint of a node, each part where it is a string.
pub struct Taint {
    pub key: Option<String>,
    pub value: Option<String>,
    pub effect: Option<String>,
}

/// `key:effect`, or `key=value:effect` when the value is not empty (missing parts empty).
pub open spec fn taint_text(t: Taint) -> Seq<char> {
    let value = text_or_empty(t.value);
    if value.len() == 0 {
        text_or_empty(t.key) + seq![':'] + text_or_empty(t.effect)
    } else {
        text_or_empty(t.key) + seq!['='] + value + seq![':'] + text_or_empty(t.effect)
    }
}

/// The text is made of colons only (or is empty).
pub open spec fn only_colons(s: Seq<char>) -> bool {
    forall|i: int| 0 <= i < s.len() ==> s[i] == ':'
}

/// The texts of the taints that hold more than colons, in order.
pub open spec fn taint_items(taints: Seq<Taint>) -> Seq<Seq<char>>
    decreases taints.len(),
{
    if taints.len() == 0 {
        seq![]
    } else {
        let rest = taint_items(taints.drop_last());
        let t = taint_text(taints.last());
        if only_colons(t) { rest } else { rest.push(t) }
    }
}

/// Whether a text is made of colons only.
fn is_only_colons(s: &String) -> (r: bool)
    ensures
        r == only_colons(s@),
{
    let n = s.as_str().unicode_len();
    let mut i: usize = 0;
    while i < n
        invariant
            i <= n,
            n == s@.len(),
            forall|k: int| 0 <= k < i ==> s@[k] == ':',
        decreases n - i,
    {
        if s.as_str().get_char(i) != ':' {
            return false;
        }
        i = i + 1;
    }
    true
}

/// Appends an optional text to `s`.
fn append_text(s: &mut String, value: &Option<String>)
    ensures
        final(s)@ == old(s)@ + text_or_empty(*value),
{
    match value {
        Some(v) => <String as vstd::string::StringExecFns>::append(s, v.as_str()),
        None => {
            assert(old(s)@ + text_or_empty(*value) =~= old(s)@);
        },
    }
}

/// Builds the text of a node's taints, leaving out those that are only colons.
pub fn node_taints(values: Option<&Vec<Taint>>) -> (r: Option<String>)
    ensures
        opt_text(r) == match values {
            Some(v) => joined_items(taint_items(v@)),
            None => None,
        },
{
    let values = match values {
        Some(v) => v,
        None => return None,
    };
    let mut items: Vec<String> = Vec::new();
    let mut i: usize = 0;
    assert(values@.take(0) =~= Seq::<Taint>::empty());
    while i < values.len()
        invariant
            i <= values@.len(),
            view_lines(items@) == taint_items(values@.take(i as int)),
        decreases values@.len() - i,
    {
        let ghost before = view_lines(items@);
        assert(values@.take(i + 1).drop_last() =~= values@.take(i as int));
        assert(values@.take(i + 1).last() == values@[i as int]);
        let t = &values[i];
        let mut text = String::new();
        append_text(&mut text, &t.key);
        let has_value = match &t.value {
            Some(v) => v.as_str().unicode_len() > 0,
            None => false,
        };
        if has_value {
            push_char(&mut text, '=');
            append_text(&mut text, &t.value);
        }
        push_char(&mut text, ':');
        append_text(&mut text, &t.effect);
        assert(text@ =~= taint_text(*t));
        if !is_only_colons(&text) {
            items.push(text);
            assert(view_lines(items@) =~= before.push(text@));
        } else {
            assert(view_lines(items@) =~= before);
        }
        i = i + 1;
    }
    assert(values@.take(values@.len() as int) =~= values@);
    if items.len() == 0 {
        None
    } else {
        Some(join_texts(&items))
    }
}

/// What a node's networking section reads: its status addresses, and its spec's pod CIDRs.
pub struct NodeNetworkValues {
    pub addresses: Option<Vec<NodeAddress>>,
    pub pod_cidr: Option<String>,
    pub pod_cidrs: Option<Vec<Option<String>>>,
}

/// The builder state after a node's networking section was added.
pub open spec fn node_networking_state(s: BuilderState, d: NodeNetworkValues) -> BuilderState {
    let s1 = with_section(s, "Networking"@, 0, 2, Some(12));
    let s2 = with_line(s1, "Hostname"@, or_empty(address_of(d.addresses, "Hostname"@)), ValueKind::String);
    let s3 = with_line(s2, "Internal IP"@, or_empty(address_of(d.addresses, "InternalIP"@)), ValueKind::String);
    let s4 = with_line(s3, "External IP"@, or_empty(address_of(d.addresses, "ExternalIP"@)), ValueKind::String);
    let s5 = with_line(s4, "Pod CIDR"@, text_or_empty(d.pod_cidr), ValueKind::String);
    let s6 = with_line(s5, "Pod CIDRs"@, or_empty(join_text(list_values(d.pod_cidrs))), ValueKind::String);
    let addresses = match d.addresses {
        Some(a) => joined_items(address_items(a@)),
        None => None,
    };
    with_line(s6, "Addresses"@, or_empty(addresses), ValueKind::String)
}

/// Adds a node's networking section.
pub fn add_networking_section(builder: &mut TextSectionBuilder, data: &NodeNetworkValues)
    ensures
        final(builder)@ == node_networking_state(old(builder)@, *data),
{
    builder.start_section("Networking", 0, 2, Some(12));
    builder.add_str("Hostname", address_in(&data.addresses, "Hostname"));
    builder.add_str("Internal IP", address_in(&data.addresses, "InternalIP"));
    builder.add_str("External IP", address_in(&data.addresses, "ExternalIP"));
    builder.add_str("Pod CIDR", copied(&data.pod_cidr));
    builder.add_str("Pod CIDRs", joined_list(&data.pod_cidrs));
    let addresses = match &data.addresses {
        Some(a) => node_addresses(Some(a)),
        None => node_addresses(None),
    };
    builder.add_str("Addresses", addresses);
}

/// A node's system information.
pub struct NodeInfo {
    pub machine_id: Option<String>,
    pub system_uuid: Option<String>,
    pub boot_id: Option<String>,
    pub kernel_version: Option<String>,
    pub os_image: Option<String>,
    pub operating_system: Option<String>,
    pub architecture: Option<String>,
    pub container_runtime_version: Option<String>,
    pub kubelet_version: Option<String>,
    pub kube_proxy_version: Option<String>,
}

/// The builder state after a node's system section was added: the system information where the
/// node has it, then its provider ID in a section of its own.
pub open spec fn system_state(s: BuilderState, info: Option<NodeInfo>, provider_id: Option<String>) -> BuilderState {
    let s1 = match info {
        Some(n) => {
            let a = with_section(s, "System Info"@, 0, 2, Some(18));
            let b = with_line(a, "Machine ID"@, text_or_empty(n.machine_id), ValueKind::String);
            let c = with_line(b, "System UUID"@, text_or_empty(n.system_uuid), ValueKind::String);
            let d = with_line(c, "Boot ID"@, text_or_empty(n.boot_id), ValueKind::String);
            let e = with_line(d, "Kernel"@, text_or_empty(n.kernel_version), ValueKind::String);
            let f = with_line(e, "OS Image"@, text_or_empty(n.os_image), ValueKind::String);
            let g = with_line(f, "OS"@, text_or_empty(n.operating_system), ValueKind::String);
            let h = with_line(g, "Architecture"@, text_or_empty(n.architecture), ValueKind::String);
            let i = with_line(h, "Container Runtime"@, text_or_empty(n.container_runtime_version), ValueKind::String);
            let j = with_line(i, "Kubelet"@, text_or_empty(n.kubelet_version), ValueKind::String);
            with_line(j, "Kube-Proxy"@, text_or_empty(n.kube_proxy_version), ValueKind::String)
        },
        None => s,
    };
    let s2 = BuilderState { lines: s1.lines.push(seq![]), indent: 0, width: None };
    with_line(s2, "ProviderID"@, text_or_empty(provider_id), ValueKind::String)
}

/// Adds a node's system section.
pub fn add_system_section(builder: &mut TextSectionBuilder, info: &Option<NodeInfo>, provider_id: &Option<String>)
    ensures
        final(builder)@ == system_state(old(builder)@, *info, *provider_id),
{
    if let Some(n) = info {
        builder.start_section("System Info", 0, 2, Some(18));
        builder.add_str("Machine ID", copied(&n.machine_id));
        builder.add_str("System UUID", copied(&n.system_uuid));
        builder.add_str("Boot ID", copied(&n.boot_id));
        builder.add_str("Kernel", copied(&n.kernel_version));
        builder.add_str("OS Image", copied(&n.os_image));
        builder.add_str("OS", copied(&n.operating_system));
        builder.add_str("Architecture", copied(&n.architecture));
        builder.add_str("Container Runtime", copied(&n.container_runtime_version));
        builder.add_str("Kubelet", copied(&n.kubelet_version));
        builder.add_str("Kube-Proxy", copied(&n.kube_proxy_version));
    }
    builder.start_empty(0, None);
    builder.add_str("ProviderID", copied(provider_id));
}

/// The builder state after a node's scheduling section was added (`roles` is the text of the
/// node's roles, where it has any).
pub open spec fn node_scheduling_state(s: BuilderState, unschedulable: Option<bool>, roles: Option<String>, taints: Option<Vec<Taint>>) -> BuilderState {
    let s1 = with_section(s, "Scheduling"@, 0, 2, Some(14));
    let s2 = with_line(s1, "Unschedulable"@, bool_or_false(unschedulable), ValueKind::Boolean);
    let s3 = with_line(s2, "Roles"@, text_or_empty(roles), ValueKind::String);
    let t = match taints {
        Some(t) => joined_items(taint_items(t@)),
        None => None,
    };
    with_line(s3, "Taints"@, or_empty(t), ValueKind::String)
}

/// Adds a node's scheduling section.
pub fn add_scheduling_section(
    builder: &mut TextSectionBuilder,
    unschedulable: Option<bool>,
    roles: &Option<String>,
    taints: &Option<Vec<Taint>>,
)
    ensures
        final(builder)@ == node_scheduling_state(old(builder)@, unschedulable, *roles, *taints),
{
    builder.start_section("Scheduling", 0, 2, Some(14));
    builder.add_bool("Unschedulable", unschedulable);
    builder.add_str("Roles", copied(roles));
    let t = match taints {
        Some(t) => node_taints(Some(t)),
        None => node_taints(None),
    };
    builder.add_str("Taints", t);
}

/// The byte length of the longest key (`0` for none).
pub open spec fn longest_key(entries: Seq<(String, Option<String>)>) -> nat
    decreases entries.len(),
{
    if entries.len() == 0 {
        0
    } else {
        let rest = longest_key(entries.drop_last());
        let n = encode_utf8(entries.last().0@).len();
        if n > rest { n } else { rest }
    }
}

/// The builder state after `count` resource entries were added as numeric properties (each value
/// empty where it has no text).
pub open spec fn resources_added(s: BuilderState, entries: Seq<(String, Option<String>)>, count: nat) -> BuilderState
    decreases count,
{
    if count == 0 {
        s
    } else {
        let e = entries[count - 1];
        with_line(resources_added(s, entries, (count - 1) as nat), e.0@, text_or_empty(e.1), ValueKind::Numeric)
    }
}

/// The builder state after a resource section was added: nothing without resources, else a
/// section titled `title` whose names are aligned one past the longest, then one numeric property
/// per entry (its value already formatted as text, where it has one).
pub open spec fn resource_state(s: BuilderState, title: Seq<char>, source: Option<Vec<(String, Option<String>)>>) -> BuilderState {
    match source {
        Some(e) => resources_added(
            with_section(s, title, 0, 2, Some((longest_key(e@) + 1) as usize)),
            e@,
            e@.len(),
        ),
        None => s,
    }
}

/// Adds a resource section (capacity or allocatable) of a node.
pub fn add_resource_section(builder: &mut TextSectionBuilder, title: &str, source: &Option<Vec<(String, Option<String>)>>)
    requires
        match *source {
            Some(e) => longest_key(e@) + 1 < usize::MAX,
            None => true,
        },
    ensures
        final(builder)@ == resource_state(old(builder)@, title@, *source),
{
    let source = match source {
        Some(s) => s,
        None => return,
    };
    let mut longest: usize = 0;
    let mut i: usize = 0;
    assert(source@.take(0) =~= Seq::<(String, Option<String>)>::empty());
    while i < source.len()
        invariant
            i <= source@.len(),
            longest == longest_key(source@.take(i as int)),
            longest_key(source@) + 1 < usize::MAX,
        decreases source@.len() - i,
    {
        assert(source@.take(i + 1).drop_last() =~= source@.take(i as int));
        proof {
            lemma_longest_key_prefix(source@, i + 1);
        }
        let n = source[i].0.as_str().len();
        if n > longest {
            longest = n;
        }
        i = i + 1;
    }
    assert(source@.take(source@.len() as int) =~= source@);
    builder.start_section(title, 0, 2, Some(longest + 1));
    let ghost start = builder@;
    let mut j: usize = 0;
    while j < source.len()
        invariant
            j <= source@.len(),
            start.width == Some((longest + 1) as usize),
            longest + 1 < usize::MAX,
            builder@ == resources_added(start, source@, j as nat),
        decreases source@.len() - j,
    {
        proof {
            lemma_resources_width(start, source@, j as nat);
        }
        let (key, value) = &source[j];
        builder.add_num(key.as_str(), copied(value));
        j = j + 1;
    }
}

/// The longest key of a prefix is at most that of the whole.
proof fn lemma_longest_key_prefix(entries: Seq<(String, Option<String>)>, n: int)
    requires
        0 <= n <= entries.len(),
    ensures
        longest_key(entries.take(n)) <= longest_key(entries),
    decreases entries.len() - n,
{
    if n < entries.len() {
        lemma_longest_key_prefix(entries, n + 1);
        assert(entries.take(n + 1).drop_last() =~= entries.take(n));
    } else {
        assert(entries.take(n) =~= entries);
    }
}

/// Adding entries keeps the alignment width.
proof fn lemma_resources_width(s: BuilderState, entries: Seq<(String, Option<String>)>, count: nat)
    requires
        count <= entries.len(),
    ensures
        resources_added(s, entries, count).width == s.width,
    decreases count,
{
    if count > 0 {
        lemma_resources_width(s, entries, (count - 1) as nat);
    }
}

/// What a node's describe section reads; the roles are given as text, and each capacity and
/// allocatable value already formatted (CPU in millicores, memory rounded).
pub struct NodeValues {
    pub network: NodeNetworkValues,
    pub info: Option<NodeInfo>,
    pub provider_id: Option<String>,
    pub unschedulable: Option<bool>,
    pub roles: Option<String>,
    pub taints: Option<Vec<Taint>>,
    pub capacity: Option<Vec<(String, Option<String>)>>,
    pub allocatable: Option<Vec<(String, Option<String>)>>,
}

/// The resource keys of a node are short enough to align to.
pub open spec fn node_keys_fit(d: NodeValues) -> bool {
    &&& d.capacity matches Some(e) ==> longest_key(e@) + 1 < usize::MAX
    &&& d.allocatable matches Some(e) ==> longest_key(e@) + 1 < usize::MAX
}

/// The lines of a node's describe section: networking, system, scheduling, capacity and
/// allocatable resources.
pub open spec fn node_lines(d: NodeValues) -> Seq<Seq<(SpanRole, Seq<char>)>> {
    let s0 = BuilderState { lines: seq![], indent: 0, width: None };
    let s1 = node_networking_state(s0, d.network);
    let s2 = system_state(s1, d.info, d.provider_id);
    let s3 = node_scheduling_state(s2, d.unschedulable, d.roles, d.taints);
    let s4 = resource_state(s3, "Capacity"@, d.capacity);
    resource_state(s4, "Allocatable"@, d.allocatable).lines
}

/// Rebuilds the describe section of a node: there is one, a text section (its indentation is
/// kept); anything else is left as it is.
pub fn update_additional_sections<R, L>(data: &NodeValues, sections: &mut Vec<SectionData<Vec<StyledLine>, R, L>>)
    requires
        node_keys_fit(*data),
    ensures
        old(sections)@.len() == 1 && old(sections)@[0] is Text ==> {
            &&& final(sections)@.len() == 1
            &&& match (old(sections)@[0], final(sections)@[0]) {
                (SectionData::Text(_, indent), SectionData::Text(lines, i)) => i == indent && lines@.map_values(
                    |l: StyledLine| line_view(l@),
                ) == node_lines(*data),
                _ => false,
            }
        },
        !(old(sections)@.len() == 1 && old(sections)@[0] is Text) ==> final(sections)@ == old(sections)@,
{
    if sections.len() != 1 {
        return;
    }
    let section = sections.pop().unwrap();
    match section {
        SectionData::Text(_, indent) => {
            let mut builder = TextSectionBuilder::new(Vec::new());
            assert(builder@.lines =~= seq![]);
            add_networking_section(&mut builder, &data.network);
            add_system_section(&mut builder, &data.info, &data.provider_id);
            add_scheduling_section(&mut builder, data.unschedulable, &data.roles, &data.taints);
            add_resource_section(&mut builder, "Capacity", &data.capacity);
            add_resource_section(&mut builder, "Allocatable", &data.allocatable);
            sections.push(SectionData::Text(builder.into_lines(), indent));
        },
        other => {
            sections.push(other);
            assert(sections@ =~= old(sections)@);
        },
    }
}

} // verus!
