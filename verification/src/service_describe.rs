use vstd::prelude::*;

use crate::describe::{SectionData, ValueKind};
use crate::describe_builder::{
    int_or_empty, line_view, text_or_empty, with_line, with_section, BuilderState, SpanRole, StyledLine, TextSectionBuilder,
};
use crate::pod_describe::{copied, joined_list, list_values, or_empty};
use crate::values::{join_text, map_join, map_text, map_to_string, opt_text};

verus! {

/// A load balancer ingress point: its IP and its host name, where they are strings.
pub struct IngressPoint {
    pub ip: Option<String>,
    pub hostname: Option<String>,
}

/// The text of an ingress point: its IP, or else its host name.
pub open spec fn ingress_text(p: IngressPoint) -> Option<String> {
    match p.ip {
        Some(ip) => Some(ip),
        None => p.hostname,
    }
}

/// The texts of the ingress points, in order.
pub open spec fn ingress_texts(points: Seq<IngressPoint>) -> Seq<Option<String>> {
    points.map_values(|p: IngressPoint| ingress_text(p))
}

/// Picks the text of each ingress point.
fn ingress_list(points: &Option<Vec<IngressPoint>>) -> (r: Option<Vec<Option<String>>>)
    ensures
        match *points {
            Some(p) => r is Some && r->0@ == ingress_texts(p@),
            None => r is None,
        },
{
    let points = match points {
        Some(p) => p,
        None => return None,
    };
    let mut texts: Vec<Option<String>> = Vec::new();
    let mut i: usize = 0;
    while i < points.len()
        invariant
            i <= points@.len(),
            texts@ == ingress_texts(points@.take(i as int)),
        decreases points@.len() - i,
    {
        let p = &points[i];
        let t = match &p.ip {
            Some(ip) => Some(ip.clone()),
            None => copied(&p.hostname),
        };
        let ghost before = texts@;
        texts.push(t);
        proof {
            assert(t == ingress_text(points@[i as int]));
            assert(texts@ =~= ingress_texts(points@.take(i + 1)));
        }
        i = i + 1;
    }
    assert(points@.take(points@.len() as int) =~= points@);
    Some(texts)
}

/// What the networking section of a service's describe view reads: its spec's settings (each
/// where it is a string; the external IPs and IP families as the texts of their items), its
/// selector entries, and its status's load balancer ingress points.
pub struct ServiceNetworkValues {
    pub service_type: Option<String>,
    pub cluster_ip: Option<String>,
    pub cluster_ips: Option<String>,
    pub external_name: Option<String>,
    pub external_ips: Option<Vec<Option<String>>>,
    pub selector: Option<Vec<(String, Option<String>)>>,
    pub session_affinity: Option<String>,
    pub internal_traffic_policy: Option<String>,
    pub external_traffic_policy: Option<String>,
    pub traffic_distribution: Option<String>,
    pub ip_families: Option<Vec<Option<String>>>,
    pub ip_family_policy: Option<String>,
    pub load_balancer_class: Option<String>,
    pub ingress: Option<Vec<IngressPoint>>,
    pub health_check_node_port: Option<i64>,
}

/// The texts present among the ingress points, joined with `", "`.
pub open spec fn ingress_joined(points: Option<Vec<IngressPoint>>) -> Option<Seq<char>> {
    match points {
        Some(p) => join_text(Some(ingress_texts(p@))),
        None => None,
    }
}

/// The lines of a service's networking section.
pub open spec fn service_network_lines(d: ServiceNetworkValues) -> Seq<Seq<(SpanRole, Seq<char>)>> {
    let s0 = with_section(BuilderState { lines: seq![], indent: 0, width: None }, "Networking"@, 0, 2, Some(24));
    let s1 = with_line(s0, "Type"@, text_or_empty(d.service_type), ValueKind::String);
    let s2 = with_line(s1, "Cluster IP"@, text_or_empty(d.cluster_ip), ValueKind::String);
    let s3 = with_line(s2, "Cluster IPs"@, text_or_empty(d.cluster_ips), ValueKind::String);
    let s4 = with_line(s3, "External Name"@, text_or_empty(d.external_name), ValueKind::String);
    let s5 = with_line(s4, "External IPs"@, or_empty(join_text(list_values(d.external_ips))), ValueKind::String);
    let s6 = with_line(s5, "Selector"@,
        or_empty(
            map_text(
                match d.selector {
                    Some(e) => Some(e@),
                    None => None,
                },
            ),
        ),
        ValueKind::String,
    );
    let s7 = with_line(s6, "Session Affinity"@, text_or_empty(d.session_affinity), ValueKind::String);
    let s8 = with_line(s7, "Internal Traffic Policy"@, text_or_empty(d.internal_traffic_policy), ValueKind::String);
    let s9 = with_line(s8, "External Traffic Policy"@, text_or_empty(d.external_traffic_policy), ValueKind::String);
    let s10 = with_line(s9, "Traffic Distribution"@, text_or_empty(d.traffic_distribution), ValueKind::String);
    let s11 = with_line(s10, "IP Families"@, or_empty(join_text(list_values(d.ip_families))), ValueKind::String);
    let s12 = with_line(s11, "IP Family Policy"@, text_or_empty(d.ip_family_policy), ValueKind::String);
    let s13 = with_line(s12, "Load Balancer Class"@, text_or_empty(d.load_balancer_class), ValueKind::String);
    let s14 = with_line(s13, "Load Balancer Ingress"@, or_empty(ingress_joined(d.ingress)), ValueKind::String);
    with_line(s14, "Health Check Node Port"@, int_or_empty(d.health_check_node_port), ValueKind::Numeric).lines
}

/// Rebuilds the networking section of a service (only a text section is rebuilt; its indentation
/// is kept).
pub fn update_networking_section<R, L>(data: &ServiceNetworkValues, section: &mut SectionData<Vec<StyledLine>, R, L>)
    ensures
        match *old(section) {
            SectionData::Text(_, indent) => match *final(section) {
                SectionData::Text(lines, i) => i == indent && lines@.map_values(|l: StyledLine| line_view(l@))
                    == service_network_lines(*data),
                _ => false,
            },
            _ => *final(section) == *old(section),
        },
{
    if let SectionData::Text(lines, _) = section {
        let mut builder = TextSectionBuilder::new(Vec::new());
        assert(builder@.lines =~= seq![]);
        builder.start_section("Networking", 0, 2, Some(24));
        builder.add_str("Type", copied(&data.service_type));
        builder.add_str("Cluster IP", copied(&data.cluster_ip));
        builder.add_str("Cluster IPs", copied(&data.cluster_ips));
        builder.add_str("External Name", copied(&data.external_name));
        builder.add_str("External IPs", joined_list(&data.external_ips));
        let selector = match &data.selector {
            Some(e) => map_to_string(Some(e)),
            None => map_to_string(None),
        };
        assert(text_or_empty(selector) == or_empty(opt_text(selector)));
        builder.add_str("Selector", selector);
        builder.add_str("Session Affinity", copied(&data.session_affinity));
        builder.add_str("Internal Traffic Policy", copied(&data.internal_traffic_policy));
        builder.add_str("External Traffic Policy", copied(&data.external_traffic_policy));
        builder.add_str("Traffic Distribution", copied(&data.traffic_distribution));
        builder.add_str("IP Families", joined_list(&data.ip_families));
        builder.add_str("IP Family Policy", copied(&data.ip_family_policy));
        builder.add_str("Load Balancer Class", copied(&data.load_balancer_class));
        let points = ingress_list(&data.ingress);
        let ingress = match &points {
            Some(p) => map_join(Some(p)),
            None => map_join(None),
        };
        assert(text_or_empty(ingress) == or_empty(ingress_joined(data.ingress)));
        builder.add_str("Load Balancer Ingress", ingress);
        builder.add_inum("Health Check Node Port", data.health_check_node_port);
        *lines = builder.into_lines();
    }
}

} // verus!
