use mirante::describe::{NodeAddress, PodSecurityValues, SectionData, ValueKind};
use mirante::node_describe::{node_addresses, node_taints, update_additional_sections, NodeInfo, NodeNetworkValues, NodeValues, Taint};
use mirante::service_describe::{update_networking_section, IngressPoint, ServiceNetworkValues};
use mirante::volume_describe::{claim, ClaimRef, VolumeValues};
use mirante::describe_builder::{aligned_property, header, none, property, SpanRole, StyledLine, TextSectionBuilder};
use mirante::pod_describe::{
    add_networking_section, add_runtime_section, add_scheduling_section, dns_options, topology_spread_constraints,
    update_data_section, PodDataValues, PodNetworkValues, PodRuntimeValues, PodSchedulingValues, PodStatusNetwork,
    PodStatusRuntime, SpreadConstraint,
};

fn span(role: SpanRole, text: &str) -> (SpanRole, String) {
    (role, text.to_owned())
}

fn texts(line: &StyledLine) -> String {
    line.iter().map(|(_, t)| t.as_str()).collect()
}

fn row(indent: usize, key: &str, width: usize, value: &str) -> String {
    format!("{}{}:{}{}", " ".repeat(indent), key, " ".repeat(width.saturating_sub(key.len()) + 1), value)
}

fn no_network() -> PodNetworkValues {
    PodNetworkValues {
        status: None,
        host_network: None,
        dns_policy: None,
        nameservers: None,
        dns_options: None,
        searches: None,
    }
}

fn no_scheduling() -> PodSchedulingValues {
    PodSchedulingValues {
        node_name: None,
        nominated_node: None,
        scheduler_name: None,
        priority: None,
        priority_class: None,
        preemption_policy: None,
        node_selector: None,
        scheduling_gates: None,
        readiness_gates: None,
        topology_spread_constraints: None,
    }
}

fn no_runtime() -> PodRuntimeValues {
    PodRuntimeValues {
        service_account: None,
        runtime_class: None,
        restart_policy: None,
        status: None,
        image_pull_secrets: None,
        enable_service_links: None,
        share_process_namespace: None,
        host_pid: None,
        host_ipc: None,
        security_context: None,
    }
}

#[test]
fn lines_have_their_spans() {
    assert_eq!(vec![span(SpanRole::Normal, "  --none--")], none());
    assert_eq!(
        vec![span(SpanRole::Normal, "  "), span(SpanRole::Property, "Containers"), span(SpanRole::Normal, ":")],
        header("Containers", 2)
    );
    assert_eq!(
        vec![
            span(SpanRole::Normal, " "),
            span(SpanRole::Property, "Name"),
            span(SpanRole::Normal, ": "),
            span(SpanRole::Value(ValueKind::String), "web"),
        ],
        property("Name", "web".to_owned(), ValueKind::String, 1)
    );
    assert_eq!(
        vec![
            span(SpanRole::Normal, ""),
            span(SpanRole::Property, "Pod IP"),
            span(SpanRole::Normal, ":     "),
            span(SpanRole::Value(ValueKind::String), "10.0.0.1"),
        ],
        aligned_property("Pod IP", "10.0.0.1".to_owned(), ValueKind::String, 0, 10)
    );
    assert_eq!("Annotations: x", texts(&aligned_property("Annotations", "x".to_owned(), ValueKind::Normal, 0, 4)));
}

#[test]
fn builder_aligns_properties_of_a_section() {
    let mut builder = TextSectionBuilder::new(Vec::new());
    builder.start_section("Networking", 0, 2, Some(16));
    builder.add_str("Pod IP", Some("10.0.0.1".to_owned()));
    builder.add_bool("Host Network", None);
    builder.add_inum("Priority", Some(-3));
    builder.sub_section("Other", 1, 0, None);
    builder.add_num("Count", None);
    builder.add_none();
    builder.start_empty(4, None);
    builder.add_line("Key", "v".to_owned(), ValueKind::Normal);
    let lines = builder.into_lines();
    let shown: Vec<String> = lines.iter().map(texts).collect();
    assert_eq!(
        vec![
            String::new(),
            "Networking:".to_owned(),
            row(2, "Pod IP", 16, "10.0.0.1"),
            row(2, "Host Network", 16, "false"),
            row(2, "Priority", 16, "-3"),
            " Other:".to_owned(),
            "Count: ".to_owned(),
            "  --none--".to_owned(),
            String::new(),
            "    Key: v".to_owned(),
        ],
        shown
    );
    assert_eq!(span(SpanRole::Value(ValueKind::Boolean), "false"), lines[3][3]);
    assert_eq!(span(SpanRole::Value(ValueKind::Numeric), "-3"), lines[4][3]);
}

#[test]
fn dns_options_need_name_and_value() {
    let options = vec![
        (Some("ndots".to_owned()), Some("2".to_owned())),
        (Some("edns0".to_owned()), None),
        (Some("timeout".to_owned()), Some("3".to_owned())),
    ];
    assert_eq!(Some("ndots=2, timeout=3".to_owned()), dns_options(Some(&options)));
    assert_eq!(None, dns_options(Some(&vec![(None, Some("1".to_owned()))])));
    assert_eq!(None, dns_options(None));
}

#[test]
fn topology_spread_constraints_keep_every_item() {
    let constraints = vec![
        SpreadConstraint {
            topology_key: Some("zone".to_owned()),
            when_unsatisfiable: Some("DoNotSchedule".to_owned()),
            max_skew: Some(1),
        },
        SpreadConstraint { topology_key: None, when_unsatisfiable: None, max_skew: None },
    ];
    assert_eq!(
        Some("zone / DoNotSchedule / skew 1,  /  / skew ".to_owned()),
        topology_spread_constraints(Some(&constraints))
    );
    assert_eq!(None, topology_spread_constraints(Some(&Vec::new())));
}

#[test]
fn networking_section_of_a_pod() {
    let data = PodNetworkValues {
        status: Some(PodStatusNetwork {
            pod_ip: Some("10.1.0.5".to_owned()),
            pod_ips: Some(vec![Some("10.1.0.5".to_owned()), None, Some("fd00::5".to_owned())]),
            host_ip: None,
            host_ips: None,
        }),
        host_network: Some(true),
        dns_policy: Some("ClusterFirst".to_owned()),
        nameservers: None,
        dns_options: None,
        searches: Some(vec![Some("svc.local".to_owned())]),
    };
    let mut builder = TextSectionBuilder::new(Vec::new());
    add_networking_section(&mut builder, &data, false);
    let shown: Vec<String> = builder.into_lines().iter().map(texts).collect();
    assert_eq!(
        vec![
            String::new(),
            "Networking:".to_owned(),
            row(2, "Pod IP", 16, "10.1.0.5"),
            row(2, "Pod IPs", 16, "10.1.0.5, fd00::5"),
            row(2, "Host IP", 16, ""),
            row(2, "Host IPs", 16, ""),
            row(2, "Host Network", 16, "true"),
            row(2, "DNS Policy", 16, "ClusterFirst"),
            row(2, "DNS Nameservers", 16, ""),
            row(2, "DNS Options", 16, ""),
            row(2, "DNS Searches", 16, "svc.local"),
        ],
        shown
    );

    let mut template = TextSectionBuilder::new(Vec::new());
    add_networking_section(&mut template, &no_network(), true);
    let shown: Vec<String> = template.into_lines().iter().map(texts).collect();
    assert_eq!("Networking:", shown[0]);
    assert_eq!(6, shown.len());
}

#[test]
fn scheduling_and_runtime_sections_of_a_pod() {
    let scheduling = PodSchedulingValues {
        node_name: Some("node-1".to_owned()),
        nominated_node: Some(None),
        priority: Some(100),
        node_selector: Some(vec![("zone".to_owned(), Some("a".to_owned())), ("disk".to_owned(), None)]),
        ..no_scheduling()
    };
    let mut builder = TextSectionBuilder::new(Vec::new());
    add_scheduling_section(&mut builder, &scheduling);
    let shown: Vec<String> = builder.into_lines().iter().map(texts).collect();
    assert_eq!("Scheduling:", shown[1]);
    assert_eq!(row(2, "Node", 28, "node-1"), shown[2]);
    assert_eq!(row(2, "Nominated Node", 28, ""), shown[3]);
    assert_eq!(row(2, "Priority", 28, "100"), shown[5]);
    assert_eq!(row(2, "Node Selector", 28, "disk=, zone=a"), shown[8]);
    assert_eq!(12, shown.len());

    let runtime = PodRuntimeValues {
        restart_policy: Some("Always".to_owned()),
        status: Some(PodStatusRuntime { qos_class: Some("Burstable".to_owned()) }),
        host_pid: Some(true),
        security_context: Some(PodSecurityValues {
            run_as_user: Some(1000),
            run_as_group: None,
            run_as_non_root: None,
            fs_group: None,
            supplemental_groups: None,
            seccomp_type: None,
        }),
        ..no_runtime()
    };
    let mut builder = TextSectionBuilder::new(Vec::new());
    add_runtime_section(&mut builder, &runtime);
    let shown: Vec<String> = builder.into_lines().iter().map(texts).collect();
    assert_eq!("Runtime:", shown[1]);
    assert_eq!(row(2, "Restart Policy", 24, "Always"), shown[4]);
    assert_eq!(row(2, "QoS Class", 24, "Burstable"), shown[5]);
    assert_eq!(row(2, "Host PID", 24, "true"), shown[9]);
    assert_eq!(row(2, "Security Context", 24, "runAsUser=1000"), shown[11]);
}

#[test]
fn data_section_is_rebuilt_only_for_text() {
    let data = PodDataValues { network: no_network(), scheduling: no_scheduling(), runtime: no_runtime() };
    let mut section: SectionData<Vec<StyledLine>, (), ()> = SectionData::Text(vec![none()], 3);
    update_data_section(&data, &mut section, false);
    match &section {
        SectionData::Text(lines, indent) => {
            assert_eq!(3, *indent);
            assert_eq!(7 + 11 + 11, lines.len());
            assert_eq!("Networking:", texts(&lines[1]));
        },
        _ => panic!("the section stays a text section"),
    }
    let mut list: SectionData<Vec<StyledLine>, (), u8> = SectionData::List(7, 2);
    update_data_section(&data, &mut list, false);
    assert!(matches!(list, SectionData::List(7, 2)));
}

#[test]
fn service_networking_section() {
    let data = ServiceNetworkValues {
        service_type: Some("LoadBalancer".to_owned()),
        cluster_ip: Some("10.96.0.10".to_owned()),
        cluster_ips: None,
        external_name: None,
        external_ips: Some(vec![Some("1.2.3.4".to_owned())]),
        selector: Some(vec![("app".to_owned(), Some("web".to_owned()))]),
        session_affinity: Some("None".to_owned()),
        internal_traffic_policy: None,
        external_traffic_policy: None,
        traffic_distribution: None,
        ip_families: Some(vec![Some("IPv4".to_owned()), Some("IPv6".to_owned())]),
        ip_family_policy: None,
        load_balancer_class: None,
        ingress: Some(vec![
            IngressPoint { ip: None, hostname: Some("lb.example.com".to_owned()) },
            IngressPoint { ip: Some("5.6.7.8".to_owned()), hostname: Some("ignored".to_owned()) },
            IngressPoint { ip: None, hostname: None },
        ]),
        health_check_node_port: Some(30000),
    };
    let mut section: SectionData<Vec<StyledLine>, (), ()> = SectionData::Text(Vec::new(), 1);
    update_networking_section(&data, &mut section);
    let SectionData::Text(lines, indent) = section else {
        panic!("the section stays a text section");
    };
    assert_eq!(1, indent);
    let shown: Vec<String> = lines.iter().map(texts).collect();
    assert_eq!(17, shown.len());
    assert_eq!(row(2, "Type", 24, "LoadBalancer"), shown[2]);
    assert_eq!(row(2, "External IPs", 24, "1.2.3.4"), shown[6]);
    assert_eq!(row(2, "Selector", 24, "app=web"), shown[7]);
    assert_eq!(row(2, "IP Families", 24, "IPv4, IPv6"), shown[12]);
    assert_eq!(row(2, "Load Balancer Ingress", 24, "lb.example.com, 5.6.7.8"), shown[15]);
    assert_eq!(row(2, "Health Check Node Port", 24, "30000"), shown[16]);
}

#[test]
fn node_addresses_and_taints() {
    let addresses = vec![
        NodeAddress { kind: Some("InternalIP".to_owned()), address: Some("10.0.0.2".to_owned()) },
        NodeAddress { kind: None, address: Some("x".to_owned()) },
        NodeAddress { kind: Some("Hostname".to_owned()), address: Some("node-a".to_owned()) },
    ];
    assert_eq!(Some("InternalIP=10.0.0.2, Hostname=node-a".to_owned()), node_addresses(Some(&addresses)));
    assert_eq!(None, node_addresses(None));
    let taint = |key: Option<&str>, value: Option<&str>, effect: Option<&str>| Taint {
        key: key.map(String::from),
        value: value.map(String::from),
        effect: effect.map(String::from),
    };
    let taints = vec![
        taint(Some("gpu"), Some("true"), Some("NoSchedule")),
        taint(Some("dedicated"), Some(""), Some("NoExecute")),
        taint(None, None, None),
        taint(Some(":"), None, None),
    ];
    assert_eq!(Some("gpu=true:NoSchedule, dedicated:NoExecute".to_owned()), node_taints(Some(&taints)));
    assert_eq!(None, node_taints(Some(&vec![taint(None, None, None)])));
}

#[test]
fn node_section_is_rebuilt() {
    let data = NodeValues {
        network: NodeNetworkValues {
            addresses: Some(vec![NodeAddress { kind: Some("Hostname".to_owned()), address: Some("node-a".to_owned()) }]),
            pod_cidr: Some("10.244.0.0/24".to_owned()),
            pod_cidrs: None,
        },
        info: Some(NodeInfo {
            machine_id: None,
            system_uuid: None,
            boot_id: None,
            kernel_version: Some("6.1".to_owned()),
            os_image: None,
            operating_system: Some("linux".to_owned()),
            architecture: None,
            container_runtime_version: None,
            kubelet_version: None,
            kube_proxy_version: None,
        }),
        provider_id: Some("kind://node-a".to_owned()),
        unschedulable: Some(true),
        roles: Some("control-plane".to_owned()),
        taints: None,
        capacity: Some(vec![("cpu".to_owned(), Some("4000m".to_owned())), ("memory".to_owned(), Some("8Gi".to_owned()))]),
        allocatable: None,
    };
    let mut sections: Vec<SectionData<Vec<StyledLine>, (), ()>> = vec![SectionData::Text(Vec::new(), 2)];
    update_additional_sections(&data, &mut sections);
    let SectionData::Text(lines, indent) = &sections[0] else {
        panic!("the section stays a text section");
    };
    assert_eq!(2, *indent);
    let shown: Vec<String> = lines.iter().map(texts).collect();
    assert_eq!(
        vec![
            String::new(),
            "Networking:".to_owned(),
            row(2, "Hostname", 12, "node-a"),
            row(2, "Internal IP", 12, ""),
            row(2, "External IP", 12, ""),
            row(2, "Pod CIDR", 12, "10.244.0.0/24"),
            row(2, "Pod CIDRs", 12, ""),
            row(2, "Addresses", 12, "Hostname=node-a"),
            String::new(),
            "System Info:".to_owned(),
            row(2, "Machine ID", 18, ""),
            row(2, "System UUID", 18, ""),
            row(2, "Boot ID", 18, ""),
            row(2, "Kernel", 18, "6.1"),
            row(2, "OS Image", 18, ""),
            row(2, "OS", 18, "linux"),
            row(2, "Architecture", 18, ""),
            row(2, "Container Runtime", 18, ""),
            row(2, "Kubelet", 18, ""),
            row(2, "Kube-Proxy", 18, ""),
            String::new(),
            "ProviderID: kind://node-a".to_owned(),
            String::new(),
            "Scheduling:".to_owned(),
            row(2, "Unschedulable", 14, "true"),
            row(2, "Roles", 14, "control-plane"),
            row(2, "Taints", 14, ""),
            String::new(),
            "Capacity:".to_owned(),
            row(2, "cpu", 7, "4000m"),
            row(2, "memory", 7, "8Gi"),
        ],
        shown
    );

    let mut two: Vec<SectionData<Vec<StyledLine>, (), ()>> = vec![SectionData::Text(Vec::new(), 0), SectionData::Text(Vec::new(), 0)];
    update_additional_sections(&data, &mut two);
    assert!(matches!(&two[0], SectionData::Text(l, 0) if l.is_empty()));
}

#[test]
fn volume_claim_and_storage_section() {
    let full = ClaimRef { namespace: Some("prod".to_owned()), name: Some("data".to_owned()) };
    assert_eq!(Some("prod/data".to_owned()), claim(Some(&full)));
    assert_eq!(Some("data".to_owned()), claim(Some(&ClaimRef { namespace: None, name: Some("data".to_owned()) })));
    assert_eq!(None, claim(Some(&ClaimRef { namespace: None, name: None })));
    assert_eq!(None, claim(None));

    let data = VolumeValues {
        phase: Some("Bound".to_owned()),
        claim_ref: Some(full),
        storage_class: None,
        capacity: Some("10Gi".to_owned()),
        access_modes: Some(vec![Some("ReadWriteOnce".to_owned())]),
        volume_mode: None,
        reclaim_policy: Some("Retain".to_owned()),
        mount_options: None,
        attributes_class: None,
    };
    let mut sections: Vec<SectionData<Vec<StyledLine>, (), ()>> = vec![SectionData::Text(Vec::new(), 0)];
    mirante::volume_describe::update_additional_sections(&data, &mut sections);
    let SectionData::Text(lines, _) = &sections[0] else {
        panic!("the section stays a text section");
    };
    let shown: Vec<String> = lines.iter().map(texts).collect();
    assert_eq!(11, shown.len());
    assert_eq!("Storage:", shown[1]);
    assert_eq!(row(2, "Status", 22, "Bound"), shown[2]);
    assert_eq!(row(2, "Claim", 22, "prod/data"), shown[3]);
    assert_eq!(row(2, "Capacity", 22, "10Gi"), shown[5]);
    assert_eq!(span(SpanRole::Value(ValueKind::Numeric), "10Gi"), lines[5][3]);
    assert_eq!(row(2, "AccessModes", 22, "ReadWriteOnce"), shown[6]);
    assert_eq!(row(2, "Reclaim Policy", 22, "Retain"), shown[8]);
}
