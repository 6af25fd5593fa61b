use pullpiri::apiserver::artifact::target_node_ip;
use pullpiri::apiserver::sender::{guest_send_outcome, node_agent_address};
use pullpiri::apiserver::artifact::{
    artifact_key, guest_deploy_targets, is_unspecified_address, known_kind, pod_key, scenario_announcement,
    select_scenario_and_package, select_withdrawal, split_documents,
};
use pullpiri::apiserver::bluechi::{kube_file_path, make_kube_file, yaml_file_path};
use pullpiri::apiserver::manager::{host_node_role, host_node_type, host_registration_request};
use pullpiri::apiserver::node_lookup::{
    add_node_to_simple_keys, find_guest_nodes, find_node_by_hostname, first_node_ip, get_node_ip,
    ip_from_simple_keys, trim_start_matches,
};
use pullpiri::apiserver::node_manager::{node_key, NodeManager};
use pullpiri::apiserver::receiver::ApiServerReceiver;
use pullpiri::apiserver::registry::{topology_key, NodeRegistry, StoredTopology};
use pullpiri::apiserver::route::{key_second_field, scenario_field_key, scenario_names, scenario_records, status};
use pullpiri::apiserver::status::{ClusterStatus, NodeStatusManager};
use pullpiri::apiserver::types::{
    ClusterTopology, NodeInfo, NodeRegistrationRequest, NodeRole, NodeStatus, NodeType, ResourceInfo, TopologyType,
};
use pullpiri::text::capitalize_first_letter;

fn pairs(kv: &[(&str, &str)]) -> Vec<(String, String)> {
    kv.iter().map(|(k, v)| (k.to_string(), v.to_string())).collect()
}

fn lookup<'a>(m: &'a [(String, String)], k: &str) -> Option<&'a String> {
    m.iter().find(|(key, _)| key == k).map(|(_, v)| v)
}

fn now_secs() -> i64 {
    std::time::SystemTime::now().duration_since(std::time::UNIX_EPOCH).unwrap().as_secs() as i64
}

fn create_test_resource_info() -> ResourceInfo {
    ResourceInfo {
        cpu_cores: 4,
        memory_mb: 8192,
        disk_gb: 100,
        architecture: "x86_64".to_string(),
        os_version: "Ubuntu 20.04".to_string(),
    }
}

fn create_test_registration_request(node_id: &str, hostname: &str, ip: &str) -> NodeRegistrationRequest {
    NodeRegistrationRequest {
        node_id: node_id.to_string(),
        hostname: hostname.to_string(),
        ip_address: ip.to_string(),
        node_type: NodeType::Vehicle.value(),
        node_role: NodeRole::Nodeagent.value(),
        resources: Some(create_test_resource_info()),
        metadata: pairs(&[("environment", "test"), ("cluster", "development")]),
    }
}

fn create_cloud_node_request() -> NodeRegistrationRequest {
    NodeRegistrationRequest {
        node_id: "cloud-node-001".to_string(),
        hostname: "cloud-host".to_string(),
        ip_address: "10.0.1.100".to_string(),
        node_type: NodeType::Cloud.value(),
        node_role: NodeRole::Master.value(),
        resources: Some(ResourceInfo {
            cpu_cores: 8,
            memory_mb: 16384,
            disk_gb: 500,
            architecture: "x86_64".to_string(),
            os_version: "Ubuntu 22.04".to_string(),
        }),
        metadata: Vec::new(),
    }
}

fn create_bluechi_node_request() -> NodeRegistrationRequest {
    NodeRegistrationRequest {
        node_id: "bluechi-node-001".to_string(),
        hostname: "bluechi-host".to_string(),
        ip_address: "172.16.1.50".to_string(),
        node_type: NodeType::Vehicle.value(),
        node_role: NodeRole::Master.value(),
        resources: Some(create_test_resource_info()),
        metadata: Vec::new(),
    }
}

fn create_test_node(node_id: &str, last_heartbeat: i64, status: NodeStatus) -> NodeInfo {
    NodeInfo {
        node_id: node_id.to_string(),
        hostname: format!("host-{}", node_id),
        ip_address: "192.168.1.100".to_string(),
        node_type: 2,
        node_role: NodeRole::Nodeagent.value(),
        status: status.value(),
        resources: Some(create_test_resource_info()),
        last_heartbeat,
        created_at: 1234567890,
        metadata: Vec::new(),
    }
}

fn create_test_node_info(node_id: &str, hostname: &str, ip_address: &str, node_role: NodeRole) -> NodeInfo {
    NodeInfo {
        node_id: node_id.to_string(),
        hostname: hostname.to_string(),
        ip_address: ip_address.to_string(),
        node_type: NodeType::Vehicle.value(),
        node_role: node_role.value(),
        status: NodeStatus::Ready.value(),
        resources: Some(create_test_resource_info()),
        last_heartbeat: now_secs(),
        created_at: now_secs(),
        metadata: Vec::new(),
    }
}

fn create_test_topology(cluster_id: &str, cluster_name: &str, topology_type: TopologyType) -> ClusterTopology {
    ClusterTopology {
        cluster_id: cluster_id.to_string(),
        cluster_name: cluster_name.to_string(),
        topology_type: topology_type.value(),
        master_nodes: vec![],
        sub_nodes: vec![],
        parent_cluster: String::new(),
        config: pairs(&[("heartbeat_interval", "30"), ("max_nodes", "10")]),
    }
}

// ---------------------------------------------------------------------
// node manager
// ---------------------------------------------------------------------

#[test]
fn test_node_manager_creation() {
    let result = NodeManager::new();
    assert!(result.is_ok());

    let manager = result.unwrap();
    let _cloned_manager = manager.clone();
}

#[test]
fn test_node_registration_request_creation() {
    let request = create_test_registration_request("test-node-001", "test-host", "192.168.1.100");

    assert_eq!(request.node_id, "test-node-001");
    assert_eq!(request.hostname, "test-host");
    assert_eq!(request.ip_address, "192.168.1.100");
    assert_eq!(request.node_type, NodeType::Vehicle as i32);
    assert_eq!(request.node_role, NodeRole::Nodeagent as i32);
    assert!(request.resources.is_some());
    assert_eq!(request.metadata.len(), 2);
    assert_eq!(lookup(&request.metadata, "environment"), Some(&"test".to_string()));
}

#[test]
fn test_cloud_node_creation() {
    let request = create_cloud_node_request();

    assert_eq!(request.node_type, NodeType::Cloud as i32);
    assert_eq!(request.node_role, NodeRole::Master as i32);
    assert_eq!(request.resources.as_ref().unwrap().cpu_cores, 8);
    assert_eq!(request.resources.as_ref().unwrap().memory_mb, 16384);
}

#[test]
fn test_bluechi_node_creation() {
    let request = create_bluechi_node_request();

    assert_eq!(request.node_role, NodeRole::Master as i32);
    assert_eq!(request.ip_address, "172.16.1.50");
}

#[test]
fn test_resource_info_creation() {
    let resources = create_test_resource_info();

    assert_eq!(resources.cpu_cores, 4);
    assert_eq!(resources.memory_mb, 8192);
    assert_eq!(resources.disk_gb, 100);
    assert_eq!(resources.architecture, "x86_64");
    assert_eq!(resources.os_version, "Ubuntu 20.04");
}

#[test]
fn test_node_status_enum_values() {
    let statuses = vec![
        NodeStatus::Unspecified,
        NodeStatus::Pending,
        NodeStatus::Initializing,
        NodeStatus::Ready,
        NodeStatus::NotReady,
        NodeStatus::Maintenance,
        NodeStatus::Terminating,
    ];

    for status in statuses {
        let status_int: i32 = status.value();
        assert!(status_int >= 0);
        println!("NodeStatus::{:?} = {}", status, status_int);
    }
}

#[test]
fn test_node_type_and_role_enum_values() {
    let types = vec![NodeType::Unspecified, NodeType::Cloud, NodeType::Vehicle];
    for node_type in types {
        let type_int: i32 = node_type.value();
        assert!(type_int >= 0);
        println!("NodeType::{:?} = {}", node_type, type_int);
    }

    let roles = vec![NodeRole::Unspecified, NodeRole::Master, NodeRole::Nodeagent];
    for role in roles {
        let role_int: i32 = role.value();
        assert!(role_int >= 0);
        println!("NodeRole::{:?} = {}", role, role_int);
    }
}

#[test]
fn test_resource_info_variations() {
    let minimal_resources = ResourceInfo {
        cpu_cores: 1,
        memory_mb: 512,
        disk_gb: 10,
        architecture: "arm64".to_string(),
        os_version: "Alpine Linux".to_string(),
    };

    let high_spec_resources = ResourceInfo {
        cpu_cores: 32,
        memory_mb: 131072,
        disk_gb: 2048,
        architecture: "x86_64".to_string(),
        os_version: "RHEL 9".to_string(),
    };

    assert_eq!(minimal_resources.cpu_cores, 1);
    assert_eq!(high_spec_resources.cpu_cores, 32);
    assert_eq!(minimal_resources.architecture, "arm64");
    assert_eq!(high_spec_resources.architecture, "x86_64");
}

#[test]
fn test_metadata_variations() {
    let complex_metadata = pairs(&[
        ("datacenter", "us-west-2"),
        ("rack", "A-42"),
        ("power_source", "grid"),
        ("backup_power", "ups"),
        ("network_zone", "dmz"),
    ]);

    let request = NodeRegistrationRequest {
        node_id: "metadata-test-node".to_string(),
        hostname: "metadata-host".to_string(),
        ip_address: "10.1.1.100".to_string(),
        node_type: NodeType::Cloud.value(),
        node_role: NodeRole::Master.value(),
        resources: Some(create_test_resource_info()),
        metadata: complex_metadata.clone(),
    };

    assert_eq!(request.metadata.len(), 5);
    assert_eq!(lookup(&request.metadata, "datacenter"), Some(&"us-west-2".to_string()));
    assert_eq!(lookup(&request.metadata, "rack"), Some(&"A-42".to_string()));
}

#[test]
fn registration_writes_records_and_token() {
    let manager = NodeManager::new().unwrap();
    let reg = manager.register_node(create_test_registration_request("test-node-001", "test-host", "192.168.1.100"), 77);
    assert_eq!(reg.node_key, "cluster/nodes/test-host");
    assert_eq!(reg.ip_key, "nodes/192.168.1.100");
    assert_eq!(reg.ip_value, "test-host");
    assert_eq!(reg.hostname_key, "nodes/test-host");
    assert_eq!(reg.hostname_value, "192.168.1.100");
    assert_eq!(reg.cluster_token, "cluster-token-test-node-001");
    assert!(reg.cluster_token.starts_with("cluster-token-"));
    assert_eq!(reg.node_info.status, NodeStatus::Pending as i32);
    assert_eq!(reg.node_info.last_heartbeat, 77);
    assert_eq!(reg.node_info.created_at, 77);

    let (key, beat) = manager.update_heartbeat(reg.node_info.clone(), 90);
    assert_eq!(key, "cluster/nodes/test-host");
    assert_eq!(beat.status, NodeStatus::Ready as i32);
    assert_eq!(beat.last_heartbeat, 90);
    let (_, st) = manager.update_status(beat, NodeStatus::Maintenance, 95);
    assert_eq!(st.status, NodeStatus::Maintenance as i32);
    assert_eq!(manager.remove_node("x", Some(&st)).unwrap(), "cluster/nodes/test-host");
    assert_eq!(manager.remove_node("x", None).unwrap_err(), "Node not found: x");
    assert_eq!(node_key("h"), "cluster/nodes/h");
}

// ---------------------------------------------------------------------
// registry
// ---------------------------------------------------------------------

#[test]
fn test_node_registry_creation() {
    let registry = NodeRegistry;
    let _cloned_registry = registry.clone();
}

#[test]
fn test_topology_type_enum_values() {
    let types = vec![
        TopologyType::Unspecified,
        TopologyType::Embedded,
        TopologyType::HybridCloud,
        TopologyType::MultiCluster,
        TopologyType::Distributed,
    ];

    for topology_type in types {
        let topology = create_test_topology("test-cluster", "Test Cluster", topology_type);
        assert_eq!(topology.topology_type, topology_type as i32);
        println!("TopologyType::{:?} = {}", topology_type, topology.topology_type);
    }
}

#[test]
fn test_cluster_topology_creation() {
    let topology = create_test_topology("test", "Test Cluster", TopologyType::Embedded);

    assert_eq!(topology.cluster_id, "test");
    assert_eq!(topology.cluster_name, "Test Cluster");
    assert_eq!(topology.topology_type, TopologyType::Embedded as i32);
    assert_eq!(topology.master_nodes.len(), 0);
    assert_eq!(topology.sub_nodes.len(), 0);
    assert_eq!(topology.parent_cluster, "");
    assert_eq!(topology.config.len(), 2);
}

#[test]
fn test_node_info_creation() {
    let node = create_test_node_info("test-1", "test-host", "192.168.1.1", NodeRole::Master);

    assert_eq!(node.node_id, "test-1");
    assert_eq!(node.hostname, "test-host");
    assert_eq!(node.ip_address, "192.168.1.1");
    assert_eq!(node.node_role, NodeRole::Master as i32);
    assert_eq!(node.status, NodeStatus::Ready as i32);
    assert!(node.resources.is_some());
}

#[test]
fn test_default_topology_values() {
    let default_topology = NodeRegistry::default_topology();

    assert_eq!(default_topology.cluster_id, "default-cluster");
    assert_eq!(default_topology.cluster_name, "PICCOLO Cluster");
    assert_eq!(default_topology.topology_type, TopologyType::Embedded as i32);
    assert!(default_topology.master_nodes.is_empty());
    assert!(default_topology.sub_nodes.is_empty());
    assert!(default_topology.parent_cluster.is_empty());
    assert!(default_topology.config.is_empty());
}

#[test]
fn test_initialize_default_topology_values() {
    let default_topology = NodeRegistry::initial_topology();

    assert_eq!(default_topology.config.len(), 2);
    assert_eq!(lookup(&default_topology.config, "heartbeat_interval"), Some(&"30".to_string()));
    assert_eq!(lookup(&default_topology.config, "max_nodes"), Some(&"10".to_string()));
}

#[test]
fn topology_record_round_trip() {
    let registry = NodeRegistry;
    let message = vec![8u8, 1, 18, 3, 97, 98, 99, 0, 255];
    let stored = registry.update_topology(&message);
    assert_eq!(stored, "CAESA2FiYwD/");
    match registry.get_topology(Some(&stored)).unwrap() {
        StoredTopology::Encoded(bytes) => assert_eq!(bytes, message),
        StoredTopology::Default(_) => panic!("expected stored bytes"),
    }
    match registry.get_topology(None).unwrap() {
        StoredTopology::Default(t) => assert_eq!(t.cluster_id, "default-cluster"),
        StoredTopology::Encoded(_) => panic!("expected the default topology"),
    }
    assert!(registry.get_topology(Some("not base64!")).is_err());
    assert_eq!(topology_key(), "cluster/topology");
}

// ---------------------------------------------------------------------
// status
// ---------------------------------------------------------------------

#[test]
fn test_node_health_check() {
    let status_manager = NodeStatusManager;
    let current_time = now_secs();

    let healthy_node = create_test_node("node1", current_time - 10, NodeStatus::Ready);
    assert!(status_manager.is_node_healthy(&healthy_node, 60));

    let unhealthy_node = create_test_node("node2", current_time - 120, NodeStatus::Ready);
    assert!(!status_manager.is_node_healthy(&unhealthy_node, 60));
}

#[test]
fn test_cluster_health_summary() {
    let status_manager = NodeStatusManager;
    let current_time = now_secs();

    let nodes = vec![
        create_test_node("node1", current_time - 10, NodeStatus::Ready),
        create_test_node("node2", current_time - 120, NodeStatus::NotReady),
        create_test_node("node3", current_time - 5, NodeStatus::Ready),
    ];

    let summary = status_manager.get_cluster_health_summary(&nodes, 60);

    assert_eq!(summary.total_nodes, 3);
    assert_eq!(summary.healthy_nodes, 2);
    assert_eq!(summary.unhealthy_nodes, 1);
    assert_eq!(summary.cluster_status, ClusterStatus::Degraded);
}

#[test]
fn test_status_parsing() {
    let status_manager = NodeStatusManager;

    assert_eq!(status_manager.parse_node_status("ready"), NodeStatus::Ready);
    assert_eq!(status_manager.parse_node_status("PENDING"), NodeStatus::Pending);
    assert_eq!(status_manager.parse_node_status("not_ready"), NodeStatus::NotReady);
    assert_eq!(status_manager.parse_node_status("unknown"), NodeStatus::Unspecified);
}

#[test]
fn health_at_fixed_time() {
    let sm = NodeStatusManager;
    let nodes = vec![
        create_test_node("a", 1000, NodeStatus::Ready),
        create_test_node("b", 900, NodeStatus::Pending),
        create_test_node("c", 941, NodeStatus::Ready),
    ];
    assert_eq!(sm.get_unhealthy_nodes_at(&nodes, 60, 1000), vec!["b".to_string()]);
    assert!(!sm.is_node_healthy_at(&nodes[2], 59, 1000));
    let summary = sm.get_cluster_health_summary_at(&nodes, 60, 1000);
    assert_eq!(summary.ready_nodes, 2);
    assert_eq!(summary.nodeagent_nodes, 3);
    assert_eq!(summary.master_nodes, 0);
    assert_eq!(sm.get_cluster_health_summary_at(&nodes, 1, 5000).cluster_status, ClusterStatus::Critical);
    assert_eq!(sm.get_cluster_health_summary_at(&nodes, 200, 1000).cluster_status, ClusterStatus::Healthy);
    assert_eq!(sm.get_cluster_health_summary_at(&[], 1, 5000).cluster_status, ClusterStatus::Healthy);
    assert_eq!(sm.parse_node_status("NotReady"), NodeStatus::NotReady);
}

// ---------------------------------------------------------------------
// receiver, lookup, artifacts, files, routes
// ---------------------------------------------------------------------

#[test]
fn receiver_answers() {
    let receiver = ApiServerReceiver::new();
    let _copy = receiver.clone();
    let r = receiver.get_nodes_reply(Err("down".to_string()));
    assert!(!r.success);
    assert_eq!(r.message, "Failed to retrieve nodes: down");
    let r = receiver.get_node_reply("n1", Ok(None));
    assert_eq!(r.message, "Node n1 not found");
    let (resp, joined) =
        receiver.register_node_reply(create_test_registration_request("id", "h", "1.2.3.4"), Ok("tok".to_string()), 5);
    assert!(resp.success);
    assert_eq!(resp.cluster_token, "tok");
    let config = resp.cluster_config.unwrap();
    assert_eq!(config.master_endpoint, "localhost:47099");
    assert_eq!(config.heartbeat_interval, 30);
    let joined = joined.unwrap();
    assert_eq!(joined.ip_key, "nodes/1.2.3.4");
    assert_eq!(joined.hostname_key, "nodes/h");
    assert_eq!(joined.node_info.status, NodeStatus::Ready as i32);
    let (resp, joined) = receiver.register_node_reply(create_cloud_node_request(), Err("boom".to_string()), 5);
    assert!(!resp.success);
    assert_eq!(resp.message, "Failed to register node: boom");
    assert!(resp.cluster_config.is_none());
    assert!(joined.is_none());
    let r = receiver.update_topology_reply(None);
    assert_eq!(r.message, "No topology provided in request");
    let r = receiver.get_topology_reply(Ok(NodeRegistry::default_topology()));
    assert!(r.success);
}

#[test]
fn node_lookup_choices() {
    assert_eq!(trim_start_matches("nodes/nodes/10.0.0.1", "nodes/"), "10.0.0.1");
    assert_eq!(ip_from_simple_keys(&["nodes/10.0.0.9".to_string(), "nodes/x".to_string()]).as_deref(), Some("10.0.0.9"));
    assert_eq!(ip_from_simple_keys(&[]), None);
    let nodes = vec![
        create_test_node_info("m", "master-host", "10.0.0.1", NodeRole::Master),
        create_test_node_info("a", "agent-host", "10.0.0.2", NodeRole::Nodeagent),
        create_test_node_info("b", "blue-host", "10.0.0.3", NodeRole::Bluechi),
    ];
    assert_eq!(first_node_ip(&nodes).as_deref(), Some("10.0.0.1"));
    assert_eq!(find_node_by_hostname(nodes.clone(), "agent-host").unwrap().node_id, "a");
    assert!(find_node_by_hostname(nodes.clone(), "test-hostname").is_none());
    let guests = find_guest_nodes(nodes.clone());
    assert_eq!(guests.iter().map(|n| n.node_id.as_str()).collect::<Vec<_>>(), vec!["a", "b"]);
    assert_eq!(guest_deploy_targets(&guests, "10.0.0.2"), vec!["10.0.0.3".to_string()]);
    assert_eq!(get_node_ip(None, Some("b".to_string()), Some("c".to_string()), "d".to_string()), "b");
    assert_eq!(get_node_ip(None, None, None, "d".to_string()), "d");
    assert_eq!(add_node_to_simple_keys("1.1.1.1"), ("nodes/1.1.1.1".to_string(), "1.1.1.1".to_string()));
}

#[test]
fn artifact_documents_and_choices() {
    let body = "kind: Scenario\n---\nkind: Package\n---\n";
    assert_eq!(split_documents(body), vec!["kind: Scenario\n", "\nkind: Package\n", "\n"]);
    assert_eq!(split_documents("a----b"), vec!["a", "-b"]);
    assert_eq!(split_documents(""), vec![""]);
    assert!(known_kind("Model"));
    assert!(!known_kind("Pod"));
    assert_eq!(artifact_key("Scenario", "hello"), "Scenario/hello");
    assert_eq!(pod_key("p"), "Pod/p");
    let docs = vec![
        ("Scenario".to_string(), "s1".to_string()),
        ("Package".to_string(), "p1".to_string()),
        ("Scenario".to_string(), "s2".to_string()),
    ];
    assert_eq!(select_scenario_and_package(&docs).unwrap(), ("s2".to_string(), "p1".to_string()));
    let only_pkg = vec![("Package".to_string(), "p1".to_string())];
    assert_eq!(select_scenario_and_package(&only_pkg).unwrap_err(), "There is not any scenario in yaml string");
    let only_sc = vec![("Scenario".to_string(), "s".to_string())];
    assert_eq!(select_scenario_and_package(&only_sc).unwrap_err(), "There is not any package in yaml string");
    let w = vec![
        ("Package".to_string(), "p".to_string(), "ptext".to_string()),
        ("Scenario".to_string(), "hello".to_string(), "stext".to_string()),
    ];
    assert_eq!(select_withdrawal(&w).unwrap(), ("Scenario/hello".to_string(), "stext".to_string()));
    assert!(select_withdrawal(&w[..1]).is_err());
    let sc = scenario_announcement("hello", "idle", 123);
    assert_eq!(sc.transition_id, "apiserver-scenario-init-123");
    assert_eq!(sc.current_state, "");
    assert_eq!(sc.source, "apiserver");
    assert!(is_unspecified_address("0.0.0.0"));
}

#[test]
fn bluechi_unit_files() {
    assert_eq!(yaml_file_path("/etc/piccolo", "pod"), "/etc/piccolo/pod.yaml");
    assert_eq!(kube_file_path("/etc/piccolo", "pod"), "/etc/piccolo/pod.kube");
    let (path, text) = make_kube_file("/d", "web");
    assert_eq!(path, "/d/web.kube");
    let expected = "[Unit]\nDescription=A kubernetes yaml based web service\nAfter=network.target\n\n[Install]\n# Start by default on boot\nWantedBy=multi-user.target default.target\n\n[Kube]\nYaml=/d/web.yaml\n\n[Service]\nRestart=no\n";
    assert_eq!(text, expected);
}

#[test]
fn test_status_responses() {
    let ok_response = status(Ok(()));
    assert_eq!(ok_response.0, 200);

    let err_response = status(Err("test error".to_string()));
    assert_eq!(err_response.0, 405);
    assert_eq!(err_response.1, "test error");
}

#[test]
fn scenario_routes() {
    assert_eq!(key_second_field("scenario/a/status").as_deref(), Some("a"));
    assert_eq!(key_second_field("scenario/b").as_deref(), Some("b"));
    assert_eq!(key_second_field("scenario"), None);
    let keys: Vec<String> =
        vec!["scenario/a/status", "scenario/a/target", "scenario/b/action", "scenario"].into_iter().map(String::from).collect();
    assert_eq!(scenario_names(&keys), vec!["a".to_string(), "b".to_string()]);
    assert_eq!(scenario_field_key("x", "target"), "scenario/x/target");
    let recs = scenario_records("x", "act", "cond", "tgt");
    assert_eq!(recs[2], ("scenario/x/status".to_string(), "inactive".to_string()));
    assert_eq!(capitalize_first_letter("true"), "True");
    assert_eq!(capitalize_first_letter(""), "");
    assert_eq!(capitalize_first_letter("ßx"), "SSx");
}

#[test]
fn host_registration() {
    assert_eq!(host_node_type("vehicle"), 2);
    assert_eq!(host_node_type("cloud"), 1);
    assert_eq!(host_node_type("x"), 0);
    assert_eq!(host_node_role("bluechi"), 3);
    assert_eq!(host_node_role("master"), 1);
    let r = host_registration_request("hpc", "10.0.0.5", "vehicle", "master");
    assert_eq!(r.node_id, "hpc-10.0.0.5");
    assert_eq!(r.node_type, 2);
    assert_eq!(r.node_role, 1);
    assert!(r.resources.is_none());
}

#[test]
fn deployment_targets() {
    let nodes = vec![
        create_test_node_info("a", "HPC", "10.0.0.7", NodeRole::Nodeagent),
        create_test_node_info("b", "ZONE", "10.0.0.8", NodeRole::Nodeagent),
    ];
    let names = vec!["".to_string(), "missing".to_string(), "ZONE".to_string(), "HPC".to_string()];
    assert_eq!(target_node_ip(&names, &nodes).as_deref(), Some("10.0.0.8"));
    assert_eq!(target_node_ip(&names[..2], &nodes), None);
    assert_eq!(node_agent_address("10.0.0.8"), "http://10.0.0.8:47004");
    assert_eq!(guest_send_outcome::<u32, String>(vec![]).unwrap_err(), "No guest nodes found in etcd");
    assert_eq!(
        guest_send_outcome::<u32, String>(vec![Err("down".to_string()), Err("down".to_string())]).unwrap_err(),
        "Failed to send to any guest nodes"
    );
    assert_eq!(guest_send_outcome(vec![Ok(7u32), Err("down".to_string()), Ok(9u32)]).unwrap(), vec![7, 9]);
}

#[test]
fn documents_join_back() {
    let body = "a---b------c";
    let docs = split_documents(body);
    assert_eq!(docs, vec!["a", "b", "", "c"]);
    assert_eq!(docs.join("---"), body);
}
