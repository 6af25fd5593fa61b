use pullpiri::monitoring::report::{effective_core_count, format_small_bytes, format_small_memory, format_time_ago, forward_reply};
use pullpiri::monitoring::store::{metrics_key, metrics_prefix, sums_fit_check, BoardInfo, DataStore, NodeInfo, SocInfo};
use pullpiri::statemanager::types::ContainerInfo;

fn sample_node(name: &str, ip: &str) -> NodeInfo {
    NodeInfo {
        node_name: name.to_string(),
        ip: ip.to_string(),
        cpu_count: 4,
        gpu_count: 1,
        used_memory: 2048,
        total_memory: 4096,
        rx_bytes: 1000,
        tx_bytes: 2000,
        read_bytes: 3000,
        write_bytes: 4000,
        arch: "x86_64".to_string(),
        os: "linux".to_string(),
    }
}

fn sample_container(id: &str, name: &str) -> ContainerInfo {
    ContainerInfo { id: id.to_string(), names: vec![name.to_string()], ..Default::default() }
}

fn has_key<V>(m: &[(String, V)], k: &str) -> bool {
    m.iter().any(|(key, _)| key == k)
}

fn get<'a, V>(m: &'a [(String, V)], k: &str) -> Option<&'a V> {
    m.iter().find(|(key, _)| key == k).map(|(_, v)| v)
}

#[test]
fn test_socinfo_update_with_node() {
    let node1 = sample_node("node1", "192.168.10.201");
    let mut soc = SocInfo::new("192.168.10.200".to_string(), node1.clone());
    assert_eq!(soc.nodes.len(), 1);

    let node2 = sample_node("node2", "192.168.10.202");
    soc.update_with_node(node2.clone());
    assert_eq!(soc.nodes.len(), 2);

    let mut node2_updated = node2.clone();
    node2_updated.cpu_count = 16;
    soc.update_with_node(node2_updated.clone());
    assert_eq!(soc.nodes.len(), 2);
    assert!(soc.nodes.iter().any(|n| n.cpu_count == 16));
    assert_eq!(soc.total_cpu_count, 20);
}

#[test]
fn test_boardinfo_update_with_node() {
    let node1 = sample_node("node1", "192.168.10.201");
    let mut board = BoardInfo::new("192.168.10.200".to_string(), node1.clone());
    assert_eq!(board.nodes.len(), 1);

    let node2 = sample_node("node2", "192.168.10.202");
    board.update_with_node(node2.clone());
    assert_eq!(board.nodes.len(), 2);

    let mut node2_updated = node2.clone();
    node2_updated.gpu_count = 3;
    board.update_with_node(node2_updated.clone());
    assert_eq!(board.nodes.len(), 2);
    assert!(board.nodes.iter().any(|n| n.gpu_count == 3));
    assert_eq!(board.total_gpu_count, 4);
}

#[test]
fn summed_counters() {
    let node1 = sample_node("node1", "192.168.10.201");
    let node2 = sample_node("node2", "192.168.10.202");
    let mut soc = SocInfo::new("192.168.10.200".to_string(), node1.clone());
    soc.update_with_node(node2.clone());
    soc.recalculate_totals();
    assert_eq!(soc.total_cpu_count, 8);
    assert_eq!(soc.total_gpu_count, 2);
    assert_eq!(soc.total_used_memory, 4096);
    assert_eq!(soc.total_memory, 8192);
    assert_eq!(soc.total_write_bytes, 8000);

    let mut board = BoardInfo::new("192.168.10.200".to_string(), node1.clone());
    board.update_with_node(node2.clone());
    board.recalculate_totals();
    assert_eq!(board.total_cpu_count, 8);
    assert_eq!(board.total_gpu_count, 2);
    assert_eq!(board.total_used_memory, 4096);
    assert_eq!(board.total_memory, 8192);
    assert_eq!(board.get_nodes().len(), 2);
}

#[test]
fn test_datastore_new_and_basic_ops() {
    let ds = DataStore::new();
    assert!(ds.nodes.is_empty());
    assert!(ds.socs.is_empty());
    assert!(ds.boards.is_empty());
    assert!(ds.containers.is_empty());
    assert!(ds.container_node_mapping.is_empty());
}

#[test]
fn test_get_containers_by_node() {
    let mut ds = DataStore::new();
    let container = sample_container("c1", "container1");
    ds.containers.push(("c1".to_string(), container.clone()));
    ds.container_node_mapping.push(("c1".to_string(), "node1".to_string()));

    let containers = ds.get_containers_by_node("node1");
    assert_eq!(containers.len(), 1);
    assert_eq!(containers[0].id, "c1");
}

#[test]
fn store_node_info_groups_nodes() {
    let mut ds = DataStore::new();
    let node = sample_node("node1", "192.168.10.201");
    let (soc_id, board_id) = ds.store_node_info(node.clone()).unwrap();
    assert_eq!(soc_id, "192.168.10.200");
    assert_eq!(board_id, "192.168.10.200");
    assert!(has_key(&ds.nodes, "node1"));
    assert!(has_key(&ds.socs, &soc_id));
    assert!(has_key(&ds.boards, &board_id));

    let node2 = sample_node("node2", "192.168.10.202");
    ds.store_node_info(node2).unwrap();
    assert_eq!(get(&ds.socs, &soc_id).unwrap().nodes.len(), 2);
    let board = get(&ds.boards, &board_id).unwrap();
    assert_eq!(board.nodes.len(), 2);
    assert_eq!(board.socs.len(), 1);
    assert_eq!(board.socs[0].nodes.len(), 2);

    let node3 = sample_node("node3", "192.168.10.215");
    let (soc3, board3) = ds.store_node_info(node3).unwrap();
    assert_eq!(soc3, "192.168.10.210");
    assert_eq!(board3, "192.168.10.200");
    assert_eq!(get(&ds.boards, &board_id).unwrap().socs.len(), 2);
    assert_eq!(get(&ds.boards, &board_id).unwrap().total_cpu_count, 12);

    let mut bad_node = node.clone();
    bad_node.ip = "bad_ip".to_string();
    let result = ds.store_node_info(bad_node);
    assert_eq!(result.unwrap_err(), "Invalid IP address format: bad_ip");
}

#[test]
fn test_get_node_info_and_soc_board_info() {
    let mut ds = DataStore::new();
    let node = sample_node("node1", "192.168.10.201");
    ds.nodes.push(("node1".to_string(), node.clone()));
    let soc = SocInfo::new("192.168.10.200".to_string(), node.clone());
    ds.socs.push(("192.168.10.200".to_string(), soc.clone()));
    let board = BoardInfo::new("192.168.10.200".to_string(), node.clone());
    ds.boards.push(("192.168.10.200".to_string(), board.clone()));

    assert!(ds.get_node_info("node1").is_some());
    assert!(ds.get_soc_info("192.168.10.200").is_some());
    assert!(ds.get_board_info("192.168.10.200").is_some());
    assert_eq!(ds.get_all_nodes().len(), 1);
    assert_eq!(ds.get_all_socs().len(), 1);
    assert_eq!(ds.get_all_boards().len(), 1);
}

#[test]
fn test_update_board_socs() {
    let mut ds = DataStore::new();
    let node = sample_node("node1", "192.168.10.201");
    let soc = SocInfo::new("192.168.10.200".to_string(), node.clone());
    ds.socs.push(("192.168.10.200".to_string(), soc.clone()));
    let board = BoardInfo::new("192.168.10.200".to_string(), node.clone());
    ds.boards.push(("192.168.10.200".to_string(), board.clone()));

    ds.update_board_socs("192.168.10.200").unwrap();
    let board_info = ds.get_board_info("192.168.10.200").unwrap();
    assert_eq!(board_info.socs.len(), 1);
    assert_eq!(board_info.socs[0].soc_id, "192.168.10.200");
}

#[test]
fn test_container_node_mapping_cleanup() {
    let mut ds = DataStore::new();
    let container1 = sample_container("c1", "container1");
    let container2 = sample_container("c2", "container2");
    ds.containers.push(("c1".to_string(), container1.clone()));
    ds.containers.push(("c2".to_string(), container2.clone()));
    ds.container_node_mapping.push(("c1".to_string(), "node1".to_string()));
    ds.container_node_mapping.push(("c2".to_string(), "node1".to_string()));

    let removed = ds.cleanup_node_containers("node1", &vec!["c1".to_string()]);
    assert_eq!(removed, vec!["c2".to_string()]);
    assert!(has_key(&ds.containers, "c1"));
    assert!(!has_key(&ds.containers, "c2"));
    assert!(has_key(&ds.container_node_mapping, "c1"));
    assert!(!has_key(&ds.container_node_mapping, "c2"));
}

#[test]
fn test_get_all_containers_and_nodes_socs_boards() {
    let mut ds = DataStore::new();
    let node = sample_node("node1", "192.168.10.201");
    let soc = SocInfo::new("192.168.10.200".to_string(), node.clone());
    let board = BoardInfo::new("192.168.10.200".to_string(), node.clone());
    let container = sample_container("c1", "container1");

    ds.nodes.push(("node1".to_string(), node.clone()));
    ds.socs.push(("192.168.10.200".to_string(), soc.clone()));
    ds.boards.push(("192.168.10.200".to_string(), board.clone()));
    ds.containers.push(("c1".to_string(), container.clone()));

    assert_eq!(ds.get_all_containers().len(), 1);
    assert_eq!(ds.get_all_nodes().len(), 1);
    assert_eq!(ds.get_all_socs().len(), 1);
    assert_eq!(ds.get_all_boards().len(), 1);
}

#[test]
fn test_update_soc_info_and_board_info_private_methods() {
    let mut ds = DataStore::new();
    let node = sample_node("node1", "192.168.10.201");
    let soc_id = "192.168.10.200".to_string();
    let board_id = "192.168.10.200".to_string();

    ds.update_soc_info(soc_id.clone(), node.clone()).unwrap();
    assert!(has_key(&ds.socs, &soc_id));

    ds.update_board_info(board_id.clone(), node.clone()).unwrap();
    assert!(has_key(&ds.boards, &board_id));
}

#[test]
fn test_update_board_socs_empty_and_nonempty() {
    let mut ds = DataStore::new();
    assert!(ds.update_board_socs("not_exist").is_ok());

    let node = sample_node("node1", "192.168.10.201");
    let soc_id = "192.168.10.200".to_string();
    let board_id = "192.168.10.200".to_string();
    let soc = SocInfo::new(soc_id.clone(), node.clone());
    let board = BoardInfo::new(board_id.clone(), node.clone());
    ds.socs.push((soc_id.clone(), soc));
    ds.boards.push((board_id.clone(), board));

    assert!(ds.update_board_socs(&board_id).is_ok());
    let board_info = ds.get_board_info(&board_id).unwrap();
    assert_eq!(board_info.socs.len(), 1);
}

#[test]
fn test_store_container_info_and_with_node() {
    let mut ds = DataStore::new();
    let container = sample_container("c1", "container1");

    ds.store_container_info(container.clone()).unwrap();
    assert!(has_key(&ds.containers, "c1"));

    ds.store_container_info_with_node(container.clone(), "node1".to_string()).unwrap();
    assert_eq!(get(&ds.container_node_mapping, "c1").unwrap(), "node1");
}

#[test]
fn test_get_container_info_memory_and_etcd_fallback() {
    let mut ds = DataStore::new();
    let container = sample_container("c1", "container1");
    ds.containers.push(("c1".to_string(), container.clone()));

    let result = ds.get_container_info("c1");
    assert!(result.is_some());
    assert_eq!(result.unwrap().id, "c1");

    let result = ds.get_container_info("notfound");
    assert!(result.is_none());
}

#[test]
fn test_remove_container_info() {
    let mut ds = DataStore::new();
    let container = sample_container("c1", "container1");
    ds.containers.push(("c1".to_string(), container.clone()));

    ds.remove_container_info("c1").unwrap();
    assert!(!has_key(&ds.containers, "c1"));
}

#[test]
fn test_get_containers_by_node_empty_and_nonempty() {
    let mut ds = DataStore::new();
    assert!(ds.get_containers_by_node("node1").is_empty());

    let container = sample_container("c1", "container1");
    ds.containers.push(("c1".to_string(), container.clone()));
    ds.container_node_mapping.push(("c1".to_string(), "node1".to_string()));
    let containers = ds.get_containers_by_node("node1");
    assert_eq!(containers.len(), 1);
    assert_eq!(containers[0].id, "c1");
}

#[test]
fn test_cleanup_node_containers_removes_obsolete() {
    let mut ds = DataStore::new();
    ds.containers.push(("c1".to_string(), sample_container("c1", "container1")));
    ds.containers.push(("c2".to_string(), sample_container("c2", "container2")));
    ds.container_node_mapping.push(("c1".to_string(), "node1".to_string()));
    ds.container_node_mapping.push(("c2".to_string(), "node1".to_string()));

    ds.cleanup_node_containers("node1", &vec!["c1".to_string()]);
    assert!(has_key(&ds.containers, "c1"));
    assert!(!has_key(&ds.containers, "c2"));
    assert!(has_key(&ds.container_node_mapping, "c1"));
    assert!(!has_key(&ds.container_node_mapping, "c2"));
}

#[test]
fn test_socinfo_and_boardinfo_new_and_update_with_node() {
    let node = sample_node("node1", "192.168.10.201");
    let mut soc = SocInfo::new("socid".to_string(), node.clone());
    assert_eq!(soc.soc_id, "socid");
    assert_eq!(soc.nodes.len(), 1);

    let mut board = BoardInfo::new("boardid".to_string(), node.clone());
    assert_eq!(board.board_id, "boardid");
    assert_eq!(board.nodes.len(), 1);

    let node2 = sample_node("node2", "192.168.10.202");
    soc.update_with_node(node2.clone());
    board.update_with_node(node2.clone());
    assert_eq!(soc.nodes.len(), 2);
    assert_eq!(board.nodes.len(), 2);
}

#[test]
fn test_update_board_info_existing_and_new() {
    let mut ds = DataStore::new();
    let node = sample_node("node1", "192.168.10.201");
    let board_id = "192.168.10.200".to_string();

    assert!(ds.update_board_info(board_id.clone(), node.clone()).is_ok());
    assert!(has_key(&ds.boards, &board_id));

    let mut node2 = node.clone();
    node2.node_name = "node2".to_string();
    assert!(ds.update_board_info(board_id.clone(), node2.clone()).is_ok());
    let board = get(&ds.boards, &board_id).unwrap();
    assert!(board.nodes.iter().any(|n| n.node_name == "node2"));
}

#[test]
fn test_update_soc_info_existing_and_new() {
    let mut ds = DataStore::new();
    let node = sample_node("node1", "192.168.10.201");
    let soc_id = "192.168.10.200".to_string();

    assert!(ds.update_soc_info(soc_id.clone(), node.clone()).is_ok());
    assert!(has_key(&ds.socs, &soc_id));

    let mut node2 = node.clone();
    node2.node_name = "node2".to_string();
    assert!(ds.update_soc_info(soc_id.clone(), node2.clone()).is_ok());
    let soc = get(&ds.socs, &soc_id).unwrap();
    assert!(soc.nodes.iter().any(|n| n.node_name == "node2"));
}

#[test]
fn test_update_board_socs_none_and_some() {
    let mut ds = DataStore::new();
    assert!(ds.update_board_socs("notfound").is_ok());

    let node = sample_node("node1", "192.168.10.201");
    let soc_id = "192.168.10.200".to_string();
    let board_id = "192.168.10.200".to_string();
    let soc = SocInfo::new(soc_id.clone(), node.clone());
    let board = BoardInfo::new(board_id.clone(), node.clone());
    ds.socs.push((soc_id.clone(), soc));
    ds.boards.push((board_id.clone(), board));

    assert!(ds.update_board_socs(&board_id).is_ok());
    let board_info = ds.get_board_info(&board_id).unwrap();
    assert_eq!(board_info.socs.len(), 1);
}

#[test]
fn test_get_all_methods() {
    let mut ds = DataStore::default();
    let node = sample_node("node1", "192.168.10.201");
    let soc = SocInfo::new("192.168.10.200".to_string(), node.clone());
    let board = BoardInfo::new("192.168.10.200".to_string(), node.clone());
    let container = sample_container("c1", "container1");

    ds.nodes.push(("node1".to_string(), node.clone()));
    ds.socs.push(("192.168.10.200".to_string(), soc.clone()));
    ds.boards.push(("192.168.10.200".to_string(), board.clone()));
    ds.containers.push(("c1".to_string(), container.clone()));

    assert_eq!(ds.get_all_containers().len(), 1);
    assert_eq!(ds.get_all_nodes().len(), 1);
    assert_eq!(ds.get_all_socs().len(), 1);
    assert_eq!(ds.get_all_boards().len(), 1);
}

#[test]
fn empty_records_sum_to_zero() {
    let mut soc = SocInfo::new("test".to_string(), sample_node("n", "1.1.1.1"));
    soc.nodes.clear();
    soc.recalculate_totals();
    assert_eq!(soc.total_cpu_count, 0);
    assert_eq!(soc.total_memory, 0);
}

#[test]
fn report_texts() {
    assert_eq!(format_time_ago(Some(5)), "5s ago");
    assert_eq!(format_time_ago(Some(125)), "2m ago");
    assert_eq!(format_time_ago(Some(7300)), "2h ago");
    assert_eq!(format_time_ago(None), "unknown");
    assert_eq!(format_small_memory(512), "512 KB");
    assert_eq!(format_small_bytes(0), "0 B");
    assert_eq!(effective_core_count(Some(20), &[0, 1, 2]), 20);
    assert_eq!(effective_core_count(None, &[0, 5, 2]), 6);
    assert_eq!(effective_core_count(None, &[]), 1);
    assert_eq!(effective_core_count(None, &[u32::MAX]), u32::MAX);
    assert_eq!(forward_reply("NodeInfo", "node info", None).unwrap(), "Successfully processed NodeInfo");
    assert_eq!(
        forward_reply("NodeInfo", "node info", Some("channel closed".to_string())).unwrap_err(),
        "cannot send node info: channel closed"
    );
    assert_eq!(metrics_key("nodes", "n1"), "/piccolo/metrics/nodes/n1");
    assert_eq!(metrics_prefix("socs"), "/piccolo/metrics/socs/");
}

#[test]
fn test_socinfo_and_boardinfo_recalculate_totals_empty() {
    let mut soc = SocInfo {
        soc_id: "test".to_string(),
        nodes: vec![],
        total_cpu_count: 0,
        total_gpu_count: 0,
        total_used_memory: 0,
        total_memory: 0,
        total_rx_bytes: 0,
        total_tx_bytes: 0,
        total_read_bytes: 0,
        total_write_bytes: 0,
    };
    soc.recalculate_totals();
    assert_eq!(soc.total_cpu_count, 0);

    let mut board = BoardInfo {
        board_id: "test".to_string(),
        nodes: vec![],
        socs: vec![],
        total_cpu_count: 0,
        total_gpu_count: 0,
        total_used_memory: 0,
        total_memory: 0,
        total_rx_bytes: 0,
        total_tx_bytes: 0,
        total_read_bytes: 0,
        total_write_bytes: 0,
    };
    board.recalculate_totals();
    assert_eq!(board.total_cpu_count, 0);
}

#[test]
fn test_boardinfo_update_with_node_existing_and_new() {
    let node1 = sample_node("node1", "192.168.10.201");
    let mut board = BoardInfo::new("boardid".to_string(), node1.clone());
    assert_eq!(board.nodes.len(), 1);

    let node2 = sample_node("node2", "192.168.10.202");
    board.update_with_node(node2.clone());
    assert_eq!(board.nodes.len(), 2);

    let mut node2_updated = node2.clone();
    node2_updated.used_memory = 88;
    board.update_with_node(node2_updated.clone());
    assert_eq!(board.nodes.len(), 2);
    assert!(board.nodes.iter().any(|n| n.used_memory == 88));
}

#[test]
fn overflowing_totals_are_detected() {
    let a = sample_node("a", "192.168.10.201");
    let mut b = sample_node("b", "192.168.10.202");
    assert!(sums_fit_check(&vec![a.clone(), b.clone()]));
    b.rx_bytes = u64::MAX;
    assert!(!sums_fit_check(&vec![a.clone(), b.clone()]));
    assert!(sums_fit_check(&vec![b.clone()]));

    let mut ds = DataStore::new();
    assert!(ds.node_fits(&a));
    ds.store_node_info(a.clone()).unwrap();
    assert!(!ds.node_fits(&b));
    let mut a2 = a.clone();
    a2.rx_bytes = u64::MAX;
    assert!(ds.node_fits(&a2));
}
