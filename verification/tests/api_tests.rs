use nodewatch::api::{build_node, ingest_node, offline_event, paginate, Pagination, UpsertNode};
use nodewatch::doctor::Doctor;
use nodewatch::ent::{Event, HealthStatus, Node, Target};

fn sample_upsert(host: &str, disk_per: u32, mem_per: u32) -> UpsertNode {
    UpsertNode {
        system_hostname: host.to_string(),
        time_day: "2024-01-01".to_string(),
        system_ip: "10.0.0.1".to_string(),
        load_1: 10,
        load_5: 20,
        load_15: 30,
        mem_status_total: "16G".to_string(),
        mem_status_use: "8G".to_string(),
        mem_status_per: mem_per,
        mem_status: "ok".to_string(),
        disk_f: "/dev/sda1".to_string(),
        disk_total: "100G".to_string(),
        disk_free: "50G".to_string(),
        disk_per,
        disk_f_60: "/dev/sda2".to_string(),
        disk_per_60: "40".to_string(),
        disk_status: "ok".to_string(),
    }
}

fn node_list(n: usize) -> Vec<Node> {
    (0..n)
        .map(|i| build_node(sample_upsert(&format!("node-{}", i), 10, 10), 1000))
        .collect()
}

#[test]
fn build_node_maps_fields_and_stamps_time() {
    let node = build_node(sample_upsert("host-1", 42, 17), 7777);
    assert_eq!(node.id, "host-1");
    assert_eq!(node.system_ip, "10.0.0.1");
    assert_eq!(node.disk_per, 42);
    assert_eq!(node.mem_status_per, 17);
    assert_eq!(node.last_updated, 7777);
    assert_eq!(node.status_msg, None);
}

#[test]
fn ingest_red_node_builds_red_heartbeat() {
    let (node, event) = ingest_node(&Doctor::new(), sample_upsert("host-1", 95, 10), 7777);
    assert_eq!(node.status_msg.as_deref(), Some("Error: disk > 90% .\n"));
    match event {
        Event::Heartbeat(info) => {
            assert_eq!(info.status, HealthStatus::Red);
            match info.target {
                Target::Node(id, Some(snap)) => {
                    assert_eq!(id, "host-1");
                    assert_eq!(snap, node);
                }
                other => panic!("unexpected target: {:?}", other),
            }
        }
        other => panic!("expected a heartbeat, got {:?}", other),
    }
}

#[test]
fn ingest_healthy_node_builds_green_heartbeat() {
    let (node, event) = ingest_node(&Doctor::new(), sample_upsert("host-2", 10, 10), 7777);
    assert_eq!(node.status_msg.as_deref(), Some("everything looks fine"));
    match event {
        Event::Heartbeat(info) => assert_eq!(info.status, HealthStatus::Green),
        other => panic!("expected a heartbeat, got {:?}", other),
    }
}

#[test]
fn offline_event_carries_only_identity() {
    let event = offline_event(&"host-1".to_string());
    assert_eq!(
        event,
        Event::Offline(Target::Node("host-1".to_string(), None))
    );
}

#[test]
fn paginate_defaults_to_whole_list() {
    let nodes = node_list(5);
    let page = paginate(&nodes, &Pagination::default());
    assert_eq!(page.len(), 5);
    assert_eq!(page[0].id, "node-0");
    assert_eq!(page[4].id, "node-4");
}

#[test]
fn paginate_skips_offset_and_takes_limit() {
    let nodes = node_list(5);
    let page = paginate(
        &nodes,
        &Pagination {
            offset: Some(1),
            limit: Some(2),
        },
    );
    assert_eq!(page.len(), 2);
    assert_eq!(page[0].id, "node-1");
    assert_eq!(page[1].id, "node-2");
}

#[test]
fn paginate_clips_out_of_range() {
    let nodes = node_list(3);
    let past_end = paginate(
        &nodes,
        &Pagination {
            offset: Some(10),
            limit: None,
        },
    );
    assert!(past_end.is_empty());
    let large_limit = paginate(
        &nodes,
        &Pagination {
            offset: Some(2),
            limit: Some(usize::MAX),
        },
    );
    assert_eq!(large_limit.len(), 1);
    assert_eq!(large_limit[0].id, "node-2");
}
