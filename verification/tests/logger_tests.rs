use nodewatch::doctor::Doctor;
use nodewatch::ent::{Event, HealthInfo, HealthStatus, Node, Service, Target};
use nodewatch::logger::{LogAction, Logger};

fn sample_node(id: &str, disk_per: u32, mem_per: u32, last_updated: u64) -> Node {
    Node {
        id: id.to_string(),
        time_day: "2024-01-01".to_string(),
        system_ip: "10.0.0.1".to_string(),
        load_1: 10,
        load_5: 20,
        load_15: 30,
        mem_status_total: "16G".to_string(),
        mem_status_use: "8G".to_string(),
        mem_status_per: mem_per,
        mem_status: "ok".to_string(),
        disk_f: "/dev/sda1".to_string(),
        disk_total: "100G".to_string(),
        disk_free: "50G".to_string(),
        disk_per,
        disk_f_60: "/dev/sda2".to_string(),
        disk_per_60: "40".to_string(),
        disk_status: "ok".to_string(),
        last_updated,
        status_msg: None,
    }
}

fn heartbeat(node: Node, status: HealthStatus) -> Event {
    Event::Heartbeat(HealthInfo {
        target: Target::Node(node.id.clone(), Some(node)),
        status,
    })
}

#[test]
fn round_trip_heartbeats_then_sweep() {
    let mut lg = Logger::new(Doctor::new());
    let ids = ["a", "b", "c"];
    for id in ids {
        let act = lg.log(heartbeat(sample_node(id, 10, 10, 1000), HealthStatus::Green), 1000);
        assert_eq!(act, LogAction::Nothing);
    }
    // The sweep reports exactly one finding per id, in ingestion order,
    // and classifies against the sweep's own time: at 2300 every snapshot
    // (last_updated 1000) is stale beyond 1200s, hence Red.
    let act = lg.log(Event::CheckAll, 2300);
    match act {
        LogAction::Notify(batch) => {
            assert_eq!(batch.len(), 3);
            for (i, finding) in batch.iter().enumerate() {
                assert_eq!(finding.status, HealthStatus::Red);
                match &finding.target {
                    Target::Node(id, Some(snap)) => {
                        assert_eq!(id, ids[i]);
                        assert_eq!(
                            snap.status_msg.as_deref(),
                            Some("Error: node hasn't update for 20 min.")
                        );
                    }
                    other => panic!("unexpected sweep target: {:?}", other),
                }
            }
        }
        other => panic!("sweep must notify, got {:?}", other),
    }
}

#[test]
fn sweep_of_empty_table_notifies_empty_batch() {
    let mut lg = Logger::new(Doctor::new());
    match lg.log(Event::CheckAll, 1000) {
        LogAction::Notify(batch) => assert!(batch.is_empty()),
        other => panic!("sweep must notify unconditionally, got {:?}", other),
    }
}

#[test]
fn offline_twice_is_idempotent() {
    let mut lg = Logger::new(Doctor::new());
    lg.log(heartbeat(sample_node("a", 10, 10, 1000), HealthStatus::Green), 1000);
    lg.log(heartbeat(sample_node("b", 10, 10, 1000), HealthStatus::Green), 1000);

    let first = lg.log(Event::Offline(Target::Node("a".to_string(), None)), 1000);
    assert_eq!(first, LogAction::Nothing);
    // The repeat finds nothing to remove: reported, never fatal, and the
    // table is exactly as after the first application.
    let second = lg.log(Event::Offline(Target::Node("a".to_string(), None)), 1000);
    assert_eq!(second, LogAction::MissingEntry);

    match lg.log(Event::CheckAll, 1000) {
        LogAction::Notify(batch) => {
            assert_eq!(batch.len(), 1);
            match &batch[0].target {
                Target::Node(id, _) => assert_eq!(id, "b"),
                other => panic!("unexpected target: {:?}", other),
            }
        }
        other => panic!("sweep must notify, got {:?}", other),
    }
}

#[test]
fn offline_of_absent_entry_is_anomaly() {
    let mut lg = Logger::new(Doctor::new());
    let act = lg.log(Event::Offline(Target::Node("ghost".to_string(), None)), 1000);
    assert_eq!(act, LogAction::MissingEntry);
}

#[test]
fn heartbeat_without_snapshot_is_malformed() {
    let mut lg = Logger::new(Doctor::new());
    let act = lg.log(
        Event::Heartbeat(HealthInfo {
            target: Target::Node("a".to_string(), None),
            status: HealthStatus::Red,
        }),
        1000,
    );
    assert_eq!(act, LogAction::MalformedEvent);
    // The malformed event stored nothing.
    match lg.log(Event::CheckAll, 1000) {
        LogAction::Notify(batch) => assert!(batch.is_empty()),
        other => panic!("sweep must notify, got {:?}", other),
    }
}

#[test]
fn red_heartbeat_notifies_immediately() {
    let mut lg = Logger::new(Doctor::new());
    let node = sample_node("a", 95, 10, 1000);
    let act = lg.log(heartbeat(node, HealthStatus::Red), 1000);
    match act {
        LogAction::Notify(batch) => {
            assert_eq!(batch.len(), 1);
            assert_eq!(batch[0].status, HealthStatus::Red);
        }
        other => panic!("red heartbeat must notify, got {:?}", other),
    }
}

#[test]
fn service_heartbeat_updates_service_table() {
    let mut lg = Logger::new(Doctor::new());
    let service = Service {
        api: "http://svc/health".to_string(),
        name: "svc".to_string(),
        latency: 0,
        last_updated: 500,
    };
    let act = lg.log(
        Event::Heartbeat(HealthInfo {
            target: Target::Service("svc".to_string(), Some(service)),
            status: HealthStatus::Green,
        }),
        1000,
    );
    assert_eq!(act, LogAction::Nothing);
    let removed = lg.log(Event::Offline(Target::Service("svc".to_string(), None)), 1000);
    assert_eq!(removed, LogAction::Nothing);
    // A node sweep never reports services.
    match lg.log(Event::CheckAll, 1000) {
        LogAction::Notify(batch) => assert!(batch.is_empty()),
        other => panic!("sweep must notify, got {:?}", other),
    }
}

#[test]
fn upsert_replaces_record_wholesale() {
    let mut lg = Logger::new(Doctor::new());
    lg.log(heartbeat(sample_node("a", 95, 10, 1000), HealthStatus::Red), 1000);
    lg.log(heartbeat(sample_node("a", 10, 10, 5000), HealthStatus::Green), 5000);
    match lg.log(Event::CheckAll, 5000) {
        LogAction::Notify(batch) => {
            assert_eq!(batch.len(), 1);
            assert_eq!(batch[0].status, HealthStatus::Green);
        }
        other => panic!("sweep must notify, got {:?}", other),
    }
}

#[test]
fn end_to_end_scenario() {
    let dc = Doctor::new();
    let mut lg = Logger::new(dc);
    let now = 10_000u64;

    // Ingest n1 with disk_per 95: stored, and immediately a one-element
    // Red batch whose diagnostic names the disk rule.
    let n1 = sample_node("n1", 95, 10, now);
    let (status1, msg1) = Doctor::new().check_node(&n1, now);
    assert_eq!(status1, HealthStatus::Red);
    assert!(msg1.contains("disk > 90%"));
    let mut n1_reported = n1.clone();
    n1_reported.status_msg = Some(msg1);
    let act = lg.log(
        Event::Heartbeat(HealthInfo {
            target: Target::Node("n1".to_string(), Some(n1_reported)),
            status: status1,
        }),
        now,
    );
    match act {
        LogAction::Notify(batch) => {
            assert_eq!(batch.len(), 1);
            assert_eq!(batch[0].status, HealthStatus::Red);
            match &batch[0].target {
                Target::Node(id, Some(snap)) => {
                    assert_eq!(id, "n1");
                    assert!(snap.status_msg.as_deref().unwrap().contains("disk > 90%"));
                }
                other => panic!("unexpected target: {:?}", other),
            }
        }
        other => panic!("red ingestion must notify, got {:?}", other),
    }

    // Ingest n2, healthy and fresh: no immediate notification.
    let n2 = sample_node("n2", 10, 10, now);
    let (status2, _) = Doctor::new().check_node(&n2, now);
    assert_eq!(status2, HealthStatus::Green);
    let act = lg.log(
        Event::Heartbeat(HealthInfo {
            target: Target::Node("n2".to_string(), Some(n2)),
            status: status2,
        }),
        now,
    );
    assert_eq!(act, LogAction::Nothing);

    // The sweep re-evaluates both against the current time: n1 still Red
    // from its stored disk percentage, n2 Green.
    match lg.log(Event::CheckAll, now) {
        LogAction::Notify(batch) => {
            assert_eq!(batch.len(), 2);
            assert_eq!(batch[0].status, HealthStatus::Red);
            assert_eq!(batch[1].status, HealthStatus::Green);
            match &batch[0].target {
                Target::Node(id, _) => assert_eq!(id, "n1"),
                other => panic!("unexpected target: {:?}", other),
            }
            match &batch[1].target {
                Target::Node(id, _) => assert_eq!(id, "n2"),
                other => panic!("unexpected target: {:?}", other),
            }
        }
        other => panic!("sweep must notify, got {:?}", other),
    }
}
