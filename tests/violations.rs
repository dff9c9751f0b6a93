use sandbox_runtime::violation_store::{parse_violation_line, Violation, ViolationType};
use sandbox_runtime::ViolationStore;

fn now_millis() -> u64 {
    std::time::SystemTime::now()
        .duration_since(std::time::UNIX_EPOCH)
        .map(|d| d.as_millis() as u64)
        .unwrap_or(0)
}

#[test]
fn test_violation_store() {
    let mut store = ViolationStore::new();

    let violation = Violation {
        violation_type: ViolationType::Network,
        target: "evil.com".to_string(),
        process: "test".to_string(),
        timestamp: now_millis(),
    };

    store.add_violation(violation);

    assert_eq!(store.count(), 1);
    assert_eq!(store.get_violations_by_type(ViolationType::Network).len(), 1);

    store.clear();
    assert_eq!(store.count(), 0);
}

#[test]
fn test_subscriber() {
    let mut store = ViolationStore::new();
    let subscriber = store.subscribe();

    let violation = Violation {
        violation_type: ViolationType::FilesystemWrite,
        target: "/etc/passwd".to_string(),
        process: "test".to_string(),
        timestamp: now_millis(),
    };

    store.add_violation(violation);

    let called = !store.take_notifications(subscriber).is_empty();
    assert!(called);
}

#[test]
fn record_reaches_log_query_and_each_subscriber_once() {
    let mut store = ViolationStore::new();
    let first = store.subscribe();
    let second = store.subscribe();
    store.add_violation(Violation {
        violation_type: ViolationType::Network,
        target: "a.com".to_string(),
        process: "p".to_string(),
        timestamp: 1,
    });
    let before = store.count();
    let v = Violation {
        violation_type: ViolationType::UnixSocket,
        target: "/run/x.sock".to_string(),
        process: "p".to_string(),
        timestamp: 2,
    };
    store.add_violation(v.clone());
    assert_eq!(store.count(), before + 1);
    let found = store.get_violations_by_type(ViolationType::UnixSocket);
    assert_eq!(found.len(), 1);
    assert_eq!(found[0].target, "/run/x.sock");
    for id in [first, second] {
        let got = store.take_notifications(id);
        assert_eq!(got.len(), 2);
        assert_eq!(got[1].target, v.target);
        assert_eq!(got[1].violation_type, v.violation_type);
        assert_eq!(got[1].timestamp, 2);
        assert!(store.take_notifications(id).is_empty());
    }
    let late = store.subscribe();
    assert!(store.take_notifications(late).is_empty());
    assert!(store.take_notifications(99).is_empty());
}

#[test]
fn queries_keep_insertion_order_and_clear_keeps_subscribers() {
    let mut store = ViolationStore::new();
    let id = store.subscribe();
    for (i, kind) in [ViolationType::Network, ViolationType::Other, ViolationType::Network].iter().enumerate() {
        store.add_violation(Violation {
            violation_type: *kind,
            target: format!("t{}", i),
            process: "p".to_string(),
            timestamp: i as u64,
        });
    }
    let all = store.get_violations();
    assert_eq!(all.iter().map(|v| v.target.clone()).collect::<Vec<_>>(), vec!["t0", "t1", "t2"]);
    let network = store.get_violations_by_type(ViolationType::Network);
    assert_eq!(network.iter().map(|v| v.target.clone()).collect::<Vec<_>>(), vec!["t0", "t2"]);
    assert!(store.get_violations_by_type(ViolationType::FilesystemRead).is_empty());
    store.clear();
    assert_eq!(store.count(), 0);
    store.add_violation(Violation {
        violation_type: ViolationType::Other,
        target: "after".to_string(),
        process: "p".to_string(),
        timestamp: 9,
    });
    assert_eq!(store.take_notifications(id).len(), 4);
}

#[test]
fn denial_lines_are_classified_and_targeted() {
    let read = parse_violation_line("Sandbox: cat(123) deny(1) file-read-data /etc/shadow", 5);
    assert_eq!(read.violation_type, ViolationType::FilesystemRead);
    assert_eq!(read.target, "/etc/shadow");
    assert_eq!(read.process, "sandboxed-process");
    assert_eq!(read.timestamp, 5);
    let write = parse_violation_line("deny file-write-create /private/tmp/x  ", 0);
    assert_eq!(write.violation_type, ViolationType::FilesystemWrite);
    assert_eq!(write.target, "/private/tmp/x");
    let net = parse_violation_line("deny network-outbound 1.2.3.4:443", 0);
    assert_eq!(net.violation_type, ViolationType::Network);
    assert_eq!(net.target, "1.2.3.4:443");
    let sock = parse_violation_line("deny unix-socket\t/var/run/docker.sock", 0);
    assert_eq!(sock.violation_type, ViolationType::UnixSocket);
    assert_eq!(sock.target, "/var/run/docker.sock");
    let other = parse_violation_line("deny mach-lookup com.apple.x", 0);
    assert_eq!(other.violation_type, ViolationType::Other);
    let blank = parse_violation_line("   ", 0);
    assert_eq!(blank.target, "unknown");
}

#[test]
fn parse_and_add_records_the_line() {
    let mut store = ViolationStore::new();
    store.parse_and_add_violation("deny file-read-data /etc/hosts", 7);
    let all = store.get_violations();
    assert_eq!(all.len(), 1);
    assert_eq!(all[0].violation_type, ViolationType::FilesystemRead);
    assert_eq!(all[0].target, "/etc/hosts");
}
