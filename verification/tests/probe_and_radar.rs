use base64::Engine;
use sha2::Digest;
use sacas::probe;
use sacas::radar::{
    find_weakest_target, get_locked_targets, scan_request_body, DefenseInfo, RadarScanResult,
    RadarTarget, ScanSummary,
};

#[test]
fn test_anchor_latency_median() {
    assert_eq!(probe::anchor_latency(&vec![5, 3, 9]), 5);
    assert_eq!(probe::anchor_latency(&vec![7, 3]), 7);
    assert_eq!(probe::anchor_latency(&vec![42]), 42);
}

#[test]
fn test_anchor_latency_sentinel_when_all_failed() {
    assert_eq!(probe::anchor_latency(&Vec::new()), 999);
}

#[test]
fn test_network_quality_bands() {
    assert_eq!(probe::calculate_network_quality(&vec![10, 10]), 1500);
    assert_eq!(probe::calculate_network_quality(&vec![40]), 1200);
    assert_eq!(probe::calculate_network_quality(&vec![100]), 1000);
    assert_eq!(probe::calculate_network_quality(&vec![250]), 500);
    assert_eq!(probe::calculate_network_quality(&vec![600]), 100);
    assert_eq!(probe::calculate_network_quality(&Vec::new()), 100);
    // Mean of 20 and 45 is 32.5: past the top band's edge.
    assert_eq!(probe::calculate_network_quality(&vec![20, 45]), 1200);
}

#[test]
fn test_latency_vector_attestation() {
    let v = probe::finish_latency_vector(7, vec![1, 2, 3]);
    assert_eq!(v.timestamp, 7);
    assert_eq!(v.data, vec![1, 2, 3]);
    let digest = sha2::Sha256::digest("[1,2,3]".as_bytes());
    let expected = base64::engine::general_purpose::STANDARD.encode(digest);
    assert_eq!(v.signature, expected);
}

#[test]
fn test_default_anchors() {
    let anchors = probe::default_anchors();
    assert_eq!(anchors.len(), 5);
    assert_eq!(anchors[0].id, "cloudflare-1");
    assert_eq!(anchors[0].ip, "1.1.1.1");
    assert_eq!(anchors[4].id, "quad9");
    assert!(anchors.iter().all(|a| a.region == "global"));
}

fn target(id: &str, visibility: &str, total: Option<u64>) -> RadarTarget {
    RadarTarget {
        device_id: id.to_string(),
        visibility: visibility.to_string(),
        distance: 1000,
        karma: None,
        karma_range: None,
        defense: total.map(|t| DefenseInfo { l1: t, l2: 0, l3: 0, total: t }),
    }
}

fn scan_with(targets: Vec<RadarTarget>) -> RadarScanResult {
    let locked = targets.iter().filter(|t| t.visibility == "LOCKED").count();
    RadarScanResult {
        success: true,
        scan_id: "scan-1".to_string(),
        cost: 10,
        summary: ScanSummary { total: targets.len(), locked, fuzzy: targets.len() - locked },
        entropy_remaining: 100,
        targets,
    }
}

#[test]
fn test_locked_targets_filtered_in_order() {
    let scan = scan_with(vec![
        target("a", "LOCKED", None),
        target("b", "FUZZY", None),
        target("c", "LOCKED", Some(5)),
    ]);
    let locked = get_locked_targets(&scan);
    assert_eq!(locked.len(), 2);
    assert_eq!(locked[0].device_id, "a");
    assert_eq!(locked[1].device_id, "c");
}

#[test]
fn test_weakest_target_minimal_known_defense() {
    let scan = scan_with(vec![
        target("a", "LOCKED", Some(30)),
        target("b", "LOCKED", None),
        target("c", "LOCKED", Some(10)),
        target("d", "LOCKED", Some(10)),
    ]);
    let locked = get_locked_targets(&scan);
    let weakest = find_weakest_target(&locked).unwrap();
    assert_eq!(weakest.device_id, "c");
}

#[test]
fn test_weakest_target_none_without_defense_info() {
    let scan = scan_with(vec![target("a", "LOCKED", None)]);
    let locked = get_locked_targets(&scan);
    assert!(find_weakest_target(&locked).is_none());
}

#[test]
fn test_scan_request_body() {
    assert_eq!(
        scan_request_body(None),
        "{\"max_distance\":5000,\"cost_omega\":10}"
    );
    assert_eq!(
        scan_request_body(Some(1200)),
        "{\"max_distance\":1200,\"cost_omega\":10}"
    );
}

#[test]
fn test_combat_bodies() {
    let body = sacas::combat::defense_config_body(&sacas::combat::DefenseConfig {
        l1: 1,
        l2: 22,
        l3: 333,
    });
    assert_eq!(body, "{\"l1\":1,\"l2\":22,\"l3\":333}");
    assert_eq!(
        sacas::combat::target_body("dev-42"),
        "{\"target_id\":\"dev-42\"}"
    );
}
