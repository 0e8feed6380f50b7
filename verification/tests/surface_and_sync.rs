use sacas::moltbook::{
    build_profile_url, extract_karma, MoltbookAgent, MoltbookError, MoltbookProfileResponse,
};
use sacas::state::StateManager;
use sacas::surface::{get_status, simulate_battle, update_defense_command};
use sacas::sync::{karma_acceptable, SyncTracker};
use sacas::websocket::{build_auth_frame, notification_for, BattleResultData, ServerMessage};

#[test]
fn test_sync_skips_when_delta_zero() {
    let mut tracker = SyncTracker::new();
    tracker.record_success(5000);
    // Current entropy equals the last synced value: no network call.
    assert_eq!(tracker.plan_tick(5000), None);
    assert_eq!(tracker.plan_tick(7000), Some(2000));
    assert_eq!(tracker.plan_tick(4000), Some(-1000));
}

#[test]
fn test_sync_baseline_advances_only_on_success() {
    let mut tracker = SyncTracker::new();
    assert_eq!(tracker.plan_tick(300), Some(300));
    // The report failed: the baseline stays, the delta rides along.
    assert_eq!(tracker.plan_tick(450), Some(450));
    tracker.record_success(450);
    assert_eq!(tracker.plan_tick(450), None);
}

#[test]
fn test_karma_acceptable_range() {
    assert!(karma_acceptable(0));
    assert!(karma_acceptable(1000));
    assert!(!karma_acceptable(-1));
    assert!(!karma_acceptable(i64::MAX));
}

#[test]
fn test_status_projection() {
    let mut sm = StateManager::new("dev-1".to_string(), 100, 0);
    sm.update_entropy(500, 0);
    sm.update_defense(1, 2, 3, 10).unwrap();
    let snap = sm.get_snapshot();
    let status = get_status(&snap, 100);
    assert_eq!(status.player_id, "dev-1");
    assert_eq!(status.karma, 100);
    assert_eq!(status.entropy, 500);
    assert_eq!(status.capacity, 10000);
    assert_eq!(status.yield_per_tick, 5);
    assert_eq!(status.defense.l1, 1);
    // The cooldown runs until 10 + 2763; 2673 seconds remain at 100.
    assert_eq!(status.defense.cooldown_seconds, Some(2673));
    assert_eq!(status.network_quality, 1000);
    assert_eq!(status.parasite_count, 0);
    assert_eq!(status.climate_code, "NORMAL");
    assert_eq!(status.climate_description, "Normal network conditions");

    // After the cooldown has passed, no remaining seconds are shown.
    let later = get_status(&snap, 5000);
    assert_eq!(later.defense.cooldown_seconds, None);

    let (code, description) = sacas::surface::get_climate(&snap);
    assert_eq!(code, "NORMAL");
    assert_eq!(description, "Normal network conditions");
}

#[test]
fn test_update_defense_command_shape_check() {
    let mut sm = StateManager::new("dev".to_string(), 100, 0);
    sm.update_entropy(100, 0);
    let bad = update_defense_command(&mut sm, &vec![1, 2], 10);
    assert!(!bad.success);
    assert_eq!(
        bad.error,
        Some("Defense array must have exactly 3 values".to_string())
    );
    let ok = update_defense_command(&mut sm, &vec![1, 2, 3], 10);
    assert!(ok.success);
    assert_eq!(ok.error, None);
    let refused = update_defense_command(&mut sm, &vec![4, 5, 6], 11);
    assert!(!refused.success);
    assert_eq!(
        refused.error,
        Some("Defense on cooldown for 2762 seconds".to_string())
    );
}

#[test]
fn test_simulate_battle_bands() {
    let low = simulate_battle(1, 2, 3);
    assert_eq!(low.l1_crush_probability, 750);
    assert_eq!(low.l2_intel_probability, 600);
    assert_eq!(low.l3_parasitize_probability, 450);
    assert_eq!(low.expected_roi, 3);
    assert_eq!(low.risk_level, "LOW");
    assert_eq!(simulate_battle(10000, 0, 0).risk_level, "MEDIUM");
    assert_eq!(simulate_battle(50000, 0, 0).risk_level, "HIGH");
}

#[test]
fn test_extract_karma() {
    let agent = MoltbookAgent {
        name: "agent".to_string(),
        description: None,
        karma: 4200,
        follower_count: None,
        following_count: None,
        is_claimed: false,
        is_active: true,
        created_at: None,
        last_active: None,
        owner: None,
    };
    let good = MoltbookProfileResponse { success: true, agent };
    assert_eq!(extract_karma(&good), Ok(4200));
    let bad = MoltbookProfileResponse { success: false, ..good };
    assert_eq!(extract_karma(&bad), Err(MoltbookError::NotSuccessful));
}

#[test]
fn test_profile_url_encodes_agent_name() {
    assert_eq!(
        build_profile_url("https://api.example.com", "Clawd Clawderberg"),
        "https://api.example.com/api/v1/agents/profile?name=Clawd%20Clawderberg"
    );
}

#[test]
fn test_auth_frame_exact_text() {
    assert_eq!(
        build_auth_frame("dev-1", 42, "nonce-1", "sig-1"),
        "{\"type\":\"AUTH\",\"device_id\":\"dev-1\",\"timestamp\":42,\"nonce\":\"nonce-1\",\"signature\":\"sig-1\"}"
    );
}

#[test]
fn test_battle_notifications() {
    let msg = ServerMessage::BattleResult {
        channel: "c".to_string(),
        data: BattleResultData {
            battle_id: "b1".to_string(),
            outcome: "PARASITIZED".to_string(),
            entropy_looted: "128".to_string(),
        },
    };
    let (title, body) = notification_for(&msg).unwrap();
    assert_eq!(title, "Battle Result");
    assert_eq!(body, "You parasitized and looted 128 entropy!");

    assert!(notification_for(&ServerMessage::Ping { timestamp: 1 }).is_none());
    assert!(notification_for(&ServerMessage::Unknown).is_none());
}

#[test]
fn test_attacked_notification_names_attacker_prefix() {
    let msg = ServerMessage::BattleAttacked {
        channel: "c".to_string(),
        data: sacas::websocket::BattleAttackedData {
            battle_id: "b2".to_string(),
            attacker_id: "abcdefgh-1234".to_string(),
            outcome: "REPELLED".to_string(),
            entropy_lost: "5".to_string(),
            parasitized: false,
        },
    };
    let (title, body) = notification_for(&msg).unwrap();
    assert_eq!(title, "Under Attack!");
    assert_eq!(body, "Attacker: abcdefgh\nLost: 5 entropy\nResult: REPELLED");
}
