use sacas::state::{StateError, StateManager};
use sacas::types::Parasite;

#[test]
fn test_registration_struct() {
    let reg = sacas::device::DeviceRegistration {
        device_id: "test-id".to_string(),
        display_name: "test-device".to_string(),
    };

    assert_eq!(reg.device_id, "test-id");
    assert_eq!(reg.display_name, "test-device");
}

#[test]
fn test_entropy_decay_over_capacity() {
    // karma 100 -> capacity 10000; 9000 + 2000 = 11000, excess 1000,
    // decay 20, final 10980.
    let mut sm = StateManager::new("dev".to_string(), 100, 0);
    sm.update_entropy(9000, 0);
    assert_eq!(sm.get_snapshot().player.entropy, 9000);
    sm.update_entropy(2000, 5);
    let snap = sm.get_snapshot();
    assert_eq!(snap.player.capacity, 10000);
    assert_eq!(snap.player.entropy, 10980);
    assert_eq!(snap.player.last_update, 5);
}

#[test]
fn test_entropy_clamps_at_zero() {
    let mut sm = StateManager::new("dev".to_string(), 100, 0);
    sm.update_entropy(5, 0);
    sm.update_entropy(-10, 1);
    assert_eq!(sm.get_snapshot().player.entropy, 0);
}

#[test]
fn test_karma_and_capacity_in_sync() {
    let mut sm = StateManager::new("dev".to_string(), 100, 0);
    sm.update_karma(7);
    let snap = sm.get_snapshot();
    assert_eq!(snap.player.karma, 7);
    assert_eq!(snap.player.capacity, 700);
}

#[test]
fn test_defense_refused_on_cooldown() {
    let mut sm = StateManager::new("dev".to_string(), 100, 0);
    sm.update_entropy(1000, 0);
    assert!(sm.update_defense(1, 2, 3, 1000).is_ok());
    // inertia for karma 100 is 2763 seconds, so the cooldown runs
    // until 3763; a reconfiguration at 2000 is refused.
    let err = sm.update_defense(4, 5, 6, 2000).unwrap_err();
    assert_eq!(err, StateError::OnCooldown(1763));
    assert_eq!(err.message(), "Defense on cooldown for 1763 seconds");
    let snap = sm.get_snapshot();
    assert_eq!(snap.player.defense.l1, 1);
    assert_eq!(snap.player.defense.l2, 2);
    assert_eq!(snap.player.defense.l3, 3);
}

#[test]
fn test_defense_insufficient_entropy() {
    let mut sm = StateManager::new("dev".to_string(), 100, 0);
    sm.update_entropy(5, 0);
    let err = sm.update_defense(2, 2, 2, 10).unwrap_err();
    assert_eq!(err, StateError::InsufficientEntropy);
    assert_eq!(err.message(), "Insufficient Entropy");
}

#[test]
fn test_defense_cooldown_ends_after_inertia() {
    let mut sm = StateManager::new("dev".to_string(), 100, 0);
    sm.update_entropy(1000, 0);
    assert!(sm.update_defense(1, 2, 3, 1000).is_ok());
    let snap = sm.get_snapshot();
    assert_eq!(snap.player.defense.cooldown_ends, Some(1000 + 2763));
}

#[test]
fn test_no_cooldown_at_karma_one() {
    // ln(1) = 0, so defense reconfiguration has effectively no cooldown.
    assert_eq!(sacas::arith::inertia_seconds(1), 0);
    let mut sm = StateManager::new("dev".to_string(), 1, 0);
    sm.update_entropy(10, 0);
    assert!(sm.update_defense(1, 1, 1, 100).is_ok());
    assert_eq!(sm.get_snapshot().player.defense.cooldown_ends, Some(100));
    // The cooldown instant equals "now", which is not in the future.
    assert!(sm.update_defense(2, 2, 2, 100).is_ok());
}

#[test]
fn test_inertia_values() {
    assert_eq!(sacas::arith::inertia_seconds(2), 415);
    assert_eq!(sacas::arith::inertia_seconds(100), 2763);
    assert_eq!(sacas::arith::inertia_seconds(1000), 4144);
}

#[test]
fn test_network_quality_clamped() {
    let mut sm = StateManager::new("dev".to_string(), 100, 0);
    sm.update_network_quality(50);
    assert_eq!(sm.get_snapshot().player.network_quality, 100);
    sm.update_network_quality(2000);
    assert_eq!(sm.get_snapshot().player.network_quality, 1500);
    sm.update_network_quality(950);
    assert_eq!(sm.get_snapshot().player.network_quality, 950);
}

#[test]
fn test_add_parasite_recomputes_passive_income() {
    let mut sm = StateManager::new("dev".to_string(), 100, 0);
    sm.add_parasite(Parasite {
        node_id: "a".to_string(),
        tax_rate: 100,
        yield_per_tick: 1500,
        total_collected: 0,
        established_at: 0,
    });
    sm.add_parasite(Parasite {
        node_id: "b".to_string(),
        tax_rate: 50,
        yield_per_tick: 1000,
        total_collected: 3,
        established_at: 1,
    });
    let snap = sm.get_snapshot();
    assert_eq!(snap.parasites.len(), 2);
    assert_eq!(snap.player.passive_income, 2500);
}

#[test]
fn test_mining_tick_income() {
    // karma 100, quality 1.000 -> base yield 5; passive 2.5/s over a
    // 4 second tick adds 10.
    let mut sm = StateManager::new("dev".to_string(), 100, 0);
    sm.add_parasite(Parasite {
        node_id: "a".to_string(),
        tax_rate: 100,
        yield_per_tick: 2500,
        total_collected: 0,
        established_at: 0,
    });
    let income = sacas::mining::mining_tick_income(&sm.get_snapshot(), 4);
    assert_eq!(income, 15);
    sm.apply_mining_tick(4, 9);
    let snap = sm.get_snapshot();
    assert_eq!(snap.player.entropy, 15);
    assert_eq!(snap.player.last_update, 9);
}

#[test]
fn test_yield_formula() {
    let p = sacas::types::Player::new("dev".to_string(), 100, 0);
    assert_eq!(p.calculate_yield(), 5);
    let mut p2 = sacas::types::Player::new("dev".to_string(), 2, 0);
    p2.network_quality = 1500;
    // floor(sqrt(2) * 1.5 * 0.5) = floor(1.0606..) = 1
    assert_eq!(p2.calculate_yield(), 1);
}

#[test]
fn test_snapshot_is_independent() {
    let mut sm = StateManager::new("dev".to_string(), 100, 0);
    sm.update_entropy(42, 0);
    let snap = sm.get_snapshot();
    sm.update_entropy(8, 1);
    assert_eq!(snap.player.entropy, 42);
    assert_eq!(sm.get_snapshot().player.entropy, 50);
}
