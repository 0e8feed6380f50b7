//! The status and command surface: each read projects one snapshot of
//! the store into a response, and the one externally triggered mutation
//! (defense reconfiguration) validates its input shape before it
//! delegates to the store and maps the refusal into a response rather
//! than a fault. The transport serving these is the caller's business.

use vstd::prelude::*;
use vstd::string::StringExecFns;
use crate::state::spec_apply_defense;
use crate::state::spec_error_message;
use crate::state::StateManager;
use crate::types::DefenseArray;
use crate::types::GameState;
use crate::types::spec_yield;

verus! {

/// A defense allocation with the cooldown still to run, if any.
#[derive(Clone, Copy, Debug)]
pub struct DefenseView {
    pub l1: u64,
    pub l2: u64,
    pub l3: u64,
    pub cooldown_seconds: Option<i64>,
}

/// One point-in-time projection of the whole player state.
#[derive(Clone, Debug)]
pub struct StatusReport {
    pub player_id: String,
    pub karma: u64,
    pub entropy: u64,
    pub capacity: u64,
    pub yield_per_tick: u64,
    pub defense: DefenseView,
    pub latency_vector: Vec<u64>,
    pub coords: Option<(i64, i64)>,
    pub network_quality: u64,
    pub parasite_count: usize,
    pub passive_income: u64,
    pub climate_code: String,
    pub climate_description: String,
}

/// The cooldown seconds still to run at `now`: present exactly while
/// the cooldown instant lies in the future.
pub open spec fn spec_cooldown_remaining(d: DefenseArray, now: i64) -> Option<i64> {
    if d.cooldown_ends is Some && d.cooldown_ends->0 > now {
        Some((d.cooldown_ends->0 - now) as i64)
    } else {
        None
    }
}

/// Projects a snapshot into the status response.
pub fn get_status(snapshot: &GameState, now: i64) -> (r: StatusReport)
    requires
        snapshot@.player.wf(),
        now >= 0,
    ensures
        r.player_id@ == snapshot@.player.id,
        r.karma == snapshot@.player.karma,
        r.entropy == snapshot@.player.entropy,
        r.capacity == snapshot@.player.capacity,
        r.yield_per_tick == spec_yield(
            snapshot@.player.karma as nat,
            snapshot@.player.network_quality as nat,
        ),
        r.defense.l1 == snapshot@.player.defense.l1,
        r.defense.l2 == snapshot@.player.defense.l2,
        r.defense.l3 == snapshot@.player.defense.l3,
        r.defense.cooldown_seconds == spec_cooldown_remaining(snapshot@.player.defense, now),
        r.latency_vector@ == snapshot@.player.position.latency_vector,
        r.coords == snapshot@.player.position.coords,
        r.network_quality == snapshot@.player.network_quality,
        r.parasite_count == snapshot@.parasites.len(),
        r.passive_income == snapshot@.player.passive_income,
        r.climate_code@ == snapshot@.climate.code,
        r.climate_description@ == snapshot@.climate.description,
{
    let cooldown_seconds: Option<i64> = match snapshot.player.defense.cooldown_ends {
        Some(ends) => if ends > now {
            Some(ends - now)
        } else {
            None
        },
        None => None,
    };
    StatusReport {
        player_id: snapshot.player.id.clone(),
        karma: snapshot.player.karma,
        entropy: snapshot.player.entropy,
        capacity: snapshot.player.capacity,
        yield_per_tick: snapshot.player.calculate_yield(),
        defense: DefenseView {
            l1: snapshot.player.defense.l1,
            l2: snapshot.player.defense.l2,
            l3: snapshot.player.defense.l3,
            cooldown_seconds,
        },
        latency_vector: crate::state::copy_u64_vec(&snapshot.player.position.latency_vector),
        coords: snapshot.player.position.coords,
        network_quality: snapshot.player.network_quality,
        parasite_count: snapshot.parasites.len(),
        passive_income: snapshot.player.passive_income,
        climate_code: snapshot.climate.code.clone(),
        climate_description: snapshot.climate.description.clone(),
    }
}

/// The command surface's answer to a defense reconfiguration.
#[derive(Clone, Debug)]
pub struct UpdateDefenseResponse {
    pub success: bool,
    pub error: Option<String>,
}

/// The refusal for a request that does not carry exactly three values.
pub open spec fn spec_shape_error() -> Seq<char> {
    "Defense array must have exactly 3 values"@
}

/// Validates the requested allocation's shape, delegates to the store,
/// and maps the outcome into a response. The state is untouched unless
/// the store accepts the reconfiguration.
pub fn update_defense_command(state: &mut StateManager, values: &Vec<u64>, now: i64) -> (r:
    UpdateDefenseResponse)
    requires
        old(state).wf(),
        values@.len() == 3 ==> values@[0] + values@[1] + values@[2] <= u64::MAX,
        0 <= now <= i64::MAX - 0x10000,
    ensures
        final(state).wf(),
        values@.len() != 3 ==> !r.success && r.error is Some && r.error->0@ == spec_shape_error()
            && final(state)@ == old(state)@,
        values@.len() == 3 ==> match spec_apply_defense(
            old(state)@,
            values@[0],
            values@[1],
            values@[2],
            now,
        ) {
            Ok(s2) => r.success && r.error is None && final(state)@ == s2,
            Err(e) => !r.success && r.error is Some && r.error->0@ == spec_error_message(e)
                && final(state)@ == old(state)@,
        },
{
    if values.len() != 3 {
        return UpdateDefenseResponse {
            success: false,
            error: Some(String::from_str("Defense array must have exactly 3 values")),
        };
    }
    match state.update_defense(values[0], values[1], values[2], now) {
        Ok(()) => UpdateDefenseResponse { success: true, error: None },
        Err(e) => UpdateDefenseResponse { success: false, error: Some(e.message()) },
    }
}

/// One parasite as the surface reports it.
#[derive(Clone, Debug)]
pub struct ParasiteReport {
    pub node_id: String,
    pub tax_rate: u64,
    pub yield_per_tick: u64,
    pub total_collected: u64,
}

/// Projects the parasite set into its report list.
pub fn get_parasites(snapshot: &GameState) -> (r: Vec<ParasiteReport>)
    ensures
        r@.len() == snapshot@.parasites.len(),
        forall|i: int|
            0 <= i < r@.len() ==> {
                &&& (#[trigger] r@[i]).node_id@ == snapshot@.parasites[i].node_id
                &&& r@[i].tax_rate == snapshot@.parasites[i].tax_rate
                &&& r@[i].yield_per_tick == snapshot@.parasites[i].yield_per_tick
                &&& r@[i].total_collected == snapshot@.parasites[i].total_collected
            },
{
    let mut r: Vec<ParasiteReport> = Vec::new();
    let mut i: usize = 0;
    while i < snapshot.parasites.len()
        invariant
            i <= snapshot.parasites@.len(),
            r@.len() == i,
            forall|j: int|
                0 <= j < i ==> {
                    &&& (#[trigger] r@[j]).node_id@ == snapshot@.parasites[j].node_id
                    &&& r@[j].tax_rate == snapshot@.parasites[j].tax_rate
                    &&& r@[j].yield_per_tick == snapshot@.parasites[j].yield_per_tick
                    &&& r@[j].total_collected == snapshot@.parasites[j].total_collected
                },
        decreases snapshot.parasites@.len() - i,
    {
        let p = &snapshot.parasites[i];
        r.push(
            ParasiteReport {
                node_id: p.node_id.clone(),
                tax_rate: p.tax_rate,
                yield_per_tick: p.yield_per_tick,
                total_collected: p.total_collected,
            },
        );
        i = i + 1;
    }
    r
}

/// One visible node as the scan surface reports it; an estimated
/// defense never carries a cooldown.
#[derive(Clone, Debug)]
pub struct NodeReport {
    pub id: String,
    pub karma: u64,
    pub distance: u64,
    pub noise: u64,
    pub estimated_defense: Option<DefenseView>,
}

/// Projects the visible nodes into their report list.
pub fn scan_network(snapshot: &GameState) -> (r: Vec<NodeReport>)
    ensures
        r@.len() == snapshot@.visible_nodes.len(),
        forall|i: int|
            0 <= i < r@.len() ==> {
                &&& (#[trigger] r@[i]).id@ == snapshot@.visible_nodes[i].id
                &&& r@[i].karma == snapshot@.visible_nodes[i].karma
                &&& r@[i].distance == snapshot@.visible_nodes[i].distance
                &&& r@[i].noise == snapshot@.visible_nodes[i].noise
                &&& (r@[i].estimated_defense is Some <==> snapshot@.visible_nodes[i].estimated_defense is Some)
                &&& (r@[i].estimated_defense is Some
                    ==> r@[i].estimated_defense->0.l1 == snapshot@.visible_nodes[i].estimated_defense->0.l1
                    && r@[i].estimated_defense->0.l2 == snapshot@.visible_nodes[i].estimated_defense->0.l2
                    && r@[i].estimated_defense->0.l3 == snapshot@.visible_nodes[i].estimated_defense->0.l3
                    && r@[i].estimated_defense->0.cooldown_seconds is None)
            },
{
    let mut r: Vec<NodeReport> = Vec::new();
    let mut i: usize = 0;
    while i < snapshot.visible_nodes.len()
        invariant
            i <= snapshot.visible_nodes@.len(),
            r@.len() == i,
            forall|j: int|
                0 <= j < i ==> {
                    &&& (#[trigger] r@[j]).id@ == snapshot@.visible_nodes[j].id
                    &&& r@[j].karma == snapshot@.visible_nodes[j].karma
                    &&& r@[j].distance == snapshot@.visible_nodes[j].distance
                    &&& r@[j].noise == snapshot@.visible_nodes[j].noise
                    &&& (r@[j].estimated_defense is Some <==> snapshot@.visible_nodes[j].estimated_defense is Some)
                    &&& (r@[j].estimated_defense is Some
                        ==> r@[j].estimated_defense->0.l1 == snapshot@.visible_nodes[j].estimated_defense->0.l1
                        && r@[j].estimated_defense->0.l2 == snapshot@.visible_nodes[j].estimated_defense->0.l2
                        && r@[j].estimated_defense->0.l3 == snapshot@.visible_nodes[j].estimated_defense->0.l3
                        && r@[j].estimated_defense->0.cooldown_seconds is None)
                },
        decreases snapshot.visible_nodes@.len() - i,
    {
        let n = &snapshot.visible_nodes[i];
        let estimated_defense: Option<DefenseView> = match &n.estimated_defense {
            Some(d) => Some(
                DefenseView { l1: d.l1, l2: d.l2, l3: d.l3, cooldown_seconds: None },
            ),
            None => None,
        };
        r.push(
            NodeReport {
                id: n.id.clone(),
                karma: n.karma,
                distance: n.distance,
                noise: n.noise,
                estimated_defense,
            },
        );
        i = i + 1;
    }
    r
}

/// The climate as the surface reports it: its code and description.
pub fn get_climate(snapshot: &GameState) -> (r: (String, String))
    ensures
        r.0@ == snapshot@.climate.code,
        r.1@ == snapshot@.climate.description,
{
    (snapshot.climate.code.clone(), snapshot.climate.description.clone())
}

/// The surface's battle projection; probabilities in thousandths.
#[derive(Clone, Debug)]
pub struct BattleProjection {
    pub l1_crush_probability: u64,
    pub l2_intel_probability: u64,
    pub l3_parasitize_probability: u64,
    pub expected_roi: i64,
    pub risk_level: String,
}

/// The risk label an attack total falls under.
pub open spec fn spec_risk_level(total: int) -> Seq<char> {
    if total < 10000 {
        "LOW"@
    } else if total < 50000 {
        "MEDIUM"@
    } else {
        "HIGH"@
    }
}

/// Projects an attack allocation into the fixed-odds battle estimate:
/// fixed layer probabilities, half the total as the expected return,
/// and the risk band of the total.
pub fn simulate_battle(attack_l1: u64, attack_l2: u64, attack_l3: u64) -> (r: BattleProjection)
    requires
        attack_l1 + attack_l2 + attack_l3 <= u64::MAX,
    ensures
        r.l1_crush_probability == 750,
        r.l2_intel_probability == 600,
        r.l3_parasitize_probability == 450,
        r.expected_roi == (attack_l1 + attack_l2 + attack_l3) as u64 / 2,
        r.risk_level@ == spec_risk_level(attack_l1 + attack_l2 + attack_l3),
{
    let total = attack_l1 + attack_l2 + attack_l3;
    let risk_level = if total < 10000 {
        String::from_str("LOW")
    } else if total < 50000 {
        String::from_str("MEDIUM")
    } else {
        String::from_str("HIGH")
    };
    BattleProjection {
        l1_crush_probability: 750,
        l2_intel_probability: 600,
        l3_parasitize_probability: 450,
        expected_roi: (total / 2) as i64,
        risk_level,
    }
}

} // verus!
