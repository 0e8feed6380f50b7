//! The in-memory model of one device's state in the simulation. Instants
//! are Unix timestamps in whole seconds; quantities that the wire carries
//! as decimal fractions (network quality, rates, distances) are held as
//! integers in thousandths, so every formula is exact integer arithmetic.

use vstd::prelude::*;
use crate::arith::spec_isqrt;
use crate::arith::spec_inertia_seconds;
use crate::arith::isqrt_u128;
use crate::arith::inertia_seconds;

verus! {

/// Largest admissible reputation: the capacity `karma * 100` must fit
/// in 64 bits.
pub const KARMA_LIMIT: u64 = 184467440737095516;

/// A three-tier defense allocation with its reconfiguration cooldown.
#[derive(Clone, Copy, Debug)]
pub struct DefenseArray {
    pub l1: u64,
    pub l2: u64,
    pub l3: u64,
    pub last_update: i64,
    pub cooldown_ends: Option<i64>,
}

/// Where the device sits in network topology: one latency sample per
/// anchor, in milliseconds, and an optional projected 2-D position in
/// thousandths of a unit.
#[derive(Clone, Debug)]
pub struct TopologyPosition {
    pub latency_vector: Vec<u64>,
    pub coords: Option<(i64, i64)>,
}

#[verifier::ext_equal]
pub ghost struct TopologyPositionV {
    pub latency_vector: Seq<u64>,
    pub coords: Option<(i64, i64)>,
}

impl View for TopologyPosition {
    type V = TopologyPositionV;

    open spec fn view(&self) -> TopologyPositionV {
        TopologyPositionV { latency_vector: self.latency_vector@, coords: self.coords }
    }
}

/// A visible target in the simulation; distance and noise in thousandths.
#[derive(Clone, Debug)]
pub struct Node {
    pub id: String,
    pub karma: u64,
    pub distance: u64,
    pub noise: u64,
    pub estimated_defense: Option<DefenseArray>,
}

#[verifier::ext_equal]
pub ghost struct NodeV {
    pub id: Seq<char>,
    pub karma: u64,
    pub distance: u64,
    pub noise: u64,
    pub estimated_defense: Option<DefenseArray>,
}

impl View for Node {
    type V = NodeV;

    open spec fn view(&self) -> NodeV {
        NodeV {
            id: self.id@,
            karma: self.karma,
            distance: self.distance,
            noise: self.noise,
            estimated_defense: self.estimated_defense,
        }
    }
}

/// A passive-income source attached after a successful attack; the tax
/// rate is in thousandths, the yield in thousandths of entropy per second.
#[derive(Clone, Debug)]
pub struct Parasite {
    pub node_id: String,
    pub tax_rate: u64,
    pub yield_per_tick: u64,
    pub total_collected: u64,
    pub established_at: i64,
}

#[verifier::ext_equal]
pub ghost struct ParasiteV {
    pub node_id: Seq<char>,
    pub tax_rate: u64,
    pub yield_per_tick: u64,
    pub total_collected: u64,
    pub established_at: i64,
}

impl View for Parasite {
    type V = ParasiteV;

    open spec fn view(&self) -> ParasiteV {
        ParasiteV {
            node_id: self.node_id@,
            tax_rate: self.tax_rate,
            yield_per_tick: self.yield_per_tick,
            total_collected: self.total_collected,
            established_at: self.established_at,
        }
    }
}

/// The global modifier context, replaced wholesale on refresh; the
/// modifiers are carried as opaque JSON text.
#[derive(Clone, Debug)]
pub struct Climate {
    pub code: String,
    pub description: String,
    pub modifiers: String,
    pub start_time: i64,
}

#[verifier::ext_equal]
pub ghost struct ClimateV {
    pub code: Seq<char>,
    pub description: Seq<char>,
    pub modifiers: Seq<char>,
    pub start_time: i64,
}

impl View for Climate {
    type V = ClimateV;

    open spec fn view(&self) -> ClimateV {
        ClimateV {
            code: self.code@,
            description: self.description@,
            modifiers: self.modifiers@,
            start_time: self.start_time,
        }
    }
}

/// One device's player record. Network quality is a bounded multiplier
/// in thousandths (a stored value is between 100 and 1500); passive
/// income is in thousandths of entropy per second.
#[derive(Clone, Debug)]
pub struct Player {
    pub id: String,
    pub karma: u64,
    pub entropy: u64,
    pub capacity: u64,
    pub defense: DefenseArray,
    pub position: TopologyPosition,
    pub network_quality: u64,
    pub passive_income: u64,
    pub last_update: i64,
}

#[verifier::ext_equal]
pub ghost struct PlayerV {
    pub id: Seq<char>,
    pub karma: u64,
    pub entropy: u64,
    pub capacity: u64,
    pub defense: DefenseArray,
    pub position: TopologyPositionV,
    pub network_quality: u64,
    pub passive_income: u64,
    pub last_update: i64,
}

impl View for Player {
    type V = PlayerV;

    open spec fn view(&self) -> PlayerV {
        PlayerV {
            id: self.id@,
            karma: self.karma,
            entropy: self.entropy,
            capacity: self.capacity,
            defense: self.defense,
            position: self.position@,
            network_quality: self.network_quality,
            passive_income: self.passive_income,
            last_update: self.last_update,
        }
    }
}

/// The whole game state: the unit of snapshotting.
#[derive(Clone, Debug)]
pub struct GameState {
    pub player: Player,
    pub visible_nodes: Vec<Node>,
    pub parasites: Vec<Parasite>,
    pub climate: Climate,
}

#[verifier::ext_equal]
pub ghost struct GameStateV {
    pub player: PlayerV,
    pub visible_nodes: Seq<NodeV>,
    pub parasites: Seq<ParasiteV>,
    pub climate: ClimateV,
}

impl View for GameState {
    type V = GameStateV;

    open spec fn view(&self) -> GameStateV {
        GameStateV {
            player: self.player@,
            visible_nodes: self.visible_nodes@.map_values(|n: Node| n@),
            parasites: self.parasites@.map_values(|p: Parasite| p@),
            climate: self.climate@,
        }
    }
}

/// A timestamped vector of latency samples together with its hash-based
/// attestation signature.
#[derive(Clone, Debug)]
pub struct LatencyVector {
    pub timestamp: i64,
    pub data: Vec<u64>,
    pub signature: String,
}

/// The projected outcome of an attack before it is executed;
/// probabilities in thousandths.
#[derive(Clone, Debug)]
pub struct BattleSimulation {
    pub l1_crush_probability: u64,
    pub l2_intel_probability: u64,
    pub l3_parasitize_probability: u64,
    pub expected_roi: i64,
    pub risk_level: String,
}

/// The resolved outcome of an attack; the passive yield in thousandths
/// of entropy per second.
#[derive(Clone, Debug)]
pub struct BattleResult {
    pub session_id: String,
    pub l1_crushed: bool,
    pub l2_intel_success: bool,
    pub l2_revealed_d3: Option<u64>,
    pub l3_parasitized: bool,
    pub stolen_entropy: u64,
    pub passive_yield: u64,
}

/// Saturating 64-bit addition, the accumulation used for derived sums.
pub open spec fn spec_sat_add(a: nat, b: nat) -> u64 {
    if a + b > u64::MAX {
        u64::MAX as u64
    } else {
        (a + b) as u64
    }
}

/// The derived passive income: the sum of all parasites' yields,
/// saturating at the 64-bit limit.
pub open spec fn spec_passive_income(parasites: Seq<ParasiteV>) -> u64
    decreases parasites.len(),
{
    if parasites.len() == 0 {
        0
    } else {
        spec_sat_add(
            spec_passive_income(parasites.drop_last()) as nat,
            parasites.last().yield_per_tick as nat,
        )
    }
}

/// The mining yield per tick: the square root of karma, scaled by the
/// quality multiplier (thousandths) and halved, all truncated; computed
/// exactly as `isqrt(karma * quality^2) / 2000`.
pub open spec fn spec_yield(karma: nat, quality: nat) -> nat {
    spec_isqrt(karma * quality * quality) / 2000
}

impl PlayerV {
    /// A player's record is well-formed when its capacity is derived
    /// from karma and the quality multiplier is within its band.
    pub open spec fn wf(&self) -> bool {
        &&& self.karma <= KARMA_LIMIT
        &&& self.capacity == self.karma * 100
        &&& 100 <= self.network_quality <= 1500
    }
}

impl GameStateV {
    /// The whole state is well-formed when the player record is and the
    /// derived passive income matches the parasite set.
    pub open spec fn wf(&self) -> bool {
        &&& self.player.wf()
        &&& self.player.passive_income == spec_passive_income(self.parasites)
    }
}

impl Player {
    /// A player's record is well-formed when its capacity is derived
    /// from karma and the quality multiplier is within its band.
    pub open spec fn wf(&self) -> bool {
        self@.wf()
    }

    /// A fresh player: zero entropy and defense, capacity derived from
    /// karma, neutral network quality, no cooldown.
    pub fn new(id: String, karma: u64, now: i64) -> (r: Player)
        requires
            karma <= KARMA_LIMIT,
        ensures
            r.wf(),
            r.id@ == id@,
            r.karma == karma,
            r.entropy == 0,
            r.capacity == karma * 100,
            r.defense == (DefenseArray {
                l1: 0,
                l2: 0,
                l3: 0,
                last_update: now,
                cooldown_ends: None::<i64>,
            }),
            r.position@.latency_vector.len() == 0,
            r.position@.coords is None,
            r.network_quality == 1000,
            r.passive_income == 0,
            r.last_update == now,
    {
        let capacity = karma * 100;
        Player {
            id,
            karma,
            entropy: 0,
            capacity,
            defense: DefenseArray { l1: 0, l2: 0, l3: 0, last_update: now, cooldown_ends: None },
            position: TopologyPosition { latency_vector: Vec::new(), coords: None },
            network_quality: 1000,
            passive_income: 0,
            last_update: now,
        }
    }

    /// The base mining yield for this player's karma and network quality.
    pub fn calculate_yield(&self) -> (r: u64)
        requires
            self.wf(),
        ensures
            r == spec_yield(self.karma as nat, self.network_quality as nat),
    {
        let q = self.network_quality as u128;
        proof {
            assert((self.karma as int) * (q as int) <= 0xffff_ffff_ffff_ffff * 1500)
                by (nonlinear_arith)
                requires
                    self.karma <= 0xffff_ffff_ffff_ffff,
                    q <= 1500,
            ;
            assert((self.karma as int) * (q as int) * (q as int) <= 0xffff_ffff_ffff_ffff * 1500
                * 1500) by (nonlinear_arith)
                requires
                    self.karma <= 0xffff_ffff_ffff_ffff,
                    q <= 1500,
            ;
        }
        let n: u128 = (self.karma as u128) * q * q;
        let root = isqrt_u128(n);
        proof {
            crate::arith::lemma_isqrt_bounds(n as nat);
            assert(spec_isqrt(n as nat) * spec_isqrt(n as nat) <= n);
            assert(spec_isqrt(n as nat) < 0x1_0000_0000_0000 * 2000) by (nonlinear_arith)
                requires
                    spec_isqrt(n as nat) * spec_isqrt(n as nat) <= n,
                    n <= 0xffff_ffff_ffff_ffff * 1500 * 1500,
            ;
        }
        (root / 2000) as u64
    }

    /// The defense-reconfiguration inertia for this player's karma.
    pub fn calculate_inertia_seconds(&self) -> (r: u64)
        ensures
            r == spec_inertia_seconds(self.karma as nat),
            r < 0x10000,
    {
        inertia_seconds(self.karma)
    }
}

} // verus!
