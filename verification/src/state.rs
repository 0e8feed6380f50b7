//! The game-state store: every read and write of the shared state goes
//! through the named operations here, each of which is an atomic
//! transition described exactly by a spec function over the state's
//! model. Callers that run operations concurrently serialize them behind
//! an exclusion primitive of their choosing; the store itself owns the
//! state and hands out only deep, independent snapshots.

use vstd::prelude::*;
use vstd::string::StringExecFns;
use crate::arith::spec_inertia_seconds;
use crate::types::Climate;
use crate::types::DefenseArray;
use crate::types::GameState;
use crate::types::GameStateV;
use crate::types::Node;
use crate::types::Parasite;
use crate::types::ParasiteV;
use crate::types::Player;
use crate::types::PlayerV;
use crate::types::TopologyPosition;
use crate::types::KARMA_LIMIT;
use crate::types::spec_passive_income;
use crate::text::push_i64;
use crate::text::spec_dec_i64;

verus! {

/// A refused state mutation, returned to the caller, never a crash.
#[derive(Clone, Copy, Debug, PartialEq, Eq, Structural)]
pub enum StateError {
    /// Defense is still on cooldown; carries the remaining whole seconds.
    OnCooldown(i64),
    /// The requested allocation exceeds the entropy balance.
    InsufficientEntropy,
}

/// The error text shown to callers of the command surface.
pub open spec fn spec_error_message(e: StateError) -> Seq<char> {
    match e {
        StateError::OnCooldown(remaining) => "Defense on cooldown for "@ + spec_dec_i64(
            remaining as int,
        ) + " seconds"@,
        StateError::InsufficientEntropy => "Insufficient Entropy"@,
    }
}

impl StateError {
    /// Renders the error as its caller-facing message.
    pub fn message(&self) -> (r: String)
        ensures
            r@ == spec_error_message(*self),
    {
        match self {
            StateError::OnCooldown(remaining) => {
                let mut s = String::from_str("Defense on cooldown for ");
                push_i64(&mut s, *remaining);
                s.append(" seconds");
                proof {
                    assert(s@ =~= spec_error_message(*self));
                }
                s
            },
            StateError::InsufficientEntropy => String::from_str("Insufficient Entropy"),
        }
    }
}

/// Entropy after adding `delta`: clamped at zero from below, then, where
/// the result exceeds capacity, reduced by the decay
/// `(excess) / 50` — the integer form of two percent of the excess.
pub open spec fn spec_entropy_after(entropy: u64, capacity: u64, delta: i64) -> int {
    let applied = if entropy + delta < 0 {
        0int
    } else {
        entropy + delta
    };
    if applied > capacity {
        applied - (applied - capacity) / 50
    } else {
        applied
    }
}

/// The state after an entropy update.
pub open spec fn spec_apply_entropy(s: GameStateV, delta: i64, now: i64) -> GameStateV {
    GameStateV {
        player: PlayerV {
            entropy: spec_entropy_after(s.player.entropy, s.player.capacity, delta) as u64,
            last_update: now,
            ..s.player
        },
        ..s
    }
}

/// The outcome of a defense reconfiguration: refused while the cooldown
/// runs, refused when the allocation exceeds the balance, otherwise the
/// new allocation with a fresh cooldown scaled by the karma logarithm.
pub open spec fn spec_apply_defense(s: GameStateV, l1: u64, l2: u64, l3: u64, now: i64) -> Result<
    GameStateV,
    StateError,
> {
    if s.player.defense.cooldown_ends is Some && now < s.player.defense.cooldown_ends->0 {
        Err(StateError::OnCooldown((s.player.defense.cooldown_ends->0 - now) as i64))
    } else if l1 + l2 + l3 > s.player.entropy {
        Err(StateError::InsufficientEntropy)
    } else {
        Ok(
            GameStateV {
                player: PlayerV {
                    defense: DefenseArray {
                        l1,
                        l2,
                        l3,
                        last_update: now,
                        cooldown_ends: Some(
                            (now + spec_inertia_seconds(s.player.karma as nat)) as i64,
                        ),
                    },
                    ..s.player
                },
                ..s
            },
        )
    }
}

/// The state after a karma update: capacity is re-derived in the same
/// step, so the two are never out of sync.
pub open spec fn spec_apply_karma(s: GameStateV, karma: u64) -> GameStateV {
    GameStateV { player: PlayerV { karma, capacity: (karma * 100) as u64, ..s.player }, ..s }
}

/// The stored network quality: the probe's value clamped into the
/// admissible band of 0.100 to 1.500 (in thousandths).
pub open spec fn spec_clamp_quality(q: u64) -> u64 {
    if q < 100 {
        100u64
    } else if q > 1500 {
        1500u64
    } else {
        q
    }
}

/// For all starting balances and deltas, the updated entropy is
/// `max(0, E + D)`, reduced further by the decay exactly when that
/// result exceeds capacity; the decay is `(result - capacity) / 50`,
/// the integer form of two percent of the excess, and zero otherwise.
pub proof fn lemma_entropy_update_formula(entropy: u64, capacity: u64, delta: i64)
    ensures
        spec_entropy_after(entropy, capacity, delta) == {
            let applied = if entropy + delta >= 0 {
                entropy + delta
            } else {
                0int
            };
            let decay = if applied > capacity {
                (applied - capacity) / 50
            } else {
                0int
            };
            applied - decay
        },
{
}

/// A karma update re-derives the capacity in the same transition, so a
/// snapshot taken after it always shows `capacity == karma * 100`.
pub proof fn lemma_karma_capacity_in_sync(s: GameStateV, karma: u64)
    requires
        karma <= KARMA_LIMIT,
    ensures
        spec_apply_karma(s, karma).player.capacity == karma * 100,
        spec_apply_karma(s, karma).player.karma == karma,
{
}

/// While the cooldown instant lies in the future, a defense
/// reconfiguration always fails with the cooldown error, carrying the
/// remaining seconds, and the state is left exactly as it was.
pub proof fn lemma_defense_refused_on_cooldown(
    s: GameStateV,
    l1: u64,
    l2: u64,
    l3: u64,
    now: i64,
)
    requires
        s.player.defense.cooldown_ends is Some,
        now < s.player.defense.cooldown_ends->0,
    ensures
        spec_apply_defense(s, l1, l2, l3, now) == Err::<GameStateV, StateError>(
            StateError::OnCooldown((s.player.defense.cooldown_ends->0 - now) as i64),
        ),
{
}

/// A defense reconfiguration succeeds exactly when no cooldown is
/// running and the allocation total fits the entropy balance; on
/// success the new cooldown ends after the karma-scaled inertia.
pub proof fn lemma_defense_success_iff(s: GameStateV, l1: u64, l2: u64, l3: u64, now: i64)
    ensures
        spec_apply_defense(s, l1, l2, l3, now) is Ok <==> !(s.player.defense.cooldown_ends is Some
            && now < s.player.defense.cooldown_ends->0) && l1 + l2 + l3 <= s.player.entropy,
        spec_apply_defense(s, l1, l2, l3, now) is Ok
            ==> spec_apply_defense(s, l1, l2, l3, now)->Ok_0.player.defense.cooldown_ends == Some(
            (now + spec_inertia_seconds(s.player.karma as nat)) as i64,
        ),
{
}

/// The authoritative owner of one device's game state.
pub struct StateManager {
    pub state: GameState,
}

impl View for StateManager {
    type V = GameStateV;

    open spec fn view(&self) -> GameStateV {
        self.state@
    }
}

impl StateManager {
    /// The store's invariant, established at construction and preserved
    /// by every operation.
    pub open spec fn wf(&self) -> bool {
        self@.wf()
    }

    /// A fresh store: a new player with the given identity and karma,
    /// no visible nodes or parasites, and a neutral climate.
    pub fn new(player_id: String, karma: u64, now: i64) -> (r: StateManager)
        requires
            karma <= KARMA_LIMIT,
        ensures
            r.wf(),
            r@.player.id == player_id@,
            r@.player.karma == karma,
            r@.player.capacity == karma * 100,
            r@.player.entropy == 0,
            r@.player.defense == (DefenseArray {
                l1: 0,
                l2: 0,
                l3: 0,
                last_update: now,
                cooldown_ends: None::<i64>,
            }),
            r@.player.network_quality == 1000,
            r@.player.passive_income == 0,
            r@.player.position.latency_vector.len() == 0,
            r@.player.position.coords is None,
            r@.player.last_update == now,
            r@.visible_nodes.len() == 0,
            r@.parasites.len() == 0,
            r@.climate.code == "NORMAL"@,
            r@.climate.description == "Normal network conditions"@,
            r@.climate.modifiers == "{}"@,
            r@.climate.start_time == now,
    {
        let state = GameState {
            player: Player::new(player_id, karma, now),
            visible_nodes: Vec::new(),
            parasites: Vec::new(),
            climate: Climate {
                code: String::from_str("NORMAL"),
                description: String::from_str("Normal network conditions"),
                modifiers: String::from_str("{}"),
                start_time: now,
            },
        };
        StateManager { state }
    }

    /// Adds `delta` to the entropy balance, clamping at zero, then
    /// applies the over-capacity decay and stamps the update time.
    pub fn update_entropy(&mut self, delta: i64, now: i64)
        requires
            old(self).wf(),
            delta > i64::MIN,
            delta >= 0 ==> old(self)@.player.entropy + delta <= u64::MAX,
        ensures
            final(self)@ == spec_apply_entropy(old(self)@, delta, now),
            final(self).wf(),
    {
        if delta >= 0 {
            self.state.player.entropy = self.state.player.entropy + (delta as u64);
        } else {
            let mag: u64 = (-(delta as i128)) as u64;
            if mag > self.state.player.entropy {
                self.state.player.entropy = 0;
            } else {
                self.state.player.entropy = self.state.player.entropy - mag;
            }
        }
        if self.state.player.entropy > self.state.player.capacity {
            let excess = self.state.player.entropy - self.state.player.capacity;
            let decay = excess / 50;
            self.state.player.entropy = self.state.player.entropy - decay;
        }
        self.state.player.last_update = now;
        proof {
            assert(final(self)@ =~= spec_apply_entropy(old(self)@, delta, now));
        }
    }

    /// Reconfigures the defense allocation. Fails while the cooldown is
    /// in the future and when the allocation total exceeds the entropy
    /// balance; on success the new cooldown ends after the karma-scaled
    /// inertia. The state is untouched on failure.
    pub fn update_defense(&mut self, l1: u64, l2: u64, l3: u64, now: i64) -> (r: Result<
        (),
        StateError,
    >)
        requires
            old(self).wf(),
            l1 + l2 + l3 <= u64::MAX,
            0 <= now <= i64::MAX - 0x10000,
        ensures
            match r {
                Ok(()) => spec_apply_defense(old(self)@, l1, l2, l3, now) == Ok::<
                    GameStateV,
                    StateError,
                >(final(self)@),
                Err(e) => spec_apply_defense(old(self)@, l1, l2, l3, now) == Err::<
                    GameStateV,
                    StateError,
                >(e) && final(self)@ == old(self)@,
            },
            final(self).wf(),
    {
        if let Some(cooldown_ends) = self.state.player.defense.cooldown_ends {
            if now < cooldown_ends {
                let remaining = cooldown_ends - now;
                return Err(StateError::OnCooldown(remaining));
            }
        }
        let total = l1 + l2 + l3;
        if total > self.state.player.entropy {
            return Err(StateError::InsufficientEntropy);
        }
        let inertia = crate::arith::inertia_seconds(self.state.player.karma);
        self.state.player.defense = DefenseArray {
            l1,
            l2,
            l3,
            last_update: now,
            cooldown_ends: Some(now + (inertia as i64)),
        };
        proof {
            assert(spec_apply_defense(old(self)@, l1, l2, l3, now) == Ok::<GameStateV, StateError>(
                final(self)@,
            )) by {
                assert(spec_apply_defense(old(self)@, l1, l2, l3, now)->Ok_0 =~= final(self)@);
            }
        }
        Ok(())
    }

    /// Stores the probed network quality, clamped into its band.
    pub fn update_network_quality(&mut self, quality: u64)
        requires
            old(self).wf(),
        ensures
            final(self)@ == (GameStateV {
                player: PlayerV {
                    network_quality: spec_clamp_quality(quality),
                    ..old(self)@.player
                },
                ..old(self)@
            }),
            final(self).wf(),
    {
        let clamped = if quality < 100 {
            100
        } else if quality > 1500 {
            1500
        } else {
            quality
        };
        self.state.player.network_quality = clamped;
        proof {
            assert(final(self)@ =~= (GameStateV {
                player: PlayerV {
                    network_quality: spec_clamp_quality(quality),
                    ..old(self)@.player
                },
                ..old(self)@
            }));
        }
    }

    /// Overwrites karma and re-derives the capacity in the same step.
    pub fn update_karma(&mut self, new_karma: u64)
        requires
            old(self).wf(),
            new_karma <= KARMA_LIMIT,
        ensures
            final(self)@ == spec_apply_karma(old(self)@, new_karma),
            final(self)@.player.capacity == new_karma * 100,
            final(self).wf(),
    {
        self.state.player.karma = new_karma;
        self.state.player.capacity = new_karma * 100;
        proof {
            assert(final(self)@ =~= spec_apply_karma(old(self)@, new_karma));
        }
    }

    /// Appends a parasite and recomputes the whole passive income from
    /// scratch, so the derived sum can never drift.
    pub fn add_parasite(&mut self, parasite: Parasite)
        requires
            old(self).wf(),
        ensures
            final(self)@.parasites == old(self)@.parasites.push(parasite@),
            final(self)@.player.passive_income == spec_passive_income(final(self)@.parasites),
            final(self)@.player == (PlayerV {
                passive_income: final(self)@.player.passive_income,
                ..old(self)@.player
            }),
            final(self)@.visible_nodes == old(self)@.visible_nodes,
            final(self)@.climate == old(self)@.climate,
            final(self).wf(),
    {
        self.state.parasites.push(parasite);
        proof {
            assert(self.state.parasites@.map_values(|p: Parasite| p@) =~= old(
                self,
            )@.parasites.push(parasite@));
        }
        let ghost views = self.state.parasites@.map_values(|p: Parasite| p@);
        let mut total: u64 = 0;
        let mut i: usize = 0;
        proof {
            assert(views.take(0) =~= Seq::<ParasiteV>::empty());
        }
        while i < self.state.parasites.len()
            invariant
                i <= self.state.parasites@.len(),
                views == self.state.parasites@.map_values(|p: Parasite| p@),
                total == spec_passive_income(views.take(i as int)),
            decreases self.state.parasites@.len() - i,
        {
            let y = self.state.parasites[i].yield_per_tick;
            if total > u64::MAX - y {
                total = u64::MAX;
            } else {
                total = total + y;
            }
            proof {
                assert(views.take(i + 1).drop_last() =~= views.take(i as int));
                assert(views.take(i + 1).last() == views[i as int]);
            }
            i = i + 1;
        }
        proof {
            assert(views.take(views.len() as int) =~= views);
        }
        self.state.player.passive_income = total;
    }

    /// Replaces the set of visible nodes wholesale; last write wins.
    pub fn update_visible_nodes(&mut self, nodes: Vec<Node>)
        requires
            old(self).wf(),
        ensures
            final(self)@ == (GameStateV {
                visible_nodes: nodes@.map_values(|n: Node| n@),
                ..old(self)@
            }),
            final(self).wf(),
    {
        self.state.visible_nodes = nodes;
        proof {
            assert(final(self)@ =~= (GameStateV {
                visible_nodes: nodes@.map_values(|n: Node| n@),
                ..old(self)@
            }));
        }
    }

    /// Replaces the climate wholesale; last write wins.
    pub fn update_climate(&mut self, climate: Climate)
        requires
            old(self).wf(),
        ensures
            final(self)@ == (GameStateV { climate: climate@, ..old(self)@ }),
            final(self).wf(),
    {
        self.state.climate = climate;
        proof {
            assert(final(self)@ =~= (GameStateV { climate: climate@, ..old(self)@ }));
        }
    }

    /// A deep, independent copy of the whole state; the caller shares no
    /// memory with the store.
    pub fn get_snapshot(&self) -> (r: GameState)
        ensures
            r@ == self@,
    {
        let r = GameState {
            player: copy_player(&self.state.player),
            visible_nodes: copy_nodes(&self.state.visible_nodes),
            parasites: copy_parasites(&self.state.parasites),
            climate: copy_climate(&self.state.climate),
        };
        proof {
            assert(r@ =~= self@);
        }
        r
    }
}

pub(crate) fn copy_u64_vec(v: &Vec<u64>) -> (r: Vec<u64>)
    ensures
        r@ == v@,
{
    let mut r: Vec<u64> = Vec::new();
    let mut i: usize = 0;
    while i < v.len()
        invariant
            i <= v@.len(),
            r@ == v@.take(i as int),
        decreases v@.len() - i,
    {
        r.push(v[i]);
        proof {
            assert(v@.take(i as int).push(v@[i as int]) =~= v@.take(i + 1));
        }
        i = i + 1;
    }
    proof {
        assert(v@.take(v@.len() as int) =~= v@);
    }
    r
}

fn copy_player(p: &Player) -> (r: Player)
    ensures
        r@ == p@,
{
    let r = Player {
        id: p.id.clone(),
        karma: p.karma,
        entropy: p.entropy,
        capacity: p.capacity,
        defense: p.defense,
        position: TopologyPosition {
            latency_vector: copy_u64_vec(&p.position.latency_vector),
            coords: p.position.coords,
        },
        network_quality: p.network_quality,
        passive_income: p.passive_income,
        last_update: p.last_update,
    };
    proof {
        assert(r@ =~= p@);
    }
    r
}

fn copy_nodes(v: &Vec<Node>) -> (r: Vec<Node>)
    ensures
        r@.map_values(|n: Node| n@) == v@.map_values(|n: Node| n@),
{
    let mut r: Vec<Node> = Vec::new();
    let mut i: usize = 0;
    while i < v.len()
        invariant
            i <= v@.len(),
            r@.len() == i,
            forall|j: int| 0 <= j < i ==> r@[j]@ == v@[j]@,
        decreases v@.len() - i,
    {
        let n = &v[i];
        let copy = Node {
            id: n.id.clone(),
            karma: n.karma,
            distance: n.distance,
            noise: n.noise,
            estimated_defense: n.estimated_defense,
        };
        proof {
            assert(copy@ =~= v@[i as int]@);
        }
        r.push(copy);
        i = i + 1;
    }
    proof {
        assert(r@.map_values(|n: Node| n@) =~= v@.map_values(|n: Node| n@));
    }
    r
}

fn copy_parasites(v: &Vec<Parasite>) -> (r: Vec<Parasite>)
    ensures
        r@.map_values(|p: Parasite| p@) == v@.map_values(|p: Parasite| p@),
{
    let mut r: Vec<Parasite> = Vec::new();
    let mut i: usize = 0;
    while i < v.len()
        invariant
            i <= v@.len(),
            r@.len() == i,
            forall|j: int| 0 <= j < i ==> r@[j]@ == v@[j]@,
        decreases v@.len() - i,
    {
        let p = &v[i];
        let copy = Parasite {
            node_id: p.node_id.clone(),
            tax_rate: p.tax_rate,
            yield_per_tick: p.yield_per_tick,
            total_collected: p.total_collected,
            established_at: p.established_at,
        };
        proof {
            assert(copy@ =~= v@[i as int]@);
        }
        r.push(copy);
        i = i + 1;
    }
    proof {
        assert(r@.map_values(|p: Parasite| p@) =~= v@.map_values(|p: Parasite| p@));
    }
    r
}

fn copy_climate(c: &Climate) -> (r: Climate)
    ensures
        r@ == c@,
{
    let r = Climate {
        code: c.code.clone(),
        description: c.description.clone(),
        modifiers: c.modifiers.clone(),
        start_time: c.start_time,
    };
    proof {
        assert(r@ =~= c@);
    }
    r
}

} // verus!
