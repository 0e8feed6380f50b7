//! Combat requests and answers: the defense configuration and attack
//! bodies exactly as they are signed and sent, and the answer shapes
//! the server replies with. Rates and probabilities travel in
//! thousandths; the HTTP calls themselves are the caller's business.

use vstd::prelude::*;
use vstd::string::StringExecFns;
use crate::text::push_u64;
use crate::text::spec_dec_u64;
use crate::text::spec_json_plain;

verus! {

/// A requested three-tier defense allocation.
#[derive(Clone, Copy, Debug)]
pub struct DefenseConfig {
    pub l1: u64,
    pub l2: u64,
    pub l3: u64,
}

/// The cooldown the server reports on the defense.
#[derive(Clone, Debug)]
pub struct CooldownInfo {
    pub active: bool,
    pub ends_at: Option<String>,
    pub remaining_seconds: u64,
}

/// The server's view of the current defense.
#[derive(Clone, Debug)]
pub struct DefenseStatus {
    pub defense: DefenseConfig,
    pub total_combat_points: u64,
    pub last_configured: Option<String>,
    pub cooldown: CooldownInfo,
}

/// One layer's resolution in a battle; rate and roll in thousandths.
#[derive(Clone, Copy, Debug)]
pub struct LayerResult {
    pub success: bool,
    pub attack: u64,
    pub defense: u64,
    pub threshold: Option<u64>,
    pub success_rate: Option<u64>,
    pub roll: Option<u64>,
    pub miss: Option<bool>,
}

/// The three layers of one battle.
#[derive(Clone, Copy, Debug)]
pub struct BattleLayers {
    pub l1: LayerResult,
    pub l2: LayerResult,
    pub l3: LayerResult,
}

/// What an attack carried away, as the server's decimal strings.
#[derive(Clone, Debug)]
pub struct LootInfo {
    pub entropy_looted: String,
    pub attacker_entropy_after: String,
    pub defender_entropy_after: String,
}

/// A resolved battle.
#[derive(Clone, Debug)]
pub struct BattleResult {
    pub success: bool,
    pub battle_id: String,
    pub outcome: String,
    pub layers: BattleLayers,
    pub loot: LootInfo,
}

/// The server's battle odds; probabilities in thousandths.
#[derive(Clone, Copy, Debug)]
pub struct Probabilities {
    pub l1_win: u64,
    pub l2_success: u64,
    pub l3_parasitize: u64,
}

/// A simulated battle as the server projects it.
#[derive(Clone, Debug)]
pub struct BattleSimulation {
    pub probabilities: Probabilities,
    pub expected_loot: String,
}

/// The defense-configuration request body.
pub open spec fn spec_defense_body(c: DefenseConfig) -> Seq<char> {
    "{\"l1\":"@ + spec_dec_u64(c.l1 as nat) + ",\"l2\":"@ + spec_dec_u64(c.l2 as nat) + ",\"l3\":"@
        + spec_dec_u64(c.l3 as nat) + "}"@
}

/// Builds the defense-configuration body string; the same value is
/// signed and sent.
pub fn defense_config_body(config: &DefenseConfig) -> (r: String)
    ensures
        r@ == spec_defense_body(*config),
{
    let mut s = String::from_str("{\"l1\":");
    push_u64(&mut s, config.l1);
    s.append(",\"l2\":");
    push_u64(&mut s, config.l2);
    s.append(",\"l3\":");
    push_u64(&mut s, config.l3);
    s.append("}");
    proof {
        assert(s@ =~= spec_defense_body(*config));
    }
    s
}

/// The body of an attack or simulation request aimed at one target.
pub open spec fn spec_target_body(target_id: Seq<char>) -> Seq<char> {
    "{\"target_id\":\""@ + target_id + "\"}"@
}

/// Builds the target body string; the identifier must need no JSON
/// escaping, which every server-issued identifier satisfies.
pub fn target_body(target_id: &str) -> (r: String)
    requires
        spec_json_plain(target_id@),
    ensures
        r@ == spec_target_body(target_id@),
{
    let mut s = String::from_str("{\"target_id\":\"");
    s.append(target_id);
    s.append("\"}");
    proof {
        assert(s@ =~= spec_target_body(target_id@));
    }
    s
}

} // verus!
