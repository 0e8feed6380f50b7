//! The mining producer's per-tick computation: the karma- and
//! quality-derived base yield plus the passive contribution of the
//! parasite set, applied to the store as one entropy update. The timer
//! that fires the ticks is the caller's business.

use vstd::prelude::*;
use crate::state::spec_apply_entropy;
use crate::state::StateManager;
use crate::types::GameState;
use crate::types::PlayerV;
use crate::types::spec_sat_add;
use crate::types::spec_yield;

verus! {

/// The passive contribution of one tick: the income rate (thousandths
/// of entropy per second) times the tick length, truncated to whole
/// entropy and saturating at the 64-bit limit.
pub open spec fn spec_passive_contrib(passive_income: u64, tick_seconds: u64) -> u64 {
    if (passive_income * tick_seconds) / 1000 > u64::MAX {
        u64::MAX as u64
    } else {
        ((passive_income * tick_seconds) / 1000) as u64
    }
}

/// The whole income of one mining tick: base yield plus passive
/// contribution, saturating.
pub open spec fn spec_tick_income(p: PlayerV, tick_seconds: u64) -> u64 {
    spec_sat_add(
        spec_yield(p.karma as nat, p.network_quality as nat),
        spec_passive_contrib(p.passive_income, tick_seconds) as nat,
    )
}

/// Computes one tick's mining income from a snapshot.
pub fn mining_tick_income(state: &GameState, tick_seconds: u64) -> (r: u64)
    requires
        state@.player.wf(),
    ensures
        r == spec_tick_income(state@.player, tick_seconds),
{
    let base = state.player.calculate_yield();
    proof {
        assert((state.player.passive_income as int) * (tick_seconds as int)
            <= 0xffff_ffff_ffff_ffff * 0xffff_ffff_ffff_ffff) by (nonlinear_arith)
            requires
                state.player.passive_income <= 0xffff_ffff_ffff_ffff,
                tick_seconds <= 0xffff_ffff_ffff_ffff,
        ;
    }
    let scaled: u128 = (state.player.passive_income as u128) * (tick_seconds as u128) / 1000;
    let passive: u64 = if scaled > 0xffff_ffff_ffff_ffff {
        u64::MAX
    } else {
        scaled as u64
    };
    if base > u64::MAX - passive {
        u64::MAX
    } else {
        base + passive
    }
}

/// The entropy delta one mining tick applies: the income, held below
/// both the remaining 64-bit headroom of the balance and the signed
/// range of the update operation.
pub open spec fn spec_mining_delta(s: PlayerV, tick_seconds: u64) -> i64 {
    let income = spec_tick_income(s, tick_seconds) as int;
    let headroom = u64::MAX - s.entropy;
    let capped = if income > headroom {
        headroom
    } else {
        income
    };
    if capped > i64::MAX {
        i64::MAX as i64
    } else {
        capped as i64
    }
}

impl StateManager {
    /// One mining tick: computes the income from the current state and
    /// applies it as an entropy update stamped `now`.
    pub fn apply_mining_tick(&mut self, tick_seconds: u64, now: i64)
        requires
            old(self).wf(),
        ensures
            final(self)@ == spec_apply_entropy(
                old(self)@,
                spec_mining_delta(old(self)@.player, tick_seconds),
                now,
            ),
            final(self).wf(),
    {
        let income = mining_tick_income(&self.state, tick_seconds);
        let headroom = u64::MAX - self.state.player.entropy;
        let capped = if income > headroom {
            headroom
        } else {
            income
        };
        let delta: i64 = if capped > 0x7fff_ffff_ffff_ffff {
            i64::MAX
        } else {
            capped as i64
        };
        self.update_entropy(delta, now);
    }
}

} // verus!
