//! The remote sync producer's decisions: when a tick must report (only
//! when the entropy balance moved since the last acknowledged report)
//! and how the baseline advances (only on server acknowledgement, so an
//! unreported delta is carried into the next tick). The HTTP transport
//! and the timer are the caller's business.

use vstd::prelude::*;
use crate::types::KARMA_LIMIT;

verus! {

/// The sync task's memory between ticks: the entropy balance the
/// server last acknowledged.
pub struct SyncTracker {
    last_synced_entropy: i64,
}

impl SyncTracker {
    /// The last acknowledged balance.
    pub closed spec fn last_synced(&self) -> i64 {
        self.last_synced_entropy
    }

    #[verifier::type_invariant]
    spec fn type_wf(&self) -> bool {
        self.last_synced_entropy >= 0
    }

    /// A fresh tracker: nothing has been reported yet.
    pub fn new() -> (r: SyncTracker)
        ensures
            r.last_synced() == 0,
    {
        SyncTracker { last_synced_entropy: 0 }
    }

    /// Decides one tick: the delta to report, or nothing — and with it
    /// no network call at all — when the balance has not moved.
    pub fn plan_tick(&self, current_entropy: i64) -> (r: Option<i64>)
        requires
            current_entropy >= 0,
        ensures
            r == if current_entropy == self.last_synced() {
                None::<i64>
            } else {
                Some((current_entropy - self.last_synced()) as i64)
            },
    {
        proof {
            use_type_invariant(self);
        }
        let delta = current_entropy - self.last_synced_entropy;
        if delta == 0 {
            None
        } else {
            Some(delta)
        }
    }

    /// Advances the baseline to the balance the server just accepted.
    /// Called only on success; a failed report leaves the baseline, so
    /// the unacknowledged delta rides along on the next tick.
    pub fn record_success(&mut self, reported_entropy: i64)
        requires
            reported_entropy >= 0,
        ensures
            final(self).last_synced() == reported_entropy,
    {
        self.last_synced_entropy = reported_entropy;
    }
}

/// The server's verdict on one sync report.
#[derive(Clone, Debug)]
pub struct SyncResponse {
    pub success: bool,
    pub device_entropy: i64,
    pub device_karma: i64,
    pub managed: bool,
    pub warning: Option<AnomalyWarning>,
}

/// A server-side anomaly signal: surfaced, never blocking. Confidence
/// in thousandths.
#[derive(Clone, Debug)]
pub struct AnomalyWarning {
    pub anomaly_detected: bool,
    pub confidence: u64,
    pub reasons: Vec<String>,
}

/// Whether a response's karma value can be taken into the store.
pub open spec fn spec_karma_acceptable(device_karma: i64) -> bool {
    0 <= device_karma <= KARMA_LIMIT
}

/// Checks a response's karma against the store's admissible range.
pub fn karma_acceptable(device_karma: i64) -> (r: bool)
    ensures
        r == spec_karma_acceptable(device_karma),
{
    0 <= device_karma && device_karma <= (KARMA_LIMIT as i64)
}

} // verus!
