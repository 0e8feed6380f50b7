//! Radar scan results and the target-selection rules over them: which
//! targets are locked (attackable) and which locked target is weakest.
//! Distances travel in thousandths; the scan call itself is the
//! caller's business.

use vstd::prelude::*;
use vstd::string::StringExecFns;
use crate::text::push_u64;
use crate::text::spec_dec_u64;
use crate::text::str_eq;

verus! {

/// What a scan reveals of one target's defense.
#[derive(Clone, Copy, Debug)]
pub struct DefenseInfo {
    pub l1: u64,
    pub l2: u64,
    pub l3: u64,
    pub total: u64,
}

/// One target a scan revealed; distance in thousandths.
#[derive(Clone, Debug)]
pub struct RadarTarget {
    pub device_id: String,
    pub visibility: String,
    pub distance: u64,
    pub karma: Option<u64>,
    pub karma_range: Option<[u64; 2]>,
    pub defense: Option<DefenseInfo>,
}

/// The counts a scan summarizes itself by.
#[derive(Clone, Copy, Debug)]
pub struct ScanSummary {
    pub total: usize,
    pub locked: usize,
    pub fuzzy: usize,
}

/// A whole scan answer.
#[derive(Clone, Debug)]
pub struct RadarScanResult {
    pub success: bool,
    pub scan_id: String,
    pub cost: u64,
    pub targets: Vec<RadarTarget>,
    pub summary: ScanSummary,
    pub entropy_remaining: u64,
}

/// Whether a target is locked, and so attackable.
pub open spec fn spec_is_locked(t: RadarTarget) -> bool {
    t.visibility@ == "LOCKED"@
}

/// The locked subsequence of a target list, in order.
pub open spec fn spec_locked_of(ts: Seq<RadarTarget>) -> Seq<RadarTarget>
    decreases ts.len(),
{
    if ts.len() == 0 {
        Seq::empty()
    } else if spec_is_locked(ts.last()) {
        spec_locked_of(ts.drop_last()).push(ts.last())
    } else {
        spec_locked_of(ts.drop_last())
    }
}

/// The targets a sequence of references points at, in order.
pub open spec fn spec_derefs(s: Seq<&RadarTarget>) -> Seq<RadarTarget>
    decreases s.len(),
{
    if s.len() == 0 {
        Seq::empty()
    } else {
        spec_derefs(s.drop_last()).push(*s.last())
    }
}

/// The locked targets of a scan, in scan order.
pub fn get_locked_targets<'a>(scan: &'a RadarScanResult) -> (r: Vec<&'a RadarTarget>)
    ensures
        spec_derefs(r@) == spec_locked_of(scan.targets@),
{
    let mut r: Vec<&RadarTarget> = Vec::new();
    let mut i: usize = 0;
    proof {
        assert(scan.targets@.take(0) =~= Seq::<RadarTarget>::empty());
    }
    while i < scan.targets.len()
        invariant
            i <= scan.targets@.len(),
            spec_derefs(r@) == spec_locked_of(scan.targets@.take(i as int)),
        decreases scan.targets@.len() - i,
    {
        let t = &scan.targets[i];
        let locked = str_eq(t.visibility.as_str(), "LOCKED");
        let ghost old_r = r@;
        proof {
            assert(scan.targets@.take(i + 1).drop_last() =~= scan.targets@.take(i as int));
            assert(scan.targets@.take(i + 1).last() == scan.targets@[i as int]);
        }
        if locked {
            r.push(t);
            proof {
                assert(r@.drop_last() =~= old_r);
                assert(spec_derefs(r@) == spec_derefs(old_r).push(scan.targets@[i as int]));
            }
        }
        i = i + 1;
    }
    proof {
        assert(scan.targets@.take(scan.targets@.len() as int) =~= scan.targets@);
    }
    r
}

/// Whether `t` is a weakest defended target of `targets`, and the
/// first such: its known defense total is minimal, and every earlier
/// defended target is strictly stronger.
pub open spec fn spec_first_weakest(targets: Seq<&RadarTarget>, t: &RadarTarget, i: int) -> bool {
    &&& 0 <= i < targets.len()
    &&& targets[i] == t
    &&& t.defense is Some
    &&& forall|j: int|
        0 <= j < targets.len() && (#[trigger] targets[j]).defense is Some
            ==> t.defense->0.total <= targets[j].defense->0.total
    &&& forall|j: int|
        0 <= j < i && (#[trigger] targets[j]).defense is Some ==> t.defense->0.total
            < targets[j].defense->0.total
}

/// Picks the first target whose known defense total is minimal; none
/// when no target's defense is known.
pub fn find_weakest_target<'a>(targets: &Vec<&'a RadarTarget>) -> (r: Option<&'a RadarTarget>)
    ensures
        match r {
            None => forall|j: int|
                0 <= j < targets@.len() ==> !((#[trigger] targets@[j]).defense is Some),
            Some(t) => exists|i: int| spec_first_weakest(targets@, t, i),
        },
{
    let mut best: Option<&RadarTarget> = None;
    let ghost mut best_i: int = 0;
    let mut i: usize = 0;
    while i < targets.len()
        invariant
            i <= targets@.len(),
            match best {
                None => forall|j: int|
                    0 <= j < i ==> !((#[trigger] targets@[j]).defense is Some),
                Some(t) => {
                    &&& 0 <= best_i < i
                    &&& targets@[best_i] == t
                    &&& t.defense is Some
                    &&& forall|j: int|
                        0 <= j < i && (#[trigger] targets@[j]).defense is Some
                            ==> t.defense->0.total <= targets@[j].defense->0.total
                    &&& forall|j: int|
                        0 <= j < best_i && (#[trigger] targets@[j]).defense is Some
                            ==> t.defense->0.total < targets@[j].defense->0.total
                },
            },
        decreases targets@.len() - i,
    {
        let t = targets[i];
        if let Some(d) = &t.defense {
            match best {
                None => {
                    best = Some(t);
                    proof {
                        best_i = i as int;
                    }
                },
                Some(b) => {
                    if d.total < b.defense.as_ref().unwrap().total {
                        best = Some(t);
                        proof {
                            best_i = i as int;
                        }
                    }
                },
            }
        }
        i = i + 1;
    }
    proof {
        if best is Some {
            assert(spec_first_weakest(targets@, best->0, best_i));
        }
    }
    best
}

/// The scan request's body: the requested radius (or its default) and
/// the fixed scan cost.
pub open spec fn spec_scan_body(max_distance: Option<u64>) -> Seq<char> {
    let radius: u64 = match max_distance {
        Some(d) => d,
        None => 5000u64,
    };
    "{\"max_distance\":"@ + spec_dec_u64(radius as nat) + ",\"cost_omega\":10}"@
}

/// Builds the scan request's body string.
pub fn scan_request_body(max_distance: Option<u64>) -> (r: String)
    ensures
        r@ == spec_scan_body(max_distance),
{
    let radius: u64 = match max_distance {
        Some(d) => d,
        None => 5000,
    };
    let mut s = String::from_str("{\"max_distance\":");
    push_u64(&mut s, radius);
    s.append(",\"cost_omega\":10}");
    proof {
        assert(s@ =~= spec_scan_body(max_distance));
    }
    s
}

} // verus!
