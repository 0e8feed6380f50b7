//! Network-quality probing logic: the median of an anchor's latency
//! samples (with a fixed sentinel when every sample failed), the step
//! function mapping mean latency to a quality multiplier, and the
//! hash-based attestation of a measured vector. Sending the probes and
//! timing them is the caller's business; this module turns the measured
//! numbers into state.

use vstd::prelude::*;
use vstd::relations::sorted_by;
use vstd::relations::total_ordering;
use vstd::seq_lib::group_to_multiset_ensures;
use vstd::seq_lib::lemma_sorted_unique;
use vstd::multiset::group_multiset_axioms;
use vstd::multiset::Multiset;
use vstd::string::StringExecFns;
use vstd::utf8::encode_utf8;
use crate::crypto::sha256_digest;
use crate::crypto::base64_encode;
use crate::crypto::spec_base64_of;
use crate::crypto::spec_sha256_of;
use crate::text::push_u64;
use crate::text::spec_dec_u64;
use crate::types::LatencyVector;

verus! {

/// Latency reported for an anchor that could not be measured at all.
pub const FAILED_ANCHOR_LATENCY_MS: u64 = 999;

/// A named reference point that latency is measured against.
#[derive(Clone, Debug)]
pub struct Anchor {
    pub id: String,
    pub ip: String,
    pub region: String,
}

/// Configuration of the probing task.
#[derive(Clone, Debug)]
pub struct NetworkConfig {
    pub probe_interval_secs: u64,
    pub anchors: Vec<Anchor>,
}

/// The ordering the latency statistics sort by.
pub open spec fn u64_leq() -> spec_fn(u64, u64) -> bool {
    |a: u64, b: u64| a <= b
}

/// Sorts the samples ascending; the result is exactly the sorted
/// permutation of the input.
pub fn sorted_u64(src: &Vec<u64>) -> (r: Vec<u64>)
    ensures
        r@ == src@.sort_by(u64_leq()),
        r@.len() == src@.len(),
{
    broadcast use group_to_multiset_ensures;
    broadcast use group_multiset_axioms;

    let mut rem = crate::state::copy_u64_vec(src);
    let mut out: Vec<u64> = Vec::new();
    proof {
        assert(out@.to_multiset().add(rem@.to_multiset()) =~= src@.to_multiset());
    }
    while rem.len() > 0
        invariant
            forall|a: int, b: int| 0 <= a <= b < out@.len() ==> out@[a] <= out@[b],
            out@.len() + rem@.len() == src@.len(),
            out@.to_multiset().add(rem@.to_multiset()) == src@.to_multiset(),
            forall|a: int, b: int|
                0 <= a < out@.len() && 0 <= b < rem@.len() ==> out@[a] <= rem@[b],
        decreases rem@.len(),
    {
        // Index of a minimal remaining sample.
        let mut mi: usize = 0;
        let mut j: usize = 1;
        while j < rem.len()
            invariant
                mi < j <= rem@.len() || (j <= rem@.len() && mi == 0),
                mi < rem@.len(),
                forall|k: int| 0 <= k < j ==> rem@[mi as int] <= rem@[k],
            decreases rem@.len() - j,
        {
            if rem[j] < rem[mi] {
                mi = j;
            }
            j = j + 1;
        }
        let m = rem[mi];
        let ghost old_out = out@;
        let ghost old_rem = rem@;
        out.push(m);
        rem.remove(mi);
        proof {
            old_out.to_multiset_ensures();
            old_rem.to_multiset_ensures();
            assert(out@ == old_out.push(m));
            assert(rem@ == old_rem.remove(mi as int));
            assert forall|a: int, b: int| 0 <= a <= b < out@.len() implies #[trigger] out@[a]
                <= #[trigger] out@[b] by {
                if b < out@.len() - 1 {
                    assert(old_out[a] <= old_out[b]);
                } else if a < out@.len() - 1 {
                    assert(old_out[a] <= old_rem[mi as int]);
                }
            }
            assert(old_out.push(m).to_multiset() =~= old_out.to_multiset().insert(m));
            assert(old_rem.remove(mi as int).to_multiset() =~= old_rem.to_multiset().remove(
                old_rem[mi as int],
            ));
            assert(old_rem.contains(m)) by {
                assert(old_rem[mi as int] == m);
            }
            assert(old_rem.to_multiset().count(m) > 0);
            assert(out@.to_multiset().add(rem@.to_multiset()) =~= src@.to_multiset());
            assert forall|b: int| 0 <= b < rem@.len() implies m <= #[trigger] rem@[b] by {
                if b < mi {
                    assert(rem@[b] == old_rem[b]);
                } else {
                    assert(rem@[b] == old_rem[b + 1]);
                }
            }
        }
    }
    proof {
        let leq = u64_leq();
        assert(out@.to_multiset() =~= src@.to_multiset()) by {
            assert(rem@.to_multiset() =~= Multiset::<u64>::empty());
        }
        assert forall|i: int, j: int| 0 <= i < j < out@.len() implies #[trigger] leq(
            out@[i],
            out@[j],
        ) by {
            assert(out@[i] <= out@[j]);
        }
        assert(sorted_by(out@, leq));
        src@.lemma_sort_by_ensures(leq);
        assert(total_ordering(leq));
        lemma_sorted_unique(out@, src@.sort_by(leq), leq);
        assert(out@ =~= src@.sort_by(leq));
    }
    out
}

/// The latency an anchor reports: the median of its successful samples,
/// or the fixed failure sentinel when no sample succeeded.
pub open spec fn spec_anchor_latency(samples: Seq<u64>) -> u64 {
    if samples.len() == 0 {
        FAILED_ANCHOR_LATENCY_MS as u64
    } else {
        samples.sort_by(u64_leq())[samples.len() as int / 2]
    }
}

/// Reduces an anchor's successful round-trip samples to one latency.
pub fn anchor_latency(samples: &Vec<u64>) -> (r: u64)
    ensures
        r == spec_anchor_latency(samples@),
{
    if samples.len() == 0 {
        return FAILED_ANCHOR_LATENCY_MS;
    }
    let sorted = sorted_u64(samples);
    sorted[samples.len() / 2]
}

/// The sum of all samples.
pub open spec fn spec_sum(s: Seq<u64>) -> int
    decreases s.len(),
{
    if s.len() == 0 {
        0
    } else {
        spec_sum(s.drop_last()) + s.last()
    }
}

/// The quality multiplier (in thousandths) derived from the mean
/// latency by a step function: the bands below 30, 100, 200 and 500
/// milliseconds map to decreasing multipliers, compared exactly as
/// `sum < bound * count`. An empty vector scores the lowest band.
pub open spec fn spec_network_quality(lats: Seq<u64>) -> u64 {
    let n = lats.len() as int;
    if n == 0 {
        100u64
    } else if spec_sum(lats) < 30 * n {
        1500u64
    } else if spec_sum(lats) < 100 * n {
        1200u64
    } else if spec_sum(lats) < 200 * n {
        1000u64
    } else if spec_sum(lats) < 500 * n {
        500u64
    } else {
        100u64
    }
}

/// Scores a latency vector into the quality multiplier band.
pub fn calculate_network_quality(latencies: &Vec<u64>) -> (r: u64)
    ensures
        r == spec_network_quality(latencies@),
{
    if latencies.len() == 0 {
        return 100;
    }
    let mut sum: u128 = 0;
    let mut i: usize = 0;
    proof {
        assert(latencies@.take(0) =~= Seq::<u64>::empty());
    }
    while i < latencies.len()
        invariant
            i <= latencies@.len(),
            sum == spec_sum(latencies@.take(i as int)),
            sum <= i * 0xffff_ffff_ffff_ffff,
        decreases latencies@.len() - i,
    {
        proof {
            assert((i + 1) * 0xffff_ffff_ffff_ffff == i * 0xffff_ffff_ffff_ffff
                + 0xffff_ffff_ffff_ffff) by (nonlinear_arith);
            assert(i * 0xffff_ffff_ffff_ffff <= latencies@.len() * 0xffff_ffff_ffff_ffff)
                by (nonlinear_arith)
                requires
                    i <= latencies@.len(),
            ;
            assert(latencies@.len() * 0xffff_ffff_ffff_ffff < 0xffff_ffff_ffff_ffff_ffff_ffff_ffff_ffff_ffff_ffff_ffff_ffff_ffff_ffff_ffff_ffff)
                by (nonlinear_arith)
                requires
                    latencies@.len() < 0x1_0000_0000_0000_0000,
            ;
        }
        sum = sum + (latencies[i] as u128);
        proof {
            assert(latencies@.take(i + 1).drop_last() =~= latencies@.take(i as int));
            assert(latencies@.take(i + 1).last() == latencies@[i as int]);
        }
        i = i + 1;
    }
    proof {
        assert(latencies@.take(latencies@.len() as int) =~= latencies@);
    }
    let n = latencies.len() as u128;
    if sum < 30 * n {
        1500
    } else if sum < 100 * n {
        1200
    } else if sum < 200 * n {
        1000
    } else if sum < 500 * n {
        500
    } else {
        100
    }
}

/// The JSON rendering of the measured vector, a plain array of the
/// integer millisecond samples.
pub open spec fn spec_json_u64_items(s: Seq<u64>) -> Seq<char>
    decreases s.len(),
{
    if s.len() == 0 {
        Seq::empty()
    } else if s.len() == 1 {
        spec_dec_u64(s[0] as nat)
    } else {
        spec_json_u64_items(s.drop_last()) + ","@ + spec_dec_u64(s.last() as nat)
    }
}

pub open spec fn spec_json_u64_vec(s: Seq<u64>) -> Seq<char> {
    "["@ + spec_json_u64_items(s) + "]"@
}

/// Renders the measured vector as its JSON array text.
pub fn json_u64_vec(v: &Vec<u64>) -> (r: String)
    ensures
        r@ == spec_json_u64_vec(v@),
{
    let mut s = String::from_str("[");
    let mut i: usize = 0;
    proof {
        reveal_strlit("[");
        reveal_strlit("]");
        reveal_strlit(",");
        assert(v@.take(0) =~= Seq::<u64>::empty());
    }
    while i < v.len()
        invariant
            i <= v@.len(),
            s@ == "["@ + spec_json_u64_items(v@.take(i as int)),
        decreases v@.len() - i,
    {
        if i > 0 {
            s.append(",");
        }
        push_u64(&mut s, v[i]);
        proof {
            assert(v@.take(i + 1).drop_last() =~= v@.take(i as int));
            assert(v@.take(i + 1).last() == v@[i as int]);
            if i == 0 {
                assert(v@.take(1).len() == 1);
            }
            assert(s@ =~= "["@ + spec_json_u64_items(v@.take(i + 1)));
        }
        i = i + 1;
    }
    s.append("]");
    proof {
        assert(v@.take(v@.len() as int) =~= v@);
        assert(s@ =~= spec_json_u64_vec(v@));
    }
    s
}

/// The attestation signature of a measured vector: the base64 rendering
/// of the SHA-256 digest of its JSON text.
pub open spec fn spec_vector_signature(s: Seq<u64>) -> Seq<char> {
    spec_base64_of(spec_sha256_of(encode_utf8(spec_json_u64_vec(s))))
}

/// Computes the hash-based attestation of a measured vector.
pub fn sign_vector(data: &Vec<u64>) -> (r: String)
    ensures
        r@ == spec_vector_signature(data@),
{
    let json = json_u64_vec(data);
    let digest = sha256_digest(json.as_str().as_bytes());
    base64_encode(digest.as_slice())
}

/// Assembles the timestamped, attested latency vector.
pub fn finish_latency_vector(timestamp: i64, data: Vec<u64>) -> (r: LatencyVector)
    ensures
        r.timestamp == timestamp,
        r.data@ == data@,
        r.signature@ == spec_vector_signature(data@),
{
    let signature = sign_vector(&data);
    LatencyVector { timestamp, data, signature }
}

/// The fixed set of reference anchors used when none are configured.
pub fn default_anchors() -> (r: Vec<Anchor>)
    ensures
        r@.len() == 5,
        r@[0].id@ == "cloudflare-1"@ && r@[0].ip@ == "1.1.1.1"@,
        r@[1].id@ == "cloudflare-2"@ && r@[1].ip@ == "1.0.0.1"@,
        r@[2].id@ == "google-dns-1"@ && r@[2].ip@ == "8.8.8.8"@,
        r@[3].id@ == "google-dns-2"@ && r@[3].ip@ == "8.8.4.4"@,
        r@[4].id@ == "quad9"@ && r@[4].ip@ == "9.9.9.9"@,
        forall|i: int| 0 <= i < 5 ==> r@[i].region@ == "global"@,
    {
    let mut r: Vec<Anchor> = Vec::new();
    r.push(
        Anchor {
            id: String::from_str("cloudflare-1"),
            ip: String::from_str("1.1.1.1"),
            region: String::from_str("global"),
        },
    );
    r.push(
        Anchor {
            id: String::from_str("cloudflare-2"),
            ip: String::from_str("1.0.0.1"),
            region: String::from_str("global"),
        },
    );
    r.push(
        Anchor {
            id: String::from_str("google-dns-1"),
            ip: String::from_str("8.8.8.8"),
            region: String::from_str("global"),
        },
    );
    r.push(
        Anchor {
            id: String::from_str("google-dns-2"),
            ip: String::from_str("8.8.4.4"),
            region: String::from_str("global"),
        },
    );
    r.push(
        Anchor {
            id: String::from_str("quad9"),
            ip: String::from_str("9.9.9.9"),
            region: String::from_str("global"),
        },
    );
    r
}

} // verus!
