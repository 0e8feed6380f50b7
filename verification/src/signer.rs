//! The canonical request signer. Every authenticated outbound call signs
//! the exact delimited string `METHOD|PATH|BODY|TIMESTAMP|NONCE`, and the
//! body string that was signed is the body string handed to the wire —
//! the two can never diverge because both come from the same stored
//! value. Nonces are fresh random tokens; timestamps are Unix seconds.

use vstd::prelude::*;
use vstd::string::StringExecFns;
use vstd::utf8::encode_utf8;
use crate::crypto::spec_base64_of;
use crate::crypto::spec_ed25519_sign_of;
use crate::identity::DeviceIdentity;
use crate::text::push_i64;
use crate::text::push_u64;
use crate::text::push_quality;
use crate::text::spec_dec_i64;
use crate::text::spec_dec_u64;
use crate::text::spec_hex;
use crate::text::spec_quality_str;
use crate::text::seq_free_of;
use crate::text::lemma_concat_free_of;
use crate::text::lemma_dec_i64_free_of;
use crate::text::lemma_dec_u64_free_of;
use crate::text::lemma_prefix_strip;
use crate::text::lemma_sep_split;
use crate::text::lemma_suffix_strip;
use crate::text::to_hex;

verus! {

/// A signing step that cannot proceed; not retried.
#[derive(Clone, Copy, Debug, PartialEq, Eq, Structural)]
pub enum SignError {
    /// The system clock could not provide the current time.
    ClockUnavailable,
}

/// Relies on uuid's version-4 generator and its hyphenated rendering:
/// 36 characters of lower-case hex digits and hyphens, drawn fresh from
/// process randomness on every call.
#[verifier::external_body]
pub fn new_nonce() -> (r: String)
    ensures
        r@.len() == 36,
        forall|i: int|
            0 <= i < 36 ==> (r@[i] == '-' || ('0' <= r@[i] && r@[i] <= '9') || ('a' <= r@[i]
                && r@[i] <= 'f')),
{
    uuid::Uuid::new_v4().to_string()
}

/// Relies on chrono's UTC clock: the current Unix timestamp in whole
/// seconds. Nothing is assumed of the value.
#[verifier::external_body]
pub fn now_unix() -> i64 {
    chrono::Utc::now().timestamp()
}

/// The canonical message: the five request parts joined by `|`.
pub open spec fn spec_canonical(
    method: Seq<char>,
    path: Seq<char>,
    body: Seq<char>,
    timestamp: int,
    nonce: Seq<char>,
) -> Seq<char> {
    method + "|"@ + path + "|"@ + body + "|"@ + spec_dec_i64(timestamp) + "|"@ + nonce
}

/// The per-device sync path.
pub open spec fn spec_sync_path(device_id: Seq<char>) -> Seq<char> {
    "/api/devices/"@ + device_id + "/sync"@
}

/// The sync body as transmitted: fixed key order, the quality rendered
/// as a decimal fraction with at least one fraction digit.
pub open spec fn spec_sync_body(entropy_delta: int, quality: nat, uptime: nat) -> Seq<char> {
    "{\"entropy_delta\":"@ + spec_dec_i64(entropy_delta) + ",\"network_quality\":"@
        + spec_quality_str(quality) + ",\"uptime_seconds\":"@ + spec_dec_u64(uptime) + "}"@
}

/// Builds the sync body string once; the same value is signed and sent.
pub fn build_sync_body(entropy_delta: i64, quality: u64, uptime_seconds: u64) -> (r: String)
    ensures
        r@ == spec_sync_body(entropy_delta as int, quality as nat, uptime_seconds as nat),
{
    let mut s = String::from_str("{\"entropy_delta\":");
    push_i64(&mut s, entropy_delta);
    s.append(",\"network_quality\":");
    push_quality(&mut s, quality);
    s.append(",\"uptime_seconds\":");
    push_u64(&mut s, uptime_seconds);
    s.append("}");
    proof {
        assert(s@ =~= spec_sync_body(entropy_delta as int, quality as nat, uptime_seconds as nat));
    }
    s
}

/// Joins the five request parts into the canonical message.
pub fn build_canonical(method: &str, path: &str, body: &str, timestamp: i64, nonce: &str) -> (r:
    String)
    ensures
        r@ == spec_canonical(method@, path@, body@, timestamp as int, nonce@),
{
    let mut s = String::from_str(method);
    s.append("|");
    s.append(path);
    s.append("|");
    s.append(body);
    s.append("|");
    push_i64(&mut s, timestamp);
    s.append("|");
    s.append(nonce);
    proof {
        assert(s@ =~= spec_canonical(method@, path@, body@, timestamp as int, nonce@));
    }
    s
}

/// A write-once signed sync report: the cached body string is the one
/// the signature covers, and `body_string` hands out that very value.
pub struct SignedSyncRequest {
    pub device_id: String,
    pub entropy_delta: i64,
    /// Network quality in thousandths.
    pub network_quality: u64,
    pub uptime_seconds: i64,
    pub timestamp: i64,
    pub nonce: String,
    pub signature: String,
    pub body_json: String,
}

impl SignedSyncRequest {
    /// The cached body string, the exact bytes for the wire.
    pub open spec fn body_view(&self) -> Seq<char> {
        self.body_json@
    }

    /// The canonical message this request signs: a POST to the
    /// per-device sync path over the cached body.
    pub open spec fn canonical_view(&self) -> Seq<char> {
        spec_canonical(
            "POST"@,
            spec_sync_path(self.device_id@),
            self.body_view(),
            self.timestamp as int,
            self.nonce@,
        )
    }

    /// A request is faithfully signed under `key` when its cached body
    /// is the canonical rendering of its fields and its signature is the
    /// Ed25519 signature over its canonical message.
    pub open spec fn signed_under(&self, key: Seq<u8>) -> bool {
        &&& self.body_view() == spec_sync_body(
            self.entropy_delta as int,
            self.network_quality as nat,
            self.uptime_seconds as nat,
        )
        &&& self.signature@ == spec_base64_of(
            spec_ed25519_sign_of(key, encode_utf8(self.canonical_view())),
        )
    }

    /// Builds and signs a sync report for a fixed timestamp and nonce.
    /// Construction is deterministic in its arguments.
    pub fn create_and_sign_at(
        device_id: &str,
        entropy_delta: i64,
        network_quality: u64,
        uptime_seconds: u64,
        timestamp: i64,
        nonce: String,
        identity: &DeviceIdentity,
    ) -> (r: SignedSyncRequest)
        requires
            uptime_seconds <= i64::MAX,
        ensures
            r.device_id@ == device_id@,
            r.entropy_delta == entropy_delta,
            r.network_quality == network_quality,
            r.uptime_seconds == uptime_seconds,
            r.timestamp == timestamp,
            r.nonce@ == nonce@,
            r.signed_under(identity.key_bytes()),
    {
        let body_json = build_sync_body(entropy_delta, network_quality, uptime_seconds);
        let path = sync_path(device_id);
        let canonical = build_canonical("POST", path.as_str(), body_json.as_str(), timestamp,
            nonce.as_str());
        let signature = identity.sign_base64(canonical.as_str().as_bytes());
        let r = SignedSyncRequest {
            device_id: String::from_str(device_id),
            entropy_delta,
            network_quality,
            uptime_seconds: uptime_seconds as i64,
            timestamp,
            nonce,
            signature,
            body_json,
        };
        proof {
            assert(r.canonical_view() =~= canonical@);
        }
        r
    }

    /// Builds and signs a sync report with a fresh nonce and the current
    /// clock; whatever instant and nonce were drawn, the signature
    /// covers exactly them.
    pub fn create_and_sign(
        device_id: &str,
        entropy_delta: i64,
        network_quality: u64,
        uptime_seconds: u64,
        identity: &DeviceIdentity,
    ) -> (r: SignedSyncRequest)
        requires
            uptime_seconds <= i64::MAX,
        ensures
            r.device_id@ == device_id@,
            r.entropy_delta == entropy_delta,
            r.network_quality == network_quality,
            r.uptime_seconds == uptime_seconds,
            r.nonce@.len() == 36,
            r.signed_under(identity.key_bytes()),
    {
        let nonce = new_nonce();
        let timestamp = now_unix();
        SignedSyncRequest::create_and_sign_at(
            device_id,
            entropy_delta,
            network_quality,
            uptime_seconds,
            timestamp,
            nonce,
            identity,
        )
    }

    /// The canonical message as a string, for verification against the
    /// transmitted parts.
    pub fn canonical_message(&self) -> (r: String)
        ensures
            r@ == self.canonical_view(),
    {
        let path = sync_path(self.device_id.as_str());
        build_canonical(
            "POST",
            path.as_str(),
            self.body_json.as_str(),
            self.timestamp,
            self.nonce.as_str(),
        )
    }

    /// The four transport headers carrying identity and signature.
    pub fn headers(&self) -> (r: Vec<(String, String)>)
        ensures
            r@.len() == 4,
            r@[0].0@ == "x-device-id"@ && r@[0].1@ == self.device_id@,
            r@[1].0@ == "x-signature"@ && r@[1].1@ == self.signature@,
            r@[2].0@ == "x-timestamp"@ && r@[2].1@ == spec_dec_i64(self.timestamp as int),
            r@[3].0@ == "x-nonce"@ && r@[3].1@ == self.nonce@,
    {
        let mut ts = String::new();
        push_i64(&mut ts, self.timestamp);
        proof {
            assert(ts@ =~= spec_dec_i64(self.timestamp as int));
        }
        let mut r: Vec<(String, String)> = Vec::new();
        r.push((String::from_str("x-device-id"), self.device_id.clone()));
        r.push((String::from_str("x-signature"), self.signature.clone()));
        r.push((String::from_str("x-timestamp"), ts));
        r.push((String::from_str("x-nonce"), self.nonce.clone()));
        r
    }

    /// The request body for the wire: the very string that was signed.
    pub fn body_string(&self) -> (r: &str)
        ensures
            r@ == self.body_view(),
    {
        self.body_json.as_str()
    }
}

/// The per-device sync path as a string.
pub fn sync_path(device_id: &str) -> (r: String)
    ensures
        r@ == spec_sync_path(device_id@),
{
    let mut s = String::from_str("/api/devices/");
    s.append(device_id);
    s.append("/sync");
    proof {
        assert(s@ =~= spec_sync_path(device_id@));
    }
    s
}

/// Signing a given tuple is deterministic: two faithfully signed
/// requests built from the same fields under the same key carry the
/// same body, the same canonical message, and the same signature.
pub proof fn lemma_signing_deterministic(a: SignedSyncRequest, b: SignedSyncRequest, key: Seq<u8>)
    requires
        a.signed_under(key),
        b.signed_under(key),
        a.device_id@ == b.device_id@,
        a.entropy_delta == b.entropy_delta,
        a.network_quality == b.network_quality,
        a.uptime_seconds == b.uptime_seconds,
        a.timestamp == b.timestamp,
        a.nonce@ == b.nonce@,
    ensures
        a.body_view() == b.body_view(),
        a.canonical_view() == b.canonical_view(),
        a.signature@ == b.signature@,
{
}

/// The body that was signed and the body that is transmitted are the
/// same character sequence: the canonical message embeds `body_string`'s
/// result verbatim between its second and third separator.
pub proof fn lemma_body_signed_is_body_sent(r: SignedSyncRequest, key: Seq<u8>)
    requires
        r.signed_under(key),
    ensures
        r.canonical_view() == "POST"@ + "|"@ + spec_sync_path(r.device_id@) + "|"@ + r.body_view()
            + "|"@ + spec_dec_i64(r.timestamp as int) + "|"@ + r.nonce@,
        r.signature@ == spec_base64_of(
            spec_ed25519_sign_of(key, encode_utf8(r.canonical_view())),
        ),
{
}

/// No character of the sync body is the canonical separator.
pub proof fn lemma_sync_body_pipe_free(entropy_delta: int, quality: nat, uptime: nat)
    ensures
        seq_free_of(spec_sync_body(entropy_delta, quality, uptime), '|'),
{
    reveal_strlit("{\"entropy_delta\":");
    reveal_strlit(",\"network_quality\":");
    reveal_strlit(",\"uptime_seconds\":");
    reveal_strlit("}");
    assert(seq_free_of("{\"entropy_delta\":"@, '|'));
    assert(seq_free_of(",\"network_quality\":"@, '|'));
    assert(seq_free_of(",\"uptime_seconds\":"@, '|'));
    assert(seq_free_of("}"@, '|'));
    lemma_dec_i64_free_of(entropy_delta, '|');
    lemma_dec_u64_free_of(uptime, '|');
    assert(seq_free_of(spec_quality_str(quality), '|')) by {
        crate::text::lemma_quality_chars(quality);
    }
    lemma_concat_free_of("{\"entropy_delta\":"@, spec_dec_i64(entropy_delta), '|');
    lemma_concat_free_of(
        "{\"entropy_delta\":"@ + spec_dec_i64(entropy_delta),
        ",\"network_quality\":"@,
        '|',
    );
    lemma_concat_free_of(
        "{\"entropy_delta\":"@ + spec_dec_i64(entropy_delta) + ",\"network_quality\":"@,
        spec_quality_str(quality),
        '|',
    );
    lemma_concat_free_of(
        "{\"entropy_delta\":"@ + spec_dec_i64(entropy_delta) + ",\"network_quality\":"@
            + spec_quality_str(quality),
        ",\"uptime_seconds\":"@,
        '|',
    );
    lemma_concat_free_of(
        "{\"entropy_delta\":"@ + spec_dec_i64(entropy_delta) + ",\"network_quality\":"@
            + spec_quality_str(quality) + ",\"uptime_seconds\":"@,
        spec_dec_u64(uptime),
        '|',
    );
    lemma_concat_free_of(
        "{\"entropy_delta\":"@ + spec_dec_i64(entropy_delta) + ",\"network_quality\":"@
            + spec_quality_str(quality) + ",\"uptime_seconds\":"@ + spec_dec_u64(uptime),
        "}"@,
        '|',
    );
}

/// The sync path carries the separator only if the device id does.
pub proof fn lemma_sync_path_pipe_free(device_id: Seq<char>)
    requires
        seq_free_of(device_id, '|'),
    ensures
        seq_free_of(spec_sync_path(device_id), '|'),
{
    reveal_strlit("/api/devices/");
    reveal_strlit("/sync");
    assert(seq_free_of("/api/devices/"@, '|'));
    assert(seq_free_of("/sync"@, '|'));
    lemma_concat_free_of("/api/devices/"@, device_id, '|');
    lemma_concat_free_of("/api/devices/"@ + device_id, "/sync"@, '|');
}

/// The sync path names its device: equal paths carry equal ids.
pub proof fn lemma_sync_path_injective(id1: Seq<char>, id2: Seq<char>)
    requires
        spec_sync_path(id1) == spec_sync_path(id2),
    ensures
        id1 == id2,
{
    assert(spec_sync_path(id1) =~= "/api/devices/"@ + (id1 + "/sync"@));
    assert(spec_sync_path(id2) =~= "/api/devices/"@ + (id2 + "/sync"@));
    lemma_prefix_strip("/api/devices/"@, id1 + "/sync"@, id2 + "/sync"@);
    lemma_suffix_strip(id1, id2, "/sync"@);
}

/// The sync body names its fields: equal bodies carry an equal delta,
/// quality and uptime.
#[verifier::rlimit(100)]
#[verifier::spinoff_prover]
pub proof fn lemma_sync_body_injective(
    d1: int,
    q1: nat,
    u1: nat,
    d2: int,
    q2: nat,
    u2: nat,
)
    requires
        spec_sync_body(d1, q1, u1) == spec_sync_body(d2, q2, u2),
    ensures
        d1 == d2,
        q1 == q2,
        u1 == u2,
{
    reveal_strlit(",\"network_quality\":");
    reveal_strlit(",\"uptime_seconds\":");
    // Peel the fixed opening label.
    let rest1 = spec_dec_i64(d1) + ",\"network_quality\":"@ + spec_quality_str(q1)
        + ",\"uptime_seconds\":"@ + spec_dec_u64(u1) + "}"@;
    let rest2 = spec_dec_i64(d2) + ",\"network_quality\":"@ + spec_quality_str(q2)
        + ",\"uptime_seconds\":"@ + spec_dec_u64(u2) + "}"@;
    assert(spec_sync_body(d1, q1, u1) =~= "{\"entropy_delta\":"@ + rest1);
    assert(spec_sync_body(d2, q2, u2) =~= "{\"entropy_delta\":"@ + rest2);
    lemma_prefix_strip("{\"entropy_delta\":"@, rest1, rest2);
    // Split at the comma in front of the quality label: the delta's
    // rendering carries no comma.
    assert(",\"network_quality\":"@ =~= seq![','] + "\"network_quality\":"@) by {
        reveal_strlit("\"network_quality\":");
    }
    let mid1 = "\"network_quality\":"@ + spec_quality_str(q1) + ",\"uptime_seconds\":"@
        + spec_dec_u64(u1) + "}"@;
    let mid2 = "\"network_quality\":"@ + spec_quality_str(q2) + ",\"uptime_seconds\":"@
        + spec_dec_u64(u2) + "}"@;
    assert(rest1 =~= spec_dec_i64(d1) + seq![','] + mid1) by {
        reveal_strlit("\"network_quality\":");
    }
    assert(rest2 =~= spec_dec_i64(d2) + seq![','] + mid2) by {
        reveal_strlit("\"network_quality\":");
    }
    lemma_dec_i64_free_of(d1, ',');
    lemma_dec_i64_free_of(d2, ',');
    lemma_sep_split(',', spec_dec_i64(d1), mid1, spec_dec_i64(d2), mid2);
    crate::text::lemma_dec_i64_injective(d1, d2);
    // Peel the quality label, split at the next comma: the quality's
    // rendering carries no comma.
    reveal_strlit("\"network_quality\":");
    let tail1 = "\"uptime_seconds\":"@ + spec_dec_u64(u1) + "}"@;
    let tail2 = "\"uptime_seconds\":"@ + spec_dec_u64(u2) + "}"@;
    assert(mid1 =~= "\"network_quality\":"@ + (spec_quality_str(q1) + seq![','] + tail1)) by {
        reveal_strlit("\"uptime_seconds\":");
    }
    assert(mid2 =~= "\"network_quality\":"@ + (spec_quality_str(q2) + seq![','] + tail2)) by {
        reveal_strlit("\"uptime_seconds\":");
    }
    lemma_prefix_strip(
        "\"network_quality\":"@,
        spec_quality_str(q1) + seq![','] + tail1,
        spec_quality_str(q2) + seq![','] + tail2,
    );
    assert(seq_free_of(spec_quality_str(q1), ',')) by {
        crate::text::lemma_quality_chars(q1);
    }
    assert(seq_free_of(spec_quality_str(q2), ',')) by {
        crate::text::lemma_quality_chars(q2);
    }
    lemma_sep_split(',', spec_quality_str(q1), tail1, spec_quality_str(q2), tail2);
    crate::text::lemma_quality_injective(q1, q2);
    // Peel the uptime label and the closing brace.
    reveal_strlit("\"uptime_seconds\":");
    assert(tail1 =~= "\"uptime_seconds\":"@ + (spec_dec_u64(u1) + "}"@));
    assert(tail2 =~= "\"uptime_seconds\":"@ + (spec_dec_u64(u2) + "}"@));
    lemma_prefix_strip(
        "\"uptime_seconds\":"@,
        spec_dec_u64(u1) + "}"@,
        spec_dec_u64(u2) + "}"@,
    );
    lemma_suffix_strip(spec_dec_u64(u1), spec_dec_u64(u2), "}"@);
    crate::text::lemma_dec_u64_injective(u1, u2);
}

/// The canonical message names every part of the request: where the
/// method, path, body and nonce carry no separator, equal canonical
/// messages carry equal parts. Changing any one request field thus
/// changes the canonical message that is signed.
pub proof fn lemma_canonical_injective(
    method: Seq<char>,
    p1: Seq<char>,
    b1: Seq<char>,
    t1: int,
    n1: Seq<char>,
    p2: Seq<char>,
    b2: Seq<char>,
    t2: int,
    n2: Seq<char>,
)
    requires
        seq_free_of(p1, '|'),
        seq_free_of(p2, '|'),
        seq_free_of(b1, '|'),
        seq_free_of(b2, '|'),
        spec_canonical(method, p1, b1, t1, n1) == spec_canonical(method, p2, b2, t2, n2),
    ensures
        p1 == p2,
        b1 == b2,
        t1 == t2,
        n1 == n2,
{
    reveal_strlit("|");
    assert("|"@ =~= seq!['|']);
    let r1 = b1 + seq!['|'] + (spec_dec_i64(t1) + seq!['|'] + n1);
    let r2 = b2 + seq!['|'] + (spec_dec_i64(t2) + seq!['|'] + n2);
    assert(spec_canonical(method, p1, b1, t1, n1) =~= method + seq!['|'] + (p1 + seq!['|'] + r1));
    assert(spec_canonical(method, p2, b2, t2, n2) =~= method + seq!['|'] + (p2 + seq!['|'] + r2));
    lemma_prefix_strip(method + seq!['|'], p1 + seq!['|'] + r1, p2 + seq!['|'] + r2);
    lemma_sep_split('|', p1, r1, p2, r2);
    lemma_sep_split('|', b1, spec_dec_i64(t1) + seq!['|'] + n1, b2, spec_dec_i64(t2) + seq!['|']
        + n2);
    lemma_dec_i64_free_of(t1, '|');
    lemma_dec_i64_free_of(t2, '|');
    lemma_sep_split('|', spec_dec_i64(t1), n1, spec_dec_i64(t2), n2);
    crate::text::lemma_dec_i64_injective(t1, t2);
}

/// Two faithfully signed sync reports whose canonical messages agree
/// agree on every field: the canonical message pins the device, delta,
/// quality, uptime, timestamp and nonce, so changing any one of them
/// changes the string that is signed.
pub proof fn lemma_sync_canonical_pins_fields(
    r1: SignedSyncRequest,
    r2: SignedSyncRequest,
    key1: Seq<u8>,
    key2: Seq<u8>,
)
    requires
        r1.signed_under(key1),
        r2.signed_under(key2),
        r1.uptime_seconds >= 0,
        r2.uptime_seconds >= 0,
        seq_free_of(r1.device_id@, '|'),
        seq_free_of(r2.device_id@, '|'),
        r1.canonical_view() == r2.canonical_view(),
    ensures
        r1.device_id@ == r2.device_id@,
        r1.entropy_delta == r2.entropy_delta,
        r1.network_quality == r2.network_quality,
        r1.uptime_seconds == r2.uptime_seconds,
        r1.timestamp == r2.timestamp,
        r1.nonce@ == r2.nonce@,
{
    lemma_sync_path_pipe_free(r1.device_id@);
    lemma_sync_path_pipe_free(r2.device_id@);
    lemma_sync_body_pipe_free(
        r1.entropy_delta as int,
        r1.network_quality as nat,
        r1.uptime_seconds as nat,
    );
    lemma_sync_body_pipe_free(
        r2.entropy_delta as int,
        r2.network_quality as nat,
        r2.uptime_seconds as nat,
    );
    lemma_canonical_injective(
        "POST"@,
        spec_sync_path(r1.device_id@),
        r1.body_view(),
        r1.timestamp as int,
        r1.nonce@,
        spec_sync_path(r2.device_id@),
        r2.body_view(),
        r2.timestamp as int,
        r2.nonce@,
    );
    lemma_sync_path_injective(r1.device_id@, r2.device_id@);
    lemma_sync_body_injective(
        r1.entropy_delta as int,
        r1.network_quality as nat,
        r1.uptime_seconds as nat,
        r2.entropy_delta as int,
        r2.network_quality as nat,
        r2.uptime_seconds as nat,
    );
}

/// Headers attached to every generic signed call.
pub struct SignedCall {
    /// Fresh nonce drawn for this call.
    pub nonce: String,
    /// Hex rendering of the Ed25519 signature over the canonical message.
    pub signature_hex: String,
}

impl SignedCall {
    /// The signature binds the method, path, body, timestamp and this
    /// call's own nonce under `key`.
    pub open spec fn binds(
        &self,
        key: Seq<u8>,
        method: Seq<char>,
        path: Seq<char>,
        body: Seq<char>,
        timestamp: int,
    ) -> bool {
        self.signature_hex@ == spec_hex(
            spec_ed25519_sign_of(
                key,
                encode_utf8(spec_canonical(method, path, body, timestamp, self.nonce@)),
            ),
        )
    }
}

/// Signs a generic request (radar, combat) whose canonical path is the
/// part after the fixed API prefix; the signature is hex-encoded.
pub fn sign_call(
    identity: &DeviceIdentity,
    method: &str,
    path: &str,
    body: &str,
    timestamp: i64,
) -> (r: SignedCall)
    ensures
        r.nonce@.len() == 36,
        r.binds(identity.key_bytes(), method@, path@, body@, timestamp as int),
{
    let nonce = new_nonce();
    let canonical = build_canonical(method, path, body, timestamp, nonce.as_str());
    let sig = identity.sign(canonical.as_str().as_bytes());
    let signature_hex = to_hex(&sig);
    SignedCall { nonce, signature_hex }
}

/// Signs a generic request given a clock reading that may be missing;
/// a missing reading aborts with `ClockUnavailable` before any signing,
/// and nothing else fails.
pub fn sign_call_with_clock(
    identity: &DeviceIdentity,
    method: &str,
    path: &str,
    body: &str,
    clock: Option<i64>,
) -> (r: Result<(SignedCall, i64), SignError>)
    ensures
        clock is None <==> r == Err::<(SignedCall, i64), SignError>(SignError::ClockUnavailable),
        match r {
            Ok((call, ts)) => clock == Some(ts) && call.binds(
                identity.key_bytes(),
                method@,
                path@,
                body@,
                ts as int,
            ),
            Err(e) => e == SignError::ClockUnavailable,
        },
{
    match clock {
        None => Err(SignError::ClockUnavailable),
        Some(ts) => Ok((sign_call(identity, method, path, body, ts), ts)),
    }
}

/// The canonical message of the streaming channel's first frame: the
/// fixed connection endpoint with an empty body position replaced by the
/// frame kind.
pub open spec fn spec_ws_canonical(timestamp: int, nonce: Seq<char>) -> Seq<char> {
    "WS|/ws|AUTH|"@ + spec_dec_i64(timestamp) + "|"@ + nonce
}

/// Signs the streaming channel's authentication frame: whatever instant
/// and nonce are drawn, the returned signature covers exactly them.
pub fn create_auth_signature(identity: &DeviceIdentity) -> (r: (i64, String, String))
    ensures
        r.1@.len() == 36,
        r.2@ == spec_base64_of(
            spec_ed25519_sign_of(
                identity.key_bytes(),
                encode_utf8(spec_ws_canonical(r.0 as int, r.1@)),
            ),
        ),
{
    let timestamp = now_unix();
    let nonce = new_nonce();
    let mut canonical = String::from_str("WS|/ws|AUTH|");
    push_i64(&mut canonical, timestamp);
    canonical.append("|");
    canonical.append(nonce.as_str());
    proof {
        assert(canonical@ =~= spec_ws_canonical(timestamp as int, nonce@));
    }
    let signature = identity.sign_base64(canonical.as_str().as_bytes());
    (timestamp, nonce, signature)
}

} // verus!
