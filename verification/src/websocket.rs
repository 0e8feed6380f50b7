//! The streaming channel's message model: the authentication frame the
//! client must send first, the closed set of server push kinds with an
//! explicit unrecognized variant, and the notification texts derived
//! from battle events. The socket itself and the JSON decoding are the
//! caller's business; decoded events are handed in as plain values.

use vstd::prelude::*;
use vstd::string::StringExecFns;
use vstd::string::StrSliceExecFns;
use crate::device::lowercase;
use crate::device::spec_lower_of;
use crate::text::push_i64;
use crate::text::spec_dec_i64;
use crate::text::spec_json_plain;

verus! {

/// A resolved battle this device started.
#[derive(Clone, Debug)]
pub struct BattleResultData {
    pub battle_id: String,
    pub outcome: String,
    pub entropy_looted: String,
}

/// An attack this device suffered.
#[derive(Clone, Debug)]
pub struct BattleAttackedData {
    pub battle_id: String,
    pub attacker_id: String,
    pub outcome: String,
    pub entropy_lost: String,
    pub parasitized: bool,
}

/// A broadcast-worthy battle between two other devices.
#[derive(Clone, Debug)]
pub struct EpicBattleData {
    pub battle_id: String,
    pub attacker_id: String,
    pub defender_id: String,
    pub outcome: String,
    pub entropy_looted: String,
}

/// Every message kind the server pushes; anything unrecognized decodes
/// to `Unknown` and is dropped rather than failing the stream.
#[derive(Clone, Debug)]
pub enum ServerMessage {
    AuthSuccess { device_id: String, subscriptions: Vec<String>, server_time: i64 },
    Ping { timestamp: i64 },
    Pong { timestamp: i64 },
    BattleResult { channel: String, data: BattleResultData },
    BattleAttacked { channel: String, data: BattleAttackedData },
    EpicBattle { channel: String, broadcast_channel: String, data: EpicBattleData },
    Unknown,
}

/// The authentication frame, the exact first text the client sends.
pub open spec fn spec_auth_frame(
    device_id: Seq<char>,
    timestamp: int,
    nonce: Seq<char>,
    signature: Seq<char>,
) -> Seq<char> {
    "{\"type\":\"AUTH\",\"device_id\":\""@ + device_id + "\",\"timestamp\":"@ + spec_dec_i64(
        timestamp,
    ) + ",\"nonce\":\""@ + nonce + "\",\"signature\":\""@ + signature + "\"}"@
}

/// Builds the authentication frame; the inserted strings must need no
/// JSON escaping, which device identifiers, nonces and base64
/// signatures satisfy.
pub fn build_auth_frame(device_id: &str, timestamp: i64, nonce: &str, signature: &str) -> (r:
    String)
    requires
        spec_json_plain(device_id@),
        spec_json_plain(nonce@),
        spec_json_plain(signature@),
    ensures
        r@ == spec_auth_frame(device_id@, timestamp as int, nonce@, signature@),
{
    let mut s = String::from_str("{\"type\":\"AUTH\",\"device_id\":\"");
    s.append(device_id);
    s.append("\",\"timestamp\":");
    push_i64(&mut s, timestamp);
    s.append(",\"nonce\":\"");
    s.append(nonce);
    s.append("\",\"signature\":\"");
    s.append(signature);
    s.append("\"}");
    proof {
        assert(s@ =~= spec_auth_frame(device_id@, timestamp as int, nonce@, signature@));
    }
    s
}

/// The notification a battle-result event shows.
pub open spec fn spec_result_notification(data: BattleResultData) -> Seq<char> {
    "You "@ + spec_lower_of(data.outcome@) + " and looted "@ + data.entropy_looted@ + " entropy!"@
}

/// The notification an under-attack event shows; the attacker is named
/// by the first eight characters of its identifier.
pub open spec fn spec_attacked_notification(data: BattleAttackedData) -> Seq<char> {
    "Attacker: "@ + data.attacker_id@.subrange(0, 8) + "\nLost: "@ + data.entropy_lost@
        + " entropy\nResult: "@ + data.outcome@
}

/// The notification an event raises, as a title and body: battle
/// results and suffered attacks notify, everything else is silent.
pub fn notification_for(msg: &ServerMessage) -> (r: Option<(String, String)>)
    requires
        msg matches ServerMessage::BattleAttacked { data, .. } ==> data.attacker_id@.len() >= 8
            && data.attacker_id.is_ascii(),
    ensures
        match msg {
            ServerMessage::BattleResult { data, .. } => r matches Some((title, body))
                && title@ == "Battle Result"@ && body@ == spec_result_notification(*data),
            ServerMessage::BattleAttacked { data, .. } => r matches Some((title, body))
                && title@ == "Under Attack!"@ && body@ == spec_attacked_notification(*data),
            _ => r is None,
        },
{
    match msg {
        ServerMessage::BattleResult { data, .. } => {
            let mut body = String::from_str("You ");
            let lower = lowercase(data.outcome.as_str());
            body.append(lower.as_str());
            body.append(" and looted ");
            body.append(data.entropy_looted.as_str());
            body.append(" entropy!");
            proof {
                assert(body@ =~= spec_result_notification(*data));
            }
            Some((String::from_str("Battle Result"), body))
        },
        ServerMessage::BattleAttacked { data, .. } => {
            let mut body = String::from_str("Attacker: ");
            body.append(data.attacker_id.as_str().substring_ascii(0, 8));
            body.append("\nLost: ");
            body.append(data.entropy_lost.as_str());
            body.append(" entropy\nResult: ");
            body.append(data.outcome.as_str());
            proof {
                assert(body@ =~= spec_attacked_notification(*data));
            }
            Some((String::from_str("Under Attack!"), body))
        },
        _ => None,
    }
}

} // verus!
