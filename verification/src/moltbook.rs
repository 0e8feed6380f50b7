//! The reputation feed: the profile endpoint's address and the rules
//! that turn a fetched profile into a karma value or a refusal. The
//! HTTP call itself is the caller's business.

use vstd::prelude::*;
use vstd::string::StringExecFns;

verus! {

/// The human owner attached to an agent profile, where claimed.
#[derive(Clone, Debug)]
pub struct MoltbookOwner {
    pub x_handle: Option<String>,
    pub x_name: Option<String>,
    pub x_avatar: Option<String>,
    pub x_bio: Option<String>,
    pub x_follower_count: Option<u32>,
    pub x_following_count: Option<u32>,
    pub x_verified: Option<bool>,
}

/// An agent profile as the feed reports it.
#[derive(Clone, Debug)]
pub struct MoltbookAgent {
    pub name: String,
    pub description: Option<String>,
    pub karma: u64,
    pub follower_count: Option<u32>,
    pub following_count: Option<u32>,
    pub is_claimed: bool,
    pub is_active: bool,
    pub created_at: Option<String>,
    pub last_active: Option<String>,
    pub owner: Option<MoltbookOwner>,
}

/// The profile endpoint's whole answer.
#[derive(Clone, Debug)]
pub struct MoltbookProfileResponse {
    pub success: bool,
    pub agent: MoltbookAgent,
}

/// Why a fetched profile yields no karma value.
#[derive(Clone, Copy, Debug, PartialEq, Eq, Structural)]
pub enum MoltbookError {
    /// The feed answered but flagged the request as unsuccessful.
    NotSuccessful,
}

/// The karma a fetched profile carries: the agent's karma exactly when
/// the feed flagged success, a refusal otherwise. An unclaimed or
/// inactive agent still yields its karma; those flags are advisory.
pub fn extract_karma(profile: &MoltbookProfileResponse) -> (r: Result<u64, MoltbookError>)
    ensures
        profile.success ==> r == Ok::<u64, MoltbookError>(profile.agent.karma),
        !profile.success ==> r == Err::<u64, MoltbookError>(MoltbookError::NotSuccessful),
{
    if !profile.success {
        return Err(MoltbookError::NotSuccessful);
    }
    Ok(profile.agent.karma)
}

/// What the profile request's address is made of.
pub uninterp spec fn spec_urlencoded_of(s: Seq<char>) -> Seq<char>;

/// Relies on urlencoding::encode: percent-encoding determined by the
/// input characters alone; an empty input stays empty.
#[verifier::external_body]
pub fn urlencode(s: &str) -> (r: String)
    ensures
        r@ == spec_urlencoded_of(s@),
        s@.len() == 0 ==> r@.len() == 0,
{
    urlencoding::encode(s).into_owned()
}

/// The profile request's address: the feed's base, the fixed profile
/// path, and the percent-encoded agent name.
pub fn build_profile_url(api_url: &str, agent_name: &str) -> (r: String)
    ensures
        r@ == api_url@ + "/api/v1/agents/profile?name="@ + spec_urlencoded_of(agent_name@),
{
    let mut s = String::from_str(api_url);
    s.append("/api/v1/agents/profile?name=");
    let encoded = urlencode(agent_name);
    s.append(encoded.as_str());
    proof {
        assert(s@ =~= api_url@ + "/api/v1/agents/profile?name="@ + spec_urlencoded_of(
            agent_name@,
        ));
    }
    s
}

} // verus!
