//! Planning a request: the complete URL against the fixed origin, the
//! Authorization header carried only by authenticated calls, the
//! Accept-Language header carried by every call, and the status sets the
//! endpoint declares.

use vstd::prelude::*;

use crate::endpoint::{
    spec_invalid_of, spec_path, spec_policy, spec_requires_auth, spec_valid_of, Endpoint,
};

verus! {

/// The fixed origin every request is made against.
pub open spec fn spec_origin() -> Seq<char> {
    "https://api.guildwars2.com"@
}

/// A client session: the locale sent with every request, and the bearer
/// token carried by authenticated calls. Read-only after construction.
pub struct Session {
    /// Locale to use for requests.
    pub lang: String,
    /// API token to use in endpoints that require authentication.
    pub token: Option<String>,
}

impl Session {
    /// Creates a session around a locale and an optional token.
    pub fn new(lang: &str, token: Option<String>) -> (s: Session)
        ensures
            s.lang@ == lang@,
            s.token == token,
    {
        Session { lang: String::from_str(lang), token }
    }
}

/// Everything the transport needs to perform one GET: assembled by the
/// verified planner, carried out by an unverified HTTP client.
pub struct RequestPlan {
    /// The complete URL: the fixed origin followed by the resolved path.
    pub url: String,
    /// The Authorization header value, present exactly on authenticated
    /// endpoints.
    pub bearer: Option<String>,
    /// The Accept-Language header value, present on every request.
    pub locale: String,
    /// The statuses that dispatch as success.
    pub valid: Vec<u16>,
    /// The statuses that dispatch as a documented failure.
    pub invalid: Vec<u16>,
}

/// The Authorization header value for a token.
pub fn bearer_value(token: &str) -> (h: String)
    ensures
        h@ == "Bearer "@ + token@,
{
    String::from_str("Bearer ").concat(token)
}

/// The complete URL of an endpoint against the fixed origin.
pub fn request_url(endpoint: &Endpoint) -> (u: String)
    ensures
        u@ == spec_origin() + spec_path(*endpoint),
{
    String::from_str("https://api.guildwars2.com").concat(endpoint.path().as_str())
}

/// Plans one GET: resolves the path against the origin, attaches the
/// bearer token exactly when the endpoint requires authentication, the
/// session's locale always, and the endpoint's declared status sets.
///
/// An authenticated endpoint needs a configured token; the caller
/// establishes that before planning.
pub fn plan_request(session: &Session, endpoint: &Endpoint) -> (p: RequestPlan)
    requires
        spec_requires_auth(spec_policy(*endpoint)) ==> session.token is Some,
    ensures
        p.url@ == spec_origin() + spec_path(*endpoint),
        p.locale@ == session.lang@,
        spec_requires_auth(spec_policy(*endpoint)) ==> (p.bearer matches Some(b)
            && session.token matches Some(t) && b@ == "Bearer "@ + t@),
        !spec_requires_auth(spec_policy(*endpoint)) ==> p.bearer is None,
        p.valid@ == spec_valid_of(spec_policy(*endpoint)),
        p.invalid@ == spec_invalid_of(spec_policy(*endpoint)),
{
    let policy = endpoint.policy();
    let bearer = if policy.requires_auth() {
        match &session.token {
            Some(t) => Some(bearer_value(t.as_str())),
            None => None,
        }
    } else {
        None
    };
    RequestPlan {
        url: request_url(endpoint),
        bearer,
        locale: session.lang.clone(),
        valid: policy.valid_statuses(),
        invalid: policy.invalid_statuses(),
    }
}

} // verus!
