use vstd::prelude::*;

verus! {

/// Prefix of the cache key under which a session's record is stored.
pub const SESSION_KEY_PREFIX: &'static str = "session_id:";

/// Name of the cookie that carries the session token.
pub const SESSION_COOKIE_NAME: &'static str = "session_id";

/// Path of the session cookie.
pub const SESSION_COOKIE_PATH: &'static str = "/";

pub open spec fn session_key_of(token: Seq<char>) -> Seq<char> {
    SESSION_KEY_PREFIX@ + token
}

/// The cache key `session_id:<token>` of a session token.
pub fn session_key(token: &str) -> (r: String)
    ensures
        r@ == session_key_of(token@),
{
    String::from_str(SESSION_KEY_PREFIX).concat(token)
}

/// Instruction to the HTTP layer to set the session cookie.
#[derive(Debug, Clone, PartialEq, Eq)]
pub struct CookieDirective {
    pub name: String,
    pub value: String,
    pub path: String,
    pub http_only: bool,
    pub same_site_lax: bool,
    pub max_age_secs: u64,
}

/// The cookie `session_id=<token>`, path `/`, `HttpOnly`, `SameSite=Lax`,
/// with the session TTL as its max-age.
pub open spec fn is_session_cookie(c: CookieDirective, token: Seq<char>, ttl_secs: u64) -> bool {
    &&& c.name@ == SESSION_COOKIE_NAME@
    &&& c.value@ == token
    &&& c.path@ == SESSION_COOKIE_PATH@
    &&& c.http_only
    &&& c.same_site_lax
    &&& c.max_age_secs == ttl_secs
}

pub fn session_cookie(token: &str, ttl_secs: u64) -> (r: CookieDirective)
    ensures
        is_session_cookie(r, token@, ttl_secs),
{
    CookieDirective {
        name: String::from_str(SESSION_COOKIE_NAME),
        value: String::from_str(token),
        path: String::from_str(SESSION_COOKIE_PATH),
        http_only: true,
        same_site_lax: true,
        max_age_secs: ttl_secs,
    }
}

/// Relies on `Uuid::now_v7` rendered in its hyphenated form: a time-ordered,
/// collision-resistant identifier. Time and randomness decide its value.
#[verifier::external_body]
fn uuid_v7_string() -> (r: String) {
    uuid::Uuid::now_v7().to_string()
}

/// Mints a new session token.
pub fn mint_token() -> (r: String) {
    uuid_v7_string()
}

} // verus!
