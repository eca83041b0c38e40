//! Issuing and checking the JSON Web Tokens (HS512) that authenticate users,
//! and the decisions of the authentication middleware.
use vstd::prelude::*;
use vstd::utf8::encode_utf8;

use jsonwebtoken::{decode, encode, Algorithm, DecodingKey, EncodingKey, Header, Validation};

use crate::clock::{now_timestamp, MAX_TIMESTAMP};
use crate::crypto_manager::{is_uuid_v4, new_uuid};
use crate::text::{last_segment, last_segment_of, remove_char, without_char};

verus! {

/// The largest lifetime, in seconds either way, that `chrono`'s
/// `Duration::seconds` accepts (`i64::MAX / 1000`).
pub const MAX_LIFETIME: i64 = 9_223_372_036_854_775;

/// The claims that a token carries.
#[derive(Debug)]
pub struct Claims {
    pub iat: i64,
    pub exp: usize,
    pub jti: String,
    pub user_id: String,
}

impl View for Claims {
    type V = (i64, usize, Seq<char>, Seq<char>);

    open spec fn view(&self) -> (i64, usize, Seq<char>, Seq<char>) {
        (self.iat, self.exp, self.jti@, self.user_id@)
    }
}

/// A token handed to a user, with its lifetime in seconds.
#[derive(Debug)]
pub struct Token {
    pub token: String,
    pub lifetime: i64,
}

/// What the authentication middleware decides for a request.
#[derive(Debug)]
pub enum AuthDecision {
    /// Let the request through.
    Allow,
    /// Refuse it with 403 and this message.
    Forbidden(String),
    /// Refuse it with 401 and this message.
    Unauthorized(String),
}

/// The token that `jsonwebtoken::encode` produces under HS512 with `secret`
/// for the claims `{iat, exp, jti, user_id}`.
pub uninterp spec fn hs512_token(
    iat: i64,
    exp: usize,
    jti: Seq<char>,
    user_id: Seq<char>,
    secret: Seq<u8>,
) -> Seq<char>;

/// The claims that `jsonwebtoken::decode` finds in `token`, read as a JSON
/// object, when its HS512 signature under `secret` is valid and it has the
/// four claims with their types; `None` otherwise. Expiry is not looked at;
/// of a claim written twice, the last value counts.
pub uninterp spec fn hs512_claims(token: Seq<char>, secret: Seq<u8>) -> Option<
    (i64, usize, Seq<char>, Seq<char>),
>;

/// The bytes of a signing secret given as text.
pub open spec fn secret_bytes(secret: Seq<char>) -> Seq<u8> {
    encode_utf8(secret)
}

/// The claims of `token` when it is signed with `secret` and has not
/// expired at `now`: what `check_token` accepts.
pub open spec fn valid_claims(token: Seq<char>, secret: Seq<char>, now: i64) -> Option<
    (i64, usize, Seq<char>, Seq<char>),
> {
    match hs512_claims(token, secret_bytes(secret)) {
        Some(c) => if (now as usize) >= c.1 {
            None
        } else {
            Some(c)
        },
        None => None,
    }
}

/// The view of optional claims.
pub open spec fn view_claims(c: Option<Claims>) -> Option<(i64, usize, Seq<char>, Seq<char>)> {
    match c {
        Some(c) => Some(c@),
        None => None,
    }
}

/// The expiry of a token issued for `lifetime` seconds when the clock reads `now`.
pub open spec fn expiry_after(now: i64, lifetime: i64) -> usize {
    (now + lifetime) as usize
}

/// Calls `jsonwebtoken::encode` with `Header::new(Algorithm::HS512)`, the
/// claims `iat`, `exp`, `jti`, `user_id` (in that order, as a JSON object)
/// and `EncodingKey::from_secret(secret)`. Claims that the token is the one
/// named by `hs512_token`, and that `jsonwebtoken::decode` with the same
/// secret finds these claims in it again.
#[verifier::external_body]
fn encode_hs512(iat: i64, exp: usize, jti: &str, user_id: &str, secret: &[u8]) -> (res: String)
    ensures
        res@ == hs512_token(iat, exp, jti@, user_id@, secret@),
        hs512_claims(res@, secret@) == Some((iat, exp, jti@, user_id@)),
{
    let mut claims = serde_json::Map::new();
    claims.insert("iat".to_string(), iat.into());
    claims.insert("exp".to_string(), exp.into());
    claims.insert("jti".to_string(), jti.into());
    claims.insert("user_id".to_string(), user_id.into());
    let key = EncodingKey::from_secret(secret);
    encode(&Header::new(Algorithm::HS512), &claims, &key).expect("error on token generation")
}

/// Calls `jsonwebtoken::decode` with `DecodingKey::from_secret(secret)` and
/// `Validation::new(Algorithm::HS512)` whose `validate_exp` is off (the time
/// is checked by the caller), reading the claims `iat` (i64), `exp`
/// (unsigned), `jti` and `user_id` (strings) from the claims read as a JSON
/// object (a claim written twice keeps its last value). Claims that the
/// result is the one named by `hs512_claims`.
#[verifier::external_body]
fn decode_hs512(token: &str, secret: &[u8]) -> (res: Option<(i64, usize, String, String)>)
    ensures
        match res {
            Some(c) => hs512_claims(token@, secret@) == Some((c.0, c.1, c.2@, c.3@)),
            None => hs512_claims(token@, secret@) is None,
        },
{
    let mut validation = Validation::new(Algorithm::HS512);
    validation.validate_exp = false;
    let key = DecodingKey::from_secret(secret);
    let c = decode::<serde_json::Map<String, serde_json::Value>>(token, &key, &validation).ok()?.claims;
    let exp = usize::try_from(c.get("exp")?.as_u64()?).ok()?;
    let jti = c.get("jti")?.as_str()?.to_string();
    let user_id = c.get("user_id")?.as_str()?.to_string();
    Some((c.get("iat")?.as_i64()?, exp, jti, user_id))
}

/// Issues a token for `user_id`, signed with `secret` and valid for
/// `lifetime` seconds, with `iat` as its issue time, `later` as the clock
/// reading its expiry counts from, and `jti` as its id. The token is
/// accepted under `secret`, with exactly these claims, until it expires.
pub fn generate_token_at(
    user_id: &str,
    secret: &str,
    lifetime: i64,
    iat: i64,
    later: i64,
    jti: String,
) -> (res: Token)
    requires
        0 <= later <= MAX_TIMESTAMP,
        -MAX_LIFETIME <= lifetime <= MAX_LIFETIME,
    ensures
        res.lifetime == lifetime,
        res.token@ == hs512_token(
            iat,
            expiry_after(later, lifetime),
            jti@,
            user_id@,
            secret_bytes(secret@),
        ),
        forall|now: i64| #[trigger]
            valid_claims(res.token@, secret@, now) == (if (now as usize) < expiry_after(
                later,
                lifetime,
            ) {
                Some((iat, expiry_after(later, lifetime), jti@, user_id@))
            } else {
                None
            }),
{
    let exp = (later + lifetime) as usize;
    let token = encode_hs512(iat, exp, jti.as_str(), user_id, secret.as_bytes());
    Token { token, lifetime }
}

/// `token` is the token issued for `user_id`, signed with `secret`, at time
/// `iat` with the id `jti` and valid for `lifetime` seconds: its claims are
/// `iat`, the expiry `iat + lifetime`, `jti` and `user_id`, and it is
/// accepted exactly before that expiry.
pub open spec fn token_issued_at(
    token: Seq<char>,
    user_id: Seq<char>,
    secret: Seq<char>,
    lifetime: i64,
    iat: i64,
    jti: Seq<char>,
) -> bool {
    &&& token == hs512_token(iat, expiry_after(iat, lifetime), jti, user_id, secret_bytes(secret))
    &&& forall|now: i64| #[trigger]
        valid_claims(token, secret, now) == (if (now as usize) < expiry_after(iat, lifetime) {
            Some((iat, expiry_after(iat, lifetime), jti, user_id))
        } else {
            None
        })
}

/// Issues a token for `user_id`, signed with `secret` and valid for
/// `lifetime` seconds from now: one reading of the clock gives both its
/// issue time and the time its expiry counts from.
pub fn generate_token(user_id: &str, secret: &str, lifetime: i64) -> (res: Token)
    requires
        -MAX_LIFETIME <= lifetime <= MAX_LIFETIME,
    ensures
        res.lifetime == lifetime,
        exists|iat: i64, jti: Seq<char>|
            {
                &&& 0 <= iat <= MAX_TIMESTAMP
                &&& is_uuid_v4(jti)
                &&& token_issued_at(res.token@, user_id@, secret@, lifetime, iat, jti)
            },
{
    let now = now_timestamp();
    let jti = new_uuid();
    let ghost jti_view = jti@;
    let res = generate_token_at(user_id, secret, lifetime, now, now, jti);
    assert(token_issued_at(res.token@, user_id@, secret@, lifetime, now, jti_view));
    res
}

/// A token issued for `lifetime` seconds at time `iat` carries `iat` and an
/// expiry exactly `lifetime` seconds later; at any time from `iat` on it is
/// accepted, with those claims, before that expiry and refused from then on.
/// (Expiries are `usize` seconds; the times here fit in one.)
pub proof fn law_token_lives_for_its_lifetime(
    token: Seq<char>,
    user_id: Seq<char>,
    secret: Seq<char>,
    lifetime: i64,
    iat: i64,
    jti: Seq<char>,
    now: i64,
)
    requires
        0 <= iat <= MAX_TIMESTAMP,
        0 < lifetime <= MAX_LIFETIME,
        iat + lifetime <= usize::MAX,
        token_issued_at(token, user_id, secret, lifetime, iat, jti),
        iat <= now <= usize::MAX,
    ensures
        valid_claims(token, secret, iat) == Some((iat, (iat + lifetime) as usize, jti, user_id)),
        (iat + lifetime) as usize == iat + lifetime,
        valid_claims(token, secret, now) is Some <==> now < iat + lifetime,
        now < iat + lifetime ==> valid_claims(token, secret, now) == valid_claims(token, secret, iat),
{
}

/// The claims of `token` when it is signed with `secret` and has not
/// expired at `now`.
pub fn check_token_at(token: &str, secret: &str, now: i64) -> (res: Option<Claims>)
    ensures
        view_claims(res) == valid_claims(token@, secret@, now),
{
    let (iat, exp, jti, user_id) = match decode_hs512(token, secret.as_bytes()) {
        Some(c) => c,
        None => {
            return None;
        },
    };
    if (now as usize) >= exp {
        return None;
    }
    Some(Claims { iat, exp, jti, user_id })
}

/// The claims of `token` when it is signed with `secret` and has not
/// expired yet.
pub fn check_token(token: &str, secret: &str) -> (res: Option<Claims>)
    ensures
        exists|now: i64|
            0 <= now <= MAX_TIMESTAMP && view_claims(res) == valid_claims(token@, secret@, now),
{
    let now = now_timestamp();
    check_token_at(token, secret, now)
}

/// Revoking a token's credentials: nothing is done here yet.
pub fn revoke_creds(jti: &str) {
}

/// The paths that need no token.
pub open spec fn is_public_path(path: Seq<char>) -> bool {
    path == "/user/login"@ || path == "/user/register"@
}

/// The decision of the authentication middleware at time `now` for a
/// request to `path` that carries the bearer token `bearer`, if any, with
/// tokens signed by `secret`.
pub open spec fn auth_outcome(
    path: Seq<char>,
    bearer: Option<Seq<char>>,
    secret: Seq<char>,
    now: i64,
) -> (
    u16,
    Seq<char>,
) {
    if is_public_path(path) {
        (200, Seq::empty())
    } else {
        match bearer {
            None => (403, "bearer missing"@),
            Some(token) => match valid_claims(token, secret, now) {
                None => (401, "unauthorized"@),
                Some(_) => (200, Seq::empty()),
            },
        }
    }
}

/// The status (200 for allowed) and message of a decision.
pub open spec fn auth_view(d: AuthDecision) -> (u16, Seq<char>) {
    match d {
        AuthDecision::Allow => (200, Seq::empty()),
        AuthDecision::Forbidden(m) => (403, m@),
        AuthDecision::Unauthorized(m) => (401, m@),
    }
}

/// The view of an optional string.
pub open spec fn view_text(s: Option<&str>) -> Option<Seq<char>> {
    match s {
        Some(s) => Some(s@),
        None => None,
    }
}

/// Whether `a` and `b` hold the same text.
fn same_text(a: &str, b: &str) -> (res: bool)
    ensures
        res == (a@ == b@),
{
    a.to_owned() == b.to_owned()
}

/// The middleware's decision at time `now`: the login and registration paths
/// pass, any other request needs a bearer token that `check_token` accepts.
pub fn authorize_at(path: &str, bearer: Option<&str>, secret: &str, now: i64) -> (res:
    AuthDecision)
    ensures
        auth_view(res) == auth_outcome(path@, view_text(bearer), secret@, now),
{
    if same_text(path, "/user/login") || same_text(path, "/user/register") {
        return AuthDecision::Allow;
    }
    let token = match bearer {
        Some(token) => token,
        None => {
            return AuthDecision::Forbidden("bearer missing".to_owned());
        },
    };
    match check_token_at(token, secret, now) {
        Some(_) => AuthDecision::Allow,
        None => AuthDecision::Unauthorized("unauthorized".to_owned()),
    }
}

/// The middleware's decision for a request to `path` with the bearer token
/// `bearer`, if any, as the clock reads now; tokens are signed by `secret`.
pub fn jwt_validator(path: &str, bearer: Option<&str>, secret: &str) -> (res: AuthDecision)
    ensures
        exists|now: i64|
            0 <= now <= MAX_TIMESTAMP && auth_view(res) == auth_outcome(
                path@,
                view_text(bearer),
                secret@,
                now,
            ),
{
    let now = now_timestamp();
    authorize_at(path, bearer, secret, now)
}

/// The token in an `Authorization` header, given as the header value's
/// debug text (`"Bearer xyz"` with its quotes): the quotes are dropped and
/// what follows the last space is kept. `None` when there is no header.
pub fn token_from_header(header: Option<&str>) -> (res: Option<String>)
    ensures
        match header {
            None => res is None,
            Some(h) => res matches Some(t) && t@ == last_segment(without_char(h@, '"'), ' '),
        },
{
    match header {
        None => None,
        Some(h) => {
            let unquoted = remove_char(h, '"');
            Some(last_segment_of(unquoted.as_str(), ' '))
        },
    }
}

} // verus!
