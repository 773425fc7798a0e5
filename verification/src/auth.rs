//! Token issuance and validation, and selection of the token-carrying
//! subprotocol offered by a client.
//!
//! A session token is an opaque signed string encoding its issue and expiry
//! times. It is valid at a time `now` exactly when its structure and
//! signature check out against the process-wide secret and `now` is strictly
//! before the expiry claim. The signing and signature checking themselves are
//! done by an outside signing primitive; everything around them — the expiry
//! rule and the subprotocol scan — is verified here.

use serde_json::Value;
use vstd::prelude::*;
use vstd::string::*;

verus! {

/// Seconds a freshly issued token stays valid.
pub const TOKEN_LIFETIME_SECS: i64 = 3600;

/// Why a token was rejected.
#[derive(Debug, Clone, Copy, PartialEq, Eq, Structural)]
pub enum AuthError {
    /// The token does not have the shape of a signed token with the expected
    /// claims.
    Malformed,
    /// The signature does not verify against the secret.
    BadSignature,
    /// Structure and signature are fine, but the expiry time has passed.
    Expired,
}

/// The signing primitive itself failed while issuing a token: a fatal
/// configuration error, not a per-request condition.
#[derive(Debug, Clone, Copy, PartialEq, Eq, Structural)]
pub struct SigningError;

/// The signed token the signing primitive produces for the claims
/// `{iat, exp}` and the given secret. The token is a function of the claims
/// and the secret alone.
pub uninterp spec fn jwt_of(iat: i64, exp: i64, secret: Seq<u8>) -> Seq<char>;

/// What structure-and-signature checking of `token` against `secret` yields:
/// `Ok((iat, exp))` when the token is accepted with those claims; on
/// rejection, `Err(true)` when the signature itself does not verify and
/// `Err(false)` for any other defect (wrong shape, wrong algorithm, missing
/// or non-integer `iat`/`exp`). No clock enters this check, so the outcome —
/// the rejection kind included — is a function of the token and the secret
/// alone.
pub uninterp spec fn jwt_check(token: Seq<char>, secret: Seq<u8>) -> Result<(i64, i64), bool>;

/// The claims of a token: `Some((iat, exp))` when checking accepts it,
/// `None` when it rejects.
pub open spec fn jwt_claims(token: Seq<char>, secret: Seq<u8>) -> Option<(i64, i64)> {
    match jwt_check(token, secret) {
        Ok(c) => Some(c),
        Err(_) => None,
    }
}

/// Relies on `jsonwebtoken::encode` with HS256: the token it returns is a
/// deterministic function of the claims map and the secret, and
/// `jsonwebtoken::decode` with the same secret accepts it and hands back the
/// same claims. For this algorithm — a key taken from a plain secret and a
/// map of integer claims whose serialization cannot fail — encoding always
/// succeeds.
#[verifier::external_body]
fn encode_claims(iat: i64, exp: i64, secret: &[u8]) -> (r: Result<String, SigningError>)
    ensures
        r is Ok,
        r matches Ok(t) ==> t@ == jwt_of(iat, exp, secret@),
        r matches Ok(t) ==> jwt_claims(t@, secret@) == Some((iat, exp)),
{
    let mut claims = std::collections::BTreeMap::new();
    claims.insert("iat", iat);
    claims.insert("exp", exp);
    jsonwebtoken::encode(
        &jsonwebtoken::Header::new(jsonwebtoken::Algorithm::HS256),
        &claims,
        &jsonwebtoken::EncodingKey::from_secret(secret),
    )
    .map_err(|_| SigningError)
}

/// Relies on `jsonwebtoken::decode` with HS256, no built-in expiry check, no
/// required claims and no audience constraint: it verifies the token's
/// structure and signature against the secret and hands back the integer
/// `iat` and `exp` claims, ignoring every other claim, as the data model
/// asks. A token that `jsonwebtoken::encode` made with the same secret is
/// accepted with its own claims; expiry is judged by the caller.
#[verifier::external_body]
fn decode_claims(token: &str, secret: &[u8]) -> (r: Result<(i64, i64), AuthError>)
    ensures
        (match jwt_check(token@, secret@) {
            Ok(c) => r == Ok::<(i64, i64), AuthError>(c),
            Err(sig) => r == Err::<(i64, i64), AuthError>(
                if sig {
                    AuthError::BadSignature
                } else {
                    AuthError::Malformed
                },
            ),
        }),
{
    let mut v = jsonwebtoken::Validation::new(jsonwebtoken::Algorithm::HS256);
    v.required_spec_claims = std::collections::HashSet::new();
    v.validate_exp = false;
    v.validate_aud = false;
    let key = jsonwebtoken::DecodingKey::from_secret(secret);
    match jsonwebtoken::decode::<serde_json::Map<String, Value>>(token, &key, &v) {
        Ok(d) => match (d.claims.get("iat").and_then(Value::as_i64), d.claims.get("exp").and_then(Value::as_i64)) {
            (Some(iat), Some(exp)) => Ok((iat, exp)),
            _ => Err(AuthError::Malformed),
        },
        Err(e) => match e.kind() {
            jsonwebtoken::errors::ErrorKind::InvalidSignature => Err(AuthError::BadSignature),
            _ => Err(AuthError::Malformed),
        },
    }
}

/// Relies on `chrono::Utc::now` for the current Unix timestamp in seconds;
/// nothing is assumed of the value. As in any use of that clock, the call
/// panics if the system clock predates the Unix epoch.
#[verifier::external_body]
fn current_timestamp() -> i64 {
    chrono::Utc::now().timestamp()
}

/// Issue a token whose issue time is `now` and whose expiry is
/// `now + TOKEN_LIFETIME_SECS`, signed with `secret`. Always succeeds: the
/// signing primitive cannot fail for this algorithm and claims shape.
pub fn issue_token_at(secret: &[u8], now: i64) -> (r: Result<String, SigningError>)
    requires
        now + TOKEN_LIFETIME_SECS <= i64::MAX,
    ensures
        r matches Ok(t) && t@ == jwt_of(now, (now + TOKEN_LIFETIME_SECS) as i64, secret@),
        r matches Ok(t) ==> jwt_claims(t@, secret@) == Some(
            (now, (now + TOKEN_LIFETIME_SECS) as i64),
        ),
{
    encode_claims(now, now + TOKEN_LIFETIME_SECS, secret)
}

/// Issue a token at the current time. Always succeeds: the signing
/// primitive cannot fail for this algorithm and claims shape. A clock value
/// too large for the expiry sum to be representable — unreachable for any
/// real clock — is clamped to the largest issue time whose expiry fits.
pub fn issue_token(secret: &[u8]) -> (r: Result<String, SigningError>)
    ensures
        r is Ok,
        r matches Ok(t) ==> (jwt_claims(t@, secret@) matches Some(c) && c.1 == c.0
            + TOKEN_LIFETIME_SECS),
{
    let now = current_timestamp();
    let iat = if now > i64::MAX - TOKEN_LIFETIME_SECS {
        i64::MAX - TOKEN_LIFETIME_SECS
    } else {
        now
    };
    issue_token_at(secret, iat)
}

/// Whether a token is valid at time `now`: its structure and signature check
/// out against `secret` and `now` is strictly before its expiry claim.
pub open spec fn token_valid_at(token: Seq<char>, secret: Seq<u8>, now: i64) -> bool {
    match jwt_claims(token, secret) {
        Some(c) => now < c.1,
        None => false,
    }
}

/// Validate a token against the secret at the given time. Succeeds exactly on
/// valid tokens; an issued token is accepted strictly before its expiry time
/// and rejected as expired at that instant and after.
pub fn validate_token_at(token: &str, secret: &[u8], now: i64) -> (r: Result<(), AuthError>)
    ensures
        r is Ok <==> token_valid_at(token@, secret@, now),
        (jwt_claims(token@, secret@) matches Some(c) && now >= c.1) ==> r == Err::<(), AuthError>(
            AuthError::Expired,
        ),
        (jwt_check(token@, secret@) matches Err(sig) ==> r == Err::<(), AuthError>(
            if sig {
                AuthError::BadSignature
            } else {
                AuthError::Malformed
            },
        )),
{
    match decode_claims(token, secret) {
        Ok((_iat, exp)) => {
            if now < exp {
                Ok(())
            } else {
                Err(AuthError::Expired)
            }
        },
        Err(e) => Err(e),
    }
}

/// Validate a token at the current time.
pub fn validate_token(token: &str, secret: &[u8]) -> (r: Result<(), AuthError>)
    ensures
        exists|now: i64| r is Ok <==> #[trigger] token_valid_at(token@, secret@, now),
        r == Err::<(), AuthError>(AuthError::Expired) ==> jwt_claims(token@, secret@) is Some,
        r == Err::<(), AuthError>(AuthError::BadSignature) ==> jwt_check(token@, secret@)
            == Err::<(i64, i64), bool>(true),
        r == Err::<(), AuthError>(AuthError::Malformed) ==> jwt_check(token@, secret@) == Err::<
            (i64, i64),
            bool,
        >(false),
{
    let now = current_timestamp();
    let r = validate_token_at(token, secret, now);
    proof {
        assert(r is Ok <==> token_valid_at(token@, secret@, now));
    }
    r
}

/// The subprotocol prefix that carries a session token.
pub open spec fn carrier_prefix() -> Seq<char> {
    "access_token."@
}

/// Whether a protocol entry is a token carrier: it starts with the carrier
/// prefix.
pub open spec fn is_carrier(p: Seq<char>) -> bool {
    p.len() >= carrier_prefix().len() && p.subrange(0, carrier_prefix().len() as int)
        == carrier_prefix()
}

/// The token part of a carrier entry: everything after the prefix.
pub open spec fn carrier_token(p: Seq<char>) -> Seq<char> {
    p.subrange(carrier_prefix().len() as int, p.len() as int)
}

/// A protocol entry is accepted at `now` when it is a carrier whose token is
/// valid at `now`.
pub open spec fn protocol_accepted(p: Seq<char>, secret: Seq<u8>, now: i64) -> bool {
    is_carrier(p) && token_valid_at(carrier_token(p), secret, now)
}

/// If the protocol entry starts with the carrier prefix, return its token
/// part.
fn strip_carrier_prefix(p: &str) -> (r: Option<&str>)
    ensures
        r matches Some(t) ==> is_carrier(p@) && t@ == carrier_token(p@),
        r is None ==> !is_carrier(p@),
{
    proof {
        reveal_strlit("access_token.");
    }
    let prefix = "access_token.";
    let n = p.unicode_len();
    if n < 13 {
        return None;
    }
    let mut i: usize = 0;
    while i < 13
        invariant
            0 <= i <= 13,
            n == p@.len(),
            n >= 13,
            carrier_prefix().len() == 13,
            prefix@ == carrier_prefix(),
            forall|j: int| 0 <= j < i ==> p@[j] == carrier_prefix()[j],
        decreases 13 - i,
    {
        if p.get_char(i) != prefix.get_char(i) {
            proof {
                assert(p@.subrange(0, 13)[i as int] != carrier_prefix()[i as int]);
            }
            return None;
        }
        i += 1;
    }
    proof {
        assert(p@.subrange(0, 13) =~= carrier_prefix());
    }
    Some(p.substring_char(13, n))
}

/// The offered protocol list as a sequence of character sequences.
pub open spec fn protocols_view(protocols: Seq<String>) -> Seq<Seq<char>> {
    protocols.map_values(|p: String| p@)
}

/// The scan result as a character-sequence value.
pub open spec fn chosen_view(r: Option<String>) -> Option<Seq<char>> {
    match r {
        Some(p) => Some(p@),
        None => None,
    }
}

/// What a correct scan of the offered subprotocols returns at time `now`:
/// the first entry that is accepted, as the whole protocol string, or `None`
/// when no entry is accepted.
pub open spec fn scan_result_at(
    protocols: Seq<Seq<char>>,
    secret: Seq<u8>,
    now: i64,
    r: Option<Seq<char>>,
) -> bool {
    match r {
        Some(p) => exists|i: int|
            0 <= i < protocols.len() && #[trigger] protocols[i] == p && protocol_accepted(
                p,
                secret,
                now,
            ) && (forall|j: int|
                0 <= j < i ==> !protocol_accepted(#[trigger] protocols[j], secret, now)),
        None => forall|i: int|
            0 <= i < protocols.len() ==> !protocol_accepted(#[trigger] protocols[i], secret, now),
    }
}

/// Scan the offered subprotocol list, in the client's order, for entries of
/// the form `access_token.<token>`, and return the first whole protocol
/// string whose token validates at `now`; `None` when none does.
pub fn validate_ws_token_at(protocols: &Vec<String>, secret: &[u8], now: i64) -> (r: Option<
    String,
>)
    ensures
        scan_result_at(protocols_view(protocols@), secret@, now, chosen_view(r)),
{
    let ghost pv = protocols_view(protocols@);
    let mut i: usize = 0;
    while i < protocols.len()
        invariant
            0 <= i <= protocols.len(),
            pv == protocols_view(protocols@),
            forall|j: int| 0 <= j < i ==> !protocol_accepted(#[trigger] pv[j], secret@, now),
        decreases protocols.len() - i,
    {
        let p = &protocols[i];
        match strip_carrier_prefix(p.as_str()) {
            Some(token) => {
                if validate_token_at(token, secret, now).is_ok() {
                    let out = p.clone();
                    proof {
                        assert(pv[i as int] == p@);
                        assert(protocol_accepted(out@, secret@, now));
                        assert(scan_result_at(pv, secret@, now, Some(out@)));
                    }
                    return Some(out);
                }
            },
            None => {},
        }
        proof {
            assert(!protocol_accepted(pv[i as int], secret@, now));
        }
        i += 1;
    }
    None
}

/// Scan the offered subprotocol list at the current time, as
/// `validate_ws_token_at` does.
pub fn validate_ws_token(protocols: &Vec<String>, secret: &[u8]) -> (r: Option<String>)
    ensures
        exists|now: i64|
            #[trigger] scan_result_at(protocols_view(protocols@), secret@, now, chosen_view(r)),
{
    let now = current_timestamp();
    let r = validate_ws_token_at(protocols, secret, now);
    proof {
        assert(scan_result_at(protocols_view(protocols@), secret@, now, chosen_view(r)));
    }
    r
}

/// Law: a token whose claims are `(iat, exp)` — as every freshly issued
/// token's are, with `exp == iat + TOKEN_LIFETIME_SECS` — is valid at exactly
/// the times strictly before `exp`: validation succeeds at any time strictly
/// before the expiry instant and fails at that instant and after.
pub proof fn lemma_token_validity_window(
    token: Seq<char>,
    secret: Seq<u8>,
    iat: i64,
    exp: i64,
    now: i64,
)
    requires
        jwt_claims(token, secret) == Some((iat, exp)),
    ensures
        token_valid_at(token, secret, now) <==> now < exp,
{
}

} // verus!
