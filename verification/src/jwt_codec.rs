use vstd::prelude::*;
use vstd::string::StringSliceAdditionalSpecFns;

use crate::clock::{now_utc, unix_timestamp, TIMESTAMP_BOUND};

verus! {

#[verifier::external_type_specification]
#[verifier::external_body]
pub struct ExJsonValue(serde_json::Value);

#[verifier::external_type_specification]
#[verifier::external_body]
pub struct ExJwtError(jsonwebtoken::errors::Error);

/// The longest token lifetime for which `issued_at + lifetime` cannot leave
/// the range of `i64`, whatever the clock says.
pub const MAX_TTL_SECONDS: u64 = 0x7FFE_FFFF_FFFF_FFFF;

/// The payload of an identity token.
#[derive(Debug, Clone)]
pub struct UserClaims {
    /// Subject (user id).
    pub sub: String,
    /// Issued-at (seconds since epoch).
    pub iat: i64,
    /// Expiration (seconds since epoch).
    pub exp: i64,
    /// An optional payload that the library carries and never reads.
    pub extra: Option<serde_json::Value>,
}

/// The mathematical content of a [`UserClaims`].
pub struct ClaimsView {
    pub sub: Seq<char>,
    pub iat: int,
    pub exp: int,
    pub extra: Option<serde_json::Value>,
}

impl View for UserClaims {
    type V = ClaimsView;

    open spec fn view(&self) -> ClaimsView {
        ClaimsView { sub: self.sub@, iat: self.iat as int, exp: self.exp as int, extra: self.extra }
    }
}

impl ClaimsView {
    /// The validity window is not empty: the token expires after it was issued.
    pub open spec fn wf(self) -> bool {
        self.iat < self.exp
    }
}

/// The members that a token's payload holds, each where it is present with
/// the type that a claim of that name must have.
pub struct TokenPayload {
    pub sub: Option<String>,
    pub iat: Option<i64>,
    pub exp: Option<i64>,
    pub extra: Option<serde_json::Value>,
}

/// The mathematical content of a [`TokenPayload`].
pub struct PayloadView {
    pub sub: Option<Seq<char>>,
    pub iat: Option<int>,
    pub exp: Option<int>,
    pub extra: Option<serde_json::Value>,
}

impl View for TokenPayload {
    type V = PayloadView;

    open spec fn view(&self) -> PayloadView {
        PayloadView {
            sub: match self.sub {
                Some(s) => Some(s@),
                None => None,
            },
            iat: match self.iat {
                Some(t) => Some(t as int),
                None => None,
            },
            exp: match self.exp {
                Some(t) => Some(t as int),
                None => None,
            },
            extra: self.extra,
        }
    }
}

/// The compact HS256 token that `jsonwebtoken::encode` makes of `claims`
/// under `secret`, or `None` where it refuses.
pub uninterp spec fn hs256_token(secret: Seq<u8>, claims: ClaimsView) -> Option<Seq<char>>;

/// The payload that `jsonwebtoken::decode` finds in `token` when it checks
/// structure and HS256 signature under `secret` and leaves the expiry alone,
/// or `None` where it refuses the token.
pub uninterp spec fn hs256_payload(secret: Seq<u8>, token: Seq<char>) -> Option<PayloadView>;

/// Whether `payload` shows exactly `claims`: the subject, the issue time and
/// the expiry are present and are those of the claims, and the extra payload
/// is that of the claims.
pub open spec fn carries(payload: PayloadView, claims: ClaimsView) -> bool {
    &&& payload.sub == Some(claims.sub)
    &&& payload.iat == Some(claims.iat)
    &&& payload.exp == Some(claims.exp)
    &&& payload.extra == claims.extra
}

/// Calls `jsonwebtoken::encode` with an HS256 header, a JSON object of the
/// claims' members in their declared order (`extra` only where present) and
/// the key `EncodingKey::from_secret(secret)`. The outside function serialises,
/// encodes and signs without reading anything but its arguments, so its result
/// has a name. Of claims without an extra payload it writes a flat object of
/// one string and two integers, and a token it made of such claims is one
/// that `jsonwebtoken::decode` accepts under the same secret, showing the
/// same subject and times and no extra payload. Of claims with an extra
/// payload nothing of the kind is claimed: the outside parser refuses what is
/// nested too deep, and reads a JSON `null` as no payload.
#[verifier::external_body]
fn hs256_sign(secret: &[u8], claims: &UserClaims) -> (r: Result<String, jsonwebtoken::errors::Error>)
    ensures
        hs256_token(secret@, claims@) == match r {
            Ok(token) => Some(token@),
            Err(_) => None,
        },
        claims@.extra is None ==> (r matches Ok(token) ==> hs256_payload(secret@, token@) matches Some(
            payload,
        ) && carries(payload, claims@)),
{
    let mut payload = serde_json::Map::new();
    payload.insert("sub".to_string(), serde_json::Value::from(claims.sub.as_str()));
    payload.insert("iat".to_string(), serde_json::Value::from(claims.iat));
    payload.insert("exp".to_string(), serde_json::Value::from(claims.exp));
    payload.extend(claims.extra.iter().map(|extra| ("extra".to_string(), extra.clone())));
    let header = jsonwebtoken::Header::new(jsonwebtoken::Algorithm::HS256);
    jsonwebtoken::encode(&header, &payload, &jsonwebtoken::EncodingKey::from_secret(secret))
}

/// Calls `jsonwebtoken::decode` for HS256 with the key
/// `DecodingKey::from_secret(secret)`, the expiry check switched off and no
/// member required, and picks the four members out of the payload it returns.
/// The outside function checks the token's three-part structure, its header
/// and its signature, refuses a payload that is no JSON object or that names
/// an audience, and reads nothing but its arguments, so its result has a name.
#[verifier::external_body]
fn hs256_open(secret: &[u8], token: &str) -> (r: Result<TokenPayload, jsonwebtoken::errors::Error>)
    ensures
        hs256_payload(secret@, token@) == match r {
            Ok(payload) => Some(payload@),
            Err(_) => None,
        },
{
    let mut validation = jsonwebtoken::Validation::new(jsonwebtoken::Algorithm::HS256);
    validation.validate_exp = false;
    validation.required_spec_claims.clear();
    let key = jsonwebtoken::DecodingKey::from_secret(secret);
    let members = jsonwebtoken::decode::<std::collections::HashMap<String, Option<serde_json::Value>>>(
        token, &key, &validation)?.claims;
    let member = |name: &str| members.get(name).cloned().flatten();
    Ok(TokenPayload {
        sub: member("sub").and_then(|v| v.as_str().map(str::to_owned)),
        iat: member("iat").and_then(|v| v.as_i64()),
        exp: member("exp").and_then(|v| v.as_i64()),
        extra: member("extra"),
    })
}

/// Why a token could not be made or was not accepted.
#[derive(Debug)]
pub enum CodecError {
    /// The signing library refused: to sign, or to accept a token's structure,
    /// header or signature.
    Rejected(jsonwebtoken::errors::Error),
    /// The payload lacks a subject, an issue time or an expiry.
    MissingClaim,
    /// The token's expiry lies before the moment of decoding.
    Expired,
}

pub type CodecResult<T> = Result<T, CodecError>;

/// Whether `result` is the failure of the same kind as `error`.
pub open spec fn fails_as<T>(result: CodecResult<T>, error: CodecFault) -> bool {
    result matches Err(e) && e.fault() == error
}

/// The kind of a [`CodecError`], without what it carries.
#[derive(PartialEq, Eq, Structural, Clone, Copy, Debug)]
pub enum CodecFault {
    Rejected,
    MissingClaim,
    Expired,
}

impl CodecError {
    pub open spec fn fault(&self) -> CodecFault {
        match self {
            CodecError::Rejected(_) => CodecFault::Rejected,
            CodecError::MissingClaim => CodecFault::MissingClaim,
            CodecError::Expired => CodecFault::Expired,
        }
    }
}

/// What decoding a token with the given payload yields at the moment `now`:
/// the claims, where subject, issue time and expiry are all present and the
/// expiry has not passed.
pub open spec fn claims_at(payload: Option<PayloadView>, now: int) -> Result<ClaimsView, CodecFault> {
    match payload {
        None => Err(CodecFault::Rejected),
        Some(p) => if p.sub is None || p.iat is None || p.exp is None {
            Err(CodecFault::MissingClaim)
        } else if p.exp->0 < now {
            Err(CodecFault::Expired)
        } else {
            Ok(ClaimsView { sub: p.sub->0, iat: p.iat->0, exp: p.exp->0, extra: p.extra })
        },
    }
}

/// A payload with subject, issue time and expiry decodes exactly up to its
/// expiry: to its claims at every moment that is not later, and to the
/// failure as expired at every later one.
pub proof fn law_decode_window(payload: PayloadView, now: int)
    requires
        payload.sub is Some,
        payload.iat is Some,
        payload.exp is Some,
    ensures
        now <= payload.exp->0 <==> claims_at(Some(payload), now) is Ok,
        payload.exp->0 < now <==> claims_at(Some(payload), now) == Err::<ClaimsView, CodecFault>(
            CodecFault::Expired,
        ),
        claims_at(Some(payload), now) matches Ok(claims) ==> carries(payload, claims),
{
}

/// What a token whose payload shows `claims` decodes to at the moment `now`:
/// the claims up to their expiry, and the failure as expired after it.
pub open spec fn within_expiry(claims: ClaimsView, now: int) -> Result<ClaimsView, CodecFault> {
    if now <= claims.exp {
        Ok(claims)
    } else {
        Err(CodecFault::Expired)
    }
}

/// Decoding gives back what encoding took: a token whose payload shows the
/// claims it was made from decodes to exactly those claims at every moment up
/// to their expiry, and is refused as expired at every later one.
pub proof fn law_decode_restores_claims(secret: Seq<u8>, claims: ClaimsView, token: Seq<char>, now: int)
    requires
        hs256_payload(secret, token) matches Some(payload) && carries(payload, claims),
    ensures
        claims_at(hs256_payload(secret, token), now) == within_expiry(claims, now),
{
}

/// Tokens tell their claims apart: two tokens whose payloads show claims
/// that differ in subject, issue time or expiry are different tokens. So the
/// tokens issued to one subject at different moments differ.
pub proof fn law_tokens_differ(
    secret: Seq<u8>,
    first: ClaimsView,
    second: ClaimsView,
    first_token: Seq<char>,
    second_token: Seq<char>,
)
    requires
        hs256_payload(secret, first_token) matches Some(payload) && carries(payload, first),
        hs256_payload(secret, second_token) matches Some(payload) && carries(payload, second),
        first.sub != second.sub || first.iat != second.iat || first.exp != second.exp,
    ensures
        first_token != second_token,
{
}

/// Whether `result` is what `expected` describes.
pub open spec fn decodes_to(result: CodecResult<UserClaims>, expected: Result<ClaimsView, CodecFault>) -> bool {
    match expected {
        Ok(claims) => result matches Ok(c) && c@ == claims,
        Err(fault) => fails_as(result, fault),
    }
}

/// The claims that are issued to `sub` at `now` for `ttl` seconds.
pub open spec fn issued_claims(sub: Seq<char>, now: int, ttl: int) -> ClaimsView {
    ClaimsView { sub, iat: now, exp: now + ttl, extra: None }
}

impl UserClaims {
    /// Claims for `sub`, issued at `now` and valid for `ttl_seconds`.
    pub fn issued(sub: &str, now: i64, ttl_seconds: usize) -> (claims: Self)
        requires
            0 < ttl_seconds <= i64::MAX,
            now + ttl_seconds <= i64::MAX,
        ensures
            claims@ == issued_claims(sub@, now as int, ttl_seconds as int),
            claims@.wf(),
    {
        Self { sub: sub.to_owned(), iat: now, exp: now + ttl_seconds as i64, extra: None }
    }

    /// Create new claims for `sub` with a TTL in seconds from now.
    pub fn with_exp(sub: &str, ttl_seconds: usize) -> (claims: Self)
        requires
            0 < ttl_seconds <= MAX_TTL_SECONDS,
        ensures
            claims@ == issued_claims(sub@, claims@.iat, ttl_seconds as int),
            claims@.wf(),
            -TIMESTAMP_BOUND < claims@.iat < TIMESTAMP_BOUND,
    {
        let now = unix_timestamp(now_utc());
        Self::issued(sub, now, ttl_seconds)
    }
}

/// Token encoder/decoder using HMAC HS256 under one shared secret.
pub struct JwtCodec {
    secret: Vec<u8>,
}

impl View for JwtCodec {
    type V = Seq<u8>;

    closed spec fn view(&self) -> Seq<u8> {
        self.secret@
    }
}

impl JwtCodec {
    /// Create a new codec from a shared secret (HMAC HS256).
    pub fn new(secret: &str) -> (codec: Self)
        ensures
            codec@ == secret.spec_bytes(),
    {
        Self { secret: vstd::slice::slice_to_vec(secret.as_bytes()) }
    }

    /// Encode claims into a compact token string, signed with HS256.
    ///
    /// The token is a function of the secret and the claims alone. A token
    /// made of claims without an extra payload, decoded under the same secret,
    /// yields exactly those claims at every moment up to their expiry, and is
    /// refused as expired at every later one. Of claims with an extra payload
    /// the token is made all the same; what decoding makes of the extra
    /// payload is the signing library's matter and is not stated here.
    pub fn encode(&self, claims: &UserClaims) -> (r: CodecResult<String>)
        ensures
            match hs256_token(self@, claims@) {
                Some(token) => r matches Ok(t) && t@ == token,
                None => fails_as(r, CodecFault::Rejected),
            },
            claims@.extra is None ==> (r matches Ok(t) ==> hs256_payload(self@, t@) matches Some(
                payload,
            ) && carries(payload, claims@)),
            claims@.extra is None ==> (r matches Ok(t) ==> forall|now: int|
                (#[trigger] claims_at(hs256_payload(self@, t@), now)) == within_expiry(claims@, now)),
    {
        match hs256_sign(self.secret.as_slice(), claims) {
            Ok(token) => Ok(token),
            Err(error) => Err(CodecError::Rejected(error)),
        }
    }

    /// Decode and validate a token at the moment `now` (seconds since epoch).
    pub fn decode_at(&self, token: &str, now: i64) -> (r: CodecResult<UserClaims>)
        ensures
            decodes_to(r, claims_at(hs256_payload(self@, token@), now as int)),
    {
        let payload = match hs256_open(self.secret.as_slice(), token) {
            Ok(payload) => payload,
            Err(error) => { return Err(CodecError::Rejected(error)); },
        };
        match (payload.sub, payload.iat, payload.exp) {
            (Some(sub), Some(iat), Some(exp)) => {
                if exp < now {
                    Err(CodecError::Expired)
                } else {
                    Ok(UserClaims { sub, iat, exp, extra: payload.extra })
                }
            },
            _ => Err(CodecError::MissingClaim),
        }
    }

    /// Decode and validate a token string, returning the contained
    /// `UserClaims`. The expiry is held against the machine's clock.
    pub fn decode(&self, token: &str) -> (r: CodecResult<UserClaims>)
        ensures
            exists|now: int|
                -TIMESTAMP_BOUND < now < TIMESTAMP_BOUND && decodes_to(
                    r,
                    #[trigger] claims_at(hs256_payload(self@, token@), now),
                ),
    {
        let now = unix_timestamp(now_utc());
        self.decode_at(token, now)
    }
}

} // verus!
