use vstd::prelude::*;

use crate::clock::TIMESTAMP_BOUND;
use crate::jwt_codec::{claims_at, hs256_payload, JwtCodec, UserClaims};

verus! {

/// The status of a request whose bearer token is not accepted.
pub const UNAUTHORIZED: u16 = 401;

/// The authorization gate at the moment `now`: the claims of the bearer
/// token where the codec accepts it, and else the unauthorized status.
pub fn authorize_at(jwt_codec: &JwtCodec, token: &str, now: i64) -> (r: Result<UserClaims, u16>)
    ensures
        match claims_at(hs256_payload(jwt_codec@, token@), now as int) {
            Ok(claims) => r matches Ok(c) && c@ == claims,
            Err(_) => r == Err::<UserClaims, u16>(UNAUTHORIZED),
        },
{
    match jwt_codec.decode_at(token, now) {
        Ok(claims) => Ok(claims),
        Err(_) => Err(UNAUTHORIZED),
    }
}

/// The authorization gate: the claims of the bearer token where the codec
/// accepts it now, and else the unauthorized status.
pub fn authorize(jwt_codec: &JwtCodec, token: &str) -> (r: Result<UserClaims, u16>)
    ensures
        exists|now: int|
            -TIMESTAMP_BOUND < now < TIMESTAMP_BOUND && match #[trigger] claims_at(
                hs256_payload(jwt_codec@, token@),
                now,
            ) {
                Ok(claims) => r matches Ok(c) && c@ == claims,
                Err(_) => r == Err::<UserClaims, u16>(UNAUTHORIZED),
            },
{
    match jwt_codec.decode(token) {
        Ok(claims) => Ok(claims),
        Err(_) => Err(UNAUTHORIZED),
    }
}

} // verus!
