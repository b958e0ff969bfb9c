use vstd::prelude::*;

verus! {

/// The argument of a profile fetch.
#[derive(Debug)]
pub struct GetUserArgs {
    pub user_id: String,
}

/// A user's profile as the service hands it out.
#[derive(Debug)]
pub struct GetUserReply {
    pub user_id: String,
    pub email: String,
    pub nickname: String,
    pub created_at: time::OffsetDateTime,
}

/// The arguments of a login. The password is plain text and lives only as
/// long as the request: the type cannot be printed, so that it is never logged.
pub struct LoginUserArgs {
    pub email: String,
    pub nickname: String,
    pub password: String,
}

/// What a successful login hands out: the user's id and a signed token.
#[derive(Debug)]
pub struct LoginUserReply {
    pub user_id: String,
    pub token: String,
}

} // verus!
