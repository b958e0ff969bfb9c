use argon2::{PasswordHasher, PasswordVerifier};
use vstd::prelude::*;

pub mod flow;

use crate::clock::{now_utc, unix_timestamp, TIMESTAMP_BOUND};
use crate::config::AppConfig;
use crate::jwt_codec::{
    carries, claims_at, hs256_payload, hs256_token, issued_claims, ClaimsView, CodecError,
    CodecFault, JwtCodec, UserClaims,
};
use crate::model::user::{LoginUserArgs, LoginUserReply};
use crate::repo::table::{
    committed, conflicts, inserted, record_of, row_by_email, UserTable, UserTransaction,
};
use crate::repo::user::RecordView;
use crate::service::auth::flow::{
    asks_insert, carries_token, LoginAction, LoginEvent, LoginState, CONFLICT, INVALID_PASSWORD,
    LOGGED_IN, REGISTERED,
};
use crate::service::result::{InterResult, ServiceError, ServiceResult};

verus! {

/// What `argon2`'s `verify_password` says of `password` against the encoded
/// hash string `hash`: `Some(true)` where the hash was made from this password,
/// `Some(false)` where it was not, `None` where the string is no well-formed
/// hash or names parameters that the algorithm refuses.
pub uninterp spec fn argon2_verdict(password: Seq<char>, hash: Seq<char>) -> Option<bool>;

/// Calls `SaltString::generate` on the operating system's random source and
/// `Argon2::default().hash_password`, and turns the result into its encoded
/// string. The salt is random, so the string has no name; whatever the salt,
/// the string holds algorithm, parameters, salt and digest, and verifying the
/// same password against it succeeds.
#[verifier::external_body]
fn argon2_hash(password: &str) -> (r: Result<String, argon2::password_hash::Error>)
    ensures
        r matches Ok(hash) ==> argon2_verdict(password@, hash@) == Some(true),
{
    let salt = argon2::password_hash::SaltString::generate(&mut argon2::password_hash::rand_core::OsRng);
    Ok(argon2::Argon2::default().hash_password(password.as_bytes(), &salt)?.to_string())
}

/// Calls `PasswordHash::new` on `hash` and `Argon2::default().verify_password`
/// on the parsed hash. The outside functions read nothing but their
/// arguments, so the result has a name. `Error::Password`, by which the
/// outside function says that the digests differ, becomes `Ok(false)`.
#[verifier::external_body]
fn argon2_verify(password: &str, hash: &str) -> (r: Result<bool, argon2::password_hash::Error>)
    ensures
        argon2_verdict(password@, hash@) == match r {
            Ok(matched) => Some(matched),
            Err(_) => None,
        },
{
    let parsed = argon2::PasswordHash::new(hash)?;
    match argon2::Argon2::default().verify_password(password.as_bytes(), &parsed) {
        Ok(()) => Ok(true),
        Err(argon2::password_hash::Error::Password) => Ok(false),
        Err(error) => Err(error),
    }
}

/// Derives a salted, self-describing hash of `password`.
///
/// Every hash that comes back verifies the password it was made from.
pub fn generate_password_hash(password: &str) -> (r: InterResult<String>)
    ensures
        r matches Ok(hash) ==> argon2_verdict(password@, hash@) == Some(true),
        r matches Err(e) ==> e is PasswordHash,
{
    match argon2_hash(password) {
        Ok(hash) => Ok(hash),
        Err(error) => Err(ServiceError::PasswordHash(error)),
    }
}

/// Whether `password` is the one that `hash` was made from. A malformed hash
/// is a failure, not a mismatch.
pub fn verify_password(password: &str, hash: &str) -> (r: InterResult<bool>)
    ensures
        match argon2_verdict(password@, hash@) {
            Some(matched) => r == Ok::<bool, ServiceError>(matched),
            None => r matches Err(e) && e is PasswordHash,
        },
{
    match argon2_verify(password, hash) {
        Ok(matched) => Ok(matched),
        Err(error) => Err(ServiceError::PasswordHash(error)),
    }
}

/// Whether `c` is a digit or one of the letters `a` to `f`.
pub open spec fn is_lower_hex(c: char) -> bool {
    ('0' <= c && c <= '9') || ('a' <= c && c <= 'f')
}

/// The textual form of a version-7 UUID: 36 characters, hyphens after the
/// 8th, 12th, 16th and 20th digit, lower-case hexadecimal digits elsewhere,
/// and `7` as the version digit.
pub open spec fn is_uuid_v7_text(text: Seq<char>) -> bool {
    &&& text.len() == 36
    &&& forall|i: int|
        0 <= i < 36 ==> if i == 8 || i == 13 || i == 18 || i == 23 {
            #[trigger] text[i] == '-'
        } else {
            is_lower_hex(text[i])
        }
    &&& text[14] == '7'
}

/// Calls `uuid::Uuid::now_v7` and formats the result with `to_string`. The id
/// depends on the clock and on chance, so it has no name; whatever they give,
/// the outside crate writes a version-7 UUID in its hyphenated lower-case form.
#[verifier::external_body]
pub(crate) fn new_user_id() -> (id: String)
    ensures
        is_uuid_v7_text(id@),
{
    uuid::Uuid::now_v7().to_string()
}

/// Whether `token` is a token issued to `sub` for `ttl` seconds under
/// `secret`: the one that the codec makes of claims issued at some moment
/// that the clock can give, and one whose payload shows those claims.
pub open spec fn token_for(secret: Seq<u8>, token: Seq<char>, sub: Seq<char>, ttl: int) -> bool {
    exists|iat: int|
        {
            &&& -TIMESTAMP_BOUND < iat < TIMESTAMP_BOUND
            &&& hs256_token(secret, #[trigger] issued_claims(sub, iat, ttl)) == Some(token)
            &&& hs256_payload(secret, token) matches Some(payload)
            &&& carries(payload, issued_claims(sub, iat, ttl))
        }
}

/// Whether the codec refuses to sign the claims issued to `sub` for `ttl`
/// seconds under `secret`, at some moment that the clock can give.
pub open spec fn token_refused(secret: Seq<u8>, sub: Seq<char>, ttl: int) -> bool {
    exists|iat: int|
        {
            &&& -TIMESTAMP_BOUND < iat < TIMESTAMP_BOUND
            &&& hs256_token(secret, #[trigger] issued_claims(sub, iat, ttl)) is None
        }
}

/// Mints the token that is issued to `user_id` at the moment `now`: the one
/// that the codec makes of the claims issued at that moment, whose payload
/// shows exactly those claims.
pub fn generate_token_at(user_id: &str, now: i64, config: &AppConfig, jwt_codec: &JwtCodec) -> (r:
    InterResult<String>)
    requires
        config.wf(),
        -TIMESTAMP_BOUND < now < TIMESTAMP_BOUND,
    ensures
        match hs256_token(jwt_codec@, issued_claims(user_id@, now as int, config.jwt_exp_seconds as int)) {
            Some(token) => {
                &&& r matches Ok(t)
                &&& t@ == token
                &&& hs256_payload(jwt_codec@, token) matches Some(payload)
                &&& carries(
                    payload,
                    issued_claims(user_id@, now as int, config.jwt_exp_seconds as int),
                )
                &&& token_for(jwt_codec@, token, user_id@, config.jwt_exp_seconds as int)
            },
            None => r matches Err(ServiceError::JwtCodec(CodecError::Rejected(_))) && token_refused(
                jwt_codec@,
                user_id@,
                config.jwt_exp_seconds as int,
            ),
        },
{
    let claims = UserClaims::issued(user_id, now, config.jwt_exp_seconds);
    match jwt_codec.encode(&claims) {
        Ok(token) => Ok(token),
        Err(error) => Err(ServiceError::JwtCodec(error)),
    }
}

/// Mints a token for `user_id`, issued now and valid for the configured lifetime.
pub fn generate_token(user_id: &str, config: &AppConfig, jwt_codec: &JwtCodec) -> (r: InterResult<
    String,
>)
    requires
        config.wf(),
    ensures
        r matches Ok(token) ==> token_for(
            jwt_codec@,
            token@,
            user_id@,
            config.jwt_exp_seconds as int,
        ),
        r matches Err(e) ==> e matches ServiceError::JwtCodec(CodecError::Rejected(_)) && token_refused(
            jwt_codec@,
            user_id@,
            config.jwt_exp_seconds as int,
        ),
{
    let now = unix_timestamp(now_utc());
    generate_token_at(user_id, now, config, jwt_codec)
}

/// A token issued to a user names that user: decoded under the secret it
/// was issued under, it yields claims with the user's id as their subject at
/// every moment up to its expiry, and is refused as expired at every later one.
pub proof fn law_token_names_its_user(secret: Seq<u8>, token: Seq<char>, sub: Seq<char>, ttl: int, now: int)
    requires
        token_for(secret, token, sub, ttl),
    ensures
        exists|iat: int|
            {
                &&& -TIMESTAMP_BOUND < iat < TIMESTAMP_BOUND
                &&& claims_at(hs256_payload(secret, token), now) == (if now <= iat + ttl {
                    Ok::<ClaimsView, CodecFault>(#[trigger] issued_claims(sub, iat, ttl))
                } else {
                    Err::<ClaimsView, CodecFault>(CodecFault::Expired)
                })
            },
        claims_at(hs256_payload(secret, token), now) matches Ok(claims) ==> claims.sub == sub,
{
    let iat = choose|iat: int|
        {
            &&& -TIMESTAMP_BOUND < iat < TIMESTAMP_BOUND
            &&& hs256_token(secret, #[trigger] issued_claims(sub, iat, ttl)) == Some(token)
            &&& hs256_payload(secret, token) matches Some(payload)
            &&& carries(payload, issued_claims(sub, iat, ttl))
        };
    assert(claims_at(hs256_payload(secret, token), now) == (if now <= iat + ttl {
        Ok::<ClaimsView, CodecFault>(issued_claims(sub, iat, ttl))
    } else {
        Err::<ClaimsView, CodecFault>(CodecFault::Expired)
    }));
}

/// Whether `row` is the row of a user who registered with `args`: the email
/// and nickname of the arguments, and a hash that verifies their password.
pub open spec fn registered_by(row: RecordView, args: LoginUserArgs) -> bool {
    &&& row.email == args.email@
    &&& row.nickname == args.nickname@
    &&& is_uuid_v7_text(row.id)
    &&& argon2_verdict(args.password@, row.password_hash) == Some(true)
}

/// What a login with `args` does to the table and answers, on a table that
/// nobody else writes to.
///
/// An email that no row has is registered: one row joins the table and the
/// answer carries the new id and a token issued to it, unless the hasher
/// fails, the codec refuses to sign for the new id, or the new id is one that
/// a row already has, and then the table is as before. An email that a row
/// has leaves the table as it is: the answer carries the row's id and a
/// token issued to it where the password matches the stored hash, is the
/// rejection as invalid where it does not, and an internal failure where the
/// stored hash is malformed.
pub open spec fn logs_in(
    before: Seq<RecordView>,
    after: Seq<RecordView>,
    args: LoginUserArgs,
    ttl: int,
    secret: Seq<u8>,
    result: ServiceResult<LoginUserReply>,
) -> bool {
    match row_by_email(before, args.email@) {
        None => {
            ||| {
                &&& result matches Ok(value)
                &&& after.len() == before.len() + 1
                &&& after == before.push(after.last())
                &&& registered_by(after.last(), args)
                &&& !conflicts(before, after.last())
                &&& carries_token(value, REGISTERED, after.last().id, secret, ttl)
            }
            ||| {
                &&& result matches Err(e)
                &&& after == before
                &&& {
                    ||| e is PasswordHash
                    ||| e matches ServiceError::JwtCodec(CodecError::Rejected(_)) && exists|
                        id: Seq<char>,
                    |
                        is_uuid_v7_text(id) && #[trigger] token_refused(secret, id, ttl)
                    ||| e.is_rejection(CONFLICT, "Email already registered"@) && exists|i: int|
                        0 <= i < before.len() && is_uuid_v7_text((#[trigger] before[i]).id)
                }
            }
        },
        Some(row) => {
            &&& after == before
            &&& match argon2_verdict(args.password@, row.password_hash) {
                Some(true) => {
                    ||| result matches Ok(value) && carries_token(value, LOGGED_IN, row.id, secret, ttl)
                    ||| result matches Err(ServiceError::JwtCodec(CodecError::Rejected(_)))
                        && token_refused(secret, row.id, ttl)
                },
                Some(false) => result matches Err(e) && e.is_rejection(
                    INVALID_PASSWORD,
                    "Invalid password"@,
                ),
                None => result matches Err(e) && e is PasswordHash,
            }
        },
    }
}

/// Whether the answer `event` is what the table gives to `action`, with the
/// committed rows going from `before` to `after` and the staged rows from
/// `staged` to `restaged`.
pub open spec fn answers(
    action: LoginAction,
    event: LoginEvent,
    before: Seq<RecordView>,
    staged: Seq<RecordView>,
    after: Seq<RecordView>,
    restaged: Seq<RecordView>,
) -> bool {
    match action {
        LoginAction::FindCredentials { email } => {
            &&& after == before
            &&& restaged == staged
            &&& event matches LoginEvent::CredentialsFound(found)
            &&& match row_by_email(before + staged, email@) {
                Some(row) => found matches Some(secrets) && secrets.of(row),
                None => found is None,
            }
        },
        LoginAction::InsertUser { user_id, user } => {
            &&& after == before
            &&& exists|created_at: time::OffsetDateTime|
                match inserted(before, staged, #[trigger] record_of(user_id@, user, created_at)) {
                    Ok(rows) => event is UserInserted && restaged == rows,
                    Err(kind) => event matches LoginEvent::RepoFailed(e) && e.kind == kind && restaged
                        == staged,
                }
        },
        LoginAction::Commit => {
            &&& restaged == Seq::<RecordView>::empty()
            &&& match committed(before, staged) {
                Ok(rows) => event is Committed && after == rows,
                Err(kind) => event matches LoginEvent::RepoFailed(e) && e.kind == kind && after
                    == before,
            }
        },
        LoginAction::Finish(_) => false,
    }
}

/// Does on the table what `action` asks for, and gives the table's answer.
pub fn perform(repo: &mut UserTable, tx: &mut UserTransaction, action: LoginAction) -> (event:
    LoginEvent)
    requires
        !(action is Finish),
    ensures
        answers(action, event, old(repo)@, old(tx)@, final(repo)@, final(tx)@),
{
    match action {
        LoginAction::FindCredentials { email } => LoginEvent::CredentialsFound(
            repo.find_credentials_by_email(tx, email.as_str()),
        ),
        LoginAction::InsertUser { user_id, user } => {
            let created_at = now_utc();
            match repo.insert_user(tx, user_id, user, created_at) {
                Ok(()) => LoginEvent::UserInserted,
                Err(error) => LoginEvent::RepoFailed(error),
            }
        },
        LoginAction::Commit => {
            let mut staged = repo.begin();
            std::mem::swap(tx, &mut staged);
            match repo.commit(staged) {
                Ok(()) => LoginEvent::Committed,
                Err(error) => LoginEvent::RepoFailed(error),
            }
        },
        LoginAction::Finish(_) => {
            vstd::pervasive::unreached::<()>();
            LoginEvent::Committed
        },
    }
}

/// What holds between two steps of a login that runs on a table that nobody
/// else writes to: where the login stands, what it asks for next, and what
/// the table and the transaction hold, fit together.
spec fn on_course(
    before: Seq<RecordView>,
    rows: Seq<RecordView>,
    staged: Seq<RecordView>,
    args: LoginUserArgs,
    ttl: int,
    secret: Seq<u8>,
    state: LoginState,
    action: LoginAction,
) -> bool {
    match state {
        LoginState::LookupPending { args: pending } => {
            &&& pending == args
            &&& action == (LoginAction::FindCredentials { email: args.email })
            &&& rows == before
            &&& staged == Seq::<RecordView>::empty()
        },
        LoginState::RegisterPath { .. } => {
            &&& asks_insert(state, action, args)
            &&& row_by_email(before, args.email@) is None
            &&& rows == before
            &&& staged == Seq::<RecordView>::empty()
        },
        LoginState::TokenIssuance { reply, registering } => {
            &&& action is Commit
            &&& rows == before
            &&& if registering {
                &&& row_by_email(before, args.email@) is None
                &&& staged.len() == 1
                &&& registered_by(staged[0], args)
                &&& !conflicts(before, staged[0])
                &&& carries_token(reply, REGISTERED, staged[0].id, secret, ttl)
            } else {
                &&& staged == Seq::<RecordView>::empty()
                &&& row_by_email(before, args.email@) matches Some(row)
                &&& argon2_verdict(args.password@, row.password_hash) == Some(true)
                &&& carries_token(reply, LOGGED_IN, row.id, secret, ttl)
            }
        },
        _ => action matches LoginAction::Finish(result) && logs_in(
            before,
            rows,
            args,
            ttl,
            secret,
            result,
        ),
    }
}

/// One step of a login on a table keeps the login on course.
proof fn lemma_step_on_course(
    before: Seq<RecordView>,
    rows: Seq<RecordView>,
    staged: Seq<RecordView>,
    args: LoginUserArgs,
    ttl: int,
    secret: Seq<u8>,
    state: LoginState,
    action: LoginAction,
    event: LoginEvent,
    after: Seq<RecordView>,
    restaged: Seq<RecordView>,
    post: LoginState,
    next: LoginAction,
)
    requires
        on_course(before, rows, staged, args, ttl, secret, state, action),
        !(action is Finish),
        answers(action, event, rows, staged, after, restaged),
        state.steps_to(event, ttl, secret, post, next),
        next is Finish <==> post.is_terminal(),
    ensures
        on_course(before, after, restaged, args, ttl, secret, post, next),
{
    if state matches LoginState::TokenIssuance { registering, .. } && registering {
        assert(before + staged =~= before.push(staged[0]));
    }
}

/// Logs a user in on the table `repo`, registering the user where nobody has
/// the email yet. The login runs in one transaction.
pub fn login_user(args: LoginUserArgs, config: &AppConfig, jwt_codec: &JwtCodec, repo: &mut UserTable) -> (r:
    ServiceResult<LoginUserReply>)
    requires
        config.wf(),
    ensures
        logs_in(old(repo)@, final(repo)@, args, config.jwt_exp_seconds as int, jwt_codec@, r),
        r matches Ok(value) ==> value.wf(),
{
    let mut tx = repo.begin();
    let (mut state, mut action) = LoginState::start(args);
    loop
        invariant
            config.wf(),
            on_course(
                old(repo)@,
                repo@,
                tx@,
                args,
                config.jwt_exp_seconds as int,
                jwt_codec@,
                state,
                action,
            ),
            action is Finish <==> state.is_terminal(),
        decreases state.steps_left(),
    {
        match action {
            LoginAction::Finish(result) => {
                return result;
            },
            asked => {
                let ghost rows = repo@;
                let ghost staged = tx@;
                let event = perform(repo, &mut tx, asked);
                let next = state.advance(event, config, jwt_codec);
                proof {
                    lemma_step_on_course(
                        old(repo)@,
                        rows,
                        staged,
                        args,
                        config.jwt_exp_seconds as int,
                        jwt_codec@,
                        state,
                        asked,
                        event,
                        repo@,
                        tx@,
                        next.0,
                        next.1,
                    );
                }
                state = next.0;
                action = next.1;
            },
        }
    }
}

} // verus!
