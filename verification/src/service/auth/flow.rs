use vstd::prelude::*;

use crate::config::AppConfig;
use crate::jwt_codec::{CodecError, JwtCodec};
use crate::model::user::{LoginUserArgs, LoginUserReply};
use crate::repo::user::{NewUser, UserSecrets};
use crate::repo::{RepoError, RepoErrorKind};
use crate::service::auth::{
    argon2_verdict, generate_password_hash, generate_token, is_uuid_v7_text, new_user_id,
    token_for, token_refused, verify_password,
};
use crate::service::result::{accept, reject, InterResult, ServiceError, ServiceResult, ServiceValue};

verus! {

/// Where a login stands between two answers of the repository.
///
/// The check of an existing user's password waits for no answer, so it is no
/// state of its own: it is made within the step that takes the answer of the
/// lookup, and leads on to the token or to the end of the login.
pub enum LoginState {
    /// The lookup of the credentials by email is under way.
    LookupPending { args: LoginUserArgs },
    /// No user has the email: a new row went to the repository.
    RegisterPath { user_id: String },
    /// The token is minted and the commit is under way.
    TokenIssuance { reply: ServiceValue<LoginUserReply>, registering: bool },
    /// The transaction is committed: the login succeeded.
    Committed,
    /// The login was refused: the client is told why.
    Rejected,
    /// A part that the login rests on failed: the client is told nothing.
    Failed,
}

/// What the repository answers.
pub enum LoginEvent {
    /// The lookup by email is done.
    CredentialsFound(Option<UserSecrets>),
    /// The new row is written.
    UserInserted,
    /// The transaction is committed.
    Committed,
    /// The repository could not do what it was asked.
    RepoFailed(RepoError),
}

/// What the login asks of whoever drives it.
pub enum LoginAction {
    /// Look the credentials up by this email, inside the transaction.
    FindCredentials { email: String },
    /// Write this user's row, inside the transaction.
    InsertUser { user_id: String, user: NewUser },
    /// Commit the transaction.
    Commit,
    /// Answer the client. A transaction that is not committed is rolled back.
    Finish(ServiceResult<LoginUserReply>),
}

/// The status of a login that registered a new user.
pub const REGISTERED: u16 = 201;

/// The status of a login by an existing user.
pub const LOGGED_IN: u16 = 200;

/// The status of a login with a wrong password.
pub const INVALID_PASSWORD: u16 = 400;

/// The status of a registration that met another one for the same email.
pub const CONFLICT: u16 = 409;

/// The status under which a login answers with a token.
pub open spec fn success_code(registering: bool) -> u16 {
    if registering {
        REGISTERED
    } else {
        LOGGED_IN
    }
}

/// Whether `value` is the success envelope of a login: the given status, no
/// message, and the user's id with a token issued to that user.
pub open spec fn carries_token(
    value: ServiceValue<LoginUserReply>,
    code: u16,
    user_id: Seq<char>,
    secret: Seq<u8>,
    ttl: int,
) -> bool {
    &&& value.code == code
    &&& value.message is None
    &&& value.data matches Some(reply)
    &&& reply.user_id@ == user_id
    &&& token_for(secret, reply.token@, user_id, ttl)
}

/// The step after the hashing of a new user's password: with a hash, the
/// user's row goes to the repository; without one, the login has failed.
pub fn register(args: LoginUserArgs, user_id: String, hashed: InterResult<String>) -> (r: (
    LoginState,
    LoginAction,
))
    ensures
        match hashed {
            Ok(hash) => r == (
                LoginState::RegisterPath { user_id },
                LoginAction::InsertUser {
                    user_id,
                    user: NewUser {
                        f_nickname: args.nickname,
                        f_email: args.email,
                        f_password_hash: hash,
                    },
                },
            ),
            Err(error) => r == (LoginState::Failed, LoginAction::Finish(Err(error))),
        },
{
    match hashed {
        Ok(hash) => {
            let user = NewUser {
                f_nickname: args.nickname,
                f_email: args.email,
                f_password_hash: hash,
            };
            (
                LoginState::RegisterPath { user_id: user_id.clone() },
                LoginAction::InsertUser { user_id, user },
            )
        },
        Err(error) => (LoginState::Failed, LoginAction::Finish(Err(error))),
    }
}

/// The step after the minting of a token: with a token, the reply is made
/// and the commit asked for; without one, the login has failed.
pub fn issue(user_id: String, minted: InterResult<String>, registering: bool) -> (r: (
    LoginState,
    LoginAction,
))
    ensures
        match minted {
            Ok(token) => r == (
                LoginState::TokenIssuance {
                    reply: ServiceValue {
                        code: success_code(registering),
                        message: None,
                        data: Some(LoginUserReply { user_id, token }),
                    },
                    registering,
                },
                LoginAction::Commit,
            ),
            Err(error) => r == (LoginState::Failed, LoginAction::Finish(Err(error))),
        },
{
    match minted {
        Ok(token) => {
            let code = if registering {
                REGISTERED
            } else {
                LOGGED_IN
            };
            let reply = accept().with_code(code).with_data(LoginUserReply { user_id, token });
            (LoginState::TokenIssuance { reply, registering }, LoginAction::Commit)
        },
        Err(error) => (LoginState::Failed, LoginAction::Finish(Err(error))),
    }
}

/// Whether `post` and `action` are what a failure of the repository leads to:
/// the rejection as a conflict, where a registration met a constraint
/// violation, and else the failure that carries the repository's error.
pub open spec fn refused_as(error: RepoError, registering: bool, post: LoginState, action: LoginAction) -> bool {
    if registering && error.kind == RepoErrorKind::ConstraintViolation {
        &&& post is Rejected
        &&& action matches LoginAction::Finish(Err(e))
        &&& e.is_rejection(CONFLICT, "Email already registered"@)
    } else {
        &&& post is Failed
        &&& action == LoginAction::Finish(Err(ServiceError::Database(error)))
    }
}

/// The step after a failure of the repository. A constraint violation during
/// a registration means that another registration for the same email came
/// first: the client is told of the conflict. Every other failure is internal.
pub fn refuse(error: RepoError, registering: bool) -> (r: (LoginState, LoginAction))
    ensures
        refused_as(error, registering, r.0, r.1),
{
    if registering && error.kind == RepoErrorKind::ConstraintViolation {
        (LoginState::Rejected, LoginAction::Finish(Err(reject(CONFLICT, "Email already registered"))))
    } else {
        (LoginState::Failed, LoginAction::Finish(Err(ServiceError::Database(error))))
    }
}

/// The step after the verification of an existing user's password, up to the
/// minting of the token: a mismatch is refused, a malformed stored hash has
/// failed, and a match goes on to the token.
pub open spec fn verified(verdict: Option<bool>, post: LoginState, action: LoginAction) -> bool {
    match verdict {
        Some(true) => true,
        Some(false) => {
            &&& post is Rejected
            &&& action matches LoginAction::Finish(Err(e))
            &&& e.is_rejection(INVALID_PASSWORD, "Invalid password"@)
        },
        None => {
            &&& post is Failed
            &&& action matches LoginAction::Finish(Err(e))
            &&& e is PasswordHash
        },
    }
}

/// Whether the step ended in asking for the commit, with a reply that
/// carries a token issued to `user_id`.
pub open spec fn asks_commit(
    post: LoginState,
    action: LoginAction,
    registering: bool,
    user_id: Seq<char>,
    secret: Seq<u8>,
    ttl: int,
) -> bool {
    &&& action is Commit
    &&& post matches LoginState::TokenIssuance { reply, registering: r }
    &&& r == registering
    &&& carries_token(reply, success_code(registering), user_id, secret, ttl)
}

/// Whether the step ended in the failure of the token codec: it refused to
/// sign the claims issued to `user_id`.
pub open spec fn codec_failed(
    post: LoginState,
    action: LoginAction,
    user_id: Seq<char>,
    secret: Seq<u8>,
    ttl: int,
) -> bool {
    &&& post is Failed
    &&& action matches LoginAction::Finish(Err(ServiceError::JwtCodec(CodecError::Rejected(_))))
    &&& token_refused(secret, user_id, ttl)
}

/// Whether the step ended in handing a new user's row to the repository: a
/// fresh id, the email and nickname of the arguments, and a hash that
/// verifies the password of the arguments.
pub open spec fn asks_insert(post: LoginState, action: LoginAction, args: LoginUserArgs) -> bool {
    &&& post matches LoginState::RegisterPath { user_id: pending }
    &&& action matches LoginAction::InsertUser { user_id, user }
    &&& pending@ == user_id@
    &&& is_uuid_v7_text(user_id@)
    &&& user.f_email == args.email
    &&& user.f_nickname == args.nickname
    &&& argon2_verdict(args.password@, user.f_password_hash@) == Some(true)
}

/// Whether the step ended in the failure of the password hasher.
pub open spec fn hasher_failed(post: LoginState, action: LoginAction) -> bool {
    &&& post is Failed
    &&& action matches LoginAction::Finish(Err(e))
    &&& e is PasswordHash
}

impl LoginState {
    /// Whether the answer `event` is one that a login in this state waits for.
    pub open spec fn expects(&self, event: LoginEvent) -> bool {
        match (*self, event) {
            (LoginState::LookupPending { .. }, LoginEvent::CredentialsFound(_)) => true,
            (LoginState::RegisterPath { .. }, LoginEvent::UserInserted) => true,
            (LoginState::TokenIssuance { .. }, LoginEvent::Committed) => true,
            (LoginState::LookupPending { .. }, LoginEvent::RepoFailed(_)) => true,
            (LoginState::RegisterPath { .. }, LoginEvent::RepoFailed(_)) => true,
            (LoginState::TokenIssuance { .. }, LoginEvent::RepoFailed(_)) => true,
            _ => false,
        }
    }

    /// Whether the answer `event` is one that a login in this state waits for.
    pub fn awaits(&self, event: &LoginEvent) -> (expected: bool)
        ensures
            expected == self.expects(*event),
    {
        match (self, event) {
            (LoginState::LookupPending { .. }, LoginEvent::CredentialsFound(_)) => true,
            (LoginState::RegisterPath { .. }, LoginEvent::UserInserted) => true,
            (LoginState::TokenIssuance { .. }, LoginEvent::Committed) => true,
            (LoginState::LookupPending { .. }, LoginEvent::RepoFailed(_)) => true,
            (LoginState::RegisterPath { .. }, LoginEvent::RepoFailed(_)) => true,
            (LoginState::TokenIssuance { .. }, LoginEvent::RepoFailed(_)) => true,
            _ => false,
        }
    }

    /// The largest number of answers that the login may still wait for.
    pub open spec fn steps_left(&self) -> nat {
        match self {
            LoginState::LookupPending { .. } => 3,
            LoginState::RegisterPath { .. } => 2,
            LoginState::TokenIssuance { .. } => 1,
            _ => 0,
        }
    }

    /// Whether the login is over.
    pub open spec fn is_terminal(&self) -> bool {
        self is Committed || self is Rejected || self is Failed
    }

    /// Opens a login: the credentials are to be looked up by the email of
    /// the arguments.
    pub fn start(args: LoginUserArgs) -> (r: (LoginState, LoginAction))
        ensures
            r.0 == (LoginState::LookupPending { args }),
            r.1 == (LoginAction::FindCredentials { email: args.email }),
    {
        let email = args.email.clone();
        (LoginState::LookupPending { args }, LoginAction::FindCredentials { email })
    }

    /// Takes the login one step on: from this state and the repository's
    /// answer to the next state and to what is asked of the driver next.
    ///
    /// An email that nobody has leads to a registration under a fresh id and
    /// with a hash of the password; an email that somebody has leads to the
    /// check of the password against the stored hash, and only a match to a
    /// token. The token is minted before the commit is asked for. A failure
    /// of the repository ends the login.
    pub fn advance(self, event: LoginEvent, config: &AppConfig, jwt_codec: &JwtCodec) -> (r: (
        LoginState,
        LoginAction,
    ))
        requires
            config.wf(),
            self.expects(event),
        ensures
            self.steps_to(event, config.jwt_exp_seconds as int, jwt_codec@, r.0, r.1),
            r.1 is Finish <==> r.0.is_terminal(),
            r.0.steps_left() < self.steps_left(),
    {
        match (self, event) {
            (LoginState::LookupPending { args }, LoginEvent::CredentialsFound(None)) => {
                let user_id = new_user_id();
                let hashed = generate_password_hash(args.password.as_str());
                register(args, user_id, hashed)
            },
            (LoginState::LookupPending { args }, LoginEvent::CredentialsFound(Some(secrets))) => {
                match verify_password(args.password.as_str(), secrets.f_password_hash.as_str()) {
                    Ok(true) => {
                        let minted = generate_token(secrets.f_id.as_str(), config, jwt_codec);
                        issue(secrets.f_id, minted, false)
                    },
                    Ok(false) => (
                        LoginState::Rejected,
                        LoginAction::Finish(Err(reject(INVALID_PASSWORD, "Invalid password"))),
                    ),
                    Err(error) => (LoginState::Failed, LoginAction::Finish(Err(error))),
                }
            },
            (LoginState::RegisterPath { user_id }, LoginEvent::UserInserted) => {
                let minted = generate_token(user_id.as_str(), config, jwt_codec);
                issue(user_id, minted, true)
            },
            (LoginState::TokenIssuance { reply, .. }, LoginEvent::Committed) => (
                LoginState::Committed,
                LoginAction::Finish(Ok(reply)),
            ),
            (LoginState::LookupPending { .. }, LoginEvent::RepoFailed(error)) => refuse(error, false),
            (LoginState::RegisterPath { .. }, LoginEvent::RepoFailed(error)) => refuse(error, true),
            (LoginState::TokenIssuance { registering, .. }, LoginEvent::RepoFailed(error)) => refuse(
                error,
                registering,
            ),
            (state, _) => {
                vstd::pervasive::unreached::<()>();
                (state, LoginAction::Commit)
            },
        }
    }

    /// What one step may lead to: the state `post` and the action `action`,
    /// from this state and on the answer `event`.
    pub open spec fn steps_to(
        &self,
        event: LoginEvent,
        ttl: int,
        secret: Seq<u8>,
        post: LoginState,
        action: LoginAction,
    ) -> bool {
        match (*self, event) {
            (LoginState::LookupPending { args }, LoginEvent::CredentialsFound(None)) => {
                asks_insert(post, action, args) || hasher_failed(post, action)
            },
            (LoginState::LookupPending { args }, LoginEvent::CredentialsFound(Some(secrets))) => {
                let verdict = argon2_verdict(args.password@, secrets.f_password_hash@);
                &&& verified(verdict, post, action)
                &&& verdict == Some(true) ==> asks_commit(post, action, false, secrets.f_id@, secret, ttl)
                    || codec_failed(post, action, secrets.f_id@, secret, ttl)
            },
            (LoginState::RegisterPath { user_id }, LoginEvent::UserInserted) => {
                asks_commit(post, action, true, user_id@, secret, ttl) || codec_failed(
                    post,
                    action,
                    user_id@,
                    secret,
                    ttl,
                )
            },
            (LoginState::TokenIssuance { reply, .. }, LoginEvent::Committed) => {
                post is Committed && action == LoginAction::Finish(Ok(reply))
            },
            (LoginState::LookupPending { .. }, LoginEvent::RepoFailed(error)) => {
                refused_as(error, false, post, action)
            },
            (LoginState::RegisterPath { .. }, LoginEvent::RepoFailed(error)) => {
                refused_as(error, true, post, action)
            },
            (LoginState::TokenIssuance { registering, .. }, LoginEvent::RepoFailed(error)) => {
                refused_as(error, registering, post, action)
            },
            _ => false,
        }
    }
}

/// A registration that meets a constraint violation is answered with the
/// conflict, whether the repository refused the insert or the commit, and
/// ends there: nothing more is asked of the repository.
pub proof fn law_conflict_is_told(
    state: LoginState,
    error: RepoError,
    ttl: int,
    secret: Seq<u8>,
    post: LoginState,
    action: LoginAction,
)
    requires
        state is RegisterPath || (state matches LoginState::TokenIssuance { registering, .. }
            && registering),
        error.kind == RepoErrorKind::ConstraintViolation,
        state.steps_to(LoginEvent::RepoFailed(error), ttl, secret, post, action),
    ensures
        post is Rejected,
        action matches LoginAction::Finish(Err(e)) && e.is_rejection(
            CONFLICT,
            "Email already registered"@,
        ),
{
}

/// A wrong password for an email that somebody has is answered with the
/// rejection as invalid: no internal failure, no token, no commit.
pub proof fn law_wrong_password_is_refused(
    args: LoginUserArgs,
    secrets: UserSecrets,
    ttl: int,
    secret: Seq<u8>,
    post: LoginState,
    action: LoginAction,
)
    requires
        argon2_verdict(args.password@, secrets.f_password_hash@) == Some(false),
        (LoginState::LookupPending { args }).steps_to(
            LoginEvent::CredentialsFound(Some(secrets)),
            ttl,
            secret,
            post,
            action,
        ),
    ensures
        post is Rejected,
        action matches LoginAction::Finish(Err(e)) && e.is_rejection(
            INVALID_PASSWORD,
            "Invalid password"@,
        ) && !e.is_internal(),
{
}

} // verus!
