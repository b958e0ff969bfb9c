use auth_service::config::AppConfig;
use auth_service::jwt_codec::JwtCodec;
use auth_service::model::user::LoginUserArgs;
use auth_service::repo::table::UserTable;
use auth_service::repo::user::UserSecrets;
use auth_service::repo::{RepoError, RepoErrorKind};
use auth_service::service::auth::flow::{issue, refuse, register, LoginAction, LoginEvent, LoginState};
use auth_service::service::auth::{generate_password_hash, perform};
use auth_service::service::result::ServiceError;

fn config() -> AppConfig {
    AppConfig { server_host: String::from("127.0.0.1"), server_port: 8080, jwt_exp_seconds: 3_600 }
}

fn args(email: &str, password: &str) -> LoginUserArgs {
    LoginUserArgs { email: String::from(email), nickname: String::from("nick"), password: String::from(password) }
}

fn failure(kind: RepoErrorKind) -> RepoError {
    RepoError { kind, detail: String::from("the repository said so") }
}

#[test]
fn start_asks_for_the_credentials_of_the_email() {
    let (state, action) = LoginState::start(args("ann@example.org", "pw-1"));
    assert!(matches!(state, LoginState::LookupPending { .. }));
    match action {
        LoginAction::FindCredentials { email } => assert_eq!(email, "ann@example.org"),
        _ => panic!("expected a lookup"),
    }
}

#[test]
fn an_unseen_email_leads_to_an_insert_with_a_hash() {
    let codec = JwtCodec::new("top-secret");
    let (state, _) = LoginState::start(args("ann@example.org", "pw-1"));
    let (state, action) = state.advance(LoginEvent::CredentialsFound(None), &config(), &codec);
    let pending = match state {
        LoginState::RegisterPath { user_id } => user_id,
        _ => panic!("expected the register path"),
    };
    match action {
        LoginAction::InsertUser { user_id, user } => {
            assert_eq!(user_id, pending);
            assert_eq!(user_id.len(), 36);
            assert_eq!(user.f_email, "ann@example.org");
            assert_eq!(user.f_nickname, "nick");
            assert!(user.f_password_hash.starts_with("$argon2id$"));
        },
        _ => panic!("expected an insert"),
    }
}

#[test]
fn a_written_row_leads_to_a_token_and_the_commit() {
    let codec = JwtCodec::new("top-secret");
    let state = LoginState::RegisterPath { user_id: String::from("id-1") };
    let (state, action) = state.advance(LoginEvent::UserInserted, &config(), &codec);
    assert!(matches!(action, LoginAction::Commit));
    let (state, action) = match state {
        LoginState::TokenIssuance { registering: true, .. } => state.advance(LoginEvent::Committed, &config(), &codec),
        _ => panic!("expected the token issuance of a registration"),
    };
    assert!(matches!(state, LoginState::Committed));
    match action {
        LoginAction::Finish(Ok(value)) => {
            assert_eq!(value.code, 201);
            let reply = value.data.unwrap();
            assert_eq!(reply.user_id, "id-1");
            assert_eq!(codec.decode(&reply.token).unwrap().sub, "id-1");
        },
        _ => panic!("expected the success"),
    }
}

#[test]
fn a_matching_password_leads_to_a_token_and_the_commit() {
    let codec = JwtCodec::new("top-secret");
    let secrets = UserSecrets { f_id: String::from("id-1"), f_password_hash: generate_password_hash("pw-1").unwrap() };
    let (state, _) = LoginState::start(args("ann@example.org", "pw-1"));
    let (state, action) = state.advance(LoginEvent::CredentialsFound(Some(secrets)), &config(), &codec);
    assert!(matches!(action, LoginAction::Commit));
    match state {
        LoginState::TokenIssuance { reply, registering } => {
            assert!(!registering);
            assert_eq!(reply.code, 200);
            assert_eq!(reply.data.unwrap().user_id, "id-1");
        },
        _ => panic!("expected the token issuance"),
    }
}

#[test]
fn a_wrong_password_ends_the_login_with_the_rejection() {
    let codec = JwtCodec::new("top-secret");
    let secrets = UserSecrets { f_id: String::from("id-1"), f_password_hash: generate_password_hash("pw-1").unwrap() };
    let (state, _) = LoginState::start(args("ann@example.org", "pw-2"));
    let (state, action) = state.advance(LoginEvent::CredentialsFound(Some(secrets)), &config(), &codec);
    assert!(matches!(state, LoginState::Rejected));
    match action {
        LoginAction::Finish(Err(ServiceError::Generic { code, message })) => {
            assert_eq!(code, 400);
            assert_eq!(message, "Invalid password");
        },
        _ => panic!("expected the rejection"),
    }
}

#[test]
fn a_failed_lookup_is_an_internal_failure() {
    let codec = JwtCodec::new("top-secret");
    let (state, _) = LoginState::start(args("ann@example.org", "pw-1"));
    let event = LoginEvent::RepoFailed(failure(RepoErrorKind::ConstraintViolation));
    assert!(state.awaits(&event));
    let (state, action) = state.advance(event, &config(), &codec);
    assert!(matches!(state, LoginState::Failed));
    assert!(matches!(action, LoginAction::Finish(Err(ServiceError::Database(_)))));
}

#[test]
fn a_constraint_violation_during_a_registration_is_a_conflict() {
    let codec = JwtCodec::new("top-secret");
    let state = LoginState::RegisterPath { user_id: String::from("id-1") };
    let (state, action) =
        state.advance(LoginEvent::RepoFailed(failure(RepoErrorKind::ConstraintViolation)), &config(), &codec);
    assert!(matches!(state, LoginState::Rejected));
    match action {
        LoginAction::Finish(Err(ServiceError::Generic { code, message })) => {
            assert_eq!(code, 409);
            assert_eq!(message, "Email already registered");
        },
        _ => panic!("expected the conflict"),
    }
}

#[test]
fn another_failure_during_a_registration_is_internal() {
    let codec = JwtCodec::new("top-secret");
    let state = LoginState::RegisterPath { user_id: String::from("id-1") };
    let (state, action) = state.advance(LoginEvent::RepoFailed(failure(RepoErrorKind::Unavailable)), &config(), &codec);
    assert!(matches!(state, LoginState::Failed));
    match action {
        LoginAction::Finish(Err(ServiceError::Database(error))) => {
            assert_eq!(error.kind, RepoErrorKind::Unavailable);
            assert_eq!(error.detail, "the repository said so");
        },
        _ => panic!("expected the failure"),
    }
}

#[test]
fn refuse_tells_a_conflict_only_of_a_registration() {
    let (state, action) = refuse(failure(RepoErrorKind::ConstraintViolation), false);
    assert!(matches!(state, LoginState::Failed));
    assert!(matches!(action, LoginAction::Finish(Err(ServiceError::Database(_)))));
    let (state, action) = refuse(failure(RepoErrorKind::ConstraintViolation), true);
    assert!(matches!(state, LoginState::Rejected));
    assert!(matches!(action, LoginAction::Finish(Err(ServiceError::Generic { code: 409, .. }))));
}

#[test]
fn register_and_issue_pass_a_failure_on() {
    let failed = generate_password_hash("pw").map(|_| String::new()).and_then(|_| {
        Err::<String, ServiceError>(ServiceError::Generic { code: 500, message: String::from("hasher") })
    });
    let (state, action) = register(args("ann@example.org", "pw"), String::from("id-1"), failed);
    assert!(matches!(state, LoginState::Failed));
    assert!(matches!(action, LoginAction::Finish(Err(ServiceError::Generic { code: 500, .. }))));
    let (state, action) = issue(String::from("id-1"), Ok(String::from("token")), false);
    assert!(matches!(action, LoginAction::Commit));
    match state {
        LoginState::TokenIssuance { reply, registering } => {
            assert!(!registering);
            assert_eq!(reply.code, 200);
            assert_eq!(reply.data.unwrap().token, "token");
        },
        _ => panic!("expected the token issuance"),
    }
}

#[test]
fn awaits_tells_the_answers_that_a_state_waits_for() {
    let lookup = LoginState::start(args("ann@example.org", "pw-1")).0;
    assert!(lookup.awaits(&LoginEvent::CredentialsFound(None)));
    assert!(!lookup.awaits(&LoginEvent::UserInserted));
    assert!(!lookup.awaits(&LoginEvent::Committed));
    let register = LoginState::RegisterPath { user_id: String::from("id-1") };
    assert!(register.awaits(&LoginEvent::UserInserted));
    assert!(!register.awaits(&LoginEvent::Committed));
    assert!(!LoginState::Committed.awaits(&LoginEvent::Committed));
    assert!(!LoginState::Rejected.awaits(&LoginEvent::RepoFailed(failure(RepoErrorKind::Unavailable))));
    assert!(!LoginState::Failed.awaits(&LoginEvent::UserInserted));
}

/// Runs one login up to the point where it asks for the commit.
fn stage(table: &mut UserTable, email: &str, codec: &JwtCodec) -> (LoginState, auth_service::repo::table::UserTransaction) {
    let mut tx = table.begin();
    let (mut state, mut action) = LoginState::start(args(email, "pw-1"));
    while !matches!(action, LoginAction::Commit) {
        let event = perform(table, &mut tx, action);
        let next = state.advance(event, &config(), codec);
        state = next.0;
        action = next.1;
    }
    (state, tx)
}

#[test]
fn of_two_registrations_for_one_email_the_late_commit_is_a_conflict() {
    let codec = JwtCodec::new("top-secret");
    let mut table = UserTable::new();
    let (first, mut first_tx) = stage(&mut table, "ann@example.org", &codec);
    let (second, mut second_tx) = stage(&mut table, "ann@example.org", &codec);
    assert_eq!(table.len(), 0);

    let event = perform(&mut table, &mut first_tx, LoginAction::Commit);
    let (state, action) = first.advance(event, &config(), &codec);
    assert!(matches!(state, LoginState::Committed));
    let winner = match action {
        LoginAction::Finish(Ok(value)) => value.data.unwrap().user_id,
        _ => panic!("expected the first registration to succeed"),
    };
    assert_eq!(table.len(), 1);

    let event = perform(&mut table, &mut second_tx, LoginAction::Commit);
    assert!(matches!(&event, LoginEvent::RepoFailed(error) if error.kind == RepoErrorKind::ConstraintViolation));
    let (state, action) = second.advance(event, &config(), &codec);
    assert!(matches!(state, LoginState::Rejected));
    assert!(matches!(action, LoginAction::Finish(Err(ServiceError::Generic { code: 409, .. }))));
    assert_eq!(table.len(), 1);

    let tx = table.begin();
    assert_eq!(table.find_credentials_by_email(&tx, "ann@example.org").unwrap().f_id, winner);
}

#[test]
fn of_two_registrations_for_one_email_the_late_lookup_sees_the_row() {
    let codec = JwtCodec::new("top-secret");
    let mut table = UserTable::new();
    let (first, mut first_tx) = stage(&mut table, "ann@example.org", &codec);
    let event = perform(&mut table, &mut first_tx, LoginAction::Commit);
    first.advance(event, &config(), &codec);

    let mut tx = table.begin();
    let (state, action) = LoginState::start(args("ann@example.org", "pw-1"));
    let event = perform(&mut table, &mut tx, action);
    assert!(matches!(&event, LoginEvent::CredentialsFound(Some(_))));
    let (state, action) = state.advance(event, &config(), &codec);
    assert!(matches!(state, LoginState::TokenIssuance { registering: false, .. }));
    assert!(matches!(action, LoginAction::Commit));
    assert_eq!(table.len(), 1);
}
