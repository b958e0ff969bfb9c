use auth_service::cache::CacheError;
use auth_service::config::AppConfig;
use auth_service::http::middleware::{authorize, authorize_at};
use auth_service::http::result::{status_or, HttpResult};
use auth_service::jwt_codec::{CodecError, JwtCodec, UserClaims, MAX_TTL_SECONDS};
use auth_service::model::user::GetUserArgs;
use auth_service::repo::table::UserTable;
use auth_service::repo::user::{BaseUser, NewUser};
use auth_service::repo::{RepoError, RepoErrorKind};
use auth_service::service::auth::verify_password;
use auth_service::service::health::health_check;
use auth_service::service::result::{accept, reject, ServiceError, ServiceResult, ServiceValue};
use auth_service::service::user::{get_user, profile_reply};

#[test]
fn the_default_envelope_is_the_plain_success() {
    let value = ServiceValue::<u8>::default();
    assert_eq!(value.code, 200);
    assert!(value.message.is_none());
    assert!(value.data.is_none());
    let accepted = accept::<u8>();
    assert_eq!(accepted.code, 200);
    assert!(accepted.message.is_none() && accepted.data.is_none());
}

#[test]
fn the_builders_change_one_member_each() {
    let value = ServiceValue::<u8>::default().with_code(201);
    assert_eq!((value.code, value.message.clone(), value.data), (201, None, None));
    let value = value.with_message("made");
    assert_eq!((value.code, value.message.clone(), value.data), (201, Some(String::from("made")), None));
    let value = value.with_data(7);
    assert_eq!((value.code, value.message.clone(), value.data), (201, Some(String::from("made")), Some(7)));
    let value = value.with_code(200).with_data(8);
    assert_eq!((value.code, value.data), (200, Some(8)));
}

#[test]
fn reject_makes_the_client_facing_rejection() {
    match reject(404, "User not found") {
        ServiceError::Generic { code, message } => {
            assert_eq!(code, 404);
            assert_eq!(message, "User not found");
        },
        _ => panic!("expected a rejection"),
    }
}

#[test]
fn status_or_keeps_three_digit_codes_only() {
    assert_eq!(status_or(200, 500), 200);
    assert_eq!(status_or(100, 500), 100);
    assert_eq!(status_or(999, 500), 999);
    assert_eq!(status_or(99, 500), 500);
    assert_eq!(status_or(1000, 400), 400);
    assert_eq!(status_or(0, 400), 400);
    assert_eq!(status_or(u16::MAX, 400), 400);
}

#[test]
fn a_success_crosses_the_boundary_as_it_is() {
    let result: ServiceResult<u8> = Ok(accept().with_code(201).with_message("made").with_data(7));
    let sent = HttpResult::from(result);
    assert_eq!(sent.code, 201);
    assert_eq!(sent.message.as_deref(), Some("made"));
    assert_eq!(sent.data, Some(7));
    assert_eq!(sent.status(), 201);
}

#[test]
fn a_rejection_crosses_with_its_status_and_message() {
    let sent: HttpResult<u8> = HttpResult::from(reject(404, "User not found"));
    assert_eq!(sent.code, 404);
    assert_eq!(sent.message.as_deref(), Some("User not found"));
    assert!(sent.data.is_none());
    let result: ServiceResult<u8> = Err(reject(409, "Email already registered"));
    let sent = HttpResult::from(result);
    assert_eq!((sent.code, sent.message.as_deref(), sent.data), (409, Some("Email already registered"), None));
}

#[test]
fn a_rejection_with_no_http_status_crosses_as_a_bad_request() {
    let sent: HttpResult<u8> = HttpResult::from(reject(42, "odd"));
    assert_eq!(sent.code, 400);
    assert_eq!(sent.message.as_deref(), Some("odd"));
    let sent: HttpResult<u8> = HttpResult::from(reject(1000, "odd"));
    assert_eq!(sent.code, 400);
}

#[test]
fn every_internal_failure_crosses_as_the_bare_internal_error() {
    let hash_error = match verify_password("pw", "not a hash") {
        Err(error) => error,
        Ok(_) => panic!("expected a failure"),
    };
    let codec_error = match JwtCodec::new("s").decode_at("not a token", 0) {
        Err(error) => ServiceError::JwtCodec(error),
        Ok(_) => panic!("expected a failure"),
    };
    let failures = vec![
        hash_error,
        codec_error,
        ServiceError::JwtCodec(CodecError::Expired),
        ServiceError::JwtCodec(CodecError::MissingClaim),
        ServiceError::Cache(CacheError { detail: String::from("redis://10.0.0.7 refused") }),
        ServiceError::Database(RepoError { kind: RepoErrorKind::Unavailable, detail: String::from("SELECT failed") }),
        ServiceError::Database(RepoError { kind: RepoErrorKind::ConstraintViolation, detail: String::from("t_user_f_email_key") }),
    ];
    for failure in failures {
        let sent: HttpResult<u8> = HttpResult::from(failure);
        assert_eq!(sent.code, 500);
        assert!(sent.message.is_none());
        assert!(sent.data.is_none());
        assert_eq!(sent.status(), 500);
    }
}

#[test]
fn an_envelope_with_no_http_status_is_sent_as_an_internal_error() {
    assert_eq!(HttpResult::<u8>::new(99, None, None).status(), 500);
    assert_eq!(HttpResult::<u8>::new(1000, None, None).status(), 500);
    assert_eq!(HttpResult::<u8>::new(204, None, Some(1)).status(), 204);
    let built = HttpResult::new(404, Some(String::from("gone")), Some(3u8));
    assert_eq!((built.code, built.message.as_deref(), built.data), (404, Some("gone"), Some(3)));
}

#[test]
fn the_health_check_always_answers_the_same() {
    let value = health_check().unwrap();
    assert_eq!(value.code, 200);
    assert_eq!(value.message.as_deref(), Some("Pong from server."));
    let check = value.data.unwrap();
    assert!(check.healthy);
    assert_eq!(check.status, "OK");
    assert_eq!(check.comment, "Service is running smoothly.");
}

#[test]
fn a_profile_fetch_for_an_unknown_id_is_not_found() {
    let outcome = get_user(GetUserArgs { user_id: String::from("nobody") }, &UserTable::new());
    match outcome {
        Err(ServiceError::Generic { code, message }) => {
            assert_eq!(code, 404);
            assert_eq!(message, "User not found");
        },
        other => panic!("expected not found, got {:?}", other),
    }
    let sent: HttpResult<BaseUser> = HttpResult::from(Err(reject(404, "User not found")));
    assert_eq!(sent.status(), 404);
    assert!(sent.data.is_none());
    assert!(matches!(profile_reply(None), Err(ServiceError::Generic { code: 404, .. })));
}

#[test]
fn a_profile_fetch_for_a_known_id_gives_the_stored_values() {
    let created_at = time::OffsetDateTime::from_unix_timestamp(1_700_000_000).unwrap();
    let mut table = UserTable::new();
    let mut tx = table.begin();
    let user = NewUser {
        f_nickname: String::from("ann"),
        f_email: String::from("ann@example.org"),
        f_password_hash: String::from("hash"),
    };
    table.insert_user(&mut tx, String::from("id-1"), user, created_at).unwrap();
    table.commit(tx).unwrap();
    let value = get_user(GetUserArgs { user_id: String::from("id-1") }, &table).unwrap();
    assert_eq!(value.code, 200);
    assert!(value.message.is_none());
    let reply = value.data.unwrap();
    assert_eq!(reply.user_id, "id-1");
    assert_eq!(reply.email, "ann@example.org");
    assert_eq!(reply.nickname, "ann");
    assert_eq!(reply.created_at, created_at);
}

#[test]
fn profile_reply_hands_the_row_on() {
    let created_at = time::OffsetDateTime::from_unix_timestamp(12).unwrap();
    let row = BaseUser {
        f_id: String::from("id-1"),
        f_nickname: String::from("ann"),
        f_email: String::from("ann@example.org"),
        f_created_at: created_at,
    };
    let reply = profile_reply(Some(row)).unwrap().data.unwrap();
    assert_eq!(reply.user_id, "id-1");
    assert_eq!(reply.email, "ann@example.org");
    assert_eq!(reply.nickname, "ann");
    assert_eq!(reply.created_at, created_at);
}

#[test]
fn the_gate_lets_a_valid_token_through_and_nothing_else() {
    let codec = JwtCodec::new("top-secret");
    let token = codec.encode(&UserClaims::issued("user-1", 1_000, 60)).unwrap();
    assert_eq!(authorize_at(&codec, &token, 1_010).unwrap().sub, "user-1");
    assert_eq!(authorize_at(&codec, &token, 1_061).unwrap_err(), 401);
    assert_eq!(authorize_at(&codec, "garbage", 1_010).unwrap_err(), 401);
    assert_eq!(authorize_at(&JwtCodec::new("other"), &token, 1_010).unwrap_err(), 401);
    assert_eq!(authorize(&codec, &token).unwrap_err(), 401);
    let live = codec.encode(&UserClaims::with_exp("user-2", 60)).unwrap();
    assert_eq!(authorize(&codec, &live).unwrap().sub, "user-2");
}

#[test]
fn settings_are_valid_with_a_positive_representable_lifetime() {
    let mut config = AppConfig { server_host: String::from("0.0.0.0"), server_port: 80, jwt_exp_seconds: 3_600 };
    assert!(config.is_valid());
    config.jwt_exp_seconds = 1;
    assert!(config.is_valid());
    config.jwt_exp_seconds = 0;
    assert!(!config.is_valid());
    config.jwt_exp_seconds = MAX_TTL_SECONDS as usize;
    assert!(config.is_valid());
    config.jwt_exp_seconds = usize::MAX;
    assert!(!config.is_valid());
}

#[test]
fn the_settings_file_defaults_to_app_config_json() {
    assert_eq!(AppConfig::path_or_default(None), "app_config.json");
    assert_eq!(AppConfig::path_or_default(Some("other.json")), "other.json");
    assert_eq!(AppConfig::path_or_default(Some("")), "");
}
