use securechat::chain::{Step, StepChain};
use securechat::commands::{ExecutorFor, IntoCommand};
use securechat::crypto::{hash_password, verify_signed_nonce, CryptoManager};
use securechat::database::{account_insert_error, user_insert_error};
use securechat::dto::{
    auth_challenge_response, register_response, validate_auth_challenege, validate_register,
    AuthChallengeBody, AuthChallengeDto, InsertedNonce, InsertedUser, RegisterDto,
};
use securechat::error::{auth_gate, PipelineError};
use securechat::keys::{IkPub, Nonce, NonceKey, NonceType, SigData, UnixTime};
use securechat::models::username::Username;
use securechat::primitives::{Bytes32, Bytes64};
use securechat::request::Request;
use securechat::stages::{Executed, Raw, Validated};
use securechat::steps::{GenerateNonce, HashPassword};
use securechat::telemetry::{default_env_filter, LogFormat, OnResponse, SamplerChoice};

use ed25519_dalek::{Signer, SigningKey};

fn dto() -> RegisterDto {
    RegisterDto {
        username: " alice ".to_string(),
        email: "Alice@Example.com".to_string(),
        password: "pw".to_string(),
        ik_pub: "11".repeat(32),
        ik_pub_ed: "22".repeat(32),
        spk_pub: "33".repeat(32),
        spk_pub_sig: "44".repeat(64),
        otpks: vec!["55".repeat(32), "66".repeat(32)],
    }
}

#[test]
fn register_validation_accepts() {
    let req = Request::<Raw, RegisterDto>::from_raw(dto());
    let ok = validate_register(req).unwrap();
    let body = ok.into_inner();
    assert_eq!(body.username.as_str(), "alice");
    assert_eq!(body.email.as_str(), "alice@example.com");
    assert_eq!(body.password.as_str(), "pw");
    assert_eq!(body.ik_pub, IkPub(Bytes32([0x11; 32])));
    assert_eq!(body.ik_pub_ed.0, Bytes32([0x22; 32]));
    assert_eq!(body.spk_pub.0, Bytes32([0x33; 32]));
    assert_eq!(body.spk_pub_sig.0, Bytes64([0x44; 64]));
    assert_eq!(body.otpks.len(), 2);
    assert_eq!(body.otpks[1].0, Bytes32([0x66; 32]));
}

#[test]
fn register_validation_first_error_wins() {
    let mut d = dto();
    d.username = "x".to_string();
    d.ik_pub = "zz".to_string();
    let err = validate_register(Request::from_raw(d)).err().unwrap();
    assert_eq!(err, PipelineError::Validation("username must be 3\u{2013}32 characters".into()));

    let mut d = dto();
    d.email = "nope".to_string();
    d.ik_pub = "zz".to_string();
    let err = validate_register(Request::from_raw(d)).err().unwrap();
    assert_eq!(err, PipelineError::Validation("Email failed the predicate test.".into()));

    let mut d = dto();
    d.spk_pub = "1".to_string();
    let err = validate_register(Request::from_raw(d)).err().unwrap();
    assert_eq!(err, PipelineError::ParseError("expected 64 hexadecimal digits".into()));

    let mut d = dto();
    d.spk_pub_sig = "11".repeat(32);
    let err = validate_register(Request::from_raw(d)).err().unwrap();
    assert_eq!(err, PipelineError::ParseError("expected 128 hexadecimal digits".into()));

    let mut d = dto();
    d.otpks.push("not hex".to_string());
    let err = validate_register(Request::from_raw(d)).err().unwrap();
    assert_eq!(err, PipelineError::ParseError("expected 64 hexadecimal digits".into()));
    assert_eq!(err.status_code(), 422);
}

#[test]
fn register_with_no_prekeys() {
    let mut d = dto();
    d.otpks = vec![];
    let body = validate_register(Request::from_raw(d)).unwrap().into_inner();
    assert!(body.otpks.is_empty());
}

#[test]
fn auth_challenge_validation() {
    let ok = validate_auth_challenege(Request::from_raw(AuthChallengeDto {
        ik_pub: "Ab".repeat(32),
    }))
    .unwrap();
    assert_eq!(ok.inner().ik_pub, IkPub(Bytes32([0xab; 32])));
    let err = validate_auth_challenege(Request::from_raw(AuthChallengeDto {
        ik_pub: "ab".to_string(),
    }));
    assert_eq!(err.err(), Some(PipelineError::ParseError("expected 64 hexadecimal digits".into())));
}

#[test]
fn responses_carry_results() {
    let r = register_response(Request::<Executed, _>::wrap(InsertedUser {
        id: 77,
        inserted_otpks: 5,
    }))
    .unwrap();
    assert_eq!((r.id, r.inserted), (77, 5));
    let n = NonceKey(Bytes32([3; 32]));
    let a = auth_challenge_response(Request::<Executed, _>::wrap(InsertedNonce { nonce: n.clone() }))
        .unwrap();
    assert_eq!(a.nonce, n);
}

#[test]
fn request_stages_keep_payload() {
    let r: Request<Validated, u32> = Request::wrap(9);
    assert_eq!(*r.inner(), 9);
    assert_eq!(r.into_inner(), 9);
    let raw = Request::from_raw("x".to_string());
    assert_eq!(raw.into_inner(), "x");
}

#[test]
fn registration_command_hashes_password() {
    let body = validate_register(Request::from_raw(dto())).unwrap().into_inner();
    let user = body.into_command();
    assert_eq!(user.hashed_password.as_str(), "hashed:pw");
    assert_eq!(user.username.as_str(), "alice");
    assert_eq!(user.otpks.len(), 2);

    let body = validate_register(Request::from_raw(dto())).unwrap().into_inner();
    let user = HashPassword.run(body).unwrap();
    assert_eq!(user.hashed_password.as_str(), "hashed:pw");

    let challenge = AuthChallengeBody { ik_pub: IkPub(Bytes32([1; 32])) };
    assert_eq!(challenge.into_command(), AuthChallengeBody { ik_pub: IkPub(Bytes32([1; 32])) });
}

#[test]
fn hash_password_form() {
    assert_eq!(hash_password("secret"), Ok("hashed:secret".to_string()));
    assert_eq!(hash_password(""), Ok("hashed:".to_string()));
}

#[test]
fn nonce_generation() {
    let t = NonceType::issue(NonceKey(Bytes32([0; 32])), UnixTime { secs: 1_000, nanos: 250 });
    assert_eq!(t.expires_at, UnixTime { secs: 1_030, nanos: 250 });
    let g = GenerateNonce.run();
    assert!(g.expires_at.secs > 1_700_000_000);
    assert!(g.expires_at.nanos < 1_000_000_000);
    let a = NonceKey::generate();
    let b = NonceKey::generate();
    assert_ne!(a, b);
    assert_ne!(Nonce::generate(), Nonce::generate());
}

#[test]
fn signed_nonce_checks() {
    let _manager = CryptoManager;
    let signing = SigningKey::from_bytes(&[7u8; 32]);
    let ik = signing.verifying_key().to_bytes();
    let nonce = [42u8; 32];
    let sig = signing.sign(&nonce).to_bytes();
    assert!(verify_signed_nonce(IkPub(Bytes32(ik)), Nonce(Bytes32(nonce)), SigData(Bytes64(sig))));
    // another nonce does not pass
    assert!(!verify_signed_nonce(
        IkPub(Bytes32(ik)),
        Nonce(Bytes32([43u8; 32])),
        SigData(Bytes64(sig))
    ));
    // a damaged signature does not pass
    let mut bad = sig;
    bad[0] ^= 1;
    assert!(!verify_signed_nonce(IkPub(Bytes32(ik)), Nonce(Bytes32(nonce)), SigData(Bytes64(bad))));
    // bytes that are not a curve point never pass
    let mut not_point = None;
    for y in 2u8..=255 {
        let mut cand = [0u8; 32];
        cand[0] = y;
        if ed25519_dalek::VerifyingKey::from_bytes(&cand).is_err() {
            not_point = Some(cand);
            break;
        }
    }
    let not_point = not_point.unwrap();
    assert!(!verify_signed_nonce(
        IkPub(Bytes32(not_point)),
        Nonce(Bytes32(nonce)),
        SigData(Bytes64(sig))
    ));
}

#[test]
fn insert_errors_by_constraint() {
    let u = Username::parse("carol".to_string()).unwrap();
    assert_eq!(
        user_insert_error(Some("users_username_key"), &u, "dup".into()),
        PipelineError::Conflict("username 'carol' is already taken".into())
    );
    assert_eq!(
        user_insert_error(Some("users_ik_pub_key"), &u, "dup".into()),
        PipelineError::Conflict("duplicate identity key".into())
    );
    assert_eq!(
        user_insert_error(Some("users_ik_pub_ed_key"), &u, "dup".into()),
        PipelineError::Conflict("duplicate identity key signature".into())
    );
    assert_eq!(
        user_insert_error(Some("other"), &u, "boom".into()),
        PipelineError::Database("boom".into())
    );
    assert_eq!(user_insert_error(None, &u, "boom".into()), PipelineError::Database("boom".into()));
    assert_eq!(
        account_insert_error(Some("users_email_key"), &u, "dup".into()),
        PipelineError::Conflict("that email address is already registered".into())
    );
    assert_eq!(
        account_insert_error(Some("users_username_key"), &u, "dup".into()),
        PipelineError::Conflict("username 'carol' is already taken".into())
    );
    assert_eq!(
        account_insert_error(Some("users_ik_pub_key"), &u, "x".into()),
        PipelineError::Database("x".into())
    );
}

#[test]
fn telemetry_decisions() {
    assert_eq!(OnResponse::otel_status(500), "ERROR");
    assert_eq!(OnResponse::otel_status(503), "ERROR");
    assert_eq!(OnResponse::otel_status(499), "OK");
    assert_eq!(OnResponse::otel_status(201), "OK");
    assert_eq!(SamplerChoice::from_name(None), SamplerChoice::AlwaysOn);
    assert_eq!(SamplerChoice::from_name(Some("always_off")), SamplerChoice::AlwaysOff);
    assert_eq!(SamplerChoice::from_name(Some("traceidratio")), SamplerChoice::TraceIdRatio);
    assert_eq!(
        SamplerChoice::from_name(Some("parentbased_always_on")),
        SamplerChoice::ParentBasedAlwaysOn
    );
    assert_eq!(
        SamplerChoice::from_name(Some("parentbased_always_off")),
        SamplerChoice::ParentBasedAlwaysOff
    );
    assert_eq!(
        SamplerChoice::from_name(Some("parentbased_traceidratio")),
        SamplerChoice::ParentBasedTraceIdRatio
    );
    assert_eq!(SamplerChoice::from_name(Some("ALWAYS_OFF")), SamplerChoice::AlwaysOn);
}

struct Executor;

impl ExecutorFor<GenerateNonce> for Executor {}
impl ExecutorFor<HashPassword> for Executor {}

#[test]
fn step_chain_keeps_order() {
    let chain = StepChain::<frunk::HNil, Executor>::new()
        .step::<GenerateNonce, ()>(GenerateNonce)
        .step::<HashPassword, ()>(HashPassword);
    let steps = chain.into_steps();
    let _first: GenerateNonce = (steps.0).1;
    let _second: HashPassword = steps.1;
}

#[test]
fn step_chain_clones() {
    let chain = StepChain::<frunk::HNil, Executor>::new().step::<GenerateNonce, ()>(GenerateNonce);
    let copy = chain.clone();
    let _steps = copy.into_steps();
    let _kept = chain.into_steps();
}

#[test]
fn step_chain_runs_in_order() {
    let body = validate_register(Request::from_raw(dto())).unwrap().into_inner();
    let chain = StepChain::<frunk::HNil, Executor>::new()
        .step::<HashPassword, ()>(HashPassword)
        .step::<GenerateNonce, ()>(GenerateNonce);
    let (challenge, user) = chain.run(body).unwrap();
    assert_eq!(user.hashed_password.as_str(), "hashed:pw");
    assert_eq!(user.username.as_str(), "alice");
    assert!(challenge.expires_at.secs > 1_700_000_000);

    let empty = StepChain::<frunk::HNil, Executor>::new();
    assert_eq!(empty.run(5u32), Ok(5u32));

    let (n, rest) = GenerateNonce.run_step("ctx").unwrap();
    assert_eq!(rest, "ctx");
    assert!(n.expires_at.secs >= 30);
}

#[test]
fn hash_password_keeps_rest_of_context() {
    let body = validate_register(Request::from_raw(dto())).unwrap().into_inner();
    let (user, rest) = HashPassword.run_step((body, 7u8)).unwrap();
    assert_eq!(user.hashed_password.as_str(), "hashed:pw");
    assert_eq!(user.email.as_str(), "alice@example.com");
    assert_eq!(rest, 7u8);

    let body = validate_register(Request::from_raw(dto())).unwrap().into_inner();
    let chain = StepChain::<frunk::HNil, Executor>::new()
        .step::<HashPassword, ()>(HashPassword)
        .step::<GenerateNonce, ()>(GenerateNonce);
    let (challenge, (user, rest)) = chain.run((body, "ctx")).unwrap();
    assert_eq!(user.username.as_str(), "alice");
    assert_eq!(user.hashed_password.as_str(), "hashed:pw");
    assert_eq!(rest, "ctx");
    assert!(challenge.expires_at.secs > 1_700_000_000);
}

#[test]
fn log_format_and_default_filter() {
    assert_eq!(LogFormat::from_app_env(Some("production")), LogFormat::Json);
    assert_eq!(LogFormat::from_app_env(Some("staging")), LogFormat::Pretty);
    assert_eq!(LogFormat::from_app_env(Some("Production")), LogFormat::Pretty);
    assert_eq!(LogFormat::from_app_env(Some("")), LogFormat::Pretty);
    assert_eq!(LogFormat::from_app_env(None), LogFormat::Pretty);
    assert_eq!(
        default_env_filter("server"),
        "server=debug,tower_http=debug,axum::rejection=trace,info"
    );
    assert_eq!(default_env_filter(""), "=debug,tower_http=debug,axum::rejection=trace,info");
}

#[test]
fn auth_gate_decisions() {
    assert_eq!(auth_gate(true, false), Some(PipelineError::MissingToken));
    assert_eq!(auth_gate(true, true), None);
    assert_eq!(auth_gate(false, false), None);
    assert_eq!(auth_gate(false, true), None);
}
