//! Request and response bodies of the HTTP endpoints, the records the
//! database layer takes and returns, and the validation that turns raw
//! request bodies into domain values.

use vstd::prelude::*;
use vstd::string::StringExecFns;

use crate::error::{error_status, PipelineError, PipelineErrorView, PipelineResult};
use crate::keys::{IkPub, IkPubEd, NonceKey, OtpkPub, SigData, SpkPub, SpkPubSig};
use crate::models::email::{sanitize_email, Email, EMAIL_PREDICATE_MESSAGE, email_predicate};
use crate::models::password::{HashedPassword, PlainPassword};
use crate::models::username::{parse_username, Username};
use crate::primitives::{parse_hex_bytes, Bytes32, Bytes64};
use crate::request::Request;
use crate::stages::{Executed, Raw, Validated};
use crate::text::trim;

verus! {

/// Body of `POST /auth/challenge`.
#[derive(Debug, PartialEq, Eq)]
pub struct AuthChallengeBody {
    pub ik_pub: IkPub,
}

/// Answer to `POST /auth/challenge`.
#[derive(Debug, PartialEq, Eq)]
pub struct AuthChallengeResponse {
    pub nonce: NonceKey,
}

/// What the database layer returns after storing a challenge.
#[derive(Debug, PartialEq, Eq)]
pub struct InsertedNonce {
    pub nonce: NonceKey,
}

/// Body of `POST /api/register`, validated.
#[derive(Debug, PartialEq, Eq)]
pub struct RegisterBody {
    pub username: Username,
    pub email: Email,
    pub password: PlainPassword,
    pub ik_pub: IkPub,
    pub ik_pub_ed: IkPubEd,
    pub spk_pub: SpkPub,
    pub spk_pub_sig: SpkPubSig,
    pub otpks: Vec<OtpkPub>,
}

/// Answer to `POST /api/register`: the new user's id and how many one-time
/// prekeys were stored.
#[derive(Debug, PartialEq, Eq)]
pub struct RegisterResponse {
    /// The user's UUID, as a 128-bit integer.
    pub id: u128,
    pub inserted: i64,
}

/// A user to be stored: the registration body with the password in its
/// stored form.
#[derive(Debug, PartialEq, Eq)]
pub struct NewUser {
    pub username: Username,
    pub email: Email,
    pub hashed_password: HashedPassword,
    pub ik_pub: IkPub,
    pub ik_pub_ed: IkPubEd,
    pub spk_pub: SpkPub,
    pub spk_pub_sig: SpkPubSig,
    pub otpks: Vec<OtpkPub>,
}

/// The command that stores a new user.
pub type RegisterUserCommand = NewUser;

/// What the database layer returns after storing a user.
#[derive(Debug, Clone, PartialEq, Eq)]
pub struct InsertedUser {
    /// The user's UUID, as a 128-bit integer.
    pub id: u128,
    pub inserted_otpks: i64,
}

/// Body of the signed-token request: the identity key and its signature of the nonce.
#[derive(Debug, PartialEq, Eq)]
pub struct SignedTokenBody {
    pub ik_pub: IkPub,
    pub sig_data: SigData,
}

/// Answer to the signed-token request.
#[derive(Debug, PartialEq, Eq)]
pub struct SignedTokenResponse {
    pub token: String,
}

/// Raw inbound JSON of the challenge request.
#[derive(Debug, PartialEq, Eq)]
pub struct AuthChallengeDto {
    pub ik_pub: String,
}

/// Validated challenge request.
pub type AuthChallengeInput = AuthChallengeBody;

/// Raw inbound JSON of `POST /register`.
#[derive(Debug, PartialEq, Eq)]
pub struct RegisterDto {
    pub username: String,
    pub email: String,
    pub password: String,
    pub ik_pub: String,
    pub ik_pub_ed: String,
    pub spk_pub: String,
    pub spk_pub_sig: String,
    pub otpks: Vec<String>,
}

/// Validated registration request.
pub type RegisterInput = RegisterBody;

/// Why a 32-byte key given as text is refused.
pub const KEY32_MESSAGE: &'static str = "expected 64 hexadecimal digits";

/// Why a 64-byte signature given as text is refused.
pub const KEY64_MESSAGE: &'static str = "expected 128 hexadecimal digits";

/// Reads a 32-byte key from hex text.
pub fn decode_key32(s: &String) -> (r: PipelineResult<Bytes32>)
    ensures
        r matches Ok(b) ==> parse_hex_bytes(s@, 32) == Some(b@),
        r matches Err(e) ==> parse_hex_bytes(s@, 32) is None && e@ == PipelineErrorView::ParseError(
            KEY32_MESSAGE@,
        ),
{
    match Bytes32::from_str(s.as_str()) {
        Ok(b) => Ok(b),
        Err(_) => Err(PipelineError::ParseError(String::from_str(KEY32_MESSAGE))),
    }
}

/// Reads a 64-byte signature from hex text.
pub fn decode_key64(s: &String) -> (r: PipelineResult<Bytes64>)
    ensures
        r matches Ok(b) ==> parse_hex_bytes(s@, 64) == Some(b@),
        r matches Err(e) ==> parse_hex_bytes(s@, 64) is None && e@ == PipelineErrorView::ParseError(
            KEY64_MESSAGE@,
        ),
{
    match Bytes64::from_str(s.as_str()) {
        Ok(b) => Ok(b),
        Err(_) => Err(PipelineError::ParseError(String::from_str(KEY64_MESSAGE))),
    }
}

/// Some one-time prekey text in `otpks` is not a 32-byte key in hex.
pub open spec fn some_otpk_invalid(otpks: Seq<String>) -> bool {
    exists|i: int| 0 <= i < otpks.len() && (#[trigger] parse_hex_bytes(otpks[i]@, 32)) is None
}

/// The first reason, in field order, for which a registration body is
/// refused, if there is one.
pub open spec fn register_error(dto: RegisterDto) -> Option<PipelineErrorView> {
    if parse_username(dto.username@) is Err {
        Some(parse_username(dto.username@)->Err_0)
    } else if !email_predicate(sanitize_email(dto.email@)) {
        Some(PipelineErrorView::Validation(EMAIL_PREDICATE_MESSAGE@))
    } else if parse_hex_bytes(dto.ik_pub@, 32) is None || parse_hex_bytes(dto.ik_pub_ed@, 32) is None
        || parse_hex_bytes(dto.spk_pub@, 32) is None {
        Some(PipelineErrorView::ParseError(KEY32_MESSAGE@))
    } else if parse_hex_bytes(dto.spk_pub_sig@, 64) is None {
        Some(PipelineErrorView::ParseError(KEY64_MESSAGE@))
    } else if some_otpk_invalid(dto.otpks@) {
        Some(PipelineErrorView::ParseError(KEY32_MESSAGE@))
    } else {
        None
    }
}

/// `body` holds the domain values that the fields of `dto` stand for.
pub open spec fn register_body_matches(body: RegisterBody, dto: RegisterDto) -> bool {
    &&& body.username@ == trim(dto.username@)
    &&& body.email@ == sanitize_email(dto.email@)
    &&& body.password@ == dto.password@
    &&& parse_hex_bytes(dto.ik_pub@, 32) == Some(body.ik_pub@)
    &&& parse_hex_bytes(dto.ik_pub_ed@, 32) == Some(body.ik_pub_ed@)
    &&& parse_hex_bytes(dto.spk_pub@, 32) == Some(body.spk_pub@)
    &&& parse_hex_bytes(dto.spk_pub_sig@, 64) == Some(body.spk_pub_sig@)
    &&& body.otpks@.len() == dto.otpks@.len()
    &&& forall|i: int|
        0 <= i < body.otpks@.len() ==> parse_hex_bytes(dto.otpks@[i]@, 32) == Some(
            #[trigger] body.otpks@[i]@,
        )
}

fn decode_otpks(otpks: &Vec<String>) -> (r: PipelineResult<Vec<OtpkPub>>)
    ensures
        r is Err <==> some_otpk_invalid(otpks@),
        r matches Err(e) ==> e@ == PipelineErrorView::ParseError(KEY32_MESSAGE@),
        r matches Ok(v) ==> v@.len() == otpks@.len() && forall|i: int|
            0 <= i < v@.len() ==> parse_hex_bytes(otpks@[i]@, 32) == Some(#[trigger] v@[i]@),
{
    let mut out: Vec<OtpkPub> = Vec::new();
    let n = otpks.len();
    let mut i: usize = 0;
    while i < n
        invariant
            i <= n == otpks@.len(),
            out@.len() == i,
            forall|k: int|
                0 <= k < i ==> parse_hex_bytes(otpks@[k]@, 32) == Some(#[trigger] out@[k]@),
        decreases n - i,
    {
        match decode_key32(&otpks[i]) {
            Ok(b) => out.push(OtpkPub(b)),
            Err(e) => {
                return Err(e);
            },
        }
        i = i + 1;
    }
    proof {
        if some_otpk_invalid(otpks@) {
            let k = choose|k: int|
                0 <= k < otpks@.len() && (#[trigger] parse_hex_bytes(otpks@[k]@, 32)) is None;
            assert(parse_hex_bytes(otpks@[k]@, 32) == Some(out@[k]@));
        }
    }
    Ok(out)
}

/// Turns a raw registration body into domain values, field by field; the
/// first field that fails decides the error.
pub fn validate_reg_dto(dto: RegisterDto) -> (r: PipelineResult<RegisterInput>)
    ensures
        r is Err <==> register_error(dto) is Some,
        r matches Err(e) ==> register_error(dto) == Some(e@),
        r matches Ok(b) ==> register_body_matches(b, dto),
        r is Ok <==> register_fields_valid(dto),
{
    let ghost d = dto;
    proof {
        lemma_register_accepts_valid_fields(dto);
    }
    let RegisterDto { username, email, password, ik_pub, ik_pub_ed, spk_pub, spk_pub_sig, otpks } =
        dto;
    let username = Username::parse(username)?;
    let email = match Email::try_new(email) {
        Ok(e) => e,
        Err(e) => {
            return Err(PipelineError::Validation(String::from_str(e.message())));
        },
    };
    let password = PlainPassword::new(password);
    let ik_pub = IkPub(decode_key32(&ik_pub)?);
    let ik_pub_ed = IkPubEd(decode_key32(&ik_pub_ed)?);
    let spk_pub = SpkPub(decode_key32(&spk_pub)?);
    let spk_pub_sig = SpkPubSig(decode_key64(&spk_pub_sig)?);
    let otpks = decode_otpks(&otpks)?;
    Ok(RegisterBody { username, email, password, ik_pub, ik_pub_ed, spk_pub, spk_pub_sig, otpks })
}

/// Each field of a registration body is valid on its own.
pub open spec fn register_fields_valid(dto: RegisterDto) -> bool {
    &&& parse_username(dto.username@) is Ok
    &&& email_predicate(sanitize_email(dto.email@))
    &&& parse_hex_bytes(dto.ik_pub@, 32) is Some
    &&& parse_hex_bytes(dto.ik_pub_ed@, 32) is Some
    &&& parse_hex_bytes(dto.spk_pub@, 32) is Some
    &&& parse_hex_bytes(dto.spk_pub_sig@, 64) is Some
    &&& forall|i: int|
        0 <= i < dto.otpks@.len() ==> (#[trigger] parse_hex_bytes(dto.otpks@[i]@, 32)) is Some
}

/// A registration body whose every field is valid on its own is accepted,
/// however many one-time prekeys it holds; and one is refused only if some
/// field is invalid.
pub proof fn lemma_register_accepts_valid_fields(dto: RegisterDto)
    ensures
        register_error(dto) is None <==> register_fields_valid(dto),
{
}

/// The fields are checked in order and the first invalid one decides the
/// error: an invalid user name is reported as such whatever else is wrong,
/// and an invalid address is reported when the user name is valid.
pub proof fn lemma_register_first_error_wins(dto: RegisterDto)
    ensures
        parse_username(dto.username@) matches Err(e) ==> register_error(dto) == Some(e),
        parse_username(dto.username@) is Ok && !email_predicate(sanitize_email(dto.email@))
            ==> register_error(dto) == Some(
            PipelineErrorView::Validation("Email failed the predicate test."@),
        ),
{
}

/// An accepted registration keeps each field in the field of the same name:
/// the trimmed user name, the sanitized address, the password as sent, and
/// each key decoded from its own text, prekeys in the order given.
pub proof fn lemma_register_body_fields(body: RegisterBody, dto: RegisterDto)
    requires
        register_body_matches(body, dto),
    ensures
        body.username@ == trim(dto.username@),
        body.email@ == sanitize_email(dto.email@),
        body.password@ == dto.password@,
        parse_hex_bytes(dto.ik_pub@, 32) == Some(body.ik_pub@),
        parse_hex_bytes(dto.ik_pub_ed@, 32) == Some(body.ik_pub_ed@),
        parse_hex_bytes(dto.spk_pub@, 32) == Some(body.spk_pub@),
        parse_hex_bytes(dto.spk_pub_sig@, 64) == Some(body.spk_pub_sig@),
        body.otpks@.len() == dto.otpks@.len(),
        forall|i: int|
            0 <= i < dto.otpks@.len() ==> parse_hex_bytes(dto.otpks@[i]@, 32) == Some(
                #[trigger] body.otpks@[i]@,
            ),
{
}

/// Every refused registration body is answered with 422 Unprocessable Entity.
pub proof fn lemma_register_refusals_are_422(dto: RegisterDto)
    ensures
        register_error(dto) matches Some(e) ==> error_status(e) == 422,
{
}

/// Validates the registration request and moves it to the `Validated` stage.
pub fn validate_register(req: Request<Raw, RegisterDto>) -> (r: PipelineResult<
    Request<Validated, RegisterInput>,
>)
    ensures
        r is Err <==> register_error(req.payload()) is Some,
        r matches Err(e) ==> register_error(req.payload()) == Some(e@),
        r matches Ok(q) ==> register_body_matches(q.payload(), req.payload()),
        r is Ok <==> register_fields_valid(req.payload()),
{
    let dto = req.into_inner();
    let body = validate_reg_dto(dto)?;
    Ok(Request::new(body))
}

fn validate_auth_req(dto: AuthChallengeDto) -> (r: PipelineResult<AuthChallengeInput>)
    ensures
        r is Err <==> parse_hex_bytes(dto.ik_pub@, 32) is None,
        r matches Err(e) ==> e@ == PipelineErrorView::ParseError(KEY32_MESSAGE@),
        r matches Ok(b) ==> parse_hex_bytes(dto.ik_pub@, 32) == Some(b.ik_pub@),
{
    Ok(AuthChallengeBody { ik_pub: IkPub(decode_key32(&dto.ik_pub)?) })
}

/// Validates the challenge request and moves it to the `Validated` stage.
pub fn validate_auth_challenege(req: Request<Raw, AuthChallengeDto>) -> (r: PipelineResult<
    Request<Validated, AuthChallengeInput>,
>)
    ensures
        r is Err <==> parse_hex_bytes(req.payload().ik_pub@, 32) is None,
        r matches Err(e) ==> e@ == PipelineErrorView::ParseError(KEY32_MESSAGE@),
        r matches Ok(q) ==> parse_hex_bytes(req.payload().ik_pub@, 32) == Some(
            q.payload().ik_pub@,
        ),
{
    let dto = req.into_inner();
    let body = validate_auth_req(dto)?;
    Ok(Request::new(body))
}

/// The registration answer: the stored user's id and prekey count.
pub fn register_response(req: Request<Executed, InsertedUser>) -> (r: PipelineResult<
    RegisterResponse,
>)
    ensures
        r matches Ok(resp) && resp.id == req.payload().id && resp.inserted
            == req.payload().inserted_otpks,
{
    let user = req.into_inner();
    Ok(RegisterResponse { id: user.id, inserted: user.inserted_otpks })
}

/// The challenge answer: the stored nonce.
pub fn auth_challenge_response(req: Request<Executed, InsertedNonce>) -> (r: PipelineResult<
    AuthChallengeResponse,
>)
    ensures
        r matches Ok(resp) && resp.nonce == req.payload().nonce,
{
    let auth_nonce = req.into_inner();
    Ok(AuthChallengeResponse { nonce: auth_nonce.nonce })
}

} // verus!
