//! The steps of the endpoint pipelines. Each step is a marker type; the
//! steps that compute something without the database carry that computation.

use vstd::prelude::*;

use crate::chain::Step;
use crate::commands::{new_user_from, IntoCommand};
use crate::dto::{NewUser, RegisterBody};
use crate::error::PipelineResult;
use crate::keys::{unix_now, NonceKey, NonceType, CHALLENGE_TTL_SECS};

verus! {

/// auth/challenge, pure: makes a random nonce that lapses after 30 seconds.
#[derive(Clone, Copy, Debug)]
pub struct GenerateNonce;

/// auth/challenge, database: stores the nonce for the identity key of the body.
#[derive(Clone, Copy, Debug)]
pub struct StoreNonce;

/// auth/token, database: fetches the stored nonce of an identity key.
#[derive(Clone, Copy, Debug)]
pub struct GetNonce;

/// auth/token, pure: checks the signature of the nonce.
#[derive(Clone, Copy, Debug)]
pub struct VerifySignedNonce;

/// auth/token, pure: issues a new token.
#[derive(Clone, Copy, Debug)]
pub struct MintJwt;

/// api/register, pure: replaces the password by its stored form.
#[derive(Clone, Copy, Debug)]
pub struct HashPassword;

/// api/register, database: stores the new user and its one-time prekeys.
#[derive(Clone, Copy, Debug)]
pub struct StoreUser;

/// api/fetch_prekeys, database: fetches a user's prekey bundle.
#[derive(Clone, Copy, Debug)]
pub struct GetPrekeys;

/// api/replenish_otpks, database: adds one-time prekeys.
#[derive(Clone, Copy, Debug)]
pub struct AddOtpks;

/// api/otpk_count, database: counts a user's remaining one-time prekeys.
#[derive(Clone, Copy, Debug)]
pub struct CheckOtpkCount;

/// api/rotate_spk, database: replaces the signed prekey.
#[derive(Clone, Copy, Debug)]
pub struct ChangeSpk;

impl GenerateNonce {
    /// A fresh random nonce, lapsing 30 seconds after the clock reading it
    /// was issued at.
    pub fn run(&self) -> (r: NonceType)
        ensures
            r.clock_reading() matches Some(now) && r.expires_at.secs == now.secs
                + CHALLENGE_TTL_SECS && r.expires_at.nanos == now.nanos,
            CHALLENGE_TTL_SECS <= r.expires_at.secs < 10_000_000_000_000 + CHALLENGE_TTL_SECS,
            r.expires_at.nanos < 1_000_000_000,
    {
        let nonce = NonceKey::generate();
        let now = unix_now();
        NonceType::issue_from_clock(nonce, now)
    }
}

impl HashPassword {
    /// The user record for a registration body, with the password hashed.
    pub fn run(&self, body: RegisterBody) -> (r: PipelineResult<NewUser>)
        ensures
            r matches Ok(user) && new_user_from(body, user),
    {
        Ok(body.into_command())
    }
}

/// In a chain, `GenerateNonce` puts a fresh challenge in front of the
/// context and passes the context on unchanged.
impl<In> Step<In> for GenerateNonce {
    type Out = (NonceType, In);

    open spec fn step_post(&self, input: In, r: PipelineResult<(NonceType, In)>) -> bool {
        &&& r matches Ok((n, rest))
        &&& rest == input
        &&& n.clock_reading() matches Some(now) && n.expires_at.secs == now.secs
            + CHALLENGE_TTL_SECS && n.expires_at.nanos == now.nanos
        &&& CHALLENGE_TTL_SECS <= n.expires_at.secs < 10_000_000_000_000 + CHALLENGE_TTL_SECS
        &&& n.expires_at.nanos < 1_000_000_000
    }

    fn run_step(&self, input: In) -> (r: PipelineResult<(NonceType, In)>) {
        Ok((self.run(), input))
    }
}

/// A challenge made in a chain by `GenerateNonce` lapses exactly 30 seconds
/// after the clock reading it was issued at, and the context is passed on.
pub proof fn lemma_generated_challenge_lapses_after_30s<In>(
    input: In,
    r: PipelineResult<(NonceType, In)>,
)
    requires
        GenerateNonce.step_post(input, r),
    ensures
        r matches Ok((n, rest)) && rest == input && (n.clock_reading() matches Some(now)
            && n.expires_at.secs == now.secs + 30 && n.expires_at.nanos == now.nanos),
{
}

/// In a chain, `HashPassword` turns a registration body into the user record.
impl Step<RegisterBody> for HashPassword {
    type Out = NewUser;

    open spec fn step_post(&self, input: RegisterBody, r: PipelineResult<NewUser>) -> bool {
        r matches Ok(user) && new_user_from(input, user)
    }

    fn run_step(&self, input: RegisterBody) -> (r: PipelineResult<NewUser>) {
        self.run(input)
    }
}

/// In a chain whose context starts with the registration body,
/// `HashPassword` takes the body out, puts the user record in its place and
/// passes the rest of the context on unchanged.
impl<Rest> Step<(RegisterBody, Rest)> for HashPassword {
    type Out = (NewUser, Rest);

    open spec fn step_post(&self, input: (RegisterBody, Rest), r: PipelineResult<(NewUser, Rest)>) -> bool {
        r matches Ok((user, rest)) && new_user_from(input.0, user) && rest == input.1
    }

    fn run_step(&self, input: (RegisterBody, Rest)) -> (r: PipelineResult<(NewUser, Rest)>) {
        let (body, rest) = input;
        match self.run(body) {
            Ok(user) => Ok((user, rest)),
            Err(e) => Err(e),
        }
    }
}

} // verus!
