//! The X3DH key material a client publishes (identity keys, signed and
//! one-time prekeys), signatures, and the nonces of authentication challenges.

use vstd::prelude::*;

use crate::primitives::{Bytes32, Bytes64, ReprBytes};

mod clock;

pub use clock::ClockReading;
pub(crate) use clock::unix_now;

verus! {

/// Identity public key (X25519).
#[derive(Clone, Copy, Debug, PartialEq, Eq)]
pub struct IkPub(pub Bytes32);

/// Identity public key in its Ed25519 form, used to check signatures.
#[derive(Debug, PartialEq, Eq)]
pub struct IkPubEd(pub Bytes32);

/// Signed prekey, public part.
#[derive(Debug, PartialEq, Eq)]
pub struct SpkPub(pub Bytes32);

/// Signature over the signed prekey.
#[derive(Debug, PartialEq, Eq)]
pub struct SpkPubSig(pub Bytes64);

/// A signature sent to answer an authentication challenge.
#[derive(Debug, PartialEq, Eq)]
pub struct SigData(pub Bytes64);

/// One-time prekey, public part.
#[derive(Debug, PartialEq, Eq)]
pub struct OtpkPub(pub Bytes32);

/// Random value of an authentication challenge, as the database stores it.
#[derive(Debug, Clone, PartialEq, Eq)]
pub struct NonceKey(pub Bytes32);

/// Random value of an authentication challenge, as the pipeline passes it on.
#[derive(Debug, PartialEq, Eq)]
pub struct Nonce(pub Bytes32);

impl View for IkPub {
    type V = Seq<u8>;

    open spec fn view(&self) -> Seq<u8> {
        self.0@
    }
}

impl View for IkPubEd {
    type V = Seq<u8>;

    open spec fn view(&self) -> Seq<u8> {
        self.0@
    }
}

impl View for SpkPub {
    type V = Seq<u8>;

    open spec fn view(&self) -> Seq<u8> {
        self.0@
    }
}

impl View for SpkPubSig {
    type V = Seq<u8>;

    open spec fn view(&self) -> Seq<u8> {
        self.0@
    }
}

impl View for SigData {
    type V = Seq<u8>;

    open spec fn view(&self) -> Seq<u8> {
        self.0@
    }
}

impl View for OtpkPub {
    type V = Seq<u8>;

    open spec fn view(&self) -> Seq<u8> {
        self.0@
    }
}

impl View for NonceKey {
    type V = Seq<u8>;

    open spec fn view(&self) -> Seq<u8> {
        self.0@
    }
}

impl View for Nonce {
    type V = Seq<u8>;

    open spec fn view(&self) -> Seq<u8> {
        self.0@
    }
}

impl ReprBytes<32> for IkPub {
    fn bytes_const(&self) -> (r: &[u8; 32]) {
        &self.0.0
    }

    fn bytes_as_slice(&self) -> (r: &[u8]) {
        self.0.0.as_slice()
    }
}

impl ReprBytes<32> for IkPubEd {
    fn bytes_const(&self) -> (r: &[u8; 32]) {
        &self.0.0
    }

    fn bytes_as_slice(&self) -> (r: &[u8]) {
        self.0.0.as_slice()
    }
}

impl ReprBytes<32> for SpkPub {
    fn bytes_const(&self) -> (r: &[u8; 32]) {
        &self.0.0
    }

    fn bytes_as_slice(&self) -> (r: &[u8]) {
        self.0.0.as_slice()
    }
}

impl ReprBytes<64> for SpkPubSig {
    fn bytes_const(&self) -> (r: &[u8; 64]) {
        &self.0.0
    }

    fn bytes_as_slice(&self) -> (r: &[u8]) {
        self.0.0.as_slice()
    }
}

impl ReprBytes<64> for SigData {
    fn bytes_const(&self) -> (r: &[u8; 64]) {
        &self.0.0
    }

    fn bytes_as_slice(&self) -> (r: &[u8]) {
        self.0.0.as_slice()
    }
}

impl ReprBytes<32> for OtpkPub {
    fn bytes_const(&self) -> (r: &[u8; 32]) {
        &self.0.0
    }

    fn bytes_as_slice(&self) -> (r: &[u8]) {
        self.0.0.as_slice()
    }
}

impl ReprBytes<32> for NonceKey {
    fn bytes_const(&self) -> (r: &[u8; 32]) {
        &self.0.0
    }

    fn bytes_as_slice(&self) -> (r: &[u8]) {
        self.0.0.as_slice()
    }
}

/// 32 bytes from the thread-local generator of `rand` (`rand::random`).
/// Nothing is stated of the value: it is meant to be unpredictable. The
/// generator panics only when the operating system cannot seed it.
#[verifier::external_body]
fn random_32_bytes() -> [u8; 32] {
    rand::random::<[u8; 32]>()
}

impl NonceKey {
    /// A fresh random challenge value.
    pub fn generate() -> (r: Self) {
        NonceKey(Bytes32(random_32_bytes()))
    }
}

impl Nonce {
    /// A fresh random challenge value.
    pub fn generate() -> (r: Self) {
        Nonce(Bytes32(random_32_bytes()))
    }
}

/// Seconds for which an authentication challenge stays open.
pub const CHALLENGE_TTL_SECS: i64 = 30;

/// A moment in UTC: whole seconds since the Unix epoch and the nanoseconds
/// past them.
#[derive(Debug, Clone, Copy, PartialEq, Eq)]
pub struct UnixTime {
    pub secs: i64,
    pub nanos: u32,
}

/// An issued challenge: its nonce, the moment it lapses, and, when it was
/// issued from a reading of the system clock, that reading.
#[derive(Debug, Clone, PartialEq, Eq)]
pub struct NonceType {
    pub nonce: NonceKey,
    pub expires_at: UnixTime,
    pub issued_by_clock: Option<ClockReading>,
}

impl NonceType {
    /// The clock reading the challenge was issued at, if it was issued from one.
    pub open spec fn clock_reading(&self) -> Option<UnixTime> {
        match self.issued_by_clock {
            Some(c) => Some(c@),
            None => None,
        }
    }

    /// A challenge for `nonce`, issued at the clock reading `now`: it lapses
    /// 30 seconds later.
    pub fn issue_from_clock(nonce: NonceKey, now: ClockReading) -> (r: NonceType)
        requires
            now@.secs <= i64::MAX - CHALLENGE_TTL_SECS,
        ensures
            r.nonce == nonce,
            r.clock_reading() == Some(now@),
            r.expires_at.secs == now@.secs + CHALLENGE_TTL_SECS,
            r.expires_at.nanos == now@.nanos,
    {
        let t = now.time();
        NonceType {
            nonce,
            expires_at: UnixTime { secs: t.secs + CHALLENGE_TTL_SECS, nanos: t.nanos },
            issued_by_clock: Some(now),
        }
    }

    /// A challenge for `nonce`, issued at `now`: it lapses 30 seconds later.
    pub fn issue(nonce: NonceKey, now: UnixTime) -> (r: NonceType)
        requires
            now.secs <= i64::MAX - CHALLENGE_TTL_SECS,
        ensures
            r.nonce == nonce,
            r.clock_reading() is None,
            r.expires_at.secs == now.secs + CHALLENGE_TTL_SECS,
            r.expires_at.nanos == now.nanos,
    {
        NonceType {
            nonce,
            expires_at: UnixTime { secs: now.secs + CHALLENGE_TTL_SECS, nanos: now.nanos },
            issued_by_clock: None,
        }
    }
}

} // verus!
