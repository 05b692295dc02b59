//! Passwords as received, and the form in which they are stored.

use vstd::prelude::*;

use crate::crypto::{password_hash, password_hash_text};

verus! {

/// A password as the client sent it.
#[derive(Debug, PartialEq, Eq)]
pub struct PlainPassword(String);

/// The stored form of a password.
#[derive(Debug, PartialEq, Eq)]
pub struct HashedPassword(String);

impl View for PlainPassword {
    type V = Seq<char>;

    closed spec fn view(&self) -> Seq<char> {
        self.0@
    }
}

impl View for HashedPassword {
    type V = Seq<char>;

    closed spec fn view(&self) -> Seq<char> {
        self.0@
    }
}

impl PlainPassword {
    /// Wraps a password as received.
    pub fn new(raw: String) -> (r: PlainPassword)
        ensures
            r@ == raw@,
    {
        PlainPassword(raw)
    }

    /// The password as text.
    pub fn as_str(&self) -> (r: &str)
        ensures
            r@ == self@,
    {
        self.0.as_str()
    }

    /// The stored form of this password.
    pub fn hash(&self) -> (r: HashedPassword)
        ensures
            r@ == password_hash_text(self@),
    {
        HashedPassword(password_hash(self.0.as_str()))
    }
}

impl HashedPassword {
    /// The stored form as text.
    pub fn as_str(&self) -> (r: &str)
        ensures
            r@ == self@,
    {
        self.0.as_str()
    }
}

} // verus!
