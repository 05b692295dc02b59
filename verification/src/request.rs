//! A request payload tagged with the pipeline stage it has reached.

use vstd::prelude::*;
use core::marker::PhantomData;

use crate::stages::{Raw, Stage};

verus! {

/// A payload of type `T` at stage `S`.
pub struct Request<S: Stage, T> {
    payload: T,
    stage: PhantomData<S>,
}

impl<T> Request<Raw, T> {
    /// A request as the extractors hand it over.
    pub fn from_raw(payload: T) -> (r: Self)
        ensures
            r.payload() == payload,
    {
        Self::new(payload)
    }
}

impl<S: Stage, T> Request<S, T> {
    /// The payload carried.
    pub closed spec fn payload(&self) -> T {
        self.payload
    }

    pub(crate) fn new(payload: T) -> (r: Self)
        ensures
            r.payload() == payload,
    {
        Request { payload, stage: PhantomData }
    }

    /// Tags `payload` with stage `S`.
    pub fn wrap(payload: T) -> (r: Self)
        ensures
            r.payload() == payload,
    {
        Self::new(payload)
    }

    /// Borrows the payload.
    pub fn inner(&self) -> (r: &T)
        ensures
            *r == self.payload(),
    {
        &self.payload
    }

    /// Gives up the request and returns its payload.
    pub fn into_inner(self) -> (r: T)
        ensures
            r == self.payload(),
    {
        self.payload
    }

    /// Moves on to stage `N` with the payload `next`.
    pub(crate) fn advance<N: Stage, U>(self, next: U) -> (r: Request<N, U>)
        ensures
            r.payload() == next,
    {
        Request::new(next)
    }
}

} // verus!
