//! The stages a request passes through, as marker types.

use vstd::prelude::*;

mod sealed;

use sealed::Sealed;

verus! {

/// A stage of the request pipeline.
pub trait Stage: Sealed {}

/// Raw bytes/JSON parsed by the HTTP extractors.
pub struct Raw;

/// A valid token is present, or the endpoint is public.
pub struct Authenticated;

/// Domain invariants enforced: the payload holds domain types.
pub struct Validated;

/// Inside the execution of a step chain.
pub(crate) struct Processing;

/// Raw result of the infrastructure layer.
pub struct Executed;

/// Result mapped to the HTTP response body.
pub struct Responded;

impl Sealed for Raw {}
impl Sealed for Authenticated {}
impl Sealed for Validated {}
impl Sealed for Processing {}
impl Sealed for Executed {}
impl Sealed for Responded {}

impl Stage for Raw {}
impl Stage for Authenticated {}
impl Stage for Validated {}
impl Stage for Processing {}
impl Stage for Executed {}
impl Stage for Responded {}

} // verus!
