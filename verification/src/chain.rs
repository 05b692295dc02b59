//! Step chains: an ordered, typed list of pipeline steps bound to the
//! executor that runs them.

use vstd::prelude::*;
use core::marker::PhantomData;

use crate::commands::ExecutorFor;
use crate::error::PipelineResult;

verus! {

/// `frunk::HNil`, the empty step list, carried as an opaque value.
#[verifier::external_type_specification]
#[verifier::external_body]
pub struct ExHNil(frunk::HNil);

/// `frunk::HNil`, the empty heterogeneous list (a unit struct).
#[verifier::external_body]
fn hnil() -> frunk::HNil {
    frunk::HNil
}

/// Composition node: run `A`, then `B`.
pub struct Then<A, B, Idx>(pub A, pub B, pub PhantomData<Idx>);

impl<A: Clone, B: Clone, Idx> Clone for Then<A, B, Idx> {
    fn clone(&self) -> (r: Self)
        ensures
            cloned::<A>(self.0, r.0),
            cloned::<B>(self.1, r.1),
    {
        Then(self.0.clone(), self.1.clone(), PhantomData)
    }
}

/// A chain of steps to be run by an executor of type `Exec`.
pub struct StepChain<Steps, Exec> {
    steps: Steps,
    executor: PhantomData<Exec>,
}

impl<Steps, Exec> StepChain<Steps, Exec> {
    /// The steps, in order of composition.
    pub closed spec fn steps(&self) -> Steps {
        self.steps
    }

    /// The steps, handed to whoever runs the chain.
    pub fn into_steps(self) -> (r: Steps)
        ensures
            r == self.steps(),
    {
        self.steps
    }

    /// Runs the steps in order on `ctx`: each step reads what the one before
    /// it gave, and the first error stops the chain and is its result.
    pub fn run<Ctx>(self, ctx: Ctx) -> (r: PipelineResult<Steps::ChainOutput>)
        where
            Steps: ExecuteChain<Ctx>,
        ensures
            self.steps().chain_post(ctx, r),
    {
        self.steps.execute(ctx)
    }

    /// Appends step `s`: the chain runs its current steps, then `s`.
    pub fn step<S, Idx>(self, s: S) -> (r: StepChain<Then<Steps, S, Idx>, Exec>)
        where
            Exec: ExecutorFor<S>,
        ensures
            r.steps().0 == self.steps(),
            r.steps().1 == s,
    {
        StepChain { steps: Then(self.steps, s, PhantomData), executor: PhantomData }
    }
}

/// A step that reads an input and yields an output, or stops the chain
/// with an error.
pub trait Step<In> {
    type Out;

    /// What a run of this step on `input` may give.
    spec fn step_post(&self, input: In, r: PipelineResult<Self::Out>) -> bool;

    fn run_step(&self, input: In) -> (r: PipelineResult<Self::Out>)
        ensures
            self.step_post(input, r),
    ;
}

/// A chain of steps run on a context of type `Ctx`.
pub trait ExecuteChain<Ctx> {
    type ChainOutput;

    /// What a run of the chain on `ctx` may give.
    spec fn chain_post(&self, ctx: Ctx, r: PipelineResult<Self::ChainOutput>) -> bool;

    fn execute(&self, ctx: Ctx) -> (r: PipelineResult<Self::ChainOutput>)
        ensures
            self.chain_post(ctx, r),
    ;
}

/// The empty chain gives back its context unchanged.
impl<Ctx> ExecuteChain<Ctx> for frunk::HNil {
    type ChainOutput = Ctx;

    open spec fn chain_post(&self, ctx: Ctx, r: PipelineResult<Ctx>) -> bool {
        r == Ok::<Ctx, crate::error::PipelineError>(ctx)
    }

    fn execute(&self, ctx: Ctx) -> (r: PipelineResult<Ctx>) {
        Ok(ctx)
    }
}

/// `Then(a, b)` runs the chain `a`, then the step `b` on what `a` gave; an
/// error of `a` is the result and `b` does not run.
impl<Ctx, A: ExecuteChain<Ctx>, B: Step<A::ChainOutput>, Idx> ExecuteChain<Ctx> for Then<A, B, Idx> {
    type ChainOutput = B::Out;

    open spec fn chain_post(&self, ctx: Ctx, r: PipelineResult<B::Out>) -> bool {
        exists|mid: PipelineResult<A::ChainOutput>|
            #[trigger] self.0.chain_post(ctx, mid) && match mid {
                Ok(m) => self.1.step_post(m, r),
                Err(e) => r == Err::<B::Out, crate::error::PipelineError>(e),
            }
    }

    fn execute(&self, ctx: Ctx) -> (r: PipelineResult<B::Out>) {
        let mid = self.0.execute(ctx);
        let ghost mid_view = mid;
        match mid {
            Ok(m) => {
                let r = self.1.run_step(m);
                assert(self.0.chain_post(ctx, mid_view));
                r
            },
            Err(e) => {
                assert(self.0.chain_post(ctx, mid_view));
                Err(e)
            },
        }
    }
}

impl<Steps: Clone, Exec> Clone for StepChain<Steps, Exec> {
    fn clone(&self) -> (r: Self)
        ensures
            cloned::<Steps>(self.steps(), r.steps()),
    {
        StepChain { steps: self.steps.clone(), executor: PhantomData }
    }
}

impl<Exec> StepChain<frunk::HNil, Exec> {
    /// The empty chain.
    pub fn new() -> (r: Self) {
        StepChain { steps: hnil(), executor: PhantomData }
    }
}

} // verus!
