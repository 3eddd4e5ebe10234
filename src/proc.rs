use vstd::prelude::*;

pub use crate::url::{Param, RequestContext, StrRef, UrlInfo};
use crate::ResponseCode;

verus! {

/// A value that a processing step produces, to be applied to the current result.
pub trait Update {
}

/// A result that an `Update` turns into its successor: a healthy `O` or a broken `E`.
pub trait ResultContext<O, E, U: Update>: Sized {
    /// What `apply` returns for this result and `update`.
    spec fn apply_spec(self, update: U) -> Result<O, E>;

    /// Consumes the result and the update and yields the next state.
    fn apply(self, update: U) -> (r: Result<O, E>)
        ensures
            r == self.apply_spec(update),
    ;
}

/// Marks the result type of a healthy pipeline.
pub trait OkResultContext {
}

/// Marks the result type of a broken pipeline.
pub trait ErrResultContext {
}

/// A result that can be turned into a response.
pub trait ResponseContext {
    type Data: Data;

    fn code(&self) -> ResponseCode;

    fn to_data(&self) -> Self::Data;
}

/// A response ready for the transport: a code and the bytes to send.
pub trait Data {
    fn code(&self) -> ResponseCode;

    fn into_bytes(self) -> Vec<u8>;
}

/// A result paired with the request that produced it.
#[derive(Debug)]
pub struct ContextBundle<RS> {
    pub result: RS,
    pub request: RequestContext,
}

impl<RS> ContextBundle<RS> {
    /// Applies `update` to the result, keeping the request.
    pub fn advance<O: OkResultContext, E: ErrResultContext, U: Update>(self, update: U) -> (r:
        ResultContextBundle<O, E>)
        where RS: ResultContext<O, E, U>
        ensures
            r == outcome_bundle(self.result.apply_spec(update), self.request),
    {
        let ContextBundle { result, request } = self;
        ResultContextBundle::from_outcome(result.apply(update), request)
    }
}

/// A unit of work: it reads a bundle and produces the update to apply to it.
pub trait Process: Sized {
    type RS;
    type Result: Update;

    /// The updates that the step may produce for `context`. Any, by default: a step may await
    /// outside work.
    open spec fn produces(self, context: ContextBundle<Self::RS>, u: Self::Result) -> bool {
        true
    }

    /// Runs the step against `context`.
    fn exec(self, context: &ContextBundle<Self::RS>) -> (r: Self::Result)
        ensures
            self.produces(*context, r),
    ;

    /// Runs the step and applies its update to the bundle's result, keeping the request.
    fn exec_over<O: OkResultContext, E: ErrResultContext>(
        self,
        context: ContextBundle<Self::RS>,
    ) -> (r: ResultContextBundle<O, E>)
        where Self::RS: ResultContext<O, E, Self::Result>
        ensures
            exists|u: Self::Result|
                self.produces(context, u) && r == outcome_bundle(
                    context.result.apply_spec(u),
                    context.request,
                ),
    {
        let update = self.exec(&context);
        context.advance(update)
    }
}

/// Misuse of the pipeline: an operation for one state called in the other.
#[derive(Clone, Copy, Debug, PartialEq, Eq, Structural)]
pub enum ContractViolation {
    /// `unwrap` on a broken bundle.
    UnwrapOnErr,
    /// `unwrap_err` or `err` on a healthy bundle.
    UnwrapErrOnOk,
    /// `fix` or `amend` on a healthy bundle.
    FixOnOk,
    /// `update` on a broken bundle.
    UpdateOnErr,
}

/// The pipeline's state: a healthy or a broken result, with its request.
#[allow(inconsistent_fields)]
#[derive(Debug)]
pub enum ResultContextBundle<O, E> {
    Healthy { result: O, request: RequestContext },
    Broken { result: E, request: RequestContext },
}

/// The bundle that an applied update leads to, keeping `request`.
pub open spec fn outcome_bundle<O, E>(outcome: Result<O, E>, request: RequestContext) -> ResultContextBundle<O, E> {
    match outcome {
        Ok(v) => ResultContextBundle::Healthy { result: v, request },
        Err(e) => ResultContextBundle::Broken { result: e, request },
    }
}

impl<O: OkResultContext, E: ErrResultContext> ResultContextBundle<O, E> {
    /// What a healthy bundle becomes when `u` is applied to its result.
    pub open spec fn advanced<U: Update>(self, u: U) -> Result<Self, ContractViolation>
        where O: ResultContext<O, E, U>
    {
        match self {
            ResultContextBundle::Healthy { result, request } => Ok(outcome_bundle(result.apply_spec(u), request)),
            ResultContextBundle::Broken { .. } => Err(ContractViolation::UpdateOnErr),
        }
    }

    /// What a broken bundle becomes when `u` is applied to its result.
    pub open spec fn amended<U: Update>(self, u: U) -> Result<Self, ContractViolation>
        where E: ResultContext<O, E, U>
    {
        match self {
            ResultContextBundle::Healthy { .. } => Err(ContractViolation::FixOnOk),
            ResultContextBundle::Broken { result, request } => Ok(outcome_bundle(result.apply_spec(u), request)),
        }
    }

    /// `r` is what `update` with `process` gives: the healthy result with an update that the
    /// process produces for it applied, or misuse on a broken bundle.
    pub open spec fn updated_by<P: Process<RS = O>>(self, process: P, r: Result<Self, ContractViolation>) -> bool
        where O: ResultContext<O, E, P::Result>
    {
        match self {
            ResultContextBundle::Healthy { result, request } => exists|u: P::Result|
                process.produces(ContextBundle { result, request }, u) && r == self.advanced(u),
            ResultContextBundle::Broken { .. } => r == Err::<Self, ContractViolation>(ContractViolation::UpdateOnErr),
        }
    }

    /// `r` is what `fix` with `fixer` gives: the broken result with an update that the fixer
    /// produces for it applied, or misuse on a healthy bundle.
    pub open spec fn fixed_by<F: Process<RS = E>>(self, fixer: F, r: Result<Self, ContractViolation>) -> bool
        where E: ResultContext<O, E, F::Result>
    {
        match self {
            ResultContextBundle::Healthy { .. } => r == Err::<Self, ContractViolation>(ContractViolation::FixOnOk),
            ResultContextBundle::Broken { result, request } => exists|u: F::Result|
                fixer.produces(ContextBundle { result, request }, u) && r == self.amended(u),
        }
    }

    /// `m` is this bundle if it is healthy, else what `fix` with `fixer` gives.
    pub open spec fn continued_by<F: Process<RS = E>>(self, fixer: F, m: Self) -> bool
        where E: ResultContext<O, E, F::Result>
    {
        match self {
            ResultContextBundle::Healthy { .. } => m == self,
            ResultContextBundle::Broken { .. } => self.fixed_by(fixer, Ok(m)),
        }
    }

    /// Pairs what `apply` returned with the request: healthy for `Ok`, broken for `Err`.
    pub fn from_outcome(outcome: Result<O, E>, request: RequestContext) -> (r: Self)
        ensures
            r == outcome_bundle(outcome, request),
    {
        match outcome {
            Ok(v) => ResultContextBundle::Healthy { result: v, request },
            Err(e) => ResultContextBundle::Broken { result: e, request },
        }
    }

    pub fn is_ok(&self) -> (r: bool)
        ensures
            r == self is Healthy,
    {
        match self {
            ResultContextBundle::Healthy { .. } => true,
            ResultContextBundle::Broken { .. } => false,
        }
    }

    pub fn is_err(&self) -> (r: bool)
        ensures
            r == self is Broken,
    {
        !self.is_ok()
    }

    /// Applies `update` to a broken bundle's result.
    pub fn amend<U: Update>(self, update: U) -> (r: Result<Self, ContractViolation>)
        where E: ResultContext<O, E, U>
        ensures
            r == self.amended(update),
    {
        match self {
            ResultContextBundle::Broken { result, request } => Ok(ContextBundle { result, request }.advance(update)),
            ResultContextBundle::Healthy { .. } => Err(ContractViolation::FixOnOk),
        }
    }
}

impl<O: OkResultContext, E: ErrResultContext> ResultContextBundle<O, E> {
    /// The healthy result with its request.
    pub fn unwrap(self) -> (r: Result<ContextBundle<O>, ContractViolation>)
        ensures
            match self {
                ResultContextBundle::Healthy { result, request } => r == Ok::<ContextBundle<O>, ContractViolation>(ContextBundle { result, request }),
                ResultContextBundle::Broken { .. } => r == Err::<ContextBundle<O>, ContractViolation>(ContractViolation::UnwrapOnErr),
            },
    {
        match self {
            ResultContextBundle::Healthy { result, request } => Ok(ContextBundle { result, request }),
            ResultContextBundle::Broken { .. } => Err(ContractViolation::UnwrapOnErr),
        }
    }

    /// The broken result with its request.
    pub fn unwrap_err(self) -> (r: Result<ContextBundle<E>, ContractViolation>)
        ensures
            match self {
                ResultContextBundle::Healthy { .. } => r == Err::<ContextBundle<E>, ContractViolation>(ContractViolation::UnwrapErrOnOk),
                ResultContextBundle::Broken { result, request } => r == Ok::<ContextBundle<E>, ContractViolation>(ContextBundle { result, request }),
            },
    {
        match self {
            ResultContextBundle::Healthy { .. } => Err(ContractViolation::UnwrapErrOnOk),
            ResultContextBundle::Broken { result, request } => Ok(ContextBundle { result, request }),
        }
    }

    /// The broken result, by reference.
    pub fn err(&self) -> (r: Result<&E, ContractViolation>)
        ensures
            match self {
                ResultContextBundle::Healthy { .. } => r == Err::<&E, ContractViolation>(ContractViolation::UnwrapErrOnOk),
                ResultContextBundle::Broken { result, .. } => r == Ok::<&E, ContractViolation>(result),
            },
    {
        match self {
            ResultContextBundle::Healthy { .. } => Err(ContractViolation::UnwrapErrOnOk),
            ResultContextBundle::Broken { result, .. } => Ok(result),
        }
    }

    /// Runs `process` on a healthy bundle and applies its update.
    pub fn update<P: Process<RS = O>>(self, process: P) -> (r: Result<Self, ContractViolation>)
        where O: ResultContext<O, E, P::Result>
        ensures
            self.updated_by(process, r),
    {
        match self {
            ResultContextBundle::Healthy { result, request } => {
                let ghost b = self;
                let next = process.exec_over(ContextBundle { result, request });
                let ghost u = choose|u: P::Result|
                    process.produces(ContextBundle { result, request }, u) && next
                        == outcome_bundle(result.apply_spec(u), request);
                assert(b.advanced(u) == Ok::<Self, ContractViolation>(next));
                Ok(next)
            },
            ResultContextBundle::Broken { .. } => Err(ContractViolation::UpdateOnErr),
        }
    }

    /// Runs `fixer` on a broken result and applies its update.
    fn fix_broken<F: Process<RS = E>>(result: E, request: RequestContext, fixer: F) -> (r: Self)
        where E: ResultContext<O, E, F::Result>
        ensures
            (ResultContextBundle::Broken { result, request }).fixed_by(fixer, Ok(r)),
    {
        let ghost b = ResultContextBundle::<O, E>::Broken { result, request };
        let r = fixer.exec_over(ContextBundle { result, request });
        let ghost u = choose|u: F::Result|
            fixer.produces(ContextBundle { result, request }, u) && r == outcome_bundle(
                result.apply_spec(u),
                request,
            );
        assert(b.amended(u) == Ok::<Self, ContractViolation>(r));
        r
    }

    /// Runs `fixer` on a broken bundle and applies its update; the bundle may recover or stay
    /// broken.
    pub fn fix<F: Process<RS = E>>(self, fixer: F) -> (r: Result<Self, ContractViolation>)
        where E: ResultContext<O, E, F::Result>
        ensures
            self.fixed_by(fixer, r),
    {
        match self {
            ResultContextBundle::Broken { result, request } => Ok(Self::fix_broken(result, request, fixer)),
            ResultContextBundle::Healthy { .. } => Err(ContractViolation::FixOnOk),
        }
    }

    /// Passes a healthy bundle on unchanged, without running `fixer`; on a broken one it does
    /// what `fix` does.
    pub fn continue_or_fix<F: Process<RS = E>>(self, fixer: F) -> (r: Self)
        where E: ResultContext<O, E, F::Result>
        ensures
            self.continued_by(fixer, r),
    {
        match self {
            ResultContextBundle::Broken { result, request } => Self::fix_broken(result, request, fixer),
            ResultContextBundle::Healthy { result, request } => ResultContextBundle::Healthy { result, request },
        }
    }

    /// Fixes the bundle if it is broken, then runs `process` on it.
    pub fn update_fixed<P: Process<RS = O>, F: Process<RS = E, Result = P::Result>>(
        self,
        process: P,
        fixer: F,
    ) -> (r: Result<Self, ContractViolation>)
        where O: ResultContext<O, E, P::Result>, E: ResultContext<O, E, P::Result>
        ensures
            exists|m: Self| self.continued_by(fixer, m) && m.updated_by(process, r),
    {
        let m = self.continue_or_fix(fixer);
        let r = m.update(process);
        assert(self.continued_by(fixer, m) && m.updated_by(process, r));
        r
    }
}

/// When the update that `process` produces for a healthy bundle fails to apply, `update` may
/// give a broken bundle that holds that error and the request as it was.
pub proof fn lemma_failed_update_keeps_request<O: OkResultContext, E: ErrResultContext, P: Process<RS = O>>(
    result: O,
    request: RequestContext,
    process: P,
    u: P::Result,
    e: E,
)
    where O: ResultContext<O, E, P::Result>
    requires
        process.produces(ContextBundle { result, request }, u),
        result.apply_spec(u) == Err::<O, E>(e),
    ensures
        (ResultContextBundle::<O, E>::Healthy { result, request }).updated_by(
            process,
            Ok::<ResultContextBundle<O, E>, ContractViolation>(ResultContextBundle::Broken { result: e, request }),
        ),
{
    let b = ResultContextBundle::<O, E>::Healthy { result, request };
    assert(process.produces(ContextBundle { result, request }, u) && Ok::<ResultContextBundle<O, E>, ContractViolation>(
        ResultContextBundle::Broken { result: e, request },
    ) == b.advanced(u));
}

/// `update_fixed` has exactly the outcomes of `fix` followed by `update` on a broken bundle,
/// and those of `update` alone on a healthy one; `fix` on a broken bundle never reports misuse.
pub proof fn lemma_update_fixed_is_fix_then_update<
    O: OkResultContext,
    E: ErrResultContext,
    P: Process<RS = O>,
    F: Process<RS = E, Result = P::Result>,
>(
    b: ResultContextBundle<O, E>,
    process: P,
    fixer: F,
    r: Result<ResultContextBundle<O, E>, ContractViolation>,
)
    where O: ResultContext<O, E, P::Result>, E: ResultContext<O, E, P::Result>
    ensures
        b is Broken ==> ((exists|m: ResultContextBundle<O, E>| b.continued_by(fixer, m) && m.updated_by(process, r))
            <==> (exists|m: ResultContextBundle<O, E>| b.fixed_by(fixer, Ok(m)) && m.updated_by(process, r))),
        b is Broken ==> forall|f: Result<ResultContextBundle<O, E>, ContractViolation>| #[trigger] b.fixed_by(fixer, f) ==> f is Ok,
        b is Healthy ==> ((exists|m: ResultContextBundle<O, E>| b.continued_by(fixer, m) && m.updated_by(process, r))
            <==> b.updated_by(process, r)),
{
    if b is Broken {
        assert forall|f: Result<ResultContextBundle<O, E>, ContractViolation>| #[trigger] b.fixed_by(fixer, f) implies f is Ok by {
            let u = choose|u: P::Result| fixer.produces(ContextBundle { result: b->Broken_result, request: b->Broken_request }, u) && f == b.amended(u);
        }
    } else {
        if b.updated_by(process, r) {
            assert(b.continued_by(fixer, b));
        }
    }
}

} // verus!
