//! Adding context to a propagating failure.
//!
//! `chain_error` is the sole mechanism for building multi-level cause
//! chains: on failure it asks a caller-supplied zero-argument factory for
//! a new contextual error and preserves the original failure, unmodified,
//! as that error's cause. A successful value passes through untouched and
//! the factory is never consulted.

use crate::errors::{chained, CargoError, CargoResult};
use vstd::prelude::*;

verus! {

/// A fallible producer that can have context chained onto its failure.
///
/// `chain_fails` says whether the factory will be consulted;
/// `chain_value` is the value passed through on success; `chain_failed`
/// is the error produced on failure, given the factory's error.
pub trait ChainError<T>: Sized {
    /// Whether this outcome is a failure, so that chaining builds an error.
    spec fn chain_fails(self) -> bool;

    /// The successful value that chaining passes through unchanged.
    spec fn chain_value(self) -> T
        recommends
            !self.chain_fails(),
    ;

    /// The error that chaining produces from this failed outcome, given
    /// the contextual error the factory returned.
    spec fn chain_failed(self, context: CargoError) -> CargoError
        recommends
            self.chain_fails(),
    ;

    /// On success, the original value unchanged, whatever the factory;
    /// on failure, the error built by `chain_failed` from some error the
    /// factory may return.
    fn chain_error<F: FnOnce() -> CargoError>(self, callback: F) -> (res: CargoResult<T>)
        requires
            self.chain_fails() ==> call_requires(callback, ()),
        ensures
            !self.chain_fails() ==> res == CargoResult::<T>::Ok(self.chain_value()),
            self.chain_fails() ==> (exists|context: CargoError|
                #[trigger] call_ensures(callback, (), context) && res == CargoResult::<T>::Err(
                    self.chain_failed(context),
                )),
    ;
}

impl<T> ChainError<T> for CargoResult<T> {
    open spec fn chain_fails(self) -> bool {
        self is Err
    }

    open spec fn chain_value(self) -> T {
        self->Ok_0
    }

    open spec fn chain_failed(self, context: CargoError) -> CargoError {
        chained(context, self->Err_0)
    }

    fn chain_error<F: FnOnce() -> CargoError>(self, callback: F) -> (res: CargoResult<T>) {
        match self {
            Ok(t) => Ok(t),
            Err(err) => {
                let context = callback();
                Err(CargoError::Chained { error: Box::new(context), cause: Box::new(err) })
            },
        }
    }
}

impl<T> ChainError<T> for Option<T> {
    open spec fn chain_fails(self) -> bool {
        self is None
    }

    open spec fn chain_value(self) -> T {
        self->Some_0
    }

    /// An absence has no underlying error to preserve: the factory's
    /// error stands alone, with no cause added.
    open spec fn chain_failed(self, context: CargoError) -> CargoError {
        context
    }

    fn chain_error<F: FnOnce() -> CargoError>(self, callback: F) -> (res: CargoResult<T>) {
        match self {
            Some(t) => Ok(t),
            None => Err(callback()),
        }
    }
}

/// Runs a fallible computation and chains context onto its failure, by
/// the same rule as chaining its `Result` directly.
pub fn chain_error_with<T, P, F>(producer: P, callback: F) -> (res: CargoResult<T>) where
    P: FnOnce() -> CargoResult<T>,
    F: FnOnce() -> CargoError,

    requires
        call_requires(producer, ()),
        forall|r: CargoResult<T>|
            call_ensures(producer, (), r) && r is Err ==> call_requires(callback, ()),
    ensures
        exists|r: CargoResult<T>|
            #[trigger] call_ensures(producer, (), r) && {
                ||| (r is Ok && res == CargoResult::<T>::Ok(r->Ok_0))
                ||| (r is Err && exists|context: CargoError|
                    #[trigger] call_ensures(callback, (), context) && res == CargoResult::<
                        T,
                    >::Err(chained(context, r->Err_0)))
            },
{
    let r = producer();
    r.chain_error(callback)
}

/// Chaining never alters a successful outcome, whatever the factory
/// would return: the original value is passed through unchanged.
pub proof fn lemma_chain_ok<T>(r: CargoResult<T>)
    requires
        r is Ok,
    ensures
        !r.chain_fails(),
        CargoResult::<T>::Ok(r.chain_value()) == r,
{
}

/// Chaining never alters a present value either: a `Some` passes its
/// content through unchanged, whatever the factory would return.
pub proof fn lemma_chain_some<T>(o: Option<T>)
    requires
        o is Some,
    ensures
        !o.chain_fails(),
        o.chain_value() == o->Some_0,
{
}

/// Chaining a failure preserves it whole: the chained error takes its
/// description (and human flag) from the factory's contextual error, and
/// keeps the original failure, unmodified, as its cause.
pub proof fn lemma_chain_err<T>(e: CargoError, context: CargoError)
    ensures
        CargoResult::<T>::Err(e).chain_fails(),
        CargoResult::<T>::Err(e).chain_failed(context).spec_description()
            == context.spec_description(),
        CargoResult::<T>::Err(e).chain_failed(context).spec_human() == context.spec_human(),
        CargoResult::<T>::Err(e).chain_failed(context).spec_cause() == Some(e),
{
}

/// Chaining an absence produces the factory's error alone: same
/// description, and no cause, there being no underlying failure to keep.
pub proof fn lemma_chain_none<T>(context: CargoError)
    requires
        context.spec_cause() is None,
    ensures
        Option::<T>::None.chain_fails(),
        Option::<T>::None.chain_failed(context).spec_description() == context.spec_description(),
        Option::<T>::None.chain_failed(context).spec_cause() is None,
{
}

} // verus!
