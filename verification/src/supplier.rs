//! Suppliers, and the bridge that lets suppliers of different input and
//! output types stand in one registry.

use crate::error::{DemandError, SupplyError};
use crate::scope::Scope;
use crate::value::{DynamicValue, Erasable};
use std::sync::Arc;
use vstd::prelude::*;

verus! {

/// A producer of a typed output from a typed input and the scope it was
/// invoked in. `H` is the kind of shared supplier that the scope's registry
/// holds.
///
/// `supplies` is the implementor's own statement of what `supply` may return:
/// a relation, so that a supplier with state or timing need not pretend to be
/// a function. An implementor that does not state it promises nothing: as
/// given here it holds of every outcome.
pub trait Supplier<H: ?Sized>: Send + Sync {
    type Input: Erasable;

    type Output: Erasable;

    /// Whether `outcome` is something `supply` may return for `input` in
    /// `scope`.
    open spec fn supplies(
        &self,
        input: Self::Input,
        scope: Scope<H>,
        outcome: Result<Self::Output, DemandError>,
    ) -> bool {
        true
    }

    /// Produces the output. A failure of a demand issued through `scope` is
    /// handed on as the error.
    fn supply(&self, input: Self::Input, scope: Arc<Scope<H>>) -> (outcome: Result<
        Self::Output,
        DemandError,
    >)
        ensures
            self.supplies(input, *scope, outcome),
    ;
}

/// A supplier whose input and output types have been erased, so that it can
/// be stored and invoked without static knowledge of them.
///
/// `supplies_erased` is the implementor's statement of what `supply_erased`
/// may return, as `supplies` is for [`Supplier`]; as given here it holds of
/// every outcome.
pub trait ErasedSupplier<H: ?Sized>: Send + Sync {
    /// Whether `outcome` is something `supply_erased` may return for `input`
    /// in `scope`.
    open spec fn supplies_erased(
        &self,
        input: DynamicValue,
        scope: Scope<H>,
        outcome: Result<DynamicValue, SupplyError>,
    ) -> bool {
        true
    }

    /// Produces the output for a dynamically typed input.
    fn supply_erased(&self, input: DynamicValue, scope: Arc<Scope<H>>) -> (outcome: Result<
        DynamicValue,
        SupplyError,
    >)
        ensures
            self.supplies_erased(input, *scope, outcome),
    ;
}

/// What recovering a typed input from `input` gives: the typed value where
/// `input` was erased from `I`, else the mismatch of `I` against the type it
/// was erased from.
pub open spec fn recovered<I: Erasable>(input: DynamicValue) -> Result<I, SupplyError> {
    if input.value_type() == I::static_type() {
        Ok(I::restored(input))
    } else {
        Err(SupplyError::InputTypeMismatch { expected: I::static_type(), actual: input.value_type() })
    }
}

/// What a typed outcome looks like from outside the bridge: the output with
/// its type erased, or the failed demand.
pub open spec fn erased_outcome<O: Erasable>(outcome: Result<O, DemandError>) -> Result<
    DynamicValue,
    SupplyError,
> {
    match outcome {
        Ok(output) => Ok(output.erased()),
        Err(failure) => Err(SupplyError::Demand(failure)),
    }
}

/// What the erased form of a typed supplier may return: the input mismatch,
/// without the supplier having run, where the input is not of its input type;
/// else whatever the supplier may return for the recovered input, erased.
pub open spec fn bridged<H: ?Sized, T: Supplier<H>>(
    supplier: &T,
    input: DynamicValue,
    scope: Scope<H>,
    outcome: Result<DynamicValue, SupplyError>,
) -> bool {
    match recovered::<T::Input>(input) {
        Err(mismatch) => outcome == Err::<DynamicValue, SupplyError>(mismatch),
        Ok(typed) => exists|produced: Result<T::Output, DemandError>| #[trigger]
            supplier.supplies(typed, scope, produced) && outcome == erased_outcome(produced),
    }
}

/// Recovers the typed input of a supplier from a dynamic value, or reports
/// the mismatch.
pub fn recover_input<I: Erasable>(input: DynamicValue) -> (r: Result<I, SupplyError>)
    ensures
        r == recovered::<I>(input),
{
    match I::downcast(input) {
        Ok(typed) => Ok(typed),
        Err(back) => Err(
            SupplyError::InputTypeMismatch { expected: I::type_of(), actual: back.value_type() },
        ),
    }
}

/// Erases the type of a supplier's outcome.
pub fn erase_outcome<O: Erasable>(outcome: Result<O, DemandError>) -> (r: Result<
    DynamicValue,
    SupplyError,
>)
    ensures
        r == erased_outcome(outcome),
{
    match outcome {
        Ok(output) => Ok(output.erase()),
        Err(failure) => Err(SupplyError::Demand(failure)),
    }
}

/// Every typed supplier is an erased supplier: the input's type is checked,
/// the typed supplier is run on the recovered input, and its output is
/// erased.
impl<H: ?Sized, T: Supplier<H>> ErasedSupplier<H> for T {
    open spec fn supplies_erased(
        &self,
        input: DynamicValue,
        scope: Scope<H>,
        outcome: Result<DynamicValue, SupplyError>,
    ) -> bool {
        bridged::<H, T>(self, input, scope, outcome)
    }

    fn supply_erased(&self, input: DynamicValue, scope: Arc<Scope<H>>) -> (outcome: Result<
        DynamicValue,
        SupplyError,
    >) {
        match recover_input::<T::Input>(input) {
            Err(mismatch) => Err(mismatch),
            Ok(typed) => {
                let produced = self.supply(typed, scope);
                erase_outcome(produced)
            },
        }
    }
}

} // verus!
