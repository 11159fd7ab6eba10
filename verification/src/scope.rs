//! Scopes, demands, and the resolution of a demand.

use crate::error::{DemandError, SupplyError};
use crate::registry::{effective_registry, SupplierRegistry};
use crate::supplier::ErasedSupplier;
use crate::value::{DynamicValue, Erasable};
use std::sync::Arc;
use vstd::prelude::*;

verus! {

/// One registry snapshot, from which demands are issued. A scope is never
/// changed: every demand derives a new one.
#[verifier::reject_recursive_types(H)]
pub struct Scope<H: ?Sized> {
    pub registry: Arc<SupplierRegistry<H>>,
}

/// A request for the value named `type_`, with the suppliers that are to
/// stand in for those of the registry while it is resolved.
#[verifier::reject_recursive_types(H)]
pub struct Demand<H: ?Sized> {
    pub type_: String,
    pub override_suppliers: Option<SupplierRegistry<H>>,
}

/// A demand whose supplier has been found: the supplier to invoke and the
/// scope to invoke it with.
#[verifier::reject_recursive_types(H)]
pub struct Resolution<H: ?Sized> {
    pub key: String,
    pub supplier: Arc<H>,
    pub scope: Arc<Scope<H>>,
}

impl<H: ?Sized> View for Scope<H> {
    type V = Map<Seq<char>, Arc<H>>;

    open spec fn view(&self) -> Self::V {
        self.registry@
    }
}

impl<H: ?Sized> Demand<H> {
    /// A demand for `key` that overrides nothing.
    pub fn new(key: String) -> (demand: Self)
        ensures
            demand.type_ == key,
            demand.override_suppliers is None,
    {
        Demand { type_: key, override_suppliers: None }
    }

    /// A demand for `key` during whose resolution the entries of
    /// `overrides` stand in for those of the registry.
    pub fn with_overrides(key: String, overrides: SupplierRegistry<H>) -> (demand: Self)
        ensures
            demand.type_ == key,
            demand.override_suppliers == Some(overrides),
    {
        Demand { type_: key, override_suppliers: Some(overrides) }
    }

    /// The overrides as a map, where the demand carries any.
    pub open spec fn overrides(&self) -> Option<Map<Seq<char>, Arc<H>>> {
        match self.override_suppliers {
            Some(registry) => Some(registry@),
            None => None,
        }
    }
}

/// What a demand for `key` returns once its supplier has come back with
/// `outcome`: the output as a `T` where it is one, the mismatch where it is
/// of another type, the supplier's input mismatch under this demand's key,
/// and a failure from further down as it is.
pub open spec fn conclusion<T: Erasable>(
    key: String,
    outcome: Result<DynamicValue, SupplyError>,
) -> Result<T, DemandError> {
    match outcome {
        Ok(value) => if value.value_type() == T::static_type() {
            Ok(T::restored(value))
        } else {
            Err(
                DemandError::OutputTypeMismatch {
                    key,
                    expected: T::static_type(),
                    actual: value.value_type(),
                },
            )
        },
        Err(SupplyError::InputTypeMismatch { expected, actual }) => Err(
            DemandError::InputTypeMismatch { key, expected, actual },
        ),
        Err(SupplyError::Demand(failure)) => Err(failure),
    }
}

/// Turns what the supplier of `key` came back with into what the demand
/// returns.
pub fn conclude<T: Erasable>(key: String, outcome: Result<DynamicValue, SupplyError>) -> (r:
    Result<T, DemandError>)
    ensures
        r == conclusion::<T>(key, outcome),
{
    match outcome {
        Ok(value) => match T::downcast(value) {
            Ok(typed) => Ok(typed),
            Err(back) => Err(
                DemandError::OutputTypeMismatch {
                    key,
                    expected: T::type_of(),
                    actual: back.value_type(),
                },
            ),
        },
        Err(SupplyError::InputTypeMismatch { expected, actual }) => Err(
            DemandError::InputTypeMismatch { key, expected, actual },
        ),
        Err(SupplyError::Demand(failure)) => Err(failure),
    }
}

impl<H: ?Sized> Scope<H> {
    /// A scope over `registry`.
    pub fn new(registry: SupplierRegistry<H>) -> (scope: Self)
        ensures
            *scope.registry == registry,
    {
        Scope { registry: Arc::new(registry) }
    }

    /// The registry that `demand` resolves against when issued from this
    /// scope.
    pub open spec fn effective(&self, demand: &Demand<H>) -> Map<Seq<char>, Arc<H>> {
        effective_registry(self@, demand.overrides())
    }

    /// Whether `derived` is the scope that `demand` hands to its supplier
    /// when issued from this scope: it holds the effective registry, and
    /// without overrides it shares this scope's registry.
    pub open spec fn derives(&self, demand: &Demand<H>, derived: &Scope<H>) -> bool {
        &&& derived@ == self.effective(demand)
        &&& demand.override_suppliers is None ==> derived.registry == self.registry
    }

    /// Whether `found` is what looking `demand` up from this scope gives:
    /// the supplier registered under its key in the effective registry,
    /// together with the derived scope; or, where the key has no entry
    /// there, the failure.
    pub open spec fn resolves(
        &self,
        demand: Demand<H>,
        found: Result<Resolution<H>, DemandError>,
    ) -> bool {
        match found {
            Ok(step) => {
                &&& self.effective(&demand).contains_key(demand.type_@)
                &&& step.key == demand.type_
                &&& step.supplier == self.effective(&demand)[demand.type_@]
                &&& self.derives(&demand, &*step.scope)
            },
            Err(failure) => {
                &&& !self.effective(&demand).contains_key(demand.type_@)
                &&& failure == DemandError::SupplierNotFound { key: demand.type_ }
            },
        }
    }

    /// The scope that `demand` hands to its supplier. Without overrides it
    /// shares this scope's registry; with overrides it holds a new registry,
    /// and this scope's registry stays as it was.
    pub fn derive(&self, demand: &Demand<H>) -> (derived: Scope<H>)
        ensures
            self.derives(demand, &derived),
    {
        match &demand.override_suppliers {
            Some(overrides) => Scope { registry: Arc::new(self.registry.merge_overrides(overrides)) },
            None => Scope { registry: self.registry.clone() },
        }
    }

    /// Derives the scope for `demand` and looks its key up there. No
    /// supplier is invoked.
    pub fn resolve(&self, demand: Demand<H>) -> (found: Result<Resolution<H>, DemandError>)
        ensures
            self.resolves(demand, found),
    {
        let derived = self.derive(&demand);
        let supplier = match derived.registry.get(demand.type_.as_str()) {
            Some(supplier) => Some(supplier.clone()),
            None => None,
        };
        match supplier {
            Some(supplier) => Ok(
                Resolution { key: demand.type_, supplier, scope: Arc::new(derived) },
            ),
            None => Err(DemandError::SupplierNotFound { key: demand.type_ }),
        }
    }
}

impl<H: ErasedSupplier<H> + ?Sized> Scope<H> {
    /// Resolves `demand`: derives the scope, looks the key up in it, invokes
    /// the supplier found there with `input` and the derived scope, and
    /// returns its output as a `T`.
    pub fn demand<T: Erasable>(&self, demand: Demand<H>, input: DynamicValue) -> (result: Result<
        T,
        DemandError,
    >)
        ensures
            !self.effective(&demand).contains_key(demand.type_@) ==> result == Err::<
                T,
                DemandError,
            >(DemandError::SupplierNotFound { key: demand.type_ }),
            self.effective(&demand).contains_key(demand.type_@) ==> exists|
                scope: Scope<H>,
                outcome: Result<DynamicValue, SupplyError>,
            |
                {
                    &&& self.derives(&demand, &scope)
                    &&& #[trigger] self.effective(&demand)[demand.type_@].supplies_erased(
                        input,
                        scope,
                        outcome,
                    )
                    &&& result == conclusion::<T>(demand.type_, outcome)
                },
    {
        match self.resolve(demand) {
            Err(failure) => Err(failure),
            Ok(step) => {
                let outcome = step.supplier.supply_erased(input, step.scope);
                conclude(step.key, outcome)
            },
        }
    }
}

} // verus!
