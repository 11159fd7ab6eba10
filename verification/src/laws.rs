//! What holds of resolution across several demands: where an override is
//! seen and where it is not, and that nothing is remembered between demands.

use crate::error::{DemandError, SupplyError};
use crate::registry::effective_registry;
use crate::scope::{conclusion, Demand, Resolution, Scope};
use crate::supplier::{bridged, erased_outcome, Supplier};
use crate::value::{DynamicValue, Erasable};
use std::sync::Arc;
use vstd::prelude::*;

verus! {

/// Whether a demand's overrides, if it carries any, hold an entry for `key`.
pub open spec fn overrides_key<H: ?Sized>(
    overrides: Option<Map<Seq<char>, Arc<H>>>,
    key: Seq<char>,
) -> bool {
    match overrides {
        Some(over) => over.contains_key(key),
        None => false,
    }
}

/// The registry at the end of a chain of nested demands that starts from a
/// scope holding `base`: the first demand carries `chain[0]` as its
/// overrides and derives a scope, the second is issued from that scope and
/// carries `chain[1]`, and so on.
pub open spec fn descended<H: ?Sized>(
    base: Map<Seq<char>, Arc<H>>,
    chain: Seq<Option<Map<Seq<char>, Arc<H>>>>,
) -> Map<Seq<char>, Arc<H>>
    decreases chain.len(),
{
    if chain.len() == 0 {
        base
    } else {
        effective_registry(descended(base, chain.drop_last()), chain.last())
    }
}

/// Deriving a scope is one step of a chain: the registry of the derived
/// scope is the one the chain of that single demand ends in.
pub proof fn lemma_derived_scope_is_one_step<H: ?Sized>(
    scope: Scope<H>,
    demand: Demand<H>,
    derived: Scope<H>,
)
    requires
        scope.derives(&demand, &derived),
    ensures
        derived@ == descended(scope@, seq![demand.overrides()]),
{
    let chain = seq![demand.overrides()];
    assert(chain.drop_last().len() == 0);
    assert(chain.last() == demand.overrides());
    assert(descended(scope@, chain.drop_last()) == scope@);
}

/// A key that no demand along a chain overrides resolves, at the end of the
/// chain, to the supplier that the base registry holds for it; and it is
/// absent there exactly if it is absent from the base registry.
pub proof fn lemma_unoverridden_key_keeps_base_supplier<H: ?Sized>(
    base: Map<Seq<char>, Arc<H>>,
    chain: Seq<Option<Map<Seq<char>, Arc<H>>>>,
    key: Seq<char>,
)
    requires
        forall|i: int| 0 <= i < chain.len() ==> !overrides_key(#[trigger] chain[i], key),
    ensures
        descended(base, chain).contains_key(key) == base.contains_key(key),
        base.contains_key(key) ==> descended(base, chain)[key] == base[key],
    decreases chain.len(),
{
    if chain.len() > 0 {
        let shorter = chain.drop_last();
        assert forall|i: int| 0 <= i < shorter.len() implies !overrides_key(
            #[trigger] shorter[i],
            key,
        ) by {
            assert(shorter[i] == chain[i]);
        }
        lemma_unoverridden_key_keeps_base_supplier(base, shorter, key);
        assert(!overrides_key(chain[chain.len() - 1], key));
    }
}

/// An override is seen in the whole subtree below the demand that brought
/// it: if the demand at position `at` of a chain overrides `key`, and no
/// demand after it does so again, then at the end of the chain `key`
/// resolves to the overriding supplier.
pub proof fn lemma_override_reaches_descendants<H: ?Sized>(
    base: Map<Seq<char>, Arc<H>>,
    chain: Seq<Option<Map<Seq<char>, Arc<H>>>>,
    at: int,
    key: Seq<char>,
)
    requires
        0 <= at < chain.len(),
        overrides_key(chain[at], key),
        forall|i: int| at < i < chain.len() ==> !overrides_key(#[trigger] chain[i], key),
    ensures
        descended(base, chain).contains_key(key),
        descended(base, chain)[key] == chain[at]->Some_0[key],
    decreases chain.len(),
{
    let shorter = chain.drop_last();
    if at == chain.len() - 1 {
        assert(chain.last() == chain[at]);
    } else {
        assert(shorter[at] == chain[at]);
        assert forall|i: int| at < i < shorter.len() implies !overrides_key(
            #[trigger] shorter[i],
            key,
        ) by {
            assert(shorter[i] == chain[i]);
        }
        lemma_override_reaches_descendants(base, shorter, at, key);
        assert(!overrides_key(chain[chain.len() - 1], key));
    }
}

/// An override is seen nowhere else: while the subtree below the demand
/// that carries `over` resolves `key` to the overriding supplier, a chain of
/// demands that starts from the same scope and does not itself override
/// `key` (a demand issued beside it, or by an ancestor) still resolves `key`
/// to the supplier of the base registry.
pub proof fn lemma_override_stays_in_its_subtree<H: ?Sized>(
    base: Map<Seq<char>, Arc<H>>,
    over: Map<Seq<char>, Arc<H>>,
    below: Seq<Option<Map<Seq<char>, Arc<H>>>>,
    beside: Seq<Option<Map<Seq<char>, Arc<H>>>>,
    key: Seq<char>,
)
    requires
        over.contains_key(key),
        forall|i: int| 0 <= i < below.len() ==> !overrides_key(#[trigger] below[i], key),
        forall|i: int| 0 <= i < beside.len() ==> !overrides_key(#[trigger] beside[i], key),
    ensures
        descended(effective_registry(base, Some(over)), below).contains_key(key),
        descended(effective_registry(base, Some(over)), below)[key] == over[key],
        descended(base, beside).contains_key(key) == base.contains_key(key),
        base.contains_key(key) ==> descended(base, beside)[key] == base[key],
{
    lemma_unoverridden_key_keeps_base_supplier(effective_registry(base, Some(over)), below, key);
    lemma_unoverridden_key_keeps_base_supplier(base, beside, key);
}

/// A demand answered by a typed supplier, with an input of the supplier's
/// input type and asked for the supplier's output type, returns exactly
/// what the supplier produced for that input: the erasure on the way in and
/// out loses nothing.
pub proof fn lemma_demand_returns_what_the_supplier_produced<H: ?Sized, T: Supplier<H>>(
    supplier: &T,
    key: String,
    input: T::Input,
    scope: Scope<H>,
    outcome: Result<DynamicValue, SupplyError>,
)
    requires
        bridged::<H, T>(supplier, input.erased(), scope, outcome),
    ensures
        supplier.supplies(input, scope, conclusion::<T::Output>(key, outcome)),
{
    T::Input::lemma_erase_then_restore(input);
    let produced = choose|produced: Result<T::Output, DemandError>| #[trigger]
        supplier.supplies(input, scope, produced) && outcome == erased_outcome(produced);
    match produced {
        Ok(output) => {
            T::Output::lemma_erase_then_restore(output);
        },
        Err(_) => {},
    }
    assert(conclusion::<T::Output>(key, outcome) == produced);
}

/// A demand whose input is not of the type that the key's supplier declares
/// fails with the input mismatch under the demanded key, whatever the
/// supplier would have produced and whatever type was asked for.
pub proof fn lemma_input_mismatch_fails_the_demand<H: ?Sized, T: Supplier<H>, R: Erasable>(
    supplier: &T,
    key: String,
    input: DynamicValue,
    scope: Scope<H>,
    outcome: Result<DynamicValue, SupplyError>,
)
    requires
        input.value_type() != T::Input::static_type(),
        bridged::<H, T>(supplier, input, scope, outcome),
    ensures
        conclusion::<R>(key, outcome) == Err::<R, DemandError>(
            DemandError::InputTypeMismatch {
                key,
                expected: T::Input::static_type(),
                actual: input.value_type(),
            },
        ),
{
}

/// A demand that asks for another type than the one its supplier produces
/// fails with the output mismatch under the demanded key whenever the
/// supplier came back with an output.
pub proof fn lemma_output_mismatch_fails_the_demand<H: ?Sized, T: Supplier<H>, R: Erasable>(
    supplier: &T,
    key: String,
    input: DynamicValue,
    scope: Scope<H>,
    outcome: Result<DynamicValue, SupplyError>,
)
    requires
        R::static_type() != T::Output::static_type(),
        bridged::<H, T>(supplier, input, scope, outcome),
        outcome is Ok,
    ensures
        conclusion::<R>(key, outcome) == Err::<R, DemandError>(
            DemandError::OutputTypeMismatch {
                key,
                expected: R::static_type(),
                actual: T::Output::static_type(),
            },
        ),
{
    let produced = choose|produced: Result<T::Output, DemandError>| #[trigger]
        supplier.supplies(T::Input::restored(input), scope, produced) && outcome == erased_outcome(
            produced,
        );
    T::Output::lemma_erase_then_restore(produced->Ok_0);
}

/// Nothing is remembered between demands: two demands for the same key
/// with the same overrides, issued from the same scope, are resolved alike.
/// If the first was handed to a supplier, the second is handed to that
/// supplier again, with a scope over the same registry; if the first found
/// no supplier, so does the second.
pub proof fn lemma_every_demand_is_resolved_afresh<H: ?Sized>(
    scope: Scope<H>,
    first: Demand<H>,
    second: Demand<H>,
    found_first: Result<Resolution<H>, DemandError>,
    found_second: Result<Resolution<H>, DemandError>,
)
    requires
        first.type_ == second.type_,
        first.overrides() == second.overrides(),
        scope.resolves(first, found_first),
        scope.resolves(second, found_second),
    ensures
        found_first is Ok <==> found_second is Ok,
        found_first is Ok ==> found_second->Ok_0.supplier == found_first->Ok_0.supplier,
        found_first is Ok ==> found_second->Ok_0.scope@ == found_first->Ok_0.scope@,
        found_first is Err ==> found_second->Err_0 == found_first->Err_0,
{
}

} // verus!
