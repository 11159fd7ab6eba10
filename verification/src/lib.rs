//! On-demand resolution of named values.
//!
//! A registry maps string keys to shared suppliers. A scope holds one
//! registry snapshot; demanding a key through a scope derives a new scope
//! (the registry overlaid with the demand's overrides, if it carries any),
//! looks the key up there, invokes the supplier found with the derived scope,
//! and checks the produced value against the type the caller asked for.
//! Nothing is cached and no registry is ever changed in place, so an override
//! is visible exactly in the subtree of demands below the one that brought it.
//!
//! Registry, scope and demand are generic over `H`, the kind of supplier
//! that a registry shares. Looking a demand up ([`Scope::resolve`]) and
//! judging what its supplier came back with ([`conclude`]) need nothing of
//! `H`, so they serve any way of running a supplier. [`Scope::demand`] runs
//! it on the spot, for every `H` that is an erased supplier over scopes of
//! `H` again. A program picks one such type: as a rule a wrapper around a
//! boxed `dyn ErasedSupplier` over itself.

pub mod error;
pub mod laws;
pub mod registry;
pub mod scope;
pub mod supplier;
pub mod value;

pub use error::{DemandError, SupplyError};
pub use registry::SupplierRegistry;
pub use scope::{conclude, Demand, Resolution, Scope};
pub use supplier::{erase_outcome, recover_input, ErasedSupplier, Supplier};
pub use value::{DynamicValue, Erasable, ValueType};
