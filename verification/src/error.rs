//! The ways a demand can fail.

use crate::value::ValueType;
use vstd::prelude::*;

verus! {

/// Why a demand produced no value. Every variant names the key whose
/// resolution failed; a failure below a supplier travels up unchanged through
/// every demand that was waiting on it.
#[derive(Clone, Debug, PartialEq, Eq)]
pub enum DemandError {
    /// The effective registry has no entry for the demanded key.
    SupplierNotFound { key: String },
    /// The input handed to the demand is not of the type that the key's
    /// supplier declares as its input.
    InputTypeMismatch { key: String, expected: ValueType, actual: ValueType },
    /// The key's supplier produced a value that is not of the type the
    /// caller asked for.
    OutputTypeMismatch { key: String, expected: ValueType, actual: ValueType },
}

/// Why an erased supplier produced no value.
#[derive(Clone, Debug, PartialEq, Eq)]
pub enum SupplyError {
    /// The dynamic input is not of the supplier's declared input type. The
    /// supplier itself was not run.
    InputTypeMismatch { expected: ValueType, actual: ValueType },
    /// The supplier ran, and a demand that it issued failed.
    Demand(DemandError),
}

impl DemandError {
    /// The key whose resolution failed.
    pub open spec fn failed_key(&self) -> String {
        match self {
            DemandError::SupplierNotFound { key } => *key,
            DemandError::InputTypeMismatch { key, .. } => *key,
            DemandError::OutputTypeMismatch { key, .. } => *key,
        }
    }

    /// The key whose resolution failed.
    pub fn key(&self) -> (key: &String)
        ensures
            *key == self.failed_key(),
    {
        match self {
            DemandError::SupplierNotFound { key } => key,
            DemandError::InputTypeMismatch { key, .. } => key,
            DemandError::OutputTypeMismatch { key, .. } => key,
        }
    }

    /// A short description of the kind of failure.
    pub fn message(&self) -> (text: &'static str)
        ensures
            self is SupplierNotFound ==> text@ == "Supplier not found"@,
            self is InputTypeMismatch ==> text@ == "Input type mismatch"@,
            self is OutputTypeMismatch ==> text@ == "Output type mismatch"@,
    {
        match self {
            DemandError::SupplierNotFound { .. } => "Supplier not found",
            DemandError::InputTypeMismatch { .. } => "Input type mismatch",
            DemandError::OutputTypeMismatch { .. } => "Output type mismatch",
        }
    }
}

} // verus!
