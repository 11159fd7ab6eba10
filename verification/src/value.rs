//! Dynamically typed values and the types that can travel as one.

use vstd::prelude::*;

verus! {

/// The runtime identity of a value's type.
#[derive(Clone, Copy, Debug, PartialEq, Eq, Hash, Structural)]
pub enum ValueType {
    Unit,
    Bool,
    I32,
    I64,
    U64,
    Text,
}

/// A value whose static type has been erased. It remembers which type it was
/// made from, so that the type can be checked again when it is recovered.
#[derive(Clone, Debug, PartialEq, Eq)]
pub enum DynamicValue {
    Unit,
    Bool(bool),
    I32(i32),
    I64(i64),
    U64(u64),
    Text(String),
}

impl DynamicValue {
    /// The type this value was erased from.
    pub open spec fn spec_value_type(&self) -> ValueType {
        match self {
            DynamicValue::Unit => ValueType::Unit,
            DynamicValue::Bool(_) => ValueType::Bool,
            DynamicValue::I32(_) => ValueType::I32,
            DynamicValue::I64(_) => ValueType::I64,
            DynamicValue::U64(_) => ValueType::U64,
            DynamicValue::Text(_) => ValueType::Text,
        }
    }

    /// The type this value was erased from.
    #[verifier::when_used_as_spec(spec_value_type)]
    pub fn value_type(&self) -> (t: ValueType)
        ensures
            t == self.spec_value_type(),
    {
        match self {
            DynamicValue::Unit => ValueType::Unit,
            DynamicValue::Bool(_) => ValueType::Bool,
            DynamicValue::I32(_) => ValueType::I32,
            DynamicValue::I64(_) => ValueType::I64,
            DynamicValue::U64(_) => ValueType::U64,
            DynamicValue::Text(_) => ValueType::Text,
        }
    }
}

/// A statically typed value that can be erased into a [`DynamicValue`] and
/// recovered from one.
///
/// `erased` and `restored` are the two directions as mathematical functions;
/// the two lemmas say that they are inverse to each other on the values of
/// the type's own `static_type`.
pub trait Erasable: Sized {
    /// The runtime identity of `Self`.
    spec fn static_type() -> ValueType;

    /// `self` with its static type erased.
    spec fn erased(self) -> DynamicValue;

    /// The typed value that `value` was erased from. Meaningful only where
    /// `value.value_type() == Self::static_type()`.
    spec fn restored(value: DynamicValue) -> Self;

    /// Erasing keeps the type's identity, and restoring undoes erasing.
    proof fn lemma_erase_then_restore(typed: Self)
        ensures
            typed.erased().value_type() == Self::static_type(),
            Self::restored(typed.erased()) == typed,
    ;

    /// On a value of the right type, erasing undoes restoring.
    proof fn lemma_restore_then_erase(value: DynamicValue)
        requires
            value.value_type() == Self::static_type(),
        ensures
            Self::restored(value).erased() == value,
    ;

    /// The runtime identity of `Self`.
    fn type_of() -> (t: ValueType)
        ensures
            t == Self::static_type(),
    ;

    /// Erases the static type.
    fn erase(self) -> (value: DynamicValue)
        ensures
            value == self.erased(),
    ;

    /// Recovers the typed value, or hands the dynamic value back unchanged
    /// when it was erased from another type.
    fn downcast(value: DynamicValue) -> (r: Result<Self, DynamicValue>)
        ensures
            match r {
                Ok(typed) => value.value_type() == Self::static_type() && typed
                    == Self::restored(value),
                Err(back) => value.value_type() != Self::static_type() && back == value,
            },
    ;
}

impl Erasable for () {
    open spec fn static_type() -> ValueType {
        ValueType::Unit
    }

    open spec fn erased(self) -> DynamicValue {
        DynamicValue::Unit
    }

    open spec fn restored(value: DynamicValue) -> Self {
        ()
    }

    proof fn lemma_erase_then_restore(typed: Self) {
    }

    proof fn lemma_restore_then_erase(value: DynamicValue) {
    }

    fn type_of() -> (t: ValueType) {
        ValueType::Unit
    }

    fn erase(self) -> (value: DynamicValue) {
        DynamicValue::Unit
    }

    fn downcast(value: DynamicValue) -> (r: Result<Self, DynamicValue>) {
        match value {
            DynamicValue::Unit => Ok(()),
            other => Err(other),
        }
    }
}

impl Erasable for bool {
    open spec fn static_type() -> ValueType {
        ValueType::Bool
    }

    open spec fn erased(self) -> DynamicValue {
        DynamicValue::Bool(self)
    }

    open spec fn restored(value: DynamicValue) -> Self {
        value->Bool_0
    }

    proof fn lemma_erase_then_restore(typed: Self) {
    }

    proof fn lemma_restore_then_erase(value: DynamicValue) {
    }

    fn type_of() -> (t: ValueType) {
        ValueType::Bool
    }

    fn erase(self) -> (value: DynamicValue) {
        DynamicValue::Bool(self)
    }

    fn downcast(value: DynamicValue) -> (r: Result<Self, DynamicValue>) {
        match value {
            DynamicValue::Bool(b) => Ok(b),
            other => Err(other),
        }
    }
}

impl Erasable for i32 {
    open spec fn static_type() -> ValueType {
        ValueType::I32
    }

    open spec fn erased(self) -> DynamicValue {
        DynamicValue::I32(self)
    }

    open spec fn restored(value: DynamicValue) -> Self {
        value->I32_0
    }

    proof fn lemma_erase_then_restore(typed: Self) {
    }

    proof fn lemma_restore_then_erase(value: DynamicValue) {
    }

    fn type_of() -> (t: ValueType) {
        ValueType::I32
    }

    fn erase(self) -> (value: DynamicValue) {
        DynamicValue::I32(self)
    }

    fn downcast(value: DynamicValue) -> (r: Result<Self, DynamicValue>) {
        match value {
            DynamicValue::I32(n) => Ok(n),
            other => Err(other),
        }
    }
}

impl Erasable for i64 {
    open spec fn static_type() -> ValueType {
        ValueType::I64
    }

    open spec fn erased(self) -> DynamicValue {
        DynamicValue::I64(self)
    }

    open spec fn restored(value: DynamicValue) -> Self {
        value->I64_0
    }

    proof fn lemma_erase_then_restore(typed: Self) {
    }

    proof fn lemma_restore_then_erase(value: DynamicValue) {
    }

    fn type_of() -> (t: ValueType) {
        ValueType::I64
    }

    fn erase(self) -> (value: DynamicValue) {
        DynamicValue::I64(self)
    }

    fn downcast(value: DynamicValue) -> (r: Result<Self, DynamicValue>) {
        match value {
            DynamicValue::I64(n) => Ok(n),
            other => Err(other),
        }
    }
}

impl Erasable for u64 {
    open spec fn static_type() -> ValueType {
        ValueType::U64
    }

    open spec fn erased(self) -> DynamicValue {
        DynamicValue::U64(self)
    }

    open spec fn restored(value: DynamicValue) -> Self {
        value->U64_0
    }

    proof fn lemma_erase_then_restore(typed: Self) {
    }

    proof fn lemma_restore_then_erase(value: DynamicValue) {
    }

    fn type_of() -> (t: ValueType) {
        ValueType::U64
    }

    fn erase(self) -> (value: DynamicValue) {
        DynamicValue::U64(self)
    }

    fn downcast(value: DynamicValue) -> (r: Result<Self, DynamicValue>) {
        match value {
            DynamicValue::U64(n) => Ok(n),
            other => Err(other),
        }
    }
}

impl Erasable for String {
    open spec fn static_type() -> ValueType {
        ValueType::Text
    }

    open spec fn erased(self) -> DynamicValue {
        DynamicValue::Text(self)
    }

    open spec fn restored(value: DynamicValue) -> Self {
        value->Text_0
    }

    proof fn lemma_erase_then_restore(typed: Self) {
    }

    proof fn lemma_restore_then_erase(value: DynamicValue) {
    }

    fn type_of() -> (t: ValueType) {
        ValueType::Text
    }

    fn erase(self) -> (value: DynamicValue) {
        DynamicValue::Text(self)
    }

    fn downcast(value: DynamicValue) -> (r: Result<Self, DynamicValue>) {
        match value {
            DynamicValue::Text(s) => Ok(s),
            other => Err(other),
        }
    }
}

} // verus!
