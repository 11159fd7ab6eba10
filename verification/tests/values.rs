use supply_demand::{
    conclude, erase_outcome, recover_input, DemandError, DynamicValue, Erasable, SupplyError,
    ValueType,
};

#[test]
fn value_type_of_each_variant() {
    assert_eq!(DynamicValue::Unit.value_type(), ValueType::Unit);
    assert_eq!(DynamicValue::Bool(true).value_type(), ValueType::Bool);
    assert_eq!(DynamicValue::I32(-1).value_type(), ValueType::I32);
    assert_eq!(DynamicValue::I64(-1).value_type(), ValueType::I64);
    assert_eq!(DynamicValue::U64(1).value_type(), ValueType::U64);
    assert_eq!(DynamicValue::Text(String::new()).value_type(), ValueType::Text);
}

#[test]
fn static_type_of_each_erasable_type() {
    assert_eq!(<() as Erasable>::type_of(), ValueType::Unit);
    assert_eq!(<bool as Erasable>::type_of(), ValueType::Bool);
    assert_eq!(<i32 as Erasable>::type_of(), ValueType::I32);
    assert_eq!(<i64 as Erasable>::type_of(), ValueType::I64);
    assert_eq!(<u64 as Erasable>::type_of(), ValueType::U64);
    assert_eq!(<String as Erasable>::type_of(), ValueType::Text);
}

#[test]
fn erase_keeps_the_value() {
    assert_eq!(().erase(), DynamicValue::Unit);
    assert_eq!(true.erase(), DynamicValue::Bool(true));
    assert_eq!(10i32.erase(), DynamicValue::I32(10));
    assert_eq!(i64::MIN.erase(), DynamicValue::I64(i64::MIN));
    assert_eq!(u64::MAX.erase(), DynamicValue::U64(u64::MAX));
    assert_eq!("abc".to_string().erase(), DynamicValue::Text("abc".to_string()));
}

#[test]
fn downcast_undoes_erase() {
    assert_eq!(<()>::downcast(().erase()), Ok(()));
    assert_eq!(bool::downcast(false.erase()), Ok(false));
    assert_eq!(i32::downcast(i32::MIN.erase()), Ok(i32::MIN));
    assert_eq!(i64::downcast(123i64.erase()), Ok(123));
    assert_eq!(u64::downcast(0u64.erase()), Ok(0));
    assert_eq!(String::downcast("x y".to_string().erase()), Ok("x y".to_string()));
}

#[test]
fn downcast_to_another_type_hands_the_value_back() {
    assert_eq!(i32::downcast(DynamicValue::I64(5)), Err(DynamicValue::I64(5)));
    assert_eq!(i64::downcast(DynamicValue::I32(5)), Err(DynamicValue::I32(5)));
    assert_eq!(u64::downcast(DynamicValue::I64(5)), Err(DynamicValue::I64(5)));
    assert_eq!(bool::downcast(DynamicValue::Unit), Err(DynamicValue::Unit));
    assert_eq!(<()>::downcast(DynamicValue::Bool(true)), Err(DynamicValue::Bool(true)));
    assert_eq!(
        String::downcast(DynamicValue::U64(1)),
        Err(DynamicValue::U64(1))
    );
    assert_eq!(
        i32::downcast(DynamicValue::Text("1".to_string())),
        Err(DynamicValue::Text("1".to_string()))
    );
}

#[test]
fn recover_input_of_the_right_type() {
    assert_eq!(recover_input::<i32>(DynamicValue::I32(7)), Ok(7));
    assert_eq!(recover_input::<()>(DynamicValue::Unit), Ok(()));
    assert_eq!(
        recover_input::<String>(DynamicValue::Text("in".to_string())),
        Ok("in".to_string())
    );
}

#[test]
fn recover_input_reports_expected_and_actual() {
    assert_eq!(
        recover_input::<i32>(DynamicValue::Unit),
        Err(SupplyError::InputTypeMismatch { expected: ValueType::I32, actual: ValueType::Unit })
    );
    assert_eq!(
        recover_input::<()>(DynamicValue::Text("x".to_string())),
        Err(SupplyError::InputTypeMismatch { expected: ValueType::Unit, actual: ValueType::Text })
    );
}

#[test]
fn erase_outcome_erases_an_output() {
    assert_eq!(erase_outcome::<i32>(Ok(128)), Ok(DynamicValue::I32(128)));
    assert_eq!(erase_outcome::<bool>(Ok(true)), Ok(DynamicValue::Bool(true)));
}

#[test]
fn erase_outcome_wraps_a_failed_demand() {
    let failure = DemandError::SupplierNotFound { key: "k".to_string() };
    assert_eq!(erase_outcome::<i32>(Err(failure.clone())), Err(SupplyError::Demand(failure)));
}

#[test]
fn conclude_returns_the_typed_output() {
    assert_eq!(conclude::<i32>("k".to_string(), Ok(DynamicValue::I32(10))), Ok(10));
    assert_eq!(conclude::<()>("k".to_string(), Ok(DynamicValue::Unit)), Ok(()));
    assert_eq!(
        conclude::<String>("k".to_string(), Ok(DynamicValue::Text("out".to_string()))),
        Ok("out".to_string())
    );
}

#[test]
fn conclude_reports_an_output_of_another_type() {
    assert_eq!(
        conclude::<i32>("k".to_string(), Ok(DynamicValue::I64(10))),
        Err(DemandError::OutputTypeMismatch {
            key: "k".to_string(),
            expected: ValueType::I32,
            actual: ValueType::I64,
        })
    );
}

#[test]
fn conclude_puts_the_key_on_an_input_mismatch() {
    let outcome =
        Err(SupplyError::InputTypeMismatch { expected: ValueType::Bool, actual: ValueType::U64 });
    assert_eq!(
        conclude::<i32>("wanted".to_string(), outcome),
        Err(DemandError::InputTypeMismatch {
            key: "wanted".to_string(),
            expected: ValueType::Bool,
            actual: ValueType::U64,
        })
    );
}

#[test]
fn conclude_hands_a_nested_failure_on_unchanged() {
    let nested = DemandError::OutputTypeMismatch {
        key: "inner".to_string(),
        expected: ValueType::Text,
        actual: ValueType::Unit,
    };
    assert_eq!(
        conclude::<i32>("outer".to_string(), Err(SupplyError::Demand(nested.clone()))),
        Err(nested)
    );
}

#[test]
fn error_names_its_key() {
    let not_found = DemandError::SupplierNotFound { key: "a".to_string() };
    let input = DemandError::InputTypeMismatch {
        key: "b".to_string(),
        expected: ValueType::Unit,
        actual: ValueType::Bool,
    };
    let output = DemandError::OutputTypeMismatch {
        key: "c".to_string(),
        expected: ValueType::Unit,
        actual: ValueType::Bool,
    };
    assert_eq!(not_found.key(), "a");
    assert_eq!(input.key(), "b");
    assert_eq!(output.key(), "c");
}

#[test]
fn error_messages() {
    let not_found = DemandError::SupplierNotFound { key: "a".to_string() };
    let input = DemandError::InputTypeMismatch {
        key: "b".to_string(),
        expected: ValueType::Unit,
        actual: ValueType::Bool,
    };
    let output = DemandError::OutputTypeMismatch {
        key: "c".to_string(),
        expected: ValueType::Unit,
        actual: ValueType::Bool,
    };
    assert_eq!(not_found.message(), "Supplier not found");
    assert_eq!(input.message(), "Input type mismatch");
    assert_eq!(output.message(), "Output type mismatch");
}
