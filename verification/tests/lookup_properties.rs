use indexed_valued_enums::examples::Number;
use indexed_valued_enums::examples::NumberValue;
use indexed_valued_enums::examples::NumberValueConstr;
use indexed_valued_enums::examples::TwinValue;
use indexed_valued_enums::indexed_enum::discriminant_internal;
use indexed_valued_enums::indexed_enum::from_discriminant_internal;
use indexed_valued_enums::indexed_enum::from_discriminant_opt_internal;
use indexed_valued_enums::indexed_enum::split_usize_to_isizes;
use indexed_valued_enums::indexed_enum::Indexed;
use indexed_valued_enums::utils::str_eq;
use indexed_valued_enums::utils::ExpectElseOption;
use indexed_valued_enums::utils::ExpectElseResult;
use indexed_valued_enums::valued_enum::clone_by_discriminant;
use indexed_valued_enums::valued_enum::value_internal;
use indexed_valued_enums::valued_enum::value_opt_internal;
use indexed_valued_enums::valued_enum::Valued;

#[test]
fn discriminant_round_trip_is_identity() {
    for i in 0..4usize {
        assert_eq!(NumberValue::from_discriminant(i).discriminant(), i);
        assert_eq!(Number::from_discriminant(i).discriminant(), i);
    }
}

#[test]
fn value_round_trip_finds_the_variant() {
    let all = [
        NumberValue::Zero,
        NumberValue::First,
        NumberValue::Second,
        NumberValue::Third,
    ];
    for v in all {
        assert_eq!(NumberValue::value_to_variant_opt(&v.value()), Some(v));
    }
}

#[test]
fn shared_payload_resolves_to_smaller_discriminant() {
    for _ in 0..3 {
        assert_eq!(TwinValue::value_to_variant(&7), TwinValue::First);
        assert_eq!(TwinValue::value_to_variant_opt(&7), Some(TwinValue::First));
    }
    assert_eq!(TwinValue::First.value(), 7);
    assert_eq!(TwinValue::Second.value(), 7);
}

#[test]
fn first_invalid_discriminant_is_absent() {
    assert!(NumberValue::from_discriminant_opt(4).is_none());
    assert!(NumberValue::from_discriminant_opt(3).is_some());
    assert!(Number::from_discriminant_opt(4).is_none());
    assert!(Number::from_discriminant_opt(3).is_some());
}

#[test]
fn internals_agree_with_trait_methods() {
    assert_eq!(discriminant_internal(&NumberValue::Second), 2);
    assert_eq!(
        from_discriminant_opt_internal::<NumberValue>(1),
        Some(NumberValue::First)
    );
    assert!(from_discriminant_opt_internal::<NumberValue>(9).is_none());
    assert_eq!(from_discriminant_internal::<NumberValue>(3), NumberValue::Third);
    assert_eq!(value_opt_internal(&NumberValue::Second), Some(2));
    assert_eq!(value_internal(&NumberValue::Second), 2);
}

#[test]
fn clone_by_discriminant_takes_the_table_entry() {
    assert_eq!(
        clone_by_discriminant(&NumberValue::Third),
        NumberValue::Third
    );
    // A field-carrying variant clones to its table entry, not to the
    // argument's field contents.
    assert_eq!(
        clone_by_discriminant(&NumberValueConstr::First(9, 9)),
        NumberValueConstr::First(0, 0)
    );
    assert_eq!(
        clone_by_discriminant(&NumberValueConstr::Third { c: 1, d: 1 }),
        NumberValueConstr::Third { c: 5, d: 7 }
    );
}

#[test]
fn field_variants_materialize_from_initializers_and_defaults() {
    assert_eq!(
        NumberValueConstr::from_discriminant(0),
        NumberValueConstr::Zero(2, 3)
    );
    assert_eq!(
        NumberValueConstr::from_discriminant(1),
        NumberValueConstr::First(0, 0)
    );
    assert_eq!(
        NumberValueConstr::from_discriminant(2),
        NumberValueConstr::Second { a: 0, b: 0 }
    );
    assert_eq!(
        NumberValueConstr::from_discriminant(3),
        NumberValueConstr::Third { c: 5, d: 7 }
    );
}

#[test]
fn split_usize_sums_back() {
    for n in [0usize, 1, 9000, isize::MAX as usize, isize::MAX as usize + 1, usize::MAX] {
        let (a, b, c) = split_usize_to_isizes(n);
        assert!(a >= 0 && b >= 0 && c >= 0);
        assert_eq!(a as u128 + b as u128 + c as u128, n as u128);
    }
}

#[test]
fn string_equality_compares_contents() {
    assert!(str_eq("First position", "First position"));
    assert!(!str_eq("First position", "Third position"));
    assert!(!str_eq("abc", "abcd"));
    assert!(str_eq("", ""));
}

#[test]
fn expect_else_hands_out_the_value() {
    let r: Result<u8, u8> = Ok(3);
    assert_eq!(r.expect_else(|_| "never built".to_string()), 3);
    let o: Option<u8> = Some(4);
    assert_eq!(o.expect_else(|| "never built".to_string()), 4);
}
