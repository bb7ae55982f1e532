use indexed_valued_enums::examples::MyType;
use indexed_valued_enums::examples::NumberCustom;
use indexed_valued_enums::examples::NumberValue;
use indexed_valued_enums::examples::NumberValueConstr;
use indexed_valued_enums::examples::NumberValueDefaulted;
use indexed_valued_enums::indexed_enum::Indexed;
use indexed_valued_enums::valued_enum::Valued;

#[test]
fn test_valued() {
    assert_eq!(NumberValue::Zero.discriminant(), 0);
    assert_eq!(NumberValue::First.value(), 1);
    assert_eq!(NumberValue::First.value_opt().unwrap(), 1);
    assert_eq!(NumberValue::Second.clone(), NumberValue::Second);
    assert_eq!(NumberValue::Third, NumberValue::value_to_variant(&3));
    assert!(NumberValue::value_to_variant_opt(&4).is_none());
}

#[test]
fn test_defaulted() {
    assert_eq!(NumberValueDefaulted::Zero.discriminant(), 0);
    assert_eq!(NumberValueDefaulted::First.value(), 1);
    assert_eq!(NumberValueDefaulted::First.value_opt().unwrap(), 1);
    assert_eq!(NumberValueDefaulted::Second.clone(), NumberValueDefaulted::Second);
    assert_eq!(
        NumberValueDefaulted::Third,
        NumberValueDefaulted::value_to_variant(&3)
    );
    assert!(NumberValueDefaulted::value_to_variant_opt(&4).is_none());
}

#[test]
fn test_custom_type() {
    assert_eq!(NumberCustom::Zero.discriminant(), 0);
    assert_eq!(NumberCustom::First.value().num, 1);
    assert_eq!(NumberCustom::Ten.value().num, 10);
    assert_eq!(NumberCustom::Ten.value().name, "Ten");
    assert_eq!(
        NumberCustom::Second.clone().value().num,
        NumberCustom::Second.value().num
    );
    assert_eq!(
        NumberCustom::Third.value().num,
        NumberCustom::value_to_variant(&MyType {
            num: 3,
            name: "Third"
        })
        .value()
        .num
    );
    assert!(NumberCustom::value_to_variant_opt(&MyType {
        num: 4,
        name: "Fourth"
    })
    .is_none());
}

#[test]
fn test_custom_constr() {
    assert!(NumberValueConstr::value_to_variant_opt(&4).is_none());
}
