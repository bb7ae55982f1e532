use indexed_valued_enums::examples::NumberValue;
use indexed_valued_enums::nanoserde_compatibility::de_bin_variant;
use indexed_valued_enums::nanoserde_compatibility::de_json_discriminant;
use indexed_valued_enums::nanoserde_compatibility::de_json_variant;
use indexed_valued_enums::nanoserde_compatibility::parse_decimal;
use indexed_valued_enums::nanoserde_compatibility::ser_bin_variant;
use indexed_valued_enums::nanoserde_compatibility::ser_json_variant;
use indexed_valued_enums::nanoserde_compatibility::usize_to_decimal;
use indexed_valued_enums::serde_compatibility::deserialize_discriminant;
use indexed_valued_enums::serde_compatibility::serialize_discriminant;
use indexed_valued_enums::serde_compatibility::DecodeError;
use indexed_valued_enums::serde_compatibility::USizediscriminantVisitor;

#[test]
fn discriminant_only_wire_form() {
    assert_eq!(serialize_discriminant(&NumberValue::Second), 2);
    assert_eq!(
        deserialize_discriminant::<NumberValue>(2),
        Ok(NumberValue::Second)
    );
    assert_eq!(
        deserialize_discriminant::<NumberValue>(5),
        Err(DecodeError::UnknownDiscriminant { discriminant: 5 })
    );
    assert_eq!(
        deserialize_discriminant::<NumberValue>(u128::MAX),
        Err(DecodeError::ValueOutsideUsize)
    );
}

#[test]
fn binary_wire_form_is_eight_little_endian_bytes() {
    let mut bytes: Vec<u8> = Vec::new();
    ser_bin_variant(&NumberValue::Second, &mut bytes);
    assert_eq!(bytes, vec![2, 0, 0, 0, 0, 0, 0, 0]);
    ser_bin_variant(&NumberValue::Third, &mut bytes);
    assert_eq!(bytes.len(), 16);

    let mut offset = 0usize;
    assert_eq!(
        de_bin_variant::<NumberValue>(&mut offset, &bytes),
        Ok(NumberValue::Second)
    );
    assert_eq!(offset, 8);
    assert_eq!(
        de_bin_variant::<NumberValue>(&mut offset, &bytes),
        Ok(NumberValue::Third)
    );
    assert_eq!(offset, 16);
}

#[test]
fn binary_decoding_reports_bad_input() {
    let five = [5u8, 0, 0, 0, 0, 0, 0, 0];
    let mut offset = 0usize;
    assert_eq!(
        de_bin_variant::<NumberValue>(&mut offset, &five),
        Err(DecodeError::UnknownDiscriminant { discriminant: 5 })
    );

    let short = [1u8, 0, 0];
    let mut offset = 0usize;
    assert_eq!(
        de_bin_variant::<NumberValue>(&mut offset, &short),
        Err(DecodeError::TruncatedInput { offset: 0 })
    );
    assert_eq!(offset, 0);
}

#[test]
fn text_wire_form_is_a_decimal_number() {
    assert_eq!(ser_json_variant(&NumberValue::Second), "2");
    assert_eq!(de_json_variant::<NumberValue>("2"), Ok(NumberValue::Second));
    assert_eq!(
        de_json_variant::<NumberValue>("5"),
        Err(DecodeError::UnknownDiscriminant { discriminant: 5 })
    );
    assert_eq!(
        de_json_variant::<NumberValue>("2x"),
        Err(DecodeError::MalformedText)
    );
    assert_eq!(
        de_json_variant::<NumberValue>(""),
        Err(DecodeError::MalformedText)
    );
    assert_eq!(
        de_json_variant::<NumberValue>("999999999999999999999999999999999999999"),
        Err(DecodeError::ValueOutsideUsize)
    );
    assert_eq!(de_json_discriminant::<NumberValue>(1), Ok(NumberValue::First));
    assert_eq!(
        de_json_discriminant::<NumberValue>(9),
        Err(DecodeError::UnknownDiscriminant { discriminant: 9 })
    );
}

#[test]
fn decimal_text_exact_values() {
    assert_eq!(usize_to_decimal(0), "0");
    assert_eq!(usize_to_decimal(10), "10");
    assert_eq!(usize_to_decimal(907), "907");
    assert_eq!(parse_decimal("0"), Ok(0));
    assert_eq!(parse_decimal("907"), Ok(907));
    assert_eq!(parse_decimal("0907"), Ok(907));
    assert_eq!(parse_decimal("-3"), Err(DecodeError::MalformedText));
    let round = usize_to_decimal(usize::MAX);
    assert_eq!(parse_decimal(&round), Ok(usize::MAX));
}

#[test]
fn visitor_narrows_every_width() {
    assert_eq!(USizediscriminantVisitor.visit_u8(200), Ok(200));
    assert_eq!(USizediscriminantVisitor.visit_u16(2), Ok(2));
    assert_eq!(USizediscriminantVisitor.visit_u32(70000), Ok(70000));
    assert_eq!(USizediscriminantVisitor.visit_u64(3), Ok(3));
    assert_eq!(
        USizediscriminantVisitor.visit_u128(u128::MAX),
        Err(DecodeError::ValueOutsideUsize)
    );
    assert_eq!(USizediscriminantVisitor.visit_i8(3), Ok(3));
    assert_eq!(
        USizediscriminantVisitor.visit_i8(-1),
        Err(DecodeError::ValueOutsideUsize)
    );
    assert_eq!(
        USizediscriminantVisitor.visit_i16(-5),
        Err(DecodeError::ValueOutsideUsize)
    );
    assert_eq!(USizediscriminantVisitor.visit_i32(12), Ok(12));
    assert_eq!(USizediscriminantVisitor.visit_i64(12), Ok(12));
    assert_eq!(
        USizediscriminantVisitor.visit_i128(-12),
        Err(DecodeError::ValueOutsideUsize)
    );
    assert_eq!(
        USizediscriminantVisitor.expecting(),
        "an integer in usize's range"
    );
}
