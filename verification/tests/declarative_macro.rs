use indexed_valued_enums::examples::Number;
use indexed_valued_enums::examples::NumberDescription;
use indexed_valued_enums::indexed_enum::Indexed;
use indexed_valued_enums::valued_enum::Valued;

#[test]
fn test() {
    assert_eq!(Number::Zero.discriminant(), 0);
    assert_eq!(Number::First.value().description, "First position");
    assert_eq!(Number::First.value().index, 1);
    assert_eq!(Number::Second.clone(), Number::Second);
    assert_eq!(
        Number::Third,
        Number::value_to_variant(&NumberDescription {
            description: "Third position",
            index: 3
        })
    );
    assert!(Number::value_to_variant_opt(&NumberDescription {
        description: "Fourth position",
        index: 4
    })
    .is_none());
}
