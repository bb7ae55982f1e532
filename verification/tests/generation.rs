use indexed_valued_enums::codegen::derive_enum;
use indexed_valued_enums::codegen::derive_macro_describe;
use indexed_valued_enums::codegen::enum_valued_as;
use indexed_valued_enums::codegen::extract_token_stream_of_attribute;
use indexed_valued_enums::codegen::find_attribute;
use indexed_valued_enums::codegen::find_attribute_last_in_path;
use indexed_valued_enums::codegen::print_info;
use indexed_valued_enums::codegen::classify_features;
use indexed_valued_enums::codegen::feature_of;
use indexed_valued_enums::codegen::AttrDesc;
use indexed_valued_enums::codegen::Feature;
use indexed_valued_enums::codegen::DataDesc;
use indexed_valued_enums::codegen::DeriveDesc;
use indexed_valued_enums::codegen::FieldDesc;
use indexed_valued_enums::codegen::Features;
use indexed_valued_enums::codegen::GenError;
use indexed_valued_enums::codegen::InitList;
use indexed_valued_enums::codegen::TokenDesc;
use indexed_valued_enums::codegen::ValuedAsAttribute;
use indexed_valued_enums::codegen::VariantDesc;

fn ident(s: &str) -> TokenDesc {
    TokenDesc::Ident(s.to_string())
}

fn group(s: &str) -> TokenDesc {
    TokenDesc::Group(s.to_string())
}

fn attr(path: &[&str], args: Vec<TokenDesc>) -> AttrDesc {
    AttrDesc {
        path: path.iter().map(|s| s.to_string()).collect(),
        args,
    }
}

fn plain_variant(name: &str, value: &str) -> VariantDesc {
    VariantDesc {
        name: name.to_string(),
        attrs: vec![attr(&["value"], vec![group(value)])],
        fields: vec![],
    }
}

#[test]
fn number_description_resolves_in_declaration_order() {
    let enum_name = "Number".to_string();
    let attrs = vec![attr(&["enum_valued_as"], vec![ident("NumberDescription")])];
    let variants = vec![
        plain_variant("Zero", "NumberDescription { description: \"Zero position\", index: 0 }"),
        plain_variant("First", "NumberDescription { description: \"First position\", index: 1 }"),
        plain_variant("Second", "NumberDescription { description: \"Second position\", index: 2 }"),
        plain_variant("Third", "NumberDescription { description: \"Third position\", index: 3 }"),
    ];
    let plan = derive_enum(&enum_name, &attrs, &variants).unwrap();
    assert_eq!(plan.enum_name, "Number");
    assert_eq!(plan.payload_type, vec![ident("NumberDescription")]);
    assert!(plan.features.is_empty());
    assert_eq!(plan.variants.len(), 4);
    assert_eq!(plan.variants[0].name, "Zero");
    assert_eq!(plan.variants[3].name, "Third");
    assert_eq!(
        plan.variants[1].value,
        vec![group("NumberDescription { description: \"First position\", index: 1 }")]
    );
    assert!(plan.variants.iter().all(|v| v.initializer.is_none()));
    assert!(plan.variants.iter().all(|v| !v.named_fields));
}

#[test]
fn unvalued_variant_takes_the_default_and_valued_ones_ignore_it() {
    let enum_name = "MyEnum".to_string();
    let variants = vec![
        VariantDesc {
            name: "Variant1".to_string(),
            attrs: vec![attr(&["value"], vec![group("10")])],
            fields: vec![],
        },
        VariantDesc {
            name: "Variant2".to_string(),
            attrs: vec![],
            fields: vec![],
        },
    ];
    let attrs_a = vec![
        attr(&["enum_valued_as"], vec![ident("u8")]),
        attr(&["unvalued_default"], vec![group("50")]),
    ];
    let attrs_b = vec![
        attr(&["enum_valued_as"], vec![ident("u8")]),
        attr(&["unvalued_default"], vec![group("70")]),
    ];
    let plan_a = derive_enum(&enum_name, &attrs_a, &variants).unwrap();
    let plan_b = derive_enum(&enum_name, &attrs_b, &variants).unwrap();
    // The unvalued variant resolves to exactly the enum-level default.
    assert_eq!(plan_a.variants[1].value, vec![group("50")]);
    assert_eq!(plan_b.variants[1].value, vec![group("70")]);
    // Changing the default does not touch the explicitly valued variant.
    assert_eq!(plan_a.variants[0].value, vec![group("10")]);
    assert_eq!(plan_a.variants[0].value, plan_b.variants[0].value);
}

#[test]
fn field_variants_synthesize_defaults_in_field_order() {
    let enum_name = "MyEnum".to_string();
    let attrs = vec![attr(&["enum_valued_as"], vec![ident("u8")])];
    let variants = vec![
        VariantDesc {
            name: "Zero".to_string(),
            attrs: vec![
                attr(&["value"], vec![group("0")]),
                attr(&["variant_initialize_uses"], vec![group("2, 3")]),
            ],
            fields: vec![FieldDesc { name: None }, FieldDesc { name: None }],
        },
        VariantDesc {
            name: "Second".to_string(),
            attrs: vec![attr(&["value"], vec![group("2")])],
            fields: vec![
                FieldDesc {
                    name: Some("a".to_string()),
                },
                FieldDesc {
                    name: Some("b".to_string()),
                },
            ],
        },
    ];
    let plan = derive_enum(&enum_name, &attrs, &variants).unwrap();
    assert_eq!(
        plan.variants[0].initializer,
        Some(InitList::Given(vec![group("2, 3")]))
    );
    assert!(!plan.variants[0].named_fields);
    // No written initializer list: one universal default per field, in
    // declared field order.
    assert_eq!(
        plan.variants[1].initializer,
        Some(InitList::Defaults(vec![
            FieldDesc {
                name: Some("a".to_string())
            },
            FieldDesc {
                name: Some("b".to_string())
            },
        ]))
    );
    assert!(plan.variants[1].named_fields);
}

#[test]
fn each_failure_is_reported_descriptively() {
    let enum_name = "Broken".to_string();
    let variants = vec![plain_variant("Only", "1")];

    let none: Vec<AttrDesc> = vec![];
    assert_eq!(
        derive_enum(&enum_name, &none, &variants),
        Err(GenError::MissingPayloadType {
            enum_name: "Broken".to_string()
        })
    );

    let two = vec![
        attr(&["enum_valued_as"], vec![ident("u8")]),
        attr(&["enum_valued_as"], vec![ident("u16")]),
    ];
    assert_eq!(
        derive_enum(&enum_name, &two, &variants),
        Err(GenError::MultiplePayloadTypes {
            enum_name: "Broken".to_string()
        })
    );

    let empty = vec![attr(&["enum_valued_as"], vec![])];
    assert_eq!(
        derive_enum(&enum_name, &empty, &variants),
        Err(GenError::MalformedPayloadType)
    );

    let bad_features = vec![
        attr(&["enum_valued_as"], vec![ident("u8")]),
        attr(
            &["enum_valued_features"],
            vec![TokenDesc::Literal("3".to_string())],
        ),
    ];
    assert_eq!(
        derive_enum(&enum_name, &bad_features, &variants),
        Err(GenError::NotAFeature)
    );

    let fine = vec![attr(&["enum_valued_as"], vec![ident("u8")])];
    let unvalued = vec![
        plain_variant("Valued", "1"),
        VariantDesc {
            name: "Unvalued".to_string(),
            attrs: vec![],
            fields: vec![],
        },
    ];
    assert_eq!(
        derive_enum(&enum_name, &fine, &unvalued),
        Err(GenError::MissingValue {
            variant_name: "Unvalued".to_string()
        })
    );
}

#[test]
fn error_messages_name_the_offender() {
    let e = GenError::MissingValue {
        variant_name: "Zero".to_string(),
    };
    assert_eq!(e.message(), "could not find a value for variant Zero");
    let e = GenError::MissingPayloadType {
        enum_name: "Number".to_string(),
    };
    assert_eq!(
        e.message(),
        "could not find the payload type declaration of enum Number"
    );
    assert_eq!(
        GenError::NotAnEnum.message(),
        "the valued-enum rules target enums, not structs or unions"
    );
}

#[test]
fn structs_and_unions_are_rejected() {
    let input = DeriveDesc {
        name: "S".to_string(),
        attrs: vec![attr(&["enum_valued_as"], vec![ident("u8")])],
        data: DataDesc::Struct,
    };
    assert_eq!(derive_macro_describe(&input), Err(GenError::NotAnEnum));
    let input = DeriveDesc {
        name: "U".to_string(),
        attrs: vec![],
        data: DataDesc::Union,
    };
    assert_eq!(derive_macro_describe(&input), Err(GenError::NotAnEnum));
    let input = DeriveDesc {
        name: "E".to_string(),
        attrs: vec![attr(&["enum_valued_as"], vec![ident("u8")])],
        data: DataDesc::Enum(vec![plain_variant("Only", "1")]),
    };
    assert!(derive_macro_describe(&input).is_ok());
}

#[test]
fn attribute_search_takes_the_first_match() {
    let attrs = vec![
        attr(&["doc"], vec![]),
        attr(&["value"], vec![group("1")]),
        attr(&["value"], vec![group("2")]),
        attr(&["my_crate", "enum_valued_as"], vec![ident("u8")]),
    ];
    assert_eq!(find_attribute(&attrs, "value"), Some(1));
    assert_eq!(find_attribute(&attrs, "missing"), None);
    // A full path matches through its last segment only.
    assert_eq!(find_attribute(&attrs, "enum_valued_as"), None);
    assert_eq!(find_attribute_last_in_path(&attrs, "enum_valued_as"), Some(3));
    assert_eq!(find_attribute_last_in_path(&attrs, "doc"), Some(0));
    assert_eq!(
        extract_token_stream_of_attribute(&attrs[1]),
        &vec![group("1")]
    );
}

#[test]
fn feature_lists_keep_identifiers_and_skip_punctuation() {
    let tokens = vec![
        ident("Clone"),
        TokenDesc::Punct(','),
        ident("Delegators"),
        TokenDesc::Punct(','),
        ident("DerefToValue"),
    ];
    let features = Features::parse(&tokens).unwrap();
    assert_eq!(
        features.idents,
        vec![
            "Clone".to_string(),
            "Delegators".to_string(),
            "DerefToValue".to_string()
        ]
    );
    assert_eq!(
        Features::parse(&vec![group("x")]),
        Err(GenError::NotAFeature)
    );
}

#[test]
fn payload_type_parse_requires_content() {
    let parsed = ValuedAsAttribute::parse(&vec![ident("u8")]).unwrap();
    assert_eq!(parsed.type_of_value, vec![ident("u8")]);
    assert_eq!(
        ValuedAsAttribute::parse(&vec![]),
        Err(GenError::MalformedPayloadType)
    );
}

#[test]
fn enum_valued_as_prepends_the_layout_attribute() {
    let item = vec![ident("enum"), ident("Number"), group("Zero, First")];
    let out = enum_valued_as(item);
    assert_eq!(out[0], TokenDesc::Punct('#'));
    assert_eq!(out[1], group("repr(usize)"));
    assert_eq!(out[2], ident("enum"));
    assert_eq!(out.len(), 5);
    print_info("output", "prepared");
    indexed_valued_enums::utils::print_info("output", "prepared");
}

#[test]
fn feature_names_map_into_the_catalogue() {
    assert_eq!(feature_of("Clone"), Some(Feature::CloneByDiscriminant));
    assert_eq!(feature_of("Delegators"), Some(Feature::Delegators));
    assert_eq!(feature_of("ValueToVariantDelegators"), Some(Feature::ValueToVariantDelegators));
    assert_eq!(feature_of("DerefToValue"), Some(Feature::DerefToValue));
    assert_eq!(feature_of("Serialize"), Some(Feature::Serialize));
    assert_eq!(feature_of("Deserialize"), Some(Feature::Deserialize));
    assert_eq!(feature_of("NanoSerBin"), Some(Feature::NanoSerBin));
    assert_eq!(feature_of("NanoDeBin"), Some(Feature::NanoDeBin));
    assert_eq!(feature_of("NanoSerJson"), Some(Feature::NanoSerJson));
    assert_eq!(feature_of("NanoDeJson"), Some(Feature::NanoDeJson));
    assert_eq!(feature_of("Sparkles"), None);
    let names = vec![
        "Clone".to_string(),
        "DerefToValue".to_string(),
        "Sparkles".to_string(),
    ];
    assert_eq!(
        classify_features(&names),
        vec![
            Some(Feature::CloneByDiscriminant),
            Some(Feature::DerefToValue),
            None
        ]
    );
}
