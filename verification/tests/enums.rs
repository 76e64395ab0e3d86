//! Sum types under the four tagging conventions: generated text and the
//! wire round trip.

use elm_rs::ir::ContainerAttributes;
use elm_rs::ir::EnumRepresentation;
use elm_rs::ir::EnumVariant;
use elm_rs::ir::EnumVariantKind;
use elm_rs::ir::FieldAttributes;
use elm_rs::ir::StructField;
use elm_rs::ir::TypeInfo;
use elm_rs::ir::TypeRef;
use elm_rs::ir::VariantAttributes;
use elm_rs::decode::decoder_definition;
use elm_rs::encode::encoder_definition;
use elm_rs::json::json_dup;
use elm_rs::json::JsonValue;
use elm_rs::resolve::resolve;
use elm_rs::resolve::Resolved;
use elm_rs::wire::decode;
use elm_rs::wire::encode;
use elm_rs::wire::ShapeValue;
use elm_rs::wire::VariantPayload;

fn int_ref() -> TypeRef {
    TypeRef::basic("Int", "Json.Decode.int", "Json.Encode.int", "Url.Builder.int")
}

fn field(name: &str, ty: TypeRef) -> StructField {
    StructField { ident: name.to_string(), ty, attributes: FieldAttributes::none() }
}

fn variant(name: &str, kind: EnumVariantKind) -> EnumVariant {
    EnumVariant { ident: name.to_string(), kind, attributes: VariantAttributes::none() }
}

fn num(text: &str) -> JsonValue {
    JsonValue::Number(text.to_string())
}

/// The eight-variant test enum, one pair of variants per payload kind.
fn eight_variants(suffix_a: &str, suffix_b: &str) -> TypeInfo {
    TypeInfo::Enum(vec![
        variant(&format!("Unit{suffix_a}"), EnumVariantKind::Unit),
        variant(&format!("Unit{suffix_b}"), EnumVariantKind::Unit),
        variant(&format!("Newtype{suffix_a}"), EnumVariantKind::Newtype(int_ref())),
        variant(&format!("Newtype{suffix_b}"), EnumVariantKind::Newtype(int_ref())),
        variant(
            &format!("Tuple{suffix_a}"),
            EnumVariantKind::Tuple(vec![int_ref(), int_ref()]),
        ),
        variant(
            &format!("Tuple{suffix_b}"),
            EnumVariantKind::Tuple(vec![int_ref(), int_ref()]),
        ),
        variant(
            &format!("Named{suffix_a}"),
            EnumVariantKind::Struct(vec![field("field", int_ref())]),
        ),
        variant(
            &format!("Named{suffix_b}"),
            EnumVariantKind::Struct(vec![field("field", int_ref())]),
        ),
    ])
}

fn roundtrip(r: &Resolved, v: ShapeValue) {
    let j = encode(&r.shape, true, &v);
    let back = decode(&r.shape, &j).expect("decode failed");
    assert_eq!(back, v);
}

fn adjacent_enum() -> Resolved {
    let mut ca = ContainerAttributes::none();
    ca.enum_representation = EnumRepresentation::Adjacent {
        tag: "t".to_string(),
        content: "c".to_string(),
    };
    resolve("Enum", &eight_variants("1", "2"), &ca).unwrap()
}

#[test]
fn enums_adjacent_unit() {
    roundtrip(&adjacent_enum(), ShapeValue::Variant { index: 0, payload: VariantPayload::Unit });
}

#[test]
fn enums_adjacent_newtype() {
    roundtrip(
        &adjacent_enum(),
        ShapeValue::Variant { index: 2, payload: VariantPayload::Newtype(num("123")) },
    );
}

#[test]
fn enums_adjacent_tuple() {
    roundtrip(
        &adjacent_enum(),
        ShapeValue::Variant {
            index: 4,
            payload: VariantPayload::Tuple(vec![num("123"), num("234")]),
        },
    );
}

#[test]
fn enums_adjacent_named() {
    roundtrip(
        &adjacent_enum(),
        ShapeValue::Variant { index: 6, payload: VariantPayload::Record(vec![num("123")]) },
    );
}

fn internal_enum() -> Resolved {
    let mut ca = ContainerAttributes::none();
    ca.enum_representation = EnumRepresentation::Internal { tag: "t".to_string() };
    resolve(
        "Enum",
        &TypeInfo::Enum(vec![
            variant("Unit1", EnumVariantKind::Unit),
            variant("Unit2", EnumVariantKind::Unit),
            variant("Named1", EnumVariantKind::Struct(vec![field("field", int_ref())])),
            variant("Named2", EnumVariantKind::Struct(vec![field("field", int_ref())])),
        ]),
        &ca,
    )
        .unwrap()
}

#[test]
fn enums_internal_unit() {
    roundtrip(&internal_enum(), ShapeValue::Variant { index: 0, payload: VariantPayload::Unit });
}

#[test]
fn enums_internal_named() {
    roundtrip(
        &internal_enum(),
        ShapeValue::Variant { index: 2, payload: VariantPayload::Record(vec![num("123")]) },
    );
}

fn untagged_enum() -> Resolved {
    let mut ca = ContainerAttributes::none();
    ca.enum_representation = EnumRepresentation::Untagged;
    resolve(
        "Enum",
        &TypeInfo::Enum(vec![
            variant("Unit", EnumVariantKind::Unit),
            variant("Newtype", EnumVariantKind::Newtype(int_ref())),
            variant("Tuple", EnumVariantKind::Tuple(vec![int_ref(), int_ref()])),
            variant("Named", EnumVariantKind::Struct(vec![field("field", int_ref())])),
        ]),
        &ca,
    )
        .unwrap()
}

#[test]
fn enums_untagged_unit() {
    let r = untagged_enum();
    let decoder = decoder_definition(&r);
    assert!(decoder.contains("    Json.Decode.null Unit"));
    let encoder = encoder_definition(&r);
    assert!(encoder.contains("Unit ->\n            Json.Encode.null"));
    roundtrip(&r, ShapeValue::Variant { index: 0, payload: VariantPayload::Unit });
}

#[test]
fn enums_untagged_newtype() {
    let r = untagged_enum();
    let decoder = decoder_definition(&r);
    assert!(decoder.contains("    Json.Decode.map Newtype (Json.Decode.int)"));
    let encoder = encoder_definition(&r);
    assert!(encoder.contains("Newtype inner ->\n            Json.Encode.int inner"));
    roundtrip(
        &r,
        ShapeValue::Variant { index: 1, payload: VariantPayload::Newtype(num("123")) },
    );
}

#[test]
fn enums_untagged_tuple() {
    // positional payloads are told apart only by their element decoders,
    // which live in the primitive registry, so the generated text is what
    // this crate can check
    let r = untagged_enum();
    let decoder = decoder_definition(&r);
    assert!(decoder.contains(
        "    Json.Decode.succeed Tuple |> Json.Decode.andThen (\\x -> Json.Decode.index 0 (Json.Decode.int) |> Json.Decode.map x) |> Json.Decode.andThen (\\x -> Json.Decode.index 1 (Json.Decode.int) |> Json.Decode.map x)"
    ));
    let encoder = encoder_definition(&r);
    assert!(encoder.contains("Tuple t0 t1 -> \n            Json.Encode.list identity"));
    assert!(encoder.contains("[ (Json.Encode.int) t0\n            , (Json.Encode.int) t1\n            ]"));
}

#[test]
fn enums_untagged_named() {
    let r = untagged_enum();
    let decoder = decoder_definition(&r);
    assert!(decoder.contains("elmRsConstructNamed field =\n                        Named { field = field }"));
    assert!(decoder.contains(
        "    Json.Decode.succeed elmRsConstructNamed |> Json.Decode.andThen (\\x -> Json.Decode.map x (Json.Decode.field \"field\" (Json.Decode.int)))"
    ));
    let encoder = encoder_definition(&r);
    assert!(encoder.contains(
        "Named { field } ->\n            Json.Encode.object [ ( \"field\", Json.Encode.int field ) ]"
    ));
}

#[test]
fn regression_2() {
    let mut ca = ContainerAttributes::none();
    ca.enum_representation = EnumRepresentation::Internal { tag: "type".to_string() };
    let r = resolve(
        "Msg",
        &TypeInfo::Enum(vec![
            variant("Unit1", EnumVariantKind::Unit),
            variant("Unit2", EnumVariantKind::Unit),
            variant("Fields1", EnumVariantKind::Struct(vec![field("field", int_ref())])),
            variant("Fields2", EnumVariantKind::Struct(vec![field("field", int_ref())])),
        ]),
        &ca,
    )
        .unwrap();
    let decoder = decoder_definition(&r);
    assert!(decoder.contains("Json.Decode.field \"type\" Json.Decode.string"));
    roundtrip(&r, ShapeValue::Variant { index: 0, payload: VariantPayload::Unit });
}

#[test]
fn regression_4() {
    let option_ref = TypeRef::basic(
        "Maybe (Int)",
        "Json.Decode.nullable (Json.Decode.int)",
        "Maybe.withDefault Json.Encode.null <| Maybe.map (Json.Encode.int)",
        "Url.Builder.string",
    );
    let r = resolve(
        "E",
        &TypeInfo::Enum(vec![variant(
            "V",
            EnumVariantKind::Struct(vec![field("a", option_ref)]),
        )]),
        &ContainerAttributes::none(),
    )
        .unwrap();
    // Some(1234) serializes as the bare number
    roundtrip(
        &r,
        ShapeValue::Variant { index: 0, payload: VariantPayload::Record(vec![num("1234")]) },
    );
}

#[test]
fn complex() {
    let enum1 = resolve("Enum1", &eight_variants("11", "12"), &ContainerAttributes::none())
        .unwrap();
    let enum2 = resolve("Enum2", &eight_variants("21", "22"), &ContainerAttributes::none())
        .unwrap();

    let list = JsonValue::Array(vec![num("1"), num("2"), num("3"), num("4")]);
    let inner_values = vec![
        ShapeValue::Variant { index: 0, payload: VariantPayload::Unit },
        ShapeValue::Variant { index: 2, payload: VariantPayload::Newtype(json_dup(&list)) },
        ShapeValue::Variant {
            index: 4,
            payload: VariantPayload::Tuple(vec![json_dup(&list), json_dup(&list)]),
        },
        ShapeValue::Variant { index: 6, payload: VariantPayload::Record(vec![json_dup(&list)]) },
    ];

    // each Enum1 value becomes a leaf of the outer record; each Enum2 value
    // wraps an Enum1 leaf in its Named21 variant
    let mut leaves: Vec<JsonValue> = Vec::new();
    for v in &inner_values {
        leaves.push(encode(&enum1.shape, true, v));
    }
    for v in &inner_values {
        let e1_leaf = encode(&enum1.shape, true, v);
        let e2_value = ShapeValue::Variant {
            index: 6,
            payload: VariantPayload::Record(vec![e1_leaf]),
        };
        leaves.push(encode(&enum2.shape, true, &e2_value));
    }

    let enum1_ref = TypeRef::basic("Enum1", "enum1Decoder", "enum1Encoder", "Url.Builder.string");
    let enum2_ref = TypeRef::basic("Enum2", "enum2Decoder", "enum2Encoder", "Url.Builder.string");
    let outer = resolve(
        "Struct",
        &TypeInfo::Struct(vec![
            field("unit", enum1_ref.clone()),
            field("newtype", enum1_ref.clone()),
            field("tuple", enum1_ref.clone()),
            field("named", enum1_ref),
            field("named_unit", enum2_ref.clone()),
            field("named_newtype", enum2_ref.clone()),
            field("named_tuple", enum2_ref.clone()),
            field("named_named", enum2_ref),
        ]),
        &ContainerAttributes::none(),
    )
        .unwrap();

    let leaf_copies: Vec<JsonValue> = leaves.iter().map(json_dup).collect();
    let value = ShapeValue::Record(leaf_copies);
    let j = encode(&outer.shape, true, &value);
    let back = decode(&outer.shape, &j).expect("outer decode failed");
    assert_eq!(back, value);

    // the leaves read back are the inner encodings, and each decodes to the
    // inner value it came from
    match back {
        ShapeValue::Record(vals) => {
            for (k, v) in inner_values.iter().enumerate() {
                let inner_back = decode(&enum1.shape, &vals[k]).expect("inner decode failed");
                assert_eq!(&inner_back, v);
            }
        },
        _ => panic!("not a record"),
    }
}
