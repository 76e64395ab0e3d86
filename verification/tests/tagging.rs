//! Tagging fidelity on concrete values, the rejections resolution raises,
//! the JSON writer, the registry entries, and the small text helpers.

use elm_rs::ir::ContainerAttributes;
use elm_rs::ir::EnumRepresentation;
use elm_rs::ir::EnumVariant;
use elm_rs::ir::EnumVariantKind;
use elm_rs::ir::FieldAttributes;
use elm_rs::ir::GenError;
use elm_rs::ir::StructField;
use elm_rs::ir::TypeInfo;
use elm_rs::ir::TypeRef;
use elm_rs::ir::VariantAttributes;
use elm_rs::json::write_json;
use elm_rs::json::JsonValue;
use elm_rs::registry::Elm;
use elm_rs::registry::ElmDecode;
use elm_rs::registry::ElmEncode;
use elm_rs::registry::ElmJson;
use elm_rs::registry::ElmQueryField;
use elm_rs::resolve::resolve;
use elm_rs::text::decimal;
use elm_rs::text::join;
use elm_rs::wire::encode;
use elm_rs::wire::ShapeValue;
use elm_rs::wire::VariantPayload;

fn int_ref() -> TypeRef {
    TypeRef::basic("Int", "Json.Decode.int", "Json.Encode.int", "Url.Builder.int")
}

fn field(name: &str, ty: TypeRef) -> StructField {
    StructField { ident: name.to_string(), ty, attributes: FieldAttributes::none() }
}

fn variant(name: &str, kind: EnumVariantKind) -> EnumVariant {
    EnumVariant { ident: name.to_string(), kind, attributes: VariantAttributes::none() }
}

fn num(text: &str) -> JsonValue {
    JsonValue::Number(text.to_string())
}

#[test]
fn tagging_internal_unit() {
    let mut ca = ContainerAttributes::none();
    ca.enum_representation = EnumRepresentation::Internal { tag: "t".to_string() };
    let r = resolve("E", &TypeInfo::Enum(vec![variant("Unit1", EnumVariantKind::Unit)]), &ca)
        .unwrap();
    let j = encode(&r.shape, false, &ShapeValue::Variant {
        index: 0,
        payload: VariantPayload::Unit,
    });
    assert_eq!(write_json(&j), "{\"t\":\"Unit1\"}");
}

#[test]
fn tagging_adjacent_tuple() {
    let mut ca = ContainerAttributes::none();
    ca.enum_representation = EnumRepresentation::Adjacent {
        tag: "t".to_string(),
        content: "c".to_string(),
    };
    let r = resolve(
        "E",
        &TypeInfo::Enum(vec![variant(
            "Tuple1",
            EnumVariantKind::Tuple(vec![int_ref(), int_ref()]),
        )]),
        &ca,
    )
        .unwrap();
    let j = encode(&r.shape, false, &ShapeValue::Variant {
        index: 0,
        payload: VariantPayload::Tuple(vec![num("1"), num("2")]),
    });
    assert_eq!(write_json(&j), "{\"t\":\"Tuple1\",\"c\":[1,2]}");
}

#[test]
fn tagging_untagged_newtype() {
    let mut ca = ContainerAttributes::none();
    ca.enum_representation = EnumRepresentation::Untagged;
    let r = resolve(
        "E",
        &TypeInfo::Enum(vec![variant("N", EnumVariantKind::Newtype(int_ref()))]),
        &ca,
    )
        .unwrap();
    let j = encode(&r.shape, false, &ShapeValue::Variant {
        index: 0,
        payload: VariantPayload::Newtype(num("5")),
    });
    assert_eq!(write_json(&j), "5");
}

#[test]
fn tagging_external_struct() {
    let r = resolve(
        "E",
        &TypeInfo::Enum(vec![variant(
            "Named1",
            EnumVariantKind::Struct(vec![field("a", int_ref())]),
        )]),
        &ContainerAttributes::none(),
    )
        .unwrap();
    let j = encode(&r.shape, false, &ShapeValue::Variant {
        index: 0,
        payload: VariantPayload::Record(vec![num("1")]),
    });
    assert_eq!(write_json(&j), "{\"Named1\":{\"a\":1}}");
}

#[test]
fn rejects_internal_tuple() {
    let mut ca = ContainerAttributes::none();
    ca.enum_representation = EnumRepresentation::Internal { tag: "t".to_string() };
    let err = resolve(
        "E",
        &TypeInfo::Enum(vec![
            variant("Unit1", EnumVariantKind::Unit),
            variant("Tuple1", EnumVariantKind::Tuple(vec![int_ref(), int_ref()])),
        ]),
        &ca,
    )
        .unwrap_err();
    assert_eq!(err, GenError::InternalTuple);
    assert_eq!(
        err.describe(),
        "Internally tagged tuple variants are not supported by serde_json"
    );
}

#[test]
fn rejects_internal_newtype() {
    let mut ca = ContainerAttributes::none();
    ca.enum_representation = EnumRepresentation::Internal { tag: "t".to_string() };
    let err = resolve(
        "E",
        &TypeInfo::Enum(vec![variant("N", EnumVariantKind::Newtype(int_ref()))]),
        &ca,
    )
        .unwrap_err();
    assert_eq!(err, GenError::InternalNewtype);
}

#[test]
fn rejects_empty_enum() {
    let err = resolve("E", &TypeInfo::Enum(vec![]), &ContainerAttributes::none()).unwrap_err();
    assert_eq!(err, GenError::EmptyEnum);
    assert_eq!(err.describe(), "empty enums are not supported");
}

#[test]
fn skipped_internal_offender_passes() {
    let mut ca = ContainerAttributes::none();
    ca.enum_representation = EnumRepresentation::Internal { tag: "t".to_string() };
    let mut skipped = variant("N", EnumVariantKind::Newtype(int_ref()));
    skipped.attributes.skip = true;
    let r = resolve(
        "E",
        &TypeInfo::Enum(vec![variant("Unit1", EnumVariantKind::Unit), skipped]),
        &ca,
    );
    assert!(r.is_ok());
}

#[test]
fn writer_nested() {
    let v = JsonValue::Object(vec![
        ("a".to_string(), JsonValue::Array(vec![num("1"), JsonValue::Bool(true)])),
        ("b".to_string(), JsonValue::Null),
        ("c".to_string(), JsonValue::Str("text".to_string())),
    ]);
    let text = write_json(&v);
    assert_eq!(text, "{\"a\":[1,true],\"b\":null,\"c\":\"text\"}");
    // the output is JSON that a real parser accepts
    let parsed: serde_json::Value = serde_json::from_str(&text).unwrap();
    assert_eq!(parsed["c"], serde_json::Value::String("text".to_string()));
}

#[test]
fn registry_entries() {
    assert_eq!(<i32 as Elm>::elm_type(), "Int");
    assert_eq!(<i32 as ElmDecode>::decoder_type(), "Json.Decode.int");
    assert_eq!(<i32 as ElmEncode>::encoder_type(), "Json.Encode.int");
    assert_eq!(<i32 as ElmQueryField>::query_field_type(), "Url.Builder.int");
    assert_eq!(<i32 as ElmQueryField>::query_field_encoder_name(), "identity");
    assert_eq!(<String as ElmQueryField>::query_field_type(), "Url.Builder.string");
    assert_eq!(<Vec<i32> as Elm>::elm_type(), "List (Int)");
    assert_eq!(<Vec<i32> as ElmDecode>::decoder_type(), "Json.Decode.list (Json.Decode.int)");
    assert_eq!(
        <Option<String> as ElmJson>::decoder_type(),
        "Json.Decode.nullable (Json.Decode.string)"
    );
    assert_eq!(
        <Option<String> as ElmJson>::encoder_type(),
        "Maybe.withDefault Json.Encode.null <| Maybe.map (Json.Encode.string)"
    );
    assert_eq!(<bool as Elm>::elm_type(), "Bool");
    assert!(<u64 as Elm>::elm_definition().is_none());
}

#[test]
fn representation_from_attributes() {
    let adjacent = EnumRepresentation::from_attributes(
        Some("t".to_string()),
        Some("c".to_string()),
        false,
    );
    assert!(matches!(adjacent, EnumRepresentation::Adjacent { .. }));
    let internal = EnumRepresentation::from_attributes(Some("t".to_string()), None, false);
    assert!(matches!(internal, EnumRepresentation::Internal { .. }));
    let untagged = EnumRepresentation::from_attributes(None, None, true);
    assert!(matches!(untagged, EnumRepresentation::Untagged));
    let external = EnumRepresentation::from_attributes(None, None, false);
    assert!(matches!(external, EnumRepresentation::External));
    // a tag wins over `untagged`: the later attribute overrides
    let tagged = EnumRepresentation::from_attributes(Some("t".to_string()), None, true);
    assert!(matches!(tagged, EnumRepresentation::Internal { .. }));
}

#[test]
fn text_helpers() {
    assert_eq!(decimal(0), "0");
    assert_eq!(decimal(7), "7");
    assert_eq!(decimal(10), "10");
    assert_eq!(decimal(1234), "1234");
    let parts = vec!["a".to_string(), "b".to_string(), "c".to_string()];
    assert_eq!(join(&parts, ", "), "a, b, c");
    let one = vec!["x".to_string()];
    assert_eq!(join(&one, ", "), "x");
    let none: Vec<String> = vec![];
    assert_eq!(join(&none, ", "), "");
}
