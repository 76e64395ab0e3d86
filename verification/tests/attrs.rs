//! Attribute handling: the transparent shortcut, the `other` catch-all,
//! directional renames, `rename_all` policies, and skipped fields.

use elm_rs::ir::ContainerAttributes;
use elm_rs::ir::EnumVariant;
use elm_rs::ir::EnumVariantKind;
use elm_rs::ir::FieldAttributes;
use elm_rs::ir::RenameAll;
use elm_rs::ir::StructField;
use elm_rs::ir::TypeInfo;
use elm_rs::ir::TypeRef;
use elm_rs::ir::VariantAttributes;
use elm_rs::decl::type_declaration;
use elm_rs::decode::decoder_definition;
use elm_rs::encode::encoder_definition;
use elm_rs::json::JsonValue;
use elm_rs::resolve::resolve;
use elm_rs::resolve::Resolved;
use elm_rs::resolve::ResolvedShape;
use elm_rs::wire::decode;
use elm_rs::wire::encode;
use elm_rs::wire::ShapeValue;
use elm_rs::wire::VariantPayload;

fn u8_ref() -> TypeRef {
    TypeRef::basic("Int", "Json.Decode.int", "Json.Encode.int", "Url.Builder.int")
}

fn field(name: &str, ty: TypeRef) -> StructField {
    StructField { ident: name.to_string(), ty, attributes: FieldAttributes::none() }
}

fn unit_variant(name: &str) -> EnumVariant {
    EnumVariant {
        ident: name.to_string(),
        kind: EnumVariantKind::Unit,
        attributes: VariantAttributes::none(),
    }
}

fn num(text: &str) -> JsonValue {
    JsonValue::Number(text.to_string())
}

fn roundtrip(r: &Resolved, v: ShapeValue) {
    let j = encode(&r.shape, true, &v);
    let back = decode(&r.shape, &j).expect("decode failed");
    assert_eq!(back, v);
}

#[test]
fn transparent_struct() {
    let mut ca = ContainerAttributes::none();
    ca.transparent = true;
    let r = resolve(
        "TransparentNamed",
        &TypeInfo::Struct(vec![field("field", u8_ref())]),
        &ca,
    )
        .unwrap();
    // generates exactly as a newtype of the field's type
    let newtype = resolve("TransparentNamed", &TypeInfo::Newtype(u8_ref()), &ca).unwrap();
    assert_eq!(type_declaration(&r), type_declaration(&newtype));
    assert_eq!(decoder_definition(&r), decoder_definition(&newtype));
    assert_eq!(encoder_definition(&r), encoder_definition(&newtype));
    roundtrip(&r, ShapeValue::Newtype(num("0")));
}

#[test]
fn transparent_newtype() {
    let mut ca = ContainerAttributes::none();
    ca.transparent = true;
    let r = resolve("TransparentNewtype", &TypeInfo::Newtype(u8_ref()), &ca).unwrap();
    assert_eq!(
        type_declaration(&r),
        "type TransparentNewtype\n    = TransparentNewtype (Int)\n"
    );
    roundtrip(&r, ShapeValue::Newtype(num("0")));
}

#[test]
fn other() {
    let mut b = unit_variant("B");
    b.attributes.other = true;
    let r = resolve(
        "Other",
        &TypeInfo::Enum(vec![unit_variant("A"), b]),
        &ContainerAttributes::none(),
    )
        .unwrap();
    // an unrecognized tag falls back to the variant marked `other`
    let val = decode(&r.shape, &JsonValue::Str("other".to_string())).expect("decode failed");
    assert_eq!(val, ShapeValue::Variant { index: 1, payload: VariantPayload::Unit });
    // recognized tags still reach their own variants
    let a = decode(&r.shape, &JsonValue::Str("A".to_string())).expect("decode failed");
    assert_eq!(a, ShapeValue::Variant { index: 0, payload: VariantPayload::Unit });
}

#[test]
fn rename_struct() {
    let mut ca = ContainerAttributes::none();
    ca.rename_all = Some(RenameAll::Uppercase);
    let mut renamed = field("renamed", u8_ref());
    renamed.attributes.rename = Some("another-field".to_string());
    let mut for_ser = field("rename_for_serialization", u8_ref());
    for_ser.attributes.rename_serialize = Some("se".to_string());
    let mut for_de = field("rename_for_deserialization", u8_ref());
    for_de.attributes.rename_deserialize = Some("de".to_string());
    let r = resolve(
        "RenameStruct",
        &TypeInfo::Struct(vec![field("uppercase", u8_ref()), renamed, for_ser, for_de]),
        &ca,
    )
        .unwrap();
    match &r.shape {
        ResolvedShape::Record(fields) => {
            assert_eq!(fields[0].name_encode, "UPPERCASE");
            assert_eq!(fields[0].name_decode, "UPPERCASE");
            assert_eq!(fields[1].name_encode, "another-field");
            assert_eq!(fields[1].name_decode, "another-field");
            // a directional rename wins over the container policy for its
            // own direction alone
            assert_eq!(fields[2].name_encode, "se");
            assert_eq!(fields[2].name_decode, "RENAME_FOR_SERIALIZATION");
            assert_eq!(fields[3].name_encode, "RENAME_FOR_DESERIALIZATION");
            assert_eq!(fields[3].name_decode, "de");
        },
        _ => panic!("not a record"),
    }
    roundtrip(
        &r,
        ShapeValue::Record(vec![num("0"), num("0"), num("0"), num("0")]),
    );
}

#[test]
fn rename_enum() {
    let mut ca = ContainerAttributes::none();
    ca.rename_all = Some(RenameAll::Uppercase);
    let mut renamed = unit_variant("Renamed");
    renamed.attributes.rename = Some("another-variant".to_string());
    let mut for_ser = unit_variant("RenameForSerialization");
    for_ser.attributes.rename_serialize = Some("se".to_string());
    let mut for_de = unit_variant("RenameForDeserialization");
    for_de.attributes.rename_deserialize = Some("de".to_string());
    let r = resolve(
        "RenameEnum",
        &TypeInfo::Enum(vec![unit_variant("Uppercase"), renamed, for_ser, for_de]),
        &ca,
    )
        .unwrap();
    for index in 0..4usize {
        roundtrip(&r, ShapeValue::Variant { index, payload: VariantPayload::Unit });
    }
}

#[test]
fn skip() {
    let mut skipped = field("skipped", u8_ref());
    skipped.attributes.skip = true;
    let r = resolve(
        "Skip",
        &TypeInfo::Struct(vec![skipped, field("not_skipped", u8_ref())]),
        &ContainerAttributes::none(),
    )
        .unwrap();
    match &r.shape {
        ResolvedShape::Record(fields) => {
            assert_eq!(fields.len(), 1);
            assert_eq!(fields[0].name_elm, "notSkipped");
            assert_eq!(fields[0].name_decode, "not_skipped");
        },
        _ => panic!("not a record"),
    }
    let decoder = decoder_definition(&r);
    assert!(decoder.contains("\"not_skipped\""));
    assert!(!decoder.contains("\"skipped\""));
    roundtrip(&r, ShapeValue::Record(vec![num("0")]));
}

#[test]
fn rename_all_from_names() {
    assert_eq!(RenameAll::from("lowercase"), Some(RenameAll::Lowercase));
    assert_eq!(RenameAll::from("UPPERCASE"), Some(RenameAll::Uppercase));
    assert_eq!(RenameAll::from("PascalCase"), Some(RenameAll::PascalCase));
    assert_eq!(RenameAll::from("camelCase"), Some(RenameAll::CamelCase));
    assert_eq!(RenameAll::from("snake_case"), Some(RenameAll::SnakeCase));
    assert_eq!(
        RenameAll::from("SCREAMING_SNAKE_CASE"),
        Some(RenameAll::ScreamingSnakeCase)
    );
    assert_eq!(RenameAll::from("kebab-case"), Some(RenameAll::KebabCase));
    assert_eq!(
        RenameAll::from("SCREAMING-KEBAB-CASE"),
        Some(RenameAll::ScreamingKebabCase)
    );
    assert_eq!(RenameAll::from("Title Case"), None);
    assert_eq!(RenameAll::from(""), None);
}

#[test]
fn rename_ident_policies() {
    assert_eq!(RenameAll::Lowercase.rename_ident("XMLHttpRequest"), "xmlhttprequest");
    assert_eq!(RenameAll::Uppercase.rename_ident("some_field"), "SOME_FIELD");
    assert_eq!(RenameAll::PascalCase.rename_ident("rename_for_serialization"), "RenameForSerialization");
    assert_eq!(RenameAll::CamelCase.rename_ident("not_skipped"), "notSkipped");
    assert_eq!(RenameAll::SnakeCase.rename_ident("XMLHttpRequest"), "xml_http_request");
    assert_eq!(RenameAll::ScreamingSnakeCase.rename_ident("someField"), "SOME_FIELD");
    assert_eq!(RenameAll::KebabCase.rename_ident("XMLHttpRequest"), "xml-http-request");
    assert_eq!(RenameAll::ScreamingKebabCase.rename_ident("someField"), "SOME-FIELD");
}
