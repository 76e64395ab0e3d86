//! The query-string generator: records, sums of struct variants, the
//! query-field encoder of a unit-variant sum, and every rejection.

use elm_rs::ir::ContainerAttributes;
use elm_rs::ir::EnumVariant;
use elm_rs::ir::EnumVariantKind;
use elm_rs::ir::FieldAttributes;
use elm_rs::ir::GenError;
use elm_rs::ir::StructField;
use elm_rs::ir::TypeInfo;
use elm_rs::ir::TypeRef;
use elm_rs::ir::VariantAttributes;
use elm_rs::query::query_encoder;
use elm_rs::query::query_field_encoder;
use elm_rs::query::query_field_encoder_name;
use elm_rs::resolve::resolve;

fn int_ref() -> TypeRef {
    TypeRef::basic("Int", "Json.Decode.int", "Json.Encode.int", "Url.Builder.int")
}

fn string_ref() -> TypeRef {
    TypeRef::basic("String", "Json.Decode.string", "Json.Encode.string", "Url.Builder.string")
}

fn field(name: &str, ty: TypeRef) -> StructField {
    StructField { ident: name.to_string(), ty, attributes: FieldAttributes::none() }
}

fn unit_variant(name: &str) -> EnumVariant {
    EnumVariant {
        ident: name.to_string(),
        kind: EnumVariantKind::Unit,
        attributes: VariantAttributes::none(),
    }
}

fn query_enum_ref() -> TypeRef {
    TypeRef {
        elm_type: "Enum".to_string(),
        decoder: "enumDecoder".to_string(),
        encoder: "enumEncoder".to_string(),
        query_field_type: "Url.Builder.string".to_string(),
        query_field_encoder: "queryFieldEncoderEnum".to_string(),
    }
}

#[test]
fn query_struct() {
    let r = resolve(
        "Named",
        &TypeInfo::Struct(vec![
            field("first", int_ref()),
            field("second", string_ref()),
            field("e", query_enum_ref()),
        ]),
        &ContainerAttributes::none(),
    )
        .unwrap();
    let q = query_encoder(&r).unwrap();
    assert!(q.starts_with("urlEncodeNamed : Named -> List Url.Builder.QueryParameter\nurlEncodeNamed struct =\n    [ "));
    assert!(q.contains("Url.Builder.int \"first\" (identity struct.first)"));
    assert!(q.contains("Url.Builder.string \"second\" (identity struct.second)"));
    assert!(q.contains("Url.Builder.string \"e\" (queryFieldEncoderEnum struct.e)"));
    assert!(q.ends_with(" ]\n"));
}

#[test]
fn query_enum() {
    let contains_enum = resolve(
        "ContainsEnum",
        &TypeInfo::Struct(vec![field("e", query_enum_ref())]),
        &ContainerAttributes::none(),
    )
        .unwrap();
    let q = query_encoder(&contains_enum).unwrap();
    assert!(q.contains("Url.Builder.string \"e\" (queryFieldEncoderEnum struct.e)"));

    let quarry = resolve(
        "Enum",
        &TypeInfo::Enum(vec![unit_variant("First"), unit_variant("Second")]),
        &ContainerAttributes::none(),
    )
        .unwrap();
    assert_eq!(query_field_encoder_name(&quarry), "queryFieldEncoderEnum");
    assert_eq!(
        query_field_encoder(&quarry).unwrap(),
        "queryFieldEncoderEnum : Enum -> String\nqueryFieldEncoderEnum var =\n    case var of\n        First -> \"First\"\n        Second -> \"Second\"\n"
    );
}

#[test]
fn query_sum_of_struct_variants() {
    let r = resolve(
        "Filter",
        &TypeInfo::Enum(vec![
            EnumVariant {
                ident: "ByName".to_string(),
                kind: EnumVariantKind::Struct(vec![field("name", string_ref())]),
                attributes: VariantAttributes::none(),
            },
            EnumVariant {
                ident: "ByAge".to_string(),
                kind: EnumVariantKind::Struct(vec![field("age", int_ref())]),
                attributes: VariantAttributes::none(),
            },
        ]),
        &ContainerAttributes::none(),
    )
        .unwrap();
    let q = query_encoder(&r).unwrap();
    assert!(q.starts_with("urlEncodeFilter : Filter -> List Url.Builder.QueryParameter\nurlEncodeFilter enum =\n    case enum of\n        "));
    assert!(q.contains("ByName { name } ->\n            [ Url.Builder.string \"name\" (identity name) ]"));
    assert!(q.contains("ByAge { age } ->\n            [ Url.Builder.int \"age\" (identity age) ]"));
}

#[test]
fn query_rejects_unit_shape() {
    let r = resolve("Unit", &TypeInfo::Unit, &ContainerAttributes::none()).unwrap();
    assert_eq!(query_encoder(&r), Err(GenError::QueryUnsupportedShape));
    assert_eq!(
        GenError::QueryUnsupportedShape.describe(),
        "only structs and enums are allowed"
    );
}

#[test]
fn query_rejects_non_struct_variant() {
    let r = resolve(
        "Mixed",
        &TypeInfo::Enum(vec![
            unit_variant("A"),
            EnumVariant {
                ident: "B".to_string(),
                kind: EnumVariantKind::Struct(vec![field("b", int_ref())]),
                attributes: VariantAttributes::none(),
            },
        ]),
        &ContainerAttributes::none(),
    )
        .unwrap();
    assert_eq!(query_encoder(&r), Err(GenError::QueryNonStructVariant));
    assert_eq!(
        GenError::QueryNonStructVariant.describe(),
        "only struct variants are allowed"
    );
}

#[test]
fn query_field_rejects_record() {
    let r = resolve(
        "Named",
        &TypeInfo::Struct(vec![field("first", int_ref())]),
        &ContainerAttributes::none(),
    )
        .unwrap();
    assert_eq!(query_field_encoder(&r), Err(GenError::QueryFieldNotEnum));
    assert_eq!(GenError::QueryFieldNotEnum.describe(), "only enums are allowed");
}

#[test]
fn query_field_rejects_payload_variant() {
    let r = resolve(
        "Mixed",
        &TypeInfo::Enum(vec![
            unit_variant("A"),
            EnumVariant {
                ident: "B".to_string(),
                kind: EnumVariantKind::Newtype(int_ref()),
                attributes: VariantAttributes::none(),
            },
        ]),
        &ContainerAttributes::none(),
    )
        .unwrap();
    assert_eq!(query_field_encoder(&r), Err(GenError::QueryFieldNonUnitVariant));
    assert_eq!(
        GenError::QueryFieldNonUnitVariant.describe(),
        "only unit variants are allowed"
    );
}
