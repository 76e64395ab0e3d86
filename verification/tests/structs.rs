//! The four struct shapes, plain and under serde-style container
//! attributes: generated text and the wire round trip.

use elm_rs::ir::ContainerAttributes;
use elm_rs::ir::FieldAttributes;
use elm_rs::ir::RenameAll;
use elm_rs::ir::StructField;
use elm_rs::ir::TypeInfo;
use elm_rs::ir::TypeRef;
use elm_rs::decl::type_declaration;
use elm_rs::decode::decoder_definition;
use elm_rs::encode::encoder_definition;
use elm_rs::json::JsonValue;
use elm_rs::resolve::resolve;
use elm_rs::resolve::Resolved;
use elm_rs::wire::decode;
use elm_rs::wire::encode;
use elm_rs::wire::ShapeValue;

fn int_ref() -> TypeRef {
    TypeRef::basic("Int", "Json.Decode.int", "Json.Encode.int", "Url.Builder.int")
}

fn string_ref() -> TypeRef {
    TypeRef::basic("String", "Json.Decode.string", "Json.Encode.string", "Url.Builder.string")
}

fn field(name: &str, ty: TypeRef) -> StructField {
    StructField { ident: name.to_string(), ty, attributes: FieldAttributes::none() }
}

fn num(text: &str) -> JsonValue {
    JsonValue::Number(text.to_string())
}

fn roundtrip(r: &Resolved, v: ShapeValue) {
    let j = encode(&r.shape, true, &v);
    let back = decode(&r.shape, &j).expect("decode failed");
    assert_eq!(back, v);
}

#[test]
fn structs_unit() {
    let r = resolve("Unit", &TypeInfo::Unit, &ContainerAttributes::none()).unwrap();
    assert_eq!(type_declaration(&r), "type Unit\n    = Unit\n");
    assert_eq!(
        decoder_definition(&r),
        "unitDecoder : Json.Decode.Decoder Unit\nunitDecoder =\n    Json.Decode.null Unit\n"
    );
    assert_eq!(
        encoder_definition(&r),
        "unitEncoder : Unit -> Json.Encode.Value\nunitEncoder _ =\n    Json.Encode.null\n"
    );
    roundtrip(&r, ShapeValue::Unit);
}

#[test]
fn structs_newtype() {
    let r = resolve("Newtype", &TypeInfo::Newtype(int_ref()), &ContainerAttributes::none())
        .unwrap();
    assert_eq!(type_declaration(&r), "type Newtype\n    = Newtype (Int)\n");
    assert_eq!(
        decoder_definition(&r),
        "newtypeDecoder : Json.Decode.Decoder Newtype\nnewtypeDecoder =\n    Json.Decode.map Newtype (Json.Decode.int)\n"
    );
    assert_eq!(
        encoder_definition(&r),
        "newtypeEncoder : Newtype -> Json.Encode.Value\nnewtypeEncoder (Newtype inner) =\n    (Json.Encode.int) inner\n"
    );
    roundtrip(&r, ShapeValue::Newtype(num("123")));
}

#[test]
fn structs_tuple() {
    let r = resolve(
        "Tuple",
        &TypeInfo::Tuple(vec![int_ref(), int_ref()]),
        &ContainerAttributes::none(),
    )
        .unwrap();
    assert_eq!(type_declaration(&r), "type Tuple\n    = Tuple (Int) (Int)\n");
    assert_eq!(
        decoder_definition(&r),
        "tupleDecoder : Json.Decode.Decoder Tuple\ntupleDecoder =\n    Json.Decode.succeed Tuple\n        |> Json.Decode.andThen (\\x -> Json.Decode.index 0 (Json.Decode.int) |> Json.Decode.map x)\n        |> Json.Decode.andThen (\\x -> Json.Decode.index 1 (Json.Decode.int) |> Json.Decode.map x)\n"
    );
    assert_eq!(
        encoder_definition(&r),
        "tupleEncoder : Tuple -> Json.Encode.Value\ntupleEncoder (Tuple t0 t1) =\n    Json.Encode.list identity\n        [ (Json.Encode.int) t0\n        , (Json.Encode.int) t1\n        ]\n"
    );
    roundtrip(&r, ShapeValue::Tuple(vec![num("123"), num("234")]));
}

#[test]
fn structs_named() {
    let r = resolve(
        "Named",
        &TypeInfo::Struct(vec![field("first", int_ref()), field("second", string_ref())]),
        &ContainerAttributes::none(),
    )
        .unwrap();
    assert_eq!(
        type_declaration(&r),
        "type alias Named =\n    { first : Int\n    , second : String\n    }\n"
    );
    assert_eq!(
        decoder_definition(&r),
        "namedDecoder : Json.Decode.Decoder Named\nnamedDecoder =\n    Json.Decode.succeed Named\n        |> Json.Decode.andThen (\\x -> Json.Decode.map x (Json.Decode.field \"first\" (Json.Decode.int)))\n        |> Json.Decode.andThen (\\x -> Json.Decode.map x (Json.Decode.field \"second\" (Json.Decode.string)))\n"
    );
    assert_eq!(
        encoder_definition(&r),
        "namedEncoder : Named -> Json.Encode.Value\nnamedEncoder struct =\n    Json.Encode.object\n        [ ( \"first\", (Json.Encode.int) struct.first )\n        , ( \"second\", (Json.Encode.string) struct.second )\n        ]\n"
    );
    roundtrip(
        &r,
        ShapeValue::Record(vec![num("123"), JsonValue::Str("234".to_string())]),
    );
}

#[test]
fn structs_serde_unit() {
    let mut ca = ContainerAttributes::none();
    ca.rename = Some("renamed".to_string());
    let r = resolve("Unit", &TypeInfo::Unit, &ca).unwrap();
    // a container rename never reaches the Elm-side type name
    assert_eq!(type_declaration(&r), "type Unit\n    = Unit\n");
    roundtrip(&r, ShapeValue::Unit);
}

#[test]
fn structs_serde_newtype() {
    let mut ca = ContainerAttributes::none();
    ca.rename = Some("renamed".to_string());
    let r = resolve("Newtype", &TypeInfo::Newtype(int_ref()), &ca).unwrap();
    assert_eq!(type_declaration(&r), "type Newtype\n    = Newtype (Int)\n");
    roundtrip(&r, ShapeValue::Newtype(num("123")));
}

#[test]
fn structs_serde_tuple() {
    let mut ca = ContainerAttributes::none();
    ca.rename = Some("renamed".to_string());
    let r = resolve("Tuple", &TypeInfo::Tuple(vec![int_ref(), int_ref()]), &ca).unwrap();
    assert_eq!(type_declaration(&r), "type Tuple\n    = Tuple (Int) (Int)\n");
    roundtrip(&r, ShapeValue::Tuple(vec![num("123"), num("234")]));
}

#[test]
fn structs_serde_named() {
    let mut ca = ContainerAttributes::none();
    ca.rename = Some("renamed".to_string());
    ca.rename_all = Some(RenameAll::Uppercase);
    let mut renamed = field("renamed", int_ref());
    renamed.attributes.rename = Some("another-field".to_string());
    let r = resolve(
        "Named",
        &TypeInfo::Struct(vec![field("field", int_ref()), renamed]),
        &ca,
    )
        .unwrap();
    // the declaration names fields by their Elm-side names, the decoder and
    // encoder by the resolved JSON names
    assert_eq!(
        type_declaration(&r),
        "type alias Named =\n    { field : Int\n    , renamed : Int\n    }\n"
    );
    let decoder = decoder_definition(&r);
    assert!(decoder.contains("Json.Decode.field \"FIELD\""));
    assert!(decoder.contains("Json.Decode.field \"another-field\""));
    let encoder = encoder_definition(&r);
    assert!(encoder.contains("( \"FIELD\", (Json.Encode.int) struct.field )"));
    assert!(encoder.contains("( \"another-field\", (Json.Encode.int) struct.renamed )"));
    roundtrip(&r, ShapeValue::Record(vec![num("123"), num("0")]));
}

#[test]
fn nestedtypes() {
    let result_ref = TypeRef::basic(
        "Result (Int) (List (String))",
        "resultDecoder (Json.Decode.int) (Json.Decode.list (Json.Decode.string))",
        "resultEncoder (Json.Encode.int) (Json.Encode.list (Json.Encode.string))",
        "Url.Builder.string",
    );
    let option_ref = TypeRef::basic(
        "Maybe (List (String))",
        "Json.Decode.nullable (Json.Decode.list (Json.Decode.string))",
        "Maybe.withDefault Json.Encode.null <| Maybe.map (Json.Encode.list (Json.Encode.string))",
        "Url.Builder.string",
    );
    let vec_ref = TypeRef::basic(
        "List (List (String))",
        "Json.Decode.list (Json.Decode.list (Json.Decode.string))",
        "Json.Encode.list (Json.Encode.list (Json.Encode.string))",
        "Url.Builder.string",
    );
    let r = resolve(
        "NestedTypes",
        &TypeInfo::Struct(vec![
            field("result", result_ref),
            field("option", option_ref),
            field("vec", vec_ref),
        ]),
        &ContainerAttributes::none(),
    )
        .unwrap();
    assert_eq!(
        type_declaration(&r),
        "type alias NestedTypes =\n    { result : Result (Int) (List (String))\n    , option : Maybe (List (String))\n    , vec : List (List (String))\n    }\n"
    );
    // Ok([]) serializes as {"Ok":[]}, Some([]) as [], [[]] as [[]]
    let ok_empty = JsonValue::Object(vec![(
        "Ok".to_string(),
        JsonValue::Array(vec![]),
    )]);
    roundtrip(
        &r,
        ShapeValue::Record(vec![
            ok_empty,
            JsonValue::Array(vec![]),
            JsonValue::Array(vec![JsonValue::Array(vec![])]),
        ]),
    );
}
