//! The primitive registry surface: the traits through which generation
//! learns, for a built-in element type, its Elm type name and references to
//! its decoder, encoder and query-field entries, together with the entries
//! for the basic built-in types. A `TypeRef` handed to the resolver carries
//! exactly this information.

use vstd::prelude::*;

verus! {

/// Supplies the Elm type of a value.
pub trait Elm {
    /// The name of the type in Elm.
    fn elm_type() -> String;

    /// The definition of the type in Elm; none for types Elm already has.
    fn elm_definition() -> Option<String>;
}

/// Supplies the Elm JSON decoder of a value.
pub trait ElmDecode {
    /// The name of the decoder in Elm.
    fn decoder_type() -> String;

    /// The decoder function in Elm; none for decoders in `Json.Decode`.
    fn decoder_definition() -> Option<String>;
}

/// Supplies the Elm JSON encoder of a value.
pub trait ElmEncode {
    /// The name of the encoder in Elm.
    fn encoder_type() -> String;

    /// The encoder function in Elm; none for encoders in `Json.Encode`.
    fn encoder_definition() -> Option<String>;
}

/// Supplies both JSON directions at once.
pub trait ElmJson {
    /// The name of the decoder in Elm.
    fn decoder_type() -> String;

    /// The decoder function in Elm; none for decoders in `Json.Decode`.
    fn decoder_definition() -> Option<String>;

    /// The name of the encoder in Elm.
    fn encoder_type() -> String;

    /// The encoder function in Elm; none for encoders in `Json.Encode`.
    fn encoder_definition() -> Option<String>;
}

impl<T: ElmDecode + ElmEncode> ElmJson for T {
    fn decoder_type() -> String {
        T::decoder_type()
    }

    fn decoder_definition() -> Option<String> {
        T::decoder_definition()
    }

    fn encoder_type() -> String {
        T::encoder_type()
    }

    fn encoder_definition() -> Option<String> {
        T::encoder_definition()
    }
}

/// Supplies an Elm function building `Url.Builder.QueryParameter`s.
pub trait ElmQuery {
    /// The Elm query encoder of the type.
    fn elm_query() -> String;
}

impl<T: ElmQuery + ?Sized> ElmQuery for &T {
    fn elm_query() -> String {
        T::elm_query()
    }
}

/// Supplies the query-field entry used when the type stands as a field of
/// a query target.
pub trait ElmQueryField {
    /// The `Url.Builder` entry of the field, `Url.Builder.string` or
    /// `Url.Builder.int`.
    fn query_field_type() -> &'static str;

    /// The Elm function turning the field into what the entry takes.
    fn query_field_encoder_name() -> &'static str {
        "identity"
    }

    /// The definition of that function, where one is needed.
    fn query_field_encoder_definition() -> Option<String> {
        None
    }
}

impl<T: ElmQueryField + ?Sized> ElmQueryField for &T {
    fn query_field_type() -> &'static str {
        T::query_field_type()
    }
}

impl Elm for bool {
    fn elm_type() -> String {
        String::from_str("Bool")
    }

    fn elm_definition() -> Option<String> {
        None
    }
}

impl ElmDecode for bool {
    fn decoder_type() -> String {
        String::from_str("Json.Decode.bool")
    }

    fn decoder_definition() -> Option<String> {
        None
    }
}

impl ElmEncode for bool {
    fn encoder_type() -> String {
        String::from_str("Json.Encode.bool")
    }

    fn encoder_definition() -> Option<String> {
        None
    }
}

impl Elm for String {
    fn elm_type() -> String {
        String::from_str("String")
    }

    fn elm_definition() -> Option<String> {
        None
    }
}

impl ElmDecode for String {
    fn decoder_type() -> String {
        String::from_str("Json.Decode.string")
    }

    fn decoder_definition() -> Option<String> {
        None
    }
}

impl ElmEncode for String {
    fn encoder_type() -> String {
        String::from_str("Json.Encode.string")
    }

    fn encoder_definition() -> Option<String> {
        None
    }
}

impl ElmQueryField for String {
    fn query_field_type() -> &'static str {
        "Url.Builder.string"
    }
}

impl<T: Elm> Elm for Vec<T> {
    fn elm_type() -> String {
        let mut r = String::from_str("List (");
        let inner = T::elm_type();
        r.append(inner.as_str());
        r.append(")");
        r
    }

    fn elm_definition() -> Option<String> {
        None
    }
}

impl<T: Elm + ElmDecode> ElmDecode for Vec<T> {
    fn decoder_type() -> String {
        let mut r = String::from_str("Json.Decode.list (");
        let inner = T::decoder_type();
        r.append(inner.as_str());
        r.append(")");
        r
    }

    fn decoder_definition() -> Option<String> {
        None
    }
}

impl<T: Elm + ElmEncode> ElmEncode for Vec<T> {
    fn encoder_type() -> String {
        let mut r = String::from_str("Json.Encode.list (");
        let inner = T::encoder_type();
        r.append(inner.as_str());
        r.append(")");
        r
    }

    fn encoder_definition() -> Option<String> {
        None
    }
}

impl<T: Elm> Elm for Option<T> {
    fn elm_type() -> String {
        let mut r = String::from_str("Maybe (");
        let inner = T::elm_type();
        r.append(inner.as_str());
        r.append(")");
        r
    }

    fn elm_definition() -> Option<String> {
        None
    }
}

impl<T: Elm + ElmDecode> ElmDecode for Option<T> {
    fn decoder_type() -> String {
        let mut r = String::from_str("Json.Decode.nullable (");
        let inner = T::decoder_type();
        r.append(inner.as_str());
        r.append(")");
        r
    }

    fn decoder_definition() -> Option<String> {
        None
    }
}

impl<T: Elm + ElmEncode> ElmEncode for Option<T> {
    fn encoder_type() -> String {
        let mut r = String::from_str("Maybe.withDefault Json.Encode.null <| Maybe.map (");
        let inner = T::encoder_type();
        r.append(inner.as_str());
        r.append(")");
        r
    }

    fn encoder_definition() -> Option<String> {
        None
    }
}

impl Elm for u8 {
    fn elm_type() -> String {
        String::from_str("Int")
    }

    fn elm_definition() -> Option<String> {
        None
    }
}

impl ElmDecode for u8 {
    fn decoder_type() -> String {
        String::from_str("Json.Decode.int")
    }

    fn decoder_definition() -> Option<String> {
        None
    }
}

impl ElmEncode for u8 {
    fn encoder_type() -> String {
        String::from_str("Json.Encode.int")
    }

    fn encoder_definition() -> Option<String> {
        None
    }
}

impl ElmQueryField for u8 {
    fn query_field_type() -> &'static str {
        "Url.Builder.int"
    }
}

impl Elm for u16 {
    fn elm_type() -> String {
        String::from_str("Int")
    }

    fn elm_definition() -> Option<String> {
        None
    }
}

impl ElmDecode for u16 {
    fn decoder_type() -> String {
        String::from_str("Json.Decode.int")
    }

    fn decoder_definition() -> Option<String> {
        None
    }
}

impl ElmEncode for u16 {
    fn encoder_type() -> String {
        String::from_str("Json.Encode.int")
    }

    fn encoder_definition() -> Option<String> {
        None
    }
}

impl ElmQueryField for u16 {
    fn query_field_type() -> &'static str {
        "Url.Builder.int"
    }
}

impl Elm for u32 {
    fn elm_type() -> String {
        String::from_str("Int")
    }

    fn elm_definition() -> Option<String> {
        None
    }
}

impl ElmDecode for u32 {
    fn decoder_type() -> String {
        String::from_str("Json.Decode.int")
    }

    fn decoder_definition() -> Option<String> {
        None
    }
}

impl ElmEncode for u32 {
    fn encoder_type() -> String {
        String::from_str("Json.Encode.int")
    }

    fn encoder_definition() -> Option<String> {
        None
    }
}

impl ElmQueryField for u32 {
    fn query_field_type() -> &'static str {
        "Url.Builder.int"
    }
}

impl Elm for u64 {
    fn elm_type() -> String {
        String::from_str("Int")
    }

    fn elm_definition() -> Option<String> {
        None
    }
}

impl ElmDecode for u64 {
    fn decoder_type() -> String {
        String::from_str("Json.Decode.int")
    }

    fn decoder_definition() -> Option<String> {
        None
    }
}

impl ElmEncode for u64 {
    fn encoder_type() -> String {
        String::from_str("Json.Encode.int")
    }

    fn encoder_definition() -> Option<String> {
        None
    }
}

impl ElmQueryField for u64 {
    fn query_field_type() -> &'static str {
        "Url.Builder.int"
    }
}

impl Elm for usize {
    fn elm_type() -> String {
        String::from_str("Int")
    }

    fn elm_definition() -> Option<String> {
        None
    }
}

impl ElmDecode for usize {
    fn decoder_type() -> String {
        String::from_str("Json.Decode.int")
    }

    fn decoder_definition() -> Option<String> {
        None
    }
}

impl ElmEncode for usize {
    fn encoder_type() -> String {
        String::from_str("Json.Encode.int")
    }

    fn encoder_definition() -> Option<String> {
        None
    }
}

impl ElmQueryField for usize {
    fn query_field_type() -> &'static str {
        "Url.Builder.int"
    }
}

impl Elm for i8 {
    fn elm_type() -> String {
        String::from_str("Int")
    }

    fn elm_definition() -> Option<String> {
        None
    }
}

impl ElmDecode for i8 {
    fn decoder_type() -> String {
        String::from_str("Json.Decode.int")
    }

    fn decoder_definition() -> Option<String> {
        None
    }
}

impl ElmEncode for i8 {
    fn encoder_type() -> String {
        String::from_str("Json.Encode.int")
    }

    fn encoder_definition() -> Option<String> {
        None
    }
}

impl ElmQueryField for i8 {
    fn query_field_type() -> &'static str {
        "Url.Builder.int"
    }
}

impl Elm for i16 {
    fn elm_type() -> String {
        String::from_str("Int")
    }

    fn elm_definition() -> Option<String> {
        None
    }
}

impl ElmDecode for i16 {
    fn decoder_type() -> String {
        String::from_str("Json.Decode.int")
    }

    fn decoder_definition() -> Option<String> {
        None
    }
}

impl ElmEncode for i16 {
    fn encoder_type() -> String {
        String::from_str("Json.Encode.int")
    }

    fn encoder_definition() -> Option<String> {
        None
    }
}

impl ElmQueryField for i16 {
    fn query_field_type() -> &'static str {
        "Url.Builder.int"
    }
}

impl Elm for i32 {
    fn elm_type() -> String {
        String::from_str("Int")
    }

    fn elm_definition() -> Option<String> {
        None
    }
}

impl ElmDecode for i32 {
    fn decoder_type() -> String {
        String::from_str("Json.Decode.int")
    }

    fn decoder_definition() -> Option<String> {
        None
    }
}

impl ElmEncode for i32 {
    fn encoder_type() -> String {
        String::from_str("Json.Encode.int")
    }

    fn encoder_definition() -> Option<String> {
        None
    }
}

impl ElmQueryField for i32 {
    fn query_field_type() -> &'static str {
        "Url.Builder.int"
    }
}

impl Elm for i64 {
    fn elm_type() -> String {
        String::from_str("Int")
    }

    fn elm_definition() -> Option<String> {
        None
    }
}

impl ElmDecode for i64 {
    fn decoder_type() -> String {
        String::from_str("Json.Decode.int")
    }

    fn decoder_definition() -> Option<String> {
        None
    }
}

impl ElmEncode for i64 {
    fn encoder_type() -> String {
        String::from_str("Json.Encode.int")
    }

    fn encoder_definition() -> Option<String> {
        None
    }
}

impl ElmQueryField for i64 {
    fn query_field_type() -> &'static str {
        "Url.Builder.int"
    }
}

impl Elm for isize {
    fn elm_type() -> String {
        String::from_str("Int")
    }

    fn elm_definition() -> Option<String> {
        None
    }
}

impl ElmDecode for isize {
    fn decoder_type() -> String {
        String::from_str("Json.Decode.int")
    }

    fn decoder_definition() -> Option<String> {
        None
    }
}

impl ElmEncode for isize {
    fn encoder_type() -> String {
        String::from_str("Json.Encode.int")
    }

    fn encoder_definition() -> Option<String> {
        None
    }
}

impl ElmQueryField for isize {
    fn query_field_type() -> &'static str {
        "Url.Builder.int"
    }
}

} // verus!
