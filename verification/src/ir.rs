//! The intermediate representation consumed by the generators: the shape of
//! one data type (unit, newtype, tuple, record or sum), the attribute records
//! attached to the container, its fields and its variants, and the references
//! into the primitive registry that leaf types are reduced to.

use crate::casing;
use vstd::prelude::*;

verus! {

/// Compares two string slices by content.
pub fn str_eq(a: &str, b: &str) -> (r: bool)
    ensures
        r == (a@ == b@),
{
    let x = String::from_str(a);
    let y = String::from_str(b);
    x == y
}

/// A casing policy applied to every field or variant name of a container
/// unless a more specific rename exists.
#[derive(Clone, Copy, PartialEq, Eq, Structural, Debug)]
pub enum RenameAll {
    Lowercase,
    Uppercase,
    PascalCase,
    CamelCase,
    SnakeCase,
    ScreamingSnakeCase,
    KebabCase,
    ScreamingKebabCase,
}

/// The policy named by `s`, if any; the accepted names are serde's.
pub open spec fn rename_all_from(s: Seq<char>) -> Option<RenameAll> {
    if s == "lowercase"@ {
        Some(RenameAll::Lowercase)
    } else if s == "UPPERCASE"@ {
        Some(RenameAll::Uppercase)
    } else if s == "PascalCase"@ {
        Some(RenameAll::PascalCase)
    } else if s == "camelCase"@ {
        Some(RenameAll::CamelCase)
    } else if s == "snake_case"@ {
        Some(RenameAll::SnakeCase)
    } else if s == "SCREAMING_SNAKE_CASE"@ {
        Some(RenameAll::ScreamingSnakeCase)
    } else if s == "kebab-case"@ {
        Some(RenameAll::KebabCase)
    } else if s == "SCREAMING-KEBAB-CASE"@ {
        Some(RenameAll::ScreamingKebabCase)
    } else {
        None
    }
}

/// `ident` transformed under the policy.
pub open spec fn rename_all_applied(ra: RenameAll, ident: Seq<char>) -> Seq<char> {
    match ra {
        RenameAll::Lowercase => casing::lower_of(ident),
        RenameAll::Uppercase => casing::upper_of(ident),
        RenameAll::PascalCase => casing::pascal_of(ident),
        RenameAll::CamelCase => casing::lower_camel_of(ident),
        RenameAll::SnakeCase => casing::snake_of(ident),
        RenameAll::ScreamingSnakeCase => casing::shouty_snake_of(ident),
        RenameAll::KebabCase => casing::kebab_of(ident),
        RenameAll::ScreamingKebabCase => casing::shouty_kebab_of(ident),
    }
}

impl RenameAll {
    /// Parses a `rename_all` policy name.
    pub fn from(s: &str) -> (r: Option<RenameAll>)
        ensures
            r == rename_all_from(s@),
    {
        if str_eq(s, "lowercase") {
            Some(RenameAll::Lowercase)
        } else if str_eq(s, "UPPERCASE") {
            Some(RenameAll::Uppercase)
        } else if str_eq(s, "PascalCase") {
            Some(RenameAll::PascalCase)
        } else if str_eq(s, "camelCase") {
            Some(RenameAll::CamelCase)
        } else if str_eq(s, "snake_case") {
            Some(RenameAll::SnakeCase)
        } else if str_eq(s, "SCREAMING_SNAKE_CASE") {
            Some(RenameAll::ScreamingSnakeCase)
        } else if str_eq(s, "kebab-case") {
            Some(RenameAll::KebabCase)
        } else if str_eq(s, "SCREAMING-KEBAB-CASE") {
            Some(RenameAll::ScreamingKebabCase)
        } else {
            None
        }
    }

    /// Applies the policy to an identifier.
    pub fn rename_ident(self, ident: &str) -> (r: String)
        ensures
            r@ == rename_all_applied(self, ident@),
    {
        match self {
            RenameAll::Lowercase => casing::lowercase(ident),
            RenameAll::Uppercase => casing::uppercase(ident),
            RenameAll::PascalCase => casing::pascal_case(ident),
            RenameAll::CamelCase => casing::lower_camel_case(ident),
            RenameAll::SnakeCase => casing::snake_case(ident),
            RenameAll::ScreamingSnakeCase => casing::shouty_snake_case(ident),
            RenameAll::KebabCase => casing::kebab_case(ident),
            RenameAll::ScreamingKebabCase => casing::shouty_kebab_case(ident),
        }
    }
}

/// How a sum type is represented on the wire.
#[derive(Debug)]
pub enum EnumRepresentation {
    /// Each variant is its own JSON shape, selected by trying each in turn.
    External,
    /// An object carrying a string field that names the variant.
    Internal { tag: String },
    /// An object with a tag field and a separate payload field.
    Adjacent { tag: String, content: String },
    /// Variants are distinguished purely by their payload shapes.
    Untagged,
}

pub ghost enum ReprView {
    External,
    Internal { tag: Seq<char> },
    Adjacent { tag: Seq<char>, content: Seq<char> },
    Untagged,
}

impl View for EnumRepresentation {
    type V = ReprView;

    open spec fn view(&self) -> ReprView {
        match self {
            EnumRepresentation::External => ReprView::External,
            EnumRepresentation::Internal { tag } => ReprView::Internal { tag: tag@ },
            EnumRepresentation::Adjacent { tag, content } => ReprView::Adjacent {
                tag: tag@,
                content: content@,
            },
            EnumRepresentation::Untagged => ReprView::Untagged,
        }
    }
}

impl DeepView for EnumRepresentation {
    type V = ReprView;

    open spec fn deep_view(&self) -> ReprView {
        self.view()
    }
}

/// The representation named by the `tag`, `content` and `untagged`
/// attributes: a tag with a content field is adjacent tagging, a tag alone
/// internal tagging, `untagged` the untagged representation, and none of
/// them the external default. A tag, when present, wins over `untagged`,
/// as the later attribute overrides the earlier.
pub open spec fn representation_from(
    tag: Option<Seq<char>>,
    content: Option<Seq<char>>,
    untagged: bool,
) -> ReprView {
    match tag {
        Some(t) => match content {
            Some(c) => ReprView::Adjacent { tag: t, content: c },
            None => ReprView::Internal { tag: t },
        },
        None => if untagged {
            ReprView::Untagged
        } else {
            ReprView::External
        },
    }
}

impl EnumRepresentation {
    /// Combines the `tag`, `content` and `untagged` attributes into the
    /// representation they name.
    pub fn from_attributes(tag: Option<String>, content: Option<String>, untagged: bool) -> (r:
        EnumRepresentation)
        ensures
            r@ == representation_from(tag.deep_view(), content.deep_view(), untagged),
    {
        match tag {
            Some(t) => match content {
                Some(c) => EnumRepresentation::Adjacent { tag: t, content: c },
                None => EnumRepresentation::Internal { tag: t },
            },
            None => if untagged {
                EnumRepresentation::Untagged
            } else {
                EnumRepresentation::External
            },
        }
    }
}

impl Clone for EnumRepresentation {
    fn clone(&self) -> (res: Self)
        ensures
            res@ == self@,
    {
        match self {
            EnumRepresentation::External => EnumRepresentation::External,
            EnumRepresentation::Internal { tag } => EnumRepresentation::Internal {
                tag: tag.clone(),
            },
            EnumRepresentation::Adjacent { tag, content } => EnumRepresentation::Adjacent {
                tag: tag.clone(),
                content: content.clone(),
            },
            EnumRepresentation::Untagged => EnumRepresentation::Untagged,
        }
    }
}

/// What the primitive registry supplies for one element type: its Elm type
/// name, references to its decoder and encoder, and the query-field entry
/// used by the query-string generator.
#[derive(Debug)]
pub struct TypeRef {
    pub elm_type: String,
    pub decoder: String,
    pub encoder: String,
    pub query_field_type: String,
    pub query_field_encoder: String,
}

pub ghost struct TypeRefView {
    pub elm_type: Seq<char>,
    pub decoder: Seq<char>,
    pub encoder: Seq<char>,
    pub query_field_type: Seq<char>,
    pub query_field_encoder: Seq<char>,
}

impl View for TypeRef {
    type V = TypeRefView;

    open spec fn view(&self) -> TypeRefView {
        TypeRefView {
            elm_type: self.elm_type@,
            decoder: self.decoder@,
            encoder: self.encoder@,
            query_field_type: self.query_field_type@,
            query_field_encoder: self.query_field_encoder@,
        }
    }
}

impl DeepView for TypeRef {
    type V = TypeRefView;

    open spec fn deep_view(&self) -> TypeRefView {
        self.view()
    }
}

impl Clone for TypeRef {
    fn clone(&self) -> (res: Self)
        ensures
            res@ == self@,
    {
        TypeRef {
            elm_type: self.elm_type.clone(),
            decoder: self.decoder.clone(),
            encoder: self.encoder.clone(),
            query_field_type: self.query_field_type.clone(),
            query_field_encoder: self.query_field_encoder.clone(),
        }
    }
}

impl TypeRef {
    /// A registry entry whose query-field encoding passes the value through
    /// unchanged, as most primitive entries do.
    pub fn basic(elm_type: &str, decoder: &str, encoder: &str, query_field_type: &str) -> (r:
        TypeRef)
        ensures
            r@.elm_type == elm_type@,
            r@.decoder == decoder@,
            r@.encoder == encoder@,
            r@.query_field_type == query_field_type@,
            r@.query_field_encoder == "identity"@,
    {
        TypeRef {
            elm_type: String::from_str(elm_type),
            decoder: String::from_str(decoder),
            encoder: String::from_str(encoder),
            query_field_type: String::from_str(query_field_type),
            query_field_encoder: String::from_str("identity"),
        }
    }
}

/// The attributes recognized on one field of a record or struct variant.
#[derive(Debug)]
pub struct FieldAttributes {
    pub rename: Option<String>,
    pub rename_deserialize: Option<String>,
    pub rename_serialize: Option<String>,
    pub aliases: Vec<String>,
    pub flatten: bool,
    pub skip: bool,
}

pub ghost struct FieldAttributesView {
    pub rename: Option<Seq<char>>,
    pub rename_deserialize: Option<Seq<char>>,
    pub rename_serialize: Option<Seq<char>>,
    pub aliases: Seq<Seq<char>>,
    pub flatten: bool,
    pub skip: bool,
}

impl View for FieldAttributes {
    type V = FieldAttributesView;

    open spec fn view(&self) -> FieldAttributesView {
        FieldAttributesView {
            rename: self.rename.deep_view(),
            rename_deserialize: self.rename_deserialize.deep_view(),
            rename_serialize: self.rename_serialize.deep_view(),
            aliases: self.aliases.deep_view(),
            flatten: self.flatten,
            skip: self.skip,
        }
    }
}

impl DeepView for FieldAttributes {
    type V = FieldAttributesView;

    open spec fn deep_view(&self) -> FieldAttributesView {
        self.view()
    }
}

impl FieldAttributes {
    /// The attribute record of a field that carries no attributes.
    pub fn none() -> (r: FieldAttributes)
        ensures
            r@ == (FieldAttributesView {
                rename: None,
                rename_deserialize: None,
                rename_serialize: None,
                aliases: Seq::<Seq<char>>::empty(),
                flatten: false,
                skip: false,
            }),
    {
        let r = FieldAttributes {
            rename: None,
            rename_deserialize: None,
            rename_serialize: None,
            aliases: Vec::new(),
            flatten: false,
            skip: false,
        };
        proof {
            assert(r@.aliases =~= Seq::<Seq<char>>::empty());
        }
        r
    }
}

/// One named field of a record or of a struct-shaped variant.
#[derive(Debug)]
pub struct StructField {
    pub ident: String,
    pub ty: TypeRef,
    pub attributes: FieldAttributes,
}

pub ghost struct StructFieldView {
    pub ident: Seq<char>,
    pub ty: TypeRefView,
    pub attributes: FieldAttributesView,
}

impl View for StructField {
    type V = StructFieldView;

    open spec fn view(&self) -> StructFieldView {
        StructFieldView { ident: self.ident@, ty: self.ty@, attributes: self.attributes@ }
    }
}

impl DeepView for StructField {
    type V = StructFieldView;

    open spec fn deep_view(&self) -> StructFieldView {
        self.view()
    }
}

/// The attributes recognized on one variant of a sum type.
#[derive(Debug)]
pub struct VariantAttributes {
    pub rename: Option<String>,
    pub rename_deserialize: Option<String>,
    pub rename_serialize: Option<String>,
    pub rename_all: Option<RenameAll>,
    pub rename_all_deserialize: Option<RenameAll>,
    pub rename_all_serialize: Option<RenameAll>,
    pub aliases: Vec<String>,
    pub skip: bool,
    pub other: bool,
}

pub ghost struct VariantAttributesView {
    pub rename: Option<Seq<char>>,
    pub rename_deserialize: Option<Seq<char>>,
    pub rename_serialize: Option<Seq<char>>,
    pub rename_all: Option<RenameAll>,
    pub rename_all_deserialize: Option<RenameAll>,
    pub rename_all_serialize: Option<RenameAll>,
    pub aliases: Seq<Seq<char>>,
    pub skip: bool,
    pub other: bool,
}

impl View for VariantAttributes {
    type V = VariantAttributesView;

    open spec fn view(&self) -> VariantAttributesView {
        VariantAttributesView {
            rename: self.rename.deep_view(),
            rename_deserialize: self.rename_deserialize.deep_view(),
            rename_serialize: self.rename_serialize.deep_view(),
            rename_all: self.rename_all,
            rename_all_deserialize: self.rename_all_deserialize,
            rename_all_serialize: self.rename_all_serialize,
            aliases: self.aliases.deep_view(),
            skip: self.skip,
            other: self.other,
        }
    }
}

impl DeepView for VariantAttributes {
    type V = VariantAttributesView;

    open spec fn deep_view(&self) -> VariantAttributesView {
        self.view()
    }
}

impl VariantAttributes {
    /// The attribute record of a variant that carries no attributes.
    pub fn none() -> (r: VariantAttributes)
        ensures
            r@ == (VariantAttributesView {
                rename: None,
                rename_deserialize: None,
                rename_serialize: None,
                rename_all: None,
                rename_all_deserialize: None,
                rename_all_serialize: None,
                aliases: Seq::<Seq<char>>::empty(),
                skip: false,
                other: false,
            }),
    {
        let r = VariantAttributes {
            rename: None,
            rename_deserialize: None,
            rename_serialize: None,
            rename_all: None,
            rename_all_deserialize: None,
            rename_all_serialize: None,
            aliases: Vec::new(),
            skip: false,
            other: false,
        };
        proof {
            assert(r@.aliases =~= Seq::<Seq<char>>::empty());
        }
        r
    }
}

/// The payload shape of one variant.
#[derive(Debug)]
pub enum EnumVariantKind {
    Unit,
    Newtype(TypeRef),
    Tuple(Vec<TypeRef>),
    Struct(Vec<StructField>),
}

pub ghost enum VariantKindView {
    Unit,
    Newtype(TypeRefView),
    Tuple(Seq<TypeRefView>),
    Struct(Seq<StructFieldView>),
}

impl View for EnumVariantKind {
    type V = VariantKindView;

    open spec fn view(&self) -> VariantKindView {
        match self {
            EnumVariantKind::Unit => VariantKindView::Unit,
            EnumVariantKind::Newtype(ty) => VariantKindView::Newtype(ty@),
            EnumVariantKind::Tuple(tys) => VariantKindView::Tuple(tys.deep_view()),
            EnumVariantKind::Struct(fields) => VariantKindView::Struct(fields.deep_view()),
        }
    }
}

impl DeepView for EnumVariantKind {
    type V = VariantKindView;

    open spec fn deep_view(&self) -> VariantKindView {
        self.view()
    }
}

/// One variant of a sum type.
#[derive(Debug)]
pub struct EnumVariant {
    pub ident: String,
    pub kind: EnumVariantKind,
    pub attributes: VariantAttributes,
}

pub ghost struct EnumVariantView {
    pub ident: Seq<char>,
    pub kind: VariantKindView,
    pub attributes: VariantAttributesView,
}

impl View for EnumVariant {
    type V = EnumVariantView;

    open spec fn view(&self) -> EnumVariantView {
        EnumVariantView { ident: self.ident@, kind: self.kind@, attributes: self.attributes@ }
    }
}

impl DeepView for EnumVariant {
    type V = EnumVariantView;

    open spec fn deep_view(&self) -> EnumVariantView {
        self.view()
    }
}

/// The attributes recognized on the container itself.
#[derive(Debug)]
pub struct ContainerAttributes {
    pub rename: Option<String>,
    pub rename_deserialize: Option<String>,
    pub rename_serialize: Option<String>,
    pub rename_all: Option<RenameAll>,
    pub rename_all_deserialize: Option<RenameAll>,
    pub rename_all_serialize: Option<RenameAll>,
    pub rename_all_fields: Option<RenameAll>,
    pub rename_all_fields_deserialize: Option<RenameAll>,
    pub rename_all_fields_serialize: Option<RenameAll>,
    pub enum_representation: EnumRepresentation,
    pub transparent: bool,
}

pub ghost struct ContainerAttributesView {
    pub rename: Option<Seq<char>>,
    pub rename_deserialize: Option<Seq<char>>,
    pub rename_serialize: Option<Seq<char>>,
    pub rename_all: Option<RenameAll>,
    pub rename_all_deserialize: Option<RenameAll>,
    pub rename_all_serialize: Option<RenameAll>,
    pub rename_all_fields: Option<RenameAll>,
    pub rename_all_fields_deserialize: Option<RenameAll>,
    pub rename_all_fields_serialize: Option<RenameAll>,
    pub enum_representation: ReprView,
    pub transparent: bool,
}

impl View for ContainerAttributes {
    type V = ContainerAttributesView;

    open spec fn view(&self) -> ContainerAttributesView {
        ContainerAttributesView {
            rename: self.rename.deep_view(),
            rename_deserialize: self.rename_deserialize.deep_view(),
            rename_serialize: self.rename_serialize.deep_view(),
            rename_all: self.rename_all,
            rename_all_deserialize: self.rename_all_deserialize,
            rename_all_serialize: self.rename_all_serialize,
            rename_all_fields: self.rename_all_fields,
            rename_all_fields_deserialize: self.rename_all_fields_deserialize,
            rename_all_fields_serialize: self.rename_all_fields_serialize,
            enum_representation: self.enum_representation@,
            transparent: self.transparent,
        }
    }
}

impl DeepView for ContainerAttributes {
    type V = ContainerAttributesView;

    open spec fn deep_view(&self) -> ContainerAttributesView {
        self.view()
    }
}

impl ContainerAttributes {
    /// The attribute record of a container that carries no attributes.
    pub fn none() -> (r: ContainerAttributes)
        ensures
            r@ == (ContainerAttributesView {
                rename: None,
                rename_deserialize: None,
                rename_serialize: None,
                rename_all: None,
                rename_all_deserialize: None,
                rename_all_serialize: None,
                rename_all_fields: None,
                rename_all_fields_deserialize: None,
                rename_all_fields_serialize: None,
                enum_representation: ReprView::External,
                transparent: false,
            }),
    {
        ContainerAttributes {
            rename: None,
            rename_deserialize: None,
            rename_serialize: None,
            rename_all: None,
            rename_all_deserialize: None,
            rename_all_serialize: None,
            rename_all_fields: None,
            rename_all_fields_deserialize: None,
            rename_all_fields_serialize: None,
            enum_representation: EnumRepresentation::External,
            transparent: false,
        }
    }
}

/// The structural shape of one data type, before name resolution.
#[derive(Debug)]
pub enum TypeInfo {
    Unit,
    Newtype(TypeRef),
    Tuple(Vec<TypeRef>),
    Struct(Vec<StructField>),
    Enum(Vec<EnumVariant>),
}

pub ghost enum TypeInfoView {
    Unit,
    Newtype(TypeRefView),
    Tuple(Seq<TypeRefView>),
    Struct(Seq<StructFieldView>),
    Enum(Seq<EnumVariantView>),
}

impl View for TypeInfo {
    type V = TypeInfoView;

    open spec fn view(&self) -> TypeInfoView {
        match self {
            TypeInfo::Unit => TypeInfoView::Unit,
            TypeInfo::Newtype(ty) => TypeInfoView::Newtype(ty@),
            TypeInfo::Tuple(tys) => TypeInfoView::Tuple(tys.deep_view()),
            TypeInfo::Struct(fields) => TypeInfoView::Struct(fields.deep_view()),
            TypeInfo::Enum(variants) => TypeInfoView::Enum(variants.deep_view()),
        }
    }
}

impl DeepView for TypeInfo {
    type V = TypeInfoView;

    open spec fn deep_view(&self) -> TypeInfoView {
        self.view()
    }
}

/// Why generation of one type was rejected.
#[derive(Clone, Copy, PartialEq, Eq, Structural, Debug)]
pub enum GenError {
    /// A sum type with no variants has nothing to encode.
    EmptyEnum,
    /// Internal tagging cannot merge a bare newtype value into the tagged object.
    InternalNewtype,
    /// Internal tagging cannot merge a positional tuple into the tagged object.
    InternalTuple,
    /// Query encoders exist only for records and for sums of struct variants.
    QueryUnsupportedShape,
    /// A sum used as a query target may hold struct variants only.
    QueryNonStructVariant,
    /// Query-field encoders exist only for sum types.
    QueryFieldNotEnum,
    /// A sum used as a query field may hold unit variants only.
    QueryFieldNonUnitVariant,
}

/// The report text of each rejection.
pub open spec fn gen_error_text(e: GenError) -> Seq<char> {
    match e {
        GenError::EmptyEnum => "empty enums are not supported"@,
        GenError::InternalNewtype => "Internally tagged newtype variants are not supported by serde_json"@,
        GenError::InternalTuple => "Internally tagged tuple variants are not supported by serde_json"@,
        GenError::QueryUnsupportedShape => "only structs and enums are allowed"@,
        GenError::QueryNonStructVariant => "only struct variants are allowed"@,
        GenError::QueryFieldNotEnum => "only enums are allowed"@,
        GenError::QueryFieldNonUnitVariant => "only unit variants are allowed"@,
    }
}

impl GenError {
    /// A short description of the rejection.
    pub fn describe(&self) -> (r: &'static str)
        ensures
            r@ == gen_error_text(*self),
    {
        match self {
            GenError::EmptyEnum => "empty enums are not supported",
            GenError::InternalNewtype => "Internally tagged newtype variants are not supported by serde_json",
            GenError::InternalTuple => "Internally tagged tuple variants are not supported by serde_json",
            GenError::QueryUnsupportedShape => "only structs and enums are allowed",
            GenError::QueryNonStructVariant => "only struct variants are allowed",
            GenError::QueryFieldNotEnum => "only enums are allowed",
            GenError::QueryFieldNonUnitVariant => "only unit variants are allowed",
        }
    }
}

} // verus!
