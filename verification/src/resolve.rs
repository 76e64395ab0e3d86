//! Name resolution: computes, for every field and variant, the Elm-side
//! name, the encode-name (used when writing JSON) and the decode-name (used
//! when reading JSON), removes skipped fields and variants, applies the
//! transparent-record shortcut, and rejects shapes the active tagging
//! convention cannot represent.
//!
//! Precedence of renames, highest first: a directional rename on the field
//! or variant itself, then its plain rename, then a directional container
//! `rename_all`, then a plain container `rename_all`, then the identifier
//! unchanged.

use crate::casing;
use crate::ir::ContainerAttributes;
use crate::ir::ContainerAttributesView;
use crate::ir::EnumRepresentation;
use crate::ir::EnumVariant;
use crate::ir::EnumVariantKind;
use crate::ir::EnumVariantView;
use crate::ir::GenError;
use crate::ir::RenameAll;
use crate::ir::ReprView;
use crate::ir::StructField;
use crate::ir::StructFieldView;
use crate::ir::TypeInfo;
use crate::ir::TypeInfoView;
use crate::ir::TypeRef;
use crate::ir::TypeRefView;
use crate::ir::rename_all_applied;
use vstd::prelude::*;

verus! {

/// A field with its three resolved names.
#[derive(Debug)]
pub struct ResolvedField {
    pub name_elm: String,
    pub name_encode: String,
    pub name_decode: String,
    pub ty: TypeRef,
}

pub ghost struct ResolvedFieldView {
    pub name_elm: Seq<char>,
    pub name_encode: Seq<char>,
    pub name_decode: Seq<char>,
    pub ty: TypeRefView,
}

impl View for ResolvedField {
    type V = ResolvedFieldView;

    open spec fn view(&self) -> ResolvedFieldView {
        ResolvedFieldView {
            name_elm: self.name_elm@,
            name_encode: self.name_encode@,
            name_decode: self.name_decode@,
            ty: self.ty@,
        }
    }
}

impl DeepView for ResolvedField {
    type V = ResolvedFieldView;

    open spec fn deep_view(&self) -> ResolvedFieldView {
        self.view()
    }
}

/// The payload shape of a resolved variant.
#[derive(Debug)]
pub enum ResolvedVariantKind {
    Unit,
    Newtype(TypeRef),
    Tuple(Vec<TypeRef>),
    Struct(Vec<ResolvedField>),
}

pub ghost enum ResolvedVariantKindView {
    Unit,
    Newtype(TypeRefView),
    Tuple(Seq<TypeRefView>),
    Struct(Seq<ResolvedFieldView>),
}

impl View for ResolvedVariantKind {
    type V = ResolvedVariantKindView;

    open spec fn view(&self) -> ResolvedVariantKindView {
        match self {
            ResolvedVariantKind::Unit => ResolvedVariantKindView::Unit,
            ResolvedVariantKind::Newtype(ty) => ResolvedVariantKindView::Newtype(ty@),
            ResolvedVariantKind::Tuple(tys) => ResolvedVariantKindView::Tuple(tys.deep_view()),
            ResolvedVariantKind::Struct(fields) => ResolvedVariantKindView::Struct(
                fields.deep_view(),
            ),
        }
    }
}

impl DeepView for ResolvedVariantKind {
    type V = ResolvedVariantKindView;

    open spec fn deep_view(&self) -> ResolvedVariantKindView {
        self.view()
    }
}

/// A variant with its three resolved names.
#[derive(Debug)]
pub struct ResolvedVariant {
    pub name_elm: String,
    pub name_encode: String,
    pub name_decode: String,
    pub kind: ResolvedVariantKind,
    pub other: bool,
}

pub ghost struct ResolvedVariantView {
    pub name_elm: Seq<char>,
    pub name_encode: Seq<char>,
    pub name_decode: Seq<char>,
    pub kind: ResolvedVariantKindView,
    pub other: bool,
}

impl View for ResolvedVariant {
    type V = ResolvedVariantView;

    open spec fn view(&self) -> ResolvedVariantView {
        ResolvedVariantView {
            name_elm: self.name_elm@,
            name_encode: self.name_encode@,
            name_decode: self.name_decode@,
            kind: self.kind@,
            other: self.other,
        }
    }
}

impl DeepView for ResolvedVariant {
    type V = ResolvedVariantView;

    open spec fn deep_view(&self) -> ResolvedVariantView {
        self.view()
    }
}

/// The resolved shape of one data type: skipped members removed, names
/// computed, the transparent shortcut applied.
#[derive(Debug)]
pub enum ResolvedShape {
    Unit,
    Newtype(TypeRef),
    Tuple(Vec<TypeRef>),
    Record(Vec<ResolvedField>),
    Sum { representation: EnumRepresentation, variants: Vec<ResolvedVariant> },
}

pub ghost enum ResolvedShapeView {
    Unit,
    Newtype(TypeRefView),
    Tuple(Seq<TypeRefView>),
    Record(Seq<ResolvedFieldView>),
    Sum { representation: ReprView, variants: Seq<ResolvedVariantView> },
}

impl View for ResolvedShape {
    type V = ResolvedShapeView;

    open spec fn view(&self) -> ResolvedShapeView {
        match self {
            ResolvedShape::Unit => ResolvedShapeView::Unit,
            ResolvedShape::Newtype(ty) => ResolvedShapeView::Newtype(ty@),
            ResolvedShape::Tuple(tys) => ResolvedShapeView::Tuple(tys.deep_view()),
            ResolvedShape::Record(fields) => ResolvedShapeView::Record(fields.deep_view()),
            ResolvedShape::Sum { representation, variants } => ResolvedShapeView::Sum {
                representation: representation@,
                variants: variants.deep_view(),
            },
        }
    }
}

impl DeepView for ResolvedShape {
    type V = ResolvedShapeView;

    open spec fn deep_view(&self) -> ResolvedShapeView {
        self.view()
    }
}

/// One data type ready for the generators: its Elm type name, the names of
/// its decoder and encoder functions, and its resolved shape.
#[derive(Debug)]
pub struct Resolved {
    pub elm_type: String,
    pub decoder_name: String,
    pub encoder_name: String,
    pub shape: ResolvedShape,
}

pub ghost struct ResolvedView {
    pub elm_type: Seq<char>,
    pub decoder_name: Seq<char>,
    pub encoder_name: Seq<char>,
    pub shape: ResolvedShapeView,
}

impl View for Resolved {
    type V = ResolvedView;

    open spec fn view(&self) -> ResolvedView {
        ResolvedView {
            elm_type: self.elm_type@,
            decoder_name: self.decoder_name@,
            encoder_name: self.encoder_name@,
            shape: self.shape@,
        }
    }
}

impl DeepView for Resolved {
    type V = ResolvedView;

    open spec fn deep_view(&self) -> ResolvedView {
        self.view()
    }
}

// ==========
// name rules
// ==========

/// The first policy that is set, if any.
pub open spec fn first_policy2(a: Option<RenameAll>, b: Option<RenameAll>) -> Option<RenameAll> {
    if a is Some {
        a
    } else {
        b
    }
}

/// The first policy that is set among four, if any.
pub open spec fn first_policy4(
    a: Option<RenameAll>,
    b: Option<RenameAll>,
    c: Option<RenameAll>,
    d: Option<RenameAll>,
) -> Option<RenameAll> {
    first_policy2(a, first_policy2(b, first_policy2(c, d)))
}

/// One resolved name: the directional rename, else the plain rename, else
/// the container policy applied to the identifier, else the identifier.
pub open spec fn resolved_name(
    ident: Seq<char>,
    directional: Option<Seq<char>>,
    plain: Option<Seq<char>>,
    policy: Option<RenameAll>,
) -> Seq<char> {
    match directional {
        Some(n) => n,
        None => match plain {
            Some(n) => n,
            None => match policy {
                Some(p) => rename_all_applied(p, ident),
                None => ident,
            },
        },
    }
}

fn clone_type_refs(tys: &Vec<TypeRef>) -> (r: Vec<TypeRef>)
    ensures
        r.deep_view() == tys.deep_view(),
{
    let mut r: Vec<TypeRef> = Vec::new();
    let mut i: usize = 0;
    while i < tys.len()
        invariant
            i <= tys.len(),
            r.len() == i,
            tys.deep_view().len() == tys.len(),
            forall|j: int| 0 <= j < i ==> r.deep_view()[j] == tys.deep_view()[j],
        decreases tys.len() - i,
    {
        r.push(tys[i].clone());
        i = i + 1;
    }
    proof {
        assert(r.deep_view() =~= tys.deep_view());
    }
    r
}

fn exec_first_policy2(a: &Option<RenameAll>, b: &Option<RenameAll>) -> (r: Option<RenameAll>)
    ensures
        r == first_policy2(*a, *b),
{
    match a {
        Some(p) => Some(*p),
        None => match b {
            Some(p) => Some(*p),
            None => None,
        },
    }
}

fn exec_resolved_name(
    ident: &str,
    directional: &Option<String>,
    plain: &Option<String>,
    policy: &Option<RenameAll>,
) -> (r: String)
    ensures
        r@ == resolved_name(ident@, directional.deep_view(), plain.deep_view(), *policy),
{
    match directional {
        Some(n) => n.clone(),
        None => match plain {
            Some(n) => n.clone(),
            None => match policy {
                Some(p) => p.rename_ident(ident),
                None => String::from_str(ident),
            },
        },
    }
}

// ======
// fields
// ======

/// The resolved names of one field under the given encode and decode
/// policies.
pub open spec fn spec_resolve_field(
    f: StructFieldView,
    enc_policy: Option<RenameAll>,
    dec_policy: Option<RenameAll>,
) -> ResolvedFieldView {
    ResolvedFieldView {
        name_elm: casing::lower_camel_of(f.ident),
        name_encode: resolved_name(
            f.ident,
            f.attributes.rename_serialize,
            f.attributes.rename,
            enc_policy,
        ),
        name_decode: resolved_name(
            f.ident,
            f.attributes.rename_deserialize,
            f.attributes.rename,
            dec_policy,
        ),
        ty: f.ty,
    }
}

/// The fields with skipped ones removed and names resolved, in order.
pub open spec fn spec_resolve_fields(
    fields: Seq<StructFieldView>,
    enc_policy: Option<RenameAll>,
    dec_policy: Option<RenameAll>,
) -> Seq<ResolvedFieldView>
    decreases fields.len(),
{
    if fields.len() == 0 {
        Seq::<ResolvedFieldView>::empty()
    } else {
        let rest = spec_resolve_fields(fields.drop_last(), enc_policy, dec_policy);
        if fields.last().attributes.skip {
            rest
        } else {
            rest.push(spec_resolve_field(fields.last(), enc_policy, dec_policy))
        }
    }
}

fn resolve_field(f: &StructField, enc_policy: &Option<RenameAll>, dec_policy: &Option<RenameAll>)
    -> (r: ResolvedField)
    ensures
        r@ == spec_resolve_field(f@, *enc_policy, *dec_policy),
{
    ResolvedField {
        name_elm: casing::lower_camel_case(f.ident.as_str()),
        name_encode: exec_resolved_name(
            f.ident.as_str(),
            &f.attributes.rename_serialize,
            &f.attributes.rename,
            enc_policy,
        ),
        name_decode: exec_resolved_name(
            f.ident.as_str(),
            &f.attributes.rename_deserialize,
            &f.attributes.rename,
            dec_policy,
        ),
        ty: f.ty.clone(),
    }
}

fn resolve_fields(
    fields: &Vec<StructField>,
    enc_policy: &Option<RenameAll>,
    dec_policy: &Option<RenameAll>,
) -> (r: Vec<ResolvedField>)
    ensures
        r.deep_view() == spec_resolve_fields(fields.deep_view(), *enc_policy, *dec_policy),
{
    let mut r: Vec<ResolvedField> = Vec::new();
    let mut i: usize = 0;
    proof {
        assert(fields.deep_view().take(0) =~= Seq::<StructFieldView>::empty());
        assert(r.deep_view() =~= spec_resolve_fields(
            fields.deep_view().take(0),
            *enc_policy,
            *dec_policy,
        ));
    }
    while i < fields.len()
        invariant
            i <= fields.len(),
            fields.deep_view().len() == fields.len(),
            forall|j: int| 0 <= j < fields.len() ==> fields.deep_view()[j] == fields[j].deep_view(),
            r.deep_view() == spec_resolve_fields(
                fields.deep_view().take(i as int),
                *enc_policy,
                *dec_policy,
            ),
        decreases fields.len() - i,
    {
        proof {
            let pre = fields.deep_view().take(i as int + 1);
            assert(pre.drop_last() =~= fields.deep_view().take(i as int));
            assert(pre.last() == fields.deep_view()[i as int]);
        }
        if !fields[i].attributes.skip {
            let rf = resolve_field(&fields[i], enc_policy, dec_policy);
            r.push(rf);
        }
        i = i + 1;
    }
    proof {
        assert(fields.deep_view().take(fields.len() as int) =~= fields.deep_view());
    }
    r
}

// ========
// variants
// ========

/// The encode-name policy for the fields of one variant: the variant's own
/// `rename_all`, else the container's `rename_all_fields`, directional
/// before plain at each level.
pub open spec fn variant_field_enc_policy(
    v: EnumVariantView,
    ca: ContainerAttributesView,
) -> Option<RenameAll> {
    first_policy4(
        v.attributes.rename_all_serialize,
        v.attributes.rename_all,
        ca.rename_all_fields_serialize,
        ca.rename_all_fields,
    )
}

/// The decode-name policy for the fields of one variant.
pub open spec fn variant_field_dec_policy(
    v: EnumVariantView,
    ca: ContainerAttributesView,
) -> Option<RenameAll> {
    first_policy4(
        v.attributes.rename_all_deserialize,
        v.attributes.rename_all,
        ca.rename_all_fields_deserialize,
        ca.rename_all_fields,
    )
}

/// One resolved variant: names from the container's `rename_all`, fields
/// resolved under the variant's field policies.
pub open spec fn spec_resolve_variant(
    v: EnumVariantView,
    ca: ContainerAttributesView,
) -> ResolvedVariantView {
    ResolvedVariantView {
        name_elm: casing::pascal_of(v.ident),
        name_encode: resolved_name(
            v.ident,
            v.attributes.rename_serialize,
            v.attributes.rename,
            first_policy2(ca.rename_all_serialize, ca.rename_all),
        ),
        name_decode: resolved_name(
            v.ident,
            v.attributes.rename_deserialize,
            v.attributes.rename,
            first_policy2(ca.rename_all_deserialize, ca.rename_all),
        ),
        kind: match v.kind {
            crate::ir::VariantKindView::Unit => ResolvedVariantKindView::Unit,
            crate::ir::VariantKindView::Newtype(ty) => ResolvedVariantKindView::Newtype(ty),
            crate::ir::VariantKindView::Tuple(tys) => ResolvedVariantKindView::Tuple(tys),
            crate::ir::VariantKindView::Struct(fields) => ResolvedVariantKindView::Struct(
                spec_resolve_fields(
                    fields,
                    variant_field_enc_policy(v, ca),
                    variant_field_dec_policy(v, ca),
                ),
            ),
        },
        other: v.attributes.other,
    }
}

/// The variants with skipped ones removed and names resolved, in order.
pub open spec fn spec_resolve_variants(
    variants: Seq<EnumVariantView>,
    ca: ContainerAttributesView,
) -> Seq<ResolvedVariantView>
    decreases variants.len(),
{
    if variants.len() == 0 {
        Seq::<ResolvedVariantView>::empty()
    } else {
        let rest = spec_resolve_variants(variants.drop_last(), ca);
        if variants.last().attributes.skip {
            rest
        } else {
            rest.push(spec_resolve_variant(variants.last(), ca))
        }
    }
}

fn resolve_variant(v: &EnumVariant, ca: &ContainerAttributes) -> (r: ResolvedVariant)
    ensures
        r@ == spec_resolve_variant(v@, ca@),
{
    let name_elm = casing::pascal_case(v.ident.as_str());
    let name_encode = exec_resolved_name(
        v.ident.as_str(),
        &v.attributes.rename_serialize,
        &v.attributes.rename,
        &exec_first_policy2(&ca.rename_all_serialize, &ca.rename_all),
    );
    let name_decode = exec_resolved_name(
        v.ident.as_str(),
        &v.attributes.rename_deserialize,
        &v.attributes.rename,
        &exec_first_policy2(&ca.rename_all_deserialize, &ca.rename_all),
    );
    let kind = match &v.kind {
        EnumVariantKind::Unit => ResolvedVariantKind::Unit,
        EnumVariantKind::Newtype(ty) => ResolvedVariantKind::Newtype(ty.clone()),
        EnumVariantKind::Tuple(tys) => ResolvedVariantKind::Tuple(clone_type_refs(tys)),
        EnumVariantKind::Struct(fields) => {
            let enc_policy = exec_first_policy2(
                &v.attributes.rename_all_serialize,
                &exec_first_policy2(
                    &v.attributes.rename_all,
                    &exec_first_policy2(&ca.rename_all_fields_serialize, &ca.rename_all_fields),
                ),
            );
            let dec_policy = exec_first_policy2(
                &v.attributes.rename_all_deserialize,
                &exec_first_policy2(
                    &v.attributes.rename_all,
                    &exec_first_policy2(&ca.rename_all_fields_deserialize, &ca.rename_all_fields),
                ),
            );
            ResolvedVariantKind::Struct(resolve_fields(fields, &enc_policy, &dec_policy))
        },
    };
    ResolvedVariant { name_elm, name_encode, name_decode, kind, other: v.attributes.other }
}

fn resolve_variants(variants: &Vec<EnumVariant>, ca: &ContainerAttributes) -> (r: Vec<
    ResolvedVariant,
>)
    ensures
        r.deep_view() == spec_resolve_variants(variants.deep_view(), ca@),
{
    let mut r: Vec<ResolvedVariant> = Vec::new();
    let mut i: usize = 0;
    proof {
        assert(variants.deep_view().take(0) =~= Seq::<EnumVariantView>::empty());
        assert(r.deep_view() =~= spec_resolve_variants(variants.deep_view().take(0), ca@));
    }
    while i < variants.len()
        invariant
            i <= variants.len(),
            variants.deep_view().len() == variants.len(),
            forall|j: int|
                0 <= j < variants.len() ==> variants.deep_view()[j] == variants[j].deep_view(),
            r.deep_view() == spec_resolve_variants(variants.deep_view().take(i as int), ca@),
        decreases variants.len() - i,
    {
        proof {
            let pre = variants.deep_view().take(i as int + 1);
            assert(pre.drop_last() =~= variants.deep_view().take(i as int));
            assert(pre.last() == variants.deep_view()[i as int]);
        }
        if !variants[i].attributes.skip {
            let rv = resolve_variant(&variants[i], ca);
            r.push(rv);
        }
        i = i + 1;
    }
    proof {
        assert(variants.deep_view().take(variants.len() as int) =~= variants.deep_view());
    }
    r
}

// ==================
// shape and rejection
// ==================

/// The rejection raised by the first variant, in declaration order, whose
/// payload internal tagging cannot carry, skipped variants not considered.
pub open spec fn spec_internal_check(variants: Seq<EnumVariantView>) -> Option<GenError>
    decreases variants.len(),
{
    if variants.len() == 0 {
        None
    } else {
        let v = variants.first();
        if !v.attributes.skip && v.kind is Newtype {
            Some(GenError::InternalNewtype)
        } else if !v.attributes.skip && v.kind is Tuple {
            Some(GenError::InternalTuple)
        } else {
            spec_internal_check(variants.drop_first())
        }
    }
}

fn internal_check(variants: &Vec<EnumVariant>) -> (r: Option<GenError>)
    ensures
        r == spec_internal_check(variants.deep_view()),
{
    let mut i: usize = 0;
    proof {
        assert(variants.deep_view().skip(0) =~= variants.deep_view());
    }
    while i < variants.len()
        invariant
            i <= variants.len(),
            variants.deep_view().len() == variants.len(),
            forall|j: int|
                0 <= j < variants.len() ==> variants.deep_view()[j] == variants[j].deep_view(),
            spec_internal_check(variants.deep_view()) == spec_internal_check(
                variants.deep_view().skip(i as int),
            ),
        decreases variants.len() - i,
    {
        proof {
            let suf = variants.deep_view().skip(i as int);
            assert(suf.first() == variants.deep_view()[i as int]);
            assert(suf.drop_first() =~= variants.deep_view().skip(i as int + 1));
        }
        if !variants[i].attributes.skip {
            match &variants[i].kind {
                EnumVariantKind::Newtype(_) => {
                    return Some(GenError::InternalNewtype);
                },
                EnumVariantKind::Tuple(_) => {
                    return Some(GenError::InternalTuple);
                },
                _ => {},
            }
        }
        i = i + 1;
    }
    proof {
        assert(variants.deep_view().skip(variants.len() as int) =~= Seq::<
            EnumVariantView,
        >::empty());
    }
    None
}

/// The resolved shape of one type, or the rejection that stops generation:
/// an empty sum, or internal tagging over a newtype or tuple variant.
/// A one-field record of a transparent container resolves as a newtype of
/// that field's element type.
pub open spec fn spec_resolve_shape(ti: TypeInfoView, ca: ContainerAttributesView) -> Result<
    ResolvedShapeView,
    GenError,
> {
    match ti {
        TypeInfoView::Unit => Ok(ResolvedShapeView::Unit),
        TypeInfoView::Newtype(ty) => Ok(ResolvedShapeView::Newtype(ty)),
        TypeInfoView::Tuple(tys) => Ok(ResolvedShapeView::Tuple(tys)),
        TypeInfoView::Struct(fields) => {
            if ca.transparent && fields.len() == 1 {
                Ok(ResolvedShapeView::Newtype(fields[0].ty))
            } else {
                Ok(
                    ResolvedShapeView::Record(
                        spec_resolve_fields(
                            fields,
                            first_policy2(ca.rename_all_serialize, ca.rename_all),
                            first_policy2(ca.rename_all_deserialize, ca.rename_all),
                        ),
                    ),
                )
            }
        },
        TypeInfoView::Enum(variants) => {
            if variants.len() == 0 {
                Err(GenError::EmptyEnum)
            } else {
                let internal = ca.enum_representation is Internal;
                match (if internal {
                    spec_internal_check(variants)
                } else {
                    None
                }) {
                    Some(e) => Err(e),
                    None => Ok(
                        ResolvedShapeView::Sum {
                            representation: ca.enum_representation,
                            variants: spec_resolve_variants(variants, ca),
                        },
                    ),
                }
            }
        },
    }
}

/// Resolves the shape of one type.
pub fn resolve_shape(ti: &TypeInfo, ca: &ContainerAttributes) -> (r: Result<
    ResolvedShape,
    GenError,
>)
    ensures
        match r {
            Ok(shape) => spec_resolve_shape(ti@, ca@) == Ok::<ResolvedShapeView, GenError>(shape@),
            Err(e) => spec_resolve_shape(ti@, ca@) == Err::<ResolvedShapeView, GenError>(e),
        },
{
    match ti {
        TypeInfo::Unit => Ok(ResolvedShape::Unit),
        TypeInfo::Newtype(ty) => Ok(ResolvedShape::Newtype(ty.clone())),
        TypeInfo::Tuple(tys) => Ok(ResolvedShape::Tuple(clone_type_refs(tys))),
        TypeInfo::Struct(fields) => {
            if ca.transparent && fields.len() == 1 {
                Ok(ResolvedShape::Newtype(fields[0].ty.clone()))
            } else {
                let enc_policy = exec_first_policy2(&ca.rename_all_serialize, &ca.rename_all);
                let dec_policy = exec_first_policy2(&ca.rename_all_deserialize, &ca.rename_all);
                Ok(ResolvedShape::Record(resolve_fields(fields, &enc_policy, &dec_policy)))
            }
        },
        TypeInfo::Enum(variants) => {
            if variants.len() == 0 {
                Err(GenError::EmptyEnum)
            } else {
                let internal = match &ca.enum_representation {
                    EnumRepresentation::Internal { .. } => true,
                    _ => false,
                };
                if internal {
                    match internal_check(variants) {
                        Some(e) => {
                            return Err(e);
                        },
                        None => {},
                    }
                }
                Ok(
                    ResolvedShape::Sum {
                        representation: ca.enum_representation.clone(),
                        variants: resolve_variants(variants, ca),
                    },
                )
            }
        },
    }
}

/// The name of the generated decoder for an Elm type name.
pub open spec fn decoder_name_of(elm_type: Seq<char>) -> Seq<char> {
    casing::lower_camel_of(elm_type) + "Decoder"@
}

/// The name of the generated encoder for an Elm type name.
pub open spec fn encoder_name_of(elm_type: Seq<char>) -> Seq<char> {
    casing::lower_camel_of(elm_type) + "Encoder"@
}

/// The full resolution of one type named `ident`, ready for the generators.
pub open spec fn spec_resolve(
    ident: Seq<char>,
    ti: TypeInfoView,
    ca: ContainerAttributesView,
) -> Result<ResolvedView, GenError> {
    match spec_resolve_shape(ti, ca) {
        Ok(shape) => Ok(
            ResolvedView {
                elm_type: casing::pascal_of(ident),
                decoder_name: decoder_name_of(casing::pascal_of(ident)),
                encoder_name: encoder_name_of(casing::pascal_of(ident)),
                shape,
            },
        ),
        Err(e) => Err(e),
    }
}

/// Resolves one type: computes its Elm type name (the identifier in
/// `UpperCamelCase`), the names of its decoder and encoder functions, and
/// its resolved shape.
pub fn resolve(ident: &str, ti: &TypeInfo, ca: &ContainerAttributes) -> (r: Result<
    Resolved,
    GenError,
>)
    ensures
        match r {
            Ok(res) => spec_resolve(ident@, ti@, ca@) == Ok::<ResolvedView, GenError>(res@),
            Err(e) => spec_resolve(ident@, ti@, ca@) == Err::<ResolvedView, GenError>(e),
        },
{
    match resolve_shape(ti, ca) {
        Ok(shape) => {
            let elm_type = casing::pascal_case(ident);
            let mut decoder_name = casing::lower_camel_case(elm_type.as_str());
            decoder_name.append("Decoder");
            let mut encoder_name = casing::lower_camel_case(elm_type.as_str());
            encoder_name.append("Encoder");
            Ok(Resolved { elm_type, decoder_name, encoder_name, shape })
        },
        Err(e) => Err(e),
    }
}

} // verus!
