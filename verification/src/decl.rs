//! The type-declaration generator: emits the Elm `type` or `type alias`
//! declaration for a resolved shape. The declaration names fields and
//! variants by their Elm-side names alone; the wire representation of a sum
//! never changes the declared value shape.

use crate::resolve::Resolved;
use crate::resolve::ResolvedFieldView;
use crate::resolve::ResolvedShape;
use crate::resolve::ResolvedVariant;
use crate::resolve::ResolvedVariantKind;
use crate::resolve::ResolvedVariantKindView;
use crate::resolve::ResolvedVariantView;
use crate::resolve::ResolvedView;
use crate::ir::TypeRef;
use crate::ir::TypeRefView;
use crate::text;
use crate::text::join_texts;
use vstd::prelude::*;

verus! {

/// Each element type wrapped in parentheses.
pub open spec fn paren_type_texts(tys: Seq<TypeRefView>) -> Seq<Seq<char>> {
    tys.map_values(|t: TypeRefView| "("@ + t.elm_type + ")"@)
}

fn exec_paren_type_texts(tys: &Vec<TypeRef>) -> (r: Vec<String>)
    ensures
        r.deep_view() == paren_type_texts(tys.deep_view()),
{
    let mut r: Vec<String> = Vec::new();
    let mut i: usize = 0;
    while i < tys.len()
        invariant
            i <= tys.len(),
            tys.deep_view().len() == tys.len(),
            forall|j: int| 0 <= j < tys.len() ==> tys.deep_view()[j] == tys[j].deep_view(),
            r.deep_view().len() == i,
            forall|j: int|
                0 <= j < i ==> r.deep_view()[j] == paren_type_texts(tys.deep_view())[j],
        decreases tys.len() - i,
    {
        let mut part = String::from_str("(");
        part.append(tys[i].elm_type.as_str());
        part.append(")");
        proof {
            assert(part@ =~= "("@ + tys.deep_view()[i as int].elm_type + ")"@);
        }
        let ghost prev = r.deep_view();
        r.push(part);
        proof {
            assert forall|j: int| 0 <= j < i + 1 implies r.deep_view()[j] == paren_type_texts(
                tys.deep_view(),
            )[j] by {
                if j < i {
                    assert(r.deep_view()[j] == prev[j]);
                } else {
                    assert(r.deep_view()[j] == part@);
                }
            }
        }
        i = i + 1;
    }
    proof {
        assert(r.deep_view() =~= paren_type_texts(tys.deep_view()));
    }
    r
}

/// One field of a record declaration: `name : Type`.
pub open spec fn decl_field_text(f: ResolvedFieldView) -> Seq<char> {
    f.name_elm + " : "@ + f.ty.elm_type
}

/// The declaration texts of the fields, in order.
pub open spec fn decl_field_texts(fields: Seq<ResolvedFieldView>) -> Seq<Seq<char>> {
    fields.map_values(|f: ResolvedFieldView| decl_field_text(f))
}

fn exec_decl_field_texts(fields: &Vec<crate::resolve::ResolvedField>) -> (r: Vec<String>)
    ensures
        r.deep_view() == decl_field_texts(fields.deep_view()),
{
    let mut r: Vec<String> = Vec::new();
    let mut i: usize = 0;
    while i < fields.len()
        invariant
            i <= fields.len(),
            fields.deep_view().len() == fields.len(),
            forall|j: int| 0 <= j < fields.len() ==> fields.deep_view()[j] == fields[j].deep_view(),
            r.deep_view().len() == i,
            forall|j: int|
                0 <= j < i ==> r.deep_view()[j] == decl_field_texts(fields.deep_view())[j],
        decreases fields.len() - i,
    {
        let mut part = fields[i].name_elm.clone();
        part.append(" : ");
        part.append(fields[i].ty.elm_type.as_str());
        proof {
            assert(part@ =~= decl_field_text(fields.deep_view()[i as int]));
        }
        let ghost prev = r.deep_view();
        r.push(part);
        proof {
            assert forall|j: int| 0 <= j < i + 1 implies r.deep_view()[j] == decl_field_texts(
                fields.deep_view(),
            )[j] by {
                if j < i {
                    assert(r.deep_view()[j] == prev[j]);
                } else {
                    assert(r.deep_view()[j] == part@);
                }
            }
        }
        i = i + 1;
    }
    proof {
        assert(r.deep_view() =~= decl_field_texts(fields.deep_view()));
    }
    r
}

/// One variant of a sum declaration.
pub open spec fn decl_variant_text(v: ResolvedVariantView) -> Seq<char> {
    match v.kind {
        ResolvedVariantKindView::Unit => v.name_elm,
        ResolvedVariantKindView::Newtype(ty) => v.name_elm + " ("@ + ty.elm_type + ")"@,
        ResolvedVariantKindView::Tuple(tys) => v.name_elm + " "@ + join_texts(
            paren_type_texts(tys),
            " "@,
        ),
        ResolvedVariantKindView::Struct(fields) => v.name_elm + " { "@ + join_texts(
            decl_field_texts(fields),
            ", "@,
        ) + " }"@,
    }
}

/// The declaration texts of the variants, in order.
pub open spec fn decl_variant_texts(variants: Seq<ResolvedVariantView>) -> Seq<Seq<char>> {
    variants.map_values(|v: ResolvedVariantView| decl_variant_text(v))
}

fn exec_decl_variant_text(v: &ResolvedVariant) -> (r: String)
    ensures
        r@ == decl_variant_text(v@),
{
    let mut r = v.name_elm.clone();
    match &v.kind {
        ResolvedVariantKind::Unit => {},
        ResolvedVariantKind::Newtype(ty) => {
            r.append(" (");
            r.append(ty.elm_type.as_str());
            r.append(")");
        },
        ResolvedVariantKind::Tuple(tys) => {
            r.append(" ");
            let parts = exec_paren_type_texts(tys);
            let joined = text::join(&parts, " ");
            r.append(joined.as_str());
        },
        ResolvedVariantKind::Struct(fields) => {
            r.append(" { ");
            let parts = exec_decl_field_texts(fields);
            let joined = text::join(&parts, ", ");
            r.append(joined.as_str());
            r.append(" }");
        },
    }
    r
}

fn exec_decl_variant_texts(variants: &Vec<ResolvedVariant>) -> (r: Vec<String>)
    ensures
        r.deep_view() == decl_variant_texts(variants.deep_view()),
{
    let mut r: Vec<String> = Vec::new();
    let mut i: usize = 0;
    while i < variants.len()
        invariant
            i <= variants.len(),
            variants.deep_view().len() == variants.len(),
            forall|j: int|
                0 <= j < variants.len() ==> variants.deep_view()[j] == variants[j].deep_view(),
            r.deep_view().len() == i,
            forall|j: int|
                0 <= j < i ==> r.deep_view()[j] == decl_variant_texts(variants.deep_view())[j],
        decreases variants.len() - i,
    {
        let part = exec_decl_variant_text(&variants[i]);
        let ghost prev = r.deep_view();
        r.push(part);
        proof {
            assert forall|j: int| 0 <= j < i + 1 implies r.deep_view()[j] == decl_variant_texts(
                variants.deep_view(),
            )[j] by {
                if j < i {
                    assert(r.deep_view()[j] == prev[j]);
                } else {
                    assert(r.deep_view()[j] == part@);
                }
            }
        }
        i = i + 1;
    }
    proof {
        assert(r.deep_view() =~= decl_variant_texts(variants.deep_view()));
    }
    r
}

/// The complete Elm declaration of one resolved type.
pub open spec fn declaration_text(r: ResolvedView) -> Seq<char> {
    match r.shape {
        crate::resolve::ResolvedShapeView::Unit => "type "@ + r.elm_type + "\n    = "@ + r.elm_type
            + "\n"@,
        crate::resolve::ResolvedShapeView::Newtype(ty) => "type "@ + r.elm_type + "\n    = "@
            + r.elm_type + " ("@ + ty.elm_type + ")\n"@,
        crate::resolve::ResolvedShapeView::Tuple(tys) => "type "@ + r.elm_type + "\n    = "@
            + r.elm_type + " "@ + join_texts(paren_type_texts(tys), " "@) + "\n"@,
        crate::resolve::ResolvedShapeView::Record(fields) => "type alias "@ + r.elm_type + " =\n    { "@
            + join_texts(decl_field_texts(fields), "\n    , "@) + "\n    }\n"@,
        crate::resolve::ResolvedShapeView::Sum { representation, variants } => "type "@ + r.elm_type
            + "\n    = "@ + join_texts(decl_variant_texts(variants), "\n    | "@) + "\n"@,
    }
}

/// Emits the Elm type declaration for a resolved type.
pub fn type_declaration(r: &Resolved) -> (d: String)
    ensures
        d@ == declaration_text(r@),
{
    let mut d = String::from_str("type ");
    match &r.shape {
        ResolvedShape::Unit => {
            d.append(r.elm_type.as_str());
            d.append("\n    = ");
            d.append(r.elm_type.as_str());
            d.append("\n");
        },
        ResolvedShape::Newtype(ty) => {
            d.append(r.elm_type.as_str());
            d.append("\n    = ");
            d.append(r.elm_type.as_str());
            d.append(" (");
            d.append(ty.elm_type.as_str());
            d.append(")\n");
        },
        ResolvedShape::Tuple(tys) => {
            d.append(r.elm_type.as_str());
            d.append("\n    = ");
            d.append(r.elm_type.as_str());
            d.append(" ");
            let parts = exec_paren_type_texts(tys);
            let joined = text::join(&parts, " ");
            d.append(joined.as_str());
            d.append("\n");
        },
        ResolvedShape::Record(fields) => {
            d = String::from_str("type alias ");
            d.append(r.elm_type.as_str());
            d.append(" =\n    { ");
            let parts = exec_decl_field_texts(fields);
            let joined = text::join(&parts, "\n    , ");
            d.append(joined.as_str());
            d.append("\n    }\n");
        },
        ResolvedShape::Sum { representation: _, variants } => {
            d.append(r.elm_type.as_str());
            d.append("\n    = ");
            let parts = exec_decl_variant_texts(variants);
            let joined = text::join(&parts, "\n    | ");
            d.append(joined.as_str());
            d.append("\n");
        },
    }
    proof {
        assert(d@ =~= declaration_text(r@));
    }
    d
}

} // verus!
