//! The decoder generator: emits the Elm `Json.Decode` function for a
//! resolved shape, matching the active tagging convention. Struct-shaped
//! variants decode through a local constructor helper defined ahead of the
//! decoder body, so that variants sharing field names cannot collide.

use crate::resolve::Resolved;
use crate::resolve::ResolvedField;
use crate::resolve::ResolvedFieldView;
use crate::resolve::ResolvedShape;
use crate::resolve::ResolvedShapeView;
use crate::resolve::ResolvedVariant;
use crate::resolve::ResolvedVariantKind;
use crate::resolve::ResolvedVariantKindView;
use crate::resolve::ResolvedVariantView;
use crate::resolve::ResolvedView;
use crate::ir::ReprView;
use crate::ir::EnumRepresentation;
use crate::ir::TypeRef;
use crate::ir::TypeRefView;
use crate::text;
use crate::text::decimal_digits;
use crate::text::join_texts;
use vstd::prelude::*;

verus! {

// ================
// shared fragments
// ================

/// One positional slot: decode the value at `index` and feed it onward.
pub open spec fn index_part_text(index: nat, dec: Seq<char>) -> Seq<char> {
    "|> Json.Decode.andThen (\\x -> Json.Decode.index "@ + decimal_digits(index) + " ("@ + dec
        + ") |> Json.Decode.map x)"@
}

/// The positional slots of a tuple, in order.
pub open spec fn index_part_texts(tys: Seq<TypeRefView>) -> Seq<Seq<char>> {
    Seq::new(tys.len(), |i: int| index_part_text(i as nat, tys[i].decoder))
}

fn exec_index_part_texts(tys: &Vec<TypeRef>) -> (r: Vec<String>)
    ensures
        r.deep_view() == index_part_texts(tys.deep_view()),
{
    let mut r: Vec<String> = Vec::new();
    let mut i: usize = 0;
    while i < tys.len()
        invariant
            i <= tys.len(),
            tys.deep_view().len() == tys.len(),
            forall|j: int| 0 <= j < tys.len() ==> tys.deep_view()[j] == tys[j].deep_view(),
            r.deep_view().len() == i,
            forall|j: int|
                0 <= j < i ==> r.deep_view()[j] == index_part_texts(tys.deep_view())[j],
        decreases tys.len() - i,
    {
        let mut part = String::from_str("|> Json.Decode.andThen (\\x -> Json.Decode.index ");
        let num = text::decimal(i);
        part.append(num.as_str());
        part.append(" (");
        part.append(tys[i].decoder.as_str());
        part.append(") |> Json.Decode.map x)");
        proof {
            assert(part@ =~= index_part_text(i as nat, tys.deep_view()[i as int].decoder));
        }
        let ghost prev = r.deep_view();
        r.push(part);
        proof {
            assert forall|j: int| 0 <= j < i + 1 implies r.deep_view()[j] == index_part_texts(
                tys.deep_view(),
            )[j] by {
                if j < i {
                    assert(r.deep_view()[j] == prev[j]);
                } else {
                    assert(r.deep_view()[j] == part@);
                }
            }
        }
        i = i + 1;
    }
    proof {
        assert(r.deep_view() =~= index_part_texts(tys.deep_view()));
    }
    r
}

/// One record field: decode the value at its decode-name key and feed it
/// onward.
pub open spec fn field_part_text(name_decode: Seq<char>, dec: Seq<char>) -> Seq<char> {
    "|> Json.Decode.andThen (\\x -> Json.Decode.map x (Json.Decode.field \""@ + name_decode
        + "\" ("@ + dec + ")))"@
}

/// The field decoders of a record, in order.
pub open spec fn field_part_texts(fields: Seq<ResolvedFieldView>) -> Seq<Seq<char>> {
    fields.map_values(|f: ResolvedFieldView| field_part_text(f.name_decode, f.ty.decoder))
}

fn exec_field_part_texts(fields: &Vec<ResolvedField>) -> (r: Vec<String>)
    ensures
        r.deep_view() == field_part_texts(fields.deep_view()),
{
    let mut r: Vec<String> = Vec::new();
    let mut i: usize = 0;
    while i < fields.len()
        invariant
            i <= fields.len(),
            fields.deep_view().len() == fields.len(),
            forall|j: int| 0 <= j < fields.len() ==> fields.deep_view()[j] == fields[j].deep_view(),
            r.deep_view().len() == i,
            forall|j: int|
                0 <= j < i ==> r.deep_view()[j] == field_part_texts(fields.deep_view())[j],
        decreases fields.len() - i,
    {
        let mut part = String::from_str(
            "|> Json.Decode.andThen (\\x -> Json.Decode.map x (Json.Decode.field \"",
        );
        part.append(fields[i].name_decode.as_str());
        part.append("\" (");
        part.append(fields[i].ty.decoder.as_str());
        part.append(")))");
        proof {
            assert(part@ =~= field_part_text(
                fields.deep_view()[i as int].name_decode,
                fields.deep_view()[i as int].ty.decoder,
            ));
        }
        let ghost prev = r.deep_view();
        r.push(part);
        proof {
            assert forall|j: int| 0 <= j < i + 1 implies r.deep_view()[j] == field_part_texts(
                fields.deep_view(),
            )[j] by {
                if j < i {
                    assert(r.deep_view()[j] == prev[j]);
                } else {
                    assert(r.deep_view()[j] == part@);
                }
            }
        }
        i = i + 1;
    }
    proof {
        assert(r.deep_view() =~= field_part_texts(fields.deep_view()));
    }
    r
}

// ===================
// constructor helpers
// ===================

/// The Elm-side names of the fields, in order.
pub open spec fn field_name_texts(fields: Seq<ResolvedFieldView>) -> Seq<Seq<char>> {
    fields.map_values(|f: ResolvedFieldView| f.name_elm)
}

pub(crate) fn exec_field_name_texts(fields: &Vec<ResolvedField>) -> (r: Vec<String>)
    ensures
        r.deep_view() == field_name_texts(fields.deep_view()),
{
    let mut r: Vec<String> = Vec::new();
    let mut i: usize = 0;
    while i < fields.len()
        invariant
            i <= fields.len(),
            fields.deep_view().len() == fields.len(),
            forall|j: int| 0 <= j < fields.len() ==> fields.deep_view()[j] == fields[j].deep_view(),
            r.deep_view().len() == i,
            forall|j: int|
                0 <= j < i ==> r.deep_view()[j] == field_name_texts(fields.deep_view())[j],
        decreases fields.len() - i,
    {
        let part = fields[i].name_elm.clone();
        let ghost prev = r.deep_view();
        r.push(part);
        proof {
            assert forall|j: int| 0 <= j < i + 1 implies r.deep_view()[j] == field_name_texts(
                fields.deep_view(),
            )[j] by {
                if j < i {
                    assert(r.deep_view()[j] == prev[j]);
                } else {
                    assert(r.deep_view()[j] == part@);
                }
            }
        }
        i = i + 1;
    }
    proof {
        assert(r.deep_view() =~= field_name_texts(fields.deep_view()));
    }
    r
}

/// The record setters of the constructor helper: `name = name` per field.
pub open spec fn setter_texts(fields: Seq<ResolvedFieldView>) -> Seq<Seq<char>> {
    fields.map_values(|f: ResolvedFieldView| f.name_elm + " = "@ + f.name_elm)
}

fn exec_setter_texts(fields: &Vec<ResolvedField>) -> (r: Vec<String>)
    ensures
        r.deep_view() == setter_texts(fields.deep_view()),
{
    let mut r: Vec<String> = Vec::new();
    let mut i: usize = 0;
    while i < fields.len()
        invariant
            i <= fields.len(),
            fields.deep_view().len() == fields.len(),
            forall|j: int| 0 <= j < fields.len() ==> fields.deep_view()[j] == fields[j].deep_view(),
            r.deep_view().len() == i,
            forall|j: int|
                0 <= j < i ==> r.deep_view()[j] == setter_texts(fields.deep_view())[j],
        decreases fields.len() - i,
    {
        let mut part = fields[i].name_elm.clone();
        part.append(" = ");
        part.append(fields[i].name_elm.as_str());
        proof {
            assert(part@ =~= fields.deep_view()[i as int].name_elm + " = "@
                + fields.deep_view()[i as int].name_elm);
        }
        let ghost prev = r.deep_view();
        r.push(part);
        proof {
            assert forall|j: int| 0 <= j < i + 1 implies r.deep_view()[j] == setter_texts(
                fields.deep_view(),
            )[j] by {
                if j < i {
                    assert(r.deep_view()[j] == prev[j]);
                } else {
                    assert(r.deep_view()[j] == part@);
                }
            }
        }
        i = i + 1;
    }
    proof {
        assert(r.deep_view() =~= setter_texts(fields.deep_view()));
    }
    r
}

/// The local constructor helper for one struct-shaped variant.
pub open spec fn constructor_text(name_elm: Seq<char>, fields: Seq<ResolvedFieldView>) -> Seq<
    char,
> {
    "elmRsConstruct"@ + name_elm + " "@ + join_texts(field_name_texts(fields), " "@) + " =\n                        "@
        + name_elm + " { "@ + join_texts(setter_texts(fields), ", "@) + " }"@
}

fn exec_constructor_text(name_elm: &String, fields: &Vec<ResolvedField>) -> (r: String)
    ensures
        r@ == constructor_text(name_elm@, fields.deep_view()),
{
    let mut r = String::from_str("elmRsConstruct");
    r.append(name_elm.as_str());
    r.append(" ");
    let names = exec_field_name_texts(fields);
    let joined_names = text::join(&names, " ");
    r.append(joined_names.as_str());
    r.append(" =\n                        ");
    r.append(name_elm.as_str());
    r.append(" { ");
    let setters = exec_setter_texts(fields);
    let joined_setters = text::join(&setters, ", ");
    r.append(joined_setters.as_str());
    r.append(" }");
    proof {
        assert(r@ =~= constructor_text(name_elm@, fields.deep_view()));
    }
    r
}

/// The constructor helpers needed by the variants: one per struct-shaped
/// variant, in order.
pub open spec fn constructor_texts(variants: Seq<ResolvedVariantView>) -> Seq<Seq<char>>
    decreases variants.len(),
{
    if variants.len() == 0 {
        Seq::<Seq<char>>::empty()
    } else {
        let rest = constructor_texts(variants.drop_last());
        match variants.last().kind {
            ResolvedVariantKindView::Struct(fields) => rest.push(
                constructor_text(variants.last().name_elm, fields),
            ),
            _ => rest,
        }
    }
}

fn exec_constructor_texts(variants: &Vec<ResolvedVariant>) -> (r: Vec<String>)
    ensures
        r.deep_view() == constructor_texts(variants.deep_view()),
{
    let mut r: Vec<String> = Vec::new();
    let mut i: usize = 0;
    proof {
        assert(variants.deep_view().take(0) =~= Seq::<ResolvedVariantView>::empty());
        assert(r.deep_view() =~= constructor_texts(variants.deep_view().take(0)));
    }
    while i < variants.len()
        invariant
            i <= variants.len(),
            variants.deep_view().len() == variants.len(),
            forall|j: int|
                0 <= j < variants.len() ==> variants.deep_view()[j] == variants[j].deep_view(),
            r.deep_view() == constructor_texts(variants.deep_view().take(i as int)),
        decreases variants.len() - i,
    {
        proof {
            let pre = variants.deep_view().take(i as int + 1);
            assert(pre.drop_last() =~= variants.deep_view().take(i as int));
            assert(pre.last() == variants.deep_view()[i as int]);
        }
        match &variants[i].kind {
            ResolvedVariantKind::Struct(fields) => {
                let ctor = exec_constructor_text(&variants[i].name_elm, fields);
                let ghost prev = r.deep_view();
                r.push(ctor);
                proof {
                    assert(r.deep_view() =~= prev.push(ctor@));
                }
            },
            _ => {},
        }
        i = i + 1;
    }
    proof {
        assert(variants.deep_view().take(variants.len() as int) =~= variants.deep_view());
    }
    r
}

/// The `let ... in` block holding the constructor helpers; empty when no
/// variant needs one.
pub open spec fn constructors_block_text(variants: Seq<ResolvedVariantView>) -> Seq<char> {
    if constructor_texts(variants).len() == 0 {
        ""@
    } else {
        "\n        let\n            "@ + join_texts(constructor_texts(variants), "\n            "@)
            + "\n        in"@
    }
}

fn exec_constructors_block_text(variants: &Vec<ResolvedVariant>) -> (r: String)
    ensures
        r@ == constructors_block_text(variants.deep_view()),
{
    let ctors = exec_constructor_texts(variants);
    if ctors.len() == 0 {
        let r = String::from_str("");
        proof {
            assert(r@ =~= constructors_block_text(variants.deep_view()));
        }
        r
    } else {
        let mut r = String::from_str("\n        let\n            ");
        let joined = text::join(&ctors, "\n            ");
        r.append(joined.as_str());
        r.append("\n        in");
        proof {
            assert(r@ =~= constructors_block_text(variants.deep_view()));
        }
        r
    }
}

/// The decode-name of the catch-all variant, if one variant is marked
/// `other`; with several so marked, the last wins.
pub open spec fn other_name_text(variants: Seq<ResolvedVariantView>) -> Option<Seq<char>>
    decreases variants.len(),
{
    if variants.len() == 0 {
        None
    } else if variants.last().other {
        Some(variants.last().name_decode)
    } else {
        other_name_text(variants.drop_last())
    }
}

fn exec_other_name_text(variants: &Vec<ResolvedVariant>) -> (r: Option<String>)
    ensures
        match r {
            Some(name) => other_name_text(variants.deep_view()) == Some(name@),
            None => other_name_text(variants.deep_view()) is None,
        },
{
    let mut r: Option<String> = None;
    let mut i: usize = 0;
    proof {
        assert(variants.deep_view().take(0) =~= Seq::<ResolvedVariantView>::empty());
    }
    while i < variants.len()
        invariant
            i <= variants.len(),
            variants.deep_view().len() == variants.len(),
            forall|j: int|
                0 <= j < variants.len() ==> variants.deep_view()[j] == variants[j].deep_view(),
            match r {
                Some(name) => other_name_text(variants.deep_view().take(i as int)) == Some(name@),
                None => other_name_text(variants.deep_view().take(i as int)) is None,
            },
        decreases variants.len() - i,
    {
        proof {
            let pre = variants.deep_view().take(i as int + 1);
            assert(pre.drop_last() =~= variants.deep_view().take(i as int));
            assert(pre.last() == variants.deep_view()[i as int]);
        }
        if variants[i].other {
            r = Some(variants[i].name_decode.clone());
        }
        i = i + 1;
    }
    proof {
        assert(variants.deep_view().take(variants.len() as int) =~= variants.deep_view());
    }
    r
}

// =============================
// per-variant decoder fragments
// =============================

/// One variant decoder under the external representation.
pub open spec fn external_variant_text(v: ResolvedVariantView) -> Seq<char> {
    match v.kind {
        ResolvedVariantKindView::Unit => "Json.Decode.string\n            |> Json.Decode.andThen\n                (\\x ->\n                    case x of\n                        \""@
            + v.name_decode
            + "\" ->\n                            Json.Decode.succeed "@
            + v.name_elm
            + "\n                        unexpected ->\n                            Json.Decode.fail <| \"Unexpected variant \" ++ unexpected\n                )"@,
        ResolvedVariantKindView::Newtype(ty) => "    Json.Decode.map "@ + v.name_elm
            + " (Json.Decode.field \""@ + v.name_decode + "\" ("@ + ty.decoder + "))"@,
        ResolvedVariantKindView::Tuple(tys) => "    Json.Decode.field \""@ + v.name_decode
            + "\" (Json.Decode.succeed "@ + v.name_elm + " "@ + join_texts(
            index_part_texts(tys),
            " "@,
        ) + ")"@,
        ResolvedVariantKindView::Struct(fields) => "    Json.Decode.field \""@ + v.name_decode
            + "\" (Json.Decode.succeed elmRsConstruct"@ + v.name_elm + " "@ + join_texts(
            field_part_texts(fields),
            " "@,
        ) + ")"@,
    }
}

fn exec_external_variant_text(v: &ResolvedVariant) -> (r: String)
    ensures
        r@ == external_variant_text(v@),
{
    let mut r: String;
    match &v.kind {
        ResolvedVariantKind::Unit => {
            r = String::from_str(
                "Json.Decode.string\n            |> Json.Decode.andThen\n                (\\x ->\n                    case x of\n                        \"",
            );
            r.append(v.name_decode.as_str());
            r.append("\" ->\n                            Json.Decode.succeed ");
            r.append(v.name_elm.as_str());
            r.append(
                "\n                        unexpected ->\n                            Json.Decode.fail <| \"Unexpected variant \" ++ unexpected\n                )",
            );
        },
        ResolvedVariantKind::Newtype(ty) => {
            r = String::from_str("    Json.Decode.map ");
            r.append(v.name_elm.as_str());
            r.append(" (Json.Decode.field \"");
            r.append(v.name_decode.as_str());
            r.append("\" (");
            r.append(ty.decoder.as_str());
            r.append("))");
        },
        ResolvedVariantKind::Tuple(tys) => {
            r = String::from_str("    Json.Decode.field \"");
            r.append(v.name_decode.as_str());
            r.append("\" (Json.Decode.succeed ");
            r.append(v.name_elm.as_str());
            r.append(" ");
            let parts = exec_index_part_texts(tys);
            let joined = text::join(&parts, " ");
            r.append(joined.as_str());
            r.append(")");
        },
        ResolvedVariantKind::Struct(fields) => {
            r = String::from_str("    Json.Decode.field \"");
            r.append(v.name_decode.as_str());
            r.append("\" (Json.Decode.succeed elmRsConstruct");
            r.append(v.name_elm.as_str());
            r.append(" ");
            let parts = exec_field_part_texts(fields);
            let joined = text::join(&parts, " ");
            r.append(joined.as_str());
            r.append(")");
        },
    }
    proof {
        assert(r@ =~= external_variant_text(v@));
    }
    r
}

/// One tagged branch under the internal representation. Unit variants
/// succeed outright; struct variants decode their fields from the same
/// outer object.
pub open spec fn internal_variant_text(v: ResolvedVariantView) -> Seq<char> {
    match v.kind {
        ResolvedVariantKindView::Struct(fields) => "                    \""@ + v.name_decode
            + "\" ->\n                        Json.Decode.succeed elmRsConstruct"@ + v.name_elm
            + " "@ + join_texts(field_part_texts(fields), " "@),
        _ => "\""@ + v.name_decode + "\" ->\n                        Json.Decode.succeed "@
            + v.name_elm,
    }
}

fn exec_internal_variant_text(v: &ResolvedVariant) -> (r: String)
    ensures
        r@ == internal_variant_text(v@),
{
    let mut r: String;
    match &v.kind {
        ResolvedVariantKind::Struct(fields) => {
            r = String::from_str("                    \"");
            r.append(v.name_decode.as_str());
            r.append("\" ->\n                        Json.Decode.succeed elmRsConstruct");
            r.append(v.name_elm.as_str());
            r.append(" ");
            let parts = exec_field_part_texts(fields);
            let joined = text::join(&parts, " ");
            r.append(joined.as_str());
        },
        _ => {
            r = String::from_str("\"");
            r.append(v.name_decode.as_str());
            r.append("\" ->\n                        Json.Decode.succeed ");
            r.append(v.name_elm.as_str());
        },
    }
    proof {
        assert(r@ =~= internal_variant_text(v@));
    }
    r
}

/// One tagged branch under the adjacent representation: the payload is
/// located under the content field.
pub open spec fn adjacent_variant_text(v: ResolvedVariantView, content: Seq<char>) -> Seq<char> {
    match v.kind {
        ResolvedVariantKindView::Unit => "\""@ + v.name_decode
            + "\" ->\n                        Json.Decode.succeed "@ + v.name_elm,
        ResolvedVariantKindView::Newtype(ty) => "\""@ + v.name_decode
            + "\" ->\n                        Json.Decode.map "@ + v.name_elm
            + " (Json.Decode.field \""@ + content + "\" ("@ + ty.decoder + "))"@,
        ResolvedVariantKindView::Tuple(tys) => "\""@ + v.name_decode
            + "\" ->\n                        Json.Decode.field \""@ + content
            + "\" (Json.Decode.succeed "@ + v.name_elm + " "@ + join_texts(
            index_part_texts(tys),
            " "@,
        ) + ")"@,
        ResolvedVariantKindView::Struct(fields) => "\""@ + v.name_decode
            + "\" ->\n                        Json.Decode.field \""@ + content
            + "\" (Json.Decode.succeed elmRsConstruct"@ + v.name_elm + " "@ + join_texts(
            field_part_texts(fields),
            "\n        "@,
        ) + ")"@,
    }
}

fn exec_adjacent_variant_text(v: &ResolvedVariant, content: &str) -> (r: String)
    ensures
        r@ == adjacent_variant_text(v@, content@),
{
    let mut r = String::from_str("\"");
    r.append(v.name_decode.as_str());
    match &v.kind {
        ResolvedVariantKind::Unit => {
            r.append("\" ->\n                        Json.Decode.succeed ");
            r.append(v.name_elm.as_str());
        },
        ResolvedVariantKind::Newtype(ty) => {
            r.append("\" ->\n                        Json.Decode.map ");
            r.append(v.name_elm.as_str());
            r.append(" (Json.Decode.field \"");
            r.append(content);
            r.append("\" (");
            r.append(ty.decoder.as_str());
            r.append("))");
        },
        ResolvedVariantKind::Tuple(tys) => {
            r.append("\" ->\n                        Json.Decode.field \"");
            r.append(content);
            r.append("\" (Json.Decode.succeed ");
            r.append(v.name_elm.as_str());
            r.append(" ");
            let parts = exec_index_part_texts(tys);
            let joined = text::join(&parts, " ");
            r.append(joined.as_str());
            r.append(")");
        },
        ResolvedVariantKind::Struct(fields) => {
            r.append("\" ->\n                        Json.Decode.field \"");
            r.append(content);
            r.append("\" (Json.Decode.succeed elmRsConstruct");
            r.append(v.name_elm.as_str());
            r.append(" ");
            let parts = exec_field_part_texts(fields);
            let joined = text::join(&parts, "\n        ");
            r.append(joined.as_str());
            r.append(")");
        },
    }
    proof {
        assert(r@ =~= adjacent_variant_text(v@, content@));
    }
    r
}

/// One shape-only decoder under the untagged representation.
pub open spec fn untagged_variant_text(v: ResolvedVariantView) -> Seq<char> {
    match v.kind {
        ResolvedVariantKindView::Unit => "    Json.Decode.null "@ + v.name_elm,
        ResolvedVariantKindView::Newtype(ty) => "    Json.Decode.map "@ + v.name_elm + " ("@
            + ty.decoder + ")"@,
        ResolvedVariantKindView::Tuple(tys) => "    Json.Decode.succeed "@ + v.name_elm + " "@
            + join_texts(index_part_texts(tys), " "@),
        ResolvedVariantKindView::Struct(fields) => "    Json.Decode.succeed elmRsConstruct"@
            + v.name_elm + " "@ + join_texts(field_part_texts(fields), " "@),
    }
}

fn exec_untagged_variant_text(v: &ResolvedVariant) -> (r: String)
    ensures
        r@ == untagged_variant_text(v@),
{
    let mut r: String;
    match &v.kind {
        ResolvedVariantKind::Unit => {
            r = String::from_str("    Json.Decode.null ");
            r.append(v.name_elm.as_str());
        },
        ResolvedVariantKind::Newtype(ty) => {
            r = String::from_str("    Json.Decode.map ");
            r.append(v.name_elm.as_str());
            r.append(" (");
            r.append(ty.decoder.as_str());
            r.append(")");
        },
        ResolvedVariantKind::Tuple(tys) => {
            r = String::from_str("    Json.Decode.succeed ");
            r.append(v.name_elm.as_str());
            r.append(" ");
            let parts = exec_index_part_texts(tys);
            let joined = text::join(&parts, " ");
            r.append(joined.as_str());
        },
        ResolvedVariantKind::Struct(fields) => {
            r = String::from_str("    Json.Decode.succeed elmRsConstruct");
            r.append(v.name_elm.as_str());
            r.append(" ");
            let parts = exec_field_part_texts(fields);
            let joined = text::join(&parts, " ");
            r.append(joined.as_str());
        },
    }
    proof {
        assert(r@ =~= untagged_variant_text(v@));
    }
    r
}

// ==================
// representation assembly
// ==================

/// The list tried by an external decoder: one decoder per variant, then the
/// catch-all of the `other` variant, if any.
pub open spec fn external_list_texts(variants: Seq<ResolvedVariantView>) -> Seq<Seq<char>> {
    let base = variants.map_values(|v: ResolvedVariantView| external_variant_text(v));
    match other_name_text(variants) {
        Some(n) => base.push("Json.Decode.succeed "@ + n),
        None => base,
    }
}

/// The tagged branches of an internal or adjacent decoder, then the
/// catch-all of the `other` variant, if any.
pub open spec fn tagged_list_texts(
    branches: Seq<Seq<char>>,
    variants: Seq<ResolvedVariantView>,
) -> Seq<Seq<char>> {
    match other_name_text(variants) {
        Some(n) => branches.push("_ ->\n                Json.Decode.succeed "@ + n),
        None => branches,
    }
}

/// The branches of an internal decoder, in order.
pub open spec fn internal_branch_texts(variants: Seq<ResolvedVariantView>) -> Seq<Seq<char>> {
    variants.map_values(|v: ResolvedVariantView| internal_variant_text(v))
}

/// The branches of an adjacent decoder, in order.
pub open spec fn adjacent_branch_texts(
    variants: Seq<ResolvedVariantView>,
    content: Seq<char>,
) -> Seq<Seq<char>> {
    variants.map_values(|v: ResolvedVariantView| adjacent_variant_text(v, content))
}

/// The shape-only decoders of an untagged decoder, in order.
pub open spec fn untagged_list_texts(variants: Seq<ResolvedVariantView>) -> Seq<Seq<char>> {
    variants.map_values(|v: ResolvedVariantView| untagged_variant_text(v))
}

fn exec_external_list_texts(variants: &Vec<ResolvedVariant>) -> (r: Vec<String>)
    ensures
        r.deep_view() == external_list_texts(variants.deep_view()),
{
    let mut r: Vec<String> = Vec::new();
    let mut i: usize = 0;
    while i < variants.len()
        invariant
            i <= variants.len(),
            variants.deep_view().len() == variants.len(),
            forall|j: int|
                0 <= j < variants.len() ==> variants.deep_view()[j] == variants[j].deep_view(),
            r.deep_view().len() == i,
            forall|j: int|
                0 <= j < i ==> r.deep_view()[j] == external_variant_text(
                    variants.deep_view()[j],
                ),
        decreases variants.len() - i,
    {
        let part = exec_external_variant_text(&variants[i]);
        let ghost prev = r.deep_view();
        r.push(part);
        proof {
            assert forall|j: int| 0 <= j < i + 1 implies r.deep_view()[j] == external_variant_text(
                variants.deep_view()[j],
            ) by {
                if j < i {
                    assert(r.deep_view()[j] == prev[j]);
                } else {
                    assert(r.deep_view()[j] == part@);
                }
            }
        }
        i = i + 1;
    }
    match exec_other_name_text(variants) {
        Some(n) => {
            let mut part = String::from_str("Json.Decode.succeed ");
            part.append(n.as_str());
            let ghost prev = r.deep_view();
            r.push(part);
            proof {
                assert(part@ =~= "Json.Decode.succeed "@ + n@);
                assert(r.deep_view() =~= prev.push(part@));
                assert(prev =~= variants.deep_view().map_values(
                    |v: ResolvedVariantView| external_variant_text(v),
                ));
            }
        },
        None => {
            proof {
                assert(r.deep_view() =~= external_list_texts(variants.deep_view()));
            }
        },
    }
    proof {
        assert(r.deep_view() =~= external_list_texts(variants.deep_view()));
    }
    r
}

fn exec_tagged_branch_texts(variants: &Vec<ResolvedVariant>, content: &Option<String>) -> (r: Vec<
    String,
>)
    ensures
        match content {
            Some(c) => r.deep_view() == adjacent_branch_texts(variants.deep_view(), c@),
            None => r.deep_view() == internal_branch_texts(variants.deep_view()),
        },
{
    let mut r: Vec<String> = Vec::new();
    let mut i: usize = 0;
    while i < variants.len()
        invariant
            i <= variants.len(),
            variants.deep_view().len() == variants.len(),
            forall|j: int|
                0 <= j < variants.len() ==> variants.deep_view()[j] == variants[j].deep_view(),
            r.deep_view().len() == i,
            forall|j: int|
                0 <= j < i ==> r.deep_view()[j] == (match content {
                    Some(c) => adjacent_variant_text(variants.deep_view()[j], c@),
                    None => internal_variant_text(variants.deep_view()[j]),
                }),
        decreases variants.len() - i,
    {
        let part = match content {
            Some(c) => exec_adjacent_variant_text(&variants[i], c.as_str()),
            None => exec_internal_variant_text(&variants[i]),
        };
        let ghost prev = r.deep_view();
        r.push(part);
        proof {
            assert forall|j: int| 0 <= j < i + 1 implies r.deep_view()[j] == (match content {
                Some(c) => adjacent_variant_text(variants.deep_view()[j], c@),
                None => internal_variant_text(variants.deep_view()[j]),
            }) by {
                if j < i {
                    assert(r.deep_view()[j] == prev[j]);
                } else {
                    assert(r.deep_view()[j] == part@);
                }
            }
        }
        i = i + 1;
    }
    proof {
        match content {
            Some(c) => {
                assert(r.deep_view() =~= adjacent_branch_texts(variants.deep_view(), c@));
            },
            None => {
                assert(r.deep_view() =~= internal_branch_texts(variants.deep_view()));
            },
        }
    }
    r
}

fn exec_untagged_list_texts(variants: &Vec<ResolvedVariant>) -> (r: Vec<String>)
    ensures
        r.deep_view() == untagged_list_texts(variants.deep_view()),
{
    let mut r: Vec<String> = Vec::new();
    let mut i: usize = 0;
    while i < variants.len()
        invariant
            i <= variants.len(),
            variants.deep_view().len() == variants.len(),
            forall|j: int|
                0 <= j < variants.len() ==> variants.deep_view()[j] == variants[j].deep_view(),
            r.deep_view().len() == i,
            forall|j: int|
                0 <= j < i ==> r.deep_view()[j] == untagged_variant_text(variants.deep_view()[j]),
        decreases variants.len() - i,
    {
        let part = exec_untagged_variant_text(&variants[i]);
        let ghost prev = r.deep_view();
        r.push(part);
        proof {
            assert forall|j: int| 0 <= j < i + 1 implies r.deep_view()[j] == untagged_variant_text(
                variants.deep_view()[j],
            ) by {
                if j < i {
                    assert(r.deep_view()[j] == prev[j]);
                } else {
                    assert(r.deep_view()[j] == part@);
                }
            }
        }
        i = i + 1;
    }
    proof {
        assert(r.deep_view() =~= untagged_list_texts(variants.deep_view()));
    }
    r
}

// ===========
// whole texts
// ===========

/// The common header of every decoder definition.
pub open spec fn header_text(decoder_name: Seq<char>, elm_type: Seq<char>) -> Seq<char> {
    decoder_name + " : Json.Decode.Decoder "@ + elm_type + "\n"@ + decoder_name
}

/// The decoder of a sum under the internal or adjacent representation: read
/// the tag field as a string and branch on its value; an unrecognized tag
/// fails naming the unexpected value.
pub open spec fn tagged_sum_text(
    r: ResolvedView,
    variants: Seq<ResolvedVariantView>,
    tag: Seq<char>,
    branches: Seq<Seq<char>>,
) -> Seq<char> {
    header_text(r.decoder_name, r.elm_type) + " = "@ + constructors_block_text(variants)
        + "\n    Json.Decode.field \""@ + tag
        + "\" Json.Decode.string\n        |> Json.Decode.andThen\n            (\\tag ->\n                case tag of\n                    "@
        + join_texts(tagged_list_texts(branches, variants), "\n                    "@)
        + "\n                    unexpected ->\n                        Json.Decode.fail <| \"Unexpected variant \" ++ unexpected\n            )"@
}

/// The complete Elm decoder definition of one resolved type.
pub open spec fn decoder_text(r: ResolvedView) -> Seq<char> {
    match r.shape {
        ResolvedShapeView::Unit => header_text(r.decoder_name, r.elm_type)
            + " =\n    Json.Decode.null "@ + r.elm_type + "\n"@,
        ResolvedShapeView::Newtype(ty) => header_text(r.decoder_name, r.elm_type)
            + " =\n    Json.Decode.map "@ + r.elm_type + " ("@ + ty.decoder + ")\n"@,
        ResolvedShapeView::Tuple(tys) => header_text(r.decoder_name, r.elm_type)
            + " =\n    Json.Decode.succeed "@ + r.elm_type + "\n        "@ + join_texts(
            index_part_texts(tys),
            "\n        "@,
        ) + "\n"@,
        ResolvedShapeView::Record(fields) => header_text(r.decoder_name, r.elm_type)
            + " =\n    Json.Decode.succeed "@ + r.elm_type + "\n        "@ + join_texts(
            field_part_texts(fields),
            "\n        "@,
        ) + "\n"@,
        ResolvedShapeView::Sum { representation, variants } => match representation {
            ReprView::External => header_text(r.decoder_name, r.elm_type) + " = "@
                + constructors_block_text(variants) + "\n    Json.Decode.oneOf\n        [ "@
                + join_texts(external_list_texts(variants), "\n        , "@) + "\n        ]"@,
            ReprView::Internal { tag } => tagged_sum_text(
                r,
                variants,
                tag,
                internal_branch_texts(variants),
            ),
            ReprView::Adjacent { tag, content } => tagged_sum_text(
                r,
                variants,
                tag,
                adjacent_branch_texts(variants, content),
            ),
            ReprView::Untagged => header_text(r.decoder_name, r.elm_type) + " = "@
                + constructors_block_text(variants) + "\n    Json.Decode.oneOf\n        [ "@
                + join_texts(untagged_list_texts(variants), "\n    , "@) + "\n        ]"@,
        },
    }
}

fn exec_header(r: &Resolved) -> (h: String)
    ensures
        h@ == header_text(r@.decoder_name, r@.elm_type),
{
    let mut h = r.decoder_name.clone();
    h.append(" : Json.Decode.Decoder ");
    h.append(r.elm_type.as_str());
    h.append("\n");
    h.append(r.decoder_name.as_str());
    proof {
        assert(h@ =~= header_text(r@.decoder_name, r@.elm_type));
    }
    h
}

fn exec_tagged_sum(r: &Resolved, variants: &Vec<ResolvedVariant>, tag: &String, branches: Vec<
    String,
>) -> (d: String)
    requires
        branches.deep_view() == internal_branch_texts(variants.deep_view()) || (exists|c: Seq<char>|
            branches.deep_view() == adjacent_branch_texts(variants.deep_view(), c)),
    ensures
        d@ == tagged_sum_text(r@, variants.deep_view(), tag@, branches.deep_view()),
{
    let mut d = exec_header(r);
    d.append(" = ");
    let ctors = exec_constructors_block_text(variants);
    d.append(ctors.as_str());
    d.append("\n    Json.Decode.field \"");
    d.append(tag.as_str());
    d.append(
        "\" Json.Decode.string\n        |> Json.Decode.andThen\n            (\\tag ->\n                case tag of\n                    ",
    );
    let mut list = branches;
    match exec_other_name_text(variants) {
        Some(n) => {
            let mut part = String::from_str("_ ->\n                Json.Decode.succeed ");
            part.append(n.as_str());
            let ghost prev = list.deep_view();
            list.push(part);
            proof {
                assert(part@ =~= "_ ->\n                Json.Decode.succeed "@ + n@);
                assert(list.deep_view() =~= prev.push(part@));
            }
        },
        None => {},
    }
    let joined = text::join(&list, "\n                    ");
    d.append(joined.as_str());
    d.append(
        "\n                    unexpected ->\n                        Json.Decode.fail <| \"Unexpected variant \" ++ unexpected\n            )",
    );
    proof {
        assert(d@ =~= tagged_sum_text(r@, variants.deep_view(), tag@, branches.deep_view()));
    }
    d
}

/// Emits the Elm decoder definition for a resolved type.
pub fn decoder_definition(r: &Resolved) -> (d: String)
    ensures
        d@ == decoder_text(r@),
{
    match &r.shape {
        ResolvedShape::Unit => {
            let mut d = exec_header(r);
            d.append(" =\n    Json.Decode.null ");
            d.append(r.elm_type.as_str());
            d.append("\n");
            proof {
                assert(d@ =~= decoder_text(r@));
            }
            d
        },
        ResolvedShape::Newtype(ty) => {
            let mut d = exec_header(r);
            d.append(" =\n    Json.Decode.map ");
            d.append(r.elm_type.as_str());
            d.append(" (");
            d.append(ty.decoder.as_str());
            d.append(")\n");
            proof {
                assert(d@ =~= decoder_text(r@));
            }
            d
        },
        ResolvedShape::Tuple(tys) => {
            let mut d = exec_header(r);
            d.append(" =\n    Json.Decode.succeed ");
            d.append(r.elm_type.as_str());
            d.append("\n        ");
            let parts = exec_index_part_texts(tys);
            let joined = text::join(&parts, "\n        ");
            d.append(joined.as_str());
            d.append("\n");
            proof {
                assert(d@ =~= decoder_text(r@));
            }
            d
        },
        ResolvedShape::Record(fields) => {
            let mut d = exec_header(r);
            d.append(" =\n    Json.Decode.succeed ");
            d.append(r.elm_type.as_str());
            d.append("\n        ");
            let parts = exec_field_part_texts(fields);
            let joined = text::join(&parts, "\n        ");
            d.append(joined.as_str());
            d.append("\n");
            proof {
                assert(d@ =~= decoder_text(r@));
            }
            d
        },
        ResolvedShape::Sum { representation, variants } => match representation {
            EnumRepresentation::External => {
                let mut d = exec_header(r);
                d.append(" = ");
                let ctors = exec_constructors_block_text(variants);
                d.append(ctors.as_str());
                d.append("\n    Json.Decode.oneOf\n        [ ");
                let list = exec_external_list_texts(variants);
                let joined = text::join(&list, "\n        , ");
                d.append(joined.as_str());
                d.append("\n        ]");
                proof {
                    assert(d@ =~= decoder_text(r@));
                }
                d
            },
            EnumRepresentation::Internal { tag } => {
                let branches = exec_tagged_branch_texts(variants, &None);
                let d = exec_tagged_sum(r, variants, tag, branches);
                proof {
                    assert(d@ =~= decoder_text(r@));
                }
                d
            },
            EnumRepresentation::Adjacent { tag, content } => {
                let branches = exec_tagged_branch_texts(variants, &Some(content.clone()));
                let d = exec_tagged_sum(r, variants, tag, branches);
                proof {
                    assert(d@ =~= decoder_text(r@));
                }
                d
            },
            EnumRepresentation::Untagged => {
                let mut d = exec_header(r);
                d.append(" = ");
                let ctors = exec_constructors_block_text(variants);
                d.append(ctors.as_str());
                d.append("\n    Json.Decode.oneOf\n        [ ");
                let list = exec_untagged_list_texts(variants);
                let joined = text::join(&list, "\n    , ");
                d.append(joined.as_str());
                d.append("\n        ]");
                proof {
                    assert(d@ =~= decoder_text(r@));
                }
                d
            },
        },
    }
}

} // verus!
