//! The encoder generator: emits the Elm `Json.Encode` function for a
//! resolved shape, the dual of the decoder. A sum encodes as one exhaustive
//! case split over its variants; every variant appears, under the same
//! representation the decoder reads.

use crate::decode::field_name_texts;
use crate::resolve::Resolved;
use crate::resolve::ResolvedField;
use crate::resolve::ResolvedFieldView;
use crate::resolve::ResolvedShape;
use crate::resolve::ResolvedShapeView;
use crate::resolve::ResolvedVariant;
use crate::resolve::ResolvedVariantKind;
use crate::resolve::ResolvedVariantKindView;
use crate::resolve::ResolvedVariantView;
use crate::resolve::ResolvedView;
use crate::ir::ReprView;
use crate::ir::EnumRepresentation;
use crate::ir::TypeRef;
use crate::ir::TypeRefView;
use crate::text;
use crate::text::decimal_digits;
use crate::text::join_texts;
use vstd::prelude::*;

verus! {

// ================
// shared fragments
// ================

/// The positional parameter names of a tuple pattern: `t0 t1 ...`.
pub open spec fn param_texts(n: nat) -> Seq<Seq<char>> {
    Seq::new(n, |i: int| "t"@ + decimal_digits(i as nat))
}

fn exec_param_texts(n: usize) -> (r: Vec<String>)
    ensures
        r.deep_view() == param_texts(n as nat),
{
    let mut r: Vec<String> = Vec::new();
    let mut i: usize = 0;
    while i < n
        invariant
            i <= n,
            r.deep_view().len() == i,
            forall|j: int| 0 <= j < i ==> r.deep_view()[j] == param_texts(n as nat)[j],
        decreases n - i,
    {
        let mut part = String::from_str("t");
        let num = text::decimal(i);
        part.append(num.as_str());
        proof {
            assert(part@ =~= "t"@ + decimal_digits(i as nat));
        }
        let ghost prev = r.deep_view();
        r.push(part);
        proof {
            assert forall|j: int| 0 <= j < i + 1 implies r.deep_view()[j] == param_texts(
                n as nat,
            )[j] by {
                if j < i {
                    assert(r.deep_view()[j] == prev[j]);
                } else {
                    assert(r.deep_view()[j] == part@);
                }
            }
        }
        i = i + 1;
    }
    proof {
        assert(r.deep_view() =~= param_texts(n as nat));
    }
    r
}

/// Each element encoder applied to its slot, parenthesized: `(enc) t0`.
pub open spec fn paren_applied_texts(tys: Seq<TypeRefView>) -> Seq<Seq<char>> {
    Seq::new(tys.len(), |i: int| "("@ + tys[i].encoder + ") t"@ + decimal_digits(i as nat))
}

/// Each element encoder applied to its slot: `enc t0`.
pub open spec fn bare_applied_texts(tys: Seq<TypeRefView>) -> Seq<Seq<char>> {
    Seq::new(tys.len(), |i: int| tys[i].encoder + " t"@ + decimal_digits(i as nat))
}

fn exec_applied_texts(tys: &Vec<TypeRef>, paren: bool) -> (r: Vec<String>)
    ensures
        paren ==> r.deep_view() == paren_applied_texts(tys.deep_view()),
        !paren ==> r.deep_view() == bare_applied_texts(tys.deep_view()),
{
    let mut r: Vec<String> = Vec::new();
    let mut i: usize = 0;
    while i < tys.len()
        invariant
            i <= tys.len(),
            tys.deep_view().len() == tys.len(),
            forall|j: int| 0 <= j < tys.len() ==> tys.deep_view()[j] == tys[j].deep_view(),
            r.deep_view().len() == i,
            forall|j: int|
                0 <= j < i ==> r.deep_view()[j] == (if paren {
                    paren_applied_texts(tys.deep_view())[j]
                } else {
                    bare_applied_texts(tys.deep_view())[j]
                }),
        decreases tys.len() - i,
    {
        let mut part: String;
        if paren {
            part = String::from_str("(");
            part.append(tys[i].encoder.as_str());
            part.append(") t");
        } else {
            part = tys[i].encoder.clone();
            part.append(" t");
        }
        let num = text::decimal(i);
        part.append(num.as_str());
        proof {
            if paren {
                assert(part@ =~= "("@ + tys.deep_view()[i as int].encoder + ") t"@
                    + decimal_digits(i as nat));
            } else {
                assert(part@ =~= tys.deep_view()[i as int].encoder + " t"@ + decimal_digits(
                    i as nat,
                ));
            }
        }
        let ghost prev = r.deep_view();
        r.push(part);
        proof {
            assert forall|j: int| 0 <= j < i + 1 implies r.deep_view()[j] == (if paren {
                paren_applied_texts(tys.deep_view())[j]
            } else {
                bare_applied_texts(tys.deep_view())[j]
            }) by {
                if j < i {
                    assert(r.deep_view()[j] == prev[j]);
                } else {
                    assert(r.deep_view()[j] == part@);
                }
            }
        }
        i = i + 1;
    }
    proof {
        if paren {
            assert(r.deep_view() =~= paren_applied_texts(tys.deep_view()));
        } else {
            assert(r.deep_view() =~= bare_applied_texts(tys.deep_view()));
        }
    }
    r
}

/// One record field entry: `( "name", (enc) struct.field )`.
pub open spec fn record_entry_texts(fields: Seq<ResolvedFieldView>) -> Seq<Seq<char>> {
    fields.map_values(
        |f: ResolvedFieldView| "( \""@ + f.name_encode + "\", ("@ + f.ty.encoder + ") struct."@
            + f.name_elm + " )"@,
    )
}

fn exec_record_entry_texts(fields: &Vec<ResolvedField>) -> (r: Vec<String>)
    ensures
        r.deep_view() == record_entry_texts(fields.deep_view()),
{
    let mut r: Vec<String> = Vec::new();
    let mut i: usize = 0;
    while i < fields.len()
        invariant
            i <= fields.len(),
            fields.deep_view().len() == fields.len(),
            forall|j: int| 0 <= j < fields.len() ==> fields.deep_view()[j] == fields[j].deep_view(),
            r.deep_view().len() == i,
            forall|j: int|
                0 <= j < i ==> r.deep_view()[j] == record_entry_texts(fields.deep_view())[j],
        decreases fields.len() - i,
    {
        let mut part = String::from_str("( \"");
        part.append(fields[i].name_encode.as_str());
        part.append("\", (");
        part.append(fields[i].ty.encoder.as_str());
        part.append(") struct.");
        part.append(fields[i].name_elm.as_str());
        part.append(" )");
        proof {
            let f = fields.deep_view()[i as int];
            assert(part@ =~= "( \""@ + f.name_encode + "\", ("@ + f.ty.encoder + ") struct."@
                + f.name_elm + " )"@);
        }
        let ghost prev = r.deep_view();
        r.push(part);
        proof {
            assert forall|j: int| 0 <= j < i + 1 implies r.deep_view()[j] == record_entry_texts(
                fields.deep_view(),
            )[j] by {
                if j < i {
                    assert(r.deep_view()[j] == prev[j]);
                } else {
                    assert(r.deep_view()[j] == part@);
                }
            }
        }
        i = i + 1;
    }
    proof {
        assert(r.deep_view() =~= record_entry_texts(fields.deep_view()));
    }
    r
}

/// One variant field entry: `( "name", enc field )`.
pub open spec fn variant_entry_texts(fields: Seq<ResolvedFieldView>) -> Seq<Seq<char>> {
    fields.map_values(
        |f: ResolvedFieldView| "( \""@ + f.name_encode + "\", "@ + f.ty.encoder + " "@ + f.name_elm
            + " )"@,
    )
}

fn exec_variant_entry_texts(fields: &Vec<ResolvedField>) -> (r: Vec<String>)
    ensures
        r.deep_view() == variant_entry_texts(fields.deep_view()),
{
    let mut r: Vec<String> = Vec::new();
    let mut i: usize = 0;
    while i < fields.len()
        invariant
            i <= fields.len(),
            fields.deep_view().len() == fields.len(),
            forall|j: int| 0 <= j < fields.len() ==> fields.deep_view()[j] == fields[j].deep_view(),
            r.deep_view().len() == i,
            forall|j: int|
                0 <= j < i ==> r.deep_view()[j] == variant_entry_texts(fields.deep_view())[j],
        decreases fields.len() - i,
    {
        let mut part = String::from_str("( \"");
        part.append(fields[i].name_encode.as_str());
        part.append("\", ");
        part.append(fields[i].ty.encoder.as_str());
        part.append(" ");
        part.append(fields[i].name_elm.as_str());
        part.append(" )");
        proof {
            let f = fields.deep_view()[i as int];
            assert(part@ =~= "( \""@ + f.name_encode + "\", "@ + f.ty.encoder + " "@ + f.name_elm
                + " )"@);
        }
        let ghost prev = r.deep_view();
        r.push(part);
        proof {
            assert forall|j: int| 0 <= j < i + 1 implies r.deep_view()[j] == variant_entry_texts(
                fields.deep_view(),
            )[j] by {
                if j < i {
                    assert(r.deep_view()[j] == prev[j]);
                } else {
                    assert(r.deep_view()[j] == part@);
                }
            }
        }
        i = i + 1;
    }
    proof {
        assert(r.deep_view() =~= variant_entry_texts(fields.deep_view()));
    }
    r
}

// ====================
// per-variant encoders
// ====================

/// One case branch under the external representation.
pub open spec fn external_variant_text(v: ResolvedVariantView) -> Seq<char> {
    match v.kind {
        ResolvedVariantKindView::Unit => "    "@ + v.name_elm
            + " ->\n            Json.Encode.string \""@ + v.name_encode + "\""@,
        ResolvedVariantKindView::Newtype(ty) => v.name_elm
            + " inner ->\n            Json.Encode.object [ ( \""@ + v.name_encode + "\", "@
            + ty.encoder + " inner ) ]"@,
        ResolvedVariantKindView::Tuple(tys) => v.name_elm + " "@ + join_texts(
            param_texts(tys.len()),
            " "@,
        ) + " ->\n            Json.Encode.object [ ( \""@ + v.name_encode
            + "\", Json.Encode.list identity [ "@ + join_texts(bare_applied_texts(tys), ", "@)
            + " ] ) ]"@,
        ResolvedVariantKindView::Struct(fields) => v.name_elm + " { "@ + join_texts(
            field_name_texts(fields),
            ", "@,
        ) + " } ->\n            Json.Encode.object [ ( \""@ + v.name_encode
            + "\", Json.Encode.object [ "@ + join_texts(variant_entry_texts(fields), ", "@)
            + " ] ) ]"@,
    }
}

fn exec_external_variant_text(v: &ResolvedVariant) -> (r: String)
    ensures
        r@ == external_variant_text(v@),
{
    let mut r: String;
    match &v.kind {
        ResolvedVariantKind::Unit => {
            r = String::from_str("    ");
            r.append(v.name_elm.as_str());
            r.append(" ->\n            Json.Encode.string \"");
            r.append(v.name_encode.as_str());
            r.append("\"");
        },
        ResolvedVariantKind::Newtype(ty) => {
            r = v.name_elm.clone();
            r.append(" inner ->\n            Json.Encode.object [ ( \"");
            r.append(v.name_encode.as_str());
            r.append("\", ");
            r.append(ty.encoder.as_str());
            r.append(" inner ) ]");
        },
        ResolvedVariantKind::Tuple(tys) => {
            r = v.name_elm.clone();
            r.append(" ");
            let params = exec_param_texts(tys.len());
            let joined_params = text::join(&params, " ");
            r.append(joined_params.as_str());
            r.append(" ->\n            Json.Encode.object [ ( \"");
            r.append(v.name_encode.as_str());
            r.append("\", Json.Encode.list identity [ ");
            let encoders = exec_applied_texts(tys, false);
            let joined_encoders = text::join(&encoders, ", ");
            r.append(joined_encoders.as_str());
            r.append(" ] ) ]");
        },
        ResolvedVariantKind::Struct(fields) => {
            r = v.name_elm.clone();
            r.append(" { ");
            let names = crate::decode::exec_field_name_texts(fields);
            let joined_names = text::join(&names, ", ");
            r.append(joined_names.as_str());
            r.append(" } ->\n            Json.Encode.object [ ( \"");
            r.append(v.name_encode.as_str());
            r.append("\", Json.Encode.object [ ");
            let entries = exec_variant_entry_texts(fields);
            let joined_entries = text::join(&entries, ", ");
            r.append(joined_entries.as_str());
            r.append(" ] ) ]");
        },
    }
    proof {
        assert(r@ =~= external_variant_text(v@));
    }
    r
}

/// One case branch under the internal representation: the tag entry first,
/// then the variant's own fields in the same object.
pub open spec fn internal_variant_text(v: ResolvedVariantView, tag: Seq<char>) -> Seq<char> {
    match v.kind {
        ResolvedVariantKindView::Struct(fields) => v.name_elm + " { "@ + join_texts(
            field_name_texts(fields),
            ", "@,
        ) + " } ->\n            Json.Encode.object [ ( \""@ + tag + "\", Json.Encode.string \""@
            + v.name_encode + "\" ), "@ + join_texts(variant_entry_texts(fields), ", "@) + " ]"@,
        _ => v.name_elm + " ->\n            Json.Encode.object [ ( \""@ + tag
            + "\", Json.Encode.string \""@ + v.name_encode + "\" ) ]"@,
    }
}

fn exec_internal_variant_text(v: &ResolvedVariant, tag: &str) -> (r: String)
    ensures
        r@ == internal_variant_text(v@, tag@),
{
    let mut r = v.name_elm.clone();
    match &v.kind {
        ResolvedVariantKind::Struct(fields) => {
            r.append(" { ");
            let names = crate::decode::exec_field_name_texts(fields);
            let joined_names = text::join(&names, ", ");
            r.append(joined_names.as_str());
            r.append(" } ->\n            Json.Encode.object [ ( \"");
            r.append(tag);
            r.append("\", Json.Encode.string \"");
            r.append(v.name_encode.as_str());
            r.append("\" ), ");
            let entries = exec_variant_entry_texts(fields);
            let joined_entries = text::join(&entries, ", ");
            r.append(joined_entries.as_str());
            r.append(" ]");
        },
        _ => {
            r.append(" ->\n            Json.Encode.object [ ( \"");
            r.append(tag);
            r.append("\", Json.Encode.string \"");
            r.append(v.name_encode.as_str());
            r.append("\" ) ]");
        },
    }
    proof {
        assert(r@ =~= internal_variant_text(v@, tag@));
    }
    r
}

/// One case branch under the adjacent representation: the tag entry, then
/// the payload under the content field.
pub open spec fn adjacent_variant_text(
    v: ResolvedVariantView,
    tag: Seq<char>,
    content: Seq<char>,
) -> Seq<char> {
    match v.kind {
        ResolvedVariantKindView::Unit => v.name_elm + " ->\n            Json.Encode.object [ ( \""@
            + tag + "\", Json.Encode.string \""@ + v.name_encode + "\" ) ]"@,
        ResolvedVariantKindView::Newtype(ty) => "    "@ + v.name_elm
            + " inner ->\n            Json.Encode.object [ ( \""@ + tag
            + "\", Json.Encode.string \""@ + v.name_encode + "\"), ( \""@ + content + "\", "@
            + ty.encoder + " inner ) ]"@,
        ResolvedVariantKindView::Tuple(tys) => "    "@ + v.name_elm + " "@ + join_texts(
            param_texts(tys.len()),
            " "@,
        ) + " ->\n            Json.Encode.object [ ( \""@ + tag + "\", Json.Encode.string \""@
            + v.name_encode + "\"), ( \""@ + content + "\", Json.Encode.list identity [ "@
            + join_texts(bare_applied_texts(tys), ", "@) + " ] ) ]"@,
        ResolvedVariantKindView::Struct(fields) => "    "@ + v.name_elm + " { "@ + join_texts(
            field_name_texts(fields),
            ", "@,
        ) + " } ->\n            Json.Encode.object [ ( \""@ + tag + "\", Json.Encode.string \""@
            + v.name_encode + "\"), ( \""@ + content + "\", Json.Encode.object [ "@ + join_texts(
            variant_entry_texts(fields),
            ", "@,
        ) + " ] ) ]"@,
    }
}

fn exec_adjacent_variant_text(v: &ResolvedVariant, tag: &str, content: &str) -> (r: String)
    ensures
        r@ == adjacent_variant_text(v@, tag@, content@),
{
    let mut r: String;
    match &v.kind {
        ResolvedVariantKind::Unit => {
            r = v.name_elm.clone();
            r.append(" ->\n            Json.Encode.object [ ( \"");
            r.append(tag);
            r.append("\", Json.Encode.string \"");
            r.append(v.name_encode.as_str());
            r.append("\" ) ]");
        },
        ResolvedVariantKind::Newtype(ty) => {
            r = String::from_str("    ");
            r.append(v.name_elm.as_str());
            r.append(" inner ->\n            Json.Encode.object [ ( \"");
            r.append(tag);
            r.append("\", Json.Encode.string \"");
            r.append(v.name_encode.as_str());
            r.append("\"), ( \"");
            r.append(content);
            r.append("\", ");
            r.append(ty.encoder.as_str());
            r.append(" inner ) ]");
        },
        ResolvedVariantKind::Tuple(tys) => {
            r = String::from_str("    ");
            r.append(v.name_elm.as_str());
            r.append(" ");
            let params = exec_param_texts(tys.len());
            let joined_params = text::join(&params, " ");
            r.append(joined_params.as_str());
            r.append(" ->\n            Json.Encode.object [ ( \"");
            r.append(tag);
            r.append("\", Json.Encode.string \"");
            r.append(v.name_encode.as_str());
            r.append("\"), ( \"");
            r.append(content);
            r.append("\", Json.Encode.list identity [ ");
            let encoders = exec_applied_texts(tys, false);
            let joined_encoders = text::join(&encoders, ", ");
            r.append(joined_encoders.as_str());
            r.append(" ] ) ]");
        },
        ResolvedVariantKind::Struct(fields) => {
            r = String::from_str("    ");
            r.append(v.name_elm.as_str());
            r.append(" { ");
            let names = crate::decode::exec_field_name_texts(fields);
            let joined_names = text::join(&names, ", ");
            r.append(joined_names.as_str());
            r.append(" } ->\n            Json.Encode.object [ ( \"");
            r.append(tag);
            r.append("\", Json.Encode.string \"");
            r.append(v.name_encode.as_str());
            r.append("\"), ( \"");
            r.append(content);
            r.append("\", Json.Encode.object [ ");
            let entries = exec_variant_entry_texts(fields);
            let joined_entries = text::join(&entries, ", ");
            r.append(joined_entries.as_str());
            r.append(" ] ) ]");
        },
    }
    proof {
        assert(r@ =~= adjacent_variant_text(v@, tag@, content@));
    }
    r
}

/// One case branch under the untagged representation: the payload alone.
pub open spec fn untagged_variant_text(v: ResolvedVariantView) -> Seq<char> {
    match v.kind {
        ResolvedVariantKindView::Unit => v.name_elm + " ->\n            Json.Encode.null"@,
        ResolvedVariantKindView::Newtype(ty) => v.name_elm + " inner ->\n            "@ + ty.encoder
            + " inner"@,
        ResolvedVariantKindView::Tuple(tys) => v.name_elm + " "@ + join_texts(
            param_texts(tys.len()),
            " "@,
        ) + " -> \n            Json.Encode.list identity\n            [ "@ + join_texts(
            paren_applied_texts(tys),
            "\n            , "@,
        ) + "\n            ]"@,
        ResolvedVariantKindView::Struct(fields) => v.name_elm + " { "@ + join_texts(
            field_name_texts(fields),
            ", "@,
        ) + " } ->\n            Json.Encode.object [ "@ + join_texts(
            variant_entry_texts(fields),
            ", "@,
        ) + " ]"@,
    }
}

fn exec_untagged_variant_text(v: &ResolvedVariant) -> (r: String)
    ensures
        r@ == untagged_variant_text(v@),
{
    let mut r = v.name_elm.clone();
    match &v.kind {
        ResolvedVariantKind::Unit => {
            r.append(" ->\n            Json.Encode.null");
        },
        ResolvedVariantKind::Newtype(ty) => {
            r.append(" inner ->\n            ");
            r.append(ty.encoder.as_str());
            r.append(" inner");
        },
        ResolvedVariantKind::Tuple(tys) => {
            r.append(" ");
            let params = exec_param_texts(tys.len());
            let joined_params = text::join(&params, " ");
            r.append(joined_params.as_str());
            r.append(" -> \n            Json.Encode.list identity\n            [ ");
            let encoders = exec_applied_texts(tys, true);
            let joined_encoders = text::join(&encoders, "\n            , ");
            r.append(joined_encoders.as_str());
            r.append("\n            ]");
        },
        ResolvedVariantKind::Struct(fields) => {
            r.append(" { ");
            let names = crate::decode::exec_field_name_texts(fields);
            let joined_names = text::join(&names, ", ");
            r.append(joined_names.as_str());
            r.append(" } ->\n            Json.Encode.object [ ");
            let entries = exec_variant_entry_texts(fields);
            let joined_entries = text::join(&entries, ", ");
            r.append(joined_entries.as_str());
            r.append(" ]");
        },
    }
    proof {
        assert(r@ =~= untagged_variant_text(v@));
    }
    r
}

// ===========
// whole texts
// ===========

/// The case branches of the variants under the active representation.
pub open spec fn variant_branch_texts(
    variants: Seq<ResolvedVariantView>,
    representation: ReprView,
) -> Seq<Seq<char>> {
    match representation {
        ReprView::External => variants.map_values(
            |v: ResolvedVariantView| external_variant_text(v),
        ),
        ReprView::Internal { tag } => variants.map_values(
            |v: ResolvedVariantView| internal_variant_text(v, tag),
        ),
        ReprView::Adjacent { tag, content } => variants.map_values(
            |v: ResolvedVariantView| adjacent_variant_text(v, tag, content),
        ),
        ReprView::Untagged => variants.map_values(
            |v: ResolvedVariantView| untagged_variant_text(v),
        ),
    }
}

fn exec_variant_branch_texts(
    variants: &Vec<ResolvedVariant>,
    representation: &EnumRepresentation,
) -> (r: Vec<String>)
    ensures
        r.deep_view() == variant_branch_texts(variants.deep_view(), representation@),
{
    let mut r: Vec<String> = Vec::new();
    let mut i: usize = 0;
    while i < variants.len()
        invariant
            i <= variants.len(),
            variants.deep_view().len() == variants.len(),
            forall|j: int|
                0 <= j < variants.len() ==> variants.deep_view()[j] == variants[j].deep_view(),
            r.deep_view().len() == i,
            forall|j: int|
                0 <= j < i ==> r.deep_view()[j] == variant_branch_texts(
                    variants.deep_view(),
                    representation@,
                )[j],
        decreases variants.len() - i,
    {
        let part = match representation {
            EnumRepresentation::External => exec_external_variant_text(&variants[i]),
            EnumRepresentation::Internal { tag } => exec_internal_variant_text(
                &variants[i],
                tag.as_str(),
            ),
            EnumRepresentation::Adjacent { tag, content } => exec_adjacent_variant_text(
                &variants[i],
                tag.as_str(),
                content.as_str(),
            ),
            EnumRepresentation::Untagged => exec_untagged_variant_text(&variants[i]),
        };
        let ghost prev = r.deep_view();
        r.push(part);
        proof {
            assert forall|j: int| 0 <= j < i + 1 implies r.deep_view()[j] == variant_branch_texts(
                variants.deep_view(),
                representation@,
            )[j] by {
                if j < i {
                    assert(r.deep_view()[j] == prev[j]);
                } else {
                    assert(r.deep_view()[j] == part@);
                }
            }
        }
        i = i + 1;
    }
    proof {
        assert(r.deep_view() =~= variant_branch_texts(variants.deep_view(), representation@));
    }
    r
}

/// The common header of every encoder definition.
pub open spec fn header_text(encoder_name: Seq<char>, elm_type: Seq<char>) -> Seq<char> {
    encoder_name + " : "@ + elm_type + " -> Json.Encode.Value\n"@ + encoder_name
}

/// The complete Elm encoder definition of one resolved type.
pub open spec fn encoder_text(r: ResolvedView) -> Seq<char> {
    match r.shape {
        ResolvedShapeView::Unit => header_text(r.encoder_name, r.elm_type)
            + " _ =\n    Json.Encode.null\n"@,
        ResolvedShapeView::Newtype(ty) => header_text(r.encoder_name, r.elm_type) + " ("@
            + r.elm_type + " inner) =\n    ("@ + ty.encoder + ") inner\n"@,
        ResolvedShapeView::Tuple(tys) => header_text(r.encoder_name, r.elm_type) + " ("@
            + r.elm_type + " "@ + join_texts(param_texts(tys.len()), " "@)
            + ") =\n    Json.Encode.list identity\n        [ "@ + join_texts(
            paren_applied_texts(tys),
            "\n        , "@,
        ) + "\n        ]\n"@,
        ResolvedShapeView::Record(fields) => header_text(r.encoder_name, r.elm_type)
            + " struct =\n    Json.Encode.object\n        [ "@ + join_texts(
            record_entry_texts(fields),
            "\n        , "@,
        ) + "\n        ]\n"@,
        ResolvedShapeView::Sum { representation, variants } => header_text(
            r.encoder_name,
            r.elm_type,
        ) + " enum =\n    case enum of\n        "@ + join_texts(
            variant_branch_texts(variants, representation),
            "\n        "@,
        ),
    }
}

fn exec_header(r: &Resolved) -> (h: String)
    ensures
        h@ == header_text(r@.encoder_name, r@.elm_type),
{
    let mut h = r.encoder_name.clone();
    h.append(" : ");
    h.append(r.elm_type.as_str());
    h.append(" -> Json.Encode.Value\n");
    h.append(r.encoder_name.as_str());
    proof {
        assert(h@ =~= header_text(r@.encoder_name, r@.elm_type));
    }
    h
}

/// Emits the Elm encoder definition for a resolved type.
pub fn encoder_definition(r: &Resolved) -> (e: String)
    ensures
        e@ == encoder_text(r@),
{
    match &r.shape {
        ResolvedShape::Unit => {
            let mut e = exec_header(r);
            e.append(" _ =\n    Json.Encode.null\n");
            proof {
                assert(e@ =~= encoder_text(r@));
            }
            e
        },
        ResolvedShape::Newtype(ty) => {
            let mut e = exec_header(r);
            e.append(" (");
            e.append(r.elm_type.as_str());
            e.append(" inner) =\n    (");
            e.append(ty.encoder.as_str());
            e.append(") inner\n");
            proof {
                assert(e@ =~= encoder_text(r@));
            }
            e
        },
        ResolvedShape::Tuple(tys) => {
            let mut e = exec_header(r);
            e.append(" (");
            e.append(r.elm_type.as_str());
            e.append(" ");
            let params = exec_param_texts(tys.len());
            let joined_params = text::join(&params, " ");
            e.append(joined_params.as_str());
            e.append(") =\n    Json.Encode.list identity\n        [ ");
            let encoders = exec_applied_texts(tys, true);
            let joined_encoders = text::join(&encoders, "\n        , ");
            e.append(joined_encoders.as_str());
            e.append("\n        ]\n");
            proof {
                assert(e@ =~= encoder_text(r@));
            }
            e
        },
        ResolvedShape::Record(fields) => {
            let mut e = exec_header(r);
            e.append(" struct =\n    Json.Encode.object\n        [ ");
            let entries = exec_record_entry_texts(fields);
            let joined_entries = text::join(&entries, "\n        , ");
            e.append(joined_entries.as_str());
            e.append("\n        ]\n");
            proof {
                assert(e@ =~= encoder_text(r@));
            }
            e
        },
        ResolvedShape::Sum { representation, variants } => {
            let mut e = exec_header(r);
            e.append(" enum =\n    case enum of\n        ");
            let branches = exec_variant_branch_texts(variants, representation);
            let joined_branches = text::join(&branches, "\n        ");
            e.append(joined_branches.as_str());
            proof {
                assert(e@ =~= encoder_text(r@));
            }
            e
        },
    }
}

} // verus!
