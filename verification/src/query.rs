//! The query-string generator: emits an Elm function mapping a value to a
//! list of `Url.Builder.QueryParameter`s. It exists for records and for
//! sums of struct-shaped variants; each field delegates to the query-field
//! entry of its element type. A sum of unit variants can instead receive a
//! query-field encoder of its own, used wherever that sum appears as a
//! field's element type.

use crate::resolve::Resolved;
use crate::resolve::ResolvedField;
use crate::resolve::ResolvedFieldView;
use crate::resolve::ResolvedShape;
use crate::resolve::ResolvedShapeView;
use crate::resolve::ResolvedVariant;
use crate::resolve::ResolvedVariantKind;
use crate::resolve::ResolvedVariantKindView;
use crate::resolve::ResolvedVariantView;
use crate::resolve::ResolvedView;
use crate::decode::field_name_texts;
use crate::ir::GenError;
use crate::text;
use crate::text::join_texts;
use vstd::prelude::*;

verus! {

// =============
// record fields
// =============

/// One query parameter of a record: the field's query type, its
/// encode-name, and its encoded value.
pub open spec fn record_param_texts(fields: Seq<ResolvedFieldView>) -> Seq<Seq<char>> {
    fields.map_values(
        |f: ResolvedFieldView| "                "@ + f.ty.query_field_type + " \""@ + f.name_encode
            + "\" ("@ + f.ty.query_field_encoder + " struct."@ + f.name_elm + ")"@,
    )
}

fn exec_record_param_texts(fields: &Vec<ResolvedField>) -> (r: Vec<String>)
    ensures
        r.deep_view() == record_param_texts(fields.deep_view()),
{
    let mut r: Vec<String> = Vec::new();
    let mut i: usize = 0;
    while i < fields.len()
        invariant
            i <= fields.len(),
            fields.deep_view().len() == fields.len(),
            forall|j: int| 0 <= j < fields.len() ==> fields.deep_view()[j] == fields[j].deep_view(),
            r.deep_view().len() == i,
            forall|j: int|
                0 <= j < i ==> r.deep_view()[j] == record_param_texts(fields.deep_view())[j],
        decreases fields.len() - i,
    {
        let mut part = String::from_str("                ");
        part.append(fields[i].ty.query_field_type.as_str());
        part.append(" \"");
        part.append(fields[i].name_encode.as_str());
        part.append("\" (");
        part.append(fields[i].ty.query_field_encoder.as_str());
        part.append(" struct.");
        part.append(fields[i].name_elm.as_str());
        part.append(")");
        proof {
            let f = fields.deep_view()[i as int];
            assert(part@ =~= "                "@ + f.ty.query_field_type + " \""@ + f.name_encode
                + "\" ("@ + f.ty.query_field_encoder + " struct."@ + f.name_elm + ")"@);
        }
        let ghost prev = r.deep_view();
        r.push(part);
        proof {
            assert forall|j: int| 0 <= j < i + 1 implies r.deep_view()[j] == record_param_texts(
                fields.deep_view(),
            )[j] by {
                if j < i {
                    assert(r.deep_view()[j] == prev[j]);
                } else {
                    assert(r.deep_view()[j] == part@);
                }
            }
        }
        i = i + 1;
    }
    proof {
        assert(r.deep_view() =~= record_param_texts(fields.deep_view()));
    }
    r
}

/// One query parameter of a struct variant's field: as in a record, but the
/// field is bound by the pattern rather than reached through `struct.`.
pub open spec fn variant_param_texts(fields: Seq<ResolvedFieldView>) -> Seq<Seq<char>> {
    fields.map_values(
        |f: ResolvedFieldView| f.ty.query_field_type + " \""@ + f.name_encode + "\" ("@
            + f.ty.query_field_encoder + " "@ + f.name_elm + ")"@,
    )
}

fn exec_variant_param_texts(fields: &Vec<ResolvedField>) -> (r: Vec<String>)
    ensures
        r.deep_view() == variant_param_texts(fields.deep_view()),
{
    let mut r: Vec<String> = Vec::new();
    let mut i: usize = 0;
    while i < fields.len()
        invariant
            i <= fields.len(),
            fields.deep_view().len() == fields.len(),
            forall|j: int| 0 <= j < fields.len() ==> fields.deep_view()[j] == fields[j].deep_view(),
            r.deep_view().len() == i,
            forall|j: int|
                0 <= j < i ==> r.deep_view()[j] == variant_param_texts(fields.deep_view())[j],
        decreases fields.len() - i,
    {
        let mut part = fields[i].ty.query_field_type.clone();
        part.append(" \"");
        part.append(fields[i].name_encode.as_str());
        part.append("\" (");
        part.append(fields[i].ty.query_field_encoder.as_str());
        part.append(" ");
        part.append(fields[i].name_elm.as_str());
        part.append(")");
        proof {
            let f = fields.deep_view()[i as int];
            assert(part@ =~= f.ty.query_field_type + " \""@ + f.name_encode + "\" ("@
                + f.ty.query_field_encoder + " "@ + f.name_elm + ")"@);
        }
        let ghost prev = r.deep_view();
        r.push(part);
        proof {
            assert forall|j: int| 0 <= j < i + 1 implies r.deep_view()[j] == variant_param_texts(
                fields.deep_view(),
            )[j] by {
                if j < i {
                    assert(r.deep_view()[j] == prev[j]);
                } else {
                    assert(r.deep_view()[j] == part@);
                }
            }
        }
        i = i + 1;
    }
    proof {
        assert(r.deep_view() =~= variant_param_texts(fields.deep_view()));
    }
    r
}

// ==========
// sum shapes
// ==========

/// Whether every variant of the sum is struct-shaped.
pub open spec fn all_struct_variants(variants: Seq<ResolvedVariantView>) -> bool {
    forall|i: int| 0 <= i < variants.len() ==> variants[i].kind is Struct
}

/// Whether every variant of the sum is a unit variant.
pub open spec fn all_unit_variants(variants: Seq<ResolvedVariantView>) -> bool {
    forall|i: int| 0 <= i < variants.len() ==> variants[i].kind is Unit
}

fn exec_all_struct_variants(variants: &Vec<ResolvedVariant>) -> (b: bool)
    ensures
        b == all_struct_variants(variants.deep_view()),
{
    let mut i: usize = 0;
    while i < variants.len()
        invariant
            i <= variants.len(),
            variants.deep_view().len() == variants.len(),
            forall|j: int|
                0 <= j < variants.len() ==> variants.deep_view()[j] == variants[j].deep_view(),
            forall|j: int| 0 <= j < i ==> variants.deep_view()[j].kind is Struct,
        decreases variants.len() - i,
    {
        match &variants[i].kind {
            ResolvedVariantKind::Struct(_) => {},
            _ => {
                proof {
                    assert(!(variants.deep_view()[i as int].kind is Struct));
                }
                return false;
            },
        }
        i = i + 1;
    }
    true
}

fn exec_all_unit_variants(variants: &Vec<ResolvedVariant>) -> (b: bool)
    ensures
        b == all_unit_variants(variants.deep_view()),
{
    let mut i: usize = 0;
    while i < variants.len()
        invariant
            i <= variants.len(),
            variants.deep_view().len() == variants.len(),
            forall|j: int|
                0 <= j < variants.len() ==> variants.deep_view()[j] == variants[j].deep_view(),
            forall|j: int| 0 <= j < i ==> variants.deep_view()[j].kind is Unit,
        decreases variants.len() - i,
    {
        match &variants[i].kind {
            ResolvedVariantKind::Unit => {},
            _ => {
                proof {
                    assert(!(variants.deep_view()[i as int].kind is Unit));
                }
                return false;
            },
        }
        i = i + 1;
    }
    true
}

/// One case branch of a sum query encoder.
pub open spec fn sum_branch_text(v: ResolvedVariantView) -> Seq<char> {
    match v.kind {
        ResolvedVariantKindView::Struct(fields) => v.name_elm + " { "@ + join_texts(
            field_name_texts(fields),
            ", "@,
        ) + " } ->\n            [ "@ + join_texts(variant_param_texts(fields), ", "@) + " ]"@,
        _ => v.name_elm,
    }
}

/// The case branches of a sum query encoder, in order.
pub open spec fn sum_branch_texts(variants: Seq<ResolvedVariantView>) -> Seq<Seq<char>> {
    variants.map_values(|v: ResolvedVariantView| sum_branch_text(v))
}

fn exec_sum_branch_texts(variants: &Vec<ResolvedVariant>) -> (r: Vec<String>)
    ensures
        r.deep_view() == sum_branch_texts(variants.deep_view()),
{
    let mut r: Vec<String> = Vec::new();
    let mut i: usize = 0;
    while i < variants.len()
        invariant
            i <= variants.len(),
            variants.deep_view().len() == variants.len(),
            forall|j: int|
                0 <= j < variants.len() ==> variants.deep_view()[j] == variants[j].deep_view(),
            r.deep_view().len() == i,
            forall|j: int|
                0 <= j < i ==> r.deep_view()[j] == sum_branch_texts(variants.deep_view())[j],
        decreases variants.len() - i,
    {
        let mut part = variants[i].name_elm.clone();
        match &variants[i].kind {
            ResolvedVariantKind::Struct(fields) => {
                part.append(" { ");
                let names = crate::decode::exec_field_name_texts(fields);
                let joined_names = text::join(&names, ", ");
                part.append(joined_names.as_str());
                part.append(" } ->\n            [ ");
                let params = exec_variant_param_texts(fields);
                let joined_params = text::join(&params, ", ");
                part.append(joined_params.as_str());
                part.append(" ]");
            },
            _ => {},
        }
        proof {
            assert(part@ =~= sum_branch_text(variants.deep_view()[i as int]));
        }
        let ghost prev = r.deep_view();
        r.push(part);
        proof {
            assert forall|j: int| 0 <= j < i + 1 implies r.deep_view()[j] == sum_branch_texts(
                variants.deep_view(),
            )[j] by {
                if j < i {
                    assert(r.deep_view()[j] == prev[j]);
                } else {
                    assert(r.deep_view()[j] == part@);
                }
            }
        }
        i = i + 1;
    }
    proof {
        assert(r.deep_view() =~= sum_branch_texts(variants.deep_view()));
    }
    r
}

// ===========
// whole texts
// ===========

/// The query encoder of a record.
pub open spec fn query_record_text(r: ResolvedView, fields: Seq<ResolvedFieldView>) -> Seq<char> {
    "urlEncode"@ + r.elm_type + " : "@ + r.elm_type
        + " -> List Url.Builder.QueryParameter\nurlEncode"@ + r.elm_type + " struct =\n    [ "@
        + join_texts(record_param_texts(fields), ", "@) + " ]\n"@
}

/// The query encoder of a sum of struct variants: one query list per
/// variant.
pub open spec fn query_sum_text(r: ResolvedView, variants: Seq<ResolvedVariantView>) -> Seq<char> {
    "urlEncode"@ + r.elm_type + " : "@ + r.elm_type
        + " -> List Url.Builder.QueryParameter\nurlEncode"@ + r.elm_type
        + " enum =\n    case enum of\n        "@ + join_texts(
        sum_branch_texts(variants),
        "\n        "@,
    ) + "\n"@
}

/// The query encoder of one resolved type, or the rejection: only records
/// and sums of struct variants have one.
pub open spec fn spec_query_encoder(r: ResolvedView) -> Result<Seq<char>, GenError> {
    match r.shape {
        ResolvedShapeView::Record(fields) => Ok(query_record_text(r, fields)),
        ResolvedShapeView::Sum { representation, variants } => {
            if all_struct_variants(variants) {
                Ok(query_sum_text(r, variants))
            } else {
                Err(GenError::QueryNonStructVariant)
            }
        },
        _ => Err(GenError::QueryUnsupportedShape),
    }
}

/// Emits the Elm query encoder for a resolved type, named
/// `urlEncode` followed by the Elm type name.
pub fn query_encoder(r: &Resolved) -> (q: Result<String, GenError>)
    ensures
        match q {
            Ok(text) => spec_query_encoder(r@) == Ok::<Seq<char>, GenError>(text@),
            Err(e) => spec_query_encoder(r@) == Err::<Seq<char>, GenError>(e),
        },
{
    match &r.shape {
        ResolvedShape::Record(fields) => {
            let mut q = String::from_str("urlEncode");
            q.append(r.elm_type.as_str());
            q.append(" : ");
            q.append(r.elm_type.as_str());
            q.append(" -> List Url.Builder.QueryParameter\nurlEncode");
            q.append(r.elm_type.as_str());
            q.append(" struct =\n    [ ");
            let params = exec_record_param_texts(fields);
            let joined = text::join(&params, ", ");
            q.append(joined.as_str());
            q.append(" ]\n");
            proof {
                assert(q@ =~= query_record_text(r@, fields.deep_view()));
            }
            Ok(q)
        },
        ResolvedShape::Sum { representation: _, variants } => {
            if !exec_all_struct_variants(variants) {
                return Err(GenError::QueryNonStructVariant);
            }
            let mut q = String::from_str("urlEncode");
            q.append(r.elm_type.as_str());
            q.append(" : ");
            q.append(r.elm_type.as_str());
            q.append(" -> List Url.Builder.QueryParameter\nurlEncode");
            q.append(r.elm_type.as_str());
            q.append(" enum =\n    case enum of\n        ");
            let branches = exec_sum_branch_texts(variants);
            let joined = text::join(&branches, "\n        ");
            q.append(joined.as_str());
            q.append("\n");
            proof {
                assert(q@ =~= query_sum_text(r@, variants.deep_view()));
            }
            Ok(q)
        },
        _ => Err(GenError::QueryUnsupportedShape),
    }
}

// ==================
// query-field encoder
// ==================

/// One branch of a query-field encoder: the variant mapped to its
/// encode-name.
pub open spec fn field_enum_branch_texts(variants: Seq<ResolvedVariantView>) -> Seq<Seq<char>> {
    variants.map_values(|v: ResolvedVariantView| v.name_elm + " -> \""@ + v.name_encode + "\""@)
}

fn exec_field_enum_branch_texts(variants: &Vec<ResolvedVariant>) -> (r: Vec<String>)
    ensures
        r.deep_view() == field_enum_branch_texts(variants.deep_view()),
{
    let mut r: Vec<String> = Vec::new();
    let mut i: usize = 0;
    while i < variants.len()
        invariant
            i <= variants.len(),
            variants.deep_view().len() == variants.len(),
            forall|j: int|
                0 <= j < variants.len() ==> variants.deep_view()[j] == variants[j].deep_view(),
            r.deep_view().len() == i,
            forall|j: int|
                0 <= j < i ==> r.deep_view()[j] == field_enum_branch_texts(
                    variants.deep_view(),
                )[j],
        decreases variants.len() - i,
    {
        let mut part = variants[i].name_elm.clone();
        part.append(" -> \"");
        part.append(variants[i].name_encode.as_str());
        part.append("\"");
        proof {
            let v = variants.deep_view()[i as int];
            assert(part@ =~= v.name_elm + " -> \""@ + v.name_encode + "\""@);
        }
        let ghost prev = r.deep_view();
        r.push(part);
        proof {
            assert forall|j: int| 0 <= j < i + 1 implies r.deep_view()[j]
                == field_enum_branch_texts(variants.deep_view())[j] by {
                if j < i {
                    assert(r.deep_view()[j] == prev[j]);
                } else {
                    assert(r.deep_view()[j] == part@);
                }
            }
        }
        i = i + 1;
    }
    proof {
        assert(r.deep_view() =~= field_enum_branch_texts(variants.deep_view()));
    }
    r
}

/// The name of the query-field encoder of one type.
pub open spec fn query_field_encoder_name_text(elm_type: Seq<char>) -> Seq<char> {
    "queryFieldEncoder"@ + elm_type
}

/// The name of the generated query-field encoder.
pub fn query_field_encoder_name(r: &Resolved) -> (n: String)
    ensures
        n@ == query_field_encoder_name_text(r@.elm_type),
{
    let mut n = String::from_str("queryFieldEncoder");
    n.append(r.elm_type.as_str());
    proof {
        assert(n@ =~= query_field_encoder_name_text(r@.elm_type));
    }
    n
}

/// The query-field encoder of a sum of unit variants.
pub open spec fn query_field_enum_text(
    r: ResolvedView,
    variants: Seq<ResolvedVariantView>,
) -> Seq<char> {
    query_field_encoder_name_text(r.elm_type) + " : "@ + r.elm_type + " -> String\n"@
        + query_field_encoder_name_text(r.elm_type) + " var =\n    case var of\n        "@
        + join_texts(field_enum_branch_texts(variants), "\n        "@) + "\n"@
}

/// The query-field encoder of one resolved type, or the rejection: only a
/// sum of unit variants has one.
pub open spec fn spec_query_field_encoder(r: ResolvedView) -> Result<Seq<char>, GenError> {
    match r.shape {
        ResolvedShapeView::Sum { representation, variants } => {
            if all_unit_variants(variants) {
                Ok(query_field_enum_text(r, variants))
            } else {
                Err(GenError::QueryFieldNonUnitVariant)
            }
        },
        _ => Err(GenError::QueryFieldNotEnum),
    }
}

/// Emits the query-field encoder for a sum of unit variants, mapping each
/// variant to its encode-name.
pub fn query_field_encoder(r: &Resolved) -> (q: Result<String, GenError>)
    ensures
        match q {
            Ok(text) => spec_query_field_encoder(r@) == Ok::<Seq<char>, GenError>(text@),
            Err(e) => spec_query_field_encoder(r@) == Err::<Seq<char>, GenError>(e),
        },
{
    match &r.shape {
        ResolvedShape::Sum { representation: _, variants } => {
            if !exec_all_unit_variants(variants) {
                return Err(GenError::QueryFieldNonUnitVariant);
            }
            let name = query_field_encoder_name(r);
            let mut q = name.clone();
            q.append(" : ");
            q.append(r.elm_type.as_str());
            q.append(" -> String\n");
            q.append(name.as_str());
            q.append(" var =\n    case var of\n        ");
            let branches = exec_field_enum_branch_texts(variants);
            let joined = text::join(&branches, "\n        ");
            q.append(joined.as_str());
            q.append("\n");
            proof {
                assert(q@ =~= query_field_enum_text(r@, variants.deep_view()));
            }
            Ok(q)
        },
        _ => Err(GenError::QueryFieldNotEnum),
    }
}

} // verus!
