//! The properties the library guarantees, stated and proved over the wire
//! model and the resolver: the round trip of a decoder over what the wire
//! carries for it, the determinism of generation, the precedence of
//! renames, the transparent-record shortcut, and the rejection of internal
//! tagging over payload-carrying positional variants.

use crate::decl::declaration_text;
use crate::decode::decoder_text;
use crate::encode::encoder_text;
use crate::ir::ContainerAttributesView;
use crate::ir::EnumVariantView;
use crate::ir::ReprView;
use crate::ir::StructFieldView;
use crate::ir::TypeInfoView;
use crate::ir::rename_all_applied;
use crate::json::JsonV;
use crate::json::lookup_first;
use crate::query::spec_query_encoder;
use crate::resolve::ResolvedFieldView;
use crate::resolve::ResolvedShapeView;
use crate::resolve::ResolvedVariantKindView;
use crate::resolve::ResolvedVariantView;
use crate::resolve::ResolvedView;
use crate::resolve::first_policy2;
use crate::resolve::spec_resolve;
use crate::resolve::spec_resolve_field;
use crate::resolve::spec_resolve_shape;
use crate::resolve::spec_internal_check;
use crate::wire::PayloadV;
use crate::wire::ShapeValueV;
use crate::wire::decode_external_variant;
use crate::wire::decode_payload;
use crate::wire::decode_record_vals;
use crate::wire::decode_sum_adjacent_at;
use crate::wire::decode_sum_internal_at;
use crate::wire::decode_value;
use crate::wire::encode_payload;
use crate::wire::encode_value;
use crate::wire::encode_variant;
use crate::wire::first_external;
use crate::wire::first_name_match;
use crate::wire::payload_wf;
use crate::wire::record_pairs;
use crate::wire::value_wf;
use crate::wire::variant_key;
use vstd::prelude::*;

verus! {

// =================
// round-trip safety
// =================

/// Whether the fields carry pairwise distinct decode-names.
pub open spec fn distinct_field_names(fields: Seq<ResolvedFieldView>) -> bool {
    forall|i: int, k: int|
        0 <= i < k < fields.len() ==> fields[i].name_decode != fields[k].name_decode
}

/// Whether the variants carry pairwise distinct decode-names.
pub open spec fn distinct_variant_names(variants: Seq<ResolvedVariantView>) -> bool {
    forall|i: int, k: int|
        0 <= i < k < variants.len() ==> variants[i].name_decode != variants[k].name_decode
}

/// Whether no field's decode-name collides with the tag field.
pub open spec fn fields_clear_of(fields: Seq<ResolvedFieldView>, tag: Seq<char>) -> bool {
    forall|i: int| 0 <= i < fields.len() ==> fields[i].name_decode != tag
}

/// Whether a variant's struct fields, if any, carry distinct decode-names.
pub open spec fn variant_fields_distinct(v: ResolvedVariantView) -> bool {
    match v.kind {
        ResolvedVariantKindView::Struct(fields) => distinct_field_names(fields),
        _ => true,
    }
}

/// The conditions under which a decode of an encode returns the value
/// unchanged: decode-names nowhere ambiguous, and a representation whose
/// reading is driven by those names. The untagged representation
/// distinguishes variants by payload shape alone, so two variants can
/// share an encoding and its round trip holds for no general reason.
pub open spec fn roundtrip_safe(shape: ResolvedShapeView) -> bool {
    match shape {
        ResolvedShapeView::Unit => true,
        ResolvedShapeView::Newtype(_) => true,
        ResolvedShapeView::Tuple(_) => true,
        ResolvedShapeView::Record(fields) => distinct_field_names(fields),
        ResolvedShapeView::Sum { representation, variants } => distinct_variant_names(variants)
            && match representation {
            ReprView::External => forall|i: int|
                0 <= i < variants.len() ==> variant_fields_distinct(#[trigger] variants[i]),
            ReprView::Internal { tag } => forall|i: int|
                0 <= i < variants.len() ==> (#[trigger] variants[i].kind is Unit
                    || variants[i].kind is Struct) && variant_fields_distinct(variants[i])
                    && match variants[i].kind {
                    ResolvedVariantKindView::Struct(fields) => fields_clear_of(fields, tag),
                    _ => true,
                },
            ReprView::Adjacent { tag, content } => tag != content && forall|i: int|
                0 <= i < variants.len() ==> variant_fields_distinct(#[trigger] variants[i]),
            ReprView::Untagged => false,
        },
    }
}

// ==============
// lookup lemmas
// ==============

/// Looking a key up past a head entry with a different key.
proof fn lemma_lookup_skip_head(
    head: (Seq<char>, JsonV),
    rest: Seq<(Seq<char>, JsonV)>,
    key: Seq<char>,
)
    requires
        head.0 != key,
    ensures
        lookup_first(seq![head] + rest, key) == lookup_first(rest, key),
{
    let all = seq![head] + rest;
    assert(all.first() == head);
    assert(all.drop_first() =~= rest);
}

/// Looking a field's decode-name up in the pairs a record encodes to.
proof fn lemma_lookup_record_pairs(
    fields: Seq<ResolvedFieldView>,
    vals: Seq<JsonV>,
    k: int,
)
    requires
        distinct_field_names(fields),
        vals.len() == fields.len(),
        0 <= k < fields.len(),
    ensures
        lookup_first(record_pairs(fields, true, vals), fields[k].name_decode) == Some(vals[k]),
    decreases k,
{
    let pairs = record_pairs(fields, true, vals);
    assert(pairs.first() == (fields[0].name_decode, vals[0]));
    if k == 0 {
    } else {
        assert(fields[0].name_decode != fields[k].name_decode);
        assert(pairs.drop_first() =~= record_pairs(
            fields.drop_first(),
            true,
            vals.drop_first(),
        ));
        assert(distinct_field_names(fields.drop_first())) by {
            assert forall|i: int, m: int|
                0 <= i < m < fields.drop_first().len() implies fields.drop_first()[i].name_decode
                != fields.drop_first()[m].name_decode by {
                assert(fields.drop_first()[i] == fields[i + 1]);
                assert(fields.drop_first()[m] == fields[m + 1]);
            }
        }
        lemma_lookup_record_pairs(fields.drop_first(), vals.drop_first(), k - 1);
        assert(fields.drop_first()[k - 1] == fields[k]);
        assert(vals.drop_first()[k - 1] == vals[k]);
    }
}

/// A record decodes to exactly the values its fields look up to.
proof fn lemma_decode_record_vals(
    fields: Seq<ResolvedFieldView>,
    entries: Seq<(Seq<char>, JsonV)>,
    vals: Seq<JsonV>,
)
    requires
        vals.len() == fields.len(),
        forall|k: int|
            0 <= k < fields.len() ==> lookup_first(entries, #[trigger] fields[k].name_decode)
                == Some(vals[k]),
    ensures
        decode_record_vals(fields, entries) == Some(vals),
    decreases fields.len(),
{
    if fields.len() == 0 {
        assert(vals =~= Seq::<JsonV>::empty());
    } else {
        assert(forall|k: int|
            0 <= k < fields.drop_last().len() ==> #[trigger] fields.drop_last()[k] == fields[k]);
        lemma_decode_record_vals(fields.drop_last(), entries, vals.drop_last());
        assert(lookup_first(entries, fields.last().name_decode) == Some(vals.last()));
        assert(vals.drop_last().push(vals.last()) =~= vals);
    }
}

/// The round trip of one record: encoded with decode-names, looked up by
/// decode-names.
proof fn lemma_record_roundtrip(fields: Seq<ResolvedFieldView>, vals: Seq<JsonV>)
    requires
        distinct_field_names(fields),
        vals.len() == fields.len(),
    ensures
        decode_record_vals(fields, record_pairs(fields, true, vals)) == Some(vals),
{
    let pairs = record_pairs(fields, true, vals);
    assert forall|k: int| 0 <= k < fields.len() implies lookup_first(
        pairs,
        #[trigger] fields[k].name_decode,
    ) == Some(vals[k]) by {
        lemma_lookup_record_pairs(fields, vals, k);
    }
    lemma_decode_record_vals(fields, pairs, vals);
}

/// The round trip of one payload, read from its shape alone.
proof fn lemma_payload_roundtrip(kind: ResolvedVariantKindView, p: PayloadV)
    requires
        payload_wf(kind, p),
        match kind {
            ResolvedVariantKindView::Struct(fields) => distinct_field_names(fields),
            _ => true,
        },
    ensures
        decode_payload(kind, encode_payload(kind, true, p)) == Some(p),
{
    match (kind, p) {
        (ResolvedVariantKindView::Tuple(tys), PayloadV::Tuple(vals)) => {
            assert(vals.take(tys.len() as int) =~= vals);
        },
        (ResolvedVariantKindView::Struct(fields), PayloadV::Record(vals)) => {
            lemma_record_roundtrip(fields, vals);
        },
        _ => {},
    }
}

// ====================
// externally tagged
// ====================

/// A variant's own encoding is accepted by its own decoder.
proof fn lemma_external_accepts(v: ResolvedVariantView, p: PayloadV)
    requires
        payload_wf(v.kind, p),
        variant_fields_distinct(v),
    ensures
        decode_external_variant(v, encode_variant(v, ReprView::External, true, p)) == Some(p),
{
    let j = encode_variant(v, ReprView::External, true, p);
    match p {
        PayloadV::Unit => {
            assert(v.kind is Unit);
        },
        _ => {
            let entries = seq![(v.name_decode, encode_payload(v.kind, true, p))];
            assert(j == JsonV::Object(entries));
            assert(entries.first() == (v.name_decode, encode_payload(v.kind, true, p)));
            assert(lookup_first(entries, v.name_decode) == Some(encode_payload(v.kind, true, p)));
            assert(!(v.kind is Unit));
            lemma_payload_roundtrip(v.kind, p);
        },
    }
}

/// A variant's encoding is rejected by every variant of another
/// decode-name.
proof fn lemma_external_rejects(v: ResolvedVariantView, p: PayloadV, w: ResolvedVariantView)
    requires
        payload_wf(v.kind, p),
        w.name_decode != v.name_decode,
    ensures
        decode_external_variant(w, encode_variant(v, ReprView::External, true, p)) is None,
{
    let j = encode_variant(v, ReprView::External, true, p);
    match p {
        PayloadV::Unit => {
            assert(j == JsonV::Str(v.name_decode));
        },
        _ => {
            let entries = seq![(v.name_decode, encode_payload(v.kind, true, p))];
            assert(j == JsonV::Object(entries));
            match w.kind {
                ResolvedVariantKindView::Unit => {},
                _ => {
                    assert(entries.first().0 == v.name_decode);
                    assert(entries.drop_first() =~= Seq::<(Seq<char>, JsonV)>::empty());
                    assert(lookup_first(Seq::<(Seq<char>, JsonV)>::empty(), w.name_decode)
                        is None);
                    assert(lookup_first(entries, w.name_decode) is None);
                },
            }
        },
    }
}

/// The first accepting variant of an encoding is the encoded one.
proof fn lemma_first_external(
    variants: Seq<ResolvedVariantView>,
    j: JsonV,
    index: int,
    p: PayloadV,
    i: int,
)
    requires
        0 <= i <= index < variants.len(),
        forall|k: int| 0 <= k < index ==> decode_external_variant(#[trigger] variants[k], j) is None,
        decode_external_variant(variants[index], j) == Some(p),
    ensures
        first_external(variants, j, i) == Some(ShapeValueV::Variant { index, payload: p }),
    decreases index - i,
{
    if i < index {
        lemma_first_external(variants, j, index, p, i + 1);
    }
}

// =============
// name matching
// =============

/// The first variant matching an encoded decode-name is the encoded one.
proof fn lemma_first_name_match(variants: Seq<ResolvedVariantView>, index: int, i: int)
    requires
        distinct_variant_names(variants),
        0 <= i <= index < variants.len(),
    ensures
        first_name_match(variants, variants[index].name_decode, i) == Some(index),
    decreases index - i,
{
    if i < index {
        assert(variants[i].name_decode != variants[index].name_decode);
        lemma_first_name_match(variants, index, i + 1);
    }
}

// ==============
// the round trip
// ==============

/// For every shape whose decode-names are unambiguous, and every
/// well-formed value of it, reading back what the wire carries for the
/// decoder returns the value unchanged.
pub proof fn lemma_roundtrip(shape: ResolvedShapeView, v: ShapeValueV)
    requires
        roundtrip_safe(shape),
        value_wf(shape, v),
    ensures
        decode_value(shape, encode_value(shape, true, v)) == Some(v),
{
    match (shape, v) {
        (ResolvedShapeView::Tuple(tys), ShapeValueV::Tuple(vals)) => {
            assert(vals.take(tys.len() as int) =~= vals);
        },
        (ResolvedShapeView::Record(fields), ShapeValueV::Record(vals)) => {
            lemma_record_roundtrip(fields, vals);
        },
        (
            ResolvedShapeView::Sum { representation, variants },
            ShapeValueV::Variant { index, payload },
        ) => {
            let w = variants[index];
            match representation {
                ReprView::External => {
                    let j = encode_variant(w, ReprView::External, true, payload);
                    lemma_external_accepts(w, payload);
                    assert forall|k: int| 0 <= k < index implies decode_external_variant(
                        #[trigger] variants[k],
                        j,
                    ) is None by {
                        lemma_external_rejects(w, payload, variants[k]);
                    }
                    lemma_first_external(variants, j, index, payload, 0);
                },
                ReprView::Internal { tag } => {
                    lemma_roundtrip_internal(variants, tag, index, payload);
                },
                ReprView::Adjacent { tag, content } => {
                    lemma_roundtrip_adjacent(variants, tag, content, index, payload);
                },
                ReprView::Untagged => {},
            }
        },
        _ => {},
    }
}

/// The internally tagged round trip of one variant.
proof fn lemma_roundtrip_internal(
    variants: Seq<ResolvedVariantView>,
    tag: Seq<char>,
    index: int,
    payload: PayloadV,
)
    requires
        roundtrip_safe(
            ResolvedShapeView::Sum { representation: ReprView::Internal { tag }, variants },
        ),
        0 <= index < variants.len(),
        payload_wf(variants[index].kind, payload),
    ensures
        decode_value(
            ResolvedShapeView::Sum { representation: ReprView::Internal { tag }, variants },
            encode_variant(variants[index], ReprView::Internal { tag }, true, payload),
        ) == Some(ShapeValueV::Variant { index, payload }),
{
    let w = variants[index];
    let j = encode_variant(w, ReprView::Internal { tag }, true, payload);
    lemma_first_name_match(variants, index, 0);
    match payload {
        PayloadV::Record(vals) => {
            match w.kind {
                ResolvedVariantKindView::Struct(fields) => {
                    let head = (tag, JsonV::Str(w.name_decode));
                    let pairs = record_pairs(fields, true, vals);
                    let entries = seq![head] + pairs;
                    assert(j == JsonV::Object(entries));
                    assert(entries.first() == head);
                    assert(lookup_first(entries, tag) == Some(JsonV::Str(w.name_decode)));
                    assert forall|k: int| 0 <= k < fields.len() implies lookup_first(
                        entries,
                        #[trigger] fields[k].name_decode,
                    ) == Some(vals[k]) by {
                        assert(fields[k].name_decode != tag);
                        lemma_lookup_skip_head(head, pairs, fields[k].name_decode);
                        lemma_lookup_record_pairs(fields, vals, k);
                    }
                    lemma_decode_record_vals(fields, entries, vals);
                    assert(decode_sum_internal_at(variants, index, entries) == Some(
                        ShapeValueV::Variant { index, payload },
                    ));
                },
                _ => {
                    assert(false);
                },
            }
        },
        PayloadV::Unit => {
            let entries = seq![(tag, JsonV::Str(w.name_decode))];
            assert(j == JsonV::Object(entries));
            assert(entries.first() == (tag, JsonV::Str(w.name_decode)));
            assert(lookup_first(entries, tag) == Some(JsonV::Str(w.name_decode)));
            assert(w.kind is Unit);
        },
        _ => {
            assert(false);
        },
    }
}

/// The adjacently tagged round trip of one variant.
proof fn lemma_roundtrip_adjacent(
    variants: Seq<ResolvedVariantView>,
    tag: Seq<char>,
    content: Seq<char>,
    index: int,
    payload: PayloadV,
)
    requires
        roundtrip_safe(
            ResolvedShapeView::Sum {
                representation: ReprView::Adjacent { tag, content },
                variants,
            },
        ),
        0 <= index < variants.len(),
        payload_wf(variants[index].kind, payload),
    ensures
        decode_value(
            ResolvedShapeView::Sum {
                representation: ReprView::Adjacent { tag, content },
                variants,
            },
            encode_variant(variants[index], ReprView::Adjacent { tag, content }, true, payload),
        ) == Some(ShapeValueV::Variant { index, payload }),
{
    let w = variants[index];
    let j = encode_variant(w, ReprView::Adjacent { tag, content }, true, payload);
    lemma_first_name_match(variants, index, 0);
    match payload {
        PayloadV::Unit => {
            let entries = seq![(tag, JsonV::Str(w.name_decode))];
            assert(j == JsonV::Object(entries));
            assert(entries.first() == (tag, JsonV::Str(w.name_decode)));
            assert(lookup_first(entries, tag) == Some(JsonV::Str(w.name_decode)));
            assert(w.kind is Unit);
        },
        _ => {
            let head = (tag, JsonV::Str(w.name_decode));
            let pj = encode_payload(w.kind, true, payload);
            let entries = seq![head, (content, pj)];
            assert(j == JsonV::Object(entries));
            assert(entries.first() == head);
            assert(lookup_first(entries, tag) == Some(JsonV::Str(w.name_decode)));
            assert(entries.drop_first() =~= seq![(content, pj)]);
            assert(seq![(content, pj)].first() == (content, pj));
            assert(lookup_first(seq![(content, pj)], content) == Some(pj));
            assert(lookup_first(entries, content) == Some(pj));
            if w.kind is Unit {
                assert(!payload_wf(w.kind, payload));
            }
            assert(!(w.kind is Unit));
            lemma_payload_roundtrip(w.kind, payload);
            assert(decode_sum_adjacent_at(variants, index, content, entries) == Some(
                ShapeValueV::Variant { index, payload },
            ));
        },
    }
}

// ====================
// untagged, conditionally
// ====================

proof fn lemma_first_untagged(
    variants: Seq<ResolvedVariantView>,
    j: JsonV,
    index: int,
    p: PayloadV,
    i: int,
)
    requires
        0 <= i <= index < variants.len(),
        forall|k: int| 0 <= k < index ==> decode_payload(#[trigger] variants[k].kind, j) is None,
        decode_payload(variants[index].kind, j) == Some(p),
    ensures
        crate::wire::first_untagged(variants, j, i) == Some(
            ShapeValueV::Variant { index, payload: p },
        ),
    decreases index - i,
{
    if i < index {
        lemma_first_untagged(variants, j, index, p, i + 1);
    }
}

/// An untagged sum round-trips one variant exactly when no earlier
/// variant's shape accepts its encoding: the representation carries no tag,
/// so nothing more can be promised of it in general.
pub proof fn lemma_roundtrip_untagged(
    variants: Seq<ResolvedVariantView>,
    index: int,
    payload: PayloadV,
)
    requires
        0 <= index < variants.len(),
        payload_wf(variants[index].kind, payload),
        variant_fields_distinct(variants[index]),
        forall|k: int|
            0 <= k < index ==> decode_payload(
                #[trigger] variants[k].kind,
                encode_payload(variants[index].kind, true, payload),
            ) is None,
    ensures
        decode_value(
            ResolvedShapeView::Sum { representation: ReprView::Untagged, variants },
            encode_value(
                ResolvedShapeView::Sum { representation: ReprView::Untagged, variants },
                true,
                ShapeValueV::Variant { index, payload },
            ),
        ) == Some(ShapeValueV::Variant { index, payload }),
{
    let j = encode_payload(variants[index].kind, true, payload);
    lemma_payload_roundtrip(variants[index].kind, payload);
    lemma_first_untagged(variants, j, index, payload, 0);
}

// ====================
// symmetric-name corollary
// ====================

/// Whether every encode-name equals its decode-name, as without
/// directional renames.
pub open spec fn names_symmetric(shape: ResolvedShapeView) -> bool {
    match shape {
        ResolvedShapeView::Record(fields) => forall|i: int|
            0 <= i < fields.len() ==> #[trigger] fields[i].name_encode == fields[i].name_decode,
        ResolvedShapeView::Sum { representation, variants } => forall|i: int|
            0 <= i < variants.len() ==> #[trigger] variants[i].name_encode
                == variants[i].name_decode && match variants[i].kind {
                ResolvedVariantKindView::Struct(fields) => forall|k: int|
                    0 <= k < fields.len() ==> #[trigger] fields[k].name_encode
                        == fields[k].name_decode,
                _ => true,
            },
        _ => true,
    }
}

proof fn lemma_payload_encode_agrees(kind: ResolvedVariantKindView, p: PayloadV)
    requires
        match kind {
            ResolvedVariantKindView::Struct(fields) => forall|k: int|
                0 <= k < fields.len() ==> #[trigger] fields[k].name_encode
                    == fields[k].name_decode,
            _ => true,
        },
    ensures
        encode_payload(kind, false, p) == encode_payload(kind, true, p),
{
    match (kind, p) {
        (ResolvedVariantKindView::Struct(fields), PayloadV::Record(vals)) => {
            assert(record_pairs(fields, false, vals) =~= record_pairs(fields, true, vals));
        },
        _ => {},
    }
}

/// With symmetric names, the generated encoder writes exactly what the
/// generated decoder reads.
pub proof fn lemma_encoder_writes_for_decoder(shape: ResolvedShapeView, v: ShapeValueV)
    requires
        names_symmetric(shape),
        value_wf(shape, v),
    ensures
        encode_value(shape, false, v) == encode_value(shape, true, v),
{
    match (shape, v) {
        (ResolvedShapeView::Record(fields), ShapeValueV::Record(vals)) => {
            assert(record_pairs(fields, false, vals) =~= record_pairs(fields, true, vals));
        },
        (
            ResolvedShapeView::Sum { representation, variants },
            ShapeValueV::Variant { index, payload },
        ) => {
            let w = variants[index];
            assert(variant_key(w, false) == variant_key(w, true));
            lemma_payload_encode_agrees(w.kind, payload);
            match representation {
                ReprView::Internal { tag } => {
                    match (w.kind, payload) {
                        (ResolvedVariantKindView::Struct(fields), PayloadV::Record(vals)) => {
                            assert(record_pairs(fields, false, vals) =~= record_pairs(
                                fields,
                                true,
                                vals,
                            ));
                        },
                        _ => {},
                    }
                },
                _ => {},
            }
        },
        _ => {},
    }
}

/// With symmetric names, the generated decoder returns unchanged every
/// well-formed value the generated encoder wrote.
pub proof fn lemma_roundtrip_symmetric(shape: ResolvedShapeView, v: ShapeValueV)
    requires
        roundtrip_safe(shape),
        names_symmetric(shape),
        value_wf(shape, v),
    ensures
        decode_value(shape, encode_value(shape, false, v)) == Some(v),
{
    lemma_encoder_writes_for_decoder(shape, v);
    lemma_roundtrip(shape, v);
}

// ===========
// determinism
// ===========

/// Generation is deterministic: every generator's output is a function of
/// the resolved input alone, so the same input yields byte-identical text.
pub proof fn lemma_generation_deterministic(a: ResolvedView, b: ResolvedView)
    requires
        a == b,
    ensures
        declaration_text(a) == declaration_text(b),
        decoder_text(a) == decoder_text(b),
        encoder_text(a) == encoder_text(b),
        spec_query_encoder(a) == spec_query_encoder(b),
{
}

// =================
// rename precedence
// =================

/// A directional rename on the field wins over a container `rename_all`
/// for its own direction, and the container policy still names the other
/// direction.
pub proof fn lemma_rename_precedence(f: StructFieldView, ca: ContainerAttributesView)
    requires
        f.attributes.rename_serialize is Some,
        f.attributes.rename_deserialize is None,
        f.attributes.rename is None,
        ca.rename_all is Some,
        ca.rename_all_serialize is None,
        ca.rename_all_deserialize is None,
    ensures
        spec_resolve_field(
            f,
            first_policy2(ca.rename_all_serialize, ca.rename_all),
            first_policy2(ca.rename_all_deserialize, ca.rename_all),
        ).name_encode == f.attributes.rename_serialize->0,
        spec_resolve_field(
            f,
            first_policy2(ca.rename_all_serialize, ca.rename_all),
            first_policy2(ca.rename_all_deserialize, ca.rename_all),
        ).name_decode == rename_all_applied(ca.rename_all->0, f.ident),
{
}

// ====================
// transparent shortcut
// ====================

/// A one-field record of a transparent container resolves, and therefore
/// generates, exactly as a newtype of that field's element type.
pub proof fn lemma_transparent_shortcut(
    ident: Seq<char>,
    fields: Seq<StructFieldView>,
    ca: ContainerAttributesView,
)
    requires
        ca.transparent,
        fields.len() == 1,
    ensures
        spec_resolve_shape(TypeInfoView::Struct(fields), ca) == spec_resolve_shape(
            TypeInfoView::Newtype(fields[0].ty),
            ca,
        ),
        spec_resolve(ident, TypeInfoView::Struct(fields), ca) == spec_resolve(
            ident,
            TypeInfoView::Newtype(fields[0].ty),
            ca,
        ),
{
}

// =========
// rejection
// =========

/// Internal tagging over a sum holding an unskipped newtype or tuple
/// variant is rejected, never silently accepted.
pub proof fn lemma_internal_rejects_positional(variants: Seq<EnumVariantView>, k: int)
    requires
        0 <= k < variants.len(),
        !variants[k].attributes.skip,
        variants[k].kind is Newtype || variants[k].kind is Tuple,
    ensures
        spec_internal_check(variants) is Some,
    decreases k,
{
    let first = variants.first();
    if !first.attributes.skip && (first.kind is Newtype || first.kind is Tuple) {
    } else {
        assert(k >= 1);
        assert(variants.drop_first()[k - 1] == variants[k]);
        lemma_internal_rejects_positional(variants.drop_first(), k - 1);
    }
}

/// Resolution of such a sum fails with a reported error.
pub proof fn lemma_internal_tagging_rejected(
    variants: Seq<EnumVariantView>,
    ca: ContainerAttributesView,
    k: int,
)
    requires
        ca.enum_representation is Internal,
        0 <= k < variants.len(),
        !variants[k].attributes.skip,
        variants[k].kind is Newtype || variants[k].kind is Tuple,
    ensures
        spec_resolve_shape(TypeInfoView::Enum(variants), ca) is Err,
{
    lemma_internal_rejects_positional(variants, k);
}

} // verus!
