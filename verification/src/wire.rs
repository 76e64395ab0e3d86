//! The wire-format model: what the generated encoders write and the
//! generated decoders read, for each shape and tagging convention. Element
//! values are opaque JSON leaves here — a composite round-trips whenever
//! its leaves do, and the leaves are the primitive registry's business.

use crate::ir::ReprView;
use crate::ir::EnumRepresentation;
use crate::json::JsonV;
use crate::json::JsonValue;
use crate::json::json_dup;
use crate::json::json_view;
use crate::json::json_view_list;
use crate::json::lemma_json_view_list;
use crate::json::lookup_first;
use crate::resolve::ResolvedField;
use crate::resolve::ResolvedFieldView;
use crate::resolve::ResolvedShape;
use crate::resolve::ResolvedShapeView;
use crate::resolve::ResolvedVariant;
use crate::resolve::ResolvedVariantKind;
use crate::resolve::ResolvedVariantKindView;
use crate::resolve::ResolvedVariantView;
use vstd::prelude::*;

verus! {

// ===========
// value model
// ===========

/// The payload of one variant of a sum value.
#[derive(Debug, PartialEq, Eq)]
pub enum VariantPayload {
    Unit,
    Newtype(JsonValue),
    Tuple(Vec<JsonValue>),
    Record(Vec<JsonValue>),
}

pub ghost enum PayloadV {
    Unit,
    Newtype(JsonV),
    Tuple(Seq<JsonV>),
    Record(Seq<JsonV>),
}

impl View for VariantPayload {
    type V = PayloadV;

    open spec fn view(&self) -> PayloadV {
        match self {
            VariantPayload::Unit => PayloadV::Unit,
            VariantPayload::Newtype(j) => PayloadV::Newtype(json_view(*j)),
            VariantPayload::Tuple(vals) => PayloadV::Tuple(json_view_list(vals@)),
            VariantPayload::Record(vals) => PayloadV::Record(json_view_list(vals@)),
        }
    }
}

/// One value of a generated type: its leaves are the JSON encodings of the
/// element values, and a sum value names its variant by position in the
/// resolved (skip-free) variant list.
#[derive(Debug, PartialEq, Eq)]
pub enum ShapeValue {
    Unit,
    Newtype(JsonValue),
    Tuple(Vec<JsonValue>),
    Record(Vec<JsonValue>),
    Variant { index: usize, payload: VariantPayload },
}

pub ghost enum ShapeValueV {
    Unit,
    Newtype(JsonV),
    Tuple(Seq<JsonV>),
    Record(Seq<JsonV>),
    Variant { index: int, payload: PayloadV },
}

impl View for ShapeValue {
    type V = ShapeValueV;

    open spec fn view(&self) -> ShapeValueV {
        match self {
            ShapeValue::Unit => ShapeValueV::Unit,
            ShapeValue::Newtype(j) => ShapeValueV::Newtype(json_view(*j)),
            ShapeValue::Tuple(vals) => ShapeValueV::Tuple(json_view_list(vals@)),
            ShapeValue::Record(vals) => ShapeValueV::Record(json_view_list(vals@)),
            ShapeValue::Variant { index, payload } => ShapeValueV::Variant {
                index: *index as int,
                payload: payload@,
            },
        }
    }
}

/// Whether a payload fits a variant's kind.
pub open spec fn payload_wf(kind: ResolvedVariantKindView, p: PayloadV) -> bool {
    match (kind, p) {
        (ResolvedVariantKindView::Unit, PayloadV::Unit) => true,
        (ResolvedVariantKindView::Newtype(_), PayloadV::Newtype(_)) => true,
        (ResolvedVariantKindView::Tuple(tys), PayloadV::Tuple(vals)) => vals.len() == tys.len(),
        (ResolvedVariantKindView::Struct(fields), PayloadV::Record(vals)) => vals.len()
            == fields.len(),
        _ => false,
    }
}

/// Whether a value fits a resolved shape.
pub open spec fn value_wf(shape: ResolvedShapeView, v: ShapeValueV) -> bool {
    match (shape, v) {
        (ResolvedShapeView::Unit, ShapeValueV::Unit) => true,
        (ResolvedShapeView::Newtype(_), ShapeValueV::Newtype(_)) => true,
        (ResolvedShapeView::Tuple(tys), ShapeValueV::Tuple(vals)) => vals.len() == tys.len(),
        (ResolvedShapeView::Record(fields), ShapeValueV::Record(vals)) => vals.len()
            == fields.len(),
        (
            ResolvedShapeView::Sum { representation, variants },
            ShapeValueV::Variant { index, payload },
        ) => 0 <= index < variants.len() && payload_wf(variants[index].kind, payload),
        _ => false,
    }
}

// ======
// encode
// ======

/// The key under which a field is written: its decode-name when producing
/// what the generated decoder reads (the counterpart's side of the wire),
/// its encode-name when modelling the generated encoder itself.
pub open spec fn field_key(f: ResolvedFieldView, for_decoder: bool) -> Seq<char> {
    if for_decoder {
        f.name_decode
    } else {
        f.name_encode
    }
}

/// The name under which a variant is written.
pub open spec fn variant_key(v: ResolvedVariantView, for_decoder: bool) -> Seq<char> {
    if for_decoder {
        v.name_decode
    } else {
        v.name_encode
    }
}

/// The object entries of a record: one per field, in field order.
pub open spec fn record_pairs(
    fields: Seq<ResolvedFieldView>,
    for_decoder: bool,
    vals: Seq<JsonV>,
) -> Seq<(Seq<char>, JsonV)> {
    Seq::new(fields.len(), |i: int| (field_key(fields[i], for_decoder), vals[i]))
}

/// The JSON of one variant payload, without any tag.
pub open spec fn encode_payload(
    kind: ResolvedVariantKindView,
    for_decoder: bool,
    p: PayloadV,
) -> JsonV {
    match (kind, p) {
        (ResolvedVariantKindView::Unit, PayloadV::Unit) => JsonV::Null,
        (ResolvedVariantKindView::Newtype(_), PayloadV::Newtype(j)) => j,
        (ResolvedVariantKindView::Tuple(_), PayloadV::Tuple(vals)) => JsonV::Array(vals),
        (ResolvedVariantKindView::Struct(fields), PayloadV::Record(vals)) => JsonV::Object(
            record_pairs(fields, for_decoder, vals),
        ),
        _ => JsonV::Null,
    }
}

/// The JSON of one variant under a representation.
pub open spec fn encode_variant(
    v: ResolvedVariantView,
    representation: ReprView,
    for_decoder: bool,
    p: PayloadV,
) -> JsonV {
    match representation {
        ReprView::External => match p {
            PayloadV::Unit => JsonV::Str(variant_key(v, for_decoder)),
            _ => JsonV::Object(
                seq![(variant_key(v, for_decoder), encode_payload(v.kind, for_decoder, p))],
            ),
        },
        ReprView::Internal { tag } => match p {
            PayloadV::Record(vals) => match v.kind {
                ResolvedVariantKindView::Struct(fields) => JsonV::Object(
                    seq![(tag, JsonV::Str(variant_key(v, for_decoder)))] + record_pairs(
                        fields,
                        for_decoder,
                        vals,
                    ),
                ),
                _ => JsonV::Null,
            },
            _ => JsonV::Object(seq![(tag, JsonV::Str(variant_key(v, for_decoder)))]),
        },
        ReprView::Adjacent { tag, content } => match p {
            PayloadV::Unit => JsonV::Object(seq![(tag, JsonV::Str(variant_key(v, for_decoder)))]),
            _ => JsonV::Object(
                seq![
                    (tag, JsonV::Str(variant_key(v, for_decoder))),
                    (content, encode_payload(v.kind, for_decoder, p)),
                ],
            ),
        },
        ReprView::Untagged => encode_payload(v.kind, for_decoder, p),
    }
}

/// The JSON a well-formed value is written as, under the given shape. With
/// `for_decoder` set, fields and variants are keyed by their decode-names:
/// that is the JSON which the generated decoder is meant to read. Unset,
/// they are keyed by their encode-names: that is the JSON the generated
/// encoder writes.
pub open spec fn encode_value(shape: ResolvedShapeView, for_decoder: bool, v: ShapeValueV) -> JsonV {
    match (shape, v) {
        (ResolvedShapeView::Unit, ShapeValueV::Unit) => JsonV::Null,
        (ResolvedShapeView::Newtype(_), ShapeValueV::Newtype(j)) => j,
        (ResolvedShapeView::Tuple(_), ShapeValueV::Tuple(vals)) => JsonV::Array(vals),
        (ResolvedShapeView::Record(fields), ShapeValueV::Record(vals)) => JsonV::Object(
            record_pairs(fields, for_decoder, vals),
        ),
        (
            ResolvedShapeView::Sum { representation, variants },
            ShapeValueV::Variant { index, payload },
        ) => encode_variant(variants[index], representation, for_decoder, payload),
        _ => JsonV::Null,
    }
}

// ======
// decode
// ======

/// The field values read from an object: each field's decode-name looked
/// up, first occurrence first, all required.
pub open spec fn decode_record_vals(
    fields: Seq<ResolvedFieldView>,
    entries: Seq<(Seq<char>, JsonV)>,
) -> Option<Seq<JsonV>>
    decreases fields.len(),
{
    if fields.len() == 0 {
        Some(Seq::<JsonV>::empty())
    } else {
        match decode_record_vals(fields.drop_last(), entries) {
            Some(vals) => match lookup_first(entries, fields.last().name_decode) {
                Some(x) => Some(vals.push(x)),
                None => None,
            },
            None => None,
        }
    }
}

/// A payload read from its shape alone, as the untagged decoders do: a
/// unit payload demands `null`, a newtype accepts anything, a tuple
/// demands an array long enough, a record demands an object with every
/// field present.
pub open spec fn decode_payload(kind: ResolvedVariantKindView, j: JsonV) -> Option<PayloadV> {
    match kind {
        ResolvedVariantKindView::Unit => if j == JsonV::Null {
            Some(PayloadV::Unit)
        } else {
            None
        },
        ResolvedVariantKindView::Newtype(_) => Some(PayloadV::Newtype(j)),
        ResolvedVariantKindView::Tuple(tys) => match j {
            JsonV::Array(items) => if items.len() >= tys.len() {
                Some(PayloadV::Tuple(items.take(tys.len() as int)))
            } else {
                None
            },
            _ => None,
        },
        ResolvedVariantKindView::Struct(fields) => match j {
            JsonV::Object(entries) => match decode_record_vals(fields, entries) {
                Some(vals) => Some(PayloadV::Record(vals)),
                None => None,
            },
            _ => None,
        },
    }
}

/// One externally-tagged variant tried against a JSON value.
pub open spec fn decode_external_variant(v: ResolvedVariantView, j: JsonV) -> Option<PayloadV> {
    match v.kind {
        ResolvedVariantKindView::Unit => if j == JsonV::Str(v.name_decode) {
            Some(PayloadV::Unit)
        } else {
            None
        },
        _ => match j {
            JsonV::Object(entries) => match lookup_first(entries, v.name_decode) {
                Some(inner) => decode_payload(v.kind, inner),
                None => None,
            },
            _ => None,
        },
    }
}

/// The first externally-tagged variant, from `i` on, that accepts `j`.
pub open spec fn first_external(
    variants: Seq<ResolvedVariantView>,
    j: JsonV,
    i: int,
) -> Option<ShapeValueV>
    decreases variants.len() - i,
    when 0 <= i <= variants.len()
{
    if i >= variants.len() {
        None
    } else {
        match decode_external_variant(variants[i], j) {
            Some(p) => Some(ShapeValueV::Variant { index: i, payload: p }),
            None => first_external(variants, j, i + 1),
        }
    }
}

/// The first variant, from `i` on, whose shape-only decoder accepts `j`.
pub open spec fn first_untagged(
    variants: Seq<ResolvedVariantView>,
    j: JsonV,
    i: int,
) -> Option<ShapeValueV>
    decreases variants.len() - i,
    when 0 <= i <= variants.len()
{
    if i >= variants.len() {
        None
    } else {
        match decode_payload(variants[i].kind, j) {
            Some(p) => Some(ShapeValueV::Variant { index: i, payload: p }),
            None => first_untagged(variants, j, i + 1),
        }
    }
}

/// The first variant, from `i` on, whose decode-name is `t`.
pub open spec fn first_name_match(variants: Seq<ResolvedVariantView>, t: Seq<char>, i: int) -> Option<
    int,
>
    decreases variants.len() - i,
    when 0 <= i <= variants.len()
{
    if i >= variants.len() {
        None
    } else if variants[i].name_decode == t {
        Some(i)
    } else {
        first_name_match(variants, t, i + 1)
    }
}

/// The catch-all variant, if any: the last one marked `other`.
pub open spec fn last_other_index(variants: Seq<ResolvedVariantView>) -> Option<int>
    decreases variants.len(),
{
    if variants.len() == 0 {
        None
    } else if variants.last().other {
        Some(variants.len() - 1)
    } else {
        last_other_index(variants.drop_last())
    }
}

/// An externally-tagged sum read back: each variant tried in order, the
/// catch-all last.
pub open spec fn decode_sum_external(variants: Seq<ResolvedVariantView>, j: JsonV) -> Option<
    ShapeValueV,
> {
    match first_external(variants, j, 0) {
        Some(v) => Some(v),
        None => match last_other_index(variants) {
            Some(k) => Some(ShapeValueV::Variant { index: k, payload: PayloadV::Unit }),
            None => None,
        },
    }
}

/// The matched variant of an internally-tagged sum read back: its fields
/// taken from the same outer object.
pub open spec fn decode_sum_internal_at(
    variants: Seq<ResolvedVariantView>,
    i: int,
    entries: Seq<(Seq<char>, JsonV)>,
) -> Option<ShapeValueV> {
    match variants[i].kind {
        ResolvedVariantKindView::Unit => Some(
            ShapeValueV::Variant { index: i, payload: PayloadV::Unit },
        ),
        ResolvedVariantKindView::Struct(fields) => match decode_record_vals(fields, entries) {
            Some(vals) => Some(ShapeValueV::Variant { index: i, payload: PayloadV::Record(vals) }),
            None => None,
        },
        _ => None,
    }
}

/// The matched variant of an adjacently-tagged sum read back: its payload
/// taken from the content field.
pub open spec fn decode_sum_adjacent_at(
    variants: Seq<ResolvedVariantView>,
    i: int,
    content: Seq<char>,
    entries: Seq<(Seq<char>, JsonV)>,
) -> Option<ShapeValueV> {
    match variants[i].kind {
        ResolvedVariantKindView::Unit => Some(
            ShapeValueV::Variant { index: i, payload: PayloadV::Unit },
        ),
        _ => match lookup_first(entries, content) {
            Some(inner) => match decode_payload(variants[i].kind, inner) {
                Some(p) => Some(ShapeValueV::Variant { index: i, payload: p }),
                None => None,
            },
            None => None,
        },
    }
}

/// An internally-tagged sum read back from an object's entries: the tag
/// field read as a string, the named variant's fields taken from the same
/// object; an unrecognized tag falls back to the catch-all, if any.
pub open spec fn decode_sum_internal(
    variants: Seq<ResolvedVariantView>,
    tag: Seq<char>,
    entries: Seq<(Seq<char>, JsonV)>,
) -> Option<ShapeValueV> {
    match lookup_first(entries, tag) {
        Some(JsonV::Str(t)) => match first_name_match(variants, t, 0) {
            Some(i) => decode_sum_internal_at(variants, i, entries),
            None => match last_other_index(variants) {
                Some(k) => Some(ShapeValueV::Variant { index: k, payload: PayloadV::Unit }),
                None => None,
            },
        },
        _ => None,
    }
}

/// An adjacently-tagged sum read back from an object's entries: the tag
/// field read as a string, the named variant's payload taken from the
/// content field.
pub open spec fn decode_sum_adjacent(
    variants: Seq<ResolvedVariantView>,
    tag: Seq<char>,
    content: Seq<char>,
    entries: Seq<(Seq<char>, JsonV)>,
) -> Option<ShapeValueV> {
    match lookup_first(entries, tag) {
        Some(JsonV::Str(t)) => match first_name_match(variants, t, 0) {
            Some(i) => decode_sum_adjacent_at(variants, i, content, entries),
            None => match last_other_index(variants) {
                Some(k) => Some(ShapeValueV::Variant { index: k, payload: PayloadV::Unit }),
                None => None,
            },
        },
        _ => None,
    }
}

// ===========
// exec encode
// ===========

fn exec_record_pairs(fields: &Vec<ResolvedField>, for_decoder: bool, vals: &Vec<JsonValue>) -> (r:
    Vec<(String, JsonValue)>)
    requires
        vals@.len() == fields@.len(),
    ensures
        crate::json::json_view_entries(r@) == record_pairs(
            fields.deep_view(),
            for_decoder,
            json_view_list(vals@),
        ),
{
    proof {
        lemma_json_view_list(vals@);
    }
    let mut r: Vec<(String, JsonValue)> = Vec::new();
    let mut i: usize = 0;
    while i < fields.len()
        invariant
            i <= fields.len(),
            vals@.len() == fields@.len(),
            fields.deep_view().len() == fields.len(),
            forall|j: int| 0 <= j < fields.len() ==> fields.deep_view()[j] == fields[j].deep_view(),
            json_view_list(vals@).len() == vals@.len(),
            forall|j: int| 0 <= j < vals@.len() ==> json_view_list(vals@)[j] == json_view(vals@[j]),
            r@.len() == i,
            forall|j: int|
                0 <= j < i ==> crate::json::json_view_entry(#[trigger] r@[j]) == (
                field_key(fields.deep_view()[j], for_decoder),
                json_view_list(vals@)[j],
                ),
        decreases fields.len() - i,
    {
        let key = if for_decoder {
            fields[i].name_decode.clone()
        } else {
            fields[i].name_encode.clone()
        };
        let val = json_dup(&vals[i]);
        r.push((key, val));
        i = i + 1;
    }
    proof {
        crate::json::lemma_json_view_entries(r@);
        assert(crate::json::json_view_entries(r@) =~= record_pairs(
            fields.deep_view(),
            for_decoder,
            json_view_list(vals@),
        ));
    }
    r
}

fn exec_encode_payload(kind: &ResolvedVariantKind, for_decoder: bool, p: &VariantPayload) -> (r:
    JsonValue)
    requires
        payload_wf(kind.deep_view(), p@),
    ensures
        r@ == encode_payload(kind.deep_view(), for_decoder, p@),
{
    match (kind, p) {
        (ResolvedVariantKind::Unit, VariantPayload::Unit) => JsonValue::Null,
        (ResolvedVariantKind::Newtype(_), VariantPayload::Newtype(j)) => json_dup(j),
        (ResolvedVariantKind::Tuple(_), VariantPayload::Tuple(vals)) => {
            let mut out: Vec<JsonValue> = Vec::new();
            let mut i: usize = 0;
            while i < vals.len()
                invariant
                    i <= vals.len(),
                    out.len() == i,
                    forall|j: int| 0 <= j < i ==> json_view(out[j]) == json_view(vals@[j]),
                decreases vals.len() - i,
            {
                let item = json_dup(&vals[i]);
                out.push(item);
                i = i + 1;
            }
            let r = JsonValue::Array(out);
            proof {
                lemma_json_view_list(out@);
                lemma_json_view_list(vals@);
                assert(json_view_list(out@) =~= json_view_list(vals@));
            }
            r
        },
        (ResolvedVariantKind::Struct(fields), VariantPayload::Record(vals)) => {
            proof {
                lemma_json_view_list(vals@);
            }
            let entries = exec_record_pairs(fields, for_decoder, vals);
            JsonValue::Object(entries)
        },
        _ => {
            proof {
                assert(false);
            }
            JsonValue::Null
        },
    }
}

fn exec_encode_variant(
    v: &ResolvedVariant,
    representation: &EnumRepresentation,
    for_decoder: bool,
    p: &VariantPayload,
) -> (r: JsonValue)
    requires
        payload_wf(v.kind.deep_view(), p@),
    ensures
        r@ == encode_variant(v@, representation@, for_decoder, p@),
{
    let key = if for_decoder {
        v.name_decode.clone()
    } else {
        v.name_encode.clone()
    };
    match representation {
        EnumRepresentation::External => match p {
            VariantPayload::Unit => JsonValue::Str(key),
            _ => {
                let payload = exec_encode_payload(&v.kind, for_decoder, p);
                let mut entries: Vec<(String, JsonValue)> = Vec::new();
                entries.push((key, payload));
                let r = JsonValue::Object(entries);
                proof {
                    crate::json::lemma_json_view_entries(entries@);
                    assert(crate::json::json_view_entries(entries@) =~= seq![
                        (variant_key(v@, for_decoder), encode_payload(v.kind@, for_decoder, p@)),
                    ]);
                }
                r
            },
        },
        EnumRepresentation::Internal { tag } => match p {
            VariantPayload::Record(vals) => match &v.kind {
                ResolvedVariantKind::Struct(fields) => {
                    proof {
                        lemma_json_view_list(vals@);
                    }
                    let mut entries: Vec<(String, JsonValue)> = Vec::new();
                    entries.push((tag.clone(), JsonValue::Str(key)));
                    let pairs = exec_record_pairs(fields, for_decoder, vals);
                    proof {
                        crate::json::lemma_json_view_entries(pairs@);
                    }
                    let mut k: usize = 0;
                    while k < pairs.len()
                        invariant
                            k <= pairs@.len(),
                            entries@.len() == 1 + k,
                            crate::json::json_view_entries(pairs@).len() == pairs@.len(),
                            forall|j: int|
                                0 <= j < pairs@.len() ==> crate::json::json_view_entry(
                                    #[trigger] pairs@[j],
                                ) == crate::json::json_view_entries(pairs@)[j],
                            forall|j: int|
                                1 <= j < 1 + k ==> crate::json::json_view_entry(
                                    #[trigger] entries@[j],
                                ) == crate::json::json_view_entries(pairs@)[j - 1],
                            crate::json::json_view_entry(entries@[0]) == (
                            tag@,
                            JsonV::Str(variant_key(v@, for_decoder)),
                            ),
                        decreases pairs.len() - k,
                    {
                        let key2 = pairs[k].0.clone();
                        let val2 = json_dup(&pairs[k].1);
                        entries.push((key2, val2));
                        k = k + 1;
                    }
                    let r = JsonValue::Object(entries);
                    proof {
                        crate::json::lemma_json_view_entries(entries@);
                        assert(crate::json::json_view_entries(entries@) =~= seq![
                            (tag@, JsonV::Str(variant_key(v@, for_decoder))),
                        ] + record_pairs(fields.deep_view(), for_decoder, json_view_list(vals@)));
                    }
                    r
                },
                _ => {
                    proof {
                        assert(false);
                    }
                    JsonValue::Null
                },
            },
            _ => {
                let mut entries: Vec<(String, JsonValue)> = Vec::new();
                entries.push((tag.clone(), JsonValue::Str(key)));
                let r = JsonValue::Object(entries);
                proof {
                    crate::json::lemma_json_view_entries(entries@);
                    assert(crate::json::json_view_entries(entries@) =~= seq![
                        (tag@, JsonV::Str(variant_key(v@, for_decoder))),
                    ]);
                }
                r
            },
        },
        EnumRepresentation::Adjacent { tag, content } => match p {
            VariantPayload::Unit => {
                let mut entries: Vec<(String, JsonValue)> = Vec::new();
                entries.push((tag.clone(), JsonValue::Str(key)));
                let r = JsonValue::Object(entries);
                proof {
                    crate::json::lemma_json_view_entries(entries@);
                    assert(crate::json::json_view_entries(entries@) =~= seq![
                        (tag@, JsonV::Str(variant_key(v@, for_decoder))),
                    ]);
                }
                r
            },
            _ => {
                let payload = exec_encode_payload(&v.kind, for_decoder, p);
                let mut entries: Vec<(String, JsonValue)> = Vec::new();
                entries.push((tag.clone(), JsonValue::Str(key)));
                entries.push((content.clone(), payload));
                let r = JsonValue::Object(entries);
                proof {
                    crate::json::lemma_json_view_entries(entries@);
                    assert(crate::json::json_view_entries(entries@) =~= seq![
                        (tag@, JsonV::Str(variant_key(v@, for_decoder))),
                        (content@, encode_payload(v.kind@, for_decoder, p@)),
                    ]);
                }
                r
            },
        },
        EnumRepresentation::Untagged => exec_encode_payload(&v.kind, for_decoder, p),
    }
}

/// Writes a well-formed value as JSON under a resolved shape. With
/// `for_decoder` set the result carries decode-names, the JSON the
/// generated decoder reads; unset it carries encode-names, the JSON the
/// generated encoder writes.
pub fn encode(shape: &ResolvedShape, for_decoder: bool, v: &ShapeValue) -> (r: JsonValue)
    requires
        value_wf(shape@, v@),
    ensures
        r@ == encode_value(shape@, for_decoder, v@),
{
    match (shape, v) {
        (ResolvedShape::Unit, ShapeValue::Unit) => JsonValue::Null,
        (ResolvedShape::Newtype(_), ShapeValue::Newtype(j)) => json_dup(j),
        (ResolvedShape::Tuple(_), ShapeValue::Tuple(vals)) => {
            let mut out: Vec<JsonValue> = Vec::new();
            let mut i: usize = 0;
            while i < vals.len()
                invariant
                    i <= vals.len(),
                    out.len() == i,
                    forall|j: int| 0 <= j < i ==> json_view(out[j]) == json_view(vals@[j]),
                decreases vals.len() - i,
            {
                let item = json_dup(&vals[i]);
                out.push(item);
                i = i + 1;
            }
            let r = JsonValue::Array(out);
            proof {
                lemma_json_view_list(out@);
                lemma_json_view_list(vals@);
                assert(json_view_list(out@) =~= json_view_list(vals@));
            }
            r
        },
        (ResolvedShape::Record(fields), ShapeValue::Record(vals)) => {
            proof {
                lemma_json_view_list(vals@);
            }
            let entries = exec_record_pairs(fields, for_decoder, vals);
            JsonValue::Object(entries)
        },
        (ResolvedShape::Sum { representation, variants }, ShapeValue::Variant {
            index,
            payload,
        }) => exec_encode_variant(&variants[*index], representation, for_decoder, payload),
        _ => {
            proof {
                assert(false);
            }
            JsonValue::Null
        },
    }
}

/// The value the generated decoder reads from a JSON value, under the
/// given shape and representation, or nothing where the decoder fails.
pub open spec fn decode_value(shape: ResolvedShapeView, j: JsonV) -> Option<ShapeValueV> {
    match shape {
        ResolvedShapeView::Unit => if j == JsonV::Null {
            Some(ShapeValueV::Unit)
        } else {
            None
        },
        ResolvedShapeView::Newtype(_) => Some(ShapeValueV::Newtype(j)),
        ResolvedShapeView::Tuple(tys) => match j {
            JsonV::Array(items) => if items.len() >= tys.len() {
                Some(ShapeValueV::Tuple(items.take(tys.len() as int)))
            } else {
                None
            },
            _ => None,
        },
        ResolvedShapeView::Record(fields) => match j {
            JsonV::Object(entries) => match decode_record_vals(fields, entries) {
                Some(vals) => Some(ShapeValueV::Record(vals)),
                None => None,
            },
            _ => None,
        },
        ResolvedShapeView::Sum { representation, variants } => match representation {
            ReprView::External => decode_sum_external(variants, j),
            ReprView::Internal { tag } => match j {
                JsonV::Object(entries) => decode_sum_internal(variants, tag, entries),
                _ => None,
            },
            ReprView::Adjacent { tag, content } => match j {
                JsonV::Object(entries) => decode_sum_adjacent(variants, tag, content, entries),
                _ => None,
            },
            ReprView::Untagged => first_untagged(variants, j, 0),
        },
    }
}

// ===========
// exec decode
// ===========

fn exec_lookup<'a>(entries: &'a Vec<(String, JsonValue)>, key: &str) -> (r: Option<
    &'a JsonValue,
>)
    ensures
        match r {
            Some(x) => lookup_first(crate::json::json_view_entries(entries@), key@) == Some(
                json_view(*x),
            ),
            None => lookup_first(crate::json::json_view_entries(entries@), key@) is None,
        },
{
    proof {
        crate::json::lemma_json_view_entries(entries@);
        assert(crate::json::json_view_entries(entries@).skip(0) =~= crate::json::json_view_entries(
            entries@,
        ));
    }
    let mut i: usize = 0;
    while i < entries.len()
        invariant
            i <= entries.len(),
            crate::json::json_view_entries(entries@).len() == entries.len(),
            forall|k: int|
                0 <= k < entries.len() ==> crate::json::json_view_entries(entries@)[k]
                    == crate::json::json_view_entry(entries@[k]),
            lookup_first(crate::json::json_view_entries(entries@), key@) == lookup_first(
                crate::json::json_view_entries(entries@).skip(i as int),
                key@,
            ),
        decreases entries.len() - i,
    {
        proof {
            let evs = crate::json::json_view_entries(entries@);
            assert(evs.skip(i as int).first() == evs[i as int]);
            assert(evs.skip(i as int).drop_first() =~= evs.skip(i as int + 1));
        }
        if crate::ir::str_eq(entries[i].0.as_str(), key) {
            return Some(&entries[i].1);
        }
        i = i + 1;
    }
    proof {
        assert(crate::json::json_view_entries(entries@).skip(entries.len() as int) =~= Seq::<
            (Seq<char>, JsonV),
        >::empty());
    }
    None
}

/// A decode of a prefix that fails makes the whole record fail.
proof fn lemma_decode_record_none(
    fields: Seq<ResolvedFieldView>,
    entries: Seq<(Seq<char>, JsonV)>,
    k: int,
)
    requires
        0 <= k <= fields.len(),
        decode_record_vals(fields.take(k), entries) is None,
    ensures
        decode_record_vals(fields, entries) is None,
    decreases fields.len() - k,
{
    if k < fields.len() {
        assert(fields.take(k + 1).drop_last() =~= fields.take(k));
        lemma_decode_record_none(fields, entries, k + 1);
    } else {
        assert(fields.take(k) =~= fields);
    }
}

fn exec_decode_record_vals(fields: &Vec<ResolvedField>, entries: &Vec<(String, JsonValue)>) -> (r:
    Option<Vec<JsonValue>>)
    ensures
        match r {
            Some(vals) => decode_record_vals(
                fields.deep_view(),
                crate::json::json_view_entries(entries@),
            ) == Some(json_view_list(vals@)),
            None => decode_record_vals(
                fields.deep_view(),
                crate::json::json_view_entries(entries@),
            ) is None,
        },
{
    let ghost evs = crate::json::json_view_entries(entries@);
    let mut out: Vec<JsonValue> = Vec::new();
    let mut i: usize = 0;
    proof {
        lemma_json_view_list(out@);
        assert(fields.deep_view().take(0) =~= Seq::<ResolvedFieldView>::empty());
        assert(json_view_list(out@) =~= Seq::<JsonV>::empty());
    }
    while i < fields.len()
        invariant
            i <= fields.len(),
            evs == crate::json::json_view_entries(entries@),
            fields.deep_view().len() == fields.len(),
            forall|j: int| 0 <= j < fields.len() ==> fields.deep_view()[j] == fields[j].deep_view(),
            out.len() == i,
            decode_record_vals(fields.deep_view().take(i as int), evs) == Some(
                json_view_list(out@),
            ),
        decreases fields.len() - i,
    {
        proof {
            let pre = fields.deep_view().take(i as int + 1);
            assert(pre.drop_last() =~= fields.deep_view().take(i as int));
            assert(pre.last() == fields.deep_view()[i as int]);
        }
        match exec_lookup(entries, fields[i].name_decode.as_str()) {
            Some(x) => {
                let ghost prevv = out@;
                let item = json_dup(x);
                out.push(item);
                proof {
                    lemma_json_view_list(prevv);
                    lemma_json_view_list(out@);
                    assert(json_view_list(out@) =~= json_view_list(prevv).push(json_view(*x)));
                }
            },
            None => {
                proof {
                    lemma_decode_record_none(fields.deep_view(), evs, i as int + 1);
                }
                return None;
            },
        }
        i = i + 1;
    }
    proof {
        assert(fields.deep_view().take(fields.len() as int) =~= fields.deep_view());
    }
    Some(out)
}

fn exec_decode_payload(kind: &ResolvedVariantKind, j: &JsonValue) -> (r: Option<VariantPayload>)
    ensures
        match r {
            Some(p) => decode_payload(kind.deep_view(), j@) == Some(p@),
            None => decode_payload(kind.deep_view(), j@) is None,
        },
{
    match kind {
        ResolvedVariantKind::Unit => match j {
            JsonValue::Null => Some(VariantPayload::Unit),
            _ => None,
        },
        ResolvedVariantKind::Newtype(_) => Some(VariantPayload::Newtype(json_dup(j))),
        ResolvedVariantKind::Tuple(tys) => match j {
            JsonValue::Array(items) => {
                proof {
                    lemma_json_view_list(items@);
                }
                if items.len() >= tys.len() {
                    let mut out: Vec<JsonValue> = Vec::new();
                    let mut i: usize = 0;
                    while i < tys.len()
                        invariant
                            i <= tys.len(),
                            tys.len() <= items.len(),
                            out.len() == i,
                            forall|k: int| 0 <= k < i ==> json_view(out[k]) == json_view(items@[k]),
                        decreases tys.len() - i,
                    {
                        let item = json_dup(&items[i]);
                        out.push(item);
                        i = i + 1;
                    }
                    let r = Some(VariantPayload::Tuple(out));
                    proof {
                        lemma_json_view_list(out@);
                        assert(json_view_list(out@) =~= json_view_list(items@).take(
                            tys.deep_view().len() as int,
                        ));
                    }
                    r
                } else {
                    None
                }
            },
            _ => None,
        },
        ResolvedVariantKind::Struct(fields) => match j {
            JsonValue::Object(entries) => match exec_decode_record_vals(fields, entries) {
                Some(vals) => Some(VariantPayload::Record(vals)),
                None => None,
            },
            _ => None,
        },
    }
}

fn exec_decode_external_variant(v: &ResolvedVariant, j: &JsonValue) -> (r: Option<VariantPayload>)
    ensures
        match r {
            Some(p) => decode_external_variant(v@, j@) == Some(p@),
            None => decode_external_variant(v@, j@) is None,
        },
{
    match &v.kind {
        ResolvedVariantKind::Unit => match j {
            JsonValue::Str(s) => {
                if crate::ir::str_eq(s.as_str(), v.name_decode.as_str()) {
                    Some(VariantPayload::Unit)
                } else {
                    None
                }
            },
            _ => None,
        },
        _ => match j {
            JsonValue::Object(entries) => match exec_lookup(entries, v.name_decode.as_str()) {
                Some(inner) => exec_decode_payload(&v.kind, inner),
                None => None,
            },
            _ => None,
        },
    }
}

fn exec_last_other_index(variants: &Vec<ResolvedVariant>) -> (r: Option<usize>)
    ensures
        match r {
            Some(k) => last_other_index(variants.deep_view()) == Some(k as int),
            None => last_other_index(variants.deep_view()) is None,
        },
{
    let mut r: Option<usize> = None;
    let mut i: usize = 0;
    proof {
        assert(variants.deep_view().take(0) =~= Seq::<ResolvedVariantView>::empty());
    }
    while i < variants.len()
        invariant
            i <= variants.len(),
            variants.deep_view().len() == variants.len(),
            forall|j: int|
                0 <= j < variants.len() ==> variants.deep_view()[j] == variants[j].deep_view(),
            match r {
                Some(k) => last_other_index(variants.deep_view().take(i as int)) == Some(k as int),
                None => last_other_index(variants.deep_view().take(i as int)) is None,
            },
        decreases variants.len() - i,
    {
        proof {
            let pre = variants.deep_view().take(i as int + 1);
            assert(pre.drop_last() =~= variants.deep_view().take(i as int));
            assert(pre.last() == variants.deep_view()[i as int]);
        }
        if variants[i].other {
            r = Some(i);
        }
        i = i + 1;
    }
    proof {
        assert(variants.deep_view().take(variants.len() as int) =~= variants.deep_view());
    }
    r
}

fn exec_first_name_match(variants: &Vec<ResolvedVariant>, t: &str) -> (r: Option<usize>)
    ensures
        match r {
            Some(k) => first_name_match(variants.deep_view(), t@, 0) == Some(k as int) && k
                < variants@.len(),
            None => first_name_match(variants.deep_view(), t@, 0) is None,
        },
{
    let mut i: usize = 0;
    while i < variants.len()
        invariant
            i <= variants.len(),
            variants.deep_view().len() == variants.len(),
            forall|j: int|
                0 <= j < variants.len() ==> variants.deep_view()[j] == variants[j].deep_view(),
            first_name_match(variants.deep_view(), t@, 0) == first_name_match(
                variants.deep_view(),
                t@,
                i as int,
            ),
        decreases variants.len() - i,
    {
        if crate::ir::str_eq(variants[i].name_decode.as_str(), t) {
            return Some(i);
        }
        i = i + 1;
    }
    None
}

fn exec_decode_tagged_payload(
    variants: &Vec<ResolvedVariant>,
    i: usize,
    content: &Option<String>,
    entries: &Vec<(String, JsonValue)>,
) -> (r: Option<ShapeValue>)
    requires
        i < variants@.len(),
    ensures
        match content {
            Some(c) => match r {
                Some(v) => decode_sum_adjacent_at(
                    variants.deep_view(),
                    i as int,
                    c@,
                    crate::json::json_view_entries(entries@),
                ) == Some(v@),
                None => decode_sum_adjacent_at(
                    variants.deep_view(),
                    i as int,
                    c@,
                    crate::json::json_view_entries(entries@),
                ) is None,
            },
            None => match r {
                Some(v) => decode_sum_internal_at(
                    variants.deep_view(),
                    i as int,
                    crate::json::json_view_entries(entries@),
                ) == Some(v@),
                None => decode_sum_internal_at(
                    variants.deep_view(),
                    i as int,
                    crate::json::json_view_entries(entries@),
                ) is None,
            },
        },
{
    match content {
        Some(c) => match &variants[i].kind {
            ResolvedVariantKind::Unit => Some(
                ShapeValue::Variant { index: i, payload: VariantPayload::Unit },
            ),
            _ => match exec_lookup(entries, c.as_str()) {
                Some(inner) => match exec_decode_payload(&variants[i].kind, inner) {
                    Some(p) => Some(ShapeValue::Variant { index: i, payload: p }),
                    None => None,
                },
                None => None,
            },
        },
        None => match &variants[i].kind {
            ResolvedVariantKind::Unit => Some(
                ShapeValue::Variant { index: i, payload: VariantPayload::Unit },
            ),
            ResolvedVariantKind::Struct(fields) => match exec_decode_record_vals(
                fields,
                entries,
            ) {
                Some(vals) => Some(
                    ShapeValue::Variant { index: i, payload: VariantPayload::Record(vals) },
                ),
                None => None,
            },
            _ => None,
        },
    }
}

/// Reads the value the generated decoder would read from `j`, under the
/// given resolved shape, or nothing where that decoder fails.
pub fn decode(shape: &ResolvedShape, j: &JsonValue) -> (r: Option<ShapeValue>)
    ensures
        match r {
            Some(v) => decode_value(shape@, j@) == Some(v@),
            None => decode_value(shape@, j@) is None,
        },
{
    match shape {
        ResolvedShape::Unit => match j {
            JsonValue::Null => Some(ShapeValue::Unit),
            _ => None,
        },
        ResolvedShape::Newtype(_) => Some(ShapeValue::Newtype(json_dup(j))),
        ResolvedShape::Tuple(tys) => match j {
            JsonValue::Array(items) => {
                proof {
                    lemma_json_view_list(items@);
                }
                if items.len() >= tys.len() {
                    let mut out: Vec<JsonValue> = Vec::new();
                    let mut i: usize = 0;
                    while i < tys.len()
                        invariant
                            i <= tys.len(),
                            tys.len() <= items.len(),
                            out.len() == i,
                            forall|k: int| 0 <= k < i ==> json_view(out[k]) == json_view(items@[k]),
                        decreases tys.len() - i,
                    {
                        let item = json_dup(&items[i]);
                        out.push(item);
                        i = i + 1;
                    }
                    let r = Some(ShapeValue::Tuple(out));
                    proof {
                        lemma_json_view_list(out@);
                        assert(json_view_list(out@) =~= json_view_list(items@).take(
                            tys.deep_view().len() as int,
                        ));
                    }
                    r
                } else {
                    None
                }
            },
            _ => None,
        },
        ResolvedShape::Record(fields) => match j {
            JsonValue::Object(entries) => match exec_decode_record_vals(fields, entries) {
                Some(vals) => Some(ShapeValue::Record(vals)),
                None => None,
            },
            _ => None,
        },
        ResolvedShape::Sum { representation, variants } => match representation {
            EnumRepresentation::External => {
                let mut i: usize = 0;
                while i < variants.len()
                    invariant
                        i <= variants.len(),
                        variants.deep_view().len() == variants.len(),
                        forall|k: int|
                            0 <= k < variants.len() ==> variants.deep_view()[k] == variants[k].deep_view(),
                        shape@ == (ResolvedShapeView::Sum {
                            representation: ReprView::External,
                            variants: variants.deep_view(),
                        }),
                        first_external(variants.deep_view(), j@, 0) == first_external(
                            variants.deep_view(),
                            j@,
                            i as int,
                        ),
                    decreases variants.len() - i,
                {
                    match exec_decode_external_variant(&variants[i], j) {
                        Some(p) => {
                            proof {
                                assert(first_external(variants.deep_view(), j@, i as int) == Some(
                                    ShapeValueV::Variant { index: i as int, payload: p@ },
                                ));
                            }
                            return Some(ShapeValue::Variant { index: i, payload: p });
                        },
                        None => {},
                    }
                    i = i + 1;
                }
                match exec_last_other_index(variants) {
                    Some(k) => Some(
                        ShapeValue::Variant { index: k, payload: VariantPayload::Unit },
                    ),
                    None => None,
                }
            },
            EnumRepresentation::Internal { tag } => match j {
                JsonValue::Object(entries) => match exec_lookup(entries, tag.as_str()) {
                    Some(tagval) => match tagval {
                        JsonValue::Str(t) => match exec_first_name_match(variants, t.as_str()) {
                            Some(i) => exec_decode_tagged_payload(variants, i, &None, entries),
                            None => match exec_last_other_index(variants) {
                                Some(k) => Some(
                                    ShapeValue::Variant {
                                        index: k,
                                        payload: VariantPayload::Unit,
                                    },
                                ),
                                None => None,
                            },
                        },
                        _ => None,
                    },
                    None => None,
                },
                _ => None,
            },
            EnumRepresentation::Adjacent { tag, content } => match j {
                JsonValue::Object(entries) => match exec_lookup(entries, tag.as_str()) {
                    Some(tagval) => match tagval {
                        JsonValue::Str(t) => match exec_first_name_match(variants, t.as_str()) {
                            Some(i) => exec_decode_tagged_payload(
                                variants,
                                i,
                                &Some(content.clone()),
                                entries,
                            ),
                            None => match exec_last_other_index(variants) {
                                Some(k) => Some(
                                    ShapeValue::Variant {
                                        index: k,
                                        payload: VariantPayload::Unit,
                                    },
                                ),
                                None => None,
                            },
                        },
                        _ => None,
                    },
                    None => None,
                },
                _ => None,
            },
            EnumRepresentation::Untagged => {
                let mut i: usize = 0;
                while i < variants.len()
                    invariant
                        i <= variants.len(),
                        variants.deep_view().len() == variants.len(),
                        forall|k: int|
                            0 <= k < variants.len() ==> variants.deep_view()[k] == variants[k].deep_view(),
                        shape@ == (ResolvedShapeView::Sum {
                            representation: ReprView::Untagged,
                            variants: variants.deep_view(),
                        }),
                        first_untagged(variants.deep_view(), j@, 0) == first_untagged(
                            variants.deep_view(),
                            j@,
                            i as int,
                        ),
                    decreases variants.len() - i,
                {
                    match exec_decode_payload(&variants[i].kind, j) {
                        Some(p) => {
                            proof {
                                assert(first_untagged(variants.deep_view(), j@, i as int) == Some(
                                    ShapeValueV::Variant { index: i as int, payload: p@ },
                                ));
                            }
                            return Some(ShapeValue::Variant { index: i, payload: p });
                        },
                        None => {},
                    }
                    i = i + 1;
                }
                None
            },
        },
    }
}

} // verus!
