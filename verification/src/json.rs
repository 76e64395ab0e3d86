//! A small JSON value model: the wire values that the generated encoders
//! produce and the generated decoders consume, together with a compact
//! writer in the style the JSON ecosystem uses (no whitespace, `,` and `:`
//! separators).

use crate::text;
use crate::text::join_texts;
use vstd::prelude::*;

verus! {

/// One JSON value. Numbers carry their literal text, so that no precision
/// is lost and no numeric formatting is baked into the model.
#[derive(Debug, PartialEq, Eq)]
pub enum JsonValue {
    Null,
    Bool(bool),
    Number(String),
    Str(String),
    Array(Vec<JsonValue>),
    Object(Vec<(String, JsonValue)>),
}

pub ghost enum JsonV {
    Null,
    Bool(bool),
    Number(Seq<char>),
    Str(Seq<char>),
    Array(Seq<JsonV>),
    Object(Seq<(Seq<char>, JsonV)>),
}

/// The abstract value of one JSON value.
pub open spec fn json_view(v: JsonValue) -> JsonV
    decreases v,
{
    match v {
        JsonValue::Null => JsonV::Null,
        JsonValue::Bool(b) => JsonV::Bool(b),
        JsonValue::Number(s) => JsonV::Number(s@),
        JsonValue::Str(s) => JsonV::Str(s@),
        JsonValue::Array(items) => {
            proof {
                assert(decreases_to!(v => items));
                assert(decreases_to!(items => items@));
            }
            JsonV::Array(json_view_list(items@))
        },
        JsonValue::Object(entries) => {
            proof {
                assert(decreases_to!(v => entries));
                assert(decreases_to!(entries => entries@));
            }
            JsonV::Object(json_view_entries(entries@))
        },
    }
}

/// The abstract values of a list of JSON values.
pub open spec fn json_view_list(s: Seq<JsonValue>) -> Seq<JsonV>
    decreases s,
{
    if s.len() == 0 {
        Seq::<JsonV>::empty()
    } else {
        proof {
            assert(decreases_to!(s => s.drop_last()));
            assert(decreases_to!(s => s.last()));
        }
        json_view_list(s.drop_last()).push(json_view(s.last()))
    }
}

/// The abstract value of one object entry.
pub open spec fn json_view_entry(e: (String, JsonValue)) -> (Seq<char>, JsonV)
    decreases e,
{
    (e.0@, json_view(e.1))
}

/// The abstract values of an object's entries.
pub open spec fn json_view_entries(s: Seq<(String, JsonValue)>) -> Seq<(Seq<char>, JsonV)>
    decreases s,
{
    if s.len() == 0 {
        Seq::<(Seq<char>, JsonV)>::empty()
    } else {
        proof {
            assert(decreases_to!(s => s.drop_last()));
            assert(decreases_to!(s => s.last()));
        }
        json_view_entries(s.drop_last()).push(json_view_entry(s.last()))
    }
}

/// The view of a list, element by element.
pub proof fn lemma_json_view_list(s: Seq<JsonValue>)
    ensures
        json_view_list(s).len() == s.len(),
        forall|i: int| 0 <= i < s.len() ==> json_view_list(s)[i] == json_view(s[i]),
    decreases s.len(),
{
    if s.len() > 0 {
        lemma_json_view_list(s.drop_last());
        assert forall|i: int| 0 <= i < s.len() implies json_view_list(s)[i] == json_view(
            s[i],
        ) by {
            if i < s.len() - 1 {
                assert(json_view_list(s)[i] == json_view_list(s.drop_last())[i]);
                assert(s.drop_last()[i] == s[i]);
            } else {
                assert(s.last() == s[i]);
            }
        }
    }
}

/// The view of an object's entries, element by element.
pub proof fn lemma_json_view_entries(s: Seq<(String, JsonValue)>)
    ensures
        json_view_entries(s).len() == s.len(),
        forall|i: int| 0 <= i < s.len() ==> json_view_entries(s)[i] == json_view_entry(s[i]),
    decreases s.len(),
{
    if s.len() > 0 {
        lemma_json_view_entries(s.drop_last());
        assert forall|i: int| 0 <= i < s.len() implies json_view_entries(s)[i] == json_view_entry(
            s[i],
        ) by {
            if i < s.len() - 1 {
                assert(json_view_entries(s)[i] == json_view_entries(s.drop_last())[i]);
                assert(s.drop_last()[i] == s[i]);
            } else {
                assert(s.last() == s[i]);
            }
        }
    }
}

impl View for JsonValue {
    type V = JsonV;

    open spec fn view(&self) -> JsonV {
        json_view(*self)
    }
}

impl DeepView for JsonValue {
    type V = JsonV;

    open spec fn deep_view(&self) -> JsonV {
        json_view(*self)
    }
}

/// A copy of a JSON value.
pub fn json_dup(v: &JsonValue) -> (r: JsonValue)
    ensures
        r@ == v@,
    decreases *v,
{
    match v {
        JsonValue::Null => JsonValue::Null,
        JsonValue::Bool(b) => JsonValue::Bool(*b),
        JsonValue::Number(s) => JsonValue::Number(s.clone()),
        JsonValue::Str(s) => JsonValue::Str(s.clone()),
        JsonValue::Array(items) => {
            proof {
                assert(decreases_to!(*v => *items));
                assert(decreases_to!(*items => items@));
            }
            let mut out: Vec<JsonValue> = Vec::new();
            let mut i: usize = 0;
            while i < items.len()
                invariant
                    i <= items.len(),
                    out.len() == i,
                    decreases_to!(*v => items@),
                    forall|j: int| 0 <= j < i ==> json_view(out[j]) == json_view(items@[j]),
                decreases items.len() - i,
            {
                proof {
                    assert(decreases_to!(items@ => items@[i as int]));
                }
                let item = json_dup(&items[i]);
                out.push(item);
                i = i + 1;
            }
            let r = JsonValue::Array(out);
            proof {
                lemma_json_view_list(out@);
                lemma_json_view_list(items@);
                assert(json_view_list(out@) =~= json_view_list(items@));
            }
            r
        },
        JsonValue::Object(entries) => {
            proof {
                assert(decreases_to!(*v => *entries));
                assert(decreases_to!(*entries => entries@));
            }
            let mut out: Vec<(String, JsonValue)> = Vec::new();
            let mut i: usize = 0;
            while i < entries.len()
                invariant
                    i <= entries.len(),
                    out.len() == i,
                    decreases_to!(*v => entries@),
                    forall|j: int|
                        0 <= j < i ==> out[j].0@ == entries@[j].0@ && json_view(out[j].1)
                            == json_view(entries@[j].1),
                decreases entries.len() - i,
            {
                proof {
                    assert(decreases_to!(entries@ => entries@[i as int]));
                    assert(decreases_to!(entries@[i as int] => entries@[i as int].1));
                }
                let key = entries[i].0.clone();
                let val = json_dup(&entries[i].1);
                out.push((key, val));
                i = i + 1;
            }
            let r = JsonValue::Object(out);
            proof {
                lemma_json_view_entries(out@);
                lemma_json_view_entries(entries@);
                assert(json_view_entries(out@) =~= json_view_entries(entries@));
            }
            r
        },
    }
}

// ======
// lookup
// ======

/// The value at the first occurrence of `key`, as the generated decoders
/// read an object.
pub open spec fn lookup_first(entries: Seq<(Seq<char>, JsonV)>, key: Seq<char>) -> Option<JsonV>
    decreases entries.len(),
{
    if entries.len() == 0 {
        None
    } else if entries.first().0 == key {
        Some(entries.first().1)
    } else {
        lookup_first(entries.drop_first(), key)
    }
}

// ======
// writer
// ======

/// Whether a text can stand between quotes unescaped: no quote, no
/// backslash, no control character.
pub open spec fn plain_text(s: Seq<char>) -> bool {
    forall|i: int| 0 <= i < s.len() ==> s[i] != '"' && s[i] != '\\' && s[i] as u32 >= 32
}

/// Whether every string and key in the value is plain, so the writer needs
/// no escaping.
pub open spec fn plain_json(v: JsonV) -> bool
    decreases v,
{
    match v {
        JsonV::Null => true,
        JsonV::Bool(b) => true,
        JsonV::Number(s) => true,
        JsonV::Str(s) => plain_text(s),
        JsonV::Array(items) => {
            proof {
                assert(decreases_to!(v => items));
            }
            plain_json_list(items)
        },
        JsonV::Object(entries) => {
            proof {
                assert(decreases_to!(v => entries));
            }
            plain_json_entries(entries)
        },
    }
}

/// Whether every value of a list is plain.
pub open spec fn plain_json_list(items: Seq<JsonV>) -> bool
    decreases items,
{
    if items.len() == 0 {
        true
    } else {
        proof {
            assert(decreases_to!(items => items.drop_last()));
            assert(decreases_to!(items => items.last()));
        }
        plain_json_list(items.drop_last()) && plain_json(items.last())
    }
}

/// Whether every key and value of an object's entries is plain.
pub open spec fn plain_json_entries(entries: Seq<(Seq<char>, JsonV)>) -> bool
    decreases entries,
{
    if entries.len() == 0 {
        true
    } else {
        proof {
            assert(decreases_to!(entries => entries.drop_last()));
            assert(decreases_to!(entries => entries.last()));
        }
        plain_json_entries(entries.drop_last()) && plain_text(entries.last().0) && plain_json(
            entries.last().1,
        )
    }
}

/// A plain list is plain at each element.
pub proof fn lemma_plain_json_list(items: Seq<JsonV>)
    requires
        plain_json_list(items),
    ensures
        forall|i: int| 0 <= i < items.len() ==> plain_json(#[trigger] items[i]),
    decreases items.len(),
{
    if items.len() > 0 {
        lemma_plain_json_list(items.drop_last());
        assert forall|i: int| 0 <= i < items.len() implies plain_json(#[trigger] items[i]) by {
            if i < items.len() - 1 {
                assert(items.drop_last()[i] == items[i]);
            } else {
                assert(items.last() == items[i]);
            }
        }
    }
}

/// Plain entries are plain at each key and value.
pub proof fn lemma_plain_json_entries(entries: Seq<(Seq<char>, JsonV)>)
    requires
        plain_json_entries(entries),
    ensures
        forall|i: int|
            0 <= i < entries.len() ==> plain_text(#[trigger] entries[i].0) && plain_json(
                entries[i].1,
            ),
    decreases entries.len(),
{
    if entries.len() > 0 {
        lemma_plain_json_entries(entries.drop_last());
        assert forall|i: int| 0 <= i < entries.len() implies plain_text(#[trigger] entries[i].0)
            && plain_json(entries[i].1) by {
            if i < entries.len() - 1 {
                assert(entries.drop_last()[i] == entries[i]);
            } else {
                assert(entries.last() == entries[i]);
            }
        }
    }
}

/// The compact text of one JSON value.
pub open spec fn json_text(v: JsonV) -> Seq<char>
    decreases v,
{
    match v {
        JsonV::Null => "null"@,
        JsonV::Bool(b) => if b {
            "true"@
        } else {
            "false"@
        },
        JsonV::Number(s) => s,
        JsonV::Str(s) => "\""@ + s + "\""@,
        JsonV::Array(items) => {
            proof {
                assert(decreases_to!(v => items));
            }
            "["@ + join_texts(json_text_list(items), ","@) + "]"@
        },
        JsonV::Object(entries) => {
            proof {
                assert(decreases_to!(v => entries));
            }
            "{"@ + join_texts(json_text_entries(entries), ","@) + "}"@
        },
    }
}

/// The compact texts of a list of JSON values.
pub open spec fn json_text_list(items: Seq<JsonV>) -> Seq<Seq<char>>
    decreases items,
{
    if items.len() == 0 {
        Seq::<Seq<char>>::empty()
    } else {
        proof {
            assert(decreases_to!(items => items.drop_last()));
            assert(decreases_to!(items => items.last()));
        }
        json_text_list(items.drop_last()).push(json_text(items.last()))
    }
}

/// The compact text of one object entry.
pub open spec fn json_text_entry(e: (Seq<char>, JsonV)) -> Seq<char>
    decreases e,
{
    "\""@ + e.0 + "\":"@ + json_text(e.1)
}

/// The compact texts of an object's entries.
pub open spec fn json_text_entries(entries: Seq<(Seq<char>, JsonV)>) -> Seq<Seq<char>>
    decreases entries,
{
    if entries.len() == 0 {
        Seq::<Seq<char>>::empty()
    } else {
        proof {
            assert(decreases_to!(entries => entries.drop_last()));
            assert(decreases_to!(entries => entries.last()));
        }
        json_text_entries(entries.drop_last()).push(json_text_entry(entries.last()))
    }
}

/// The text of a list, element by element.
pub proof fn lemma_json_text_list(items: Seq<JsonV>)
    ensures
        json_text_list(items).len() == items.len(),
        forall|i: int| 0 <= i < items.len() ==> json_text_list(items)[i] == json_text(items[i]),
    decreases items.len(),
{
    if items.len() > 0 {
        lemma_json_text_list(items.drop_last());
        assert forall|i: int| 0 <= i < items.len() implies json_text_list(items)[i] == json_text(
            items[i],
        ) by {
            if i < items.len() - 1 {
                assert(json_text_list(items)[i] == json_text_list(items.drop_last())[i]);
                assert(items.drop_last()[i] == items[i]);
            } else {
                assert(items.last() == items[i]);
            }
        }
    }
}

/// The text of an object's entries, element by element.
pub proof fn lemma_json_text_entries(entries: Seq<(Seq<char>, JsonV)>)
    ensures
        json_text_entries(entries).len() == entries.len(),
        forall|i: int|
            0 <= i < entries.len() ==> json_text_entries(entries)[i] == json_text_entry(
                entries[i],
            ),
    decreases entries.len(),
{
    if entries.len() > 0 {
        lemma_json_text_entries(entries.drop_last());
        assert forall|i: int| 0 <= i < entries.len() implies json_text_entries(entries)[i]
            == json_text_entry(entries[i]) by {
            if i < entries.len() - 1 {
                assert(json_text_entries(entries)[i] == json_text_entries(
                    entries.drop_last(),
                )[i]);
                assert(entries.drop_last()[i] == entries[i]);
            } else {
                assert(entries.last() == entries[i]);
            }
        }
    }
}

/// Writes one JSON value compactly. Strings must need no escaping.
pub fn write_json(v: &JsonValue) -> (r: String)
    requires
        plain_json(v@),
    ensures
        r@ == json_text(v@),
    decreases *v,
{
    match v {
        JsonValue::Null => String::from_str("null"),
        JsonValue::Bool(b) => {
            if *b {
                String::from_str("true")
            } else {
                String::from_str("false")
            }
        },
        JsonValue::Number(s) => s.clone(),
        JsonValue::Str(s) => {
            let mut r = String::from_str("\"");
            r.append(s.as_str());
            r.append("\"");
            proof {
                assert(r@ =~= json_text(v@));
            }
            r
        },
        JsonValue::Array(items) => {
            proof {
                assert(decreases_to!(*v => *items));
                assert(decreases_to!(*items => items@));
            }
            let ghost itemvs = json_view_list(items@);
            proof {
                lemma_json_view_list(items@);
                assert(v@ == JsonV::Array(itemvs));
                assert(plain_json_list(itemvs));
                lemma_plain_json_list(itemvs);
            }
            let mut parts: Vec<String> = Vec::new();
            let mut i: usize = 0;
            while i < items.len()
                invariant
                    i <= items.len(),
                    itemvs == json_view_list(items@),
                    itemvs.len() == items.len(),
                    forall|j: int| 0 <= j < items.len() ==> itemvs[j] == json_view(items@[j]),
                    forall|j: int| 0 <= j < items.len() ==> plain_json(#[trigger] itemvs[j]),
                    decreases_to!(*v => items@),
                    parts.deep_view().len() == i,
                    forall|j: int| 0 <= j < i ==> parts.deep_view()[j] == json_text(itemvs[j]),
                decreases items.len() - i,
            {
                proof {
                    assert(decreases_to!(items@ => items@[i as int]));
                    assert(plain_json(itemvs[i as int]));
                }
                let part = write_json(&items[i]);
                let ghost prev = parts.deep_view();
                parts.push(part);
                proof {
                    assert forall|j: int| 0 <= j < i + 1 implies parts.deep_view()[j] == json_text(
                        itemvs[j],
                    ) by {
                        if j < i {
                            assert(parts.deep_view()[j] == prev[j]);
                        } else {
                            assert(parts.deep_view()[j] == part@);
                        }
                    }
                }
                i = i + 1;
            }
            let mut r = String::from_str("[");
            let joined = text::join(&parts, ",");
            r.append(joined.as_str());
            r.append("]");
            proof {
                lemma_json_text_list(itemvs);
                assert(parts.deep_view() =~= json_text_list(itemvs));
                assert(r@ =~= json_text(v@));
            }
            r
        },
        JsonValue::Object(entries) => {
            proof {
                assert(decreases_to!(*v => *entries));
                assert(decreases_to!(*entries => entries@));
            }
            let ghost entryvs = json_view_entries(entries@);
            proof {
                lemma_json_view_entries(entries@);
                assert(v@ == JsonV::Object(entryvs));
                assert(plain_json_entries(entryvs));
                lemma_plain_json_entries(entryvs);
            }
            let mut parts: Vec<String> = Vec::new();
            let mut i: usize = 0;
            while i < entries.len()
                invariant
                    i <= entries.len(),
                    entryvs == json_view_entries(entries@),
                    entryvs.len() == entries.len(),
                    forall|j: int|
                        0 <= j < entries.len() ==> entryvs[j] == json_view_entry(entries@[j]),
                    forall|j: int|
                        0 <= j < entries.len() ==> plain_text(#[trigger] entryvs[j].0)
                            && plain_json(entryvs[j].1),
                    decreases_to!(*v => entries@),
                    parts.deep_view().len() == i,
                    forall|j: int| 0 <= j < i ==> parts.deep_view()[j] == json_text_entry(entryvs[j]),
                decreases entries.len() - i,
            {
                proof {
                    assert(decreases_to!(entries@ => entries@[i as int]));
                    assert(decreases_to!(entries@[i as int] => entries@[i as int].1));
                    assert(entryvs[i as int] == json_view_entry(entries@[i as int]));
                    assert(plain_text(entryvs[i as int].0) && plain_json(entryvs[i as int].1));
                }
                let mut part = String::from_str("\"");
                part.append(entries[i].0.as_str());
                part.append("\":");
                let val = write_json(&entries[i].1);
                part.append(val.as_str());
                proof {
                    assert(part@ =~= json_text_entry(entryvs[i as int]));
                }
                let ghost prev = parts.deep_view();
                parts.push(part);
                proof {
                    assert forall|j: int| 0 <= j < i + 1 implies parts.deep_view()[j]
                        == json_text_entry(entryvs[j]) by {
                        if j < i {
                            assert(parts.deep_view()[j] == prev[j]);
                        } else {
                            assert(parts.deep_view()[j] == part@);
                        }
                    }
                }
                i = i + 1;
            }
            let mut r = String::from_str("{");
            let joined = text::join(&parts, ",");
            r.append(joined.as_str());
            r.append("}");
            proof {
                lemma_json_text_entries(entryvs);
                assert(parts.deep_view() =~= json_text_entries(entryvs));
                assert(r@ =~= json_text(v@));
            }
            r
        },
    }
}

} // verus!
