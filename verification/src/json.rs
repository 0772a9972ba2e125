use vstd::prelude::*;
use vstd::string::StrSliceExecFns;

verus! {

/// Mathematical model of a parsed JSON document: the tree of values that a
/// text frame denotes. Object fields keep the order in which the parser
/// hands them over; a number is kept as its decimal text.
pub enum JsonV {
    Null,
    Bool(bool),
    Num(Seq<char>),
    Str(Seq<char>),
    Arr(Seq<JsonV>),
    Obj(Seq<(Seq<char>, JsonV)>),
}

/// Executable JSON tree. Every inbound text frame is parsed into one of
/// these before the envelope and the order-book payload are looked up.
pub enum JsonValue {
    Null,
    Bool(bool),
    Num(String),
    Str(String),
    Arr(Vec<JsonValue>),
    Obj(Vec<(String, JsonValue)>),
}

impl JsonValue {
    /// The tree of values this executable tree stands for.
    pub open spec fn model(self) -> JsonV
        decreases self,
    {
        match self {
            JsonValue::Null => JsonV::Null,
            JsonValue::Bool(b) => JsonV::Bool(b),
            JsonValue::Num(s) => JsonV::Num(s@),
            JsonValue::Str(s) => JsonV::Str(s@),
            JsonValue::Arr(items) => JsonV::Arr(model_items(items@)),
            JsonValue::Obj(fields) => JsonV::Obj(model_fields(fields@)),
        }
    }
}

/// The models of the elements of a JSON array, in order.
pub open spec fn model_items(items: Seq<JsonValue>) -> Seq<JsonV>
    decreases items,
{
    if items.len() == 0 {
        Seq::empty()
    } else {
        seq![items[0].model()] + model_items(items.skip(1))
    }
}

/// The models of the fields of a JSON object, in order.
pub open spec fn model_fields(fields: Seq<(String, JsonValue)>) -> Seq<(Seq<char>, JsonV)>
    decreases fields,
{
    if fields.len() == 0 {
        Seq::empty()
    } else {
        seq![(fields[0].0@, fields[0].1.model())] + model_fields(fields.skip(1))
    }
}

/// Character-for-character string comparison.
pub fn str_eq(a: &str, b: &str) -> (r: bool)
    ensures
        r == (a@ == b@),
{
    let alen = a.unicode_len();
    let blen = b.unicode_len();
    if alen != blen {
        return false;
    }
    let mut i: usize = 0;
    while i < alen
        invariant
            alen == a@.len(),
            blen == b@.len(),
            alen == blen,
            0 <= i <= alen,
            forall|j: int| 0 <= j < i ==> a@[j] == b@[j],
        decreases alen - i,
    {
        if a.get_char(i) != b.get_char(i) {
            return false;
        }
        i = i + 1;
    }
    proof {
        assert(a@ =~= b@);
    }
    true
}

/// The value of the first field named `key`, if any.
pub open spec fn obj_lookup(fields: Seq<(Seq<char>, JsonV)>, key: Seq<char>) -> Option<JsonV>
    decreases fields.len(),
{
    if fields.len() == 0 {
        None
    } else if fields[0].0 == key {
        Some(fields[0].1)
    } else {
        obj_lookup(fields.skip(1), key)
    }
}

/// The value at `key` if the tree is an object with such a field;
/// `None` for a missing field or a non-object tree.
pub open spec fn field_of(v: JsonV, key: Seq<char>) -> Option<JsonV> {
    match v {
        JsonV::Obj(fields) => obj_lookup(fields, key),
        _ => None,
    }
}

impl JsonValue {
    /// Field lookup on an object tree; `None` on any other tree.
    pub fn get_field(&self, key: &str) -> (r: Option<&JsonValue>)
        ensures
            match r {
                Some(v) => field_of(self.model(), key@) == Some(v.model()),
                None => field_of(self.model(), key@) is None,
            },
    {
        match self {
            JsonValue::Obj(fields) => {
                proof {
                    lemma_model_fields(fields@);
                }
                let ghost mfs = model_fields(fields@);
                proof {
                    assert(mfs.skip(0) =~= mfs);
                }
                let mut i: usize = 0;
                while i < fields.len()
                    invariant
                        mfs == model_fields(fields@),
                        mfs.len() == fields@.len(),
                        forall|j: int| 0 <= j < fields@.len() ==> mfs[j] == (
                            fields@[j].0@,
                            fields@[j].1.model(),
                        ),
                        0 <= i <= fields@.len(),
                        obj_lookup(mfs.skip(i as int), key@) == obj_lookup(mfs, key@),
                        self == JsonValue::Obj(*fields),
                    decreases fields@.len() - i,
                {
                    if str_eq(fields[i].0.as_str(), key) {
                        return Some(&fields[i].1);
                    }
                    proof {
                        assert(mfs.skip(i as int).skip(1) =~= mfs.skip(i + 1));
                    }
                    i = i + 1;
                }
                proof {
                    assert(mfs.skip(fields@.len() as int) =~= Seq::<(Seq<char>, JsonV)>::empty());
                }
                None
            },
            _ => None,
        }
    }
}

#[verifier::external_type_specification]
#[verifier::external_body]
pub struct ExValue(serde_json::Value);

/// The tree that the JSON parser yields for the given text, or `None`
/// when the text is not JSON. Parsing is a function of the text alone.
pub uninterp spec fn json_of(text: Seq<char>) -> Option<JsonV>;

/// Relies on serde_json::Value's variants: each is carried over one-for-one
/// into the library's tree (a number as its display text, object fields in
/// the order the map's iterator yields them).
#[verifier::external_body]
fn tree_of_value(v: &serde_json::Value) -> JsonValue {
    match v {
        serde_json::Value::Null => JsonValue::Null,
        serde_json::Value::Bool(b) => JsonValue::Bool(*b),
        serde_json::Value::Number(n) => JsonValue::Num(n.to_string()),
        serde_json::Value::String(s) => JsonValue::Str(s.clone()),
        serde_json::Value::Array(a) => JsonValue::Arr(a.iter().map(tree_of_value).collect()),
        serde_json::Value::Object(m) => JsonValue::Obj(
            m.iter().map(|f| (f.0.clone(), tree_of_value(f.1))).collect(),
        ),
    }
}

/// Relies on serde_json::from_str::<serde_json::Value>: whether the text
/// parses, and the tree it parses to, depend on the text alone; that
/// tree, carried over by `tree_of_value`, is what `json_of` names.
#[verifier::external_body]
pub fn parse_json(text: &str) -> (r: Option<JsonValue>)
    ensures
        match r {
            Some(v) => json_of(text@) == Some(v.model()),
            None => json_of(text@) is None,
        },
{
    match serde_json::from_str::<serde_json::Value>(text) {
        Ok(v) => Some(tree_of_value(&v)),
        Err(_) => None,
    }
}

/// The order-book candidate inside the exchange envelope: the field
/// "data", then the field "data" inside that.
pub open spec fn envelope_payload(v: JsonV) -> Option<JsonV> {
    match field_of(v, "data"@) {
        Some(d) => field_of(d, "data"@),
        None => None,
    }
}

/// Locates the order-book payload inside the envelope wrapper, if the
/// frame carries one.
pub fn extract_payload(v: &JsonValue) -> (r: Option<&JsonValue>)
    ensures
        match r {
            Some(p) => envelope_payload(v.model()) == Some(p.model()),
            None => envelope_payload(v.model()) is None,
        },
{
    match v.get_field("data") {
        Some(d) => d.get_field("data"),
        None => None,
    }
}

/// Element-wise reading of `model_items`.
pub proof fn lemma_model_items(items: Seq<JsonValue>)
    ensures
        model_items(items).len() == items.len(),
        forall|i: int| 0 <= i < items.len() ==> model_items(items)[i] == items[i].model(),
    decreases items.len(),
{
    if items.len() > 0 {
        lemma_model_items(items.skip(1));
    }
}

/// Element-wise reading of `model_fields`.
pub proof fn lemma_model_fields(fields: Seq<(String, JsonValue)>)
    ensures
        model_fields(fields).len() == fields.len(),
        forall|i: int| 0 <= i < fields.len() ==> model_fields(fields)[i] == (
            fields[i].0@,
            fields[i].1.model(),
        ),
    decreases fields.len(),
{
    if fields.len() > 0 {
        lemma_model_fields(fields.skip(1));
    }
}

} // verus!
