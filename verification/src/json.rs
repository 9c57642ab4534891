use vstd::prelude::*;

verus! {

/// A JSON document, modelled as a tagged union with structural equality.
/// Numbers are kept as their decimal rendering, so that no value of the
/// remote body is lost or reinterpreted on the way through the relay.
/// Object members keep the order in which the parser delivered them, with
/// keys unique.
#[derive(Debug, PartialEq, Eq)]
pub enum Json {
    Null,
    Bool(bool),
    Num(String),
    Str(String),
    Arr(Vec<Json>),
    Obj(Vec<(String, Json)>),
}

/// The value at the first member of `fields` whose key reads `key`,
/// if there is one.
pub open spec fn spec_obj_lookup(fields: Seq<(String, Json)>, key: Seq<char>) -> Option<Json>
    decreases fields.len(),
{
    if fields.len() == 0 {
        None
    } else if fields[0].0@ == key {
        Some(fields[0].1)
    } else {
        spec_obj_lookup(fields.skip(1), key)
    }
}

/// A lookup lands on the first index whose key matches.
pub proof fn lemma_obj_lookup_at(fields: Seq<(String, Json)>, key: Seq<char>, i: int)
    requires
        0 <= i < fields.len(),
        fields[i].0@ == key,
        forall|j: int| 0 <= j < i ==> fields[j].0@ != key,
    ensures
        spec_obj_lookup(fields, key) == Some(fields[i].1),
    decreases i,
{
    if i > 0 {
        lemma_obj_lookup_at(fields.skip(1), key, i - 1);
    }
}

/// A lookup misses exactly when no key matches.
pub proof fn lemma_obj_lookup_none(fields: Seq<(String, Json)>, key: Seq<char>)
    requires
        forall|j: int| 0 <= j < fields.len() ==> fields[j].0@ != key,
    ensures
        spec_obj_lookup(fields, key) is None,
    decreases fields.len(),
{
    if fields.len() > 0 {
        lemma_obj_lookup_none(fields.skip(1), key);
    }
}

/// The index of the first member of `fields` whose key reads `key`.
pub fn find_key(fields: &Vec<(String, Json)>, key: &String) -> (r: Option<usize>)
    ensures
        match r {
            Some(i) => {
                &&& i < fields@.len()
                &&& fields@[i as int].0@ == key@
                &&& forall|j: int| 0 <= j < i ==> fields@[j].0@ != key@
                &&& spec_obj_lookup(fields@, key@) == Some(fields@[i as int].1)
            },
            None => spec_obj_lookup(fields@, key@) is None,
        },
{
    let mut i: usize = 0;
    while i < fields.len()
        invariant
            i <= fields@.len(),
            forall|j: int| 0 <= j < i ==> fields@[j].0@ != key@,
        decreases fields@.len() - i,
    {
        if fields[i].0 == *key {
            proof {
                lemma_obj_lookup_at(fields@, key@, i as int);
            }
            return Some(i);
        }
        i = i + 1;
    }
    proof {
        lemma_obj_lookup_none(fields@, key@);
    }
    None
}

/// What serde_json makes of a piece of text: `None` where the text is not
/// well-formed JSON, otherwise the parsed document. The result depends on
/// the text alone.
pub uninterp spec fn spec_json_parse(s: Seq<char>) -> Option<Json>;

/// Relies on serde_json::from_str: whether the text parses, and as what,
/// is a function of the text alone.
#[verifier::external_body]
pub fn parse_json(s: &str) -> (r: Option<Json>)
    ensures
        r == spec_json_parse(s@),
{
    match serde_json::from_str::<serde_json::Value>(s) {
        Ok(v) => Some(json_from_value(&v)),
        Err(_) => None,
    }
}

/// Carries serde_json's document type through the conversion below.
#[verifier::external_type_specification]
#[verifier::external_body]
pub struct ExJsonValue(serde_json::Value);

/// Converts serde_json's document into the library's, variant for variant;
/// only `parse_json` above calls it. Relies on serde_json::Value's shape:
/// numbers are kept as serde_json renders them, object members in the order
/// the map hands them out.
#[verifier::external_body]
fn json_from_value(v: &serde_json::Value) -> Json {
    match v {
        serde_json::Value::Null => Json::Null,
        serde_json::Value::Bool(b) => Json::Bool(*b),
        serde_json::Value::Number(n) => Json::Num(n.to_string()),
        serde_json::Value::String(s) => Json::Str(s.clone()),
        serde_json::Value::Array(a) => Json::Arr(a.iter().map(json_from_value).collect()),
        serde_json::Value::Object(m) => Json::Obj(
            m.iter().map(|(k, x)| (k.clone(), json_from_value(x))).collect(),
        ),
    }
}

/// Whether `d` is the object `{"message": <text>}`.
pub open spec fn spec_is_message_obj(d: Json, text: Seq<char>) -> bool {
    match d {
        Json::Obj(fields) => {
            &&& fields@.len() == 1
            &&& fields@[0].0@ == "message"@
            &&& match fields@[0].1 {
                Json::Str(t) => t@ == text,
                _ => false,
            }
        },
        _ => false,
    }
}

/// Wraps a piece of text that would not parse as JSON into the object
/// `{"message": <text>}`.
pub fn message_obj(text: &str) -> (r: Json)
    ensures
        spec_is_message_obj(r, text@),
{
    let mut fields: Vec<(String, Json)> = Vec::new();
    fields.push((String::from_str("message"), Json::Str(String::from_str(text))));
    Json::Obj(fields)
}

} // verus!
