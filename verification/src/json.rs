//! The library's model of a JSON document, and the trusted boundary to
//! `serde_json`, which does the actual parsing.
//!
//! Every response body is first parsed into a [`Json`] tree; the typed
//! decoders then read that tree with the verified accessors below.

use vstd::prelude::*;

verus! {

/// A JSON document.
///
/// Numbers that fit a signed 64-bit integer are kept as [`Json::Int`];
/// any other number (fractional, exponential, or out of range) keeps its
/// textual form as [`Json::Num`].  Object members keep the order in
/// which the parser delivered them; the decoders read the first member
/// with a given name.
#[derive(Debug, PartialEq)]
pub enum Json {
    Null,
    Bool(bool),
    Int(i64),
    Num(String),
    Str(String),
    Arr(Vec<Json>),
    Obj(Vec<(String, Json)>),
}

impl View for Json {
    type V = Json;

    open spec fn view(&self) -> Json {
        *self
    }
}

/// The first member of `fields` named `key`, if any.
pub open spec fn spec_lookup(fields: Seq<(String, Json)>, key: Seq<char>) -> Option<Json>
    decreases fields.len(),
{
    if fields.len() == 0 {
        None
    } else if fields[0].0@ == key {
        Some(fields[0].1)
    } else {
        spec_lookup(fields.drop_first(), key)
    }
}

/// The string member named `key`, if it is present and is a string.
pub open spec fn spec_get_str(fields: Seq<(String, Json)>, key: Seq<char>) -> Option<Seq<char>> {
    match spec_lookup(fields, key) {
        Some(Json::Str(s)) => Some(s@),
        _ => None,
    }
}

/// The integer member named `key`, if it is present and is an integer.
pub open spec fn spec_get_int(fields: Seq<(String, Json)>, key: Seq<char>) -> Option<int> {
    match spec_lookup(fields, key) {
        Some(Json::Int(n)) => Some(n as int),
        _ => None,
    }
}

/// The boolean member named `key`, if it is present and is a boolean.
pub open spec fn spec_get_bool(fields: Seq<(String, Json)>, key: Seq<char>) -> Option<bool> {
    match spec_lookup(fields, key) {
        Some(Json::Bool(b)) => Some(b),
        _ => None,
    }
}

/// The strings held by a sequence of JSON string nodes, in order.
pub open spec fn spec_str_items_view(items: Seq<Json>) -> Seq<Seq<char>> {
    Seq::new(items.len(), |i: int| items[i]->Str_0@)
}

/// The member named `key` read as a list of strings, if it is present,
/// is an array, and every element is a string.
pub open spec fn spec_get_str_list(fields: Seq<(String, Json)>, key: Seq<char>) -> Option<
    Seq<Seq<char>>,
> {
    match spec_lookup(fields, key) {
        Some(Json::Arr(items)) => {
            if forall|i: int| 0 <= i < items@.len() ==> items@[i] is Str {
                Some(spec_str_items_view(items@))
            } else {
                None
            }
        },
        _ => None,
    }
}

/// The member named `key` read as an optional string: an absent or null
/// member is a valid "no value"; a string member is the value; anything
/// else does not fit.
pub open spec fn spec_get_opt_str(fields: Seq<(String, Json)>, key: Seq<char>) -> Option<
    Option<Seq<char>>,
> {
    match spec_lookup(fields, key) {
        None => Some(None),
        Some(Json::Null) => Some(None),
        Some(Json::Str(s)) => Some(Some(s@)),
        Some(_) => None,
    }
}

/// When the first member named `key` stands at index `i`, the lookup
/// finds exactly that member.
pub proof fn lemma_lookup_first_match(fields: Seq<(String, Json)>, key: Seq<char>, i: int)
    requires
        0 <= i < fields.len(),
        fields[i].0@ == key,
        forall|j: int| 0 <= j < i ==> fields[j].0@ != key,
    ensures
        spec_lookup(fields, key) == Some(fields[i].1),
    decreases i,
{
    if i > 0 {
        lemma_lookup_first_match(fields.drop_first(), key, i - 1);
    }
}

/// When no member is named `key`, the lookup finds nothing.
pub proof fn lemma_lookup_none(fields: Seq<(String, Json)>, key: Seq<char>)
    requires
        forall|j: int| 0 <= j < fields.len() ==> fields[j].0@ != key,
    ensures
        spec_lookup(fields, key) is None,
    decreases fields.len(),
{
    if fields.len() > 0 {
        lemma_lookup_none(fields.drop_first(), key);
    }
}

/// The index of the first member named `key`, if any.
pub fn find_key(fields: &Vec<(String, Json)>, key: &String) -> (r: Option<usize>)
    ensures
        match r {
            Some(i) => {
                &&& i < fields@.len()
                &&& fields@[i as int].0@ == key@
                &&& spec_lookup(fields@, key@) == Some(fields@[i as int].1)
            },
            None => spec_lookup(fields@, key@) is None,
        },
{
    let mut i: usize = 0;
    while i < fields.len()
        invariant
            i <= fields@.len(),
            forall|j: int| 0 <= j < i ==> fields@[j].0@ != key@,
        decreases fields@.len() - i,
    {
        if fields[i].0 == *key {
            proof {
                lemma_lookup_first_match(fields@, key@, i as int);
            }
            return Some(i);
        }
        i = i + 1;
    }
    proof {
        lemma_lookup_none(fields@, key@);
    }
    None
}

/// Reads the string member named `key`, as [`spec_get_str`] describes.
pub fn get_str(fields: &Vec<(String, Json)>, key: &String) -> (r: Option<String>)
    ensures
        match r {
            Some(s) => spec_get_str(fields@, key@) == Some(s@),
            None => spec_get_str(fields@, key@) is None,
        },
{
    match find_key(fields, key) {
        Some(i) => match &fields[i].1 {
            Json::Str(s) => Some(s.clone()),
            _ => None,
        },
        None => None,
    }
}

/// Reads the integer member named `key`, as [`spec_get_int`] describes.
pub fn get_int(fields: &Vec<(String, Json)>, key: &String) -> (r: Option<i64>)
    ensures
        match r {
            Some(n) => spec_get_int(fields@, key@) == Some(n as int),
            None => spec_get_int(fields@, key@) is None,
        },
{
    match find_key(fields, key) {
        Some(i) => match &fields[i].1 {
            Json::Int(n) => Some(*n),
            _ => None,
        },
        None => None,
    }
}

/// Reads the boolean member named `key`, as [`spec_get_bool`] describes.
pub fn get_bool(fields: &Vec<(String, Json)>, key: &String) -> (r: Option<bool>)
    ensures
        match r {
            Some(b) => spec_get_bool(fields@, key@) == Some(b),
            None => spec_get_bool(fields@, key@) is None,
        },
{
    match find_key(fields, key) {
        Some(i) => match &fields[i].1 {
            Json::Bool(b) => Some(*b),
            _ => None,
        },
        None => None,
    }
}

/// Reads the member named `key` as a list of strings, as
/// [`spec_get_str_list`] describes.
pub fn get_str_list(fields: &Vec<(String, Json)>, key: &String) -> (r: Option<Vec<String>>)
    ensures
        match r {
            Some(v) => spec_get_str_list(fields@, key@) == Some(v.deep_view()),
            None => spec_get_str_list(fields@, key@) is None,
        },
{
    match find_key(fields, key) {
        Some(i) => match &fields[i].1 {
            Json::Arr(items) => {
                let mut out: Vec<String> = Vec::new();
                let mut k: usize = 0;
                while k < items.len()
                    invariant
                        spec_lookup(fields@, key@) matches Some(l) && l is Arr && l->Arr_0@
                            == items@,
                        k <= items@.len(),
                        out@.len() == k,
                        forall|j: int| 0 <= j < k ==> items@[j] is Str,
                        forall|j: int| 0 <= j < k ==> out@[j]@ == items@[j]->Str_0@,
                    decreases items@.len() - k,
                {
                    match &items[k] {
                        Json::Str(s) => {
                            out.push(s.clone());
                        },
                        _ => {
                            proof {
                                assert(!(items@[k as int] is Str));
                            }
                            return None;
                        },
                    }
                    k = k + 1;
                }
                proof {
                    assert(out.deep_view() =~= spec_str_items_view(items@));
                }
                Some(out)
            },
            _ => None,
        },
        None => None,
    }
}

/// Reads the member named `key` as an optional string, as
/// [`spec_get_opt_str`] describes.
pub fn get_opt_str(fields: &Vec<(String, Json)>, key: &String) -> (r: Option<Option<String>>)
    ensures
        match r {
            Some(None) => spec_get_opt_str(fields@, key@) == Some(None::<Seq<char>>),
            Some(Some(s)) => spec_get_opt_str(fields@, key@) == Some(Some(s@)),
            None => spec_get_opt_str(fields@, key@) is None,
        },
{
    match find_key(fields, key) {
        Some(i) => match &fields[i].1 {
            Json::Null => Some(None),
            Json::Str(s) => Some(Some(s.clone())),
            _ => None,
        },
        None => Some(None),
    }
}

/// Removes and returns the first member named `key`, if any.
pub fn take_field(fields: &mut Vec<(String, Json)>, key: &String) -> (r: Option<Json>)
    ensures
        match r {
            Some(v) => spec_lookup(old(fields)@, key@) == Some(v),
            None => spec_lookup(old(fields)@, key@) is None,
        },
{
    match find_key(fields, key) {
        Some(i) => {
            let pair = fields.remove(i);
            Some(pair.1)
        },
        None => None,
    }
}

/// What `serde_json::from_slice::<serde_json::Value>` makes of a byte
/// string, rebuilt as a [`Json`] tree: `Ok` of the tree when the parser
/// accepts the bytes as one JSON document, `Err` of the parser's
/// message when it rejects them.  The result depends on the bytes
/// alone.
pub uninterp spec fn json_parse(bytes: Seq<u8>) -> Result<Json, Seq<char>>;

/// What `String::from_utf8_lossy` makes of a byte string.  The result
/// depends on the bytes alone.
pub uninterp spec fn lossy_text(bytes: Seq<u8>) -> Seq<char>;

#[verifier::external_type_specification]
#[verifier::external_body]
pub struct ExValue(serde_json::Value);

/// The returned tree or error text is exactly what [`json_parse`] names
/// for these bytes.
pub open spec fn spec_parse_gives(bytes: Seq<u8>, r: Result<Json, String>) -> bool {
    match r {
        Ok(j) => json_parse(bytes) == Ok::<Json, Seq<char>>(j),
        Err(e) => json_parse(bytes) == Err::<Json, Seq<char>>(e@),
    }
}

/// Relies on `serde_json::from_slice::<serde_json::Value>`: the parse
/// succeeds or fails on the bytes alone, and the same bytes always give
/// the same tree and the same error text.
#[verifier::external_body]
pub(crate) fn parse_json_bytes(bytes: &[u8]) -> (r: Result<Json, String>)
    ensures
        spec_parse_gives(bytes@, r),
        r is Ok <==> json_parse(bytes@) is Ok,
{
    match serde_json::from_slice::<serde_json::Value>(bytes) {
        Ok(v) => Ok(json_of_value(v)),
        Err(e) => Err(e.to_string()),
    }
}

/// The conversion half of [`parse_json_bytes`]: rebuilds a
/// `serde_json::Value` tree as the library's [`Json`] tree, variant by
/// variant.  Carries no contract of its own; [`parse_json_bytes`] states
/// what the parse returns.
#[verifier::external_body]
fn json_of_value(v: serde_json::Value) -> Json {
    match v {
        serde_json::Value::Null => Json::Null,
        serde_json::Value::Bool(b) => Json::Bool(b),
        serde_json::Value::Number(n) => match n.as_i64() {
            Some(i) => Json::Int(i),
            None => Json::Num(n.to_string()),
        },
        serde_json::Value::String(s) => Json::Str(s),
        serde_json::Value::Array(a) => Json::Arr(a.into_iter().map(json_of_value).collect()),
        serde_json::Value::Object(o) => Json::Obj(
            o.into_iter().map(|p| (p.0, json_of_value(p.1))).collect(),
        ),
    }
}

/// Relies on `String::from_utf8_lossy` (std): decodes the bytes as
/// UTF-8, replacing invalid sequences with U+FFFD, and never fails.
#[verifier::external_body]
pub(crate) fn lossy_utf8(bytes: &[u8]) -> (r: String)
    ensures
        r@ == lossy_text(bytes@),
{
    String::from_utf8_lossy(bytes).into_owned()
}

} // verus!
