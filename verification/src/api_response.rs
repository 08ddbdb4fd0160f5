//! The generic response envelope that every BlockVision endpoint answers
//! with: a status code, a human-readable message, and an optional payload.

use vstd::prelude::*;
use vstd::string::StringExecFns;
use crate::json::{
    Json, spec_lookup, spec_get_int, spec_get_str, get_int, get_str, take_field,
    lemma_lookup_first_match, lemma_lookup_none,
};

verus! {

/// The wire envelope `{ code, message, result }` after decoding.
///
/// `code` carries the HTTP-style status code the API reports inside the
/// body; `result` is the endpoint-specific payload, present only on
/// success (and sometimes absent even then).
pub struct ApiResponse<T> {
    /// HTTP-style status code reported by the API inside the envelope.
    pub code: u16,
    /// Status message from the API.
    pub message: String,
    /// The endpoint-specific payload, when present.
    pub result: Option<T>,
}

/// Abstract value of an [`ApiResponse`].
#[verifier::ext_equal]
pub struct ApiResponseView<V> {
    pub code: int,
    pub message: Seq<char>,
    pub result: Option<V>,
}

impl<T: View> View for ApiResponse<T> {
    type V = ApiResponseView<T::V>;

    open spec fn view(&self) -> ApiResponseView<T::V> {
        ApiResponseView {
            code: self.code as int,
            message: self.message@,
            result: match self.result {
                Some(ref t) => Some(t@),
                None => None,
            },
        }
    }
}

/// A status code the API can report inside an envelope: the valid
/// HTTP status range.
pub open spec fn spec_valid_code(code: int) -> bool {
    100 <= code <= 999
}

/// A status code that denotes success, as HTTP defines it.
pub open spec fn spec_is_success(code: int) -> bool {
    200 <= code <= 299
}

/// Whether `code` denotes success (the 2xx range).
pub fn is_success(code: u16) -> (r: bool)
    ensures
        r == spec_is_success(code as int),
{
    200 <= code && code <= 299
}

/// The payload carried by an envelope's member list: the member named
/// `result`, with an absent or null member both meaning "no payload".
pub open spec fn spec_result_of(fields: Seq<(String, Json)>) -> Option<Json> {
    match spec_lookup(fields, "result"@) {
        None => None,
        Some(Json::Null) => None,
        Some(v) => Some(v),
    }
}

/// What a JSON document means as a response envelope: an object with an
/// integer `code` in the valid status range, a string `message`, and an
/// optional `result` payload.  Any other document is not an envelope.
pub open spec fn spec_envelope_of(j: Json) -> Option<ApiResponseView<Json>> {
    match j {
        Json::Obj(fields) => match (spec_get_int(fields@, "code"@), spec_get_str(
            fields@,
            "message"@,
        )) {
            (Some(c), Some(m)) => if spec_valid_code(c) {
                Some(ApiResponseView { code: c, message: m, result: spec_result_of(fields@) })
            } else {
                None
            },
            _ => None,
        },
        _ => None,
    }
}

/// Reads a JSON document as a response envelope, as [`spec_envelope_of`]
/// describes; the payload is kept as raw JSON for the caller to decode.
pub fn decode_envelope(j: Json) -> (r: Option<ApiResponse<Json>>)
    ensures
        match r {
            Some(env) => spec_envelope_of(j) == Some(env@),
            None => spec_envelope_of(j) is None,
        },
{
    match j {
        Json::Obj(mut fields) => {
            let ghost fields0 = fields@;
            let code = match get_int(&fields, &String::from_str("code")) {
                Some(c) => c,
                None => {
                    return None;
                },
            };
            if !(100 <= code && code <= 999) {
                return None;
            }
            let message = match get_str(&fields, &String::from_str("message")) {
                Some(m) => m,
                None => {
                    return None;
                },
            };
            let result = match take_field(&mut fields, &String::from_str("result")) {
                Some(Json::Null) => None,
                Some(v) => Some(v),
                None => None,
            };
            Some(ApiResponse { code: code as u16, message, result })
        },
        _ => None,
    }
}

/// Builds the wire envelope for a status code, a message, and an
/// optional payload.  Decoding the result gives exactly those parts
/// back.
pub fn encode_envelope(code: u16, message: String, result: Option<Json>) -> (j: Json)
    requires
        spec_valid_code(code as int),
        result matches Some(v) ==> !(v is Null),
    ensures
        spec_envelope_of(j) == Some(
            ApiResponseView { code: code as int, message: message@, result },
        ),
{
    proof {
        reveal_strlit("code");
        reveal_strlit("message");
        reveal_strlit("result");
    }
    let mut fields: Vec<(String, Json)> = Vec::new();
    fields.push((String::from_str("code"), Json::Int(code as i64)));
    fields.push((String::from_str("message"), Json::Str(message)));
    let has_result = result.is_some();
    match result {
        Some(v) => fields.push((String::from_str("result"), v)),
        None => (),
    }
    proof {
        assert("code"@.len() == 4);
        assert("message"@.len() == 7);
        assert("result"@.len() == 6);
        assert(fields@[0].0@ == "code"@);
        assert(fields@[1].0@ == "message"@);
        lemma_lookup_first_match(fields@, "code"@, 0);
        lemma_lookup_first_match(fields@, "message"@, 1);
        if has_result {
            lemma_lookup_first_match(fields@, "result"@, 2);
        } else {
            lemma_lookup_none(fields@, "result"@);
        }
    }
    Json::Obj(fields)
}

} // verus!
