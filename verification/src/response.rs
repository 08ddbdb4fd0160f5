//! Decoding a raw response body into a typed outcome: parse the JSON,
//! read the envelope, check the reported status, and decode the payload
//! of the endpoint that was called.

use vstd::prelude::*;
use vstd::string::StringExecFns;
use crate::api_response::{
    ApiResponse, ApiResponseView, spec_envelope_of, spec_is_success, decode_envelope, is_success,
};
use crate::coin_detail::{CoinDetailResponse, CoinDetailView, spec_detail_of, coin_detail_of_json};
use crate::coin_dex_pools::{
    CoinDexPoolsResponse, CoinDexPoolView, spec_pools_of, spec_pools_view, coin_dex_pools_of_json,
};
use crate::error::{ClientError, ClientErrorView};
use crate::json::{Json, json_parse, lossy_text, parse_json_bytes, lossy_utf8};

verus! {

/// The abstract value of a result, both sides viewed.
pub open spec fn spec_result_view<T: View, E: View>(r: Result<T, E>) -> Result<T::V, E::V> {
    match r {
        Ok(t) => Ok(t@),
        Err(e) => Err(e@),
    }
}

/// What reading a body as an envelope must return: the envelope when
/// the body is one; otherwise a decode failure that embeds the raw body
/// as best-effort text.  When the body is not JSON at all, the cause is
/// the parser's own message.
pub open spec fn spec_envelope_outcome(
    b: Seq<u8>,
    r: Result<ApiResponseView<Json>, ClientErrorView>,
) -> bool {
    match json_parse(b) {
        Err(cause) => r == Err::<ApiResponseView<Json>, ClientErrorView>(
            ClientErrorView::Json { cause, body: lossy_text(b) },
        ),
        Ok(j) => match spec_envelope_of(j) {
            None => r == Err::<ApiResponseView<Json>, ClientErrorView>(
                ClientErrorView::Json {
                    cause: "response is not a BlockVision envelope"@,
                    body: lossy_text(b),
                },
            ),
            Some(env) => r == Ok::<ApiResponseView<Json>, ClientErrorView>(env),
        },
    }
}

/// Reads a response body as an envelope, as [`spec_envelope_outcome`]
/// describes; the payload is kept as raw JSON.
pub fn envelope_or_err(body: &[u8]) -> (r: Result<ApiResponse<Json>, ClientError>)
    ensures
        spec_envelope_outcome(body@, spec_result_view(r)),
{
    match parse_json_bytes(body) {
        Err(cause) => Err(ClientError::Json { cause, body: lossy_utf8(body) }),
        Ok(j) => match decode_envelope(j) {
            None => Err(
                ClientError::Json {
                    cause: String::from_str("response is not a BlockVision envelope"),
                    body: lossy_utf8(body),
                },
            ),
            Some(env) => Ok(env),
        },
    }
}

/// The abstract value of a coin-detail outcome.
pub open spec fn spec_detail_result_view(r: Result<Option<CoinDetailResponse>, ClientError>)
    -> Result<Option<CoinDetailView>, ClientErrorView> {
    match r {
        Ok(None) => Ok(None),
        Ok(Some(d)) => Ok(Some(d@)),
        Err(e) => Err(e@),
    }
}

/// What the coin-detail operation must return for a response body:
/// - a body that is not JSON, not an envelope, or an envelope whose
///   payload is not a coin-detail record is a decode failure embedding
///   the raw body as best-effort text;
/// - an envelope with a non-success status is the API-reported failure
///   carrying exactly the envelope's message;
/// - a success envelope without a payload is an absent (not erroneous)
///   result;
/// - a success envelope with a payload is the decoded record.
pub open spec fn spec_detail_outcome(
    b: Seq<u8>,
    r: Result<Option<CoinDetailView>, ClientErrorView>,
) -> bool {
    match json_parse(b) {
        Err(cause) => r == Err::<Option<CoinDetailView>, ClientErrorView>(
            ClientErrorView::Json { cause, body: lossy_text(b) },
        ),
        Ok(j) => match spec_envelope_of(j) {
            None => r == Err::<Option<CoinDetailView>, ClientErrorView>(
                ClientErrorView::Json {
                    cause: "response is not a BlockVision envelope"@,
                    body: lossy_text(b),
                },
            ),
            Some(env) => if !spec_is_success(env.code) {
                r == Err::<Option<CoinDetailView>, ClientErrorView>(
                    ClientErrorView::Other(env.message),
                )
            } else {
                match env.result {
                    None => r == Ok::<Option<CoinDetailView>, ClientErrorView>(None),
                    Some(pj) => match spec_detail_of(pj) {
                        None => r == Err::<Option<CoinDetailView>, ClientErrorView>(
                            ClientErrorView::Json {
                                cause: "result is not a coin detail record"@,
                                body: lossy_text(b),
                            },
                        ),
                        Some(d) => r == Ok::<Option<CoinDetailView>, ClientErrorView>(Some(d)),
                    },
                }
            },
        },
    }
}

/// Decodes a coin-detail response body, as [`spec_detail_outcome`]
/// describes.
pub fn coin_detail_from_body(body: &[u8]) -> (r: Result<Option<CoinDetailResponse>, ClientError>)
    ensures
        spec_detail_outcome(body@, spec_detail_result_view(r)),
{
    let env = match envelope_or_err(body) {
        Ok(env) => env,
        Err(e) => {
            return Err(e);
        },
    };
    if !is_success(env.code) {
        return Err(ClientError::Other(env.message));
    }
    match env.result {
        None => Ok(None),
        Some(pj) => match coin_detail_of_json(&pj) {
            Some(d) => Ok(Some(d)),
            None => Err(
                ClientError::Json {
                    cause: String::from_str("result is not a coin detail record"),
                    body: lossy_utf8(body),
                },
            ),
        },
    }
}

/// The abstract value of a dex-pools outcome.
pub open spec fn spec_pools_result_view(r: Result<Vec<CoinDexPoolsResponse>, ClientError>)
    -> Result<Seq<CoinDexPoolView>, ClientErrorView> {
    match r {
        Ok(v) => Ok(spec_pools_view(v@)),
        Err(e) => Err(e@),
    }
}

/// What the dex-pools operation must return for a response body: as
/// [`spec_detail_outcome`], with the payload read as a list of pool
/// records, and a success envelope without a payload meaning the empty
/// list.
pub open spec fn spec_pools_outcome(
    b: Seq<u8>,
    r: Result<Seq<CoinDexPoolView>, ClientErrorView>,
) -> bool {
    match json_parse(b) {
        Err(cause) => r == Err::<Seq<CoinDexPoolView>, ClientErrorView>(
            ClientErrorView::Json { cause, body: lossy_text(b) },
        ),
        Ok(j) => match spec_envelope_of(j) {
            None => r == Err::<Seq<CoinDexPoolView>, ClientErrorView>(
                ClientErrorView::Json {
                    cause: "response is not a BlockVision envelope"@,
                    body: lossy_text(b),
                },
            ),
            Some(env) => if !spec_is_success(env.code) {
                r == Err::<Seq<CoinDexPoolView>, ClientErrorView>(
                    ClientErrorView::Other(env.message),
                )
            } else {
                match env.result {
                    None => r == Ok::<Seq<CoinDexPoolView>, ClientErrorView>(
                        Seq::<CoinDexPoolView>::empty(),
                    ),
                    Some(pj) => match spec_pools_of(pj) {
                        None => r == Err::<Seq<CoinDexPoolView>, ClientErrorView>(
                            ClientErrorView::Json {
                                cause: "result is not a list of DEX pool records"@,
                                body: lossy_text(b),
                            },
                        ),
                        Some(s) => r == Ok::<Seq<CoinDexPoolView>, ClientErrorView>(s),
                    },
                }
            },
        },
    }
}

/// Law: a success envelope whose payload decodes to `d` makes the
/// coin-detail operation return exactly `d` — the payload comes through
/// unchanged.
pub proof fn lemma_detail_success_returns_payload(
    b: Seq<u8>,
    j: Json,
    env: ApiResponseView<Json>,
    pj: Json,
    d: CoinDetailView,
    r: Result<Option<CoinDetailView>, ClientErrorView>,
)
    requires
        json_parse(b) == Ok::<Json, Seq<char>>(j),
        spec_envelope_of(j) == Some(env),
        spec_is_success(env.code),
        env.result == Some(pj),
        spec_detail_of(pj) == Some(d),
        spec_detail_outcome(b, r),
    ensures
        r == Ok::<Option<CoinDetailView>, ClientErrorView>(Some(d)),
{
}

/// Law: a success envelope whose payload decodes to the pool list `s`
/// makes the dex-pools operation return exactly `s` — the payload comes
/// through unchanged.
pub proof fn lemma_pools_success_returns_payload(
    b: Seq<u8>,
    j: Json,
    env: ApiResponseView<Json>,
    pj: Json,
    s: Seq<CoinDexPoolView>,
    r: Result<Seq<CoinDexPoolView>, ClientErrorView>,
)
    requires
        json_parse(b) == Ok::<Json, Seq<char>>(j),
        spec_envelope_of(j) == Some(env),
        spec_is_success(env.code),
        env.result == Some(pj),
        spec_pools_of(pj) == Some(s),
        spec_pools_outcome(b, r),
    ensures
        r == Ok::<Seq<CoinDexPoolView>, ClientErrorView>(s),
{
}

/// Law: an envelope with a non-success status makes both operations
/// return the API-reported failure carrying exactly the envelope's
/// message.
pub proof fn lemma_non_success_is_api_failure(
    b: Seq<u8>,
    j: Json,
    env: ApiResponseView<Json>,
    rd: Result<Option<CoinDetailView>, ClientErrorView>,
    rp: Result<Seq<CoinDexPoolView>, ClientErrorView>,
)
    requires
        json_parse(b) == Ok::<Json, Seq<char>>(j),
        spec_envelope_of(j) == Some(env),
        !spec_is_success(env.code),
        spec_detail_outcome(b, rd),
        spec_pools_outcome(b, rp),
    ensures
        rd == Err::<Option<CoinDetailView>, ClientErrorView>(ClientErrorView::Other(env.message)),
        rp == Err::<Seq<CoinDexPoolView>, ClientErrorView>(ClientErrorView::Other(env.message)),
{
}

/// Law: a body that is not valid JSON makes both operations return a
/// decode failure whose embedded text is the body's best-effort
/// decoding.
pub proof fn lemma_malformed_body_is_decode_failure(
    b: Seq<u8>,
    rd: Result<Option<CoinDetailView>, ClientErrorView>,
    rp: Result<Seq<CoinDexPoolView>, ClientErrorView>,
)
    requires
        json_parse(b) is Err,
        spec_detail_outcome(b, rd),
        spec_pools_outcome(b, rp),
    ensures
        rd == Err::<Option<CoinDetailView>, ClientErrorView>(
            ClientErrorView::Json { cause: json_parse(b)->Err_0, body: lossy_text(b) },
        ),
        rp == Err::<Seq<CoinDexPoolView>, ClientErrorView>(
            ClientErrorView::Json { cause: json_parse(b)->Err_0, body: lossy_text(b) },
        ),
{
}

/// Law: a success envelope without a payload makes the coin-detail
/// operation return an absent result, not an error.
pub proof fn lemma_detail_absent_payload_is_ok(
    b: Seq<u8>,
    j: Json,
    env: ApiResponseView<Json>,
    r: Result<Option<CoinDetailView>, ClientErrorView>,
)
    requires
        json_parse(b) == Ok::<Json, Seq<char>>(j),
        spec_envelope_of(j) == Some(env),
        spec_is_success(env.code),
        env.result is None,
        spec_detail_outcome(b, r),
    ensures
        r == Ok::<Option<CoinDetailView>, ClientErrorView>(None),
{
}

/// Decodes a dex-pools response body, as [`spec_pools_outcome`]
/// describes.
pub fn coin_dex_pools_from_body(body: &[u8]) -> (r: Result<
    Vec<CoinDexPoolsResponse>,
    ClientError,
>)
    ensures
        spec_pools_outcome(body@, spec_pools_result_view(r)),
{
    let env = match envelope_or_err(body) {
        Ok(env) => env,
        Err(e) => {
            return Err(e);
        },
    };
    if !is_success(env.code) {
        return Err(ClientError::Other(env.message));
    }
    match env.result {
        None => {
            let empty: Vec<CoinDexPoolsResponse> = Vec::new();
            proof {
                assert(spec_pools_view(empty@) =~= Seq::<CoinDexPoolView>::empty());
            }
            Ok(empty)
        },
        Some(pj) => match coin_dex_pools_of_json(&pj) {
            Some(v) => Ok(v),
            None => Err(
                ClientError::Json {
                    cause: String::from_str("result is not a list of DEX pool records"),
                    body: lossy_utf8(body),
                },
            ),
        },
    }
}

} // verus!
