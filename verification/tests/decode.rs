use blockvision_client::api_response::{decode_envelope, encode_envelope, is_success, ApiResponse};
use blockvision_client::coin_detail::{
    coin_detail_of_json, coin_detail_to_json, CoinDetailResponse,
};
use blockvision_client::coin_dex_pools::{
    coin_dex_pool_of_json, coin_dex_pool_to_json, coin_dex_pools_of_json, coin_dex_pools_to_json,
    CoinDexPoolsResponse,
};
use blockvision_client::error::ClientError;
use blockvision_client::json::Json;
use blockvision_client::response::{coin_detail_from_body, coin_dex_pools_from_body};

fn sample_detail() -> CoinDetailResponse {
    CoinDetailResponse {
        name: String::from("Wrapped SOL"),
        symbol: String::from("SOL"),
        decimals: 9,
        logo: String::from("https://img.example/sol.png"),
        price: String::from("147.32"),
        price_change_percentage_24h: String::from("-1.8"),
        holders: 51234,
        market_cap: String::from("123456789"),
        website: String::from("https://solana.com"),
        creator: String::from("0x1111111111111111111111111111111111111111111111111111111111111111"),
        created_time: 1681215600000,
        verified: true,
        circulating: String::from("400000000"),
        scam_flag: 0,
    }
}

fn sample_pool() -> CoinDexPoolsResponse {
    CoinDexPoolsResponse {
        dex: String::from("momentum"),
        link: String::from("https://app.example/pool/0xabc"),
        pool_id: String::from("0xabc"),
        balance: String::from("123456"),
        price: String::from("1.0021"),
        coin_list: vec![String::from("0x2::sui::SUI"), String::from("0x2::sol::SOL")],
        tvl: String::from("98765.4"),
        apr: Some(String::from("12.5")),
    }
}

const DETAIL_BODY: &str = "{\"code\":200,\"message\":\"OK\",\"result\":{\
\"name\":\"Wrapped SOL\",\"symbol\":\"SOL\",\"decimals\":9,\
\"logo\":\"https://img.example/sol.png\",\"price\":\"147.32\",\
\"priceChangePercentage24H\":\"-1.8\",\"holders\":51234,\
\"marketCap\":\"123456789\",\"website\":\"https://solana.com\",\
\"creator\":\"0x1111111111111111111111111111111111111111111111111111111111111111\",\
\"createdTime\":1681215600000,\"verified\":true,\
\"circulating\":\"400000000\",\"scamFlag\":0}}";

#[test]
fn detail_success_envelope_returns_payload() {
    let r = coin_detail_from_body(DETAIL_BODY.as_bytes());
    let d = r.expect("success envelope").expect("payload present");
    assert_eq!(d, sample_detail());
}

#[test]
fn detail_success_ignores_unknown_members() {
    let body = DETAIL_BODY.replace("\"name\":", "\"extra\":[1,2,{}],\"name\":");
    let d = coin_detail_from_body(body.as_bytes())
        .expect("success envelope")
        .expect("payload present");
    assert_eq!(d.name, "Wrapped SOL");
}

#[test]
fn detail_non_success_is_api_failure() {
    let body = b"{\"code\":400,\"message\":\"invalid coinType\",\"result\":null}";
    let r = coin_detail_from_body(&body[..]);
    assert_eq!(r, Err(ClientError::Other(String::from("invalid coinType"))));
}

#[test]
fn pools_non_success_is_api_failure() {
    let body = b"{\"code\":400,\"message\":\"invalid coinType\",\"result\":null}";
    let r = coin_dex_pools_from_body(&body[..]);
    assert_eq!(r, Err(ClientError::Other(String::from("invalid coinType"))));
}

#[test]
fn detail_absent_payload_is_ok_none() {
    let r = coin_detail_from_body(&b"{\"code\":200,\"message\":\"OK\"}"[..]);
    assert_eq!(r, Ok(None));
    let r = coin_detail_from_body(&b"{\"code\":200,\"message\":\"OK\",\"result\":null}"[..]);
    assert_eq!(r, Ok(None));
}

#[test]
fn pools_absent_payload_is_empty_list() {
    let r = coin_dex_pools_from_body(&b"{\"code\":200,\"message\":\"OK\"}"[..]);
    assert_eq!(r, Ok(vec![]));
}

#[test]
fn pools_success_envelope_returns_payload() {
    let body = "{\"code\":200,\"message\":\"OK\",\"result\":[\
{\"dex\":\"momentum\",\"link\":\"https://app.example/pool/0xabc\",\
\"poolId\":\"0xabc\",\"balance\":\"123456\",\"price\":\"1.0021\",\
\"coinList\":[\"0x2::sui::SUI\",\"0x2::sol::SOL\"],\
\"tvl\":\"98765.4\",\"apr\":\"12.5\"},\
{\"dex\":\"cetus\",\"link\":\"https://app.example/pool/0xdef\",\
\"poolId\":\"0xdef\",\"balance\":\"7\",\"price\":\"0.5\",\
\"coinList\":[],\"tvl\":\"1\"}\
]}";
    let pools = coin_dex_pools_from_body(body.as_bytes()).expect("success envelope");
    assert_eq!(pools.len(), 2);
    assert_eq!(pools[0], sample_pool());
    assert_eq!(pools[1].dex, "cetus");
    assert_eq!(pools[1].coin_list, Vec::<String>::new());
    assert_eq!(pools[1].apr, None);
}

#[test]
fn pools_null_apr_means_no_rate() {
    let body = "{\"code\":200,\"message\":\"OK\",\"result\":[\
{\"dex\":\"momentum\",\"link\":\"l\",\"poolId\":\"p\",\"balance\":\"0\",\
\"price\":\"0\",\"coinList\":[\"c\"],\"tvl\":\"0\",\"apr\":null}]}";
    let pools = coin_dex_pools_from_body(body.as_bytes()).expect("success envelope");
    assert_eq!(pools[0].apr, None);
}

#[test]
fn malformed_body_embeds_the_body_text() {
    let body = b"{\"code\":200,";
    match coin_detail_from_body(&body[..]) {
        Err(ClientError::Json { body: text, .. }) => {
            assert_eq!(text, "{\"code\":200,");
        }
        other => panic!("expected a decode failure, got {:?}", other),
    }
    match coin_dex_pools_from_body(&body[..]) {
        Err(ClientError::Json { body: text, .. }) => {
            assert_eq!(text, "{\"code\":200,");
        }
        other => panic!("expected a decode failure, got {:?}", other),
    }
}

#[test]
fn invalid_utf8_body_is_replaced_not_fatal() {
    let body = [0x7b, 0xff, 0x7d];
    match coin_detail_from_body(&body[..]) {
        Err(ClientError::Json { body: text, .. }) => {
            assert_eq!(text, "{\u{fffd}}");
        }
        other => panic!("expected a decode failure, got {:?}", other),
    }
}

#[test]
fn non_envelope_json_is_decode_failure() {
    let body = b"[1,2,3]";
    match coin_detail_from_body(&body[..]) {
        Err(ClientError::Json { cause, body: text }) => {
            assert_eq!(cause, "response is not a BlockVision envelope");
            assert_eq!(text, "[1,2,3]");
        }
        other => panic!("expected a decode failure, got {:?}", other),
    }
}

#[test]
fn envelope_code_must_be_a_status_code() {
    for body in [
        "{\"code\":99,\"message\":\"OK\"}",
        "{\"code\":1000,\"message\":\"OK\"}",
        "{\"code\":\"200\",\"message\":\"OK\"}",
        "{\"code\":200.5,\"message\":\"OK\"}",
        "{\"message\":\"OK\"}",
        "{\"code\":200}",
    ] {
        match coin_detail_from_body(body.as_bytes()) {
            Err(ClientError::Json { cause, .. }) => {
                assert_eq!(cause, "response is not a BlockVision envelope");
            }
            other => panic!("expected a decode failure for {body}, got {:?}", other),
        }
    }
}

#[test]
fn status_edges_follow_the_2xx_rule() {
    assert!(!is_success(199));
    assert!(is_success(200));
    assert!(is_success(299));
    assert!(!is_success(300));
    let body_299 = DETAIL_BODY.replace("\"code\":200", "\"code\":299");
    assert!(coin_detail_from_body(body_299.as_bytes()).is_ok());
    let body_300 = b"{\"code\":300,\"message\":\"moved\",\"result\":null}";
    assert_eq!(
        coin_detail_from_body(&body_300[..]),
        Err(ClientError::Other(String::from("moved")))
    );
}

#[test]
fn detail_payload_shape_is_checked() {
    for result in [
        "{\"name\":1}",
        "[]",
        "\"text\"",
        // decimals beyond i32
        "{\"name\":\"n\",\"symbol\":\"s\",\"decimals\":2147483648,\"logo\":\"l\",\
         \"price\":\"p\",\"priceChangePercentage24H\":\"c\",\"holders\":1,\
         \"marketCap\":\"m\",\"website\":\"w\",\"creator\":\"cr\",\
         \"createdTime\":1,\"verified\":true,\"circulating\":\"ci\",\"scamFlag\":0}",
        // scamFlag beyond u8
        "{\"name\":\"n\",\"symbol\":\"s\",\"decimals\":0,\"logo\":\"l\",\
         \"price\":\"p\",\"priceChangePercentage24H\":\"c\",\"holders\":1,\
         \"marketCap\":\"m\",\"website\":\"w\",\"creator\":\"cr\",\
         \"createdTime\":1,\"verified\":true,\"circulating\":\"ci\",\"scamFlag\":256}",
        // createdTime beyond i64 stays textual and does not fit
        "{\"name\":\"n\",\"symbol\":\"s\",\"decimals\":0,\"logo\":\"l\",\
         \"price\":\"p\",\"priceChangePercentage24H\":\"c\",\"holders\":1,\
         \"marketCap\":\"m\",\"website\":\"w\",\"creator\":\"cr\",\
         \"createdTime\":9223372036854775808,\"verified\":true,\
         \"circulating\":\"ci\",\"scamFlag\":0}",
    ] {
        let body = format!("{{\"code\":200,\"message\":\"OK\",\"result\":{result}}}");
        match coin_detail_from_body(body.as_bytes()) {
            Err(ClientError::Json { cause, .. }) => {
                assert_eq!(cause, "result is not a coin detail record");
            }
            other => panic!("expected a decode failure for {result}, got {:?}", other),
        }
    }
}

#[test]
fn pools_payload_shape_is_checked() {
    for result in [
        "{}",
        "[{\"dex\":\"d\"}]",
        "[{\"dex\":\"d\",\"link\":\"l\",\"poolId\":\"p\",\"balance\":\"b\",\
          \"price\":\"pr\",\"coinList\":[1],\"tvl\":\"t\"}]",
        "[{\"dex\":\"d\",\"link\":\"l\",\"poolId\":\"p\",\"balance\":\"b\",\
          \"price\":\"pr\",\"coinList\":[\"c\"],\"tvl\":\"t\",\"apr\":7}]",
    ] {
        let body = format!("{{\"code\":200,\"message\":\"OK\",\"result\":{result}}}");
        match coin_dex_pools_from_body(body.as_bytes()) {
            Err(ClientError::Json { cause, .. }) => {
                assert_eq!(cause, "result is not a list of DEX pool records");
            }
            other => panic!("expected a decode failure for {result}, got {:?}", other),
        }
    }
}

#[test]
fn detail_round_trip_at_the_document_level() {
    let d = sample_detail();
    let j = coin_detail_to_json(&d);
    assert_eq!(coin_detail_of_json(&j), Some(sample_detail()));
}

#[test]
fn pool_round_trip_at_the_document_level() {
    let p = sample_pool();
    let j = coin_dex_pool_to_json(&p);
    assert_eq!(coin_dex_pool_of_json(&j), Some(sample_pool()));
    let mut no_apr = sample_pool();
    no_apr.apr = None;
    let j = coin_dex_pool_to_json(&no_apr);
    let back = coin_dex_pool_of_json(&j).expect("round trip");
    assert_eq!(back.apr, None);
}

#[test]
fn pool_list_round_trip_at_the_document_level() {
    let pools = vec![sample_pool(), sample_pool()];
    let j = coin_dex_pools_to_json(&pools);
    let back = coin_dex_pools_of_json(&j).expect("round trip");
    assert_eq!(back, pools);
}

#[test]
fn envelope_round_trip_at_the_document_level() {
    let j = encode_envelope(200, String::from("OK"), Some(Json::Bool(true)));
    let env: ApiResponse<Json> = decode_envelope(j).expect("round trip");
    assert_eq!(env.code, 200);
    assert_eq!(env.message, "OK");
    assert_eq!(env.result, Some(Json::Bool(true)));
    let j = encode_envelope(404, String::from("missing"), None);
    let env = decode_envelope(j).expect("round trip");
    assert_eq!(env.code, 404);
    assert_eq!(env.message, "missing");
    assert_eq!(env.result, None);
}
