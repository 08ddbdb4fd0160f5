use blockvision_client::client::{ApiKey, SuiClient};
use blockvision_client::coin_detail::CoinDetailRequest;
use blockvision_client::coin_dex_pools::CoinDexPoolsRequest;
use blockvision_client::error::ClientError;

#[test]
fn dex_pools_request_carries_url_query_and_headers() {
    let client = SuiClient::new(ApiKey::new(String::from("SECRET-REDACTED")));
    let parts = client.dex_pools_request("0x2::sui::SUI");
    assert_eq!(parts.url, "https://api.blockvision.org/v2/sui/coin/dex/pools");
    assert_eq!(
        parts.query,
        vec![(String::from("coinType"), String::from("0x2::sui::SUI"))]
    );
    assert_eq!(
        parts.headers,
        vec![
            (String::from("Content-Type"), String::from("application/json")),
            (String::from("x-api-key"), String::from("SECRET-REDACTED")),
        ]
    );
}

#[test]
fn coin_detail_request_carries_url_query_and_headers() {
    let client = SuiClient::new(ApiKey::new(String::from("key-2")));
    let parts = client.coin_detail_request("0x2::sol::SOL");
    assert_eq!(parts.url, "https://api.blockvision.org/v2/sui/coin/detail");
    assert_eq!(
        parts.query,
        vec![(String::from("coinType"), String::from("0x2::sol::SOL"))]
    );
    assert_eq!(parts.headers.len(), 2);
    assert_eq!(parts.headers[1].1, "key-2");
}

#[test]
fn request_records_carry_the_coin_type() {
    let client = SuiClient::new(ApiKey::new(String::from("k")));
    let detail_req = CoinDetailRequest { coin_type: String::from("0x2::sui::SUI") };
    let pools_req = CoinDexPoolsRequest { coin_type: String::from("0x2::sui::SUI") };
    let parts = client.coin_detail_request(detail_req.coin_type.as_str());
    assert_eq!(parts.query[0].1, detail_req.coin_type);
    let parts = client.dex_pools_request(pools_req.coin_type.as_str());
    assert_eq!(parts.query[0].1, pools_req.coin_type);
}

#[test]
fn query_value_is_passed_through_unaltered() {
    let client = SuiClient::new(ApiKey::new(String::from("k")));
    let odd = "a b&c=d/é";
    let parts = client.coin_detail_request(odd);
    assert_eq!(parts.query[0].1, odd);
}

#[test]
fn error_descriptions_name_the_failure_kind() {
    let e = ClientError::Http(String::from("connection refused"));
    assert_eq!(e.describe(), "HTTP error: connection refused");
    let e = ClientError::Json {
        cause: String::from("expected value"),
        body: String::from("{"),
    };
    assert_eq!(e.describe(), "JSON parse error: expected value. Response: {");
    let e = ClientError::Other(String::from("invalid coinType"));
    assert_eq!(e.describe(), "Other error: invalid coinType");
}
