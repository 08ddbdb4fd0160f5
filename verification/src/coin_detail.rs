//! The coin-detail endpoint's request and payload records, and the
//! decoding of the payload from its wire form.

use vstd::prelude::*;
use vstd::string::StringExecFns;
use crate::json::{
    Json, spec_get_int, spec_get_str, spec_get_bool, get_int, get_str, get_bool,
    lemma_lookup_first_match,
};

verus! {

/// Request parameters for the coin-detail endpoint.
#[derive(Debug, PartialEq)]
pub struct CoinDetailRequest {
    /// The coin type to query.
    pub coin_type: String,
}

/// Detailed coin information: metadata, market data, supply, and
/// verification status.
#[derive(Debug, PartialEq)]
pub struct CoinDetailResponse {
    /// The coin's full name.
    pub name: String,
    /// The standardized coin ticker from its metadata.
    pub symbol: String,
    /// The coin decimals from its metadata.
    pub decimals: i32,
    /// URL to the coin's logo.
    pub logo: String,
    /// The current market price of the coin in USD.
    pub price: String,
    /// The 24-hour percentage change in the coin's price.
    pub price_change_percentage_24h: String,
    /// Count of unique addresses currently holding this token.
    pub holders: i32,
    /// The total market capitalization.
    pub market_cap: String,
    /// The website or social account associated with the coin.
    pub website: String,
    /// The account address of the coin creator.
    pub creator: String,
    /// When the coin was created, in milliseconds.
    pub created_time: i64,
    /// Whether the coin is verified at the explorer.
    pub verified: bool,
    /// The aggregate quantity of tokens issued.
    pub circulating: String,
    /// Whether the coin is labelled as a scam at the explorer.
    pub scam_flag: u8,
}

/// Abstract value of a [`CoinDetailResponse`].
#[verifier::ext_equal]
pub struct CoinDetailView {
    pub name: Seq<char>,
    pub symbol: Seq<char>,
    pub decimals: int,
    pub logo: Seq<char>,
    pub price: Seq<char>,
    pub price_change_percentage_24h: Seq<char>,
    pub holders: int,
    pub market_cap: Seq<char>,
    pub website: Seq<char>,
    pub creator: Seq<char>,
    pub created_time: int,
    pub verified: bool,
    pub circulating: Seq<char>,
    pub scam_flag: int,
}

impl View for CoinDetailResponse {
    type V = CoinDetailView;

    open spec fn view(&self) -> CoinDetailView {
        CoinDetailView {
            name: self.name@,
            symbol: self.symbol@,
            decimals: self.decimals as int,
            logo: self.logo@,
            price: self.price@,
            price_change_percentage_24h: self.price_change_percentage_24h@,
            holders: self.holders as int,
            market_cap: self.market_cap@,
            website: self.website@,
            creator: self.creator@,
            created_time: self.created_time as int,
            verified: self.verified,
            circulating: self.circulating@,
            scam_flag: self.scam_flag as int,
        }
    }
}

/// What the members of a JSON object mean as a coin-detail record.
/// Every member is required; the wire names are camelCase.
pub open spec fn spec_detail_of_fields(f: Seq<(String, Json)>) -> Option<CoinDetailView> {
    let name = spec_get_str(f, "name"@);
    let symbol = spec_get_str(f, "symbol"@);
    let decimals = spec_get_int(f, "decimals"@);
    let logo = spec_get_str(f, "logo"@);
    let price = spec_get_str(f, "price"@);
    let change = spec_get_str(f, "priceChangePercentage24H"@);
    let holders = spec_get_int(f, "holders"@);
    let market_cap = spec_get_str(f, "marketCap"@);
    let website = spec_get_str(f, "website"@);
    let creator = spec_get_str(f, "creator"@);
    let created_time = spec_get_int(f, "createdTime"@);
    let verified = spec_get_bool(f, "verified"@);
    let circulating = spec_get_str(f, "circulating"@);
    let scam_flag = spec_get_int(f, "scamFlag"@);
    if name is Some && symbol is Some && decimals is Some && i32::MIN <= decimals.unwrap()
        <= i32::MAX && logo is Some && price is Some && change is Some && holders is Some
        && i32::MIN <= holders.unwrap() <= i32::MAX && market_cap is Some && website is Some
        && creator is Some && created_time is Some && verified is Some && circulating is Some
        && scam_flag is Some && 0 <= scam_flag.unwrap() <= u8::MAX {
        Some(
            CoinDetailView {
                name: name.unwrap(),
                symbol: symbol.unwrap(),
                decimals: decimals.unwrap(),
                logo: logo.unwrap(),
                price: price.unwrap(),
                price_change_percentage_24h: change.unwrap(),
                holders: holders.unwrap(),
                market_cap: market_cap.unwrap(),
                website: website.unwrap(),
                creator: creator.unwrap(),
                created_time: created_time.unwrap(),
                verified: verified.unwrap(),
                circulating: circulating.unwrap(),
                scam_flag: scam_flag.unwrap(),
            },
        )
    } else {
        None
    }
}

/// What a JSON document means as a coin-detail record: an object whose
/// members [`spec_detail_of_fields`] accepts.
pub open spec fn spec_detail_of(j: Json) -> Option<CoinDetailView> {
    match j {
        Json::Obj(fields) => spec_detail_of_fields(fields@),
        _ => None,
    }
}

/// Reads a JSON document as a coin-detail record, as [`spec_detail_of`]
/// describes.
pub fn coin_detail_of_json(j: &Json) -> (r: Option<CoinDetailResponse>)
    ensures
        match r {
            Some(d) => spec_detail_of(*j) == Some(d@),
            None => spec_detail_of(*j) is None,
        },
{
    match j {
        Json::Obj(fields) => {
            let name = match get_str(fields, &String::from_str("name")) {
                Some(v) => v,
                None => {
                    return None;
                },
            };
            let symbol = match get_str(fields, &String::from_str("symbol")) {
                Some(v) => v,
                None => {
                    return None;
                },
            };
            let decimals_wide = match get_int(fields, &String::from_str("decimals")) {
                Some(v) => v,
                None => {
                    return None;
                },
            };
            if !(i32::MIN as i64 <= decimals_wide && decimals_wide <= i32::MAX as i64) {
                return None;
            }
            let logo = match get_str(fields, &String::from_str("logo")) {
                Some(v) => v,
                None => {
                    return None;
                },
            };
            let price = match get_str(fields, &String::from_str("price")) {
                Some(v) => v,
                None => {
                    return None;
                },
            };
            let change = match get_str(fields, &String::from_str("priceChangePercentage24H")) {
                Some(v) => v,
                None => {
                    return None;
                },
            };
            let holders_wide = match get_int(fields, &String::from_str("holders")) {
                Some(v) => v,
                None => {
                    return None;
                },
            };
            if !(i32::MIN as i64 <= holders_wide && holders_wide <= i32::MAX as i64) {
                return None;
            }
            let market_cap = match get_str(fields, &String::from_str("marketCap")) {
                Some(v) => v,
                None => {
                    return None;
                },
            };
            let website = match get_str(fields, &String::from_str("website")) {
                Some(v) => v,
                None => {
                    return None;
                },
            };
            let creator = match get_str(fields, &String::from_str("creator")) {
                Some(v) => v,
                None => {
                    return None;
                },
            };
            let created_time = match get_int(fields, &String::from_str("createdTime")) {
                Some(v) => v,
                None => {
                    return None;
                },
            };
            let verified = match get_bool(fields, &String::from_str("verified")) {
                Some(v) => v,
                None => {
                    return None;
                },
            };
            let circulating = match get_str(fields, &String::from_str("circulating")) {
                Some(v) => v,
                None => {
                    return None;
                },
            };
            let scam_wide = match get_int(fields, &String::from_str("scamFlag")) {
                Some(v) => v,
                None => {
                    return None;
                },
            };
            if !(0 <= scam_wide && scam_wide <= u8::MAX as i64) {
                return None;
            }
            Some(
                CoinDetailResponse {
                    name,
                    symbol,
                    decimals: decimals_wide as i32,
                    logo,
                    price,
                    price_change_percentage_24h: change,
                    holders: holders_wide as i32,
                    market_cap,
                    website,
                    creator,
                    created_time,
                    verified,
                    circulating,
                    scam_flag: scam_wide as u8,
                },
            )
        },
        _ => None,
    }
}

/// Builds the wire form of a coin-detail record.  Decoding the result
/// gives exactly the record back: the encoding loses nothing.
#[verifier::rlimit(50)]
pub fn coin_detail_to_json(d: &CoinDetailResponse) -> (j: Json)
    ensures
        spec_detail_of(j) == Some(d@),
{
    proof {
        reveal_strlit("name");
        reveal_strlit("symbol");
        reveal_strlit("decimals");
        reveal_strlit("logo");
        reveal_strlit("price");
        reveal_strlit("priceChangePercentage24H");
        reveal_strlit("holders");
        reveal_strlit("marketCap");
        reveal_strlit("website");
        reveal_strlit("creator");
        reveal_strlit("createdTime");
        reveal_strlit("verified");
        reveal_strlit("circulating");
        reveal_strlit("scamFlag");
    }
    let mut fields: Vec<(String, Json)> = Vec::new();
    fields.push((String::from_str("name"), Json::Str(d.name.clone())));
    fields.push((String::from_str("symbol"), Json::Str(d.symbol.clone())));
    fields.push((String::from_str("decimals"), Json::Int(d.decimals as i64)));
    fields.push((String::from_str("logo"), Json::Str(d.logo.clone())));
    fields.push((String::from_str("price"), Json::Str(d.price.clone())));
    fields.push(
        (
            String::from_str("priceChangePercentage24H"),
            Json::Str(d.price_change_percentage_24h.clone()),
        ),
    );
    fields.push((String::from_str("holders"), Json::Int(d.holders as i64)));
    fields.push((String::from_str("marketCap"), Json::Str(d.market_cap.clone())));
    fields.push((String::from_str("website"), Json::Str(d.website.clone())));
    fields.push((String::from_str("creator"), Json::Str(d.creator.clone())));
    fields.push((String::from_str("createdTime"), Json::Int(d.created_time)));
    fields.push((String::from_str("verified"), Json::Bool(d.verified)));
    fields.push((String::from_str("circulating"), Json::Str(d.circulating.clone())));
    fields.push((String::from_str("scamFlag"), Json::Int(d.scam_flag as i64)));
    proof {
        assert("name"@.len() == 4);
        assert("symbol"@.len() == 6);
        assert("decimals"@.len() == 8);
        assert("logo"@.len() == 4);
        assert("price"@.len() == 5);
        assert("priceChangePercentage24H"@.len() == 24);
        assert("holders"@.len() == 7);
        assert("marketCap"@.len() == 9);
        assert("website"@.len() == 7);
        assert("creator"@.len() == 7);
        assert("createdTime"@.len() == 11);
        assert("verified"@.len() == 8);
        assert("circulating"@.len() == 11);
        assert("scamFlag"@.len() == 8);
        assert("name"@[0] != "logo"@[0]);
        assert("holders"@[0] != "website"@[0]);
        assert("holders"@[0] != "creator"@[0]);
        assert("website"@[0] != "creator"@[0]);
        assert("decimals"@[0] != "verified"@[0]);
        assert("decimals"@[0] != "scamFlag"@[0]);
        assert("verified"@[0] != "scamFlag"@[0]);
        assert("createdTime"@[1] != "circulating"@[1]);
        lemma_lookup_first_match(fields@, "name"@, 0);
        lemma_lookup_first_match(fields@, "symbol"@, 1);
        lemma_lookup_first_match(fields@, "decimals"@, 2);
        lemma_lookup_first_match(fields@, "logo"@, 3);
        lemma_lookup_first_match(fields@, "price"@, 4);
        lemma_lookup_first_match(fields@, "priceChangePercentage24H"@, 5);
        lemma_lookup_first_match(fields@, "holders"@, 6);
        lemma_lookup_first_match(fields@, "marketCap"@, 7);
        lemma_lookup_first_match(fields@, "website"@, 8);
        lemma_lookup_first_match(fields@, "creator"@, 9);
        lemma_lookup_first_match(fields@, "createdTime"@, 10);
        lemma_lookup_first_match(fields@, "verified"@, 11);
        lemma_lookup_first_match(fields@, "circulating"@, 12);
        lemma_lookup_first_match(fields@, "scamFlag"@, 13);
    }
    Json::Obj(fields)
}

} // verus!
