//! The dex-pools endpoint's request and payload records: one record per
//! liquidity pool, with the endpoint returning a list of them.

use vstd::prelude::*;
use vstd::string::StringExecFns;
use crate::json::{
    Json, spec_get_str, spec_get_str_list, spec_get_opt_str, get_str, get_str_list, get_opt_str,
    spec_str_items_view, lemma_lookup_first_match, lemma_lookup_none,
};

verus! {

/// Request parameters for the dex-pools endpoint.
#[derive(Debug, PartialEq)]
pub struct CoinDexPoolsRequest {
    /// The coin type to query.
    pub coin_type: String,
}

/// One DEX liquidity pool: exchange details, pool metrics, and token
/// information.
#[derive(Debug, PartialEq)]
pub struct CoinDexPoolsResponse {
    /// The name of the decentralized exchange where the pool is located.
    pub dex: String,
    /// A URL linking to the pool's detail page on the exchange.
    pub link: String,
    /// The unique identifier (address) of the liquidity pool.
    pub pool_id: String,
    /// The total token balance in the pool, as a stringified decimal.
    pub balance: String,
    /// The current token price in the pool.
    pub price: String,
    /// The token type tags in this pool, usually a pair.
    pub coin_list: Vec<String>,
    /// Total value locked in the pool, in USD.
    pub tvl: String,
    /// Estimated annual percentage rate for liquidity providers, when
    /// the exchange reports one.
    pub apr: Option<String>,
}

/// Abstract value of a [`CoinDexPoolsResponse`].
#[verifier::ext_equal]
pub struct CoinDexPoolView {
    pub dex: Seq<char>,
    pub link: Seq<char>,
    pub pool_id: Seq<char>,
    pub balance: Seq<char>,
    pub price: Seq<char>,
    pub coin_list: Seq<Seq<char>>,
    pub tvl: Seq<char>,
    pub apr: Option<Seq<char>>,
}

impl View for CoinDexPoolsResponse {
    type V = CoinDexPoolView;

    open spec fn view(&self) -> CoinDexPoolView {
        CoinDexPoolView {
            dex: self.dex@,
            link: self.link@,
            pool_id: self.pool_id@,
            balance: self.balance@,
            price: self.price@,
            coin_list: self.coin_list.deep_view(),
            tvl: self.tvl@,
            apr: match self.apr {
                Some(ref s) => Some(s@),
                None => None,
            },
        }
    }
}

/// What the members of a JSON object mean as a pool record.  All
/// members but `apr` are required; an absent or null `apr` means no
/// rate is reported.
pub open spec fn spec_pool_of_fields(f: Seq<(String, Json)>) -> Option<CoinDexPoolView> {
    let dex = spec_get_str(f, "dex"@);
    let link = spec_get_str(f, "link"@);
    let pool_id = spec_get_str(f, "poolId"@);
    let balance = spec_get_str(f, "balance"@);
    let price = spec_get_str(f, "price"@);
    let coin_list = spec_get_str_list(f, "coinList"@);
    let tvl = spec_get_str(f, "tvl"@);
    let apr = spec_get_opt_str(f, "apr"@);
    if dex is Some && link is Some && pool_id is Some && balance is Some && price is Some
        && coin_list is Some && tvl is Some && apr is Some {
        Some(
            CoinDexPoolView {
                dex: dex.unwrap(),
                link: link.unwrap(),
                pool_id: pool_id.unwrap(),
                balance: balance.unwrap(),
                price: price.unwrap(),
                coin_list: coin_list.unwrap(),
                tvl: tvl.unwrap(),
                apr: apr.unwrap(),
            },
        )
    } else {
        None
    }
}

/// What a JSON document means as one pool record.
pub open spec fn spec_pool_of(j: Json) -> Option<CoinDexPoolView> {
    match j {
        Json::Obj(fields) => spec_pool_of_fields(fields@),
        _ => None,
    }
}

/// The pool records held by a sequence of JSON documents, in order.
pub open spec fn spec_pool_items_view(items: Seq<Json>) -> Seq<CoinDexPoolView> {
    Seq::new(items.len(), |i: int| spec_pool_of(items[i]).unwrap())
}

/// What a JSON document means as the dex-pools payload: an array whose
/// every element is a pool record.
pub open spec fn spec_pools_of(j: Json) -> Option<Seq<CoinDexPoolView>> {
    match j {
        Json::Arr(items) => {
            if forall|i: int| 0 <= i < items@.len() ==> spec_pool_of(items@[i]) is Some {
                Some(spec_pool_items_view(items@))
            } else {
                None
            }
        },
        _ => None,
    }
}

/// The abstract value of a list of pool records, element by element.
pub open spec fn spec_pools_view(v: Seq<CoinDexPoolsResponse>) -> Seq<CoinDexPoolView> {
    Seq::new(v.len(), |i: int| v[i]@)
}

/// Reads a JSON document as one pool record, as [`spec_pool_of`]
/// describes.
pub fn coin_dex_pool_of_json(j: &Json) -> (r: Option<CoinDexPoolsResponse>)
    ensures
        match r {
            Some(p) => spec_pool_of(*j) == Some(p@),
            None => spec_pool_of(*j) is None,
        },
{
    match j {
        Json::Obj(fields) => {
            let dex = match get_str(fields, &String::from_str("dex")) {
                Some(v) => v,
                None => {
                    return None;
                },
            };
            let link = match get_str(fields, &String::from_str("link")) {
                Some(v) => v,
                None => {
                    return None;
                },
            };
            let pool_id = match get_str(fields, &String::from_str("poolId")) {
                Some(v) => v,
                None => {
                    return None;
                },
            };
            let balance = match get_str(fields, &String::from_str("balance")) {
                Some(v) => v,
                None => {
                    return None;
                },
            };
            let price = match get_str(fields, &String::from_str("price")) {
                Some(v) => v,
                None => {
                    return None;
                },
            };
            let coin_list = match get_str_list(fields, &String::from_str("coinList")) {
                Some(v) => v,
                None => {
                    return None;
                },
            };
            let tvl = match get_str(fields, &String::from_str("tvl")) {
                Some(v) => v,
                None => {
                    return None;
                },
            };
            let apr = match get_opt_str(fields, &String::from_str("apr")) {
                Some(v) => v,
                None => {
                    return None;
                },
            };
            Some(CoinDexPoolsResponse { dex, link, pool_id, balance, price, coin_list, tvl, apr })
        },
        _ => None,
    }
}

/// Reads a JSON document as the dex-pools payload, as [`spec_pools_of`]
/// describes.
pub fn coin_dex_pools_of_json(j: &Json) -> (r: Option<Vec<CoinDexPoolsResponse>>)
    ensures
        match r {
            Some(v) => spec_pools_of(*j) == Some(spec_pools_view(v@)),
            None => spec_pools_of(*j) is None,
        },
{
    match j {
        Json::Arr(items) => {
            let mut out: Vec<CoinDexPoolsResponse> = Vec::new();
            let mut k: usize = 0;
            while k < items.len()
                invariant
                    *j matches Json::Arr(l) && l@ == items@,
                    k <= items@.len(),
                    out@.len() == k,
                    forall|i: int| 0 <= i < k ==> spec_pool_of(items@[i]) is Some,
                    forall|i: int| 0 <= i < k ==> spec_pool_of(items@[i]) == Some(out@[i]@),
                decreases items@.len() - k,
            {
                match coin_dex_pool_of_json(&items[k]) {
                    Some(p) => {
                        out.push(p);
                    },
                    None => {
                        proof {
                            assert(spec_pool_of(items@[k as int]) is None);
                        }
                        return None;
                    },
                }
                k = k + 1;
            }
            proof {
                assert(spec_pools_view(out@) =~= spec_pool_items_view(items@));
            }
            Some(out)
        },
        _ => None,
    }
}

/// Builds the wire form of one pool record.  Decoding the result gives
/// exactly the record back: the encoding loses nothing.
#[verifier::rlimit(50)]
pub fn coin_dex_pool_to_json(p: &CoinDexPoolsResponse) -> (j: Json)
    ensures
        spec_pool_of(j) == Some(p@),
{
    proof {
        reveal_strlit("dex");
        reveal_strlit("link");
        reveal_strlit("poolId");
        reveal_strlit("balance");
        reveal_strlit("price");
        reveal_strlit("coinList");
        reveal_strlit("tvl");
        reveal_strlit("apr");
    }
    let mut coins: Vec<Json> = Vec::new();
    let mut k: usize = 0;
    while k < p.coin_list.len()
        invariant
            k <= p.coin_list@.len(),
            coins@.len() == k,
            forall|i: int| 0 <= i < k ==> coins@[i] is Str,
            forall|i: int| 0 <= i < k ==> coins@[i]->Str_0@ == p.coin_list@[i]@,
        decreases p.coin_list@.len() - k,
    {
        coins.push(Json::Str(p.coin_list[k].clone()));
        k = k + 1;
    }
    let ghost coins_v = coins@;
    let mut fields: Vec<(String, Json)> = Vec::new();
    fields.push((String::from_str("dex"), Json::Str(p.dex.clone())));
    fields.push((String::from_str("link"), Json::Str(p.link.clone())));
    fields.push((String::from_str("poolId"), Json::Str(p.pool_id.clone())));
    fields.push((String::from_str("balance"), Json::Str(p.balance.clone())));
    fields.push((String::from_str("price"), Json::Str(p.price.clone())));
    fields.push((String::from_str("coinList"), Json::Arr(coins)));
    fields.push((String::from_str("tvl"), Json::Str(p.tvl.clone())));
    let has_apr = p.apr.is_some();
    match &p.apr {
        Some(s) => fields.push((String::from_str("apr"), Json::Str(s.clone()))),
        None => (),
    }
    proof {
        assert("dex"@.len() == 3);
        assert("link"@.len() == 4);
        assert("poolId"@.len() == 6);
        assert("balance"@.len() == 7);
        assert("price"@.len() == 5);
        assert("coinList"@.len() == 8);
        assert("tvl"@.len() == 3);
        assert("apr"@.len() == 3);
        assert("dex"@[0] != "tvl"@[0]);
        assert("dex"@[0] != "apr"@[0]);
        assert("tvl"@[0] != "apr"@[0]);
        lemma_lookup_first_match(fields@, "dex"@, 0);
        lemma_lookup_first_match(fields@, "link"@, 1);
        lemma_lookup_first_match(fields@, "poolId"@, 2);
        lemma_lookup_first_match(fields@, "balance"@, 3);
        lemma_lookup_first_match(fields@, "price"@, 4);
        lemma_lookup_first_match(fields@, "coinList"@, 5);
        lemma_lookup_first_match(fields@, "tvl"@, 6);
        if has_apr {
            lemma_lookup_first_match(fields@, "apr"@, 7);
        } else {
            lemma_lookup_none(fields@, "apr"@);
        }
        assert(fields@[5].1->Arr_0@ == coins_v);
        assert(spec_str_items_view(coins_v) =~= p.coin_list.deep_view());
    }
    Json::Obj(fields)
}

/// Builds the wire form of the dex-pools payload.  Decoding the result
/// gives exactly the list back: the encoding loses nothing.
pub fn coin_dex_pools_to_json(pools: &Vec<CoinDexPoolsResponse>) -> (j: Json)
    ensures
        spec_pools_of(j) == Some(spec_pools_view(pools@)),
{
    let mut items: Vec<Json> = Vec::new();
    let mut k: usize = 0;
    while k < pools.len()
        invariant
            k <= pools@.len(),
            items@.len() == k,
            forall|i: int| 0 <= i < k ==> spec_pool_of(items@[i]) == Some(pools@[i]@),
        decreases pools@.len() - k,
    {
        items.push(coin_dex_pool_to_json(&pools[k]));
        k = k + 1;
    }
    proof {
        assert(Seq::new(items@.len(), |i: int| spec_pool_of(items@[i]).unwrap())
            =~= spec_pools_view(pools@));
    }
    Json::Arr(items)
}

} // verus!
