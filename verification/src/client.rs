//! The client's configuration — credential and base URL — and the
//! request parts it prepares for the transport: the endpoint URL, the
//! query parameters, and the two fixed headers every request carries.

use vstd::prelude::*;
use vstd::string::StringExecFns;

verus! {

/// The base URL every endpoint path is appended to.
pub open spec fn spec_base_url() -> Seq<char> {
    "https://api.blockvision.org/v2/sui/"@
}

/// An opaque API credential.  The key's characters are read only when
/// the request headers are built; the type derives no output the key
/// could leak through.
pub struct ApiKey {
    key: String,
}

impl View for ApiKey {
    type V = Seq<char>;

    closed spec fn view(&self) -> Seq<char> {
        self.key@
    }
}

impl ApiKey {
    /// Wraps the secret key string.
    pub fn new(key: String) -> (r: ApiKey)
        ensures
            r@ == key@,
    {
        ApiKey { key }
    }
}

/// Everything the transport needs to issue one GET request: the
/// endpoint URL, the query parameters (to be query-encoded by the
/// transport), and the headers.
pub struct RequestParts {
    pub url: String,
    pub query: Vec<(String, String)>,
    pub headers: Vec<(String, String)>,
}

/// The two fixed headers of every outgoing request: the content type
/// declared as JSON, and the API key under its fixed header name — and
/// nothing else.
pub open spec fn spec_default_headers(key: Seq<char>, headers: Seq<(String, String)>) -> bool {
    &&& headers.len() == 2
    &&& headers[0].0@ == "Content-Type"@
    &&& headers[0].1@ == "application/json"@
    &&& headers[1].0@ == "x-api-key"@
    &&& headers[1].1@ == key
}

/// A client for the BlockVision Sui endpoints: the API credential and
/// the fixed base URL.  The transport itself lives with the caller.
pub struct SuiClient {
    api_key: ApiKey,
    base_url: String,
}

impl SuiClient {
    /// The characters of the client's base URL.
    pub closed spec fn spec_base(&self) -> Seq<char> {
        self.base_url@
    }

    /// The characters of the client's credential.
    pub closed spec fn spec_api_key(&self) -> Seq<char> {
        self.api_key@
    }

    /// Creates a client holding `api_key`, against the fixed base URL.
    pub fn new(api_key: ApiKey) -> (r: SuiClient)
        ensures
            r.spec_base() == spec_base_url(),
            r.spec_api_key() == api_key@,
    {
        SuiClient { api_key, base_url: String::from_str("https://api.blockvision.org/v2/sui/") }
    }

    /// The parts of a GET request against `path`: the URL is the base
    /// URL with `path` appended, the query is exactly the single
    /// parameter `coinType` with the caller's coin type, unaltered, and
    /// the headers are exactly the two fixed ones.
    pub fn request_parts(&self, path: &str, coin_type: &str) -> (r: RequestParts)
        ensures
            r.url@ == self.spec_base() + path@,
            r.query@.len() == 1,
            r.query@[0].0@ == "coinType"@,
            r.query@[0].1@ == coin_type@,
            spec_default_headers(self.spec_api_key(), r.headers@),
    {
        let url = self.base_url.clone().concat(path);
        let mut query: Vec<(String, String)> = Vec::new();
        query.push((String::from_str("coinType"), String::from_str(coin_type)));
        let mut headers: Vec<(String, String)> = Vec::new();
        headers.push((String::from_str("Content-Type"), String::from_str("application/json")));
        headers.push((String::from_str("x-api-key"), self.api_key.key.clone()));
        RequestParts { url, query, headers }
    }

    /// The request parts for the dex-pools endpoint.
    pub fn dex_pools_request(&self, coin_type: &str) -> (r: RequestParts)
        ensures
            r.url@ == self.spec_base() + "coin/dex/pools"@,
            r.query@.len() == 1,
            r.query@[0].0@ == "coinType"@,
            r.query@[0].1@ == coin_type@,
            spec_default_headers(self.spec_api_key(), r.headers@),
    {
        self.request_parts("coin/dex/pools", coin_type)
    }

    /// The request parts for the coin-detail endpoint.
    pub fn coin_detail_request(&self, coin_type: &str) -> (r: RequestParts)
        ensures
            r.url@ == self.spec_base() + "coin/detail"@,
            r.query@.len() == 1,
            r.query@[0].0@ == "coinType"@,
            r.query@[0].1@ == coin_type@,
            spec_default_headers(self.spec_api_key(), r.headers@),
    {
        self.request_parts("coin/detail", coin_type)
    }
}

} // verus!
