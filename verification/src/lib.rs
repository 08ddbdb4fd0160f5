//! A typed client library for the BlockVision Sui REST endpoints.
//!
//! The library covers the whole request/response pipeline that does not
//! touch the network: building the request parts (URL, query, headers),
//! decoding the JSON envelope that every endpoint answers with, and
//! translating envelope failures into a typed error.  The HTTP transport
//! itself lives outside the library; callers hand the raw response body
//! to the decoding functions here.

pub mod api_response;
pub mod client;
pub mod coin_detail;
pub mod coin_dex_pools;
pub mod error;
pub mod json;
pub mod response;
