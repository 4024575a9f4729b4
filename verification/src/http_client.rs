//! The transport boundary: plain header pairs, the errors a remote exchange
//! can end in, and the trait a concrete HTTP client implements.
//!
//! The library never performs a request itself. It builds URLs, headers and
//! payload values, hands them to an implementation of [`HttpClientTrait`],
//! and goes on with whatever came back.

use vstd::prelude::*;
use crate::notion::{CreatePageParams, CreatePageResponse, QueryDatabaseParams, QueryDatabaseResponse};

verus! {

/// Why a remote exchange failed: the connection itself, a non-success
/// status, or a response body that did not decode.
#[derive(Debug, Clone)]
pub enum ApiError {
    Transport(String),
    Status(u16),
    Decode(String),
}

/// One request header, as a plain name and value pair.
#[derive(Debug, Clone)]
pub struct HeaderEntry {
    pub name: String,
    pub value: String,
}

/// A synchronous HTTP client posting the two fixed payload shapes.
///
/// Implementations live outside the library (a real client around an HTTP
/// crate, or a test double); nothing is assumed of what they return.
pub trait HttpClientTrait {
    /// Posts a database query and decodes the response.
    fn post_query(&self, url: &str, headers: Vec<HeaderEntry>, params: &QueryDatabaseParams) -> (r:
        Result<QueryDatabaseResponse, ApiError>);

    /// Posts a page creation and decodes the response.
    fn post_create_page(
        &self,
        url: &str,
        headers: Vec<HeaderEntry>,
        params: &CreatePageParams,
    ) -> (r: Result<CreatePageResponse, ApiError>);
}

} // verus!
