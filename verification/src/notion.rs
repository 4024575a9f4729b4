//! The remote API's two payload shapes, its fixed header set, and the client
//! that addresses its endpoints.

use vstd::prelude::*;
use crate::http_client::{ApiError, HeaderEntry, HttpClientTrait};

verus! {

/// The `date` clause of a query filter: equality with one ISO date.
#[derive(Debug, Clone)]
pub struct QueryDatabaseDateFilter {
    pub equals: String,
}

/// A filter on one named property of the queried database.
#[derive(Debug, Clone)]
pub struct QueryDatabaseFilter {
    pub property: String,
    pub date: QueryDatabaseDateFilter,
}

/// The body of a database query request.
#[derive(Debug, Clone)]
pub struct QueryDatabaseParams {
    pub filter: QueryDatabaseFilter,
}

/// One match in a query response; nothing of it is read but its presence.
#[derive(Debug)]
pub struct QueryDatabaseResult {}

/// The body of a database query response.
#[derive(Debug)]
pub struct QueryDatabaseResponse {
    pub results: Vec<QueryDatabaseResult>,
}

impl QueryDatabaseResponse {
    /// Whether the query matched any record at all.
    pub fn has_results(&self) -> (r: bool)
        ensures
            r <==> self.results@.len() > 0,
    {
        self.results.len() > 0
    }
}

/// The parent container a new page is created under.
#[derive(Debug, Clone)]
pub struct CreatePageParent {
    pub database_id: String,
}

/// The text content of one rich-text node.
#[derive(Debug, Clone)]
pub struct CreatePageTitleText {
    pub content: String,
}

/// One rich-text node of a page title.
#[derive(Debug, Clone)]
pub struct CreatePageTitle {
    pub text: CreatePageTitleText,
}

/// The `date` value of a date property.
#[derive(Debug, Clone)]
pub struct CreatePageDate {
    pub start: String,
}

/// A property of a new page: either a title or a date, told apart at
/// construction time.
#[derive(Debug, Clone)]
pub enum CreatePageProperty {
    Title { title: Vec<CreatePageTitle> },
    Date { date: CreatePageDate },
}

/// One named property of a new page.
#[derive(Debug, Clone)]
pub struct CreatePagePropertyEntry {
    pub name: String,
    pub value: CreatePageProperty,
}

/// The body of a page creation request: the parent container and the named
/// properties, in insertion order with no name repeated.
#[derive(Debug, Clone)]
pub struct CreatePageParams {
    pub parent: CreatePageParent,
    pub properties: Vec<CreatePagePropertyEntry>,
}

impl CreatePageParams {
    /// Property names are unique.
    pub open spec fn wf(&self) -> bool {
        forall|i: int, j: int|
            0 <= i < j < self.properties@.len() ==> self.properties@[i].name@
                != self.properties@[j].name@
    }
}

/// The body of a page creation response; nothing of it is read.
#[derive(Debug)]
pub struct CreatePageResponse {}

/// The search endpoint scoped to one database.
pub open spec fn query_database_url_chars(database_id: Seq<char>) -> Seq<char> {
    "https://api.notion.com/v1/databases/"@ + database_id + "/query"@
}

/// Builds the search endpoint URL for one database.
pub fn build_query_database_url(database_id: &str) -> (r: String)
    ensures
        r@ == query_database_url_chars(database_id@),
{
    let mut url = String::from_str("https://api.notion.com/v1/databases/");
    url.append(database_id);
    url.append("/query");
    url
}

/// The fixed global page creation endpoint.
pub fn create_page_url() -> (r: &'static str)
    ensures
        r@ == "https://api.notion.com/v1/pages"@,
{
    "https://api.notion.com/v1/pages"
}

/// The two calls the remote API offers.
///
/// Implemented below over any [`HttpClientTrait`]; test doubles implement it
/// directly. Nothing is assumed of what an implementation returns.
pub trait NotionApiClientTrait {
    /// Looks for records of `database_id` matching the query filter.
    fn query_database(&self, database_id: &str, params: QueryDatabaseParams) -> (r: Result<
        QueryDatabaseResponse,
        ApiError,
    >);

    /// Creates one record with the given payload.
    fn create_page(&self, params: CreatePageParams) -> (r: Result<(), ApiError>);
}

/// The remote API client: fixed headers and endpoints over an HTTP client.
pub struct NotionApiClient<'a, C: HttpClientTrait> {
    pub http_client: &'a C,
    pub api_token: String,
}

impl<'a, C: HttpClientTrait> NotionApiClient<'a, C> {
    pub fn new(http_client: &'a C, api_token: String) -> (c: Self)
        ensures
            c.api_token == api_token,
    {
        NotionApiClient { http_client, api_token }
    }

    /// The fixed header set attached to both calls: JSON accept and content
    /// types, the API version, and the bearer authorization.
    pub fn create_headers(&self) -> (h: Vec<HeaderEntry>)
        ensures
            h@.len() == 4,
            h@[0].name@ == "Accept"@ && h@[0].value@ == "application/json"@,
            h@[1].name@ == "Notion-Version"@ && h@[1].value@ == "2022-06-28"@,
            h@[2].name@ == "Content-Type"@ && h@[2].value@ == "application/json"@,
            h@[3].name@ == "Authorization"@ && h@[3].value@ == "Bearer "@ + self.api_token@,
    {
        let mut headers: Vec<HeaderEntry> = Vec::new();
        headers.push(
            HeaderEntry {
                name: String::from_str("Accept"),
                value: String::from_str("application/json"),
            },
        );
        headers.push(
            HeaderEntry {
                name: String::from_str("Notion-Version"),
                value: String::from_str("2022-06-28"),
            },
        );
        headers.push(
            HeaderEntry {
                name: String::from_str("Content-Type"),
                value: String::from_str("application/json"),
            },
        );
        let mut authorization = String::from_str("Bearer ");
        authorization.append(self.api_token.as_str());
        headers.push(HeaderEntry { name: String::from_str("Authorization"), value: authorization });
        headers
    }
}

impl<'a, C: HttpClientTrait> NotionApiClientTrait for NotionApiClient<'a, C> {
    fn query_database(&self, database_id: &str, params: QueryDatabaseParams) -> (r: Result<
        QueryDatabaseResponse,
        ApiError,
    >) {
        let url = build_query_database_url(database_id);
        let headers = self.create_headers();
        self.http_client.post_query(url.as_str(), headers, &params)
    }

    fn create_page(&self, params: CreatePageParams) -> (r: Result<(), ApiError>) {
        let headers = self.create_headers();
        match self.http_client.post_create_page(create_page_url(), headers, &params) {
            Ok(_) => Ok(()),
            Err(e) => Err(e),
        }
    }
}

} // verus!
