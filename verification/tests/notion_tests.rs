use std::cell::{Cell, RefCell};

use notion_diary::http_client::{ApiError, HeaderEntry, HttpClientTrait};
use notion_diary::notion::{
    CreatePageParams, CreatePageParent, CreatePageResponse, NotionApiClient, NotionApiClientTrait,
    QueryDatabaseDateFilter, QueryDatabaseFilter, QueryDatabaseParams, QueryDatabaseResponse,
};

#[derive(Default)]
struct FakeHttpClient {
    post_query_calls: Cell<u32>,
    post_create_calls: Cell<u32>,
    last_query_url: RefCell<Option<String>>,
    last_create_url: RefCell<Option<String>>,
    last_headers: RefCell<Vec<HeaderEntry>>,
}

impl HttpClientTrait for FakeHttpClient {
    fn post_query(
        &self,
        url: &str,
        headers: Vec<HeaderEntry>,
        _params: &QueryDatabaseParams,
    ) -> Result<QueryDatabaseResponse, ApiError> {
        self.post_query_calls.set(self.post_query_calls.get() + 1);
        *self.last_query_url.borrow_mut() = Some(url.to_string());
        *self.last_headers.borrow_mut() = headers;
        Ok(QueryDatabaseResponse { results: vec![] })
    }

    fn post_create_page(
        &self,
        url: &str,
        headers: Vec<HeaderEntry>,
        _params: &CreatePageParams,
    ) -> Result<CreatePageResponse, ApiError> {
        self.post_create_calls.set(self.post_create_calls.get() + 1);
        *self.last_create_url.borrow_mut() = Some(url.to_string());
        *self.last_headers.borrow_mut() = headers;
        Ok(CreatePageResponse {})
    }
}

fn query_params(equals: &str) -> QueryDatabaseParams {
    QueryDatabaseParams {
        filter: QueryDatabaseFilter {
            property: "Date".to_string(),
            date: QueryDatabaseDateFilter {
                equals: equals.to_string(),
            },
        },
    }
}

#[test]
fn test_query_database() {
    let api_token = "api_token";
    let database_id = "database_id";
    let params = query_params("2023-03-19");

    let url = "https://api.notion.com/v1/databases/database_id/query";

    let mock = FakeHttpClient::default();
    let notion_api_client = NotionApiClient::new(&mock, api_token.to_string());

    let result = notion_api_client
        .query_database(database_id, params)
        .unwrap();

    assert_eq!(result.results.len(), 0);
    assert_eq!(mock.post_query_calls.get(), 1);
    assert_eq!(mock.last_query_url.borrow().as_deref(), Some(url));
}

#[test]
fn notion_test_create_page() {
    let api_token = "api_token";
    let database_id = "database_id";
    let params = CreatePageParams {
        parent: CreatePageParent {
            database_id: database_id.to_string(),
        },
        properties: vec![],
    };

    let url = "https://api.notion.com/v1/pages";

    let mock = FakeHttpClient::default();
    let notion_api_client = NotionApiClient::new(&mock, api_token.to_string());

    notion_api_client.create_page(params).unwrap();

    assert_eq!(mock.post_create_calls.get(), 1);
    assert_eq!(mock.last_create_url.borrow().as_deref(), Some(url));
}

#[test]
fn test_create_headers() {
    let mock = FakeHttpClient::default();
    let notion_api_client = NotionApiClient::new(&mock, "api_token".to_string());

    let headers = notion_api_client.create_headers();

    assert_eq!(headers.len(), 4);
    assert_eq!(headers[0].name, "Accept");
    assert_eq!(headers[0].value, "application/json");
    assert_eq!(headers[1].name, "Notion-Version");
    assert_eq!(headers[1].value, "2022-06-28");
    assert_eq!(headers[2].name, "Content-Type");
    assert_eq!(headers[2].value, "application/json");
    assert_eq!(headers[3].name, "Authorization");
    assert_eq!(headers[3].value, "Bearer api_token");
}

#[test]
fn test_both_calls_attach_the_fixed_headers() {
    let mock = FakeHttpClient::default();
    let notion_api_client = NotionApiClient::new(&mock, "secret".to_string());

    notion_api_client
        .query_database("db", query_params("2023-03-19"))
        .unwrap();
    {
        let headers = mock.last_headers.borrow();
        assert_eq!(headers.len(), 4);
        assert_eq!(headers[3].value, "Bearer secret");
    }

    notion_api_client
        .create_page(CreatePageParams {
            parent: CreatePageParent {
                database_id: "db".to_string(),
            },
            properties: vec![],
        })
        .unwrap();
    let headers = mock.last_headers.borrow();
    assert_eq!(headers.len(), 4);
    assert_eq!(headers[3].value, "Bearer secret");
}
