use std::cell::{Cell, RefCell};

use notion_diary::date::Date;
use notion_diary::flow::DiaryStatus;
use notion_diary::http_client::ApiError;
use notion_diary::notion::{
    CreatePageParams, CreatePageProperty, NotionApiClientTrait, QueryDatabaseParams,
    QueryDatabaseResponse, QueryDatabaseResult,
};
use notion_diary::service::{Service, ServiceTrait};

#[derive(Default)]
struct FakeNotionApiClient {
    query_results: usize,
    query_error: Option<ApiError>,
    create_error: Option<ApiError>,
    query_calls: Cell<u32>,
    create_calls: Cell<u32>,
    last_query_params: RefCell<Option<QueryDatabaseParams>>,
    last_create_params: RefCell<Option<CreatePageParams>>,
}

impl NotionApiClientTrait for FakeNotionApiClient {
    fn query_database(
        &self,
        _database_id: &str,
        params: QueryDatabaseParams,
    ) -> Result<QueryDatabaseResponse, ApiError> {
        self.query_calls.set(self.query_calls.get() + 1);
        *self.last_query_params.borrow_mut() = Some(params);
        if let Some(e) = &self.query_error {
            return Err(e.clone());
        }
        let mut results: Vec<QueryDatabaseResult> = Vec::new();
        for _ in 0..self.query_results {
            results.push(QueryDatabaseResult {});
        }
        Ok(QueryDatabaseResponse { results })
    }

    fn create_page(&self, params: CreatePageParams) -> Result<(), ApiError> {
        self.create_calls.set(self.create_calls.get() + 1);
        *self.last_create_params.borrow_mut() = Some(params);
        if let Some(e) = &self.create_error {
            return Err(e.clone());
        }
        Ok(())
    }
}

#[test]
fn test_empty_query_creates_the_page() {
    let date = Date::new(2023, 3, 19);
    let service = Service::new(FakeNotionApiClient::default());

    let status = service.create_diary_page("database_id", &date).unwrap();

    assert_eq!(status, DiaryStatus::Created);
    assert_eq!(
        status.message(),
        "Today's diary page was created successfully."
    );
    let client = &service.notion_client;
    assert_eq!(client.query_calls.get(), 1);
    assert_eq!(client.create_calls.get(), 1);

    let query = client.last_query_params.borrow();
    let query = query.as_ref().unwrap();
    assert_eq!(query.filter.property, "Date");
    assert_eq!(query.filter.date.equals, "2023-03-19");

    let create = client.last_create_params.borrow();
    let create = create.as_ref().unwrap();
    assert_eq!(create.parent.database_id, "database_id");
    assert_eq!(create.properties[0].name, "Name");
    if let CreatePageProperty::Title { title } = &create.properties[0].value {
        assert_eq!(title[0].text.content, "2023/03/19(日)");
    } else {
        panic!("the Name property is not a title");
    }
    assert_eq!(create.properties[1].name, "Date");
    if let CreatePageProperty::Date { date } = &create.properties[1].value {
        assert_eq!(date.start, "2023-03-19");
    } else {
        panic!("the Date property is not a date");
    }
}

#[test]
fn test_nonempty_query_never_creates() {
    let date = Date::new(2023, 3, 19);
    let service = Service::new(FakeNotionApiClient {
        query_results: 1,
        ..FakeNotionApiClient::default()
    });

    let status = service.create_diary_page("database_id", &date).unwrap();

    assert_eq!(status, DiaryStatus::AlreadyCreated);
    assert_eq!(status.message(), "Today's diary page was already created.");
    let client = &service.notion_client;
    assert_eq!(client.query_calls.get(), 1);
    assert_eq!(client.create_calls.get(), 0);
}

#[test]
fn test_query_transport_error_aborts_the_run() {
    let date = Date::new(2023, 3, 19);
    let service = Service::new(FakeNotionApiClient {
        query_error: Some(ApiError::Transport("connection refused".to_string())),
        ..FakeNotionApiClient::default()
    });

    let result = service.create_diary_page("database_id", &date);

    assert!(matches!(result, Err(ApiError::Transport(_))));
    let client = &service.notion_client;
    assert_eq!(client.query_calls.get(), 1);
    assert_eq!(client.create_calls.get(), 0);
}

#[test]
fn test_create_error_aborts_the_run() {
    let date = Date::new(2023, 3, 19);
    let service = Service::new(FakeNotionApiClient {
        create_error: Some(ApiError::Status(500)),
        ..FakeNotionApiClient::default()
    });

    let result = service.create_diary_page("database_id", &date);

    assert!(matches!(result, Err(ApiError::Status(500))));
    assert_eq!(service.notion_client.create_calls.get(), 1);
}
