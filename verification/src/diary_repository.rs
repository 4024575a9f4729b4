//! The repository view of the remote API: existence checks and creation for
//! one date.

use vstd::prelude::*;
use crate::date::Date;
use crate::factory::NotionParamsFactory;
use crate::http_client::ApiError;
use crate::notion::NotionApiClientTrait;

verus! {

/// Storage of diary records, keyed by date.
pub trait DiaryRepositoryTrait {
    /// Whether a record for `date` already exists in `database_id`.
    fn exist(&self, database_id: &str, date: &Date) -> (r: Result<bool, ApiError>)
        requires
            date.wf(),
    ;

    /// Creates the record for `date` in `database_id`.
    fn create_page(&self, database_id: &str, date: &Date) -> (r: Result<(), ApiError>)
        requires
            date.wf(),
    ;
}

/// The repository backed by the remote API client.
pub struct DiaryRepository<C: NotionApiClientTrait> {
    pub notion_api_client: C,
}

impl<C: NotionApiClientTrait> DiaryRepository<C> {
    pub fn new(notion_api_client: C) -> (r: Self)
        ensures
            r.notion_api_client == notion_api_client,
    {
        DiaryRepository { notion_api_client }
    }
}

impl<C: NotionApiClientTrait> DiaryRepositoryTrait for DiaryRepository<C> {
    fn exist(&self, database_id: &str, date: &Date) -> (r: Result<bool, ApiError>) {
        let params = NotionParamsFactory::build_query_database_params(date);
        match self.notion_api_client.query_database(database_id, params) {
            Ok(resp) => Ok(resp.has_results()),
            Err(e) => Err(e),
        }
    }

    fn create_page(&self, database_id: &str, date: &Date) -> (r: Result<(), ApiError>) {
        let params = NotionParamsFactory::build_create_page_params(database_id, date);
        self.notion_api_client.create_page(params)
    }
}

} // verus!
