//! The orchestrator over the remote API client.
//!
//! `Service` drives one [`DiaryFlow`](crate::flow::DiaryFlow) to completion:
//! every branch below is forced by the machine's contract, so the query is
//! always issued first and a create is issued exactly when the query came
//! back empty.

use vstd::prelude::*;
use vstd::pervasive::unreached;
use crate::date::Date;
use crate::flow::{DiaryFlow, DiaryStatus, FlowAction, FlowEvent};
use crate::http_client::ApiError;
use crate::notion::NotionApiClientTrait;

verus! {

/// One idempotent diary-page run.
pub trait ServiceTrait {
    /// Makes sure one diary record exists for `date` in the database named
    /// by `id`, and reports whether it was found or created. The first
    /// failed exchange aborts the run and comes back as the error.
    fn create_diary_page(&self, id: &str, date: &Date) -> (r: Result<DiaryStatus, ApiError>)
        requires
            date.wf(),
    ;
}

/// The orchestrator: a diary flow driven over a remote API client.
pub struct Service<C: NotionApiClientTrait> {
    pub notion_client: C,
}

impl<C: NotionApiClientTrait> Service<C> {
    pub fn new(notion_client: C) -> (s: Self)
        ensures
            s.notion_client == notion_client,
    {
        Service { notion_client }
    }
}

impl<C: NotionApiClientTrait> ServiceTrait for Service<C> {
    fn create_diary_page(&self, id: &str, date: &Date) -> (r: Result<DiaryStatus, ApiError>) {
        let mut flow = DiaryFlow::new(String::from_str(id), *date);
        let query_params = match flow.step(FlowEvent::Begin) {
            Some(FlowAction::RunQuery(q)) => q,
            _ => unreached(),
        };
        let resp = match self.notion_client.query_database(id, query_params) {
            Ok(resp) => resp,
            Err(e) => {
                return Err(e);
            },
        };
        match flow.step(FlowEvent::QueryReturned(resp)) {
            Some(FlowAction::Finish(status)) => Ok(status),
            Some(FlowAction::RunCreate(create_params)) => {
                match self.notion_client.create_page(create_params) {
                    Ok(_) => {},
                    Err(e) => {
                        return Err(e);
                    },
                }
                match flow.step(FlowEvent::CreateSucceeded) {
                    Some(FlowAction::Finish(status)) => Ok(status),
                    _ => unreached(),
                }
            },
            _ => unreached(),
        }
    }
}

} // verus!
