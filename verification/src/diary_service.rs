//! The orchestrator over a repository: check first, create only on absence.
//!
//! `DiaryService` drives the same [`DiaryFlow`](crate::flow::DiaryFlow) as
//! the client-based orchestrator. The repository reports only whether a
//! record exists, so the machine is fed a query response of exactly that
//! cardinality; every branch below is then forced by the machine's contract,
//! and the create call is issued exactly when the check came back negative.

use vstd::prelude::*;
use vstd::pervasive::unreached;
use crate::date::Date;
use crate::diary_repository::DiaryRepositoryTrait;
use crate::flow::{DiaryFlow, DiaryStatus, FlowAction, FlowEvent};
use crate::http_client::ApiError;
use crate::notion::{QueryDatabaseResponse, QueryDatabaseResult};

verus! {

/// One idempotent diary-page run over a repository.
pub trait DiaryServiceTrait {
    /// Makes sure one diary record exists for `date` in the database named
    /// by `id`, and reports whether it was found or created. The first
    /// failed exchange aborts the run and comes back as the error.
    fn create_diary_page(&self, id: &str, date: &Date) -> (r: Result<DiaryStatus, ApiError>)
        requires
            date.wf(),
    ;
}

/// The orchestrator backed by a repository.
pub struct DiaryService<R: DiaryRepositoryTrait> {
    pub diary_repository: R,
}

impl<R: DiaryRepositoryTrait> DiaryService<R> {
    pub fn new(diary_repository: R) -> (s: Self)
        ensures
            s.diary_repository == diary_repository,
    {
        DiaryService { diary_repository }
    }
}

impl<R: DiaryRepositoryTrait> DiaryServiceTrait for DiaryService<R> {
    fn create_diary_page(&self, id: &str, date: &Date) -> (r: Result<DiaryStatus, ApiError>) {
        let mut flow = DiaryFlow::new(String::from_str(id), *date);
        match flow.step(FlowEvent::Begin) {
            Some(FlowAction::RunQuery(_)) => {},
            _ => unreached(),
        }
        let exist = match self.diary_repository.exist(id, date) {
            Ok(b) => b,
            Err(e) => {
                return Err(e);
            },
        };
        let results: Vec<QueryDatabaseResult> = if exist {
            vec![QueryDatabaseResult {}]
        } else {
            Vec::new()
        };
        match flow.step(FlowEvent::QueryReturned(QueryDatabaseResponse { results })) {
            Some(FlowAction::Finish(status)) => Ok(status),
            Some(FlowAction::RunCreate(_)) => {
                // The repository builds the same payload itself from the
                // same id and date, so the action's payload is dropped.
                match self.diary_repository.create_page(id, date) {
                    Ok(_) => {},
                    Err(e) => {
                        return Err(e);
                    },
                }
                match flow.step(FlowEvent::CreateSucceeded) {
                    Some(FlowAction::Finish(status)) => Ok(status),
                    _ => unreached(),
                }
            },
            _ => unreached(),
        }
    }
}

} // verus!
