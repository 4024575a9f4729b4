use notion_diary::date::Date;
use notion_diary::flow::{start_message, DiaryFlow, DiaryStatus, FlowAction, FlowEvent};
use notion_diary::notion::{QueryDatabaseResponse, QueryDatabaseResult};

#[test]
fn test_flow_creates_after_empty_query() {
    let mut flow = DiaryFlow::new("db".to_string(), Date::new(2023, 3, 19));

    let action = flow.step(FlowEvent::Begin);
    match action {
        Some(FlowAction::RunQuery(q)) => assert_eq!(q.filter.date.equals, "2023-03-19"),
        _ => panic!("the flow does not start with the query"),
    }

    let action = flow.step(FlowEvent::QueryReturned(QueryDatabaseResponse {
        results: vec![],
    }));
    match action {
        Some(FlowAction::RunCreate(p)) => assert_eq!(p.parent.database_id, "db"),
        _ => panic!("an empty query result does not lead to a create"),
    }

    let action = flow.step(FlowEvent::CreateSucceeded);
    match action {
        Some(FlowAction::Finish(status)) => assert_eq!(status, DiaryStatus::Created),
        _ => panic!("a successful create does not finish the flow"),
    }
}

#[test]
fn test_flow_finishes_after_nonempty_query() {
    let mut flow = DiaryFlow::new("db".to_string(), Date::new(2023, 3, 19));

    flow.step(FlowEvent::Begin);
    let action = flow.step(FlowEvent::QueryReturned(QueryDatabaseResponse {
        results: vec![QueryDatabaseResult {}],
    }));
    match action {
        Some(FlowAction::Finish(status)) => assert_eq!(status, DiaryStatus::AlreadyCreated),
        _ => panic!("a non-empty query result does not finish the flow"),
    }
}

#[test]
fn test_flow_ignores_an_event_it_is_not_waiting_for() {
    let mut flow = DiaryFlow::new("db".to_string(), Date::new(2023, 3, 19));

    assert!(flow.step(FlowEvent::CreateSucceeded).is_none());
    assert!(matches!(
        flow.step(FlowEvent::Begin),
        Some(FlowAction::RunQuery(_))
    ));
    assert!(flow.step(FlowEvent::Begin).is_none());
}

#[test]
fn test_start_message() {
    assert_eq!(start_message(), "Creating diary page started.");
}
