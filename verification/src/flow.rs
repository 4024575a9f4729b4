//! The orchestration state machine.
//!
//! One run of the library walks a three-position flow: issue the query,
//! inspect the response's cardinality, and either finish as "already
//! created" or issue exactly one create and finish as "created". The machine
//! itself is pure: a driver feeds it events and performs the actions it
//! hands back. The lemmas at the bottom pin down the create discipline over
//! every possible event sequence.

use vstd::prelude::*;
use crate::date::{iso_chars, Date};
use crate::factory::{title_chars, NotionParamsFactory};
use crate::notion::{CreatePageParams, CreatePageProperty, QueryDatabaseParams, QueryDatabaseResponse};

verus! {

/// How a completed run ended: the record was already there, or it was
/// created now.
#[derive(Debug, PartialEq, Eq, Structural, Clone, Copy)]
pub enum DiaryStatus {
    AlreadyCreated,
    Created,
}

impl DiaryStatus {
    /// The status line a completed run prints.
    pub fn message(&self) -> (r: String)
        ensures
            self is AlreadyCreated ==> r@ == "Today's diary page was already created."@,
            self is Created ==> r@ == "Today's diary page was created successfully."@,
    {
        match self {
            DiaryStatus::AlreadyCreated => String::from_str(
                "Today's diary page was already created.",
            ),
            DiaryStatus::Created => String::from_str("Today's diary page was created successfully."),
        }
    }
}

/// The status line printed when a run begins.
pub fn start_message() -> (r: String)
    ensures
        r@ == "Creating diary page started."@,
{
    String::from_str("Creating diary page started.")
}

/// Where a run stands: nothing done yet, the query in flight, the create in
/// flight, or finished with its outcome.
#[derive(Debug, PartialEq, Eq, Structural, Clone, Copy)]
pub enum FlowState {
    Start,
    QueryIssued,
    CreateIssued,
    Done(DiaryStatus),
}

/// What the driver reports back: the run begins, the query's response
/// arrived, or the create call succeeded. A failed call has no event: the
/// driver abandons the flow and propagates the error.
#[derive(Debug)]
pub enum FlowEvent {
    Begin,
    QueryReturned(QueryDatabaseResponse),
    CreateSucceeded,
}

/// What the driver is asked to do next.
#[derive(Debug)]
pub enum FlowAction {
    RunQuery(QueryDatabaseParams),
    RunCreate(CreatePageParams),
    Finish(DiaryStatus),
}

/// The event is the one the state is waiting for.
pub open spec fn event_fits(s: FlowState, e: FlowEvent) -> bool {
    match (s, e) {
        (FlowState::Start, FlowEvent::Begin) => true,
        (FlowState::QueryIssued, FlowEvent::QueryReturned(_)) => true,
        (FlowState::CreateIssued, FlowEvent::CreateSucceeded) => true,
        _ => false,
    }
}

/// Where the machine moves on an event; one that does not fit is ignored.
pub open spec fn next_state(s: FlowState, e: FlowEvent) -> FlowState {
    match (s, e) {
        (FlowState::Start, FlowEvent::Begin) => FlowState::QueryIssued,
        (FlowState::QueryIssued, FlowEvent::QueryReturned(resp)) => if resp.results@.len() == 0 {
            FlowState::CreateIssued
        } else {
            FlowState::Done(DiaryStatus::AlreadyCreated)
        },
        (FlowState::CreateIssued, FlowEvent::CreateSucceeded) => FlowState::Done(
            DiaryStatus::Created,
        ),
        (other, _) => other,
    }
}

/// The machine asks for a create on exactly this step: the query's response
/// arrived and carried no result.
pub open spec fn emits_create(s: FlowState, e: FlowEvent) -> bool {
    s is QueryIssued && (e matches FlowEvent::QueryReturned(resp) && resp.results@.len() == 0)
}

/// How many create actions a whole event sequence makes the machine emit.
pub open spec fn creates_emitted(s: FlowState, events: Seq<FlowEvent>) -> nat
    decreases events.len(),
{
    if events.len() == 0 {
        0
    } else {
        (if emits_create(s, events[0]) {
            1nat
        } else {
            0nat
        }) + creates_emitted(next_state(s, events[0]), events.skip(1))
    }
}

/// How many create actions can still come out of a state.
pub open spec fn create_budget(s: FlowState) -> nat {
    match s {
        FlowState::Start => 1,
        FlowState::QueryIssued => 1,
        FlowState::CreateIssued => 0,
        FlowState::Done(_) => 0,
    }
}

/// No event sequence draws more creates out of a state than its budget.
proof fn lemma_creates_within_budget(s: FlowState, events: Seq<FlowEvent>)
    ensures
        creates_emitted(s, events) <= create_budget(s),
    decreases events.len(),
{
    if events.len() > 0 {
        lemma_creates_within_budget(next_state(s, events[0]), events.skip(1));
    }
}

/// Whatever the remote service answers and however a driver behaves, one run
/// never emits the create action twice.
pub proof fn lemma_create_at_most_once(events: Seq<FlowEvent>)
    ensures
        creates_emitted(FlowState::Start, events) <= 1,
{
    lemma_creates_within_budget(FlowState::Start, events);
}

/// A run whose query came back empty emits the create action exactly once,
/// whatever events follow.
pub proof fn lemma_empty_query_creates_exactly_once(
    resp: QueryDatabaseResponse,
    rest: Seq<FlowEvent>,
)
    requires
        resp.results@.len() == 0,
    ensures
        creates_emitted(
            FlowState::Start,
            seq![FlowEvent::Begin, FlowEvent::QueryReturned(resp)] + rest,
        ) == 1,
{
    let events = seq![FlowEvent::Begin, FlowEvent::QueryReturned(resp)] + rest;
    let tail = seq![FlowEvent::QueryReturned(resp)] + rest;
    assert(events[0] == FlowEvent::Begin);
    assert(events.skip(1) =~= tail);
    assert(tail[0] == FlowEvent::QueryReturned(resp));
    assert(tail.skip(1) =~= rest);
    assert(creates_emitted(FlowState::Start, events) == creates_emitted(
        FlowState::QueryIssued,
        tail,
    ));
    assert(creates_emitted(FlowState::QueryIssued, tail) == 1 + creates_emitted(
        FlowState::CreateIssued,
        rest,
    ));
    lemma_creates_within_budget(FlowState::CreateIssued, rest);
}

/// A run whose query came back with a result never emits the create action,
/// whatever events follow.
pub proof fn lemma_nonempty_query_never_creates(
    resp: QueryDatabaseResponse,
    rest: Seq<FlowEvent>,
)
    requires
        resp.results@.len() > 0,
    ensures
        creates_emitted(
            FlowState::Start,
            seq![FlowEvent::Begin, FlowEvent::QueryReturned(resp)] + rest,
        ) == 0,
{
    let events = seq![FlowEvent::Begin, FlowEvent::QueryReturned(resp)] + rest;
    let tail = seq![FlowEvent::QueryReturned(resp)] + rest;
    assert(events[0] == FlowEvent::Begin);
    assert(events.skip(1) =~= tail);
    assert(tail[0] == FlowEvent::QueryReturned(resp));
    assert(tail.skip(1) =~= rest);
    assert(creates_emitted(FlowState::Start, events) == creates_emitted(
        FlowState::QueryIssued,
        tail,
    ));
    assert(creates_emitted(FlowState::QueryIssued, tail) == creates_emitted(
        FlowState::Done(DiaryStatus::AlreadyCreated),
        rest,
    ));
    lemma_creates_within_budget(FlowState::Done(DiaryStatus::AlreadyCreated), rest);
}

/// One run of the flow for one date in one database.
pub struct DiaryFlow {
    pub database_id: String,
    pub date: Date,
    pub state: FlowState,
    pub creates: Ghost<nat>,
}

impl DiaryFlow {
    /// The date is a real day and the create count matches the position:
    /// one once the create was issued or reported done, zero elsewhere.
    pub open spec fn wf(&self) -> bool {
        &&& self.date.wf()
        &&& self.creates@ == (if self.state is CreateIssued || self.state == FlowState::Done(
            DiaryStatus::Created,
        ) {
            1nat
        } else {
            0nat
        })
    }

    pub fn new(database_id: String, date: Date) -> (f: DiaryFlow)
        requires
            date.wf(),
        ensures
            f.wf(),
            f.state is Start,
            f.database_id == database_id,
            f.date == date,
            f.creates@ == 0,
    {
        DiaryFlow { database_id, date, state: FlowState::Start, creates: Ghost(0nat) }
    }

    /// Feeds one event and hands back the next action. The state follows
    /// [`next_state`]; an action comes back exactly when the event fits, a
    /// create action exactly when [`emits_create`] says so, and every
    /// payload handed out is the exact one the date and database call for.
    pub fn step(&mut self, event: FlowEvent) -> (action: Option<FlowAction>)
        requires
            old(self).wf(),
        ensures
            final(self).wf(),
            final(self).database_id == old(self).database_id,
            final(self).date == old(self).date,
            final(self).state == next_state(old(self).state, event),
            final(self).creates@ == old(self).creates@ + (if emits_create(old(self).state, event) {
                1nat
            } else {
                0nat
            }),
            action is Some <==> event_fits(old(self).state, event),
            (action matches Some(a) && a is RunQuery) <==> (old(self).state is Start
                && event is Begin),
            (action matches Some(a) && a is RunCreate) <==> emits_create(old(self).state, event),
            action matches Some(FlowAction::RunQuery(q)) ==> q.filter.property@ == "Date"@
                && q.filter.date.equals@ == iso_chars(
                old(self).date.year as int,
                old(self).date.month as int,
                old(self).date.day as int,
            ),
            action matches Some(FlowAction::RunCreate(p)) ==> p.wf() && p.parent.database_id@ == old(
                self,
            ).database_id@ && p.properties@.len() == 2 && p.properties@[0].name@ == "Name"@ && (
            p.properties@[0].value matches CreatePageProperty::Title { title } && title@.len() == 1
                && title@[0].text.content@ == title_chars(
                old(self).date.year as int,
                old(self).date.month as int,
                old(self).date.day as int,
            )) && p.properties@[1].name@ == "Date"@ && (
            p.properties@[1].value matches CreatePageProperty::Date { date } && date.start@
                == iso_chars(
                old(self).date.year as int,
                old(self).date.month as int,
                old(self).date.day as int,
            )),
            (action matches Some(a) && a is Finish) <==> (event_fits(old(self).state, event)
                && !(old(self).state is Start) && !emits_create(old(self).state, event)),
            action matches Some(FlowAction::Finish(st)) ==> FlowState::Done(st) == next_state(
                old(self).state,
                event,
            ),
    {
        match self.state {
            FlowState::Start => match event {
                FlowEvent::Begin => {
                    self.state = FlowState::QueryIssued;
                    Some(
                        FlowAction::RunQuery(
                            NotionParamsFactory::build_query_database_params(&self.date),
                        ),
                    )
                },
                _ => None,
            },
            FlowState::QueryIssued => match event {
                FlowEvent::QueryReturned(resp) => {
                    if resp.has_results() {
                        self.state = FlowState::Done(DiaryStatus::AlreadyCreated);
                        Some(FlowAction::Finish(DiaryStatus::AlreadyCreated))
                    } else {
                        self.state = FlowState::CreateIssued;
                        let ghost n = self.creates@;
                        self.creates = Ghost(n + 1);
                        Some(
                            FlowAction::RunCreate(
                                NotionParamsFactory::build_create_page_params(
                                    self.database_id.as_str(),
                                    &self.date,
                                ),
                            ),
                        )
                    }
                },
                _ => None,
            },
            FlowState::CreateIssued => match event {
                FlowEvent::CreateSucceeded => {
                    self.state = FlowState::Done(DiaryStatus::Created);
                    Some(FlowAction::Finish(DiaryStatus::Created))
                },
                _ => None,
            },
            FlowState::Done(_) => None,
        }
    }
}

} // verus!
