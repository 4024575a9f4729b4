//! Builders of the two fixed request payloads.

use vstd::prelude::*;
use crate::date::{iso_chars, slashed_chars, weekday_index, weekday_label, Date};
use crate::notion::{
    CreatePageDate, CreatePageParams, CreatePageParent, CreatePageProperty, CreatePagePropertyEntry,
    CreatePageTitle, CreatePageTitleText, QueryDatabaseDateFilter, QueryDatabaseFilter,
    QueryDatabaseParams,
};

verus! {

/// The title of a new page: the slashed date, then the weekday label in
/// parentheses, nothing else.
pub open spec fn title_chars(y: int, m: int, d: int) -> Seq<char> {
    slashed_chars(y, m, d) + seq!['('] + weekday_label(weekday_index(y, m, d)) + seq![')']
}

pub struct NotionParamsFactory;

impl NotionParamsFactory {
    /// The query payload: find records whose "Date" property equals the
    /// day's ISO form.
    pub fn build_query_database_params(today: &Date) -> (p: QueryDatabaseParams)
        requires
            today.wf(),
        ensures
            p.filter.property@ == "Date"@,
            p.filter.date.equals@ == iso_chars(
                today.year as int,
                today.month as int,
                today.day as int,
            ),
    {
        QueryDatabaseParams {
            filter: QueryDatabaseFilter {
                property: String::from_str("Date"),
                date: QueryDatabaseDateFilter { equals: today.format() },
            },
        }
    }

    /// The creation payload: the parent container, a "Name" title property
    /// carrying exactly the slashed date followed by the weekday label in
    /// parentheses, and a "Date" property carrying the ISO form.
    pub fn build_create_page_params(database_id: &str, today: &Date) -> (p: CreatePageParams)
        requires
            today.wf(),
        ensures
            p.wf(),
            p.parent.database_id@ == database_id@,
            p.properties@.len() == 2,
            p.properties@[0].name@ == "Name"@,
            p.properties@[0].value matches CreatePageProperty::Title { title } && title@.len() == 1
                && title@[0].text.content@ == title_chars(
                today.year as int,
                today.month as int,
                today.day as int,
            ),
            p.properties@[1].name@ == "Date"@,
            p.properties@[1].value matches CreatePageProperty::Date { date } && date.start@
                == iso_chars(today.year as int, today.month as int, today.day as int),
    {
        let mut title_text = today.format_with_slash();
        title_text.append("(");
        let label = today.ja_weekday();
        title_text.append(label.as_str());
        title_text.append(")");
        proof {
            reveal_strlit("(");
            reveal_strlit(")");
            assert(title_text@ =~= title_chars(
                today.year as int,
                today.month as int,
                today.day as int,
            ));
        }
        let parent = CreatePageParent { database_id: String::from_str(database_id) };
        let mut properties: Vec<CreatePagePropertyEntry> = Vec::new();
        let mut title_nodes: Vec<CreatePageTitle> = Vec::new();
        title_nodes.push(CreatePageTitle { text: CreatePageTitleText { content: title_text } });
        properties.push(
            CreatePagePropertyEntry {
                name: String::from_str("Name"),
                value: CreatePageProperty::Title { title: title_nodes },
            },
        );
        properties.push(
            CreatePagePropertyEntry {
                name: String::from_str("Date"),
                value: CreatePageProperty::Date { date: CreatePageDate { start: today.format() } },
            },
        );
        let p = CreatePageParams { parent, properties };
        proof {
            reveal_strlit("Name");
            reveal_strlit("Date");
            assert("Name"@[0] == 'N' && "Date"@[0] == 'D');
            assert(p.properties@[0].name@ != p.properties@[1].name@);
        }
        p
    }
}

} // verus!
