//! A small client library for keeping one diary record per day in a remote
//! document database.
//!
//! Each invocation formats the current date two ways, queries the remote API
//! for a record carrying that date, and creates one only when the query came
//! back empty. The library holds the verified part of that flow: the calendar
//! arithmetic and date formatting, the fixed request payloads and headers,
//! and the orchestration state machine that decides when a create request is
//! issued. The HTTP transport itself stays outside, behind the traits
//! [`http_client::HttpClientTrait`] and [`notion::NotionApiClientTrait`].

pub mod date;
pub mod diary_repository;
pub mod diary_service;
pub mod env;
pub mod factory;
pub mod flow;
pub mod http_client;
pub mod notion;
pub mod service;
