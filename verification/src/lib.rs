//! Upcoming rugby fixtures: civil-time resolution, page extraction, the
//! month-by-month fetch decisions and the merge of several teams' fixtures
//! into one bounded, time-ordered list.

pub mod aggregate;
pub mod calendar;
pub mod config;
pub mod datetime;
pub mod document;
pub mod error;
pub mod fetch;
pub mod fixtures;
pub mod options;
pub mod scrape;
pub mod text;
