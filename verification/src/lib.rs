//! Automation of time-templated chat group titles.
//!
//! A group record holds an ordered list of title segments, a delimiter and a
//! time zone. Rendering joins the segments, expands the date and time
//! placeholders for a given instant, and yields the literal title. The
//! modules below hold the record and its mutators, the renderer, the
//! permission check, the naming of stored records, the matching of commands,
//! and the decision logic of the interactive handlers and of the scheduled
//! sweep. All input and output is left to the caller, which performs the
//! actions these modules ask for and reports back what happened.

pub mod calendar;
pub mod command;
pub mod group;
pub mod handler;
pub mod permission;
pub mod protocol;
pub mod store;
pub mod sweep;
pub mod template;
pub mod text;
