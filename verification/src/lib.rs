//! Core of a remote-team scheduling tool: recurring daily work windows in
//! UTC, the query for which team members are online at a given instant, and
//! conversion of clock times to a fixed UTC offset for display.

pub mod convert;
pub mod ingest;
pub mod interval;
pub mod layout;
pub mod member;
pub mod team;
pub mod time;
