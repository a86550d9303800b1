//! Verified core of a feed-reader's storage layer: table identifiers, query
//! plans, filter rendering, import planning, row shaping and the decisions
//! that the repositories take on what the database reports.

pub mod schema;
pub mod time;
pub mod filter;
pub mod import;
pub mod args;
pub mod columns;
pub mod d1;
pub mod plan;
pub mod rows;
pub mod outcome;
pub mod relations;
pub mod query;
