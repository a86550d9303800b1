//! The statements of the repositories, as plans built from their parameters.

pub mod account;
pub mod api_key;
pub mod bookmark;
pub mod bookmark_tag;
pub mod collection;
pub mod condition;
pub mod feed;
pub mod feed_entry;
pub mod job;
pub mod read_entry;
pub mod session;
pub mod stream;
pub mod subscription;
pub mod subscription_tag;
pub mod tag;
pub mod tags_agg;
pub mod user;

use vstd::prelude::*;

use crate::plan::{DeletePlan, InsertPlan, SelectPlan, UpdatePlan};

verus! {

/// The SQL dialect a statement is written for.
#[derive(Clone, Copy, Debug, PartialEq, Eq, Structural)]
pub enum Dialect {
    Postgres,
    Sqlite,
}

/// Parameters that describe a select statement.
pub trait IntoSelect {
    fn into_select(self) -> SelectPlan;
}

/// Parameters that describe an insert statement.
pub trait IntoInsert {
    fn into_insert(self) -> InsertPlan;
}

/// Parameters that describe an update statement.
pub trait IntoUpdate {
    fn into_update(self) -> UpdatePlan;
}

/// Parameters that describe a delete statement.
pub trait IntoDelete {
    fn into_delete(self) -> DeletePlan;
}

} // verus!
