//! Read marks: which entries a subscription has read.

use vstd::prelude::*;

use crate::plan::{
    bare, bare_column_compared, bare_v, bin, bin_v, lemma_insert_eq, on_conflict_do_nothing, uuid, uuid_v, ActionV,
    BinOp, ConflictV, DeletePlan, DeleteV, Ident, InsertPlan, InsertV, SqlValue, ValueV,
};
use crate::query::{IntoDelete, IntoInsert};
use crate::schema::ReadEntry;

verus! {

/// An entry marked read through a subscription.
#[derive(Debug)]
pub struct ReadEntryInsert {
    pub feed_entry_id: u128,
    pub subscription_id: u128,
    pub user_id: u128,
}

/// The insert of a read mark, which keeps a mark already stored.
pub open spec fn read_entry_insert_v(r: ReadEntryInsert) -> InsertV {
    InsertV {
        table: Some(Ident::ReadEntry(ReadEntry::Table)),
        columns: seq![
            Ident::ReadEntry(ReadEntry::SubscriptionId),
            Ident::ReadEntry(ReadEntry::FeedEntryId),
            Ident::ReadEntry(ReadEntry::UserId),
        ],
        rows: seq![
            seq![
                ValueV::Uuid(Some(r.subscription_id)),
                ValueV::Uuid(Some(r.feed_entry_id)),
                ValueV::Uuid(Some(r.user_id)),
            ],
        ],
        on_conflict: Some(
            ConflictV {
                columns: seq![
                    Ident::ReadEntry(ReadEntry::SubscriptionId),
                    Ident::ReadEntry(ReadEntry::FeedEntryId),
                ],
                action: ActionV::DoNothing,
            },
        ),
        returning: None,
    }
}

impl IntoInsert for ReadEntryInsert {
    fn into_insert(self) -> (r: InsertPlan)
        ensures
            r@ == read_entry_insert_v(self),
            crate::plan::rows_fit(r@),
    {
        let row = vec![
            SqlValue::Uuid(Some(self.subscription_id)),
            SqlValue::Uuid(Some(self.feed_entry_id)),
            SqlValue::Uuid(Some(self.user_id)),
        ];
        let mut q = InsertPlan {
            table: Some(Ident::ReadEntry(ReadEntry::Table)),
            columns: vec![
                Ident::ReadEntry(ReadEntry::SubscriptionId),
                Ident::ReadEntry(ReadEntry::FeedEntryId),
                Ident::ReadEntry(ReadEntry::UserId),
            ],
            rows: Vec::new(),
            on_conflict: Some(
                on_conflict_do_nothing(
                    vec![
                        Ident::ReadEntry(ReadEntry::SubscriptionId),
                        Ident::ReadEntry(ReadEntry::FeedEntryId),
                    ],
                ),
            ),
            returning: None,
        };
        assert(q@.rows =~= seq![]);
        q.values(row);
        proof {
            lemma_insert_eq(q@, read_entry_insert_v(self));
        }
        q
    }
}

/// The read mark to remove.
#[derive(Debug)]
pub struct ReadEntryDelete {
    pub feed_entry_id: u128,
    pub subscription_id: u128,
}

/// `DELETE FROM read_entries WHERE subscription_id = ? AND feed_entry_id = ?`.
pub open spec fn read_entry_delete_v(d: ReadEntryDelete) -> DeleteV {
    DeleteV {
        table: Ident::ReadEntry(ReadEntry::Table),
        conditions: seq![
            bin_v(bare_v(Ident::ReadEntry(ReadEntry::SubscriptionId)), BinOp::Eq, uuid_v(d.subscription_id)),
            bin_v(bare_v(Ident::ReadEntry(ReadEntry::FeedEntryId)), BinOp::Eq, uuid_v(d.feed_entry_id)),
        ],
    }
}

/// Marking an entry unread removes exactly the read mark of that entry through
/// that subscription: both ids are compared, and nothing else.
pub proof fn read_entry_delete_conditions(d: ReadEntryDelete)
    ensures
        read_entry_delete_v(d).table == Ident::ReadEntry(ReadEntry::Table),
        read_entry_delete_v(d).conditions.contains(
            bare_column_compared(Ident::ReadEntry(ReadEntry::SubscriptionId), BinOp::Eq, ValueV::Uuid(Some(d.subscription_id))),
        ),
        read_entry_delete_v(d).conditions.contains(
            bare_column_compared(Ident::ReadEntry(ReadEntry::FeedEntryId), BinOp::Eq, ValueV::Uuid(Some(d.feed_entry_id))),
        ),
        read_entry_delete_v(d).conditions.len() == 2,
{
    assert(read_entry_delete_v(d).conditions[0] == bare_column_compared(
        Ident::ReadEntry(ReadEntry::SubscriptionId),
        BinOp::Eq,
        ValueV::Uuid(Some(d.subscription_id)),
    ));
    assert(read_entry_delete_v(d).conditions[1] == bare_column_compared(
        Ident::ReadEntry(ReadEntry::FeedEntryId),
        BinOp::Eq,
        ValueV::Uuid(Some(d.feed_entry_id)),
    ));
}

impl IntoDelete for ReadEntryDelete {
    fn into_delete(self) -> (r: DeletePlan)
        ensures
            r@ == read_entry_delete_v(self),
    {
        let mut q = DeletePlan::new(Ident::ReadEntry(ReadEntry::Table));
        q.and_where(
            bin(bare(Ident::ReadEntry(ReadEntry::SubscriptionId)), BinOp::Eq, uuid(self.subscription_id)),
        );
        q.and_where(
            bin(bare(Ident::ReadEntry(ReadEntry::FeedEntryId)), BinOp::Eq, uuid(self.feed_entry_id)),
        );
        assert(q@.conditions =~= read_entry_delete_v(self).conditions);
        q
    }
}

} // verus!
