//! The links between subscriptions and tags.

use vstd::prelude::*;

use crate::plan::{
    bare, bare_column_compared, bare_v, bin, bin_v, not_in_uuids, on_conflict_do_nothing, uuid, uuid_v, uuid_values_v,
    ActionV, BinOp, ColumnRef, ConflictV, DeletePlan, DeleteV, ExprV, Ident, InsertPlan, InsertV, SqlValue,
    ValueV, lemma_insert_eq,
};
use crate::query::{IntoDelete, IntoInsert};
use crate::schema::SubscriptionTag;

verus! {

/// The tags of one subscription.
#[derive(Debug)]
pub struct SubscriptionTagBase {
    pub subscription_id: u128,
    pub user_id: u128,
    pub tag_ids: Vec<u128>,
}

/// Links to store.
#[derive(Debug)]
pub struct SubscriptionTagInsert {
    pub subscription_tags: Vec<SubscriptionTagBase>,
}

/// The rows that link one subscription to each of its tags, in order.
pub open spec fn subscription_tag_base_rows(b: SubscriptionTagBase) -> Seq<Seq<ValueV>> {
    b.tag_ids@.map_values(
        |t: u128| seq![ValueV::Uuid(Some(b.subscription_id)), ValueV::Uuid(Some(t)), ValueV::Uuid(Some(b.user_id))],
    )
}

/// The rows of all the links, subscription after subscription.
pub open spec fn subscription_tag_rows(bs: Seq<SubscriptionTagBase>) -> Seq<Seq<ValueV>>
    decreases bs.len(),
{
    if bs.len() == 0 {
        seq![]
    } else {
        subscription_tag_rows(bs.drop_last()) + subscription_tag_base_rows(bs.last())
    }
}

/// The number of links: the tags of each item, added up.
pub open spec fn subscription_tag_link_count(bs: Seq<SubscriptionTagBase>) -> nat
    decreases bs.len(),
{
    if bs.len() == 0 {
        0
    } else {
        subscription_tag_link_count(bs.drop_last()) + bs.last().tag_ids@.len()
    }
}

proof fn lemma_subscription_tag_rows(bs: Seq<SubscriptionTagBase>)
    ensures
        subscription_tag_rows(bs).len() == subscription_tag_link_count(bs),
        forall|k: int| 0 <= k < subscription_tag_rows(bs).len() ==> #[trigger] subscription_tag_rows(bs)[k].len() == 3,
    decreases bs.len(),
{
    if bs.len() > 0 {
        lemma_subscription_tag_rows(bs.drop_last());
    }
}

/// The insert of the links, which keeps a link already stored.
pub open spec fn subscription_tag_insert_v(i: SubscriptionTagInsert) -> InsertV {
    InsertV {
        table: Some(Ident::SubscriptionTag(SubscriptionTag::Table)),
        columns: seq![
            Ident::SubscriptionTag(SubscriptionTag::SubscriptionId),
            Ident::SubscriptionTag(SubscriptionTag::TagId),
            Ident::SubscriptionTag(SubscriptionTag::UserId),
        ],
        rows: subscription_tag_rows(i.subscription_tags@),
        on_conflict: Some(
            ConflictV {
                columns: seq![
                    Ident::SubscriptionTag(SubscriptionTag::SubscriptionId),
                    Ident::SubscriptionTag(SubscriptionTag::TagId),
                ],
                action: ActionV::DoNothing,
            },
        ),
        returning: None,
    }
}

impl IntoInsert for SubscriptionTagInsert {
    fn into_insert(self) -> (r: InsertPlan)
        ensures
            r@ == subscription_tag_insert_v(self),
            crate::plan::rows_fit(r@),
            r@.rows.len() == subscription_tag_link_count(self.subscription_tags@),
    {
        let mut q = InsertPlan {
            table: Some(Ident::SubscriptionTag(SubscriptionTag::Table)),
            columns: vec![
                Ident::SubscriptionTag(SubscriptionTag::SubscriptionId),
                Ident::SubscriptionTag(SubscriptionTag::TagId),
                Ident::SubscriptionTag(SubscriptionTag::UserId),
            ],
            rows: Vec::new(),
            on_conflict: Some(
                on_conflict_do_nothing(
                    vec![
                        Ident::SubscriptionTag(SubscriptionTag::SubscriptionId),
                        Ident::SubscriptionTag(SubscriptionTag::TagId),
                    ],
                ),
            ),
            returning: None,
        };
        assert(q@.rows =~= seq![]);
        let bs = &self.subscription_tags;
        let ghost head = q@;
        let mut i: usize = 0;
        while i < bs.len()
            invariant
                i <= bs@.len(),
                q@ == (InsertV { rows: subscription_tag_rows(bs@.subrange(0, i as int)), ..head }),
            decreases bs.len() - i,
        {
            let b = &bs[i];
            let ghost done = subscription_tag_rows(bs@.subrange(0, i as int));
            let mut j: usize = 0;
            while j < b.tag_ids.len()
                invariant
                    j <= b.tag_ids@.len(),
                    q@ == (InsertV {
                        rows: done + subscription_tag_base_rows(*b).subrange(0, j as int),
                        ..head
                    }),
                decreases b.tag_ids.len() - j,
            {
                let row = vec![
                    SqlValue::Uuid(Some(b.subscription_id)),
                    SqlValue::Uuid(Some(b.tag_ids[j])),
                    SqlValue::Uuid(Some(b.user_id)),
                ];
                q.values(row);
                proof {
                    let rows = subscription_tag_base_rows(*b);
                    assert(crate::plan::values_v(row@) =~= rows[j as int]);
                    assert(rows.subrange(0, j + 1) =~= rows.subrange(0, j as int).push(rows[j as int]));
                    assert(q@.rows =~= done + rows.subrange(0, j + 1));
                }
                j = j + 1;
            }
            proof {
                let rows = subscription_tag_base_rows(*b);
                assert(rows.subrange(0, j as int) =~= rows);
                assert(bs@.subrange(0, i + 1).drop_last() =~= bs@.subrange(0, i as int));
                assert(bs@.subrange(0, i + 1).last() == *b);
            }
            i = i + 1;
        }
        assert(bs@.subrange(0, bs@.len() as int) =~= bs@);
        proof {
            lemma_insert_eq(q@, subscription_tag_insert_v(self));
            lemma_subscription_tag_rows(self.subscription_tags@);
        }
        q
    }
}

/// The links of a subscription to remove: all those to tags other than `tag_ids`.
#[derive(Debug)]
pub struct SubscriptionTagDelete {
    pub subscription_id: u128,
    pub tag_ids: Vec<u128>,
}

/// `DELETE FROM subscription_tags WHERE subscription_id = ?`, and `AND tag_id NOT IN
/// (tag_ids)` where there are tags to keep.
pub open spec fn subscription_tag_delete_v(d: SubscriptionTagDelete) -> DeleteV {
    DeleteV {
        table: Ident::SubscriptionTag(SubscriptionTag::Table),
        conditions: seq![
            bin_v(bare_v(Ident::SubscriptionTag(SubscriptionTag::SubscriptionId)), BinOp::Eq, uuid_v(d.subscription_id)),
        ] + if d.tag_ids@.len() == 0 {
            seq![]
        } else {
            seq![
                ExprV::NotIn(
                    Box::new(bare_v(Ident::SubscriptionTag(SubscriptionTag::TagId))),
                    uuid_values_v(d.tag_ids@),
                ),
            ]
        },
    }
}

/// Setting the tags of a subscription removes the subscription's links to every tag
/// that is not among those kept: with tags to keep, exactly the links whose
/// tag id is not one of them; with none, every link of the subscription.
pub proof fn subscription_tag_delete_keeps_given(d: SubscriptionTagDelete)
    ensures
        subscription_tag_delete_v(d).table == Ident::SubscriptionTag(SubscriptionTag::Table),
        subscription_tag_delete_v(d).conditions[0] == bare_column_compared(
            Ident::SubscriptionTag(SubscriptionTag::SubscriptionId),
            BinOp::Eq,
            ValueV::Uuid(Some(d.subscription_id)),
        ),
        d.tag_ids@.len() == 0 ==> subscription_tag_delete_v(d).conditions.len() == 1,
        d.tag_ids@.len() > 0 ==> subscription_tag_delete_v(d).conditions.len() == 2 && subscription_tag_delete_v(d).conditions[1] == ExprV::NotIn(
            Box::new(ExprV::Column(ColumnRef::Col(Ident::SubscriptionTag(SubscriptionTag::TagId)))),
            d.tag_ids@.map_values(|u: u128| ValueV::Uuid(Some(u))),
        ),
{
    assert(uuid_values_v(d.tag_ids@) =~= d.tag_ids@.map_values(|u: u128| ValueV::Uuid(Some(u))));
}

impl IntoDelete for SubscriptionTagDelete {
    fn into_delete(self) -> (r: DeletePlan)
        ensures
            r@ == subscription_tag_delete_v(self),
    {
        let mut q = DeletePlan::new(Ident::SubscriptionTag(SubscriptionTag::Table));
        q.and_where(
            bin(bare(Ident::SubscriptionTag(SubscriptionTag::SubscriptionId)), BinOp::Eq, uuid(self.subscription_id)),
        );
        if self.tag_ids.len() > 0 {
            q.and_where(not_in_uuids(bare(Ident::SubscriptionTag(SubscriptionTag::TagId)), &self.tag_ids));
        }
        assert(q@.conditions =~= subscription_tag_delete_v(self).conditions);
        q
    }
}

} // verus!
