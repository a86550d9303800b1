//! The links between bookmarks and tags.

use vstd::prelude::*;

use crate::plan::{
    bare, bare_column_compared, bare_v, bin, bin_v, not_in_uuids, on_conflict_do_nothing, uuid, uuid_v, uuid_values_v,
    ActionV, BinOp, ColumnRef, ConflictV, DeletePlan, DeleteV, ExprV, Ident, InsertPlan, InsertV, SqlValue,
    ValueV, lemma_insert_eq,
};
use crate::query::{IntoDelete, IntoInsert};
use crate::schema::BookmarkTag;

verus! {

/// The tags of one bookmark.
#[derive(Debug)]
pub struct BookmarkTagBase {
    pub bookmark_id: u128,
    pub tag_ids: Vec<u128>,
}

/// Links to store for a user.
#[derive(Debug)]
pub struct BookmarkTagInsert {
    pub bookmark_tags: Vec<BookmarkTagBase>,
    pub user_id: u128,
}

/// The rows that link one bookmark to each of its tags, in order.
pub open spec fn bookmark_tag_base_rows(b: BookmarkTagBase, user_id: u128) -> Seq<Seq<ValueV>> {
    b.tag_ids@.map_values(
        |t: u128| seq![ValueV::Uuid(Some(b.bookmark_id)), ValueV::Uuid(Some(t)), ValueV::Uuid(Some(user_id))],
    )
}

/// The rows of all the links, bookmark after bookmark.
pub open spec fn bookmark_tag_rows(bs: Seq<BookmarkTagBase>, user_id: u128) -> Seq<Seq<ValueV>>
    decreases bs.len(),
{
    if bs.len() == 0 {
        seq![]
    } else {
        bookmark_tag_rows(bs.drop_last(), user_id) + bookmark_tag_base_rows(bs.last(), user_id)
    }
}

/// The number of links: the tags of each item, added up.
pub open spec fn bookmark_tag_link_count(bs: Seq<BookmarkTagBase>) -> nat
    decreases bs.len(),
{
    if bs.len() == 0 {
        0
    } else {
        bookmark_tag_link_count(bs.drop_last()) + bs.last().tag_ids@.len()
    }
}

proof fn lemma_bookmark_tag_rows(bs: Seq<BookmarkTagBase>, user_id: u128)
    ensures
        bookmark_tag_rows(bs, user_id).len() == bookmark_tag_link_count(bs),
        forall|k: int| 0 <= k < bookmark_tag_rows(bs, user_id).len() ==> #[trigger] bookmark_tag_rows(bs, user_id)[k].len() == 3,
    decreases bs.len(),
{
    if bs.len() > 0 {
        lemma_bookmark_tag_rows(bs.drop_last(), user_id);
    }
}

/// The insert of the links, which keeps a link already stored.
pub open spec fn bookmark_tag_insert_v(i: BookmarkTagInsert) -> InsertV {
    InsertV {
        table: Some(Ident::BookmarkTag(BookmarkTag::Table)),
        columns: seq![
            Ident::BookmarkTag(BookmarkTag::BookmarkId),
            Ident::BookmarkTag(BookmarkTag::TagId),
            Ident::BookmarkTag(BookmarkTag::UserId),
        ],
        rows: bookmark_tag_rows(i.bookmark_tags@, i.user_id),
        on_conflict: Some(
            ConflictV {
                columns: seq![
                    Ident::BookmarkTag(BookmarkTag::BookmarkId),
                    Ident::BookmarkTag(BookmarkTag::TagId),
                ],
                action: ActionV::DoNothing,
            },
        ),
        returning: None,
    }
}

impl IntoInsert for BookmarkTagInsert {
    fn into_insert(self) -> (r: InsertPlan)
        ensures
            r@ == bookmark_tag_insert_v(self),
            crate::plan::rows_fit(r@),
            r@.rows.len() == bookmark_tag_link_count(self.bookmark_tags@),
    {
        let mut q = InsertPlan {
            table: Some(Ident::BookmarkTag(BookmarkTag::Table)),
            columns: vec![
                Ident::BookmarkTag(BookmarkTag::BookmarkId),
                Ident::BookmarkTag(BookmarkTag::TagId),
                Ident::BookmarkTag(BookmarkTag::UserId),
            ],
            rows: Vec::new(),
            on_conflict: Some(
                on_conflict_do_nothing(
                    vec![
                        Ident::BookmarkTag(BookmarkTag::BookmarkId),
                        Ident::BookmarkTag(BookmarkTag::TagId),
                    ],
                ),
            ),
            returning: None,
        };
        assert(q@.rows =~= seq![]);
        let bs = &self.bookmark_tags;
        let user_id = self.user_id;
        let ghost head = q@;
        let mut i: usize = 0;
        while i < bs.len()
            invariant
                i <= bs@.len(),
                q@ == (InsertV { rows: bookmark_tag_rows(bs@.subrange(0, i as int), user_id), ..head }),
            decreases bs.len() - i,
        {
            let b = &bs[i];
            let ghost done = bookmark_tag_rows(bs@.subrange(0, i as int), user_id);
            let mut j: usize = 0;
            while j < b.tag_ids.len()
                invariant
                    j <= b.tag_ids@.len(),
                    q@ == (InsertV {
                        rows: done + bookmark_tag_base_rows(*b, user_id).subrange(0, j as int),
                        ..head
                    }),
                decreases b.tag_ids.len() - j,
            {
                let row = vec![
                    SqlValue::Uuid(Some(b.bookmark_id)),
                    SqlValue::Uuid(Some(b.tag_ids[j])),
                    SqlValue::Uuid(Some(user_id)),
                ];
                q.values(row);
                proof {
                    let rows = bookmark_tag_base_rows(*b, user_id);
                    assert(crate::plan::values_v(row@) =~= rows[j as int]);
                    assert(rows.subrange(0, j + 1) =~= rows.subrange(0, j as int).push(rows[j as int]));
                    assert(q@.rows =~= done + rows.subrange(0, j + 1));
                }
                j = j + 1;
            }
            proof {
                let rows = bookmark_tag_base_rows(*b, user_id);
                assert(rows.subrange(0, j as int) =~= rows);
                assert(bs@.subrange(0, i + 1).drop_last() =~= bs@.subrange(0, i as int));
                assert(bs@.subrange(0, i + 1).last() == *b);
            }
            i = i + 1;
        }
        assert(bs@.subrange(0, bs@.len() as int) =~= bs@);
        proof {
            lemma_insert_eq(q@, bookmark_tag_insert_v(self));
            lemma_bookmark_tag_rows(self.bookmark_tags@, self.user_id);
        }
        q
    }
}

/// The links of a bookmark to remove: all those to tags other than `tag_ids`.
#[derive(Debug)]
pub struct BookmarkTagDelete {
    pub bookmark_id: u128,
    pub tag_ids: Vec<u128>,
}

/// `DELETE FROM bookmark_tags WHERE bookmark_id = ?`, and `AND tag_id NOT IN
/// (tag_ids)` where there are tags to keep.
pub open spec fn bookmark_tag_delete_v(d: BookmarkTagDelete) -> DeleteV {
    DeleteV {
        table: Ident::BookmarkTag(BookmarkTag::Table),
        conditions: seq![
            bin_v(bare_v(Ident::BookmarkTag(BookmarkTag::BookmarkId)), BinOp::Eq, uuid_v(d.bookmark_id)),
        ] + if d.tag_ids@.len() == 0 {
            seq![]
        } else {
            seq![
                ExprV::NotIn(
                    Box::new(bare_v(Ident::BookmarkTag(BookmarkTag::TagId))),
                    uuid_values_v(d.tag_ids@),
                ),
            ]
        },
    }
}

/// Setting the tags of a bookmark removes the bookmark's links to every tag
/// that is not among those kept: with tags to keep, exactly the links whose
/// tag id is not one of them; with none, every link of the bookmark.
pub proof fn bookmark_tag_delete_keeps_given(d: BookmarkTagDelete)
    ensures
        bookmark_tag_delete_v(d).table == Ident::BookmarkTag(BookmarkTag::Table),
        bookmark_tag_delete_v(d).conditions[0] == bare_column_compared(
            Ident::BookmarkTag(BookmarkTag::BookmarkId),
            BinOp::Eq,
            ValueV::Uuid(Some(d.bookmark_id)),
        ),
        d.tag_ids@.len() == 0 ==> bookmark_tag_delete_v(d).conditions.len() == 1,
        d.tag_ids@.len() > 0 ==> bookmark_tag_delete_v(d).conditions.len() == 2 && bookmark_tag_delete_v(d).conditions[1] == ExprV::NotIn(
            Box::new(ExprV::Column(ColumnRef::Col(Ident::BookmarkTag(BookmarkTag::TagId)))),
            d.tag_ids@.map_values(|u: u128| ValueV::Uuid(Some(u))),
        ),
{
    assert(uuid_values_v(d.tag_ids@) =~= d.tag_ids@.map_values(|u: u128| ValueV::Uuid(Some(u))));
}

impl IntoDelete for BookmarkTagDelete {
    fn into_delete(self) -> (r: DeletePlan)
        ensures
            r@ == bookmark_tag_delete_v(self),
    {
        let mut q = DeletePlan::new(Ident::BookmarkTag(BookmarkTag::Table));
        q.and_where(
            bin(bare(Ident::BookmarkTag(BookmarkTag::BookmarkId)), BinOp::Eq, uuid(self.bookmark_id)),
        );
        if self.tag_ids.len() > 0 {
            q.and_where(not_in_uuids(bare(Ident::BookmarkTag(BookmarkTag::TagId)), &self.tag_ids));
        }
        assert(q@.conditions =~= bookmark_tag_delete_v(self).conditions);
        q
    }
}

} // verus!
