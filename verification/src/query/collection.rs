//! Collections: named bookmark filters of a user.

use vstd::prelude::*;

use crate::import::opt_text;
use crate::plan::{
    bare, bare_v, bin, bin_v, col, col_v, column_compared, empty_select_v, lemma_contains_concat,
    lemma_insert_eq, lemma_select_eq,
    on_conflict_update, text, text_of, text_v, uuid, uuid_v, when_v, ActionV, BinOp, ColumnRef,
    ConflictV, DeletePlan, DeleteV, ExprV, Ident, InsertPlan, InsertV, ItemV, Order, SelectPlan,
    SelectV, SqlValue, ValueV,
};
use crate::query::{IntoDelete, IntoInsert, IntoSelect};
use crate::schema::Collection;
use crate::time::UtcDateTime;

verus! {

/// The filters of a collection listing; the cursor is the title of the last
/// collection seen.
#[derive(Debug)]
pub struct CollectionParams {
    pub id: Option<u128>,
    pub user_id: Option<u128>,
    pub cursor: Option<String>,
    pub limit: Option<u64>,
}

/// A collection column.
pub open spec fn collection_col(c: Collection) -> ExprV {
    col_v(Ident::Collection(Collection::Table), Ident::Collection(c))
}

/// `SELECT * FROM collections` where each given filter holds, by title after
/// the cursor.
pub open spec fn collection_select_v(p: CollectionParams) -> SelectV {
    SelectV {
        items: seq![ItemV::Column(ColumnRef::All)],
        conditions: when_v(p.id, |id: u128| bin_v(collection_col(Collection::Id), BinOp::Eq, uuid_v(id)))
            + when_v(
            p.user_id,
            |id: u128| bin_v(collection_col(Collection::UserId), BinOp::Eq, uuid_v(id)),
        ) + when_v(
            opt_text(p.cursor),
            |t: Seq<char>| bin_v(collection_col(Collection::Title), BinOp::Gt, text_v(t)),
        ),
        order_by: seq![
            (
                ColumnRef::TableCol(Ident::Collection(Collection::Table), Ident::Collection(Collection::Title)),
                Order::Asc,
            ),
        ],
        limit: p.limit,
        ..empty_select_v(Ident::Collection(Collection::Table))
    }
}

/// What a collection listing compares: the collection by its own id, the owner
/// by the collection's user id, and, after a cursor, the titles that come
/// after it; nothing else. The listing is by title, ascending, and at most
/// `limit` long.
pub proof fn collection_listing_conditions(p: CollectionParams)
    ensures
        p.id is Some ==> collection_select_v(p).conditions.contains(
            column_compared(
                Ident::Collection(Collection::Table),
                Ident::Collection(Collection::Id),
                BinOp::Eq,
                ValueV::Uuid(p.id),
            ),
        ),
        p.user_id is Some ==> collection_select_v(p).conditions.contains(
            column_compared(
                Ident::Collection(Collection::Table),
                Ident::Collection(Collection::UserId),
                BinOp::Eq,
                ValueV::Uuid(p.user_id),
            ),
        ),
        p.cursor is Some ==> collection_select_v(p).conditions.contains(
            column_compared(
                Ident::Collection(Collection::Table),
                Ident::Collection(Collection::Title),
                BinOp::Gt,
                ValueV::Text(Some(p.cursor->Some_0@)),
            ),
        ),
        collection_select_v(p).conditions.len() == (if p.id is Some { 1int } else { 0 })
            + (if p.user_id is Some { 1int } else { 0 }) + (if p.cursor is Some { 1int } else { 0 }),
        collection_select_v(p).order_by == seq![
            (ColumnRef::TableCol(Ident::Collection(Collection::Table), Ident::Collection(Collection::Title)), Order::Asc),
        ],
        collection_select_v(p).limit == p.limit,
{
    let a = when_v(p.id, |id: u128| bin_v(collection_col(Collection::Id), BinOp::Eq, uuid_v(id)));
    let b = when_v(p.user_id, |id: u128| bin_v(collection_col(Collection::UserId), BinOp::Eq, uuid_v(id)));
    let c = when_v(opt_text(p.cursor), |t: Seq<char>| bin_v(collection_col(Collection::Title), BinOp::Gt, text_v(t)));
    assert(collection_select_v(p).conditions == a + b + c);
    if p.id is Some {
        lemma_contains_concat(a, b, a[0]);
        lemma_contains_concat(a + b, c, a[0]);
    }
    if p.user_id is Some {
        lemma_contains_concat(a, b, b[0]);
        lemma_contains_concat(a + b, c, b[0]);
    }
    if p.cursor is Some {
        lemma_contains_concat(a + b, c, c[0]);
    }
}

impl IntoSelect for CollectionParams {
    fn into_select(self) -> (r: SelectPlan)
        ensures
            r@ == collection_select_v(self),
    {
        let t = Ident::Collection(Collection::Table);
        let mut q = SelectPlan::new(t);
        q.column(ColumnRef::All);
        if let Some(id) = self.id {
            q.and_where(bin(col(t, Ident::Collection(Collection::Id)), BinOp::Eq, uuid(id)));
        }
        if let Some(id) = self.user_id {
            q.and_where(bin(col(t, Ident::Collection(Collection::UserId)), BinOp::Eq, uuid(id)));
        }
        if let Some(c) = &self.cursor {
            q.and_where(bin(col(t, Ident::Collection(Collection::Title)), BinOp::Gt, text(c.as_str())));
        }
        q.order_by(ColumnRef::TableCol(t, Ident::Collection(Collection::Title)), Order::Asc);
        if let Some(l) = self.limit {
            q.limit(l);
        }
        proof {
            lemma_select_eq(q@, collection_select_v(self));
        }
        q
    }
}

/// A collection to store. The statement names no table; the user id is bound
/// as text.
#[derive(Debug)]
pub struct CollectionInsert<'a> {
    pub id: u128,
    pub title: &'a str,
    pub filter_raw: &'a str,
    pub user_id: &'a str,
    pub created_at: UtcDateTime,
    pub updated_at: UtcDateTime,
}

/// The insert of a collection, which on a conflicting id updates the title,
/// the filter and the update time.
pub open spec fn collection_insert_v(c: CollectionInsert) -> InsertV {
    InsertV {
        table: None,
        columns: seq![
            Ident::Collection(Collection::Id),
            Ident::Collection(Collection::Title),
            Ident::Collection(Collection::FilterRaw),
            Ident::Collection(Collection::UserId),
            Ident::Collection(Collection::CreatedAt),
            Ident::Collection(Collection::UpdatedAt),
        ],
        rows: seq![
            seq![
                ValueV::Uuid(Some(c.id)),
                ValueV::Text(Some(c.title@)),
                ValueV::Text(Some(c.filter_raw@)),
                ValueV::Text(Some(c.user_id@)),
                ValueV::DateTime(Some(c.created_at)),
                ValueV::DateTime(Some(c.updated_at)),
            ],
        ],
        on_conflict: Some(
            ConflictV {
                columns: seq![Ident::Collection(Collection::Id)],
                action: ActionV::Update(
                    seq![
                        Ident::Collection(Collection::Title),
                        Ident::Collection(Collection::FilterRaw),
                        Ident::Collection(Collection::UpdatedAt),
                    ],
                ),
            },
        ),
        returning: None,
    }
}

impl<'a> IntoInsert for CollectionInsert<'a> {
    fn into_insert(self) -> (r: InsertPlan)
        ensures
            r@ == collection_insert_v(self),
            crate::plan::rows_fit(r@),
    {
        let row = vec![
            SqlValue::Uuid(Some(self.id)),
            SqlValue::Text(Some(text_of(self.title))),
            SqlValue::Text(Some(text_of(self.filter_raw))),
            SqlValue::Text(Some(text_of(self.user_id))),
            SqlValue::DateTime(Some(self.created_at)),
            SqlValue::DateTime(Some(self.updated_at)),
        ];
        let mut q = InsertPlan {
            table: None,
            columns: vec![
                Ident::Collection(Collection::Id),
                Ident::Collection(Collection::Title),
                Ident::Collection(Collection::FilterRaw),
                Ident::Collection(Collection::UserId),
                Ident::Collection(Collection::CreatedAt),
                Ident::Collection(Collection::UpdatedAt),
            ],
            rows: Vec::new(),
            on_conflict: Some(
                on_conflict_update(
                    vec![Ident::Collection(Collection::Id)],
                    vec![
                        Ident::Collection(Collection::Title),
                        Ident::Collection(Collection::FilterRaw),
                        Ident::Collection(Collection::UpdatedAt),
                    ],
                ),
            ),
            returning: None,
        };
        assert(q@.rows =~= seq![]);
        q.values(row);
        proof {
            lemma_insert_eq(q@, collection_insert_v(self));
        }
        q
    }
}

/// The collection to delete.
#[derive(Debug)]
pub struct CollectionDelete {
    pub id: u128,
}

impl IntoDelete for CollectionDelete {
    fn into_delete(self) -> (r: DeletePlan)
        ensures
            r@ == (DeleteV {
                table: Ident::Collection(Collection::Table),
                conditions: seq![bin_v(bare_v(Ident::Collection(Collection::Id)), BinOp::Eq, uuid_v(self.id))],
            }),
    {
        let mut q = DeletePlan::new(Ident::Collection(Collection::Table));
        q.and_where(bin(bare(Ident::Collection(Collection::Id)), BinOp::Eq, uuid(self.id)));
        assert(q@.conditions =~= seq![bin_v(bare_v(Ident::Collection(Collection::Id)), BinOp::Eq, uuid_v(self.id))]);
        q
    }
}

} // verus!
