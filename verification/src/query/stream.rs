//! Streams: named entry filters of a user.

use vstd::prelude::*;

use crate::plan::{
    bare, bare_v, bin, bin_v, col, col_v, column_compared, empty_select_v, lemma_contains_concat,
    lemma_select_eq, text, text_v, uuid,
    uuid_v, when_v, BinOp, ColumnRef, DeletePlan, DeleteV, ExprV, Ident, ItemV, Order, SelectPlan,
    SelectV, ValueV,
};
use crate::query::account::opt_str;
use crate::query::{IntoDelete, IntoSelect};
use crate::schema::Stream;

verus! {

/// The filters of a stream listing; the user id is matched as text and the
/// cursor is the title of the last stream seen.
#[derive(Debug)]
pub struct StreamSelect<'a> {
    pub id: Option<u128>,
    pub user_id: Option<&'a str>,
    pub cursor: Option<&'a str>,
    pub limit: Option<u64>,
}

/// A stream column.
pub open spec fn stream_col(c: Stream) -> ExprV {
    col_v(Ident::Stream(Stream::Table), Ident::Stream(c))
}

/// `SELECT * FROM streams` where each given filter holds, by title after the
/// cursor.
pub open spec fn stream_select_v(p: StreamSelect) -> SelectV {
    SelectV {
        items: seq![ItemV::Column(ColumnRef::All)],
        conditions: when_v(p.id, |id: u128| bin_v(stream_col(Stream::Id), BinOp::Eq, uuid_v(id)))
            + when_v(
            opt_str(p.user_id),
            |u: Seq<char>| bin_v(stream_col(Stream::UserId), BinOp::Eq, text_v(u)),
        ) + when_v(
            opt_str(p.cursor),
            |t: Seq<char>| bin_v(stream_col(Stream::Title), BinOp::Gt, text_v(t)),
        ),
        order_by: seq![
            (ColumnRef::TableCol(Ident::Stream(Stream::Table), Ident::Stream(Stream::Title)), Order::Asc),
        ],
        limit: p.limit,
        ..empty_select_v(Ident::Stream(Stream::Table))
    }
}

/// What a stream listing compares: the stream by its own id, the owner by the
/// stream's user id, and, after a cursor, the titles that come after it;
/// nothing else. The listing is by title, ascending, and at most `limit` long.
pub proof fn stream_listing_conditions(p: StreamSelect)
    ensures
        p.id is Some ==> stream_select_v(p).conditions.contains(
            column_compared(Ident::Stream(Stream::Table), Ident::Stream(Stream::Id), BinOp::Eq, ValueV::Uuid(p.id)),
        ),
        p.user_id is Some ==> stream_select_v(p).conditions.contains(
            column_compared(
                Ident::Stream(Stream::Table),
                Ident::Stream(Stream::UserId),
                BinOp::Eq,
                ValueV::Text(Some(p.user_id->Some_0@)),
            ),
        ),
        p.cursor is Some ==> stream_select_v(p).conditions.contains(
            column_compared(
                Ident::Stream(Stream::Table),
                Ident::Stream(Stream::Title),
                BinOp::Gt,
                ValueV::Text(Some(p.cursor->Some_0@)),
            ),
        ),
        stream_select_v(p).conditions.len() == (if p.id is Some { 1int } else { 0 })
            + (if p.user_id is Some { 1int } else { 0 }) + (if p.cursor is Some { 1int } else { 0 }),
        stream_select_v(p).order_by == seq![
            (ColumnRef::TableCol(Ident::Stream(Stream::Table), Ident::Stream(Stream::Title)), Order::Asc),
        ],
        stream_select_v(p).limit == p.limit,
{
    let a = when_v(p.id, |id: u128| bin_v(stream_col(Stream::Id), BinOp::Eq, uuid_v(id)));
    let b = when_v(opt_str(p.user_id), |u: Seq<char>| bin_v(stream_col(Stream::UserId), BinOp::Eq, text_v(u)));
    let c = when_v(opt_str(p.cursor), |t: Seq<char>| bin_v(stream_col(Stream::Title), BinOp::Gt, text_v(t)));
    assert(stream_select_v(p).conditions == a + b + c);
    if p.id is Some {
        lemma_contains_concat(a, b, a[0]);
        lemma_contains_concat(a + b, c, a[0]);
    }
    if p.user_id is Some {
        lemma_contains_concat(a, b, b[0]);
        lemma_contains_concat(a + b, c, b[0]);
    }
    if p.cursor is Some {
        lemma_contains_concat(a + b, c, c[0]);
    }
}

impl<'a> IntoSelect for StreamSelect<'a> {
    fn into_select(self) -> (r: SelectPlan)
        ensures
            r@ == stream_select_v(self),
    {
        let t = Ident::Stream(Stream::Table);
        let mut q = SelectPlan::new(t);
        q.column(ColumnRef::All);
        if let Some(id) = self.id {
            q.and_where(bin(col(t, Ident::Stream(Stream::Id)), BinOp::Eq, uuid(id)));
        }
        if let Some(u) = self.user_id {
            q.and_where(bin(col(t, Ident::Stream(Stream::UserId)), BinOp::Eq, text(u)));
        }
        if let Some(c) = self.cursor {
            q.and_where(bin(col(t, Ident::Stream(Stream::Title)), BinOp::Gt, text(c)));
        }
        q.order_by(ColumnRef::TableCol(t, Ident::Stream(Stream::Title)), Order::Asc);
        if let Some(l) = self.limit {
            q.limit(l);
        }
        proof {
            lemma_select_eq(q@, stream_select_v(self));
        }
        q
    }
}

/// One stream by id.
#[derive(Debug)]
pub struct StreamSelectOne {
    pub id: u128,
}

impl IntoSelect for StreamSelectOne {
    fn into_select(self) -> (r: SelectPlan)
        ensures
            r@ == (SelectV {
                items: seq![ItemV::Column(ColumnRef::All)],
                conditions: seq![bin_v(bare_v(Ident::Stream(Stream::Id)), BinOp::Eq, uuid_v(self.id))],
                ..empty_select_v(Ident::Stream(Stream::Table))
            }),
    {
        let mut q = SelectPlan::new(Ident::Stream(Stream::Table));
        q.column(ColumnRef::All);
        q.and_where(bin(bare(Ident::Stream(Stream::Id)), BinOp::Eq, uuid(self.id)));
        proof {
            lemma_select_eq(
                q@,
                SelectV {
                    items: seq![ItemV::Column(ColumnRef::All)],
                    conditions: seq![bin_v(bare_v(Ident::Stream(Stream::Id)), BinOp::Eq, uuid_v(self.id))],
                    ..empty_select_v(Ident::Stream(Stream::Table))
                },
            );
        }
        q
    }
}

/// The stream to delete.
#[derive(Debug)]
pub struct StreamDelete {
    pub id: u128,
}

impl IntoDelete for StreamDelete {
    fn into_delete(self) -> (r: DeletePlan)
        ensures
            r@ == (DeleteV {
                table: Ident::Stream(Stream::Table),
                conditions: seq![bin_v(bare_v(Ident::Stream(Stream::Id)), BinOp::Eq, uuid_v(self.id))],
            }),
    {
        let mut q = DeletePlan::new(Ident::Stream(Stream::Table));
        q.and_where(bin(bare(Ident::Stream(Stream::Id)), BinOp::Eq, uuid(self.id)));
        assert(q@.conditions =~= seq![bin_v(bare_v(Ident::Stream(Stream::Id)), BinOp::Eq, uuid_v(self.id))]);
        q
    }
}

} // verus!
