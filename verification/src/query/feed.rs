//! Feeds: the sources that subscriptions follow, refreshed on an interval.

use vstd::prelude::*;

use crate::plan::{
    bin, bin_v, bool_v, boolean, col, col_v, column_compared, custom, empty_select_v, in_texts,
    is_null, lemma_contains_concat,
    lemma_insert_eq, lemma_select_eq, not, on_conflict_do_nothing, on_conflict_update, opt_seq,
    str_texts, text, text_of, text_v, uuid, uuid_v, text_values_v, when_v, ActionV, BinOp,
    ColumnRef, ConflictV, CustomSql, ExprV, Ident, InsertPlan, InsertV, ItemV, OnConflict, Order,
    SelectPlan, SelectV, SqlExpr, SqlValue, ValueV, values_v,
};
use crate::query::account::{opt_str, opt_string};
use crate::query::{IntoInsert, IntoSelect};
use crate::schema::Feed;
use crate::time::UtcDateTime;

verus! {

/// The filters of a feed listing; the cursor is the source URL of the last
/// feed seen.
#[derive(Debug)]
pub struct FeedSelect<'a> {
    pub id: Option<u128>,
    pub source_urls: Option<Vec<&'a str>>,
    pub ready_to_refresh: bool,
    pub cursor: Option<&'a str>,
    pub limit: Option<u64>,
}

impl<'a> Default for FeedSelect<'a> {
    fn default() -> (r: Self)
        ensures
            r.id is None,
            r.source_urls is None,
            !r.ready_to_refresh,
            r.cursor is None,
            r.limit is None,
    {
        FeedSelect { id: None, source_urls: None, ready_to_refresh: false, cursor: None, limit: None }
    }
}

/// A feed column.
pub open spec fn feed_col(c: Feed) -> ExprV {
    col_v(Ident::Feed(Feed::Table), Ident::Feed(c))
}

/// `NOT ready OR refreshed_at IS NULL OR refreshed_at + interval '1 minute' *
/// refresh_interval_min <= CURRENT_TIMESTAMP`: with `ready` false every feed
/// passes; with it true, the feeds never refreshed or due again.
pub open spec fn feed_ready_v(ready: bool) -> ExprV {
    bin_v(
        bin_v(
            ExprV::Not(Box::new(bool_v(ready))),
            BinOp::Or,
            ExprV::IsNull(Box::new(feed_col(Feed::RefreshedAt))),
        ),
        BinOp::Or,
        bin_v(
            bin_v(
                feed_col(Feed::RefreshedAt),
                BinOp::Add,
                bin_v(ExprV::Custom(CustomSql::OneMinute), BinOp::Mul, feed_col(Feed::RefreshIntervalMin)),
            ),
            BinOp::Lte,
            ExprV::CurrentTimestamp,
        ),
    )
}

/// `SELECT * FROM feeds` where each given filter and the refresh condition
/// hold, by source URL after the cursor.
pub open spec fn feed_select_v(p: FeedSelect) -> SelectV {
    SelectV {
        items: seq![ItemV::Column(ColumnRef::All)],
        conditions: when_v(p.id, |id: u128| bin_v(feed_col(Feed::Id), BinOp::Eq, uuid_v(id))) + when_v(
            opt_seq(p.source_urls),
            |urls: Seq<&str>| ExprV::In(Box::new(feed_col(Feed::SourceUrl)), text_values_v(str_texts(urls))),
        ) + seq![feed_ready_v(p.ready_to_refresh)] + when_v(
            opt_str(p.cursor),
            |c: Seq<char>| bin_v(feed_col(Feed::SourceUrl), BinOp::Gt, text_v(c)),
        ),
        order_by: seq![(ColumnRef::TableCol(Ident::Feed(Feed::Table), Ident::Feed(Feed::SourceUrl)), Order::Asc)],
        limit: p.limit,
        ..empty_select_v(Ident::Feed(Feed::Table))
    }
}

/// What a feed listing compares: the feed by its own id, the feeds whose
/// source URL is one of those given, and, after a cursor, the source URLs that
/// come after it; the refresh condition always applies, and it keeps every
/// feed where readiness was not asked for. The listing is by source URL,
/// ascending, and at most `limit` long.
pub proof fn feed_listing_conditions(p: FeedSelect)
    ensures
        p.id is Some ==> feed_select_v(p).conditions.contains(
            column_compared(Ident::Feed(Feed::Table), Ident::Feed(Feed::Id), BinOp::Eq, ValueV::Uuid(p.id)),
        ),
        p.source_urls is Some ==> feed_select_v(p).conditions.contains(
            ExprV::In(
                Box::new(ExprV::Column(ColumnRef::TableCol(Ident::Feed(Feed::Table), Ident::Feed(Feed::SourceUrl)))),
                p.source_urls->Some_0@.map_values(|u: &str| ValueV::Text(Some(u@))),
            ),
        ),
        p.cursor is Some ==> feed_select_v(p).conditions.contains(
            column_compared(
                Ident::Feed(Feed::Table),
                Ident::Feed(Feed::SourceUrl),
                BinOp::Gt,
                ValueV::Text(Some(p.cursor->Some_0@)),
            ),
        ),
        feed_select_v(p).conditions.contains(feed_ready_v(p.ready_to_refresh)),
        !p.ready_to_refresh ==> feed_ready_v(p.ready_to_refresh) == ExprV::Binary(
            Box::new(ExprV::Binary(
                Box::new(ExprV::Not(Box::new(ExprV::Value(ValueV::Bool(Some(false)))))),
                BinOp::Or,
                Box::new(ExprV::IsNull(Box::new(ExprV::Column(ColumnRef::TableCol(Ident::Feed(Feed::Table), Ident::Feed(Feed::RefreshedAt)))))),
            )),
            BinOp::Or,
            feed_ready_v(p.ready_to_refresh)->Binary_2,
        ),
        feed_select_v(p).conditions.len() == (if p.id is Some { 1int } else { 0 })
            + (if p.source_urls is Some { 1int } else { 0 }) + 1 + (if p.cursor is Some { 1int } else { 0 }),
        feed_select_v(p).order_by == seq![
            (ColumnRef::TableCol(Ident::Feed(Feed::Table), Ident::Feed(Feed::SourceUrl)), Order::Asc),
        ],
        feed_select_v(p).limit == p.limit,
{
    let a = when_v(p.id, |id: u128| bin_v(feed_col(Feed::Id), BinOp::Eq, uuid_v(id)));
    let b = when_v(
        opt_seq(p.source_urls),
        |urls: Seq<&str>| ExprV::In(Box::new(feed_col(Feed::SourceUrl)), text_values_v(str_texts(urls))),
    );
    let r = seq![feed_ready_v(p.ready_to_refresh)];
    let c = when_v(opt_str(p.cursor), |c: Seq<char>| bin_v(feed_col(Feed::SourceUrl), BinOp::Gt, text_v(c)));
    assert(feed_select_v(p).conditions == a + b + r + c);
    if p.id is Some {
        lemma_contains_concat(a, b, a[0]);
        lemma_contains_concat(a + b, r, a[0]);
        lemma_contains_concat(a + b + r, c, a[0]);
    }
    if p.source_urls is Some {
        let urls = p.source_urls->Some_0@;
        assert(text_values_v(str_texts(urls)) =~= urls.map_values(|u: &str| ValueV::Text(Some(u@))));
        lemma_contains_concat(a, b, b[0]);
        lemma_contains_concat(a + b, r, b[0]);
        lemma_contains_concat(a + b + r, c, b[0]);
    }
    lemma_contains_concat(a + b, r, r[0]);
    lemma_contains_concat(a + b + r, c, r[0]);
    if p.cursor is Some {
        lemma_contains_concat(a + b + r, c, c[0]);
    }
}

fn feed_ready(ready: bool) -> (r: SqlExpr)
    ensures
        r@ == feed_ready_v(ready),
{
    let t = Ident::Feed(Feed::Table);
    bin(
        bin(not(boolean(ready)), BinOp::Or, is_null(col(t, Ident::Feed(Feed::RefreshedAt)))),
        BinOp::Or,
        bin(
            bin(
                col(t, Ident::Feed(Feed::RefreshedAt)),
                BinOp::Add,
                bin(custom(CustomSql::OneMinute), BinOp::Mul, col(t, Ident::Feed(Feed::RefreshIntervalMin))),
            ),
            BinOp::Lte,
            SqlExpr::CurrentTimestamp,
        ),
    )
}

impl<'a> IntoSelect for FeedSelect<'a> {
    fn into_select(self) -> (r: SelectPlan)
        ensures
            r@ == feed_select_v(self),
    {
        let t = Ident::Feed(Feed::Table);
        let mut q = SelectPlan::new(t);
        q.column(ColumnRef::All);
        if let Some(id) = self.id {
            q.and_where(bin(col(t, Ident::Feed(Feed::Id)), BinOp::Eq, uuid(id)));
        }
        if let Some(urls) = &self.source_urls {
            q.and_where(in_texts(col(t, Ident::Feed(Feed::SourceUrl)), urls));
        }
        q.and_where(feed_ready(self.ready_to_refresh));
        if let Some(c) = self.cursor {
            q.and_where(bin(col(t, Ident::Feed(Feed::SourceUrl)), BinOp::Gt, text(c)));
        }
        q.order_by(ColumnRef::TableCol(t, Ident::Feed(Feed::SourceUrl)), Order::Asc);
        if let Some(l) = self.limit {
            q.limit(l);
        }
        proof {
            lemma_select_eq(q@, feed_select_v(self));
        }
        q
    }
}

/// A feed to store.
#[derive(Debug)]
pub struct FeedBase<'a> {
    pub id: u128,
    pub source_url: &'a str,
    pub link: &'a str,
    pub title: &'a str,
    pub description: Option<&'a str>,
    pub refresh_interval_min: i32,
    pub is_refreshing: bool,
    pub refreshed_at: Option<UtcDateTime>,
    pub is_custom: bool,
}

/// Feeds to store; an upsert refreshes a feed stored under the same source URL,
/// otherwise such a feed is kept as it is.
#[derive(Debug)]
pub struct FeedInsert<'a> {
    pub feeds: Vec<FeedBase<'a>>,
    pub upsert: bool,
}

/// The row of a feed.
pub open spec fn feed_row(f: FeedBase) -> Seq<ValueV> {
    seq![
        ValueV::Uuid(Some(f.id)),
        ValueV::Text(Some(f.source_url@)),
        ValueV::Text(Some(f.link@)),
        ValueV::Text(Some(f.title@)),
        ValueV::Text(opt_str(f.description)),
        ValueV::Int(Some(f.refresh_interval_min)),
        ValueV::Bool(Some(f.is_refreshing)),
        ValueV::DateTime(f.refreshed_at),
        ValueV::Bool(Some(f.is_custom)),
    ]
}

/// The insert of the feeds, one row each in order, returning their ids.
pub open spec fn feed_insert_v(i: FeedInsert) -> InsertV {
    InsertV {
        table: Some(Ident::Feed(Feed::Table)),
        columns: seq![
            Ident::Feed(Feed::Id),
            Ident::Feed(Feed::SourceUrl),
            Ident::Feed(Feed::Link),
            Ident::Feed(Feed::Title),
            Ident::Feed(Feed::Description),
            Ident::Feed(Feed::RefreshIntervalMin),
            Ident::Feed(Feed::IsRefreshing),
            Ident::Feed(Feed::RefreshedAt),
            Ident::Feed(Feed::IsCustom),
        ],
        rows: i.feeds@.map_values(|f: FeedBase| feed_row(f)),
        on_conflict: Some(
            ConflictV {
                columns: seq![Ident::Feed(Feed::SourceUrl)],
                action: if i.upsert {
                    ActionV::Update(
                        seq![
                            Ident::Feed(Feed::Link),
                            Ident::Feed(Feed::Title),
                            Ident::Feed(Feed::Description),
                            Ident::Feed(Feed::RefreshedAt),
                            Ident::Feed(Feed::RefreshIntervalMin),
                            Ident::Feed(Feed::IsRefreshing),
                            Ident::Feed(Feed::IsCustom),
                        ],
                    )
                } else {
                    ActionV::DoNothing
                },
            },
        ),
        returning: Some(Ident::Feed(Feed::Id)),
    }
}

impl<'a> IntoInsert for FeedInsert<'a> {
    fn into_insert(self) -> (r: InsertPlan)
        ensures
            r@ == feed_insert_v(self),
            crate::plan::rows_fit(r@),
    {
        let conflict: OnConflict = if self.upsert {
            on_conflict_update(
                vec![Ident::Feed(Feed::SourceUrl)],
                vec![
                    Ident::Feed(Feed::Link),
                    Ident::Feed(Feed::Title),
                    Ident::Feed(Feed::Description),
                    Ident::Feed(Feed::RefreshedAt),
                    Ident::Feed(Feed::RefreshIntervalMin),
                    Ident::Feed(Feed::IsRefreshing),
                    Ident::Feed(Feed::IsCustom),
                ],
            )
        } else {
            on_conflict_do_nothing(vec![Ident::Feed(Feed::SourceUrl)])
        };
        let mut q = InsertPlan {
            table: Some(Ident::Feed(Feed::Table)),
            columns: vec![
                Ident::Feed(Feed::Id),
                Ident::Feed(Feed::SourceUrl),
                Ident::Feed(Feed::Link),
                Ident::Feed(Feed::Title),
                Ident::Feed(Feed::Description),
                Ident::Feed(Feed::RefreshIntervalMin),
                Ident::Feed(Feed::IsRefreshing),
                Ident::Feed(Feed::RefreshedAt),
                Ident::Feed(Feed::IsCustom),
            ],
            rows: Vec::new(),
            on_conflict: Some(conflict),
            returning: Some(Ident::Feed(Feed::Id)),
        };
        assert(q@.rows =~= seq![]);
        let feeds = &self.feeds;
        let ghost head = q@;
        let mut i: usize = 0;
        while i < feeds.len()
            invariant
                i <= feeds@.len(),
                q@ == (InsertV {
                    rows: feeds@.subrange(0, i as int).map_values(|f: FeedBase| feed_row(f)),
                    ..head
                }),
            decreases feeds.len() - i,
        {
            let f = &feeds[i];
            let row = vec![
                SqlValue::Uuid(Some(f.id)),
                SqlValue::Text(Some(text_of(f.source_url))),
                SqlValue::Text(Some(text_of(f.link))),
                SqlValue::Text(Some(text_of(f.title))),
                SqlValue::Text(opt_string(f.description)),
                SqlValue::Int(Some(f.refresh_interval_min)),
                SqlValue::Bool(Some(f.is_refreshing)),
                SqlValue::DateTime(f.refreshed_at),
                SqlValue::Bool(Some(f.is_custom)),
            ];
            q.values(row);
            proof {
                assert(values_v(row@) =~= feed_row(*f));
                assert(feeds@.subrange(0, i + 1).map_values(|f: FeedBase| feed_row(f)) =~= feeds@.subrange(
                    0,
                    i as int,
                ).map_values(|f: FeedBase| feed_row(f)).push(feed_row(*f)));
            }
            i = i + 1;
        }
        assert(feeds@.subrange(0, feeds@.len() as int) =~= feeds@);
        proof {
            lemma_insert_eq(q@, feed_insert_v(self));
        }
        q
    }
}

} // verus!
