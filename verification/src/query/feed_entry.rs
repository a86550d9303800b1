//! Feed entries: the items of a feed, and the entries that a user's
//! subscriptions see, with their read marks.

use vstd::prelude::*;

use crate::filter::{entry_filter_wf, EntryFilter};
use crate::plan::{
    column_compared, column_equals_uuid, lemma_contains_concat,
    bin, bin_v, col, cols_eq, date, date_v, empty_select_v, in_uuids, is_not_null,
    lemma_insert_eq, lemma_select_eq, not, on_conflict_update, opt_seq, text_of, tuple, uuid,
    uuid_v, uuid_values_v, values_v, when_v, ActionV, Alias, BinOp, ColumnRef, ConflictV, ExprV,
    Ident, InsertPlan, InsertV, ItemV, JoinKind, JoinTarget, JoinV, Order, SelectPlan, SelectV,
    SqlExpr, SqlValue, TargetV, ValueV,
};
use crate::query::account::{opt_str, opt_string};
use crate::query::condition::entry_filter_v;
use crate::query::subscription::{
    entry_read, entry_read_v, feed_entry_col, read_entry_col, subscription_col,
    subscription_has_tags, subscription_has_tags_v, unread_counts, unread_counts_v,
};
use crate::query::tag::only_if;
use crate::query::{IntoInsert, IntoSelect};
use crate::schema::{FeedEntry, ReadEntry, Subscription};
use crate::time::UtcDateTime;

verus! {

/// The filters of a feed entry listing; the cursor is the publication time and
/// id of the last entry seen.
#[derive(Debug)]
pub struct FeedEntryParams {
    pub id: Option<u128>,
    pub feed_id: Option<u128>,
    pub cursor: Option<(UtcDateTime, u128)>,
    pub limit: Option<u64>,
}

/// `(feed_entries.published_at, feed_entries.id) < (published_at, id)`.
pub open spec fn entry_before_v(c: (UtcDateTime, u128)) -> ExprV {
    bin_v(
        ExprV::Tuple(seq![feed_entry_col(FeedEntry::PublishedAt), feed_entry_col(FeedEntry::Id)]),
        BinOp::Lt,
        ExprV::Tuple(seq![date_v(c.0), uuid_v(c.1)]),
    )
}

/// Newest first: by publication time, then by id, both descending.
pub open spec fn entry_order_v() -> Seq<(ColumnRef, Order)> {
    seq![
        (ColumnRef::TableCol(Ident::FeedEntry(FeedEntry::Table), Ident::FeedEntry(FeedEntry::PublishedAt)), Order::Desc),
        (ColumnRef::TableCol(Ident::FeedEntry(FeedEntry::Table), Ident::FeedEntry(FeedEntry::Id)), Order::Desc),
    ]
}

/// `SELECT * FROM feed_entries` where each given filter holds, newest first
/// before the cursor.
pub open spec fn feed_entry_select_v(p: FeedEntryParams) -> SelectV {
    SelectV {
        items: seq![ItemV::Column(ColumnRef::All)],
        conditions: when_v(p.id, |id: u128| bin_v(feed_entry_col(FeedEntry::Id), BinOp::Eq, uuid_v(id)))
            + when_v(
            p.feed_id,
            |id: u128| bin_v(feed_entry_col(FeedEntry::FeedId), BinOp::Eq, uuid_v(id)),
        ) + when_v(p.cursor, |c: (UtcDateTime, u128)| entry_before_v(c)),
        order_by: entry_order_v(),
        limit: p.limit,
        ..empty_select_v(Ident::FeedEntry(FeedEntry::Table))
    }
}

/// What a feed entry listing compares: the entry by its own id, the feed by the
/// entry's feed id, and, after a cursor, the entries whose (publication time,
/// id) comes before it; nothing else. The listing is newest first, by
/// publication time then id, and at most `limit` long.
pub proof fn feed_entry_listing_conditions(p: FeedEntryParams)
    ensures
        p.id is Some ==> feed_entry_select_v(p).conditions.contains(
            column_compared(Ident::FeedEntry(FeedEntry::Table), Ident::FeedEntry(FeedEntry::Id), BinOp::Eq, ValueV::Uuid(p.id)),
        ),
        p.feed_id is Some ==> feed_entry_select_v(p).conditions.contains(
            column_compared(
                Ident::FeedEntry(FeedEntry::Table),
                Ident::FeedEntry(FeedEntry::FeedId),
                BinOp::Eq,
                ValueV::Uuid(p.feed_id),
            ),
        ),
        p.cursor is Some ==> feed_entry_select_v(p).conditions.contains(
            ExprV::Binary(
                Box::new(ExprV::Tuple(seq![
                    ExprV::Column(ColumnRef::TableCol(Ident::FeedEntry(FeedEntry::Table), Ident::FeedEntry(FeedEntry::PublishedAt))),
                    ExprV::Column(ColumnRef::TableCol(Ident::FeedEntry(FeedEntry::Table), Ident::FeedEntry(FeedEntry::Id))),
                ])),
                BinOp::Lt,
                Box::new(ExprV::Tuple(seq![
                    ExprV::Value(ValueV::DateTime(Some(p.cursor->Some_0.0))),
                    ExprV::Value(ValueV::Uuid(Some(p.cursor->Some_0.1))),
                ])),
            ),
        ),
        feed_entry_select_v(p).conditions.len() == (if p.id is Some { 1int } else { 0 })
            + (if p.feed_id is Some { 1int } else { 0 }) + (if p.cursor is Some { 1int } else { 0 }),
        feed_entry_select_v(p).order_by == seq![
            (ColumnRef::TableCol(Ident::FeedEntry(FeedEntry::Table), Ident::FeedEntry(FeedEntry::PublishedAt)), Order::Desc),
            (ColumnRef::TableCol(Ident::FeedEntry(FeedEntry::Table), Ident::FeedEntry(FeedEntry::Id)), Order::Desc),
        ],
        feed_entry_select_v(p).limit == p.limit,
{
    let a = when_v(p.id, |id: u128| bin_v(feed_entry_col(FeedEntry::Id), BinOp::Eq, uuid_v(id)));
    let b = when_v(p.feed_id, |id: u128| bin_v(feed_entry_col(FeedEntry::FeedId), BinOp::Eq, uuid_v(id)));
    let c = when_v(p.cursor, |c: (UtcDateTime, u128)| entry_before_v(c));
    assert(feed_entry_select_v(p).conditions == a + b + c);
    if p.id is Some {
        lemma_contains_concat(a, b, a[0]);
        lemma_contains_concat(a + b, c, a[0]);
    }
    if p.feed_id is Some {
        lemma_contains_concat(a, b, b[0]);
        lemma_contains_concat(a + b, c, b[0]);
    }
    if p.cursor is Some {
        lemma_contains_concat(a + b, c, c[0]);
    }
}

fn entry_before(published_at: UtcDateTime, id: u128) -> (r: SqlExpr)
    ensures
        r@ == entry_before_v((published_at, id)),
{
    let fe = Ident::FeedEntry(FeedEntry::Table);
    bin(
        tuple(col(fe, Ident::FeedEntry(FeedEntry::PublishedAt)), col(fe, Ident::FeedEntry(FeedEntry::Id))),
        BinOp::Lt,
        tuple(date(published_at), uuid(id)),
    )
}

fn order_entries(q: &mut SelectPlan)
    ensures
        final(q)@ == (SelectV { order_by: old(q)@.order_by + entry_order_v(), ..old(q)@ }),
{
    let fe = Ident::FeedEntry(FeedEntry::Table);
    q.order_by(ColumnRef::TableCol(fe, Ident::FeedEntry(FeedEntry::PublishedAt)), Order::Desc);
    q.order_by(ColumnRef::TableCol(fe, Ident::FeedEntry(FeedEntry::Id)), Order::Desc);
    assert(q@.order_by =~= old(q)@.order_by + entry_order_v());
}

impl IntoSelect for FeedEntryParams {
    fn into_select(self) -> (r: SelectPlan)
        ensures
            r@ == feed_entry_select_v(self),
    {
        let fe = Ident::FeedEntry(FeedEntry::Table);
        let mut q = SelectPlan::new(fe);
        q.column(ColumnRef::All);
        if let Some(id) = self.id {
            q.and_where(bin(col(fe, Ident::FeedEntry(FeedEntry::Id)), BinOp::Eq, uuid(id)));
        }
        if let Some(id) = self.feed_id {
            q.and_where(bin(col(fe, Ident::FeedEntry(FeedEntry::FeedId)), BinOp::Eq, uuid(id)));
        }
        if let Some((published_at, id)) = self.cursor {
            q.and_where(entry_before(published_at, id));
        }
        order_entries(&mut q);
        if let Some(l) = self.limit {
            q.limit(l);
        }
        proof {
            lemma_select_eq(q@, feed_entry_select_v(self));
        }
        q
    }
}

/// An entry of a feed to store.
#[derive(Debug)]
pub struct FeedEntryInsert<'a> {
    pub id: u128,
    pub link: &'a str,
    pub title: &'a str,
    pub published_at: UtcDateTime,
    pub description: Option<&'a str>,
    pub author: Option<&'a str>,
    pub thumbnail_url: Option<&'a str>,
    pub feed_id: u128,
}

/// Entries to store together; an entry stored under the same feed and link is
/// refreshed.
#[derive(Debug)]
pub struct FeedEntryInsertBatch<'a>(pub Vec<FeedEntryInsert<'a>>);

/// The row of an entry.
pub open spec fn feed_entry_row(e: FeedEntryInsert) -> Seq<ValueV> {
    seq![
        ValueV::Uuid(Some(e.id)),
        ValueV::Text(Some(e.link@)),
        ValueV::Text(Some(e.title@)),
        ValueV::DateTime(Some(e.published_at)),
        ValueV::Text(opt_str(e.description)),
        ValueV::Text(opt_str(e.author)),
        ValueV::Text(opt_str(e.thumbnail_url)),
        ValueV::Uuid(Some(e.feed_id)),
    ]
}

/// The insert of the entries, one row each in order.
pub open spec fn feed_entry_insert_v(b: FeedEntryInsertBatch) -> InsertV {
    InsertV {
        table: Some(Ident::FeedEntry(FeedEntry::Table)),
        columns: seq![
            Ident::FeedEntry(FeedEntry::Id),
            Ident::FeedEntry(FeedEntry::Link),
            Ident::FeedEntry(FeedEntry::Title),
            Ident::FeedEntry(FeedEntry::PublishedAt),
            Ident::FeedEntry(FeedEntry::Description),
            Ident::FeedEntry(FeedEntry::Author),
            Ident::FeedEntry(FeedEntry::ThumbnailUrl),
            Ident::FeedEntry(FeedEntry::FeedId),
        ],
        rows: b.0@.map_values(|e: FeedEntryInsert| feed_entry_row(e)),
        on_conflict: Some(
            ConflictV {
                columns: seq![Ident::FeedEntry(FeedEntry::FeedId), Ident::FeedEntry(FeedEntry::Link)],
                action: ActionV::Update(
                    seq![
                        Ident::FeedEntry(FeedEntry::Title),
                        Ident::FeedEntry(FeedEntry::PublishedAt),
                        Ident::FeedEntry(FeedEntry::Description),
                        Ident::FeedEntry(FeedEntry::Author),
                        Ident::FeedEntry(FeedEntry::ThumbnailUrl),
                    ],
                ),
            },
        ),
        returning: None,
    }
}

impl<'a> IntoInsert for FeedEntryInsertBatch<'a> {
    fn into_insert(self) -> (r: InsertPlan)
        ensures
            r@ == feed_entry_insert_v(self),
            crate::plan::rows_fit(r@),
    {
        let mut q = InsertPlan {
            table: Some(Ident::FeedEntry(FeedEntry::Table)),
            columns: vec![
                Ident::FeedEntry(FeedEntry::Id),
                Ident::FeedEntry(FeedEntry::Link),
                Ident::FeedEntry(FeedEntry::Title),
                Ident::FeedEntry(FeedEntry::PublishedAt),
                Ident::FeedEntry(FeedEntry::Description),
                Ident::FeedEntry(FeedEntry::Author),
                Ident::FeedEntry(FeedEntry::ThumbnailUrl),
                Ident::FeedEntry(FeedEntry::FeedId),
            ],
            rows: Vec::new(),
            on_conflict: Some(
                on_conflict_update(
                    vec![Ident::FeedEntry(FeedEntry::FeedId), Ident::FeedEntry(FeedEntry::Link)],
                    vec![
                        Ident::FeedEntry(FeedEntry::Title),
                        Ident::FeedEntry(FeedEntry::PublishedAt),
                        Ident::FeedEntry(FeedEntry::Description),
                        Ident::FeedEntry(FeedEntry::Author),
                        Ident::FeedEntry(FeedEntry::ThumbnailUrl),
                    ],
                ),
            ),
            returning: None,
        };
        assert(q@.rows =~= seq![]);
        let entries = &self.0;
        let ghost head = q@;
        let mut i: usize = 0;
        while i < entries.len()
            invariant
                i <= entries@.len(),
                q@ == (InsertV {
                    rows: entries@.subrange(0, i as int).map_values(|e: FeedEntryInsert| feed_entry_row(e)),
                    ..head
                }),
            decreases entries.len() - i,
        {
            let e = &entries[i];
            let row = vec![
                SqlValue::Uuid(Some(e.id)),
                SqlValue::Text(Some(text_of(e.link))),
                SqlValue::Text(Some(text_of(e.title))),
                SqlValue::DateTime(Some(e.published_at)),
                SqlValue::Text(opt_string(e.description)),
                SqlValue::Text(opt_string(e.author)),
                SqlValue::Text(opt_string(e.thumbnail_url)),
                SqlValue::Uuid(Some(e.feed_id)),
            ];
            q.values(row);
            proof {
                assert(values_v(row@) =~= feed_entry_row(*e));
                assert(entries@.subrange(0, i + 1).map_values(|e: FeedEntryInsert| feed_entry_row(e))
                    =~= entries@.subrange(0, i as int).map_values(|e: FeedEntryInsert| feed_entry_row(e)).push(
                    feed_entry_row(*e),
                ));
            }
            i = i + 1;
        }
        assert(entries@.subrange(0, entries@.len() as int) =~= entries@);
        proof {
            lemma_insert_eq(q@, feed_entry_insert_v(self));
        }
        q
    }
}

/// The parameters of a listing of the entries that a user's subscriptions see.
/// A filter, where there is one, takes the place of the entry, subscription,
/// read and tag parameters.
#[derive(Debug)]
pub struct SubscriptionEntryParams {
    pub feed_entry_id: Option<u128>,
    pub subscription_id: Option<u128>,
    pub has_read: Option<bool>,
    pub tags: Option<Vec<u128>>,
    pub filter: Option<EntryFilter>,
    pub user_id: Option<u128>,
    pub cursor: Option<(UtcDateTime, u128)>,
    pub limit: Option<u64>,
    pub with_read_entry: bool,
}

/// `INNER JOIN subscriptions ON subscriptions.feed_id = feed_entries.feed_id`.
pub open spec fn subscriptions_join_v() -> JoinV {
    JoinV {
        kind: JoinKind::Inner,
        target: TargetV::Table(Ident::Subscription(Subscription::Table)),
        on: bin_v(subscription_col(Subscription::FeedId), BinOp::Eq, feed_entry_col(FeedEntry::FeedId)),
    }
}

/// `LEFT JOIN read_entries ON read_entries.subscription_id = subscriptions.id
/// AND read_entries.feed_entry_id = feed_entries.id`.
pub open spec fn read_entries_join_v() -> JoinV {
    JoinV {
        kind: JoinKind::Left,
        target: TargetV::Table(Ident::ReadEntry(ReadEntry::Table)),
        on: bin_v(
            bin_v(read_entry_col(ReadEntry::SubscriptionId), BinOp::Eq, subscription_col(Subscription::Id)),
            BinOp::And,
            bin_v(read_entry_col(ReadEntry::FeedEntryId), BinOp::Eq, feed_entry_col(FeedEntry::Id)),
        ),
    }
}

/// The read mark columns: when it was read, and whether it was.
pub open spec fn read_items_v() -> Seq<ItemV> {
    seq![
        ItemV::Column(ColumnRef::TableCol(Ident::ReadEntry(ReadEntry::Table), Ident::ReadEntry(ReadEntry::CreatedAt))),
        ItemV::ExprAs(ExprV::IsNotNull(Box::new(read_entry_col(ReadEntry::SubscriptionId))), Ident::Alias(Alias::HasRead)),
    ]
}

/// The read condition: read, or not read.
pub open spec fn has_read_v(has_read: bool) -> ExprV {
    if has_read {
        entry_read_v()
    } else {
        ExprV::Not(Box::new(entry_read_v()))
    }
}

/// The conditions that the filter, or else the entry, subscription, read and
/// tag parameters, put on a listing.
pub open spec fn subscription_entry_selection_v(p: SubscriptionEntryParams) -> Seq<ExprV> {
    match p.filter {
        Some(f) => seq![entry_filter_v(f)],
        None => when_v(
            p.feed_entry_id,
            |id: u128| bin_v(feed_entry_col(FeedEntry::Id), BinOp::Eq, uuid_v(id)),
        ) + when_v(
            p.subscription_id,
            |id: u128| bin_v(subscription_col(Subscription::Id), BinOp::Eq, uuid_v(id)),
        ) + when_v(p.has_read, |b: bool| has_read_v(b)) + when_v(
            opt_seq(p.tags),
            |tags: Seq<u128>| subscription_has_tags_v(tags),
        ),
    }
}

/// `SELECT feed_entries.*, subscriptions.id AS subscription_id,
/// subscriptions.user_id` of the entries of the feeds the subscriptions
/// follow, newest first before the cursor, with the read mark where asked.
pub open spec fn subscription_entry_select_v(p: SubscriptionEntryParams) -> SelectV {
    SelectV {
        items: seq![
            ItemV::Column(ColumnRef::TableAll(Ident::FeedEntry(FeedEntry::Table))),
            ItemV::ExprAs(subscription_col(Subscription::Id), Ident::Alias(Alias::SubscriptionId)),
            ItemV::Column(ColumnRef::TableCol(Ident::Subscription(Subscription::Table), Ident::Subscription(Subscription::UserId))),
        ] + if p.with_read_entry {
            read_items_v()
        } else {
            seq![]
        },
        joins: seq![subscriptions_join_v()] + only_if(p.with_read_entry, read_entries_join_v()),
        conditions: when_v(
            p.user_id,
            |id: u128| bin_v(subscription_col(Subscription::UserId), BinOp::Eq, uuid_v(id)),
        ) + when_v(p.cursor, |c: (UtcDateTime, u128)| entry_before_v(c)) + subscription_entry_selection_v(p),
        order_by: entry_order_v(),
        limit: p.limit,
        ..empty_select_v(Ident::FeedEntry(FeedEntry::Table))
    }
}

fn add_selection(q: &mut SelectPlan, p: &SubscriptionEntryParams)
    requires
        p.filter matches Some(f) ==> entry_filter_wf(f),
    ensures
        final(q)@ == (SelectV {
            conditions: old(q)@.conditions + subscription_entry_selection_v(*p),
            ..old(q)@
        }),
{
    let fe = Ident::FeedEntry(FeedEntry::Table);
    let s = Ident::Subscription(Subscription::Table);
    match &p.filter {
        Some(f) => {
            q.and_where(f.to_condition());
        },
        None => {
            if let Some(id) = p.feed_entry_id {
                q.and_where(bin(col(fe, Ident::FeedEntry(FeedEntry::Id)), BinOp::Eq, uuid(id)));
            }
            if let Some(id) = p.subscription_id {
                q.and_where(bin(col(s, Ident::Subscription(Subscription::Id)), BinOp::Eq, uuid(id)));
            }
            if let Some(b) = p.has_read {
                if b {
                    q.and_where(entry_read());
                } else {
                    q.and_where(not(entry_read()));
                }
            }
            if let Some(tags) = &p.tags {
                q.and_where(subscription_has_tags(tags));
            }
        },
    }
    assert(q@.conditions =~= old(q)@.conditions + subscription_entry_selection_v(*p));
}

fn add_read_entry(q: &mut SelectPlan)
    ensures
        final(q)@ == (SelectV {
            items: old(q)@.items + read_items_v(),
            joins: old(q)@.joins.push(read_entries_join_v()),
            ..old(q)@
        }),
{
    let re = Ident::ReadEntry(ReadEntry::Table);
    q.column(ColumnRef::TableCol(re, Ident::ReadEntry(ReadEntry::CreatedAt)));
    q.expr_as(is_not_null(col(re, Ident::ReadEntry(ReadEntry::SubscriptionId))), Ident::Alias(Alias::HasRead));
    q.join(
        JoinKind::Left,
        JoinTarget::Table(re),
        bin(
            cols_eq(re, Ident::ReadEntry(ReadEntry::SubscriptionId), Ident::Subscription(Subscription::Table), Ident::Subscription(Subscription::Id)),
            BinOp::And,
            cols_eq(re, Ident::ReadEntry(ReadEntry::FeedEntryId), Ident::FeedEntry(FeedEntry::Table), Ident::FeedEntry(FeedEntry::Id)),
        ),
    );
    proof {
        lemma_select_eq(
            q@,
            SelectV { items: old(q)@.items + read_items_v(), joins: old(q)@.joins.push(read_entries_join_v()), ..old(q)@ },
        );
    }
}

impl SubscriptionEntryParams {
    /// The listing of these parameters. A filter must be well formed: every
    /// conjunction and disjunction in it has a part.
    pub fn into_select(self) -> (r: SelectPlan)
        requires
            self.filter matches Some(f) ==> entry_filter_wf(f),
        ensures
            r@ == subscription_entry_select_v(self),
    {
        let fe = Ident::FeedEntry(FeedEntry::Table);
        let s = Ident::Subscription(Subscription::Table);
        let mut q = SelectPlan::new(fe);
        q.column(ColumnRef::TableAll(fe));
        q.expr_as(col(s, Ident::Subscription(Subscription::Id)), Ident::Alias(Alias::SubscriptionId));
        q.column(ColumnRef::TableCol(s, Ident::Subscription(Subscription::UserId)));
        q.join(
            JoinKind::Inner,
            JoinTarget::Table(s),
            cols_eq(s, Ident::Subscription(Subscription::FeedId), fe, Ident::FeedEntry(FeedEntry::FeedId)),
        );
        if let Some(id) = self.user_id {
            q.and_where(bin(col(s, Ident::Subscription(Subscription::UserId)), BinOp::Eq, uuid(id)));
        }
        if let Some((published_at, id)) = self.cursor {
            q.and_where(entry_before(published_at, id));
        }
        order_entries(&mut q);
        add_selection(&mut q, &self);
        if self.with_read_entry {
            add_read_entry(&mut q);
        }
        if let Some(l) = self.limit {
            q.limit(l);
        }
        proof {
            lemma_select_eq(q@, subscription_entry_select_v(self));
        }
        q
    }
}

/// A filter takes the place of the entry, subscription, read and tag
/// parameters: two listings with the same filter and the same user, cursor,
/// limit and read-mark flag are the same statement whatever else they name.
pub proof fn entry_filter_replaces_selection(p: SubscriptionEntryParams, q: SubscriptionEntryParams)
    requires
        p.filter is Some,
        p.filter == q.filter,
        p.user_id == q.user_id,
        p.cursor == q.cursor,
        p.limit == q.limit,
        p.with_read_entry == q.with_read_entry,
    ensures
        subscription_entry_select_v(p) == subscription_entry_select_v(q),
{
}

/// The unread counts of some subscriptions.
#[derive(Debug)]
pub struct UnreadCountSelectMany {
    pub subscription_ids: Vec<u128>,
}

impl IntoSelect for UnreadCountSelectMany {
    fn into_select(self) -> (r: SelectPlan)
        ensures
            r@ == unread_counts_v(
                seq![ExprV::In(Box::new(subscription_col(Subscription::Id)), uuid_values_v(self.subscription_ids@))],
            ),
    {
        let e = in_uuids(
            col(Ident::Subscription(Subscription::Table), Ident::Subscription(Subscription::Id)),
            &self.subscription_ids,
        );
        unread_counts(Some(e))
    }
}

/// What a listing of subscription entries compares: the user's own
/// subscriptions (`subscriptions.user_id`); without a filter, the given
/// subscription by its own id (`subscriptions.id`), the given entry by its id
/// (`feed_entries.id`), and read or unread entries as asked; with a filter,
/// the filter's condition in the place of all of those.
pub proof fn subscription_entry_listing_conditions(p: SubscriptionEntryParams)
    ensures
        p.user_id is Some ==> subscription_entry_select_v(p).conditions.contains(
            column_equals_uuid(
                Ident::Subscription(Subscription::Table),
                Ident::Subscription(Subscription::UserId),
                p.user_id->Some_0,
            ),
        ),
        p.filter is None && p.subscription_id is Some ==> subscription_entry_select_v(p).conditions.contains(
            column_equals_uuid(
                Ident::Subscription(Subscription::Table),
                Ident::Subscription(Subscription::Id),
                p.subscription_id->Some_0,
            ),
        ),
        p.filter is None && p.feed_entry_id is Some ==> subscription_entry_select_v(p).conditions.contains(
            column_equals_uuid(
                Ident::FeedEntry(FeedEntry::Table),
                Ident::FeedEntry(FeedEntry::Id),
                p.feed_entry_id->Some_0,
            ),
        ),
        p.filter is None && p.has_read == Some(true) ==> subscription_entry_select_v(p).conditions.contains(
            entry_read_v(),
        ),
        p.filter is None && p.has_read == Some(false) ==> subscription_entry_select_v(p).conditions.contains(
            ExprV::Not(Box::new(entry_read_v())),
        ),
        p.filter is Some ==> subscription_entry_select_v(p).conditions.contains(
            entry_filter_v(p.filter->Some_0),
        ),
        p.filter is Some ==> subscription_entry_select_v(p).conditions.len() == (if p.user_id is Some {
            1int
        } else {
            0
        }) + (if p.cursor is Some {
            1int
        } else {
            0
        }) + 1,
{
    let a = when_v(p.user_id, |id: u128| bin_v(subscription_col(Subscription::UserId), BinOp::Eq, uuid_v(id)));
    let b = when_v(p.cursor, |c: (UtcDateTime, u128)| entry_before_v(c));
    let sel = subscription_entry_selection_v(p);
    if p.user_id is Some {
        let x = column_equals_uuid(
            Ident::Subscription(Subscription::Table),
            Ident::Subscription(Subscription::UserId),
            p.user_id->Some_0,
        );
        assert(a[0] == x);
        lemma_contains_concat(a, b, x);
        lemma_contains_concat(a + b, sel, x);
    }
    match p.filter {
        Some(f) => {
            assert(sel[0] == entry_filter_v(f));
            lemma_contains_concat(a + b, sel, entry_filter_v(f));
        },
        None => {
            let fe = when_v(p.feed_entry_id, |id: u128| bin_v(feed_entry_col(FeedEntry::Id), BinOp::Eq, uuid_v(id)));
            let si = when_v(p.subscription_id, |id: u128| bin_v(subscription_col(Subscription::Id), BinOp::Eq, uuid_v(id)));
            let hr = when_v(p.has_read, |b: bool| has_read_v(b));
            let tg = when_v(opt_seq(p.tags), |tags: Seq<u128>| subscription_has_tags_v(tags));
            assert(sel == fe + si + hr + tg);
            if p.subscription_id is Some {
                let x = si[0];
                lemma_contains_concat(fe, si, x);
                lemma_contains_concat(fe + si, hr, x);
                lemma_contains_concat(fe + si + hr, tg, x);
                lemma_contains_concat(a + b, sel, x);
            }
            if p.feed_entry_id is Some {
                let x = fe[0];
                lemma_contains_concat(fe, si, x);
                lemma_contains_concat(fe + si, hr, x);
                lemma_contains_concat(fe + si + hr, tg, x);
                lemma_contains_concat(a + b, sel, x);
            }
            if p.has_read is Some {
                let x = hr[0];
                lemma_contains_concat(fe + si, hr, x);
                lemma_contains_concat(fe + si + hr, tg, x);
                lemma_contains_concat(a + b, sel, x);
            }
        },
    }
}

} // verus!
