//! Subscriptions: a user's follow of a feed, with its unread count and tags.

use vstd::prelude::*;

use crate::plan::{
    bare, bare_v, bin, bin_v, coalesce, col, col_v, cols_eq, count, custom, empty_select_v,
    bare_column_compared, column_equals_uuid, exists_subquery, in_uuids, lemma_contains_concat, lemma_insert_eq,
    lemma_select_eq, not, on_conflict_update, opt_seq, text, text_of, text_v, tuple, uuid, uuid_v,
    uuid_values_v, values_v, when_v,
    ActionV, Alias, BinOp, ColumnRef, ConflictV, CustomSql, DeletePlan, DeleteV, ExprV, Ident,
    InsertPlan, InsertV, ItemV, JoinKind, JoinTarget, JoinV, OnConflict, Order, SelectPlan,
    SelectV, SqlExpr, SqlValue, TargetV, ValueV,
};
use crate::query::account::{opt_str, opt_string};
use crate::query::tag::only_if;
use crate::query::tags_agg::{tags_expr, tags_item_v, tags_join, tags_join_v};
use crate::query::{Dialect, IntoDelete, IntoInsert, IntoSelect};
use crate::schema::{Feed, FeedEntry, ReadEntry, Subscription, SubscriptionTag};
use crate::time::UtcDateTime;

verus! {

/// The filters of a subscription listing; the cursor is the title and id of
/// the last subscription seen. The feed, the unread count and the tags of each
/// subscription come along where asked.
#[derive(Debug)]
pub struct SubscriptionSelect<'a> {
    pub id: Option<u128>,
    pub feeds: Option<Vec<u128>>,
    pub tags: Option<Vec<u128>>,
    pub user_id: Option<u128>,
    pub cursor: Option<(&'a str, u128)>,
    pub limit: Option<u64>,
    pub with_feed: bool,
    pub with_unread_count: bool,
    pub with_tags: bool,
    pub dialect: Dialect,
}

/// A subscription column.
pub open spec fn subscription_col(c: Subscription) -> ExprV {
    col_v(Ident::Subscription(Subscription::Table), Ident::Subscription(c))
}

/// A feed entry column.
pub open spec fn feed_entry_col(c: FeedEntry) -> ExprV {
    col_v(Ident::FeedEntry(FeedEntry::Table), Ident::FeedEntry(c))
}

/// A read-entry column.
pub open spec fn read_entry_col(c: ReadEntry) -> ExprV {
    col_v(Ident::ReadEntry(ReadEntry::Table), Ident::ReadEntry(c))
}

/// A subscription-tag column.
pub open spec fn subscription_tag_col(c: SubscriptionTag) -> ExprV {
    col_v(Ident::SubscriptionTag(SubscriptionTag::Table), Ident::SubscriptionTag(c))
}

/// `EXISTS (SELECT 1 FROM read_entries WHERE read_entries.feed_entry_id =
/// feed_entries.id AND read_entries.subscription_id = subscriptions.id)`: the
/// entry is read through the subscription.
pub open spec fn entry_read_v() -> ExprV {
    ExprV::Exists(
        Box::new(
            SelectV {
                items: seq![ItemV::Expr(text_v("1"@))],
                conditions: seq![
                    bin_v(read_entry_col(ReadEntry::FeedEntryId), BinOp::Eq, feed_entry_col(FeedEntry::Id)),
                    bin_v(read_entry_col(ReadEntry::SubscriptionId), BinOp::Eq, subscription_col(Subscription::Id)),
                ],
                ..empty_select_v(Ident::ReadEntry(ReadEntry::Table))
            },
        ),
    )
}

/// `EXISTS (SELECT 1 FROM subscription_tags WHERE
/// subscription_tags.subscription_id = subscriptions.id AND
/// subscription_tags.tag_id IN (tags))`.
pub open spec fn subscription_has_tags_v(tags: Seq<u128>) -> ExprV {
    ExprV::Exists(
        Box::new(
            SelectV {
                items: seq![ItemV::Expr(text_v("1"@))],
                conditions: seq![
                    bin_v(subscription_tag_col(SubscriptionTag::SubscriptionId), BinOp::Eq, subscription_col(Subscription::Id)),
                    ExprV::In(Box::new(subscription_tag_col(SubscriptionTag::TagId)), uuid_values_v(tags)),
                ],
                ..empty_select_v(Ident::SubscriptionTag(SubscriptionTag::Table))
            },
        ),
    )
}

/// `SELECT subscriptions.id, COUNT(feed_entries.id) AS unread_count FROM
/// feed_entries INNER JOIN subscriptions ON subscriptions.feed_id =
/// feed_entries.feed_id WHERE <narrowing> AND NOT <read> GROUP BY
/// subscriptions.id`.
pub open spec fn unread_counts_v(narrowing: Seq<ExprV>) -> SelectV {
    SelectV {
        items: seq![
            ItemV::Column(ColumnRef::TableCol(Ident::Subscription(Subscription::Table), Ident::Subscription(Subscription::Id))),
            ItemV::ExprAs(ExprV::Count(Box::new(feed_entry_col(FeedEntry::Id))), Ident::Alias(Alias::UnreadCount)),
        ],
        joins: seq![
            JoinV {
                kind: JoinKind::Inner,
                target: TargetV::Table(Ident::Subscription(Subscription::Table)),
                on: bin_v(subscription_col(Subscription::FeedId), BinOp::Eq, feed_entry_col(FeedEntry::FeedId)),
            },
        ],
        conditions: narrowing + seq![ExprV::Not(Box::new(entry_read_v()))],
        group_by: seq![ColumnRef::TableCol(Ident::Subscription(Subscription::Table), Ident::Subscription(Subscription::Id))],
        ..empty_select_v(Ident::FeedEntry(FeedEntry::Table))
    }
}

/// The columns of the feed of each subscription.
pub open spec fn feed_items_v() -> Seq<ItemV> {
    seq![
        ItemV::Column(ColumnRef::TableCol(Ident::Feed(Feed::Table), Ident::Feed(Feed::SourceUrl))),
        ItemV::Column(ColumnRef::TableCol(Ident::Feed(Feed::Table), Ident::Feed(Feed::Link))),
        ItemV::Column(ColumnRef::TableCol(Ident::Feed(Feed::Table), Ident::Feed(Feed::Description))),
        ItemV::Column(ColumnRef::TableCol(Ident::Feed(Feed::Table), Ident::Feed(Feed::RefreshedAt))),
        ItemV::Column(ColumnRef::TableCol(Ident::Feed(Feed::Table), Ident::Feed(Feed::IsCustom))),
        ItemV::ExprAs(col_v(Ident::Feed(Feed::Table), Ident::Feed(Feed::Title)), Ident::Alias(Alias::FeedTitle)),
    ]
}

/// `INNER JOIN feeds ON feeds.id = subscriptions.feed_id`.
pub open spec fn feed_join_v() -> JoinV {
    JoinV {
        kind: JoinKind::Inner,
        target: TargetV::Table(Ident::Feed(Feed::Table)),
        on: bin_v(col_v(Ident::Feed(Feed::Table), Ident::Feed(Feed::Id)), BinOp::Eq, subscription_col(Subscription::FeedId)),
    }
}

/// `COALESCE(uc_agg.unread_count, 0) AS unread_count`.
pub open spec fn unread_item_v() -> ItemV {
    ItemV::ExprAs(
        ExprV::Coalesce(
            seq![col_v(Ident::Alias(Alias::UcAgg), Ident::Alias(Alias::UnreadCount)), ExprV::Custom(CustomSql::Zero)],
        ),
        Ident::Alias(Alias::UnreadCount),
    )
}

/// `LEFT JOIN (<unread counts>) AS uc_agg ON uc_agg.id = subscriptions.id`.
pub open spec fn unread_join_v() -> JoinV {
    JoinV {
        kind: JoinKind::Left,
        target: TargetV::Subquery(Box::new(unread_counts_v(seq![])), Ident::Alias(Alias::UcAgg)),
        on: bin_v(
            col_v(Ident::Alias(Alias::UcAgg), Ident::Subscription(Subscription::Id)),
            BinOp::Eq,
            subscription_col(Subscription::Id),
        ),
    }
}

/// The tags of each subscription, joined from `subscription_tags`.
pub open spec fn subscription_tags_join_v(dialect: Dialect) -> JoinV {
    tags_join_v(
        Ident::SubscriptionTag(SubscriptionTag::Table),
        Ident::SubscriptionTag(SubscriptionTag::SubscriptionId),
        Ident::SubscriptionTag(SubscriptionTag::TagId),
        Ident::Subscription(Subscription::Table),
        Ident::Subscription(Subscription::Id),
        dialect,
    )
}

/// `(title, id) > (cursor title, cursor id)`.
pub open spec fn subscription_after_v(c: (&str, u128)) -> ExprV {
    bin_v(
        ExprV::Tuple(seq![bare_v(Ident::Subscription(Subscription::Title)), bare_v(Ident::Subscription(Subscription::Id))]),
        BinOp::Gt,
        ExprV::Tuple(seq![text_v(c.0@), uuid_v(c.1)]),
    )
}

/// The conditions of a subscription listing.
pub open spec fn subscription_conditions_v(p: SubscriptionSelect) -> Seq<ExprV> {
    when_v(p.id, |id: u128| bin_v(subscription_col(Subscription::Id), BinOp::Eq, uuid_v(id)))
        + when_v(
        opt_seq(p.feeds),
        |feeds: Seq<u128>| ExprV::In(Box::new(subscription_col(Subscription::FeedId)), uuid_values_v(feeds)),
    ) + when_v(
        p.user_id,
        |id: u128| bin_v(subscription_col(Subscription::UserId), BinOp::Eq, uuid_v(id)),
    ) + when_v(opt_seq(p.tags), |tags: Seq<u128>| subscription_has_tags_v(tags)) + when_v(
        p.cursor,
        |c: (&str, u128)| subscription_after_v(c),
    )
}

/// The order of a subscription listing: by title, then by id.
pub open spec fn subscription_order_v() -> Seq<(ColumnRef, Order)> {
    seq![
        (ColumnRef::TableCol(Ident::Subscription(Subscription::Table), Ident::Subscription(Subscription::Title)), Order::Asc),
        (ColumnRef::TableCol(Ident::Subscription(Subscription::Table), Ident::Subscription(Subscription::Id)), Order::Asc),
    ]
}

/// `SELECT subscriptions.*` where each given filter holds, by title then id
/// after the cursor, with the feed, unread count and tags where asked.
pub open spec fn subscription_select_v(p: SubscriptionSelect) -> SelectV {
    SelectV {
        items: seq![ItemV::Column(ColumnRef::TableAll(Ident::Subscription(Subscription::Table)))] + (if p.with_feed {
            feed_items_v()
        } else {
            seq![]
        }) + only_if(p.with_unread_count, unread_item_v()) + only_if(p.with_tags, tags_item_v()),
        joins: only_if(p.with_feed, feed_join_v()) + only_if(p.with_unread_count, unread_join_v()) + only_if(
            p.with_tags,
            subscription_tags_join_v(p.dialect),
        ),
        conditions: subscription_conditions_v(p),
        order_by: subscription_order_v(),
        limit: p.limit,
        ..empty_select_v(Ident::Subscription(Subscription::Table))
    }
}

/// What a subscription listing compares: the subscription by its own id, the
/// feeds by the subscription's feed id, the owner by the subscription's user
/// id, and, after a cursor, the subscriptions whose (title, id) comes after it;
/// nothing else is compared than what was given. The listing is by title, then
/// by id, both ascending, and at most `limit` long; asked for the feed, it
/// joins each subscription's own feed.
pub proof fn subscription_listing_conditions(p: SubscriptionSelect)
    ensures
        p.id is Some ==> subscription_select_v(p).conditions.contains(
            column_equals_uuid(
                Ident::Subscription(Subscription::Table),
                Ident::Subscription(Subscription::Id),
                p.id->Some_0,
            ),
        ),
        p.feeds is Some ==> subscription_select_v(p).conditions.contains(
            ExprV::In(
                Box::new(ExprV::Column(ColumnRef::TableCol(Ident::Subscription(Subscription::Table), Ident::Subscription(Subscription::FeedId)))),
                p.feeds->Some_0@.map_values(|u: u128| ValueV::Uuid(Some(u))),
            ),
        ),
        p.user_id is Some ==> subscription_select_v(p).conditions.contains(
            column_equals_uuid(
                Ident::Subscription(Subscription::Table),
                Ident::Subscription(Subscription::UserId),
                p.user_id->Some_0,
            ),
        ),
        p.cursor is Some ==> subscription_select_v(p).conditions.contains(
            ExprV::Binary(
                Box::new(ExprV::Tuple(seq![
                    ExprV::Column(ColumnRef::Col(Ident::Subscription(Subscription::Title))),
                    ExprV::Column(ColumnRef::Col(Ident::Subscription(Subscription::Id))),
                ])),
                BinOp::Gt,
                Box::new(ExprV::Tuple(seq![
                    ExprV::Value(ValueV::Text(Some(p.cursor->Some_0.0@))),
                    ExprV::Value(ValueV::Uuid(Some(p.cursor->Some_0.1))),
                ])),
            ),
        ),
        subscription_select_v(p).conditions.len() == (if p.id is Some { 1int } else { 0 })
            + (if p.feeds is Some { 1int } else { 0 }) + (if p.user_id is Some { 1int } else { 0 })
            + (if p.tags is Some { 1int } else { 0 }) + (if p.cursor is Some { 1int } else { 0 }),
        subscription_select_v(p).order_by == seq![
            (ColumnRef::TableCol(Ident::Subscription(Subscription::Table), Ident::Subscription(Subscription::Title)), Order::Asc),
            (ColumnRef::TableCol(Ident::Subscription(Subscription::Table), Ident::Subscription(Subscription::Id)), Order::Asc),
        ],
        subscription_select_v(p).limit == p.limit,
        p.with_feed ==> subscription_select_v(p).joins.contains(
            JoinV {
                kind: JoinKind::Inner,
                target: TargetV::Table(Ident::Feed(Feed::Table)),
                on: ExprV::Binary(
                    Box::new(ExprV::Column(ColumnRef::TableCol(Ident::Feed(Feed::Table), Ident::Feed(Feed::Id)))),
                    BinOp::Eq,
                    Box::new(ExprV::Column(ColumnRef::TableCol(Ident::Subscription(Subscription::Table), Ident::Subscription(Subscription::FeedId)))),
                ),
            },
        ),
{
    let a = when_v(p.id, |id: u128| bin_v(subscription_col(Subscription::Id), BinOp::Eq, uuid_v(id)));
    let b = when_v(
        opt_seq(p.feeds),
        |feeds: Seq<u128>| ExprV::In(Box::new(subscription_col(Subscription::FeedId)), uuid_values_v(feeds)),
    );
    let c = when_v(p.user_id, |id: u128| bin_v(subscription_col(Subscription::UserId), BinOp::Eq, uuid_v(id)));
    let d = when_v(opt_seq(p.tags), |tags: Seq<u128>| subscription_has_tags_v(tags));
    let e = when_v(p.cursor, |c: (&str, u128)| subscription_after_v(c));
    assert(subscription_conditions_v(p) == a + b + c + d + e);
    if p.id is Some {
        lemma_contains_concat(a, b, a[0]);
        lemma_contains_concat(a + b, c, a[0]);
        lemma_contains_concat(a + b + c, d, a[0]);
        lemma_contains_concat(a + b + c + d, e, a[0]);
    }
    if p.feeds is Some {
        lemma_contains_concat(a, b, b[0]);
        lemma_contains_concat(a + b, c, b[0]);
        lemma_contains_concat(a + b + c, d, b[0]);
        lemma_contains_concat(a + b + c + d, e, b[0]);
    }
    if p.user_id is Some {
        lemma_contains_concat(a + b, c, c[0]);
        lemma_contains_concat(a + b + c, d, c[0]);
        lemma_contains_concat(a + b + c + d, e, c[0]);
    }
    if p.cursor is Some {
        lemma_contains_concat(a + b + c + d, e, e[0]);
    }
    if p.with_feed {
        let j = only_if(p.with_feed, feed_join_v()) + only_if(p.with_unread_count, unread_join_v());
        assert(only_if(p.with_feed, feed_join_v())[0] == feed_join_v());
        lemma_contains_concat(only_if(p.with_feed, feed_join_v()), only_if(p.with_unread_count, unread_join_v()), feed_join_v());
        lemma_contains_concat(j, only_if(p.with_tags, subscription_tags_join_v(p.dialect)), feed_join_v());
    }
}

/// The read condition of [`entry_read_v`].
pub fn entry_read() -> (r: SqlExpr)
    ensures
        r@ == entry_read_v(),
{
    let re = Ident::ReadEntry(ReadEntry::Table);
    let mut q = exists_subquery(re);
    q.and_where(cols_eq(re, Ident::ReadEntry(ReadEntry::FeedEntryId), Ident::FeedEntry(FeedEntry::Table), Ident::FeedEntry(FeedEntry::Id)));
    q.and_where(cols_eq(re, Ident::ReadEntry(ReadEntry::SubscriptionId), Ident::Subscription(Subscription::Table), Ident::Subscription(Subscription::Id)));
    proof {
        match entry_read_v() {
            ExprV::Exists(b) => lemma_select_eq(q@, *b),
            _ => {},
        }
    }
    SqlExpr::Exists(Box::new(q))
}

/// The tag condition of [`subscription_has_tags_v`].
pub fn subscription_has_tags(tags: &Vec<u128>) -> (r: SqlExpr)
    ensures
        r@ == subscription_has_tags_v(tags@),
{
    let st = Ident::SubscriptionTag(SubscriptionTag::Table);
    let mut q = exists_subquery(st);
    q.and_where(cols_eq(st, Ident::SubscriptionTag(SubscriptionTag::SubscriptionId), Ident::Subscription(Subscription::Table), Ident::Subscription(Subscription::Id)));
    q.and_where(in_uuids(col(st, Ident::SubscriptionTag(SubscriptionTag::TagId)), tags));
    proof {
        match subscription_has_tags_v(tags@) {
            ExprV::Exists(b) => lemma_select_eq(q@, *b),
            _ => {},
        }
    }
    SqlExpr::Exists(Box::new(q))
}

/// The condition that narrows the unread counts, where there is one.
pub open spec fn narrowing_v(narrowing: Option<SqlExpr>) -> Seq<ExprV> {
    match narrowing {
        Some(e) => seq![e@],
        None => seq![],
    }
}

/// The unread counts of [`unread_counts_v`], narrowed by `narrowing` where
/// given.
pub fn unread_counts(narrowing: Option<SqlExpr>) -> (r: SelectPlan)
    ensures
        r@ == unread_counts_v(narrowing_v(narrowing)),
{
    let fe = Ident::FeedEntry(FeedEntry::Table);
    let s = Ident::Subscription(Subscription::Table);
    let ghost n = narrowing_v(narrowing);
    let mut q = SelectPlan::new(fe);
    q.column(ColumnRef::TableCol(s, Ident::Subscription(Subscription::Id)));
    q.expr_as(count(col(fe, Ident::FeedEntry(FeedEntry::Id))), Ident::Alias(Alias::UnreadCount));
    q.join(JoinKind::Inner, JoinTarget::Table(s), cols_eq(s, Ident::Subscription(Subscription::FeedId), fe, Ident::FeedEntry(FeedEntry::FeedId)));
    if let Some(e) = narrowing {
        q.and_where(e);
    }
    q.and_where(not(entry_read()));
    q.group_by_col(ColumnRef::TableCol(s, Ident::Subscription(Subscription::Id)));
    proof {
        lemma_select_eq(q@, unread_counts_v(n));
    }
    q
}

fn add_feed(q: &mut SelectPlan)
    ensures
        final(q)@ == (SelectV {
            items: old(q)@.items + feed_items_v(),
            joins: old(q)@.joins.push(feed_join_v()),
            ..old(q)@
        }),
{
    let f = Ident::Feed(Feed::Table);
    q.column(ColumnRef::TableCol(f, Ident::Feed(Feed::SourceUrl)));
    q.column(ColumnRef::TableCol(f, Ident::Feed(Feed::Link)));
    q.column(ColumnRef::TableCol(f, Ident::Feed(Feed::Description)));
    q.column(ColumnRef::TableCol(f, Ident::Feed(Feed::RefreshedAt)));
    q.column(ColumnRef::TableCol(f, Ident::Feed(Feed::IsCustom)));
    q.expr_as(col(f, Ident::Feed(Feed::Title)), Ident::Alias(Alias::FeedTitle));
    q.join(
        JoinKind::Inner,
        JoinTarget::Table(f),
        cols_eq(f, Ident::Feed(Feed::Id), Ident::Subscription(Subscription::Table), Ident::Subscription(Subscription::FeedId)),
    );
    proof {
        lemma_select_eq(
            q@,
            SelectV { items: old(q)@.items + feed_items_v(), joins: old(q)@.joins.push(feed_join_v()), ..old(q)@ },
        );
    }
}

fn add_unread_count(q: &mut SelectPlan)
    ensures
        final(q)@ == (SelectV {
            items: old(q)@.items.push(unread_item_v()),
            joins: old(q)@.joins.push(unread_join_v()),
            ..old(q)@
        }),
{
    q.expr_as(
        coalesce(col(Ident::Alias(Alias::UcAgg), Ident::Alias(Alias::UnreadCount)), custom(CustomSql::Zero)),
        Ident::Alias(Alias::UnreadCount),
    );
    let sub = unread_counts(None);
    q.join(
        JoinKind::Left,
        JoinTarget::Subquery(Box::new(sub), Ident::Alias(Alias::UcAgg)),
        cols_eq(
            Ident::Alias(Alias::UcAgg),
            Ident::Subscription(Subscription::Id),
            Ident::Subscription(Subscription::Table),
            Ident::Subscription(Subscription::Id),
        ),
    );
    proof {
        lemma_select_eq(
            q@,
            SelectV { items: old(q)@.items.push(unread_item_v()), joins: old(q)@.joins.push(unread_join_v()), ..old(q)@ },
        );
    }
}

fn add_tags(q: &mut SelectPlan, dialect: Dialect)
    ensures
        final(q)@ == (SelectV {
            items: old(q)@.items.push(tags_item_v()),
            joins: old(q)@.joins.push(subscription_tags_join_v(dialect)),
            ..old(q)@
        }),
{
    q.expr_as(tags_expr(), Ident::Alias(Alias::Tags));
    let (target, on) = tags_join(
        Ident::SubscriptionTag(SubscriptionTag::Table),
        Ident::SubscriptionTag(SubscriptionTag::SubscriptionId),
        Ident::SubscriptionTag(SubscriptionTag::TagId),
        Ident::Subscription(Subscription::Table),
        Ident::Subscription(Subscription::Id),
        dialect,
    );
    q.join(JoinKind::Left, target, on);
    proof {
        lemma_select_eq(
            q@,
            SelectV {
                items: old(q)@.items.push(tags_item_v()),
                joins: old(q)@.joins.push(subscription_tags_join_v(dialect)),
                ..old(q)@
            },
        );
    }
}

fn subscription_after(title: &str, id: u128) -> (r: SqlExpr)
    ensures
        r@ == subscription_after_v((title, id)),
{
    bin(
        tuple(bare(Ident::Subscription(Subscription::Title)), bare(Ident::Subscription(Subscription::Id))),
        BinOp::Gt,
        tuple(text(title), uuid(id)),
    )
}

/// The subscriptions of a listing, before what it brings along.
fn subscription_base(p: &SubscriptionSelect) -> (r: SelectPlan)
    ensures
        r@ == (SelectV {
            items: seq![ItemV::Column(ColumnRef::TableAll(Ident::Subscription(Subscription::Table)))],
            conditions: subscription_conditions_v(*p),
            order_by: subscription_order_v(),
            ..empty_select_v(Ident::Subscription(Subscription::Table))
        }),
{
    let s = Ident::Subscription(Subscription::Table);
    let mut q = SelectPlan::new(s);
    q.column(ColumnRef::TableAll(s));
    if let Some(id) = p.id {
        q.and_where(bin(col(s, Ident::Subscription(Subscription::Id)), BinOp::Eq, uuid(id)));
    }
    if let Some(feeds) = &p.feeds {
        q.and_where(in_uuids(col(s, Ident::Subscription(Subscription::FeedId)), feeds));
    }
    if let Some(id) = p.user_id {
        q.and_where(bin(col(s, Ident::Subscription(Subscription::UserId)), BinOp::Eq, uuid(id)));
    }
    if let Some(tags) = &p.tags {
        q.and_where(subscription_has_tags(tags));
    }
    if let Some((title, id)) = p.cursor {
        q.and_where(subscription_after(title, id));
    }
    q.order_by(ColumnRef::TableCol(s, Ident::Subscription(Subscription::Title)), Order::Asc);
    q.order_by(ColumnRef::TableCol(s, Ident::Subscription(Subscription::Id)), Order::Asc);
    proof {
        lemma_select_eq(
            q@,
            SelectV {
                items: seq![ItemV::Column(ColumnRef::TableAll(Ident::Subscription(Subscription::Table)))],
                conditions: subscription_conditions_v(*p),
                order_by: subscription_order_v(),
                ..empty_select_v(Ident::Subscription(Subscription::Table))
            },
        );
    }
    q
}

impl<'a> IntoSelect for SubscriptionSelect<'a> {
    fn into_select(self) -> (r: SelectPlan)
        ensures
            r@ == subscription_select_v(self),
    {
        let mut q = subscription_base(&self);
        if self.with_feed {
            add_feed(&mut q);
        }
        if self.with_unread_count {
            add_unread_count(&mut q);
        }
        if self.with_tags {
            add_tags(&mut q, self.dialect);
        }
        if let Some(l) = self.limit {
            q.limit(l);
        }
        proof {
            lemma_select_eq(q@, subscription_select_v(self));
        }
        q
    }
}

/// A subscription to store.
#[derive(Debug)]
pub struct SubscriptionBase<'a> {
    pub id: u128,
    pub title: &'a str,
    pub description: Option<&'a str>,
    pub feed_id: u128,
    pub created_at: UtcDateTime,
    pub updated_at: UtcDateTime,
}

/// Subscriptions to store for a user; an upsert matches a stored subscription
/// by user and feed and returns the ids, otherwise the match is by id.
#[derive(Debug)]
pub struct SubscriptionInsert<'a> {
    pub subscriptions: Vec<SubscriptionBase<'a>>,
    pub user_id: u128,
    pub upsert: bool,
}

/// The row of a subscription.
pub open spec fn subscription_row(s: SubscriptionBase, user_id: u128) -> Seq<ValueV> {
    seq![
        ValueV::Uuid(Some(s.id)),
        ValueV::Text(Some(s.title@)),
        ValueV::Text(opt_str(s.description)),
        ValueV::Uuid(Some(s.feed_id)),
        ValueV::Uuid(Some(user_id)),
        ValueV::DateTime(Some(s.created_at)),
        ValueV::DateTime(Some(s.updated_at)),
    ]
}

/// The conflict clause of a subscription insert.
pub open spec fn subscription_conflict_v(upsert: bool) -> ConflictV {
    if upsert {
        ConflictV {
            columns: seq![Ident::Subscription(Subscription::UserId), Ident::Subscription(Subscription::FeedId)],
            action: ActionV::Update(
                seq![
                    Ident::Subscription(Subscription::Title),
                    Ident::Subscription(Subscription::Description),
                    Ident::Subscription(Subscription::UpdatedAt),
                ],
            ),
        }
    } else {
        ConflictV {
            columns: seq![Ident::Subscription(Subscription::Id)],
            action: ActionV::Update(seq![Ident::Subscription(Subscription::Title), Ident::Subscription(Subscription::UpdatedAt)]),
        }
    }
}

/// The insert of the subscriptions, one row each in order.
pub open spec fn subscription_insert_v(i: SubscriptionInsert) -> InsertV {
    InsertV {
        table: Some(Ident::Subscription(Subscription::Table)),
        columns: seq![
            Ident::Subscription(Subscription::Id),
            Ident::Subscription(Subscription::Title),
            Ident::Subscription(Subscription::Description),
            Ident::Subscription(Subscription::FeedId),
            Ident::Subscription(Subscription::UserId),
            Ident::Subscription(Subscription::CreatedAt),
            Ident::Subscription(Subscription::UpdatedAt),
        ],
        rows: i.subscriptions@.map_values(|s: SubscriptionBase| subscription_row(s, i.user_id)),
        on_conflict: Some(subscription_conflict_v(i.upsert)),
        returning: if i.upsert {
            Some(Ident::Subscription(Subscription::Id))
        } else {
            None
        },
    }
}

fn subscription_conflict(upsert: bool) -> (r: OnConflict)
    ensures
        crate::plan::conflict_v(r) == subscription_conflict_v(upsert),
{
    if upsert {
        let columns = vec![Ident::Subscription(Subscription::UserId), Ident::Subscription(Subscription::FeedId)];
        let update = vec![
            Ident::Subscription(Subscription::Title),
            Ident::Subscription(Subscription::Description),
            Ident::Subscription(Subscription::UpdatedAt),
        ];
        assert(columns@ =~= subscription_conflict_v(upsert).columns);
        let r = on_conflict_update(columns, update);
        assert(crate::plan::conflict_v(r) =~~= subscription_conflict_v(upsert));
        r
    } else {
        let columns = vec![Ident::Subscription(Subscription::Id)];
        let update = vec![Ident::Subscription(Subscription::Title), Ident::Subscription(Subscription::UpdatedAt)];
        assert(columns@ =~= subscription_conflict_v(upsert).columns);
        let r = on_conflict_update(columns, update);
        assert(crate::plan::conflict_v(r) =~~= subscription_conflict_v(upsert));
        r
    }
}

impl<'a> IntoInsert for SubscriptionInsert<'a> {
    fn into_insert(self) -> (r: InsertPlan)
        ensures
            r@ == subscription_insert_v(self),
            crate::plan::rows_fit(r@),
    {
        let conflict = subscription_conflict(self.upsert);
        let returning = if self.upsert {
            Some(Ident::Subscription(Subscription::Id))
        } else {
            None
        };
        let mut q = InsertPlan {
            table: Some(Ident::Subscription(Subscription::Table)),
            columns: vec![
                Ident::Subscription(Subscription::Id),
                Ident::Subscription(Subscription::Title),
                Ident::Subscription(Subscription::Description),
                Ident::Subscription(Subscription::FeedId),
                Ident::Subscription(Subscription::UserId),
                Ident::Subscription(Subscription::CreatedAt),
                Ident::Subscription(Subscription::UpdatedAt),
            ],
            rows: Vec::new(),
            on_conflict: Some(conflict),
            returning,
        };
        assert(q@.rows =~= seq![]);
        let subs = &self.subscriptions;
        let user_id = self.user_id;
        let ghost head = q@;
        let mut i: usize = 0;
        while i < subs.len()
            invariant
                i <= subs@.len(),
                q@ == (InsertV {
                    rows: subs@.subrange(0, i as int).map_values(|s: SubscriptionBase| subscription_row(s, user_id)),
                    ..head
                }),
            decreases subs.len() - i,
        {
            let s = &subs[i];
            let row = vec![
                SqlValue::Uuid(Some(s.id)),
                SqlValue::Text(Some(text_of(s.title))),
                SqlValue::Text(opt_string(s.description)),
                SqlValue::Uuid(Some(s.feed_id)),
                SqlValue::Uuid(Some(user_id)),
                SqlValue::DateTime(Some(s.created_at)),
                SqlValue::DateTime(Some(s.updated_at)),
            ];
            q.values(row);
            proof {
                assert(values_v(row@) =~= subscription_row(*s, user_id));
                assert(subs@.subrange(0, i + 1).map_values(|s: SubscriptionBase| subscription_row(s, user_id))
                    =~= subs@.subrange(0, i as int).map_values(|s: SubscriptionBase| subscription_row(s, user_id)).push(
                    subscription_row(*s, user_id),
                ));
            }
            i = i + 1;
        }
        assert(subs@.subrange(0, subs@.len() as int) =~= subs@);
        proof {
            lemma_insert_eq(q@, subscription_insert_v(self));
        }
        q
    }
}

/// The subscriptions to delete: by id, by user, or both. With neither, every
/// subscription.
#[derive(Debug)]
pub struct SubscriptionDelete {
    pub id: Option<u128>,
    pub user_id: Option<u128>,
}

impl Default for SubscriptionDelete {
    fn default() -> (r: Self)
        ensures
            r.id is None,
            r.user_id is None,
    {
        SubscriptionDelete { id: None, user_id: None }
    }
}

/// `DELETE FROM subscriptions` where the given id and user match.
pub open spec fn subscription_delete_v(d: SubscriptionDelete) -> DeleteV {
    DeleteV {
        table: Ident::Subscription(Subscription::Table),
        conditions: when_v(d.id, |id: u128| bin_v(bare_v(Ident::Subscription(Subscription::Id)), BinOp::Eq, uuid_v(id)))
            + when_v(
            d.user_id,
            |id: u128| bin_v(bare_v(Ident::Subscription(Subscription::UserId)), BinOp::Eq, uuid_v(id)),
        ),
    }
}

/// A subscription deletion removes the subscription with the given id, of the
/// given owner, each where given, and compares nothing else.
pub proof fn subscription_delete_conditions(d: SubscriptionDelete)
    ensures
        subscription_delete_v(d).table == Ident::Subscription(Subscription::Table),
        d.id is Some ==> subscription_delete_v(d).conditions.contains(
            bare_column_compared(Ident::Subscription(Subscription::Id), BinOp::Eq, ValueV::Uuid(d.id)),
        ),
        d.user_id is Some ==> subscription_delete_v(d).conditions.contains(
            bare_column_compared(Ident::Subscription(Subscription::UserId), BinOp::Eq, ValueV::Uuid(d.user_id)),
        ),
        subscription_delete_v(d).conditions.len() == (if d.id is Some { 1int } else { 0 })
            + (if d.user_id is Some { 1int } else { 0 }),
{
    let a = when_v(d.id, |id: u128| bin_v(bare_v(Ident::Subscription(Subscription::Id)), BinOp::Eq, uuid_v(id)));
    let b = when_v(d.user_id, |id: u128| bin_v(bare_v(Ident::Subscription(Subscription::UserId)), BinOp::Eq, uuid_v(id)));
    if d.id is Some {
        lemma_contains_concat(a, b, a[0]);
    }
    if d.user_id is Some {
        lemma_contains_concat(a, b, b[0]);
    }
}

impl IntoDelete for SubscriptionDelete {
    fn into_delete(self) -> (r: DeletePlan)
        ensures
            r@ == subscription_delete_v(self),
    {
        let mut q = DeletePlan::new(Ident::Subscription(Subscription::Table));
        if let Some(id) = self.id {
            q.and_where(bin(bare(Ident::Subscription(Subscription::Id)), BinOp::Eq, uuid(id)));
        }
        if let Some(id) = self.user_id {
            q.and_where(bin(bare(Ident::Subscription(Subscription::UserId)), BinOp::Eq, uuid(id)));
        }
        assert(q@.conditions =~= subscription_delete_v(self).conditions);
        q
    }
}

} // verus!
