//! Tags: labels that a user puts on bookmarks and subscriptions.

use vstd::prelude::*;

use crate::plan::{
    bare_column_compared, column_compared, lemma_contains_concat,
    bare, bare_v, bin, bin_v, col, col_v, cols_eq, count, empty_select_v, in_texts, in_uuids,
    int_v, integer, lemma_insert_eq, lemma_select_eq, on_conflict_update, opt_seq, str_texts, text,
    text_of, text_v, text_values_v, uuid, uuid_v, uuid_values_v, values_v, when_v, ActionV, Alias,
    BinOp, ColumnRef, ConflictV, DeletePlan, DeleteV, ExprV, Ident, InsertPlan, InsertV, ItemV,
    JoinKind, JoinTarget, JoinV, OnConflict, Order, SelectPlan, SelectV, SqlValue, TargetV, ValueV,
};
use crate::query::{IntoDelete, IntoInsert, IntoSelect};
use crate::schema::{BookmarkTag, SubscriptionTag, Tag};
use crate::time::UtcDateTime;

verus! {

/// What a tag is used on.
#[derive(Clone, Copy, Debug, PartialEq, Eq, Structural)]
pub enum TagType {
    Bookmarks,
    Feeds,
}

/// The filters of a tag listing; the cursor is the title of the last tag seen.
/// A tag type keeps only the tags in use on that kind of item.
#[derive(Debug)]
pub struct TagSelect<'a> {
    pub ids: Option<Vec<u128>>,
    pub titles: Option<Vec<&'a str>>,
    pub tag_type: Option<TagType>,
    pub feed_id: Option<u128>,
    pub bookmark_id: Option<u128>,
    pub user_id: Option<u128>,
    pub cursor: Option<&'a str>,
    pub limit: Option<u64>,
    pub with_subscription_count: bool,
    pub with_bookmark_count: bool,
}

impl<'a> Default for TagSelect<'a> {
    fn default() -> (r: Self)
        ensures
            r.ids is None,
            r.titles is None,
            r.tag_type is None,
            r.feed_id is None,
            r.bookmark_id is None,
            r.user_id is None,
            r.cursor is None,
            r.limit is None,
            !r.with_subscription_count,
            !r.with_bookmark_count,
    {
        TagSelect {
            ids: None,
            titles: None,
            tag_type: None,
            feed_id: None,
            bookmark_id: None,
            user_id: None,
            cursor: None,
            limit: None,
            with_subscription_count: false,
            with_bookmark_count: false,
        }
    }
}

/// A tag column.
pub open spec fn tag_col(c: Tag) -> ExprV {
    col_v(Ident::Tag(Tag::Table), Ident::Tag(c))
}

/// Whether a listing counts the subscriptions of each tag.
pub open spec fn counts_subscriptions(p: TagSelect) -> bool {
    p.with_subscription_count || p.tag_type == Some(TagType::Feeds)
}

/// Whether a listing counts the bookmarks of each tag.
pub open spec fn counts_bookmarks(p: TagSelect) -> bool {
    p.with_bookmark_count || p.tag_type == Some(TagType::Bookmarks)
}

/// `COUNT(subscription_tags.subscription_id) AS subscription_count`.
pub open spec fn subscription_count_item() -> ItemV {
    ItemV::ExprAs(
        ExprV::Count(
            Box::new(
                col_v(Ident::SubscriptionTag(SubscriptionTag::Table), Ident::SubscriptionTag(SubscriptionTag::SubscriptionId)),
            ),
        ),
        Ident::Alias(Alias::SubscriptionCount),
    )
}

/// `COUNT(bookmark_tags.bookmark_id) AS bookmark_count`.
pub open spec fn bookmark_count_item() -> ItemV {
    ItemV::ExprAs(
        ExprV::Count(
            Box::new(col_v(Ident::BookmarkTag(BookmarkTag::Table), Ident::BookmarkTag(BookmarkTag::BookmarkId))),
        ),
        Ident::Alias(Alias::BookmarkCount),
    )
}

/// `LEFT JOIN subscription_tags ON subscription_tags.tag_id = tags.id`.
pub open spec fn subscription_tags_join() -> JoinV {
    JoinV {
        kind: JoinKind::Left,
        target: TargetV::Table(Ident::SubscriptionTag(SubscriptionTag::Table)),
        on: bin_v(
            col_v(Ident::SubscriptionTag(SubscriptionTag::Table), Ident::SubscriptionTag(SubscriptionTag::TagId)),
            BinOp::Eq,
            tag_col(Tag::Id),
        ),
    }
}

/// `LEFT JOIN bookmark_tags ON bookmark_tags.tag_id = tags.id`.
pub open spec fn bookmark_tags_join() -> JoinV {
    JoinV {
        kind: JoinKind::Left,
        target: TargetV::Table(Ident::BookmarkTag(BookmarkTag::Table)),
        on: bin_v(
            col_v(Ident::BookmarkTag(BookmarkTag::Table), Ident::BookmarkTag(BookmarkTag::TagId)),
            BinOp::Eq,
            tag_col(Tag::Id),
        ),
    }
}

/// The sequence holding `x` where `b` holds, and nothing otherwise.
pub open spec fn only_if<A>(b: bool, x: A) -> Seq<A> {
    if b {
        seq![x]
    } else {
        seq![]
    }
}

/// `SELECT tags.*` where each given filter holds, oldest first, with the
/// counts asked for (or that the tag type needs), grouped by tag where
/// anything is counted, and kept only where the type's count is positive.
pub open spec fn tag_select_v(p: TagSelect) -> SelectV {
    SelectV {
        items: seq![ItemV::Column(ColumnRef::TableAll(Ident::Tag(Tag::Table)))] + only_if(
            counts_subscriptions(p),
            subscription_count_item(),
        ) + only_if(counts_bookmarks(p), bookmark_count_item()),
        joins: only_if(counts_subscriptions(p), subscription_tags_join()) + only_if(
            counts_bookmarks(p),
            bookmark_tags_join(),
        ),
        conditions: when_v(
            opt_seq(p.ids),
            |ids: Seq<u128>| ExprV::In(Box::new(tag_col(Tag::Id)), uuid_values_v(ids)),
        ) + when_v(
            opt_seq(p.titles),
            |ts: Seq<&str>| ExprV::In(Box::new(tag_col(Tag::Title)), text_values_v(str_texts(ts))),
        ) + when_v(p.user_id, |id: u128| bin_v(tag_col(Tag::UserId), BinOp::Eq, uuid_v(id))) + when_v(
            crate::query::account::opt_str(p.cursor),
            |c: Seq<char>| bin_v(tag_col(Tag::Title), BinOp::Gt, text_v(c)),
        ),
        group_by: only_if(
            p.with_subscription_count || p.with_bookmark_count || p.tag_type is Some,
            ColumnRef::TableCol(Ident::Tag(Tag::Table), Ident::Tag(Tag::Id)),
        ),
        having: match p.tag_type {
            Some(TagType::Feeds) => seq![
                bin_v(bare_v(Ident::Alias(Alias::SubscriptionCount)), BinOp::Gt, int_v(0)),
            ],
            Some(TagType::Bookmarks) => seq![
                bin_v(bare_v(Ident::Alias(Alias::BookmarkCount)), BinOp::Gt, int_v(0)),
            ],
            None => seq![],
        },
        order_by: seq![(ColumnRef::TableCol(Ident::Tag(Tag::Table), Ident::Tag(Tag::CreatedAt)), Order::Asc)],
        limit: p.limit,
        ..empty_select_v(Ident::Tag(Tag::Table))
    }
}

/// What a tag listing compares: the tags whose id is one of those given, whose
/// title is one of those given, the owner by the tag's user id, and, after a
/// cursor, the titles that come after it; nothing else. The listing is oldest
/// first and at most `limit` long.
pub proof fn tag_listing_conditions(p: TagSelect)
    ensures
        p.ids is Some ==> tag_select_v(p).conditions.contains(
            ExprV::In(
                Box::new(ExprV::Column(ColumnRef::TableCol(Ident::Tag(Tag::Table), Ident::Tag(Tag::Id)))),
                p.ids->Some_0@.map_values(|u: u128| ValueV::Uuid(Some(u))),
            ),
        ),
        p.titles is Some ==> tag_select_v(p).conditions.contains(
            ExprV::In(
                Box::new(ExprV::Column(ColumnRef::TableCol(Ident::Tag(Tag::Table), Ident::Tag(Tag::Title)))),
                p.titles->Some_0@.map_values(|t: &str| ValueV::Text(Some(t@))),
            ),
        ),
        p.user_id is Some ==> tag_select_v(p).conditions.contains(
            column_compared(Ident::Tag(Tag::Table), Ident::Tag(Tag::UserId), BinOp::Eq, ValueV::Uuid(p.user_id)),
        ),
        p.cursor is Some ==> tag_select_v(p).conditions.contains(
            column_compared(
                Ident::Tag(Tag::Table),
                Ident::Tag(Tag::Title),
                BinOp::Gt,
                ValueV::Text(Some(p.cursor->Some_0@)),
            ),
        ),
        tag_select_v(p).conditions.len() == (if p.ids is Some { 1int } else { 0 })
            + (if p.titles is Some { 1int } else { 0 }) + (if p.user_id is Some { 1int } else { 0 })
            + (if p.cursor is Some { 1int } else { 0 }),
        tag_select_v(p).order_by == seq![
            (ColumnRef::TableCol(Ident::Tag(Tag::Table), Ident::Tag(Tag::CreatedAt)), Order::Asc),
        ],
        tag_select_v(p).limit == p.limit,
{
    let a = when_v(opt_seq(p.ids), |ids: Seq<u128>| ExprV::In(Box::new(tag_col(Tag::Id)), uuid_values_v(ids)));
    let b = when_v(
        opt_seq(p.titles),
        |ts: Seq<&str>| ExprV::In(Box::new(tag_col(Tag::Title)), text_values_v(str_texts(ts))),
    );
    let c = when_v(p.user_id, |id: u128| bin_v(tag_col(Tag::UserId), BinOp::Eq, uuid_v(id)));
    let d = when_v(
        crate::query::account::opt_str(p.cursor),
        |c: Seq<char>| bin_v(tag_col(Tag::Title), BinOp::Gt, text_v(c)),
    );
    assert(tag_select_v(p).conditions == a + b + c + d);
    if p.ids is Some {
        assert(uuid_values_v(p.ids->Some_0@) =~= p.ids->Some_0@.map_values(|u: u128| ValueV::Uuid(Some(u))));
        lemma_contains_concat(a, b, a[0]);
        lemma_contains_concat(a + b, c, a[0]);
        lemma_contains_concat(a + b + c, d, a[0]);
    }
    if p.titles is Some {
        let ts = p.titles->Some_0@;
        assert(text_values_v(str_texts(ts)) =~= ts.map_values(|t: &str| ValueV::Text(Some(t@))));
        lemma_contains_concat(a, b, b[0]);
        lemma_contains_concat(a + b, c, b[0]);
        lemma_contains_concat(a + b + c, d, b[0]);
    }
    if p.user_id is Some {
        lemma_contains_concat(a + b, c, c[0]);
        lemma_contains_concat(a + b + c, d, c[0]);
    }
    if p.cursor is Some {
        lemma_contains_concat(a + b + c, d, d[0]);
    }
}

/// Counts the subscriptions and bookmarks of each tag where asked.
fn add_tag_counts(q: &mut SelectPlan, subscriptions: bool, bookmarks: bool)
    ensures
        final(q)@ == (SelectV {
            items: old(q)@.items + only_if(subscriptions, subscription_count_item()) + only_if(
                bookmarks,
                bookmark_count_item(),
            ),
            joins: old(q)@.joins + only_if(subscriptions, subscription_tags_join()) + only_if(
                bookmarks,
                bookmark_tags_join(),
            ),
            ..old(q)@
        }),
{
    let t = Ident::Tag(Tag::Table);
    let st = Ident::SubscriptionTag(SubscriptionTag::Table);
    let bt = Ident::BookmarkTag(BookmarkTag::Table);
    if subscriptions {
        q.expr_as(
            count(col(st, Ident::SubscriptionTag(SubscriptionTag::SubscriptionId))),
            Ident::Alias(Alias::SubscriptionCount),
        );
        q.join(
            JoinKind::Left,
            JoinTarget::Table(st),
            cols_eq(st, Ident::SubscriptionTag(SubscriptionTag::TagId), t, Ident::Tag(Tag::Id)),
        );
    }
    if bookmarks {
        q.expr_as(
            count(col(bt, Ident::BookmarkTag(BookmarkTag::BookmarkId))),
            Ident::Alias(Alias::BookmarkCount),
        );
        q.join(
            JoinKind::Left,
            JoinTarget::Table(bt),
            cols_eq(bt, Ident::BookmarkTag(BookmarkTag::TagId), t, Ident::Tag(Tag::Id)),
        );
    }
    proof {
        lemma_select_eq(
            q@,
            SelectV {
                items: old(q)@.items + only_if(subscriptions, subscription_count_item()) + only_if(
                    bookmarks,
                    bookmark_count_item(),
                ),
                joins: old(q)@.joins + only_if(subscriptions, subscription_tags_join()) + only_if(
                    bookmarks,
                    bookmark_tags_join(),
                ),
                ..old(q)@
            },
        );
    }
}

impl<'a> IntoSelect for TagSelect<'a> {
    fn into_select(self) -> (r: SelectPlan)
        ensures
            r@ == tag_select_v(self),
    {
        let t = Ident::Tag(Tag::Table);
        let mut q = SelectPlan::new(t);
        q.column(ColumnRef::TableAll(t));
        if let Some(ids) = &self.ids {
            q.and_where(in_uuids(col(t, Ident::Tag(Tag::Id)), ids));
        }
        if let Some(titles) = &self.titles {
            q.and_where(in_texts(col(t, Ident::Tag(Tag::Title)), titles));
        }
        if let Some(id) = self.user_id {
            q.and_where(bin(col(t, Ident::Tag(Tag::UserId)), BinOp::Eq, uuid(id)));
        }
        if let Some(c) = self.cursor {
            q.and_where(bin(col(t, Ident::Tag(Tag::Title)), BinOp::Gt, text(c)));
        }
        q.order_by(ColumnRef::TableCol(t, Ident::Tag(Tag::CreatedAt)), Order::Asc);
        let feeds = match self.tag_type {
            Some(TagType::Feeds) => true,
            _ => false,
        };
        let bookmarks = match self.tag_type {
            Some(TagType::Bookmarks) => true,
            _ => false,
        };
        add_tag_counts(&mut q, self.with_subscription_count || feeds, self.with_bookmark_count || bookmarks);
        if self.with_subscription_count || self.with_bookmark_count || self.tag_type.is_some() {
            q.group_by_col(ColumnRef::TableCol(t, Ident::Tag(Tag::Id)));
        }
        match self.tag_type {
            Some(TagType::Feeds) => {
                q.and_having(bin(bare(Ident::Alias(Alias::SubscriptionCount)), BinOp::Gt, integer(0)));
            },
            Some(TagType::Bookmarks) => {
                q.and_having(bin(bare(Ident::Alias(Alias::BookmarkCount)), BinOp::Gt, integer(0)));
            },
            None => {},
        }
        if let Some(l) = self.limit {
            q.limit(l);
        }
        proof {
            lemma_select_eq(q@, tag_select_v(self));
        }
        q
    }
}

/// `alias > 0` on a count computed under the name `alias`.
pub open spec fn count_positive(alias: Alias) -> ExprV {
    ExprV::Binary(
        Box::new(ExprV::Column(ColumnRef::Col(Ident::Alias(alias)))),
        BinOp::Gt,
        Box::new(ExprV::Value(ValueV::Int(Some(0)))),
    )
}

/// A tag type keeps exactly the tags in use on that kind of item: the listing
/// counts the links of each tag to that kind (joining its link table, grouping
/// by tag) and keeps only the groups whose count is greater than 0; without a
/// tag type no group is dropped.
pub proof fn tag_type_keeps_tags_in_use(p: TagSelect)
    ensures
        p.tag_type == Some(TagType::Bookmarks) ==> {
            let q = tag_select_v(p);
            &&& q.having == seq![count_positive(Alias::BookmarkCount)]
            &&& q.items.contains(
                ItemV::ExprAs(
                    ExprV::Count(
                        Box::new(
                            ExprV::Column(
                                ColumnRef::TableCol(
                                    Ident::BookmarkTag(BookmarkTag::Table),
                                    Ident::BookmarkTag(BookmarkTag::BookmarkId),
                                ),
                            ),
                        ),
                    ),
                    Ident::Alias(Alias::BookmarkCount),
                ),
            )
            &&& q.joins.contains(
                JoinV {
                    kind: JoinKind::Left,
                    target: TargetV::Table(Ident::BookmarkTag(BookmarkTag::Table)),
                    on: ExprV::Binary(
                        Box::new(ExprV::Column(ColumnRef::TableCol(Ident::BookmarkTag(BookmarkTag::Table), Ident::BookmarkTag(BookmarkTag::TagId)))),
                        BinOp::Eq,
                        Box::new(ExprV::Column(ColumnRef::TableCol(Ident::Tag(Tag::Table), Ident::Tag(Tag::Id)))),
                    ),
                },
            )
            &&& q.group_by == seq![ColumnRef::TableCol(Ident::Tag(Tag::Table), Ident::Tag(Tag::Id))]
        },
        p.tag_type == Some(TagType::Feeds) ==> {
            let q = tag_select_v(p);
            &&& q.having == seq![count_positive(Alias::SubscriptionCount)]
            &&& q.items.contains(
                ItemV::ExprAs(
                    ExprV::Count(
                        Box::new(
                            ExprV::Column(
                                ColumnRef::TableCol(
                                    Ident::SubscriptionTag(SubscriptionTag::Table),
                                    Ident::SubscriptionTag(SubscriptionTag::SubscriptionId),
                                ),
                            ),
                        ),
                    ),
                    Ident::Alias(Alias::SubscriptionCount),
                ),
            )
            &&& q.joins.contains(
                JoinV {
                    kind: JoinKind::Left,
                    target: TargetV::Table(Ident::SubscriptionTag(SubscriptionTag::Table)),
                    on: ExprV::Binary(
                        Box::new(ExprV::Column(ColumnRef::TableCol(Ident::SubscriptionTag(SubscriptionTag::Table), Ident::SubscriptionTag(SubscriptionTag::TagId)))),
                        BinOp::Eq,
                        Box::new(ExprV::Column(ColumnRef::TableCol(Ident::Tag(Tag::Table), Ident::Tag(Tag::Id)))),
                    ),
                },
            )
            &&& q.group_by == seq![ColumnRef::TableCol(Ident::Tag(Tag::Table), Ident::Tag(Tag::Id))]
        },
        p.tag_type is None ==> tag_select_v(p).having.len() == 0,
{
    let q = tag_select_v(p);
    let head = seq![ItemV::Column(ColumnRef::TableAll(Ident::Tag(Tag::Table)))];
    let si = only_if(counts_subscriptions(p), subscription_count_item());
    let bi = only_if(counts_bookmarks(p), bookmark_count_item());
    let sj = only_if(counts_subscriptions(p), subscription_tags_join());
    let bj = only_if(counts_bookmarks(p), bookmark_tags_join());
    if p.tag_type == Some(TagType::Bookmarks) {
        assert(bi[0] == bookmark_count_item());
        lemma_contains_concat(head + si, bi, bookmark_count_item());
        assert(bj[0] == bookmark_tags_join());
        lemma_contains_concat(sj, bj, bookmark_tags_join());
    }
    if p.tag_type == Some(TagType::Feeds) {
        assert(si[0] == subscription_count_item());
        lemma_contains_concat(head, si, subscription_count_item());
        lemma_contains_concat(head + si, bi, subscription_count_item());
        assert(sj[0] == subscription_tags_join());
        lemma_contains_concat(sj, bj, subscription_tags_join());
    }
}

/// A tag to store.
#[derive(Debug)]
pub struct TagBase<'a> {
    pub id: u128,
    pub title: &'a str,
    pub created_at: UtcDateTime,
    pub updated_at: UtcDateTime,
}

/// Tags to store for a user; an upsert matches a stored tag by user and title
/// and only touches its update time, otherwise the match is by id.
#[derive(Debug)]
pub struct TagInsert<'a> {
    pub tags: Vec<TagBase<'a>>,
    pub user_id: u128,
    pub upsert: bool,
}

/// The row of a tag.
pub open spec fn tag_row(t: TagBase, user_id: u128) -> Seq<ValueV> {
    seq![
        ValueV::Uuid(Some(t.id)),
        ValueV::Text(Some(t.title@)),
        ValueV::Uuid(Some(user_id)),
        ValueV::DateTime(Some(t.created_at)),
        ValueV::DateTime(Some(t.updated_at)),
    ]
}

/// The conflict clause of a tag insert.
pub open spec fn tag_conflict_v(upsert: bool) -> ConflictV {
    if upsert {
        ConflictV {
            columns: seq![Ident::Tag(Tag::UserId), Ident::Tag(Tag::Title)],
            action: ActionV::Update(seq![Ident::Tag(Tag::UpdatedAt)]),
        }
    } else {
        ConflictV {
            columns: seq![Ident::Tag(Tag::Id)],
            action: ActionV::Update(seq![Ident::Tag(Tag::Title), Ident::Tag(Tag::UpdatedAt)]),
        }
    }
}

fn tag_conflict(upsert: bool) -> (r: OnConflict)
    ensures
        crate::plan::conflict_v(r) == tag_conflict_v(upsert),
{
    if upsert {
        let columns = vec![Ident::Tag(Tag::UserId), Ident::Tag(Tag::Title)];
        let update = vec![Ident::Tag(Tag::UpdatedAt)];
        assert(columns@ =~= seq![Ident::Tag(Tag::UserId), Ident::Tag(Tag::Title)]);
        assert(update@ =~= seq![Ident::Tag(Tag::UpdatedAt)]);
        let r = on_conflict_update(columns, update);
        assert(crate::plan::conflict_v(r) =~~= tag_conflict_v(upsert));
        r
    } else {
        let r = on_conflict_update(
            vec![Ident::Tag(Tag::Id)],
            vec![Ident::Tag(Tag::Title), Ident::Tag(Tag::UpdatedAt)],
        );
        assert(crate::plan::conflict_v(r) =~~= tag_conflict_v(upsert));
        r
    }
}

/// The insert of the tags, one row each in order, returning their ids.
pub open spec fn tag_insert_v(i: TagInsert) -> InsertV {
    InsertV {
        table: Some(Ident::Tag(Tag::Table)),
        columns: seq![
            Ident::Tag(Tag::Id),
            Ident::Tag(Tag::Title),
            Ident::Tag(Tag::UserId),
            Ident::Tag(Tag::CreatedAt),
            Ident::Tag(Tag::UpdatedAt),
        ],
        rows: i.tags@.map_values(|t: TagBase| tag_row(t, i.user_id)),
        on_conflict: Some(tag_conflict_v(i.upsert)),
        returning: Some(Ident::Tag(Tag::Id)),
    }
}

impl<'a> IntoInsert for TagInsert<'a> {
    fn into_insert(self) -> (r: InsertPlan)
        ensures
            r@ == tag_insert_v(self),
            crate::plan::rows_fit(r@),
    {
        let conflict = tag_conflict(self.upsert);
        let mut q = InsertPlan {
            table: Some(Ident::Tag(Tag::Table)),
            columns: vec![
                Ident::Tag(Tag::Id),
                Ident::Tag(Tag::Title),
                Ident::Tag(Tag::UserId),
                Ident::Tag(Tag::CreatedAt),
                Ident::Tag(Tag::UpdatedAt),
            ],
            rows: Vec::new(),
            on_conflict: Some(conflict),
            returning: Some(Ident::Tag(Tag::Id)),
        };
        assert(q@.rows =~= seq![]);
        let tags = &self.tags;
        let user_id = self.user_id;
        let ghost head = q@;
        let mut i: usize = 0;
        while i < tags.len()
            invariant
                i <= tags@.len(),
                q@ == (InsertV {
                    rows: tags@.subrange(0, i as int).map_values(|t: TagBase| tag_row(t, user_id)),
                    ..head
                }),
            decreases tags.len() - i,
        {
            let t = &tags[i];
            let row = vec![
                SqlValue::Uuid(Some(t.id)),
                SqlValue::Text(Some(text_of(t.title))),
                SqlValue::Uuid(Some(user_id)),
                SqlValue::DateTime(Some(t.created_at)),
                SqlValue::DateTime(Some(t.updated_at)),
            ];
            q.values(row);
            proof {
                assert(values_v(row@) =~= tag_row(*t, user_id));
                assert(tags@.subrange(0, i + 1).map_values(|t: TagBase| tag_row(t, user_id)) =~= tags@.subrange(
                    0,
                    i as int,
                ).map_values(|t: TagBase| tag_row(t, user_id)).push(tag_row(*t, user_id)));
            }
            i = i + 1;
        }
        assert(tags@.subrange(0, tags@.len() as int) =~= tags@);
        proof {
            lemma_insert_eq(q@, tag_insert_v(self));
        }
        q
    }
}

/// The tags to delete: by id, by user, or both. With neither, every tag.
#[derive(Debug)]
pub struct TagDelete {
    pub id: Option<u128>,
    pub user_id: Option<u128>,
}

impl Default for TagDelete {
    fn default() -> (r: Self)
        ensures
            r.id is None,
            r.user_id is None,
    {
        TagDelete { id: None, user_id: None }
    }
}

/// `DELETE FROM tags` where the given id and user match.
pub open spec fn tag_delete_v(d: TagDelete) -> DeleteV {
    DeleteV {
        table: Ident::Tag(Tag::Table),
        conditions: when_v(d.id, |id: u128| bin_v(bare_v(Ident::Tag(Tag::Id)), BinOp::Eq, uuid_v(id)))
            + when_v(d.user_id, |id: u128| bin_v(bare_v(Ident::Tag(Tag::UserId)), BinOp::Eq, uuid_v(id))),
    }
}

/// A tag deletion removes the tag with the given id, of the given owner, each
/// where given, and compares nothing else.
pub proof fn tag_delete_conditions(d: TagDelete)
    ensures
        tag_delete_v(d).table == Ident::Tag(Tag::Table),
        d.id is Some ==> tag_delete_v(d).conditions.contains(
            bare_column_compared(Ident::Tag(Tag::Id), BinOp::Eq, ValueV::Uuid(d.id)),
        ),
        d.user_id is Some ==> tag_delete_v(d).conditions.contains(
            bare_column_compared(Ident::Tag(Tag::UserId), BinOp::Eq, ValueV::Uuid(d.user_id)),
        ),
        tag_delete_v(d).conditions.len() == (if d.id is Some { 1int } else { 0 })
            + (if d.user_id is Some { 1int } else { 0 }),
{
    let a = when_v(d.id, |id: u128| bin_v(bare_v(Ident::Tag(Tag::Id)), BinOp::Eq, uuid_v(id)));
    let b = when_v(d.user_id, |id: u128| bin_v(bare_v(Ident::Tag(Tag::UserId)), BinOp::Eq, uuid_v(id)));
    if d.id is Some {
        lemma_contains_concat(a, b, a[0]);
    }
    if d.user_id is Some {
        lemma_contains_concat(a, b, b[0]);
    }
}

impl IntoDelete for TagDelete {
    fn into_delete(self) -> (r: DeletePlan)
        ensures
            r@ == tag_delete_v(self),
    {
        let mut q = DeletePlan::new(Ident::Tag(Tag::Table));
        if let Some(id) = self.id {
            q.and_where(bin(bare(Ident::Tag(Tag::Id)), BinOp::Eq, uuid(id)));
        }
        if let Some(id) = self.user_id {
            q.and_where(bin(bare(Ident::Tag(Tag::UserId)), BinOp::Eq, uuid(id)));
        }
        assert(q@.conditions =~= tag_delete_v(self).conditions);
        q
    }
}

} // verus!
