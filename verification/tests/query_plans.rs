use colette_repository::filter::{BookmarkFilter, BookmarkTextField, TextOp};
use colette_repository::plan::{
    Alias, BinOp, ColumnRef, ConflictAction, CustomSql, Ident, JoinKind, JoinTarget, OnConflict,
    Order, SelectItem, SelectPlan, SqlExpr, SqlValue,
};
use colette_repository::query::account::{AccountInsert, AccountParams};
use colette_repository::query::api_key::{ApiKeyDelete, ApiKeyInsert, ApiKeySelect};
use colette_repository::query::bookmark::{
    BookmarkDelete, BookmarkInsert, BookmarkParams, BookmarkSelect, BookmarkUpdate,
};
use colette_repository::query::bookmark_tag::{BookmarkTagBase, BookmarkTagDelete, BookmarkTagInsert};
use colette_repository::query::collection::{CollectionDelete, CollectionInsert, CollectionParams};
use colette_repository::query::feed::{FeedBase, FeedInsert, FeedSelect};
use colette_repository::query::feed_entry::{
    FeedEntryInsert, FeedEntryInsertBatch, FeedEntryParams, SubscriptionEntryParams,
    UnreadCountSelectMany,
};
use colette_repository::query::job::{JobDelete, JobInsert, JobParams};
use colette_repository::query::read_entry::{ReadEntryDelete, ReadEntryInsert};
use colette_repository::query::session::{SessionCreateParams, SessionDeleteParams, SessionFindParams};
use colette_repository::query::stream::{StreamDelete, StreamSelect, StreamSelectOne};
use colette_repository::query::subscription::{SubscriptionBase, SubscriptionDelete, SubscriptionInsert, SubscriptionSelect};
use colette_repository::query::subscription_tag::{SubscriptionTagBase, SubscriptionTagDelete, SubscriptionTagInsert};
use colette_repository::query::tag::{TagBase, TagDelete, TagInsert, TagSelect, TagType};
use colette_repository::query::user::{UserInsert, UserParams};
use colette_repository::query::{Dialect, IntoDelete, IntoInsert, IntoSelect, IntoUpdate};
use colette_repository::schema::{
    Account, ApiKey, Bookmark, BookmarkTag, Collection, Feed, FeedEntry, Job, ReadEntry, Session,
    Stream, Subscription, SubscriptionTag, Tag, User,
};
use colette_repository::time::UtcDateTime;

fn at(secs: i64) -> UtcDateTime {
    UtcDateTime::from_timestamp(secs, 0).unwrap()
}

fn tcol(t: Ident, c: Ident) -> SqlExpr {
    SqlExpr::Column(ColumnRef::TableCol(t, c))
}

fn bare(c: Ident) -> SqlExpr {
    SqlExpr::Column(ColumnRef::Col(c))
}

fn bin(l: SqlExpr, op: BinOp, r: SqlExpr) -> SqlExpr {
    SqlExpr::Binary(Box::new(l), op, Box::new(r))
}

fn uuid(u: u128) -> SqlExpr {
    SqlExpr::Value(SqlValue::Uuid(Some(u)))
}

fn text(s: &str) -> SqlExpr {
    SqlExpr::Value(SqlValue::Text(Some(s.to_string())))
}

fn rows_fit(columns: usize, rows: &[Vec<SqlValue>]) -> bool {
    rows.iter().all(|r| r.len() == columns)
}

#[test]
fn account_lookup_by_sub_and_provider() {
    let q = AccountParams { id: None, sub: Some("me@example.com".into()), provider: Some("local".into()) }
        .into_select();
    let t = Ident::Account(Account::Table);
    assert_eq!(q.from, t);
    assert_eq!(q.items, vec![SelectItem::Column(ColumnRef::All)]);
    assert_eq!(
        q.conditions,
        vec![
            bin(tcol(t, Ident::Account(Account::Sub)), BinOp::Eq, text("me@example.com")),
            bin(tcol(t, Ident::Account(Account::Provider)), BinOp::Eq, text("local")),
        ]
    );
    assert!(q.joins.is_empty() && q.order_by.is_empty() && q.limit.is_none());
}

#[test]
fn account_insert_updates_on_conflicting_id() {
    let q = AccountInsert {
        id: 1,
        sub: "s",
        provider: "p",
        password_hash: None,
        user_id: 2,
        created_at: at(10),
        updated_at: at(20),
    }
    .into_insert();
    assert_eq!(q.table, Some(Ident::Account(Account::Table)));
    assert_eq!(q.columns.len(), 7);
    assert_eq!(
        q.rows,
        vec![vec![
            SqlValue::Uuid(Some(1)),
            SqlValue::Text(Some("s".into())),
            SqlValue::Text(Some("p".into())),
            SqlValue::Text(None),
            SqlValue::Uuid(Some(2)),
            SqlValue::DateTime(Some(at(10))),
            SqlValue::DateTime(Some(at(20))),
        ]]
    );
    assert_eq!(
        q.on_conflict,
        Some(OnConflict {
            columns: vec![Ident::Account(Account::Id)],
            action: ConflictAction::Update(vec![
                Ident::Account(Account::Sub),
                Ident::Account(Account::Provider),
                Ident::Account(Account::PasswordHash),
                Ident::Account(Account::UpdatedAt),
            ]),
        })
    );
}

#[test]
fn api_key_listing_pages_by_creation_time() {
    let q = ApiKeySelect { user_id: Some(7), cursor: Some(at(100)), limit: Some(25), ..Default::default() }
        .into_select();
    let t = Ident::ApiKey(ApiKey::Table);
    assert_eq!(
        q.conditions,
        vec![
            bin(tcol(t, Ident::ApiKey(ApiKey::UserId)), BinOp::Eq, uuid(7)),
            bin(tcol(t, Ident::ApiKey(ApiKey::CreatedAt)), BinOp::Gt, SqlExpr::Value(SqlValue::DateTime(Some(at(100))))),
        ]
    );
    assert_eq!(q.order_by, vec![(ColumnRef::TableCol(t, Ident::ApiKey(ApiKey::CreatedAt)), Order::Asc)]);
    assert_eq!(q.limit, Some(25));
}

#[test]
fn api_key_insert_and_delete() {
    let q = ApiKeyInsert {
        id: 3,
        lookup_hash: "l",
        verification_hash: "v",
        title: "t",
        preview: "p",
        user_id: 4,
        created_at: at(1),
        updated_at: at(2),
    }
    .into_insert();
    assert_eq!(q.columns.last(), Some(&Ident::ApiKey(ApiKey::UserId)));
    assert_eq!(q.rows[0].last(), Some(&SqlValue::Uuid(Some(4))));
    assert!(rows_fit(q.columns.len(), &q.rows));
    let d = ApiKeyDelete { id: 3 }.into_delete();
    assert_eq!(d.table, Ident::ApiKey(ApiKey::Table));
    assert_eq!(d.conditions, vec![bin(bare(Ident::ApiKey(ApiKey::Id)), BinOp::Eq, uuid(3))]);
}

fn bookmark_params() -> BookmarkParams {
    BookmarkParams {
        id: Some(5),
        tags: Some(vec![8, 9]),
        filter: None,
        user_id: Some(1),
        cursor: None,
        limit: Some(10),
        with_tags: false,
    }
}

#[test]
fn bookmark_listing_by_id_and_tags() {
    let q = BookmarkSelect::postgres(bookmark_params()).into_select();
    let b = Ident::Bookmark(Bookmark::Table);
    let bt = Ident::BookmarkTag(BookmarkTag::Table);
    assert_eq!(q.items, vec![SelectItem::Column(ColumnRef::TableAll(b))]);
    assert_eq!(q.conditions.len(), 3);
    assert_eq!(q.conditions[0], bin(tcol(b, Ident::Bookmark(Bookmark::UserId)), BinOp::Eq, uuid(1)));
    assert_eq!(q.conditions[1], bin(tcol(b, Ident::Bookmark(Bookmark::Id)), BinOp::Eq, uuid(5)));
    let mut sub = SelectPlan::new(bt);
    sub.items = vec![SelectItem::Expr(text("1"))];
    sub.conditions = vec![
        bin(tcol(bt, Ident::BookmarkTag(BookmarkTag::BookmarkId)), BinOp::Eq, tcol(b, Ident::Bookmark(Bookmark::Id))),
        SqlExpr::In(
            Box::new(tcol(bt, Ident::BookmarkTag(BookmarkTag::TagId))),
            vec![SqlValue::Uuid(Some(8)), SqlValue::Uuid(Some(9))],
        ),
    ];
    assert_eq!(q.conditions[2], SqlExpr::Exists(Box::new(sub)));
    assert_eq!(q.order_by, vec![(ColumnRef::TableCol(b, Ident::Bookmark(Bookmark::CreatedAt)), Order::Desc)]);
    assert_eq!(q.limit, Some(10));
}

#[test]
fn bookmark_filter_replaces_id_and_tags() {
    let filter = BookmarkFilter::Text { field: BookmarkTextField::Title, op: TextOp::Contains("rust".into()) };
    let mut p = bookmark_params();
    p.filter = Some(filter);
    let q = BookmarkSelect::sqlite(p).into_select();
    let b = Ident::Bookmark(Bookmark::Table);
    assert_eq!(
        q.conditions,
        vec![
            bin(tcol(b, Ident::Bookmark(Bookmark::UserId)), BinOp::Eq, uuid(1)),
            bin(tcol(b, Ident::Bookmark(Bookmark::Title)), BinOp::Like, text("%rust%")),
        ]
    );
    // With another id and no tags, the same filter gives the same statement.
    let mut other = bookmark_params();
    other.id = Some(99);
    other.tags = None;
    other.filter =
        Some(BookmarkFilter::Text { field: BookmarkTextField::Title, op: TextOp::Contains("rust".into()) });
    assert_eq!(BookmarkSelect::sqlite(other).into_select(), q);
}

#[test]
fn bookmark_listing_with_tags_in_each_dialect() {
    for (dialect, agg) in [(Dialect::Postgres, CustomSql::PostgresTagsAgg), (Dialect::Sqlite, CustomSql::SqliteTagsAgg)] {
        let mut p = bookmark_params();
        p.with_tags = true;
        let q = match dialect {
            Dialect::Postgres => BookmarkSelect::postgres(p),
            Dialect::Sqlite => BookmarkSelect::sqlite(p),
        }
        .into_select();
        let b = Ident::Bookmark(Bookmark::Table);
        let bt = Ident::BookmarkTag(BookmarkTag::Table);
        let tags_agg = Ident::Alias(Alias::TagsAgg);
        assert_eq!(
            q.items[1],
            SelectItem::ExprAs(
                SqlExpr::Coalesce(vec![
                    tcol(tags_agg, Ident::Alias(Alias::Tags)),
                    SqlExpr::Custom(CustomSql::EmptyJsonArray),
                ]),
                Ident::Alias(Alias::Tags),
            )
        );
        assert_eq!(q.joins.len(), 1);
        assert_eq!(q.joins[0].kind, JoinKind::Left);
        assert_eq!(
            q.joins[0].on,
            bin(tcol(tags_agg, Ident::BookmarkTag(BookmarkTag::BookmarkId)), BinOp::Eq, tcol(b, Ident::Bookmark(Bookmark::Id)))
        );
        match &q.joins[0].target {
            JoinTarget::Subquery(sub, alias) => {
                assert_eq!(*alias, tags_agg);
                assert_eq!(sub.from, bt);
                assert_eq!(sub.items[1], SelectItem::ExprAs(SqlExpr::Custom(agg), Ident::Alias(Alias::Tags)));
                assert_eq!(sub.group_by, vec![ColumnRef::TableCol(bt, Ident::BookmarkTag(BookmarkTag::BookmarkId))]);
                assert_eq!(
                    sub.joins[0].target,
                    JoinTarget::TableAs(Ident::Tag(Tag::Table), Ident::Alias(Alias::T))
                );
            }
            other => panic!("unexpected join target {other:?}"),
        }
    }
}

#[test]
fn bookmark_insert_upsert_matches_user_and_link() {
    let make = |upsert| BookmarkInsert {
        id: 1,
        link: "https://a.example",
        title: "A",
        thumbnail_url: None,
        published_at: Some(at(5)),
        author: Some("me"),
        archived_path: None,
        user_id: 2,
        created_at: at(6),
        updated_at: at(7),
        upsert,
    };
    let up = make(true).into_insert();
    let conflict = up.on_conflict.unwrap();
    assert_eq!(conflict.columns, vec![Ident::Bookmark(Bookmark::UserId), Ident::Bookmark(Bookmark::Link)]);
    assert_eq!(up.returning, Some(Ident::Bookmark(Bookmark::Id)));
    let plain = make(false).into_insert();
    assert_eq!(plain.on_conflict.unwrap().columns, vec![Ident::Bookmark(Bookmark::Id)]);
    assert_eq!(plain.returning, None);
    assert_eq!(plain.rows[0][4], SqlValue::DateTime(Some(at(5))));
    assert_eq!(plain.rows[0][5], SqlValue::Text(Some("me".into())));
    assert!(rows_fit(plain.columns.len(), &plain.rows));
}

#[test]
fn bookmark_update_sets_archived_path_only_when_given() {
    let q = BookmarkUpdate { id: 4, archived_path: None, updated_at: at(9) }.into_update();
    assert_eq!(q.values, vec![(Ident::Bookmark(Bookmark::UpdatedAt), SqlValue::DateTime(Some(at(9))))]);
    let cleared = BookmarkUpdate { id: 4, archived_path: Some(None), updated_at: at(9) }.into_update();
    assert_eq!(cleared.values[1], (Ident::Bookmark(Bookmark::ArchivedPath), SqlValue::Text(None)));
    assert_eq!(cleared.conditions, vec![bin(bare(Ident::Bookmark(Bookmark::Id)), BinOp::Eq, uuid(4))]);
    let d = BookmarkDelete { id: 4 }.into_delete();
    assert_eq!(d.conditions, vec![bin(bare(Ident::Bookmark(Bookmark::Id)), BinOp::Eq, uuid(4))]);
}

#[test]
fn bookmark_tag_insert_has_a_row_per_link() {
    let q = BookmarkTagInsert {
        bookmark_tags: vec![
            BookmarkTagBase { bookmark_id: 1, tag_ids: vec![10, 11] },
            BookmarkTagBase { bookmark_id: 2, tag_ids: vec![] },
            BookmarkTagBase { bookmark_id: 3, tag_ids: vec![12] },
        ],
        user_id: 99,
    }
    .into_insert();
    assert_eq!(
        q.rows,
        vec![
            vec![SqlValue::Uuid(Some(1)), SqlValue::Uuid(Some(10)), SqlValue::Uuid(Some(99))],
            vec![SqlValue::Uuid(Some(1)), SqlValue::Uuid(Some(11)), SqlValue::Uuid(Some(99))],
            vec![SqlValue::Uuid(Some(3)), SqlValue::Uuid(Some(12)), SqlValue::Uuid(Some(99))],
        ]
    );
    assert_eq!(q.on_conflict.unwrap().action, ConflictAction::DoNothing);
    let empty = BookmarkTagInsert { bookmark_tags: vec![], user_id: 1 }.into_insert();
    assert!(empty.rows.is_empty());
}

#[test]
fn bookmark_tag_delete_keeps_the_given_tags() {
    let all = BookmarkTagDelete { bookmark_id: 1, tag_ids: vec![] }.into_delete();
    assert_eq!(all.conditions.len(), 1);
    let some = BookmarkTagDelete { bookmark_id: 1, tag_ids: vec![5] }.into_delete();
    assert_eq!(
        some.conditions[1],
        SqlExpr::NotIn(Box::new(bare(Ident::BookmarkTag(BookmarkTag::TagId))), vec![SqlValue::Uuid(Some(5))])
    );
}

#[test]
fn collection_statements() {
    let q = CollectionParams { id: None, user_id: Some(1), cursor: Some("m".into()), limit: None }.into_select();
    let t = Ident::Collection(Collection::Table);
    assert_eq!(q.conditions[1], bin(tcol(t, Ident::Collection(Collection::Title)), BinOp::Gt, text("m")));
    assert_eq!(q.order_by, vec![(ColumnRef::TableCol(t, Ident::Collection(Collection::Title)), Order::Asc)]);
    let i = CollectionInsert {
        id: 1,
        title: "t",
        filter_raw: "f",
        user_id: "u",
        created_at: at(1),
        updated_at: at(2),
    }
    .into_insert();
    assert_eq!(i.table, None);
    assert_eq!(i.rows[0][3], SqlValue::Text(Some("u".into())));
    let d = CollectionDelete { id: 1 }.into_delete();
    assert_eq!(d.table, t);
}

#[test]
fn feed_listing_always_checks_refresh() {
    let q = FeedSelect::default().into_select();
    let f = Ident::Feed(Feed::Table);
    assert_eq!(q.conditions.len(), 1);
    let refreshed = tcol(f, Ident::Feed(Feed::RefreshedAt));
    let expected = bin(
        bin(
            SqlExpr::Not(Box::new(SqlExpr::Value(SqlValue::Bool(Some(false))))),
            BinOp::Or,
            SqlExpr::IsNull(Box::new(tcol(f, Ident::Feed(Feed::RefreshedAt)))),
        ),
        BinOp::Or,
        bin(
            bin(
                refreshed,
                BinOp::Add,
                bin(SqlExpr::Custom(CustomSql::OneMinute), BinOp::Mul, tcol(f, Ident::Feed(Feed::RefreshIntervalMin))),
            ),
            BinOp::Lte,
            SqlExpr::CurrentTimestamp,
        ),
    );
    assert_eq!(q.conditions[0], expected);
    let q = FeedSelect { source_urls: Some(vec!["a", "b"]), cursor: Some("a"), ready_to_refresh: true, ..FeedSelect::default() }
        .into_select();
    assert_eq!(
        q.conditions[0],
        SqlExpr::In(
            Box::new(tcol(f, Ident::Feed(Feed::SourceUrl))),
            vec![SqlValue::Text(Some("a".into())), SqlValue::Text(Some("b".into()))]
        )
    );
    assert_eq!(q.conditions[2], bin(tcol(f, Ident::Feed(Feed::SourceUrl)), BinOp::Gt, text("a")));
}

#[test]
fn feed_insert_upsert_or_keep() {
    let base = |id| FeedBase {
        id,
        source_url: "https://s",
        link: "https://l",
        title: "T",
        description: None,
        refresh_interval_min: 60,
        is_refreshing: false,
        refreshed_at: None,
        is_custom: true,
    };
    let q = FeedInsert { feeds: vec![base(1), base(2)], upsert: false }.into_insert();
    assert_eq!(q.rows.len(), 2);
    assert_eq!(q.rows[1][0], SqlValue::Uuid(Some(2)));
    assert_eq!(q.rows[0][5], SqlValue::Int(Some(60)));
    assert_eq!(q.returning, Some(Ident::Feed(Feed::Id)));
    assert_eq!(q.on_conflict.as_ref().unwrap().action, ConflictAction::DoNothing);
    let up = FeedInsert { feeds: vec![base(1)], upsert: true }.into_insert();
    match &up.on_conflict.as_ref().unwrap().action {
        ConflictAction::Update(cols) => assert_eq!(cols.len(), 7),
        other => panic!("unexpected {other:?}"),
    }
    assert!(rows_fit(up.columns.len(), &up.rows));
}

#[test]
fn feed_entry_listing_pages_newest_first() {
    let q = FeedEntryParams { id: None, feed_id: Some(3), cursor: Some((at(50), 9)), limit: Some(2) }.into_select();
    let fe = Ident::FeedEntry(FeedEntry::Table);
    assert_eq!(
        q.conditions[1],
        bin(
            SqlExpr::Tuple(vec![tcol(fe, Ident::FeedEntry(FeedEntry::PublishedAt)), tcol(fe, Ident::FeedEntry(FeedEntry::Id))]),
            BinOp::Lt,
            SqlExpr::Tuple(vec![SqlExpr::Value(SqlValue::DateTime(Some(at(50)))), uuid(9)]),
        )
    );
    assert_eq!(
        q.order_by,
        vec![
            (ColumnRef::TableCol(fe, Ident::FeedEntry(FeedEntry::PublishedAt)), Order::Desc),
            (ColumnRef::TableCol(fe, Ident::FeedEntry(FeedEntry::Id)), Order::Desc),
        ]
    );
}

#[test]
fn feed_entry_batch_insert() {
    let e = |id| FeedEntryInsert {
        id,
        link: "l",
        title: "t",
        published_at: at(1),
        description: Some("d"),
        author: None,
        thumbnail_url: None,
        feed_id: 7,
    };
    let q = FeedEntryInsertBatch(vec![e(1), e(2), e(3)]).into_insert();
    assert_eq!(q.rows.len(), 3);
    assert_eq!(q.rows[2][0], SqlValue::Uuid(Some(3)));
    assert_eq!(q.rows[0][4], SqlValue::Text(Some("d".into())));
    assert_eq!(
        q.on_conflict.unwrap().columns,
        vec![Ident::FeedEntry(FeedEntry::FeedId), Ident::FeedEntry(FeedEntry::Link)]
    );
}

#[test]
fn subscription_entries_by_read_state() {
    let p = |has_read| SubscriptionEntryParams {
        feed_entry_id: None,
        subscription_id: None,
        has_read,
        tags: None,
        filter: None,
        user_id: Some(1),
        cursor: None,
        limit: None,
        with_read_entry: true,
    };
    let read = p(Some(true)).into_select();
    let unread = p(Some(false)).into_select();
    assert_eq!(read.conditions.len(), 2);
    match (&read.conditions[1], &unread.conditions[1]) {
        (SqlExpr::Exists(sub), SqlExpr::Not(inner)) => {
            assert_eq!(sub.from, Ident::ReadEntry(ReadEntry::Table));
            assert_eq!(**inner, read.conditions[1]);
        }
        other => panic!("unexpected {other:?}"),
    }
    assert_eq!(read.joins.len(), 2);
    assert_eq!(read.joins[1].kind, JoinKind::Left);
    assert_eq!(read.items.len(), 5);
    assert_eq!(
        read.items[4],
        SelectItem::ExprAs(
            SqlExpr::IsNotNull(Box::new(tcol(Ident::ReadEntry(ReadEntry::Table), Ident::ReadEntry(ReadEntry::SubscriptionId)))),
            Ident::Alias(Alias::HasRead),
        )
    );
    let any = p(None).into_select();
    assert_eq!(any.conditions.len(), 1);
}

#[test]
fn unread_counts_of_subscriptions() {
    let q = UnreadCountSelectMany { subscription_ids: vec![4, 5] }.into_select();
    let s = Ident::Subscription(Subscription::Table);
    assert_eq!(q.from, Ident::FeedEntry(FeedEntry::Table));
    assert_eq!(
        q.conditions[0],
        SqlExpr::In(Box::new(tcol(s, Ident::Subscription(Subscription::Id))), vec![SqlValue::Uuid(Some(4)), SqlValue::Uuid(Some(5))])
    );
    assert!(matches!(q.conditions[1], SqlExpr::Not(_)));
    assert_eq!(q.group_by, vec![ColumnRef::TableCol(s, Ident::Subscription(Subscription::Id))]);
    assert_eq!(
        q.items[1],
        SelectItem::ExprAs(
            SqlExpr::Count(Box::new(tcol(Ident::FeedEntry(FeedEntry::Table), Ident::FeedEntry(FeedEntry::Id)))),
            Ident::Alias(Alias::UnreadCount)
        )
    );
}

#[test]
fn job_statements() {
    let q = JobParams { id: None, group_identifier: Some("g".into()) }.into_select();
    assert_eq!(
        q.conditions,
        vec![bin(tcol(Ident::Job(Job::Table), Ident::Job(Job::GroupIdentifier)), BinOp::Eq, text("g"))]
    );
    let i = JobInsert {
        id: 1,
        job_type: "import",
        data: serde_json::Value::Bool(true),
        status: "pending",
        group_identifier: None,
        message: None,
        created_at: at(0),
        completed_at: None,
    }
    .into_insert();
    assert_eq!(i.rows[0][2], SqlValue::Json(Some(serde_json::Value::Bool(true))));
    assert_eq!(i.rows[0][7], SqlValue::DateTime(None));
    let d = JobDelete { id: 1 }.into_delete();
    assert_eq!(d.conditions, vec![bin(bare(Ident::Job(Job::Id)), BinOp::Eq, uuid(1))]);
}

#[test]
fn read_entry_statements() {
    let i = ReadEntryInsert { feed_entry_id: 1, subscription_id: 2, user_id: 3 }.into_insert();
    assert_eq!(i.rows, vec![vec![SqlValue::Uuid(Some(2)), SqlValue::Uuid(Some(1)), SqlValue::Uuid(Some(3))]]);
    assert_eq!(i.on_conflict.unwrap().action, ConflictAction::DoNothing);
    let d = ReadEntryDelete { feed_entry_id: 1, subscription_id: 2 }.into_delete();
    assert_eq!(
        d.conditions,
        vec![
            bin(bare(Ident::ReadEntry(ReadEntry::SubscriptionId)), BinOp::Eq, uuid(2)),
            bin(bare(Ident::ReadEntry(ReadEntry::FeedEntryId)), BinOp::Eq, uuid(1)),
        ]
    );
}

#[test]
fn session_statements() {
    let q = SessionFindParams { token: "tok".into() }.into_select();
    assert_eq!(q.from, Ident::Session(Session::Table));
    assert_eq!(q.conditions, vec![bin(bare(Ident::Session(Session::Token)), BinOp::Eq, text("tok"))]);
    let i = SessionCreateParams {
        token: "tok".into(),
        user_agent: None,
        ip_address: Some("127.0.0.1".into()),
        expires_at: at(3600),
        user_id: "u".into(),
    }
    .into_insert();
    assert_eq!(i.on_conflict, None);
    assert_eq!(i.rows[0][2], SqlValue::Text(Some("127.0.0.1".into())));
    let expired = SessionDeleteParams::Expired.into_delete();
    assert_eq!(
        expired.conditions,
        vec![bin(bare(Ident::Session(Session::ExpiresAt)), BinOp::Lt, SqlExpr::CurrentTimestamp)]
    );
    let by_user = SessionDeleteParams::UserId("u".into()).into_delete();
    assert_eq!(by_user.conditions, vec![bin(bare(Ident::Session(Session::UserId)), BinOp::Eq, text("u"))]);
}

#[test]
fn stream_statements() {
    let q = StreamSelect { id: None, user_id: Some("u"), cursor: None, limit: Some(1) }.into_select();
    let t = Ident::Stream(Stream::Table);
    assert_eq!(q.conditions, vec![bin(tcol(t, Ident::Stream(Stream::UserId)), BinOp::Eq, text("u"))]);
    let one = StreamSelectOne { id: 2 }.into_select();
    assert_eq!(one.conditions, vec![bin(bare(Ident::Stream(Stream::Id)), BinOp::Eq, uuid(2))]);
    let d = StreamDelete { id: 2 }.into_delete();
    assert_eq!(d.table, t);
}

#[test]
fn subscription_listing_with_everything() {
    let q = SubscriptionSelect {
        id: None,
        feeds: None,
        tags: Some(vec![1]),
        user_id: Some(2),
        cursor: Some(("News", 3)),
        limit: Some(4),
        with_feed: true,
        with_unread_count: true,
        with_tags: true,
        dialect: Dialect::Postgres,
    }
    .into_select();
    let s = Ident::Subscription(Subscription::Table);
    assert_eq!(q.items.len(), 1 + 6 + 1 + 1);
    assert_eq!(q.joins.len(), 3);
    assert_eq!(q.joins[0].target, JoinTarget::Table(Ident::Feed(Feed::Table)));
    assert_eq!(q.joins[0].kind, JoinKind::Inner);
    assert_eq!(q.joins[1].kind, JoinKind::Left);
    assert_eq!(
        q.items[7],
        SelectItem::ExprAs(
            SqlExpr::Coalesce(vec![tcol(Ident::Alias(Alias::UcAgg), Ident::Alias(Alias::UnreadCount)), SqlExpr::Custom(CustomSql::Zero)]),
            Ident::Alias(Alias::UnreadCount)
        )
    );
    assert_eq!(
        q.conditions[2],
        bin(
            SqlExpr::Tuple(vec![bare(Ident::Subscription(Subscription::Title)), bare(Ident::Subscription(Subscription::Id))]),
            BinOp::Gt,
            SqlExpr::Tuple(vec![text("News"), uuid(3)]),
        )
    );
    assert_eq!(
        q.order_by,
        vec![
            (ColumnRef::TableCol(s, Ident::Subscription(Subscription::Title)), Order::Asc),
            (ColumnRef::TableCol(s, Ident::Subscription(Subscription::Id)), Order::Asc),
        ]
    );
    assert_eq!(q.limit, Some(4));
}

#[test]
fn subscription_insert_and_delete() {
    let b = SubscriptionBase { id: 1, title: "t", description: None, feed_id: 2, created_at: at(1), updated_at: at(1) };
    let q = SubscriptionInsert { subscriptions: vec![b], user_id: 9, upsert: true }.into_insert();
    assert_eq!(q.rows[0][4], SqlValue::Uuid(Some(9)));
    assert_eq!(q.returning, Some(Ident::Subscription(Subscription::Id)));
    assert_eq!(
        q.on_conflict.unwrap().columns,
        vec![Ident::Subscription(Subscription::UserId), Ident::Subscription(Subscription::FeedId)]
    );
    let none = SubscriptionDelete::default().into_delete();
    assert!(none.conditions.is_empty());
    let both = SubscriptionDelete { id: Some(1), user_id: Some(2) }.into_delete();
    assert_eq!(both.conditions.len(), 2);
}

#[test]
fn subscription_tag_statements() {
    let q = SubscriptionTagInsert {
        subscription_tags: vec![SubscriptionTagBase { subscription_id: 1, user_id: 2, tag_ids: vec![3, 4] }],
    }
    .into_insert();
    assert_eq!(q.rows[1], vec![SqlValue::Uuid(Some(1)), SqlValue::Uuid(Some(4)), SqlValue::Uuid(Some(2))]);
    let d = SubscriptionTagDelete { subscription_id: 1, tag_ids: vec![] }.into_delete();
    assert_eq!(d.conditions, vec![bin(bare(Ident::SubscriptionTag(SubscriptionTag::SubscriptionId)), BinOp::Eq, uuid(1))]);
}

#[test]
fn tag_listing_of_feed_tags_counts_and_filters() {
    let q = TagSelect { tag_type: Some(TagType::Feeds), user_id: Some(1), ..Default::default() }.into_select();
    let t = Ident::Tag(Tag::Table);
    assert_eq!(q.items.len(), 2);
    assert_eq!(q.joins.len(), 1);
    assert_eq!(q.joins[0].target, JoinTarget::Table(Ident::SubscriptionTag(SubscriptionTag::Table)));
    assert_eq!(q.group_by, vec![ColumnRef::TableCol(t, Ident::Tag(Tag::Id))]);
    assert_eq!(
        q.having,
        vec![bin(bare(Ident::Alias(Alias::SubscriptionCount)), BinOp::Gt, SqlExpr::Value(SqlValue::Int(Some(0))))]
    );
    let plain = TagSelect::default().into_select();
    assert!(plain.group_by.is_empty() && plain.having.is_empty() && plain.joins.is_empty());
    let both = TagSelect { with_subscription_count: true, with_bookmark_count: true, ..Default::default() }.into_select();
    assert_eq!(both.items.len(), 3);
    assert_eq!(both.joins.len(), 2);
    assert!(both.having.is_empty());
}

#[test]
fn tag_insert_and_delete() {
    let q = TagInsert { tags: vec![TagBase { id: 1, title: "x", created_at: at(0), updated_at: at(0) }], user_id: 5, upsert: true }
        .into_insert();
    let c = q.on_conflict.unwrap();
    assert_eq!(c.columns, vec![Ident::Tag(Tag::UserId), Ident::Tag(Tag::Title)]);
    assert_eq!(c.action, ConflictAction::Update(vec![Ident::Tag(Tag::UpdatedAt)]));
    let d = TagDelete { id: Some(1), user_id: None }.into_delete();
    assert_eq!(d.conditions, vec![bin(bare(Ident::Tag(Tag::Id)), BinOp::Eq, uuid(1))]);
}

#[test]
fn user_statements() {
    let q = UserParams { id: Some(1), external_id: None }.into_select();
    assert_eq!(q.conditions, vec![bin(tcol(Ident::User(User::Table), Ident::User(User::Id)), BinOp::Eq, uuid(1))]);
    let i = UserInsert {
        id: 1,
        external_id: "ext",
        email: Some("a@b"),
        display_name: None,
        picture_url: None,
        created_at: at(0),
        updated_at: at(0),
    }
    .into_insert();
    assert_eq!(i.on_conflict.unwrap().columns, vec![Ident::User(User::ExternalId)]);
    assert_eq!(i.rows[0][2], SqlValue::Text(Some("a@b".into())));
}

#[test]
fn entry_filter_replaces_entry_subscription_read_and_tags() {
    use_entry_filter();
}

fn use_entry_filter() {
    let make = |feed_entry_id, has_read, tags| SubscriptionEntryParams {
        feed_entry_id,
        subscription_id: Some(2),
        has_read,
        tags,
        filter: Some(colette_repository::filter::EntryFilter::Text {
            field: colette_repository::filter::EntryTextField::Title,
            op: TextOp::Equals("x".into()),
        }),
        user_id: Some(1),
        cursor: None,
        limit: None,
        with_read_entry: false,
    };
    let a = make(Some(1), Some(true), Some(vec![3])).into_select();
    let b = make(None, None, None).into_select();
    assert_eq!(a, b);
    assert_eq!(a.conditions.len(), 2);
}
