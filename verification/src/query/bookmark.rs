//! Bookmarks: saved links of a user, with their tags.

use vstd::prelude::*;

use crate::filter::{bookmark_filter_wf, BookmarkFilter};
use crate::plan::{
    column_equals_uuid, lemma_contains_concat,
    bare, bare_v, bin, bin_v, col, col_v, cols_eq, date, date_v,
    empty_select_v, exists_subquery, in_uuids, lemma_insert_eq, lemma_select_eq,
    on_conflict_update, opt_seq, text_of, text_v, uuid, uuid_v, uuid_values_v, when_v, ActionV,
    Alias, BinOp, ColumnRef, ConflictV, DeletePlan, DeleteV, ExprV, Ident, InsertPlan,
    InsertV, ItemV, JoinKind, JoinV, OnConflict, Order, SelectPlan, SelectV, SqlExpr,
    SqlValue, UpdatePlan, UpdateV, ValueV,
};
use crate::query::account::{opt_str, opt_string};
use crate::query::condition::bookmark_filter_v;
use crate::query::tags_agg::{tags_expr, tags_item_v, tags_join, tags_join_v};
use crate::query::{Dialect, IntoDelete, IntoInsert, IntoSelect, IntoUpdate};
use crate::schema::{Bookmark, BookmarkTag};
use crate::time::UtcDateTime;

verus! {

/// The parameters of a bookmark listing. A filter, where there is one, takes
/// the place of the id and tag parameters.
#[derive(Debug)]
pub struct BookmarkParams {
    pub id: Option<u128>,
    pub tags: Option<Vec<u128>>,
    pub filter: Option<BookmarkFilter>,
    pub user_id: Option<u128>,
    pub cursor: Option<UtcDateTime>,
    pub limit: Option<u64>,
    pub with_tags: bool,
}

/// A bookmark listing for one SQL dialect.
#[derive(Debug)]
pub struct BookmarkSelect {
    params: BookmarkParams,
    dialect: Dialect,
}

/// A bookmark column.
pub open spec fn bookmark_col(c: Bookmark) -> ExprV {
    col_v(Ident::Bookmark(Bookmark::Table), Ident::Bookmark(c))
}

/// A bookmark-tag column.
pub open spec fn bookmark_tag_col(c: BookmarkTag) -> ExprV {
    col_v(Ident::BookmarkTag(BookmarkTag::Table), Ident::BookmarkTag(c))
}

/// `EXISTS (SELECT 1 FROM bookmark_tags WHERE bookmark_tags.bookmark_id =
/// bookmarks.id AND bookmark_tags.tag_id IN (tags))`.
pub open spec fn bookmark_has_tags_v(tags: Seq<u128>) -> ExprV {
    ExprV::Exists(
        Box::new(
            SelectV {
                items: seq![ItemV::Expr(text_v("1"@))],
                conditions: seq![
                    bin_v(bookmark_tag_col(BookmarkTag::BookmarkId), BinOp::Eq, bookmark_col(Bookmark::Id)),
                    ExprV::In(Box::new(bookmark_tag_col(BookmarkTag::TagId)), uuid_values_v(tags)),
                ],
                ..empty_select_v(Ident::BookmarkTag(BookmarkTag::Table))
            },
        ),
    )
}

/// The tags of each bookmark, joined from `bookmark_tags`.
pub open spec fn bookmark_tags_join_v(dialect: Dialect) -> JoinV {
    tags_join_v(
        Ident::BookmarkTag(BookmarkTag::Table),
        Ident::BookmarkTag(BookmarkTag::BookmarkId),
        Ident::BookmarkTag(BookmarkTag::TagId),
        Ident::Bookmark(Bookmark::Table),
        Ident::Bookmark(Bookmark::Id),
        dialect,
    )
}

/// The conditions that the filter, or else the id and tags, put on a listing.
pub open spec fn bookmark_selection_v(p: BookmarkParams, dialect: Dialect) -> Seq<ExprV> {
    match p.filter {
        Some(f) => seq![bookmark_filter_v(f, dialect)],
        None => when_v(p.id, |id: u128| bin_v(bookmark_col(Bookmark::Id), BinOp::Eq, uuid_v(id)))
            + when_v(opt_seq(p.tags), |tags: Seq<u128>| bookmark_has_tags_v(tags)),
    }
}

/// `SELECT bookmarks.*` of a user's bookmarks created before the cursor, newest
/// first, narrowed by the filter or else by id and tags, with each bookmark's
/// tags as a JSON array where asked.
pub open spec fn bookmark_select_v(p: BookmarkParams, dialect: Dialect) -> SelectV {
    SelectV {
        items: seq![ItemV::Column(ColumnRef::TableAll(Ident::Bookmark(Bookmark::Table)))] + if p.with_tags {
            seq![tags_item_v()]
        } else {
            seq![]
        },
        joins: if p.with_tags {
            seq![bookmark_tags_join_v(dialect)]
        } else {
            seq![]
        },
        conditions: when_v(
            p.user_id,
            |id: u128| bin_v(bookmark_col(Bookmark::UserId), BinOp::Eq, uuid_v(id)),
        ) + when_v(
            p.cursor,
            |c: UtcDateTime| bin_v(bookmark_col(Bookmark::CreatedAt), BinOp::Lt, date_v(c)),
        ) + bookmark_selection_v(p, dialect),
        order_by: seq![
            (
                ColumnRef::TableCol(Ident::Bookmark(Bookmark::Table), Ident::Bookmark(Bookmark::CreatedAt)),
                Order::Desc,
            ),
        ],
        limit: p.limit,
        ..empty_select_v(Ident::Bookmark(Bookmark::Table))
    }
}

impl BookmarkSelect {
    #[verifier::type_invariant]
    spec fn filter_wf(self) -> bool {
        self.params.filter matches Some(f) ==> bookmark_filter_wf(f)
    }

    /// The parameters of this listing.
    pub closed spec fn spec_params(self) -> BookmarkParams {
        self.params
    }

    /// The dialect of this listing.
    pub closed spec fn spec_dialect(self) -> Dialect {
        self.dialect
    }

    /// A listing for Postgres.
    pub fn postgres(params: BookmarkParams) -> (r: Self)
        requires
            params.filter matches Some(f) ==> bookmark_filter_wf(f),
        ensures
            r.spec_params() == params,
            r.spec_dialect() == Dialect::Postgres,
    {
        BookmarkSelect { params, dialect: Dialect::Postgres }
    }

    /// A listing for SQLite.
    pub fn sqlite(params: BookmarkParams) -> (r: Self)
        requires
            params.filter matches Some(f) ==> bookmark_filter_wf(f),
        ensures
            r.spec_params() == params,
            r.spec_dialect() == Dialect::Sqlite,
    {
        BookmarkSelect { params, dialect: Dialect::Sqlite }
    }
}

/// The condition that a bookmark carries one of `tags`.
fn bookmark_has_tags(tags: &Vec<u128>) -> (r: SqlExpr)
    ensures
        r@ == bookmark_has_tags_v(tags@),
{
    let bt = Ident::BookmarkTag(BookmarkTag::Table);
    let mut q = exists_subquery(bt);
    q.and_where(
        cols_eq(
            bt,
            Ident::BookmarkTag(BookmarkTag::BookmarkId),
            Ident::Bookmark(Bookmark::Table),
            Ident::Bookmark(Bookmark::Id),
        ),
    );
    q.and_where(in_uuids(col(bt, Ident::BookmarkTag(BookmarkTag::TagId)), tags));
    proof {
        match bookmark_has_tags_v(tags@) {
            ExprV::Exists(b) => lemma_select_eq(q@, *b),
            _ => {},
        }
    }
    SqlExpr::Exists(Box::new(q))
}

impl IntoSelect for BookmarkSelect {
    fn into_select(self) -> (r: SelectPlan)
        ensures
            r@ == bookmark_select_v(self.spec_params(), self.spec_dialect()),
    {
        proof {
            use_type_invariant(&self);
        }
        let p = &self.params;
        let dialect = self.dialect;
        let t = Ident::Bookmark(Bookmark::Table);
        let mut q = SelectPlan::new(t);
        q.column(ColumnRef::TableAll(t));
        if let Some(id) = p.user_id {
            q.and_where(bin(col(t, Ident::Bookmark(Bookmark::UserId)), BinOp::Eq, uuid(id)));
        }
        if let Some(c) = p.cursor {
            q.and_where(bin(col(t, Ident::Bookmark(Bookmark::CreatedAt)), BinOp::Lt, date(c)));
        }
        q.order_by(ColumnRef::TableCol(t, Ident::Bookmark(Bookmark::CreatedAt)), Order::Desc);
        match &p.filter {
            Some(f) => {
                q.and_where(f.to_condition(dialect));
            },
            None => {
                if let Some(id) = p.id {
                    q.and_where(bin(col(t, Ident::Bookmark(Bookmark::Id)), BinOp::Eq, uuid(id)));
                }
                if let Some(tags) = &p.tags {
                    q.and_where(bookmark_has_tags(tags));
                }
            },
        }
        if p.with_tags {
            q.expr_as(tags_expr(), Ident::Alias(Alias::Tags));
            let (target, on) = tags_join(
                Ident::BookmarkTag(BookmarkTag::Table),
                Ident::BookmarkTag(BookmarkTag::BookmarkId),
                Ident::BookmarkTag(BookmarkTag::TagId),
                t,
                Ident::Bookmark(Bookmark::Id),
                dialect,
            );
            q.join(JoinKind::Left, target, on);
        }
        if let Some(l) = p.limit {
            q.limit(l);
        }
        proof {
            lemma_select_eq(q@, bookmark_select_v(self.params, self.dialect));
        }
        q
    }
}

/// A filter takes the place of the id and tag parameters: two bookmark listings
/// with the same filter and the same user, cursor, limit and tag flag are the
/// same statement whatever ids and tags they name.
pub proof fn bookmark_filter_replaces_selection(p: BookmarkParams, q: BookmarkParams, dialect: Dialect)
    requires
        p.filter is Some,
        p.filter == q.filter,
        p.user_id == q.user_id,
        p.cursor == q.cursor,
        p.limit == q.limit,
        p.with_tags == q.with_tags,
    ensures
        bookmark_select_v(p, dialect) == bookmark_select_v(q, dialect),
{
}

/// What a bookmark listing compares: the user's bookmarks
/// (`bookmarks.user_id`), those created strictly before the cursor, newest
/// first; without a filter, the given bookmark by its id; with a filter, the
/// filter's condition in the place of the id and tags.
pub proof fn bookmark_listing_conditions(p: BookmarkParams, dialect: Dialect)
    ensures
        p.user_id is Some ==> bookmark_select_v(p, dialect).conditions.contains(
            column_equals_uuid(
                Ident::Bookmark(Bookmark::Table),
                Ident::Bookmark(Bookmark::UserId),
                p.user_id->Some_0,
            ),
        ),
        p.cursor is Some ==> bookmark_select_v(p, dialect).conditions.contains(
            ExprV::Binary(
                Box::new(ExprV::Column(ColumnRef::TableCol(Ident::Bookmark(Bookmark::Table), Ident::Bookmark(Bookmark::CreatedAt)))),
                BinOp::Lt,
                Box::new(ExprV::Value(ValueV::DateTime(p.cursor))),
            ),
        ),
        p.filter is None && p.id is Some ==> bookmark_select_v(p, dialect).conditions.contains(
            column_equals_uuid(Ident::Bookmark(Bookmark::Table), Ident::Bookmark(Bookmark::Id), p.id->Some_0),
        ),
        p.filter is Some ==> bookmark_select_v(p, dialect).conditions.contains(
            bookmark_filter_v(p.filter->Some_0, dialect),
        ),
        bookmark_select_v(p, dialect).order_by == seq![
            (ColumnRef::TableCol(Ident::Bookmark(Bookmark::Table), Ident::Bookmark(Bookmark::CreatedAt)), Order::Desc),
        ],
        bookmark_select_v(p, dialect).limit == p.limit,
{
    let a = when_v(p.user_id, |id: u128| bin_v(bookmark_col(Bookmark::UserId), BinOp::Eq, uuid_v(id)));
    let b = when_v(p.cursor, |c: UtcDateTime| bin_v(bookmark_col(Bookmark::CreatedAt), BinOp::Lt, date_v(c)));
    let sel = bookmark_selection_v(p, dialect);
    if p.user_id is Some {
        lemma_contains_concat(a, b, a[0]);
        lemma_contains_concat(a + b, sel, a[0]);
    }
    if p.cursor is Some {
        lemma_contains_concat(a, b, b[0]);
        lemma_contains_concat(a + b, sel, b[0]);
    }
    match p.filter {
        Some(f) => {
            lemma_contains_concat(a + b, sel, sel[0]);
        },
        None => {
            let i = when_v(p.id, |id: u128| bin_v(bookmark_col(Bookmark::Id), BinOp::Eq, uuid_v(id)));
            let t = when_v(opt_seq(p.tags), |tags: Seq<u128>| bookmark_has_tags_v(tags));
            if p.id is Some {
                lemma_contains_concat(i, t, i[0]);
                lemma_contains_concat(a + b, sel, i[0]);
            }
        },
    }
}

/// A bookmark to store.
#[derive(Debug)]
pub struct BookmarkInsert<'a> {
    pub id: u128,
    pub link: &'a str,
    pub title: &'a str,
    pub thumbnail_url: Option<&'a str>,
    pub published_at: Option<UtcDateTime>,
    pub author: Option<&'a str>,
    pub archived_path: Option<&'a str>,
    pub user_id: u128,
    pub created_at: UtcDateTime,
    pub updated_at: UtcDateTime,
    pub upsert: bool,
}

/// The columns that a stored bookmark takes from a conflicting insert.
pub open spec fn bookmark_updated_columns() -> Seq<Ident> {
    seq![
        Ident::Bookmark(Bookmark::Title),
        Ident::Bookmark(Bookmark::ThumbnailUrl),
        Ident::Bookmark(Bookmark::PublishedAt),
        Ident::Bookmark(Bookmark::Author),
        Ident::Bookmark(Bookmark::ArchivedPath),
        Ident::Bookmark(Bookmark::UpdatedAt),
    ]
}

/// The insert of a bookmark. An upsert matches a stored bookmark by user and
/// link and returns the id; otherwise the match is by id.
pub open spec fn bookmark_insert_v(b: BookmarkInsert) -> InsertV {
    InsertV {
        table: Some(Ident::Bookmark(Bookmark::Table)),
        columns: seq![
            Ident::Bookmark(Bookmark::Id),
            Ident::Bookmark(Bookmark::Link),
            Ident::Bookmark(Bookmark::Title),
            Ident::Bookmark(Bookmark::ThumbnailUrl),
            Ident::Bookmark(Bookmark::PublishedAt),
            Ident::Bookmark(Bookmark::Author),
            Ident::Bookmark(Bookmark::ArchivedPath),
            Ident::Bookmark(Bookmark::UserId),
            Ident::Bookmark(Bookmark::CreatedAt),
            Ident::Bookmark(Bookmark::UpdatedAt),
        ],
        rows: seq![
            seq![
                ValueV::Uuid(Some(b.id)),
                ValueV::Text(Some(b.link@)),
                ValueV::Text(Some(b.title@)),
                ValueV::Text(opt_str(b.thumbnail_url)),
                ValueV::DateTime(b.published_at),
                ValueV::Text(opt_str(b.author)),
                ValueV::Text(opt_str(b.archived_path)),
                ValueV::Uuid(Some(b.user_id)),
                ValueV::DateTime(Some(b.created_at)),
                ValueV::DateTime(Some(b.updated_at)),
            ],
        ],
        on_conflict: Some(
            ConflictV {
                columns: if b.upsert {
                    seq![Ident::Bookmark(Bookmark::UserId), Ident::Bookmark(Bookmark::Link)]
                } else {
                    seq![Ident::Bookmark(Bookmark::Id)]
                },
                action: ActionV::Update(bookmark_updated_columns()),
            },
        ),
        returning: if b.upsert {
            Some(Ident::Bookmark(Bookmark::Id))
        } else {
            None
        },
    }
}

fn bookmark_updated() -> (r: Vec<Ident>)
    ensures
        r@ == bookmark_updated_columns(),
{
    let r = vec![
        Ident::Bookmark(Bookmark::Title),
        Ident::Bookmark(Bookmark::ThumbnailUrl),
        Ident::Bookmark(Bookmark::PublishedAt),
        Ident::Bookmark(Bookmark::Author),
        Ident::Bookmark(Bookmark::ArchivedPath),
        Ident::Bookmark(Bookmark::UpdatedAt),
    ];
    assert(r@ =~= bookmark_updated_columns());
    r
}

impl<'a> IntoInsert for BookmarkInsert<'a> {
    fn into_insert(self) -> (r: InsertPlan)
        ensures
            r@ == bookmark_insert_v(self),
            crate::plan::rows_fit(r@),
    {
        let row = vec![
            SqlValue::Uuid(Some(self.id)),
            SqlValue::Text(Some(text_of(self.link))),
            SqlValue::Text(Some(text_of(self.title))),
            SqlValue::Text(opt_string(self.thumbnail_url)),
            SqlValue::DateTime(self.published_at),
            SqlValue::Text(opt_string(self.author)),
            SqlValue::Text(opt_string(self.archived_path)),
            SqlValue::Uuid(Some(self.user_id)),
            SqlValue::DateTime(Some(self.created_at)),
            SqlValue::DateTime(Some(self.updated_at)),
        ];
        let (conflict, returning): (OnConflict, Option<Ident>) = if self.upsert {
            (
                on_conflict_update(
                    vec![Ident::Bookmark(Bookmark::UserId), Ident::Bookmark(Bookmark::Link)],
                    bookmark_updated(),
                ),
                Some(Ident::Bookmark(Bookmark::Id)),
            )
        } else {
            (on_conflict_update(vec![Ident::Bookmark(Bookmark::Id)], bookmark_updated()), None)
        };
        let mut q = InsertPlan {
            table: Some(Ident::Bookmark(Bookmark::Table)),
            columns: vec![
                Ident::Bookmark(Bookmark::Id),
                Ident::Bookmark(Bookmark::Link),
                Ident::Bookmark(Bookmark::Title),
                Ident::Bookmark(Bookmark::ThumbnailUrl),
                Ident::Bookmark(Bookmark::PublishedAt),
                Ident::Bookmark(Bookmark::Author),
                Ident::Bookmark(Bookmark::ArchivedPath),
                Ident::Bookmark(Bookmark::UserId),
                Ident::Bookmark(Bookmark::CreatedAt),
                Ident::Bookmark(Bookmark::UpdatedAt),
            ],
            rows: Vec::new(),
            on_conflict: Some(conflict),
            returning,
        };
        assert(q@.rows =~= seq![]);
        q.values(row);
        proof {
            lemma_insert_eq(q@, bookmark_insert_v(self));
        }
        q
    }
}

/// A change to a bookmark: the update time always, the archived path where
/// given (`Some(None)` clears it).
#[derive(Debug)]
pub struct BookmarkUpdate<'a> {
    pub id: u128,
    pub archived_path: Option<Option<&'a str>>,
    pub updated_at: UtcDateTime,
}

/// `UPDATE bookmarks SET updated_at, archived_path (where given) WHERE id`.
pub open spec fn bookmark_update_v(u: BookmarkUpdate) -> UpdateV {
    UpdateV {
        table: Ident::Bookmark(Bookmark::Table),
        values: seq![(Ident::Bookmark(Bookmark::UpdatedAt), ValueV::DateTime(Some(u.updated_at)))]
            + match u.archived_path {
            Some(a) => seq![(Ident::Bookmark(Bookmark::ArchivedPath), ValueV::Text(opt_str(a)))],
            None => seq![],
        },
        conditions: seq![bin_v(bare_v(Ident::Bookmark(Bookmark::Id)), BinOp::Eq, uuid_v(u.id))],
    }
}

impl<'a> IntoUpdate for BookmarkUpdate<'a> {
    fn into_update(self) -> (r: UpdatePlan)
        ensures
            r@ == bookmark_update_v(self),
    {
        let mut q = UpdatePlan::new(Ident::Bookmark(Bookmark::Table));
        q.value(Ident::Bookmark(Bookmark::UpdatedAt), SqlValue::DateTime(Some(self.updated_at)));
        q.and_where(bin(bare(Ident::Bookmark(Bookmark::Id)), BinOp::Eq, uuid(self.id)));
        if let Some(a) = self.archived_path {
            q.value(Ident::Bookmark(Bookmark::ArchivedPath), SqlValue::Text(opt_string(a)));
        }
        assert(q@.values =~= bookmark_update_v(self).values);
        assert(q@.conditions =~= bookmark_update_v(self).conditions);
        q
    }
}

/// The bookmark to delete.
#[derive(Debug)]
pub struct BookmarkDelete {
    pub id: u128,
}

impl IntoDelete for BookmarkDelete {
    fn into_delete(self) -> (r: DeletePlan)
        ensures
            r@ == (DeleteV {
                table: Ident::Bookmark(Bookmark::Table),
                conditions: seq![bin_v(bare_v(Ident::Bookmark(Bookmark::Id)), BinOp::Eq, uuid_v(self.id))],
            }),
    {
        let mut q = DeletePlan::new(Ident::Bookmark(Bookmark::Table));
        q.and_where(bin(bare(Ident::Bookmark(Bookmark::Id)), BinOp::Eq, uuid(self.id)));
        assert(q@.conditions =~= seq![bin_v(bare_v(Ident::Bookmark(Bookmark::Id)), BinOp::Eq, uuid_v(self.id))]);
        q
    }
}

} // verus!
