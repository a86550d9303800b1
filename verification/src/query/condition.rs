//! The conditions that user filters put on select statements.

use vstd::prelude::*;
use vstd::string::*;

use crate::filter::{
    combined_order, BooleanOp, BookmarkDateField, BookmarkFilter, BookmarkTextField, DateOp,
    EntryBooleanField, EntryDateField, EntryFilter, EntryTextField, TextOp,
    bookmark_filter_wf, bookmark_filters_wf, entry_filter_wf, entry_filters_wf,
};
use crate::plan::{
    bin, bin_v, col, col_v, cols_eq, date, date_v, bool_v, boolean, empty_select_v, exists_subquery,
    exprs_v, expr_v, not, text_v, BinOp, CustomSql, ExprV, Ident, ItemV, JoinKind, JoinTarget,
    SelectV, SqlExpr, SqlValue, TargetV, JoinV, ValueV,
};
use crate::query::Dialect;
use crate::schema::{Bookmark, BookmarkTag, FeedEntry, ReadEntry, Subscription, SubscriptionTag, Tag};

verus! {

// ---------------------------------------------------------------------------
// Conditions on one column.

/// `column = v`, or `column LIKE` the pattern `%v%`, `v%` or `%v`.
pub open spec fn text_op_v(column: ExprV, op: TextOp) -> ExprV {
    match op {
        TextOp::Equals(v) => bin_v(column, BinOp::Eq, text_v(v@)),
        TextOp::Contains(v) => bin_v(column, BinOp::Like, text_v("%"@ + v@ + "%"@)),
        TextOp::StartsWith(v) => bin_v(column, BinOp::Like, text_v(v@ + "%"@)),
        TextOp::EndsWith(v) => bin_v(column, BinOp::Like, text_v("%"@ + v@)),
    }
}

/// `column = b`.
pub open spec fn boolean_op_v(column: ExprV, op: BooleanOp) -> ExprV {
    match op {
        BooleanOp::Equals(b) => bin_v(column, BinOp::Eq, bool_v(b)),
    }
}

/// The instant "now" in seconds since the epoch, as the dialect writes it.
pub open spec fn epoch_now(dialect: Dialect) -> CustomSql {
    match dialect {
        Dialect::Postgres => CustomSql::PostgresEpochNow,
        Dialect::Sqlite => CustomSql::SqliteEpochNow,
    }
}

/// `column < t`, `column > t`, `column BETWEEN s AND e`, or, for the last `n`
/// seconds, `(now - column) < n` with the dialect's "now".
pub open spec fn date_op_v(column: ExprV, op: DateOp, dialect: Dialect) -> ExprV {
    match op {
        DateOp::Before(t) => bin_v(column, BinOp::Lt, date_v(t)),
        DateOp::After(t) => bin_v(column, BinOp::Gt, date_v(t)),
        DateOp::Between(r) => ExprV::Between(
            Box::new(column),
            Box::new(date_v(r.start)),
            Box::new(date_v(r.end)),
        ),
        DateOp::InLast(n) => bin_v(
            bin_v(ExprV::Custom(epoch_now(dialect)), BinOp::Sub, column),
            BinOp::Lt,
            ExprV::Value(ValueV::BigInt(Some(n))),
        ),
    }
}

fn concat2(a: &str, b: &str) -> (r: String)
    ensures
        r@ == a@ + b@,
{
    let mut r = String::new();
    r.append(a);
    r.append(b);
    r
}

fn concat3(a: &str, b: &str, c: &str) -> (r: String)
    ensures
        r@ == a@ + b@ + c@,
{
    let mut r = String::new();
    r.append(a);
    r.append(b);
    r.append(c);
    r
}

fn text_value(s: String) -> (r: SqlExpr)
    ensures
        r@ == text_v(s@),
{
    SqlExpr::Value(SqlValue::Text(Some(s)))
}

/// The condition of a text operator on `column`.
pub fn text_op_expr(column: SqlExpr, op: &TextOp) -> (r: SqlExpr)
    ensures
        r@ == text_op_v(column@, *op),
{
    match op {
        TextOp::Equals(v) => bin(column, BinOp::Eq, text_value(v.clone())),
        TextOp::Contains(v) => bin(column, BinOp::Like, text_value(concat3("%", v.as_str(), "%"))),
        TextOp::StartsWith(v) => bin(column, BinOp::Like, text_value(concat2(v.as_str(), "%"))),
        TextOp::EndsWith(v) => bin(column, BinOp::Like, text_value(concat2("%", v.as_str()))),
    }
}

/// The condition of a boolean operator on `column`.
pub fn boolean_op_expr(column: SqlExpr, op: BooleanOp) -> (r: SqlExpr)
    ensures
        r@ == boolean_op_v(column@, op),
{
    match op {
        BooleanOp::Equals(b) => bin(column, BinOp::Eq, boolean(b)),
    }
}

/// The condition of a date operator on `column`.
pub fn date_op_expr(column: SqlExpr, op: DateOp, dialect: Dialect) -> (r: SqlExpr)
    ensures
        r@ == date_op_v(column@, op, dialect),
{
    match op {
        DateOp::Before(t) => bin(column, BinOp::Lt, date(t)),
        DateOp::After(t) => bin(column, BinOp::Gt, date(t)),
        DateOp::Between(r) => SqlExpr::Between(
            Box::new(column),
            Box::new(date(r.start)),
            Box::new(date(r.end)),
        ),
        DateOp::InLast(n) => {
            let now = match dialect {
                Dialect::Postgres => CustomSql::PostgresEpochNow,
                Dialect::Sqlite => CustomSql::SqliteEpochNow,
            };
            bin(
                bin(SqlExpr::Custom(now), BinOp::Sub, column),
                BinOp::Lt,
                SqlExpr::Value(SqlValue::BigInt(Some(n))),
            )
        },
    }
}

// ---------------------------------------------------------------------------
// Combined conditions.

/// The conditions joined by `op`, from the left.
pub open spec fn fold_v(parts: Seq<ExprV>, op: BinOp) -> ExprV
    decreases parts.len(),
{
    if parts.len() <= 1 {
        parts[0]
    } else {
        bin_v(fold_v(parts.drop_last(), op), op, parts.last())
    }
}

/// The condition of a conjunction or disjunction of parts: the parts in the
/// order that taking the first out with `swap_remove` leaves, joined from the
/// left.
pub open spec fn combined_v(parts: Seq<ExprV>, op: BinOp) -> ExprV {
    fold_v(combined_order(parts), op)
}

/// Joins the parts with `op` in the order of [`combined_v`].
fn combine_exprs(parts: Vec<SqlExpr>, op: BinOp) -> (r: SqlExpr)
    requires
        parts@.len() >= 1,
    ensures
        r@ == combined_v(exprs_v(parts@), op),
{
    let ghost views = exprs_v(parts@);
    proof {
        lemma_exprs_v_index(parts@);
    }
    let mut rest = parts;
    let first = rest.swap_remove(0);
    let ghost order = seq![first@] + exprs_v(rest@);
    proof {
        lemma_exprs_v_index(rest@);
        assert(order =~= combined_order(views));
    }
    let mut acc = first;
    let ghost all_rest = exprs_v(rest@);
    // Take the remaining parts from the front.
    let mut back = reversed_exprs(rest);
    assert(exprs_v(back@) == all_rest.reverse());
    let ghost mut k: nat = 0;
    let ghost n = all_rest.len();
    assert(all_rest.reverse().subrange(0, n as int) =~= all_rest.reverse());
    assert(seq![order[0]] + all_rest.subrange(0, 0) =~= seq![order[0]]);
    while back.len() > 0
        invariant
            exprs_v(back@) == all_rest.reverse().subrange(0, (n - k) as int),
            k <= n,
            n == all_rest.len(),
            acc@ == fold_v(seq![order[0]] + all_rest.subrange(0, k as int), op),
            order == seq![order[0]] + all_rest,
        decreases back.len(),
    {
        let ghost before = back@;
        proof {
            lemma_exprs_v_index(before);
            assert(k < n);
        }
        let e = back.pop().unwrap();
        let ghost pre = seq![order[0]] + all_rest.subrange(0, k as int);
        let ghost post = seq![order[0]] + all_rest.subrange(0, (k + 1) as int);
        proof {
            lemma_exprs_v_index(back@);
            assert(back@ =~= before.drop_last());
            assert(exprs_v(before)[before.len() - 1] == all_rest.reverse()[(n - k - 1) as int]);
            assert(e@ == all_rest[k as int]);
            assert(post.drop_last() =~= pre);
            assert(post.last() == all_rest[k as int]);
            assert(exprs_v(back@) =~= all_rest.reverse().subrange(0, (n - k - 1) as int));
        }
        acc = bin(acc, op, e);
        proof {
            assert(acc@ == fold_v(post, op));
            k = k + 1;
        }
    }
    assert(seq![order[0]] + all_rest.subrange(0, n as int) =~= order);
    acc
}

proof fn lemma_exprs_v_index(es: Seq<SqlExpr>)
    ensures
        exprs_v(es).len() == es.len(),
        forall|i: int| 0 <= i < es.len() ==> #[trigger] exprs_v(es)[i] == expr_v(es[i]),
    decreases es.len(),
{
    if es.len() > 0 {
        lemma_exprs_v_index(es.drop_last());
        assert forall|i: int| 0 <= i < es.len() - 1 implies es.drop_last()[i] == es[i] by {}
    }
}

/// The expressions in the opposite order.
fn reversed_exprs(v: Vec<SqlExpr>) -> (r: Vec<SqlExpr>)
    ensures
        exprs_v(r@) == exprs_v(v@).reverse(),
{
    let ghost orig = v@;
    let mut v = v;
    let mut r: Vec<SqlExpr> = Vec::new();
    while v.len() > 0
        invariant
            v@.len() <= orig.len(),
            v@ == orig.subrange(0, v@.len() as int),
            r@ == orig.subrange(v@.len() as int, orig.len() as int).reverse(),
        decreases v.len(),
    {
        let x = v.pop().unwrap();
        proof {
            let k = v@.len() as int;
            assert(orig.subrange(k, orig.len() as int).reverse() =~= orig.subrange(
                k + 1,
                orig.len() as int,
            ).reverse().push(orig[k]));
        }
        r.push(x);
        proof {
            assert(v@ =~= orig.subrange(0, v@.len() as int));
        }
    }
    assert(orig.subrange(0, orig.len() as int) =~= orig);
    proof {
        lemma_exprs_v_index(r@);
        lemma_exprs_v_index(orig);
        assert(exprs_v(r@) =~= exprs_v(orig).reverse());
    }
    r
}

// ---------------------------------------------------------------------------
// Bookmark filters.

/// The column that a text field of a bookmark names.
pub open spec fn bookmark_text_col(field: BookmarkTextField) -> ExprV {
    match field {
        BookmarkTextField::Link => col_v(Ident::Bookmark(Bookmark::Table), Ident::Bookmark(Bookmark::Link)),
        BookmarkTextField::Title => col_v(Ident::Bookmark(Bookmark::Table), Ident::Bookmark(Bookmark::Title)),
        BookmarkTextField::Author => col_v(Ident::Bookmark(Bookmark::Table), Ident::Bookmark(Bookmark::Author)),
        BookmarkTextField::Tag => col_v(Ident::Tag(Tag::Table), Ident::Tag(Tag::Title)),
    }
}

/// The column that a date field of a bookmark names.
pub open spec fn bookmark_date_col(field: BookmarkDateField) -> ExprV {
    match field {
        BookmarkDateField::PublishedAt => col_v(
            Ident::Bookmark(Bookmark::Table),
            Ident::Bookmark(Bookmark::PublishedAt),
        ),
        BookmarkDateField::CreatedAt => col_v(
            Ident::Bookmark(Bookmark::Table),
            Ident::Bookmark(Bookmark::CreatedAt),
        ),
        BookmarkDateField::UpdatedAt => col_v(
            Ident::Bookmark(Bookmark::Table),
            Ident::Bookmark(Bookmark::UpdatedAt),
        ),
    }
}

impl BookmarkTextField {
    /// The column that this field names in a bookmark query.
    pub fn to_column_expr(self) -> (r: SqlExpr)
        ensures
            r@ == bookmark_text_col(self),
    {
        match self {
            BookmarkTextField::Link => col(Ident::Bookmark(Bookmark::Table), Ident::Bookmark(Bookmark::Link)),
            BookmarkTextField::Title => col(Ident::Bookmark(Bookmark::Table), Ident::Bookmark(Bookmark::Title)),
            BookmarkTextField::Author => col(Ident::Bookmark(Bookmark::Table), Ident::Bookmark(Bookmark::Author)),
            BookmarkTextField::Tag => col(Ident::Tag(Tag::Table), Ident::Tag(Tag::Title)),
        }
    }
}

impl BookmarkDateField {
    /// The column that this field names in a bookmark query.
    pub fn to_column_expr(self) -> (r: SqlExpr)
        ensures
            r@ == bookmark_date_col(self),
    {
        match self {
            BookmarkDateField::PublishedAt => col(
                Ident::Bookmark(Bookmark::Table),
                Ident::Bookmark(Bookmark::PublishedAt),
            ),
            BookmarkDateField::CreatedAt => col(
                Ident::Bookmark(Bookmark::Table),
                Ident::Bookmark(Bookmark::CreatedAt),
            ),
            BookmarkDateField::UpdatedAt => col(
                Ident::Bookmark(Bookmark::Table),
                Ident::Bookmark(Bookmark::UpdatedAt),
            ),
        }
    }
}

/// `EXISTS (SELECT 1 FROM bookmark_tags INNER JOIN tags ON tags.id =
/// bookmark_tags.tag_id WHERE bookmark_tags.bookmark_id = bookmarks.id AND cond)`.
pub open spec fn bookmark_tag_exists_v(cond: ExprV) -> ExprV {
    ExprV::Exists(
        Box::new(
            SelectV {
                items: seq![ItemV::Expr(text_v("1"@))],
                joins: seq![
                    JoinV {
                        kind: JoinKind::Inner,
                        target: TargetV::Table(Ident::Tag(Tag::Table)),
                        on: bin_v(
                            col_v(Ident::Tag(Tag::Table), Ident::Tag(Tag::Id)),
                            BinOp::Eq,
                            col_v(Ident::BookmarkTag(BookmarkTag::Table), Ident::BookmarkTag(BookmarkTag::TagId)),
                        ),
                    },
                ],
                conditions: seq![
                    bin_v(
                        col_v(
                            Ident::BookmarkTag(BookmarkTag::Table),
                            Ident::BookmarkTag(BookmarkTag::BookmarkId),
                        ),
                        BinOp::Eq,
                        col_v(Ident::Bookmark(Bookmark::Table), Ident::Bookmark(Bookmark::Id)),
                    ),
                    cond,
                ],
                ..empty_select_v(Ident::BookmarkTag(BookmarkTag::Table))
            },
        ),
    )
}

/// The condition of a bookmark filter.
pub open spec fn bookmark_filter_v(f: BookmarkFilter, dialect: Dialect) -> ExprV
    decreases f,
{
    match f {
        BookmarkFilter::Text { field, op } => match field {
            BookmarkTextField::Tag => bookmark_tag_exists_v(text_op_v(bookmark_text_col(field), op)),
            _ => text_op_v(bookmark_text_col(field), op),
        },
        BookmarkFilter::Date { field, op } => date_op_v(bookmark_date_col(field), op, dialect),
        BookmarkFilter::And(fs) => combined_v(bookmark_filters_v(fs@, dialect), BinOp::And),
        BookmarkFilter::Or(fs) => combined_v(bookmark_filters_v(fs@, dialect), BinOp::Or),
        BookmarkFilter::Not(g) => ExprV::Not(Box::new(bookmark_filter_v(*g, dialect))),
    }
}

/// The conditions of a sequence of bookmark filters.
pub open spec fn bookmark_filters_v(fs: Seq<BookmarkFilter>, dialect: Dialect) -> Seq<ExprV>
    decreases fs,
{
    if fs.len() == 0 {
        seq![]
    } else {
        bookmark_filters_v(fs.drop_last(), dialect).push(bookmark_filter_v(fs.last(), dialect))
    }
}

proof fn lemma_bookmark_filters_v(fs: Seq<BookmarkFilter>, dialect: Dialect)
    ensures
        bookmark_filters_v(fs, dialect).len() == fs.len(),
        forall|i: int|
            0 <= i < fs.len() ==> #[trigger] bookmark_filters_v(fs, dialect)[i] == bookmark_filter_v(
                fs[i],
                dialect,
            ),
        bookmark_filters_wf(fs) ==> forall|i: int|
            0 <= i < fs.len() ==> #[trigger] bookmark_filter_wf(fs[i]),
    decreases fs.len(),
{
    if fs.len() > 0 {
        lemma_bookmark_filters_v(fs.drop_last(), dialect);
        assert forall|i: int| 0 <= i < fs.len() - 1 implies fs.drop_last()[i] == fs[i] by {}
        if bookmark_filters_wf(fs) {
            assert forall|i: int| 0 <= i < fs.len() implies #[trigger] bookmark_filter_wf(fs[i]) by {
                if i < fs.len() - 1 {
                    assert(bookmark_filter_wf(fs.drop_last()[i]));
                }
            }
        }
    }
}

fn bookmark_tag_exists(cond: SqlExpr) -> (r: SqlExpr)
    ensures
        r@ == bookmark_tag_exists_v(cond@),
{
    let mut q = exists_subquery(Ident::BookmarkTag(BookmarkTag::Table));
    q.join(
        JoinKind::Inner,
        JoinTarget::Table(Ident::Tag(Tag::Table)),
        cols_eq(
            Ident::Tag(Tag::Table),
            Ident::Tag(Tag::Id),
            Ident::BookmarkTag(BookmarkTag::Table),
            Ident::BookmarkTag(BookmarkTag::TagId),
        ),
    );
    q.and_where(
        cols_eq(
            Ident::BookmarkTag(BookmarkTag::Table),
            Ident::BookmarkTag(BookmarkTag::BookmarkId),
            Ident::Bookmark(Bookmark::Table),
            Ident::Bookmark(Bookmark::Id),
        ),
    );
    q.and_where(cond);
    let r = SqlExpr::Exists(Box::new(q));
    proof {
        crate::plan::lemma_select_eq(q@, match bookmark_tag_exists_v(cond@) {
            ExprV::Exists(b) => *b,
            _ => q@,
        });
    }
    r
}

impl BookmarkFilter {
    /// The condition of this filter on a bookmark query in `dialect`.
    pub fn to_condition(&self, dialect: Dialect) -> (r: SqlExpr)
        requires
            bookmark_filter_wf(*self),
        ensures
            r@ == bookmark_filter_v(*self, dialect),
        decreases self,
    {
        match self {
            BookmarkFilter::Text { field, op } => match field {
                BookmarkTextField::Tag => bookmark_tag_exists(text_op_expr(field.to_column_expr(), op)),
                _ => text_op_expr(field.to_column_expr(), op),
            },
            BookmarkFilter::Date { field, op } => date_op_expr(field.to_column_expr(), *op, dialect),
            BookmarkFilter::And(fs) => combine_exprs(Self::conditions(fs, dialect), BinOp::And),
            BookmarkFilter::Or(fs) => combine_exprs(Self::conditions(fs, dialect), BinOp::Or),
            BookmarkFilter::Not(g) => not(g.to_condition(dialect)),
        }
    }

    fn conditions(fs: &Vec<BookmarkFilter>, dialect: Dialect) -> (r: Vec<SqlExpr>)
        requires
            bookmark_filters_wf(fs@),
        ensures
            r@.len() == fs@.len(),
            exprs_v(r@) == bookmark_filters_v(fs@, dialect),
        decreases fs,
    {
        proof {
            lemma_bookmark_filters_v(fs@, dialect);
        }
        let mut r: Vec<SqlExpr> = Vec::new();
        let mut i: usize = 0;
        while i < fs.len()
            invariant
                i <= fs.len(),
                r@.len() == i,
                bookmark_filters_v(fs@, dialect).len() == fs@.len(),
                forall|j: int|
                    0 <= j < fs@.len() ==> #[trigger] bookmark_filters_v(fs@, dialect)[j]
                        == bookmark_filter_v(fs@[j], dialect),
                forall|j: int| 0 <= j < fs@.len() ==> #[trigger] bookmark_filter_wf(fs@[j]),
                forall|j: int| 0 <= j < i ==> #[trigger] expr_v(r@[j]) == bookmark_filter_v(fs@[j], dialect),
            decreases fs.len() - i,
        {
            let c = fs[i].to_condition(dialect);
            r.push(c);
            i = i + 1;
        }
        proof {
            lemma_exprs_v_index(r@);
            assert(exprs_v(r@) =~= bookmark_filters_v(fs@, dialect));
        }
        r
    }
}

// ---------------------------------------------------------------------------
// Entry filters.

/// The column that a text field of an entry names.
pub open spec fn entry_text_col(field: EntryTextField) -> ExprV {
    match field {
        EntryTextField::Link => col_v(Ident::FeedEntry(FeedEntry::Table), Ident::FeedEntry(FeedEntry::Link)),
        EntryTextField::Title => col_v(Ident::FeedEntry(FeedEntry::Table), Ident::FeedEntry(FeedEntry::Title)),
        EntryTextField::Description => col_v(
            Ident::FeedEntry(FeedEntry::Table),
            Ident::FeedEntry(FeedEntry::Description),
        ),
        EntryTextField::Author => col_v(Ident::FeedEntry(FeedEntry::Table), Ident::FeedEntry(FeedEntry::Author)),
        EntryTextField::Tag => col_v(Ident::Tag(Tag::Table), Ident::Tag(Tag::Title)),
    }
}

/// The column that a boolean field of an entry names.
pub open spec fn entry_boolean_col(field: EntryBooleanField) -> ExprV {
    match field {
        EntryBooleanField::HasRead => col_v(
            Ident::ReadEntry(ReadEntry::Table),
            Ident::ReadEntry(ReadEntry::SubscriptionId),
        ),
    }
}

/// The column that a date field of an entry names.
pub open spec fn entry_date_col(field: EntryDateField) -> ExprV {
    match field {
        EntryDateField::PublishedAt => col_v(
            Ident::FeedEntry(FeedEntry::Table),
            Ident::FeedEntry(FeedEntry::PublishedAt),
        ),
    }
}

impl EntryTextField {
    /// The column that this field names in an entry query.
    pub fn to_column_expr(self) -> (r: SqlExpr)
        ensures
            r@ == entry_text_col(self),
    {
        match self {
            EntryTextField::Link => col(Ident::FeedEntry(FeedEntry::Table), Ident::FeedEntry(FeedEntry::Link)),
            EntryTextField::Title => col(Ident::FeedEntry(FeedEntry::Table), Ident::FeedEntry(FeedEntry::Title)),
            EntryTextField::Description => col(
                Ident::FeedEntry(FeedEntry::Table),
                Ident::FeedEntry(FeedEntry::Description),
            ),
            EntryTextField::Author => col(Ident::FeedEntry(FeedEntry::Table), Ident::FeedEntry(FeedEntry::Author)),
            EntryTextField::Tag => col(Ident::Tag(Tag::Table), Ident::Tag(Tag::Title)),
        }
    }
}

impl EntryBooleanField {
    /// The column that this field names in an entry query.
    pub fn to_column_expr(self) -> (r: SqlExpr)
        ensures
            r@ == entry_boolean_col(self),
    {
        match self {
            EntryBooleanField::HasRead => col(
                Ident::ReadEntry(ReadEntry::Table),
                Ident::ReadEntry(ReadEntry::SubscriptionId),
            ),
        }
    }
}

impl EntryDateField {
    /// The column that this field names in an entry query.
    pub fn to_column_expr(self) -> (r: SqlExpr)
        ensures
            r@ == entry_date_col(self),
    {
        match self {
            EntryDateField::PublishedAt => col(
                Ident::FeedEntry(FeedEntry::Table),
                Ident::FeedEntry(FeedEntry::PublishedAt),
            ),
        }
    }
}

/// `EXISTS (SELECT 1 FROM subscription_tags INNER JOIN tags ON tags.id =
/// subscription_tags.tag_id WHERE subscription_tags.subscription_id =
/// subscriptions.id AND cond)`.
pub open spec fn subscription_tag_exists_v(cond: ExprV) -> ExprV {
    ExprV::Exists(
        Box::new(
            SelectV {
                items: seq![ItemV::Expr(text_v("1"@))],
                joins: seq![
                    JoinV {
                        kind: JoinKind::Inner,
                        target: TargetV::Table(Ident::Tag(Tag::Table)),
                        on: bin_v(
                            col_v(Ident::Tag(Tag::Table), Ident::Tag(Tag::Id)),
                            BinOp::Eq,
                            col_v(
                                Ident::SubscriptionTag(SubscriptionTag::Table),
                                Ident::SubscriptionTag(SubscriptionTag::TagId),
                            ),
                        ),
                    },
                ],
                conditions: seq![
                    bin_v(
                        col_v(
                            Ident::SubscriptionTag(SubscriptionTag::Table),
                            Ident::SubscriptionTag(SubscriptionTag::SubscriptionId),
                        ),
                        BinOp::Eq,
                        col_v(
                            Ident::Subscription(Subscription::Table),
                            Ident::Subscription(Subscription::Id),
                        ),
                    ),
                    cond,
                ],
                ..empty_select_v(Ident::SubscriptionTag(SubscriptionTag::Table))
            },
        ),
    )
}

/// The condition of an entry filter; its date conditions take "now" as
/// Postgres writes it.
pub open spec fn entry_filter_v(f: EntryFilter) -> ExprV
    decreases f,
{
    match f {
        EntryFilter::Text { field, op } => match field {
            EntryTextField::Tag => subscription_tag_exists_v(text_op_v(entry_text_col(field), op)),
            _ => text_op_v(entry_text_col(field), op),
        },
        EntryFilter::Boolean { field, op } => boolean_op_v(entry_boolean_col(field), op),
        EntryFilter::Date { field, op } => date_op_v(entry_date_col(field), op, Dialect::Postgres),
        EntryFilter::And(fs) => combined_v(entry_filters_v(fs@), BinOp::And),
        EntryFilter::Or(fs) => combined_v(entry_filters_v(fs@), BinOp::Or),
        EntryFilter::Not(g) => ExprV::Not(Box::new(entry_filter_v(*g))),
    }
}

/// The conditions of a sequence of entry filters.
pub open spec fn entry_filters_v(fs: Seq<EntryFilter>) -> Seq<ExprV>
    decreases fs,
{
    if fs.len() == 0 {
        seq![]
    } else {
        entry_filters_v(fs.drop_last()).push(entry_filter_v(fs.last()))
    }
}

proof fn lemma_entry_filters_v(fs: Seq<EntryFilter>)
    ensures
        entry_filters_v(fs).len() == fs.len(),
        forall|i: int|
            0 <= i < fs.len() ==> #[trigger] entry_filters_v(fs)[i] == entry_filter_v(fs[i]),
        entry_filters_wf(fs) ==> forall|i: int|
            0 <= i < fs.len() ==> #[trigger] entry_filter_wf(fs[i]),
    decreases fs.len(),
{
    if fs.len() > 0 {
        lemma_entry_filters_v(fs.drop_last());
        assert forall|i: int| 0 <= i < fs.len() - 1 implies fs.drop_last()[i] == fs[i] by {}
        if entry_filters_wf(fs) {
            assert forall|i: int| 0 <= i < fs.len() implies #[trigger] entry_filter_wf(fs[i]) by {
                if i < fs.len() - 1 {
                    assert(entry_filter_wf(fs.drop_last()[i]));
                }
            }
        }
    }
}

fn subscription_tag_exists(cond: SqlExpr) -> (r: SqlExpr)
    ensures
        r@ == subscription_tag_exists_v(cond@),
{
    let mut q = exists_subquery(Ident::SubscriptionTag(SubscriptionTag::Table));
    q.join(
        JoinKind::Inner,
        JoinTarget::Table(Ident::Tag(Tag::Table)),
        cols_eq(
            Ident::Tag(Tag::Table),
            Ident::Tag(Tag::Id),
            Ident::SubscriptionTag(SubscriptionTag::Table),
            Ident::SubscriptionTag(SubscriptionTag::TagId),
        ),
    );
    q.and_where(
        cols_eq(
            Ident::SubscriptionTag(SubscriptionTag::Table),
            Ident::SubscriptionTag(SubscriptionTag::SubscriptionId),
            Ident::Subscription(Subscription::Table),
            Ident::Subscription(Subscription::Id),
        ),
    );
    q.and_where(cond);
    let r = SqlExpr::Exists(Box::new(q));
    proof {
        crate::plan::lemma_select_eq(q@, match subscription_tag_exists_v(cond@) {
            ExprV::Exists(b) => *b,
            _ => q@,
        });
    }
    r
}

impl EntryFilter {
    /// The condition of this filter on a subscription entry query.
    pub fn to_condition(&self) -> (r: SqlExpr)
        requires
            entry_filter_wf(*self),
        ensures
            r@ == entry_filter_v(*self),
        decreases self,
    {
        match self {
            EntryFilter::Text { field, op } => match field {
                EntryTextField::Tag => subscription_tag_exists(text_op_expr(field.to_column_expr(), op)),
                _ => text_op_expr(field.to_column_expr(), op),
            },
            EntryFilter::Boolean { field, op } => boolean_op_expr(field.to_column_expr(), *op),
            EntryFilter::Date { field, op } => date_op_expr(field.to_column_expr(), *op, Dialect::Postgres),
            EntryFilter::And(fs) => combine_exprs(Self::conditions(fs), BinOp::And),
            EntryFilter::Or(fs) => combine_exprs(Self::conditions(fs), BinOp::Or),
            EntryFilter::Not(g) => not(g.to_condition()),
        }
    }

    fn conditions(fs: &Vec<EntryFilter>) -> (r: Vec<SqlExpr>)
        requires
            entry_filters_wf(fs@),
        ensures
            r@.len() == fs@.len(),
            exprs_v(r@) == entry_filters_v(fs@),
        decreases fs,
    {
        proof {
            lemma_entry_filters_v(fs@);
        }
        let mut r: Vec<SqlExpr> = Vec::new();
        let mut i: usize = 0;
        while i < fs.len()
            invariant
                i <= fs.len(),
                r@.len() == i,
                entry_filters_v(fs@).len() == fs@.len(),
                forall|j: int|
                    0 <= j < fs@.len() ==> #[trigger] entry_filters_v(fs@)[j] == entry_filter_v(fs@[j]),
                forall|j: int| 0 <= j < fs@.len() ==> #[trigger] entry_filter_wf(fs@[j]),
                forall|j: int| 0 <= j < i ==> #[trigger] expr_v(r@[j]) == entry_filter_v(fs@[j]),
            decreases fs.len() - i,
        {
            let c = fs[i].to_condition();
            r.push(c);
            i = i + 1;
        }
        proof {
            lemma_exprs_v_index(r@);
            assert(exprs_v(r@) =~= entry_filters_v(fs@));
        }
        r
    }
}

// ---------------------------------------------------------------------------
// Laws of combined filters.

proof fn lemma_fold_one(part: ExprV, op: BinOp)
    ensures
        combined_v(seq![part], op) == part,
{
    assert(combined_order(seq![part]) == seq![part]);
}

/// The condition of a conjunction or disjunction of one bookmark filter is the
/// condition of that filter alone.
pub proof fn bookmark_single_part(fs: Vec<BookmarkFilter>, dialect: Dialect)
    requires
        fs@.len() == 1,
    ensures
        bookmark_filter_v(BookmarkFilter::And(fs), dialect) == bookmark_filter_v(fs@[0], dialect),
        bookmark_filter_v(BookmarkFilter::Or(fs), dialect) == bookmark_filter_v(fs@[0], dialect),
{
    assert(fs@.drop_last() =~= Seq::<BookmarkFilter>::empty());
    assert(fs@.last() == fs@[0]);
    assert(bookmark_filters_v(Seq::<BookmarkFilter>::empty(), dialect) =~= seq![]);
    assert(bookmark_filters_v(fs@, dialect) =~= seq![bookmark_filter_v(fs@[0], dialect)]);
    lemma_fold_one(bookmark_filter_v(fs@[0], dialect), BinOp::And);
    lemma_fold_one(bookmark_filter_v(fs@[0], dialect), BinOp::Or);
}

/// The condition of a conjunction or disjunction of one entry filter is the
/// condition of that filter alone.
pub proof fn entry_single_part(fs: Vec<EntryFilter>)
    requires
        fs@.len() == 1,
    ensures
        entry_filter_v(EntryFilter::And(fs)) == entry_filter_v(fs@[0]),
        entry_filter_v(EntryFilter::Or(fs)) == entry_filter_v(fs@[0]),
{
    assert(fs@.drop_last() =~= Seq::<EntryFilter>::empty());
    assert(fs@.last() == fs@[0]);
    assert(entry_filters_v(Seq::<EntryFilter>::empty()) =~= seq![]);
    assert(entry_filters_v(fs@) =~= seq![entry_filter_v(fs@[0])]);
    lemma_fold_one(entry_filter_v(fs@[0]), BinOp::And);
    lemma_fold_one(entry_filter_v(fs@[0]), BinOp::Or);
}

/// Whether `e` is `k` applications of `op` nested to the left, from
/// `leftmost` outwards: `((leftmost op _) op _) ...`.
pub open spec fn left_chain(e: ExprV, op: BinOp, k: nat, leftmost: ExprV) -> bool
    decreases k,
{
    if k == 0 {
        e == leftmost
    } else {
        match e {
            ExprV::Binary(l, o, _) => o == op && left_chain(*l, op, (k - 1) as nat, leftmost),
            _ => false,
        }
    }
}

proof fn lemma_fold_chain(parts: Seq<ExprV>, op: BinOp)
    requires
        parts.len() >= 1,
    ensures
        left_chain(fold_v(parts, op), op, (parts.len() - 1) as nat, parts[0]),
    decreases parts.len(),
{
    if parts.len() > 1 {
        let d = parts.drop_last();
        assert(d[0] == parts[0]);
        lemma_fold_chain(d, op);
    }
}

proof fn lemma_combined_chain(parts: Seq<ExprV>, op: BinOp)
    requires
        parts.len() >= 1,
    ensures
        left_chain(combined_v(parts, op), op, (parts.len() - 1) as nat, parts[0]),
{
    crate::filter::combined_order_rearranges(parts);
    let o = combined_order(parts);
    assert(o[0] == parts[0]);
    lemma_fold_chain(o, op);
}

/// The condition of a disjunction of n bookmark filters joins their
/// conditions with OR and nothing else: n - 1 ORs nested to the left from the
/// condition of the first filter; a conjunction does the same with AND.
pub proof fn bookmark_combined_condition_ops(fs: Vec<BookmarkFilter>, dialect: Dialect)
    requires
        fs@.len() >= 1,
    ensures
        left_chain(
            bookmark_filter_v(BookmarkFilter::Or(fs), dialect),
            BinOp::Or,
            (fs@.len() - 1) as nat,
            bookmark_filter_v(fs@[0], dialect),
        ),
        left_chain(
            bookmark_filter_v(BookmarkFilter::And(fs), dialect),
            BinOp::And,
            (fs@.len() - 1) as nat,
            bookmark_filter_v(fs@[0], dialect),
        ),
{
    lemma_bookmark_filters_v(fs@, dialect);
    let parts = bookmark_filters_v(fs@, dialect);
    assert(parts[0] == bookmark_filter_v(fs@[0], dialect));
    lemma_combined_chain(parts, BinOp::Or);
    lemma_combined_chain(parts, BinOp::And);
}

/// The condition of a disjunction of n entry filters joins their conditions
/// with OR and nothing else, and a conjunction with AND: n - 1 of them nested
/// to the left from the condition of the first filter.
pub proof fn entry_combined_condition_ops(fs: Vec<EntryFilter>)
    requires
        fs@.len() >= 1,
    ensures
        left_chain(
            entry_filter_v(EntryFilter::Or(fs)),
            BinOp::Or,
            (fs@.len() - 1) as nat,
            entry_filter_v(fs@[0]),
        ),
        left_chain(
            entry_filter_v(EntryFilter::And(fs)),
            BinOp::And,
            (fs@.len() - 1) as nat,
            entry_filter_v(fs@[0]),
        ),
{
    lemma_entry_filters_v(fs@);
    let parts = entry_filters_v(fs@);
    assert(parts[0] == entry_filter_v(fs@[0]));
    lemma_combined_chain(parts, BinOp::Or);
    lemma_combined_chain(parts, BinOp::And);
}

} // verus!
