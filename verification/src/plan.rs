//! Query plans: the statements that the query builders describe, as data. A
//! plan names the tables and columns by their identifiers, and holds the
//! conditions, joins, orderings and rows of one SQL statement; the SQL builder
//! turns it into text for a given dialect.

use vstd::prelude::*;

use crate::schema::{
    Account, ApiKey, Bookmark, BookmarkTag, Collection, Feed, FeedEntry, Job, ReadEntry, Session,
    Stream, Subscription, SubscriptionTag, Tag, User,
};
use crate::time::UtcDateTime;

verus! {

/// A name that a plan introduces for a derived table or a computed column.
#[derive(Clone, Copy, Debug, PartialEq, Eq, Structural)]
pub enum Alias {
    SubscriptionId,
    HasRead,
    UnreadCount,
    UcAgg,
    FeedTitle,
    Tags,
    TagsAgg,
    T,
    SubscriptionCount,
    BookmarkCount,
}

impl Alias {
    /// The name of this alias.
    pub open spec fn spec_name(self) -> Seq<char> {
        match self {
            Alias::SubscriptionId => "subscription_id"@,
            Alias::HasRead => "has_read"@,
            Alias::UnreadCount => "unread_count"@,
            Alias::UcAgg => "uc_agg"@,
            Alias::FeedTitle => "feed_title"@,
            Alias::Tags => "tags"@,
            Alias::TagsAgg => "tags_agg"@,
            Alias::T => "t"@,
            Alias::SubscriptionCount => "subscription_count"@,
            Alias::BookmarkCount => "bookmark_count"@,
        }
    }

    /// The name of this alias.
    pub fn name(&self) -> (r: &'static str)
        ensures
            r@ == self.spec_name(),
    {
        match self {
            Alias::SubscriptionId => "subscription_id",
            Alias::HasRead => "has_read",
            Alias::UnreadCount => "unread_count",
            Alias::UcAgg => "uc_agg",
            Alias::FeedTitle => "feed_title",
            Alias::Tags => "tags",
            Alias::TagsAgg => "tags_agg",
            Alias::T => "t",
            Alias::SubscriptionCount => "subscription_count",
            Alias::BookmarkCount => "bookmark_count",
        }
    }
}

/// A table, a column of a table, or an alias.
#[derive(Clone, Copy, Debug, PartialEq, Eq, Structural)]
pub enum Ident {
    Account(Account),
    ApiKey(ApiKey),
    Bookmark(Bookmark),
    BookmarkTag(BookmarkTag),
    Collection(Collection),
    Feed(Feed),
    FeedEntry(FeedEntry),
    Job(Job),
    ReadEntry(ReadEntry),
    Session(Session),
    Stream(Stream),
    Subscription(Subscription),
    SubscriptionTag(SubscriptionTag),
    Tag(Tag),
    User(User),
    Alias(Alias),
}

impl Ident {
    /// The unquoted SQL name of this identifier.
    pub open spec fn spec_name(self) -> Seq<char> {
        match self {
            Ident::Account(x) => x.spec_name(),
            Ident::ApiKey(x) => x.spec_name(),
            Ident::Bookmark(x) => x.spec_name(),
            Ident::BookmarkTag(x) => x.spec_name(),
            Ident::Collection(x) => x.spec_name(),
            Ident::Feed(x) => x.spec_name(),
            Ident::FeedEntry(x) => x.spec_name(),
            Ident::Job(x) => x.spec_name(),
            Ident::ReadEntry(x) => x.spec_name(),
            Ident::Session(x) => x.spec_name(),
            Ident::Stream(x) => x.spec_name(),
            Ident::Subscription(x) => x.spec_name(),
            Ident::SubscriptionTag(x) => x.spec_name(),
            Ident::Tag(x) => x.spec_name(),
            Ident::User(x) => x.spec_name(),
            Ident::Alias(x) => x.spec_name(),
        }
    }

    /// The unquoted SQL name of this identifier.
    pub fn name(&self) -> (r: &'static str)
        ensures
            r@ == self.spec_name(),
    {
        match self {
            Ident::Account(x) => x.name(),
            Ident::ApiKey(x) => x.name(),
            Ident::Bookmark(x) => x.name(),
            Ident::BookmarkTag(x) => x.name(),
            Ident::Collection(x) => x.name(),
            Ident::Feed(x) => x.name(),
            Ident::FeedEntry(x) => x.name(),
            Ident::Job(x) => x.name(),
            Ident::ReadEntry(x) => x.name(),
            Ident::Session(x) => x.name(),
            Ident::Stream(x) => x.name(),
            Ident::Subscription(x) => x.name(),
            Ident::SubscriptionTag(x) => x.name(),
            Ident::Tag(x) => x.name(),
            Ident::User(x) => x.name(),
            Ident::Alias(x) => x.name(),
        }
    }
}

/// What a statement reads or names: every column, a column, a column of a
/// table, or every column of a table.
#[derive(Clone, Copy, Debug, PartialEq, Eq, Structural)]
pub enum ColumnRef {
    All,
    Col(Ident),
    TableCol(Ident, Ident),
    TableAll(Ident),
}

/// A piece of SQL that the plans write out as it is.
#[derive(Clone, Copy, Debug, PartialEq, Eq, Structural)]
pub enum CustomSql {
    /// `jsonb_agg (jsonb_build_object (...) ORDER BY t.title)`, aggregating the
    /// tags joined as `t` in Postgres.
    PostgresTagsAgg,
    /// `json_group_array (json_object (...) ORDER BY t.title)`, aggregating the
    /// tags joined as `t` in SQLite.
    SqliteTagsAgg,
    /// `'[]'`.
    EmptyJsonArray,
    /// `0`.
    Zero,
    /// `interval '1 minute'`.
    OneMinute,
    /// `extract(epoch from now())`.
    PostgresEpochNow,
    /// The empty text, which stands for the current instant in SQLite.
    SqliteEpochNow,
}

impl CustomSql {
    /// The text of this piece of SQL.
    pub open spec fn spec_text(self) -> Seq<char> {
        match self {
            CustomSql::PostgresTagsAgg => "jsonb_agg (jsonb_build_object ('id', t.id, 'title', t.title, 'user_id', t.user_id, 'created_at', t.created_at, 'updated_at', t.updated_at) ORDER BY t.title)"@,
            CustomSql::SqliteTagsAgg => "json_group_array (json_object ('id', hex(t.id), 'title', t.title, 'user_id', hex(t.user_id), 'created_at', t.created_at, 'updated_at', t.updated_at) ORDER BY t.title)"@,
            CustomSql::EmptyJsonArray => "'[]'"@,
            CustomSql::Zero => "0"@,
            CustomSql::OneMinute => "interval '1 minute'"@,
            CustomSql::PostgresEpochNow => "extract(epoch from now())"@,
            CustomSql::SqliteEpochNow => ""@,
        }
    }

    /// The text of this piece of SQL.
    pub fn text(&self) -> (r: &'static str)
        ensures
            r@ == self.spec_text(),
    {
        match self {
            CustomSql::PostgresTagsAgg => "jsonb_agg (jsonb_build_object ('id', t.id, 'title', t.title, 'user_id', t.user_id, 'created_at', t.created_at, 'updated_at', t.updated_at) ORDER BY t.title)",
            CustomSql::SqliteTagsAgg => "json_group_array (json_object ('id', hex(t.id), 'title', t.title, 'user_id', hex(t.user_id), 'created_at', t.created_at, 'updated_at', t.updated_at) ORDER BY t.title)",
            CustomSql::EmptyJsonArray => "'[]'",
            CustomSql::Zero => "0",
            CustomSql::OneMinute => "interval '1 minute'",
            CustomSql::PostgresEpochNow => "extract(epoch from now())",
            CustomSql::SqliteEpochNow => "",
        }
    }
}

/// A JSON document, as serde_json holds it; the plans carry it through unread.
#[verifier::external_type_specification]
#[verifier::external_body]
pub struct ExJsonValue(serde_json::Value);

/// A value bound to a statement; `None` stands for SQL `NULL` of that type.
#[derive(Debug, PartialEq, Eq)]
pub enum SqlValue {
    Bool(Option<bool>),
    Int(Option<i32>),
    BigInt(Option<i64>),
    BigUnsigned(Option<u64>),
    Text(Option<String>),
    Uuid(Option<u128>),
    DateTime(Option<UtcDateTime>),
    Json(Option<serde_json::Value>),
}

/// A bound value with its text as a sequence of characters.
pub enum ValueV {
    Bool(Option<bool>),
    Int(Option<i32>),
    BigInt(Option<i64>),
    BigUnsigned(Option<u64>),
    Text(Option<Seq<char>>),
    Uuid(Option<u128>),
    DateTime(Option<UtcDateTime>),
    Json(Option<serde_json::Value>),
}

impl View for SqlValue {
    type V = ValueV;

    open spec fn view(&self) -> ValueV {
        match self {
            SqlValue::Bool(v) => ValueV::Bool(*v),
            SqlValue::Int(v) => ValueV::Int(*v),
            SqlValue::BigInt(v) => ValueV::BigInt(*v),
            SqlValue::BigUnsigned(v) => ValueV::BigUnsigned(*v),
            SqlValue::Text(v) => ValueV::Text(
                match v {
                    Some(s) => Some(s@),
                    None => None,
                },
            ),
            SqlValue::Uuid(v) => ValueV::Uuid(*v),
            SqlValue::DateTime(v) => ValueV::DateTime(*v),
            SqlValue::Json(v) => ValueV::Json(*v),
        }
    }
}

/// The views of a sequence of values.
pub open spec fn values_v(vs: Seq<SqlValue>) -> Seq<ValueV> {
    vs.map_values(|v: SqlValue| v@)
}

/// A binary operator.
#[derive(Clone, Copy, Debug, PartialEq, Eq, Structural)]
pub enum BinOp {
    Eq,
    Lt,
    Gt,
    Lte,
    Like,
    And,
    Or,
    Add,
    Sub,
    Mul,
}

/// An ordering direction.
#[derive(Clone, Copy, Debug, PartialEq, Eq, Structural)]
pub enum Order {
    Asc,
    Desc,
}

/// A kind of join.
#[derive(Clone, Copy, Debug, PartialEq, Eq, Structural)]
pub enum JoinKind {
    Inner,
    Left,
}

/// An SQL expression.
#[derive(Debug, PartialEq)]
pub enum SqlExpr {
    Column(ColumnRef),
    Value(SqlValue),
    Custom(CustomSql),
    Tuple(Vec<SqlExpr>),
    CurrentTimestamp,
    Binary(Box<SqlExpr>, BinOp, Box<SqlExpr>),
    In(Box<SqlExpr>, Vec<SqlValue>),
    NotIn(Box<SqlExpr>, Vec<SqlValue>),
    IsNull(Box<SqlExpr>),
    IsNotNull(Box<SqlExpr>),
    Between(Box<SqlExpr>, Box<SqlExpr>, Box<SqlExpr>),
    Exists(Box<SelectPlan>),
    Not(Box<SqlExpr>),
    Count(Box<SqlExpr>),
    Coalesce(Vec<SqlExpr>),
}

/// What a select statement returns: a column, or an expression under a name.
#[derive(Debug, PartialEq)]
pub enum SelectItem {
    Column(ColumnRef),
    Expr(SqlExpr),
    ExprAs(SqlExpr, Ident),
}

/// What a join brings in: a table, a table under a name, or a subquery under a
/// name.
#[derive(Debug, PartialEq)]
pub enum JoinTarget {
    Table(Ident),
    TableAs(Ident, Ident),
    Subquery(Box<SelectPlan>, Ident),
}

/// A join with its condition.
#[derive(Debug, PartialEq)]
pub struct Join {
    pub kind: JoinKind,
    pub target: JoinTarget,
    pub on: SqlExpr,
}

/// A select statement. The conditions and having clauses are joined with AND.
#[derive(Debug, PartialEq)]
pub struct SelectPlan {
    pub items: Vec<SelectItem>,
    pub from: Ident,
    pub joins: Vec<Join>,
    pub conditions: Vec<SqlExpr>,
    pub group_by: Vec<ColumnRef>,
    pub having: Vec<SqlExpr>,
    pub order_by: Vec<(ColumnRef, Order)>,
    pub limit: Option<u64>,
}

/// The view of an expression.
pub enum ExprV {
    Column(ColumnRef),
    Value(ValueV),
    Custom(CustomSql),
    Tuple(Seq<ExprV>),
    CurrentTimestamp,
    Binary(Box<ExprV>, BinOp, Box<ExprV>),
    In(Box<ExprV>, Seq<ValueV>),
    NotIn(Box<ExprV>, Seq<ValueV>),
    IsNull(Box<ExprV>),
    IsNotNull(Box<ExprV>),
    Between(Box<ExprV>, Box<ExprV>, Box<ExprV>),
    Exists(Box<SelectV>),
    Not(Box<ExprV>),
    Count(Box<ExprV>),
    Coalesce(Seq<ExprV>),
}

/// The view of a select item.
pub enum ItemV {
    Column(ColumnRef),
    Expr(ExprV),
    ExprAs(ExprV, Ident),
}

/// The view of a join target.
pub enum TargetV {
    Table(Ident),
    TableAs(Ident, Ident),
    Subquery(Box<SelectV>, Ident),
}

/// The view of a join.
#[verifier::ext_equal]
pub struct JoinV {
    pub kind: JoinKind,
    pub target: TargetV,
    pub on: ExprV,
}

/// The view of a select statement.
#[verifier::ext_equal]
pub struct SelectV {
    pub items: Seq<ItemV>,
    pub from: Ident,
    pub joins: Seq<JoinV>,
    pub conditions: Seq<ExprV>,
    pub group_by: Seq<ColumnRef>,
    pub having: Seq<ExprV>,
    pub order_by: Seq<(ColumnRef, Order)>,
    pub limit: Option<u64>,
}

/// The view of an expression.
pub open spec fn expr_v(e: SqlExpr) -> ExprV
    decreases e,
{
    match e {
        SqlExpr::Column(c) => ExprV::Column(c),
        SqlExpr::Value(v) => ExprV::Value(v@),
        SqlExpr::Custom(c) => ExprV::Custom(c),
        SqlExpr::Tuple(es) => ExprV::Tuple(exprs_v(es@)),
        SqlExpr::CurrentTimestamp => ExprV::CurrentTimestamp,
        SqlExpr::Binary(l, op, r) => ExprV::Binary(Box::new(expr_v(*l)), op, Box::new(expr_v(*r))),
        SqlExpr::In(l, vs) => ExprV::In(Box::new(expr_v(*l)), values_v(vs@)),
        SqlExpr::NotIn(l, vs) => ExprV::NotIn(Box::new(expr_v(*l)), values_v(vs@)),
        SqlExpr::IsNull(l) => ExprV::IsNull(Box::new(expr_v(*l))),
        SqlExpr::IsNotNull(l) => ExprV::IsNotNull(Box::new(expr_v(*l))),
        SqlExpr::Between(a, b, c) => ExprV::Between(
            Box::new(expr_v(*a)),
            Box::new(expr_v(*b)),
            Box::new(expr_v(*c)),
        ),
        SqlExpr::Exists(q) => ExprV::Exists(Box::new(select_v(*q))),
        SqlExpr::Not(l) => ExprV::Not(Box::new(expr_v(*l))),
        SqlExpr::Count(l) => ExprV::Count(Box::new(expr_v(*l))),
        SqlExpr::Coalesce(es) => ExprV::Coalesce(exprs_v(es@)),
    }
}

/// The views of a sequence of expressions.
pub open spec fn exprs_v(es: Seq<SqlExpr>) -> Seq<ExprV>
    decreases es,
{
    if es.len() == 0 {
        seq![]
    } else {
        exprs_v(es.drop_last()).push(expr_v(es.last()))
    }
}

/// The views of a sequence of select items.
pub open spec fn items_v(items: Seq<SelectItem>) -> Seq<ItemV>
    decreases items,
{
    if items.len() == 0 {
        seq![]
    } else {
        items_v(items.drop_last()).push(
            match items.last() {
                SelectItem::Column(c) => ItemV::Column(c),
                SelectItem::Expr(e) => ItemV::Expr(expr_v(e)),
                SelectItem::ExprAs(e, a) => ItemV::ExprAs(expr_v(e), a),
            },
        )
    }
}

/// The views of a sequence of joins.
pub open spec fn joins_v(joins: Seq<Join>) -> Seq<JoinV>
    decreases joins,
{
    if joins.len() == 0 {
        seq![]
    } else {
        let j = joins.last();
        joins_v(joins.drop_last()).push(
            JoinV {
                kind: j.kind,
                target: match j.target {
                    JoinTarget::Table(t) => TargetV::Table(t),
                    JoinTarget::TableAs(t, a) => TargetV::TableAs(t, a),
                    JoinTarget::Subquery(q, a) => TargetV::Subquery(Box::new(select_v(*q)), a),
                },
                on: expr_v(j.on),
            },
        )
    }
}

/// The view of a select statement.
pub open spec fn select_v(p: SelectPlan) -> SelectV
    decreases p,
{
    SelectV {
        items: items_v(p.items@),
        from: p.from,
        joins: joins_v(p.joins@),
        conditions: exprs_v(p.conditions@),
        group_by: p.group_by@,
        having: exprs_v(p.having@),
        order_by: p.order_by@,
        limit: p.limit,
    }
}

impl View for SelectPlan {
    type V = SelectV;

    open spec fn view(&self) -> SelectV {
        select_v(*self)
    }
}

impl View for SqlExpr {
    type V = ExprV;

    open spec fn view(&self) -> ExprV {
        expr_v(*self)
    }
}

// ---------------------------------------------------------------------------
// Building expressions.

/// A column of a table.
pub open spec fn col_v(t: Ident, c: Ident) -> ExprV {
    ExprV::Column(ColumnRef::TableCol(t, c))
}

/// A column named without its table.
pub open spec fn bare_v(c: Ident) -> ExprV {
    ExprV::Column(ColumnRef::Col(c))
}

/// A binary expression.
pub open spec fn bin_v(l: ExprV, op: BinOp, r: ExprV) -> ExprV {
    ExprV::Binary(Box::new(l), op, Box::new(r))
}

/// A bound UUID.
pub open spec fn uuid_v(u: u128) -> ExprV {
    ExprV::Value(ValueV::Uuid(Some(u)))
}

/// A bound text.
pub open spec fn text_v(s: Seq<char>) -> ExprV {
    ExprV::Value(ValueV::Text(Some(s)))
}

/// A bound instant.
pub open spec fn date_v(d: UtcDateTime) -> ExprV {
    ExprV::Value(ValueV::DateTime(Some(d)))
}

/// A bound boolean.
pub open spec fn bool_v(b: bool) -> ExprV {
    ExprV::Value(ValueV::Bool(Some(b)))
}

/// A bound 32-bit integer.
pub open spec fn int_v(i: i32) -> ExprV {
    ExprV::Value(ValueV::Int(Some(i)))
}

/// A text copied from a string slice.
pub fn text_of(s: &str) -> (r: String)
    ensures
        r@ == s@,
{
    let mut r = String::new();
    r.append(s);
    r
}

/// A column of a table.
pub fn col(t: Ident, c: Ident) -> (r: SqlExpr)
    ensures
        r@ == col_v(t, c),
{
    SqlExpr::Column(ColumnRef::TableCol(t, c))
}

/// A column named without its table.
pub fn bare(c: Ident) -> (r: SqlExpr)
    ensures
        r@ == bare_v(c),
{
    SqlExpr::Column(ColumnRef::Col(c))
}

/// A binary expression.
pub fn bin(l: SqlExpr, op: BinOp, r: SqlExpr) -> (e: SqlExpr)
    ensures
        e@ == bin_v(l@, op, r@),
{
    SqlExpr::Binary(Box::new(l), op, Box::new(r))
}

/// A bound UUID.
pub fn uuid(u: u128) -> (r: SqlExpr)
    ensures
        r@ == uuid_v(u),
{
    SqlExpr::Value(SqlValue::Uuid(Some(u)))
}

/// A bound text.
pub fn text(s: &str) -> (r: SqlExpr)
    ensures
        r@ == text_v(s@),
{
    SqlExpr::Value(SqlValue::Text(Some(text_of(s))))
}

/// A bound instant.
pub fn date(d: UtcDateTime) -> (r: SqlExpr)
    ensures
        r@ == date_v(d),
{
    SqlExpr::Value(SqlValue::DateTime(Some(d)))
}

/// A bound boolean.
pub fn boolean(b: bool) -> (r: SqlExpr)
    ensures
        r@ == bool_v(b),
{
    SqlExpr::Value(SqlValue::Bool(Some(b)))
}

/// A bound 32-bit integer.
pub fn integer(i: i32) -> (r: SqlExpr)
    ensures
        r@ == int_v(i),
{
    SqlExpr::Value(SqlValue::Int(Some(i)))
}

/// `left = right` on two columns.
pub fn cols_eq(lt: Ident, lc: Ident, rt: Ident, rc: Ident) -> (r: SqlExpr)
    ensures
        r@ == bin_v(col_v(lt, lc), BinOp::Eq, col_v(rt, rc)),
{
    bin(col(lt, lc), BinOp::Eq, col(rt, rc))
}

/// `NOT e`.
pub fn not(e: SqlExpr) -> (r: SqlExpr)
    ensures
        r@ == ExprV::Not(Box::new(e@)),
{
    SqlExpr::Not(Box::new(e))
}

/// The views of UUIDs bound as values.
pub open spec fn uuid_values_v(ids: Seq<u128>) -> Seq<ValueV> {
    ids.map_values(|u: u128| ValueV::Uuid(Some(u)))
}

/// The views of texts bound as values.
pub open spec fn text_values_v(ts: Seq<Seq<char>>) -> Seq<ValueV> {
    ts.map_values(|t: Seq<char>| ValueV::Text(Some(t)))
}

/// Binds each UUID as a value.
pub fn uuid_values(ids: &Vec<u128>) -> (r: Vec<SqlValue>)
    ensures
        values_v(r@) == uuid_values_v(ids@),
{
    let mut r: Vec<SqlValue> = Vec::new();
    let mut i: usize = 0;
    while i < ids.len()
        invariant
            i <= ids@.len(),
            values_v(r@) == uuid_values_v(ids@.subrange(0, i as int)),
        decreases ids.len() - i,
    {
        let v = SqlValue::Uuid(Some(ids[i]));
        let ghost before = r@;
        r.push(v);
        assert(r@ == before.push(v));
        assert(v@ == ValueV::Uuid(Some(ids@[i as int])));
        assert(values_v(r@) =~= values_v(before).push(v@));
        assert(uuid_values_v(ids@.subrange(0, i + 1)) =~= uuid_values_v(ids@.subrange(0, i as int)).push(ValueV::Uuid(Some(ids@[i as int]))));
        assert(values_v(r@) =~= uuid_values_v(ids@.subrange(0, i + 1)));
        i = i + 1;
    }
    assert(ids@.subrange(0, ids@.len() as int) =~= ids@);
    r
}

/// The texts of string slices.
pub open spec fn str_texts(ts: Seq<&str>) -> Seq<Seq<char>> {
    ts.map_values(|t: &str| t@)
}

/// Binds each text as a value.
pub fn text_values(ts: &Vec<&str>) -> (r: Vec<SqlValue>)
    ensures
        values_v(r@) == text_values_v(str_texts(ts@)),
{
    let mut r: Vec<SqlValue> = Vec::new();
    let mut i: usize = 0;
    while i < ts.len()
        invariant
            i <= ts@.len(),
            values_v(r@) == text_values_v(str_texts(ts@.subrange(0, i as int))),
        decreases ts.len() - i,
    {
        let v = SqlValue::Text(Some(text_of(ts[i])));
        let ghost before = r@;
        r.push(v);
        assert(r@ == before.push(v));
        assert(values_v(r@) =~= values_v(before).push(v@));
        assert(text_values_v(str_texts(ts@.subrange(0, i + 1))) =~= text_values_v(str_texts(ts@.subrange(0, i as int))).push(ValueV::Text(Some(ts@[i as int]@))));
        assert(values_v(r@) =~= text_values_v(str_texts(ts@.subrange(0, i + 1))));
        i = i + 1;
    }
    assert(ts@.subrange(0, ts@.len() as int) =~= ts@);
    r
}

// ---------------------------------------------------------------------------
// Building select statements.

/// A select statement on `from` with nothing else yet.
pub open spec fn empty_select_v(from: Ident) -> SelectV {
    SelectV {
        items: seq![],
        from,
        joins: seq![],
        conditions: seq![],
        group_by: seq![],
        having: seq![],
        order_by: seq![],
        limit: None,
    }
}

/// The condition that applies where the parameter is given.
pub open spec fn when_v<A>(o: Option<A>, f: spec_fn(A) -> ExprV) -> Seq<ExprV> {
    match o {
        Some(a) => seq![f(a)],
        None => seq![],
    }
}

proof fn lemma_exprs_push(es: Seq<SqlExpr>, e: SqlExpr)
    ensures
        exprs_v(es.push(e)) == exprs_v(es).push(expr_v(e)),
{
    assert(es.push(e).drop_last() =~= es);
}

proof fn lemma_items_push(items: Seq<SelectItem>, i: SelectItem)
    ensures
        items_v(items.push(i)) == items_v(items).push(
            match i {
                SelectItem::Column(c) => ItemV::Column(c),
                SelectItem::Expr(e) => ItemV::Expr(expr_v(e)),
                SelectItem::ExprAs(e, a) => ItemV::ExprAs(expr_v(e), a),
            },
        ),
{
    assert(items.push(i).drop_last() =~= items);
}

proof fn lemma_joins_push(joins: Seq<Join>, j: Join)
    ensures
        joins_v(joins.push(j)) == joins_v(joins).push(
            JoinV {
                kind: j.kind,
                target: match j.target {
                    JoinTarget::Table(t) => TargetV::Table(t),
                    JoinTarget::TableAs(t, a) => TargetV::TableAs(t, a),
                    JoinTarget::Subquery(q, a) => TargetV::Subquery(Box::new(select_v(*q)), a),
                },
                on: expr_v(j.on),
            },
        ),
{
    assert(joins.push(j).drop_last() =~= joins);
}

/// The view of a join target.
pub open spec fn target_v(t: JoinTarget) -> TargetV {
    match t {
        JoinTarget::Table(t) => TargetV::Table(t),
        JoinTarget::TableAs(t, a) => TargetV::TableAs(t, a),
        JoinTarget::Subquery(q, a) => TargetV::Subquery(Box::new(select_v(*q)), a),
    }
}

impl SelectPlan {
    /// A select statement on `from` with nothing else yet.
    pub fn new(from: Ident) -> (r: SelectPlan)
        ensures
            r@ == empty_select_v(from),
    {
        let r = SelectPlan {
            items: Vec::new(),
            from,
            joins: Vec::new(),
            conditions: Vec::new(),
            group_by: Vec::new(),
            having: Vec::new(),
            order_by: Vec::new(),
            limit: None,
        };
        assert(exprs_v(r.conditions@) =~= seq![]);
        assert(exprs_v(r.having@) =~= seq![]);
        assert(items_v(r.items@) =~= seq![]);
        assert(joins_v(r.joins@) =~= seq![]);
        r
    }

    /// Returns `c` too.
    pub fn column(&mut self, c: ColumnRef)
        ensures
            final(self)@ == (SelectV { items: old(self)@.items.push(ItemV::Column(c)), ..old(self)@ }),
    {
        proof {
            lemma_items_push(self.items@, SelectItem::Column(c));
        }
        self.items.push(SelectItem::Column(c));
    }

    /// Returns `e` too.
    pub fn expr(&mut self, e: SqlExpr)
        ensures
            final(self)@ == (SelectV { items: old(self)@.items.push(ItemV::Expr(e@)), ..old(self)@ }),
    {
        proof {
            lemma_items_push(self.items@, SelectItem::Expr(e));
        }
        self.items.push(SelectItem::Expr(e));
    }

    /// Returns `e` too, named `a`.
    pub fn expr_as(&mut self, e: SqlExpr, a: Ident)
        ensures
            final(self)@ == (SelectV {
                items: old(self)@.items.push(ItemV::ExprAs(e@, a)),
                ..old(self)@
            }),
    {
        proof {
            lemma_items_push(self.items@, SelectItem::ExprAs(e, a));
        }
        self.items.push(SelectItem::ExprAs(e, a));
    }

    /// Keeps only the rows where `e` holds too.
    pub fn and_where(&mut self, e: SqlExpr)
        ensures
            final(self)@ == (SelectV { conditions: old(self)@.conditions.push(e@), ..old(self)@ }),
    {
        proof {
            lemma_exprs_push(self.conditions@, e);
        }
        self.conditions.push(e);
    }

    /// Keeps only the groups where `e` holds too.
    pub fn and_having(&mut self, e: SqlExpr)
        ensures
            final(self)@ == (SelectV { having: old(self)@.having.push(e@), ..old(self)@ }),
    {
        proof {
            lemma_exprs_push(self.having@, e);
        }
        self.having.push(e);
    }

    /// Joins `target` on `on`.
    pub fn join(&mut self, kind: JoinKind, target: JoinTarget, on: SqlExpr)
        ensures
            final(self)@ == (SelectV {
                joins: old(self)@.joins.push(JoinV { kind, target: target_v(target), on: on@ }),
                ..old(self)@
            }),
    {
        proof {
            lemma_joins_push(self.joins@, Join { kind, target, on });
        }
        self.joins.push(Join { kind, target, on });
    }

    /// Groups by `c` too.
    pub fn group_by_col(&mut self, c: ColumnRef)
        ensures
            final(self)@ == (SelectV { group_by: old(self)@.group_by.push(c), ..old(self)@ }),
    {
        self.group_by.push(c);
    }

    /// Orders by `c` in direction `o` after the earlier orderings.
    pub fn order_by(&mut self, c: ColumnRef, o: Order)
        ensures
            final(self)@ == (SelectV { order_by: old(self)@.order_by.push((c, o)), ..old(self)@ }),
    {
        self.order_by.push((c, o));
    }

    /// Returns at most `limit` rows.
    pub fn limit(&mut self, limit: u64)
        ensures
            final(self)@ == (SelectV { limit: Some(limit), ..old(self)@ }),
    {
        self.limit = Some(limit);
    }
}

/// `SELECT 1 FROM from WHERE ...`, the shape of an `EXISTS` subquery, with no
/// condition yet.
pub fn exists_subquery(from: Ident) -> (r: SelectPlan)
    ensures
        r@ == (SelectV {
            items: seq![ItemV::Expr(text_v("1"@))],
            ..empty_select_v(from)
        }),
{
    let mut q = SelectPlan::new(from);
    q.expr(text("1"));
    q
}

proof fn lemma_exprs_two(a: SqlExpr, b: SqlExpr)
    ensures
        exprs_v(seq![a, b]) == seq![expr_v(a), expr_v(b)],
{
    assert(seq![a, b].drop_last() =~= seq![a]);
    assert(seq![a].drop_last() =~= Seq::<SqlExpr>::empty());
    assert(exprs_v(Seq::<SqlExpr>::empty()) =~= Seq::<ExprV>::empty());
    assert(seq![a].last() == a);
    assert(exprs_v(seq![a]) == exprs_v(seq![a].drop_last()).push(expr_v(seq![a].last())));
    assert(exprs_v(seq![a]) =~= seq![expr_v(a)]);
    assert(exprs_v(seq![a, b]) =~= seq![expr_v(a), expr_v(b)]);
}

/// `COALESCE(a, b)`.
pub fn coalesce(a: SqlExpr, b: SqlExpr) -> (r: SqlExpr)
    ensures
        r@ == ExprV::Coalesce(seq![a@, b@]),
{
    proof {
        lemma_exprs_two(a, b);
    }
    let v = vec![a, b];
    assert(v@ =~= seq![a, b]);
    SqlExpr::Coalesce(v)
}

/// `(a, b)`.
pub fn tuple(a: SqlExpr, b: SqlExpr) -> (r: SqlExpr)
    ensures
        r@ == ExprV::Tuple(seq![a@, b@]),
{
    proof {
        lemma_exprs_two(a, b);
    }
    let v = vec![a, b];
    assert(v@ =~= seq![a, b]);
    SqlExpr::Tuple(v)
}

/// `COUNT(e)`.
pub fn count(e: SqlExpr) -> (r: SqlExpr)
    ensures
        r@ == ExprV::Count(Box::new(e@)),
{
    SqlExpr::Count(Box::new(e))
}

/// `e IS NULL`.
pub fn is_null(e: SqlExpr) -> (r: SqlExpr)
    ensures
        r@ == ExprV::IsNull(Box::new(e@)),
{
    SqlExpr::IsNull(Box::new(e))
}

/// `e IS NOT NULL`.
pub fn is_not_null(e: SqlExpr) -> (r: SqlExpr)
    ensures
        r@ == ExprV::IsNotNull(Box::new(e@)),
{
    SqlExpr::IsNotNull(Box::new(e))
}

/// `e IN (ids)`.
pub fn in_uuids(e: SqlExpr, ids: &Vec<u128>) -> (r: SqlExpr)
    ensures
        r@ == ExprV::In(Box::new(e@), uuid_values_v(ids@)),
{
    SqlExpr::In(Box::new(e), uuid_values(ids))
}

/// `e NOT IN (ids)`.
pub fn not_in_uuids(e: SqlExpr, ids: &Vec<u128>) -> (r: SqlExpr)
    ensures
        r@ == ExprV::NotIn(Box::new(e@), uuid_values_v(ids@)),
{
    SqlExpr::NotIn(Box::new(e), uuid_values(ids))
}

/// `e IN (texts)`.
pub fn in_texts(e: SqlExpr, ts: &Vec<&str>) -> (r: SqlExpr)
    ensures
        r@ == ExprV::In(Box::new(e@), text_values_v(str_texts(ts@))),
{
    SqlExpr::In(Box::new(e), text_values(ts))
}

/// A piece of SQL written out as it is.
pub fn custom(c: CustomSql) -> (r: SqlExpr)
    ensures
        r@ == ExprV::Custom(c),
{
    SqlExpr::Custom(c)
}

/// The optional sequence a vector holds.
pub open spec fn opt_seq<A>(o: Option<Vec<A>>) -> Option<Seq<A>> {
    match o {
        Some(v) => Some(v@),
        None => None,
    }
}

// ---------------------------------------------------------------------------
// Insert, update and delete statements.

/// What an insert does with a row whose conflict columns match a stored row.
#[derive(Debug, PartialEq, Eq)]
pub enum ConflictAction {
    DoNothing,
    Update(Vec<Ident>),
}

/// The conflict clause of an insert.
#[derive(Debug, PartialEq, Eq)]
pub struct OnConflict {
    pub columns: Vec<Ident>,
    pub action: ConflictAction,
}

/// An insert statement: rows of values for the columns, in order.
#[derive(Debug, PartialEq)]
pub struct InsertPlan {
    pub table: Option<Ident>,
    pub columns: Vec<Ident>,
    pub rows: Vec<Vec<SqlValue>>,
    pub on_conflict: Option<OnConflict>,
    pub returning: Option<Ident>,
}

/// The view of a conflict action.
pub enum ActionV {
    DoNothing,
    Update(Seq<Ident>),
}

/// The view of a conflict clause.
#[verifier::ext_equal]
pub struct ConflictV {
    pub columns: Seq<Ident>,
    pub action: ActionV,
}

/// The view of an insert statement.
#[verifier::ext_equal]
pub struct InsertV {
    pub table: Option<Ident>,
    pub columns: Seq<Ident>,
    pub rows: Seq<Seq<ValueV>>,
    pub on_conflict: Option<ConflictV>,
    pub returning: Option<Ident>,
}

/// The view of a conflict clause.
pub open spec fn conflict_v(c: OnConflict) -> ConflictV {
    ConflictV {
        columns: c.columns@,
        action: match c.action {
            ConflictAction::DoNothing => ActionV::DoNothing,
            ConflictAction::Update(cols) => ActionV::Update(cols@),
        },
    }
}

/// Every row of an insert holds one value for each column.
pub open spec fn rows_fit(i: InsertV) -> bool {
    forall|k: int| 0 <= k < i.rows.len() ==> #[trigger] i.rows[k].len() == i.columns.len()
}

/// The views of rows of values.
pub open spec fn rows_v(rows: Seq<Vec<SqlValue>>) -> Seq<Seq<ValueV>> {
    rows.map_values(|r: Vec<SqlValue>| values_v(r@))
}

impl View for InsertPlan {
    type V = InsertV;

    open spec fn view(&self) -> InsertV {
        InsertV {
            table: self.table,
            columns: self.columns@,
            rows: rows_v(self.rows@),
            on_conflict: match self.on_conflict {
                Some(c) => Some(conflict_v(c)),
                None => None,
            },
            returning: self.returning,
        }
    }
}

/// An update statement: the columns set to values, on the rows where all the
/// conditions hold.
#[derive(Debug, PartialEq)]
pub struct UpdatePlan {
    pub table: Ident,
    pub values: Vec<(Ident, SqlValue)>,
    pub conditions: Vec<SqlExpr>,
}

/// The view of an update statement.
#[verifier::ext_equal]
pub struct UpdateV {
    pub table: Ident,
    pub values: Seq<(Ident, ValueV)>,
    pub conditions: Seq<ExprV>,
}

impl View for UpdatePlan {
    type V = UpdateV;

    open spec fn view(&self) -> UpdateV {
        UpdateV {
            table: self.table,
            values: self.values@.map_values(|p: (Ident, SqlValue)| (p.0, p.1@)),
            conditions: exprs_v(self.conditions@),
        }
    }
}

impl UpdatePlan {
    /// An update of `table` that sets nothing yet, with no condition.
    pub fn new(table: Ident) -> (r: UpdatePlan)
        ensures
            r@ == (UpdateV { table, values: seq![], conditions: seq![] }),
    {
        let r = UpdatePlan { table, values: Vec::new(), conditions: Vec::new() };
        assert(exprs_v(r.conditions@) =~= seq![]);
        assert(r@.values =~= seq![]);
        r
    }

    /// Sets `column` to `value` too.
    pub fn value(&mut self, column: Ident, value: SqlValue)
        ensures
            final(self)@ == (UpdateV { values: old(self)@.values.push((column, value@)), ..old(self)@ }),
    {
        let ghost before = self.values@;
        self.values.push((column, value));
        assert(self.values@ == before.push((column, value)));
        assert(self@.values =~= old(self)@.values.push((column, value@)));
    }

    /// Updates only the rows where `e` holds too.
    pub fn and_where(&mut self, e: SqlExpr)
        ensures
            final(self)@ == (UpdateV { conditions: old(self)@.conditions.push(e@), ..old(self)@ }),
    {
        proof {
            lemma_exprs_push(self.conditions@, e);
        }
        self.conditions.push(e);
    }
}

/// A delete statement: the rows where all the conditions hold.
#[derive(Debug, PartialEq)]
pub struct DeletePlan {
    pub table: Ident,
    pub conditions: Vec<SqlExpr>,
}

/// The view of a delete statement.
#[verifier::ext_equal]
pub struct DeleteV {
    pub table: Ident,
    pub conditions: Seq<ExprV>,
}

impl View for DeletePlan {
    type V = DeleteV;

    open spec fn view(&self) -> DeleteV {
        DeleteV { table: self.table, conditions: exprs_v(self.conditions@) }
    }
}

impl DeletePlan {
    /// A delete on `table` with no condition yet.
    pub fn new(table: Ident) -> (r: DeletePlan)
        ensures
            r@ == (DeleteV { table, conditions: seq![] }),
    {
        let r = DeletePlan { table, conditions: Vec::new() };
        assert(exprs_v(r.conditions@) =~= seq![]);
        r
    }

    /// Deletes only the rows where `e` holds too.
    pub fn and_where(&mut self, e: SqlExpr)
        ensures
            final(self)@ == (DeleteV { conditions: old(self)@.conditions.push(e@), ..old(self)@ }),
    {
        proof {
            lemma_exprs_push(self.conditions@, e);
        }
        self.conditions.push(e);
    }
}

/// A conflict clause that updates `update` where `columns` match.
pub fn on_conflict_update(columns: Vec<Ident>, update: Vec<Ident>) -> (r: OnConflict)
    ensures
        conflict_v(r) == (ConflictV { columns: columns@, action: ActionV::Update(update@) }),
{
    OnConflict { columns, action: ConflictAction::Update(update) }
}

/// A conflict clause that keeps the stored row where `columns` match.
pub fn on_conflict_do_nothing(columns: Vec<Ident>) -> (r: OnConflict)
    ensures
        conflict_v(r) == (ConflictV { columns: columns@, action: ActionV::DoNothing }),
{
    OnConflict { columns, action: ConflictAction::DoNothing }
}

proof fn lemma_rows_push(rows: Seq<Vec<SqlValue>>, row: Vec<SqlValue>)
    ensures
        rows_v(rows.push(row)) == rows_v(rows).push(values_v(row@)),
{
    assert(rows_v(rows.push(row)) =~= rows_v(rows).push(values_v(row@)));
}

impl InsertPlan {
    /// Adds a row of values.
    pub fn values(&mut self, row: Vec<SqlValue>)
        ensures
            final(self)@ == (InsertV { rows: old(self)@.rows.push(values_v(row@)), ..old(self)@ }),
    {
        proof {
            lemma_rows_push(self.rows@, row);
        }
        self.rows.push(row);
    }
}

/// What one part of a concatenation holds, the whole holds.
pub proof fn lemma_contains_concat<A>(a: Seq<A>, b: Seq<A>, x: A)
    requires
        a.contains(x) || b.contains(x),
    ensures
        (a + b).contains(x),
{
    if a.contains(x) {
        let k = choose|k: int| 0 <= k < a.len() && a[k] == x;
        assert((a + b)[k] == x);
    } else {
        let k = choose|k: int| 0 <= k < b.len() && b[k] == x;
        assert((a + b)[a.len() + k] == x);
    }
}

/// `table.column = id`: a column of a table compared with a bound UUID.
pub open spec fn column_equals_uuid(table: Ident, column: Ident, id: u128) -> ExprV {
    ExprV::Binary(
        Box::new(ExprV::Column(ColumnRef::TableCol(table, column))),
        BinOp::Eq,
        Box::new(ExprV::Value(ValueV::Uuid(Some(id)))),
    )
}

/// `table.column <op> value`: a column of a table compared with a bound value.
pub open spec fn column_compared(table: Ident, column: Ident, op: BinOp, value: ValueV) -> ExprV {
    ExprV::Binary(
        Box::new(ExprV::Column(ColumnRef::TableCol(table, column))),
        op,
        Box::new(ExprV::Value(value)),
    )
}

/// `column <op> value`: a column named without its table compared with a
/// bound value.
pub open spec fn bare_column_compared(column: Ident, op: BinOp, value: ValueV) -> ExprV {
    ExprV::Binary(Box::new(ExprV::Column(ColumnRef::Col(column))), op, Box::new(ExprV::Value(value)))
}

/// Two select statements are the same when all their parts are.
pub proof fn lemma_select_eq(a: SelectV, b: SelectV)
    requires
        a.items =~~= b.items,
        a.from == b.from,
        a.joins =~~= b.joins,
        a.conditions =~~= b.conditions,
        a.group_by =~= b.group_by,
        a.having =~~= b.having,
        a.order_by =~= b.order_by,
        a.limit == b.limit,
    ensures
        a == b,
{
}

/// Two insert statements are the same when all their parts are.
pub proof fn lemma_insert_eq(a: InsertV, b: InsertV)
    requires
        a.table == b.table,
        a.columns =~= b.columns,
        a.rows =~~= b.rows,
        a.on_conflict =~~= b.on_conflict,
        a.returning == b.returning,
    ensures
        a == b,
{
}

} // verus!
