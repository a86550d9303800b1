use colette_repository::filter::{bookmark_query_sql, entry_query_sql};
use colette_repository::filter::{
    BooleanOp, BookmarkDateField, BookmarkFilter, BookmarkTextField, DateOp, DateRange, EntryBooleanField,
    EntryDateField, EntryFilter, EntryTextField, TextOp,
};
use colette_repository::plan::{BinOp, ColumnRef, CustomSql, Ident, SqlExpr, SqlValue};
use colette_repository::query::Dialect;
use colette_repository::schema::{Bookmark, FeedEntry, ReadEntry};
use colette_repository::time::UtcDateTime;

fn at(secs: i64) -> UtcDateTime {
    UtcDateTime::from_timestamp(secs, 0).unwrap()
}

fn title_is(v: &str) -> BookmarkFilter {
    BookmarkFilter::Text { field: BookmarkTextField::Title, op: TextOp::Equals(v.into()) }
}

#[test]
fn text_operators_render_their_patterns() {
    assert_eq!(TextOp::Equals("x".into()).to_sql("title"), "title = x");
    assert_eq!(TextOp::Contains("x".into()).to_sql("title"), "title LIKE %x%");
    assert_eq!(TextOp::StartsWith("x".into()).to_sql("title"), "title LIKE x%");
    assert_eq!(TextOp::EndsWith("x".into()).to_sql("title"), "title LIKE %x");
}

#[test]
fn boolean_and_date_operators_render() {
    assert_eq!(BooleanOp::Equals(true).to_sql("has_read"), "has_read = true");
    assert_eq!(BooleanOp::Equals(false).to_sql("has_read"), "has_read = false");
    assert_eq!(DateOp::Before(at(0)).to_sql("created_at"), "created_at < 1970-01-01 00:00:00 UTC");
    assert_eq!(DateOp::After(at(86_400)).to_sql("created_at"), "created_at > 1970-01-02 00:00:00 UTC");
    assert_eq!(
        DateOp::Between(DateRange { start: at(0), end: at(60) }).to_sql("published_at"),
        "published_at BETWEEN 1970-01-01 00:00:00 UTC AND 1970-01-01 00:01:00 UTC"
    );
    assert_eq!(DateOp::InLast(3600).to_sql("published_at"), "(extract(epoch FROM now()) - published_at) < 3600");
    assert_eq!(DateOp::InLast(-5).to_sql("c"), "(extract(epoch FROM now()) - c) < -5");
}

#[test]
fn fields_name_their_columns() {
    assert_eq!(BookmarkTextField::Link.to_column(), "link");
    assert_eq!(BookmarkTextField::Tag.to_column(), "t.title");
    assert_eq!(BookmarkDateField::UpdatedAt.to_column(), "updated_at");
    assert_eq!(EntryTextField::Description.to_column(), "description");
    assert_eq!(EntryBooleanField::HasRead.to_column(), "has_read");
    assert_eq!(EntryDateField::PublishedAt.to_column(), "published_at");
}

#[test]
fn bookmark_filters_render_with_swap_remove_order() {
    let f = BookmarkFilter::And(vec![title_is("a"), title_is("b"), title_is("c")]);
    assert_eq!(f.to_sql(), "title = a AND title = c AND title = b");
    let f = BookmarkFilter::Or(vec![title_is("a"), title_is("b")]);
    assert_eq!(f.to_sql(), "title = a OR title = b");
    let f = BookmarkFilter::Not(Box::new(title_is("a")));
    assert_eq!(f.to_sql(), "NOT title = a");
    let f = BookmarkFilter::Text { field: BookmarkTextField::Tag, op: TextOp::StartsWith("ru".into()) };
    assert_eq!(
        f.to_sql(),
        "EXISTS (SELECT 1 FROM bookmark_tags bt INNER JOIN tags t ON t.id = bt.tag_id WHERE bt.bookmark_id = b.id AND t.title LIKE ru%)"
    );
}

#[test]
fn single_part_combination_is_the_part() {
    assert_eq!(BookmarkFilter::And(vec![title_is("a")]).to_sql(), title_is("a").to_sql());
    assert_eq!(BookmarkFilter::Or(vec![title_is("a")]).to_sql(), "title = a");
    let e = EntryFilter::Or(vec![EntryFilter::Boolean { field: EntryBooleanField::HasRead, op: BooleanOp::Equals(true) }]);
    assert_eq!(e.to_sql(), "has_read = true");
}

#[test]
fn entry_filters_render() {
    let f = EntryFilter::And(vec![
        EntryFilter::Text { field: EntryTextField::Tag, op: TextOp::Equals("x".into()) },
        EntryFilter::Date { field: EntryDateField::PublishedAt, op: DateOp::InLast(10) },
    ]);
    assert_eq!(
        f.to_sql(),
        "EXISTS (SELECT 1 FROM subscriptions_tags st INNER JOIN tags t ON t.id = st.tag_id WHERE st.subscription_id = s.id AND t.title = x) AND (extract(epoch FROM now()) - published_at) < 10"
    );
}

#[test]
fn bookmark_conditions_per_dialect() {
    let col = SqlExpr::Column(ColumnRef::TableCol(Ident::Bookmark(Bookmark::Table), Ident::Bookmark(Bookmark::CreatedAt)));
    let f = BookmarkFilter::Date { field: BookmarkDateField::CreatedAt, op: DateOp::InLast(60) };
    let expect = |now| {
        SqlExpr::Binary(
            Box::new(SqlExpr::Binary(Box::new(SqlExpr::Custom(now)), BinOp::Sub, Box::new(col_clone(&col)))),
            BinOp::Lt,
            Box::new(SqlExpr::Value(SqlValue::BigInt(Some(60)))),
        )
    };
    assert_eq!(f.to_condition(Dialect::Postgres), expect(CustomSql::PostgresEpochNow));
    assert_eq!(f.to_condition(Dialect::Sqlite), expect(CustomSql::SqliteEpochNow));
    let and = BookmarkFilter::And(vec![title_is("a"), title_is("b"), title_is("c")]).to_condition(Dialect::Postgres);
    let part = |v: &str| title_is(v).to_condition(Dialect::Postgres);
    let ac = SqlExpr::Binary(Box::new(part("a")), BinOp::And, Box::new(part("c")));
    assert_eq!(and, SqlExpr::Binary(Box::new(ac), BinOp::And, Box::new(part("b"))));
    assert_eq!(BookmarkFilter::Or(vec![title_is("a")]).to_condition(Dialect::Sqlite), part("a"));
    let not = BookmarkFilter::Not(Box::new(title_is("a"))).to_condition(Dialect::Sqlite);
    assert_eq!(not, SqlExpr::Not(Box::new(part("a"))));
}

fn col_clone(e: &SqlExpr) -> SqlExpr {
    match e {
        SqlExpr::Column(c) => SqlExpr::Column(*c),
        _ => unreachable!(),
    }
}

#[test]
fn entry_conditions() {
    let f = EntryFilter::Boolean { field: EntryBooleanField::HasRead, op: BooleanOp::Equals(false) };
    assert_eq!(
        f.to_condition(),
        SqlExpr::Binary(
            Box::new(SqlExpr::Column(ColumnRef::TableCol(
                Ident::ReadEntry(ReadEntry::Table),
                Ident::ReadEntry(ReadEntry::SubscriptionId)
            ))),
            BinOp::Eq,
            Box::new(SqlExpr::Value(SqlValue::Bool(Some(false)))),
        )
    );
    let f = EntryFilter::Text { field: EntryTextField::Link, op: TextOp::EndsWith(".rs".into()) };
    assert_eq!(
        f.to_condition(),
        SqlExpr::Binary(
            Box::new(SqlExpr::Column(ColumnRef::TableCol(Ident::FeedEntry(FeedEntry::Table), Ident::FeedEntry(FeedEntry::Link)))),
            BinOp::Like,
            Box::new(SqlExpr::Value(SqlValue::Text(Some("%.rs".into())))),
        )
    );
}

#[test]
fn filtered_listings_append_the_condition_after_a_space() {
    assert_eq!(bookmark_query_sql("SELECT 1", None), "WITH results AS (SELECT 1) SELECT * FROM results WHERE TRUE");
    assert_eq!(
        bookmark_query_sql("B", Some(title_is("x"))),
        "WITH results AS (B) SELECT * FROM results WHERE TRUE title = x"
    );
    assert_eq!(
        entry_query_sql("E", Some(EntryFilter::Not(Box::new(EntryFilter::Boolean {
            field: EntryBooleanField::HasRead,
            op: BooleanOp::Equals(true)
        })))),
        "WITH results AS (E) SELECT * FROM results WHERE TRUE NOT has_read = true"
    );
}
