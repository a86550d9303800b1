//! Filters that users write over bookmarks and entries, and the SQL condition
//! text that the Postgres repositories append to their base queries.

use vstd::prelude::*;
use vstd::string::*;

use crate::time::{decimal_text, i64_text, UtcDateTime};

verus! {

/// A condition on a text column.
#[derive(Clone, Debug, PartialEq, Eq)]
pub enum TextOp {
    Equals(String),
    Contains(String),
    StartsWith(String),
    EndsWith(String),
}

/// A condition on a boolean column.
#[derive(Clone, Copy, Debug, PartialEq, Eq, Structural)]
pub enum BooleanOp {
    Equals(bool),
}

/// A half-open span of instants.
#[derive(Clone, Copy, Debug, PartialEq, Eq, Structural)]
pub struct DateRange {
    pub start: UtcDateTime,
    pub end: UtcDateTime,
}

/// A condition on a date column; `InLast` holds a number of seconds.
#[derive(Clone, Copy, Debug, PartialEq, Eq, Structural)]
pub enum DateOp {
    Before(UtcDateTime),
    After(UtcDateTime),
    Between(DateRange),
    InLast(i64),
}

/// The text columns of a bookmark that a filter can name.
#[derive(Clone, Copy, Debug, PartialEq, Eq, Structural)]
pub enum BookmarkTextField {
    Link,
    Title,
    Author,
    Tag,
}

/// The date columns of a bookmark that a filter can name.
#[derive(Clone, Copy, Debug, PartialEq, Eq, Structural)]
pub enum BookmarkDateField {
    PublishedAt,
    CreatedAt,
    UpdatedAt,
}

/// A filter over bookmarks.
#[derive(Debug, PartialEq, Eq)]
pub enum BookmarkFilter {
    Text { field: BookmarkTextField, op: TextOp },
    Date { field: BookmarkDateField, op: DateOp },
    And(Vec<BookmarkFilter>),
    Or(Vec<BookmarkFilter>),
    Not(Box<BookmarkFilter>),
}

/// The text columns of a feed entry that a filter can name.
#[derive(Clone, Copy, Debug, PartialEq, Eq, Structural)]
pub enum EntryTextField {
    Link,
    Title,
    Description,
    Author,
    Tag,
}

/// The boolean columns of a feed entry that a filter can name.
#[derive(Clone, Copy, Debug, PartialEq, Eq, Structural)]
pub enum EntryBooleanField {
    HasRead,
}

/// The date columns of a feed entry that a filter can name.
#[derive(Clone, Copy, Debug, PartialEq, Eq, Structural)]
pub enum EntryDateField {
    PublishedAt,
}

/// A filter over feed entries.
#[derive(Debug, PartialEq, Eq)]
pub enum EntryFilter {
    Text { field: EntryTextField, op: TextOp },
    Boolean { field: EntryBooleanField, op: BooleanOp },
    Date { field: EntryDateField, op: DateOp },
    And(Vec<EntryFilter>),
    Or(Vec<EntryFilter>),
    Not(Box<EntryFilter>),
}

// ---------------------------------------------------------------------------
// The text of a condition on one column.

/// `column = value`, `column LIKE %value%`, `column LIKE value%` or
/// `column LIKE %value`, the value written as it is.
pub open spec fn text_op_sql(column: Seq<char>, op: TextOp) -> Seq<char> {
    match op {
        TextOp::Equals(v) => column + " = "@ + v@,
        TextOp::Contains(v) => column + " LIKE %"@ + v@ + "%"@,
        TextOp::StartsWith(v) => column + " LIKE "@ + v@ + "%"@,
        TextOp::EndsWith(v) => column + " LIKE %"@ + v@,
    }
}

/// The text of a boolean literal.
pub open spec fn bool_text(b: bool) -> Seq<char> {
    if b { "true"@ } else { "false"@ }
}

/// `column = true` or `column = false`.
pub open spec fn boolean_op_sql(column: Seq<char>, op: BooleanOp) -> Seq<char> {
    match op {
        BooleanOp::Equals(b) => column + " = "@ + bool_text(b),
    }
}

/// `column < t`, `column > t`, `column BETWEEN s AND e`, or, for the last
/// `n` seconds, `(extract(epoch FROM now()) - column) < n`.
pub open spec fn date_op_sql(column: Seq<char>, op: DateOp) -> Seq<char> {
    match op {
        DateOp::Before(t) => column + " < "@ + t.spec_text(),
        DateOp::After(t) => column + " > "@ + t.spec_text(),
        DateOp::Between(r) => column + " BETWEEN "@ + r.start.spec_text() + " AND "@
            + r.end.spec_text(),
        DateOp::InLast(n) => "(extract(epoch FROM now()) - "@ + column + ") < "@ + decimal_text(
            n as int,
        ),
    }
}

fn bool_literal(b: bool) -> (r: &'static str)
    ensures
        r@ == bool_text(b),
{
    if b {
        "true"
    } else {
        "false"
    }
}

impl TextOp {
    /// Appends the condition of this operator on `column` to `out`.
    fn write_sql(&self, column: &str, out: &mut String)
        ensures
            final(out)@ == old(out)@ + text_op_sql(column@, *self),
    {
        out.append(column);
        match self {
            TextOp::Equals(v) => {
                out.append(" = ");
                out.append(v.as_str());
            },
            TextOp::Contains(v) => {
                out.append(" LIKE %");
                out.append(v.as_str());
                out.append("%");
            },
            TextOp::StartsWith(v) => {
                out.append(" LIKE ");
                out.append(v.as_str());
                out.append("%");
            },
            TextOp::EndsWith(v) => {
                out.append(" LIKE %");
                out.append(v.as_str());
            },
        }
    }

    /// The condition of this operator on `column`.
    pub fn to_sql(self, column: &str) -> (r: String)
        ensures
            r@ == text_op_sql(column@, self),
    {
        let mut out = String::new();
        self.write_sql(column, &mut out);
        assert(out@ =~= text_op_sql(column@, self));
        out
    }
}

impl BooleanOp {
    /// The condition of this operator on `column`.
    pub fn to_sql(self, column: &str) -> (r: String)
        ensures
            r@ == boolean_op_sql(column@, self),
    {
        let mut out = String::new();
        out.append(column);
        match self {
            BooleanOp::Equals(b) => {
                out.append(" = ");
                out.append(bool_literal(b));
            },
        }
        assert(out@ =~= boolean_op_sql(column@, self));
        out
    }
}

impl DateOp {
    /// The condition of this operator on `column`.
    pub fn to_sql(self, column: &str) -> (r: String)
        ensures
            r@ == date_op_sql(column@, self),
    {
        let mut out = String::new();
        match self {
            DateOp::Before(t) => {
                out.append(column);
                out.append(" < ");
                out.append(t.to_text().as_str());
            },
            DateOp::After(t) => {
                out.append(column);
                out.append(" > ");
                out.append(t.to_text().as_str());
            },
            DateOp::Between(r) => {
                out.append(column);
                out.append(" BETWEEN ");
                out.append(r.start.to_text().as_str());
                out.append(" AND ");
                out.append(r.end.to_text().as_str());
            },
            DateOp::InLast(n) => {
                out.append("(extract(epoch FROM now()) - ");
                out.append(column);
                out.append(") < ");
                out.append(i64_text(n).as_str());
            },
        }
        assert(out@ =~= date_op_sql(column@, self));
        out
    }
}

// ---------------------------------------------------------------------------
// Combined filters.

/// The order in which a combined filter lists its parts: the first, then the
/// last, then the others in their order (the order that taking the first part
/// out with `swap_remove` leaves).
pub open spec fn combined_order<A>(parts: Seq<A>) -> Seq<A> {
    if parts.len() <= 1 {
        parts
    } else {
        seq![parts[0], parts.last()] + parts.subrange(1, parts.len() - 1)
    }
}

/// The parts written one after the other with `sep` between two neighbours.
pub open spec fn join_with(parts: Seq<Seq<char>>, sep: Seq<char>) -> Seq<char>
    decreases parts.len(),
{
    if parts.len() == 0 {
        seq![]
    } else if parts.len() == 1 {
        parts[0]
    } else {
        join_with(parts.drop_last(), sep) + sep + parts.last()
    }
}

/// The text of a conjunction or disjunction whose parts have the texts `parts`.
pub open spec fn combined_sql(parts: Seq<Seq<char>>, sep: Seq<char>) -> Seq<char> {
    join_with(combined_order(parts), sep)
}

proof fn lemma_swap_remove_order<A>(parts: Seq<A>)
    requires
        parts.len() >= 1,
    ensures
        seq![parts[0]] + parts.update(0, parts.last()).drop_last() == combined_order(parts),
{
    let rest = parts.update(0, parts.last()).drop_last();
    assert(seq![parts[0]] + rest =~= combined_order(parts));
}

/// Writes `first` and then each of `rest` with `sep` before it: the text that a
/// combined filter gets from its parts once the first has been taken out.
fn join_parts(first: String, rest: &Vec<String>, sep: &str) -> (r: String)
    ensures
        r@ == join_with(seq![first@] + rest@.map_values(|s: String| s@), sep@),
{
    let ghost views = rest@.map_values(|s: String| s@);
    let mut out = first;
    let mut k: usize = 0;
    while k < rest.len()
        invariant
            k <= rest.len(),
            views == rest@.map_values(|s: String| s@),
            out@ == join_with(seq![first@] + views.subrange(0, k as int), sep@),
        decreases rest.len() - k,
    {
        out.append(sep);
        out.append(rest[k].as_str());
        proof {
            let before = seq![first@] + views.subrange(0, k as int);
            let after = seq![first@] + views.subrange(0, k + 1);
            assert(after.drop_last() =~= before);
            assert(after.last() == rest@[k as int]@);
        }
        k = k + 1;
    }
    assert(views.subrange(0, rest.len() as int) =~= views);
    out
}

/// The text of a combined filter from the texts of its parts, in their order.
fn combine(parts: Vec<String>, sep: &str) -> (r: String)
    requires
        parts.len() >= 1,
    ensures
        r@ == combined_sql(parts@.map_values(|s: String| s@), sep@),
{
    let ghost views = parts@.map_values(|s: String| s@);
    let mut rest = parts;
    let first = rest.swap_remove(0);
    let r = join_parts(first, &rest, sep);
    proof {
        lemma_swap_remove_order(views);
        assert(seq![first@] + rest@.map_values(|s: String| s@) =~= seq![views[0]]
            + views.update(0, views.last()).drop_last());
    }
    r
}

// ---------------------------------------------------------------------------
// Bookmark filters.

/// The column that a text field of a bookmark names.
pub open spec fn bookmark_text_column(field: BookmarkTextField) -> Seq<char> {
    match field {
        BookmarkTextField::Link => "link"@,
        BookmarkTextField::Title => "title"@,
        BookmarkTextField::Author => "author"@,
        BookmarkTextField::Tag => "t.title"@,
    }
}

/// The column that a date field of a bookmark names.
pub open spec fn bookmark_date_column(field: BookmarkDateField) -> Seq<char> {
    match field {
        BookmarkDateField::PublishedAt => "published_at"@,
        BookmarkDateField::CreatedAt => "created_at"@,
        BookmarkDateField::UpdatedAt => "updated_at"@,
    }
}

impl BookmarkTextField {
    fn column(self) -> (r: &'static str)
        ensures
            r@ == bookmark_text_column(self),
    {
        match self {
            BookmarkTextField::Link => "link",
            BookmarkTextField::Title => "title",
            BookmarkTextField::Author => "author",
            BookmarkTextField::Tag => "t.title",
        }
    }

    /// The column that this field names.
    pub fn to_column(self) -> (r: String)
        ensures
            r@ == bookmark_text_column(self),
    {
        let mut r = String::new();
        r.append(self.column());
        r
    }
}

impl BookmarkDateField {
    fn column(self) -> (r: &'static str)
        ensures
            r@ == bookmark_date_column(self),
    {
        match self {
            BookmarkDateField::PublishedAt => "published_at",
            BookmarkDateField::CreatedAt => "created_at",
            BookmarkDateField::UpdatedAt => "updated_at",
        }
    }

    /// The column that this field names.
    pub fn to_column(self) -> (r: String)
        ensures
            r@ == bookmark_date_column(self),
    {
        let mut r = String::new();
        r.append(self.column());
        r
    }
}

/// The subquery that a condition on a bookmark's tags is wrapped in.
pub open spec fn bookmark_tag_exists(cond: Seq<char>) -> Seq<char> {
    "EXISTS (SELECT 1 FROM bookmark_tags bt INNER JOIN tags t ON t.id = bt.tag_id WHERE bt.bookmark_id = b.id AND "@
        + cond + ")"@
}

/// Every conjunction and disjunction in the filter has at least one part.
pub open spec fn bookmark_filter_wf(f: BookmarkFilter) -> bool
    decreases f,
{
    match f {
        BookmarkFilter::And(fs) => fs@.len() >= 1 && bookmark_filters_wf(fs@),
        BookmarkFilter::Or(fs) => fs@.len() >= 1 && bookmark_filters_wf(fs@),
        BookmarkFilter::Not(g) => bookmark_filter_wf(*g),
        _ => true,
    }
}

/// Every filter of the sequence is well formed.
pub open spec fn bookmark_filters_wf(fs: Seq<BookmarkFilter>) -> bool
    decreases fs,
{
    if fs.len() == 0 {
        true
    } else {
        bookmark_filters_wf(fs.drop_last()) && bookmark_filter_wf(fs.last())
    }
}

/// The SQL condition text of a bookmark filter.
pub open spec fn bookmark_filter_sql(f: BookmarkFilter) -> Seq<char>
    decreases f,
{
    match f {
        BookmarkFilter::Text { field, op } => match field {
            BookmarkTextField::Tag => bookmark_tag_exists(
                text_op_sql(bookmark_text_column(field), op),
            ),
            _ => text_op_sql(bookmark_text_column(field), op),
        },
        BookmarkFilter::Date { field, op } => date_op_sql(bookmark_date_column(field), op),
        BookmarkFilter::And(fs) => combined_sql(bookmark_filters_sql(fs@), " AND "@),
        BookmarkFilter::Or(fs) => combined_sql(bookmark_filters_sql(fs@), " OR "@),
        BookmarkFilter::Not(g) => "NOT "@ + bookmark_filter_sql(*g),
    }
}

/// The SQL condition texts of a sequence of bookmark filters.
pub open spec fn bookmark_filters_sql(fs: Seq<BookmarkFilter>) -> Seq<Seq<char>>
    decreases fs,
{
    if fs.len() == 0 {
        seq![]
    } else {
        bookmark_filters_sql(fs.drop_last()).push(bookmark_filter_sql(fs.last()))
    }
}


proof fn lemma_bookmark_filters(fs: Seq<BookmarkFilter>)
    ensures
        bookmark_filters_sql(fs).len() == fs.len(),
        forall|i: int|
            0 <= i < fs.len() ==> #[trigger] bookmark_filters_sql(fs)[i] == bookmark_filter_sql(
                fs[i],
            ),
        bookmark_filters_wf(fs) <==> forall|i: int|
            0 <= i < fs.len() ==> #[trigger] bookmark_filter_wf(fs[i]),
    decreases fs.len(),
{
    if fs.len() > 0 {
        lemma_bookmark_filters(fs.drop_last());
        assert forall|i: int| 0 <= i < fs.len() - 1 implies fs.drop_last()[i] == fs[i] by {}
        if forall|i: int| 0 <= i < fs.len() ==> #[trigger] bookmark_filter_wf(fs[i]) {
            assert forall|i: int| 0 <= i < fs.drop_last().len() implies #[trigger] bookmark_filter_wf(
                fs.drop_last()[i],
            ) by {
                assert(bookmark_filter_wf(fs[i]));
            }
            assert(bookmark_filter_wf(fs[fs.len() - 1]));
            assert(bookmark_filters_wf(fs));
        }
        if bookmark_filters_wf(fs) {
            assert forall|i: int| 0 <= i < fs.len() implies #[trigger] bookmark_filter_wf(fs[i]) by {
                if i < fs.len() - 1 {
                    assert(bookmark_filter_wf(fs.drop_last()[i]));
                }
            }
        }
    }
}

impl BookmarkFilter {
    fn render(&self) -> (r: String)
        requires
            bookmark_filter_wf(*self),
        ensures
            r@ == bookmark_filter_sql(*self),
        decreases self,
    {
        match self {
            BookmarkFilter::Text { field, op } => {
                let mut out = String::new();
                match field {
                    BookmarkTextField::Tag => {
                        out.append(
                            "EXISTS (SELECT 1 FROM bookmark_tags bt INNER JOIN tags t ON t.id = bt.tag_id WHERE bt.bookmark_id = b.id AND ",
                        );
                        op.write_sql(field.column(), &mut out);
                        out.append(")");
                    },
                    _ => {
                        op.write_sql(field.column(), &mut out);
                    },
                }
                assert(out@ =~= bookmark_filter_sql(*self));
                out
            },
            BookmarkFilter::Date { field, op } => op.to_sql(field.column()),
            BookmarkFilter::And(fs) => {
                let parts = Self::render_parts(fs);
                combine(parts, " AND ")
            },
            BookmarkFilter::Or(fs) => {
                let parts = Self::render_parts(fs);
                combine(parts, " OR ")
            },
            BookmarkFilter::Not(g) => {
                let mut out = String::new();
                out.append("NOT ");
                let inner = g.render();
                out.append(inner.as_str());
                out
            },
        }
    }

    fn render_parts(fs: &Vec<BookmarkFilter>) -> (r: Vec<String>)
        requires
            bookmark_filters_wf(fs@),
        ensures
            r@.len() == fs@.len(),
            r@.map_values(|s: String| s@) == bookmark_filters_sql(fs@),
        decreases fs,
    {
        proof {
            lemma_bookmark_filters(fs@);
        }
        let mut parts: Vec<String> = Vec::new();
        let mut i: usize = 0;
        while i < fs.len()
            invariant
                i <= fs.len(),
                parts@.len() == i,
                bookmark_filters_wf(fs@),
                bookmark_filters_sql(fs@).len() == fs@.len(),
                forall|j: int|
                    0 <= j < fs@.len() ==> #[trigger] bookmark_filters_sql(fs@)[j]
                        == bookmark_filter_sql(fs@[j]),
                forall|j: int| 0 <= j < fs@.len() ==> #[trigger] bookmark_filter_wf(fs@[j]),
                forall|j: int| 0 <= j < i ==> #[trigger] parts@[j]@ == bookmark_filter_sql(fs@[j]),
            decreases fs.len() - i,
        {
            let part = fs[i].render();
            parts.push(part);
            i = i + 1;
        }
        assert(parts@.map_values(|s: String| s@) =~= bookmark_filters_sql(fs@));
        parts
    }

    /// The SQL condition text of this filter, as the Postgres bookmark query
    /// appends it.
    pub fn to_sql(self) -> (r: String)
        requires
            bookmark_filter_wf(self),
        ensures
            r@ == bookmark_filter_sql(self),
    {
        self.render()
    }
}

// ---------------------------------------------------------------------------
// Entry filters.

/// The column that a text field of an entry names.
pub open spec fn entry_text_column(field: EntryTextField) -> Seq<char> {
    match field {
        EntryTextField::Link => "link"@,
        EntryTextField::Title => "title"@,
        EntryTextField::Description => "description"@,
        EntryTextField::Author => "author"@,
        EntryTextField::Tag => "t.title"@,
    }
}

/// The column that a boolean field of an entry names.
pub open spec fn entry_boolean_column(field: EntryBooleanField) -> Seq<char> {
    match field {
        EntryBooleanField::HasRead => "has_read"@,
    }
}

/// The column that a date field of an entry names.
pub open spec fn entry_date_column(field: EntryDateField) -> Seq<char> {
    match field {
        EntryDateField::PublishedAt => "published_at"@,
    }
}

impl EntryTextField {
    fn column(self) -> (r: &'static str)
        ensures
            r@ == entry_text_column(self),
    {
        match self {
            EntryTextField::Link => "link",
            EntryTextField::Title => "title",
            EntryTextField::Description => "description",
            EntryTextField::Author => "author",
            EntryTextField::Tag => "t.title",
        }
    }

    /// The column that this field names.
    pub fn to_column(self) -> (r: String)
        ensures
            r@ == entry_text_column(self),
    {
        let mut r = String::new();
        r.append(self.column());
        r
    }
}

impl EntryBooleanField {
    fn column(self) -> (r: &'static str)
        ensures
            r@ == entry_boolean_column(self),
    {
        match self {
            EntryBooleanField::HasRead => "has_read",
        }
    }

    /// The column that this field names.
    pub fn to_column(self) -> (r: String)
        ensures
            r@ == entry_boolean_column(self),
    {
        let mut r = String::new();
        r.append(self.column());
        r
    }
}

impl EntryDateField {
    fn column(self) -> (r: &'static str)
        ensures
            r@ == entry_date_column(self),
    {
        match self {
            EntryDateField::PublishedAt => "published_at",
        }
    }

    /// The column that this field names.
    pub fn to_column(self) -> (r: String)
        ensures
            r@ == entry_date_column(self),
    {
        let mut r = String::new();
        r.append(self.column());
        r
    }
}

/// The subquery that a condition on an entry's subscription tags is wrapped in.
pub open spec fn entry_tag_exists(cond: Seq<char>) -> Seq<char> {
    "EXISTS (SELECT 1 FROM subscriptions_tags st INNER JOIN tags t ON t.id = st.tag_id WHERE st.subscription_id = s.id AND "@
        + cond + ")"@
}

/// Every conjunction and disjunction in the filter has at least one part.
pub open spec fn entry_filter_wf(f: EntryFilter) -> bool
    decreases f,
{
    match f {
        EntryFilter::And(fs) => fs@.len() >= 1 && entry_filters_wf(fs@),
        EntryFilter::Or(fs) => fs@.len() >= 1 && entry_filters_wf(fs@),
        EntryFilter::Not(g) => entry_filter_wf(*g),
        _ => true,
    }
}

/// Every filter of the sequence is well formed.
pub open spec fn entry_filters_wf(fs: Seq<EntryFilter>) -> bool
    decreases fs,
{
    if fs.len() == 0 {
        true
    } else {
        entry_filters_wf(fs.drop_last()) && entry_filter_wf(fs.last())
    }
}

/// The SQL condition text of an entry filter.
pub open spec fn entry_filter_sql(f: EntryFilter) -> Seq<char>
    decreases f,
{
    match f {
        EntryFilter::Text { field, op } => match field {
            EntryTextField::Tag => entry_tag_exists(
                text_op_sql(entry_text_column(field), op),
            ),
            _ => text_op_sql(entry_text_column(field), op),
        },
        EntryFilter::Boolean { field, op } => boolean_op_sql(entry_boolean_column(field), op),
        EntryFilter::Date { field, op } => date_op_sql(entry_date_column(field), op),
        EntryFilter::And(fs) => combined_sql(entry_filters_sql(fs@), " AND "@),
        EntryFilter::Or(fs) => combined_sql(entry_filters_sql(fs@), " OR "@),
        EntryFilter::Not(g) => "NOT "@ + entry_filter_sql(*g),
    }
}

/// The SQL condition texts of a sequence of entry filters.
pub open spec fn entry_filters_sql(fs: Seq<EntryFilter>) -> Seq<Seq<char>>
    decreases fs,
{
    if fs.len() == 0 {
        seq![]
    } else {
        entry_filters_sql(fs.drop_last()).push(entry_filter_sql(fs.last()))
    }
}


proof fn lemma_entry_filters(fs: Seq<EntryFilter>)
    ensures
        entry_filters_sql(fs).len() == fs.len(),
        forall|i: int|
            0 <= i < fs.len() ==> #[trigger] entry_filters_sql(fs)[i] == entry_filter_sql(
                fs[i],
            ),
        entry_filters_wf(fs) <==> forall|i: int|
            0 <= i < fs.len() ==> #[trigger] entry_filter_wf(fs[i]),
    decreases fs.len(),
{
    if fs.len() > 0 {
        lemma_entry_filters(fs.drop_last());
        assert forall|i: int| 0 <= i < fs.len() - 1 implies fs.drop_last()[i] == fs[i] by {}
        if forall|i: int| 0 <= i < fs.len() ==> #[trigger] entry_filter_wf(fs[i]) {
            assert forall|i: int| 0 <= i < fs.drop_last().len() implies #[trigger] entry_filter_wf(
                fs.drop_last()[i],
            ) by {
                assert(entry_filter_wf(fs[i]));
            }
            assert(entry_filter_wf(fs[fs.len() - 1]));
            assert(entry_filters_wf(fs));
        }
        if entry_filters_wf(fs) {
            assert forall|i: int| 0 <= i < fs.len() implies #[trigger] entry_filter_wf(fs[i]) by {
                if i < fs.len() - 1 {
                    assert(entry_filter_wf(fs.drop_last()[i]));
                }
            }
        }
    }
}

impl EntryFilter {
    fn render(&self) -> (r: String)
        requires
            entry_filter_wf(*self),
        ensures
            r@ == entry_filter_sql(*self),
        decreases self,
    {
        match self {
            EntryFilter::Text { field, op } => {
                let mut out = String::new();
                match field {
                    EntryTextField::Tag => {
                        out.append(
                            "EXISTS (SELECT 1 FROM subscriptions_tags st INNER JOIN tags t ON t.id = st.tag_id WHERE st.subscription_id = s.id AND ",
                        );
                        op.write_sql(field.column(), &mut out);
                        out.append(")");
                    },
                    _ => {
                        op.write_sql(field.column(), &mut out);
                    },
                }
                assert(out@ =~= entry_filter_sql(*self));
                out
            },
            EntryFilter::Boolean { field, op } => op.to_sql(field.column()),
            EntryFilter::Date { field, op } => op.to_sql(field.column()),
            EntryFilter::And(fs) => {
                let parts = Self::render_parts(fs);
                combine(parts, " AND ")
            },
            EntryFilter::Or(fs) => {
                let parts = Self::render_parts(fs);
                combine(parts, " OR ")
            },
            EntryFilter::Not(g) => {
                let mut out = String::new();
                out.append("NOT ");
                let inner = g.render();
                out.append(inner.as_str());
                out
            },
        }
    }

    fn render_parts(fs: &Vec<EntryFilter>) -> (r: Vec<String>)
        requires
            entry_filters_wf(fs@),
        ensures
            r@.len() == fs@.len(),
            r@.map_values(|s: String| s@) == entry_filters_sql(fs@),
        decreases fs,
    {
        proof {
            lemma_entry_filters(fs@);
        }
        let mut parts: Vec<String> = Vec::new();
        let mut i: usize = 0;
        while i < fs.len()
            invariant
                i <= fs.len(),
                parts@.len() == i,
                entry_filters_wf(fs@),
                entry_filters_sql(fs@).len() == fs@.len(),
                forall|j: int|
                    0 <= j < fs@.len() ==> #[trigger] entry_filters_sql(fs@)[j]
                        == entry_filter_sql(fs@[j]),
                forall|j: int| 0 <= j < fs@.len() ==> #[trigger] entry_filter_wf(fs@[j]),
                forall|j: int| 0 <= j < i ==> #[trigger] parts@[j]@ == entry_filter_sql(fs@[j]),
            decreases fs.len() - i,
        {
            let part = fs[i].render();
            parts.push(part);
            i = i + 1;
        }
        assert(parts@.map_values(|s: String| s@) =~= entry_filters_sql(fs@));
        parts
    }

    /// The SQL condition text of this filter, as the Postgres entry query
    /// appends it.
    pub fn to_sql(self) -> (r: String)
        requires
            entry_filter_wf(self),
        ensures
            r@ == entry_filter_sql(self),
    {
        self.render()
    }
}

// ---------------------------------------------------------------------------
// Filtered listings.

/// `WITH results AS (base) SELECT * FROM results WHERE TRUE`, followed by a
/// space and the filter's condition where there is one.
pub open spec fn filtered_query_sql(base: Seq<char>, filter: Option<Seq<char>>) -> Seq<char> {
    "WITH results AS ("@ + base + ") SELECT * FROM results WHERE TRUE"@ + match filter {
        Some(f) => " "@ + f,
        None => seq![],
    }
}

fn filtered_query(base: &str, filter: Option<String>) -> (r: String)
    ensures
        r@ == filtered_query_sql(
            base@,
            match filter {
                Some(f) => Some(f@),
                None => None,
            },
        ),
{
    let mut out = String::new();
    out.append("WITH results AS (");
    out.append(base);
    out.append(") SELECT * FROM results WHERE TRUE");
    if let Some(f) = &filter {
        out.append(" ");
        out.append(f.as_str());
    }
    proof {
        reveal_strlit("WITH results AS (");
        reveal_strlit(") SELECT * FROM results WHERE TRUE");
        reveal_strlit(" ");
    }
    assert(out@ =~= filtered_query_sql(
        base@,
        match filter {
            Some(f) => Some(f@),
            None => None,
        },
    ));
    out
}

/// The statement of a bookmark listing: the base query's rows, narrowed by
/// the filter's condition, which follows `WHERE TRUE` after a space.
pub fn bookmark_query_sql(base: &str, filter: Option<BookmarkFilter>) -> (r: String)
    requires
        filter matches Some(f) ==> bookmark_filter_wf(f),
    ensures
        r@ == filtered_query_sql(
            base@,
            match filter {
                Some(f) => Some(bookmark_filter_sql(f)),
                None => None,
            },
        ),
{
    let text = match filter {
        Some(f) => Some(f.to_sql()),
        None => None,
    };
    filtered_query(base, text)
}

/// The statement of an entry listing: the base query's rows, narrowed by the
/// filter's condition, which follows `WHERE TRUE` after a space.
pub fn entry_query_sql(base: &str, filter: Option<EntryFilter>) -> (r: String)
    requires
        filter matches Some(f) ==> entry_filter_wf(f),
    ensures
        r@ == filtered_query_sql(
            base@,
            match filter {
                Some(f) => Some(entry_filter_sql(f)),
                None => None,
            },
        ),
{
    let text = match filter {
        Some(f) => Some(f.to_sql()),
        None => None,
    };
    filtered_query(base, text)
}

// ---------------------------------------------------------------------------
// Laws of combined filters.

/// A conjunction or disjunction lists each of its parts exactly once: the
/// order in which it writes them is a rearrangement of the parts.
pub proof fn combined_order_rearranges<A>(parts: Seq<A>)
    ensures
        combined_order(parts).len() == parts.len(),
        combined_order(parts).to_multiset() == parts.to_multiset(),
{
    broadcast use vstd::seq_lib::group_to_multiset_ensures;
    if parts.len() > 1 {
        let n = parts.len();
        let mid = parts.subrange(1, n - 1);
        assert(parts =~= seq![parts[0]] + (mid + seq![parts.last()]));
        vstd::seq_lib::lemma_multiset_commutative(seq![parts[0]], mid + seq![parts.last()]);
        vstd::seq_lib::lemma_multiset_commutative(mid, seq![parts.last()]);
        vstd::seq_lib::lemma_multiset_commutative(seq![parts[0], parts.last()], mid);
        vstd::seq_lib::lemma_multiset_commutative(seq![parts[0]], seq![parts.last()]);
        assert(seq![parts[0], parts.last()] =~= seq![parts[0]] + seq![parts.last()]);
        assert(combined_order(parts).to_multiset() =~= parts.to_multiset());
    }
}

proof fn lemma_join_one(part: Seq<char>, sep: Seq<char>)
    ensures
        combined_sql(seq![part], sep) == part,
{
    assert(combined_order(seq![part]) == seq![part]);
}

/// A conjunction or disjunction of one bookmark filter is written as that
/// filter alone.
pub proof fn bookmark_single_part_sql(fs: Vec<BookmarkFilter>)
    requires
        fs@.len() == 1,
    ensures
        bookmark_filter_sql(BookmarkFilter::And(fs)) == bookmark_filter_sql(fs@[0]),
        bookmark_filter_sql(BookmarkFilter::Or(fs)) == bookmark_filter_sql(fs@[0]),
{
    assert(fs@.drop_last() =~= Seq::<BookmarkFilter>::empty());
    assert(fs@.last() == fs@[0]);
    assert(bookmark_filters_sql(Seq::<BookmarkFilter>::empty()) =~= seq![]);
    assert(bookmark_filters_sql(fs@) =~= seq![bookmark_filter_sql(fs@[0])]);
    lemma_join_one(bookmark_filter_sql(fs@[0]), " AND "@);
    lemma_join_one(bookmark_filter_sql(fs@[0]), " OR "@);
}

/// A conjunction or disjunction of one entry filter is written as that filter
/// alone.
pub proof fn entry_single_part_sql(fs: Vec<EntryFilter>)
    requires
        fs@.len() == 1,
    ensures
        entry_filter_sql(EntryFilter::And(fs)) == entry_filter_sql(fs@[0]),
        entry_filter_sql(EntryFilter::Or(fs)) == entry_filter_sql(fs@[0]),
{
    assert(fs@.drop_last() =~= Seq::<EntryFilter>::empty());
    assert(fs@.last() == fs@[0]);
    assert(entry_filters_sql(Seq::<EntryFilter>::empty()) =~= seq![]);
    assert(entry_filters_sql(fs@) =~= seq![entry_filter_sql(fs@[0])]);
    lemma_join_one(entry_filter_sql(fs@[0]), " AND "@);
    lemma_join_one(entry_filter_sql(fs@[0]), " OR "@);
}

proof fn lemma_join_starts(parts: Seq<Seq<char>>, sep: Seq<char>)
    requires
        parts.len() >= 2,
    ensures
        (parts[0] + sep + parts[1]).is_prefix_of(join_with(parts, sep)),
    decreases parts.len(),
{
    if parts.len() == 2 {
        assert(parts.drop_last() =~= seq![parts[0]]);
        assert(join_with(parts.drop_last(), sep) == parts[0]);
        assert(join_with(parts, sep) =~= parts[0] + sep + parts[1]);
    } else {
        let d = parts.drop_last();
        assert(d[0] == parts[0] && d[1] == parts[1]);
        lemma_join_starts(d, sep);
        let p = parts[0] + sep + parts[1];
        let j = join_with(d, sep);
        assert(join_with(parts, sep) == j + sep + parts.last());
        assert forall|i: int| 0 <= i < p.len() implies #[trigger] p[i] == join_with(parts, sep)[i] by {
            assert(p[i] == j[i]);
        }
    }
}

proof fn lemma_combined_starts(parts: Seq<Seq<char>>, sep: Seq<char>)
    requires
        parts.len() >= 2,
    ensures
        (parts[0] + sep + parts.last()).is_prefix_of(combined_sql(parts, sep)),
        parts.len() == 2 ==> combined_sql(parts, sep) == parts[0] + sep + parts[1],
{
    let o = combined_order(parts);
    assert(o[0] == parts[0]);
    assert(o[1] == parts.last());
    lemma_join_starts(o, sep);
    if parts.len() == 2 {
        assert(o =~= parts);
        assert(parts.drop_last() =~= seq![parts[0]]);
        assert(join_with(parts.drop_last(), sep) == parts[0]);
        assert(parts.last() == parts[1]);
        assert(join_with(parts, sep) =~= parts[0] + sep + parts[1]);
    }
}

/// A disjunction of two or more bookmark filters is written as their
/// conditions joined by ` OR `, a conjunction as their conditions joined by
/// ` AND `: the text starts with the first part, the separator and the last
/// part, and for two parts it is exactly that.
pub proof fn bookmark_combined_sql_joins(fs: Vec<BookmarkFilter>)
    requires
        fs@.len() >= 2,
    ensures
        (bookmark_filter_sql(fs@[0]) + " OR "@ + bookmark_filter_sql(fs@.last())).is_prefix_of(
            bookmark_filter_sql(BookmarkFilter::Or(fs)),
        ),
        (bookmark_filter_sql(fs@[0]) + " AND "@ + bookmark_filter_sql(fs@.last())).is_prefix_of(
            bookmark_filter_sql(BookmarkFilter::And(fs)),
        ),
        fs@.len() == 2 ==> bookmark_filter_sql(BookmarkFilter::Or(fs)) == bookmark_filter_sql(fs@[0])
            + " OR "@ + bookmark_filter_sql(fs@[1]),
        fs@.len() == 2 ==> bookmark_filter_sql(BookmarkFilter::And(fs)) == bookmark_filter_sql(fs@[0])
            + " AND "@ + bookmark_filter_sql(fs@[1]),
{
    lemma_bookmark_filters(fs@);
    let parts = bookmark_filters_sql(fs@);
    assert(parts[0] == bookmark_filter_sql(fs@[0]));
    assert(parts.last() == bookmark_filter_sql(fs@.last()));
    lemma_combined_starts(parts, " AND "@);
    lemma_combined_starts(parts, " OR "@);
}

/// A disjunction of two or more entry filters is written as their conditions
/// joined by ` OR `, a conjunction as their conditions joined by ` AND `: the
/// text starts with the first part, the separator and the last part, and for
/// two parts it is exactly that.
pub proof fn entry_combined_sql_joins(fs: Vec<EntryFilter>)
    requires
        fs@.len() >= 2,
    ensures
        (entry_filter_sql(fs@[0]) + " OR "@ + entry_filter_sql(fs@.last())).is_prefix_of(
            entry_filter_sql(EntryFilter::Or(fs)),
        ),
        (entry_filter_sql(fs@[0]) + " AND "@ + entry_filter_sql(fs@.last())).is_prefix_of(
            entry_filter_sql(EntryFilter::And(fs)),
        ),
        fs@.len() == 2 ==> entry_filter_sql(EntryFilter::Or(fs)) == entry_filter_sql(fs@[0]) + " OR "@
            + entry_filter_sql(fs@[1]),
        fs@.len() == 2 ==> entry_filter_sql(EntryFilter::And(fs)) == entry_filter_sql(fs@[0])
            + " AND "@ + entry_filter_sql(fs@[1]),
{
    lemma_entry_filters(fs@);
    let parts = entry_filters_sql(fs@);
    assert(parts[0] == entry_filter_sql(fs@[0]));
    assert(parts.last() == entry_filter_sql(fs@.last()));
    lemma_combined_starts(parts, " AND "@);
    lemma_combined_starts(parts, " OR "@);
}

} // verus!
