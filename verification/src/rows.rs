//! The rows that the SQLite repositories read, and how the tag rows of a
//! bookmark listing are attached to its bookmark rows.

use vstd::prelude::*;

use crate::import::reversed;
use crate::plan::opt_seq;

verus! {

broadcast use vstd::std_specs::hash::group_hash_axioms;

/// A bookmark as SQLite stores it; times are seconds since the Unix epoch.
#[derive(Debug, PartialEq, Eq)]
pub struct BookmarkRow {
    pub id: u128,
    pub link: String,
    pub title: String,
    pub thumbnail_url: Option<String>,
    pub published_at: Option<i64>,
    pub archived_path: Option<String>,
    pub author: Option<String>,
    pub user_id: String,
    pub created_at: i64,
    pub updated_at: i64,
}

/// A tag of a bookmark, as the tag listing of some bookmarks gives it.
#[derive(Debug, PartialEq, Eq)]
pub struct BookmarkTagRow {
    pub bookmark_id: u128,
    pub id: u128,
    pub title: String,
    pub user_id: String,
    pub created_at: i64,
    pub updated_at: i64,
}

/// A bookmark row with the rows of its tags, where it has any.
#[derive(Debug, PartialEq, Eq)]
pub struct BookmarkRowWithTagRows {
    pub bookmark: BookmarkRow,
    pub tags: Option<Vec<BookmarkTagRow>>,
}

/// The tag rows of bookmark `id`, in their order.
pub open spec fn tags_of(rows: Seq<BookmarkTagRow>, id: u128) -> Seq<BookmarkTagRow>
    decreases rows.len(),
{
    if rows.len() == 0 {
        seq![]
    } else {
        let rest = tags_of(rows.drop_last(), id);
        if rows.last().bookmark_id == id {
            rest.push(rows.last())
        } else {
            rest
        }
    }
}

/// Whether the bookmark at `i` has the id of an earlier one.
pub open spec fn repeats_earlier(bookmarks: Seq<BookmarkRow>, i: int) -> bool {
    exists|j: int| 0 <= j < i && #[trigger] bookmarks[j].id == bookmarks[i].id
}

/// The tags attached to the bookmark at `i`: all the tag rows of its id, in
/// their order, where there is at least one and no earlier bookmark of the
/// same id took them; otherwise none.
pub open spec fn attached_tags(
    bookmarks: Seq<BookmarkRow>,
    rows: Seq<BookmarkTagRow>,
    i: int,
) -> Option<Seq<BookmarkTagRow>> {
    if repeats_earlier(bookmarks, i) || tags_of(rows, bookmarks[i].id).len() == 0 {
        None
    } else {
        Some(tags_of(rows, bookmarks[i].id))
    }
}

/// The tag rows of a bookmark are exactly the rows whose bookmark id is its
/// id, in the order of the rows.
pub proof fn tags_of_is_filter(rows: Seq<BookmarkTagRow>, id: u128)
    ensures
        tags_of(rows, id) == rows.filter(|r: BookmarkTagRow| r.bookmark_id == id),
    decreases rows.len(),
{
    let pred = |r: BookmarkTagRow| r.bookmark_id == id;
    reveal(Seq::filter);
    if rows.len() > 0 {
        tags_of_is_filter(rows.drop_last(), id);
        assert(rows.filter(pred) == if pred(rows.last()) {
            rows.drop_last().filter(pred).push(rows.last())
        } else {
            rows.drop_last().filter(pred)
        });
    } else {
        assert(rows.filter(pred) =~= Seq::<BookmarkTagRow>::empty());
    }
}

/// Attaching tags gives each bookmark no row of another bookmark: what the
/// bookmark at `i` gets is the rows with its id, in their order, every one of
/// them; the first bookmark of an id that has rows gets them; and no two
/// bookmarks both get rows of one id.
pub proof fn attached_tags_belong(bookmarks: Seq<BookmarkRow>, rows: Seq<BookmarkTagRow>, i: int, j: int)
    requires
        0 <= i < bookmarks.len(),
        0 <= j < bookmarks.len(),
    ensures
        attached_tags(bookmarks, rows, i) is Some ==> attached_tags(bookmarks, rows, i)->Some_0
            == rows.filter(|r: BookmarkTagRow| r.bookmark_id == bookmarks[i].id),
        attached_tags(bookmarks, rows, i) is Some ==> forall|k: int|
            0 <= k < attached_tags(bookmarks, rows, i)->Some_0.len()
                ==> (#[trigger] attached_tags(bookmarks, rows, i)->Some_0[k]).bookmark_id == bookmarks[i].id,
        (forall|k: int| 0 <= k < i ==> #[trigger] bookmarks[k].id != bookmarks[i].id) && (exists|k: int|
            0 <= k < rows.len() && #[trigger] rows[k].bookmark_id == bookmarks[i].id)
            ==> attached_tags(bookmarks, rows, i) is Some,
        i != j && attached_tags(bookmarks, rows, i) is Some && attached_tags(bookmarks, rows, j) is Some
            ==> bookmarks[i].id != bookmarks[j].id,
{
    let id = bookmarks[i].id;
    let pred = |r: BookmarkTagRow| r.bookmark_id == id;
    tags_of_is_filter(rows, id);
    rows.filter_lemma(pred);
    if exists|k: int| 0 <= k < rows.len() && #[trigger] rows[k].bookmark_id == id {
        let k = choose|k: int| 0 <= k < rows.len() && #[trigger] rows[k].bookmark_id == id;
        assert(pred(rows[k]));
        assert(rows.filter(pred).contains(rows[k]));
    }
    if i != j && bookmarks[i].id == bookmarks[j].id {
        if i < j {
            assert(bookmarks[i].id == bookmarks[j].id);
            assert(repeats_earlier(bookmarks, j));
        } else {
            assert(repeats_earlier(bookmarks, i));
        }
    }
}

/// The tag rows grouped by bookmark: each id with rows maps to its rows.
spec fn grouped(m: Map<u128, Vec<BookmarkTagRow>>, rows: Seq<BookmarkTagRow>) -> bool {
    forall|id: u128|
        #![trigger m.contains_key(id)]
        #![trigger tags_of(rows, id)]
        (m.contains_key(id) <==> tags_of(rows, id).len() > 0) && (m.contains_key(id) ==> m[id]@
            == tags_of(rows, id))
}

proof fn lemma_tags_of_push(rows: Seq<BookmarkTagRow>, row: BookmarkTagRow, id: u128)
    ensures
        tags_of(rows.push(row), id) == if row.bookmark_id == id {
            tags_of(rows, id).push(row)
        } else {
            tags_of(rows, id)
        },
{
    assert(rows.push(row).drop_last() =~= rows);
}

/// Gives each bookmark row the rows of its tags: the tag rows are grouped by
/// bookmark id, and each bookmark in turn takes the group of its id, so that
/// a bookmark without tag rows, or whose id an earlier bookmark already had,
/// gets none.
pub fn attach_tags(bookmarks: Vec<BookmarkRow>, tag_rows: Vec<BookmarkTagRow>) -> (r: Vec<
    BookmarkRowWithTagRows,
>)
    ensures
        r@.len() == bookmarks@.len(),
        forall|i: int|
            0 <= i < r@.len() ==> #[trigger] r@[i].bookmark == bookmarks@[i] && opt_seq(r@[i].tags)
                == attached_tags(bookmarks@, tag_rows@, i),
{
    let ghost rows = tag_rows@;
    let mut map: std::collections::HashMap<u128, Vec<BookmarkTagRow>> = std::collections::HashMap::new();
    let mut pending = reversed(tag_rows);
    let ghost n = rows.len();
    assert(grouped(map@, rows.subrange(0, 0))) by {
        assert(rows.subrange(0, 0) =~= Seq::<BookmarkTagRow>::empty());
    }
    while pending.len() > 0
        invariant
            pending@.len() <= n,
            n == rows.len(),
            pending@ == rows.subrange(n - pending@.len(), n as int).reverse(),
            grouped(map@, rows.subrange(0, n - pending@.len())),
        decreases pending.len(),
    {
        let ghost k = n - pending@.len();
        let row = pending.pop().unwrap();
        let ghost done = rows.subrange(0, k);
        proof {
            assert(row == rows[k]);
            assert(rows.subrange(0, k + 1) =~= done.push(row));
            assert(pending@ =~= rows.subrange(k + 1, n as int).reverse());
        }
        let key = row.bookmark_id;
        match map.remove(&key) {
            Some(mut v) => {
                v.push(row);
                map.insert(key, v);
            },
            None => {
                let mut v: Vec<BookmarkTagRow> = Vec::new();
                v.push(row);
                map.insert(key, v);
            },
        }
        proof {
            let next = done.push(row);
            assert forall|id: u128| #![trigger map@.contains_key(id)] #![trigger tags_of(next, id)]
                (map@.contains_key(id) <==> tags_of(next, id).len() > 0) && (map@.contains_key(id)
                    ==> map@[id]@ == tags_of(next, id)) by {
                lemma_tags_of_push(done, row, id);
                assert(tags_of(done, id).len() > 0 <==> tags_of(done, id).len() != 0);
            }
        }
    }
    assert(rows.subrange(0, n as int) =~= rows);
    let ghost all = map@;
    let ghost bs = bookmarks@;
    let ghost m = bs.len();
    let mut out: Vec<BookmarkRowWithTagRows> = Vec::new();
    let mut remaining = reversed(bookmarks);
    while remaining.len() > 0
        invariant
            remaining@.len() <= m,
            m == bs.len(),
            remaining@ == bs.subrange(m - remaining@.len(), m as int).reverse(),
            out@.len() == m - remaining@.len(),
            grouped(all, rows),
            forall|id: u128|
                #![trigger map@.contains_key(id)]
                map@.contains_key(id) <==> (all.contains_key(id) && forall|j: int|
                    0 <= j < out@.len() ==> #[trigger] bs[j].id != id),
            forall|id: u128| #![trigger map@.contains_key(id)] map@.contains_key(id) ==> map@[id] == all[id],
            forall|i: int|
                0 <= i < out@.len() ==> #[trigger] out@[i].bookmark == bs[i] && opt_seq(out@[i].tags)
                    == attached_tags(bs, rows, i),
        decreases remaining.len(),
    {
        let ghost i = out@.len() as int;
        let b = remaining.pop().unwrap();
        proof {
            assert(b == bs[i]);
            assert(remaining@ =~= bs.subrange(i + 1, m as int).reverse());
        }
        let ghost before = map@;
        let tags = map.remove(&b.id);
        proof {
            let id = bs[i].id;
            if repeats_earlier(bs, i) {
                // The earlier bookmark with this id already took its group.
                let j = choose|j: int| 0 <= j < i && #[trigger] bs[j].id == bs[i].id;
                assert(bs[j].id == id);
                assert(!before.contains_key(id));
            } else {
                assert forall|j: int| 0 <= j < i implies #[trigger] bs[j].id != id by {}
                assert(before.contains_key(id) <==> all.contains_key(id));
                assert(all.contains_key(id) <==> tags_of(rows, id).len() > 0);
            }
        }
        let ghost prev = out@;
        out.push(BookmarkRowWithTagRows { bookmark: b, tags });
        proof {
            assert forall|j: int| 0 <= j < i implies #[trigger] out@[j] == prev[j] by {}
        }
    }
    assert(bs.subrange(0, m as int) =~= bs);
    out
}

} // verus!
