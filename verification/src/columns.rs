//! The column arrays that the Postgres repositories bind to their bulk
//! statements: each list of records is split into one array per field, and the
//! tags of each record into two parallel arrays of (record key, tag title).

use vstd::prelude::*;

use crate::import::opt_text;
use crate::time::UtcDateTime;

verus! {

/// The texts of a sequence of strings.
pub open spec fn texts(v: Seq<String>) -> Seq<Seq<char>> {
    v.map_values(|s: String| s@)
}

/// The texts of a sequence of optional strings.
pub open spec fn opt_texts(v: Seq<Option<String>>) -> Seq<Option<Seq<char>>> {
    v.map_values(|s: Option<String>| opt_text(s))
}

/// `n` copies of `x`.
pub open spec fn copies<A>(x: A, n: nat) -> Seq<A> {
    Seq::new(n, |_i: int| x)
}

/// A copy of an optional string.
fn copy_opt(s: &Option<String>) -> (r: Option<String>)
    ensures
        r == *s,
{
    match s {
        Some(t) => Some(t.clone()),
        None => None,
    }
}

proof fn lemma_texts_push(s: Seq<String>, x: String)
    ensures
        texts(s.push(x)) == texts(s).push(x@),
{
    assert(texts(s.push(x)) =~= texts(s).push(x@));
}

proof fn lemma_opt_texts_push(s: Seq<Option<String>>, x: Option<String>)
    ensures
        opt_texts(s.push(x)) == opt_texts(s).push(opt_text(x)),
{
    assert(opt_texts(s.push(x)) =~= opt_texts(s).push(opt_text(x)));
}

/// Appends a copy of `x` to `v`.
fn push_text(v: &mut Vec<String>, x: &String)
    ensures
        texts(final(v)@) == texts(old(v)@).push(x@),
{
    let c = x.clone();
    proof {
        lemma_texts_push(v@, c);
    }
    v.push(c);
}

/// Appends a copy of `x` to `v`.
fn push_opt_text(v: &mut Vec<Option<String>>, x: &Option<String>)
    ensures
        opt_texts(final(v)@) == opt_texts(old(v)@).push(opt_text(*x)),
{
    let c = copy_opt(x);
    proof {
        lemma_opt_texts_push(v@, c);
    }
    v.push(c);
}

/// A copy of each string.
fn copy_texts(v: &Vec<String>) -> (r: Vec<String>)
    ensures
        texts(r@) == texts(v@),
{
    let mut r: Vec<String> = Vec::new();
    let mut k: usize = 0;
    while k < v.len()
        invariant
            k <= v@.len(),
            texts(r@) == texts(v@.subrange(0, k as int)),
        decreases v.len() - k,
    {
        push_text(&mut r, &v[k]);
        assert(texts(r@) =~= texts(v@.subrange(0, k + 1)));
        k = k + 1;
    }
    assert(v@.subrange(0, v@.len() as int) =~= v@);
    r
}

/// Appends, for each title, the pair (`key`, title) to the two arrays.
fn push_pairs(keys: &mut Vec<String>, titles: &mut Vec<String>, key: &String, tag_titles: &Vec<String>)
    ensures
        texts(final(keys)@) == texts(old(keys)@) + copies(key@, tag_titles@.len()),
        texts(final(titles)@) == texts(old(titles)@) + texts(tag_titles@),
{
    let ghost k0 = texts(keys@);
    let ghost t0 = texts(titles@);
    let mut i: usize = 0;
    while i < tag_titles.len()
        invariant
            i <= tag_titles@.len(),
            texts(keys@) == k0 + copies(key@, i as nat),
            texts(titles@) == t0 + texts(tag_titles@.subrange(0, i as int)),
        decreases tag_titles.len() - i,
    {
        push_text(keys, key);
        push_text(titles, &tag_titles[i]);
        proof {
            assert(texts(keys@) =~= k0 + copies(key@, (i + 1) as nat));
            assert(texts(titles@) =~= t0 + texts(tag_titles@.subrange(0, i + 1)));
        }
        i = i + 1;
    }
    assert(tag_titles@.subrange(0, tag_titles@.len() as int) =~= tag_titles@);
}

// ---------------------------------------------------------------------------
// Bookmark import.

/// A bookmark to import, with the titles of its tags.
#[derive(Debug)]
pub struct BookmarkImportItem {
    pub link: String,
    pub title: String,
    pub thumbnail_url: Option<String>,
    pub published_at: Option<UtcDateTime>,
    pub author: Option<String>,
    pub created_at: Option<UtcDateTime>,
    pub updated_at: Option<UtcDateTime>,
    pub tag_titles: Vec<String>,
}

/// The arrays that the bookmark import statement binds.
#[derive(Debug)]
pub struct BookmarkImportColumns {
    pub bookmark_links: Vec<String>,
    pub bookmark_titles: Vec<String>,
    pub bookmark_thumbnail_urls: Vec<Option<String>>,
    pub bookmark_published_ats: Vec<Option<UtcDateTime>>,
    pub bookmark_authors: Vec<Option<String>>,
    pub bookmark_created_ats: Vec<Option<UtcDateTime>>,
    pub bookmark_updated_ats: Vec<Option<UtcDateTime>>,
    pub tag_titles: Vec<String>,
    pub bt_bookmark_links: Vec<String>,
    pub bt_tag_titles: Vec<String>,
}

/// The links of the bookmarks, each repeated once per tag of the bookmark.
pub open spec fn bookmark_tag_links(items: Seq<BookmarkImportItem>) -> Seq<Seq<char>> {
    items.map_values(|b: BookmarkImportItem| copies(b.link@, b.tag_titles@.len())).flatten()
}

/// The titles of the tags of the bookmarks, bookmark after bookmark.
pub open spec fn bookmark_tag_titles(items: Seq<BookmarkImportItem>) -> Seq<Seq<char>> {
    items.map_values(|b: BookmarkImportItem| texts(b.tag_titles@)).flatten()
}

/// Splits the bookmarks to import into one array per field, in the order of the
/// bookmarks; the tag titles to create are passed on as they are; and for each
/// tag of each bookmark, in order, the bookmark's link and the tag's title go to
/// two parallel arrays.
pub fn bookmark_import_columns(items: &Vec<BookmarkImportItem>, tag_titles: &Vec<String>) -> (r:
    BookmarkImportColumns)
    ensures
        texts(r.bookmark_links@) == items@.map_values(|b: BookmarkImportItem| b.link@),
        texts(r.bookmark_titles@) == items@.map_values(|b: BookmarkImportItem| b.title@),
        opt_texts(r.bookmark_thumbnail_urls@) == items@.map_values(
            |b: BookmarkImportItem| opt_text(b.thumbnail_url),
        ),
        r.bookmark_published_ats@ == items@.map_values(|b: BookmarkImportItem| b.published_at),
        opt_texts(r.bookmark_authors@) == items@.map_values(
            |b: BookmarkImportItem| opt_text(b.author),
        ),
        r.bookmark_created_ats@ == items@.map_values(|b: BookmarkImportItem| b.created_at),
        r.bookmark_updated_ats@ == items@.map_values(|b: BookmarkImportItem| b.updated_at),
        texts(r.tag_titles@) == texts(tag_titles@),
        texts(r.bt_bookmark_links@) == bookmark_tag_links(items@),
        texts(r.bt_tag_titles@) == bookmark_tag_titles(items@),
{
    let mut c = BookmarkImportColumns {
        bookmark_links: Vec::new(),
        bookmark_titles: Vec::new(),
        bookmark_thumbnail_urls: Vec::new(),
        bookmark_published_ats: Vec::new(),
        bookmark_authors: Vec::new(),
        bookmark_created_ats: Vec::new(),
        bookmark_updated_ats: Vec::new(),
        tag_titles: Vec::new(),
        bt_bookmark_links: Vec::new(),
        bt_tag_titles: Vec::new(),
    };
    let mut i: usize = 0;
    while i < items.len()
        invariant
            i <= items@.len(),
            texts(c.bookmark_links@) == items@.subrange(0, i as int).map_values(
                |b: BookmarkImportItem| b.link@,
            ),
            texts(c.bookmark_titles@) == items@.subrange(0, i as int).map_values(
                |b: BookmarkImportItem| b.title@,
            ),
            opt_texts(c.bookmark_thumbnail_urls@) == items@.subrange(0, i as int).map_values(
                |b: BookmarkImportItem| opt_text(b.thumbnail_url),
            ),
            c.bookmark_published_ats@ == items@.subrange(0, i as int).map_values(
                |b: BookmarkImportItem| b.published_at,
            ),
            opt_texts(c.bookmark_authors@) == items@.subrange(0, i as int).map_values(
                |b: BookmarkImportItem| opt_text(b.author),
            ),
            c.bookmark_created_ats@ == items@.subrange(0, i as int).map_values(
                |b: BookmarkImportItem| b.created_at,
            ),
            c.bookmark_updated_ats@ == items@.subrange(0, i as int).map_values(
                |b: BookmarkImportItem| b.updated_at,
            ),
            c.tag_titles@.len() == 0,
            texts(c.bt_bookmark_links@) == bookmark_tag_links(items@.subrange(0, i as int)),
            texts(c.bt_tag_titles@) == bookmark_tag_titles(items@.subrange(0, i as int)),
        decreases items.len() - i,
    {
        let b = &items[i];
        let ghost pre = items@.subrange(0, i as int);
        let ghost post = items@.subrange(0, i + 1);
        assert(post =~= pre.push(*b));
        push_pairs(&mut c.bt_bookmark_links, &mut c.bt_tag_titles, &b.link, &b.tag_titles);
        push_text(&mut c.bookmark_links, &b.link);
        push_text(&mut c.bookmark_titles, &b.title);
        push_opt_text(&mut c.bookmark_thumbnail_urls, &b.thumbnail_url);
        c.bookmark_published_ats.push(b.published_at);
        push_opt_text(&mut c.bookmark_authors, &b.author);
        c.bookmark_created_ats.push(b.created_at);
        c.bookmark_updated_ats.push(b.updated_at);
        proof {
            assert(post.map_values(|b: BookmarkImportItem| copies(b.link@, b.tag_titles@.len()))
                =~= pre.map_values(|b: BookmarkImportItem| copies(b.link@, b.tag_titles@.len())).push(
                copies(b.link@, b.tag_titles@.len()),
            ));
            assert(post.map_values(|b: BookmarkImportItem| texts(b.tag_titles@)) =~= pre.map_values(
                |b: BookmarkImportItem| texts(b.tag_titles@),
            ).push(texts(b.tag_titles@)));
            pre.map_values(|b: BookmarkImportItem| copies(b.link@, b.tag_titles@.len())).lemma_flatten_push(
                copies(b.link@, b.tag_titles@.len()),
            );
            pre.map_values(|b: BookmarkImportItem| texts(b.tag_titles@)).lemma_flatten_push(
                texts(b.tag_titles@),
            );
            assert(texts(c.bookmark_links@) =~= post.map_values(|b: BookmarkImportItem| b.link@));
            assert(texts(c.bookmark_titles@) =~= post.map_values(|b: BookmarkImportItem| b.title@));
            assert(opt_texts(c.bookmark_thumbnail_urls@) =~= post.map_values(
                |b: BookmarkImportItem| opt_text(b.thumbnail_url),
            ));
            assert(c.bookmark_published_ats@ =~= post.map_values(
                |b: BookmarkImportItem| b.published_at,
            ));
            assert(opt_texts(c.bookmark_authors@) =~= post.map_values(
                |b: BookmarkImportItem| opt_text(b.author),
            ));
            assert(c.bookmark_created_ats@ =~= post.map_values(|b: BookmarkImportItem| b.created_at));
            assert(c.bookmark_updated_ats@ =~= post.map_values(|b: BookmarkImportItem| b.updated_at));
        }
        i = i + 1;
    }
    assert(items@.subrange(0, items@.len() as int) =~= items@);
    c.tag_titles = copy_texts(tag_titles);
    c
}

// ---------------------------------------------------------------------------
// Backup import.

/// A tag of a backup.
#[derive(Debug)]
pub struct BackupTag {
    pub title: String,
    pub created_at: UtcDateTime,
    pub updated_at: UtcDateTime,
}

/// A bookmark of a backup.
#[derive(Debug)]
pub struct BackupBookmark {
    pub link: String,
    pub title: String,
    pub thumbnail_url: Option<String>,
    pub published_at: Option<UtcDateTime>,
    pub author: Option<String>,
    pub archived_path: Option<String>,
    pub created_at: UtcDateTime,
    pub updated_at: UtcDateTime,
    pub tags: Vec<BackupTag>,
}

/// A subscription of a backup, keyed by its feed's source URL.
#[derive(Debug)]
pub struct BackupSubscription {
    pub source_url: String,
    pub title: String,
    pub description: Option<String>,
    pub created_at: UtcDateTime,
    pub updated_at: UtcDateTime,
    pub tags: Vec<BackupTag>,
}

/// A user's backup.
#[derive(Debug)]
pub struct Backup {
    pub bookmarks: Vec<BackupBookmark>,
    pub subscriptions: Vec<BackupSubscription>,
    pub tags: Vec<BackupTag>,
}

/// The arrays that the backup import statement binds.
#[derive(Debug)]
pub struct BackupColumns {
    pub feed_source_urls: Vec<String>,
    pub subscription_titles: Vec<String>,
    pub subscription_descriptions: Vec<Option<String>>,
    pub subscription_created_ats: Vec<UtcDateTime>,
    pub subscription_updated_ats: Vec<UtcDateTime>,
    pub bookmark_links: Vec<String>,
    pub bookmark_titles: Vec<String>,
    pub bookmark_thumbnail_urls: Vec<Option<String>>,
    pub bookmark_published_ats: Vec<Option<UtcDateTime>>,
    pub bookmark_authors: Vec<Option<String>>,
    pub bookmark_archived_paths: Vec<Option<String>>,
    pub bookmark_created_ats: Vec<UtcDateTime>,
    pub bookmark_updated_ats: Vec<UtcDateTime>,
    pub tag_titles: Vec<String>,
    pub tag_created_ats: Vec<UtcDateTime>,
    pub tag_updated_ats: Vec<UtcDateTime>,
    pub st_feed_source_urls: Vec<String>,
    pub st_tag_titles: Vec<String>,
    pub bt_bookmark_links: Vec<String>,
    pub bt_tag_titles: Vec<String>,
}

/// The titles of tags.
pub open spec fn tag_titles_of(tags: Seq<BackupTag>) -> Seq<Seq<char>> {
    tags.map_values(|t: BackupTag| t.title@)
}

/// The titles of the tags, copied.
fn copy_tag_titles(tags: &Vec<BackupTag>) -> (r: Vec<String>)
    ensures
        texts(r@) == tag_titles_of(tags@),
{
    let mut r: Vec<String> = Vec::new();
    let mut k: usize = 0;
    while k < tags.len()
        invariant
            k <= tags@.len(),
            texts(r@) == tag_titles_of(tags@.subrange(0, k as int)),
        decreases tags.len() - k,
    {
        push_text(&mut r, &tags[k].title);
        assert(texts(r@) =~= tag_titles_of(tags@.subrange(0, k + 1)));
        k = k + 1;
    }
    assert(tags@.subrange(0, tags@.len() as int) =~= tags@);
    r
}

/// The links of the backup's bookmarks, each repeated once per tag.
pub open spec fn backup_bookmark_tag_links(bs: Seq<BackupBookmark>) -> Seq<Seq<char>> {
    bs.map_values(|b: BackupBookmark| copies(b.link@, b.tags@.len())).flatten()
}

/// The titles of the tags of the backup's bookmarks, bookmark after bookmark.
pub open spec fn backup_bookmark_tag_titles(bs: Seq<BackupBookmark>) -> Seq<Seq<char>> {
    bs.map_values(|b: BackupBookmark| tag_titles_of(b.tags@)).flatten()
}

/// The source URLs of the backup's subscriptions, each repeated once per tag.
pub open spec fn backup_subscription_tag_urls(ss: Seq<BackupSubscription>) -> Seq<Seq<char>> {
    ss.map_values(|s: BackupSubscription| copies(s.source_url@, s.tags@.len())).flatten()
}

/// The titles of the tags of the backup's subscriptions, one after the other.
pub open spec fn backup_subscription_tag_titles(ss: Seq<BackupSubscription>) -> Seq<Seq<char>> {
    ss.map_values(|s: BackupSubscription| tag_titles_of(s.tags@)).flatten()
}

/// The bookmark arrays of a backup.
struct BookmarkArrays {
    links: Vec<String>,
    titles: Vec<String>,
    thumbnail_urls: Vec<Option<String>>,
    published_ats: Vec<Option<UtcDateTime>>,
    authors: Vec<Option<String>>,
    archived_paths: Vec<Option<String>>,
    created_ats: Vec<UtcDateTime>,
    updated_ats: Vec<UtcDateTime>,
    tag_links: Vec<String>,
    tag_titles: Vec<String>,
}

fn backup_bookmark_arrays(bs: &Vec<BackupBookmark>) -> (r: BookmarkArrays)
    ensures
        texts(r.links@) == bs@.map_values(|b: BackupBookmark| b.link@),
        texts(r.titles@) == bs@.map_values(|b: BackupBookmark| b.title@),
        opt_texts(r.thumbnail_urls@) == bs@.map_values(|b: BackupBookmark| opt_text(b.thumbnail_url)),
        r.published_ats@ == bs@.map_values(|b: BackupBookmark| b.published_at),
        opt_texts(r.authors@) == bs@.map_values(|b: BackupBookmark| opt_text(b.author)),
        opt_texts(r.archived_paths@) == bs@.map_values(|b: BackupBookmark| opt_text(b.archived_path)),
        r.created_ats@ == bs@.map_values(|b: BackupBookmark| b.created_at),
        r.updated_ats@ == bs@.map_values(|b: BackupBookmark| b.updated_at),
        texts(r.tag_links@) == backup_bookmark_tag_links(bs@),
        texts(r.tag_titles@) == backup_bookmark_tag_titles(bs@),
{
    let mut c = BookmarkArrays {
        links: Vec::new(),
        titles: Vec::new(),
        thumbnail_urls: Vec::new(),
        published_ats: Vec::new(),
        authors: Vec::new(),
        archived_paths: Vec::new(),
        created_ats: Vec::new(),
        updated_ats: Vec::new(),
        tag_links: Vec::new(),
        tag_titles: Vec::new(),
    };
    let mut i: usize = 0;
    while i < bs.len()
        invariant
            i <= bs@.len(),
            texts(c.links@) == bs@.subrange(0, i as int).map_values(|b: BackupBookmark| b.link@),
            texts(c.titles@) == bs@.subrange(0, i as int).map_values(|b: BackupBookmark| b.title@),
            opt_texts(c.thumbnail_urls@) == bs@.subrange(0, i as int).map_values(
                |b: BackupBookmark| opt_text(b.thumbnail_url),
            ),
            c.published_ats@ == bs@.subrange(0, i as int).map_values(
                |b: BackupBookmark| b.published_at,
            ),
            opt_texts(c.authors@) == bs@.subrange(0, i as int).map_values(
                |b: BackupBookmark| opt_text(b.author),
            ),
            opt_texts(c.archived_paths@) == bs@.subrange(0, i as int).map_values(
                |b: BackupBookmark| opt_text(b.archived_path),
            ),
            c.created_ats@ == bs@.subrange(0, i as int).map_values(|b: BackupBookmark| b.created_at),
            c.updated_ats@ == bs@.subrange(0, i as int).map_values(|b: BackupBookmark| b.updated_at),
            texts(c.tag_links@) == backup_bookmark_tag_links(bs@.subrange(0, i as int)),
            texts(c.tag_titles@) == backup_bookmark_tag_titles(bs@.subrange(0, i as int)),
        decreases bs.len() - i,
    {
        let b = &bs[i];
        let ghost pre = bs@.subrange(0, i as int);
        let ghost post = bs@.subrange(0, i + 1);
        assert(post =~= pre.push(*b));
        let titles = copy_tag_titles(&b.tags);
        push_pairs(&mut c.tag_links, &mut c.tag_titles, &b.link, &titles);
        push_text(&mut c.links, &b.link);
        push_text(&mut c.titles, &b.title);
        push_opt_text(&mut c.thumbnail_urls, &b.thumbnail_url);
        c.published_ats.push(b.published_at);
        push_opt_text(&mut c.authors, &b.author);
        push_opt_text(&mut c.archived_paths, &b.archived_path);
        c.created_ats.push(b.created_at);
        c.updated_ats.push(b.updated_at);
        proof {
            assert(post.map_values(|b: BackupBookmark| copies(b.link@, b.tags@.len())) =~= pre.map_values(
                |b: BackupBookmark| copies(b.link@, b.tags@.len()),
            ).push(copies(b.link@, b.tags@.len())));
            assert(post.map_values(|b: BackupBookmark| tag_titles_of(b.tags@)) =~= pre.map_values(
                |b: BackupBookmark| tag_titles_of(b.tags@),
            ).push(tag_titles_of(b.tags@)));
            pre.map_values(|b: BackupBookmark| copies(b.link@, b.tags@.len())).lemma_flatten_push(
                copies(b.link@, b.tags@.len()),
            );
            pre.map_values(|b: BackupBookmark| tag_titles_of(b.tags@)).lemma_flatten_push(
                tag_titles_of(b.tags@),
            );
            assert(texts(c.links@) =~= post.map_values(|b: BackupBookmark| b.link@));
            assert(texts(c.titles@) =~= post.map_values(|b: BackupBookmark| b.title@));
            assert(opt_texts(c.thumbnail_urls@) =~= post.map_values(
                |b: BackupBookmark| opt_text(b.thumbnail_url),
            ));
            assert(c.published_ats@ =~= post.map_values(|b: BackupBookmark| b.published_at));
            assert(opt_texts(c.authors@) =~= post.map_values(|b: BackupBookmark| opt_text(b.author)));
            assert(opt_texts(c.archived_paths@) =~= post.map_values(
                |b: BackupBookmark| opt_text(b.archived_path),
            ));
            assert(c.created_ats@ =~= post.map_values(|b: BackupBookmark| b.created_at));
            assert(c.updated_ats@ =~= post.map_values(|b: BackupBookmark| b.updated_at));
        }
        i = i + 1;
    }
    assert(bs@.subrange(0, bs@.len() as int) =~= bs@);
    c
}

/// The subscription arrays of a backup.
struct SubscriptionArrays {
    source_urls: Vec<String>,
    titles: Vec<String>,
    descriptions: Vec<Option<String>>,
    created_ats: Vec<UtcDateTime>,
    updated_ats: Vec<UtcDateTime>,
    tag_urls: Vec<String>,
    tag_titles: Vec<String>,
}

fn backup_subscription_arrays(ss: &Vec<BackupSubscription>) -> (r: SubscriptionArrays)
    ensures
        texts(r.source_urls@) == ss@.map_values(|s: BackupSubscription| s.source_url@),
        texts(r.titles@) == ss@.map_values(|s: BackupSubscription| s.title@),
        opt_texts(r.descriptions@) == ss@.map_values(|s: BackupSubscription| opt_text(s.description)),
        r.created_ats@ == ss@.map_values(|s: BackupSubscription| s.created_at),
        r.updated_ats@ == ss@.map_values(|s: BackupSubscription| s.updated_at),
        texts(r.tag_urls@) == backup_subscription_tag_urls(ss@),
        texts(r.tag_titles@) == backup_subscription_tag_titles(ss@),
{
    let mut c = SubscriptionArrays {
        source_urls: Vec::new(),
        titles: Vec::new(),
        descriptions: Vec::new(),
        created_ats: Vec::new(),
        updated_ats: Vec::new(),
        tag_urls: Vec::new(),
        tag_titles: Vec::new(),
    };
    let mut i: usize = 0;
    while i < ss.len()
        invariant
            i <= ss@.len(),
            texts(c.source_urls@) == ss@.subrange(0, i as int).map_values(
                |s: BackupSubscription| s.source_url@,
            ),
            texts(c.titles@) == ss@.subrange(0, i as int).map_values(|s: BackupSubscription| s.title@),
            opt_texts(c.descriptions@) == ss@.subrange(0, i as int).map_values(
                |s: BackupSubscription| opt_text(s.description),
            ),
            c.created_ats@ == ss@.subrange(0, i as int).map_values(
                |s: BackupSubscription| s.created_at,
            ),
            c.updated_ats@ == ss@.subrange(0, i as int).map_values(
                |s: BackupSubscription| s.updated_at,
            ),
            texts(c.tag_urls@) == backup_subscription_tag_urls(ss@.subrange(0, i as int)),
            texts(c.tag_titles@) == backup_subscription_tag_titles(ss@.subrange(0, i as int)),
        decreases ss.len() - i,
    {
        let s = &ss[i];
        let ghost pre = ss@.subrange(0, i as int);
        let ghost post = ss@.subrange(0, i + 1);
        assert(post =~= pre.push(*s));
        let titles = copy_tag_titles(&s.tags);
        push_pairs(&mut c.tag_urls, &mut c.tag_titles, &s.source_url, &titles);
        push_text(&mut c.source_urls, &s.source_url);
        push_text(&mut c.titles, &s.title);
        push_opt_text(&mut c.descriptions, &s.description);
        c.created_ats.push(s.created_at);
        c.updated_ats.push(s.updated_at);
        proof {
            assert(post.map_values(|s: BackupSubscription| copies(s.source_url@, s.tags@.len()))
                =~= pre.map_values(|s: BackupSubscription| copies(s.source_url@, s.tags@.len())).push(
                copies(s.source_url@, s.tags@.len()),
            ));
            assert(post.map_values(|s: BackupSubscription| tag_titles_of(s.tags@)) =~= pre.map_values(
                |s: BackupSubscription| tag_titles_of(s.tags@),
            ).push(tag_titles_of(s.tags@)));
            pre.map_values(|s: BackupSubscription| copies(s.source_url@, s.tags@.len())).lemma_flatten_push(
                copies(s.source_url@, s.tags@.len()),
            );
            pre.map_values(|s: BackupSubscription| tag_titles_of(s.tags@)).lemma_flatten_push(
                tag_titles_of(s.tags@),
            );
            assert(texts(c.source_urls@) =~= post.map_values(|s: BackupSubscription| s.source_url@));
            assert(texts(c.titles@) =~= post.map_values(|s: BackupSubscription| s.title@));
            assert(opt_texts(c.descriptions@) =~= post.map_values(
                |s: BackupSubscription| opt_text(s.description),
            ));
            assert(c.created_ats@ =~= post.map_values(|s: BackupSubscription| s.created_at));
            assert(c.updated_ats@ =~= post.map_values(|s: BackupSubscription| s.updated_at));
        }
        i = i + 1;
    }
    assert(ss@.subrange(0, ss@.len() as int) =~= ss@);
    c
}

/// The tag arrays of a backup.
fn backup_tag_arrays(ts: &Vec<BackupTag>) -> (r: (Vec<String>, Vec<UtcDateTime>, Vec<UtcDateTime>))
    ensures
        texts(r.0@) == tag_titles_of(ts@),
        r.1@ == ts@.map_values(|t: BackupTag| t.created_at),
        r.2@ == ts@.map_values(|t: BackupTag| t.updated_at),
{
    let titles = copy_tag_titles(ts);
    let mut created: Vec<UtcDateTime> = Vec::new();
    let mut updated: Vec<UtcDateTime> = Vec::new();
    let mut k: usize = 0;
    while k < ts.len()
        invariant
            k <= ts@.len(),
            created@ == ts@.subrange(0, k as int).map_values(|t: BackupTag| t.created_at),
            updated@ == ts@.subrange(0, k as int).map_values(|t: BackupTag| t.updated_at),
        decreases ts.len() - k,
    {
        created.push(ts[k].created_at);
        updated.push(ts[k].updated_at);
        assert(created@ =~= ts@.subrange(0, k + 1).map_values(|t: BackupTag| t.created_at));
        assert(updated@ =~= ts@.subrange(0, k + 1).map_values(|t: BackupTag| t.updated_at));
        k = k + 1;
    }
    assert(ts@.subrange(0, ts@.len() as int) =~= ts@);
    (titles, created, updated)
}

/// Splits a backup into the arrays of its import statement: one array per field
/// of the subscriptions, of the bookmarks and of the tags, each in the order of
/// the backup; and, for each tag of each subscription (bookmark), the
/// subscription's source URL (the bookmark's link) and the tag's title in two
/// parallel arrays.
pub fn backup_columns(backup: &Backup) -> (r: BackupColumns)
    ensures
        texts(r.feed_source_urls@) == backup.subscriptions@.map_values(
            |s: BackupSubscription| s.source_url@,
        ),
        texts(r.subscription_titles@) == backup.subscriptions@.map_values(
            |s: BackupSubscription| s.title@,
        ),
        opt_texts(r.subscription_descriptions@) == backup.subscriptions@.map_values(
            |s: BackupSubscription| opt_text(s.description),
        ),
        r.subscription_created_ats@ == backup.subscriptions@.map_values(
            |s: BackupSubscription| s.created_at,
        ),
        r.subscription_updated_ats@ == backup.subscriptions@.map_values(
            |s: BackupSubscription| s.updated_at,
        ),
        texts(r.bookmark_links@) == backup.bookmarks@.map_values(|b: BackupBookmark| b.link@),
        texts(r.bookmark_titles@) == backup.bookmarks@.map_values(|b: BackupBookmark| b.title@),
        opt_texts(r.bookmark_thumbnail_urls@) == backup.bookmarks@.map_values(
            |b: BackupBookmark| opt_text(b.thumbnail_url),
        ),
        r.bookmark_published_ats@ == backup.bookmarks@.map_values(
            |b: BackupBookmark| b.published_at,
        ),
        opt_texts(r.bookmark_authors@) == backup.bookmarks@.map_values(
            |b: BackupBookmark| opt_text(b.author),
        ),
        opt_texts(r.bookmark_archived_paths@) == backup.bookmarks@.map_values(
            |b: BackupBookmark| opt_text(b.archived_path),
        ),
        r.bookmark_created_ats@ == backup.bookmarks@.map_values(|b: BackupBookmark| b.created_at),
        r.bookmark_updated_ats@ == backup.bookmarks@.map_values(|b: BackupBookmark| b.updated_at),
        texts(r.tag_titles@) == tag_titles_of(backup.tags@),
        r.tag_created_ats@ == backup.tags@.map_values(|t: BackupTag| t.created_at),
        r.tag_updated_ats@ == backup.tags@.map_values(|t: BackupTag| t.updated_at),
        texts(r.st_feed_source_urls@) == backup_subscription_tag_urls(backup.subscriptions@),
        texts(r.st_tag_titles@) == backup_subscription_tag_titles(backup.subscriptions@),
        texts(r.bt_bookmark_links@) == backup_bookmark_tag_links(backup.bookmarks@),
        texts(r.bt_tag_titles@) == backup_bookmark_tag_titles(backup.bookmarks@),
{
    let b = backup_bookmark_arrays(&backup.bookmarks);
    let s = backup_subscription_arrays(&backup.subscriptions);
    let t = backup_tag_arrays(&backup.tags);
    BackupColumns {
        feed_source_urls: s.source_urls,
        subscription_titles: s.titles,
        subscription_descriptions: s.descriptions,
        subscription_created_ats: s.created_ats,
        subscription_updated_ats: s.updated_ats,
        bookmark_links: b.links,
        bookmark_titles: b.titles,
        bookmark_thumbnail_urls: b.thumbnail_urls,
        bookmark_published_ats: b.published_ats,
        bookmark_authors: b.authors,
        bookmark_archived_paths: b.archived_paths,
        bookmark_created_ats: b.created_ats,
        bookmark_updated_ats: b.updated_ats,
        tag_titles: t.0,
        tag_created_ats: t.1,
        tag_updated_ats: t.2,
        st_feed_source_urls: s.tag_urls,
        st_tag_titles: s.tag_titles,
        bt_bookmark_links: b.tag_links,
        bt_tag_titles: b.tag_titles,
    }
}

// ---------------------------------------------------------------------------
// Feeds with their entries.

/// An entry of a fetched feed.
#[derive(Debug)]
pub struct FeedEntryItem {
    pub link: String,
    pub title: String,
    pub published_at: UtcDateTime,
    pub description: Option<String>,
    pub author: Option<String>,
    pub thumbnail_url: Option<String>,
}

/// The entry arrays of a feed statement.
#[derive(Debug)]
pub struct FeedEntryColumns {
    pub links: Vec<String>,
    pub titles: Vec<String>,
    pub published_ats: Vec<UtcDateTime>,
    pub descriptions: Vec<Option<String>>,
    pub authors: Vec<Option<String>>,
    pub thumbnail_urls: Vec<Option<String>>,
}

/// The arrays hold the fields of `entries`, in order.
pub open spec fn entry_columns_of(c: FeedEntryColumns, entries: Seq<FeedEntryItem>) -> bool {
    &&& texts(c.links@) == entries.map_values(|e: FeedEntryItem| e.link@)
    &&& texts(c.titles@) == entries.map_values(|e: FeedEntryItem| e.title@)
    &&& c.published_ats@ == entries.map_values(|e: FeedEntryItem| e.published_at)
    &&& opt_texts(c.descriptions@) == entries.map_values(|e: FeedEntryItem| opt_text(e.description))
    &&& opt_texts(c.authors@) == entries.map_values(|e: FeedEntryItem| opt_text(e.author))
    &&& opt_texts(c.thumbnail_urls@) == entries.map_values(
        |e: FeedEntryItem| opt_text(e.thumbnail_url),
    )
}

/// Splits feed entries into one array per field, in the order of the entries.
pub fn entry_columns(entries: &Vec<FeedEntryItem>) -> (r: FeedEntryColumns)
    ensures
        entry_columns_of(r, entries@),
{
    let mut c = FeedEntryColumns {
        links: Vec::new(),
        titles: Vec::new(),
        published_ats: Vec::new(),
        descriptions: Vec::new(),
        authors: Vec::new(),
        thumbnail_urls: Vec::new(),
    };
    let mut i: usize = 0;
    proof {
        let e0 = entries@.subrange(0, 0);
        assert(texts(c.links@) =~= e0.map_values(|e: FeedEntryItem| e.link@));
        assert(texts(c.titles@) =~= e0.map_values(|e: FeedEntryItem| e.title@));
        assert(c.published_ats@ =~= e0.map_values(|e: FeedEntryItem| e.published_at));
        assert(opt_texts(c.descriptions@) =~= e0.map_values(|e: FeedEntryItem| opt_text(e.description)));
        assert(opt_texts(c.authors@) =~= e0.map_values(|e: FeedEntryItem| opt_text(e.author)));
        assert(opt_texts(c.thumbnail_urls@) =~= e0.map_values(|e: FeedEntryItem| opt_text(e.thumbnail_url)));
    }
    while i < entries.len()
        invariant
            i <= entries@.len(),
            entry_columns_of(c, entries@.subrange(0, i as int)),
        decreases entries.len() - i,
    {
        let e = &entries[i];
        let ghost pre = entries@.subrange(0, i as int);
        let ghost post = entries@.subrange(0, i + 1);
        assert(post =~= pre.push(*e));
        push_text(&mut c.links, &e.link);
        push_text(&mut c.titles, &e.title);
        c.published_ats.push(e.published_at);
        push_opt_text(&mut c.descriptions, &e.description);
        push_opt_text(&mut c.authors, &e.author);
        push_opt_text(&mut c.thumbnail_urls, &e.thumbnail_url);
        proof {
            assert(texts(c.links@) =~= post.map_values(|e: FeedEntryItem| e.link@));
            assert(texts(c.titles@) =~= post.map_values(|e: FeedEntryItem| e.title@));
            assert(c.published_ats@ =~= post.map_values(|e: FeedEntryItem| e.published_at));
            assert(opt_texts(c.descriptions@) =~= post.map_values(
                |e: FeedEntryItem| opt_text(e.description),
            ));
            assert(opt_texts(c.authors@) =~= post.map_values(|e: FeedEntryItem| opt_text(e.author)));
            assert(opt_texts(c.thumbnail_urls@) =~= post.map_values(
                |e: FeedEntryItem| opt_text(e.thumbnail_url),
            ));
        }
        i = i + 1;
    }
    assert(entries@.subrange(0, entries@.len() as int) =~= entries@);
    c
}

/// A fetched feed to store.
#[derive(Debug)]
pub struct FeedUpsertParams {
    pub source_url: String,
    pub link: String,
    pub title: String,
    pub description: Option<String>,
    pub refresh_interval_min: u32,
    pub is_custom: bool,
    pub feed_entry_items: Vec<FeedEntryItem>,
}

/// The values that the feed upsert statement binds.
#[derive(Debug)]
pub struct FeedUpsertColumns {
    pub source_url: String,
    pub link: String,
    pub title: String,
    pub description: Option<String>,
    pub refresh_interval_min: i32,
    pub is_custom: bool,
    pub entries: FeedEntryColumns,
}

/// The values of the feed upsert statement: the feed's own fields, its refresh
/// interval as a 32-bit signed number (the bits of the unsigned one), and one
/// array per entry field.
pub fn feed_upsert_columns(params: FeedUpsertParams) -> (r: FeedUpsertColumns)
    ensures
        r.source_url == params.source_url,
        r.link == params.link,
        r.title == params.title,
        r.description == params.description,
        r.refresh_interval_min == params.refresh_interval_min as i32,
        r.is_custom == params.is_custom,
        entry_columns_of(r.entries, params.feed_entry_items@),
{
    let entries = entry_columns(&params.feed_entry_items);
    FeedUpsertColumns {
        source_url: params.source_url,
        link: params.link,
        title: params.title,
        description: params.description,
        refresh_interval_min: params.refresh_interval_min as i32,
        is_custom: params.is_custom,
        entries,
    }
}

/// A feed as fetched and parsed.
#[derive(Debug)]
pub struct ProcessedFeed {
    pub link: String,
    pub entries: Vec<FeedEntryItem>,
}

/// The values that the statement storing a feed with its entries binds.
#[derive(Debug)]
pub struct FeedWithEntriesColumns {
    pub link: String,
    pub xml_url: Option<String>,
    pub entries: FeedEntryColumns,
}

/// The URL a feed was fetched from, kept only where it differs from the
/// feed's own link.
pub fn fetched_url(url: String, link: &String) -> (r: Option<String>)
    ensures
        opt_text(r) == if url@ == link@ {
            None
        } else {
            Some(url@)
        },
{
    if url == *link {
        None
    } else {
        Some(url)
    }
}

/// The values of the statement that stores a fetched feed with its entries:
/// the feed's link, the URL it was fetched from unless it is that same link,
/// and one array per entry field.
pub fn feed_with_entries_columns(url: String, feed: ProcessedFeed) -> (r: FeedWithEntriesColumns)
    ensures
        r.link == feed.link,
        opt_text(r.xml_url) == if url@ == feed.link@ {
            None
        } else {
            Some(url@)
        },
        entry_columns_of(r.entries, feed.entries@),
{
    let entries = entry_columns(&feed.entries);
    let xml_url = fetched_url(url, &feed.link);
    FeedWithEntriesColumns { link: feed.link, xml_url, entries }
}

// ---------------------------------------------------------------------------
// Laws of the tag link arrays.

/// The two arrays that link imported bookmarks to their tags pair up: they are
/// equally long, one entry for each tag of each bookmark.
pub proof fn bookmark_import_links_align(items: Seq<BookmarkImportItem>)
    ensures
        bookmark_tag_links(items).len() == bookmark_tag_titles(items).len(),
    decreases items.len(),
{
    if items.len() > 0 {
        let rest = items.drop_first();
        bookmark_import_links_align(rest);
        let links = items.map_values(|b: BookmarkImportItem| copies(b.link@, b.tag_titles@.len()));
        let titles = items.map_values(|b: BookmarkImportItem| texts(b.tag_titles@));
        assert(links.drop_first() =~= rest.map_values(
            |b: BookmarkImportItem| copies(b.link@, b.tag_titles@.len()),
        ));
        assert(titles.drop_first() =~= rest.map_values(|b: BookmarkImportItem| texts(b.tag_titles@)));
    }
}

/// The two arrays that link a backup's bookmarks to their tags pair up.
pub proof fn backup_bookmark_links_align(bs: Seq<BackupBookmark>)
    ensures
        backup_bookmark_tag_links(bs).len() == backup_bookmark_tag_titles(bs).len(),
    decreases bs.len(),
{
    if bs.len() > 0 {
        let rest = bs.drop_first();
        backup_bookmark_links_align(rest);
        let links = bs.map_values(|b: BackupBookmark| copies(b.link@, b.tags@.len()));
        let titles = bs.map_values(|b: BackupBookmark| tag_titles_of(b.tags@));
        assert(links.drop_first() =~= rest.map_values(|b: BackupBookmark| copies(b.link@, b.tags@.len())));
        assert(titles.drop_first() =~= rest.map_values(|b: BackupBookmark| tag_titles_of(b.tags@)));
    }
}

/// The two arrays that link a backup's subscriptions to their tags pair up.
pub proof fn backup_subscription_links_align(ss: Seq<BackupSubscription>)
    ensures
        backup_subscription_tag_urls(ss).len() == backup_subscription_tag_titles(ss).len(),
    decreases ss.len(),
{
    if ss.len() > 0 {
        let rest = ss.drop_first();
        backup_subscription_links_align(rest);
        let urls = ss.map_values(|s: BackupSubscription| copies(s.source_url@, s.tags@.len()));
        let titles = ss.map_values(|s: BackupSubscription| tag_titles_of(s.tags@));
        assert(urls.drop_first() =~= rest.map_values(
            |s: BackupSubscription| copies(s.source_url@, s.tags@.len()),
        ));
        assert(titles.drop_first() =~= rest.map_values(|s: BackupSubscription| tag_titles_of(s.tags@)));
    }
}

// ---------------------------------------------------------------------------
// Batches of entries.

/// How many entries one D1 insert of feed entries takes at most, to stay
/// within the number of values that D1 binds to one statement.
pub const CHUNK_SIZE: usize = 14;

/// The items of the chunks, one chunk after the other.
pub open spec fn flat<T>(chunks: Seq<Vec<T>>) -> Seq<T>
    decreases chunks.len(),
{
    if chunks.len() == 0 {
        seq![]
    } else {
        flat(chunks.drop_last()) + chunks.last()@
    }
}

proof fn lemma_flat_push<T>(chunks: Seq<Vec<T>>, c: Vec<T>)
    ensures
        flat(chunks.push(c)) == flat(chunks) + c@,
{
    assert(chunks.push(c).drop_last() =~= chunks);
}

/// Cuts the items into chunks of `CHUNK_SIZE` in their order; only the last
/// chunk may be shorter, and no chunk is empty, so no items give no chunk.
pub fn chunks<T>(items: Vec<T>) -> (r: Vec<Vec<T>>)
    ensures
        flat(r@) == items@,
        forall|i: int| 0 <= i < r@.len() ==> 1 <= #[trigger] r@[i]@.len() <= CHUNK_SIZE,
        forall|i: int| 0 <= i < r@.len() - 1 ==> #[trigger] r@[i]@.len() == CHUNK_SIZE,
{
    let ghost orig = items@;
    let ghost n = orig.len();
    let mut rest = crate::import::reversed(items);
    let mut out: Vec<Vec<T>> = Vec::new();
    let mut cur: Vec<T> = Vec::new();
    assert(orig.subrange(n as int, n as int).reverse() =~= Seq::<T>::empty());
    assert(orig.subrange(0, n as int) =~= orig);
    while rest.len() > 0
        invariant
            rest@.len() <= n,
            n == orig.len(),
            rest@ == orig.subrange(n - rest@.len(), n as int).reverse(),
            flat(out@) + cur@ == orig.subrange(0, n - rest@.len()),
            cur@.len() < CHUNK_SIZE,
            forall|i: int| 0 <= i < out@.len() ==> #[trigger] out@[i]@.len() == CHUNK_SIZE,
        decreases rest.len(),
    {
        let ghost k = n - rest@.len();
        let x = rest.pop().unwrap();
        proof {
            assert(x == orig[k]);
            assert(rest@ =~= orig.subrange(k + 1, n as int).reverse());
            assert(orig.subrange(0, k + 1) =~= orig.subrange(0, k).push(x));
        }
        cur.push(x);
        assert(flat(out@) + cur@ =~= orig.subrange(0, k + 1));
        if cur.len() == CHUNK_SIZE {
            let ghost before = out@;
            let full = cur;
            cur = Vec::new();
            out.push(full);
            proof {
                lemma_flat_push(before, full);
                assert(out@ == before.push(full));
                assert(flat(out@) + cur@ =~= orig.subrange(0, k + 1));
            }
        }
    }
    if cur.len() > 0 {
        let ghost before = out@;
        out.push(cur);
        proof {
            lemma_flat_push(before, cur);
        }
    }
    assert(flat(out@) =~= orig);
    out
}

} // verus!
