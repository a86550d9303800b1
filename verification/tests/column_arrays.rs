use colette_repository::columns::{
    backup_columns, bookmark_import_columns, entry_columns, feed_upsert_columns, feed_with_entries_columns, Backup,
    BackupBookmark, BackupSubscription, BackupTag, BookmarkImportItem, FeedEntryItem, FeedUpsertParams, ProcessedFeed,
};
use colette_repository::time::UtcDateTime;

fn at(secs: i64) -> UtcDateTime {
    UtcDateTime::from_timestamp(secs, 0).unwrap()
}

fn entry(link: &str) -> FeedEntryItem {
    FeedEntryItem {
        link: link.into(),
        title: format!("title of {link}"),
        published_at: at(1),
        description: None,
        author: Some("a".into()),
        thumbnail_url: None,
    }
}

#[test]
fn entries_split_into_parallel_arrays() {
    let c = entry_columns(&vec![entry("x"), entry("y")]);
    assert_eq!(c.links, vec!["x".to_string(), "y".to_string()]);
    assert_eq!(c.titles[1], "title of y");
    assert_eq!(c.authors, vec![Some("a".to_string()), Some("a".to_string())]);
    assert_eq!(c.descriptions, vec![None, None]);
    let empty = entry_columns(&vec![]);
    assert!(empty.links.is_empty() && empty.published_ats.is_empty());
}

#[test]
fn fetched_url_is_kept_only_when_it_differs_from_the_link() {
    let same = feed_with_entries_columns("https://a".into(), ProcessedFeed { link: "https://a".into(), entries: vec![] });
    assert_eq!(same.xml_url, None);
    let other = feed_with_entries_columns(
        "https://a/rss".into(),
        ProcessedFeed { link: "https://a".into(), entries: vec![entry("e")] },
    );
    assert_eq!(other.xml_url, Some("https://a/rss".to_string()));
    assert_eq!(other.link, "https://a");
    assert_eq!(other.entries.links, vec!["e".to_string()]);
}

#[test]
fn feed_upsert_converts_the_interval() {
    let c = feed_upsert_columns(FeedUpsertParams {
        source_url: "s".into(),
        link: "l".into(),
        title: "t".into(),
        description: None,
        refresh_interval_min: 90,
        is_custom: false,
        feed_entry_items: vec![entry("z")],
    });
    assert_eq!(c.refresh_interval_min, 90);
    assert_eq!(c.entries.links, vec!["z".to_string()]);
}

#[test]
fn bookmark_import_pairs_each_tag_with_its_bookmark() {
    let item = |link: &str, tags: &[&str]| BookmarkImportItem {
        link: link.into(),
        title: link.to_uppercase(),
        thumbnail_url: None,
        published_at: None,
        author: None,
        created_at: Some(at(3)),
        updated_at: None,
        tag_titles: tags.iter().map(|t| t.to_string()).collect(),
    };
    let c = bookmark_import_columns(&vec![item("a", &["x", "y"]), item("b", &[]), item("c", &["x"])], &vec!["x".into(), "y".into()]);
    assert_eq!(c.bookmark_links, vec!["a", "b", "c"]);
    assert_eq!(c.bookmark_titles, vec!["A", "B", "C"]);
    assert_eq!(c.tag_titles, vec!["x", "y"]);
    assert_eq!(c.bt_bookmark_links, vec!["a", "a", "c"]);
    assert_eq!(c.bt_tag_titles, vec!["x", "y", "x"]);
    assert_eq!(c.bookmark_created_ats, vec![Some(at(3)); 3]);
}

#[test]
fn backup_flattens_tag_links() {
    let tag = |t: &str| BackupTag { title: t.into(), created_at: at(0), updated_at: at(0) };
    let backup = Backup {
        bookmarks: vec![BackupBookmark {
            link: "https://b".into(),
            title: "B".into(),
            thumbnail_url: None,
            published_at: None,
            author: None,
            archived_path: Some("/a".into()),
            created_at: at(1),
            updated_at: at(2),
            tags: vec![tag("x"), tag("y")],
        }],
        subscriptions: vec![BackupSubscription {
            source_url: "https://s".into(),
            title: "S".into(),
            description: None,
            created_at: at(1),
            updated_at: at(1),
            tags: vec![tag("y")],
        }],
        tags: vec![tag("x"), tag("y")],
    };
    let c = backup_columns(&backup);
    assert_eq!(c.feed_source_urls, vec!["https://s"]);
    assert_eq!(c.bookmark_archived_paths, vec![Some("/a".to_string())]);
    assert_eq!(c.tag_titles, vec!["x", "y"]);
    assert_eq!(c.st_feed_source_urls, vec!["https://s"]);
    assert_eq!(c.st_tag_titles, vec!["y"]);
    assert_eq!(c.bt_bookmark_links, vec!["https://b", "https://b"]);
    assert_eq!(c.bt_tag_titles, vec!["x", "y"]);
}
