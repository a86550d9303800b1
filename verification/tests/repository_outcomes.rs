use colette_repository::outcome::{check_profile_delete, ProfileDeleteError};
use colette_repository::outcome::{read_status, read_status_write, ReadStatus, ReadStatusWrite};
use colette_repository::time::UtcDateTime;
use colette_repository::outcome::{
    after_insert, library_items, read_mark_change, require_changes, require_rows_affected, tag_list_writes, AfterInsert,
    D1Error, InsertReply, LinkWrite, NotFound, ReadMarkChange, UpdateTagList, WorkerError,
};
use colette_repository::relations::{ProfileFeedEntryToEntry, Relation};
use colette_repository::rows::{attach_tags, BookmarkRow, BookmarkRowWithTagRows, BookmarkTagRow};

#[test]
fn d1_errors_are_classified_by_cause() {
    assert_eq!(
        D1Error::from_worker(WorkerError::D1("UNIQUE constraint failed: tags.title".into())),
        D1Error::UniqueConstraint
    );
    assert_eq!(
        D1Error::from_worker(WorkerError::D1("no such table: x".into())),
        D1Error::Other("no such table: x".into())
    );
    assert_eq!(
        D1Error::from_worker(WorkerError::D1("unique constraint failed".into())),
        D1Error::Other("unique constraint failed".into())
    );
    assert_eq!(
        D1Error::from_worker(WorkerError::Other("timeout".into())),
        D1Error::Unknown(WorkerError::Other("timeout".into()))
    );
}

#[test]
fn writes_that_change_nothing_mean_not_found() {
    assert_eq!(require_changes(None, 7), Err(NotFound(7)));
    assert_eq!(require_changes(Some(0), 7), Err(NotFound(7)));
    assert_eq!(require_changes(Some(2), 7), Ok(()));
    assert_eq!(require_rows_affected(0, 3), Err(NotFound(3)));
    assert_eq!(require_rows_affected(1, 3), Ok(()));
}

#[test]
fn insert_replies_decide_the_next_step() {
    assert_eq!(after_insert(InsertReply::Inserted(5)), AfterInsert::Use(5));
    assert_eq!(after_insert::<i32>(InsertReply::NothingReturned), AfterInsert::LookUp);
    assert_eq!(after_insert::<i32>(InsertReply::Failed), AfterInsert::Fail);
}

#[test]
fn tag_list_changes_become_link_writes() {
    assert_eq!(
        tag_list_writes(UpdateTagList::Add(vec![1, 2])),
        vec![LinkWrite::Insert { tag_ids: vec![1, 2], keep_existing: true }]
    );
    assert_eq!(tag_list_writes(UpdateTagList::Remove(vec![3])), vec![LinkWrite::DeleteSome(vec![3])]);
    assert_eq!(
        tag_list_writes(UpdateTagList::Replace(vec![])),
        vec![LinkWrite::DeleteAll, LinkWrite::Insert { tag_ids: vec![], keep_existing: false }]
    );
}

#[test]
fn read_state_changes() {
    assert_eq!(read_mark_change(None), ReadMarkChange::Keep);
    assert_eq!(read_mark_change(Some(true)), ReadMarkChange::Mark);
    assert_eq!(read_mark_change(Some(false)), ReadMarkChange::Unmark);
}

#[test]
fn library_lists_folders_then_feeds_then_bookmarks() {
    assert_eq!(library_items(vec!["f1"], vec!["r1", "r2"], vec!["b1"]), vec!["f1", "r1", "r2", "b1"]);
    assert!(library_items::<u8>(vec![], vec![], vec![]).is_empty());
}

#[test]
fn entry_link_goes_through_the_feed_entry() {
    assert_eq!(
        ProfileFeedEntryToEntry.link(),
        vec![Relation::ProfileFeedEntryToFeedEntry, Relation::FeedEntryToEntry]
    );
}

fn bookmark(id: u128) -> BookmarkRow {
    BookmarkRow {
        id,
        link: format!("https://{id}"),
        title: "t".into(),
        thumbnail_url: None,
        published_at: None,
        archived_path: None,
        author: None,
        user_id: "u".into(),
        created_at: 0,
        updated_at: 0,
    }
}

fn tag(bookmark_id: u128, id: u128) -> BookmarkTagRow {
    BookmarkTagRow { bookmark_id, id, title: format!("tag {id}"), user_id: "u".into(), created_at: 0, updated_at: 0 }
}

#[test]
fn tag_rows_attach_to_their_bookmarks_in_order() {
    let out = attach_tags(vec![bookmark(1), bookmark(2), bookmark(3)], vec![tag(3, 30), tag(1, 10), tag(3, 31), tag(9, 90)]);
    assert_eq!(
        out,
        vec![
            BookmarkRowWithTagRows { bookmark: bookmark(1), tags: Some(vec![tag(1, 10)]) },
            BookmarkRowWithTagRows { bookmark: bookmark(2), tags: None },
            BookmarkRowWithTagRows { bookmark: bookmark(3), tags: Some(vec![tag(3, 30), tag(3, 31)]) },
        ]
    );
}

#[test]
fn a_repeated_bookmark_gets_no_tags_the_second_time() {
    let out = attach_tags(vec![bookmark(1), bookmark(1)], vec![tag(1, 10)]);
    assert_eq!(out[0].tags, Some(vec![tag(1, 10)]));
    assert_eq!(out[1].tags, None);
    assert!(attach_tags(vec![], vec![tag(1, 1)]).is_empty());
}

#[test]
fn read_status_is_written_back_as_read() {
    let t = UtcDateTime::from_timestamp(100, 0).unwrap();
    assert_eq!(read_status(Some(t)), ReadStatus::Read(t));
    assert_eq!(read_status(None), ReadStatus::Unread);
    assert_eq!(read_status_write(read_status(Some(t))), ReadStatusWrite::InsertMark(t));
    assert_eq!(read_status_write(ReadStatus::Unread), ReadStatusWrite::DeleteMark);
}

#[test]
fn the_default_profile_is_never_deleted() {
    use_profile_check();
}

fn use_profile_check() {
    assert_eq!(check_profile_delete(None, 4), Err(ProfileDeleteError::NotFound(4)));
    assert_eq!(check_profile_delete(Some(true), 4), Err(ProfileDeleteError::DeletingDefault));
    assert_eq!(check_profile_delete(Some(false), 4), Ok(()));
}
