use colette_repository::args::{bookmark_select_args, feed_select_args, folder_select_args, split_presence};
use colette_repository::columns::{chunks, CHUNK_SIZE};
use colette_repository::outcome::{bookmark_save_error, SaveError, SQLITE_CONSTRAINT_UNIQUE};
use colette_repository::time::UtcDateTime;

#[test]
fn presence_of_nullable_parameters() {
    assert_eq!(split_presence(Some(Some(3))), (true, Some(3)));
    assert_eq!(split_presence::<u8>(Some(None)), (true, None));
    assert_eq!(split_presence::<u8>(None), (false, None));
}

#[test]
fn bookmark_args_switch_off_missing_filters() {
    let a = bookmark_select_args(None, Some(None), 9, None, Some(20), None);
    assert!(a.any_id && !a.any_folder && a.any_tags && a.any_cursor);
    assert_eq!(a.folder_id, None);
    assert!(a.tags.is_empty());
    assert_eq!((a.user_id, a.limit), (9, Some(20)));
    let t = UtcDateTime::from_timestamp(5, 0).unwrap();
    let b = bookmark_select_args(Some(1), None, 9, Some(t), None, Some(vec!["x".into()]));
    assert!(!b.any_id && b.any_folder && !b.any_tags && !b.any_cursor);
    assert_eq!(b.tags, vec!["x".to_string()]);
    assert_eq!(b.cursor_created_at, Some(t));
}

#[test]
fn feed_and_folder_args() {
    let f = feed_select_args(None, Some(Some(4)), 1, Some(("T".into(), 7)), None, None);
    assert!(!f.any_folder && !f.any_cursor);
    assert_eq!(f.folder_id, Some(4));
    assert_eq!((f.cursor_title, f.cursor_id), (Some("T".to_string()), Some(7)));
    let d = folder_select_args(Some(2), 1, None, Some(5), None);
    assert!(!d.any_id && d.any_parent && d.any_cursor);
    assert_eq!(d.parent_id, None);
}

#[test]
fn chunks_of_fourteen() {
    let items: Vec<u32> = (0..30).collect();
    let c = chunks(items.clone());
    assert_eq!(c.iter().map(|c| c.len()).collect::<Vec<_>>(), vec![14, 14, 2]);
    assert_eq!(c.concat(), items);
    assert_eq!(chunks((0..28).collect::<Vec<u32>>()).len(), 2);
    assert!(chunks(Vec::<u32>::new()).is_empty());
    assert_eq!(CHUNK_SIZE, 14);
}

#[test]
fn unique_failures_are_conflicts() {
    assert_eq!(
        bookmark_save_error(Some(SQLITE_CONSTRAINT_UNIQUE), "https://a".into()),
        SaveError::Conflict("https://a".into())
    );
    assert_eq!(bookmark_save_error(Some(19), "https://a".into()), SaveError::Database(Some(19)));
    assert_eq!(bookmark_save_error(None, "https://a".into()), SaveError::Database(None));
}
