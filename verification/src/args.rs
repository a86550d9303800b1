//! The arguments that the Postgres listing statements bind: each optional
//! filter becomes a flag that switches it off and the value it compares with,
//! so that one prepared statement serves every combination.

use vstd::prelude::*;

use crate::time::UtcDateTime;

verus! {

/// Whether a parameter that may itself be null was given, and its value:
/// `Some(v)` is given with value `v` (which may be `None`), `None` is not given.
pub fn split_presence<T>(o: Option<Option<T>>) -> (r: (bool, Option<T>))
    ensures
        r == match o {
            Some(v) => (true, v),
            None => (false, None::<T>),
        },
{
    match o {
        Some(v) => (true, v),
        None => (false, None),
    }
}

/// The arguments of the bookmark listing.
#[derive(Debug, PartialEq, Eq)]
pub struct BookmarkSelectArgs {
    pub user_id: u128,
    pub any_id: bool,
    pub id: Option<u128>,
    pub any_folder: bool,
    pub folder_id: Option<u128>,
    pub any_tags: bool,
    pub tags: Vec<String>,
    pub any_cursor: bool,
    pub cursor_created_at: Option<UtcDateTime>,
    pub limit: Option<i64>,
}

/// The arguments of a bookmark listing: the id, folder, tag and cursor filters
/// are off where not given; a given folder may be `None`, the root; missing
/// tags bind an empty list.
pub fn bookmark_select_args(
    id: Option<u128>,
    folder_id: Option<Option<u128>>,
    user_id: u128,
    cursor_created_at: Option<UtcDateTime>,
    limit: Option<i64>,
    tags: Option<Vec<String>>,
) -> (r: BookmarkSelectArgs)
    ensures
        r.user_id == user_id,
        r.any_id == id is None,
        r.id == id,
        r.any_folder == folder_id is None,
        r.folder_id == match folder_id {
            Some(f) => f,
            None => None,
        },
        r.any_tags == tags is None,
        r.tags@ == match tags {
            Some(t) => t@,
            None => Seq::<String>::empty(),
        },
        r.any_cursor == cursor_created_at is None,
        r.cursor_created_at == cursor_created_at,
        r.limit == limit,
{
    let (has_folder, folder_id) = split_presence(folder_id);
    let any_tags = tags.is_none();
    let tags = match tags {
        Some(t) => t,
        None => Vec::new(),
    };
    BookmarkSelectArgs {
        user_id,
        any_id: id.is_none(),
        id,
        any_folder: !has_folder,
        folder_id,
        any_tags,
        tags,
        any_cursor: cursor_created_at.is_none(),
        cursor_created_at,
        limit,
    }
}

/// The arguments of the feed listing; its cursor is a title and an id.
#[derive(Debug, PartialEq, Eq)]
pub struct FeedSelectArgs {
    pub user_id: u128,
    pub any_id: bool,
    pub id: Option<u128>,
    pub any_folder: bool,
    pub folder_id: Option<u128>,
    pub any_tags: bool,
    pub tags: Vec<String>,
    pub any_cursor: bool,
    pub cursor_title: Option<String>,
    pub cursor_id: Option<u128>,
    pub limit: Option<i64>,
}

/// The arguments of a feed listing, as for bookmarks, with the cursor's title
/// and id bound where there is a cursor.
pub fn feed_select_args(
    id: Option<u128>,
    folder_id: Option<Option<u128>>,
    user_id: u128,
    cursor: Option<(String, u128)>,
    limit: Option<i64>,
    tags: Option<Vec<String>>,
) -> (r: FeedSelectArgs)
    ensures
        r.user_id == user_id,
        r.any_id == id is None,
        r.id == id,
        r.any_folder == folder_id is None,
        r.folder_id == match folder_id {
            Some(f) => f,
            None => None,
        },
        r.any_tags == tags is None,
        r.tags@ == match tags {
            Some(t) => t@,
            None => Seq::<String>::empty(),
        },
        r.any_cursor == cursor is None,
        r.cursor_title == match cursor {
            Some(c) => Some(c.0),
            None => None,
        },
        r.cursor_id == match cursor {
            Some(c) => Some(c.1),
            None => None,
        },
        r.limit == limit,
{
    let (has_folder, folder_id) = split_presence(folder_id);
    let any_tags = tags.is_none();
    let tags = match tags {
        Some(t) => t,
        None => Vec::new(),
    };
    let any_cursor = cursor.is_none();
    let (cursor_title, cursor_id) = match cursor {
        Some((t, i)) => (Some(t), Some(i)),
        None => (None, None),
    };
    FeedSelectArgs {
        user_id,
        any_id: id.is_none(),
        id,
        any_folder: !has_folder,
        folder_id,
        any_tags,
        tags,
        any_cursor,
        cursor_title,
        cursor_id,
        limit,
    }
}

/// The arguments of the folder listing; its cursor is a title.
#[derive(Debug, PartialEq, Eq)]
pub struct FolderSelectArgs {
    pub user_id: u128,
    pub any_id: bool,
    pub id: Option<u128>,
    pub any_parent: bool,
    pub parent_id: Option<u128>,
    pub any_cursor: bool,
    pub cursor_title: Option<String>,
    pub limit: Option<i64>,
}

/// The arguments of a folder listing: the id, parent and cursor filters are off
/// where not given; a given parent may be `None`, the root.
pub fn folder_select_args(
    id: Option<u128>,
    user_id: u128,
    parent_id: Option<Option<u128>>,
    limit: Option<i64>,
    cursor_title: Option<String>,
) -> (r: FolderSelectArgs)
    ensures
        r.user_id == user_id,
        r.any_id == id is None,
        r.id == id,
        r.any_parent == parent_id is None,
        r.parent_id == match parent_id {
            Some(p) => p,
            None => None,
        },
        r.any_cursor == cursor_title is None,
        r.cursor_title == cursor_title,
        r.limit == limit,
{
    let (has_parent, parent_id) = split_presence(parent_id);
    FolderSelectArgs {
        user_id,
        any_id: id.is_none(),
        id,
        any_parent: !has_parent,
        parent_id,
        any_cursor: cursor_title.is_none(),
        cursor_title,
        limit,
    }
}

} // verus!
