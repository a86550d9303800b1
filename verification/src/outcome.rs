//! What the repositories decide from what the database reports: how a D1
//! failure is classified, when a write that touched nothing means the row was
//! not there, how a tag list change becomes link writes, and what a read mark
//! change asks for.

use vstd::prelude::*;

use crate::time::UtcDateTime;

verus! {

/// Calls `str::starts_with`, which std documents as true exactly when the
/// pattern is a prefix of the string.
#[verifier::external_body]
fn str_starts_with(s: &str, prefix: &str) -> (r: bool)
    ensures
        r == prefix@.is_prefix_of(s@),
{
    s.starts_with(prefix)
}

/// An error of the Workers runtime, as the D1 repositories read it: a D1
/// failure with the cause that D1 gave, or another error with its message.
#[derive(Debug, PartialEq, Eq)]
pub enum WorkerError {
    D1(String),
    Other(String),
}

/// The error of a D1 statement.
#[derive(Debug, PartialEq, Eq)]
pub enum D1Error {
    /// A unique constraint refused the write.
    UniqueConstraint,
    /// Another D1 failure, with its cause.
    Other(String),
    /// An error that did not come from D1.
    Unknown(WorkerError),
}

/// The cause with which D1 refuses a write that a unique constraint forbids.
pub open spec fn unique_failure_prefix() -> Seq<char> {
    "UNIQUE constraint failed"@
}

impl D1Error {
    /// Classifies a runtime error: a D1 failure whose cause starts with
    /// `UNIQUE constraint failed` is a unique constraint failure, any other D1
    /// failure keeps its cause, and other errors are kept as they are.
    pub fn from_worker(e: WorkerError) -> (r: D1Error)
        ensures
            match e {
                WorkerError::D1(cause) => if unique_failure_prefix().is_prefix_of(cause@) {
                    r == D1Error::UniqueConstraint
                } else {
                    r == D1Error::Other(cause)
                },
                WorkerError::Other(m) => r == D1Error::Unknown(WorkerError::Other(m)),
            },
    {
        match e {
            WorkerError::D1(cause) => {
                proof {
                    reveal_strlit("UNIQUE constraint failed");
                }
                if str_starts_with(cause.as_str(), "UNIQUE constraint failed") {
                    D1Error::UniqueConstraint
                } else {
                    D1Error::Other(cause)
                }
            },
            WorkerError::Other(m) => D1Error::Unknown(WorkerError::Other(m)),
        }
    }
}

/// The extended SQLite result code of a write that a unique constraint refused.
pub const SQLITE_CONSTRAINT_UNIQUE: i32 = 2067;

/// The error of saving a bookmark on SQLite.
#[derive(Debug, PartialEq, Eq)]
pub enum SaveError {
    /// A bookmark with this link is already stored.
    Conflict(String),
    /// The database failed otherwise; the code is SQLite's where it gave one.
    Database(Option<i32>),
}

/// The error of a failed bookmark save: a SQLite failure with the unique
/// constraint code is a conflict on the bookmark's link; anything else is a
/// database error.
pub fn bookmark_save_error(failure_code: Option<i32>, link: String) -> (r: SaveError)
    ensures
        failure_code == Some(SQLITE_CONSTRAINT_UNIQUE) ==> r == SaveError::Conflict(link),
        failure_code != Some(SQLITE_CONSTRAINT_UNIQUE) ==> r == SaveError::Database(failure_code),
{
    match failure_code {
        Some(code) if code == SQLITE_CONSTRAINT_UNIQUE => SaveError::Conflict(link),
        _ => SaveError::Database(failure_code),
    }
}

/// The row that a write was meant for was not there.
#[derive(Debug, PartialEq, Eq)]
pub struct NotFound(pub u128);

/// The outcome of an update or delete of row `id` on D1: where D1 reports no
/// change count, or a count of 0, the row was not there.
pub fn require_changes(changes: Option<u64>, id: u128) -> (r: Result<(), NotFound>)
    ensures
        r is Err <==> (changes is None || changes == Some(0u64)),
        r matches Err(NotFound(x)) ==> x == id,
{
    match changes {
        Some(n) if n > 0 => Ok(()),
        _ => Err(NotFound(id)),
    }
}

/// The outcome of a delete of row `id`: where no row was affected, the row was
/// not there.
pub fn require_rows_affected(rows_affected: u64, id: u128) -> (r: Result<(), NotFound>)
    ensures
        r is Err <==> rows_affected == 0,
        r matches Err(NotFound(x)) ==> x == id,
{
    if rows_affected == 0 {
        Err(NotFound(id))
    } else {
        Ok(())
    }
}

/// Why a profile was not deleted.
#[derive(Debug, PartialEq, Eq)]
pub enum ProfileDeleteError {
    /// The user has no profile with this id.
    NotFound(u128),
    /// The profile is the user's default one, which stays.
    DeletingDefault,
}

/// The test before deleting profile `id`, given what the lookup of the user's
/// profile with that id found: whether it is the default profile, or nothing.
/// Only a profile that exists and is not the default one is deleted.
pub fn check_profile_delete(is_default: Option<bool>, id: u128) -> (r: Result<(), ProfileDeleteError>)
    ensures
        match is_default {
            None => r == Err::<(), ProfileDeleteError>(ProfileDeleteError::NotFound(id)),
            Some(true) => r == Err::<(), ProfileDeleteError>(ProfileDeleteError::DeletingDefault),
            Some(false) => r is Ok,
        },
{
    match is_default {
        None => Err(ProfileDeleteError::NotFound(id)),
        Some(true) => Err(ProfileDeleteError::DeletingDefault),
        Some(false) => Ok(()),
    }
}

/// What `INSERT ... ON CONFLICT DO NOTHING RETURNING *` gave: the row, no row
/// (the conflict kept the stored one), or another failure.
#[derive(Debug, PartialEq, Eq)]
pub enum InsertReply<M> {
    Inserted(M),
    NothingReturned,
    Failed,
}

/// What to do after such an insert: use the row, look the stored row up, or
/// give up.
#[derive(Debug, PartialEq, Eq)]
pub enum AfterInsert<M> {
    Use(M),
    LookUp,
    Fail,
}

/// The step after an insert that may keep a stored row: a returned row is
/// used, no row means the stored one is looked up, and a failure ends the
/// operation.
pub fn after_insert<M>(reply: InsertReply<M>) -> (r: AfterInsert<M>)
    ensures
        match reply {
            InsertReply::Inserted(m) => r == AfterInsert::Use(m),
            InsertReply::NothingReturned => r == AfterInsert::<M>::LookUp,
            InsertReply::Failed => r == AfterInsert::<M>::Fail,
        },
{
    match reply {
        InsertReply::Inserted(m) => AfterInsert::Use(m),
        InsertReply::NothingReturned => AfterInsert::LookUp,
        InsertReply::Failed => AfterInsert::Fail,
    }
}

/// A change to the tags of an item.
#[derive(Debug, PartialEq, Eq)]
pub enum UpdateTagList {
    /// Link these tags too.
    Add(Vec<u128>),
    /// Unlink these tags.
    Remove(Vec<u128>),
    /// Link exactly these tags.
    Replace(Vec<u128>),
}

/// A write to the links between an item and its tags.
#[derive(Debug, PartialEq, Eq)]
pub enum LinkWrite {
    /// Insert a link to each tag; `keep_existing` makes a link already stored
    /// no conflict.
    Insert { tag_ids: Vec<u128>, keep_existing: bool },
    /// Delete the links to these tags.
    DeleteSome(Vec<u128>),
    /// Delete every link of the item.
    DeleteAll,
}

/// The view of a link write.
pub enum LinkWriteV {
    Insert(Seq<u128>, bool),
    DeleteSome(Seq<u128>),
    DeleteAll,
}

impl View for LinkWrite {
    type V = LinkWriteV;

    open spec fn view(&self) -> LinkWriteV {
        match self {
            LinkWrite::Insert { tag_ids, keep_existing } => LinkWriteV::Insert(tag_ids@, *keep_existing),
            LinkWrite::DeleteSome(ids) => LinkWriteV::DeleteSome(ids@),
            LinkWrite::DeleteAll => LinkWriteV::DeleteAll,
        }
    }
}

/// The writes of a tag list change, in order: adding inserts links that may
/// already exist, removing deletes the named links, and setting deletes every
/// link before inserting the new ones.
pub open spec fn tag_list_writes_v(u: UpdateTagList) -> Seq<LinkWriteV> {
    match u {
        UpdateTagList::Add(ids) => seq![LinkWriteV::Insert(ids@, true)],
        UpdateTagList::Remove(ids) => seq![LinkWriteV::DeleteSome(ids@)],
        UpdateTagList::Replace(ids) => seq![LinkWriteV::DeleteAll, LinkWriteV::Insert(ids@, false)],
    }
}

/// The links of an item after one write, given its links before: inserting
/// adds the tags, and fails (`None`) where it may not keep a stored link and
/// meets one; deleting some removes those tags; deleting all leaves none.
pub open spec fn link_write_apply(links: Set<u128>, w: LinkWriteV) -> Option<Set<u128>> {
    match w {
        LinkWriteV::Insert(ids, keep_existing) => if !keep_existing && exists|i: int|
            0 <= i < ids.len() && links.contains(#[trigger] ids[i]) {
            None
        } else {
            Some(links.union(ids.to_set()))
        },
        LinkWriteV::DeleteSome(ids) => Some(links.difference(ids.to_set())),
        LinkWriteV::DeleteAll => Some(Set::empty()),
    }
}

/// The links of an item after a sequence of writes, in order; `None` where
/// one of them fails.
pub open spec fn link_writes_apply(links: Set<u128>, ws: Seq<LinkWriteV>) -> Option<Set<u128>>
    decreases ws.len(),
{
    if ws.len() == 0 {
        Some(links)
    } else {
        match link_write_apply(links, ws[0]) {
            Some(next) => link_writes_apply(next, ws.drop_first()),
            None => None,
        }
    }
}

/// Whatever links an item has, the writes of a tag list change succeed and
/// leave it linked to: its tags and the added ones, for an addition; its tags
/// but the removed ones, for a removal; exactly the given ones, for a
/// replacement.
pub proof fn tag_list_change_result(links: Set<u128>, u: UpdateTagList)
    ensures
        link_writes_apply(links, tag_list_writes_v(u)) == match u {
            UpdateTagList::Add(ids) => Some(links.union(ids@.to_set())),
            UpdateTagList::Remove(ids) => Some(links.difference(ids@.to_set())),
            UpdateTagList::Replace(ids) => Some(ids@.to_set()),
        },
{
    let ws = tag_list_writes_v(u);
    reveal_with_fuel(link_writes_apply, 3);
    match u {
        UpdateTagList::Add(ids) => {
            assert(ws.drop_first() =~= Seq::<LinkWriteV>::empty());
        },
        UpdateTagList::Remove(ids) => {
            assert(ws.drop_first() =~= Seq::<LinkWriteV>::empty());
        },
        UpdateTagList::Replace(ids) => {
            let rest = ws.drop_first();
            assert(rest =~= seq![LinkWriteV::Insert(ids@, false)]);
            assert(rest.drop_first() =~= Seq::<LinkWriteV>::empty());
            let e = Set::<u128>::empty();
            assert(!(exists|i: int| 0 <= i < ids@.len() && e.contains(#[trigger] ids@[i])));
            assert(e.union(ids@.to_set()) =~= ids@.to_set());
            assert(link_write_apply(e, rest[0]) == Some(ids@.to_set()));
            assert(link_writes_apply(e, rest) == Some(ids@.to_set()));
        },
    }
}

/// The writes that carry out a tag list change.
pub fn tag_list_writes(u: UpdateTagList) -> (r: Vec<LinkWrite>)
    ensures
        r@.map_values(|w: LinkWrite| w@) == tag_list_writes_v(u),
{
    let ghost g = u;
    let r = match u {
        UpdateTagList::Add(ids) => vec![LinkWrite::Insert { tag_ids: ids, keep_existing: true }],
        UpdateTagList::Remove(ids) => vec![LinkWrite::DeleteSome(ids)],
        UpdateTagList::Replace(ids) => vec![LinkWrite::DeleteAll, LinkWrite::Insert { tag_ids: ids, keep_existing: false }],
    };
    assert(r@.map_values(|w: LinkWrite| w@) =~= tag_list_writes_v(g));
    r
}

/// What saving an entry's read state asks for.
#[derive(Clone, Copy, Debug, PartialEq, Eq, Structural)]
pub enum ReadMarkChange {
    /// The read state is not given: nothing to write.
    Keep,
    /// Store the read mark.
    Mark,
    /// Remove the read mark.
    Unmark,
}

/// The change that saving a read state makes.
pub fn read_mark_change(has_read: Option<bool>) -> (r: ReadMarkChange)
    ensures
        r == match has_read {
            None => ReadMarkChange::Keep,
            Some(true) => ReadMarkChange::Mark,
            Some(false) => ReadMarkChange::Unmark,
        },
{
    match has_read {
        None => ReadMarkChange::Keep,
        Some(true) => ReadMarkChange::Mark,
        Some(false) => ReadMarkChange::Unmark,
    }
}

/// Whether an entry was read, and when.
#[derive(Clone, Copy, Debug, PartialEq, Eq, Structural)]
pub enum ReadStatus {
    Unread,
    Read(UtcDateTime),
}

/// The read status of a stored read time: read then where there is one.
pub open spec fn read_status_of(read_at: Option<UtcDateTime>) -> ReadStatus {
    match read_at {
        Some(t) => ReadStatus::Read(t),
        None => ReadStatus::Unread,
    }
}

/// The read status of a stored read time.
pub fn read_status(read_at: Option<UtcDateTime>) -> (r: ReadStatus)
    ensures
        r == read_status_of(read_at),
{
    match read_at {
        Some(t) => ReadStatus::Read(t),
        None => ReadStatus::Unread,
    }
}

/// What saving a read status writes: an unread entry loses its read mark, a
/// read one gets a mark with the time it was read.
#[derive(Clone, Copy, Debug, PartialEq, Eq, Structural)]
pub enum ReadStatusWrite {
    DeleteMark,
    InsertMark(UtcDateTime),
}

/// The write of a read status.
pub open spec fn read_status_write_of(status: ReadStatus) -> ReadStatusWrite {
    match status {
        ReadStatus::Unread => ReadStatusWrite::DeleteMark,
        ReadStatus::Read(t) => ReadStatusWrite::InsertMark(t),
    }
}

/// The write that saves a read status.
pub fn read_status_write(status: ReadStatus) -> (r: ReadStatusWrite)
    ensures
        r == read_status_write_of(status),
{
    match status {
        ReadStatus::Unread => ReadStatusWrite::DeleteMark,
        ReadStatus::Read(t) => ReadStatusWrite::InsertMark(t),
    }
}

/// Saving a status read back from its stored time writes that time again: a
/// stored read time gives a mark with that very time, and no stored time gives
/// the removal of the mark.
pub proof fn read_status_round_trip(read_at: Option<UtcDateTime>)
    ensures
        read_status_write_of(read_status_of(read_at)) == match read_at {
            Some(t) => ReadStatusWrite::InsertMark(t),
            None => ReadStatusWrite::DeleteMark,
        },
{
}

/// The items of a library listing: the folders, then the feeds, then the
/// bookmarks.
pub fn library_items<T>(folders: Vec<T>, feeds: Vec<T>, bookmarks: Vec<T>) -> (r: Vec<T>)
    ensures
        r@ == folders@ + feeds@ + bookmarks@,
{
    let ghost (a, b, c) = (folders@, feeds@, bookmarks@);
    let mut items: Vec<T> = Vec::new();
    let mut folders = folders;
    let mut feeds = feeds;
    let mut bookmarks = bookmarks;
    items.append(&mut folders);
    items.append(&mut feeds);
    items.append(&mut bookmarks);
    assert(items@ =~= a + b + c);
    items
}

} // verus!
