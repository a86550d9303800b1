//! The relation paths that the entry repository follows between entities.

use vstd::prelude::*;

verus! {

/// A relation from one entity to the next.
#[derive(Clone, Copy, Debug, PartialEq, Eq, Structural)]
pub enum Relation {
    /// From a profile's feed entry to the feed entry it shows.
    ProfileFeedEntryToFeedEntry,
    /// From a feed entry to the entry it holds.
    FeedEntryToEntry,
}

/// The path from a profile's feed entry to its entry.
#[derive(Clone, Copy, Debug, PartialEq, Eq, Structural)]
pub struct ProfileFeedEntryToEntry;

impl ProfileFeedEntryToEntry {
    /// The relations of the path, in the order they are followed: to the feed
    /// entry, then to the entry.
    pub fn link(&self) -> (r: Vec<Relation>)
        ensures
            r@ == seq![Relation::ProfileFeedEntryToFeedEntry, Relation::FeedEntryToEntry],
    {
        let r = vec![Relation::ProfileFeedEntryToFeedEntry, Relation::FeedEntryToEntry];
        assert(r@ =~= seq![Relation::ProfileFeedEntryToFeedEntry, Relation::FeedEntryToEntry]);
        r
    }
}

} // verus!
