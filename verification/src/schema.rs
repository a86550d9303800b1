//! The identifiers of the relations that the queries address: each enum names
//! one table and its columns, and renders each of them as the unquoted SQL name.

use vstd::prelude::*;
use vstd::string::*;

verus! {

/// A column or the table of the `accounts` relation.
#[derive(Clone, Copy, Debug, PartialEq, Eq, Structural)]
pub enum Account {
    Table,
    Id,
    Sub,
    Provider,
    PasswordHash,
    UserId,
    CreatedAt,
    UpdatedAt,
}

impl Account {
    /// The unquoted SQL name of this table or column.
    pub open spec fn spec_name(self) -> Seq<char> {
        match self {
            Account::Table => "accounts"@,
            Account::Id => "id"@,
            Account::Sub => "sub"@,
            Account::Provider => "provider"@,
            Account::PasswordHash => "password_hash"@,
            Account::UserId => "user_id"@,
            Account::CreatedAt => "created_at"@,
            Account::UpdatedAt => "updated_at"@,
        }
    }

    /// The unquoted SQL name of this table or column.
    pub fn name(&self) -> (r: &'static str)
        ensures
            r@ == self.spec_name(),
    {
        match self {
            Account::Table => "accounts",
            Account::Id => "id",
            Account::Sub => "sub",
            Account::Provider => "provider",
            Account::PasswordHash => "password_hash",
            Account::UserId => "user_id",
            Account::CreatedAt => "created_at",
            Account::UpdatedAt => "updated_at",
        }
    }

    /// Appends the unquoted SQL name of this table or column to `s`.
    pub fn unquoted(&self, s: &mut String)
        ensures
            final(s)@ == old(s)@ + self.spec_name(),
    {
        s.append(self.name());
    }
}

/// A column or the table of the `api_keys` relation.
#[derive(Clone, Copy, Debug, PartialEq, Eq, Structural)]
pub enum ApiKey {
    Table,
    Id,
    LookupHash,
    VerificationHash,
    Title,
    Preview,
    UserId,
    CreatedAt,
    UpdatedAt,
}

impl ApiKey {
    /// The unquoted SQL name of this table or column.
    pub open spec fn spec_name(self) -> Seq<char> {
        match self {
            ApiKey::Table => "api_keys"@,
            ApiKey::Id => "id"@,
            ApiKey::LookupHash => "lookup_hash"@,
            ApiKey::VerificationHash => "verification_hash"@,
            ApiKey::Title => "title"@,
            ApiKey::Preview => "preview"@,
            ApiKey::UserId => "user_id"@,
            ApiKey::CreatedAt => "created_at"@,
            ApiKey::UpdatedAt => "updated_at"@,
        }
    }

    /// The unquoted SQL name of this table or column.
    pub fn name(&self) -> (r: &'static str)
        ensures
            r@ == self.spec_name(),
    {
        match self {
            ApiKey::Table => "api_keys",
            ApiKey::Id => "id",
            ApiKey::LookupHash => "lookup_hash",
            ApiKey::VerificationHash => "verification_hash",
            ApiKey::Title => "title",
            ApiKey::Preview => "preview",
            ApiKey::UserId => "user_id",
            ApiKey::CreatedAt => "created_at",
            ApiKey::UpdatedAt => "updated_at",
        }
    }

    /// Appends the unquoted SQL name of this table or column to `s`.
    pub fn unquoted(&self, s: &mut String)
        ensures
            final(s)@ == old(s)@ + self.spec_name(),
    {
        s.append(self.name());
    }
}

/// A column or the table of the `bookmarks` relation.
#[derive(Clone, Copy, Debug, PartialEq, Eq, Structural)]
pub enum Bookmark {
    Table,
    Id,
    Link,
    Title,
    ThumbnailUrl,
    PublishedAt,
    Author,
    ArchivedPath,
    UserId,
    CreatedAt,
    UpdatedAt,
}

impl Bookmark {
    /// The unquoted SQL name of this table or column.
    pub open spec fn spec_name(self) -> Seq<char> {
        match self {
            Bookmark::Table => "bookmarks"@,
            Bookmark::Id => "id"@,
            Bookmark::Link => "link"@,
            Bookmark::Title => "title"@,
            Bookmark::ThumbnailUrl => "thumbnail_url"@,
            Bookmark::PublishedAt => "published_at"@,
            Bookmark::Author => "author"@,
            Bookmark::ArchivedPath => "archived_path"@,
            Bookmark::UserId => "user_id"@,
            Bookmark::CreatedAt => "created_at"@,
            Bookmark::UpdatedAt => "updated_at"@,
        }
    }

    /// The unquoted SQL name of this table or column.
    pub fn name(&self) -> (r: &'static str)
        ensures
            r@ == self.spec_name(),
    {
        match self {
            Bookmark::Table => "bookmarks",
            Bookmark::Id => "id",
            Bookmark::Link => "link",
            Bookmark::Title => "title",
            Bookmark::ThumbnailUrl => "thumbnail_url",
            Bookmark::PublishedAt => "published_at",
            Bookmark::Author => "author",
            Bookmark::ArchivedPath => "archived_path",
            Bookmark::UserId => "user_id",
            Bookmark::CreatedAt => "created_at",
            Bookmark::UpdatedAt => "updated_at",
        }
    }

    /// Appends the unquoted SQL name of this table or column to `s`.
    pub fn unquoted(&self, s: &mut String)
        ensures
            final(s)@ == old(s)@ + self.spec_name(),
    {
        s.append(self.name());
    }
}

/// A column or the table of the `bookmark_tags` relation.
#[derive(Clone, Copy, Debug, PartialEq, Eq, Structural)]
pub enum BookmarkTag {
    Table,
    BookmarkId,
    TagId,
    UserId,
}

impl BookmarkTag {
    /// The unquoted SQL name of this table or column.
    pub open spec fn spec_name(self) -> Seq<char> {
        match self {
            BookmarkTag::Table => "bookmark_tags"@,
            BookmarkTag::BookmarkId => "bookmark_id"@,
            BookmarkTag::TagId => "tag_id"@,
            BookmarkTag::UserId => "user_id"@,
        }
    }

    /// The unquoted SQL name of this table or column.
    pub fn name(&self) -> (r: &'static str)
        ensures
            r@ == self.spec_name(),
    {
        match self {
            BookmarkTag::Table => "bookmark_tags",
            BookmarkTag::BookmarkId => "bookmark_id",
            BookmarkTag::TagId => "tag_id",
            BookmarkTag::UserId => "user_id",
        }
    }

    /// Appends the unquoted SQL name of this table or column to `s`.
    pub fn unquoted(&self, s: &mut String)
        ensures
            final(s)@ == old(s)@ + self.spec_name(),
    {
        s.append(self.name());
    }
}

/// A column or the table of the `collections` relation.
#[derive(Clone, Copy, Debug, PartialEq, Eq, Structural)]
pub enum Collection {
    Table,
    Id,
    Title,
    FilterRaw,
    UserId,
    CreatedAt,
    UpdatedAt,
}

impl Collection {
    /// The unquoted SQL name of this table or column.
    pub open spec fn spec_name(self) -> Seq<char> {
        match self {
            Collection::Table => "collections"@,
            Collection::Id => "id"@,
            Collection::Title => "title"@,
            Collection::FilterRaw => "filter_raw"@,
            Collection::UserId => "user_id"@,
            Collection::CreatedAt => "created_at"@,
            Collection::UpdatedAt => "updated_at"@,
        }
    }

    /// The unquoted SQL name of this table or column.
    pub fn name(&self) -> (r: &'static str)
        ensures
            r@ == self.spec_name(),
    {
        match self {
            Collection::Table => "collections",
            Collection::Id => "id",
            Collection::Title => "title",
            Collection::FilterRaw => "filter_raw",
            Collection::UserId => "user_id",
            Collection::CreatedAt => "created_at",
            Collection::UpdatedAt => "updated_at",
        }
    }

    /// Appends the unquoted SQL name of this table or column to `s`.
    pub fn unquoted(&self, s: &mut String)
        ensures
            final(s)@ == old(s)@ + self.spec_name(),
    {
        s.append(self.name());
    }
}

/// A column or the table of the `feeds` relation.
#[derive(Clone, Copy, Debug, PartialEq, Eq, Structural)]
pub enum Feed {
    Table,
    Id,
    SourceUrl,
    Link,
    Title,
    Description,
    RefreshIntervalMin,
    IsRefreshing,
    RefreshedAt,
    IsCustom,
}

impl Feed {
    /// The unquoted SQL name of this table or column.
    pub open spec fn spec_name(self) -> Seq<char> {
        match self {
            Feed::Table => "feeds"@,
            Feed::Id => "id"@,
            Feed::SourceUrl => "source_url"@,
            Feed::Link => "link"@,
            Feed::Title => "title"@,
            Feed::Description => "description"@,
            Feed::RefreshIntervalMin => "refresh_interval_min"@,
            Feed::IsRefreshing => "is_refreshing"@,
            Feed::RefreshedAt => "refreshed_at"@,
            Feed::IsCustom => "is_custom"@,
        }
    }

    /// The unquoted SQL name of this table or column.
    pub fn name(&self) -> (r: &'static str)
        ensures
            r@ == self.spec_name(),
    {
        match self {
            Feed::Table => "feeds",
            Feed::Id => "id",
            Feed::SourceUrl => "source_url",
            Feed::Link => "link",
            Feed::Title => "title",
            Feed::Description => "description",
            Feed::RefreshIntervalMin => "refresh_interval_min",
            Feed::IsRefreshing => "is_refreshing",
            Feed::RefreshedAt => "refreshed_at",
            Feed::IsCustom => "is_custom",
        }
    }

    /// Appends the unquoted SQL name of this table or column to `s`.
    pub fn unquoted(&self, s: &mut String)
        ensures
            final(s)@ == old(s)@ + self.spec_name(),
    {
        s.append(self.name());
    }
}

/// A column or the table of the `feed_entries` relation.
#[derive(Clone, Copy, Debug, PartialEq, Eq, Structural)]
pub enum FeedEntry {
    Table,
    Id,
    Link,
    Title,
    PublishedAt,
    Description,
    Author,
    ThumbnailUrl,
    FeedId,
}

impl FeedEntry {
    /// The unquoted SQL name of this table or column.
    pub open spec fn spec_name(self) -> Seq<char> {
        match self {
            FeedEntry::Table => "feed_entries"@,
            FeedEntry::Id => "id"@,
            FeedEntry::Link => "link"@,
            FeedEntry::Title => "title"@,
            FeedEntry::PublishedAt => "published_at"@,
            FeedEntry::Description => "description"@,
            FeedEntry::Author => "author"@,
            FeedEntry::ThumbnailUrl => "thumbnail_url"@,
            FeedEntry::FeedId => "feed_id"@,
        }
    }

    /// The unquoted SQL name of this table or column.
    pub fn name(&self) -> (r: &'static str)
        ensures
            r@ == self.spec_name(),
    {
        match self {
            FeedEntry::Table => "feed_entries",
            FeedEntry::Id => "id",
            FeedEntry::Link => "link",
            FeedEntry::Title => "title",
            FeedEntry::PublishedAt => "published_at",
            FeedEntry::Description => "description",
            FeedEntry::Author => "author",
            FeedEntry::ThumbnailUrl => "thumbnail_url",
            FeedEntry::FeedId => "feed_id",
        }
    }

    /// Appends the unquoted SQL name of this table or column to `s`.
    pub fn unquoted(&self, s: &mut String)
        ensures
            final(s)@ == old(s)@ + self.spec_name(),
    {
        s.append(self.name());
    }
}

/// A column or the table of the `jobs` relation.
#[derive(Clone, Copy, Debug, PartialEq, Eq, Structural)]
pub enum Job {
    Table,
    Id,
    JobType,
    DataJson,
    Status,
    GroupIdentifier,
    Message,
    CreatedAt,
    CompletedAt,
}

impl Job {
    /// The unquoted SQL name of this table or column.
    pub open spec fn spec_name(self) -> Seq<char> {
        match self {
            Job::Table => "jobs"@,
            Job::Id => "id"@,
            Job::JobType => "job_type"@,
            Job::DataJson => "data_json"@,
            Job::Status => "status"@,
            Job::GroupIdentifier => "group_identifier"@,
            Job::Message => "message"@,
            Job::CreatedAt => "created_at"@,
            Job::CompletedAt => "completed_at"@,
        }
    }

    /// The unquoted SQL name of this table or column.
    pub fn name(&self) -> (r: &'static str)
        ensures
            r@ == self.spec_name(),
    {
        match self {
            Job::Table => "jobs",
            Job::Id => "id",
            Job::JobType => "job_type",
            Job::DataJson => "data_json",
            Job::Status => "status",
            Job::GroupIdentifier => "group_identifier",
            Job::Message => "message",
            Job::CreatedAt => "created_at",
            Job::CompletedAt => "completed_at",
        }
    }

    /// Appends the unquoted SQL name of this table or column to `s`.
    pub fn unquoted(&self, s: &mut String)
        ensures
            final(s)@ == old(s)@ + self.spec_name(),
    {
        s.append(self.name());
    }
}

/// A column or the table of the `read_entries` relation.
#[derive(Clone, Copy, Debug, PartialEq, Eq, Structural)]
pub enum ReadEntry {
    Table,
    SubscriptionId,
    FeedEntryId,
    UserId,
    CreatedAt,
}

impl ReadEntry {
    /// The unquoted SQL name of this table or column.
    pub open spec fn spec_name(self) -> Seq<char> {
        match self {
            ReadEntry::Table => "read_entries"@,
            ReadEntry::SubscriptionId => "subscription_id"@,
            ReadEntry::FeedEntryId => "feed_entry_id"@,
            ReadEntry::UserId => "user_id"@,
            ReadEntry::CreatedAt => "created_at"@,
        }
    }

    /// The unquoted SQL name of this table or column.
    pub fn name(&self) -> (r: &'static str)
        ensures
            r@ == self.spec_name(),
    {
        match self {
            ReadEntry::Table => "read_entries",
            ReadEntry::SubscriptionId => "subscription_id",
            ReadEntry::FeedEntryId => "feed_entry_id",
            ReadEntry::UserId => "user_id",
            ReadEntry::CreatedAt => "created_at",
        }
    }

    /// Appends the unquoted SQL name of this table or column to `s`.
    pub fn unquoted(&self, s: &mut String)
        ensures
            final(s)@ == old(s)@ + self.spec_name(),
    {
        s.append(self.name());
    }
}

/// A column or the table of the session relation (whose table name is `users`).
#[derive(Clone, Copy, Debug, PartialEq, Eq, Structural)]
pub enum Session {
    Table,
    Id,
    Token,
    UserAgent,
    IpAddress,
    ExpiresAt,
    UserId,
    CreatedAt,
    UpdatedAt,
}

impl Session {
    /// The unquoted SQL name of this table or column.
    pub open spec fn spec_name(self) -> Seq<char> {
        match self {
            Session::Table => "users"@,
            Session::Id => "id"@,
            Session::Token => "token"@,
            Session::UserAgent => "user_agent"@,
            Session::IpAddress => "ip_address"@,
            Session::ExpiresAt => "expires_at"@,
            Session::UserId => "user_id"@,
            Session::CreatedAt => "created_at"@,
            Session::UpdatedAt => "updated_at"@,
        }
    }

    /// The unquoted SQL name of this table or column.
    pub fn name(&self) -> (r: &'static str)
        ensures
            r@ == self.spec_name(),
    {
        match self {
            Session::Table => "users",
            Session::Id => "id",
            Session::Token => "token",
            Session::UserAgent => "user_agent",
            Session::IpAddress => "ip_address",
            Session::ExpiresAt => "expires_at",
            Session::UserId => "user_id",
            Session::CreatedAt => "created_at",
            Session::UpdatedAt => "updated_at",
        }
    }

    /// Appends the unquoted SQL name of this table or column to `s`.
    pub fn unquoted(&self, s: &mut String)
        ensures
            final(s)@ == old(s)@ + self.spec_name(),
    {
        s.append(self.name());
    }
}

/// A column or the table of the `streams` relation.
#[derive(Clone, Copy, Debug, PartialEq, Eq, Structural)]
pub enum Stream {
    Table,
    Id,
    Title,
    FilterRaw,
    UserId,
    CreatedAt,
    UpdatedAt,
}

impl Stream {
    /// The unquoted SQL name of this table or column.
    pub open spec fn spec_name(self) -> Seq<char> {
        match self {
            Stream::Table => "streams"@,
            Stream::Id => "id"@,
            Stream::Title => "title"@,
            Stream::FilterRaw => "filter_raw"@,
            Stream::UserId => "user_id"@,
            Stream::CreatedAt => "created_at"@,
            Stream::UpdatedAt => "updated_at"@,
        }
    }

    /// The unquoted SQL name of this table or column.
    pub fn name(&self) -> (r: &'static str)
        ensures
            r@ == self.spec_name(),
    {
        match self {
            Stream::Table => "streams",
            Stream::Id => "id",
            Stream::Title => "title",
            Stream::FilterRaw => "filter_raw",
            Stream::UserId => "user_id",
            Stream::CreatedAt => "created_at",
            Stream::UpdatedAt => "updated_at",
        }
    }

    /// Appends the unquoted SQL name of this table or column to `s`.
    pub fn unquoted(&self, s: &mut String)
        ensures
            final(s)@ == old(s)@ + self.spec_name(),
    {
        s.append(self.name());
    }
}

/// A column or the table of the `subscriptions` relation.
#[derive(Clone, Copy, Debug, PartialEq, Eq, Structural)]
pub enum Subscription {
    Table,
    Id,
    Title,
    Description,
    UserId,
    FeedId,
    CreatedAt,
    UpdatedAt,
}

impl Subscription {
    /// The unquoted SQL name of this table or column.
    pub open spec fn spec_name(self) -> Seq<char> {
        match self {
            Subscription::Table => "subscriptions"@,
            Subscription::Id => "id"@,
            Subscription::Title => "title"@,
            Subscription::Description => "description"@,
            Subscription::UserId => "user_id"@,
            Subscription::FeedId => "feed_id"@,
            Subscription::CreatedAt => "created_at"@,
            Subscription::UpdatedAt => "updated_at"@,
        }
    }

    /// The unquoted SQL name of this table or column.
    pub fn name(&self) -> (r: &'static str)
        ensures
            r@ == self.spec_name(),
    {
        match self {
            Subscription::Table => "subscriptions",
            Subscription::Id => "id",
            Subscription::Title => "title",
            Subscription::Description => "description",
            Subscription::UserId => "user_id",
            Subscription::FeedId => "feed_id",
            Subscription::CreatedAt => "created_at",
            Subscription::UpdatedAt => "updated_at",
        }
    }

    /// Appends the unquoted SQL name of this table or column to `s`.
    pub fn unquoted(&self, s: &mut String)
        ensures
            final(s)@ == old(s)@ + self.spec_name(),
    {
        s.append(self.name());
    }
}

/// A column or the table of the `subscription_tags` relation.
#[derive(Clone, Copy, Debug, PartialEq, Eq, Structural)]
pub enum SubscriptionTag {
    Table,
    SubscriptionId,
    TagId,
    UserId,
}

impl SubscriptionTag {
    /// The unquoted SQL name of this table or column.
    pub open spec fn spec_name(self) -> Seq<char> {
        match self {
            SubscriptionTag::Table => "subscription_tags"@,
            SubscriptionTag::SubscriptionId => "subscription_id"@,
            SubscriptionTag::TagId => "tag_id"@,
            SubscriptionTag::UserId => "user_id"@,
        }
    }

    /// The unquoted SQL name of this table or column.
    pub fn name(&self) -> (r: &'static str)
        ensures
            r@ == self.spec_name(),
    {
        match self {
            SubscriptionTag::Table => "subscription_tags",
            SubscriptionTag::SubscriptionId => "subscription_id",
            SubscriptionTag::TagId => "tag_id",
            SubscriptionTag::UserId => "user_id",
        }
    }

    /// Appends the unquoted SQL name of this table or column to `s`.
    pub fn unquoted(&self, s: &mut String)
        ensures
            final(s)@ == old(s)@ + self.spec_name(),
    {
        s.append(self.name());
    }
}

/// A column or the table of the `tags` relation.
#[derive(Clone, Copy, Debug, PartialEq, Eq, Structural)]
pub enum Tag {
    Table,
    Id,
    Title,
    UserId,
    CreatedAt,
    UpdatedAt,
}

impl Tag {
    /// The unquoted SQL name of this table or column.
    pub open spec fn spec_name(self) -> Seq<char> {
        match self {
            Tag::Table => "tags"@,
            Tag::Id => "id"@,
            Tag::Title => "title"@,
            Tag::UserId => "user_id"@,
            Tag::CreatedAt => "created_at"@,
            Tag::UpdatedAt => "updated_at"@,
        }
    }

    /// The unquoted SQL name of this table or column.
    pub fn name(&self) -> (r: &'static str)
        ensures
            r@ == self.spec_name(),
    {
        match self {
            Tag::Table => "tags",
            Tag::Id => "id",
            Tag::Title => "title",
            Tag::UserId => "user_id",
            Tag::CreatedAt => "created_at",
            Tag::UpdatedAt => "updated_at",
        }
    }

    /// Appends the unquoted SQL name of this table or column to `s`.
    pub fn unquoted(&self, s: &mut String)
        ensures
            final(s)@ == old(s)@ + self.spec_name(),
    {
        s.append(self.name());
    }
}

/// A column or the table of the `users` relation.
#[derive(Clone, Copy, Debug, PartialEq, Eq, Structural)]
pub enum User {
    Table,
    Id,
    ExternalId,
    Email,
    DisplayName,
    PictureUrl,
    CreatedAt,
    UpdatedAt,
}

impl User {
    /// The unquoted SQL name of this table or column.
    pub open spec fn spec_name(self) -> Seq<char> {
        match self {
            User::Table => "users"@,
            User::Id => "id"@,
            User::ExternalId => "external_id"@,
            User::Email => "email"@,
            User::DisplayName => "display_name"@,
            User::PictureUrl => "picture_url"@,
            User::CreatedAt => "created_at"@,
            User::UpdatedAt => "updated_at"@,
        }
    }

    /// The unquoted SQL name of this table or column.
    pub fn name(&self) -> (r: &'static str)
        ensures
            r@ == self.spec_name(),
    {
        match self {
            User::Table => "users",
            User::Id => "id",
            User::ExternalId => "external_id",
            User::Email => "email",
            User::DisplayName => "display_name",
            User::PictureUrl => "picture_url",
            User::CreatedAt => "created_at",
            User::UpdatedAt => "updated_at",
        }
    }

    /// Appends the unquoted SQL name of this table or column to `s`.
    pub fn unquoted(&self, s: &mut String)
        ensures
            final(s)@ == old(s)@ + self.spec_name(),
    {
        s.append(self.name());
    }
}

} // verus!
