use colette_repository::plan::{Alias, Ident};
use colette_repository::schema::{
    Account, ApiKey, Bookmark, BookmarkTag, Collection, Feed, FeedEntry, Job, ReadEntry, Session, Stream,
    Subscription, SubscriptionTag, Tag, User,
};

#[test]
fn tables_render_their_names() {
    let mut s = String::new();
    Account::Table.unquoted(&mut s);
    assert_eq!(s, "accounts");
    let cases: Vec<(Ident, &str)> = vec![
        (Ident::ApiKey(ApiKey::Table), "api_keys"),
        (Ident::Bookmark(Bookmark::Table), "bookmarks"),
        (Ident::BookmarkTag(BookmarkTag::Table), "bookmark_tags"),
        (Ident::Collection(Collection::Table), "collections"),
        (Ident::Feed(Feed::Table), "feeds"),
        (Ident::FeedEntry(FeedEntry::Table), "feed_entries"),
        (Ident::Job(Job::Table), "jobs"),
        (Ident::ReadEntry(ReadEntry::Table), "read_entries"),
        (Ident::Stream(Stream::Table), "streams"),
        (Ident::Subscription(Subscription::Table), "subscriptions"),
        (Ident::SubscriptionTag(SubscriptionTag::Table), "subscription_tags"),
        (Ident::Tag(Tag::Table), "tags"),
        (Ident::User(User::Table), "users"),
        (Ident::Alias(Alias::UnreadCount), "unread_count"),
    ];
    for (ident, name) in cases {
        assert_eq!(ident.name(), name);
    }
}

#[test]
fn session_table_is_named_users() {
    let mut s = String::from("FROM ");
    Session::Table.unquoted(&mut s);
    assert_eq!(s, "FROM users");
}

#[test]
fn unquoted_appends_to_what_is_there() {
    let mut s = String::from("x.");
    Bookmark::ThumbnailUrl.unquoted(&mut s);
    ApiKey::LookupHash.unquoted(&mut s);
    assert_eq!(s, "x.thumbnail_urllookup_hash");
    let mut s = String::new();
    FeedEntry::PublishedAt.unquoted(&mut s);
    Feed::RefreshIntervalMin.unquoted(&mut s);
    Job::DataJson.unquoted(&mut s);
    assert_eq!(s, "published_atrefresh_interval_mindata_json");
}
