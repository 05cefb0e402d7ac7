//! The one article shape every layer shares: fetchers produce it, storage
//! persists it, the export and the UI read it.
use vstd::prelude::*;
use crate::clock::in_time_range;

verus! {

/// A single news article, normalized regardless of which fetcher produced
/// it. Instants are whole seconds since the Unix epoch (UTC).
pub struct Article {
    /// Storage row id; `0` until the article has been stored.
    pub id: i64,
    pub title: String,
    pub url: String,
    /// Name of the configured source the article came from.
    pub source: String,
    /// The topic the article is filed under.
    pub topic: String,
    /// When the source published the article.
    pub timestamp: i64,
    pub read: bool,
    pub skipped: bool,
    pub saved: bool,
    /// Free-text note, `None` when there is none.
    pub note: Option<String>,
    /// When the article was saved, if that was recorded.
    pub saved_at: Option<i64>,
    /// When the note was last set, if there is one.
    pub noted_at: Option<i64>,
}

impl Article {
    /// Every instant the article carries can be rendered as a date.
    pub open spec fn dates_in_range(&self) -> bool {
        &&& in_time_range(self.timestamp)
        &&& (self.saved_at matches Some(t) ==> in_time_range(t))
        &&& (self.noted_at matches Some(t) ==> in_time_range(t))
    }

    /// A freshly fetched article that is not stored yet: id `0`, unread,
    /// not skipped, not saved, no note.
    pub fn new(title: String, url: String, source: String, topic: String, timestamp: i64) -> (a: Article)
        ensures
            a.id == 0,
            a.title == title,
            a.url == url,
            a.source == source,
            a.topic == topic,
            a.timestamp == timestamp,
            !a.read,
            !a.skipped,
            !a.saved,
            a.note is None,
            a.saved_at is None,
            a.noted_at is None,
    {
        Article {
            id: 0,
            title,
            url,
            source,
            topic,
            timestamp,
            read: false,
            skipped: false,
            saved: false,
            note: None,
            saved_at: None,
            noted_at: None,
        }
    }
}

} // verus!
