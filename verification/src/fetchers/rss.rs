//! RSS/Atom sources: parsing a downloaded feed with `feed_rs` and mapping
//! its entries onto `Article`s.
use vstd::prelude::*;
use crate::clock::in_time_range;
use crate::export::opt_string;
use crate::fetchers::FetchError;
use crate::models::Article;
use crate::text::{append_str, contains_text, occurs_in, trim, trimmed};

verus! {

/// One RSS/Atom source from `sources.toml`.
pub struct RssFetcher {
    /// Human-readable source name, copied onto every article.
    pub name: String,
    /// The feed URL.
    pub url: String,
    /// The topic every article of this source is filed under.
    pub topic: String,
}

/// What the library reads of one feed entry: its title text, the targets
/// of its links in order, and its publish and update instants (seconds
/// since the epoch).
pub struct FeedEntry {
    pub title: Option<String>,
    pub links: Vec<String>,
    pub published: Option<i64>,
    pub updated: Option<i64>,
}

/// What the library reads of a parsed feed: its title text and entries.
pub struct Feed {
    pub title: Option<String>,
    pub entries: Vec<FeedEntry>,
}

/// The text content of a `FeedEntry`.
pub struct FeedEntryView {
    pub title: Option<Seq<char>>,
    pub links: Seq<Seq<char>>,
    pub published: Option<i64>,
    pub updated: Option<i64>,
}

/// The text content of a `Feed`.
pub struct FeedView {
    pub title: Option<Seq<char>>,
    pub entries: Seq<FeedEntryView>,
}

impl View for FeedEntry {
    type V = FeedEntryView;

    open spec fn view(&self) -> FeedEntryView {
        FeedEntryView {
            title: opt_string(self.title),
            links: self.links@.map_values(|l: String| l@),
            published: self.published,
            updated: self.updated,
        }
    }
}

impl View for Feed {
    type V = FeedView;

    open spec fn view(&self) -> FeedView {
        FeedView {
            title: opt_string(self.title),
            entries: self.entries@.map_values(|e: FeedEntry| e@),
        }
    }
}

impl FeedView {
    /// Every instant in the feed is one `chrono` can represent.
    pub open spec fn dates_in_range(self) -> bool {
        forall|i: int|
            0 <= i < self.entries.len() ==> {
                &&& (#[trigger] self.entries[i]).published matches Some(t) ==> in_time_range(t)
                &&& self.entries[i].updated matches Some(t) ==> in_time_range(t)
            }
    }
}

/// What `feed_rs` parses the feed text `body` into (`None` when it is not
/// a feed `feed_rs` understands).
pub uninterp spec fn spec_parse_feed(body: Seq<char>) -> Option<FeedView>;

/// The namespace of the iTunes podcast extension.
pub open spec fn itunes_namespace() -> Seq<char> {
    "http://www.itunes.com/dtds/podcast-1.0.dtd"@
}

/// The namespace of the Media RSS extension.
pub open spec fn media_namespace() -> Seq<char> {
    "http://search.yahoo.com/mrss/"@
}

/// Feed texts `feed_rs::parser::parse` is handed. Its duration parser
/// (used for `<itunes:duration>` and the Media RSS `start`, `end` and
/// `time` attributes) panics on digit runs too long for a `u64` and on
/// non-ASCII digits, so no text binding either of those namespaces is
/// handed over. A namespace is bound only by its URI as written in the
/// text (decoded with the encoding the text declares); excluding NUL and
/// ESC rules out the UTF-16 and ISO-2022-JP decodings under which the URI
/// could be spelled by other characters.
pub open spec fn parser_safe(body: Seq<char>) -> bool {
    &&& !body.contains('\0')
    &&& !body.contains('\u{1b}')
    &&& !occurs_in(itunes_namespace(), body)
    &&& !occurs_in(media_namespace(), body)
}

/// Why a feed text is not handed to the parser, if it is not.
pub open spec fn unsafe_reason(body: Seq<char>) -> Seq<char> {
    if body.contains('\0') || body.contains('\u{1b}') {
        "the feed text holds a NUL or escape character"@
    } else {
        "the feed uses the iTunes or Media RSS extension, which this reader does not parse"@
    }
}

/// Whether `c` occurs in `s`.
fn has_char(s: &str, c: char) -> (res: bool)
    ensures
        res == s@.contains(c),
{
    let cs = crate::text::chars_of(s);
    let mut i: usize = 0;
    while i < cs.len()
        invariant
            cs@ == s@,
            i <= cs@.len(),
            forall|k: int| 0 <= k < i ==> cs@[k] != c,
        decreases cs.len() - i,
    {
        if cs[i] == c {
            return true;
        }
        i += 1;
    }
    false
}

/// Whether `body` may be handed to the parser (see `parser_safe`).
pub fn is_parser_safe(body: &str) -> (res: bool)
    ensures
        res == parser_safe(body@),
        res <==> (!body@.contains('\0') && !body@.contains('\u{1b}') && !occurs_in(
            "http://www.itunes.com/dtds/podcast-1.0.dtd"@,
            body@,
        ) && !occurs_in("http://search.yahoo.com/mrss/"@, body@)),
{
    proof {
        reveal_strlit("http://www.itunes.com/dtds/podcast-1.0.dtd");
        reveal_strlit("http://search.yahoo.com/mrss/");
    }
    !has_char(body, '\0') && !has_char(body, '\u{1b}') && !contains_text(
        body,
        "http://www.itunes.com/dtds/podcast-1.0.dtd",
    ) && !contains_text(body, "http://search.yahoo.com/mrss/")
}

/// Calls `feed_rs::parser::parse` on the bytes of `body` and keeps, for the
/// feed and each entry, the title's `content`, each link's `href`, and the
/// `published`/`updated` instants as epoch seconds. What the parse yields
/// is left to the name `spec_parse_feed`; the instants come from
/// `DateTime<Utc>` values and so lie in `chrono`'s range. The error is
/// kept as its display text only. Only texts `parser_safe` admits are
/// handed over: on others `feed_rs`'s duration parser can panic.
#[verifier::external_body]
fn parse_feed(body: &str) -> (res: Result<Feed, String>)
    requires
        parser_safe(body@),
    ensures
        match res {
            Ok(f) => spec_parse_feed(body@) == Some(f@) && f@.dates_in_range(),
            Err(_) => spec_parse_feed(body@) is None,
        },
{
    match feed_rs::parser::parse(body.as_bytes()) {
        Ok(feed) => Ok(Feed {
            title: feed.title.map(|t| t.content),
            entries: feed.entries.into_iter().map(|e| FeedEntry {
                title: e.title.map(|t| t.content),
                links: e.links.into_iter().map(|l| l.href).collect(),
                published: e.published.map(|d| d.timestamp()),
                updated: e.updated.map(|d| d.timestamp()),
            }).collect(),
        }),
        Err(err) => Err(err.to_string()),
    }
}

/// A feed text that could not be parsed.
pub struct FeedError {
    /// The URL the text was downloaded from.
    pub url: String,
    /// The parser's own description of the problem.
    pub detail: String,
}

impl FeedError {
    /// `failed to parse feed XML from <url>: <detail>`.
    pub open spec fn text(self) -> Seq<char> {
        "failed to parse feed XML from "@ + self.url@ + ": "@ + self.detail@
    }

    /// Renders the message (see `text`).
    pub fn message(&self) -> (res: String)
        ensures
            res@ == self.text(),
    {
        let mut out = String::new();
        append_str(&mut out, "failed to parse feed XML from ");
        append_str(&mut out, self.url.as_str());
        append_str(&mut out, ": ");
        append_str(&mut out, self.detail.as_str());
        out
    }
}

/// Parses the feed text `body` downloaded from `url`; a text the parser
/// is not handed (see `parser_safe`) is refused with the reason.
pub fn feed_from_body(url: &str, body: &str) -> (res: Result<Feed, FeedError>)
    ensures
        res is Ok <==> parser_safe(body@) && spec_parse_feed(body@) is Some,
        (!body@.contains('\0') && !body@.contains('\u{1b}') && !occurs_in(
            "http://www.itunes.com/dtds/podcast-1.0.dtd"@,
            body@,
        ) && !occurs_in("http://search.yahoo.com/mrss/"@, body@)) ==> (res is Ok
            <==> spec_parse_feed(body@) is Some),
        match res {
            Ok(f) => spec_parse_feed(body@) == Some(f@) && f@.dates_in_range(),
            Err(e) => e.url@ == url@ && (!parser_safe(body@) ==> e.detail@ == unsafe_reason(
                body@,
            )),
        },
{
    if !is_parser_safe(body) {
        let detail = if has_char(body, '\0') || has_char(body, '\u{1b}') {
            "the feed text holds a NUL or escape character".to_owned()
        } else {
            "the feed uses the iTunes or Media RSS extension, which this reader does not parse".to_owned()
        };
        return Err(FeedError { url: url.to_owned(), detail });
    }
    match parse_feed(body) {
        Ok(f) => Ok(f),
        Err(detail) => Err(FeedError { url: url.to_owned(), detail }),
    }
}

/// The name offered for a new source: the feed's own title, trimmed, or
/// the URL when the feed has no title or only whitespace in it.
pub open spec fn guessed_name(title: Option<Seq<char>>, url: Seq<char>) -> Seq<char> {
    match title {
        Some(t) => if trimmed(t).len() > 0 {
            trimmed(t)
        } else {
            url
        },
        None => url,
    }
}

/// Guesses a source name for the add-source screen (see `guessed_name`).
pub fn guess_source_name(feed: &Feed, url: &str) -> (res: String)
    ensures
        res@ == guessed_name(feed@.title, url@),
{
    match &feed.title {
        Some(t) => {
            let name = trim(t.as_str());
            if name.as_str().is_empty() {
                url.to_owned()
            } else {
                name
            }
        },
        None => url.to_owned(),
    }
}

/// The title an entry's article gets: the entry's title, or `(untitled)`.
pub open spec fn entry_title(e: FeedEntryView) -> Seq<char> {
    match e.title {
        Some(t) => t,
        None => "(untitled)"@,
    }
}

/// The URL an entry's article gets: its first link, or empty.
pub open spec fn entry_url(e: FeedEntryView) -> Seq<char> {
    if e.links.len() > 0 {
        e.links[0]
    } else {
        Seq::empty()
    }
}

/// The instant an entry's article gets: published, else updated, else `now`.
pub open spec fn entry_time(e: FeedEntryView, now: i64) -> i64 {
    match e.published {
        Some(t) => t,
        None => match e.updated {
            Some(t) => t,
            None => now,
        },
    }
}

impl RssFetcher {
    /// `a` is the fresh article this source makes of entry `e` when the
    /// current time is `now`.
    pub open spec fn makes(self, e: FeedEntryView, now: i64, a: Article) -> bool {
        &&& a.id == 0
        &&& a.title@ == entry_title(e)
        &&& a.url@ == entry_url(e)
        &&& a.source@ == self.name@
        &&& a.topic@ == self.topic@
        &&& a.timestamp == entry_time(e, now)
        &&& !a.read && !a.skipped && !a.saved
        &&& a.note is None && a.saved_at is None && a.noted_at is None
    }

    /// `articles` are, entry by entry, the articles this source makes of `feed`.
    pub open spec fn makes_all(self, feed: FeedView, now: i64, articles: Seq<Article>) -> bool {
        &&& articles.len() == feed.entries.len()
        &&& forall|i: int|
            0 <= i < articles.len() ==> self.makes(feed.entries[i], now, #[trigger] articles[i])
    }

    /// Maps every entry of `feed` onto an `Article` of this source, in feed
    /// order; entries without any date are stamped `now`.
    pub fn articles_from_feed(&self, feed: &Feed, now: i64) -> (res: Vec<Article>)
        ensures
            self.makes_all(feed@, now, res@),
    {
        let mut out: Vec<Article> = Vec::new();
        let mut i: usize = 0;
        while i < feed.entries.len()
            invariant
                i <= feed.entries@.len(),
                out@.len() == i,
                forall|k: int| 0 <= k < i ==> self.makes(feed@.entries[k], now, #[trigger] out@[k]),
            decreases feed.entries.len() - i,
        {
            let e = &feed.entries[i];
            let title = match &e.title {
                Some(t) => t.clone(),
                None => "(untitled)".to_owned(),
            };
            let url = if e.links.len() > 0 {
                e.links[0].clone()
            } else {
                String::new()
            };
            let timestamp = match e.published {
                Some(t) => t,
                None => match e.updated {
                    Some(t) => t,
                    None => now,
                },
            };
            let a = Article::new(title, url, self.name.clone(), self.topic.clone(), timestamp);
            assert(feed@.entries[i as int] == e@);
            out.push(a);
            i += 1;
        }
        out
    }

    /// Parses the feed text `body` downloaded for this source and maps its
    /// entries onto articles; entries without any date are stamped `now`
    /// (the current time, read by the caller).
    pub fn articles_from_body(&self, body: &str, now: i64) -> (res: Result<Vec<Article>, FetchError>)
        ensures
            res is Ok <==> parser_safe(body@) && spec_parse_feed(body@) is Some,
            (!body@.contains('\0') && !body@.contains('\u{1b}') && !occurs_in(
                "http://www.itunes.com/dtds/podcast-1.0.dtd"@,
                body@,
            ) && !occurs_in("http://search.yahoo.com/mrss/"@, body@)) ==> (res is Ok
                <==> spec_parse_feed(body@) is Some),
            res matches Ok(v) ==> self.makes_all(spec_parse_feed(body@)->0, now, v@),
            res matches Err(e) ==> (e matches FetchError::Parse { source_name, url, .. }
                && source_name@ == self.name@ && url@ == self.url@),
    {
        match feed_from_body(self.url.as_str(), body) {
            Ok(feed) => Ok(self.articles_from_feed(&feed, now)),
            Err(e) => {
                let err = FetchError::Parse {
                    source_name: self.name.clone(),
                    url: e.url,
                    detail: e.detail,
                };
                Err(err)
            },
        }
    }
}

/// Only control characters that change how the text decodes and the two
/// extension namespaces keep a text from the parser: every other text,
/// whatever whitespace, markup or characters it holds, is handed over.
pub proof fn lemma_plain_feeds_reach_the_parser(body: Seq<char>)
    requires
        !body.contains('\0'),
        !body.contains('\u{1b}'),
        !occurs_in("http://www.itunes.com/dtds/podcast-1.0.dtd"@, body),
        !occurs_in("http://search.yahoo.com/mrss/"@, body),
    ensures
        parser_safe(body),
{
}

/// An article made from a feed entry carries the entry's title (or
/// `(untitled)`), its first link (or nothing), its publish time, else its
/// update time, else `now`, and the source's name and topic; it starts
/// unread, unskipped, unsaved and without a note.
pub proof fn lemma_entry_article_fields(f: RssFetcher, e: FeedEntryView, now: i64, a: Article)
    requires
        f.makes(e, now, a),
    ensures
        e.title matches Some(t) ==> a.title@ == t,
        e.title is None ==> a.title@ == "(untitled)"@,
        e.links.len() > 0 ==> a.url@ == e.links[0],
        e.links.len() == 0 ==> a.url@.len() == 0,
        e.published matches Some(p) ==> a.timestamp == p,
        e.published is None ==> (e.updated matches Some(u) ==> a.timestamp == u),
        e.published is None && e.updated is None ==> a.timestamp == now,
        a.source@ == f.name@,
        a.topic@ == f.topic@,
        !a.read && !a.skipped && !a.saved && a.note is None,
{
}

} // verus!
