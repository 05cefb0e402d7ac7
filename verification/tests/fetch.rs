use chrono::{TimeZone, Utc};
use tuxwire::fetchers::reddit::RedditFetcher;
use tuxwire::fetchers::rss::{feed_from_body, guess_source_name, is_parser_safe, Feed, FeedEntry, RssFetcher};
use tuxwire::fetchers::FetchError;

const FEED: &str = r#"<?xml version="1.0" encoding="UTF-8"?>
<rss version="2.0">
  <channel>
    <title>Phoronix</title>
    <link>https://www.phoronix.com/</link>
    <description>Linux hardware news</description>
    <item>
      <title>Linux 6.18 released</title>
      <link>https://www.phoronix.com/news/linux-618</link>
      <pubDate>Mon, 10 Aug 2026 12:00:00 GMT</pubDate>
    </item>
    <item>
      <description>An entry with neither title nor date</description>
      <link>https://www.phoronix.com/news/untitled</link>
    </item>
  </channel>
</rss>"#;

fn phoronix() -> RssFetcher {
    RssFetcher {
        name: "Phoronix".to_string(),
        url: "https://www.phoronix.com/rss.php".to_string(),
        topic: "kernel".to_string(),
    }
}

#[test]
fn rss_entries_become_fresh_articles_of_the_source() {
    let articles = match phoronix().articles_from_body(FEED, 1_800_000_000) {
        Ok(v) => v,
        Err(e) => panic!("{}", e.message()),
    };

    assert_eq!(articles.len(), 2);
    let first = &articles[0];
    assert_eq!(first.title, "Linux 6.18 released");
    assert_eq!(first.url, "https://www.phoronix.com/news/linux-618");
    assert_eq!(first.source, "Phoronix");
    assert_eq!(first.topic, "kernel");
    assert_eq!(first.timestamp, Utc.with_ymd_and_hms(2026, 8, 10, 12, 0, 0).unwrap().timestamp());
    assert_eq!(first.id, 0);
    assert!(!first.read && !first.skipped && !first.saved);
    assert!(first.note.is_none() && first.saved_at.is_none() && first.noted_at.is_none());

    let second = &articles[1];
    assert_eq!(second.title, "(untitled)");
    assert_eq!(second.url, "https://www.phoronix.com/news/untitled");
    assert_eq!(second.timestamp, 1_800_000_000);
}

#[test]
fn text_that_is_no_feed_is_a_parse_error_naming_the_source() {
    match phoronix().articles_from_body("this is not xml at all", 0) {
        Ok(_) => panic!("plain text must not parse as a feed"),
        Err(FetchError::Parse { source_name, url, detail }) => {
            assert_eq!(source_name, "Phoronix");
            assert_eq!(url, "https://www.phoronix.com/rss.php");
            let e = FetchError::Parse { source_name, url, detail: detail.clone() };
            assert_eq!(
                e.message(),
                format!("fetching 'Phoronix': failed to parse feed XML from https://www.phoronix.com/rss.php: {detail}")
            );
        }
        Err(FetchError::Unsupported { .. }) => panic!("wrong error"),
    }
}

#[test]
fn feed_from_body_reports_the_url() {
    match feed_from_body("https://example.com/feed", "<html><body>nope</body></html>") {
        Ok(_) => panic!("an HTML page is not a feed"),
        Err(e) => {
            assert_eq!(e.url, "https://example.com/feed");
            assert!(e.message().starts_with("failed to parse feed XML from https://example.com/feed: "));
        }
    }
}

#[test]
fn feed_from_body_keeps_title_links_and_dates() {
    let feed = match feed_from_body("https://www.phoronix.com/rss.php", FEED) {
        Ok(f) => f,
        Err(e) => panic!("{}", e.message()),
    };
    assert_eq!(feed.title.as_deref(), Some("Phoronix"));
    assert_eq!(feed.entries.len(), 2);
    assert_eq!(feed.entries[0].links, vec!["https://www.phoronix.com/news/linux-618".to_string()]);
    assert!(feed.entries[0].published.is_some());
    assert!(feed.entries[1].title.is_none());
    assert!(feed.entries[1].published.is_none() && feed.entries[1].updated.is_none());
}

#[test]
fn guessed_name_is_the_trimmed_title_or_the_url() {
    let titled = Feed { title: Some("  It's FOSS \t".to_string()), entries: Vec::new() };
    assert_eq!(guess_source_name(&titled, "https://itsfoss.com/feed/"), "It's FOSS");

    let blank = Feed { title: Some("   ".to_string()), entries: Vec::new() };
    assert_eq!(guess_source_name(&blank, "https://itsfoss.com/feed/"), "https://itsfoss.com/feed/");

    let untitled = Feed { title: None, entries: Vec::new() };
    assert_eq!(guess_source_name(&untitled, "https://lwn.net/rss"), "https://lwn.net/rss");
}

#[test]
fn articles_from_feed_prefers_published_then_updated_then_now() {
    let feed = Feed {
        title: None,
        entries: vec![
            FeedEntry { title: Some("a".to_string()), links: vec![], published: Some(10), updated: Some(20) },
            FeedEntry { title: None, links: vec!["x".to_string(), "y".to_string()], published: None, updated: Some(20) },
            FeedEntry { title: None, links: vec![], published: None, updated: None },
        ],
    };
    let articles = phoronix().articles_from_feed(&feed, 99);
    assert_eq!(articles.iter().map(|a| a.timestamp).collect::<Vec<_>>(), vec![10, 20, 99]);
    assert_eq!(articles[0].url, "");
    assert_eq!(articles[1].url, "x");
    assert_eq!(articles[2].title, "(untitled)");
}

#[test]
fn reddit_sources_are_not_fetched_yet() {
    let reddit = RedditFetcher { name: "r/linux".to_string(), url: "linux".to_string(), topic: "distros".to_string() };
    match reddit.fetch() {
        Err(e @ FetchError::Unsupported { .. }) => assert_eq!(
            e.message(),
            "source 'r/linux' (subreddit 'linux') has type = \"reddit\", which isn't implemented yet -- skipping. Only type = \"rss\" sources are fetched in this version (see docs/ARCHITECTURE.md's Roadmap)."
        ),
        _ => panic!("reddit fetching must fail"),
    }
}

#[test]
fn feeds_with_the_itunes_or_media_extension_are_refused() {
    let podcast = r#"<rss version="2.0" xmlns:itunes="http://www.itunes.com/dtds/podcast-1.0.dtd"><channel><title>P</title>
        <item><title>e</title><itunes:duration>99999999999999999999999</itunes:duration></item></channel></rss>"#;
    match feed_from_body("https://example.com/podcast", podcast) {
        Ok(_) => panic!("an iTunes feed is not handed to the parser"),
        Err(e) => assert_eq!(
            e.message(),
            "failed to parse feed XML from https://example.com/podcast: the feed uses the iTunes or Media RSS extension, which this reader does not parse"
        ),
    }
    let media = r#"<rss version="2.0" xmlns:media="http://search.yahoo.com/mrss/"><channel><title>M</title></channel></rss>"#;
    assert!(phoronix().articles_from_body(media, 0).is_err());
    assert!(!is_parser_safe(media));
}

#[test]
fn control_characters_keep_a_text_from_the_parser() {
    match feed_from_body("u", "<rss version=\"2.0\">\u{0}</rss>") {
        Ok(_) => panic!("NUL is refused"),
        Err(e) => assert_eq!(e.detail, "the feed text holds a NUL or escape character"),
    }
    assert!(!is_parser_safe("\u{1b}(B"));
    assert!(is_parser_safe(FEED));
}
