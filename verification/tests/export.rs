use chrono::{TimeZone, Utc};
use tuxwire::export::{format_article_markdown, markdown_block_text, quote_note, render_saved_articles, ExportConfig};
use tuxwire::models::Article;

fn at(y: i32, m: u32, d: u32, h: u32) -> i64 {
    Utc.with_ymd_and_hms(y, m, d, h, 0, 0).unwrap().timestamp()
}

fn saved_article() -> Article {
    let mut article = Article::new(
        "Btrfs send/receive got noticeably faster in 6.18".to_string(),
        "https://reddit.com/r/linux/comments/example".to_string(),
        "r/linux".to_string(),
        "kernel".to_string(),
        at(2026, 8, 10, 12),
    );
    article.saved = true;
    article.saved_at = Some(at(2026, 8, 12, 9));
    article.note = Some("worth trying on the homelab NAS".to_string());
    article.noted_at = Some(at(2026, 8, 14, 20));
    article
}

#[test]
fn formats_the_documented_markdown_shape() {
    let markdown = format_article_markdown(&saved_article());

    assert_eq!(
        markdown,
        "## Btrfs send/receive got noticeably faster in 6.18\n\
         Source: [r/linux](https://reddit.com/r/linux/comments/example) — saved 2026-08-12, noted 2026-08-14\n\
         \n\
         > worth trying on the homelab NAS\n"
    );
}

#[test]
fn omits_noted_date_when_it_matches_saved_date() {
    let mut article = saved_article();
    article.noted_at = article.saved_at;

    let markdown = format_article_markdown(&article);

    assert!(markdown.contains("saved 2026-08-12"));
    assert!(!markdown.contains("noted"));
}

#[test]
fn omits_the_blockquote_when_there_is_no_note() {
    let mut article = saved_article();
    article.note = None;
    article.noted_at = None;

    let markdown = format_article_markdown(&article);

    assert!(!markdown.contains('>'));
}

#[test]
fn falls_back_to_publish_timestamp_when_saved_at_is_missing() {
    let mut article = saved_article();
    article.saved_at = None;

    let markdown = format_article_markdown(&article);

    assert!(markdown.contains("saved 2026-08-10"));
}

#[test]
fn quotes_every_line_of_a_multiline_note() {
    let mut article = saved_article();
    article.note = Some("first line\nsecond line".to_string());

    let markdown = format_article_markdown(&article);

    assert!(markdown.contains("> first line\n> second line"));
}

#[test]
fn export_saved_articles_joins_every_article_with_a_separator() {
    let mut first = saved_article();
    first.title = "First article".to_string();
    let mut second = saved_article();
    second.title = "Second article".to_string();

    let expected = format!("{}\n---\n{}", format_article_markdown(&first), format_article_markdown(&second));

    assert_eq!(render_saved_articles(&[first, second]), expected);
}

/// The export document is derived from the articles passed in and nothing
/// else: rendering an earlier, different set leaves no trace in the next
/// one. (Writing the file over the previous one is done in the program
/// around the library and is not exercised here.)
#[test]
fn export_saved_articles_regenerates_rather_than_appending() {
    let mut first = saved_article();
    first.title = "Old article, later un-saved".to_string();
    let _ = render_saved_articles(&[first]);

    let mut second = saved_article();
    second.title = "Only article still saved".to_string();
    let contents = render_saved_articles(&[second]);

    assert!(contents.contains("Only article still saved"));
    assert!(!contents.contains("Old article, later un-saved"));
}

#[test]
fn export_saved_articles_with_none_saved_writes_an_empty_file() {
    let _ = render_saved_articles(&[saved_article()]);
    assert_eq!(render_saved_articles(&[]), "");
}

#[test]
fn a_whitespace_only_note_has_no_blockquote() {
    let mut article = saved_article();
    article.note = Some("  \n\t ".to_string());
    let markdown = format_article_markdown(&article);
    assert!(!markdown.contains('>'));
    assert!(markdown.ends_with("noted 2026-08-14\n"));
}

#[test]
fn crlf_note_lines_lose_their_carriage_returns() {
    let block = markdown_block_text("T", "S", "u", "2026-01-02", None, Some("a\r\nb\n\nc\r"));
    assert_eq!(block, "## T\nSource: [S](u) — saved 2026-01-02\n\n> a\n> b\n> \n> c\r\n");
}

#[test]
fn markdown_block_shows_a_different_noted_day() {
    let block = markdown_block_text("T", "S", "u", "2026-01-02", Some("2026-01-03"), None);
    assert_eq!(block, "## T\nSource: [S](u) — saved 2026-01-02, noted 2026-01-03\n");
    let same = markdown_block_text("T", "S", "u", "2026-01-02", Some("2026-01-02"), None);
    assert_eq!(same, "## T\nSource: [S](u) — saved 2026-01-02\n");
}

#[test]
fn export_file_is_saved_articles_md_in_the_configured_directory() {
    let config = ExportConfig::from_configured_path("~/tuxwire-notes/", Some("/home/ana")).ok().unwrap();
    assert_eq!(config.path, "/home/ana/tuxwire-notes/");
    assert_eq!(config.export_file(), "/home/ana/tuxwire-notes/saved-articles.md");
    let plain = ExportConfig::from_configured_path("/srv/notes", None).ok().unwrap();
    assert_eq!(plain.export_file(), "/srv/notes/saved-articles.md");
    assert!(ExportConfig::from_configured_path("~", None).is_err());
}

#[test]
fn a_blockquote_reads_back_as_the_quoted_note_lines() {
    let quoted = quote_note("first line\r\nsecond line\n\nlast");
    assert_eq!(quoted, "> first line\n> second line\n> \n> last");
    assert_eq!(quoted.lines().collect::<Vec<_>>(), vec!["> first line", "> second line", "> ", "> last"]);
    assert_eq!(quote_note(""), "");
}
