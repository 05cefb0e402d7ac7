use tuxwire::ui::{
    article_state, articles_title, browser_commands, cycle_topic, empty_list_message, note_preview_line,
    truncate_preview, ArticleState, ListView,
};
use tuxwire::models::Article;

#[test]
fn truncate_preview_leaves_short_text_untouched() {
    assert_eq!(truncate_preview("short note", 45), "short note");
}

#[test]
fn truncate_preview_leaves_exact_length_text_untouched() {
    let text = "12345";
    assert_eq!(truncate_preview(text, 5), "12345");
}

#[test]
fn truncate_preview_truncates_long_text() {
    let text = "this note is definitely longer than the preview limit allows";
    let truncated = truncate_preview(text, 10);
    assert_eq!(truncated, "this note …");
}

#[test]
fn truncate_preview_counts_chars_not_bytes() {
    let text = "café résumé";
    let truncated = truncate_preview(text, 4);
    assert_eq!(truncated, "café…");
}

#[test]
fn truncate_preview_to_zero_keeps_only_the_ellipsis() {
    assert_eq!(truncate_preview("abc", 0), "…");
    assert_eq!(truncate_preview("", 0), "");
}

#[test]
fn note_preview_line_quotes_the_truncated_note() {
    let long = "a".repeat(50);
    assert_eq!(note_preview_line(&long), format!("  \u{201c}{}…\u{201d}", "a".repeat(45)));
    assert_eq!(note_preview_line("hi"), "  \u{201c}hi\u{201d}");
}

#[test]
fn cycle_topic_wraps_in_both_directions() {
    let options = vec!["distros".to_string(), "kernel".to_string(), "security".to_string()];
    assert_eq!(cycle_topic(&options, "kernel", 1), "security");
    assert_eq!(cycle_topic(&options, "security", 1), "distros");
    assert_eq!(cycle_topic(&options, "distros", -1), "security");
    assert_eq!(cycle_topic(&options, "kernel", -1), "distros");
}

#[test]
fn cycle_topic_starts_at_an_end_for_a_typed_topic() {
    let options = vec!["distros".to_string(), "kernel".to_string(), "security".to_string()];
    assert_eq!(cycle_topic(&options, "gaming", 1), "distros");
    assert_eq!(cycle_topic(&options, "", -1), "security");
}

#[test]
fn article_state_prefers_skipped_then_saved_then_read() {
    let mut a = Article::new("t".into(), "u".into(), "s".into(), "k".into(), 0);
    assert_eq!(article_state(&a), ArticleState::Unread);
    a.read = true;
    assert_eq!(article_state(&a), ArticleState::Read);
    a.saved = true;
    assert_eq!(article_state(&a), ArticleState::Saved);
    a.skipped = true;
    assert_eq!(article_state(&a), ArticleState::Skipped);
}

#[test]
fn pane_titles_and_empty_messages() {
    assert_eq!(articles_title(ListView::Saved, Some("kernel")), " Saved Articles ");
    assert_eq!(articles_title(ListView::Topic, Some("kernel")), " Articles — kernel ");
    assert_eq!(articles_title(ListView::Topic, None), " Articles ");
    assert_eq!(empty_list_message(ListView::Saved), "No saved articles yet -- press s on an article to save it.");
    assert_eq!(empty_list_message(ListView::Topic), "No articles yet -- run a fetcher first.");
}

#[test]
fn browser_fallback_order() {
    assert_eq!(browser_commands(Some("firefox".into())), vec!["firefox".to_string(), "xdg-open".to_string()]);
    assert_eq!(browser_commands(None), vec!["xdg-open".to_string()]);
}
