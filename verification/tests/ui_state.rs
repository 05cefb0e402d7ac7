use tuxwire::fetchers::rss::Feed;
use tuxwire::models::Article;
use tuxwire::ui::state::{footer_hints, popup_layout, AddSourceStep, Command, Key, Mode, PopupLayout, UiState};
use tuxwire::ui::{confirm_lines, shows_note_preview, ConfirmField, ListView};

const NOW: i64 = 1_786_100_000;

fn article(id: i64, title: &str) -> Article {
    let mut a = Article::new(
        title.to_string(),
        format!("https://example.com/{id}"),
        "Example".to_string(),
        "kernel".to_string(),
        1_786_000_000,
    );
    a.id = id;
    a
}

fn state() -> UiState {
    UiState::new(
        vec!["kernel".to_string(), "security".to_string()],
        vec![article(1, "one"), article(2, "two"), article(3, "three")],
    )
}

fn note_text(s: &UiState) -> String {
    match &s.mode {
        Mode::EditingNote { text } => text.clone(),
        _ => panic!("note popup is not open"),
    }
}

#[test]
fn j_and_k_move_and_stop_at_the_ends() {
    let mut s = state();
    assert!(matches!(s.handle_key(Key::Char('k'), NOW), Command::Nothing));
    assert_eq!(s.article_index, 0);
    s.handle_key(Key::Char('j'), NOW);
    s.handle_key(Key::Char('j'), NOW);
    s.handle_key(Key::Char('j'), NOW);
    assert_eq!(s.article_index, 2);
    s.handle_key(Key::Char('k'), NOW);
    assert_eq!(s.article_index, 1);
    assert_eq!(s.selected_article(), Some(1));
}

#[test]
fn q_quits_outside_popups() {
    let mut s = state();
    assert!(matches!(s.handle_key(Key::Char('q'), NOW), Command::Quit));
}

#[test]
fn saving_marks_read_and_keeps_the_note() {
    let mut s = state();
    s.articles[0].note = Some("keep me".to_string());
    match s.handle_key(Key::Char('s'), NOW) {
        Command::Save { id, note, saved_at } => {
            assert_eq!(id, 1);
            assert_eq!(note.as_deref(), Some("keep me"));
            assert_eq!(saved_at, NOW);
        }
        _ => panic!("s must save"),
    }
    assert!(s.articles[0].saved && s.articles[0].read);
    assert_eq!(s.articles[0].saved_at, Some(NOW));
    assert_eq!(s.articles[0].note.as_deref(), Some("keep me"));
}

#[test]
fn skipping_marks_the_article_skipped() {
    let mut s = state();
    s.handle_key(Key::Char('j'), NOW);
    assert!(matches!(s.handle_key(Key::Char('x'), NOW), Command::MarkSkipped { id: 2 }));
    assert!(s.articles[1].skipped);
}

#[test]
fn typing_a_note_captures_q_and_backspace() {
    let mut s = state();
    s.articles[0].note = Some("caf".to_string());
    s.handle_key(Key::Char('n'), NOW);
    assert_eq!(note_text(&s), "caf");
    assert!(matches!(s.handle_key(Key::Char('é'), NOW), Command::Nothing));
    assert!(matches!(s.handle_key(Key::Char('q'), NOW), Command::Nothing));
    assert_eq!(note_text(&s), "caféq");
    s.handle_key(Key::Backspace, NOW);
    assert_eq!(note_text(&s), "café");
    match s.handle_key(Key::Enter, NOW) {
        Command::UpdateNote { id, note, noted_at } => {
            assert_eq!(id, 1);
            assert_eq!(note.as_deref(), Some("café"));
            assert_eq!(noted_at, Some(NOW));
        }
        _ => panic!("Enter must store the note"),
    }
    assert!(matches!(s.mode, Mode::Normal));
    assert_eq!(s.articles[0].note.as_deref(), Some("café"));
    assert_eq!(s.articles[0].noted_at, Some(NOW));
}

#[test]
fn esc_discards_the_note_in_progress() {
    let mut s = state();
    s.handle_key(Key::Char('n'), NOW);
    s.handle_key(Key::Char('x'), NOW);
    assert!(matches!(s.handle_key(Key::Esc, NOW), Command::Nothing));
    assert!(matches!(s.mode, Mode::Normal));
    assert!(s.articles[0].note.is_none());
    assert!(!s.articles[0].skipped);
}

#[test]
fn an_emptied_note_is_removed() {
    let mut s = state();
    s.articles[0].note = Some("x".to_string());
    s.handle_key(Key::Char('n'), NOW);
    s.handle_key(Key::Backspace, NOW);
    s.handle_key(Key::Backspace, NOW);
    match s.handle_key(Key::Enter, NOW) {
        Command::UpdateNote { note, noted_at, .. } => assert!(note.is_none() && noted_at.is_none()),
        _ => panic!("Enter must store the note"),
    }
    assert!(s.articles[0].note.is_none());
}

#[test]
fn saved_view_toggles_and_ignores_topic_keys() {
    let mut s = state();
    assert!(matches!(s.handle_key(Key::Char('S'), NOW), Command::LoadSaved));
    assert_eq!(s.view, ListView::Saved);
    s.show_articles(vec![article(9, "saved one")]);
    assert!(matches!(s.handle_key(Key::Char('r'), NOW), Command::Nothing));
    assert!(matches!(s.handle_key(Key::Down, NOW), Command::Nothing));
    assert_eq!(s.topic_index, 0);
    match s.handle_key(Key::Tab, NOW) {
        Command::LoadTopic { topic } => assert_eq!(topic, "kernel"),
        _ => panic!("Tab leaves the saved view"),
    }
    assert_eq!(s.view, ListView::Topic);
}

#[test]
fn topic_keys_move_the_sidebar_and_reload() {
    let mut s = state();
    match s.handle_key(Key::Down, NOW) {
        Command::LoadTopic { topic } => assert_eq!(topic, "security"),
        _ => panic!("Down selects the next topic"),
    }
    match s.handle_key(Key::Tab, NOW) {
        Command::LoadTopic { topic } => assert_eq!(topic, "security"),
        _ => panic!("Tab stays on the last topic"),
    }
    match s.handle_key(Key::Char('r'), NOW) {
        Command::Refresh { topic } => assert_eq!(topic, "security"),
        _ => panic!("r refreshes the selected topic"),
    }
    s.handle_key(Key::Char('j'), NOW);
    s.handle_key(Key::Char('j'), NOW);
    s.show_articles_keeping_position(vec![article(4, "only")]);
    assert_eq!(s.article_index, 0);
    assert_eq!(s.selected_topic(), Some("security"));
}

#[test]
fn opening_marks_read_or_reports_the_failure() {
    let mut s = state();
    match s.handle_key(Key::Enter, NOW) {
        Command::Open { id, url } => {
            assert_eq!(id, 1);
            assert_eq!(url, "https://example.com/1");
        }
        _ => panic!("Enter opens the article"),
    }
    assert!(matches!(s.finish_open(true), Command::MarkRead { id: 1 }));
    assert!(s.articles[0].read);

    s.handle_key(Key::Char('j'), NOW);
    assert!(matches!(s.finish_open(false), Command::Nothing));
    assert!(!s.articles[1].read);
    match &s.mode {
        Mode::Error { message } => assert_eq!(
            message,
            "could not open article -- w3m isn't installed, and no browser could be launched via $BROWSER or xdg-open."
        ),
        _ => panic!("a failed open shows the error popup"),
    }
    assert!(matches!(s.handle_key(Key::Char('q'), NOW), Command::Nothing));
    assert!(matches!(s.mode, Mode::Normal));
}

#[test]
fn adding_a_source_walks_through_url_and_confirm() {
    let mut s = state();
    s.handle_key(Key::Char('a'), NOW);
    s.handle_key(Key::Enter, NOW);
    match &s.mode {
        Mode::AddSource(AddSourceStep::Url { error, .. }) => {
            assert_eq!(error.as_deref(), Some("enter a feed URL first"))
        }
        _ => panic!("still on the URL step"),
    }
    for c in " https://lwn.net/rss ".chars() {
        s.handle_key(Key::Char(c), NOW);
    }
    match s.handle_key(Key::Enter, NOW) {
        Command::FetchFeed { url } => assert_eq!(url, "https://lwn.net/rss"),
        _ => panic!("Enter fetches the trimmed URL"),
    }

    s.finish_feed_fetch(Err("no feed here".to_string()));
    match &s.mode {
        Mode::AddSource(AddSourceStep::Url { error, .. }) => assert_eq!(
            error.as_deref(),
            Some("couldn't parse this as a feed -- check the URL (no feed here)")
        ),
        _ => panic!("a failed fetch stays on the URL step"),
    }

    s.finish_feed_fetch(Ok(Feed { title: Some(" LWN.net ".to_string()), entries: Vec::new() }));
    match &s.mode {
        Mode::AddSource(AddSourceStep::Confirm { url, name, topic, field, topic_options, error }) => {
            assert_eq!(url, "https://lwn.net/rss");
            assert_eq!(name, "LWN.net");
            assert_eq!(topic, "");
            assert_eq!(*field, ConfirmField::Name);
            assert_eq!(topic_options, &vec!["kernel".to_string(), "security".to_string()]);
            assert!(error.is_none());
        }
        _ => panic!("a parsed feed opens the confirm step"),
    }

    s.handle_key(Key::Tab, NOW);
    s.handle_key(Key::Up, NOW);
    s.handle_key(Key::Up, NOW);
    match &s.mode {
        Mode::AddSource(AddSourceStep::Confirm { topic, .. }) => assert_eq!(topic, "kernel"),
        _ => panic!("still confirming"),
    }
    s.handle_key(Key::Backspace, NOW);
    s.handle_key(Key::Backspace, NOW);
    s.handle_key(Key::Backspace, NOW);
    s.handle_key(Key::Backspace, NOW);
    s.handle_key(Key::Backspace, NOW);
    s.handle_key(Key::Backspace, NOW);
    s.handle_key(Key::Enter, NOW);
    match &s.mode {
        Mode::AddSource(AddSourceStep::Confirm { error, .. }) => {
            assert_eq!(error.as_deref(), Some("every source needs a topic"))
        }
        _ => panic!("an empty topic is refused"),
    }
    for c in "distros ".chars() {
        s.handle_key(Key::Char(c), NOW);
    }
    match s.handle_key(Key::Enter, NOW) {
        Command::WriteSource { name, url, topic } => {
            assert_eq!(name, "LWN.net");
            assert_eq!(url, "https://lwn.net/rss");
            assert_eq!(topic, "distros");
        }
        _ => panic!("Enter writes the source"),
    }

    match s.finish_write_source(Err("disk full".to_string())) {
        Command::Nothing => {}
        _ => panic!("a failed write does nothing else"),
    }
    match &s.mode {
        Mode::AddSource(AddSourceStep::Confirm { error, .. }) => {
            assert_eq!(error.as_deref(), Some("failed to save source: disk full"))
        }
        _ => panic!("a failed write stays on the confirm step"),
    }

    match s.finish_write_source(Ok(())) {
        Command::ReloadTopic { topic } => assert_eq!(topic, "kernel"),
        _ => panic!("the selected topic is reloaded"),
    }
    assert_eq!(s.topics, vec!["distros".to_string(), "kernel".to_string(), "security".to_string()]);
    assert_eq!(s.topic_index, 1);
    assert!(matches!(s.mode, Mode::Normal));
}

#[test]
fn esc_closes_the_add_source_popup() {
    let mut s = state();
    s.handle_key(Key::Down, NOW);
    s.handle_key(Key::Char('a'), NOW);
    s.handle_key(Key::Char('h'), NOW);
    match s.handle_key(Key::Esc, NOW) {
        Command::ReloadTopic { topic } => assert_eq!(topic, "security"),
        _ => panic!("closing reloads the selected topic"),
    }
    assert!(matches!(s.mode, Mode::Normal));
    assert_eq!(s.topic_index, 1);
}

#[test]
fn a_first_topic_becomes_selectable() {
    let mut s = UiState::new(Vec::new(), Vec::new());
    assert!(matches!(s.handle_key(Key::Enter, NOW), Command::Nothing));
    s.handle_key(Key::Char('a'), NOW);
    for c in "u".chars() {
        s.handle_key(Key::Char(c), NOW);
    }
    s.handle_key(Key::Enter, NOW);
    s.finish_feed_fetch(Ok(Feed { title: None, entries: Vec::new() }));
    s.handle_key(Key::Tab, NOW);
    for c in "linux".chars() {
        s.handle_key(Key::Char(c), NOW);
    }
    assert!(matches!(s.handle_key(Key::Enter, NOW), Command::WriteSource { .. }));
    match s.finish_write_source(Ok(())) {
        Command::ReloadTopic { topic } => assert_eq!(topic, "linux"),
        _ => panic!("the new topic is loaded"),
    }
    assert_eq!(s.topics, vec!["linux".to_string()]);
}

#[test]
fn export_runs_only_from_the_saved_view() {
    let mut s = state();
    assert!(matches!(s.handle_key(Key::Char('E'), NOW), Command::Nothing));
    s.handle_key(Key::Char('S'), NOW);
    assert!(matches!(s.handle_key(Key::Char('E'), NOW), Command::Export));
    s.finish_export(Ok("/home/me/tuxwire-notes/saved-articles.md".to_string()));
    match &s.mode {
        Mode::Notice { message } => {
            assert_eq!(message, "exported saved articles to /home/me/tuxwire-notes/saved-articles.md")
        }
        _ => panic!("a written export is confirmed"),
    }
    s.handle_key(Key::Char('j'), NOW);
    assert!(matches!(s.mode, Mode::Normal));
    s.finish_export(Err("permission denied".to_string()));
    match &s.mode {
        Mode::Error { message } => assert_eq!(message, "export failed: permission denied"),
        _ => panic!("a failed export is reported"),
    }
}

#[test]
fn footer_hints_follow_the_popup_then_the_view() {
    let mut s = state();
    assert_eq!(footer_hints(&s.mode, s.view), "j/k move · ↑/↓/Tab topic · Enter open · q quit");
    s.handle_key(Key::Char('S'), NOW);
    assert_eq!(footer_hints(&s.mode, s.view), "j/k move · Enter open · E export · Esc/Tab back · q quit");
    s.handle_key(Key::Char('n'), NOW);
    assert_eq!(footer_hints(&s.mode, s.view), "Enter save note · Esc cancel");
    s.handle_key(Key::Esc, NOW);
    s.handle_key(Key::Char('a'), NOW);
    assert_eq!(footer_hints(&s.mode, s.view), "Enter fetch & validate · Esc cancel");
}

#[test]
fn confirm_lines_list_the_existing_topics() {
    let lines = confirm_lines("https://lwn.net/rss", "LWN", "ker", &vec!["distros".to_string(), "kernel".to_string()]);
    assert_eq!(
        lines,
        vec![
            "URL:   https://lwn.net/rss".to_string(),
            "Name:  LWN".to_string(),
            "Topic: ker".to_string(),
            "       existing: distros, kernel".to_string(),
        ]
    );
    assert_eq!(confirm_lines("u", "n", "t", &Vec::new())[3], "       existing: ");
}

#[test]
fn s_on_a_saved_article_unsaves_it() {
    let mut s = state();
    s.articles[0].note = Some("keep".to_string());
    s.handle_key(Key::Char('s'), NOW);
    assert!(matches!(s.handle_key(Key::Char('s'), NOW), Command::Unsave { id: 1 }));
    assert!(!s.articles[0].saved);
    assert_eq!(s.articles[0].saved_at, None);
    assert!(s.articles[0].read);
    assert_eq!(s.articles[0].note.as_deref(), Some("keep"));
    assert!(matches!(s.handle_key(Key::Char('s'), NOW), Command::Save { id: 1, .. }));
    assert!(s.articles[0].saved);
}

#[test]
fn editing_the_url_keeps_the_last_failure_visible() {
    let mut s = state();
    s.handle_key(Key::Char('a'), NOW);
    for c in "https://a.org/fee".chars() {
        s.handle_key(Key::Char(c), NOW);
    }
    s.handle_key(Key::Enter, NOW);
    s.finish_feed_fetch(Err("404".to_string()));
    s.handle_key(Key::Char('d'), NOW);
    match &s.mode {
        Mode::AddSource(AddSourceStep::Url { text, error }) => {
            assert_eq!(text, "https://a.org/feed");
            assert_eq!(error.as_deref(), Some("couldn't parse this as a feed -- check the URL (404)"));
        }
        _ => panic!("still on the URL step"),
    }
    s.handle_key(Key::Backspace, NOW);
    match &s.mode {
        Mode::AddSource(AddSourceStep::Url { error, .. }) => assert!(error.is_some()),
        _ => panic!("still on the URL step"),
    }
}

#[test]
fn adding_a_source_from_the_saved_view_keeps_the_saved_list() {
    let mut s = state();
    s.handle_key(Key::Char('S'), NOW);
    s.show_articles(vec![article(9, "saved one")]);
    s.handle_key(Key::Char('a'), NOW);
    assert!(matches!(s.handle_key(Key::Esc, NOW), Command::Nothing));
    assert_eq!(s.view, ListView::Saved);
    assert_eq!(s.articles.len(), 1);
    assert_eq!(s.articles[0].id, 9);
}

#[test]
fn popups_are_laid_out_around_their_text() {
    let mut s = state();
    assert_eq!(popup_layout(&s.mode), None);
    s.handle_key(Key::Char('n'), NOW);
    s.handle_key(Key::Char('é'), NOW);
    assert_eq!(popup_layout(&s.mode), Some(PopupLayout { width_percent: 60, height: 5, cursor: Some((2, 1)) }));
    s.handle_key(Key::Esc, NOW);
    s.handle_key(Key::Char('a'), NOW);
    assert_eq!(popup_layout(&s.mode), Some(PopupLayout { width_percent: 70, height: 3, cursor: Some((1, 1)) }));
    s.handle_key(Key::Enter, NOW);
    assert_eq!(popup_layout(&s.mode), Some(PopupLayout { width_percent: 70, height: 4, cursor: Some((1, 1)) }));
    s.handle_key(Key::Char('u'), NOW);
    s.handle_key(Key::Enter, NOW);
    s.finish_feed_fetch(Ok(Feed { title: Some("LWN".to_string()), entries: Vec::new() }));
    assert_eq!(popup_layout(&s.mode), Some(PopupLayout { width_percent: 70, height: 6, cursor: Some((11, 2)) }));
    s.handle_key(Key::Tab, NOW);
    s.handle_key(Key::Char('k'), NOW);
    assert_eq!(popup_layout(&s.mode), Some(PopupLayout { width_percent: 70, height: 6, cursor: Some((9, 3)) }));
    s.finish_open(false);
    assert!(shows_note_preview(ListView::Saved));
    assert!(!shows_note_preview(ListView::Topic));
}
