//! The browsing state of the terminal UI and what each keypress does to it.
//!
//! The UI loop lives outside the library: it draws `UiState`, reads a key,
//! hands it to `UiState::handle_key`, and carries out the `Command` it gets
//! back (a storage query or update, opening a URL, a network fetch, writing
//! `sources.toml`), reporting results through the `show_*`/`finish_*`
//! methods. Every decision about selection, views, popups and their text is
//! made here.
use vstd::prelude::*;
use crate::export::opt_string;
use crate::fetchers::rss::{guess_source_name, guessed_name, Feed};
use crate::models::Article;
use crate::order::{find_text, index_of, lemma_index_of, sort_texts, sorted, texts};
use crate::text::{append_str, pop_char, push_char, trim, trimmed};
use crate::ui::{cycle_topic, cycled, ConfirmField, ListView};

verus! {

/// A keypress, as far as the UI distinguishes keys.
#[derive(Clone, Copy, Debug, PartialEq, Eq, Structural)]
pub enum Key {
    Char(char),
    Up,
    Down,
    Tab,
    Esc,
    Enter,
    Backspace,
    Other,
}

/// The two steps of the add-source popup.
pub enum AddSourceStep {
    /// Typing the feed URL; `error` is the last failure to show under it,
    /// kept while the URL is edited so the reason stays visible.
    Url { text: String, error: Option<String> },
    /// The URL parsed as a feed; confirming the name and the topic.
    Confirm {
        url: String,
        name: String,
        topic: String,
        field: ConfirmField,
        topic_options: Vec<String>,
        error: Option<String>,
    },
}

/// Which popup, if any, has the keyboard.
pub enum Mode {
    Normal,
    EditingNote { text: String },
    AddSource(AddSourceStep),
    Error { message: String },
    /// A confirmation to acknowledge (such as where the export was written).
    Notice { message: String },
}

/// The text content of a `Mode`.
pub enum ModeView {
    Normal,
    EditingNote { text: Seq<char> },
    Url { text: Seq<char>, error: Option<Seq<char>> },
    Confirm {
        url: Seq<char>,
        name: Seq<char>,
        topic: Seq<char>,
        field: ConfirmField,
        options: Seq<Seq<char>>,
        error: Option<Seq<char>>,
    },
    Error { message: Seq<char> },
    Notice { message: Seq<char> },
}

impl View for Mode {
    type V = ModeView;

    open spec fn view(&self) -> ModeView {
        match self {
            Mode::Normal => ModeView::Normal,
            Mode::EditingNote { text } => ModeView::EditingNote { text: text@ },
            Mode::AddSource(AddSourceStep::Url { text, error }) => ModeView::Url {
                text: text@,
                error: opt_string(*error),
            },
            Mode::AddSource(
                AddSourceStep::Confirm { url, name, topic, field, topic_options, error },
            ) => ModeView::Confirm {
                url: url@,
                name: name@,
                topic: topic@,
                field: *field,
                options: texts(topic_options@),
                error: opt_string(*error),
            },
            Mode::Error { message } => ModeView::Error { message: message@ },
            Mode::Notice { message } => ModeView::Notice { message: message@ },
        }
    }
}

/// What the UI loop has to do after a keypress.
pub enum Command {
    Nothing,
    Quit,
    /// Load the articles of `topic`, then call `show_articles`.
    LoadTopic { topic: String },
    /// Load every saved article, then call `show_articles`.
    LoadSaved,
    /// Load the articles of `topic`, then call `show_articles_keeping_position`.
    ReloadTopic { topic: String },
    /// Fetch the sources of `topic`, store what they return, load the
    /// topic's articles, then call `show_articles_keeping_position`.
    Refresh { topic: String },
    /// Open `url`, then report with `finish_open`.
    Open { id: i64, url: String },
    MarkRead { id: i64 },
    MarkSkipped { id: i64 },
    /// Store the article as saved at `saved_at` (and read), with `note`.
    Save { id: i64, note: Option<String>, saved_at: i64 },
    /// Clear the article's saved flag (it stays read).
    Unsave { id: i64 },
    /// Store `note` as the article's note, set at `noted_at` (`None` with no note).
    UpdateNote { id: i64, note: Option<String>, noted_at: Option<i64> },
    /// Download and parse the feed at `url`, then call `finish_feed_fetch`.
    FetchFeed { url: String },
    /// Append an RSS source to `sources.toml`, then call `finish_write_source`.
    WriteSource { name: String, url: String, topic: String },
    /// Write every saved article into the export file, then call
    /// `finish_export`.
    Export,
}

/// The text content of a `Command`.
pub enum CommandView {
    Nothing,
    Quit,
    LoadTopic(Seq<char>),
    LoadSaved,
    ReloadTopic(Seq<char>),
    Refresh(Seq<char>),
    Open { id: i64, url: Seq<char> },
    MarkRead(i64),
    MarkSkipped(i64),
    Save { id: i64, note: Option<Seq<char>>, saved_at: i64 },
    Unsave(i64),
    UpdateNote { id: i64, note: Option<Seq<char>>, noted_at: Option<i64> },
    FetchFeed(Seq<char>),
    WriteSource { name: Seq<char>, url: Seq<char>, topic: Seq<char> },
    Export,
}

impl View for Command {
    type V = CommandView;

    open spec fn view(&self) -> CommandView {
        match self {
            Command::Nothing => CommandView::Nothing,
            Command::Quit => CommandView::Quit,
            Command::LoadTopic { topic } => CommandView::LoadTopic(topic@),
            Command::LoadSaved => CommandView::LoadSaved,
            Command::ReloadTopic { topic } => CommandView::ReloadTopic(topic@),
            Command::Refresh { topic } => CommandView::Refresh(topic@),
            Command::Open { id, url } => CommandView::Open { id: *id, url: url@ },
            Command::MarkRead { id } => CommandView::MarkRead(*id),
            Command::MarkSkipped { id } => CommandView::MarkSkipped(*id),
            Command::Save { id, note, saved_at } => CommandView::Save {
                id: *id,
                note: opt_string(*note),
                saved_at: *saved_at,
            },
            Command::Unsave { id } => CommandView::Unsave(*id),
            Command::UpdateNote { id, note, noted_at } => CommandView::UpdateNote {
                id: *id,
                note: opt_string(*note),
                noted_at: *noted_at,
            },
            Command::FetchFeed { url } => CommandView::FetchFeed(url@),
            Command::WriteSource { name, url, topic } => CommandView::WriteSource {
                name: name@,
                url: url@,
                topic: topic@,
            },
            Command::Export => CommandView::Export,
        }
    }
}

/// The browsing state: the topic sidebar, the article list and its
/// selection, the open popup and the main view.
pub struct UiState {
    pub topics: Vec<String>,
    pub topic_index: usize,
    pub article_index: usize,
    pub articles: Vec<Article>,
    pub mode: Mode,
    pub view: ListView,
}

/// `s` without its last character, if it has one.
pub open spec fn popped(s: Seq<char>) -> Seq<char> {
    if s.len() > 0 {
        s.drop_last()
    } else {
        s
    }
}

/// The smaller of two integers.
pub open spec fn min_int(a: int, b: int) -> int {
    if a <= b {
        a
    } else {
        b
    }
}

/// The message shown when an article could be opened neither in `w3m` nor
/// in a browser.
pub open spec fn open_failed_text() -> Seq<char> {
    "could not open article -- w3m isn't installed, and no browser could be launched via $BROWSER or xdg-open."@
}

/// The message shown under the URL when the feed could not be fetched or
/// parsed; `detail` is the failure's own description.
pub open spec fn feed_failed_text(detail: Seq<char>) -> Seq<char> {
    "couldn't parse this as a feed -- check the URL ("@ + detail + ")"@
}

/// The confirmation shown after the export was written to `path`.
pub open spec fn exported_text(path: Seq<char>) -> Seq<char> {
    "exported saved articles to "@ + path
}

/// The message shown when the export could not be written.
pub open spec fn export_failed_text(detail: Seq<char>) -> Seq<char> {
    "export failed: "@ + detail
}

/// The message shown on the confirm screen when writing the source failed.
pub open spec fn write_failed_text(detail: Seq<char>) -> Seq<char> {
    "failed to save source: "@ + detail
}

/// The other field of the confirm screen.
pub open spec fn other_field(f: ConfirmField) -> ConfirmField {
    match f {
        ConfirmField::Name => ConfirmField::Topic,
        ConfirmField::Topic => ConfirmField::Name,
    }
}

impl UiState {
    /// The selections point into their lists (or are `0` for an empty list).
    pub open spec fn wf(&self) -> bool {
        &&& (self.topics@.len() == 0 ==> self.topic_index == 0)
        &&& (self.topics@.len() > 0 ==> self.topic_index < self.topics@.len())
        &&& (self.articles@.len() == 0 ==> self.article_index == 0)
        &&& (self.articles@.len() > 0 ==> self.article_index < self.articles@.len())
    }

    /// An article is selected.
    pub open spec fn has_article(&self) -> bool {
        self.article_index < self.articles@.len()
    }

    /// The selected article.
    pub open spec fn current(&self) -> Article {
        self.articles@[self.article_index as int]
    }

    /// The text of the selected topic, if there is one.
    pub open spec fn selected_topic_text(&self) -> Option<Seq<char>> {
        if self.topic_index < self.topics@.len() {
            Some(self.topics@[self.topic_index as int]@)
        } else {
            None
        }
    }

    /// `Tab` or `Esc` in the saved view: back to the topic view, reloading
    /// the selected topic when there is one.
    pub open spec fn back_to_topics(self, t: UiState, c: CommandView) -> bool {
        if self.topic_index < self.topics@.len() {
            t == UiState { view: ListView::Topic, ..self } && c == CommandView::LoadTopic(
                self.topics@[self.topic_index as int]@,
            )
        } else {
            t == UiState { view: ListView::Topic, article_index: 0, ..self } && c
                == CommandView::Nothing
        }
    }

    /// A key in the ordinary browsing mode.
    pub open spec fn normal_step(self, k: Key, now: i64, t: UiState, c: CommandView) -> bool {
        let n = self.articles@.len();
        let tn = self.topics@.len();
        let i = self.article_index as int;
        let ti = self.topic_index as int;
        if k == Key::Char('q') {
            c == CommandView::Quit && t == self
        } else if k == Key::Char('j') && n > 0 {
            c == CommandView::Nothing && t == UiState {
                article_index: min_int(i + 1, n - 1) as usize,
                ..self
            }
        } else if k == Key::Char('k') && n > 0 {
            c == CommandView::Nothing && t == UiState {
                article_index: (if i > 0 {
                    i - 1
                } else {
                    0
                }) as usize,
                ..self
            }
        } else if k == Key::Up && self.view == ListView::Topic && tn > 0 {
            let nti = if ti > 0 {
                ti - 1
            } else {
                0
            };
            t == UiState { topic_index: nti as usize, ..self } && c == CommandView::LoadTopic(
                self.topics@[nti]@,
            )
        } else if k == Key::Down && self.view == ListView::Topic && tn > 0 {
            let nti = min_int(ti + 1, tn - 1);
            t == UiState { topic_index: nti as usize, ..self } && c == CommandView::LoadTopic(
                self.topics@[nti]@,
            )
        } else if k == Key::Tab {
            if self.view == ListView::Saved {
                self.back_to_topics(t, c)
            } else if tn > 0 {
                let nti = min_int(ti + 1, tn - 1);
                t == UiState { topic_index: nti as usize, ..self } && c == CommandView::LoadTopic(
                    self.topics@[nti]@,
                )
            } else {
                t == self && c == CommandView::Nothing
            }
        } else if k == Key::Esc && self.view == ListView::Saved {
            self.back_to_topics(t, c)
        } else if k == Key::Enter {
            t == self && if self.has_article() {
                c == CommandView::Open { id: self.current().id, url: self.current().url@ }
            } else {
                c == CommandView::Nothing
            }
        } else if k == Key::Char('x') {
            if self.has_article() {
                t == UiState {
                    articles: t.articles,
                    ..self
                } && t.articles@ == self.articles@.update(
                    i,
                    Article { skipped: true, ..self.current() },
                ) && c == CommandView::MarkSkipped(self.current().id)
            } else {
                t == self && c == CommandView::Nothing
            }
        } else if k == Key::Char('s') {
            if self.has_article() && self.current().saved {
                t == UiState {
                    articles: t.articles,
                    ..self
                } && t.articles@ == self.articles@.update(
                    i,
                    Article { saved: false, saved_at: None, ..self.current() },
                ) && c == CommandView::Unsave(self.current().id)
            } else if self.has_article() {
                t == UiState {
                    articles: t.articles,
                    ..self
                } && t.articles@ == self.articles@.update(
                    i,
                    Article { saved: true, read: true, saved_at: Some(now), ..self.current() },
                ) && c == CommandView::Save {
                    id: self.current().id,
                    note: opt_string(self.current().note),
                    saved_at: now,
                }
            } else {
                t == self && c == CommandView::Nothing
            }
        } else if k == Key::Char('n') {
            c == CommandView::Nothing && if self.has_article() {
                t == UiState { mode: t.mode, ..self } && t.mode@ == ModeView::EditingNote {
                    text: match self.current().note {
                        Some(s) => s@,
                        None => Seq::empty(),
                    },
                }
            } else {
                t == self
            }
        } else if k == Key::Char('r') && self.view == ListView::Topic && tn > 0 {
            t == self && c == CommandView::Refresh(self.topics@[ti]@)
        } else if k == Key::Char('S') {
            if self.view == ListView::Topic {
                t == UiState { view: ListView::Saved, ..self } && c == CommandView::LoadSaved
            } else if ti < tn {
                t == UiState { view: ListView::Topic, ..self } && c == CommandView::LoadTopic(
                    self.topics@[ti]@,
                )
            } else {
                t == UiState {
                    view: ListView::Topic,
                    articles: t.articles,
                    article_index: 0,
                    ..self
                } && t.articles@.len() == 0 && c == CommandView::Nothing
            }
        } else if k == Key::Char('a') {
            c == CommandView::Nothing && t == UiState { mode: t.mode, ..self } && t.mode@
                == ModeView::Url { text: Seq::empty(), error: None }
        } else if k == Key::Char('E') && self.view == ListView::Saved {
            t == self && c == CommandView::Export
        } else {
            t == self && c == CommandView::Nothing
        }
    }

    /// A key while the note popup is open; `text` is its buffer.
    pub open spec fn note_step(self, text: String, k: Key, now: i64, t: UiState, c: CommandView) -> bool {
        if k == Key::Enter {
            if self.has_article() {
                let note = if text@.len() == 0 {
                    None
                } else {
                    Some(text)
                };
                let noted_at = if text@.len() == 0 {
                    None
                } else {
                    Some(now)
                };
                &&& t == UiState { mode: t.mode, articles: t.articles, ..self }
                &&& t.mode@ == ModeView::Normal
                &&& t.articles@ == self.articles@.update(
                    self.article_index as int,
                    Article { note, noted_at, ..self.current() },
                )
                &&& c == CommandView::UpdateNote {
                    id: self.current().id,
                    note: opt_string(note),
                    noted_at,
                }
            } else {
                t == UiState { mode: t.mode, ..self } && t.mode@ == ModeView::Normal && c
                    == CommandView::Nothing
            }
        } else {
            &&& c == CommandView::Nothing
            &&& t == UiState { mode: t.mode, ..self }
            &&& t.mode@ == if k == Key::Esc {
                ModeView::Normal
            } else if k == Key::Backspace {
                ModeView::EditingNote { text: popped(text@) }
            } else if let Key::Char(ch) = k {
                ModeView::EditingNote { text: text@.push(ch) }
            } else {
                self.mode@
            }
        }
    }

    /// The add-source popup closes: the mode returns to browsing and the
    /// topic that was selected (`prev`) is found again by name in the
    /// (possibly grown) topic list. In the topic view that topic's articles
    /// are reloaded; the saved view keeps its list as it is.
    pub open spec fn closes(self, prev: Option<Seq<char>>, t: UiState, c: CommandView) -> bool {
        let ti = match prev {
            Some(p) => match index_of(texts(self.topics@), p) {
                Some(i) => i,
                None => 0,
            },
            None => 0,
        };
        &&& t.mode@ == ModeView::Normal
        &&& t.topics == self.topics
        &&& t.view == self.view
        &&& t.topic_index == ti
        &&& if self.view == ListView::Saved {
            t.articles == self.articles && t.article_index == self.article_index && c
                == CommandView::Nothing
        } else if ti < self.topics@.len() {
            t.articles == self.articles && t.article_index == self.article_index && c
                == CommandView::ReloadTopic(self.topics@[ti]@)
        } else {
            t.articles@.len() == 0 && t.article_index == 0 && c == CommandView::Nothing
        }
    }

    /// A key on the add-source popup's URL step.
    pub open spec fn url_step(
        self,
        text: Seq<char>,
        error: Option<Seq<char>>,
        k: Key,
        t: UiState,
        c: CommandView,
    ) -> bool {
        if k == Key::Esc {
            self.closes(self.selected_topic_text(), t, c)
        } else if k == Key::Enter && trimmed(text).len() > 0 {
            t == self && c == CommandView::FetchFeed(trimmed(text))
        } else {
            &&& c == CommandView::Nothing
            &&& t == UiState { mode: t.mode, ..self }
            &&& t.mode@ == if k == Key::Enter {
                ModeView::Url { text, error: Some("enter a feed URL first"@) }
            } else if k == Key::Backspace {
                ModeView::Url { text: popped(text), error }
            } else if let Key::Char(ch) = k {
                ModeView::Url { text: text.push(ch), error }
            } else {
                self.mode@
            }
        }
    }

    /// A key on the add-source popup's confirm step.
    pub open spec fn confirm_step(
        self,
        url: Seq<char>,
        name: Seq<char>,
        topic: Seq<char>,
        field: ConfirmField,
        options: Seq<Seq<char>>,
        k: Key,
        t: UiState,
        c: CommandView,
    ) -> bool {
        let edit = |nm: Seq<char>, tp: Seq<char>, f: ConfirmField, e: Option<Seq<char>>|
            ModeView::Confirm { url, name: nm, topic: tp, field: f, options, error: e };
        if k == Key::Esc {
            self.closes(self.selected_topic_text(), t, c)
        } else if k == Key::Enter && trimmed(name).len() > 0 && trimmed(topic).len() > 0 {
            t == self && c == CommandView::WriteSource {
                name: trimmed(name),
                url,
                topic: trimmed(topic),
            }
        } else {
            &&& c == CommandView::Nothing
            &&& t == UiState { mode: t.mode, ..self }
            &&& t.mode@ == if k == Key::Enter {
                if trimmed(name).len() == 0 {
                    edit(name, topic, field, Some("name can't be empty"@))
                } else {
                    edit(name, topic, field, Some("every source needs a topic"@))
                }
            } else if k == Key::Tab {
                edit(name, topic, other_field(field), None)
            } else if k == Key::Up && field == ConfirmField::Topic && options.len() > 0 {
                edit(name, cycled(options, topic, -1), field, None)
            } else if k == Key::Down && field == ConfirmField::Topic && options.len() > 0 {
                edit(name, cycled(options, topic, 1), field, None)
            } else if k == Key::Backspace {
                if field == ConfirmField::Name {
                    edit(popped(name), topic, field, None)
                } else {
                    edit(name, popped(topic), field, None)
                }
            } else if let Key::Char(ch) = k {
                if field == ConfirmField::Name {
                    edit(name.push(ch), topic, field, None)
                } else {
                    edit(name, topic.push(ch), field, None)
                }
            } else {
                self.mode@
            }
        }
    }

    /// What `k` does in state `self`, leading to `t` with command `c`.
    pub open spec fn key_step(self, k: Key, now: i64, t: UiState, c: CommandView) -> bool {
        match self.mode {
            Mode::Normal => self.normal_step(k, now, t, c),
            Mode::EditingNote { text } => self.note_step(text, k, now, t, c),
            Mode::Error { .. } | Mode::Notice { .. } => t == UiState { mode: t.mode, ..self }
                && t.mode@ == ModeView::Normal && c == CommandView::Nothing,
            Mode::AddSource(_) => match self.mode@ {
                ModeView::Url { text, error } => self.url_step(text, error, k, t, c),
                ModeView::Confirm { url, name, topic, field, options, .. } => self.confirm_step(
                    url,
                    name,
                    topic,
                    field,
                    options,
                    k,
                    t,
                    c,
                ),
                _ => false,
            },
        }
    }
}

/// The footer's key hints for what is on screen: the open popup's keys,
/// or the view's own when no popup is open.
pub open spec fn footer_text(mode: ModeView, view: ListView) -> Seq<char> {
    match mode {
        ModeView::EditingNote { .. } => "Enter save note · Esc cancel"@,
        ModeView::Url { .. } => "Enter fetch & validate · Esc cancel"@,
        ModeView::Confirm { .. } => "Tab switch field · ↑/↓ pick existing topic · Enter save · Esc cancel"@,
        ModeView::Error { .. } | ModeView::Notice { .. } => "any key to dismiss"@,
        ModeView::Normal => match view {
            ListView::Topic => "j/k move · ↑/↓/Tab topic · Enter open · q quit"@,
            ListView::Saved => "j/k move · Enter open · E export · Esc/Tab back · q quit"@,
        },
    }
}

/// The footer's key hints (see `footer_text`).
pub fn footer_hints(mode: &Mode, view: ListView) -> (res: &'static str)
    ensures
        res@ == footer_text(mode@, view),
{
    match mode {
        Mode::EditingNote { .. } => "Enter save note · Esc cancel",
        Mode::AddSource(AddSourceStep::Url { .. }) => "Enter fetch & validate · Esc cancel",
        Mode::AddSource(AddSourceStep::Confirm { .. }) => "Tab switch field · ↑/↓ pick existing topic · Enter save · Esc cancel",
        Mode::Error { .. } => "any key to dismiss",
        Mode::Notice { .. } => "any key to dismiss",
        Mode::Normal => match view {
            ListView::Topic => "j/k move · ↑/↓/Tab topic · Enter open · q quit",
            ListView::Saved => "j/k move · Enter open · E export · Esc/Tab back · q quit",
        },
    }
}

/// Where a popup is drawn: its width as a percentage of the area it is
/// centred in, its height in rows (borders included), and where the text
/// cursor goes, as a column and row counted from the popup's top-left
/// corner.
#[derive(Clone, Copy, Debug, PartialEq, Eq)]
pub struct PopupLayout {
    pub width_percent: u16,
    pub height: u16,
    pub cursor: Option<(u16, u16)>,
}

/// `n` as a terminal coordinate, held at the largest one for longer texts.
pub open spec fn clip_u16(n: int) -> u16 {
    if n > 0xFFFF {
        0xFFFF
    } else {
        n as u16
    }
}

/// The popup for what is on screen, if any: the note and message popups
/// are 60% wide and 5 rows high; the add-source popup is 70% wide, 3 rows
/// for the URL (4 with an error) and 6 for the confirm screen (7 with an
/// error). The cursor sits just after the text being typed, inside the
/// border; on the confirm screen the labels take 7 columns and the name
/// and topic are on rows 2 and 3.
pub open spec fn popup_layout_of(mode: ModeView) -> Option<PopupLayout> {
    match mode {
        ModeView::Normal => None,
        ModeView::EditingNote { text } => Some(
            PopupLayout { width_percent: 60, height: 5, cursor: Some((clip_u16(1 + text.len() as int), 1)) },
        ),
        ModeView::Error { .. } | ModeView::Notice { .. } => Some(
            PopupLayout { width_percent: 60, height: 5, cursor: None },
        ),
        ModeView::Url { text, error } => Some(
            PopupLayout {
                width_percent: 70,
                height: if error is Some {
                    4
                } else {
                    3
                },
                cursor: Some((clip_u16(1 + text.len() as int), 1)),
            },
        ),
        ModeView::Confirm { name, topic, field, error, .. } => Some(
            PopupLayout {
                width_percent: 70,
                height: if error is Some {
                    7
                } else {
                    6
                },
                cursor: Some(
                    match field {
                        ConfirmField::Name => (clip_u16(8 + name.len() as int), 2),
                        ConfirmField::Topic => (clip_u16(8 + topic.len() as int), 3),
                    },
                ),
            },
        ),
    }
}

/// `offset` plus the number of characters of `text`, as a coordinate
/// (see `clip_u16`).
fn column_after(offset: u16, text: &str) -> (res: u16)
    ensures
        res == clip_u16(offset + text@.len()),
{
    let n = crate::text::chars_of(text).len();
    if n > 0xFFFF - (offset as usize) {
        0xFFFF
    } else {
        offset + (n as u16)
    }
}

/// Where the popup for `mode` goes (see `popup_layout_of`).
pub fn popup_layout(mode: &Mode) -> (res: Option<PopupLayout>)
    ensures
        res == popup_layout_of(mode@),
{
    match mode {
        Mode::Normal => None,
        Mode::EditingNote { text } => Some(
            PopupLayout { width_percent: 60, height: 5, cursor: Some((column_after(1, text.as_str()), 1)) },
        ),
        Mode::Error { .. } => Some(PopupLayout { width_percent: 60, height: 5, cursor: None }),
        Mode::Notice { .. } => Some(PopupLayout { width_percent: 60, height: 5, cursor: None }),
        Mode::AddSource(AddSourceStep::Url { text, error }) => Some(
            PopupLayout {
                width_percent: 70,
                height: if error.is_some() {
                    4
                } else {
                    3
                },
                cursor: Some((column_after(1, text.as_str()), 1)),
            },
        ),
        Mode::AddSource(AddSourceStep::Confirm { name, topic, field, error, .. }) => Some(
            PopupLayout {
                width_percent: 70,
                height: if error.is_some() {
                    7
                } else {
                    6
                },
                cursor: Some(
                    match field {
                        ConfirmField::Name => (column_after(8, name.as_str()), 2),
                        ConfirmField::Topic => (column_after(8, topic.as_str()), 3),
                    },
                ),
            },
        ),
    }
}

/// A copy of an optional string.
pub fn clone_text(o: &Option<String>) -> (res: Option<String>)
    ensures
        opt_string(res) == opt_string(*o),
{
    match o {
        Some(s) => Some(s.clone()),
        None => None,
    }
}

impl UiState {
    /// The state the UI starts in: the first topic selected, showing
    /// `articles` (that topic's articles), no popup, the topic view.
    pub fn new(topics: Vec<String>, articles: Vec<Article>) -> (res: UiState)
        ensures
            res.wf(),
            res.topics == topics,
            res.articles == articles,
            res.topic_index == 0,
            res.article_index == 0,
            res.mode@ == ModeView::Normal,
            res.view == ListView::Topic,
    {
        UiState { topics, topic_index: 0, article_index: 0, articles, mode: Mode::Normal, view: ListView::Topic }
    }

    /// The selected topic, if any.
    pub fn selected_topic(&self) -> (res: Option<&str>)
        ensures
            match res {
                Some(t) => self.selected_topic_text() == Some(t@),
                None => self.selected_topic_text() is None,
            },
    {
        if self.topic_index < self.topics.len() {
            Some(self.topics[self.topic_index].as_str())
        } else {
            None
        }
    }

    /// The selected row of the article list, if the list is not empty.
    pub fn selected_article(&self) -> (res: Option<usize>)
        ensures
            res == if self.articles@.len() == 0 {
                None
            } else {
                Some(self.article_index)
            },
    {
        if self.articles.len() == 0 {
            None
        } else {
            Some(self.article_index)
        }
    }

    /// Shows `articles`, selecting the first one (after a topic switch or
    /// a view toggle).
    pub fn show_articles(&mut self, articles: Vec<Article>)
        requires
            old(self).wf(),
        ensures
            final(self).wf(),
            *final(self) == (UiState { articles, article_index: 0, ..*old(self) }),
    {
        self.articles = articles;
        self.article_index = 0;
    }

    /// Shows `articles`, keeping the selected row where it was as far as
    /// the new list allows (after a refresh or a reload).
    pub fn show_articles_keeping_position(&mut self, articles: Vec<Article>)
        requires
            old(self).wf(),
        ensures
            final(self).wf(),
            *final(self) == (UiState {
                articles,
                article_index: min_int(
                    old(self).article_index as int,
                    if articles@.len() > 0 {
                        articles@.len() - 1
                    } else {
                        0
                    },
                ) as usize,
                ..*old(self)
            }),
    {
        let n = articles.len();
        self.articles = articles;
        let last = if n > 0 {
            n - 1
        } else {
            0
        };
        if self.article_index > last {
            self.article_index = last;
        }
    }

    /// Reports whether the selected article could be opened: if so it is
    /// marked read (and must be marked read in storage); if not, the error
    /// popup says that nothing could open it.
    pub fn finish_open(&mut self, opened: bool) -> (cmd: Command)
        requires
            old(self).wf(),
        ensures
            final(self).wf(),
            if !old(self).has_article() {
                *final(self) == *old(self) && cmd@ == CommandView::Nothing
            } else if opened {
                &&& *final(self) == (UiState { articles: final(self).articles, ..*old(self) })
                &&& final(self).articles@ == old(self).articles@.update(
                    old(self).article_index as int,
                    Article { read: true, ..old(self).current() },
                )
                &&& cmd@ == CommandView::MarkRead(old(self).current().id)
            } else {
                &&& *final(self) == (UiState { mode: final(self).mode, ..*old(self) })
                &&& final(self).mode@ == ModeView::Error { message: open_failed_text() }
                &&& cmd@ == CommandView::Nothing
            },
    {
        let i = self.article_index;
        if i >= self.articles.len() {
            return Command::Nothing;
        }
        if opened {
            self.articles[i].read = true;
            Command::MarkRead { id: self.articles[i].id }
        } else {
            self.mode = Mode::Error {
                message: "could not open article -- w3m isn't installed, and no browser could be launched via $BROWSER or xdg-open.".to_owned(),
            };
            Command::Nothing
        }
    }

    /// Closes the add-source popup (see `closes`); `prev` is the topic that
    /// was selected when it opened.
    fn close_add_source(&mut self, prev: Option<String>) -> (cmd: Command)
        requires
            old(self).topics@.len() == 0 ==> old(self).topic_index == 0,
            old(self).articles@.len() == 0 ==> old(self).article_index == 0,
            old(self).articles@.len() > 0 ==> old(self).article_index < old(self).articles@.len(),
        ensures
            final(self).wf(),
            old(self).closes(opt_string(prev), *final(self), cmd@),
    {
        proof {
            if prev is Some {
                lemma_index_of(texts(self.topics@), prev->0@);
            }
        }
        let ti = match &prev {
            Some(p) => match find_text(&self.topics, p.as_str()) {
                Some(i) => i,
                None => 0,
            },
            None => 0,
        };
        self.mode = Mode::Normal;
        self.topic_index = ti;
        if self.view == ListView::Saved {
            Command::Nothing
        } else if ti < self.topics.len() {
            Command::ReloadTopic { topic: self.topics[ti].clone() }
        } else {
            self.articles = Vec::new();
            self.article_index = 0;
            Command::Nothing
        }
    }

    /// A key in the ordinary browsing mode (see `normal_step`).
    fn normal_key(&mut self, key: Key, now: i64) -> (cmd: Command)
        requires
            old(self).wf(),
            old(self).mode is Normal,
        ensures
            final(self).wf(),
            old(self).normal_step(key, now, *final(self), cmd@),
    {
        let n = self.articles.len();
        let tn = self.topics.len();
        let i = self.article_index;
        let ti = self.topic_index;
        match key {
            Key::Char('q') => Command::Quit,
            Key::Char('j') if n > 0 => {
                self.article_index = if i + 1 < n - 1 {
                    i + 1
                } else {
                    n - 1
                };
                Command::Nothing
            },
            Key::Char('k') if n > 0 => {
                self.article_index = if i > 0 {
                    i - 1
                } else {
                    0
                };
                Command::Nothing
            },
            Key::Up if self.view == ListView::Topic && tn > 0 => {
                self.topic_index = if ti > 0 {
                    ti - 1
                } else {
                    0
                };
                Command::LoadTopic { topic: self.topics[self.topic_index].clone() }
            },
            Key::Down if self.view == ListView::Topic && tn > 0 => {
                self.topic_index = if ti + 1 < tn - 1 {
                    ti + 1
                } else {
                    tn - 1
                };
                Command::LoadTopic { topic: self.topics[self.topic_index].clone() }
            },
            Key::Tab => {
                if self.view == ListView::Saved {
                    self.back_to_topic_view()
                } else if tn > 0 {
                    self.topic_index = if ti + 1 < tn - 1 {
                        ti + 1
                    } else {
                        tn - 1
                    };
                    Command::LoadTopic { topic: self.topics[self.topic_index].clone() }
                } else {
                    Command::Nothing
                }
            },
            Key::Esc if self.view == ListView::Saved => self.back_to_topic_view(),
            Key::Enter => {
                if i < n {
                    Command::Open { id: self.articles[i].id, url: self.articles[i].url.clone() }
                } else {
                    Command::Nothing
                }
            },
            Key::Char('x') => {
                if i < n {
                    self.articles[i].skipped = true;
                    Command::MarkSkipped { id: self.articles[i].id }
                } else {
                    Command::Nothing
                }
            },
            Key::Char('s') => {
                if i < n && self.articles[i].saved {
                    let ghost before = self.articles@;
                    self.articles[i].saved = false;
                    self.articles[i].saved_at = None;
                    assert(self.articles@ =~= before.update(
                        i as int,
                        Article { saved: false, saved_at: None, ..before[i as int] },
                    ));
                    Command::Unsave { id: self.articles[i].id }
                } else if i < n {
                    let ghost before = self.articles@;
                    self.articles[i].saved = true;
                    self.articles[i].read = true;
                    self.articles[i].saved_at = Some(now);
                    assert(self.articles@ =~= before.update(
                        i as int,
                        Article { saved: true, read: true, saved_at: Some(now), ..before[i as int] },
                    ));
                    let note = clone_text(&self.articles[i].note);
                    Command::Save { id: self.articles[i].id, note, saved_at: now }
                } else {
                    Command::Nothing
                }
            },
            Key::Char('n') => {
                if i < n {
                    let text = match &self.articles[i].note {
                        Some(s) => s.clone(),
                        None => String::new(),
                    };
                    self.mode = Mode::EditingNote { text };
                }
                Command::Nothing
            },
            Key::Char('r') if self.view == ListView::Topic && tn > 0 => {
                Command::Refresh { topic: self.topics[ti].clone() }
            },
            Key::Char('S') => {
                if self.view == ListView::Topic {
                    self.view = ListView::Saved;
                    Command::LoadSaved
                } else if ti < tn {
                    self.view = ListView::Topic;
                    Command::LoadTopic { topic: self.topics[ti].clone() }
                } else {
                    self.view = ListView::Topic;
                    self.articles = Vec::new();
                    self.article_index = 0;
                    Command::Nothing
                }
            },
            Key::Char('a') => {
                self.mode = Mode::AddSource(AddSourceStep::Url { text: String::new(), error: None });
                Command::Nothing
            },
            Key::Char('E') => {
                if self.view == ListView::Saved {
                    Command::Export
                } else {
                    Command::Nothing
                }
            },
            _ => Command::Nothing,
        }
    }

    /// `Tab` or `Esc` in the saved view (see `back_to_topics`).
    fn back_to_topic_view(&mut self) -> (cmd: Command)
        requires
            old(self).wf(),
        ensures
            final(self).wf(),
            old(self).back_to_topics(*final(self), cmd@),
    {
        self.view = ListView::Topic;
        if self.topic_index < self.topics.len() {
            Command::LoadTopic { topic: self.topics[self.topic_index].clone() }
        } else {
            self.article_index = 0;
            Command::Nothing
        }
    }
}

/// A copy of a list of strings.
pub fn copy_texts(v: &Vec<String>) -> (res: Vec<String>)
    ensures
        texts(res@) == texts(v@),
{
    let mut out: Vec<String> = Vec::new();
    let mut i: usize = 0;
    while i < v.len()
        invariant
            i <= v@.len(),
            out@.len() == i,
            forall|k: int| 0 <= k < i ==> (#[trigger] out@[k])@ == v@[k]@,
        decreases v.len() - i,
    {
        out.push(v[i].clone());
        i += 1;
    }
    assert(texts(out@) =~= texts(v@));
    out
}

impl UiState {
    /// The selected topic's name, copied.
    fn selected_topic_copy(&self) -> (res: Option<String>)
        ensures
            opt_string(res) == self.selected_topic_text(),
    {
        if self.topic_index < self.topics.len() {
            Some(self.topics[self.topic_index].clone())
        } else {
            None
        }
    }

    /// A key while the note popup is open (see `note_step`).
    fn note_key(&mut self, key: Key, now: i64) -> (cmd: Command)
        requires
            old(self).wf(),
            old(self).mode is EditingNote,
        ensures
            final(self).wf(),
            match old(self).mode {
                Mode::EditingNote { text } => old(self).note_step(text, key, now, *final(self), cmd@),
                _ => false,
            },
    {
        let mut m = Mode::Normal;
        std::mem::swap(&mut m, &mut self.mode);
        let mut text = match m {
            Mode::EditingNote { text } => text,
            _ => {
                self.mode = m;
                return Command::Nothing;
            },
        };
        match key {
            Key::Enter => {
                let i = self.article_index;
                if i < self.articles.len() {
                    let empty = text.as_str().is_empty();
                    let note = if empty {
                        None
                    } else {
                        Some(text)
                    };
                    let noted_at = if empty {
                        None
                    } else {
                        Some(now)
                    };
                    let sent = clone_text(&note);
                    let ghost before = self.articles@;
                    self.articles[i].note = note;
                    self.articles[i].noted_at = noted_at;
                    assert(self.articles@ =~= before.update(
                        i as int,
                        Article { note: note, noted_at: noted_at, ..before[i as int] },
                    ));
                    self.mode = Mode::Normal;
                    Command::UpdateNote { id: self.articles[i].id, note: sent, noted_at }
                } else {
                    Command::Nothing
                }
            },
            Key::Esc => Command::Nothing,
            Key::Backspace => {
                pop_char(&mut text);
                self.mode = Mode::EditingNote { text };
                Command::Nothing
            },
            Key::Char(c) => {
                push_char(&mut text, c);
                self.mode = Mode::EditingNote { text };
                Command::Nothing
            },
            _ => {
                self.mode = Mode::EditingNote { text };
                Command::Nothing
            },
        }
    }

    /// A key on the add-source popup (see `url_step`, `confirm_step`).
    fn add_source_key(&mut self, key: Key) -> (cmd: Command)
        requires
            old(self).wf(),
            old(self).mode is AddSource,
        ensures
            final(self).wf(),
            match old(self).mode@ {
                ModeView::Url { text, error } => old(self).url_step(text, error, key, *final(self), cmd@),
                ModeView::Confirm { url, name, topic, field, options, .. } => old(self).confirm_step(
                    url,
                    name,
                    topic,
                    field,
                    options,
                    key,
                    *final(self),
                    cmd@,
                ),
                _ => false,
            },
    {
        let prev = self.selected_topic_copy();
        let mut m = Mode::Normal;
        std::mem::swap(&mut m, &mut self.mode);
        let step = match m {
            Mode::AddSource(step) => step,
            _ => {
                self.mode = m;
                return Command::Nothing;
            },
        };
        match step {
            AddSourceStep::Url { mut text, error } => match key {
                Key::Esc => self.close_add_source(prev),
                Key::Backspace => {
                    pop_char(&mut text);
                    self.mode = Mode::AddSource(AddSourceStep::Url { text, error });
                    Command::Nothing
                },
                Key::Char(c) => {
                    push_char(&mut text, c);
                    self.mode = Mode::AddSource(AddSourceStep::Url { text, error });
                    Command::Nothing
                },
                Key::Enter => {
                    let url = trim(text.as_str());
                    if url.as_str().is_empty() {
                        self.mode = Mode::AddSource(
                            AddSourceStep::Url {
                                text,
                                error: Some("enter a feed URL first".to_owned()),
                            },
                        );
                        Command::Nothing
                    } else {
                        self.mode = Mode::AddSource(AddSourceStep::Url { text, error });
                        Command::FetchFeed { url }
                    }
                },
                _ => {
                    self.mode = Mode::AddSource(AddSourceStep::Url { text, error });
                    Command::Nothing
                },
            },
            AddSourceStep::Confirm { url, mut name, mut topic, mut field, topic_options, error } => {
                match key {
                    Key::Esc => self.close_add_source(prev),
                    Key::Tab => {
                        field = match field {
                            ConfirmField::Name => ConfirmField::Topic,
                            ConfirmField::Topic => ConfirmField::Name,
                        };
                        self.mode = Mode::AddSource(
                            AddSourceStep::Confirm { url, name, topic, field, topic_options, error: None },
                        );
                        Command::Nothing
                    },
                    Key::Up if field == ConfirmField::Topic && topic_options.len() > 0 => {
                        topic = cycle_topic(&topic_options, topic.as_str(), -1);
                        self.mode = Mode::AddSource(
                            AddSourceStep::Confirm { url, name, topic, field, topic_options, error: None },
                        );
                        Command::Nothing
                    },
                    Key::Down if field == ConfirmField::Topic && topic_options.len() > 0 => {
                        topic = cycle_topic(&topic_options, topic.as_str(), 1);
                        self.mode = Mode::AddSource(
                            AddSourceStep::Confirm { url, name, topic, field, topic_options, error: None },
                        );
                        Command::Nothing
                    },
                    Key::Backspace => {
                        match field {
                            ConfirmField::Name => pop_char(&mut name),
                            ConfirmField::Topic => pop_char(&mut topic),
                        }
                        self.mode = Mode::AddSource(
                            AddSourceStep::Confirm { url, name, topic, field, topic_options, error: None },
                        );
                        Command::Nothing
                    },
                    Key::Char(c) => {
                        match field {
                            ConfirmField::Name => push_char(&mut name, c),
                            ConfirmField::Topic => push_char(&mut topic, c),
                        }
                        self.mode = Mode::AddSource(
                            AddSourceStep::Confirm { url, name, topic, field, topic_options, error: None },
                        );
                        Command::Nothing
                    },
                    Key::Enter => {
                        let trimmed_name = trim(name.as_str());
                        let trimmed_topic = trim(topic.as_str());
                        if trimmed_name.as_str().is_empty() {
                            self.mode = Mode::AddSource(
                                AddSourceStep::Confirm {
                                    url,
                                    name,
                                    topic,
                                    field,
                                    topic_options,
                                    error: Some("name can't be empty".to_owned()),
                                },
                            );
                            Command::Nothing
                        } else if trimmed_topic.as_str().is_empty() {
                            self.mode = Mode::AddSource(
                                AddSourceStep::Confirm {
                                    url,
                                    name,
                                    topic,
                                    field,
                                    topic_options,
                                    error: Some("every source needs a topic".to_owned()),
                                },
                            );
                            Command::Nothing
                        } else {
                            let target = url.clone();
                            self.mode = Mode::AddSource(
                                AddSourceStep::Confirm { url, name, topic, field, topic_options, error },
                            );
                            Command::WriteSource { name: trimmed_name, url: target, topic: trimmed_topic }
                        }
                    },
                    _ => {
                        self.mode = Mode::AddSource(
                            AddSourceStep::Confirm { url, name, topic, field, topic_options, error },
                        );
                        Command::Nothing
                    },
                }
            },
        }
    }

    /// What `key` does (see `key_step`).
    pub fn handle_key(&mut self, key: Key, now: i64) -> (cmd: Command)
        requires
            old(self).wf(),
        ensures
            final(self).wf(),
            old(self).key_step(key, now, *final(self), cmd@),
    {
        let kind: u8 = match &self.mode {
            Mode::Normal => 0,
            Mode::EditingNote { .. } => 1,
            Mode::AddSource(_) => 2,
            Mode::Error { .. } => 3,
            Mode::Notice { .. } => 3,
        };
        if kind == 0 {
            self.normal_key(key, now)
        } else if kind == 1 {
            self.note_key(key, now)
        } else if kind == 2 {
            self.add_source_key(key)
        } else {
            self.mode = Mode::Normal;
            Command::Nothing
        }
    }

    /// Reports the downloaded-and-parsed feed for the URL step (or why it
    /// failed): on success the confirm screen opens with a guessed name, an
    /// empty topic and the current topics to pick from.
    pub fn finish_feed_fetch(&mut self, fetched: Result<Feed, String>)
        requires
            old(self).wf(),
            old(self).mode@ is Url,
        ensures
            final(self).wf(),
            *final(self) == (UiState { mode: final(self).mode, ..*old(self) }),
            match old(self).mode@ {
                ModeView::Url { text, .. } => match fetched {
                    Ok(f) => final(self).mode@ == ModeView::Confirm {
                        url: trimmed(text),
                        name: guessed_name(f@.title, trimmed(text)),
                        topic: Seq::empty(),
                        field: ConfirmField::Name,
                        options: texts(old(self).topics@),
                        error: None,
                    },
                    Err(m) => final(self).mode@ == ModeView::Url {
                        text,
                        error: Some(feed_failed_text(m@)),
                    },
                },
                _ => false,
            },
    {
        let mut m = Mode::Normal;
        std::mem::swap(&mut m, &mut self.mode);
        let text = match m {
            Mode::AddSource(AddSourceStep::Url { text, .. }) => text,
            _ => {
                self.mode = m;
                return;
            },
        };
        match fetched {
            Ok(feed) => {
                let url = trim(text.as_str());
                let name = guess_source_name(&feed, url.as_str());
                let topic_options = copy_texts(&self.topics);
                self.mode = Mode::AddSource(
                    AddSourceStep::Confirm {
                        url,
                        name,
                        topic: String::new(),
                        field: ConfirmField::Name,
                        topic_options,
                        error: None,
                    },
                );
            },
            Err(detail) => {
                let mut message = String::new();
                append_str(&mut message, "couldn't parse this as a feed -- check the URL (");
                append_str(&mut message, detail.as_str());
                append_str(&mut message, ")");
                self.mode = Mode::AddSource(AddSourceStep::Url { text, error: Some(message) });
            },
        }
    }

    /// Reports the export: where the file was written, or why it could not
    /// be.
    pub fn finish_export(&mut self, written: Result<String, String>)
        requires
            old(self).wf(),
        ensures
            final(self).wf(),
            *final(self) == (UiState { mode: final(self).mode, ..*old(self) }),
            match written {
                Ok(path) => final(self).mode@ == ModeView::Notice { message: exported_text(path@) },
                Err(m) => final(self).mode@ == ModeView::Error { message: export_failed_text(m@) },
            },
    {
        let mut message = String::new();
        match written {
            Ok(path) => {
                append_str(&mut message, "exported saved articles to ");
                append_str(&mut message, path.as_str());
                self.mode = Mode::Notice { message };
            },
            Err(detail) => {
                append_str(&mut message, "export failed: ");
                append_str(&mut message, detail.as_str());
                self.mode = Mode::Error { message };
            },
        }
    }

    /// Reports whether the new source was written to `sources.toml`: on
    /// success a topic not seen before joins the (sorted) topic list and the
    /// popup closes; on failure the confirm screen shows why.
    pub fn finish_write_source(&mut self, written: Result<(), String>) -> (cmd: Command)
        requires
            old(self).wf(),
            old(self).mode@ is Confirm,
        ensures
            final(self).wf(),
            match old(self).mode@ {
                ModeView::Confirm { url, name, topic, field, options, .. } => match written {
                    Ok(_) => {
                        &&& texts(final(self).topics@).contains(trimmed(topic))
                        &&& sorted(texts(old(self).topics@)) ==> sorted(texts(final(self).topics@))
                        &&& if index_of(texts(old(self).topics@), trimmed(topic)) is Some {
                            final(self).topics == old(self).topics
                        } else {
                            &&& sorted(texts(final(self).topics@))
                            &&& texts(final(self).topics@).to_multiset() == texts(
                                old(self).topics@,
                            ).push(trimmed(topic)).to_multiset()
                        }
                        &&& (UiState { topics: final(self).topics, ..*old(self) }).closes(
                            old(self).selected_topic_text(),
                            *final(self),
                            cmd@,
                        )
                    },
                    Err(m) => {
                        &&& *final(self) == (UiState { mode: final(self).mode, ..*old(self) })
                        &&& final(self).mode@ == ModeView::Confirm {
                            url,
                            name,
                            topic,
                            field,
                            options,
                            error: Some(write_failed_text(m@)),
                        }
                        &&& cmd@ == CommandView::Nothing
                    },
                },
                _ => false,
            },
    {
        let prev = self.selected_topic_copy();
        let mut m = Mode::Normal;
        std::mem::swap(&mut m, &mut self.mode);
        let (url, name, topic, field, topic_options) = match m {
            Mode::AddSource(AddSourceStep::Confirm { url, name, topic, field, topic_options, .. }) => (
                url,
                name,
                topic,
                field,
                topic_options,
            ),
            _ => {
                self.mode = m;
                return Command::Nothing;
            },
        };
        match written {
            Ok(()) => {
                let new_topic = trim(topic.as_str());
                proof {
                    lemma_index_of(texts(self.topics@), new_topic@);
                }
                if find_text(&self.topics, new_topic.as_str()).is_none() {
                    let ghost before = self.topics@;
                    self.topics.push(new_topic);
                    assert(texts(self.topics@) =~= texts(before).push(trimmed(topic@)));
                    sort_texts(&mut self.topics);
                    proof {
                        vstd::seq_lib::to_multiset_len(texts(self.topics@));
                        vstd::seq_lib::to_multiset_len(texts(before).push(trimmed(topic@)));
                        let grown = texts(before).push(trimmed(topic@));
                        assert(grown[grown.len() - 1] == trimmed(topic@));
                        assert(grown.contains(trimmed(topic@)));
                        grown.to_multiset_ensures();
                        texts(self.topics@).to_multiset_ensures();
                        assert(grown.to_multiset().count(trimmed(topic@)) > 0);
                        assert(texts(self.topics@).to_multiset().count(trimmed(topic@)) > 0);
                        assert(texts(self.topics@).contains(trimmed(topic@)));
                    }
                } else {
                    proof {
                        let k = index_of(texts(self.topics@), trimmed(topic@))->0;
                        assert(texts(self.topics@)[k] == trimmed(topic@));
                    }
                }
                self.close_add_source(prev)
            },
            Err(detail) => {
                let mut message = String::new();
                append_str(&mut message, "failed to save source: ");
                append_str(&mut message, detail.as_str());
                self.mode = Mode::AddSource(
                    AddSourceStep::Confirm { url, name, topic, field, topic_options, error: Some(message) },
                );
                Command::Nothing
            },
        }
    }
}

/// Saving an article marks it read as well, records the time it was saved,
/// keeps its note, and asks for all of it to be stored.
pub proof fn lemma_saving_marks_read(s: UiState, t: UiState, c: CommandView, now: i64)
    requires
        s.wf(),
        s.mode is Normal,
        s.has_article(),
        !s.current().saved,
        s.key_step(Key::Char('s'), now, t, c),
    ensures
        t.articles@.len() == s.articles@.len(),
        t.article_index == s.article_index,
        t.current().saved,
        t.current().read,
        t.current().saved_at == Some(now),
        t.current().note == s.current().note,
        t.current().id == s.current().id,
        c == (CommandView::Save {
            id: s.current().id,
            note: opt_string(s.current().note),
            saved_at: now,
        }),
{
}

/// While the note popup is open every character is typed into the note,
/// `q` included: nothing quits, moves or is stored.
pub proof fn lemma_note_popup_types_every_character(s: UiState, ch: char, t: UiState, c: CommandView, now: i64)
    requires
        s.mode is EditingNote,
        s.key_step(Key::Char(ch), now, t, c),
    ensures
        c == CommandView::Nothing,
        t.articles == s.articles,
        t.article_index == s.article_index,
        t.topics == s.topics,
        t.topic_index == s.topic_index,
        t.view == s.view,
        t.mode@ == (ModeView::EditingNote { text: s.mode->text@.push(ch) }),
{
}

/// `Esc` in the note popup discards the text: the popup closes and
/// nothing is changed or stored.
pub proof fn lemma_esc_discards_note(s: UiState, t: UiState, c: CommandView, now: i64)
    requires
        s.mode is EditingNote,
        s.key_step(Key::Esc, now, t, c),
    ensures
        c == CommandView::Nothing,
        t == (UiState { mode: Mode::Normal, ..s }),
{
    assert(t.mode is Normal);
}

/// Opening the note popup and leaving it with `Esc` changes nothing.
pub proof fn lemma_note_then_esc_restores(
    s: UiState,
    t: UiState,
    c1: CommandView,
    u: UiState,
    c2: CommandView,
    now1: i64,
    now2: i64,
)
    requires
        s.wf(),
        s.mode is Normal,
        s.has_article(),
        s.key_step(Key::Char('n'), now1, t, c1),
        t.key_step(Key::Esc, now2, u, c2),
    ensures
        u == s,
        c1 == CommandView::Nothing,
        c2 == CommandView::Nothing,
{
    assert(t.mode is EditingNote);
    assert(u.mode is Normal);
}

/// `Enter` in the note popup stores the typed text as the selected
/// article's note, set now; an emptied popup removes the note and its time.
pub proof fn lemma_confirmed_note_is_stored(s: UiState, t: UiState, c: CommandView, now: i64)
    requires
        s.wf(),
        s.mode is EditingNote,
        s.has_article(),
        s.key_step(Key::Enter, now, t, c),
    ensures
        t.mode@ == ModeView::Normal,
        t.articles@.len() == s.articles@.len(),
        t.article_index == s.article_index,
        opt_string(t.current().note) == (if s.mode->text@.len() == 0 {
            None
        } else {
            Some(s.mode->text@)
        }),
        t.current().noted_at == (if s.mode->text@.len() == 0 {
            None
        } else {
            Some(now)
        }),
        c == (CommandView::UpdateNote {
            id: s.current().id,
            note: opt_string(t.current().note),
            noted_at: t.current().noted_at,
        }),
{
}

/// In the saved view the topic sidebar does not move and nothing is
/// refreshed: `Up`, `Down` and `r` do nothing there.
pub proof fn lemma_saved_view_ignores_topic_keys(s: UiState, k: Key, t: UiState, c: CommandView, now: i64)
    requires
        s.mode is Normal,
        s.view == ListView::Saved,
        k == Key::Up || k == Key::Down || k == Key::Char('r'),
        s.key_step(k, now, t, c),
    ensures
        t == s,
        c == CommandView::Nothing,
{
}

/// `j` and `k` move the selection by one row and stop at either end of
/// the list rather than wrapping.
pub proof fn lemma_list_moves_clamp(s: UiState, k: Key, t: UiState, c: CommandView, now: i64)
    requires
        s.wf(),
        s.mode is Normal,
        0 < s.articles@.len() <= usize::MAX,
        k == Key::Char('j') || k == Key::Char('k'),
        s.key_step(k, now, t, c),
    ensures
        c == CommandView::Nothing,
        t == (UiState { article_index: t.article_index, ..s }),
        t.article_index < s.articles@.len(),
        k == Key::Char('j') ==> t.article_index == min_int(
            s.article_index + 1,
            s.articles@.len() - 1,
        ),
        k == Key::Char('k') ==> t.article_index == (if s.article_index > 0 {
            s.article_index - 1
        } else {
            0
        }),
{
    let m = min_int(s.article_index + 1, s.articles@.len() - 1);
    assert(0 <= m < s.articles@.len());
}

/// `E` asks for the export only in the saved view and changes nothing
/// else; in the topic view it does nothing at all.
pub proof fn lemma_export_only_from_saved_view(s: UiState, t: UiState, c: CommandView, now: i64)
    requires
        s.mode is Normal,
        s.key_step(Key::Char('E'), now, t, c),
    ensures
        t == s,
        c == (if s.view == ListView::Saved {
            CommandView::Export
        } else {
            CommandView::Nothing
        }),
{
}

/// `S` opens the saved view, and `S`, `Esc` or `Tab` there returns to the
/// topic view with the same topic selected and reloaded.
pub proof fn lemma_saved_view_round_trip(
    s: UiState,
    k: Key,
    t: UiState,
    c1: CommandView,
    u: UiState,
    c2: CommandView,
    now1: i64,
    now2: i64,
)
    requires
        s.wf(),
        s.mode is Normal,
        s.view == ListView::Topic,
        s.topics@.len() > 0,
        k == Key::Char('S') || k == Key::Esc || k == Key::Tab,
        s.key_step(Key::Char('S'), now1, t, c1),
        t.key_step(k, now2, u, c2),
    ensures
        t.view == ListView::Saved,
        c1 == CommandView::LoadSaved,
        u == s,
        c2 == CommandView::LoadTopic(s.topics@[s.topic_index as int]@),
{
}

/// Leaving the add-source popup with `Esc` keeps the topic that was
/// selected (topics being distinct), the view and the article list; in the
/// topic view that topic is reloaded, in the saved view nothing is loaded.
pub proof fn lemma_cancel_add_source_keeps_topic(
    s: UiState,
    t: UiState,
    c1: CommandView,
    u: UiState,
    c2: CommandView,
    now1: i64,
    now2: i64,
)
    requires
        s.wf(),
        s.mode is Normal,
        s.topics@.len() > 0,
        texts(s.topics@).no_duplicates(),
        s.key_step(Key::Char('a'), now1, t, c1),
        t.key_step(Key::Esc, now2, u, c2),
    ensures
        u.mode@ == ModeView::Normal,
        u.topics == s.topics,
        u.topic_index == s.topic_index,
        u.view == s.view,
        u.articles == s.articles,
        u.article_index == s.article_index,
        c2 == (if s.view == ListView::Saved {
            CommandView::Nothing
        } else {
            CommandView::ReloadTopic(s.topics@[s.topic_index as int]@)
        }),
{
    lemma_index_of(texts(s.topics@), s.topics@[s.topic_index as int]@);
    let i = s.topic_index as int;
    assert(texts(s.topics@)[i] == s.topics@[i]@);
    let found = index_of(texts(s.topics@), s.topics@[i]@);
    assert(found is Some);
    assert(found->0 == i);
}

/// `s` on a saved article unsaves it: it stays read and keeps its note but
/// loses its save time; `s` again saves it once more, at the new time, so
/// the two presses leave the article as it was apart from that time.
pub proof fn lemma_unsave_then_save_restores(
    s: UiState,
    t: UiState,
    c1: CommandView,
    u: UiState,
    c2: CommandView,
    now1: i64,
    now2: i64,
)
    requires
        s.wf(),
        s.mode is Normal,
        s.has_article(),
        s.current().saved,
        s.current().read,
        s.key_step(Key::Char('s'), now1, t, c1),
        t.key_step(Key::Char('s'), now2, u, c2),
    ensures
        !t.current().saved,
        t.current().saved_at is None,
        t.current().read,
        t.current().note == s.current().note,
        c1 == CommandView::Unsave(s.current().id),
        u.articles@ == s.articles@.update(
            s.article_index as int,
            Article { saved_at: Some(now2), ..s.current() },
        ),
        c2 == (CommandView::Save {
            id: s.current().id,
            note: opt_string(s.current().note),
            saved_at: now2,
        }),
{
    let i = s.article_index as int;
    assert(t.articles@[i] == Article { saved: false, saved_at: None, ..s.current() });
    assert(u.articles@[i] == Article { saved: true, read: true, saved_at: Some(now2), ..t.current() });
    assert(u.articles@ =~= s.articles@.update(i, Article { saved_at: Some(now2), ..s.current() }));
}

/// Editing the URL after a failed fetch keeps the failure's message on
/// screen: typing or deleting a character changes only the URL text.
pub proof fn lemma_url_edit_keeps_error(s: UiState, k: Key, t: UiState, c: CommandView, now: i64)
    requires
        s.mode@ is Url,
        k is Char || k == Key::Backspace,
        s.key_step(k, now, t, c),
    ensures
        c == CommandView::Nothing,
        t == (UiState { mode: t.mode, ..s }),
        t.mode@ is Url,
        t.mode@->Url_error == s.mode@->Url_error,
{
}

/// Adding a source (or cancelling it) from the saved view leaves the saved
/// view and its list as they were, whatever the result of writing the source.
pub proof fn lemma_add_source_keeps_saved_view(
    s: UiState,
    prev: Option<Seq<char>>,
    t: UiState,
    c: CommandView,
)
    requires
        s.view == ListView::Saved,
        s.closes(prev, t, c),
    ensures
        t.view == ListView::Saved,
        t.articles == s.articles,
        t.article_index == s.article_index,
        c == CommandView::Nothing,
{
}

/// `Up` in the topic view selects the previous topic, staying on the first
/// one, and loads it; nothing else changes.
pub proof fn lemma_up_selects_previous_topic(s: UiState, t: UiState, c: CommandView, now: i64)
    requires
        s.wf(),
        s.mode is Normal,
        s.view == ListView::Topic,
        s.topics@.len() > 0,
        s.key_step(Key::Up, now, t, c),
    ensures
        t.topic_index == (if s.topic_index > 0 {
            s.topic_index - 1
        } else {
            0
        }),
        t.topic_index <= s.topic_index,
        s.topic_index > 0 ==> t.topic_index + 1 == s.topic_index,
        t == (UiState { topic_index: t.topic_index, ..s }),
        c == CommandView::LoadTopic(s.topics@[t.topic_index as int]@),
{
}

/// `Down` (and `Tab`) in the topic view selects the next topic, staying on
/// the last one, and loads it; nothing else changes.
pub proof fn lemma_down_selects_next_topic(s: UiState, k: Key, t: UiState, c: CommandView, now: i64)
    requires
        s.wf(),
        s.mode is Normal,
        s.view == ListView::Topic,
        s.topics@.len() > 0,
        s.topics@.len() <= usize::MAX,
        k == Key::Down || k == Key::Tab,
        s.key_step(k, now, t, c),
    ensures
        t.topic_index == (if s.topic_index + 1 < s.topics@.len() {
            s.topic_index + 1
        } else {
            s.topics@.len() - 1
        }),
        t.topic_index >= s.topic_index,
        t.topic_index < s.topics@.len(),
        t == (UiState { topic_index: t.topic_index, ..s }),
        c == CommandView::LoadTopic(s.topics@[t.topic_index as int]@),
{
    let m = min_int(s.topic_index + 1, s.topics@.len() - 1);
    assert(0 <= m < s.topics@.len());
}

/// `Enter` on the confirm step writes the source only when both its name
/// and its topic hold more than whitespace, and then with both trimmed.
/// Otherwise nothing is written and nothing changes but the error shown:
/// a missing name is reported first, then a missing topic.
pub proof fn lemma_confirm_needs_name_and_topic(
    s: UiState,
    url: Seq<char>,
    name: Seq<char>,
    topic: Seq<char>,
    field: ConfirmField,
    options: Seq<Seq<char>>,
    error: Option<Seq<char>>,
    t: UiState,
    c: CommandView,
    now: i64,
)
    requires
        s.mode@ == (ModeView::Confirm { url, name, topic, field, options, error }),
        s.key_step(Key::Enter, now, t, c),
    ensures
        c matches CommandView::WriteSource { name: n, url: u, topic: tp } ==> n.len() > 0
            && tp.len() > 0 && n == trimmed(name) && tp == trimmed(topic) && u == url,
        trimmed(name).len() == 0 ==> {
            &&& c == CommandView::Nothing
            &&& t == (UiState { mode: t.mode, ..s })
            &&& t.mode@ == (ModeView::Confirm {
                url,
                name,
                topic,
                field,
                options,
                error: Some("name can't be empty"@),
            })
        },
        trimmed(name).len() > 0 && trimmed(topic).len() == 0 ==> {
            &&& c == CommandView::Nothing
            &&& t == (UiState { mode: t.mode, ..s })
            &&& t.mode@ == (ModeView::Confirm {
                url,
                name,
                topic,
                field,
                options,
                error: Some("every source needs a topic"@),
            })
        },
        trimmed(name).len() > 0 && trimmed(topic).len() > 0 ==> t == s && c
            == (CommandView::WriteSource { name: trimmed(name), url, topic: trimmed(topic) }),
{
}

/// The browsing keys that act on the selected article or the view: `x`
/// marks the selected article skipped (only that flag changes), `Enter`
/// asks to open its URL, `r` refreshes the selected topic, `S` in the topic
/// view switches to the saved view and loads it, `a` opens an empty URL
/// prompt, and `q` quits.
pub proof fn lemma_browsing_keys(s: UiState, k: Key, t: UiState, c: CommandView, now: i64)
    requires
        s.wf(),
        s.mode is Normal,
        s.key_step(k, now, t, c),
    ensures
        k == Key::Char('q') ==> c == CommandView::Quit && t == s,
        k == Key::Char('x') && s.has_article() ==> {
            &&& c == CommandView::MarkSkipped(s.current().id)
            &&& t.articles@.len() == s.articles@.len()
            &&& t.article_index == s.article_index
            &&& t.current() == (Article { skipped: true, ..s.current() })
            &&& forall|j: int|
                0 <= j < s.articles@.len() && j != s.article_index ==> #[trigger] t.articles@[j]
                    == s.articles@[j]
        },
        k == Key::Enter && s.has_article() ==> t == s && c == (CommandView::Open {
            id: s.current().id,
            url: s.current().url@,
        }),
        k == Key::Char('r') && s.view == ListView::Topic && s.topics@.len() > 0 ==> t == s && c
            == CommandView::Refresh(s.topics@[s.topic_index as int]@),
        k == Key::Char('S') && s.view == ListView::Topic ==> c == CommandView::LoadSaved && t == (
        UiState { view: ListView::Saved, ..s }),
        k == Key::Char('a') ==> c == CommandView::Nothing && t.mode@ == (ModeView::Url {
            text: Seq::empty(),
            error: None,
        }) && t == (UiState { mode: t.mode, ..s }),
        !s.has_article() && (k == Key::Char('x') || k == Key::Enter || k == Key::Char('s')
            || k == Key::Char('n')) ==> t == s && c == CommandView::Nothing,
{
}

/// On the URL step, `Enter` asks to fetch the typed URL, trimmed, when it
/// holds more than whitespace, and otherwise only shows that a URL is
/// needed; `Esc` closes the popup.
pub proof fn lemma_url_step_enter_and_esc(
    s: UiState,
    text: Seq<char>,
    error: Option<Seq<char>>,
    k: Key,
    t: UiState,
    c: CommandView,
    now: i64,
)
    requires
        s.mode@ == (ModeView::Url { text, error }),
        k == Key::Enter || k == Key::Esc,
        s.key_step(k, now, t, c),
    ensures
        k == Key::Enter && trimmed(text).len() > 0 ==> t == s && c == CommandView::FetchFeed(
            trimmed(text),
        ),
        k == Key::Enter && trimmed(text).len() == 0 ==> c == CommandView::Nothing && t == (
        UiState { mode: t.mode, ..s }) && t.mode@ == (ModeView::Url {
            text,
            error: Some("enter a feed URL first"@),
        }),
        k == Key::Esc ==> t.mode@ == ModeView::Normal && t.topics == s.topics && t.view == s.view,
        c matches CommandView::FetchFeed(u) ==> u.len() > 0,
{
}

/// When the add-source popup closes, the topic that was selected stays
/// selected by name, even after a new topic has been sorted into the list.
pub proof fn lemma_close_keeps_selected_topic(
    s: UiState,
    prev: Seq<char>,
    t: UiState,
    c: CommandView,
)
    requires
        texts(s.topics@).contains(prev),
        s.closes(Some(prev), t, c),
    ensures
        t.topic_index < t.topics@.len(),
        t.topics@[t.topic_index as int]@ == prev,
        t.mode@ == ModeView::Normal,
{
    lemma_index_of(texts(s.topics@), prev);
    let i = index_of(texts(s.topics@), prev)->0;
    assert(texts(s.topics@)[i] == s.topics@[i]@);
}

/// On the confirm step `Tab` moves the focus to the other field, a typed
/// character goes to the end of the focused field, and `Up`/`Down` on the
/// topic field replace the topic with one of the existing topics; the URL
/// and the other field stay as they were and nothing is written.
pub proof fn lemma_confirm_editing(
    s: UiState,
    url: Seq<char>,
    name: Seq<char>,
    topic: Seq<char>,
    field: ConfirmField,
    options: Seq<Seq<char>>,
    error: Option<Seq<char>>,
    k: Key,
    t: UiState,
    c: CommandView,
    now: i64,
)
    requires
        s.mode@ == (ModeView::Confirm { url, name, topic, field, options, error }),
        k != Key::Enter && k != Key::Esc,
        s.key_step(k, now, t, c),
    ensures
        c == CommandView::Nothing,
        t == (UiState { mode: t.mode, ..s }),
        t.mode@ is Confirm,
        t.mode@->Confirm_url == url,
        t.mode@->Confirm_options == options,
        k == Key::Tab ==> t.mode@->Confirm_field != field && t.mode@->Confirm_name == name
            && t.mode@->Confirm_topic == topic,
        k matches Key::Char(ch) ==> t.mode@->Confirm_field == field && (if field
            == ConfirmField::Name {
            t.mode@->Confirm_name == name.push(ch) && t.mode@->Confirm_topic == topic
        } else {
            t.mode@->Confirm_topic == topic.push(ch) && t.mode@->Confirm_name == name
        }),
        (k == Key::Up || k == Key::Down) && field == ConfirmField::Topic && options.len() > 0
            ==> options.contains(t.mode@->Confirm_topic) && t.mode@->Confirm_name == name,
        field == ConfirmField::Name && (k == Key::Up || k == Key::Down) ==> t.mode@->Confirm_topic
            == topic && t.mode@->Confirm_name == name,
{
    if (k == Key::Up || k == Key::Down) && field == ConfirmField::Topic && options.len() > 0 {
        crate::ui::lemma_cycle_stays_in_options(
            options,
            topic,
            if k == Key::Up {
                -1
            } else {
                1
            },
        );
    }
}

} // verus!
