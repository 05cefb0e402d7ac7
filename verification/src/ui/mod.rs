//! The decisions behind the terminal UI: what each keypress does to the
//! browsing state (see `state`), and the text the views show.
pub mod state;

use vstd::prelude::*;
use crate::clock::{format_utc, in_time_range, minute_pattern, spec_format_utc};
use crate::models::Article;
use crate::order::{index_of, find_text, texts};
use crate::text::{append_str, chars_of, push_char, string_from_chars, string_from_range};

verus! {

/// Which main view is showing: one topic's articles, or every saved one.
#[derive(Clone, Copy, Debug, PartialEq, Eq, Structural)]
pub enum ListView {
    Topic,
    Saved,
}

/// Which field of the add-source confirm screen has focus.
#[derive(Clone, Copy, Debug, PartialEq, Eq, Structural)]
pub enum ConfirmField {
    Name,
    Topic,
}

/// How an article is colored in the list; the more deliberate states win:
/// skipped, then saved, then read, then unread.
#[derive(Clone, Copy, Debug, PartialEq, Eq, Structural)]
pub enum ArticleState {
    Unread,
    Read,
    Saved,
    Skipped,
}

/// The state an article is shown in.
pub open spec fn state_of(a: Article) -> ArticleState {
    if a.skipped {
        ArticleState::Skipped
    } else if a.saved {
        ArticleState::Saved
    } else if a.read {
        ArticleState::Read
    } else {
        ArticleState::Unread
    }
}

/// The state `article` is shown in (see `state_of`).
pub fn article_state(article: &Article) -> (res: ArticleState)
    ensures
        res == state_of(*article),
        article.skipped ==> res == ArticleState::Skipped,
        !article.skipped && article.saved ==> res == ArticleState::Saved,
        !article.skipped && !article.saved && article.read ==> res == ArticleState::Read,
        !article.skipped && !article.saved && !article.read ==> res == ArticleState::Unread,
{
    if article.skipped {
        ArticleState::Skipped
    } else if article.saved {
        ArticleState::Saved
    } else if article.read {
        ArticleState::Read
    } else {
        ArticleState::Unread
    }
}

/// How many characters of a note the saved view shows under a title.
pub const NOTE_PREVIEW_CHARS: usize = 45;

/// `text` cut to its first `max_chars` characters with `…` appended when
/// anything was cut; `text` itself when it is no longer than that.
pub open spec fn preview(text: Seq<char>, max_chars: nat) -> Seq<char> {
    if text.len() <= max_chars {
        text
    } else {
        text.take(max_chars as int).push('…')
    }
}

/// Truncates `text` to at most `max_chars` characters (not bytes),
/// appending `…` when something was cut off.
pub fn truncate_preview(text: &str, max_chars: usize) -> (res: String)
    ensures
        res@ == preview(text@, max_chars as nat),
{
    let cs = chars_of(text);
    if cs.len() <= max_chars {
        string_from_chars(&cs)
    } else {
        let mut out = string_from_range(&cs, 0, max_chars);
        push_char(&mut out, '…');
        assert(cs@.subrange(0, max_chars as int) =~= text@.take(max_chars as int));
        out
    }
}

/// Whether the article list shows each note's preview: only the saved
/// view does.
pub fn shows_note_preview(view: ListView) -> (res: bool)
    ensures
        res == (view == ListView::Saved),
{
    match view {
        ListView::Saved => true,
        ListView::Topic => false,
    }
}

/// The note preview line of the saved view: two spaces, then the
/// truncated note in curly quotes.
pub open spec fn note_preview_text(note: Seq<char>) -> Seq<char> {
    "  \u{201c}"@ + preview(note, NOTE_PREVIEW_CHARS as nat) + "\u{201d}"@
}

/// Renders the note preview line (see `note_preview_text`).
pub fn note_preview_line(note: &str) -> (res: String)
    ensures
        res@ == note_preview_text(note@),
{
    let mut out = String::new();
    append_str(&mut out, "  \u{201c}");
    let p = truncate_preview(note, NOTE_PREVIEW_CHARS);
    append_str(&mut out, p.as_str());
    append_str(&mut out, "\u{201d}");
    out
}

/// The line under each title: two spaces, the source, ` · `, and the
/// publish time to the minute.
pub open spec fn meta_text(a: Article) -> Seq<char> {
    "  "@ + a.source@ + " · "@ + spec_format_utc(a.timestamp, minute_pattern())
}

/// Renders the line under an article's title (see `meta_text`).
pub fn meta_line(article: &Article) -> (res: String)
    requires
        in_time_range(article.timestamp),
    ensures
        res@ == meta_text(*article),
{
    let mut out = String::new();
    append_str(&mut out, "  ");
    append_str(&mut out, article.source.as_str());
    append_str(&mut out, " · ");
    let when = format_utc(article.timestamp, "%Y-%m-%d %H:%M");
    append_str(&mut out, when.as_str());
    out
}

/// The article pane's title.
pub open spec fn pane_title(view: ListView, selected_topic: Option<Seq<char>>) -> Seq<char> {
    match view {
        ListView::Saved => " Saved Articles "@,
        ListView::Topic => match selected_topic {
            Some(t) => " Articles — "@ + t + " "@,
            None => " Articles "@,
        },
    }
}

/// Renders the article pane's title (see `pane_title`).
pub fn articles_title(view: ListView, selected_topic: Option<&str>) -> (res: String)
    ensures
        res@ == pane_title(view, match selected_topic {
            Some(t) => Some(t@),
            None => None,
        }),
{
    match view {
        ListView::Saved => " Saved Articles ".to_owned(),
        ListView::Topic => match selected_topic {
            Some(t) => {
                let mut out = String::new();
                append_str(&mut out, " Articles — ");
                append_str(&mut out, t);
                append_str(&mut out, " ");
                out
            },
            None => " Articles ".to_owned(),
        },
    }
}

/// What the article pane says when its list is empty.
pub fn empty_list_message(view: ListView) -> (res: &'static str)
    ensures
        res@ == match view {
            ListView::Saved => "No saved articles yet -- press s on an article to save it."@,
            ListView::Topic => "No articles yet -- run a fetcher first."@,
        },
{
    match view {
        ListView::Saved => "No saved articles yet -- press s on an article to save it.",
        ListView::Topic => "No articles yet -- run a fetcher first.",
    }
}

/// The four lines of the add-source confirm screen: the URL, the name,
/// the topic, and the existing topics separated by `", "`.
pub open spec fn confirm_text(
    url: Seq<char>,
    name: Seq<char>,
    topic: Seq<char>,
    options: Seq<Seq<char>>,
) -> Seq<Seq<char>> {
    seq![
        "URL:   "@ + url,
        "Name:  "@ + name,
        "Topic: "@ + topic,
        "       existing: "@ + crate::text::join(options, ", "@),
    ]
}

/// Renders the confirm screen's lines (see `confirm_text`).
pub fn confirm_lines(url: &str, name: &str, topic: &str, options: &Vec<String>) -> (res: Vec<String>)
    ensures
        texts(res@) == confirm_text(url@, name@, topic@, texts(options@)),
{
    let mut url_line = String::new();
    append_str(&mut url_line, "URL:   ");
    append_str(&mut url_line, url);
    let mut name_line = String::new();
    append_str(&mut name_line, "Name:  ");
    append_str(&mut name_line, name);
    let mut topic_line = String::new();
    append_str(&mut topic_line, "Topic: ");
    append_str(&mut topic_line, topic);
    let mut existing = String::new();
    append_str(&mut existing, "       existing: ");
    let ghost head = existing@;
    let ghost opts = texts(options@);
    let mut i: usize = 0;
    assert(opts.take(0) =~= Seq::<Seq<char>>::empty());
    while i < options.len()
        invariant
            opts == texts(options@),
            i <= options@.len(),
            existing@ == head + crate::text::join(opts.take(i as int), ", "@),
        decreases options.len() - i,
    {
        if i > 0 {
            append_str(&mut existing, ", ");
        }
        append_str(&mut existing, options[i].as_str());
        proof {
            let t = opts.take(i + 1);
            assert(t.drop_last() =~= opts.take(i as int));
            assert(t.last() == options@[i as int]@);
            if i == 0 {
                assert(crate::text::join(t, ", "@) == t[0]);
                assert(existing@ =~= head + crate::text::join(t, ", "@));
            } else {
                assert(existing@ =~= head + (crate::text::join(t.drop_last(), ", "@) + ", "@ + t.last()));
            }
        }
        i += 1;
    }
    assert(opts.take(options@.len() as int) =~= opts);
    let mut out: Vec<String> = Vec::new();
    out.push(url_line);
    out.push(name_line);
    out.push(topic_line);
    out.push(existing);
    assert(texts(out@) =~= confirm_text(url@, name@, topic@, texts(options@)));
    out
}

/// The programs tried, in order, to open an article when `w3m` is not
/// installed: `$BROWSER` when it is set, then `xdg-open`.
pub fn browser_commands(browser: Option<String>) -> (res: Vec<String>)
    ensures
        match browser {
            Some(b) => res@.len() == 2 && res@[0]@ == b@ && res@[1]@ == "xdg-open"@,
            None => res@.len() == 1 && res@[0]@ == "xdg-open"@,
        },
{
    let mut out: Vec<String> = Vec::new();
    match browser {
        Some(b) => {
            out.push(b);
        },
        None => {},
    }
    out.push("xdg-open".to_owned());
    out
}

/// The topic `direction` steps away from `current` in `options`, wrapping
/// around at either end; when `current` is none of the options, the first
/// option going forward and the last one going backward.
pub open spec fn cycled(options: Seq<Seq<char>>, current: Seq<char>, direction: int) -> Seq<char> {
    match index_of(options, current) {
        Some(i) => options[(i + direction) % (options.len() as int)],
        None => if direction >= 0 {
            options[0]
        } else {
            options[options.len() - 1]
        },
    }
}

/// Picks the next (`direction > 0`) or previous (`direction < 0`) topic of
/// `options` (see `cycled`).
pub fn cycle_topic(options: &Vec<String>, current: &str, direction: i32) -> (res: String)
    requires
        options@.len() > 0,
    ensures
        res@ == cycled(texts(options@), current@, direction as int),
{
    proof {
        crate::order::lemma_index_of(texts(options@), current@);
    }
    let len = options.len();
    let next = match find_text(options, current) {
        Some(index) => {
            let m = len as u128;
            let idx = index as u128;
            if direction >= 0 {
                ((idx + direction as u128) % m) as usize
            } else {
                let n = (-(direction as i128)) as u128;
                let d = n % m;
                proof {
                    let q = (n as int) / (m as int);
                    vstd::arithmetic::div_mod::lemma_fundamental_div_mod(n as int, m as int);
                    assert((idx + m - d) as int == (m as int) * (q + 1) + (idx as int
                        + direction as int)) by (nonlinear_arith)
                        requires
                            n as int == (m as int) * q + d as int,
                            n as int == -(direction as int),
                            d < m,
                    ;
                    vstd::arithmetic::div_mod::lemma_mod_multiples_vanish(
                        q + 1,
                        idx as int + direction as int,
                        m as int,
                    );
                }
                ((idx + m - d) % m) as usize
            }
        },
        None => if direction >= 0 {
            0
        } else {
            len - 1
        },
    };
    options[next].clone()
}

/// A preview is never longer than `max_chars` plus the ellipsis, always
/// begins with the text itself, and is the whole text when it fits.
pub proof fn lemma_preview_shape(text: Seq<char>, max_chars: nat)
    ensures
        preview(text, max_chars).len() <= max_chars + 1,
        text.len() <= max_chars ==> preview(text, max_chars) == text,
        text.len() > max_chars ==> preview(text, max_chars) == text.take(max_chars as int).push('…'),
        preview(text, max_chars).take(min_len(text.len(), max_chars) as int) == text.take(
            min_len(text.len(), max_chars) as int,
        ),
{
    if text.len() > max_chars {
        assert(preview(text, max_chars).take(max_chars as int) =~= text.take(max_chars as int));
    } else {
        assert(text.take(text.len() as int) =~= text);
    }
}

/// The smaller of two lengths.
pub open spec fn min_len(a: nat, b: nat) -> nat {
    if a <= b {
        a
    } else {
        b
    }
}

/// Cycling always lands on one of the options.
pub proof fn lemma_cycle_stays_in_options(options: Seq<Seq<char>>, current: Seq<char>, direction: int)
    requires
        options.len() > 0,
    ensures
        options.contains(cycled(options, current, direction)),
{
    crate::order::lemma_index_of(options, current);
    let n = options.len() as int;
    match index_of(options, current) {
        Some(i) => {
            let k = (i + direction) % n;
            assert(0 <= k < n);
            assert(options[k] == cycled(options, current, direction));
        },
        None => {
            if direction >= 0 {
                assert(options[0] == cycled(options, current, direction));
            } else {
                assert(options[n - 1] == cycled(options, current, direction));
            }
        },
    }
}

/// Cycling wraps around: forward from the last option gives the first,
/// backward from the first gives the last.
pub proof fn lemma_cycle_wraps(options: Seq<Seq<char>>, current: Seq<char>)
    requires
        options.len() > 0,
    ensures
        index_of(options, current) == Some(options.len() - 1) ==> cycled(options, current, 1)
            == options[0],
        index_of(options, current) == Some(0int) ==> cycled(options, current, -1) == options[options.len()
            - 1],
{
    let n = options.len() as int;
    assert(n % n == 0) by {
        vstd::arithmetic::div_mod::lemma_mod_multiples_vanish(1, 0, n);
    }
    assert((0 - 1) % n == n - 1) by {
        vstd::arithmetic::div_mod::lemma_mod_multiples_vanish(-1, n - 1, n);
        vstd::arithmetic::div_mod::lemma_small_mod((n - 1) as nat, n as nat);
    }
}

/// Among distinct options, one step forward and one step back (in either
/// order) return to the option where it started.
pub proof fn lemma_cycle_back_and_forth(options: Seq<Seq<char>>, current: Seq<char>)
    requires
        options.no_duplicates(),
        options.contains(current),
    ensures
        cycled(options, cycled(options, current, 1), -1) == current,
        cycled(options, cycled(options, current, -1), 1) == current,
{
    let n = options.len() as int;
    crate::order::lemma_index_of(options, current);
    let i = index_of(options, current)->0;
    assert(index_of(options, current) is Some) by {
        let w = choose|w: int| 0 <= w < n && options[w] == current;
        assert(options[w] == current);
    }
    assert(0 <= i < n && options[i] == current);
    // one step forward
    let f = if i + 1 < n {
        i + 1
    } else {
        0
    };
    assert((i + 1) % n == f) by {
        if i + 1 < n {
            vstd::arithmetic::div_mod::lemma_small_mod((i + 1) as nat, n as nat);
        } else {
            vstd::arithmetic::div_mod::lemma_mod_multiples_vanish(1, 0, n);
        }
    }
    // one step back
    let b = if i > 0 {
        i - 1
    } else {
        n - 1
    };
    assert((i - 1) % n == b) by {
        if i > 0 {
            vstd::arithmetic::div_mod::lemma_small_mod((i - 1) as nat, n as nat);
        } else {
            vstd::arithmetic::div_mod::lemma_mod_multiples_vanish(-1, n - 1, n);
            vstd::arithmetic::div_mod::lemma_small_mod((n - 1) as nat, n as nat);
        }
    }
    crate::order::lemma_index_of(options, options[f]);
    crate::order::lemma_index_of(options, options[b]);
    assert(index_of(options, options[f]) == Some(f));
    assert(index_of(options, options[b]) == Some(b));
    assert((f - 1) % n == i) by {
        if f > 0 {
            vstd::arithmetic::div_mod::lemma_small_mod((f - 1) as nat, n as nat);
        } else {
            vstd::arithmetic::div_mod::lemma_mod_multiples_vanish(-1, n - 1, n);
            vstd::arithmetic::div_mod::lemma_small_mod((n - 1) as nat, n as nat);
        }
    }
    assert((b + 1) % n == i) by {
        if b + 1 < n {
            vstd::arithmetic::div_mod::lemma_small_mod((b + 1) as nat, n as nat);
        } else {
            vstd::arithmetic::div_mod::lemma_mod_multiples_vanish(1, 0, n);
        }
    }
}

/// The colour states rank skipped over saved over read over unread: a
/// skipped article shows as skipped whatever else is true of it, a saved
/// one as saved unless skipped, and only an article none of the three
/// flags is set on shows as unread.
pub proof fn lemma_article_state_ranks_flags(a: Article)
    ensures
        a.skipped ==> state_of(a) == ArticleState::Skipped,
        !a.skipped && a.saved ==> state_of(a) == ArticleState::Saved,
        !a.skipped && !a.saved && a.read ==> state_of(a) == ArticleState::Read,
        (state_of(a) == ArticleState::Unread) <==> (!a.skipped && !a.saved && !a.read),
        (state_of(a) == ArticleState::Skipped) <==> a.skipped,
{
}

} // verus!
