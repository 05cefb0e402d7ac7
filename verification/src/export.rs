//! Markdown export of saved articles: one block per article (title, a
//! source line with the saved and noted days, the note as a blockquote),
//! blocks joined by a thematic break into one document.
use vstd::prelude::*;
use crate::clock::{day_pattern, format_utc, spec_format_utc};
use crate::models::Article;
use crate::paths::{expand_tilde, join_path, opt_str, path_join, tilde_expanded, PathError};
use crate::text::{
    append_str, is_blank, is_blank_str, join, lemma_lines_of_join, lemma_lines_of_no_line_feed, lines,
    lines_of, plain_line, same_text,
};

verus! {

/// The text of an optional string.
pub open spec fn opt_text(o: Option<&str>) -> Option<Seq<char>> {
    match o {
        Some(s) => Some(s@),
        None => None,
    }
}

/// The text of an optional owned string.
pub open spec fn opt_string(o: Option<String>) -> Option<Seq<char>> {
    match o {
        Some(s) => Some(s@),
        None => None,
    }
}

/// `", noted <day>"` when the note's day is known and differs from the
/// saved day; nothing otherwise.
pub open spec fn noted_suffix(saved_day: Seq<char>, noted_day: Option<Seq<char>>) -> Seq<char> {
    match noted_day {
        Some(d) => if d != saved_day {
            ", noted "@ + d
        } else {
            Seq::empty()
        },
        None => Seq::empty(),
    }
}

/// `Source: [<source>](<url>) — saved <day>[, noted <day>]`.
pub open spec fn source_line(
    source: Seq<char>,
    url: Seq<char>,
    saved_day: Seq<char>,
    noted_day: Option<Seq<char>>,
) -> Seq<char> {
    "Source: ["@ + source + "]("@ + url + ") — saved "@ + saved_day + noted_suffix(saved_day, noted_day)
}

/// Each line prefixed with `"> "`.
pub open spec fn quoted(ls: Seq<Seq<char>>) -> Seq<Seq<char>> {
    ls.map_values(|l: Seq<char>| "> "@ + l)
}

/// Every line of `note` quoted, lines separated by `"\n"`.
pub open spec fn blockquote(note: Seq<char>) -> Seq<char> {
    join(quoted(lines_of(note)), "\n"@)
}

/// A blank line, the quoted note and a line end, for a note holding
/// anything besides whitespace; nothing for no note or a blank one.
pub open spec fn note_section(note: Option<Seq<char>>) -> Seq<char> {
    match note {
        Some(n) => if is_blank(n) {
            Seq::empty()
        } else {
            "\n"@ + blockquote(n) + "\n"@
        },
        None => Seq::empty(),
    }
}

/// One article's block, given the day strings already rendered.
pub open spec fn markdown_block(
    title: Seq<char>,
    source: Seq<char>,
    url: Seq<char>,
    saved_day: Seq<char>,
    noted_day: Option<Seq<char>>,
    note: Option<Seq<char>>,
) -> Seq<char> {
    "## "@ + title + "\n"@ + source_line(source, url, saved_day, noted_day) + "\n"@ + note_section(note)
}

/// The day an article counts as saved: its `saved_at`, or its publish
/// `timestamp` when no save time was recorded.
pub open spec fn saved_day(a: Article) -> Seq<char> {
    spec_format_utc(
        match a.saved_at {
            Some(t) => t,
            None => a.timestamp,
        },
        day_pattern(),
    )
}

/// The day the note was last set, if known.
pub open spec fn noted_day(a: Article) -> Option<Seq<char>> {
    match a.noted_at {
        Some(t) => Some(spec_format_utc(t, day_pattern())),
        None => None,
    }
}

/// The Markdown block for one saved article.
pub open spec fn article_markdown(a: Article) -> Seq<char> {
    markdown_block(a.title@, a.source@, a.url@, saved_day(a), noted_day(a), opt_string(a.note))
}

/// The whole export: every article's block, in order, consecutive blocks
/// separated by `"\n---\n"`.
pub open spec fn export_document(articles: Seq<Article>) -> Seq<char> {
    join(articles.map_values(|a: Article| article_markdown(a)), "\n---\n"@)
}

/// Every line of `note`, each prefixed with `"> "`, separated by `"\n"`.
pub fn quote_note(note: &str) -> (res: String)
    ensures
        res@ == blockquote(note@),
{
    let ls = lines(note);
    let ghost q = quoted(lines_of(note@));
    let mut res = String::new();
    let mut i: usize = 0;
    assert(q.take(0) =~= Seq::<Seq<char>>::empty());
    while i < ls.len()
        invariant
            ls@.len() == lines_of(note@).len(),
            forall|k: int| 0 <= k < ls@.len() ==> #[trigger] ls@[k]@ == lines_of(note@)[k],
            q == quoted(lines_of(note@)),
            i <= ls@.len(),
            res@ == join(q.take(i as int), "\n"@),
        decreases ls.len() - i,
    {
        let ghost before = res@;
        if i > 0 {
            append_str(&mut res, "\n");
        }
        append_str(&mut res, "> ");
        append_str(&mut res, ls[i].as_str());
        proof {
            let t = q.take(i + 1);
            assert(t.drop_last() =~= q.take(i as int));
            assert(t.last() == "> "@ + ls@[i as int]@);
            if i == 0 {
                assert(t.len() == 1);
                assert(res@ =~= t[0]);
            } else {
                assert(res@ =~= join(t.drop_last(), "\n"@) + "\n"@ + t.last());
            }
        }
        i += 1;
    }
    assert(q.take(ls@.len() as int) =~= q);
    res
}

/// Renders one article's block from its fields and the day strings
/// already rendered for it; `noted_day` is only shown when it differs
/// from `saved_day`, and the note only when it is not blank.
pub fn markdown_block_text(
    title: &str,
    source: &str,
    url: &str,
    saved_day: &str,
    noted_day: Option<&str>,
    note: Option<&str>,
) -> (res: String)
    ensures
        res@ == markdown_block(title@, source@, url@, saved_day@, opt_text(noted_day), opt_text(note)),
{
    let mut out = String::new();
    append_str(&mut out, "## ");
    append_str(&mut out, title);
    append_str(&mut out, "\n");
    let ghost head = out@;
    append_str(&mut out, "Source: [");
    append_str(&mut out, source);
    append_str(&mut out, "](");
    append_str(&mut out, url);
    append_str(&mut out, ") — saved ");
    append_str(&mut out, saved_day);
    let ghost line_start = out@;
    match noted_day {
        Some(d) => {
            if !same_text(d, saved_day) {
                append_str(&mut out, ", noted ");
                append_str(&mut out, d);
            }
        },
        None => {},
    }
    assert(out@ =~= head + source_line(source@, url@, saved_day@, opt_text(noted_day)));
    append_str(&mut out, "\n");
    let ghost before_note = out@;
    match note {
        Some(n) => {
            if !is_blank_str(n) {
                append_str(&mut out, "\n");
                let q = quote_note(n);
                append_str(&mut out, q.as_str());
                append_str(&mut out, "\n");
            }
        },
        None => {},
    }
    assert(out@ =~= before_note + note_section(opt_text(note)));
    out
}

/// Formats one saved article as its Markdown block (see `article_markdown`).
pub fn format_article_markdown(article: &Article) -> (res: String)
    requires
        article.dates_in_range(),
    ensures
        res@ == article_markdown(*article),
{
    let saved_secs = match article.saved_at {
        Some(t) => t,
        None => article.timestamp,
    };
    let saved = format_utc(saved_secs, "%Y-%m-%d");
    let noted = match article.noted_at {
        Some(t) => Some(format_utc(t, "%Y-%m-%d")),
        None => None,
    };
    let noted_ref: Option<&str> = match &noted {
        Some(d) => Some(d.as_str()),
        None => None,
    };
    let note_ref: Option<&str> = match &article.note {
        Some(n) => Some(n.as_str()),
        None => None,
    };
    assert(opt_text(noted_ref) == noted_day(*article));
    assert(opt_text(note_ref) == opt_string(article.note));
    markdown_block_text(
        article.title.as_str(),
        article.source.as_str(),
        article.url.as_str(),
        saved.as_str(),
        noted_ref,
        note_ref,
    )
}

/// The full export document for `articles`: each article's block, in
/// order, separated by `"\n---\n"`; empty when there are no articles.
pub fn render_saved_articles(articles: &[Article]) -> (res: String)
    requires
        forall|i: int| 0 <= i < articles@.len() ==> (#[trigger] articles@[i]).dates_in_range(),
    ensures
        res@ == export_document(articles@),
{
    let ghost blocks = articles@.map_values(|a: Article| article_markdown(a));
    let mut res = String::new();
    let mut i: usize = 0;
    assert(blocks.take(0) =~= Seq::<Seq<char>>::empty());
    while i < articles.len()
        invariant
            forall|k: int| 0 <= k < articles@.len() ==> (#[trigger] articles@[k]).dates_in_range(),
            blocks == articles@.map_values(|a: Article| article_markdown(a)),
            i <= articles@.len(),
            res@ == join(blocks.take(i as int), "\n---\n"@),
        decreases articles.len() - i,
    {
        if i > 0 {
            append_str(&mut res, "\n---\n");
        }
        let block = format_article_markdown(&articles[i]);
        append_str(&mut res, block.as_str());
        proof {
            let t = blocks.take(i + 1);
            assert(t.drop_last() =~= blocks.take(i as int));
            assert(t.last() == article_markdown(articles@[i as int]));
            if i == 0 {
                assert(res@ =~= t[0]);
            } else {
                assert(res@ =~= join(t.drop_last(), "\n---\n"@) + "\n---\n"@ + t.last());
            }
        }
        i += 1;
    }
    assert(blocks.take(articles@.len() as int) =~= blocks);
    res
}

/// An export of no articles is empty.
pub proof fn lemma_export_of_nothing_is_empty()
    ensures
        export_document(Seq::<Article>::empty()) == Seq::<char>::empty(),
{
    assert(Seq::<Article>::empty().map_values(|a: Article| article_markdown(a)).len() == 0);
}

/// The export of a single article is exactly its block: no separator.
pub proof fn lemma_export_of_one(a: Article)
    ensures
        export_document(seq![a]) == article_markdown(a),
{
    let blocks = seq![a].map_values(|x: Article| article_markdown(x));
    assert(blocks.len() == 1);
    assert(blocks[0] == article_markdown(a));
}

/// Each further article adds a thematic break on its own line, then its
/// block: the export is the previous export, `"\n---\n"` and the block.
pub proof fn lemma_export_appends_block(articles: Seq<Article>, a: Article)
    requires
        articles.len() > 0,
    ensures
        export_document(articles.push(a)) == export_document(articles) + "\n---\n"@
            + article_markdown(a),
{
    let all = articles.push(a).map_values(|x: Article| article_markdown(x));
    assert(all.drop_last() =~= articles.map_values(|x: Article| article_markdown(x)));
    assert(all.last() == article_markdown(a));
}

/// The day an article counts as saved is its publish day when no save
/// time was recorded.
pub proof fn lemma_saved_day_falls_back_to_publish_time(a: Article)
    requires
        a.saved_at is None,
    ensures
        saved_day(a) == spec_format_utc(a.timestamp, day_pattern()),
{
}

/// A note made on the day the article was saved adds no noted day: the
/// block is the one of an article with no note time at all.
pub proof fn lemma_same_day_note_shows_saved_day_only(a: Article)
    requires
        noted_day(a) == Some(saved_day(a)),
    ensures
        article_markdown(a) == markdown_block(
            a.title@,
            a.source@,
            a.url@,
            saved_day(a),
            None,
            opt_string(a.note),
        ),
{
}

/// An article with no note, or a blank one, has no blockquote: its block
/// is the title line and the source line.
pub proof fn lemma_no_note_no_blockquote(a: Article)
    requires
        a.note is None || is_blank(a.note->0@),
    ensures
        article_markdown(a) == "## "@ + a.title@ + "\n"@ + source_line(
            a.source@,
            a.url@,
            saved_day(a),
            noted_day(a),
        ) + "\n"@,
{
    assert(note_section(opt_string(a.note)) == Seq::<char>::empty());
    let head = "## "@ + a.title@ + "\n"@ + source_line(a.source@, a.url@, saved_day(a), noted_day(a))
        + "\n"@;
    assert(head + Seq::<char>::empty() =~= head);
}

/// A note that is not blank is shown after a blank line, each of its
/// lines quoted with `"> "` and none left out or added.
pub proof fn lemma_every_note_line_quoted(a: Article)
    requires
        a.note is Some,
        !is_blank(a.note->0@),
    ensures
        article_markdown(a) == "## "@ + a.title@ + "\n"@ + source_line(
            a.source@,
            a.url@,
            saved_day(a),
            noted_day(a),
        ) + "\n"@ + "\n"@ + join(quoted(lines_of(a.note->0@)), "\n"@) + "\n"@,
        quoted(lines_of(a.note->0@)).len() == lines_of(a.note->0@).len(),
        forall|i: int|
            0 <= i < lines_of(a.note->0@).len() ==> #[trigger] quoted(lines_of(a.note->0@))[i]
                == "> "@ + lines_of(a.note->0@)[i],
{
    let n = a.note->0@;
    let head = "## "@ + a.title@ + "\n"@ + source_line(a.source@, a.url@, saved_day(a), noted_day(a))
        + "\n"@;
    assert(head + ("\n"@ + blockquote(n) + "\n"@) =~= head + "\n"@ + join(quoted(lines_of(n)), "\n"@)
        + "\n"@);
}

/// Read back line by line, a note's blockquote is exactly the note's lines,
/// each prefixed with `"> "`, none lost, split or added (for notes none of
/// whose lines ends in a carriage return, which reading back would drop).
pub proof fn lemma_blockquote_reads_back(note: Seq<char>)
    requires
        forall|i: int|
            0 <= i < lines_of(note).len() ==> !((#[trigger] lines_of(note)[i]).len() > 0
                && lines_of(note)[i].last() == '\r'),
    ensures
        lines_of(blockquote(note)) == quoted(lines_of(note)),
{
    reveal_strlit("> ");
    let ls = lines_of(note);
    let q = quoted(ls);
    lemma_lines_of_no_line_feed(note);
    assert forall|i: int| 0 <= i < q.len() implies plain_line(#[trigger] q[i]) by {
        let l = ls[i];
        assert(q[i] == "> "@ + l);
        assert(!l.contains('\n'));
        assert(!q[i].contains('\n')) by {
            if q[i].contains('\n') {
                let k = choose|k: int| 0 <= k < q[i].len() && q[i][k] == '\n';
                if k >= 2 {
                    assert(l[k - 2] == '\n');
                }
            }
        }
        if l.len() > 0 {
            assert(q[i].last() == l.last());
        }
    }
    if q.len() > 0 {
        assert(q.last() == "> "@ + ls.last());
        assert(q.last().len() >= 2);
    }
    lemma_lines_of_join(q);
}

/// Every exported block starts with the article's title as a heading and
/// links back to the article: `Source: [source](url) — saved <day>` occurs
/// in it.
pub proof fn lemma_block_links_back(a: Article)
    ensures
        article_markdown(a).subrange(0, a.title@.len() as int + 4) == "## "@ + a.title@ + "\n"@,
        crate::text::occurs_in(
            "Source: ["@ + a.source@ + "]("@ + a.url@ + ") — saved "@ + saved_day(a),
            article_markdown(a),
        ),
{
    reveal_strlit("## ");
    reveal_strlit("\n");
    let head = "## "@ + a.title@ + "\n"@;
    let link = "Source: ["@ + a.source@ + "]("@ + a.url@ + ") — saved "@ + saved_day(a);
    let before = head;
    let after = noted_suffix(saved_day(a), noted_day(a)) + "\n"@ + note_section(opt_string(a.note));
    let m = article_markdown(a);
    assert(m =~= before + link + after);
    assert(m.subrange(0, head.len() as int) =~= head);
    let i = before.len() as int;
    assert(m.subrange(i, i + link.len()) =~= link);
}

/// The resolved export destination: the configured directory with `~`
/// already expanded.
pub struct ExportConfig {
    pub path: String,
}

/// The fixed name of the combined export file.
pub open spec fn export_file_name() -> Seq<char> {
    "saved-articles.md"@
}

impl ExportConfig {
    /// The export destination for the `path` configured in `export.toml`,
    /// given the value of `$HOME` (`None` when unset).
    pub fn from_configured_path(path: &str, home: Option<&str>) -> (res: Result<ExportConfig, PathError>)
        ensures
            match res {
                Ok(c) => tilde_expanded(path@, opt_str(home)) == Ok::<Seq<char>, PathError>(c.path@),
                Err(e) => tilde_expanded(path@, opt_str(home)) == Err::<Seq<char>, PathError>(e),
            },
    {
        match expand_tilde(path, home) {
            Ok(p) => Ok(ExportConfig { path: p }),
            Err(e) => Err(e),
        }
    }

    /// The file the export is written to: `saved-articles.md` in the
    /// export directory.
    pub fn export_file(&self) -> (res: String)
        ensures
            res@ == path_join(self.path@, export_file_name()),
    {
        join_path(self.path.as_str(), "saved-articles.md")
    }
}

} // verus!
