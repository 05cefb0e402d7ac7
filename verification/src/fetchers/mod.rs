//! Configured sources: one variant per source type, resolved from the
//! validated `sources.toml` entries.
pub mod config;
pub mod reddit;
pub mod rss;

use vstd::prelude::*;
use crate::fetchers::config::{sources_error, validate_sources, ConfigError, RawSource, SourceConfig, SourceType};
use crate::fetchers::reddit::RedditFetcher;
use crate::fetchers::rss::RssFetcher;
use crate::text::{append_str, same_text};

verus! {

/// Why fetching one source failed.
pub enum FetchError {
    /// The downloaded text is not a feed.
    Parse { source_name: String, url: String, detail: String },
    /// The source's type cannot be fetched yet.
    Unsupported { source_name: String, url: String },
}

impl FetchError {
    /// The message shown (or logged) for this failure.
    pub open spec fn text(self) -> Seq<char> {
        match self {
            FetchError::Parse { source_name, url, detail } => "fetching '"@ + source_name@
                + "': failed to parse feed XML from "@ + url@ + ": "@ + detail@,
            FetchError::Unsupported { source_name, url } => "source '"@ + source_name@
                + "' (subreddit '"@ + url@
                + "') has type = \"reddit\", which isn't implemented yet -- skipping. Only type = \"rss\" sources are fetched in this version (see docs/ARCHITECTURE.md's Roadmap)."@,
        }
    }

    /// Renders the message (see `text`).
    pub fn message(&self) -> (res: String)
        ensures
            res@ == self.text(),
    {
        let mut out = String::new();
        match self {
            FetchError::Parse { source_name, url, detail } => {
                append_str(&mut out, "fetching '");
                append_str(&mut out, source_name.as_str());
                append_str(&mut out, "': failed to parse feed XML from ");
                append_str(&mut out, url.as_str());
                append_str(&mut out, ": ");
                append_str(&mut out, detail.as_str());
            },
            FetchError::Unsupported { source_name, url } => {
                append_str(&mut out, "source '");
                append_str(&mut out, source_name.as_str());
                append_str(&mut out, "' (subreddit '");
                append_str(&mut out, url.as_str());
                append_str(
                    &mut out,
                    "') has type = \"reddit\", which isn't implemented yet -- skipping. Only type = \"rss\" sources are fetched in this version (see docs/ARCHITECTURE.md's Roadmap).",
                );
            },
        }
        out
    }
}

/// One configured source, resolved into the fetcher its `type` names.
pub enum ConfiguredSource {
    Rss(RssFetcher),
    Reddit(RedditFetcher),
}

impl ConfiguredSource {
    /// The source's name, whichever fetcher it is.
    pub open spec fn spec_name(&self) -> Seq<char> {
        match self {
            ConfiguredSource::Rss(f) => f.name@,
            ConfiguredSource::Reddit(f) => f.name@,
        }
    }

    /// The source's topic, whichever fetcher it is.
    pub open spec fn spec_topic(&self) -> Seq<char> {
        match self {
            ConfiguredSource::Rss(f) => f.topic@,
            ConfiguredSource::Reddit(f) => f.topic@,
        }
    }

    /// The source's URL, whichever fetcher it is.
    pub open spec fn spec_url(&self) -> Seq<char> {
        match self {
            ConfiguredSource::Rss(f) => f.url@,
            ConfiguredSource::Reddit(f) => f.url@,
        }
    }

    /// The source type this source was resolved from.
    pub open spec fn kind(&self) -> SourceType {
        match self {
            ConfiguredSource::Rss(_) => SourceType::Rss,
            ConfiguredSource::Reddit(_) => SourceType::Reddit,
        }
    }

    /// This source's human-readable name.
    pub fn name(&self) -> (res: &str)
        ensures
            res@ == self.spec_name(),
    {
        match self {
            ConfiguredSource::Rss(fetcher) => fetcher.name.as_str(),
            ConfiguredSource::Reddit(fetcher) => fetcher.name.as_str(),
        }
    }

    /// This source's configured topic.
    pub fn topic(&self) -> (res: &str)
        ensures
            res@ == self.spec_topic(),
    {
        match self {
            ConfiguredSource::Rss(fetcher) => fetcher.topic.as_str(),
            ConfiguredSource::Reddit(fetcher) => fetcher.topic.as_str(),
        }
    }

    /// `self` is the source that configuration `c` resolves to.
    pub open spec fn resolves(self, c: SourceConfig) -> bool {
        &&& self.kind() == c.source_type
        &&& self.spec_name() == c.name@
        &&& self.spec_url() == c.url@
        &&& self.spec_topic() == c.topic@
    }

    /// Resolves one validated configuration into its fetcher.
    pub fn from_config(c: SourceConfig) -> (res: ConfiguredSource)
        ensures
            res.resolves(c),
            res.spec_name() == c.name@,
            res.spec_url() == c.url@,
            res.spec_topic() == c.topic@,
            (res is Rss) == (c.source_type == SourceType::Rss),
    {
        let ghost c0 = c;
        match c.source_type {
            SourceType::Rss => ConfiguredSource::Rss(
                RssFetcher { name: c.name, url: c.url, topic: c.topic },
            ),
            SourceType::Reddit => ConfiguredSource::Reddit(
                RedditFetcher { name: c.name, url: c.url, topic: c.topic },
            ),
        }
    }
}

/// `s` is the source the (complete) block `r` describes.
pub open spec fn resolved_from(r: RawSource, s: ConfiguredSource) -> bool {
    &&& Some(s.kind()) == config::source_type_named(r.source_type->0@)
    &&& s.spec_name() == r.name->0@
    &&& s.spec_url() == r.url->0@
    &&& s.spec_topic() == r.topic->0@
}

/// Validates the `[[source]]` blocks read from `sources.toml` and resolves
/// each into a fetcher, in file order; fails exactly as `validate_sources`
/// does.
pub fn configured_sources(raw: Vec<RawSource>) -> (res: Result<Vec<ConfiguredSource>, ConfigError>)
    ensures
        match res {
            Ok(v) => sources_error(raw@) is None && v@.len() == raw@.len() && forall|i: int|
                0 <= i < raw@.len() ==> resolved_from(#[trigger] raw@[i], v@[i]),
            Err(e) => sources_error(raw@) == Some(e),
        },
        res matches Ok(v) ==> forall|i: int|
            0 <= i < raw@.len() ==> {
                &&& (#[trigger] v@[i]).spec_url() == raw@[i].url->0@
                &&& v@[i].spec_name() == raw@[i].name->0@
                &&& v@[i].spec_topic() == raw@[i].topic->0@
            },
{
    let ghost orig = raw@;
    let mut configs = match validate_sources(raw) {
        Ok(v) => v,
        Err(e) => {
            return Err(e);
        },
    };
    let ghost cs = configs@;
    let n = configs.len();
    let mut out: Vec<ConfiguredSource> = Vec::new();
    let mut i: usize = 0;
    while i < n
        invariant
            n == cs.len(),
            orig == raw@,
            cs.len() == orig.len(),
            forall|j: int| 0 <= j < orig.len() ==> (#[trigger] orig[j]).describes(cs[j]),
            i <= n,
            configs@ == cs.subrange(i as int, n as int),
            out@.len() == i,
            forall|j: int| 0 <= j < i ==> resolved_from(orig[j], #[trigger] out@[j]),
        decreases n - i,
    {
        let c = configs.remove(0);
        assert(c == cs[i as int]);
        let s = ConfiguredSource::from_config(c);
        assert(orig[i as int].describes(cs[i as int]));
        out.push(s);
        assert(configs@ =~= cs.subrange(i + 1, n as int));
        i += 1;
    }
    Ok(out)
}

/// Positions, in increasing order, of exactly the sources filed under
/// `topic`.
pub fn sources_for_topic(sources: &Vec<ConfiguredSource>, topic: &str) -> (res: Vec<usize>)
    ensures
        forall|k: int| 0 <= k < res@.len() ==> (#[trigger] res@[k]) < sources@.len()
            && sources@[res@[k] as int].spec_topic() == topic@,
        forall|k: int, l: int| 0 <= k < l < res@.len() ==> res@[k] < res@[l],
        forall|j: int|
            0 <= j < sources@.len() && (#[trigger] sources@[j]).spec_topic() == topic@ ==> res@.contains(
                j as usize,
            ),
{
    let mut out: Vec<usize> = Vec::new();
    let mut i: usize = 0;
    while i < sources.len()
        invariant
            i <= sources@.len(),
            forall|k: int| 0 <= k < out@.len() ==> (#[trigger] out@[k]) < i
                && sources@[out@[k] as int].spec_topic() == topic@,
            forall|k: int, l: int| 0 <= k < l < out@.len() ==> out@[k] < out@[l],
            forall|j: int|
                0 <= j < i && (#[trigger] sources@[j]).spec_topic() == topic@ ==> out@.contains(
                    j as usize,
                ),
        decreases sources.len() - i,
    {
        if same_text(sources[i].topic(), topic) {
            let ghost before = out@;
            out.push(i);
            assert forall|j: int|
                0 <= j < i + 1 && (#[trigger] sources@[j]).spec_topic() == topic@ implies out@.contains(
                j as usize,
            ) by {
                if j < i {
                    let w = choose|w: int| 0 <= w < before.len() && before[w] == j as usize;
                    assert(out@[w] == j as usize);
                } else {
                    assert(out@[before.len() as int] == i);
                }
            }
        }
        i += 1;
    }
    out
}

/// A resolved source fetches the URL its block gives, under the block's
/// name and topic, with the fetcher its `type` names.
pub proof fn lemma_resolved_source_keeps_the_block(r: RawSource, s: ConfiguredSource)
    requires
        resolved_from(r, s),
    ensures
        s.spec_url() == r.url->0@,
        s.spec_name() == r.name->0@,
        s.spec_topic() == r.topic->0@,
        r.source_type->0@ == "rss"@ ==> s is Rss,
        r.source_type->0@ == "reddit"@ ==> s is Reddit,
{
    reveal_strlit("rss");
    reveal_strlit("reddit");
    assert("reddit"@ != "rss"@) by {
        assert("reddit"@.len() != "rss"@.len());
    }
}

} // verus!
