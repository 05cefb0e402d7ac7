//! Validation of the `[[source]]` entries read from `sources.toml`: every
//! entry must name a known source type and carry a non-empty name, url and
//! topic before it becomes a `SourceConfig`.
use vstd::prelude::*;
use crate::text::{append_str, decimal, decimal_string, occurs_in, same_text};

verus! {

/// Which fetcher a `[[source]]` entry's `type = "..."` names.
#[derive(Clone, Copy, Debug, PartialEq, Eq, Structural)]
pub enum SourceType {
    Rss,
    Reddit,
}

/// The source type spelled `name` in `sources.toml` (`"rss"` or `"reddit"`).
pub open spec fn source_type_named(name: Seq<char>) -> Option<SourceType> {
    if name == "rss"@ {
        Some(SourceType::Rss)
    } else if name == "reddit"@ {
        Some(SourceType::Reddit)
    } else {
        None
    }
}

impl SourceType {
    /// The source type spelled `name`, if it is one.
    pub fn from_name(name: &str) -> (res: Option<SourceType>)
        ensures
            res == source_type_named(name@),
    {
        if same_text(name, "rss") {
            Some(SourceType::Rss)
        } else if same_text(name, "reddit") {
            Some(SourceType::Reddit)
        } else {
            None
        }
    }
}

/// One fully validated `[[source]]` entry.
pub struct SourceConfig {
    pub name: String,
    pub source_type: SourceType,
    pub url: String,
    pub topic: String,
}

/// One `[[source]]` block as read from the file, before validation; each
/// field is `None` when the key is absent. `source_type` is the text of
/// the `type` key.
pub struct RawSource {
    pub name: Option<String>,
    pub source_type: Option<String>,
    pub url: Option<String>,
    pub topic: Option<String>,
}

/// A required field of a `[[source]]` block.
#[derive(Clone, Copy, Debug, PartialEq, Eq, Structural)]
pub enum SourceField {
    Name,
    Type,
    Url,
    Topic,
}

/// Why `sources.toml` was rejected.
pub enum ConfigError {
    /// Source number `index + 1` lacks `field` (or has it empty).
    MissingField { index: usize, name: Option<String>, field: SourceField },
    /// Source number `index + 1` names a `type` that is neither `rss` nor `reddit`.
    UnknownSourceType { index: usize, name: Option<String>, value: String },
}

/// A field that is present and not empty.
pub open spec fn filled(o: Option<String>) -> bool {
    o matches Some(s) && s@.len() > 0
}

impl RawSource {
    /// The `type` key is present and names a known source type.
    pub open spec fn type_known(self) -> bool {
        self.source_type matches Some(t) && source_type_named(t@) is Some
    }

    /// The `type` key is present but names no known source type.
    pub open spec fn type_unknown(self) -> bool {
        self.source_type matches Some(t) && source_type_named(t@) is None
    }

    /// Every required field is there: name, a known type, url and topic,
    /// the three text fields not empty.
    pub open spec fn complete(self) -> bool {
        filled(self.name) && self.type_known() && filled(self.url) && filled(self.topic)
    }

    /// The error for an incomplete block at position `index`: the first
    /// problem in the order name, type, url, topic.
    pub open spec fn problem(self, index: usize) -> ConfigError {
        if !filled(self.name) {
            ConfigError::MissingField { index, name: self.name, field: SourceField::Name }
        } else if self.source_type is None {
            ConfigError::MissingField { index, name: self.name, field: SourceField::Type }
        } else if self.type_unknown() {
            ConfigError::UnknownSourceType { index, name: self.name, value: self.source_type->0 }
        } else if !filled(self.url) {
            ConfigError::MissingField { index, name: self.name, field: SourceField::Url }
        } else {
            ConfigError::MissingField { index, name: self.name, field: SourceField::Topic }
        }
    }

    /// `c` is the configuration a complete block describes.
    pub open spec fn describes(self, c: SourceConfig) -> bool {
        &&& c.name@ == self.name->0@
        &&& Some(c.source_type) == source_type_named(self.source_type->0@)
        &&& c.url@ == self.url->0@
        &&& c.topic@ == self.topic->0@
    }

    /// Turns one block, at 0-based position `index` in the file, into a
    /// `SourceConfig`, or the error naming the first missing field.
    pub fn validate(self, index: usize) -> (res: Result<SourceConfig, ConfigError>)
        ensures
            match res {
                Ok(c) => self.complete() && self.describes(c),
                Err(e) => !self.complete() && e == self.problem(index),
            },
            res matches Ok(c) ==> {
                &&& self.name == Some(c.name) && c.name@.len() > 0
                &&& self.url == Some(c.url) && c.url@.len() > 0
                &&& self.topic == Some(c.topic) && c.topic@.len() > 0
                &&& (c.source_type == SourceType::Rss) == (self.source_type->0@ == "rss"@)
                &&& (c.source_type == SourceType::Reddit) == (self.source_type->0@ == "reddit"@)
            },
            res matches Err(ConfigError::MissingField { field: SourceField::Name, .. }) ==> !filled(
                self.name,
            ),
            res matches Err(ConfigError::MissingField { field: SourceField::Type, .. })
                ==> self.source_type is None,
            res matches Err(ConfigError::MissingField { field: SourceField::Url, .. }) ==> !filled(
                self.url,
            ),
            res matches Err(ConfigError::MissingField { field: SourceField::Topic, .. }) ==> !filled(
                self.topic,
            ),
            res matches Err(ConfigError::UnknownSourceType { value, .. }) ==> self.source_type
                == Some(value) && value@ != "rss"@ && value@ != "reddit"@,
            res matches Err(e) ==> (e matches ConfigError::MissingField { index: i, name: n, .. }
                && i == index && n == self.name) || (e matches ConfigError::UnknownSourceType {
                index: i,
                name: n,
                ..
            } && i == index && n == self.name),
    {
        let name_ok = match &self.name {
            Some(n) => !n.as_str().is_empty(),
            None => false,
        };
        if !name_ok {
            return Err(ConfigError::MissingField { index, name: self.name, field: SourceField::Name });
        }
        let kind = match &self.source_type {
            Some(t) => SourceType::from_name(t.as_str()),
            None => {
                return Err(
                    ConfigError::MissingField { index, name: self.name, field: SourceField::Type },
                );
            },
        };
        let source_type = match kind {
            Some(k) => k,
            None => {
                let value = self.source_type.unwrap();
                return Err(ConfigError::UnknownSourceType { index, name: self.name, value });
            },
        };
        let url_ok = match &self.url {
            Some(u) => !u.as_str().is_empty(),
            None => false,
        };
        if !url_ok {
            return Err(ConfigError::MissingField { index, name: self.name, field: SourceField::Url });
        }
        let topic_ok = match &self.topic {
            Some(t) => !t.as_str().is_empty(),
            None => false,
        };
        if !topic_ok {
            return Err(
                ConfigError::MissingField { index, name: self.name, field: SourceField::Topic },
            );
        }
        proof {
            reveal_strlit("rss");
            reveal_strlit("reddit");
            assert("reddit"@.len() != "rss"@.len());
        }
        Ok(SourceConfig {
            name: self.name.unwrap(),
            source_type,
            url: self.url.unwrap(),
            topic: self.topic.unwrap(),
        })
    }
}

/// `source #<n>`, followed by ` ("<name>")` when the block has a name.
pub open spec fn source_label(index: usize, name: Option<String>) -> Seq<char> {
    "source #"@ + decimal((index + 1) as nat) + match name {
        Some(n) => " (\""@ + n@ + "\")"@,
        None => Seq::empty(),
    }
}

/// The key a field is written under in `sources.toml`.
pub open spec fn field_key(field: SourceField) -> Seq<char> {
    match field {
        SourceField::Name => "name"@,
        SourceField::Type => "type"@,
        SourceField::Url => "url"@,
        SourceField::Topic => "topic"@,
    }
}

/// The explanation appended after the missing-field sentence.
pub open spec fn field_hint(field: SourceField) -> Seq<char> {
    match field {
        SourceField::Type => " (expected \"rss\" or \"reddit\")"@,
        SourceField::Topic => " -- every source needs exactly one topic (see docs/ARCHITECTURE.md § sources.toml). Add e.g. topic = \"linux\" to this [[source]] block."@,
        _ => Seq::empty(),
    }
}

impl ConfigError {
    /// The message shown to the user for this error.
    pub open spec fn text(self) -> Seq<char> {
        match self {
            ConfigError::MissingField { index, name, field } => source_label(index, name)
                + " in sources.toml is missing a required '"@ + field_key(field) + "' field"@
                + field_hint(field),
            ConfigError::UnknownSourceType { index, name, value } => source_label(index, name)
                + " in sources.toml has unknown type \""@ + value@
                + "\" (expected \"rss\" or \"reddit\")"@,
        }
    }

    /// Renders the error message (see `text`).
    pub fn message(&self) -> (res: String)
        ensures
            res@ == self.text(),
    {
        let (index, name) = match self {
            ConfigError::MissingField { index, name, .. } => (*index, name),
            ConfigError::UnknownSourceType { index, name, .. } => (*index, name),
        };
        let mut out = String::new();
        append_str(&mut out, "source #");
        let n = decimal_string(index as u128 + 1);
        append_str(&mut out, n.as_str());
        match name {
            Some(nm) => {
                append_str(&mut out, " (\"");
                append_str(&mut out, nm.as_str());
                append_str(&mut out, "\")");
            },
            None => {},
        }
        let ghost label = out@;
        assert(label =~= source_label(index, *name));
        match self {
            ConfigError::MissingField { field, .. } => {
                append_str(&mut out, " in sources.toml is missing a required '");
                let key = match field {
                    SourceField::Name => "name",
                    SourceField::Type => "type",
                    SourceField::Url => "url",
                    SourceField::Topic => "topic",
                };
                append_str(&mut out, key);
                append_str(&mut out, "' field");
                let hint = match field {
                    SourceField::Type => " (expected \"rss\" or \"reddit\")",
                    SourceField::Topic => " -- every source needs exactly one topic (see docs/ARCHITECTURE.md § sources.toml). Add e.g. topic = \"linux\" to this [[source]] block.",
                    _ => "",
                };
                append_str(&mut out, hint);
                proof {
                    if *field != SourceField::Type && *field != SourceField::Topic {
                        reveal_strlit("");
                    }
                }
                assert(out@ =~= self.text());
            },
            ConfigError::UnknownSourceType { value, .. } => {
                append_str(&mut out, " in sources.toml has unknown type \"");
                append_str(&mut out, value.as_str());
                append_str(&mut out, "\" (expected \"rss\" or \"reddit\")");
                assert(out@ =~= self.text());
            },
        }
        out
    }
}

/// Index of the first block whose `type` names no known source type.
pub open spec fn first_unknown_type(raw: Seq<RawSource>) -> Option<int>
    decreases raw.len(),
{
    if raw.len() == 0 {
        None
    } else if raw.last().type_unknown() {
        match first_unknown_type(raw.drop_last()) {
            Some(i) => Some(i),
            None => Some(raw.len() - 1),
        }
    } else {
        first_unknown_type(raw.drop_last())
    }
}

/// Index of the first incomplete block.
pub open spec fn first_incomplete(raw: Seq<RawSource>) -> Option<int>
    decreases raw.len(),
{
    if raw.len() == 0 {
        None
    } else if !raw.last().complete() {
        match first_incomplete(raw.drop_last()) {
            Some(i) => Some(i),
            None => Some(raw.len() - 1),
        }
    } else {
        first_incomplete(raw.drop_last())
    }
}

/// `first_unknown_type` is the least index of a block with an unknown type.
pub proof fn lemma_first_unknown_type(raw: Seq<RawSource>)
    ensures
        match first_unknown_type(raw) {
            Some(i) => 0 <= i < raw.len() && raw[i].type_unknown() && forall|j: int|
                0 <= j < i ==> !(#[trigger] raw[j]).type_unknown(),
            None => forall|j: int| 0 <= j < raw.len() ==> !(#[trigger] raw[j]).type_unknown(),
        },
    decreases raw.len(),
{
    if raw.len() > 0 {
        lemma_first_unknown_type(raw.drop_last());
        assert(forall|j: int| 0 <= j < raw.len() - 1 ==> raw.drop_last()[j] == raw[j]);
    }
}

/// `first_incomplete` is the least index of an incomplete block.
pub proof fn lemma_first_incomplete(raw: Seq<RawSource>)
    ensures
        match first_incomplete(raw) {
            Some(i) => 0 <= i < raw.len() && !raw[i].complete() && forall|j: int|
                0 <= j < i ==> (#[trigger] raw[j]).complete(),
            None => forall|j: int| 0 <= j < raw.len() ==> (#[trigger] raw[j]).complete(),
        },
    decreases raw.len(),
{
    if raw.len() > 0 {
        lemma_first_incomplete(raw.drop_last());
        assert(forall|j: int| 0 <= j < raw.len() - 1 ==> raw.drop_last()[j] == raw[j]);
    }
}

/// The error a whole file of blocks is rejected with, if any: an unknown
/// `type` anywhere rejects the file outright (the first such block is
/// named); otherwise the first incomplete block is reported.
pub open spec fn sources_error(raw: Seq<RawSource>) -> Option<ConfigError> {
    match first_unknown_type(raw) {
        Some(i) => Some(
            ConfigError::UnknownSourceType {
                index: i as usize,
                name: raw[i].name,
                value: raw[i].source_type->0,
            },
        ),
        None => match first_incomplete(raw) {
            Some(i) => Some(raw[i].problem(i as usize)),
            None => None,
        },
    }
}

/// Validates every block of `sources.toml`, in file order. On success the
/// i-th configuration is the one the i-th block describes.
pub fn validate_sources(raw: Vec<RawSource>) -> (res: Result<Vec<SourceConfig>, ConfigError>)
    ensures
        match res {
            Ok(v) => sources_error(raw@) is None && v@.len() == raw@.len() && forall|i: int|
                0 <= i < raw@.len() ==> (#[trigger] raw@[i]).describes(v@[i]),
            Err(e) => sources_error(raw@) == Some(e),
        },
{
    let ghost orig = raw@;
    proof {
        lemma_first_unknown_type(orig);
        lemma_first_incomplete(orig);
    }
    let mut rest = raw;
    let n = rest.len();
    let mut k: usize = 0;
    while k < n
        invariant
            rest@ == orig,
            orig == raw@,
            n == orig.len(),
            k <= n,
            forall|j: int| 0 <= j < k ==> !(#[trigger] orig[j]).type_unknown(),
        decreases n - k,
    {
        let unknown = match &rest[k].source_type {
            Some(t) => SourceType::from_name(t.as_str()).is_none(),
            None => false,
        };
        if unknown {
            let entry = rest.remove(k);
            proof {
                lemma_first_unknown_type(orig);
            }
            assert(first_unknown_type(orig) == Some(k as int));
            let value = entry.source_type.unwrap();
            let err = ConfigError::UnknownSourceType { index: k, name: entry.name, value };
            return Err(err);
        }
        k += 1;
    }
    proof {
        lemma_first_unknown_type(orig);
    }
    assert(first_unknown_type(orig) is None);
    let mut out: Vec<SourceConfig> = Vec::new();
    let mut i: usize = 0;
    while i < n
        invariant
            orig == raw@,
            n == orig.len(),
            i <= n,
            rest@ == orig.subrange(i as int, n as int),
            first_unknown_type(orig) is None,
            out@.len() == i,
            forall|j: int| 0 <= j < i ==> (#[trigger] orig[j]).complete() && orig[j].describes(out@[j]),
        decreases n - i,
    {
        let entry = rest.remove(0);
        assert(entry == orig[i as int]);
        match entry.validate(i) {
            Ok(c) => {
                out.push(c);
            },
            Err(e) => {
                proof {
                    lemma_first_incomplete(orig);
                }
                assert(first_incomplete(orig) == Some(i as int));
                return Err(e);
            },
        }
        assert(rest@ =~= orig.subrange(i + 1, n as int));
        i += 1;
    }
    proof {
        lemma_first_incomplete(orig);
    }
    assert(first_incomplete(orig) is None);
    Ok(out)
}

/// `middle` occurs in `a + middle + b`.
proof fn lemma_occurs_between(a: Seq<char>, middle: Seq<char>, b: Seq<char>)
    ensures
        occurs_in(middle, a + middle + b),
{
    let hay = a + middle + b;
    let i = a.len() as int;
    assert(hay.subrange(i, i + middle.len()) =~= middle);
}

/// The message for a block missing a field names the field's key and,
/// when the block has a name, the source's name.
pub proof fn lemma_missing_field_message_names_source_and_field(
    index: usize,
    name: Option<String>,
    field: SourceField,
)
    ensures
        occurs_in(field_key(field), ConfigError::MissingField { index, name, field }.text()),
        name is Some ==> occurs_in(name->0@, ConfigError::MissingField { index, name, field }.text()),
{
    let label = source_label(index, name);
    let before = label + " in sources.toml is missing a required '"@;
    let after = "' field"@ + field_hint(field);
    let text = ConfigError::MissingField { index, name, field }.text();
    assert(text =~= before + field_key(field) + after);
    lemma_occurs_between(before, field_key(field), after);
    if name is Some {
        let n = name->0@;
        let head = "source #"@ + decimal((index + 1) as nat) + " (\""@;
        let tail = "\")"@ + " in sources.toml is missing a required '"@ + field_key(field) + after;
        assert(text =~= head + n + tail);
        lemma_occurs_between(head, n, tail);
    }
}

/// The message for an unknown source type names the type that was given
/// and, when the block has a name, the source's name.
pub proof fn lemma_unknown_type_message_names_source_and_type(
    index: usize,
    name: Option<String>,
    value: String,
)
    ensures
        occurs_in(value@, ConfigError::UnknownSourceType { index, name, value }.text()),
        name is Some ==> occurs_in(
            name->0@,
            ConfigError::UnknownSourceType { index, name, value }.text(),
        ),
{
    let label = source_label(index, name);
    let before = label + " in sources.toml has unknown type \""@;
    let after = "\" (expected \"rss\" or \"reddit\")"@;
    let text = ConfigError::UnknownSourceType { index, name, value }.text();
    assert(text =~= before + value@ + after);
    lemma_occurs_between(before, value@, after);
    if name is Some {
        let n = name->0@;
        let head = "source #"@ + decimal((index + 1) as nat) + " (\""@;
        let tail = "\")"@ + " in sources.toml has unknown type \""@ + value@ + after;
        assert(text =~= head + n + tail);
        lemma_occurs_between(head, n, tail);
    }
}

} // verus!
