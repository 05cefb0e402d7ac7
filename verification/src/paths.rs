//! Where tuxwire's config files live, and `~` expansion in configured
//! paths. Paths are handled as text and joined the way `Path::join` joins
//! Unix paths.
use vstd::prelude::*;
use crate::text::{append_str, chars_of};

verus! {

/// `rest` appended to `base` as `Path::join` does on Unix: an absolute
/// `rest` replaces `base`; otherwise a `/` goes between them unless `base`
/// is empty or already ends in one.
pub open spec fn path_join(base: Seq<char>, rest: Seq<char>) -> Seq<char> {
    if rest.len() > 0 && rest[0] == '/' {
        rest
    } else if base.len() > 0 && base.last() != '/' {
        base + seq!['/'] + rest
    } else {
        base + rest
    }
}

/// Joins two paths (see `path_join`).
pub fn join_path(base: &str, rest: &str) -> (res: String)
    ensures
        res@ == path_join(base@, rest@),
{
    let r = chars_of(rest);
    if r.len() > 0 && r[0] == '/' {
        return rest.to_owned();
    }
    let b = chars_of(base);
    let mut out = base.to_owned();
    if b.len() > 0 && b[b.len() - 1] != '/' {
        append_str(&mut out, "/");
        proof {
            reveal_strlit("/");
        }
    }
    append_str(&mut out, rest);
    out
}

/// The config files tuxwire reads from its config directory.
#[derive(Clone, Copy, Debug, PartialEq, Eq, Structural)]
pub enum ConfigFile {
    Sources,
    Export,
    Theme,
}

/// A config file's name.
pub open spec fn file_name(f: ConfigFile) -> Seq<char> {
    match f {
        ConfigFile::Sources => "sources.toml"@,
        ConfigFile::Export => "export.toml"@,
        ConfigFile::Theme => "theme.toml"@,
    }
}

/// How a config file is described in error messages.
pub open spec fn file_role(f: ConfigFile) -> Seq<char> {
    match f {
        ConfigFile::Sources => "the sources config"@,
        ConfigFile::Export => "the export config"@,
        ConfigFile::Theme => "the theme config"@,
    }
}

/// A path could not be worked out because `$HOME` is not set.
#[derive(Clone, Copy, Debug, PartialEq, Eq, Structural)]
pub enum PathError {
    /// Locating the given config file needed `$HOME`.
    NoHomeForConfig(ConfigFile),
    /// Expanding `~` in `export.toml`'s path needed `$HOME`.
    NoHomeForTilde,
    /// Locating the database needed `$HOME`.
    NoHomeForData,
}

impl PathError {
    /// The message shown for this error.
    pub open spec fn text(self) -> Seq<char> {
        match self {
            PathError::NoHomeForConfig(f) => "HOME environment variable is not set -- can't locate "@
                + file_role(f),
            PathError::NoHomeForTilde => "HOME environment variable is not set -- can't expand '~' in export.toml's path"@,
            PathError::NoHomeForData => "HOME environment variable is not set -- can't locate the database"@,
        }
    }

    /// Renders the message (see `text`).
    pub fn message(&self) -> (res: String)
        ensures
            res@ == self.text(),
    {
        match self {
            PathError::NoHomeForConfig(f) => {
                let mut out = String::new();
                append_str(&mut out, "HOME environment variable is not set -- can't locate ");
                match f {
                    ConfigFile::Sources => append_str(&mut out, "the sources config"),
                    ConfigFile::Export => append_str(&mut out, "the export config"),
                    ConfigFile::Theme => append_str(&mut out, "the theme config"),
                }
                out
            },
            PathError::NoHomeForTilde => "HOME environment variable is not set -- can't expand '~' in export.toml's path".to_owned(),
            PathError::NoHomeForData => "HOME environment variable is not set -- can't locate the database".to_owned(),
        }
    }
}

/// Where config file `file` lives: `$XDG_CONFIG_HOME/tuxwire/<file>` when
/// that variable is set, else `$HOME/.config/tuxwire/<file>`.
pub open spec fn config_path(
    file: ConfigFile,
    xdg_config_home: Option<Seq<char>>,
    home: Option<Seq<char>>,
) -> Result<Seq<char>, PathError> {
    match xdg_config_home {
        Some(x) => Ok(path_join(path_join(x, "tuxwire"@), file_name(file))),
        None => match home {
            Some(h) => Ok(path_join(h, ".config/tuxwire/"@ + file_name(file))),
            None => Err(PathError::NoHomeForConfig(file)),
        },
    }
}

/// Where the database lives: `$XDG_DATA_HOME/tuxwire/tuxwire.db` when that
/// variable is set, else `$HOME/.local/share/tuxwire/tuxwire.db`.
pub open spec fn data_path(xdg_data_home: Option<Seq<char>>, home: Option<Seq<char>>) -> Result<
    Seq<char>,
    PathError,
> {
    match xdg_data_home {
        Some(x) => Ok(path_join(path_join(x, "tuxwire"@), "tuxwire.db"@)),
        None => match home {
            Some(h) => Ok(path_join(h, ".local/share/tuxwire/tuxwire.db"@)),
            None => Err(PathError::NoHomeForData),
        },
    }
}

/// Works out where the database lives (see `data_path`), given the values
/// of `$XDG_DATA_HOME` and `$HOME` (`None` when unset).
pub fn data_file_path(xdg_data_home: Option<&str>, home: Option<&str>) -> (res: Result<String, PathError>)
    ensures
        match res {
            Ok(p) => data_path(opt_str(xdg_data_home), opt_str(home)) == Ok::<Seq<char>, PathError>(p@),
            Err(e) => data_path(opt_str(xdg_data_home), opt_str(home)) == Err::<Seq<char>, PathError>(e),
        },
{
    match xdg_data_home {
        Some(x) => {
            let dir = join_path(x, "tuxwire");
            Ok(join_path(dir.as_str(), "tuxwire.db"))
        },
        None => match home {
            Some(h) => Ok(join_path(h, ".local/share/tuxwire/tuxwire.db")),
            None => Err(PathError::NoHomeForData),
        },
    }
}

/// The text of an optional string slice.
pub open spec fn opt_str(o: Option<&str>) -> Option<Seq<char>> {
    match o {
        Some(s) => Some(s@),
        None => None,
    }
}

/// Works out where config file `file` lives (see `config_path`), given the
/// values of `$XDG_CONFIG_HOME` and `$HOME` (`None` when unset).
pub fn config_file_path(file: ConfigFile, xdg_config_home: Option<&str>, home: Option<&str>) -> (res:
    Result<String, PathError>)
    ensures
        match res {
            Ok(p) => config_path(file, opt_str(xdg_config_home), opt_str(home)) == Ok::<
                Seq<char>,
                PathError,
            >(p@),
            Err(e) => config_path(file, opt_str(xdg_config_home), opt_str(home)) == Err::<
                Seq<char>,
                PathError,
            >(e),
        },
{
    let name = match file {
        ConfigFile::Sources => "sources.toml",
        ConfigFile::Export => "export.toml",
        ConfigFile::Theme => "theme.toml",
    };
    match xdg_config_home {
        Some(x) => {
            let dir = join_path(x, "tuxwire");
            Ok(join_path(dir.as_str(), name))
        },
        None => match home {
            Some(h) => {
                let mut rel = String::new();
                append_str(&mut rel, ".config/tuxwire/");
                append_str(&mut rel, name);
                Ok(join_path(h, rel.as_str()))
            },
            None => Err(PathError::NoHomeForConfig(file)),
        },
    }
}

/// `raw` with a leading `~` expanded to `$HOME`: `~/rest` becomes `rest`
/// joined onto `$HOME`, a bare `~` becomes `$HOME`, anything else is kept.
pub open spec fn tilde_expanded(raw: Seq<char>, home: Option<Seq<char>>) -> Result<Seq<char>, PathError> {
    if raw.len() >= 2 && raw[0] == '~' && raw[1] == '/' {
        match home {
            Some(h) => Ok(path_join(h, raw.skip(2))),
            None => Err(PathError::NoHomeForTilde),
        }
    } else if raw == seq!['~'] {
        match home {
            Some(h) => Ok(h),
            None => Err(PathError::NoHomeForTilde),
        }
    } else {
        Ok(raw)
    }
}

/// Expands a leading `~` in `raw` (see `tilde_expanded`), given the value
/// of `$HOME` (`None` when unset).
pub fn expand_tilde(raw: &str, home: Option<&str>) -> (res: Result<String, PathError>)
    ensures
        match res {
            Ok(p) => tilde_expanded(raw@, opt_str(home)) == Ok::<Seq<char>, PathError>(p@),
            Err(e) => tilde_expanded(raw@, opt_str(home)) == Err::<Seq<char>, PathError>(e),
        },
{
    let cs = chars_of(raw);
    if cs.len() >= 2 && cs[0] == '~' && cs[1] == '/' {
        match home {
            Some(h) => {
                let rest = crate::text::string_from_range(&cs, 2, cs.len());
                assert(cs@.subrange(2, cs@.len() as int) =~= raw@.skip(2));
                Ok(join_path(h, rest.as_str()))
            },
            None => Err(PathError::NoHomeForTilde),
        }
    } else if cs.len() == 1 && cs[0] == '~' {
        assert(raw@ =~= seq!['~']);
        match home {
            Some(h) => Ok(h.to_owned()),
            None => Err(PathError::NoHomeForTilde),
        }
    } else {
        proof {
            if raw@ == seq!['~'] {
                assert(cs@.len() == 1);
            }
        }
        Ok(raw.to_owned())
    }
}

/// Joining puts exactly one `/` between a directory and a relative name
/// (adding none when the directory already ends in one), and an absolute
/// name replaces the directory.
pub proof fn lemma_path_join_shape(base: Seq<char>, rest: Seq<char>)
    ensures
        rest.len() > 0 && rest[0] == '/' ==> path_join(base, rest) == rest,
        !(rest.len() > 0 && rest[0] == '/') && base.len() > 0 && base.last() != '/' ==> path_join(
            base,
            rest,
        ) == base + seq!['/'] + rest,
        !(rest.len() > 0 && rest[0] == '/') && base.len() > 0 && base.last() == '/' ==> path_join(
            base,
            rest,
        ) == base + rest,
        !(rest.len() > 0 && rest[0] == '/') ==> path_join(base, rest).subrange(
            0,
            base.len() as int,
        ) == base,
{
    if !(rest.len() > 0 && rest[0] == '/') {
        if base.len() > 0 && base.last() != '/' {
            assert((base + seq!['/'] + rest).subrange(0, base.len() as int) =~= base);
        } else {
            assert((base + rest).subrange(0, base.len() as int) =~= base);
        }
    }
}

/// `~` expansion: a path not starting with `~` is kept as written; a bare
/// `~` is the home directory; `~/rest` is `rest` under the home directory;
/// and expanding a `~` path without a home directory fails, never a plain
/// one.
pub proof fn lemma_tilde_expansion(raw: Seq<char>, home: Option<Seq<char>>)
    ensures
        (raw.len() == 0 || raw[0] != '~') ==> tilde_expanded(raw, home) == Ok::<
            Seq<char>,
            PathError,
        >(raw),
        raw == seq!['~'] && home is Some ==> tilde_expanded(raw, home) == Ok::<Seq<char>, PathError>(
            home->0,
        ),
        raw.len() >= 2 && raw[0] == '~' && raw[1] == '/' && home is Some ==> tilde_expanded(
            raw,
            home,
        ) == Ok::<Seq<char>, PathError>(path_join(home->0, raw.subrange(2, raw.len() as int))),
        tilde_expanded(raw, home) is Err ==> home is None && raw.len() > 0 && raw[0] == '~',
{
    if raw.len() >= 2 {
        assert(raw.skip(2) =~= raw.subrange(2, raw.len() as int));
    }
}

/// A config file is found, when `$HOME` or `$XDG_CONFIG_HOME` is known, as
/// the file of that name in a `tuxwire` directory: the path ends in
/// `tuxwire/` and the file's name. Only with neither variable is there no
/// path, and then the error names the file.
pub proof fn lemma_config_path_shape(
    file: ConfigFile,
    xdg: Option<Seq<char>>,
    home: Option<Seq<char>>,
)
    ensures
        config_path(file, xdg, home) is Err <==> xdg is None && home is None,
        config_path(file, xdg, home) is Err ==> config_path(file, xdg, home)
            == Err::<Seq<char>, PathError>(PathError::NoHomeForConfig(file)),
        config_path(file, xdg, home) matches Ok(p) ==> {
            let tail = "tuxwire/"@ + file_name(file);
            &&& p.len() >= tail.len()
            &&& p.subrange(p.len() - tail.len(), p.len() as int) == tail
        },
{
    reveal_strlit("tuxwire/");
    reveal_strlit("tuxwire");
    reveal_strlit(".config/tuxwire/");
    reveal_strlit("sources.toml");
    reveal_strlit("export.toml");
    reveal_strlit("theme.toml");
    let name = file_name(file);
    let tail = "tuxwire/"@ + name;
    assert(name.len() > 0 && name[0] != '/');
    match xdg {
        Some(x) => {
            let dir = path_join(x, "tuxwire"@);
            assert(dir.len() >= 7 && dir.subrange(dir.len() - 7, dir.len() as int) =~= "tuxwire"@) by {
                if x.len() > 0 && x.last() != '/' {
                    assert((x + seq!['/'] + "tuxwire"@).subrange(x.len() as int + 1, x.len() as int + 8) =~= "tuxwire"@);
                } else {
                    assert((x + "tuxwire"@).subrange(x.len() as int, x.len() as int + 7) =~= "tuxwire"@);
                }
            }
            assert(dir.last() != '/');
            let p = dir + seq!['/'] + name;
            assert(path_join(dir, name) == p);
            assert(p.subrange(p.len() - tail.len(), p.len() as int) =~= tail);
        },
        None => match home {
            Some(h) => {
                let rest = ".config/tuxwire/"@ + name;
                let p = path_join(h, rest);
                assert(rest[0] == '.');
                if h.len() > 0 && h.last() != '/' {
                    assert(p == h + seq!['/'] + rest);
                } else {
                    assert(p == h + rest);
                }
                assert(p.subrange(p.len() - tail.len(), p.len() as int) =~= tail);
            },
            None => {},
        },
    }
}

/// The database is found, when `$HOME` or `$XDG_DATA_HOME` is known, as
/// `tuxwire.db` in a `tuxwire` directory; only with neither variable is
/// there no path.
pub proof fn lemma_data_path_shape(xdg: Option<Seq<char>>, home: Option<Seq<char>>)
    ensures
        data_path(xdg, home) is Err <==> xdg is None && home is None,
        data_path(xdg, home) matches Ok(p) ==> {
            let tail = "tuxwire/tuxwire.db"@;
            &&& p.len() >= tail.len()
            &&& p.subrange(p.len() - tail.len(), p.len() as int) == tail
        },
{
    reveal_strlit("tuxwire/tuxwire.db");
    reveal_strlit("tuxwire");
    reveal_strlit("tuxwire.db");
    reveal_strlit(".local/share/tuxwire/tuxwire.db");
    let name = "tuxwire.db"@;
    let tail = "tuxwire/tuxwire.db"@;
    match xdg {
        Some(x) => {
            let dir = path_join(x, "tuxwire"@);
            assert(dir.len() >= 7 && dir.subrange(dir.len() - 7, dir.len() as int) =~= "tuxwire"@) by {
                if x.len() > 0 && x.last() != '/' {
                    assert((x + seq!['/'] + "tuxwire"@).subrange(x.len() as int + 1, x.len() as int + 8)
                        =~= "tuxwire"@);
                } else {
                    assert((x + "tuxwire"@).subrange(x.len() as int, x.len() as int + 7) =~= "tuxwire"@);
                }
            }
            assert(dir.last() != '/');
            let p = dir + seq!['/'] + name;
            assert(path_join(dir, name) == p);
            assert(p.subrange(p.len() - tail.len(), p.len() as int) =~= tail);
        },
        None => match home {
            Some(h) => {
                let rest = ".local/share/tuxwire/tuxwire.db"@;
                let p = path_join(h, rest);
                if h.len() > 0 && h.last() != '/' {
                    assert(p == h + seq!['/'] + rest);
                } else {
                    assert(p == h + rest);
                }
                assert(p.subrange(p.len() - tail.len(), p.len() as int) =~= tail);
            },
            None => {},
        },
    }
}

} // verus!
