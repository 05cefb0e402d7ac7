use tuxwire::export::ExportConfig;
use tuxwire::paths::{config_file_path, data_file_path, expand_tilde, join_path, ConfigFile, PathError};

#[test]
fn join_path_inserts_one_separator() {
    assert_eq!(join_path("/home/me", "notes"), "/home/me/notes");
    assert_eq!(join_path("/home/me/", "notes"), "/home/me/notes");
    assert_eq!(join_path("", "notes"), "notes");
    assert_eq!(join_path("/home/me", "/etc/notes"), "/etc/notes");
}

#[test]
fn config_files_live_under_xdg_or_home() {
    assert_eq!(
        config_file_path(ConfigFile::Sources, Some("/xdg"), Some("/home/me")),
        Ok("/xdg/tuxwire/sources.toml".to_string())
    );
    assert_eq!(
        config_file_path(ConfigFile::Export, None, Some("/home/me")),
        Ok("/home/me/.config/tuxwire/export.toml".to_string())
    );
    assert_eq!(
        config_file_path(ConfigFile::Sources, None, None),
        Err(PathError::NoHomeForConfig(ConfigFile::Sources))
    );
    assert_eq!(
        PathError::NoHomeForConfig(ConfigFile::Sources).message(),
        "HOME environment variable is not set -- can't locate the sources config"
    );
}

#[test]
fn tilde_expands_to_home() {
    assert_eq!(expand_tilde("~/tuxwire-notes/", Some("/home/me")), Ok("/home/me/tuxwire-notes/".to_string()));
    assert_eq!(expand_tilde("~", Some("/home/me")), Ok("/home/me".to_string()));
    assert_eq!(expand_tilde("/srv/notes", None), Ok("/srv/notes".to_string()));
    assert_eq!(expand_tilde("~other/notes", Some("/home/me")), Ok("~other/notes".to_string()));
    assert_eq!(expand_tilde("~/notes", None), Err(PathError::NoHomeForTilde));
    assert_eq!(
        PathError::NoHomeForTilde.message(),
        "HOME environment variable is not set -- can't expand '~' in export.toml's path"
    );
}

#[test]
fn export_config_expands_the_configured_path() {
    let config = match ExportConfig::from_configured_path("~/tuxwire-notes/", Some("/home/me")) {
        Ok(c) => c,
        Err(_) => panic!("HOME is given"),
    };
    assert_eq!(config.path, "/home/me/tuxwire-notes/");
    assert_eq!(config.export_file(), "/home/me/tuxwire-notes/saved-articles.md");
    assert!(ExportConfig::from_configured_path("~/x", None).is_err());
}

#[test]
fn the_database_lives_under_xdg_data_or_home() {
    assert_eq!(data_file_path(Some("/xdg-data"), Some("/home/me")), Ok("/xdg-data/tuxwire/tuxwire.db".to_string()));
    assert_eq!(data_file_path(None, Some("/home/me")), Ok("/home/me/.local/share/tuxwire/tuxwire.db".to_string()));
    assert_eq!(data_file_path(None, None), Err(PathError::NoHomeForData));
    assert_eq!(
        PathError::NoHomeForData.message(),
        "HOME environment variable is not set -- can't locate the database"
    );
    assert_eq!(
        config_file_path(ConfigFile::Theme, None, Some("/home/me")),
        Ok("/home/me/.config/tuxwire/theme.toml".to_string())
    );
}
