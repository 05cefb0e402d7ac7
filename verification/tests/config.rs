use tuxwire::fetchers::config::{validate_sources, ConfigError, RawSource, SourceField, SourceType};
use tuxwire::fetchers::{configured_sources, sources_for_topic, ConfiguredSource};

fn raw(name: Option<&str>, kind: Option<&str>, url: Option<&str>, topic: Option<&str>) -> RawSource {
    RawSource {
        name: name.map(str::to_string),
        source_type: kind.map(str::to_string),
        url: url.map(str::to_string),
        topic: topic.map(str::to_string),
    }
}

#[test]
fn parses_valid_sources() {
    let raws = vec![
        raw(Some("Phoronix"), Some("rss"), Some("https://www.phoronix.com/rss.php"), Some("kernel")),
        raw(Some("r/linux"), Some("reddit"), Some("linux"), Some("distros")),
    ];
    let sources = validate_sources(raws).ok().unwrap();

    assert_eq!(sources.len(), 2);
    assert_eq!(sources[0].source_type, SourceType::Rss);
    assert_eq!(sources[1].source_type, SourceType::Reddit);
}

#[test]
fn missing_topic_fails_with_clear_message() {
    let source = raw(Some("Phoronix"), Some("rss"), Some("https://www.phoronix.com/rss.php"), None);
    let err = match source.validate(0) {
        Ok(_) => panic!("a source without a topic must not validate"),
        Err(e) => e,
    };

    let message = err.message();
    assert!(message.contains("Phoronix"), "error should name the source: {message}");
    assert!(message.contains("topic"), "error should name the missing field: {message}");
}

#[test]
fn unknown_source_type_fails() {
    let raws = vec![raw(Some("Mystery Source"), Some("carrier-pigeon"), Some("https://example.com/feed"), Some("linux"))];
    let result = validate_sources(raws);
    assert!(result.is_err(), "an unrecognized source type must fail to parse");
}

#[test]
fn missing_field_messages_are_exact() {
    let e = match raw(None, Some("rss"), Some("u"), Some("t")).validate(2) {
        Err(e) => e,
        Ok(_) => panic!(),
    };
    assert!(matches!(e, ConfigError::MissingField { index: 2, field: SourceField::Name, .. }));
    assert_eq!(e.message(), "source #3 in sources.toml is missing a required 'name' field");

    let e = match raw(Some("A"), None, Some("u"), Some("t")).validate(0) {
        Err(e) => e,
        Ok(_) => panic!(),
    };
    assert_eq!(
        e.message(),
        "source #1 (\"A\") in sources.toml is missing a required 'type' field (expected \"rss\" or \"reddit\")"
    );

    let e = match raw(Some("A"), Some("rss"), Some(""), Some("t")).validate(9) {
        Err(e) => e,
        Ok(_) => panic!(),
    };
    assert_eq!(e.message(), "source #10 (\"A\") in sources.toml is missing a required 'url' field");
}

#[test]
fn an_unknown_type_anywhere_rejects_the_file_first() {
    let raws = vec![
        raw(Some("A"), Some("rss"), Some("u"), None),
        raw(Some("B"), Some("atom-ish"), Some("u"), Some("t")),
    ];
    let e = match validate_sources(raws) {
        Err(e) => e,
        Ok(_) => panic!(),
    };
    assert_eq!(
        e.message(),
        "source #2 (\"B\") in sources.toml has unknown type \"atom-ish\" (expected \"rss\" or \"reddit\")"
    );
}

#[test]
fn configured_sources_keep_order_names_and_topics() {
    let raws = vec![
        raw(Some("Phoronix"), Some("rss"), Some("https://www.phoronix.com/rss.php"), Some("kernel")),
        raw(Some("r/linux"), Some("reddit"), Some("linux"), Some("distros")),
        raw(Some("LWN"), Some("rss"), Some("https://lwn.net/headlines/rss"), Some("kernel")),
    ];
    let sources = configured_sources(raws).ok().unwrap();
    assert_eq!(sources.len(), 3);
    assert_eq!(sources[0].name(), "Phoronix");
    assert_eq!(sources[1].topic(), "distros");
    assert!(matches!(sources[1], ConfiguredSource::Reddit(_)));
    assert!(matches!(sources[2], ConfiguredSource::Rss(_)));
    assert_eq!(sources_for_topic(&sources, "kernel"), vec![0, 2]);
    assert_eq!(sources_for_topic(&sources, "gaming"), Vec::<usize>::new());
}
