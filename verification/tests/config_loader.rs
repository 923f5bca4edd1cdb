use codex_core::config_loader::{
    apply_managed_layers, config_paths, load_config_as_toml, load_config_layers,
    managed_config_default_path, merge_toml_values, parse_config, read_config_from_path,
    ConfigError, ConfigFile, LoadedConfigLayers, TomlValue,
};

/// The value of a document.
fn parse(contents: &str) -> TomlValue {
    match parse_config(contents) {
        ConfigFile::Parsed(value) => value,
        other => panic!("no document: {other:?}"),
    }
}

fn get<'a>(value: &'a TomlValue, name: &str) -> Option<&'a TomlValue> {
    match value {
        TomlValue::Table(members) => members.iter().find(|(n, _)| n == name).map(|(_, v)| v),
        _ => None,
    }
}

#[test]
fn merges_managed_config_layer_on_top() {
    let base = parse("foo = 1\n\n[nested]\nvalue = \"base\"\n");
    let managed = parse("foo = 2\n\n[nested]\nvalue = \"managed_config\"\nextra = true\n");

    let loaded = load_config_as_toml(
        ConfigFile::Parsed(base),
        ConfigFile::Parsed(managed),
        Ok(None),
    )
    .expect("load config");

    assert!(matches!(get(&loaded, "foo"), Some(TomlValue::Integer(2))));
    let nested = get(&loaded, "nested").expect("nested");
    assert!(matches!(
        get(nested, "value"),
        Some(TomlValue::Text(t)) if t == "managed_config"
    ));
    assert!(matches!(get(nested, "extra"), Some(TomlValue::Boolean(true))));
}

#[test]
fn returns_empty_when_all_layers_missing() {
    let layers = load_config_layers(ConfigFile::NotFound, ConfigFile::NotFound, Ok(None))
        .expect("load layers");
    assert!(
        matches!(&layers.base, TomlValue::Table(t) if t.is_empty()),
        "expected empty base layer when configs missing"
    );
    assert!(
        layers.managed_config.is_none(),
        "managed config layer should be absent when file missing"
    );

    let loaded = load_config_as_toml(ConfigFile::NotFound, ConfigFile::NotFound, Ok(None))
        .expect("load config");
    assert!(
        matches!(&loaded, TomlValue::Table(t) if t.is_empty()),
        "expected empty table when configs missing"
    );
}

#[test]
fn managed_preferences_take_highest_precedence() {
    let loaded = load_config_as_toml(
        ConfigFile::Parsed(parse("[nested]\nvalue = \"base\"\n")),
        ConfigFile::Parsed(parse("[nested]\nvalue = \"managed_config\"\nflag = true\n")),
        Ok(Some(parse("[nested]\nvalue = \"managed\"\nflag = false\n"))),
    )
    .expect("load config");
    let nested = get(&loaded, "nested").expect("nested table");
    assert!(matches!(get(nested, "value"), Some(TomlValue::Text(t)) if t == "managed"));
    assert!(matches!(get(nested, "flag"), Some(TomlValue::Boolean(false))));
}

#[test]
fn a_value_that_is_no_table_is_replaced() {
    let merged = merge_toml_values(parse("a = [1, 2]\nb = 1\n"), parse("a = [3]\n[b]\nc = 2\n"));
    assert!(matches!(get(&merged, "a"), Some(TomlValue::Array(list)) if list.len() == 1));
    assert!(get(get(&merged, "b").expect("b"), "c").is_some());
}

#[test]
fn layers_are_applied_in_order() {
    let merged = apply_managed_layers(LoadedConfigLayers {
        base: parse("a = 1\nb = 1\nc = 1\n"),
        managed_config: Some(parse("b = 2\nc = 2\n")),
        managed_preferences: Some(parse("c = 3\n")),
    });
    for (name, expected) in [("a", 1), ("b", 2), ("c", 3)] {
        assert!(matches!(get(&merged, name), Some(TomlValue::Integer(n)) if *n == expected));
    }
}

#[test]
fn errors_of_files_are_told_apart() {
    assert!(matches!(
        read_config_from_path(ConfigFile::Invalid("syntax".to_string())),
        Err(ConfigError::InvalidData(m)) if m == "syntax"
    ));
    assert!(matches!(
        read_config_from_path(ConfigFile::Unreadable("denied".to_string())),
        Err(ConfigError::Io(m)) if m == "denied"
    ));
    assert!(matches!(read_config_from_path(ConfigFile::NotFound), Ok(None)));
    assert!(matches!(
        load_config_as_toml(
            ConfigFile::NotFound,
            ConfigFile::Invalid("syntax".to_string()),
            Err("prefs".to_string())
        ),
        Err(ConfigError::InvalidData(_))
    ));
    assert!(load_config_as_toml(
        ConfigFile::NotFound,
        ConfigFile::NotFound,
        Err("prefs".to_string())
    )
    .is_err());
}

#[test]
fn files_are_looked_for_in_their_places() {
    assert_eq!(managed_config_default_path("/home", true), "/etc/codex/managed_config.toml");
    assert_eq!(managed_config_default_path("/home", false), "/home\\managed_config.toml");
    assert_eq!(
        config_paths("/home", Some("/m.toml".to_string()), true),
        ("/home/config.toml".to_string(), "/m.toml".to_string())
    );
    assert_eq!(
        config_paths(r"C:\Users\me\.codex", None, false),
        (
            r"C:\Users\me\.codex\config.toml".to_string(),
            r"C:\Users\me\.codex\managed_config.toml".to_string()
        )
    );
}

#[test]
fn every_kind_of_value_is_read() {
    let document = parse(
        "text = \"a\\u00e9\"\nwhole = -3\nreal = 1.5\nflag = false\nday = 1979-05-27\n\
         list = [1, \"b\", { c = 2 }]\n[table.inner]\nd = 4\n",
    );
    assert_eq!(get(&document, "text"), Some(&TomlValue::Text("a\u{e9}".to_string())));
    assert_eq!(get(&document, "whole"), Some(&TomlValue::Integer(-3)));
    assert_eq!(get(&document, "real"), Some(&TomlValue::FloatBits(1.5f64.to_bits())));
    assert_eq!(get(&document, "flag"), Some(&TomlValue::Boolean(false)));
    assert_eq!(get(&document, "day"), Some(&TomlValue::Datetime("1979-05-27".to_string())));
    assert_eq!(
        get(&document, "list"),
        Some(&TomlValue::Array(vec![
            TomlValue::Integer(1),
            TomlValue::Text("b".to_string()),
            TomlValue::Table(vec![("c".to_string(), TomlValue::Integer(2))]),
        ]))
    );
    let inner = get(get(&document, "table").expect("table"), "inner").expect("inner");
    assert_eq!(get(inner, "d"), Some(&TomlValue::Integer(4)));
    assert_eq!(parse(""), TomlValue::Table(vec![]));
}

#[test]
fn a_text_that_is_no_document_is_invalid() {
    let contents = "a = \n";
    let expected = toml::from_str::<toml::Value>(contents).unwrap_err().to_string();
    match parse_config(contents) {
        ConfigFile::Invalid(why) => assert_eq!(why, expected),
        other => panic!("unexpected {other:?}"),
    }
    assert!(matches!(parse_config("a = 1\na = 2\n"), ConfigFile::Invalid(_)));
    assert!(matches!(
        load_config_as_toml(parse_config(contents), ConfigFile::NotFound, Ok(None)),
        Err(ConfigError::InvalidData(why)) if why == expected
    ));
}

#[test]
fn merging_again_changes_nothing() {
    let base = "a = 1\nc = 3\n[n]\nx = 1\ny = [1]\n[m]\np = 1\n";
    let overlay = "a = 2\nb = 4\nc = 3\nm = 5\n[n]\ny = [2]\n[n.z]\nw = 1\n";
    let once = merge_toml_values(parse(base), parse(overlay));
    let again = merge_toml_values(parse(base), parse(overlay));
    assert_eq!(merge_toml_values(again, parse(overlay)), once);
}

#[test]
fn merging_an_empty_table_changes_nothing() {
    let base = "a = 1\n[n]\nx = 1\n";
    assert_eq!(merge_toml_values(parse(base), parse("")), parse(base));
    let merged = merge_toml_values(parse(base), parse("[n]\n"));
    assert_eq!(merged, parse(base));
}
