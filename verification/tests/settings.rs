use asr_lso_bridge::settings::{fill, to_setting, unsupported_message};
use asr_lso_bridge::{SettingValue, SettingsError, SettingsMap, SplitterThread, TomlValue};

fn load(text: &str) -> (Vec<(String, SettingValue)>, Result<(), SettingsError>) {
    let mut map = SettingsMap::new();
    let result = SplitterThread::load_settings(text, &mut map);
    (map.into_entries(), result)
}

#[test]
fn all_four_kinds_of_settings_are_read() {
    let (entries, result) =
        load("auto = true\nname = \"any%\"\nlevel = -3\nscale = 1.5\n# a comment\n");
    assert!(result.is_ok());
    assert_eq!(entries.len(), 4);
    for (key, value) in &entries {
        match key.as_str() {
            "auto" => assert!(matches!(value, SettingValue::Bool(true))),
            "name" => assert!(matches!(value, SettingValue::String(s) if s == "any%")),
            "level" => assert!(matches!(value, SettingValue::I64(-3))),
            "scale" => {
                assert!(matches!(value, SettingValue::F64(bits) if f64::from_bits(*bits) == 1.5))
            }
            other => panic!("unexpected key {other}"),
        }
    }
}

#[test]
fn settings_keep_the_order_of_the_table() {
    let text = "b = 1\na = 2\nc = 3\n";
    let table = toml::from_str::<toml::Table>(text).unwrap();
    let expected: Vec<String> = table.into_iter().map(|(key, _)| key).collect();
    let (entries, result) = load(text);
    assert!(result.is_ok());
    let keys: Vec<String> = entries.into_iter().map(|(key, _)| key).collect();
    assert_eq!(keys, expected);
}

#[test]
fn an_empty_document_has_no_settings() {
    let (entries, result) = load("");
    assert!(result.is_ok());
    assert!(entries.is_empty());
}

#[test]
fn floats_that_are_no_numbers_are_read() {
    let (entries, result) = load("x = nan\ny = -inf\n");
    assert!(result.is_ok());
    assert!(matches!(&entries[0].1, SettingValue::F64(bits) if f64::from_bits(*bits).is_nan()));
    assert!(
        matches!(&entries[1].1, SettingValue::F64(bits) if f64::from_bits(*bits) == f64::NEG_INFINITY)
    );
}

#[test]
fn text_that_is_no_toml_is_refused() {
    for text in ["auto = ", "= 1", "a = 1\na = 2\n", "just words"] {
        let (entries, result) = load(text);
        assert!(matches!(result, Err(SettingsError::Toml(_))));
        assert!(entries.is_empty());
    }
}

#[test]
fn other_values_are_refused() {
    for (text, expected) in [
        ("x = [1, 2]", "Array([Integer(1), Integer(2)])"),
        ("[x]\ny = 1", "Table({\"y\": Integer(1)})"),
        ("x = { y = 1 }", "Table({\"y\": Integer(1)})"),
    ] {
        let (_, result) = load(text);
        match result {
            Err(SettingsError::Unsupported(debug)) => assert_eq!(debug, expected),
            _ => panic!("{text} was not refused"),
        }
    }
    let (_, result) = load("x = 1979-05-27");
    assert!(matches!(result, Err(SettingsError::Unsupported(text)) if text.starts_with("Datetime")));
}

#[test]
fn settings_before_a_refused_value_stay() {
    let mut map = SettingsMap::new();
    let pairs = vec![
        ("a".to_owned(), TomlValue::Boolean(false)),
        ("b".to_owned(), TomlValue::Array("Array([])".to_owned())),
        ("c".to_owned(), TomlValue::Boolean(true)),
        ("d".to_owned(), TomlValue::Table("Table({})".to_owned())),
    ];
    let result = fill(pairs, &mut map);
    assert!(matches!(result, Err(SettingsError::Unsupported(text)) if text == "Array([])"));
    let entries = map.into_entries();
    assert_eq!(entries.len(), 1);
    assert_eq!(entries[0].0, "a");
}

#[test]
fn inserting_replaces_in_place() {
    let mut map = SettingsMap::new();
    map.insert("a".to_owned(), SettingValue::I64(1));
    map.insert("b".to_owned(), SettingValue::I64(2));
    map.insert("a".to_owned(), SettingValue::Bool(true));
    let entries = map.into_entries();
    assert_eq!(entries.len(), 2);
    assert_eq!(entries[0].0, "a");
    assert!(matches!(entries[0].1, SettingValue::Bool(true)));
    assert_eq!(entries[1].0, "b");
    assert!(matches!(entries[1].1, SettingValue::I64(2)));
}

#[test]
fn values_become_settings_of_the_same_kind() {
    assert!(matches!(to_setting(TomlValue::Boolean(true)), Ok(SettingValue::Bool(true))));
    assert!(matches!(to_setting(TomlValue::Integer(i64::MIN)), Ok(SettingValue::I64(i64::MIN))));
    assert!(matches!(to_setting(TomlValue::Float(7)), Ok(SettingValue::F64(7))));
    assert!(
        matches!(to_setting(TomlValue::String("x".to_owned())), Ok(SettingValue::String(s)) if s == "x")
    );
    assert!(
        matches!(to_setting(TomlValue::Datetime("t".to_owned())), Err(SettingsError::Unsupported(s)) if s == "t")
    );
}

#[test]
fn refused_values_are_named() {
    assert_eq!(unsupported_message("Array([])"), "Unsupported value type: Array([])");
}

#[test]
fn the_message_of_the_parser_is_kept() {
    for text in ["auto = ", "a = 1\nb = [", "[a]\n[a]\n"] {
        let expected = toml::from_str::<toml::Table>(text).unwrap_err().to_string();
        let (_, result) = load(text);
        assert!(matches!(result, Err(SettingsError::Toml(message)) if message == expected));
    }
    let (_, first) = load("auto = ");
    let (_, second) = load("\n\nauto = ");
    match (first, second) {
        (Err(SettingsError::Toml(a)), Err(SettingsError::Toml(b))) => assert_ne!(a, b),
        _ => panic!("both texts are no documents"),
    }
}

#[test]
fn the_bits_of_floats_are_kept() {
    let patterns = [0_u64, 0x8000_0000_0000_0000, 0x7ff8_0000_0000_0001, 0xfff0_0000_0000_0001];
    for bits in patterns {
        let mut map = SettingsMap::new();
        let pairs = vec![("x".to_owned(), TomlValue::Float(bits))];
        assert!(fill(pairs, &mut map).is_ok());
        map.insert("y".to_owned(), SettingValue::F64(bits));
        let entries = map.into_entries();
        assert!(matches!(entries[0].1, SettingValue::F64(kept) if kept == bits));
        assert!(matches!(entries[1].1, SettingValue::F64(kept) if kept == bits));
    }
}
