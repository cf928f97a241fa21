use settings_manager::Content;
use settings_manager::Header;
use settings_manager::SettingsError;
use settings_manager::SettingsManager;
use settings_manager::SettingsValue;
use settings_manager::add_save_load_round_trip;
use settings_manager::clone_value;

fn example_payload() -> SettingsValue {
    // Table keys in sorted order, so the payload survives the round trip.
    SettingsValue::Table(vec![
        (
            "address".to_string(),
            SettingsValue::Table(vec![
                ("city".to_string(), SettingsValue::Str("London".to_string())),
                (
                    "street".to_string(),
                    SettingsValue::Str("10 Downing Street".to_string()),
                ),
            ]),
        ),
        ("age".to_string(), SettingsValue::Int(43)),
        ("name".to_string(), SettingsValue::Str("John Doe".to_string())),
        (
            "phones".to_string(),
            SettingsValue::Arr(vec![
                SettingsValue::Str("+44 1234567".to_string()),
                SettingsValue::Str("+44 2345678".to_string()),
            ]),
        ),
    ])
}

fn test_entry(name: &str, payload: Option<SettingsValue>) -> Content {
    let mut c = Content::default();
    c.header.name = name.to_string();
    c.settings = payload;
    c
}

fn table_get<'a>(v: &'a SettingsValue, key: &str) -> &'a SettingsValue {
    match v {
        SettingsValue::Table(entries) => {
            for (k, val) in entries {
                if k == key {
                    return val;
                }
            }
            panic!("key not found: {}", key);
        }
        _ => panic!("not a table"),
    }
}

#[test]
fn simple() {
    // An entry added to one manager comes back, payload intact, through the
    // texts a save produces and a fresh manager loads.
    let mut manager = SettingsManager::new(Some("/tmp/settings".to_string()));
    let r = manager.push(test_entry("test", Some(example_payload())));
    assert!(r.is_ok());
    let files = manager.save().unwrap();
    assert_eq!(files.len(), 1);
    assert_eq!(files[0].name, "test.toml");

    let mut fresh = SettingsManager::new(Some("/tmp/settings".to_string()));
    let texts = vec![files[0].text.clone()];
    let loaded = fresh.load(&texts);
    assert_eq!(loaded, Ok(1));
    assert_eq!(fresh.settings.len(), 1);
    let entry = &fresh.settings[0];
    assert_eq!(entry.header.name, "test");
    let payload = entry.settings.as_ref().unwrap();
    assert_eq!(payload, &example_payload());
}

#[test]
fn scenario_nested_fields() {
    let mut manager = SettingsManager::new(Some("/tmp/settings".to_string()));
    manager
        .push(test_entry("test", Some(example_payload())))
        .unwrap();
    let files = manager.save().unwrap();

    let mut fresh = SettingsManager::new(Some("/tmp/settings".to_string()));
    fresh.load(&vec![files[0].text.clone()]).unwrap();
    let payload = fresh.settings[0].settings.as_ref().unwrap();
    let city = table_get(table_get(payload, "address"), "city");
    assert_eq!(city, &SettingsValue::Str("London".to_string()));
    match table_get(payload, "phones") {
        SettingsValue::Arr(phones) => {
            assert_eq!(phones[1], SettingsValue::Str("+44 2345678".to_string()));
        }
        _ => panic!("phones is not an array"),
    }
}

#[test]
fn duplicate_push_is_rejected() {
    let mut manager = SettingsManager::new(None);
    manager.push(test_entry("dup", None)).unwrap();
    assert_eq!(manager.settings.len(), 1);
    let second = manager.push(test_entry("dup", Some(example_payload())));
    assert_eq!(second, Err(SettingsError::DuplicateName));
    assert_eq!(manager.settings.len(), 1);
}

#[test]
fn saved_text_reserializes_identically() {
    // serialize(deserialize(text)) == text for a text save produced.
    let mut manager = SettingsManager::new(None);
    manager
        .push(test_entry("idem", Some(example_payload())))
        .unwrap();
    let text = manager.save().unwrap().remove(0).text;

    let mut fresh = SettingsManager::new(None);
    fresh.load(&vec![text.clone()]).unwrap();
    let again = fresh.save().unwrap().remove(0).text;
    assert_eq!(again, text);
}

#[test]
fn load_reports_unparsable_text_and_keeps_list() {
    let mut manager = SettingsManager::new(None);
    manager.push(test_entry("ok", None)).unwrap();
    let good = manager.save().unwrap().remove(0).text;

    let mut fresh = SettingsManager::new(None);
    let r = fresh.load(&vec![good, "not = [ toml".to_string()]);
    assert_eq!(r, Err(SettingsError::ParseFailure));
    assert_eq!(fresh.settings.len(), 0);
}

#[test]
fn load_rejects_wrong_shape() {
    // Valid TOML, but not a stored entry: no header block.
    let mut manager = SettingsManager::new(None);
    let r = manager.load(&vec!["x = 1".to_string()]);
    assert_eq!(r, Err(SettingsError::ParseFailure));
    assert_eq!(manager.settings.len(), 0);
}

#[test]
fn push_stamps_date_with_current_time() {
    let mut manager = SettingsManager::new(None);
    manager.push(test_entry("dated", None)).unwrap();
    let date = manager.settings[0].header.date.clone();
    let stamped = chrono::DateTime::parse_from_str(&date, "%Y-%m-%d %H:%M:%S%.f %:z")
        .expect("date is in chrono's default text form");
    let now = chrono::Local::now();
    let age = now.signed_duration_since(&stamped);
    assert!(age.num_seconds().abs() < 60);

    // The date is stable across a save/load cycle.
    let text = manager.save().unwrap().remove(0).text;
    let mut fresh = SettingsManager::new(None);
    fresh.load(&vec![text]).unwrap();
    assert_eq!(fresh.settings[0].header.date, date);
}

#[test]
fn push_stamps_hex_sha1_hash() {
    let mut manager = SettingsManager::new(None);
    manager.push(test_entry("hashed", None)).unwrap();
    let hash = manager.settings[0].header.hash.clone();
    assert_eq!(hash.len(), 40);
    assert!(hash.chars().all(|c| c.is_ascii_hexdigit() && !c.is_ascii_uppercase()));

    // A different entry hashes differently.
    manager
        .push(test_entry("other", Some(example_payload())))
        .unwrap();
    assert_ne!(manager.settings[1].header.hash, hash);
    assert!(!manager.settings[0].header.modified);
}

#[test]
fn saved_text_is_real_toml() {
    // An independent parse of the saved text, straight through the toml
    // crate, sees the same fields the manager stored.
    let mut manager = SettingsManager::new(None);
    manager
        .push(test_entry("test", Some(example_payload())))
        .unwrap();
    let text = manager.save().unwrap().remove(0).text;
    let doc: toml::Value = toml::from_str(&text).unwrap();
    assert_eq!(doc["header"]["name"].as_str(), Some("test"));
    assert_eq!(doc["header"]["modified"].as_bool(), Some(false));
    assert_eq!(doc["settings"]["age"].as_integer(), Some(43));
    assert_eq!(
        doc["settings"]["address"]["city"].as_str(),
        Some("London")
    );
    assert_eq!(
        doc["settings"]["phones"][1].as_str(),
        Some("+44 2345678")
    );
}

#[test]
fn round_trip_law_on_concrete_entry() {
    let entry = test_entry("law", Some(example_payload()));
    let got = add_save_load_round_trip(entry, "/tmp/settings".to_string()).unwrap();
    assert_eq!(got.header.name, "law");
    assert_eq!(got.settings, Some(example_payload()));
}

#[test]
fn new_and_default_paths() {
    let manager = SettingsManager::new(None);
    assert_eq!(manager.path, "~/.config/settings_manager");
    assert_eq!(manager.settings.len(), 0);
    assert_eq!(
        manager.get_default_folder(),
        "~/.config/settings_manager/default"
    );

    let custom = SettingsManager::new(Some("/etc/app".to_string()));
    assert_eq!(custom.path, "/etc/app");
    assert_eq!(custom.get_default_folder(), "/etc/app/default");
}

#[test]
fn default_header_is_empty() {
    let header = Header::default();
    assert_eq!(header.name, "");
    assert_eq!(header.hash, "");
    assert_eq!(header.date, "");
    assert!(!header.modified);
    let content = Content::default();
    assert_eq!(content.header.name, "");
    assert!(content.settings.is_none());
}

#[test]
fn clone_value_copies_deeply() {
    let v = example_payload();
    let c = clone_value(&v);
    assert_eq!(c, v);
    let s = SettingsValue::Str("plain".to_string());
    assert_eq!(clone_value(&s), s);
}

#[test]
fn load_accumulates_without_dedup() {
    // Loading never deduplicates: the same file twice gives two entries.
    let mut manager = SettingsManager::new(None);
    manager.push(test_entry("twice", None)).unwrap();
    let text = manager.save().unwrap().remove(0).text;
    let mut fresh = SettingsManager::new(None);
    fresh
        .load(&vec![text.clone(), text.clone()])
        .unwrap();
    assert_eq!(fresh.settings.len(), 2);
    assert_eq!(fresh.settings[0].header.name, "twice");
    assert_eq!(fresh.settings[1].header.name, "twice");
}

#[test]
fn io_failure_is_a_distinct_error() {
    // The io variant is produced by callers that do the file work; it
    // compares apart from every other variant.
    assert_ne!(SettingsError::IoFailure, SettingsError::DuplicateName);
    assert_ne!(SettingsError::IoFailure, SettingsError::ParseFailure);
    assert_ne!(SettingsError::IoFailure, SettingsError::SerializeFailure);
}

#[test]
fn add_twice_law_on_concrete_entries() {
    let m = settings_manager::add_twice_keeps_first(
        test_entry("same", Some(example_payload())),
        test_entry("same", None),
        "/tmp/settings".to_string(),
    );
    assert_eq!(m.settings.len(), 1);
    assert_eq!(m.settings[0].header.name, "same");
    assert_eq!(m.settings[0].settings, Some(example_payload()));
}

#[test]
fn reserialize_law_on_concrete_entry() {
    let (first, second) = settings_manager::saved_text_reserializes(
        test_entry("stable", Some(example_payload())),
        "/tmp/settings".to_string(),
    );
    assert_eq!(second, first);
    assert!(first.contains("[header]"));
}

#[test]
fn default_folder_joins_like_a_path() {
    // An empty base gives the relative folder; a base already ending in a
    // separator gets no second one.
    let empty = SettingsManager::new(Some(String::new()));
    assert_eq!(empty.get_default_folder(), "default");
    let slashed = SettingsManager::new(Some("/etc/app/".to_string()));
    assert_eq!(slashed.get_default_folder(), "/etc/app/default");
    let plain = SettingsManager::new(Some("/etc/app".to_string()));
    assert_eq!(plain.get_default_folder(), "/etc/app/default");
}

#[test]
fn deeply_nested_payload_saves_but_fails_to_load() {
    // The serializer has no nesting limit, but the parser refuses documents
    // nested beyond its recursion limit; such payloads sit outside the
    // well-formedness bound, and loading their text reports a parse failure.
    let mut deep = SettingsValue::Int(1);
    for _ in 0..100 {
        deep = SettingsValue::Arr(vec![deep]);
    }
    let mut manager = SettingsManager::new(None);
    manager.push(test_entry("deep", Some(deep))).unwrap();
    let text = manager.save().unwrap().remove(0).text;

    let mut fresh = SettingsManager::new(None);
    let r = fresh.load(&vec![text]);
    assert_eq!(r, Err(SettingsError::ParseFailure));
    assert_eq!(fresh.settings.len(), 0);
}
