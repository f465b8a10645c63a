use hotcocoa::config::{loaded_config, saved_config, AppConfig, StoredConfig};

#[test]
fn default_config_values() {
    let c = AppConfig::default();
    assert_eq!(c.heat_level, 5);
    assert_eq!(c.theme, "HOT");
}

#[test]
fn load_without_file_gives_default() {
    let c = loaded_config(StoredConfig::Absent).unwrap();
    assert_eq!(c.heat_level, 5);
    assert_eq!(c.theme, "HOT");
}

#[test]
fn load_returns_saved_config() {
    let saved = AppConfig { heat_level: 200, theme: "ICE".to_string() };
    let c = loaded_config(StoredConfig::Parsed(saved)).unwrap();
    assert_eq!(c.heat_level, 200);
    assert_eq!(c.theme, "ICE");
}

#[test]
fn load_reports_read_failure() {
    let r = loaded_config(StoredConfig::Unreadable("permission denied".to_string()));
    assert_eq!(r.err().unwrap(), "Failed to read config: permission denied");
}

#[test]
fn load_reports_parse_failure() {
    let r = loaded_config(StoredConfig::Malformed("expected value".to_string()));
    assert_eq!(r.err().unwrap(), "Failed to parse config: expected value");
}

#[test]
fn save_config_succeeds() {
    assert!(saved_config(Ok(()), Ok(())).is_ok());
}

#[test]
fn save_config_reports_serialize_failure() {
    let r = saved_config(Err("bad".to_string()), Ok(()));
    assert_eq!(r.err().unwrap(), "Failed to serialize: bad");
}

#[test]
fn save_config_reports_write_failure() {
    let r = saved_config(Ok(()), Err("disk full".to_string()));
    assert_eq!(r.err().unwrap(), "Failed to write config: disk full");
}
