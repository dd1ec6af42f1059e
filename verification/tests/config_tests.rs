use juicebox_plus::config::Config;

#[test]
fn defaults_match_a_fresh_installation() {
    let c = Config::default();
    assert_eq!(c.daemon_address, "127.0.0.1:22100");
    assert_eq!(c.juicebox_instance, "https://box.juicey.dev/");
    assert!(!c.use_tls);
    assert_eq!(c.chunk_size_bytes, 33_554_432);
    assert!(c.fec_enabled);
    assert_eq!(c.compression_mode, "auto");
    assert_eq!(c.pairing_timeout_secs, 30);
    assert_eq!(c.upload_ttl_hours, None);
    assert!(!c.paired);
    assert_eq!(c.device_id, None);
    assert_eq!(c.log_level, "info");
}

#[test]
fn current_value_shows_each_setting() {
    let mut c = Config::default();
    assert_eq!(c.current_value("daemon_address"), "127.0.0.1:22100");
    assert_eq!(c.current_value("chunk_size_bytes"), "33554432");
    assert_eq!(c.current_value("pairing_timeout_secs"), "30");
    assert_eq!(c.current_value("upload_ttl_hours"), "default");
    assert_eq!(c.current_value("paired"), "false");
    assert_eq!(c.current_value("device_id"), "");
    assert_eq!(c.current_value("log_level"), "info");
    assert_eq!(c.current_value("storage_host"), "");
    assert_eq!(c.current_value("nonsense"), "");
    c.paired = true;
    c.device_id = Some("dev-1".to_string());
    c.upload_ttl_hours = Some("1.5".to_string());
    assert_eq!(c.current_value("paired"), "true");
    assert_eq!(c.current_value("device_id"), "dev-1");
    assert_eq!(c.current_value("upload_ttl_hours"), "1.5");
}

#[test]
fn text_settings_read_back() {
    let mut c = Config::default();
    assert!(c.update("daemon_address", "10.0.0.2:9000", None).is_ok());
    assert_eq!(c.current_value("daemon_address"), "10.0.0.2:9000");
    assert!(c.update("juicebox_instance", "https://example.org", None).is_ok());
    assert_eq!(c.juicebox_instance, "https://example.org");
    assert!(c.update("log_level", "debug", None).is_ok());
    assert_eq!(c.log_level, "debug");
}

#[test]
fn number_settings_parse_like_u64() {
    let mut c = Config::default();
    assert!(c.update("chunk_size_bytes", "+1024", None).is_ok());
    assert_eq!(c.chunk_size_bytes, 1024);
    assert_eq!(c.current_value("chunk_size_bytes"), "1024");
    assert!(c.update("pairing_timeout_secs", "0060", None).is_ok());
    assert_eq!(c.pairing_timeout_secs, 60);
    assert!(c.update("chunk_size_bytes", "18446744073709551615", None).is_ok());
    assert_eq!(c.chunk_size_bytes, u64::MAX);
}

#[test]
fn refused_numbers_leave_settings_unchanged() {
    let mut c = Config::default();
    for bad in ["", "+", "-5", "12a", " 5", "18446744073709551616", "1.5"] {
        let r = c.update("chunk_size_bytes", bad, None);
        assert_eq!(r, Err("expected a number".to_string()), "input {bad:?}");
        assert_eq!(c.chunk_size_bytes, 33_554_432);
    }
}

#[test]
fn unknown_setting_is_refused_by_name() {
    let mut c = Config::default();
    assert_eq!(
        c.update("storage_host", "https://h.example", None),
        Err("unknown setting: storage_host".to_string())
    );
    assert_eq!(c.storage_host, None);
    assert_eq!(
        c.update("paired", "true", None),
        Err("unknown setting: paired".to_string())
    );
    assert!(!c.paired);
}

#[test]
fn retention_time_takes_default_or_a_number() {
    let mut c = Config::default();
    assert!(c.update("upload_ttl_hours", "24", Some("24".to_string())).is_ok());
    assert_eq!(c.upload_ttl_hours.as_deref(), Some("24"));
    assert!(c.update("upload_ttl_hours", "default", None).is_ok());
    assert_eq!(c.upload_ttl_hours, None);
    c.upload_ttl_hours = Some("2".to_string());
    assert!(c.update("upload_ttl_hours", "   ", None).is_ok());
    assert_eq!(c.upload_ttl_hours, None);
    assert_eq!(
        c.update("upload_ttl_hours", "soon", None),
        Err("expected a number".to_string())
    );
    assert_eq!(c.upload_ttl_hours, None);
}

#[test]
fn shown_value_writes_back_unchanged() {
    let mut c = Config::default();
    c.chunk_size_bytes = 777;
    for key in ["daemon_address", "juicebox_instance", "chunk_size_bytes", "pairing_timeout_secs", "log_level", "upload_ttl_hours"] {
        let before = c.clone();
        let shown = c.current_value(key);
        assert!(c.update(key, &shown, None).is_ok());
        for k in ["daemon_address", "juicebox_instance", "chunk_size_bytes", "pairing_timeout_secs", "log_level", "upload_ttl_hours", "paired", "device_id"] {
            assert_eq!(c.current_value(k), before.current_value(k));
        }
    }
}

#[test]
fn update_changes_only_its_setting() {
    let mut c = Config::default();
    c.update("log_level", "trace", None).unwrap();
    assert_eq!(c.daemon_address, "127.0.0.1:22100");
    assert_eq!(c.chunk_size_bytes, 33_554_432);
    assert_eq!(c.current_value("log_level"), "trace");
}
