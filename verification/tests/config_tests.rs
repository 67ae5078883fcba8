use rust_expander::config::{
    clamp_buffer_size, default_buffer_size, default_clipboard_restore_delay_ms, default_config,
    default_language, recover_config, sanitize_loaded, AppConfig, ExpansionMode, HotkeyConfig,
};

#[test]
fn test_default_config_values() {
    let config = default_config();
    assert_eq!(config.language, "en");
    assert_eq!(config.hotkey.modifiers, 6);
    assert_eq!(config.hotkey.virtual_key, 0x54);
    assert_eq!(config.buffer_size, 10);
    assert_eq!(config.clipboard_restore_delay_ms, 150);
    assert_eq!(config.snippets.len(), 3);
    assert_eq!(config.snippets[0].trigger, ".sig");
    assert_eq!(config.snippets[0].mode, ExpansionMode::Immediate);
    assert_eq!(config.snippets[1].trigger, ".em");
    assert_eq!(config.snippets[1].mode, ExpansionMode::Immediate);
    assert_eq!(config.snippets[2].trigger, "jd");
    assert_eq!(config.snippets[2].mode, ExpansionMode::Hotkey);
}

#[test]
fn default_snippet_replacements() {
    let config = default_config();
    assert_eq!(config.snippets[0].replacement, "Regards,\nJohn Doe");
    assert_eq!(config.snippets[1].replacement, "john.doe@example.com");
    assert_eq!(config.snippets[2].replacement, "With kind regards and sincerely - John Doe");
}

#[test]
fn field_defaults() {
    assert_eq!(default_language(), "en");
    assert_eq!(default_buffer_size(), 10);
    assert_eq!(default_clipboard_restore_delay_ms(), 150);
}

#[test]
fn buffer_size_clamping() {
    assert_eq!(clamp_buffer_size(0), 1);
    assert_eq!(clamp_buffer_size(1), 1);
    assert_eq!(clamp_buffer_size(64), 64);
    assert_eq!(clamp_buffer_size(256), 256);
    assert_eq!(clamp_buffer_size(257), 256);
    assert_eq!(clamp_buffer_size(99999), 256);
}

fn config_with_buffer(size: usize) -> AppConfig {
    AppConfig {
        language: "da".to_string(),
        hotkey: HotkeyConfig { modifiers: 5, virtual_key: 88 },
        buffer_size: size,
        clipboard_restore_delay_ms: 300,
        snippets: Vec::new(),
    }
}

#[test]
fn sanitize_clamps_only_buffer_size() {
    let c = sanitize_loaded(config_with_buffer(0));
    assert_eq!(c.buffer_size, 1);
    assert_eq!(c.language, "da");
    assert_eq!(c.hotkey, HotkeyConfig { modifiers: 5, virtual_key: 88 });
    assert_eq!(c.clipboard_restore_delay_ms, 300);
    let c = sanitize_loaded(config_with_buffer(99999));
    assert_eq!(c.buffer_size, 256);
    let again = sanitize_loaded(c);
    assert_eq!(again.buffer_size, 256);
}

#[test]
fn recover_prefers_good_primary() {
    let r: Result<AppConfig, &str> =
        recover_config(Ok(config_with_buffer(0)), Some(Ok::<AppConfig, u8>(config_with_buffer(50))));
    assert_eq!(r.unwrap().buffer_size, 1);
}

#[test]
fn recover_falls_back_to_backup() {
    let r: Result<AppConfig, &str> =
        recover_config(Err("corrupt"), Some(Ok::<AppConfig, u8>(config_with_buffer(1000))));
    assert_eq!(r.unwrap().buffer_size, 256);
}

#[test]
fn recover_reports_primary_error_when_backup_bad_or_missing() {
    let r: Result<AppConfig, &str> = recover_config(Err("corrupt"), Some(Err::<AppConfig, u8>(7)));
    assert_eq!(r.unwrap_err(), "corrupt");
    let r: Result<AppConfig, &str> = recover_config(Err("corrupt"), None::<Result<AppConfig, u8>>);
    assert_eq!(r.unwrap_err(), "corrupt");
}
