use rust_expander::config::{default_config, ExpansionMode, HotkeyConfig};
use rust_expander::ui::{
    config_with_hotkey, config_with_language, config_with_rows, rejected_hotkey_text,
    remove_snippet_row, hotkey_display_string, language_label, parse_key_event, pending_modifiers_text, snippet_rows,
    snippets_from_rows, SnippetRow,
};

fn hk(modifiers: u32, virtual_key: u32) -> Option<HotkeyConfig> {
    Some(HotkeyConfig { modifiers, virtual_key })
}

#[test]
fn parse_letters_and_digits() {
    assert_eq!(parse_key_event("a", false, true, true, false), hk(5, 0x41));
    assert_eq!(parse_key_event("Z", true, false, false, false), hk(2, 0x5A));
    assert_eq!(parse_key_event("7", false, false, false, true), hk(8, 0x37));
}

#[test]
fn parse_control_characters_mean_ctrl() {
    assert_eq!(parse_key_event("\u{0f}", false, false, true, false), hk(6, 0x4F));
    assert_eq!(parse_key_event("\u{01}", false, false, false, false), hk(2, 0x41));
}

#[test]
fn parse_special_keys() {
    assert_eq!(parse_key_event("\t", false, false, false, false), hk(0, 0x09));
    assert_eq!(parse_key_event("\n", true, false, false, false), hk(2, 0x0D));
    assert_eq!(parse_key_event("\u{1b}", false, false, false, false), hk(0, 0x1B));
    assert_eq!(parse_key_event(" ", false, true, false, false), hk(1, 0x20));
    assert_eq!(parse_key_event("\u{8}", false, false, false, false), hk(0, 0x08));
    assert_eq!(parse_key_event("\u{F704}", false, false, false, false), hk(0, 0x70));
    assert_eq!(parse_key_event("\u{F70F}", false, false, false, false), hk(0, 0x7B));
    assert_eq!(parse_key_event("\u{F700}", false, false, false, false), hk(0, 0x26));
    assert_eq!(parse_key_event("\u{F703}", false, false, false, false), hk(0, 0x27));
    assert_eq!(parse_key_event(";", true, false, false, false), hk(2, 0x3B));
}

#[test]
fn parse_navigation_keys() {
    assert_eq!(parse_key_event("\u{F729}", false, false, false, false), hk(0, 0x24));
    assert_eq!(parse_key_event("\u{F729}", true, false, true, false), hk(6, 0x24));
    assert_eq!(parse_key_event("\u{F72B}", false, false, false, false), hk(0, 0x23));
    assert_eq!(parse_key_event("\u{F72C}", false, true, false, false), hk(1, 0x21));
    assert_eq!(parse_key_event("\u{F72D}", false, false, false, false), hk(0, 0x22));
    assert_eq!(parse_key_event("\u{F728}", false, false, false, true), hk(8, 0x2E));
}

#[test]
fn parse_rejects_modifier_only_and_unknown() {
    assert_eq!(parse_key_event("", true, false, false, false), None);
    assert_eq!(parse_key_event("\u{11}", true, false, false, false), None);
    assert_eq!(parse_key_event("\u{10}", false, false, true, false), None);
    assert_eq!(parse_key_event("\u{F721}", false, false, false, false), None);
    assert_eq!(parse_key_event("\u{F72A}", false, false, false, false), None);
    assert_eq!(parse_key_event("\u{F72F}", false, false, false, false), None);
    assert_eq!(parse_key_event("é", false, false, false, false), None);
}

#[test]
fn display_strings() {
    assert_eq!(hotkey_display_string(&HotkeyConfig { modifiers: 6, virtual_key: 0x54 }), "CTRL+SHIFT+T");
    assert_eq!(hotkey_display_string(&HotkeyConfig { modifiers: 5, virtual_key: 0x58 }), "ALT+SHIFT+X");
    assert_eq!(hotkey_display_string(&HotkeyConfig { modifiers: 15, virtual_key: 0x31 }), "CTRL+ALT+SHIFT+WIN+1");
    assert_eq!(hotkey_display_string(&HotkeyConfig { modifiers: 0, virtual_key: 0x78 }), "F9");
    assert_eq!(hotkey_display_string(&HotkeyConfig { modifiers: 0, virtual_key: 0x7B }), "F12");
    assert_eq!(hotkey_display_string(&HotkeyConfig { modifiers: 2, virtual_key: 0x2E }), "CTRL+0x2E");
    assert_eq!(hotkey_display_string(&HotkeyConfig { modifiers: 0, virtual_key: 0x09 }), "0x09");
    assert_eq!(hotkey_display_string(&HotkeyConfig { modifiers: 0, virtual_key: 0x1A2B }), "0x1A2B");
}

#[test]
fn rows_show_snippets() {
    let rows = snippet_rows(&default_config());
    assert_eq!(rows.len(), 3);
    assert_eq!(rows[0].trigger, ".sig");
    assert_eq!(rows[0].replacement, "Regards,\nJohn Doe");
    assert_eq!(rows[0].mode, "immediate");
    assert_eq!(rows[2].mode, "hotkey");
}

#[test]
fn saving_rows_skips_empty_triggers() {
    let rows = vec![
        SnippetRow { trigger: "".to_string(), replacement: "x".to_string(), mode: "hotkey".to_string() },
        SnippetRow { trigger: ":a".to_string(), replacement: "A".to_string(), mode: "hotkey".to_string() },
        SnippetRow { trigger: ":b".to_string(), replacement: "B".to_string(), mode: "immediate".to_string() },
        SnippetRow { trigger: ":c".to_string(), replacement: "".to_string(), mode: "other".to_string() },
    ];
    let saved = snippets_from_rows(&rows);
    assert_eq!(saved.len(), 3);
    assert_eq!(saved[0].trigger, ":a");
    assert_eq!(saved[0].mode, ExpansionMode::Hotkey);
    assert_eq!(saved[1].replacement, "B");
    assert_eq!(saved[1].mode, ExpansionMode::Immediate);
    assert_eq!(saved[2].mode, ExpansionMode::Immediate);
}

#[test]
fn rows_round_trip() {
    let config = default_config();
    let saved = snippets_from_rows(&snippet_rows(&config));
    assert_eq!(saved.len(), config.snippets.len());
    for (a, b) in saved.iter().zip(config.snippets.iter()) {
        assert_eq!(a.trigger, b.trigger);
        assert_eq!(a.replacement, b.replacement);
        assert_eq!(a.mode, b.mode);
    }
}

#[test]
fn language_labels() {
    assert_eq!(language_label("da"), "Dansk");
    assert_eq!(language_label("en"), "English");
    assert_eq!(language_label("xx"), "English");
}

#[test]
fn pending_modifier_text() {
    assert_eq!(pending_modifiers_text(true, false, true, false), Some("CTRL + SHIFT + ...".to_string()));
    assert_eq!(pending_modifiers_text(false, false, false, false), None);
}

fn row(trigger: &str, replacement: &str, mode: &str) -> SnippetRow {
    SnippetRow { trigger: trigger.to_string(), replacement: replacement.to_string(), mode: mode.to_string() }
}

#[test]
fn rejected_hotkey_shows_reason() {
    let hotkey = HotkeyConfig { modifiers: 2, virtual_key: 0x43 };
    assert_eq!(
        rejected_hotkey_text(&hotkey, "reserved"),
        format!("{} \u{2014} reserved", hotkey_display_string(&hotkey))
    );
}

#[test]
fn remove_row_within_and_outside_table() {
    let mut rows = vec![row("a", "1", "immediate"), row("b", "2", "hotkey"), row("c", "3", "immediate")];
    remove_snippet_row(&mut rows, 1);
    assert_eq!(rows.len(), 2);
    assert_eq!(rows[0].trigger, "a");
    assert_eq!(rows[1].trigger, "c");
    remove_snippet_row(&mut rows, 2);
    remove_snippet_row(&mut rows, -1);
    assert_eq!(rows.len(), 2);
}

#[test]
fn saved_config_keeps_other_settings() {
    let base = default_config();
    let rows = vec![row("", "skip", "hotkey"), row("x", "y", "hotkey")];
    let c = config_with_rows(base.clone(), &rows);
    assert_eq!(c.language, base.language);
    assert_eq!(c.hotkey, base.hotkey);
    assert_eq!(c.buffer_size, base.buffer_size);
    assert_eq!(c.snippets.len(), 1);
    assert_eq!(c.snippets[0].trigger, "x");
    assert_eq!(c.snippets[0].mode, ExpansionMode::Hotkey);

    let hot = HotkeyConfig { modifiers: 3, virtual_key: 0x70 };
    let c = config_with_hotkey(base.clone(), hot);
    assert_eq!(c.hotkey, hot);
    assert_eq!(c.snippets.len(), 3);

    let c = config_with_language(base, "da");
    assert_eq!(c.language, "da");
    assert_eq!(c.snippets.len(), 3);
}
