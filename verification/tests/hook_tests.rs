use rust_expander::buffer::KeyBuffer;
use rust_expander::config::{default_config, AppConfig, ExpansionMode, HotkeyConfig, Snippet};
use rust_expander::hook::{
    decode_typed, feed_typed_chars, find_snippet, handle_key_event, modifier_display, on_registered_hotkey,
    HookFlags, KeyDecision, KeyEvent, EXPANDER_TAG, WM_KEYDOWN, WM_SYSKEYDOWN,
};

#[test]
fn test_pause_state_toggling() {
    let mut flags = HookFlags::new();
    flags.set_paused(false);
    assert!(!flags.is_paused());

    flags.set_paused(true);
    assert!(flags.is_paused());

    flags.set_paused(false);
    assert!(!flags.is_paused());
}

fn key(vk: u32) -> KeyEvent {
    KeyEvent {
        n_code: 0,
        message: WM_KEYDOWN,
        vk_code: vk,
        extra_info: 0,
        ctrl_down: false,
        alt_down: false,
        shift_down: false,
        win_down: false,
    }
}

fn typed(text: &str, cap: usize) -> KeyBuffer {
    let mut b = KeyBuffer::new(cap);
    for c in text.chars() {
        b.push(c);
    }
    b
}

#[test]
fn switches_are_independent() {
    let mut flags = HookFlags::new();
    flags.set_recording_hotkey(true);
    flags.set_inhibit(true);
    assert!(flags.is_recording_hotkey());
    assert!(flags.is_inhibited());
    assert!(!flags.is_paused());
    flags.set_inhibit(false);
    assert!(flags.is_recording_hotkey());
    assert!(!flags.is_inhibited());
}

#[test]
fn untouched_events_pass() {
    let config = default_config();
    let mut flags = HookFlags::new();
    let mut buf = typed("ab", 10);
    let mut ev = key(0x08);
    ev.n_code = -1;
    assert!(matches!(handle_key_event(&mut flags, &mut buf, &config, &ev), KeyDecision::Pass));
    let mut ev = key(0x08);
    ev.extra_info = EXPANDER_TAG;
    assert!(matches!(handle_key_event(&mut flags, &mut buf, &config, &ev), KeyDecision::Pass));
    let mut ev = key(0x08);
    ev.message = 0x0101;
    assert!(matches!(handle_key_event(&mut flags, &mut buf, &config, &ev), KeyDecision::Pass));
    flags.set_inhibit(true);
    assert!(matches!(handle_key_event(&mut flags, &mut buf, &config, &key(0x08)), KeyDecision::Pass));
    assert_eq!(buf.content(), "ab");
}

#[test]
fn recording_shows_modifiers_then_captures() {
    let config = default_config();
    let mut flags = HookFlags::new();
    flags.set_recording_hotkey(true);
    let mut buf = typed("ab", 10);
    let mut ev = key(0xA2);
    ev.shift_down = true;
    match handle_key_event(&mut flags, &mut buf, &config, &ev) {
        KeyDecision::ShowModifiers(s) => assert_eq!(s, "CTRL + SHIFT"),
        other => panic!("unexpected {:?}", other),
    }
    assert!(flags.is_recording_hotkey());
    let mut ev = key(0x4F);
    ev.ctrl_down = true;
    ev.alt_down = true;
    ev.shift_down = true;
    match handle_key_event(&mut flags, &mut buf, &config, &ev) {
        KeyDecision::Captured(hk) => assert_eq!(hk, HotkeyConfig { modifiers: 7, virtual_key: 0x4F }),
        other => panic!("unexpected {:?}", other),
    }
    assert!(!flags.is_recording_hotkey());
    assert_eq!(buf.content(), "ab");
}

#[test]
fn recording_escape_cancels() {
    let config = default_config();
    let mut flags = HookFlags::new();
    flags.set_recording_hotkey(true);
    let mut buf = KeyBuffer::new(4);
    assert!(matches!(handle_key_event(&mut flags, &mut buf, &config, &key(0x1B)), KeyDecision::Swallow));
    assert!(!flags.is_recording_hotkey());
}

#[test]
fn paused_hook_passes_everything() {
    let config = default_config();
    let mut flags = HookFlags::new();
    flags.set_paused(true);
    let mut buf = typed("jd", 10);
    let mut ev = key(0x54);
    ev.ctrl_down = true;
    ev.shift_down = true;
    assert!(matches!(handle_key_event(&mut flags, &mut buf, &config, &ev), KeyDecision::Pass));
    assert_eq!(buf.content(), "jd");
    assert!(on_registered_hotkey(&flags, &mut buf, &config).is_none());
    assert_eq!(buf.content(), "jd");
}

#[test]
fn hotkey_expands_hotkey_snippet() {
    let config = default_config();
    let mut flags = HookFlags::new();
    let mut buf = typed("hi jd", 10);
    let mut ev = key(0x54);
    ev.ctrl_down = true;
    ev.shift_down = true;
    ev.message = WM_SYSKEYDOWN;
    match handle_key_event(&mut flags, &mut buf, &config, &ev) {
        KeyDecision::ExpandHotkey { trigger_len, replacement } => {
            assert_eq!(trigger_len, 2);
            assert_eq!(replacement, "With kind regards and sincerely - John Doe");
        }
        other => panic!("unexpected {:?}", other),
    }
    assert!(buf.is_empty());
}

#[test]
fn hotkey_without_trigger_is_swallowed() {
    let config = default_config();
    let mut flags = HookFlags::new();
    let mut buf = typed(".sig", 10);
    let mut ev = key(0x54);
    ev.ctrl_down = true;
    ev.shift_down = true;
    assert!(matches!(handle_key_event(&mut flags, &mut buf, &config, &ev), KeyDecision::Swallow));
    assert_eq!(buf.content(), ".sig");
}

#[test]
fn editing_keys_update_buffer() {
    let config = default_config();
    let mut flags = HookFlags::new();
    let mut buf = typed("abc", 10);
    assert!(matches!(handle_key_event(&mut flags, &mut buf, &config, &key(0x10)), KeyDecision::Pass));
    assert_eq!(buf.content(), "abc");
    assert!(matches!(handle_key_event(&mut flags, &mut buf, &config, &key(0x08)), KeyDecision::Pass));
    assert_eq!(buf.content(), "ab");
    assert!(matches!(handle_key_event(&mut flags, &mut buf, &config, &key(0x41)), KeyDecision::Translate));
    assert_eq!(buf.content(), "ab");
    assert!(matches!(handle_key_event(&mut flags, &mut buf, &config, &key(0x25)), KeyDecision::Pass));
    assert!(buf.is_empty());
    let mut buf = typed("abc", 10);
    let mut ev = key(0x43);
    ev.ctrl_down = true;
    assert!(matches!(handle_key_event(&mut flags, &mut buf, &config, &ev), KeyDecision::Pass));
    assert!(buf.is_empty());
    let mut buf = typed("abc", 10);
    let mut ev = key(0x43);
    ev.ctrl_down = true;
    ev.alt_down = true;
    assert!(matches!(handle_key_event(&mut flags, &mut buf, &config, &ev), KeyDecision::Translate));
    assert_eq!(buf.content(), "abc");
}

#[test]
fn typing_immediate_trigger_fires() {
    let config = default_config();
    let mut buf = typed("x.si", 10);
    let hit = feed_typed_chars(&mut buf, &config, &vec!['g']);
    let (len, text) = hit.expect("trigger should fire");
    assert_eq!(len, 4);
    assert_eq!(text, "Regards,\nJohn Doe");
    assert!(buf.is_empty());
}

#[test]
fn control_characters_are_not_typed() {
    let config = default_config();
    let mut buf = typed("ab", 10);
    assert!(feed_typed_chars(&mut buf, &config, &vec!['\u{8}', '\u{7f}', '\u{85}']).is_none());
    assert_eq!(buf.content(), "ab");
    assert!(feed_typed_chars(&mut buf, &config, &vec!['c', 'd']).is_none());
    assert_eq!(buf.content(), "abcd");
}

#[test]
fn hotkey_snippets_do_not_fire_while_typing() {
    let config = default_config();
    let mut buf = typed("j", 10);
    assert!(feed_typed_chars(&mut buf, &config, &vec!['d']).is_none());
    assert_eq!(buf.content(), "jd");
}

#[test]
fn first_matching_snippet_wins() {
    let config = AppConfig {
        language: "en".to_string(),
        hotkey: HotkeyConfig { modifiers: 6, virtual_key: 0x54 },
        buffer_size: 10,
        clipboard_restore_delay_ms: 150,
        snippets: vec![
            Snippet { trigger: "abc".to_string(), replacement: "one".to_string(), mode: ExpansionMode::Hotkey },
            Snippet { trigger: "bc".to_string(), replacement: "two".to_string(), mode: ExpansionMode::Immediate },
            Snippet { trigger: "c".to_string(), replacement: "three".to_string(), mode: ExpansionMode::Immediate },
        ],
    };
    let buf = typed("abc", 10);
    assert_eq!(find_snippet(&buf, &config.snippets, ExpansionMode::Immediate), Some(1));
    assert_eq!(find_snippet(&buf, &config.snippets, ExpansionMode::Hotkey), Some(0));
    let buf = typed("abd", 10);
    assert_eq!(find_snippet(&buf, &config.snippets, ExpansionMode::Immediate), None);
    let mut buf = typed("ab", 10);
    let (len, text) = feed_typed_chars(&mut buf, &config, &vec!['c']).unwrap();
    assert_eq!((len, text.as_str()), (2, "two"));
}

#[test]
fn registered_hotkey_expands() {
    let config = default_config();
    let flags = HookFlags::new();
    let mut buf = typed("say jd", 10);
    let (len, text) = on_registered_hotkey(&flags, &mut buf, &config).unwrap();
    assert_eq!(len, 2);
    assert_eq!(text, "With kind regards and sincerely - John Doe");
    assert!(buf.is_empty());
}

#[test]
fn modifier_display_text() {
    assert_eq!(modifier_display(true, true, true, true), "CTRL + ALT + SHIFT + WIN");
    assert_eq!(modifier_display(false, true, false, false), "ALT");
    assert_eq!(modifier_display(false, false, false, false), "");
}

#[test]
fn decode_typed_single_unit() {
    assert_eq!(decode_typed(1, [0x61, 0, 0, 0]), vec!['a']);
}

#[test]
fn decode_typed_surrogate_pair_is_one_char() {
    assert_eq!(decode_typed(2, [0xD83D, 0xDE00, 0, 0]), vec!['\u{1F600}']);
}

#[test]
fn decode_typed_nothing_written() {
    assert_eq!(decode_typed(0, [0x61, 0x62, 0, 0]), Vec::<char>::new());
}

#[test]
fn decode_typed_negative_result_counts_units() {
    assert_eq!(decode_typed(-1, [0x5E, 0x61, 0, 0]), vec!['^']);
    assert_eq!(decode_typed(-2, [0x5E, 0x61, 0, 0]), vec!['^', 'a']);
}

#[test]
fn decode_typed_drops_unpaired_halves() {
    assert_eq!(decode_typed(1, [0xD83D, 0xDE00, 0, 0]), Vec::<char>::new());
    assert_eq!(decode_typed(3, [0xDE00, 0x61, 0xD83D, 0]), vec!['a']);
    assert_eq!(decode_typed(2, [0xD83D, 0x62, 0, 0]), vec!['b']);
}

#[test]
fn decode_typed_caps_at_buffer_length() {
    assert_eq!(decode_typed(10, [0x61, 0x62, 0x63, 0x64]), vec!['a', 'b', 'c', 'd']);
    assert_eq!(decode_typed(i32::MIN, [0x61, 0x62, 0x63, 0x64]), vec!['a', 'b', 'c', 'd']);
}
