use rust_expander::replacer::{
    backspace_keys, char_keys, clipboard_text_units, ctrl_v_keys, modifier_release_keys,
    replacement_actions, ReplaceAction, Replacer, SyntheticKey,
};

fn vk(vk: u16, key_up: bool) -> SyntheticKey {
    SyntheticKey::Virtual { vk, key_up }
}

fn bs_tap() -> ReplaceAction {
    ReplaceAction::Send(vec![vk(0x08, false), vk(0x08, true)])
}

#[test]
fn immediate_plan_sends_one_backspace_less() {
    let p = Replacer::replace_immediate(4, "Regards", 150);
    assert_eq!(p.backspaces, 3);
    assert_eq!(p.text, "Regards");
    assert_eq!(p.restore_delay_ms, 150);
    assert_eq!(Replacer::replace_immediate(0, "x", 1).backspaces, 0);
}

#[test]
fn hotkey_plan_sends_all_backspaces() {
    let p = Replacer::replace_hotkey(4, "Regards", 300);
    assert_eq!(p.backspaces, 4);
    assert_eq!(p.text, "Regards");
    assert_eq!(p.restore_delay_ms, 300);
}

#[test]
fn clipboard_units_are_crlf_utf16_with_terminator() {
    assert_eq!(clipboard_text_units("a\nb"), vec![0x61, 0x0D, 0x0A, 0x62, 0]);
    assert_eq!(clipboard_text_units(""), vec![0]);
    assert_eq!(clipboard_text_units("😀é"), vec![0xD83D, 0xDE00, 0xE9, 0]);
}

#[test]
fn ctrl_v_sequence() {
    assert_eq!(
        ctrl_v_keys(),
        vec![
            SyntheticKey::Virtual { vk: 0xA2, key_up: false },
            SyntheticKey::Virtual { vk: 0x56, key_up: false },
            SyntheticKey::Virtual { vk: 0x56, key_up: true },
            SyntheticKey::Virtual { vk: 0xA2, key_up: true },
        ]
    );
    assert_eq!(
        backspace_keys(),
        vec![SyntheticKey::Virtual { vk: 0x08, key_up: false }, SyntheticKey::Virtual { vk: 0x08, key_up: true }]
    );
}

#[test]
fn only_held_modifiers_are_released() {
    let held = [true, false, false, true, false, false, false, true];
    assert_eq!(
        modifier_release_keys(&held),
        vec![
            SyntheticKey::Virtual { vk: 0xA2, key_up: true },
            SyntheticKey::Virtual { vk: 0xA1, key_up: true },
            SyntheticKey::Virtual { vk: 0x5C, key_up: true },
        ]
    );
    assert_eq!(modifier_release_keys(&[false; 8]), vec![]);
}

#[test]
fn fallback_keystrokes_per_character() {
    assert_eq!(
        char_keys('\n'),
        vec![SyntheticKey::Virtual { vk: 0x0D, key_up: false }, SyntheticKey::Virtual { vk: 0x0D, key_up: true }]
    );
    assert_eq!(char_keys('\r'), char_keys('\n'));
    assert_eq!(
        char_keys('x'),
        vec![SyntheticKey::Unicode { unit: 0x78, key_up: false }, SyntheticKey::Unicode { unit: 0x78, key_up: true }]
    );
    assert_eq!(
        char_keys('😀'),
        vec![
            SyntheticKey::Unicode { unit: 0xD83D, key_up: false },
            SyntheticKey::Unicode { unit: 0xD83D, key_up: true },
            SyntheticKey::Unicode { unit: 0xDE00, key_up: false },
            SyntheticKey::Unicode { unit: 0xDE00, key_up: true },
        ]
    );
}

#[test]
fn hotkey_replacement_steps_in_order() {
    let plan = Replacer::replace_hotkey(2, "a\nb", 150);
    let held = [true, false, false, false, false, false, false, true];
    let steps = replacement_actions(&plan, &held, true, true);
    let expected = vec![
        ReplaceAction::Inhibit(true),
        ReplaceAction::Send(vec![vk(0xA2, true), vk(0x5C, true)]),
        ReplaceAction::Sleep(10),
        bs_tap(),
        ReplaceAction::Sleep(5),
        bs_tap(),
        ReplaceAction::Sleep(5),
        ReplaceAction::Sleep(30),
        ReplaceAction::BackupClipboard,
        ReplaceAction::WriteClipboard(vec![0x61, 0x0D, 0x0A, 0x62, 0]),
        ReplaceAction::Sleep(10),
        ReplaceAction::Send(vec![vk(0xA2, false), vk(0x56, false), vk(0x56, true), vk(0xA2, true)]),
        ReplaceAction::Sleep(150),
        ReplaceAction::RestoreClipboard,
        ReplaceAction::Inhibit(false),
    ];
    assert_eq!(steps, expected);
}

#[test]
fn empty_clipboard_is_not_restored() {
    let plan = Replacer::replace_immediate(1, "x", 150);
    let steps = replacement_actions(&plan, &[false; 8], false, true);
    let expected = vec![
        ReplaceAction::Inhibit(true),
        ReplaceAction::Sleep(10),
        ReplaceAction::BackupClipboard,
        ReplaceAction::WriteClipboard(vec![0x78, 0]),
        ReplaceAction::Sleep(10),
        ReplaceAction::Send(vec![vk(0xA2, false), vk(0x56, false), vk(0x56, true), vk(0xA2, true)]),
        ReplaceAction::Inhibit(false),
    ];
    assert_eq!(steps, expected);
}

#[test]
fn failed_clipboard_write_types_the_text() {
    let plan = Replacer::replace_hotkey(1, "h\n", 150);
    let steps = replacement_actions(&plan, &[false; 8], true, false);
    let u = |unit: u16, key_up: bool| SyntheticKey::Unicode { unit, key_up };
    let expected = vec![
        ReplaceAction::Inhibit(true),
        ReplaceAction::Sleep(10),
        bs_tap(),
        ReplaceAction::Sleep(5),
        ReplaceAction::Sleep(30),
        ReplaceAction::BackupClipboard,
        ReplaceAction::WriteClipboard(vec![0x68, 0x0D, 0x0A, 0]),
        ReplaceAction::Send(vec![u(0x68, false), u(0x68, true)]),
        ReplaceAction::Sleep(5),
        ReplaceAction::Send(vec![vk(0x0D, false), vk(0x0D, true)]),
        ReplaceAction::Sleep(5),
        ReplaceAction::Inhibit(false),
    ];
    assert_eq!(steps, expected);
}

#[test]
fn outcomes_share_steps_up_to_the_write() {
    let plan = Replacer::replace_hotkey(3, "text", 40);
    let held = [false, false, true, false, false, false, false, false];
    let a = replacement_actions(&plan, &held, true, true);
    let b = replacement_actions(&plan, &held, false, false);
    let write = a.iter().position(|s| matches!(s, ReplaceAction::WriteClipboard(_))).unwrap();
    assert_eq!(a[..=write], b[..=write]);
}
