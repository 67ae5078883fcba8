use rust_expander::config::HotkeyConfig;
use rust_expander::hotkey::{check_hotkey_rules, conflict_verdict, validate_hotkey_rules, HotkeyRule};

#[test]
fn test_validate_hotkey_rejects_ctrl_v() {
    let hk = HotkeyConfig { modifiers: 2, virtual_key: 0x56 };
    assert!(validate_hotkey_rules(&hk, "en").is_err());
}

#[test]
fn test_validate_hotkey_rejects_ctrl_c() {
    let hk = HotkeyConfig { modifiers: 2, virtual_key: 0x43 };
    assert!(validate_hotkey_rules(&hk, "en").is_err());
}

#[test]
fn test_validate_hotkey_rejects_alt_f4() {
    let hk = HotkeyConfig { modifiers: 1, virtual_key: 0x73 };
    assert!(validate_hotkey_rules(&hk, "en").is_err());
}

#[test]
fn test_validate_hotkey_rejects_win_l() {
    let hk = HotkeyConfig { modifiers: 8, virtual_key: 0x4C };
    assert!(validate_hotkey_rules(&hk, "en").is_err());
}

#[test]
fn test_validate_hotkey_rejects_bare_character() {
    let hk = HotkeyConfig { modifiers: 0, virtual_key: 0x41 };
    assert!(validate_hotkey_rules(&hk, "en").is_err());
}

#[test]
fn test_validate_hotkey_allows_function_key() {
    let hk = HotkeyConfig { modifiers: 0, virtual_key: 0x78 };
    assert!(validate_hotkey_rules(&hk, "en").is_ok());
}

#[test]
fn test_validate_hotkey_allows_ctrl_shift_o() {
    let hk = HotkeyConfig { modifiers: 6, virtual_key: 0x4F };
    assert!(validate_hotkey_rules(&hk, "en").is_ok());
}

#[test]
fn test_validate_hotkey_allows_alt_shift_x() {
    let hk = HotkeyConfig { modifiers: 5, virtual_key: 0x58 };
    assert!(validate_hotkey_rules(&hk, "en").is_ok());
}

#[test]
fn each_rule_has_its_message() {
    let cases = [
        (HotkeyConfig { modifiers: 0, virtual_key: 0x41 }, HotkeyRule::NeedsModifier, "Invalid: Requires Ctrl/Alt/Shift/Win"),
        (HotkeyConfig { modifiers: 2, virtual_key: 0x26 }, HotkeyRule::CtrlReserved, "Invalid: Single Ctrl is reserved"),
        (HotkeyConfig { modifiers: 1, virtual_key: 0x20 }, HotkeyRule::SystemReserved, "Invalid: System-reserved shortcut"),
        (HotkeyConfig { modifiers: 8, virtual_key: 0x09 }, HotkeyRule::WindowsReserved, "Invalid: Windows-reserved shortcut"),
    ];
    for (hk, rule, msg) in cases {
        assert_eq!(check_hotkey_rules(&hk), Some(rule));
        assert_eq!(validate_hotkey_rules(&hk, "en"), Err(msg.to_string()));
    }
}

#[test]
fn rule_messages_follow_language() {
    let hk = HotkeyConfig { modifiers: 2, virtual_key: 0x56 };
    assert_eq!(validate_hotkey_rules(&hk, "da"), Err("Ugyldig: Enkelt Ctrl er reserveret".to_string()));
    assert_eq!(validate_hotkey_rules(&hk, "fr"), Err("Invalid: Single Ctrl is reserved".to_string()));
}

#[test]
fn edges_of_reserved_ranges() {
    assert_eq!(check_hotkey_rules(&HotkeyConfig { modifiers: 0, virtual_key: 0x6F }), Some(HotkeyRule::NeedsModifier));
    assert_eq!(check_hotkey_rules(&HotkeyConfig { modifiers: 0, virtual_key: 0x7B }), None);
    assert_eq!(check_hotkey_rules(&HotkeyConfig { modifiers: 0, virtual_key: 0x7C }), Some(HotkeyRule::NeedsModifier));
    assert_eq!(check_hotkey_rules(&HotkeyConfig { modifiers: 2, virtual_key: 0x70 }), None);
    assert_eq!(check_hotkey_rules(&HotkeyConfig { modifiers: 8, virtual_key: 0x42 }), None);
    assert_eq!(check_hotkey_rules(&HotkeyConfig { modifiers: 4, virtual_key: 0x41 }), None);
}

#[test]
fn conflict_is_reported_when_registration_fails() {
    assert_eq!(conflict_verdict("en", true), Ok(()));
    assert_eq!(conflict_verdict("en", false), Err("Conflict: Already in use by another app".to_string()));
    assert_eq!(conflict_verdict("da", false), Err("Konflikt: Allerede i brug af anden app".to_string()));
}
