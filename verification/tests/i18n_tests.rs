use rust_expander::i18n::get_strings;

#[test]
fn english_strings() {
    let s = get_strings("en");
    assert_eq!(s.window_title, "Rust-Expander - Settings");
    assert_eq!(s.mode_immediate, "⚡ Immediate");
    assert_eq!(s.uninstall_btn, "\u{2620}");
    assert_eq!(s.tray_tooltip, "Rust-Expander\nClick for settings");
}

#[test]
fn danish_strings() {
    let s = get_strings("da");
    assert_eq!(s.window_title, "Rust-Expander - Indstillinger");
    assert_eq!(s.hotkey_save, "Sæt");
    assert_eq!(s.err_conflict, "Konflikt: Allerede i brug af anden app");
    assert_eq!(s.btn_cancel_tooltip, "Fortryd alle ændringer siden sidste gem");
}

#[test]
fn unknown_language_falls_back_to_english() {
    assert_eq!(get_strings("de").header, "Settings");
    assert_eq!(get_strings("").header, "Settings");
    assert_eq!(get_strings("dan").header, "Settings");
    assert_eq!(get_strings("DA").header, "Settings");
}
