//! Hotkey validation rules.
//!
//! The rules that reject a hotkey outright stand here; whether another running
//! application already owns the combination is asked of the system by the caller.

use vstd::prelude::*;

use crate::config::HotkeyConfig;
use crate::i18n::{get_strings, Strings};

verus! {

broadcast use vstd::string::group_string_axioms;

/// The rule a hotkey breaks.
#[derive(Debug, Clone, Copy, PartialEq, Eq, Structural)]
pub enum HotkeyRule {
    /// No modifier, and the key is not a function key.
    NeedsModifier,
    /// Ctrl alone with a key used by standard editing shortcuts.
    CtrlReserved,
    /// Alt alone with a key used by system shortcuts.
    SystemReserved,
    /// Win alone with a key used by Windows shortcuts.
    WindowsReserved,
}

/// F1 ..= F12.
pub open spec fn is_function_key(vk: u32) -> bool {
    0x70 <= vk <= 0x7B
}

/// Keys that Ctrl alone may not claim: letters, digits, space, tab, enter,
/// escape and the arrow keys.
pub open spec fn ctrl_reserved_key(vk: u32) -> bool {
    (0x41 <= vk <= 0x5A) || (0x30 <= vk <= 0x39) || vk == 0x20 || vk == 0x09 || vk == 0x0D || vk
        == 0x1B || (0x25 <= vk <= 0x28)
}

/// Keys that Alt alone may not claim: Tab, F4, Space, Enter, Escape.
pub open spec fn alt_reserved_key(vk: u32) -> bool {
    vk == 0x09 || vk == 0x73 || vk == 0x20 || vk == 0x0D || vk == 0x1B
}

/// Keys that Win alone may not claim: L, D, E, R, S, X, I, A, N, V, P, Tab.
pub open spec fn win_reserved_key(vk: u32) -> bool {
    vk == 0x4C || vk == 0x44 || vk == 0x45 || vk == 0x52 || vk == 0x53 || vk == 0x58 || vk == 0x49
        || vk == 0x41 || vk == 0x4E || vk == 0x56 || vk == 0x50 || vk == 0x09
}

/// The first rule, in order, that a hotkey breaks.
pub open spec fn broken_rule(hk: HotkeyConfig) -> Option<HotkeyRule> {
    if hk.modifiers == 0 && !is_function_key(hk.virtual_key) {
        Some(HotkeyRule::NeedsModifier)
    } else if hk.modifiers == 2 && ctrl_reserved_key(hk.virtual_key) {
        Some(HotkeyRule::CtrlReserved)
    } else if hk.modifiers == 1 && alt_reserved_key(hk.virtual_key) {
        Some(HotkeyRule::SystemReserved)
    } else if hk.modifiers == 8 && win_reserved_key(hk.virtual_key) {
        Some(HotkeyRule::WindowsReserved)
    } else {
        None
    }
}

/// The message that explains a broken rule.
pub open spec fn rule_message(strings: Strings, rule: HotkeyRule) -> Seq<char> {
    match rule {
        HotkeyRule::NeedsModifier => strings.err_needs_mod@,
        HotkeyRule::CtrlReserved => strings.err_ctrl_reserved@,
        HotkeyRule::SystemReserved => strings.err_sys_reserved@,
        HotkeyRule::WindowsReserved => strings.err_win_reserved@,
    }
}

/// Finds the first rule that a hotkey breaks.
pub fn check_hotkey_rules(hk: &HotkeyConfig) -> (r: Option<HotkeyRule>)
    ensures
        r == broken_rule(*hk),
{
    let vk = hk.virtual_key;
    if hk.modifiers == 0 && !(0x70 <= vk && vk <= 0x7B) {
        return Some(HotkeyRule::NeedsModifier);
    }
    if hk.modifiers == 2 {
        if (0x41 <= vk && vk <= 0x5A) || (0x30 <= vk && vk <= 0x39) || vk == 0x20 || vk == 0x09
            || vk == 0x0D || vk == 0x1B || (0x25 <= vk && vk <= 0x28) {
            return Some(HotkeyRule::CtrlReserved);
        }
    }
    if hk.modifiers == 1 {
        if vk == 0x09 || vk == 0x73 || vk == 0x20 || vk == 0x0D || vk == 0x1B {
            return Some(HotkeyRule::SystemReserved);
        }
    }
    if hk.modifiers == 8 {
        if vk == 0x4C || vk == 0x44 || vk == 0x45 || vk == 0x52 || vk == 0x53 || vk == 0x58 || vk
            == 0x49 || vk == 0x41 || vk == 0x4E || vk == 0x56 || vk == 0x50 || vk == 0x09 {
            return Some(HotkeyRule::WindowsReserved);
        }
    }
    None
}

/// Validates a hotkey against the fixed rules.
///
/// Returns `Ok(())` if no rule rejects the hotkey, or `Err(reason)` with a
/// human-readable message in the language specified by `lang`. Whether another
/// application has already registered the combination is a separate check.
pub fn validate_hotkey_rules(hk: &HotkeyConfig, lang: &str) -> (r: Result<(), String>)
    ensures
        broken_rule(*hk) is None ==> r is Ok,
        broken_rule(*hk) matches Some(rule) ==> (r matches Err(msg) && msg@ == rule_message(
            crate::i18n::spec_get_strings(lang@),
            rule,
        )),
{
    let strings = get_strings(lang);
    match check_hotkey_rules(hk) {
        None => Ok(()),
        Some(HotkeyRule::NeedsModifier) => Err(strings.err_needs_mod.to_string()),
        Some(HotkeyRule::CtrlReserved) => Err(strings.err_ctrl_reserved.to_string()),
        Some(HotkeyRule::SystemReserved) => Err(strings.err_sys_reserved.to_string()),
        Some(HotkeyRule::WindowsReserved) => Err(strings.err_win_reserved.to_string()),
    }
}

/// Completes the validation once the system has answered whether the hotkey
/// could be registered: a hotkey that breaks no rule is accepted exactly when
/// the registration succeeded, and is otherwise reported as a conflict.
pub fn conflict_verdict(lang: &str, registered: bool) -> (r: Result<(), String>)
    ensures
        registered ==> r is Ok,
        !registered ==> (r matches Err(msg) && msg@ == crate::i18n::spec_get_strings(
            lang@,
        ).err_conflict@),
{
    if registered {
        Ok(())
    } else {
        Err(get_strings(lang).err_conflict.to_string())
    }
}

/// The default hotkey (Ctrl + Shift + T) breaks no rule.
pub proof fn lemma_default_hotkey_allowed()
    ensures
        broken_rule(crate::config::spec_default_hotkey()) is None,
{
}

/// A function key needs no modifier, and no rule rejects it alone.
pub proof fn lemma_function_keys_allowed(vk: u32)
    requires
        is_function_key(vk),
    ensures
        broken_rule(HotkeyConfig { modifiers: 0, virtual_key: vk }) is None,
{
}

/// A hotkey with two or more modifiers (or with Shift alone) is never
/// rejected by the fixed rules.
pub proof fn lemma_combined_modifiers_allowed(hk: HotkeyConfig)
    requires
        hk.modifiers != 0,
        hk.modifiers != 1,
        hk.modifiers != 2,
        hk.modifiers != 8,
    ensures
        broken_rule(hk) is None,
{
}

/// Ctrl alone with any letter or digit is refused as reserved: those are the
/// standard editing shortcuts (Ctrl+C, Ctrl+V, Ctrl+Z, Ctrl+1, ...).
pub proof fn lemma_ctrl_letters_digits_reserved(vk: u32)
    requires
        (0x41 <= vk <= 0x5A) || (0x30 <= vk <= 0x39),
    ensures
        broken_rule(HotkeyConfig { modifiers: 2, virtual_key: vk }) == Some(HotkeyRule::CtrlReserved),
{
}

/// Ctrl alone with Space, Tab, Enter, Escape or an arrow key is refused as
/// reserved too.
pub proof fn lemma_ctrl_editing_keys_reserved(vk: u32)
    requires
        vk == 0x20 || vk == 0x09 || vk == 0x0D || vk == 0x1B || (0x25 <= vk <= 0x28),
    ensures
        broken_rule(HotkeyConfig { modifiers: 2, virtual_key: vk }) == Some(HotkeyRule::CtrlReserved),
{
}

/// Alt alone with Tab, F4, Space, Enter or Escape is refused: those are
/// system shortcuts (Alt+Tab, Alt+F4, ...).
pub proof fn lemma_alt_system_keys_reserved(vk: u32)
    requires
        vk == 0x09 || vk == 0x73 || vk == 0x20 || vk == 0x0D || vk == 0x1B,
    ensures
        broken_rule(HotkeyConfig { modifiers: 1, virtual_key: vk }) == Some(HotkeyRule::SystemReserved),
{
}

/// Win alone with L, D, E, R, S, X, I, A, N, V, P or Tab is refused: those are
/// Windows shortcuts.
pub proof fn lemma_win_keys_reserved(vk: u32)
    requires
        vk == 0x4C || vk == 0x44 || vk == 0x45 || vk == 0x52 || vk == 0x53 || vk == 0x58 || vk
            == 0x49 || vk == 0x41 || vk == 0x4E || vk == 0x56 || vk == 0x50 || vk == 0x09,
    ensures
        broken_rule(HotkeyConfig { modifiers: 8, virtual_key: vk }) == Some(HotkeyRule::WindowsReserved),
{
}

/// Without a modifier, only F1 ..= F12 are accepted.
pub proof fn lemma_plain_keys_need_modifier(vk: u32)
    requires
        !(0x70 <= vk <= 0x7B),
    ensures
        broken_rule(HotkeyConfig { modifiers: 0, virtual_key: vk }) == Some(HotkeyRule::NeedsModifier),
{
}

/// Ctrl alone with a function key is accepted.
pub proof fn lemma_ctrl_function_keys_allowed(vk: u32)
    requires
        0x70 <= vk <= 0x7B,
    ensures
        broken_rule(HotkeyConfig { modifiers: 2, virtual_key: vk }) is None,
{
}

} // verus!
