//! Hotkey text for the settings window: turning a key press reported by the UI
//! toolkit into a hotkey, and a hotkey into the text the window shows.

use vstd::prelude::*;

use crate::config::{AppConfig, ExpansionMode, HotkeyConfig, Snippet};
use crate::hook::mask_of;
use crate::text_utils::{append_part, push_char, str_equals};

verus! {

broadcast use vstd::string::group_string_axioms;

/// The toolkit's private-use codes for modifier keys: 0xF720 ..= 0xF72F,
/// except the navigation keys that share that block (Delete 0xF728, Home
/// 0xF729, End 0xF72B, Page Up 0xF72C, Page Down 0xF72D).
pub open spec fn is_toolkit_modifier_code(code: u32) -> bool {
    0xF720 <= code <= 0xF72F && code != 0xF728 && code != 0xF729 && !(0xF72B <= code <= 0xF72D)
}

/// Key codes that only report a modifier (Shift, Ctrl, Alt in all their
/// variants, Caps Lock, the Windows keys, and the toolkit's modifier codes);
/// they never complete a hotkey.
pub open spec fn is_modifier_only_code(code: u32) -> bool {
    code == 0x10 || code == 0xA0 || code == 0xA1 || code == 0x11 || code == 0xA2 || code == 0xA3
        || code == 0x12 || code == 0xA4 || code == 0xA5 || code == 0x14 || code == 0x5B || code
        == 0x5C || is_toolkit_modifier_code(code)
}

/// The virtual key for a reported key code, and whether the code itself says
/// that Ctrl is held (the toolkit reports Ctrl+letter as a control character).
pub open spec fn code_to_vk(code: u32) -> Option<(u32, bool)> {
    if code == 0x09 {
        Some((0x09, false))
    } else if code == 0x0D || code == 0x0A {
        Some((0x0D, false))
    } else if code == 0x1B {
        Some((0x1B, false))
    } else if code == 0x20 {
        Some((0x20, false))
    } else if code == 0x08 {
        Some((0x08, false))
    } else if 1 <= code <= 26 {
        Some(((0x41 + (code - 1)) as u32, true))
    } else if 0x41 <= code <= 0x5A {
        Some((code, false))
    } else if 0x61 <= code <= 0x7A {
        Some(((code - 0x20) as u32, false))
    } else if 0x30 <= code <= 0x39 {
        Some((code, false))
    } else if 0xF704 <= code <= 0xF70F {
        // F1 ..= F12
        Some(((code - 0xF704 + 0x70) as u32, false))
    } else if code == 0xF700 {
        Some((0x26, false))
    } else if code == 0xF701 {
        Some((0x28, false))
    } else if code == 0xF702 {
        Some((0x25, false))
    } else if code == 0xF703 {
        Some((0x27, false))
    } else if code == 0xF729 {
        Some((0x24, false))
    } else if code == 0xF72B {
        Some((0x23, false))
    } else if code == 0xF72C {
        Some((0x21, false))
    } else if code == 0xF72D {
        Some((0x22, false))
    } else if code == 0xF728 {
        Some((0x2E, false))
    } else if 0x21 <= code <= 0x7E {
        // Any other printable ASCII character, upper-cased.
        Some((if 0x61 <= code <= 0x7A { (code - 0x20) as u32 } else { code }, false))
    } else {
        None
    }
}

/// The hotkey a key press reported by the UI toolkit stands for, or `None`
/// for modifier-only presses and keys without a virtual key.
pub open spec fn spec_parse_key(code: u32, ctrl: bool, alt: bool, shift: bool, win: bool) -> Option<HotkeyConfig> {
    if is_modifier_only_code(code) {
        None
    } else {
        match code_to_vk(code) {
            Some((vk, forces_ctrl)) => Some(
                HotkeyConfig {
                    modifiers: crate::hook::modifier_mask(alt, ctrl || forces_ctrl, shift, win),
                    virtual_key: vk,
                },
            ),
            None => None,
        }
    }
}

/// Parses a key event from the UI toolkit into a Win32 `HotkeyConfig`.
/// Returns `None` for modifier-only keys (Ctrl, Shift, Alt, Win) so the caller
/// can show intermediate modifier display instead of completing the capture.
pub fn parse_key_event(text: &str, ctrl: bool, alt: bool, shift: bool, win: bool) -> (r: Option<
    HotkeyConfig,
>)
    ensures
        text@.len() == 0 ==> r is None,
        text@.len() > 0 ==> r == spec_parse_key(text@[0] as u32, ctrl, alt, shift, win),
{
    if text.unicode_len() == 0 {
        return None;
    }
    let ch = text.get_char(0);
    let code = ch as u32;
    if code == 0x10 || code == 0xA0 || code == 0xA1 || code == 0x11 || code == 0xA2 || code == 0xA3
        || code == 0x12 || code == 0xA4 || code == 0xA5 || code == 0x14 || code == 0x5B || code
        == 0x5C || (0xF720 <= code && code <= 0xF72F && code != 0xF728 && code != 0xF729 && !(
        0xF72B <= code && code <= 0xF72D)) {
        return None;
    }
    let mut ctrl = ctrl;
    let vk: u32 = if code == 0x09 {
        0x09
    } else if code == 0x0D || code == 0x0A {
        0x0D
    } else if code == 0x1B {
        0x1B
    } else if code == 0x20 {
        0x20
    } else if code == 0x08 {
        0x08
    } else if 1 <= code && code <= 26 {
        ctrl = true;
        0x41 + (code - 1)
    } else if 0x41 <= code && code <= 0x5A {
        code
    } else if 0x61 <= code && code <= 0x7A {
        code - 0x20
    } else if 0x30 <= code && code <= 0x39 {
        code
    } else if 0xF704 <= code && code <= 0xF70F {
        code - 0xF704 + 0x70
    } else if code == 0xF700 {
        0x26
    } else if code == 0xF701 {
        0x28
    } else if code == 0xF702 {
        0x25
    } else if code == 0xF703 {
        0x27
    } else if code == 0xF729 {
        0x24
    } else if code == 0xF72B {
        0x23
    } else if code == 0xF72C {
        0x21
    } else if code == 0xF72D {
        0x22
    } else if code == 0xF728 {
        0x2E
    } else if 0x21 <= code && code <= 0x7E {
        if 0x61 <= code && code <= 0x7A {
            code - 0x20
        } else {
            code
        }
    } else {
        return None;
    };
    let modifiers = mask_of(alt, ctrl, shift, win);
    Some(HotkeyConfig { modifiers, virtual_key: vk })
}

/// The upper-case hexadecimal digit of `d` (0 ..= 15).
pub open spec fn hex_digit(d: nat) -> char {
    if d == 0 {
        '0'
    } else if d == 1 {
        '1'
    } else if d == 2 {
        '2'
    } else if d == 3 {
        '3'
    } else if d == 4 {
        '4'
    } else if d == 5 {
        '5'
    } else if d == 6 {
        '6'
    } else if d == 7 {
        '7'
    } else if d == 8 {
        '8'
    } else if d == 9 {
        '9'
    } else if d == 10 {
        'A'
    } else if d == 11 {
        'B'
    } else if d == 12 {
        'C'
    } else if d == 13 {
        'D'
    } else if d == 14 {
        'E'
    } else {
        'F'
    }
}

/// `v` in upper-case hexadecimal, without leading zeros.
pub open spec fn hex_upper(v: nat) -> Seq<char>
    decreases v,
{
    if v < 16 {
        seq![hex_digit(v)]
    } else {
        hex_upper(v / 16).push(hex_digit(v % 16))
    }
}

/// `v` in upper-case hexadecimal, at least two digits wide.
pub open spec fn hex_upper_2(v: nat) -> Seq<char> {
    if v < 16 {
        seq!['0', hex_digit(v)]
    } else {
        hex_upper(v)
    }
}

/// Names of the function keys F1 ..= F12 by index.
pub open spec fn function_key_name(n: nat) -> Seq<char> {
    if n == 1 {
        "F1"@
    } else if n == 2 {
        "F2"@
    } else if n == 3 {
        "F3"@
    } else if n == 4 {
        "F4"@
    } else if n == 5 {
        "F5"@
    } else if n == 6 {
        "F6"@
    } else if n == 7 {
        "F7"@
    } else if n == 8 {
        "F8"@
    } else if n == 9 {
        "F9"@
    } else if n == 10 {
        "F10"@
    } else if n == 11 {
        "F11"@
    } else {
        "F12"@
    }
}

/// The name shown for a virtual key: the letter or digit itself, F1 .. F12,
/// or its code in hexadecimal such as "0x2E".
pub open spec fn key_name(vk: u32) -> Seq<char> {
    if (0x41 <= vk <= 0x5A) || (0x30 <= vk <= 0x39) {
        seq![(vk as u8) as char]
    } else if 0x70 <= vk <= 0x7B {
        function_key_name((vk - 0x6F) as nat)
    } else {
        "0x"@ + hex_upper_2(vk as nat)
    }
}

/// The text shown for a hotkey, e.g. "CTRL+SHIFT+T".
pub open spec fn spec_hotkey_display(hk: HotkeyConfig) -> Seq<char> {
    let m = hk.modifiers;
    crate::text_utils::join_with(
        crate::hook::held_names(m & 2 != 0, m & 1 != 0, m & 4 != 0, m & 8 != 0).push(key_name(hk.virtual_key)),
        "+"@,
    )
}

fn hex_char(d: u32) -> (c: char)
    requires
        d < 16,
    ensures
        c == hex_digit(d as nat),
{
    if d == 0 {
        '0'
    } else if d == 1 {
        '1'
    } else if d == 2 {
        '2'
    } else if d == 3 {
        '3'
    } else if d == 4 {
        '4'
    } else if d == 5 {
        '5'
    } else if d == 6 {
        '6'
    } else if d == 7 {
        '7'
    } else if d == 8 {
        '8'
    } else if d == 9 {
        '9'
    } else if d == 10 {
        'A'
    } else if d == 11 {
        'B'
    } else if d == 12 {
        'C'
    } else if d == 13 {
        'D'
    } else if d == 14 {
        'E'
    } else {
        'F'
    }
}

fn push_hex(out: &mut String, v: u32)
    ensures
        final(out)@ == old(out)@ + hex_upper(v as nat),
    decreases v,
{
    if v >= 16 {
        push_hex(out, v / 16);
    }
    push_char(out, hex_char(v % 16));
    assert(final(out)@ =~= old(out)@ + hex_upper(v as nat));
}

fn function_key_text(n: u32) -> (r: &'static str)
    requires
        1 <= n <= 12,
    ensures
        r@ == function_key_name(n as nat),
{
    if n == 1 {
        "F1"
    } else if n == 2 {
        "F2"
    } else if n == 3 {
        "F3"
    } else if n == 4 {
        "F4"
    } else if n == 5 {
        "F5"
    } else if n == 6 {
        "F6"
    } else if n == 7 {
        "F7"
    } else if n == 8 {
        "F8"
    } else if n == 9 {
        "F9"
    } else if n == 10 {
        "F10"
    } else if n == 11 {
        "F11"
    } else {
        "F12"
    }
}

fn key_name_text(vk: u32) -> (r: String)
    ensures
        r@ == key_name(vk),
{
    let mut s = String::new();
    if (0x41 <= vk && vk <= 0x5A) || (0x30 <= vk && vk <= 0x39) {
        push_char(&mut s, (vk as u8) as char);
    } else if 0x70 <= vk && vk <= 0x7B {
        s.append(function_key_text(vk - 0x6F));
    } else {
        s.append("0x");
        if vk < 16 {
            push_char(&mut s, '0');
            push_char(&mut s, hex_char(vk));
        } else {
            push_hex(&mut s, vk);
        }
    }
    assert(s@ =~= key_name(vk));
    s
}

/// Formats the global hotkey as a human-readable string, e.g. "CTRL+SHIFT+T".
pub fn hotkey_display_string(hotkey: &HotkeyConfig) -> (r: String)
    ensures
        r@ == spec_hotkey_display(*hotkey),
{
    let m = hotkey.modifiers;
    let ctrl = m & 2 != 0;
    let alt = m & 1 != 0;
    let shift = m & 4 != 0;
    let win = m & 8 != 0;
    let mut out = String::new();
    let ghost mut parts: Seq<Seq<char>> = Seq::empty();
    let mut first = true;
    assert(out@ =~= crate::text_utils::join_with(parts, "+"@));
    if ctrl {
        append_part(&mut out, first, "+", "CTRL", Ghost(parts));
        proof {
            parts = parts.push("CTRL"@);
        }
        first = false;
    }
    if alt {
        append_part(&mut out, first, "+", "ALT", Ghost(parts));
        proof {
            parts = parts.push("ALT"@);
        }
        first = false;
    }
    if shift {
        append_part(&mut out, first, "+", "SHIFT", Ghost(parts));
        proof {
            parts = parts.push("SHIFT"@);
        }
        first = false;
    }
    if win {
        append_part(&mut out, first, "+", "WIN", Ghost(parts));
        proof {
            parts = parts.push("WIN"@);
        }
        first = false;
    }
    let name = key_name_text(hotkey.virtual_key);
    append_part(&mut out, first, "+", name.as_str(), Ghost(parts));
    assert(parts =~= crate::hook::held_names(ctrl, alt, shift, win));
    out
}

/// One row of the snippet table in the settings window, as plain text.
#[derive(Debug, Clone)]
pub struct SnippetRow {
    pub trigger: String,
    pub replacement: String,
    /// "immediate" or "hotkey".
    pub mode: String,
}

/// The name the settings window uses for a mode.
pub open spec fn mode_name(mode: ExpansionMode) -> Seq<char> {
    match mode {
        ExpansionMode::Immediate => "immediate"@,
        ExpansionMode::Hotkey => "hotkey"@,
    }
}

/// The mode a table row names: "hotkey" is Hotkey, anything else Immediate.
pub open spec fn row_mode(mode: Seq<char>) -> ExpansionMode {
    if mode == "hotkey"@ {
        ExpansionMode::Hotkey
    } else {
        ExpansionMode::Immediate
    }
}

/// A snippet as plain values: trigger, replacement, mode.
pub open spec fn snippet_view(s: Snippet) -> (Seq<char>, Seq<char>, ExpansionMode) {
    (s.trigger@, s.replacement@, s.mode)
}

/// A table row as plain values: trigger, replacement, mode name.
pub open spec fn row_view(r: SnippetRow) -> (Seq<char>, Seq<char>, Seq<char>) {
    (r.trigger@, r.replacement@, r.mode@)
}

/// The table row that shows a snippet.
pub open spec fn shown_row(s: (Seq<char>, Seq<char>, ExpansionMode)) -> (Seq<char>, Seq<char>, Seq<char>) {
    (s.0, s.1, mode_name(s.2))
}

/// The snippets a table saves: rows with an empty trigger are dropped (an
/// empty trigger would match after every keystroke), the others kept in order.
pub open spec fn saved_snippets(rows: Seq<(Seq<char>, Seq<char>, Seq<char>)>) -> Seq<(Seq<char>, Seq<char>, ExpansionMode)>
    decreases rows.len(),
{
    if rows.len() == 0 {
        Seq::empty()
    } else {
        let r = rows.last();
        saved_snippets(rows.drop_last()) + (if r.0.len() == 0 {
            Seq::empty()
        } else {
            seq![(r.0, r.1, row_mode(r.2))]
        })
    }
}

fn mode_text(mode: ExpansionMode) -> (r: &'static str)
    ensures
        r@ == mode_name(mode),
{
    match mode {
        ExpansionMode::Immediate => "immediate",
        ExpansionMode::Hotkey => "hotkey",
    }
}

/// The rows of the snippet table for a configuration.
pub fn snippet_rows(config: &AppConfig) -> (r: Vec<SnippetRow>)
    ensures
        r@.map_values(|x: SnippetRow| row_view(x)) == config.snippets@.map_values(
            |s: Snippet| shown_row(snippet_view(s)),
        ),
{
    let mut rows: Vec<SnippetRow> = Vec::new();
    let mut i: usize = 0;
    while i < config.snippets.len()
        invariant
            i <= config.snippets@.len(),
            rows@.len() == i,
            forall|k: int|
                0 <= k < i ==> #[trigger] row_view(rows@[k]) == shown_row(
                    snippet_view(config.snippets@[k]),
                ),
        decreases config.snippets.len() - i,
    {
        let s = &config.snippets[i];
        rows.push(
            SnippetRow {
                trigger: s.trigger.as_str().to_string(),
                replacement: s.replacement.as_str().to_string(),
                mode: mode_text(s.mode).to_string(),
            },
        );
        i = i + 1;
    }
    assert(rows@.map_values(|x: SnippetRow| row_view(x)) =~= config.snippets@.map_values(
        |s: Snippet| shown_row(snippet_view(s)),
    ));
    rows
}

/// The snippets to save from the rows of the snippet table: rows with an
/// empty trigger are skipped; a row's mode is Hotkey when it reads "hotkey"
/// and Immediate otherwise.
pub fn snippets_from_rows(rows: &Vec<SnippetRow>) -> (r: Vec<Snippet>)
    ensures
        r@.map_values(|s: Snippet| snippet_view(s)) == saved_snippets(
            rows@.map_values(|x: SnippetRow| row_view(x)),
        ),
{
    let mut out: Vec<Snippet> = Vec::new();
    let mut i: usize = 0;
    while i < rows.len()
        invariant
            i <= rows@.len(),
            out@.map_values(|s: Snippet| snippet_view(s)) == saved_snippets(
                rows@.subrange(0, i as int).map_values(|x: SnippetRow| row_view(x)),
            ),
        decreases rows.len() - i,
    {
        let row = &rows[i];
        let ghost pre = rows@.subrange(0, i as int).map_values(|x: SnippetRow| row_view(x));
        let ghost post = rows@.subrange(0, i + 1).map_values(|x: SnippetRow| row_view(x));
        assert(post.drop_last() =~= pre);
        assert(post.last() == row_view(*row));
        let ghost before = out@;
        if row.trigger.as_str().unicode_len() != 0 {
            let mode = if str_equals(row.mode.as_str(), "hotkey") {
                ExpansionMode::Hotkey
            } else {
                ExpansionMode::Immediate
            };
            out.push(
                Snippet {
                    trigger: row.trigger.as_str().to_string(),
                    replacement: row.replacement.as_str().to_string(),
                    mode,
                },
            );
            assert(out@.map_values(|s: Snippet| snippet_view(s)) =~= before.map_values(
                |s: Snippet| snippet_view(s),
            ).push(snippet_view(out@.last())));
        } else {
            assert(saved_snippets(post) =~= saved_snippets(pre));
        }
        i = i + 1;
    }
    assert(rows@.subrange(0, rows@.len() as int) =~= rows@);
    out
}

/// Every snippet saved from the table has a non-empty trigger.
pub proof fn lemma_saved_triggers_nonempty(rows: Seq<(Seq<char>, Seq<char>, Seq<char>)>)
    ensures
        forall|k: int|
            0 <= k < saved_snippets(rows).len() ==> (#[trigger] saved_snippets(rows)[k]).0.len() > 0,
    decreases rows.len(),
{
    if rows.len() > 0 {
        let prev = saved_snippets(rows.drop_last());
        lemma_saved_triggers_nonempty(rows.drop_last());
        let all = saved_snippets(rows);
        assert forall|k: int| 0 <= k < all.len() implies (#[trigger] all[k]).0.len() > 0 by {
            if k < prev.len() {
                assert(all[k] == prev[k]);
            }
        }
    }
}

/// The mode name shown in the table reads back as the same mode.
pub proof fn lemma_mode_name_round_trip(mode: ExpansionMode)
    ensures
        row_mode(mode_name(mode)) == mode,
{
    reveal_strlit("hotkey");
    reveal_strlit("immediate");
    assert("immediate"@.len() != "hotkey"@.len());
}

/// Showing snippets in the table and saving the table unchanged gives back
/// the same snippets, as long as none has an empty trigger.
pub proof fn lemma_rows_round_trip(snippets: Seq<(Seq<char>, Seq<char>, ExpansionMode)>)
    requires
        forall|k: int| 0 <= k < snippets.len() ==> (#[trigger] snippets[k]).0.len() > 0,
    ensures
        saved_snippets(snippets.map_values(|s: (Seq<char>, Seq<char>, ExpansionMode)| shown_row(s)))
            == snippets,
    decreases snippets.len(),
{
    let rows = snippets.map_values(|s: (Seq<char>, Seq<char>, ExpansionMode)| shown_row(s));
    if snippets.len() == 0 {
        assert(saved_snippets(rows) =~= snippets);
    } else {
        let init = snippets.drop_last();
        lemma_rows_round_trip(init);
        assert(rows.drop_last() =~= init.map_values(
            |s: (Seq<char>, Seq<char>, ExpansionMode)| shown_row(s),
        ));
        let last = snippets.last();
        assert(last.0.len() > 0);
        lemma_mode_name_round_trip(last.2);
        assert(saved_snippets(rows) =~= snippets);
    }
}

/// The language name shown in the settings window: "Dansk" for "da",
/// "English" otherwise.
pub fn language_label(lang: &str) -> (r: &'static str)
    ensures
        lang@ == "da"@ ==> r@ == "Dansk"@,
        lang@ != "da"@ ==> r@ == "English"@,
{
    if str_equals(lang, "da") {
        "Dansk"
    } else {
        "English"
    }
}

/// The text shown while only modifiers are held during hotkey capture, e.g.
/// "CTRL + SHIFT + ..."; `None` when no modifier is held.
pub fn pending_modifiers_text(ctrl: bool, alt: bool, shift: bool, win: bool) -> (r: Option<String>)
    ensures
        !(ctrl || alt || shift || win) ==> r is None,
        (ctrl || alt || shift || win) ==> (r matches Some(t) && t@ == crate::text_utils::join_with(
            crate::hook::held_names(ctrl, alt, shift, win),
            " + "@,
        ) + " + ..."@),
{
    if !(ctrl || alt || shift || win) {
        return None;
    }
    let mut t = crate::hook::modifier_display(ctrl, alt, shift, win);
    t.append(" + ...");
    Some(t)
}


/// The text the hotkey field shows for a hotkey the rules or another
/// application refuse: the hotkey, a dash, and the reason.
pub fn rejected_hotkey_text(hotkey: &HotkeyConfig, reason: &str) -> (r: String)
    ensures
        r@ == spec_hotkey_display(*hotkey) + " \u{2014} "@ + reason@,
{
    let mut t = hotkey_display_string(hotkey);
    t.append(" \u{2014} ");
    t.append(reason);
    t
}

/// Removes row `index` of the snippet table; an index outside the table
/// leaves it as it is.
pub fn remove_snippet_row(rows: &mut Vec<SnippetRow>, index: i32)
    ensures
        0 <= index < old(rows)@.len() ==> final(rows)@ == old(rows)@.remove(index as int),
        !(0 <= index < old(rows)@.len()) ==> final(rows)@ == old(rows)@,
{
    if index >= 0 && (index as usize) < rows.len() {
        rows.remove(index as usize);
    }
}

/// `current` with its snippets replaced by those saved from the table rows
/// (see `snippets_from_rows`); every other setting is kept.
pub fn config_with_rows(current: AppConfig, rows: &Vec<SnippetRow>) -> (r: AppConfig)
    ensures
        r.language == current.language,
        r.hotkey == current.hotkey,
        r.buffer_size == current.buffer_size,
        r.clipboard_restore_delay_ms == current.clipboard_restore_delay_ms,
        r.snippets@.map_values(|s: Snippet| snippet_view(s)) == saved_snippets(
            rows@.map_values(|x: SnippetRow| row_view(x)),
        ),
{
    let AppConfig { language, hotkey, buffer_size, clipboard_restore_delay_ms, snippets: _ } =
        current;
    AppConfig {
        language,
        hotkey,
        buffer_size,
        clipboard_restore_delay_ms,
        snippets: snippets_from_rows(rows),
    }
}

/// `current` with its hotkey replaced; every other setting is kept.
pub fn config_with_hotkey(current: AppConfig, hotkey: HotkeyConfig) -> (r: AppConfig)
    ensures
        r.language == current.language,
        r.hotkey == hotkey,
        r.buffer_size == current.buffer_size,
        r.clipboard_restore_delay_ms == current.clipboard_restore_delay_ms,
        r.snippets == current.snippets,
{
    let AppConfig { language, hotkey: _, buffer_size, clipboard_restore_delay_ms, snippets } =
        current;
    AppConfig { language, hotkey, buffer_size, clipboard_restore_delay_ms, snippets }
}

/// `current` with its language replaced; every other setting is kept.
pub fn config_with_language(current: AppConfig, language: &str) -> (r: AppConfig)
    ensures
        r.language@ == language@,
        r.hotkey == current.hotkey,
        r.buffer_size == current.buffer_size,
        r.clipboard_restore_delay_ms == current.clipboard_restore_delay_ms,
        r.snippets == current.snippets,
{
    let AppConfig { language: _, hotkey, buffer_size, clipboard_restore_delay_ms, snippets } =
        current;
    AppConfig { language: language.to_string(), hotkey, buffer_size, clipboard_restore_delay_ms, snippets }
}

/// The digit character of `d` (0 ..= 9).
pub open spec fn decimal_digit(d: nat) -> char {
    ((48 + d) as u8) as char
}

/// Function key `n` (1 ..= 12, virtual key 0x6F + n) is shown as "F" and
/// `n` in decimal, never as a hexadecimal code.
pub proof fn lemma_function_keys_displayed(n: nat)
    requires
        1 <= n <= 12,
    ensures
        spec_hotkey_display(HotkeyConfig { modifiers: 0, virtual_key: (0x6F + n) as u32 }) == (if n
            < 10 {
            seq!['F', decimal_digit(n)]
        } else {
            seq!['F', '1', decimal_digit((n - 10) as nat)]
        }),
{
    reveal_strlit("F1");
    reveal_strlit("F2");
    reveal_strlit("F3");
    reveal_strlit("F4");
    reveal_strlit("F5");
    reveal_strlit("F6");
    reveal_strlit("F7");
    reveal_strlit("F8");
    reveal_strlit("F9");
    reveal_strlit("F10");
    reveal_strlit("F11");
    reveal_strlit("F12");
    let hk = HotkeyConfig { modifiers: 0, virtual_key: (0x6F + n) as u32 };
    let m = hk.modifiers;
    assert(m & 2 == 0 && m & 1 == 0 && m & 4 == 0 && m & 8 == 0) by (bit_vector)
        requires
            m == 0u32,
    ;
    let names = crate::hook::held_names(false, false, false, false);
    assert(names =~= Seq::<Seq<char>>::empty());
    let parts = names.push(key_name(hk.virtual_key));
    assert(parts.drop_last() =~= Seq::<Seq<char>>::empty());
    assert(crate::text_utils::join_with(parts, "+"@) == key_name(hk.virtual_key));
}


/// A letter reported by the toolkit, in either case, is captured as that
/// letter's virtual key (its upper-case code) with the held modifiers as
/// `MOD_*` bits (Alt 1, Ctrl 2, Shift 4, Win 8).
pub proof fn lemma_parse_letter(code: u32, ctrl: bool, alt: bool, shift: bool, win: bool)
    requires
        (0x41 <= code <= 0x5A) || (0x61 <= code <= 0x7A),
    ensures
        spec_parse_key(code, ctrl, alt, shift, win) matches Some(hk) && hk.virtual_key == (if code
            >= 0x61 {
            code - 0x20
        } else {
            code as int
        }) && hk.modifiers as int == crate::hook::mod_bits(alt, ctrl, shift, win),
{
}

/// A digit is captured as its own virtual key.
pub proof fn lemma_parse_digit(code: u32, ctrl: bool, alt: bool, shift: bool, win: bool)
    requires
        0x30 <= code <= 0x39,
    ensures
        spec_parse_key(code, ctrl, alt, shift, win) matches Some(hk) && hk.virtual_key == code
            && hk.modifiers as int == crate::hook::mod_bits(alt, ctrl, shift, win),
{
}

/// The toolkit reports Ctrl+letter as the control character 1 ..= 26; it is
/// captured as that letter with Ctrl held. Codes that the toolkit also uses
/// for Backspace, Tab, Enter and the modifier keys themselves (Shift 0x10,
/// Ctrl 0x11, Alt 0x12, Caps Lock 0x14) keep those meanings.
pub proof fn lemma_parse_ctrl_letter(code: u32, alt: bool, shift: bool, win: bool)
    requires
        1 <= code <= 26,
        code != 0x08,
        code != 0x09,
        code != 0x0A,
        code != 0x0D,
        code != 0x10,
        code != 0x11,
        code != 0x12,
        code != 0x14,
    ensures
        spec_parse_key(code, false, alt, shift, win) matches Some(hk) && hk.virtual_key == 0x40
            + code && hk.modifiers as int == crate::hook::mod_bits(alt, true, shift, win),
{
}

/// The toolkit's codes for F1 ..= F12 (0xF704 ..= 0xF70F) are captured as the
/// function keys 0x70 ..= 0x7B.
pub proof fn lemma_parse_function_key(code: u32, ctrl: bool, alt: bool, shift: bool, win: bool)
    requires
        0xF704 <= code <= 0xF70F,
    ensures
        spec_parse_key(code, ctrl, alt, shift, win) matches Some(hk) && hk.virtual_key == code
            - 0xF704 + 0x70 && hk.modifiers as int == crate::hook::mod_bits(alt, ctrl, shift, win),
{
}

/// The toolkit's navigation codes are real keys: Up, Down, Left, Right, Home,
/// End, Page Up, Page Down and Delete each give their virtual key.
pub proof fn lemma_parse_navigation_keys(ctrl: bool, alt: bool, shift: bool, win: bool)
    ensures
        spec_parse_key(0xF700, ctrl, alt, shift, win) matches Some(hk) && hk.virtual_key == 0x26,
        spec_parse_key(0xF701, ctrl, alt, shift, win) matches Some(hk) && hk.virtual_key == 0x28,
        spec_parse_key(0xF702, ctrl, alt, shift, win) matches Some(hk) && hk.virtual_key == 0x25,
        spec_parse_key(0xF703, ctrl, alt, shift, win) matches Some(hk) && hk.virtual_key == 0x27,
        spec_parse_key(0xF729, ctrl, alt, shift, win) matches Some(hk) && hk.virtual_key == 0x24,
        spec_parse_key(0xF72B, ctrl, alt, shift, win) matches Some(hk) && hk.virtual_key == 0x23,
        spec_parse_key(0xF72C, ctrl, alt, shift, win) matches Some(hk) && hk.virtual_key == 0x21,
        spec_parse_key(0xF72D, ctrl, alt, shift, win) matches Some(hk) && hk.virtual_key == 0x22,
        spec_parse_key(0xF728, ctrl, alt, shift, win) matches Some(hk) && hk.virtual_key == 0x2E,
{
}

/// Pressing only a modifier (Shift, Ctrl, Alt on either side, Caps Lock, a
/// Windows key) completes no hotkey.
pub proof fn lemma_parse_modifier_only(code: u32, ctrl: bool, alt: bool, shift: bool, win: bool)
    requires
        code == 0x10 || code == 0x11 || code == 0x12 || (0xA0 <= code <= 0xA5) || code == 0x14
            || code == 0x5B || code == 0x5C,
    ensures
        spec_parse_key(code, ctrl, alt, shift, win) is None,
{
}

/// A letter or digit key is shown as that character.
pub proof fn lemma_letters_digits_displayed(vk: u32)
    requires
        (0x41 <= vk <= 0x5A) || (0x30 <= vk <= 0x39),
    ensures
        key_name(vk) == seq![(vk as u8) as char],
        key_name(vk).len() == 1,
{
}
} // verus!
