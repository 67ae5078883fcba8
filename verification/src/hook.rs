//! The decisions of the low-level keyboard hook.
//!
//! The hook thread hands every keyboard event to [`handle_key_event`], which
//! updates the typing buffer and the hook switches and says what to do with the
//! event. Reading the keyboard and injecting text stay with the caller.

use vstd::prelude::*;

use crate::buffer::KeyBuffer;
use crate::config::{AppConfig, ExpansionMode, HotkeyConfig, Snippet};
use crate::text_utils::{append_part, char_from_u32};

verus! {

broadcast use vstd::string::group_string_axioms;

/// Tag carried in `dwExtraInfo` by the keystrokes this application injects.
pub const EXPANDER_TAG: usize = 0x52455850;

/// `WM_KEYDOWN`.
pub const WM_KEYDOWN: u32 = 0x0100;

/// `WM_SYSKEYDOWN`.
pub const WM_SYSKEYDOWN: u32 = 0x0104;

/// `MOD_ALT`.
pub const MOD_ALT: u32 = 1;

/// `MOD_CONTROL`.
pub const MOD_CONTROL: u32 = 2;

/// `MOD_SHIFT`.
pub const MOD_SHIFT: u32 = 4;

/// `MOD_WIN`.
pub const MOD_WIN: u32 = 8;

/// The switches that steer the hook: hotkey recording, pause, and the
/// suppression of the hook while the application injects its own keystrokes.
pub struct HookFlags {
    recording_hotkey: bool,
    paused: bool,
    inhibit: bool,
}

impl HookFlags {
    /// Hotkey recording mode is on.
    pub closed spec fn recording(&self) -> bool {
        self.recording_hotkey
    }

    /// Expansion is paused.
    pub closed spec fn paused_now(&self) -> bool {
        self.paused
    }

    /// The hook ignores events (our own injected input is being sent).
    pub closed spec fn inhibited(&self) -> bool {
        self.inhibit
    }

    /// All switches off.
    pub fn new() -> (r: Self)
        ensures
            !r.recording(),
            !r.paused_now(),
            !r.inhibited(),
    {
        HookFlags { recording_hotkey: false, paused: false, inhibit: false }
    }

    /// Enables or disables global hotkey capture mode.
    pub fn set_recording_hotkey(&mut self, val: bool)
        ensures
            final(self).recording() == val,
            final(self).paused_now() == old(self).paused_now(),
            final(self).inhibited() == old(self).inhibited(),
    {
        self.recording_hotkey = val;
    }

    /// Returns true while hotkey capture mode is on.
    pub fn is_recording_hotkey(&self) -> (r: bool)
        ensures
            r == self.recording(),
    {
        self.recording_hotkey
    }

    /// Sets whether text expansion is paused.
    pub fn set_paused(&mut self, val: bool)
        ensures
            final(self).paused_now() == val,
            final(self).recording() == old(self).recording(),
            final(self).inhibited() == old(self).inhibited(),
    {
        self.paused = val;
    }

    /// Returns true if text expansion is currently paused.
    pub fn is_paused(&self) -> (r: bool)
        ensures
            r == self.paused_now(),
    {
        self.paused
    }

    /// Suppresses the hook (or lets it run again) around injected input.
    pub fn set_inhibit(&mut self, val: bool)
        ensures
            final(self).inhibited() == val,
            final(self).recording() == old(self).recording(),
            final(self).paused_now() == old(self).paused_now(),
    {
        self.inhibit = val;
    }

    /// Returns true while the hook is suppressed.
    pub fn is_inhibited(&self) -> (r: bool)
        ensures
            r == self.inhibited(),
    {
        self.inhibit
    }
}

/// One event as the low-level keyboard hook receives it.
#[derive(Debug, Clone, Copy)]
pub struct KeyEvent {
    /// The hook code; negative codes must be passed on untouched.
    pub n_code: i32,
    /// The window message (`WM_KEYDOWN`, `WM_KEYUP`, ...).
    pub message: u32,
    /// The virtual key code.
    pub vk_code: u32,
    /// `dwExtraInfo` of the event.
    pub extra_info: usize,
    /// Ctrl was held when the event arrived.
    pub ctrl_down: bool,
    /// Alt was held when the event arrived.
    pub alt_down: bool,
    /// Shift was held when the event arrived.
    pub shift_down: bool,
    /// A Windows key was held when the event arrived.
    pub win_down: bool,
}

/// What the hook does with an event.
#[derive(Debug)]
pub enum KeyDecision {
    /// Hand the event on to the next hook.
    Pass,
    /// Swallow the event.
    Swallow,
    /// Swallow the event; hotkey recording shows the modifiers held so far.
    ShowModifiers(String),
    /// Swallow the event; hotkey recording captured this combination.
    Captured(HotkeyConfig),
    /// Swallow the event; the hotkey replaces the last `trigger_len`
    /// characters typed by `replacement`.
    ExpandHotkey { trigger_len: usize, replacement: String },
    /// Translate the key into characters and hand them to [`feed_typed_chars`].
    Translate,
}

/// The event is a key press (`WM_KEYDOWN` or `WM_SYSKEYDOWN`).
pub open spec fn is_key_down(message: u32) -> bool {
    message == WM_KEYDOWN || message == WM_SYSKEYDOWN
}

/// Ctrl, left Ctrl, right Ctrl.
pub open spec fn is_ctrl_key(vk: u32) -> bool {
    vk == 0x11 || vk == 0xA2 || vk == 0xA3
}

/// Alt, left Alt, right Alt.
pub open spec fn is_alt_key(vk: u32) -> bool {
    vk == 0x12 || vk == 0xA4 || vk == 0xA5
}

/// Shift, left Shift, right Shift.
pub open spec fn is_shift_key(vk: u32) -> bool {
    vk == 0x10 || vk == 0xA0 || vk == 0xA1
}

/// Left and right Windows keys.
pub open spec fn is_win_key(vk: u32) -> bool {
    vk == 0x5B || vk == 0x5C
}

/// A modifier key of any kind.
pub open spec fn is_modifier_key(vk: u32) -> bool {
    is_ctrl_key(vk) || is_alt_key(vk) || is_shift_key(vk) || is_win_key(vk)
}

/// Ctrl counts as held: reported down, or the event is a Ctrl key itself.
pub open spec fn ctrl_held(ev: KeyEvent) -> bool {
    ev.ctrl_down || is_ctrl_key(ev.vk_code)
}

/// Alt counts as held.
pub open spec fn alt_held(ev: KeyEvent) -> bool {
    ev.alt_down || is_alt_key(ev.vk_code)
}

/// Shift counts as held.
pub open spec fn shift_held(ev: KeyEvent) -> bool {
    ev.shift_down || is_shift_key(ev.vk_code)
}

/// A Windows key counts as held.
pub open spec fn win_held(ev: KeyEvent) -> bool {
    ev.win_down || is_win_key(ev.vk_code)
}

/// The `MOD_*` mask of the given modifiers.
pub open spec fn modifier_mask(alt: bool, ctrl: bool, shift: bool, win: bool) -> u32 {
    ((if alt { MOD_ALT } else { 0 }) + (if ctrl { MOD_CONTROL } else { 0 }) + (if shift {
        MOD_SHIFT
    } else {
        0
    }) + (if win { MOD_WIN } else { 0 })) as u32
}

/// The `MOD_*` mask of the modifiers held at an event.
pub open spec fn event_mask(ev: KeyEvent) -> u32 {
    modifier_mask(alt_held(ev), ctrl_held(ev), shift_held(ev), win_held(ev))
}

/// Names of the held modifiers, in the order CTRL, ALT, SHIFT, WIN.
pub open spec fn held_names(ctrl: bool, alt: bool, shift: bool, win: bool) -> Seq<Seq<char>> {
    (if ctrl {
        seq!["CTRL"@]
    } else {
        Seq::empty()
    }) + (if alt {
        seq!["ALT"@]
    } else {
        Seq::empty()
    }) + (if shift {
        seq!["SHIFT"@]
    } else {
        Seq::empty()
    }) + (if win {
        seq!["WIN"@]
    } else {
        Seq::empty()
    })
}

/// The modifiers held at an event as shown while recording, e.g. "CTRL + SHIFT".
pub open spec fn event_modifier_display(ev: KeyEvent) -> Seq<char> {
    crate::text_utils::join_with(held_names(ctrl_held(ev), alt_held(ev), shift_held(ev), win_held(ev)), " + "@)
}

/// Keys that never touch the typing buffer (modifiers and Caps Lock).
pub open spec fn leaves_buffer_alone(vk: u16) -> bool {
    vk == 0x10 || vk == 0x11 || vk == 0x12 || vk == 0xA0 || vk == 0xA1 || vk == 0xA2 || vk == 0xA3
        || vk == 0xA4 || vk == 0xA5 || vk == 0x14
}

/// Navigation and editing keys that start a fresh buffer: arrows, Home, End,
/// Delete, Escape, Tab, Enter, Page Up, Page Down.
pub open spec fn resets_buffer(vk: u16) -> bool {
    vk == 0x25 || vk == 0x27 || vk == 0x26 || vk == 0x28 || vk == 0x24 || vk == 0x23 || vk == 0x2E
        || vk == 0x1B || vk == 0x09 || vk == 0x0D || vk == 0x21 || vk == 0x22
}

/// Backspace.
pub open spec fn is_backspace(vk: u16) -> bool {
    vk == 0x08
}

/// Events the hook hands on without looking at them: negative hook codes,
/// events while our own input is injected, our own tagged keystrokes, and
/// everything that is not a key press.
pub open spec fn passes_untouched(flags: HookFlags, ev: KeyEvent) -> bool {
    ev.n_code < 0 || flags.inhibited() || ev.extra_info == EXPANDER_TAG || !is_key_down(ev.message)
}

/// The snippet has the given mode and the typed text ends with its trigger.
pub open spec fn snippet_fires(typed: Seq<char>, s: Snippet, mode: ExpansionMode) -> bool {
    s.mode == mode && crate::buffer::seq_ends_with(typed, s.trigger@)
}

/// The first snippet at or after index `i` that fires.
pub open spec fn first_firing_from(typed: Seq<char>, snippets: Seq<Snippet>, mode: ExpansionMode, i: int) -> Option<int>
    decreases snippets.len() - i,
{
    if i < 0 || i >= snippets.len() {
        None
    } else if snippet_fires(typed, snippets[i], mode) {
        Some(i)
    } else {
        first_firing_from(typed, snippets, mode, i + 1)
    }
}

/// The first snippet, in configuration order, that fires.
pub open spec fn first_firing(typed: Seq<char>, snippets: Seq<Snippet>, mode: ExpansionMode) -> Option<int> {
    first_firing_from(typed, snippets, mode, 0)
}

/// A replacement of the last `trigger_len` typed characters by `replacement`
/// is the one the snippet at `i` asks for.
pub open spec fn replaces_with(snippets: Seq<Snippet>, i: int, trigger_len: usize, replacement: Seq<char>) -> bool {
    trigger_len == snippets[i].trigger@.len() && replacement == snippets[i].replacement@
}

/// Finds the first snippet of the given mode whose trigger the buffer ends with.
pub fn find_snippet(buffer: &KeyBuffer, snippets: &Vec<Snippet>, mode: ExpansionMode) -> (r: Option<usize>)
    requires
        buffer.wf(),
    ensures
        r matches Some(i) ==> i < snippets@.len() && first_firing(buffer@, snippets@, mode) == Some(
            i as int,
        ),
        r is None ==> first_firing(buffer@, snippets@, mode) is None,
{
    let mut i: usize = 0;
    while i < snippets.len()
        invariant
            buffer.wf(),
            i <= snippets@.len(),
            first_firing(buffer@, snippets@, mode) == first_firing_from(
                buffer@,
                snippets@,
                mode,
                i as int,
            ),
        decreases snippets.len() - i,
    {
        let s = &snippets[i];
        if s.mode == mode && buffer.ends_with(s.trigger.as_str()) {
            return Some(i);
        }
        i = i + 1;
    }
    None
}

/// Takes the replacement of the snippet at `i`, clearing the buffer.
fn take_replacement(buffer: &mut KeyBuffer, snippets: &Vec<Snippet>, i: usize) -> (r: (usize, String))
    requires
        old(buffer).wf(),
        i < snippets@.len(),
    ensures
        final(buffer).wf(),
        final(buffer).cap() == old(buffer).cap(),
        final(buffer)@ == Seq::<char>::empty(),
        replaces_with(snippets@, i as int, r.0, r.1@),
{
    let s = &snippets[i];
    let n = s.trigger.as_str().unicode_len();
    let replacement = s.replacement.as_str().to_string();
    buffer.clear();
    (n, replacement)
}

/// Builds the modifier display shown while recording, e.g. "CTRL + SHIFT".
pub fn modifier_display(ctrl: bool, alt: bool, shift: bool, win: bool) -> (r: String)
    ensures
        r@ == crate::text_utils::join_with(held_names(ctrl, alt, shift, win), " + "@),
{
    let mut out = String::new();
    let ghost mut parts: Seq<Seq<char>> = Seq::empty();
    let mut first = true;
    assert(out@ =~= crate::text_utils::join_with(parts, " + "@));
    if ctrl {
        append_part(&mut out, first, " + ", "CTRL", Ghost(parts));
        proof {
            parts = parts.push("CTRL"@);
        }
        first = false;
    }
    if alt {
        append_part(&mut out, first, " + ", "ALT", Ghost(parts));
        proof {
            parts = parts.push("ALT"@);
        }
        first = false;
    }
    if shift {
        append_part(&mut out, first, " + ", "SHIFT", Ghost(parts));
        proof {
            parts = parts.push("SHIFT"@);
        }
        first = false;
    }
    if win {
        append_part(&mut out, first, " + ", "WIN", Ghost(parts));
        proof {
            parts = parts.push("WIN"@);
        }
    }
    assert(parts =~= held_names(ctrl, alt, shift, win));
    out
}

/// The `MOD_*` mask of the given modifiers.
pub fn mask_of(alt: bool, ctrl: bool, shift: bool, win: bool) -> (r: u32)
    ensures
        r == modifier_mask(alt, ctrl, shift, win),
{
    let mut m: u32 = 0;
    if alt {
        m = m + MOD_ALT;
    }
    if ctrl {
        m = m + MOD_CONTROL;
    }
    if shift {
        m = m + MOD_SHIFT;
    }
    if win {
        m = m + MOD_WIN;
    }
    m
}

/// What `handle_key_event` does with one event: `f0` and `f1` are the flags
/// before and after, `b0` and `b1` the typing window before and after, and
/// `r` the decision.
pub open spec fn key_event_post(
    f0: HookFlags,
    f1: HookFlags,
    b0: Seq<char>,
    b1: Seq<char>,
    config: AppConfig,
    ev: KeyEvent,
    r: KeyDecision,
) -> bool {
    // Not ours to look at.
    &&& (passes_untouched(f0, ev) ==> {
            &&& r is Pass
            &&& f1.recording() == f0.recording()
            &&& b1 == b0
        })
    // Recording a hotkey.
    &&& (!passes_untouched(f0, ev) && f0.recording() ==> {
            &&& b1 == b0
            &&& is_modifier_key(ev.vk_code) ==> (r matches KeyDecision::ShowModifiers(s) && s@
                == event_modifier_display(ev) && f1.recording())
            &&& !is_modifier_key(ev.vk_code) && ev.vk_code == 0x1B ==> (r is Swallow
                && !f1.recording())
            &&& !is_modifier_key(ev.vk_code) && ev.vk_code != 0x1B ==> (r == KeyDecision::Captured(
                HotkeyConfig { modifiers: event_mask(ev), virtual_key: ev.vk_code },
            ) && !f1.recording())
        })
    // Paused.
    &&& (!passes_untouched(f0, ev) && !f0.recording() && f0.paused_now()
            ==> {
            &&& r is Pass
            &&& !f1.recording()
            &&& b1 == b0
        })
    // The configured hotkey.
    &&& (!passes_untouched(f0, ev) && !f0.recording() && !f0.paused_now()
            && event_mask(ev) == config.hotkey.modifiers && ev.vk_code == config.hotkey.virtual_key
            ==> {
            &&& !f1.recording()
            &&& match first_firing(b0, config.snippets@, ExpansionMode::Hotkey) {
                Some(i) => r matches KeyDecision::ExpandHotkey { trigger_len, replacement }
                    && replaces_with(config.snippets@, i, trigger_len, replacement@)
                    && b1 == Seq::<char>::empty(),
                None => r is Swallow && b1 == b0,
            }
        })
    // Ordinary typing.
    &&& (!passes_untouched(f0, ev) && !f0.recording() && !f0.paused_now()
            && !(event_mask(ev) == config.hotkey.modifiers && ev.vk_code
            == config.hotkey.virtual_key) ==> {
            let vk = #[verifier::truncate] (ev.vk_code as u16);
            &&& !f1.recording()
            &&& leaves_buffer_alone(vk) ==> r is Pass && b1 == b0
            &&& !leaves_buffer_alone(vk) && ctrl_held(ev) && !alt_held(ev) ==> r is Pass
                && b1 == Seq::<char>::empty()
            &&& !leaves_buffer_alone(vk) && !(ctrl_held(ev) && !alt_held(ev)) && is_backspace(
                vk,
            ) ==> r is Pass && (if b0.len() == 0 {
                b1 == b0
            } else {
                b1 == b0.drop_last()
            })
            &&& !leaves_buffer_alone(vk) && !(ctrl_held(ev) && !alt_held(ev)) && resets_buffer(
                vk,
            ) ==> r is Pass && b1 == Seq::<char>::empty()
            &&& !leaves_buffer_alone(vk) && !(ctrl_held(ev) && !alt_held(ev)) && !is_backspace(
                vk,
            ) && !resets_buffer(vk) ==> r is Translate && b1 == b0
        })
}

/// Decides what the keyboard hook does with one event.
///
/// In order: events that are not ours to look at pass; while recording a
/// hotkey, modifier presses are shown, Escape stops recording, and any other
/// key is captured together with the held modifiers; while paused, events
/// pass; the configured hotkey expands the first hotkey-mode snippet whose
/// trigger was just typed (and is swallowed either way); otherwise the key
/// edits the typing buffer: modifier keys leave it alone, Ctrl without Alt
/// and the navigation keys empty it, Backspace removes the last character,
/// and every other key is to be turned into characters by the caller.
pub fn handle_key_event(flags: &mut HookFlags, buffer: &mut KeyBuffer, config: &AppConfig, ev: &KeyEvent) -> (r: KeyDecision)
    requires
        old(buffer).wf(),
    ensures
        final(buffer).wf(),
        final(buffer).cap() == old(buffer).cap(),
        final(flags).paused_now() == old(flags).paused_now(),
        final(flags).inhibited() == old(flags).inhibited(),
        key_event_post(
            *old(flags),
            *final(flags),
            old(buffer)@,
            final(buffer)@,
            *config,
            *ev,
            r,
        ),
{
    if ev.n_code < 0 || flags.inhibit || ev.extra_info == EXPANDER_TAG || !(ev.message
        == WM_KEYDOWN || ev.message == WM_SYSKEYDOWN) {
        return KeyDecision::Pass;
    }
    let vk = ev.vk_code;
    let ctrl = ev.ctrl_down || vk == 0x11 || vk == 0xA2 || vk == 0xA3;
    let alt = ev.alt_down || vk == 0x12 || vk == 0xA4 || vk == 0xA5;
    let shift = ev.shift_down || vk == 0x10 || vk == 0xA0 || vk == 0xA1;
    let win = ev.win_down || vk == 0x5B || vk == 0x5C;
    let current_modifiers = mask_of(alt, ctrl, shift, win);

    // 1. Hotkey recording mode.
    if flags.recording_hotkey {
        let is_modifier = vk == 0x10 || vk == 0xA0 || vk == 0xA1 || vk == 0x11 || vk == 0xA2 || vk
            == 0xA3 || vk == 0x12 || vk == 0xA4 || vk == 0xA5 || vk == 0x5B || vk == 0x5C;
        if is_modifier {
            return KeyDecision::ShowModifiers(modifier_display(ctrl, alt, shift, win));
        }
        if vk == 0x1B {
            flags.recording_hotkey = false;
            return KeyDecision::Swallow;
        }
        flags.recording_hotkey = false;
        return KeyDecision::Captured(
            HotkeyConfig { modifiers: current_modifiers, virtual_key: vk },
        );
    }
    // 2. Paused: everything passes.
    if flags.paused {
        return KeyDecision::Pass;
    }
    // 3. The configured hotkey.
    if current_modifiers == config.hotkey.modifiers && vk == config.hotkey.virtual_key {
        return match find_snippet(buffer, &config.snippets, ExpansionMode::Hotkey) {
            Some(i) => {
                let (trigger_len, replacement) = take_replacement(buffer, &config.snippets, i);
                KeyDecision::ExpandHotkey { trigger_len, replacement }
            },
            None => KeyDecision::Swallow,
        };
    }
    // 4. Ordinary typing.
    let vk16 = #[verifier::truncate] (vk as u16);
    if vk16 == 0x10 || vk16 == 0x11 || vk16 == 0x12 || vk16 == 0xA0 || vk16 == 0xA1 || vk16 == 0xA2
        || vk16 == 0xA3 || vk16 == 0xA4 || vk16 == 0xA5 || vk16 == 0x14 {
        return KeyDecision::Pass;
    }
    if ctrl && !alt {
        buffer.clear();
        return KeyDecision::Pass;
    }
    if vk16 == 0x08 {
        let _ = buffer.pop();
        return KeyDecision::Pass;
    }
    if vk16 == 0x25 || vk16 == 0x27 || vk16 == 0x26 || vk16 == 0x28 || vk16 == 0x24 || vk16 == 0x23
        || vk16 == 0x2E || vk16 == 0x1B || vk16 == 0x09 || vk16 == 0x0D || vk16 == 0x21 || vk16
        == 0x22 {
        buffer.clear();
        return KeyDecision::Pass;
    }
    KeyDecision::Translate
}

/// A control character (Unicode general category Cc).
pub open spec fn is_control_char(c: char) -> bool {
    (c as u32) < 0x20 || (0x7F <= (c as u32) && (c as u32) < 0xA0)
}

/// One typed character: the typing window after it, and the index of the
/// immediate-mode snippet it makes fire (if any).
pub open spec fn typed_step(typed: Seq<char>, cap: nat, snippets: Seq<Snippet>, c: char) -> (Seq<char>, Option<int>) {
    if is_control_char(c) {
        (typed, None)
    } else {
        let w = crate::buffer::window_push(typed, c, cap);
        match first_firing(w, snippets, ExpansionMode::Immediate) {
            Some(i) => (Seq::empty(), Some(i)),
            None => (w, None),
        }
    }
}

/// The typing window after feeding `chars`, and the index of the snippet of
/// the last immediate replacement among them (if any).
pub open spec fn feed_result(typed: Seq<char>, cap: nat, snippets: Seq<Snippet>, chars: Seq<char>) -> (Seq<char>, Option<int>)
    decreases chars.len(),
{
    if chars.len() == 0 {
        (typed, None)
    } else {
        let prev = feed_result(typed, cap, snippets, chars.drop_last());
        let step = typed_step(prev.0, cap, snippets, chars.last());
        match step.1 {
            Some(i) => (step.0, Some(i)),
            None => (step.0, prev.1),
        }
    }
}

/// Feeds the characters a key produced into the buffer. Control characters
/// are ignored; after each other character the first immediate-mode snippet
/// whose trigger the buffer now ends with fires, emptying the buffer. Returns
/// the trigger length and replacement of the last snippet that fired; the
/// key is swallowed exactly when one did.
pub fn feed_typed_chars(buffer: &mut KeyBuffer, config: &AppConfig, chars: &Vec<char>) -> (r: Option<(usize, String)>)
    requires
        old(buffer).wf(),
    ensures
        final(buffer).wf(),
        final(buffer).cap() == old(buffer).cap(),
        final(buffer)@ == feed_result(old(buffer)@, old(buffer).cap(), config.snippets@, chars@).0,
        match feed_result(old(buffer)@, old(buffer).cap(), config.snippets@, chars@).1 {
            Some(i) => r matches Some(hit) && replaces_with(config.snippets@, i, hit.0, hit.1@),
            None => r is None,
        },
{
    let mut result: Option<(usize, String)> = None;
    let mut k: usize = 0;
    while k < chars.len()
        invariant
            buffer.wf(),
            buffer.cap() == old(buffer).cap(),
            k <= chars@.len(),
            buffer@ == feed_result(
                old(buffer)@,
                old(buffer).cap(),
                config.snippets@,
                chars@.subrange(0, k as int),
            ).0,
            match feed_result(
                old(buffer)@,
                old(buffer).cap(),
                config.snippets@,
                chars@.subrange(0, k as int),
            ).1 {
                Some(i) => result matches Some(hit) && replaces_with(
                    config.snippets@,
                    i,
                    hit.0,
                    hit.1@,
                ),
                None => result is None,
            },
        decreases chars.len() - k,
    {
        let c = chars[k];
        let ghost pre = chars@.subrange(0, k as int);
        let ghost post = chars@.subrange(0, k + 1);
        assert(post.drop_last() =~= pre);
        assert(post.last() == c);
        let code = c as u32;
        if !(code < 0x20 || (0x7F <= code && code < 0xA0)) {
            buffer.push(c);
            match find_snippet(buffer, &config.snippets, ExpansionMode::Immediate) {
                Some(i) => {
                    let hit = take_replacement(buffer, &config.snippets, i);
                    result = Some(hit);
                },
                None => {},
            }
        }
        k = k + 1;
    }
    assert(chars@.subrange(0, chars@.len() as int) =~= chars@);
    result
}

/// A leading (high) UTF-16 surrogate.
pub open spec fn is_high_surrogate(u: u16) -> bool {
    0xD800 <= u <= 0xDBFF
}

/// A trailing (low) UTF-16 surrogate.
pub open spec fn is_low_surrogate(u: u16) -> bool {
    0xDC00 <= u <= 0xDFFF
}

/// The code point a surrogate pair stands for.
pub open spec fn surrogate_pair_value(hi: u16, lo: u16) -> u32 {
    (0x10000 + (hi - 0xD800) * 0x400 + (lo - 0xDC00)) as u32
}

/// UTF-16 units decoded into characters, front to back: a unit outside the
/// surrogate range is its own character, a high surrogate followed by a low
/// one is one character, and a surrogate without its partner is dropped.
pub open spec fn decode_utf16_lossy(s: Seq<u16>) -> Seq<char>
    decreases s.len(),
{
    if s.len() == 0 {
        Seq::empty()
    } else if !is_high_surrogate(s[0]) && !is_low_surrogate(s[0]) {
        seq![(s[0] as u32) as char] + decode_utf16_lossy(s.drop_first())
    } else if is_high_surrogate(s[0]) && s.len() >= 2 && is_low_surrogate(s[1]) {
        seq![surrogate_pair_value(s[0], s[1]) as char] + decode_utf16_lossy(
            s.subrange(2, s.len() as int),
        )
    } else {
        decode_utf16_lossy(s.drop_first())
    }
}

/// The units a key translation wrote: none when it reported 0, otherwise as
/// many as the magnitude of its result says, at most the four available.
pub open spec fn written_units(result: i32, units: Seq<u16>) -> Seq<u16> {
    if result == 0 {
        Seq::empty()
    } else {
        let n: int = if result < 0 { -(result as int) } else { result as int };
        units.subrange(0, if n < 4 { n } else { 4 })
    }
}

/// The characters a key produced, from the result of the system's key
/// translation (the number of UTF-16 units written; negative for a dead key
/// that also wrote its base character) and the units it wrote. Surrogate
/// pairs, such as emoji, become one character.
pub fn decode_typed(result: i32, units: [u16; 4]) -> (r: Vec<char>)
    ensures
        r@ == decode_utf16_lossy(written_units(result, units@)),
{
    let mut out: Vec<char> = Vec::new();
    if result == 0 {
        return out;
    }
    let n: usize = if result == i32::MIN || result <= -4 || result >= 4 {
        4
    } else if result < 0 {
        (-result) as usize
    } else {
        result as usize
    };
    let ghost s = units@.subrange(0, n as int);
    assert(s == written_units(result, units@));
    assert(s.subrange(0, n as int) =~= s);
    assert(out@ + decode_utf16_lossy(s) =~= decode_utf16_lossy(s));
    let mut i: usize = 0;
    while i < n
        invariant
            n <= 4,
            units@.len() == 4,
            s == units@.subrange(0, n as int),
            i <= n,
            out@ + decode_utf16_lossy(s.subrange(i as int, n as int)) == decode_utf16_lossy(s),
        decreases n - i,
    {
        let ghost rest = s.subrange(i as int, n as int);
        assert(rest[0] == units@[i as int]);
        let u = units[i];
        if !(0xD800 <= u && u <= 0xDFFF) {
            assert(rest.drop_first() =~= s.subrange(i + 1, n as int));
            match char_from_u32(u as u32) {
                Some(c) => out.push(c),
                None => {},
            }
            assert(out@ + decode_utf16_lossy(s.subrange(i + 1, n as int)) =~= decode_utf16_lossy(s));
            i = i + 1;
        } else if u <= 0xDBFF && i + 1 < n && 0xDC00 <= units[i + 1] && units[i + 1] <= 0xDFFF {
            let lo = units[i + 1];
            assert(rest[1] == lo);
            assert(rest.subrange(2, rest.len() as int) =~= s.subrange(i + 2, n as int));
            let v: u32 = 0x10000 + ((u - 0xD800) as u32) * 0x400 + ((lo - 0xDC00) as u32);
            assert(v == surrogate_pair_value(u, lo));
            match char_from_u32(v) {
                Some(c) => out.push(c),
                None => {},
            }
            assert(out@ + decode_utf16_lossy(s.subrange(i + 2, n as int)) =~= decode_utf16_lossy(s));
            i = i + 2;
        } else {
            assert(rest.drop_first() =~= s.subrange(i + 1, n as int));
            i = i + 1;
        }
    }
    assert(out@ =~= decode_utf16_lossy(s));
    out
}

/// A surrogate pair decodes to exactly one character.
pub proof fn lemma_surrogate_pair_is_one_char(hi: u16, lo: u16)
    requires
        is_high_surrogate(hi),
        is_low_surrogate(lo),
    ensures
        decode_utf16_lossy(seq![hi, lo]) == seq![surrogate_pair_value(hi, lo) as char],
{
    let s = seq![hi, lo];
    assert(s.subrange(2, 2) =~= Seq::<u16>::empty());
    assert(decode_utf16_lossy(s.subrange(2, 2)) == Seq::<char>::empty());
    assert(decode_utf16_lossy(s) =~= seq![surrogate_pair_value(hi, lo) as char]);
}

/// Decoding the UTF-16 units of a character gives back that character.
pub proof fn lemma_decode_encoded_char(c: char)
    ensures
        decode_utf16_lossy(crate::replacer::char_utf16(c)) == seq![c],
{
    let u = crate::replacer::char_utf16(c);
    let v = c as u32;
    assert(v <= 0xD7FF || (0xE000 <= v && v <= 0x10FFFF));
    assert(v as char == c);
    assert(decode_utf16_lossy(Seq::<u16>::empty()) == Seq::<char>::empty());
    if v < 0x10000 {
        assert(u.drop_first() =~= Seq::<u16>::empty());
        assert(u[0] as u32 == v);
        assert(!is_high_surrogate(u[0]) && !is_low_surrogate(u[0]));
        assert(decode_utf16_lossy(u) =~= seq![c]);
    } else {
        let w = (v - 0x10000) as u32;
        assert(u.subrange(2, 2) =~= Seq::<u16>::empty());
        assert(is_high_surrogate(u[0]));
        assert(is_low_surrogate(u[1]));
        assert(surrogate_pair_value(u[0], u[1]) == v);
        assert(decode_utf16_lossy(u) =~= seq![c]);
    }
}

proof fn lemma_decode_char_then_rest(c: char, rest: Seq<u16>)
    ensures
        decode_utf16_lossy(crate::replacer::char_utf16(c) + rest) == seq![c]
            + decode_utf16_lossy(rest),
{
    let u = crate::replacer::char_utf16(c);
    let t = u + rest;
    let v = c as u32;
    assert(v as char == c);
    if v < 0x10000 {
        assert(t[0] == u[0]);
        assert(u[0] as u32 == v);
        assert(t.drop_first() =~= rest);
    } else {
        assert(t[0] == u[0] && t[1] == u[1]);
        assert(is_high_surrogate(u[0]));
        assert(is_low_surrogate(u[1]));
        assert(surrogate_pair_value(u[0], u[1]) == v);
        assert(t.subrange(2, t.len() as int) =~= rest);
    }
}

proof fn lemma_encode_first(s: Seq<char>)
    requires
        s.len() > 0,
    ensures
        crate::replacer::utf16_encode(s) == crate::replacer::char_utf16(s[0])
            + crate::replacer::utf16_encode(s.drop_first()),
    decreases s.len(),
{
    if s.len() == 1 {
        assert(s.drop_last() =~= Seq::<char>::empty());
        assert(s.drop_first() =~= Seq::<char>::empty());
        assert(crate::replacer::utf16_encode(Seq::<char>::empty()) == Seq::<u16>::empty());
        assert(crate::replacer::utf16_encode(s) =~= crate::replacer::char_utf16(s[0]));
        assert(crate::replacer::char_utf16(s[0]) + Seq::<u16>::empty() =~= crate::replacer::char_utf16(s[0]));
    } else {
        lemma_encode_first(s.drop_last());
        assert(s.drop_last()[0] == s[0]);
        assert(s.drop_last().drop_first() =~= s.drop_first().drop_last());
        assert(s.drop_first().last() == s.last());
        assert(crate::replacer::utf16_encode(s) =~= crate::replacer::char_utf16(s[0])
            + crate::replacer::utf16_encode(s.drop_first()));
    }
}

/// Decoding the UTF-16 encoding of a text gives back the text.
pub proof fn lemma_decode_encoded_text(s: Seq<char>)
    ensures
        decode_utf16_lossy(crate::replacer::utf16_encode(s)) == s,
    decreases s.len(),
{
    if s.len() == 0 {
        assert(crate::replacer::utf16_encode(s) == Seq::<u16>::empty());
    } else {
        lemma_encode_first(s);
        lemma_decode_encoded_text(s.drop_first());
        lemma_decode_char_then_rest(s[0], crate::replacer::utf16_encode(s.drop_first()));
        assert(seq![s[0]] + s.drop_first() =~= s);
    }
}

/// Handles a press of the registered system hotkey: unless paused, the first
/// hotkey-mode snippet whose trigger the buffer ends with fires, emptying the
/// buffer.
pub fn on_registered_hotkey(flags: &HookFlags, buffer: &mut KeyBuffer, config: &AppConfig) -> (r: Option<(usize, String)>)
    requires
        old(buffer).wf(),
    ensures
        final(buffer).wf(),
        final(buffer).cap() == old(buffer).cap(),
        flags.paused_now() ==> r is None && final(buffer)@ == old(buffer)@,
        !flags.paused_now() ==> match first_firing(old(buffer)@, config.snippets@, ExpansionMode::Hotkey) {
            Some(i) => r matches Some(hit) && replaces_with(config.snippets@, i, hit.0, hit.1@)
                && final(buffer)@ == Seq::<char>::empty(),
            None => r is None && final(buffer)@ == old(buffer)@,
        },
{
    if flags.paused {
        return None;
    }
    match find_snippet(buffer, &config.snippets, ExpansionMode::Hotkey) {
        Some(i) => Some(take_replacement(buffer, &config.snippets, i)),
        None => None,
    }
}

/// If some snippet at index `i >= k` fires, the search from `k` finds a
/// firing snippet no later than `i`.
pub proof fn lemma_first_firing_found(typed: Seq<char>, snippets: Seq<Snippet>, mode: ExpansionMode, k: int, i: int)
    requires
        0 <= k <= i < snippets.len(),
        snippet_fires(typed, snippets[i], mode),
    ensures
        first_firing_from(typed, snippets, mode, k) matches Some(j) && k <= j <= i
            && snippet_fires(typed, snippets[j], mode),
    decreases i - k,
{
    if !snippet_fires(typed, snippets[k], mode) {
        lemma_first_firing_found(typed, snippets, mode, k + 1, i);
    }
}

/// No character in `chars` is a control character.
pub open spec fn all_printable(chars: Seq<char>) -> bool {
    forall|k: int| 0 <= k < chars.len() ==> !is_control_char(#[trigger] chars[k])
}

/// Feeding printable characters of which none makes a snippet fire is just
/// typing them into the window.
proof fn lemma_feed_without_hits(typed: Seq<char>, cap: nat, snippets: Seq<Snippet>, chars: Seq<char>)
    requires
        all_printable(chars),
        feed_result(typed, cap, snippets, chars).1 is None,
    ensures
        feed_result(typed, cap, snippets, chars).0 == crate::buffer::window_push_all(typed, chars, cap),
    decreases chars.len(),
{
    if chars.len() > 0 {
        let init = chars.drop_last();
        assert(all_printable(init)) by {
            assert forall|k: int| 0 <= k < init.len() implies !is_control_char(#[trigger] init[k]) by {
                assert(init[k] == chars[k]);
            }
        }
        assert(!is_control_char(chars[chars.len() - 1]));
        let prev = feed_result(typed, cap, snippets, init);
        let step = typed_step(prev.0, cap, snippets, chars.last());
        assert(step.1 is None);
        assert(prev.1 is None);
        lemma_feed_without_hits(typed, cap, snippets, init);
    }
}

/// Finishing to type the trigger of an immediate-mode snippet fires a
/// snippet: when the trigger fits in the buffer, none of its characters is a
/// control character, and nothing fired while its first characters were
/// typed, feeding its last character yields a replacement by a snippet no
/// later in the configuration than this one, and leaves the buffer empty.
pub proof fn lemma_immediate_trigger_fires(typed: Seq<char>, cap: nat, snippets: Seq<Snippet>, i: int)
    requires
        typed.len() <= cap,
        0 <= i < snippets.len(),
        snippets[i].mode == ExpansionMode::Immediate,
        1 <= snippets[i].trigger@.len() <= cap,
        all_printable(snippets[i].trigger@),
        feed_result(typed, cap, snippets, snippets[i].trigger@.drop_last()).1 is None,
    ensures
        feed_result(typed, cap, snippets, snippets[i].trigger@).1 matches Some(j) && j <= i,
        feed_result(typed, cap, snippets, snippets[i].trigger@).0 == Seq::<char>::empty(),
{
    let t = snippets[i].trigger@;
    let init = t.drop_last();
    assert(all_printable(init)) by {
        assert forall|k: int| 0 <= k < init.len() implies !is_control_char(#[trigger] init[k]) by {
            assert(init[k] == t[k]);
        }
    }
    lemma_feed_without_hits(typed, cap, snippets, init);
    crate::buffer::lemma_window_keeps_last(typed, init, cap);
    let w0 = feed_result(typed, cap, snippets, init).0;
    assert(!is_control_char(t[t.len() - 1]));
    let w = crate::buffer::window_push(w0, t.last(), cap);
    assert(init.push(t.last()) =~= t);
    assert(w == crate::buffer::window_push_all(typed, t, cap));
    crate::buffer::lemma_typed_trigger_matches(typed, t, cap);
    lemma_first_firing_found(w, snippets, ExpansionMode::Immediate, 0, i);
}

/// Pressing the hotkey right after typing the trigger of a hotkey-mode
/// snippet expands a snippet no later in the configuration than this one.
pub proof fn lemma_hotkey_trigger_fires(typed: Seq<char>, snippets: Seq<Snippet>, i: int)
    requires
        0 <= i < snippets.len(),
        snippets[i].mode == ExpansionMode::Hotkey,
        crate::buffer::seq_ends_with(typed, snippets[i].trigger@),
    ensures
        first_firing(typed, snippets, ExpansionMode::Hotkey) matches Some(j) && j <= i,
{
    lemma_first_firing_found(typed, snippets, ExpansionMode::Hotkey, 0, i);
}


/// An ordinary key press that reaches the typing logic: a key-down event
/// that is not ours, with the hook neither inhibited, recording nor paused,
/// that is not the configured hotkey's key, and without Ctrl held alone.
pub open spec fn plain_typing_event(f0: HookFlags, config: AppConfig, ev: KeyEvent) -> bool {
    &&& ev.n_code >= 0
    &&& !f0.inhibited()
    &&& ev.extra_info != EXPANDER_TAG
    &&& (ev.message == 0x0100 || ev.message == 0x0104)
    &&& !f0.recording()
    &&& !f0.paused_now()
    &&& ev.vk_code != config.hotkey.virtual_key
    &&& !(ev.ctrl_down && !ev.alt_down)
}

/// Enter, Tab, Escape, the arrows, Home, End, Delete, Page Up and Page Down
/// move the caret or leave the line: the key is passed on and the typing
/// window starts empty, so no trigger can match across it.
pub proof fn lemma_navigation_keys_clear_buffer(
    f0: HookFlags,
    f1: HookFlags,
    b0: Seq<char>,
    b1: Seq<char>,
    config: AppConfig,
    ev: KeyEvent,
    r: KeyDecision,
)
    requires
        key_event_post(f0, f1, b0, b1, config, ev, r),
        plain_typing_event(f0, config, ev),
        ev.vk_code == 0x0D || ev.vk_code == 0x09 || ev.vk_code == 0x1B || (0x25 <= ev.vk_code
            <= 0x28) || ev.vk_code == 0x24 || ev.vk_code == 0x23 || ev.vk_code == 0x2E
            || ev.vk_code == 0x21 || ev.vk_code == 0x22,
    ensures
        r is Pass,
        b1 == Seq::<char>::empty(),
{
}

/// Backspace is passed on and removes the newest typed character (if any).
pub proof fn lemma_backspace_removes_newest(
    f0: HookFlags,
    f1: HookFlags,
    b0: Seq<char>,
    b1: Seq<char>,
    config: AppConfig,
    ev: KeyEvent,
    r: KeyDecision,
)
    requires
        key_event_post(f0, f1, b0, b1, config, ev, r),
        plain_typing_event(f0, config, ev),
        ev.vk_code == 0x08,
    ensures
        r is Pass,
        b0.len() > 0 ==> b1 == b0.subrange(0, b0.len() - 1),
        b0.len() == 0 ==> b1 == b0,
{
}

/// Letters, digits, the space bar and the punctuation keys are handed on to
/// be turned into characters; the typing window is left as it was.
pub proof fn lemma_character_keys_translate(
    f0: HookFlags,
    f1: HookFlags,
    b0: Seq<char>,
    b1: Seq<char>,
    config: AppConfig,
    ev: KeyEvent,
    r: KeyDecision,
)
    requires
        key_event_post(f0, f1, b0, b1, config, ev, r),
        plain_typing_event(f0, config, ev),
        (0x41 <= ev.vk_code <= 0x5A) || (0x30 <= ev.vk_code <= 0x39) || ev.vk_code == 0x20 || (
        0xBA <= ev.vk_code <= 0xC0) || (0xDB <= ev.vk_code <= 0xDF),
    ensures
        r is Translate,
        b1 == b0,
{
}

/// Shift, Ctrl, Alt (each side) and Caps Lock alone change nothing: the key is
/// passed on and the typing window is kept.
pub proof fn lemma_modifier_keys_keep_buffer(
    f0: HookFlags,
    f1: HookFlags,
    b0: Seq<char>,
    b1: Seq<char>,
    config: AppConfig,
    ev: KeyEvent,
    r: KeyDecision,
)
    requires
        key_event_post(f0, f1, b0, b1, config, ev, r),
        ev.n_code >= 0,
        !f0.inhibited(),
        ev.extra_info != EXPANDER_TAG,
        ev.message == 0x0100 || ev.message == 0x0104,
        !f0.recording(),
        !f0.paused_now(),
        ev.vk_code != config.hotkey.virtual_key,
        ev.vk_code == 0x10 || ev.vk_code == 0x11 || ev.vk_code == 0x12 || (0xA0 <= ev.vk_code
            <= 0xA5) || ev.vk_code == 0x14,
    ensures
        r is Pass,
        b1 == b0,
{
}

/// With Ctrl held and Alt not, a key other than a modifier is a shortcut, not
/// typing: it is passed on and the typing window starts empty.
pub proof fn lemma_ctrl_shortcut_clears_buffer(
    f0: HookFlags,
    f1: HookFlags,
    b0: Seq<char>,
    b1: Seq<char>,
    config: AppConfig,
    ev: KeyEvent,
    r: KeyDecision,
)
    requires
        key_event_post(f0, f1, b0, b1, config, ev, r),
        ev.n_code >= 0,
        !f0.inhibited(),
        ev.extra_info != EXPANDER_TAG,
        ev.message == 0x0100 || ev.message == 0x0104,
        !f0.recording(),
        !f0.paused_now(),
        ev.vk_code != config.hotkey.virtual_key,
        ev.ctrl_down,
        !ev.alt_down,
        (0x41 <= ev.vk_code <= 0x5A) || (0x30 <= ev.vk_code <= 0x39),
    ensures
        r is Pass,
        b1 == Seq::<char>::empty(),
{
}

/// While paused, every key press that is not ours to skip anyway is passed
/// on, and the typing window is kept.
pub proof fn lemma_paused_passes_everything(
    f0: HookFlags,
    f1: HookFlags,
    b0: Seq<char>,
    b1: Seq<char>,
    config: AppConfig,
    ev: KeyEvent,
    r: KeyDecision,
)
    requires
        key_event_post(f0, f1, b0, b1, config, ev, r),
        !f0.recording(),
        f0.paused_now(),
    ensures
        r is Pass,
        b1 == b0,
{
}

/// A printable character (anything outside U+0000..=U+001F and
/// U+007F..=U+009F, so the space too) that makes no immediate snippet fire is
/// added to the typing window and nothing is replaced.
pub proof fn lemma_printable_char_is_typed(typed: Seq<char>, cap: nat, snippets: Seq<Snippet>, c: char)
    requires
        (c as u32) >= 0x20,
        !(0x7F <= (c as u32) <= 0x9F),
        first_firing(crate::buffer::window_push(typed, c, cap), snippets, ExpansionMode::Immediate)
            is None,
    ensures
        feed_result(typed, cap, snippets, seq![c]) == (crate::buffer::window_push(typed, c, cap), None::<int>),
{
    let one = seq![c];
    assert(one.drop_last() =~= Seq::<char>::empty());
    assert(feed_result(typed, cap, snippets, one.drop_last()) == (typed, None::<int>));
    assert(one.last() == c);
}

/// The space bar types a space: it is kept in the typing window, so ". em"
/// stays four characters and does not read as ".em".
pub proof fn lemma_space_is_typed(typed: Seq<char>, cap: nat, snippets: Seq<Snippet>)
    requires
        first_firing(crate::buffer::window_push(typed, ' ', cap), snippets, ExpansionMode::Immediate)
            is None,
    ensures
        feed_result(typed, cap, snippets, seq![' ']).0 == crate::buffer::window_push(typed, ' ', cap),
{
    lemma_printable_char_is_typed(typed, cap, snippets, ' ');
}

/// A control character (U+0000..=U+001F or U+007F..=U+009F), such as the
/// '\r' that Enter produces, changes neither the typing window nor what is
/// replaced.
pub proof fn lemma_control_char_is_skipped(typed: Seq<char>, cap: nat, snippets: Seq<Snippet>, c: char)
    requires
        (c as u32) < 0x20 || (0x7F <= (c as u32) <= 0x9F),
    ensures
        feed_result(typed, cap, snippets, seq![c]) == (typed, None::<int>),
{
    let one = seq![c];
    assert(one.drop_last() =~= Seq::<char>::empty());
    assert(feed_result(typed, cap, snippets, one.drop_last()) == (typed, None::<int>));
    assert(one.last() == c);
}

/// The `MOD_*` bits of the given modifiers: Alt 1, Ctrl 2, Shift 4, Win 8.
pub open spec fn mod_bits(alt: bool, ctrl: bool, shift: bool, win: bool) -> int {
    (if alt { 1int } else { 0 }) + (if ctrl { 2int } else { 0 }) + (if shift { 4int } else { 0 }) + (
    if win { 8int } else { 0 })
}

/// Events the hook must not look at are passed on and change nothing: a
/// negative hook code, input the replacer is injecting, keystrokes tagged as
/// the replacer's own, and anything that is not a key press.
pub proof fn lemma_foreign_events_untouched(
    f0: HookFlags,
    f1: HookFlags,
    b0: Seq<char>,
    b1: Seq<char>,
    config: AppConfig,
    ev: KeyEvent,
    r: KeyDecision,
)
    requires
        key_event_post(f0, f1, b0, b1, config, ev, r),
        ev.n_code < 0 || f0.inhibited() || ev.extra_info == 0x52455850 || (ev.message != 0x0100
            && ev.message != 0x0104),
    ensures
        r is Pass,
        b1 == b0,
        f1.recording() == f0.recording(),
{
}

/// While a hotkey is being recorded, Escape cancels the recording and is
/// swallowed; the typing window is kept.
pub proof fn lemma_recording_escape_cancels(
    f0: HookFlags,
    f1: HookFlags,
    b0: Seq<char>,
    b1: Seq<char>,
    config: AppConfig,
    ev: KeyEvent,
    r: KeyDecision,
)
    requires
        key_event_post(f0, f1, b0, b1, config, ev, r),
        ev.n_code >= 0,
        !f0.inhibited(),
        ev.extra_info != EXPANDER_TAG,
        ev.message == 0x0100 || ev.message == 0x0104,
        f0.recording(),
        ev.vk_code == 0x1B,
    ensures
        r is Swallow,
        !f1.recording(),
        b1 == b0,
{
}

/// While a hotkey is being recorded, a key that is not a modifier ends the
/// recording and is captured with the modifiers held down, as `MOD_*` bits.
pub proof fn lemma_recording_captures_key(
    f0: HookFlags,
    f1: HookFlags,
    b0: Seq<char>,
    b1: Seq<char>,
    config: AppConfig,
    ev: KeyEvent,
    r: KeyDecision,
)
    requires
        key_event_post(f0, f1, b0, b1, config, ev, r),
        ev.n_code >= 0,
        !f0.inhibited(),
        ev.extra_info != EXPANDER_TAG,
        ev.message == 0x0100 || ev.message == 0x0104,
        f0.recording(),
        (0x41 <= ev.vk_code <= 0x5A) || (0x30 <= ev.vk_code <= 0x39) || (0x70 <= ev.vk_code
            <= 0x7B),
    ensures
        r matches KeyDecision::Captured(hk) && hk.virtual_key == ev.vk_code && hk.modifiers as int
            == mod_bits(ev.alt_down, ev.ctrl_down, ev.shift_down, ev.win_down),
        !f1.recording(),
        b1 == b0,
{
}
} // verus!
