//! The text replacement engine's plans: how many characters to delete, what to
//! paste, and the synthetic keystrokes that do it. Sending the keystrokes and
//! touching the clipboard is left to the caller.

use vstd::prelude::*;

use crate::text_utils::normalise_to_crlf;

verus! {

broadcast use vstd::string::group_string_axioms;

/// What a replacement does: delete `backspaces` characters, paste `text`, and
/// restore the clipboard `restore_delay_ms` milliseconds after the paste.
#[derive(Debug, Clone)]
pub struct ReplacementPlan {
    pub backspaces: usize,
    pub text: String,
    pub restore_delay_ms: u64,
}

/// Backspaces sent for an immediate-mode trigger of `trigger_len` characters:
/// its last character was swallowed, so one fewer (never below zero).
pub open spec fn immediate_backspaces(trigger_len: usize) -> usize {
    if trigger_len == 0 {
        0
    } else {
        (trigger_len - 1) as usize
    }
}

/// Backspaces sent for a hotkey-mode trigger of `trigger_len` characters:
/// all of them reached the application.
pub open spec fn hotkey_backspaces(trigger_len: usize) -> usize {
    trigger_len
}

/// The text replacement engine.
///
/// Uses clipboard-based injection (Ctrl+V) for reliable text insertion across
/// all Windows apps, including WinUI 3 / XAML apps.
pub struct Replacer;

impl Replacer {
    /// Plans the replacement of the trigger text for Immediate mode snippets.
    ///
    /// The last character of the trigger was consumed by the hook and never
    /// reached the target application, so `trigger_len - 1` backspaces are sent.
    pub fn replace_immediate(trigger_len: usize, replacement: &str, restore_delay_ms: u64) -> (r:
        ReplacementPlan)
        ensures
            r.backspaces == immediate_backspaces(trigger_len),
            r.text@ == replacement@,
            r.restore_delay_ms == restore_delay_ms,
    {
        ReplacementPlan {
            backspaces: trigger_len.saturating_sub(1),
            text: replacement.to_string(),
            restore_delay_ms,
        }
    }

    /// Plans the replacement of the trigger text for Hotkey mode snippets.
    ///
    /// All trigger characters reached the target application before the hotkey
    /// was pressed, so the full `trigger_len` backspaces are sent.
    pub fn replace_hotkey(trigger_len: usize, replacement: &str, restore_delay_ms: u64) -> (r:
        ReplacementPlan)
        ensures
            r.backspaces == hotkey_backspaces(trigger_len),
            r.text@ == replacement@,
            r.restore_delay_ms == restore_delay_ms,
    {
        ReplacementPlan { backspaces: trigger_len, text: replacement.to_string(), restore_delay_ms }
    }
}

/// The UTF-16 code units of one character.
pub open spec fn char_utf16(c: char) -> Seq<u16> {
    let v = c as u32;
    if v < 0x10000 {
        seq![v as u16]
    } else {
        let w = (v - 0x10000) as u32;
        seq![(0xD800 + w / 0x400) as u16, (0xDC00 + w % 0x400) as u16]
    }
}

/// The UTF-16 encoding of a character sequence.
pub open spec fn utf16_encode(s: Seq<char>) -> Seq<u16>
    decreases s.len(),
{
    if s.len() == 0 {
        Seq::empty()
    } else {
        utf16_encode(s.drop_last()) + char_utf16(s.last())
    }
}

/// Appends the UTF-16 code units of `c`.
fn push_utf16(out: &mut Vec<u16>, c: char)
    ensures
        final(out)@ == old(out)@ + char_utf16(c),
{
    let v = c as u32;
    if v < 0x10000 {
        out.push(v as u16);
    } else {
        let w = v - 0x10000;
        out.push((0xD800 + w / 0x400) as u16);
        out.push((0xDC00 + w % 0x400) as u16);
    }
    assert(final(out)@ =~= old(out)@ + char_utf16(c));
}

/// The clipboard form of a replacement text: line endings normalised to CRLF,
/// encoded as UTF-16, with a terminating zero unit (`CF_UNICODETEXT`).
pub fn clipboard_text_units(text: &str) -> (r: Vec<u16>)
    ensures
        r@ == utf16_encode(crate::text_utils::spec_normalise_to_crlf(text@)).push(0u16),
{
    let normalised = normalise_to_crlf(text);
    let s = normalised.as_str();
    let mut out: Vec<u16> = Vec::new();
    for c in it: s.chars()
        invariant
            it.seq() == s@,
            out@ == utf16_encode(s@.subrange(0, it.index())),
    {
        let ghost pre = s@.subrange(0, it.index());
        let ghost post = s@.subrange(0, it.index() + 1);
        assert(post.drop_last() =~= pre);
        push_utf16(&mut out, c);
    }
    assert(s@.subrange(0, s@.len() as int) =~= s@);
    out.push(0);
    out
}

/// A synthetic keystroke the replacer sends; all of them carry the
/// application's tag so that the hook lets them through.
#[derive(Debug, Clone, Copy, PartialEq, Eq, Structural)]
pub enum SyntheticKey {
    /// A virtual-key press or release.
    Virtual { vk: u16, key_up: bool },
    /// A press or release of one UTF-16 unit (`KEYEVENTF_UNICODE`).
    Unicode { unit: u16, key_up: bool },
}

/// Left Ctrl.
pub const VK_LCONTROL: u16 = 0xA2;

/// The V key.
pub const VK_V: u16 = 0x56;

/// Backspace.
pub const VK_BACK: u16 = 0x08;

/// Enter.
pub const VK_RETURN: u16 = 0x0D;

/// Press and release of a virtual key.
pub open spec fn tap(vk: u16) -> Seq<SyntheticKey> {
    seq![SyntheticKey::Virtual { vk, key_up: false }, SyntheticKey::Virtual { vk, key_up: true }]
}

/// Ctrl+V: left Ctrl down, V down, V up, left Ctrl up.
pub fn ctrl_v_keys() -> (r: Vec<SyntheticKey>)
    ensures
        r@ == seq![
            SyntheticKey::Virtual { vk: VK_LCONTROL, key_up: false },
            SyntheticKey::Virtual { vk: VK_V, key_up: false },
            SyntheticKey::Virtual { vk: VK_V, key_up: true },
            SyntheticKey::Virtual { vk: VK_LCONTROL, key_up: true },
        ],
{
    let mut v = Vec::new();
    v.push(SyntheticKey::Virtual { vk: VK_LCONTROL, key_up: false });
    v.push(SyntheticKey::Virtual { vk: VK_V, key_up: false });
    v.push(SyntheticKey::Virtual { vk: VK_V, key_up: true });
    v.push(SyntheticKey::Virtual { vk: VK_LCONTROL, key_up: true });
    assert(v@ =~= seq![
        SyntheticKey::Virtual { vk: VK_LCONTROL, key_up: false },
        SyntheticKey::Virtual { vk: VK_V, key_up: false },
        SyntheticKey::Virtual { vk: VK_V, key_up: true },
        SyntheticKey::Virtual { vk: VK_LCONTROL, key_up: true },
    ]);
    v
}

/// One backspace: press and release.
pub fn backspace_keys() -> (r: Vec<SyntheticKey>)
    ensures
        r@ == tap(VK_BACK),
{
    let mut v = Vec::new();
    v.push(SyntheticKey::Virtual { vk: VK_BACK, key_up: false });
    v.push(SyntheticKey::Virtual { vk: VK_BACK, key_up: true });
    assert(v@ =~= tap(VK_BACK));
    v
}

/// The modifier keys released before backspacing, in the order they are
/// checked: left/right Ctrl, left/right Shift, left/right Alt, left/right Win.
pub open spec fn release_order() -> Seq<u16> {
    seq![0xA2u16, 0xA3u16, 0xA0u16, 0xA1u16, 0xA4u16, 0xA5u16, 0x5Bu16, 0x5Cu16]
}

/// The modifier keys to check before backspacing, in `release_order()`.
pub fn modifier_release_order() -> (r: [u16; 8])
    ensures
        r@ == release_order(),
{
    let order: [u16; 8] = [0xA2, 0xA3, 0xA0, 0xA1, 0xA4, 0xA5, 0x5B, 0x5C];
    assert(order@ =~= release_order());
    order
}

/// Key-up events for the modifiers among the first `n` in `release_order()`
/// that are held.
pub open spec fn releases(held: Seq<bool>, n: int) -> Seq<SyntheticKey>
    decreases n,
{
    if n <= 0 {
        Seq::empty()
    } else {
        releases(held, n - 1) + (if held[n - 1] {
            seq![SyntheticKey::Virtual { vk: release_order()[n - 1], key_up: true }]
        } else {
            Seq::empty()
        })
    }
}

/// The key-up events that release every held modifier, so that backspaces do
/// not arrive as Ctrl+Backspace or Alt+Backspace. `held[i]` says whether the
/// `i`-th key of `release_order()` is down.
pub fn modifier_release_keys(held: &[bool; 8]) -> (r: Vec<SyntheticKey>)
    ensures
        r@ == releases(held@, 8),
{
    let order = modifier_release_order();
    let mut out: Vec<SyntheticKey> = Vec::new();
    let mut i: usize = 0;
    while i < 8
        invariant
            i <= 8,
            order@ == release_order(),
            held@.len() == 8,
            out@ == releases(held@, i as int),
        decreases 8 - i,
    {
        if held[i] {
            out.push(SyntheticKey::Virtual { vk: order[i], key_up: true });
        }
        assert(out@ =~= releases(held@, i + 1));
        i = i + 1;
    }
    out
}

/// The keystrokes that type one character when pasting is impossible:
/// line breaks become Enter, any other character is sent as its UTF-16
/// units, each pressed and released.
pub open spec fn spec_char_keys(c: char) -> Seq<SyntheticKey> {
    if c == '\n' || c == '\r' {
        tap(VK_RETURN)
    } else {
        let u = char_utf16(c);
        if u.len() == 1 {
            seq![
                SyntheticKey::Unicode { unit: u[0], key_up: false },
                SyntheticKey::Unicode { unit: u[0], key_up: true },
            ]
        } else {
            seq![
                SyntheticKey::Unicode { unit: u[0], key_up: false },
                SyntheticKey::Unicode { unit: u[0], key_up: true },
                SyntheticKey::Unicode { unit: u[1], key_up: false },
                SyntheticKey::Unicode { unit: u[1], key_up: true },
            ]
        }
    }
}

/// The keystrokes that type one character when pasting is impossible.
pub fn char_keys(c: char) -> (r: Vec<SyntheticKey>)
    ensures
        r@ == spec_char_keys(c),
{
    let mut out: Vec<SyntheticKey> = Vec::new();
    if c == '\n' || c == '\r' {
        out.push(SyntheticKey::Virtual { vk: VK_RETURN, key_up: false });
        out.push(SyntheticKey::Virtual { vk: VK_RETURN, key_up: true });
    } else {
        let mut units: Vec<u16> = Vec::new();
        push_utf16(&mut units, c);
        assert(units@ =~= char_utf16(c));
        let mut j: usize = 0;
        while j < units.len()
            invariant
                units@ == char_utf16(c),
                units@.len() == 1 || units@.len() == 2,
                j <= units@.len(),
                out@.len() == 2 * j,
                forall|k: int|
                    0 <= k < j ==> out@[2 * k] == (SyntheticKey::Unicode {
                        unit: units@[k],
                        key_up: false,
                    }) && out@[2 * k + 1] == (SyntheticKey::Unicode {
                        unit: units@[k],
                        key_up: true,
                    }),
            decreases units.len() - j,
        {
            out.push(SyntheticKey::Unicode { unit: units[j], key_up: false });
            out.push(SyntheticKey::Unicode { unit: units[j], key_up: true });
            j = j + 1;
        }
    }
    assert(out@ =~= spec_char_keys(c));
    out
}

/// One step of carrying out a replacement.
#[derive(Debug, Clone, PartialEq, Eq)]
pub enum ReplaceAction {
    /// Set (`true`) or clear (`false`) the hook thread's inhibit flag, which
    /// makes the hook let the replacer's own keystrokes through.
    Inhibit(bool),
    /// Send these keystrokes in one batch.
    Send(Vec<SyntheticKey>),
    /// Wait this many milliseconds.
    Sleep(u64),
    /// Save every format on the clipboard.
    BackupClipboard,
    /// Put these UTF-16 units (zero-terminated) on the clipboard as text.
    WriteClipboard(Vec<u16>),
    /// Put the saved formats back on the clipboard.
    RestoreClipboard,
}

/// What a `ReplaceAction` does, over mathematical values.
pub ghost enum ActionModel {
    Inhibit(bool),
    Send(Seq<SyntheticKey>),
    Sleep(u64),
    BackupClipboard,
    WriteClipboard(Seq<u16>),
    RestoreClipboard,
}

impl View for ReplaceAction {
    type V = ActionModel;

    open spec fn view(&self) -> ActionModel {
        match self {
            ReplaceAction::Inhibit(b) => ActionModel::Inhibit(*b),
            ReplaceAction::Send(keys) => ActionModel::Send(keys@),
            ReplaceAction::Sleep(ms) => ActionModel::Sleep(*ms),
            ReplaceAction::BackupClipboard => ActionModel::BackupClipboard,
            ReplaceAction::WriteClipboard(units) => ActionModel::WriteClipboard(units@),
            ReplaceAction::RestoreClipboard => ActionModel::RestoreClipboard,
        }
    }
}

/// The models of a list of actions.
pub open spec fn models(v: Seq<ReplaceAction>) -> Seq<ActionModel> {
    v.map_values(|a: ReplaceAction| a@)
}

/// Ctrl+V as one batch: left Ctrl down, V down, V up, left Ctrl up.
pub open spec fn ctrl_v_seq() -> Seq<SyntheticKey> {
    seq![
        SyntheticKey::Virtual { vk: VK_LCONTROL, key_up: false },
        SyntheticKey::Virtual { vk: VK_V, key_up: false },
        SyntheticKey::Virtual { vk: VK_V, key_up: true },
        SyntheticKey::Virtual { vk: VK_LCONTROL, key_up: true },
    ]
}

/// `n` backspaces, each a press and release followed by a 5 ms pause.
pub open spec fn backspace_actions(n: nat) -> Seq<ActionModel>
    decreases n,
{
    if n == 0 {
        Seq::empty()
    } else {
        backspace_actions((n - 1) as nat) + seq![ActionModel::Send(tap(VK_BACK)), ActionModel::Sleep(5)]
    }
}

/// Typing `text` key by key when the clipboard cannot be written: each
/// character's keystrokes, then a 5 ms pause.
pub open spec fn typing_actions(text: Seq<char>) -> Seq<ActionModel>
    decreases text.len(),
{
    if text.len() == 0 {
        Seq::empty()
    } else {
        typing_actions(text.drop_last()) + seq![
            ActionModel::Send(spec_char_keys(text.last())),
            ActionModel::Sleep(5),
        ]
    }
}

/// The steps up to and including the clipboard write, which do not depend on
/// how the clipboard backup or write turn out: inhibit on, release the held
/// modifiers (if any), pause, the backspaces (and a 30 ms pause after them, if
/// any), save the clipboard, write the CRLF-normalised text to it.
pub open spec fn replace_prefix(backspaces: nat, text: Seq<char>, held: Seq<bool>) -> Seq<ActionModel> {
    let rel = releases(held, 8);
    seq![ActionModel::Inhibit(true)] + (if rel.len() > 0 {
        seq![ActionModel::Send(rel)]
    } else {
        Seq::empty()
    }) + seq![ActionModel::Sleep(10)] + backspace_actions(backspaces) + (if backspaces > 0 {
        seq![ActionModel::Sleep(30)]
    } else {
        Seq::empty()
    }) + seq![
        ActionModel::BackupClipboard,
        ActionModel::WriteClipboard(
            utf16_encode(crate::text_utils::spec_normalise_to_crlf(text)).push(0u16),
        ),
    ]
}

/// The steps after the clipboard write: when it succeeded, a 10 ms pause and
/// Ctrl+V, then, if the backup saved anything, a pause of the restore delay
/// and the restore; when it failed, typing the text instead.
pub open spec fn replace_tail(text: Seq<char>, restore_delay_ms: u64, saved: bool, written: bool) -> Seq<
    ActionModel,
> {
    if written {
        seq![ActionModel::Sleep(10), ActionModel::Send(ctrl_v_seq())] + (if saved {
            seq![ActionModel::Sleep(restore_delay_ms), ActionModel::RestoreClipboard]
        } else {
            Seq::empty()
        })
    } else {
        typing_actions(text)
    }
}

/// Every step of a replacement, in order, ending with the inhibit flag
/// cleared. `saved` says whether the clipboard backup held any format and
/// `written` whether the clipboard write succeeded.
pub open spec fn replace_actions(
    backspaces: nat,
    text: Seq<char>,
    restore_delay_ms: u64,
    held: Seq<bool>,
    saved: bool,
    written: bool,
) -> Seq<ActionModel> {
    replace_prefix(backspaces, text, held) + replace_tail(text, restore_delay_ms, saved, written)
        + seq![ActionModel::Inhibit(false)]
}

fn push_action(out: &mut Vec<ReplaceAction>, a: ReplaceAction)
    ensures
        models(final(out)@) == models(old(out)@).push(a@),
{
    out.push(a);
    assert(models(final(out)@) =~= models(old(out)@).push(a@));
}

/// The steps that carry out `plan`. `held[i]` says whether the `i`-th key of
/// `release_order()` is down; `clipboard_saved` whether the clipboard backup
/// held any format; `clipboard_written` whether writing the text to the
/// clipboard succeeded. The steps up to the write do not depend on the last
/// two (see `replace_prefix`), so a caller may take them before it knows them.
pub fn replacement_actions(
    plan: &ReplacementPlan,
    held: &[bool; 8],
    clipboard_saved: bool,
    clipboard_written: bool,
) -> (r: Vec<ReplaceAction>)
    ensures
        models(r@) == replace_actions(
            plan.backspaces as nat,
            plan.text@,
            plan.restore_delay_ms,
            held@,
            clipboard_saved,
            clipboard_written,
        ),
{
    let ghost n = plan.backspaces as nat;
    let ghost text = plan.text@;
    let mut out: Vec<ReplaceAction> = Vec::new();
    assert(models(out@) =~= Seq::<ActionModel>::empty());
    push_action(&mut out, ReplaceAction::Inhibit(true));
    let rel = modifier_release_keys(held);
    if rel.len() > 0 {
        push_action(&mut out, ReplaceAction::Send(rel));
    }
    push_action(&mut out, ReplaceAction::Sleep(10));
    let ghost before = models(out@);
    let mut i: usize = 0;
    while i < plan.backspaces
        invariant
            i <= plan.backspaces,
            models(out@) == before + backspace_actions(i as nat),
        decreases plan.backspaces - i,
    {
        push_action(&mut out, ReplaceAction::Send(backspace_keys()));
        push_action(&mut out, ReplaceAction::Sleep(5));
        assert(models(out@) =~= before + backspace_actions((i + 1) as nat));
        i = i + 1;
    }
    if plan.backspaces > 0 {
        push_action(&mut out, ReplaceAction::Sleep(30));
    }
    push_action(&mut out, ReplaceAction::BackupClipboard);
    push_action(&mut out, ReplaceAction::WriteClipboard(clipboard_text_units(plan.text.as_str())));
    assert(models(out@) =~= replace_prefix(n, text, held@));
    if clipboard_written {
        push_action(&mut out, ReplaceAction::Sleep(10));
        push_action(&mut out, ReplaceAction::Send(ctrl_v_keys()));
        if clipboard_saved {
            push_action(&mut out, ReplaceAction::Sleep(plan.restore_delay_ms));
            push_action(&mut out, ReplaceAction::RestoreClipboard);
        }
        assert(models(out@) =~= replace_prefix(n, text, held@) + replace_tail(
            text,
            plan.restore_delay_ms,
            clipboard_saved,
            clipboard_written,
        ));
    } else {
        let ghost pre = models(out@);
        let s = plan.text.as_str();
        assert(s@ == text);
        for c in it: s.chars()
            invariant
                it.seq() == text,
                models(out@) == pre + typing_actions(text.subrange(0, it.index())),
        {
            let ghost a = text.subrange(0, it.index());
            let ghost b = text.subrange(0, it.index() + 1);
            assert(b.drop_last() =~= a);
            push_action(&mut out, ReplaceAction::Send(char_keys(c)));
            push_action(&mut out, ReplaceAction::Sleep(5));
            assert(models(out@) =~= pre + typing_actions(b));
        }
        assert(text.subrange(0, text.len() as int) =~= text);
    }
    push_action(&mut out, ReplaceAction::Inhibit(false));
    out
}

/// The steps up to and including the clipboard write are the same whatever
/// the backup and the write turn out to be.
pub proof fn lemma_outcomes_share_prefix(
    backspaces: nat,
    text: Seq<char>,
    restore_delay_ms: u64,
    held: Seq<bool>,
    saved1: bool,
    written1: bool,
    saved2: bool,
    written2: bool,
)
    ensures
        ({
            let p = replace_prefix(backspaces, text, held).len() as int;
            replace_actions(backspaces, text, restore_delay_ms, held, saved1, written1).subrange(0, p)
                == replace_actions(backspaces, text, restore_delay_ms, held, saved2, written2).subrange(0, p)
        }),
{
    let p = replace_prefix(backspaces, text, held);
    assert(replace_actions(backspaces, text, restore_delay_ms, held, saved1, written1).subrange(0, p.len() as int) =~= p);
    assert(replace_actions(backspaces, text, restore_delay_ms, held, saved2, written2).subrange(0, p.len() as int) =~= p);
}

/// No step in `s` touches the inhibit flag.
pub open spec fn leaves_inhibit(s: Seq<ActionModel>) -> bool {
    forall|i: int| 0 <= i < s.len() ==> !(#[trigger] s[i] is Inhibit)
}

/// `backspace_actions(n)` is exactly `n` backspace taps, each followed by a
/// 5 ms pause.
pub proof fn lemma_backspace_actions_shape(n: nat)
    ensures
        backspace_actions(n).len() == 2 * n,
        forall|i: int|
            0 <= i < 2 * n ==> #[trigger] backspace_actions(n)[i] == (if i % 2 == 0 {
                ActionModel::Send(tap(VK_BACK))
            } else {
                ActionModel::Sleep(5)
            }),
    decreases n,
{
    if n > 0 {
        lemma_backspace_actions_shape((n - 1) as nat);
        let prev = backspace_actions((n - 1) as nat);
        assert forall|i: int| 0 <= i < 2 * n implies #[trigger] backspace_actions(n)[i] == (if i % 2
            == 0 {
            ActionModel::Send(tap(VK_BACK))
        } else {
            ActionModel::Sleep(5)
        }) by {
            if i < 2 * n - 2 {
                assert(backspace_actions(n)[i] == prev[i]);
            }
        }
    }
}

proof fn lemma_typing_leaves_inhibit(text: Seq<char>)
    ensures
        leaves_inhibit(typing_actions(text)),
    decreases text.len(),
{
    if text.len() > 0 {
        lemma_typing_leaves_inhibit(text.drop_last());
        let prev = typing_actions(text.drop_last());
        let t = typing_actions(text);
        assert forall|i: int| 0 <= i < t.len() implies !(#[trigger] t[i] is Inhibit) by {
            if i < prev.len() {
                assert(t[i] == prev[i]);
            }
        }
    }
}

/// The inhibit flag is set by the first step and cleared by the last, and no
/// step in between touches it: every keystroke of a replacement is sent with
/// the flag on, and it is off when the replacement is done.
pub proof fn lemma_inhibit_spans_replacement(
    backspaces: nat,
    text: Seq<char>,
    restore_delay_ms: u64,
    held: Seq<bool>,
    saved: bool,
    written: bool,
)
    ensures
        ({
            let a = replace_actions(backspaces, text, restore_delay_ms, held, saved, written);
            &&& a.len() >= 2
            &&& a[0] == ActionModel::Inhibit(true)
            &&& a.last() == ActionModel::Inhibit(false)
            &&& forall|i: int| 0 < i < a.len() - 1 ==> !(#[trigger] a[i] is Inhibit)
        }),
{
    lemma_backspace_actions_shape(backspaces);
    lemma_typing_leaves_inhibit(text);
    let b = backspace_actions(backspaces);
    assert(leaves_inhibit(b)) by {
        assert forall|i: int| 0 <= i < b.len() implies !(#[trigger] b[i] is Inhibit) by {
            assert(b[i] == backspace_actions(backspaces)[i]);
        }
    }
    let rel = releases(held, 8);
    let mid = (if rel.len() > 0 {
        seq![ActionModel::Send(rel)]
    } else {
        Seq::empty()
    }) + seq![ActionModel::Sleep(10)] + b + (if backspaces > 0 {
        seq![ActionModel::Sleep(30)]
    } else {
        Seq::empty()
    }) + seq![
        ActionModel::BackupClipboard,
        ActionModel::WriteClipboard(
            utf16_encode(crate::text_utils::spec_normalise_to_crlf(text)).push(0u16),
        ),
    ] + replace_tail(text, restore_delay_ms, saved, written);
    assert(leaves_inhibit(mid));
    let a = replace_actions(backspaces, text, restore_delay_ms, held, saved, written);
    assert(a =~= seq![ActionModel::Inhibit(true)] + mid + seq![ActionModel::Inhibit(false)]);
    assert forall|i: int| 0 < i < a.len() - 1 implies !(#[trigger] a[i] is Inhibit) by {
        assert(a[i] == mid[i - 1]);
    }
}

/// After a successful paste over a clipboard that held something, the
/// replacer waits exactly the configured restore delay and then restores the
/// clipboard, as the last steps before the inhibit flag is cleared.
pub proof fn lemma_restore_waits_configured_delay(
    backspaces: nat,
    text: Seq<char>,
    restore_delay_ms: u64,
    held: Seq<bool>,
)
    ensures
        ({
            let a = replace_actions(backspaces, text, restore_delay_ms, held, true, true);
            &&& a.len() >= 3
            &&& a[a.len() - 3] == ActionModel::Sleep(restore_delay_ms)
            &&& a[a.len() - 2] == ActionModel::RestoreClipboard
            &&& a[a.len() - 1] == ActionModel::Inhibit(false)
        }),
{
}

/// After a successful paste over an empty clipboard, Ctrl+V is the last key
/// batch and nothing is restored.
pub proof fn lemma_empty_clipboard_not_restored(
    backspaces: nat,
    text: Seq<char>,
    restore_delay_ms: u64,
    held: Seq<bool>,
)
    ensures
        ({
            let a = replace_actions(backspaces, text, restore_delay_ms, held, false, true);
            &&& a.len() >= 3
            &&& a[a.len() - 3] == ActionModel::Sleep(10)
            &&& a[a.len() - 2] == ActionModel::Send(seq![
                SyntheticKey::Virtual { vk: 0xA2, key_up: false },
                SyntheticKey::Virtual { vk: 0x56, key_up: false },
                SyntheticKey::Virtual { vk: 0x56, key_up: true },
                SyntheticKey::Virtual { vk: 0xA2, key_up: true },
            ])
            &&& a[a.len() - 1] == ActionModel::Inhibit(false)
            &&& forall|i: int| 0 <= i < a.len() ==> a[i] != ActionModel::RestoreClipboard
        }),
{
    lemma_backspace_actions_shape(backspaces);
    let a = replace_actions(backspaces, text, restore_delay_ms, held, false, true);
    let p = replace_prefix(backspaces, text, held);
    assert forall|i: int| 0 <= i < a.len() implies a[i] != ActionModel::RestoreClipboard by {
        if i < p.len() {
            assert(a[i] == p[i]);
            let b = backspace_actions(backspaces);
            let rel = releases(held, 8);
            let k = 1 + (if rel.len() > 0 { 1int } else { 0int }) + 1;
            if k <= i < k + b.len() {
                assert(p[i] == b[i - k]);
            }
        }
    }
}

/// The text put on the clipboard is the replacement with its line endings
/// made CRLF, in UTF-16, zero-terminated; it is written right after the
/// backup, whatever the backup and the write turn out to be.
pub proof fn lemma_clipboard_gets_crlf_text(
    backspaces: nat,
    text: Seq<char>,
    restore_delay_ms: u64,
    held: Seq<bool>,
    saved: bool,
    written: bool,
)
    ensures
        ({
            let a = replace_actions(backspaces, text, restore_delay_ms, held, saved, written);
            let w = replace_prefix(backspaces, text, held).len() - 1;
            &&& 1 <= w < a.len()
            &&& a[w - 1] == ActionModel::BackupClipboard
            &&& a[w] == ActionModel::WriteClipboard(
                utf16_encode(crate::text_utils::spec_normalise_to_crlf(text)).push(0u16),
            )
        }),
{
}

/// For a non-empty trigger, an immediate replacement deletes exactly one
/// character fewer than a hotkey replacement: the one the hook swallowed.
pub proof fn lemma_immediate_deletes_one_less(trigger_len: usize)
    requires
        trigger_len >= 1,
    ensures
        immediate_backspaces(trigger_len) + 1 == hotkey_backspaces(trigger_len),
{
}


/// A hotkey replacement deletes the whole trigger; an immediate one deletes
/// all but the last character, which the hook swallowed (none for an empty
/// trigger).
pub proof fn lemma_backspace_counts(trigger_len: usize)
    ensures
        hotkey_backspaces(trigger_len) == trigger_len,
        trigger_len >= 1 ==> immediate_backspaces(trigger_len) == trigger_len - 1,
        trigger_len == 0 ==> immediate_backspaces(trigger_len) == 0,
{
}

/// The modifiers the replacer releases, in the order it checks them: left and
/// right Ctrl, left and right Shift, left and right Alt, left and right Win.
pub open spec fn modifier_keys() -> Seq<u16> {
    seq![0xA2u16, 0xA3u16, 0xA0u16, 0xA1u16, 0xA4u16, 0xA5u16, 0x5Bu16, 0x5Cu16]
}

proof fn lemma_releases_prefix(held: Seq<bool>, n: int)
    requires
        held.len() == 8,
        0 <= n <= 8,
    ensures
        forall|x: SyntheticKey|
            releases(held, n).contains(x) <==> exists|k: int|
                0 <= k < n && #[trigger] held[k] && x == (SyntheticKey::Virtual {
                    vk: modifier_keys()[k],
                    key_up: true,
                }),
    decreases n,
{
    if n > 0 {
        lemma_releases_prefix(held, n - 1);
        let prev = releases(held, n - 1);
        let cur = releases(held, n);
        let last = SyntheticKey::Virtual { vk: modifier_keys()[n - 1], key_up: true };
        assert(release_order() == modifier_keys());
        assert forall|x: SyntheticKey|
            cur.contains(x) <==> exists|k: int|
                0 <= k < n && #[trigger] held[k] && x == (SyntheticKey::Virtual {
                    vk: modifier_keys()[k],
                    key_up: true,
                }) by {
            if held[n - 1] {
                assert(cur =~= prev.push(last));
                if cur.contains(x) {
                    let j = choose|j: int| 0 <= j < cur.len() && cur[j] == x;
                    if j < prev.len() {
                        assert(prev[j] == x);
                        assert(prev.contains(x));
                    } else {
                        assert(x == last);
                        assert(held[n - 1]);
                    }
                }
                if exists|k: int|
                    0 <= k < n && #[trigger] held[k] && x == (SyntheticKey::Virtual {
                        vk: modifier_keys()[k],
                        key_up: true,
                    }) {
                    let k = choose|k: int|
                        0 <= k < n && #[trigger] held[k] && x == (SyntheticKey::Virtual {
                            vk: modifier_keys()[k],
                            key_up: true,
                        });
                    if k < n - 1 {
                        assert(prev.contains(x));
                        let j = choose|j: int| 0 <= j < prev.len() && prev[j] == x;
                        assert(cur[j] == x);
                    } else {
                        assert(cur[cur.len() - 1] == x);
                    }
                }
            } else {
                assert(cur =~= prev);
            }
        }
    }
}

/// Before any backspace, a key-up is sent for each held modifier and for no
/// other key.
pub proof fn lemma_releases_held_modifiers(held: Seq<bool>)
    requires
        held.len() == 8,
    ensures
        forall|x: SyntheticKey|
            releases(held, 8).contains(x) <==> exists|k: int|
                0 <= k < 8 && #[trigger] held[k] && x == (SyntheticKey::Virtual {
                    vk: modifier_keys()[k],
                    key_up: true,
                }),
{
    lemma_releases_prefix(held, 8);
}

} // verus!
