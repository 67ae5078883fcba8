//! The application configuration: its types, its defaults, and the rules that
//! are applied to a configuration read back from disk.

use vstd::prelude::*;

verus! {

broadcast use vstd::string::group_string_axioms;

/// Hotkey configuration for the application.
#[derive(Debug, Clone, Copy, PartialEq, Eq, Structural)]
pub struct HotkeyConfig {
    /// Win32 modifier flags (`MOD_ALT=1`, `MOD_CONTROL=2`, `MOD_SHIFT=4`, `MOD_WIN=8`)
    pub modifiers: u32,
    /// Win32 virtual key code (e.g., 0x58 for 'X')
    pub virtual_key: u32,
}

/// Defines when a snippet should be expanded.
#[derive(Debug, Clone, Copy, PartialEq, Eq, Structural)]
pub enum ExpansionMode {
    /// Expands immediately upon typing the trigger.
    Immediate,
    /// Expands only when the hotkey is pressed.
    Hotkey,
}

/// A snippet definition containing a trigger, replacement, and expansion mode.
#[derive(Debug, Clone)]
pub struct Snippet {
    /// The string that triggers the expansion.
    pub trigger: String,
    /// The replacement string.
    pub replacement: String,
    /// The mode of expansion.
    pub mode: ExpansionMode,
}

/// The main application configuration.
#[derive(Debug, Clone)]
pub struct AppConfig {
    /// UI language ("en" or "da")
    pub language: String,
    /// Hotkey configuration for triggering expansions.
    pub hotkey: HotkeyConfig,
    /// Size of the typing buffer (clamped to 1..=256 at load time).
    pub buffer_size: usize,
    /// How long (in milliseconds) to wait after simulating Ctrl+V before restoring
    /// the clipboard content saved before the paste.
    pub clipboard_restore_delay_ms: u64,
    /// List of user-defined snippets.
    pub snippets: Vec<Snippet>,
}

/// The language used when a configuration names none.
pub fn default_language() -> (r: String)
    ensures
        r@ == "en"@,
{
    "en".to_string()
}

/// The buffer size used when a configuration names none.
pub fn default_buffer_size() -> (r: usize)
    ensures
        r == 10,
{
    10
}

/// The clipboard restore delay used when a configuration names none.
pub fn default_clipboard_restore_delay_ms() -> (r: u64)
    ensures
        r == 150,
{
    150
}

/// The smallest buffer size a loaded configuration may hold.
pub const MIN_BUFFER_SIZE: usize = 1;

/// The largest buffer size a loaded configuration may hold.
pub const MAX_BUFFER_SIZE: usize = 256;

/// `size` clamped to `MIN_BUFFER_SIZE ..= MAX_BUFFER_SIZE`.
pub open spec fn spec_clamp_buffer_size(size: usize) -> usize {
    if size < MIN_BUFFER_SIZE {
        MIN_BUFFER_SIZE
    } else if size > MAX_BUFFER_SIZE {
        MAX_BUFFER_SIZE
    } else {
        size
    }
}

/// Clamps a buffer size to the range a loaded configuration may hold.
pub fn clamp_buffer_size(size: usize) -> (r: usize)
    ensures
        r == spec_clamp_buffer_size(size),
        MIN_BUFFER_SIZE <= r <= MAX_BUFFER_SIZE,
{
    if size < MIN_BUFFER_SIZE {
        MIN_BUFFER_SIZE
    } else if size > MAX_BUFFER_SIZE {
        MAX_BUFFER_SIZE
    } else {
        size
    }
}

/// `config` with its buffer size clamped and every other field kept.
pub open spec fn spec_sanitized(config: AppConfig) -> AppConfig {
    AppConfig {
        language: config.language,
        hotkey: config.hotkey,
        buffer_size: spec_clamp_buffer_size(config.buffer_size),
        clipboard_restore_delay_ms: config.clipboard_restore_delay_ms,
        snippets: config.snippets,
    }
}

/// Applies the load-time rules to a configuration read from disk: the buffer
/// size is clamped to `1..=256`, every other field is kept.
pub fn sanitize_loaded(config: AppConfig) -> (r: AppConfig)
    ensures
        r == spec_sanitized(config),
{
    let AppConfig { language, hotkey, buffer_size, clipboard_restore_delay_ms, snippets } = config;
    AppConfig {
        language,
        hotkey,
        buffer_size: clamp_buffer_size(buffer_size),
        clipboard_restore_delay_ms,
        snippets,
    }
}

/// Decides which configuration a load yields, given the result of parsing
/// `config.toml` and, when a backup file exists, the result of parsing the
/// backup. A good primary file wins; a corrupt one falls back to a good
/// backup; otherwise the primary file's parse error is reported.
pub fn recover_config<E, F>(primary: Result<AppConfig, E>, backup: Option<Result<AppConfig, F>>) -> (r:
    Result<AppConfig, E>)
    ensures
        primary matches Ok(c) ==> r == Ok::<AppConfig, E>(spec_sanitized(c)),
        primary matches Err(e) ==> match backup {
            Some(Ok(b)) => r == Ok::<AppConfig, E>(spec_sanitized(b)),
            _ => r == Err::<AppConfig, E>(e),
        },
{
    match primary {
        Ok(c) => Ok(sanitize_loaded(c)),
        Err(e) => match backup {
            Some(Ok(b)) => Ok(sanitize_loaded(b)),
            _ => Err(e),
        },
    }
}

/// The default hotkey: Ctrl + Shift + T.
pub open spec fn spec_default_hotkey() -> HotkeyConfig {
    HotkeyConfig { modifiers: 6, virtual_key: 0x54 }
}

/// `s` is a snippet with the given trigger, replacement and mode.
pub open spec fn snippet_is(s: Snippet, trigger: Seq<char>, replacement: Seq<char>, mode: ExpansionMode) -> bool {
    s.trigger@ == trigger && s.replacement@ == replacement && s.mode == mode
}

fn snippet(trigger: &str, replacement: &str, mode: ExpansionMode) -> (r: Snippet)
    ensures
        snippet_is(r, trigger@, replacement@, mode),
{
    Snippet { trigger: trigger.to_string(), replacement: replacement.to_string(), mode }
}

/// Returns the default application configuration.
pub fn default_config() -> (r: AppConfig)
    ensures
        r.language@ == "en"@,
        r.hotkey == spec_default_hotkey(),
        r.buffer_size == 10,
        r.clipboard_restore_delay_ms == 150,
        r.snippets@.len() == 3,
        snippet_is(r.snippets@[0], ".sig"@, "Regards,\nJohn Doe"@, ExpansionMode::Immediate),
        snippet_is(r.snippets@[1], ".em"@, "john.doe@example.com"@, ExpansionMode::Immediate),
        snippet_is(
            r.snippets@[2],
            "jd"@,
            "With kind regards and sincerely - John Doe"@,
            ExpansionMode::Hotkey,
        ),
{
    let mut snippets: Vec<Snippet> = Vec::new();
    snippets.push(snippet(".sig", "Regards,\nJohn Doe", ExpansionMode::Immediate));
    snippets.push(snippet(".em", "john.doe@example.com", ExpansionMode::Immediate));
    snippets.push(
        snippet("jd", "With kind regards and sincerely - John Doe", ExpansionMode::Hotkey),
    );
    AppConfig {
        language: "en".to_string(),
        hotkey: HotkeyConfig { modifiers: 6, virtual_key: 0x54 },
        buffer_size: 10,
        clipboard_restore_delay_ms: default_clipboard_restore_delay_ms(),
        snippets,
    }
}

/// A configuration that went through the load rules has a buffer size in
/// `1..=256`, and applying the rules again changes nothing.
pub proof fn lemma_sanitized_stable(c: AppConfig)
    ensures
        MIN_BUFFER_SIZE <= spec_sanitized(c).buffer_size <= MAX_BUFFER_SIZE,
        spec_sanitized(spec_sanitized(c)) == spec_sanitized(c),
{
}


/// A loaded buffer size is kept when it lies in 1 ..= 256; below that it
/// becomes 1 and above it 256.
pub proof fn lemma_buffer_size_clamped(size: usize)
    ensures
        1 <= size <= 256 ==> spec_clamp_buffer_size(size) == size,
        size < 1 ==> spec_clamp_buffer_size(size) == 1,
        size > 256 ==> spec_clamp_buffer_size(size) == 256,
{
}
} // verus!
