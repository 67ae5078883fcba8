//! A text expander's core: the keystroke window, trigger matching, hotkey rules,
//! and the text that is pasted in place of a trigger.

pub mod buffer;
pub mod text_utils;
pub mod config;
pub mod i18n;
pub mod hotkey;
pub mod hook;
pub mod ui;
pub mod replacer;
