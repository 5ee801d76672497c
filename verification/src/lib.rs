//! Core of a keyboard chatter filter: a per-key debouncer that drops a key
//! press arriving too soon after that key's release (and the release that
//! belongs to it), the step that a keyboard hook takes for every key event,
//! the watchdog that decides when the hook must be reinstalled, the window
//! the user may set, and the names shown for dropped keys.

pub mod debounce;
pub mod hook;
pub mod key_labels;
pub mod settings;
pub mod text;
pub mod time;
pub mod vk_names;
pub mod watchdog;
pub mod win_hook;
