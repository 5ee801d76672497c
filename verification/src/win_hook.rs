//! What the Windows low-level keyboard hook makes of the messages it gets.

use vstd::prelude::*;

verus! {

/// The hook code under which a low-level keyboard hook must handle a
/// message (`HC_ACTION`).
pub const HC_ACTION: i32 = 0;

/// A key went down (`WM_KEYDOWN`).
pub const WM_KEYDOWN: u32 = 0x0100;

/// A key went up (`WM_KEYUP`).
pub const WM_KEYUP: u32 = 0x0101;

/// A key went down while Alt was held (`WM_SYSKEYDOWN`).
pub const WM_SYSKEYDOWN: u32 = 0x0104;

/// A key went up while Alt was held (`WM_SYSKEYUP`).
pub const WM_SYSKEYUP: u32 = 0x0105;

/// The virtual key that the watchdog injects as its probe (F24).
pub const PROBE_VK: u32 = 0x87;

/// What a message to the keyboard hook is.
#[derive(Debug, Clone, Copy, PartialEq, Eq, Structural)]
pub enum HookMessage {
    /// Not for the hook to handle: pass it on.
    Other,
    /// The watchdog's probe: note it and swallow it.
    Probe,
    /// A press (`pressed`) or a release of a key: up to the filter.
    Key { pressed: bool },
}

/// What the message `message` about virtual key `vk`, delivered with hook
/// code `code`, is.
pub open spec fn message_kind(code: i32, vk: u32, message: u32) -> HookMessage {
    if code != HC_ACTION {
        HookMessage::Other
    } else if vk == PROBE_VK {
        HookMessage::Probe
    } else if message == WM_KEYDOWN || message == WM_SYSKEYDOWN {
        HookMessage::Key { pressed: true }
    } else if message == WM_KEYUP || message == WM_SYSKEYUP {
        HookMessage::Key { pressed: false }
    } else {
        HookMessage::Other
    }
}

/// Sorts a message to the keyboard hook: the probe, a key press or release,
/// or something to pass on.
pub fn classify(code: i32, vk: u32, message: u32) -> (m: HookMessage)
    ensures
        m == message_kind(code, vk, message),
        code == HC_ACTION && vk == PROBE_VK ==> m == HookMessage::Probe,
        code != HC_ACTION ==> m == HookMessage::Other,
{
    if code != HC_ACTION {
        return HookMessage::Other;
    }
    if vk == PROBE_VK {
        return HookMessage::Probe;
    }
    let pressed = message == WM_KEYDOWN || message == WM_SYSKEYDOWN;
    let released = message == WM_KEYUP || message == WM_SYSKEYUP;
    if pressed || released {
        HookMessage::Key { pressed }
    } else {
        HookMessage::Other
    }
}

/// Every message about the probe key (F24, 0x87) that the hook is to handle
/// is the probe, whether the key goes down or up; messages the hook is not
/// to handle (a nonzero hook code) are passed on; of the others, key-down
/// and system-key-down (0x0100, 0x0104) are presses, key-up and
/// system-key-up (0x0101, 0x0105) are releases, and the rest are passed on.
pub proof fn lemma_message_kinds(code: i32, vk: u32, message: u32)
    ensures
        code == 0 && vk == 0x87 ==> message_kind(code, vk, message) == HookMessage::Probe,
        code != 0 ==> message_kind(code, vk, message) == HookMessage::Other,
        code == 0 && vk != 0x87 && (message == 0x0100 || message == 0x0104) ==> message_kind(
            code,
            vk,
            message,
        ) == (HookMessage::Key { pressed: true }),
        code == 0 && vk != 0x87 && (message == 0x0101 || message == 0x0105) ==> message_kind(
            code,
            vk,
            message,
        ) == (HookMessage::Key { pressed: false }),
        code == 0 && vk != 0x87 && message != 0x0100 && message != 0x0104 && message != 0x0101
            && message != 0x0105 ==> message_kind(code, vk, message) == HookMessage::Other,
{
}

} // verus!
