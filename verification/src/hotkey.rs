//! Translation of the configured chord into the registration request
//! handed to the OS, and the errors that can abort startup.

use crate::config::{modifier_mask_spec, vk_resolve, HotkeyConfig};
use vstd::prelude::*;
use vstd::string::*;

verus! {

/// The identifier under which the one global hotkey is registered.
pub const HOTKEY_ID: i32 = 1;

/// Why the hotkey could not be set up.
#[derive(Debug, Clone, PartialEq, Eq)]
pub enum HotkeyError {
    /// The configured key name maps to no key code.
    InvalidKey { key: String },
    /// The OS refused the registration, most likely because another
    /// program already owns the chord; the detail is the OS's message.
    Conflict { detail: String },
}

impl HotkeyError {
    /// The message shown to the user; the registration failure names the
    /// likely cause, a chord already owned elsewhere.
    pub fn message(&self) -> (r: String)
        ensures
            (*self) matches HotkeyError::InvalidKey { key } ==> r@ == "无效的快捷键: "@ + key@,
            (*self) matches HotkeyError::Conflict { detail } ==> r@
                == "注册快捷键失败: "@ + detail@ + "。\n可能被其他程序占用。"@,
    {
        match self {
            HotkeyError::InvalidKey { key } => {
                let mut s = String::from_str("无效的快捷键: ");
                s.append(key.as_str());
                s
            },
            HotkeyError::Conflict { detail } => {
                let mut s = String::from_str("注册快捷键失败: ");
                s.append(detail.as_str());
                s.append("。\n可能被其他程序占用。");
                s
            },
        }
    }
}

/// What registration asks of the OS: the fixed identifier, the resolved
/// key code, and the modifier mask.
#[derive(Debug, Clone, PartialEq, Eq)]
pub struct HotkeyRegistration {
    pub id: i32,
    pub vk_code: u32,
    pub modifiers: u32,
}

/// Turns the chord into the request handed to the OS. Succeeds exactly
/// when the key name resolves to a code; otherwise the invalid-key error,
/// carrying the offending name, and registration is never reached.
pub fn prepare_registration(chord: &HotkeyConfig) -> (r: Result<
    HotkeyRegistration,
    HotkeyError,
>)
    ensures
        match vk_resolve(chord.key@) {
            Some(vk) => r matches Ok(reg) && reg.id == HOTKEY_ID && reg.vk_code == vk
                && reg.modifiers == modifier_mask_spec(
                chord.ctrl,
                chord.alt,
                chord.shift,
                chord.win,
            ),
            None => r matches Err(e) && e matches HotkeyError::InvalidKey { key } && key@
                == chord.key@,
        },
{
    match chord.get_vk_code() {
        Some(vk) => Ok(
            HotkeyRegistration { id: HOTKEY_ID, vk_code: vk, modifiers: chord.get_modifiers() },
        ),
        None => Err(HotkeyError::InvalidKey { key: chord.key.clone() }),
    }
}

} // verus!
