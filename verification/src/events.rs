//! The decision of each turn of the blocking message loop.

use vstd::prelude::*;

verus! {

/// Hotkey notification message.
pub const WM_HOTKEY: u32 = 0x0312;

/// Quit request message.
pub const WM_QUIT: u32 = 0x0012;

/// What one turn of the loop does.
#[derive(Debug, Clone, Copy, PartialEq, Eq, Structural)]
pub enum LoopAction {
    /// Leave the loop; the hotkey is then unregistered and the tray
    /// resources released.
    Stop,
    /// Our hotkey fired: toggle the focused window.
    Toggle,
    /// A hotkey notification that is not ours: consume it, do nothing.
    Ignore,
    /// Any other message: translate and dispatch it to its window.
    Dispatch,
}

/// The loop's decision: stop once the running flag is cleared, on a
/// closed or failed queue, or on a quit message; toggle when the hotkey
/// notification carries our registered identifier; dispatch the rest.
pub open spec fn loop_action_spec(
    running: bool,
    get_result: i32,
    message: u32,
    hotkey_param: i32,
    hotkey_id: i32,
) -> LoopAction {
    if !running {
        LoopAction::Stop
    } else if get_result == 0 || get_result == -1 {
        LoopAction::Stop
    } else if message == WM_HOTKEY {
        if hotkey_param == hotkey_id {
            LoopAction::Toggle
        } else {
            LoopAction::Ignore
        }
    } else if message == WM_QUIT {
        LoopAction::Stop
    } else {
        LoopAction::Dispatch
    }
}

/// Decides one turn of the loop. `get_result` is what the blocking
/// retrieval call returned (0 for a closed queue, -1 for an error),
/// `message` the retrieved message's code, and `hotkey_param` the
/// identifier its first parameter carries.
pub fn next_loop_action(
    running: bool,
    get_result: i32,
    message: u32,
    hotkey_param: i32,
    hotkey_id: i32,
) -> (r: LoopAction)
    ensures
        r == loop_action_spec(running, get_result, message, hotkey_param, hotkey_id),
{
    if !running {
        LoopAction::Stop
    } else if get_result == 0 || get_result == -1 {
        LoopAction::Stop
    } else if message == WM_HOTKEY {
        if hotkey_param == hotkey_id {
            LoopAction::Toggle
        } else {
            LoopAction::Ignore
        }
    } else if message == WM_QUIT {
        LoopAction::Stop
    } else {
        LoopAction::Dispatch
    }
}

} // verus!
