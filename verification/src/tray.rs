//! Decisions of the tray controller: the menu and its commands, the
//! routing of the messages its hidden window receives, and the fixed
//! texts the tray shows.

use crate::config::{display_seq, HotkeyConfig};
use crate::toggle::Notice;
use vstd::prelude::*;
use vstd::string::*;

verus! {

/// Message code under which the tray icon reports mouse events: the
/// first code past the start of the user-defined range (0x0400 + 1).
pub const WM_TRAYICON: u32 = 0x0401;

/// Right-button-up mouse event, as the tray icon reports it.
pub const WM_RBUTTONUP: u32 = 0x0205;

/// Left-button-double-click mouse event, as the tray icon reports it.
pub const WM_LBUTTONDBLCLK: u32 = 0x0203;

/// Menu command message.
pub const WM_COMMAND: u32 = 0x0111;

/// Window-destroyed message.
pub const WM_DESTROY: u32 = 0x0002;

/// Identifiers of the four menu entries.
pub const MENU_TOGGLE: u16 = 1;

pub const MENU_CONFIG: u16 = 2;

pub const MENU_RELOAD: u16 = 3;

pub const MENU_EXIT: u16 = 4;

/// The four commands of the tray menu.
#[derive(Debug, Clone, Copy, PartialEq, Eq, Structural)]
pub enum MenuCommand {
    /// Toggle the focused window, as the hotkey does.
    Toggle,
    /// Open the settings file in a text editor.
    OpenConfig,
    /// Tell the user that a restart applies a changed file.
    ReloadHint,
    /// Clear the running flag and leave the message loop.
    Exit,
}

/// The command behind a menu entry identifier, if any.
pub open spec fn menu_command_spec(id: u16) -> Option<MenuCommand> {
    if id == MENU_TOGGLE {
        Some(MenuCommand::Toggle)
    } else if id == MENU_CONFIG {
        Some(MenuCommand::OpenConfig)
    } else if id == MENU_RELOAD {
        Some(MenuCommand::ReloadHint)
    } else if id == MENU_EXIT {
        Some(MenuCommand::Exit)
    } else {
        None
    }
}

/// Looks a menu entry identifier up; an unknown identifier means nothing.
pub fn menu_command_of(id: u16) -> (r: Option<MenuCommand>)
    ensures
        r == menu_command_spec(id),
{
    if id == MENU_TOGGLE {
        Some(MenuCommand::Toggle)
    } else if id == MENU_CONFIG {
        Some(MenuCommand::OpenConfig)
    } else if id == MENU_RELOAD {
        Some(MenuCommand::ReloadHint)
    } else if id == MENU_EXIT {
        Some(MenuCommand::Exit)
    } else {
        None
    }
}

/// What the hidden tray window does with one message.
#[derive(Debug, Clone, Copy, PartialEq, Eq, Structural)]
pub enum WindowProcAction {
    /// Show the context menu at the cursor.
    ShowContextMenu,
    /// Carry out one menu command.
    RunCommand(MenuCommand),
    /// The message was consumed with nothing left to do.
    Handled,
    /// The window is being destroyed: remove the icon and request quit.
    CleanupAndQuit,
    /// Hand the message to the default window procedure.
    PassToDefault,
}

/// Routing of one message: a right click on the icon opens the menu, a
/// double click is an alias for the toggle command, a menu message runs
/// its entry's command, destruction cleans up; everything else goes to
/// default processing.
pub open spec fn route_spec(msg: u32, wparam: u64, lparam: u64) -> WindowProcAction {
    if msg == WM_TRAYICON {
        let event = (lparam % 0x1_0000_0000) as u32;
        if event == WM_RBUTTONUP {
            WindowProcAction::ShowContextMenu
        } else if event == WM_LBUTTONDBLCLK {
            WindowProcAction::RunCommand(MenuCommand::Toggle)
        } else {
            WindowProcAction::Handled
        }
    } else if msg == WM_COMMAND {
        match menu_command_spec((wparam % 0x1_0000) as u16) {
            Some(c) => WindowProcAction::RunCommand(c),
            None => WindowProcAction::Handled,
        }
    } else if msg == WM_DESTROY {
        WindowProcAction::CleanupAndQuit
    } else {
        WindowProcAction::PassToDefault
    }
}

/// Routes one message of the hidden tray window. The low word of the
/// command message's first parameter carries the menu entry identifier;
/// the low double word of the tray message's second parameter carries
/// the mouse event.
pub fn route_window_message(msg: u32, wparam: u64, lparam: u64) -> (r: WindowProcAction)
    ensures
        r == route_spec(msg, wparam, lparam),
{
    if msg == WM_TRAYICON {
        let event = (lparam % 0x1_0000_0000) as u32;
        if event == WM_RBUTTONUP {
            WindowProcAction::ShowContextMenu
        } else if event == WM_LBUTTONDBLCLK {
            WindowProcAction::RunCommand(MenuCommand::Toggle)
        } else {
            WindowProcAction::Handled
        }
    } else if msg == WM_COMMAND {
        match menu_command_of((wparam % 0x1_0000) as u16) {
            Some(c) => WindowProcAction::RunCommand(c),
            None => WindowProcAction::Handled,
        }
    } else if msg == WM_DESTROY {
        WindowProcAction::CleanupAndQuit
    } else {
        WindowProcAction::PassToDefault
    }
}

/// The menu's entries in display order, each with its identifier.
pub fn menu_entries() -> (r: Vec<(u16, String)>)
    ensures
        r@.len() == 4,
        r@[0].0 == MENU_TOGGLE && r@[0].1@ == "📌 置顶当前窗口"@,
        r@[1].0 == MENU_CONFIG && r@[1].1@ == "⚙️ 打开配置文件"@,
        r@[2].0 == MENU_RELOAD && r@[2].1@ == "🔄 重新加载配置"@,
        r@[3].0 == MENU_EXIT && r@[3].1@ == "❌ 退出"@,
{
    let mut v: Vec<(u16, String)> = Vec::new();
    v.push((MENU_TOGGLE, String::from_str("📌 置顶当前窗口")));
    v.push((MENU_CONFIG, String::from_str("⚙️ 打开配置文件")));
    v.push((MENU_RELOAD, String::from_str("🔄 重新加载配置")));
    v.push((MENU_EXIT, String::from_str("❌ 退出")));
    v
}

/// The tooltip on the tray icon: the tool's name and the chord.
pub fn tray_tip(hotkey: &HotkeyConfig) -> (r: String)
    ensures
        r@ == "窗口置顶工具\n快捷键: "@ + display_seq(*hotkey),
{
    let mut s = String::from_str("窗口置顶工具\n快捷键: ");
    let d = hotkey.display();
    s.append(d.as_str());
    s
}

/// The notice shown once at startup.
pub fn startup_notice(hotkey: &HotkeyConfig) -> (r: Notice)
    ensures
        r.title@ == "窗口置顶工具"@,
        r.body@ == "程序已启动！\n快捷键: "@ + display_seq(*hotkey),
{
    let mut body = String::from_str("程序已启动！\n快捷键: ");
    let d = hotkey.display();
    body.append(d.as_str());
    Notice { title: String::from_str("窗口置顶工具"), body }
}

/// The notice shown for the reload command: the file is not re-read; a
/// restart applies it.
pub fn reload_notice() -> (r: Notice)
    ensures
        r.title@ == "提示"@,
        r.body@ == "请重启程序以应用新配置"@,
{
    Notice {
        title: String::from_str("提示"),
        body: String::from_str("请重启程序以应用新配置"),
    }
}

} // verus!
