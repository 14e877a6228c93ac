use topmost::config::HotkeyConfig;
use topmost::events::{next_loop_action, LoopAction, WM_HOTKEY, WM_QUIT};
use topmost::hotkey::{prepare_registration, HotkeyError, HOTKEY_ID};
use topmost::tray::{
    menu_command_of, menu_entries, reload_notice, route_window_message, startup_notice, tray_tip,
    MenuCommand, WindowProcAction, WM_COMMAND, WM_DESTROY, WM_LBUTTONDBLCLK, WM_RBUTTONUP,
    WM_TRAYICON,
};

#[test]
fn right_click_on_icon_opens_the_menu() {
    let r = route_window_message(WM_TRAYICON, 1, WM_RBUTTONUP as u64);
    assert_eq!(r, WindowProcAction::ShowContextMenu);
}

#[test]
fn double_click_on_icon_is_the_toggle_command() {
    let r = route_window_message(WM_TRAYICON, 1, WM_LBUTTONDBLCLK as u64);
    assert_eq!(r, WindowProcAction::RunCommand(MenuCommand::Toggle));
}

#[test]
fn other_icon_events_are_consumed() {
    let r = route_window_message(WM_TRAYICON, 1, 0x0200);
    assert_eq!(r, WindowProcAction::Handled);
}

#[test]
fn menu_messages_run_their_entry() {
    assert_eq!(
        route_window_message(WM_COMMAND, 1, 0),
        WindowProcAction::RunCommand(MenuCommand::Toggle)
    );
    assert_eq!(
        route_window_message(WM_COMMAND, 2, 0),
        WindowProcAction::RunCommand(MenuCommand::OpenConfig)
    );
    assert_eq!(
        route_window_message(WM_COMMAND, 3, 0),
        WindowProcAction::RunCommand(MenuCommand::ReloadHint)
    );
    assert_eq!(
        route_window_message(WM_COMMAND, 4, 0),
        WindowProcAction::RunCommand(MenuCommand::Exit)
    );
    // Only the low word of the parameter names the entry.
    assert_eq!(
        route_window_message(WM_COMMAND, 0x10004, 0),
        WindowProcAction::RunCommand(MenuCommand::Exit)
    );
    assert_eq!(route_window_message(WM_COMMAND, 9, 0), WindowProcAction::Handled);
}

#[test]
fn destruction_cleans_up_and_other_messages_pass_through() {
    assert_eq!(route_window_message(WM_DESTROY, 0, 0), WindowProcAction::CleanupAndQuit);
    assert_eq!(route_window_message(0x000F, 0, 0), WindowProcAction::PassToDefault);
}

#[test]
fn unknown_menu_identifiers_mean_nothing() {
    assert_eq!(menu_command_of(0), None);
    assert_eq!(menu_command_of(5), None);
    assert_eq!(menu_command_of(2), Some(MenuCommand::OpenConfig));
}

#[test]
fn the_menu_has_its_four_entries() {
    let entries = menu_entries();
    assert_eq!(entries.len(), 4);
    assert_eq!(entries[0], (1, String::from("📌 置顶当前窗口")));
    assert_eq!(entries[1], (2, String::from("⚙️ 打开配置文件")));
    assert_eq!(entries[2], (3, String::from("🔄 重新加载配置")));
    assert_eq!(entries[3], (4, String::from("❌ 退出")));
}

#[test]
fn tray_texts_carry_the_chord() {
    let hk = HotkeyConfig::default();
    assert_eq!(tray_tip(&hk), "窗口置顶工具\n快捷键: Ctrl + Space");
    let n = startup_notice(&hk);
    assert_eq!(n.title, "窗口置顶工具");
    assert_eq!(n.body, "程序已启动！\n快捷键: Ctrl + Space");
    let r = reload_notice();
    assert_eq!(r.title, "提示");
    assert_eq!(r.body, "请重启程序以应用新配置");
}

#[test]
fn loop_stops_when_flag_cleared_queue_closed_or_quit() {
    assert_eq!(next_loop_action(false, 1, 0x0001, 0, HOTKEY_ID), LoopAction::Stop);
    assert_eq!(next_loop_action(true, 0, 0x0001, 0, HOTKEY_ID), LoopAction::Stop);
    assert_eq!(next_loop_action(true, -1, 0x0001, 0, HOTKEY_ID), LoopAction::Stop);
    assert_eq!(next_loop_action(true, 1, WM_QUIT, 0, HOTKEY_ID), LoopAction::Stop);
}

#[test]
fn loop_toggles_only_on_our_own_hotkey() {
    assert_eq!(next_loop_action(true, 1, WM_HOTKEY, HOTKEY_ID, HOTKEY_ID), LoopAction::Toggle);
    assert_eq!(next_loop_action(true, 1, WM_HOTKEY, 7, HOTKEY_ID), LoopAction::Ignore);
}

#[test]
fn loop_dispatches_everything_else() {
    assert_eq!(next_loop_action(true, 1, 0x0113, 0, HOTKEY_ID), LoopAction::Dispatch);
}

#[test]
fn default_chord_registers_under_the_fixed_identifier() {
    let reg = prepare_registration(&HotkeyConfig::default()).expect("the default chord resolves");
    assert_eq!(reg.id, HOTKEY_ID);
    assert_eq!(reg.vk_code, 0x20);
    assert_eq!(reg.modifiers, 0x4002);
}

#[test]
fn unmapped_key_fails_before_registration() {
    let chord = HotkeyConfig { key: String::from("F13"), ..HotkeyConfig::default() };
    match prepare_registration(&chord) {
        Err(HotkeyError::InvalidKey { key }) => assert_eq!(key, "F13"),
        other => panic!("expected the invalid-key error, got {:?}", other),
    }
}

#[test]
fn error_messages_name_the_cause() {
    let invalid = HotkeyError::InvalidKey { key: String::from("F13") };
    assert_eq!(invalid.message(), "无效的快捷键: F13");
    let conflict = HotkeyError::Conflict { detail: String::from("os says no") };
    assert_eq!(conflict.message(), "注册快捷键失败: os says no。\n可能被其他程序占用。");
}
