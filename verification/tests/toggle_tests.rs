use topmost::config::Settings;
use topmost::toggle::{display_title, plan_toggle, ForegroundWindow, TogglePlan};

fn on_on() -> Settings {
    Settings { show_notification: true, play_sound: true }
}

#[test]
fn pressing_on_non_topmost_window_pins_it_with_tone_and_notice() {
    let fg = Some(ForegroundWindow { topmost: false, title: String::from("Notepad") });
    match plan_toggle(&fg, &on_on()) {
        TogglePlan::Apply(req) => {
            assert!(req.make_topmost);
            let tone = req.on_success.tone.expect("a tone is owed");
            assert_eq!(tone.frequency_hz, 800);
            assert_eq!(tone.duration_ms, 100);
            let notice = req.on_success.notice.expect("a notice is owed");
            assert_eq!(notice.title, "已置顶");
            assert_eq!(notice.body, "Notepad");
        }
        TogglePlan::Notify(_) => panic!("a focused window must be toggled"),
    }
}

#[test]
fn pressing_again_on_topmost_window_unpins_it() {
    let fg = Some(ForegroundWindow { topmost: true, title: String::from("Notepad") });
    match plan_toggle(&fg, &on_on()) {
        TogglePlan::Apply(req) => {
            assert!(!req.make_topmost);
            let tone = req.on_success.tone.expect("a tone is owed");
            assert_eq!(tone.frequency_hz, 600);
            assert_eq!(tone.duration_ms, 100);
            let notice = req.on_success.notice.expect("a notice is owed");
            assert_eq!(notice.title, "取消置顶");
            assert_eq!(notice.body, "Notepad");
        }
        TogglePlan::Notify(_) => panic!("a focused window must be toggled"),
    }
}

#[test]
fn two_presses_restore_the_observed_state() {
    let first = Some(ForegroundWindow { topmost: false, title: String::from("A") });
    let after_first = match plan_toggle(&first, &on_on()) {
        TogglePlan::Apply(req) => req.make_topmost,
        TogglePlan::Notify(_) => panic!("a focused window must be toggled"),
    };
    let second = Some(ForegroundWindow { topmost: after_first, title: String::from("A") });
    match plan_toggle(&second, &on_on()) {
        TogglePlan::Apply(req) => assert!(!req.make_topmost),
        TogglePlan::Notify(_) => panic!("a focused window must be toggled"),
    }
}

#[test]
fn no_foreground_window_only_notifies() {
    match plan_toggle(&None, &on_on()) {
        TogglePlan::Notify(n) => {
            assert_eq!(n.title, "窗口置顶工具");
            assert_eq!(n.body, "未找到活动窗口！");
        }
        TogglePlan::Apply(_) => panic!("nothing may be repositioned without a focused window"),
    }
}

#[test]
fn sound_off_owes_no_tone_and_notifications_off_owe_no_notice() {
    let fg = Some(ForegroundWindow { topmost: false, title: String::from("B") });
    let quiet = Settings { show_notification: true, play_sound: false };
    match plan_toggle(&fg, &quiet) {
        TogglePlan::Apply(req) => {
            assert!(req.on_success.tone.is_none());
            assert!(req.on_success.notice.is_some());
        }
        TogglePlan::Notify(_) => panic!("a focused window must be toggled"),
    }
    let silent = Settings { show_notification: false, play_sound: true };
    match plan_toggle(&fg, &silent) {
        TogglePlan::Apply(req) => {
            assert!(req.on_success.tone.is_some());
            assert!(req.on_success.notice.is_none());
        }
        TogglePlan::Notify(_) => panic!("a focused window must be toggled"),
    }
}

#[test]
fn empty_title_is_shown_as_placeholder() {
    assert_eq!(display_title(""), "(无标题)");
    assert_eq!(display_title("Notepad"), "Notepad");
    let fg = Some(ForegroundWindow { topmost: false, title: String::new() });
    match plan_toggle(&fg, &on_on()) {
        TogglePlan::Apply(req) => {
            assert_eq!(req.on_success.notice.expect("a notice is owed").body, "(无标题)");
        }
        TogglePlan::Notify(_) => panic!("a focused window must be toggled"),
    }
}
