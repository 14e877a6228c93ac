//! The decision at the heart of the tool: what to do when the hotkey or
//! the menu asks to toggle the "always on top" bit of the focused window.
//!
//! The window's state lives entirely with the OS; this module only
//! decides, from what the OS reported, what to ask of it and what
//! feedback to give. Carrying the decision out is the caller's work.

use crate::config::Settings;
use vstd::prelude::*;
use vstd::string::*;

verus! {

/// What the OS reports of the focused window when the toggle fires.
#[derive(Debug, Clone, PartialEq, Eq)]
pub struct ForegroundWindow {
    /// Whether the window's topmost style bit is currently set.
    pub topmost: bool,
    /// The window's title, possibly empty.
    pub title: String,
}

/// A balloon notification to show.
#[derive(Debug, Clone, PartialEq, Eq)]
pub struct Notice {
    pub title: String,
    pub body: String,
}

/// A short tone to play.
#[derive(Debug, Clone, Copy, PartialEq, Eq, Structural)]
pub struct Tone {
    pub frequency_hz: u32,
    pub duration_ms: u32,
}

/// The feedback owed once the style bit was changed with success; none
/// of it is owed when the positioning call fails.
#[derive(Debug, Clone, PartialEq, Eq)]
pub struct Feedback {
    pub tone: Option<Tone>,
    pub notice: Option<Notice>,
}

/// The change asked of the OS, and the feedback owed if it succeeds.
#[derive(Debug, Clone, PartialEq, Eq)]
pub struct ToggleRequest {
    pub make_topmost: bool,
    pub on_success: Feedback,
}

/// The decision taken when the toggle fires.
#[derive(Debug, Clone, PartialEq, Eq)]
pub enum TogglePlan {
    /// No window has focus: show this notice and touch nothing.
    Notify(Notice),
    /// Ask the OS to set or clear the topmost bit.
    Apply(ToggleRequest),
}

/// The state the toggle moves the window to: the opposite of the one
/// observed.
pub open spec fn toggle_next(topmost: bool) -> bool {
    !topmost
}

/// The tone announcing the new state: 800 Hz when the window becomes
/// topmost, 600 Hz when it stops being topmost.
pub open spec fn tone_frequency(was_topmost: bool) -> u32 {
    if was_topmost {
        600
    } else {
        800
    }
}

pub const TONE_DURATION_MS: u32 = 100;

/// The notification title announcing the new state.
pub open spec fn notice_title_seq(was_topmost: bool) -> Seq<char> {
    if was_topmost {
        "取消置顶"@
    } else {
        "已置顶"@
    }
}

/// An empty window title is shown as a fixed placeholder.
pub open spec fn displayed_title(t: Seq<char>) -> Seq<char> {
    if t.len() == 0 {
        "(无标题)"@
    } else {
        t
    }
}

/// The window title as notifications show it.
pub fn display_title(title: &str) -> (r: String)
    ensures
        r@ == displayed_title(title@),
{
    if title.unicode_len() == 0 {
        String::from_str("(无标题)")
    } else {
        String::from_str(title)
    }
}

/// What a correct toggle decision is. With no focused window, only the
/// fixed notice. Otherwise a request that flips the observed bit, with a
/// tone exactly when sounds are on, pitched by the old state, and a
/// notice exactly when notifications are on, titled by the old state and
/// carrying the window's displayed title.
pub open spec fn plan_ok(
    foreground: Option<ForegroundWindow>,
    settings: Settings,
    r: TogglePlan,
) -> bool {
    match foreground {
        None => match r {
            TogglePlan::Notify(n) => n.title@ == "窗口置顶工具"@ && n.body@
                == "未找到活动窗口！"@,
            TogglePlan::Apply(_) => false,
        },
        Some(w) => match r {
            TogglePlan::Notify(_) => false,
            TogglePlan::Apply(req) => {
                &&& req.make_topmost == toggle_next(w.topmost)
                &&& (settings.play_sound ==> req.on_success.tone == Some(
                    Tone { frequency_hz: tone_frequency(w.topmost), duration_ms: TONE_DURATION_MS },
                ))
                &&& (!settings.play_sound ==> req.on_success.tone is None)
                &&& (settings.show_notification ==> (req.on_success.notice matches Some(n)
                    && n.title@ == notice_title_seq(w.topmost) && n.body@ == displayed_title(
                    w.title@,
                )))
                &&& (!settings.show_notification ==> req.on_success.notice is None)
            },
        },
    }
}

/// Decides the toggle from the reported window state and the settings.
pub fn plan_toggle(foreground: &Option<ForegroundWindow>, settings: &Settings) -> (r: TogglePlan)
    ensures
        plan_ok(*foreground, *settings, r),
{
    match foreground {
        None => TogglePlan::Notify(
            Notice {
                title: String::from_str("窗口置顶工具"),
                body: String::from_str("未找到活动窗口！"),
            },
        ),
        Some(w) => {
            let tone = if settings.play_sound {
                Some(
                    Tone {
                        frequency_hz: if w.topmost {
                            600
                        } else {
                            800
                        },
                        duration_ms: TONE_DURATION_MS,
                    },
                )
            } else {
                None
            };
            let notice = if settings.show_notification {
                Some(
                    Notice {
                        title: if w.topmost {
                            String::from_str("取消置顶")
                        } else {
                            String::from_str("已置顶")
                        },
                        body: display_title(w.title.as_str()),
                    },
                )
            } else {
                None
            };
            TogglePlan::Apply(
                ToggleRequest { make_topmost: !w.topmost, on_success: Feedback { tone, notice } },
            )
        },
    }
}

/// The toggle is its own inverse on the state the OS keeps: flipping the
/// bit twice is flipping it not at all.
pub proof fn lemma_toggle_involution(topmost: bool)
    ensures
        toggle_next(toggle_next(topmost)) == topmost,
{
}

/// Two toggles in a row, the second observing the bit the first one set,
/// ask the OS to put the window back into its original state.
pub proof fn lemma_toggle_twice_restores(
    w1: ForegroundWindow,
    w2: ForegroundWindow,
    s1: Settings,
    s2: Settings,
    r1: TogglePlan,
    r2: TogglePlan,
)
    requires
        plan_ok(Some(w1), s1, r1),
        r1 matches TogglePlan::Apply(req1) && w2.topmost == req1.make_topmost,
        plan_ok(Some(w2), s2, r2),
    ensures
        r2 matches TogglePlan::Apply(req2) && req2.make_topmost == w1.topmost,
{
}

/// With no focused window the plan is only the fixed notice: nothing
/// asks the OS to change any window.
pub proof fn lemma_no_window_plan_is_notice(settings: Settings, r: TogglePlan)
    requires
        plan_ok(None, settings, r),
    ensures
        r matches TogglePlan::Notify(n) && n.body@ == "未找到活动窗口！"@,
{
}

} // verus!
