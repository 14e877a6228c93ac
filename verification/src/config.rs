//! Settings of the tool: the hotkey chord, the feedback switches, and the
//! text form in which they are kept on disk.

use vstd::prelude::*;
use vstd::string::*;

verus! {

/// The hotkey chord: up to four modifiers and one symbolic key name.
#[derive(Debug, Clone, PartialEq, Eq)]
pub struct HotkeyConfig {
    pub ctrl: bool,
    pub alt: bool,
    pub shift: bool,
    pub win: bool,
    /// Symbolic name of the main key, such as "Space", "T" or "F9".
    pub key: String,
}

/// Feedback switches consulted when the toggle fires.
#[derive(Debug, Clone, PartialEq, Eq)]
pub struct Settings {
    pub show_notification: bool,
    pub play_sound: bool,
}

/// The whole configuration: chord plus switches.
#[derive(Debug, Clone, PartialEq, Eq)]
pub struct Config {
    pub hotkey: HotkeyConfig,
    pub settings: Settings,
}

/// Default value of the feedback switches, named so that a reader of the
/// file format sees which value an absent switch takes.
pub fn default_true() -> (r: bool)
    ensures
        r,
{
    true
}

impl Default for HotkeyConfig {
    /// Ctrl + Space, no other modifiers.
    fn default() -> (c: Self)
        ensures
            c.ctrl,
            !c.alt,
            !c.shift,
            !c.win,
            c.key@ == "Space"@,
    {
        HotkeyConfig {
            ctrl: true,
            alt: false,
            shift: false,
            win: false,
            key: "Space".to_owned(),
        }
    }
}

impl Default for Settings {
    /// Both kinds of feedback are on.
    fn default() -> (s: Self)
        ensures
            s.show_notification,
            s.play_sound,
    {
        Settings { show_notification: true, play_sound: true }
    }
}

impl Default for Config {
    fn default() -> (c: Self)
        ensures
            c.hotkey.ctrl,
            !c.hotkey.alt,
            !c.hotkey.shift,
            !c.hotkey.win,
            c.hotkey.key@ == "Space"@,
            c.settings.show_notification,
            c.settings.play_sound,
    {
        Config { hotkey: HotkeyConfig::default(), settings: Settings::default() }
    }
}

/// Name of the settings file, kept beside the executable.
pub fn config_file_name() -> (r: &'static str)
    ensures
        r@ == "config.toml"@,
{
    "config.toml"
}

/// The human-readable form of a chord: the enabled modifiers and the key,
/// joined by " + ", the key always last.
pub open spec fn display_seq(c: HotkeyConfig) -> Seq<char> {
    (if c.ctrl {
        "Ctrl + "@
    } else {
        Seq::<char>::empty()
    }) + (if c.alt {
        "Alt + "@
    } else {
        Seq::<char>::empty()
    }) + (if c.shift {
        "Shift + "@
    } else {
        Seq::<char>::empty()
    }) + (if c.win {
        "Win + "@
    } else {
        Seq::<char>::empty()
    }) + c.key@
}

impl HotkeyConfig {
    /// Renders the chord for menus, tooltips and notifications.
    pub fn display(&self) -> (r: String)
        ensures
            r@ == display_seq(*self),
    {
        let mut r = String::new();
        if self.ctrl {
            r.append("Ctrl + ");
        }
        if self.alt {
            r.append("Alt + ");
        }
        if self.shift {
            r.append("Shift + ");
        }
        if self.win {
            r.append("Win + ");
        }
        r.append(self.key.as_str());
        proof {
            assert(r@ =~= display_seq(*self));
        }
        r
    }
}

/// Modifier bit values as the OS defines them for global hotkeys:
/// Alt = 1, Ctrl = 2, Shift = 4, Win = 8, and the flag 0x4000 that
/// suppresses auto-repeat while the chord is held.
pub const MOD_ALT_BIT: u32 = 1;

pub const MOD_CONTROL_BIT: u32 = 2;

pub const MOD_SHIFT_BIT: u32 = 4;

pub const MOD_WIN_BIT: u32 = 8;

pub const MOD_NOREPEAT_BIT: u32 = 0x4000;

/// The mask handed to the OS when the chord is registered: the no-repeat
/// flag plus the bit of each enabled modifier.
pub open spec fn modifier_mask_spec(ctrl: bool, alt: bool, shift: bool, win: bool) -> u32 {
    (MOD_NOREPEAT_BIT + (if ctrl {
        MOD_CONTROL_BIT as int
    } else {
        0
    }) + (if alt {
        MOD_ALT_BIT as int
    } else {
        0
    }) + (if shift {
        MOD_SHIFT_BIT as int
    } else {
        0
    }) + (if win {
        MOD_WIN_BIT as int
    } else {
        0
    })) as u32
}

impl HotkeyConfig {
    /// The modifier mask of this chord.
    pub fn get_modifiers(&self) -> (r: u32)
        ensures
            r == modifier_mask_spec(self.ctrl, self.alt, self.shift, self.win),
    {
        let mut mods: u32 = MOD_NOREPEAT_BIT;
        if self.ctrl {
            mods = mods + MOD_CONTROL_BIT;
        }
        if self.alt {
            mods = mods + MOD_ALT_BIT;
        }
        if self.shift {
            mods = mods + MOD_SHIFT_BIT;
        }
        if self.win {
            mods = mods + MOD_WIN_BIT;
        }
        mods
    }
}

/// The no-repeat flag is always present in the mask, and each modifier
/// contributes exactly its own bit: reading a bit back tells whether that
/// modifier was enabled, independently of the other three.
pub proof fn lemma_modifier_mask_bits(ctrl: bool, alt: bool, shift: bool, win: bool)
    ensures
        modifier_mask_spec(ctrl, alt, shift, win) & MOD_NOREPEAT_BIT == MOD_NOREPEAT_BIT,
        modifier_mask_spec(ctrl, alt, shift, win) & MOD_CONTROL_BIT == (if ctrl {
            MOD_CONTROL_BIT
        } else {
            0u32
        }),
        modifier_mask_spec(ctrl, alt, shift, win) & MOD_ALT_BIT == (if alt {
            MOD_ALT_BIT
        } else {
            0u32
        }),
        modifier_mask_spec(ctrl, alt, shift, win) & MOD_SHIFT_BIT == (if shift {
            MOD_SHIFT_BIT
        } else {
            0u32
        }),
        modifier_mask_spec(ctrl, alt, shift, win) & MOD_WIN_BIT == (if win {
            MOD_WIN_BIT
        } else {
            0u32
        }),
{
    let cv: u32 = if ctrl { 2 } else { 0 };
    let av: u32 = if alt { 1 } else { 0 };
    let sv: u32 = if shift { 4 } else { 0 };
    let wv: u32 = if win { 8 } else { 0 };
    assert(modifier_mask_spec(ctrl, alt, shift, win) == (0x4000 + cv + av + sv + wv) as u32);
    assert(((0x4000 + cv + av + sv + wv) as u32) & 0x4000u32 == 0x4000u32 && ((0x4000 + cv + av
        + sv + wv) as u32) & 2u32 == cv && ((0x4000 + cv + av + sv + wv) as u32) & 1u32 == av && ((
    0x4000 + cv + av + sv + wv) as u32) & 4u32 == sv && ((0x4000 + cv + av + sv + wv) as u32)
        & 8u32 == wv) by (bit_vector)
        requires
            (cv == 0 || cv == 2) && (av == 0 || av == 1) && (sv == 0 || sv == 4) && (wv == 0 || wv
                == 8),
    ;
}

/// Enabling one modifier, the other three held fixed, adds exactly that
/// modifier's bit to the mask.
pub proof fn lemma_modifier_mask_monotonic(ctrl: bool, alt: bool, shift: bool, win: bool)
    ensures
        modifier_mask_spec(true, alt, shift, win) == modifier_mask_spec(false, alt, shift, win)
            + MOD_CONTROL_BIT,
        modifier_mask_spec(ctrl, true, shift, win) == modifier_mask_spec(ctrl, false, shift, win)
            + MOD_ALT_BIT,
        modifier_mask_spec(ctrl, alt, true, win) == modifier_mask_spec(ctrl, alt, false, win)
            + MOD_SHIFT_BIT,
        modifier_mask_spec(ctrl, alt, shift, true) == modifier_mask_spec(ctrl, alt, shift, false)
            + MOD_WIN_BIT,
{
}

/// The sixteen modifier combinations give sixteen distinct masks: two
/// chords with the same mask enable the same modifiers.
pub proof fn lemma_modifier_mask_roundtrip(
    ctrl1: bool,
    alt1: bool,
    shift1: bool,
    win1: bool,
    ctrl2: bool,
    alt2: bool,
    shift2: bool,
    win2: bool,
)
    requires
        modifier_mask_spec(ctrl1, alt1, shift1, win1) == modifier_mask_spec(
            ctrl2,
            alt2,
            shift2,
            win2,
        ),
    ensures
        ctrl1 == ctrl2,
        alt1 == alt2,
        shift1 == shift2,
        win1 == win2,
{
    lemma_modifier_mask_bits(ctrl1, alt1, shift1, win1);
    lemma_modifier_mask_bits(ctrl2, alt2, shift2, win2);
}

/// Upper-case fold of one character: ASCII letters are folded, everything
/// else is left alone. Key names are compared under this fold.
pub open spec fn upper_char(c: char) -> char {
    if 97 <= c as u32 && c as u32 <= 122 {
        ((c as u32 - 32) as u32) as char
    } else {
        c
    }
}

/// A key name folded to upper case, character by character.
pub open spec fn upper_seq(s: Seq<char>) -> Seq<char> {
    s.map_values(|c: char| upper_char(c))
}

/// Whether one character of the key, folded to upper case, equals one
/// character of an upper-case name.
fn char_matches_upper(kc: char, nc: char) -> (r: bool)
    ensures
        r == (upper_char(kc) == nc),
{
    broadcast use vstd::utf8::char_u32_cast;

    let ku = kc as u32;
    let nu = nc as u32;
    if 97 <= ku && ku <= 122 {
        proof {
            assert(upper_char(kc) as u32 == ku - 32);
            if nu == ku - 32 {
                assert((nu as char) == nc);
                assert((nu as char) == upper_char(kc));
            }
        }
        nu == ku - 32
    } else {
        proof {
            if nu == ku {
                assert((nu as char) == nc);
                assert((ku as char) == kc);
            }
        }
        nu == ku
    }
}

/// Whether the key, folded to upper case, equals the given upper-case name.
fn key_upper_matches(key: &str, name: &str) -> (r: bool)
    ensures
        r == (upper_seq(key@) == name@),
{
    let klen = key.unicode_len();
    let nlen = name.unicode_len();
    if klen != nlen {
        return false;
    }
    let mut i: usize = 0;
    while i < klen
        invariant
            i <= klen,
            klen == key@.len(),
            klen == name@.len(),
            forall|j: int| 0 <= j < i ==> upper_char(key@[j]) == name@[j],
        decreases klen - i,
    {
        let kc = key.get_char(i);
        let nc = name.get_char(i);
        if !char_matches_upper(kc, nc) {
            proof {
                assert(upper_seq(key@)[i as int] != name@[i as int]);
            }
            return false;
        }
        i = i + 1;
    }
    proof {
        assert(upper_seq(key@) =~= name@);
    }
    true
}

/// The platform key code of a single character that stands as its own key
/// name, already folded to upper case: letters and digits map to their
/// code point, the punctuation keys to the OEM codes the OS assigns them.
pub open spec fn vk_of_single(c: char) -> Option<u32> {
    let x = c as u32;
    if 65 <= x && x <= 90 {
        Some(x)
    } else if 48 <= x && x <= 57 {
        Some(x)
    } else if c == '`' || c == '~' {
        Some(0xC0u32)
    } else if c == '-' || c == '_' {
        Some(0xBDu32)
    } else if c == '=' || c == '+' {
        Some(0xBBu32)
    } else if c == '[' || c == '{' {
        Some(0xDBu32)
    } else if c == ']' || c == '}' {
        Some(0xDDu32)
    } else if c == '\\' || c == '|' {
        Some(0xDCu32)
    } else if c == ';' || c == ':' {
        Some(0xBAu32)
    } else if c == '\'' || c == '"' {
        Some(0xDEu32)
    } else if c == ',' || c == '<' {
        Some(0xBCu32)
    } else if c == '.' || c == '>' {
        Some(0xBEu32)
    } else if c == '/' || c == '?' {
        Some(0xBFu32)
    } else {
        None
    }
}

/// The platform key code of an upper-case key name: the function keys,
/// the named special and navigation keys with their aliases, the numeric
/// keypad, and single-character names.
pub open spec fn vk_of(u: Seq<char>) -> Option<u32> {
    if u == "F1"@ {
        Some(0x70u32)
    } else if u == "F2"@ {
        Some(0x71u32)
    } else if u == "F3"@ {
        Some(0x72u32)
    } else if u == "F4"@ {
        Some(0x73u32)
    } else if u == "F5"@ {
        Some(0x74u32)
    } else if u == "F6"@ {
        Some(0x75u32)
    } else if u == "F7"@ {
        Some(0x76u32)
    } else if u == "F8"@ {
        Some(0x77u32)
    } else if u == "F9"@ {
        Some(0x78u32)
    } else if u == "F10"@ {
        Some(0x79u32)
    } else if u == "F11"@ {
        Some(0x7Au32)
    } else if u == "F12"@ {
        Some(0x7Bu32)
    } else if u == "SPACE"@ {
        Some(0x20u32)
    } else if u == "ENTER"@ || u == "RETURN"@ {
        Some(0x0Du32)
    } else if u == "TAB"@ {
        Some(0x09u32)
    } else if u == "ESCAPE"@ || u == "ESC"@ {
        Some(0x1Bu32)
    } else if u == "BACKSPACE"@ {
        Some(0x08u32)
    } else if u == "DELETE"@ || u == "DEL"@ {
        Some(0x2Eu32)
    } else if u == "INSERT"@ || u == "INS"@ {
        Some(0x2Du32)
    } else if u == "HOME"@ {
        Some(0x24u32)
    } else if u == "END"@ {
        Some(0x23u32)
    } else if u == "PAGEUP"@ || u == "PGUP"@ {
        Some(0x21u32)
    } else if u == "PAGEDOWN"@ || u == "PGDN"@ {
        Some(0x22u32)
    } else if u == "UP"@ {
        Some(0x26u32)
    } else if u == "DOWN"@ {
        Some(0x28u32)
    } else if u == "LEFT"@ {
        Some(0x25u32)
    } else if u == "RIGHT"@ {
        Some(0x27u32)
    } else if u == "NUMPAD0"@ || u == "NUM0"@ {
        Some(0x60u32)
    } else if u == "NUMPAD1"@ || u == "NUM1"@ {
        Some(0x61u32)
    } else if u == "NUMPAD2"@ || u == "NUM2"@ {
        Some(0x62u32)
    } else if u == "NUMPAD3"@ || u == "NUM3"@ {
        Some(0x63u32)
    } else if u == "NUMPAD4"@ || u == "NUM4"@ {
        Some(0x64u32)
    } else if u == "NUMPAD5"@ || u == "NUM5"@ {
        Some(0x65u32)
    } else if u == "NUMPAD6"@ || u == "NUM6"@ {
        Some(0x66u32)
    } else if u == "NUMPAD7"@ || u == "NUM7"@ {
        Some(0x67u32)
    } else if u == "NUMPAD8"@ || u == "NUM8"@ {
        Some(0x68u32)
    } else if u == "NUMPAD9"@ || u == "NUM9"@ {
        Some(0x69u32)
    } else if u.len() == 1 {
        vk_of_single(u[0])
    } else {
        None
    }
}

/// What a key name resolves to: the code of its upper-case form, if any.
pub open spec fn vk_resolve(key: Seq<char>) -> Option<u32> {
    vk_of(upper_seq(key))
}

impl HotkeyConfig {
    /// The platform key code of the chord's key name, compared without
    /// regard to ASCII case; nothing for an unrecognized name.
    #[verifier::rlimit(30)]
    pub fn get_vk_code(&self) -> (r: Option<u32>)
        ensures
            r == vk_resolve(self.key@),
    {
        broadcast use vstd::utf8::char_u32_cast;

        let k: &str = self.key.as_str();
        if key_upper_matches(k, "F1") {
            return Some(0x70);
        }
        if key_upper_matches(k, "F2") {
            return Some(0x71);
        }
        if key_upper_matches(k, "F3") {
            return Some(0x72);
        }
        if key_upper_matches(k, "F4") {
            return Some(0x73);
        }
        if key_upper_matches(k, "F5") {
            return Some(0x74);
        }
        if key_upper_matches(k, "F6") {
            return Some(0x75);
        }
        if key_upper_matches(k, "F7") {
            return Some(0x76);
        }
        if key_upper_matches(k, "F8") {
            return Some(0x77);
        }
        if key_upper_matches(k, "F9") {
            return Some(0x78);
        }
        if key_upper_matches(k, "F10") {
            return Some(0x79);
        }
        if key_upper_matches(k, "F11") {
            return Some(0x7A);
        }
        if key_upper_matches(k, "F12") {
            return Some(0x7B);
        }
        if key_upper_matches(k, "SPACE") {
            return Some(0x20);
        }
        if key_upper_matches(k, "ENTER") || key_upper_matches(k, "RETURN") {
            return Some(0x0D);
        }
        if key_upper_matches(k, "TAB") {
            return Some(0x09);
        }
        if key_upper_matches(k, "ESCAPE") || key_upper_matches(k, "ESC") {
            return Some(0x1B);
        }
        if key_upper_matches(k, "BACKSPACE") {
            return Some(0x08);
        }
        if key_upper_matches(k, "DELETE") || key_upper_matches(k, "DEL") {
            return Some(0x2E);
        }
        if key_upper_matches(k, "INSERT") || key_upper_matches(k, "INS") {
            return Some(0x2D);
        }
        if key_upper_matches(k, "HOME") {
            return Some(0x24);
        }
        if key_upper_matches(k, "END") {
            return Some(0x23);
        }
        if key_upper_matches(k, "PAGEUP") || key_upper_matches(k, "PGUP") {
            return Some(0x21);
        }
        if key_upper_matches(k, "PAGEDOWN") || key_upper_matches(k, "PGDN") {
            return Some(0x22);
        }
        if key_upper_matches(k, "UP") {
            return Some(0x26);
        }
        if key_upper_matches(k, "DOWN") {
            return Some(0x28);
        }
        if key_upper_matches(k, "LEFT") {
            return Some(0x25);
        }
        if key_upper_matches(k, "RIGHT") {
            return Some(0x27);
        }
        if key_upper_matches(k, "NUMPAD0") || key_upper_matches(k, "NUM0") {
            return Some(0x60);
        }
        if key_upper_matches(k, "NUMPAD1") || key_upper_matches(k, "NUM1") {
            return Some(0x61);
        }
        if key_upper_matches(k, "NUMPAD2") || key_upper_matches(k, "NUM2") {
            return Some(0x62);
        }
        if key_upper_matches(k, "NUMPAD3") || key_upper_matches(k, "NUM3") {
            return Some(0x63);
        }
        if key_upper_matches(k, "NUMPAD4") || key_upper_matches(k, "NUM4") {
            return Some(0x64);
        }
        if key_upper_matches(k, "NUMPAD5") || key_upper_matches(k, "NUM5") {
            return Some(0x65);
        }
        if key_upper_matches(k, "NUMPAD6") || key_upper_matches(k, "NUM6") {
            return Some(0x66);
        }
        if key_upper_matches(k, "NUMPAD7") || key_upper_matches(k, "NUM7") {
            return Some(0x67);
        }
        if key_upper_matches(k, "NUMPAD8") || key_upper_matches(k, "NUM8") {
            return Some(0x68);
        }
        if key_upper_matches(k, "NUMPAD9") || key_upper_matches(k, "NUM9") {
            return Some(0x69);
        }
        if k.unicode_len() == 1 {
            let c0 = k.get_char(0);
            let cu = c0 as u32;
            let x: u32 = if 97 <= cu && cu <= 122 {
                cu - 32
            } else {
                cu
            };
            proof {
                assert(upper_seq(k@) =~= seq![upper_char(k@[0])]);
                assert(upper_char(k@[0]) as u32 == x);
            }
            if 65 <= x && x <= 90 {
                return Some(x);
            }
            if 48 <= x && x <= 57 {
                return Some(x);
            }
            proof {
                assert((cu as char) == c0);
                assert((cu as char) == upper_char(k@[0]));
            }
            if c0 == '`' || c0 == '~' {
                return Some(0xC0);
            }
            if c0 == '-' || c0 == '_' {
                return Some(0xBD);
            }
            if c0 == '=' || c0 == '+' {
                return Some(0xBB);
            }
            if c0 == '[' || c0 == '{' {
                return Some(0xDB);
            }
            if c0 == ']' || c0 == '}' {
                return Some(0xDD);
            }
            if c0 == '\\' || c0 == '|' {
                return Some(0xDC);
            }
            if c0 == ';' || c0 == ':' {
                return Some(0xBA);
            }
            if c0 == '\'' || c0 == '"' {
                return Some(0xDE);
            }
            if c0 == ',' || c0 == '<' {
                return Some(0xBC);
            }
            if c0 == '.' || c0 == '>' {
                return Some(0xBE);
            }
            if c0 == '/' || c0 == '?' {
                return Some(0xBF);
            }
        }
        None
    }
}

/// The text form of one switch value.
pub open spec fn bool_seq(b: bool) -> Seq<char> {
    if b {
        "true"@
    } else {
        "false"@
    }
}

fn bool_str(b: bool) -> (r: &'static str)
    ensures
        r@ == bool_seq(b),
{
    if b {
        "true"
    } else {
        "false"
    }
}

/// The settings file as text: the commented template with the seven
/// values written into it.
pub open spec fn toml_seq(c: Config) -> Seq<char> {
    "# =====================================================\n# 窗口置顶工具配置文件\n# Window TopMost Tool Configuration\n# =====================================================\n\n# 快捷键配置\n# Hotkey Configuration\n[hotkey]\n# 修饰键 (true/false)\nctrl = "@
        + bool_seq(c.hotkey.ctrl) + "\nalt = "@ + bool_seq(c.hotkey.alt) + "\nshift = "@
        + bool_seq(c.hotkey.shift) + "\nwin = "@ + bool_seq(c.hotkey.win)
        + "\n\n# 主键 (支持: A-Z, 0-9, F1-F12, Space, Enter, Tab, Escape, 方向键等)\n# Examples: \"Space\", \"T\", \"F9\", \"Enter\"\nkey = \""@
        + c.hotkey.key@
        + "\"\n\n# 设置\n# Settings\n[settings]\n# 是否显示提示气泡 (true/false)\nshow_notification = "@
        + bool_seq(c.settings.show_notification)
        + "\n\n# 是否播放提示音 (true/false)\nplay_sound = "@ + bool_seq(c.settings.play_sound)
        + "\n"@
}

impl Config {
    /// Renders the configuration as the commented settings file text.
    pub fn to_toml_string(&self) -> (r: String)
        ensures
            r@ == toml_seq(*self),
    {
        let mut s = String::from_str(
            "# =====================================================\n# 窗口置顶工具配置文件\n# Window TopMost Tool Configuration\n# =====================================================\n\n# 快捷键配置\n# Hotkey Configuration\n[hotkey]\n# 修饰键 (true/false)\nctrl = ",
        );
        s.append(bool_str(self.hotkey.ctrl));
        s.append("\nalt = ");
        s.append(bool_str(self.hotkey.alt));
        s.append("\nshift = ");
        s.append(bool_str(self.hotkey.shift));
        s.append("\nwin = ");
        s.append(bool_str(self.hotkey.win));
        s.append(
            "\n\n# 主键 (支持: A-Z, 0-9, F1-F12, Space, Enter, Tab, Escape, 方向键等)\n# Examples: \"Space\", \"T\", \"F9\", \"Enter\"\nkey = \"",
        );
        s.append(self.hotkey.key.as_str());
        s.append(
            "\"\n\n# 设置\n# Settings\n[settings]\n# 是否显示提示气泡 (true/false)\nshow_notification = ",
        );
        s.append(bool_str(self.settings.show_notification));
        s.append("\n\n# 是否播放提示音 (true/false)\nplay_sound = ");
        s.append(bool_str(self.settings.play_sound));
        s.append("\n");
        proof {
            assert(s@ =~= toml_seq(*self));
        }
        s
    }
}

/// Key names resolve without regard to case: two spellings with the same
/// upper-case form resolve alike.
pub proof fn lemma_resolve_case_insensitive(a: Seq<char>, b: Seq<char>)
    requires
        upper_seq(a) == upper_seq(b),
    ensures
        vk_resolve(a) == vk_resolve(b),
{
}

/// Folding to upper case twice is folding once, so the upper-case
/// spelling of a recognized name is itself recognized, with the same code.
pub proof fn lemma_upper_seq_idempotent(s: Seq<char>)
    ensures
        upper_seq(upper_seq(s)) == upper_seq(s),
{
    assert forall|i: int| 0 <= i < s.len() implies upper_char(upper_char(s[i])) == upper_char(
        s[i],
    ) by {
        let c = s[i];
        if 97 <= c as u32 && c as u32 <= 122 {
            assert(upper_char(c) as u32 == c as u32 - 32);
        }
    }
    assert(upper_seq(upper_seq(s)) =~= upper_seq(s));
}

} // verus!
