use topmost::config::{Config, HotkeyConfig, Settings};

/// Reads a rendered settings file back with the same TOML reader the
/// deployed tool uses, taking each absent value's documented default.
fn parse_back(text: &str) -> Config {
    let table: toml::Table = text.parse().expect("the rendered file must be well-formed TOML");
    let hotkey = table.get("hotkey").and_then(|v| v.as_table());
    let settings = table.get("settings").and_then(|v| v.as_table());
    let get_bool = |t: Option<&toml::Table>, k: &str, default: bool| {
        t.and_then(|t| t.get(k)).and_then(|v| v.as_bool()).unwrap_or(default)
    };
    let key = hotkey
        .and_then(|t| t.get("key"))
        .and_then(|v| v.as_str())
        .expect("the rendered file always carries the key name");
    Config {
        hotkey: HotkeyConfig {
            ctrl: get_bool(hotkey, "ctrl", false),
            alt: get_bool(hotkey, "alt", false),
            shift: get_bool(hotkey, "shift", false),
            win: get_bool(hotkey, "win", false),
            key: String::from(key),
        },
        settings: Settings {
            show_notification: get_bool(settings, "show_notification", true),
            play_sound: get_bool(settings, "play_sound", true),
        },
    }
}

#[test]
fn default_config_survives_a_full_write_read_write_cycle() {
    let written = Config::default().to_toml_string();
    let read_back = parse_back(&written);
    assert_eq!(read_back, Config::default());
    assert_eq!(read_back.to_toml_string(), written);
}

#[test]
fn a_customized_config_survives_the_cycle() {
    let config = Config {
        hotkey: HotkeyConfig {
            ctrl: false,
            alt: true,
            shift: true,
            win: false,
            key: String::from("F9"),
        },
        settings: Settings { show_notification: false, play_sound: true },
    };
    let written = config.to_toml_string();
    let read_back = parse_back(&written);
    assert_eq!(read_back, config);
    assert_eq!(read_back.to_toml_string(), written);
}

#[test]
fn every_modifier_combination_survives_the_cycle() {
    for bits in 0u32..16 {
        let config = Config {
            hotkey: HotkeyConfig {
                ctrl: bits & 1 != 0,
                alt: bits & 2 != 0,
                shift: bits & 4 != 0,
                win: bits & 8 != 0,
                key: String::from("Space"),
            },
            settings: Settings { show_notification: bits & 1 != 0, play_sound: bits & 2 != 0 },
        };
        assert_eq!(parse_back(&config.to_toml_string()), config);
    }
}
