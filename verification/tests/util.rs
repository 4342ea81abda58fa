use device_query::Keycode;
use tistow::config::{Config, General, Platform, Search, Style, Window};
use tistow::session::HotkeyEvent;
use tistow::util::{
    get_shortcuts, hex_to_color32, hotkey_codes, is_hotkey_pressed, is_script, keeps_file,
    poll_hotkey, walk_plan, Rgb, ShortcutRule, WalkPlan, WalkedFile,
};

fn walked(path: &str) -> WalkedFile {
    let file_name = path.rsplit(|c| c == '/' || c == '\\').next().unwrap_or("").to_string();
    WalkedFile { path: path.to_string(), file_name }
}

#[test]
fn hotkey_needs_all_its_keys() {
    assert!(is_hotkey_pressed(&vec![7, 3, 9], &vec![3, 7]));
    assert!(is_hotkey_pressed(&vec![3, 7], &vec![3, 7]));
    assert!(!is_hotkey_pressed(&vec![3], &vec![3, 7]));
    assert!(!is_hotkey_pressed(&vec![], &vec![3]));
    assert!(is_hotkey_pressed(&vec![1], &vec![]));
    assert!(is_hotkey_pressed(&vec![3, 3], &vec![3, 3, 3]));
}

#[test]
fn hotkey_test_takes_keys_in_any_order_and_number() {
    assert!(is_hotkey_pressed(&vec![9, 9, 3, 7, 3], &vec![7, 3, 7]));
    assert!(!is_hotkey_pressed(&vec![9, 9, 3, 3], &vec![7, 3]));
    assert!(is_hotkey_pressed(&vec![], &vec![]));
}

#[test]
fn poller_reports_a_held_hotkey() {
    assert_eq!(poll_hotkey(&vec![1, 2, 3], &vec![1, 3]), Some(HotkeyEvent::Open));
    assert_eq!(poll_hotkey(&vec![1, 2], &vec![1, 3]), None);
}

#[test]
fn hotkey_names_are_read() {
    let names = vec!["LAlt".to_string(), "Backspace".to_string()];
    assert_eq!(
        hotkey_codes(&names),
        Some(vec![Keycode::LAlt as u32, Keycode::Backspace as u32])
    );
    assert_eq!(hotkey_codes(&vec!["F12".to_string()]), Some(vec![Keycode::F12 as u32]));
    assert_eq!(hotkey_codes(&vec![]), Some(vec![]));
    assert_ne!(hotkey_codes(&vec!["A".to_string()]), hotkey_codes(&vec!["B".to_string()]));
}

#[test]
fn unknown_key_names_are_refused() {
    assert_eq!(hotkey_codes(&vec!["LAlt".to_string(), "NoSuchKey".to_string()]), None);
    assert_eq!(hotkey_codes(&vec!["lalt".to_string()]), None);
    assert_eq!(hotkey_codes(&vec![String::new()]), None);
}

#[test]
fn default_hotkey_is_pressed_when_both_keys_are_down() {
    let hotkey = hotkey_codes(&General::default().hotkey).unwrap();
    let down = vec![Keycode::Backspace as u32, Keycode::A as u32, Keycode::LAlt as u32];
    assert!(is_hotkey_pressed(&down, &hotkey));
    assert!(!is_hotkey_pressed(&vec![Keycode::LAlt as u32], &hotkey));
}

#[test]
fn colours_are_read_from_hex() {
    assert_eq!(hex_to_color32("#1e1e2e"), Some(Rgb { r: 0x1e, g: 0x1e, b: 0x2e }));
    assert_eq!(hex_to_color32("FFffFF"), Some(Rgb { r: 255, g: 255, b: 255 }));
    assert_eq!(hex_to_color32("000000"), Some(Rgb { r: 0, g: 0, b: 0 }));
    assert_eq!(hex_to_color32("##0a0B0c"), Some(Rgb { r: 10, g: 11, b: 12 }));
    assert_eq!(hex_to_color32("#102030ff"), Some(Rgb { r: 16, g: 32, b: 48 }));
    assert_eq!(hex_to_color32("+a+b+c"), Some(Rgb { r: 10, g: 11, b: 12 }));
}

#[test]
fn what_is_no_colour_is_refused() {
    assert_eq!(hex_to_color32(""), None);
    assert_eq!(hex_to_color32("#"), None);
    assert_eq!(hex_to_color32("#12345"), None);
    assert_eq!(hex_to_color32("#12345g"), None);
    assert_eq!(hex_to_color32("12#456"), None);
    assert_eq!(hex_to_color32("#1+3456"), None);
    assert_eq!(hex_to_color32("-10000"), None);
    assert_eq!(hex_to_color32("#ééé"), None);
    assert_eq!(hex_to_color32("#12345é"), None);
}

#[test]
fn start_menu_links_are_shortcuts() {
    let ignore = vec!["C:\\Menu\\Programs\\Startup".to_string()];
    let rule = ShortcutRule::StartMenu;
    assert!(keeps_file(rule, &ignore, &walked("C:\\Menu\\Programs\\Paint.lnk")));
    assert!(keeps_file(rule, &ignore, &walked("C:\\Menu\\Programs\\Site.URL")));
    assert!(!keeps_file(rule, &ignore, &walked("C:\\Menu\\Programs\\readme.txt")));
    assert!(!keeps_file(rule, &ignore, &walked("C:\\Menu\\Programs\\lnk")));
    assert!(!keeps_file(rule, &ignore, &walked("C:\\Menu\\Programs\\Paint.lnk.bak")));
    assert!(!keeps_file(rule, &ignore, &walked("c:\\menu\\programs\\STARTUP\\Agent.lnk")));
    assert!(keeps_file(rule, &vec![], &walked("c:\\menu\\programs\\STARTUP\\Agent.lnk")));
}

#[test]
fn bundles_are_shortcuts_unless_hidden() {
    let rule = ShortcutRule::Bundles;
    assert!(keeps_file(rule, &vec![], &walked("/Applications/Safari.app")));
    assert!(!keeps_file(rule, &vec![], &walked("/Applications/.Hidden.app")));
    assert!(!keeps_file(rule, &vec![], &walked("/Applications/Safari.App")));
    assert!(!keeps_file(rule, &vec![], &walked("/Applications/notes.txt")));
    assert!(keeps_file(rule, &vec!["/Applications".to_string()], &walked("/Applications/Safari.app")));
}

#[test]
fn shortcuts_keep_the_order_of_the_walk() {
    let files = vec![
        walked("C:\\Menu\\Zed.lnk"),
        walked("C:\\Menu\\notes.txt"),
        walked("C:\\Menu\\Startup\\Agent.lnk"),
        walked("C:\\Menu\\Alpha.url"),
        walked("C:\\Menu\\Zed.lnk"),
    ];
    let ignore = vec!["c:\\menu\\startup".to_string()];
    assert_eq!(
        get_shortcuts(ShortcutRule::StartMenu, &files, &ignore),
        vec![
            "C:\\Menu\\Zed.lnk".to_string(),
            "C:\\Menu\\Alpha.url".to_string(),
            "C:\\Menu\\Zed.lnk".to_string(),
        ]
    );
    assert_eq!(get_shortcuts(ShortcutRule::Bundles, &files, &ignore), Vec::<String>::new());
    assert_eq!(get_shortcuts(ShortcutRule::StartMenu, &vec![], &ignore), Vec::<String>::new());
}

#[test]
fn each_platform_has_its_plan() {
    assert_eq!(
        walk_plan(Platform::Windows),
        Some(WalkPlan { rule: ShortcutRule::StartMenu, max_depth: None })
    );
    assert_eq!(
        walk_plan(Platform::MacOs),
        Some(WalkPlan { rule: ShortcutRule::Bundles, max_depth: Some(5) })
    );
    assert_eq!(walk_plan(Platform::Linux), None);
}

#[test]
fn scripts_have_the_lua_extension() {
    assert!(is_script("lua"));
    assert!(!is_script("Lua"));
    assert!(!is_script("luac"));
    assert!(!is_script(""));
}

#[test]
fn window_defaults() {
    assert_eq!(Window::default(), Window { width: 640, height: 320, x: 640, y: 380 });
}

#[test]
fn general_defaults() {
    assert_eq!(General::default().hotkey, vec!["LAlt".to_string(), "Backspace".to_string()]);
}

#[test]
fn style_defaults_to_nothing_set() {
    let style = Style::default();
    assert_eq!(
        style,
        Style {
            font: None,
            bg_color: None,
            input_bg_color: None,
            hovered_bg_color: None,
            selected_bg_color: None,
            text_color: None,
            stroke_color: None,
        }
    );
}

#[test]
fn search_defaults_follow_the_platform() {
    let windows = Search::for_platform(Platform::Windows);
    assert_eq!(
        windows.shortcut_paths,
        vec![
            "${AppData}\\Microsoft\\Windows\\Start Menu".to_string(),
            "${ProgramData}\\Microsoft\\Windows\\Start Menu".to_string(),
        ]
    );
    assert_eq!(
        windows.ignore_paths,
        vec!["${AppData}\\Microsoft\\Windows\\Start Menu\\Programs\\Startup".to_string()]
    );
    assert_eq!(windows.aliases.get("note"), None);
    let mac = Search::for_platform(Platform::MacOs);
    assert_eq!(
        mac.shortcut_paths,
        vec![
            "/Applications".to_string(),
            "/System/Applications".to_string(),
            "${HOME}/Applications".to_string(),
        ]
    );
    assert_eq!(mac.ignore_paths, Vec::<String>::new());
    let linux = Search::for_platform(Platform::Linux);
    assert_eq!(
        linux.shortcut_paths,
        vec![
            "/usr/share/applications".to_string(),
            "/usr/local/share/applications".to_string(),
            "${HOME}/.local/share/applications".to_string(),
        ]
    );
    assert_eq!(linux.ignore_paths, Vec::<String>::new());
}

#[test]
fn config_defaults_are_those_of_its_parts() {
    let config = Config::for_platform(Platform::Linux);
    assert_eq!(config.window, Window::default());
    assert_eq!(config.general, General::default());
    assert_eq!(config.style, Style::default());
    assert_eq!(config.search.shortcut_paths, Search::for_platform(Platform::Linux).shortcut_paths);
}
