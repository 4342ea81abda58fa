//! The configuration and its defaults.

use vstd::prelude::*;
use vstd::string::StringExecFns;
use crate::aliases::AliasTable;

verus! {

/// The characters of each string of a list.
pub open spec fn texts_of(list: Seq<String>) -> Seq<Seq<char>> {
    list.map_values(|s: String| s@)
}

/// Size and place of the overlay's window, in pixels.
#[derive(Clone, Debug, PartialEq, Eq)]
pub struct Window {
    pub width: u32,
    pub height: u32,
    pub x: u32,
    pub y: u32,
}

impl Default for Window {
    fn default() -> (window: Window)
        ensures
            window.width == 640,
            window.height == 320,
            window.x == 640,
            window.y == 380,
    {
        Window { width: 640, height: 320, x: 640, y: 380 }
    }
}

/// General settings.
#[derive(Clone, Debug, PartialEq, Eq)]
pub struct General {
    /// The names of the keys that summon the overlay when held together.
    pub hotkey: Vec<String>,
}

impl Default for General {
    fn default() -> (general: General)
        ensures
            texts_of(general.hotkey@) == seq!["LAlt"@, "Backspace"@],
    {
        let hotkey = vec![String::from_str("LAlt"), String::from_str("Backspace")];
        General { hotkey }
    }
}

/// Font and colours. A colour is a hexadecimal `rrggbb`, with or without a
/// leading `#`; what is left out keeps the toolkit's default.
#[derive(Clone, Debug, PartialEq, Eq)]
pub struct Style {
    pub font: Option<String>,
    pub bg_color: Option<String>,
    pub input_bg_color: Option<String>,
    pub hovered_bg_color: Option<String>,
    pub selected_bg_color: Option<String>,
    pub text_color: Option<String>,
    pub stroke_color: Option<String>,
}

impl Default for Style {
    fn default() -> (style: Style)
        ensures
            style.font is None,
            style.bg_color is None,
            style.input_bg_color is None,
            style.hovered_bg_color is None,
            style.selected_bg_color is None,
            style.text_color is None,
            style.stroke_color is None,
    {
        Style {
            font: None,
            bg_color: None,
            input_bg_color: None,
            hovered_bg_color: None,
            selected_bg_color: None,
            text_color: None,
            stroke_color: None,
        }
    }
}

/// The operating systems with defaults of their own.
#[derive(Clone, Copy, Debug, PartialEq, Eq, Structural)]
pub enum Platform {
    Windows,
    MacOs,
    Linux,
}

/// Where shortcuts are looked for by default. Variables of the form
/// `${NAME}` stand for the environment's values.
pub open spec fn default_shortcut_paths(platform: Platform) -> Seq<Seq<char>> {
    match platform {
        Platform::Windows => seq![
            "${AppData}\\Microsoft\\Windows\\Start Menu"@,
            "${ProgramData}\\Microsoft\\Windows\\Start Menu"@,
        ],
        Platform::MacOs => seq![
            "/Applications"@,
            "/System/Applications"@,
            "${HOME}/Applications"@,
        ],
        Platform::Linux => seq![
            "/usr/share/applications"@,
            "/usr/local/share/applications"@,
            "${HOME}/.local/share/applications"@,
        ],
    }
}

/// The directories that are left out by default.
pub open spec fn default_ignore_paths(platform: Platform) -> Seq<Seq<char>> {
    match platform {
        Platform::Windows => seq![
            "${AppData}\\Microsoft\\Windows\\Start Menu\\Programs\\Startup"@,
        ],
        Platform::MacOs => Seq::empty(),
        Platform::Linux => Seq::empty(),
    }
}

/// Settings of the search: where the shortcuts are, and the aliases.
#[derive(Clone, Debug)]
pub struct Search {
    pub shortcut_paths: Vec<String>,
    pub ignore_paths: Vec<String>,
    pub aliases: AliasTable,
}

impl Search {
    /// The defaults of a platform: its usual directories, and no alias.
    pub fn for_platform(platform: Platform) -> (search: Search)
        ensures
            texts_of(search.shortcut_paths@) == default_shortcut_paths(platform),
            texts_of(search.ignore_paths@) == default_ignore_paths(platform),
            search.aliases@ == Map::<Seq<char>, Seq<char>>::empty(),
    {
        let shortcut_paths = match platform {
            Platform::Windows => vec![
                String::from_str("${AppData}\\Microsoft\\Windows\\Start Menu"),
                String::from_str("${ProgramData}\\Microsoft\\Windows\\Start Menu"),
            ],
            Platform::MacOs => vec![
                String::from_str("/Applications"),
                String::from_str("/System/Applications"),
                String::from_str("${HOME}/Applications"),
            ],
            Platform::Linux => vec![
                String::from_str("/usr/share/applications"),
                String::from_str("/usr/local/share/applications"),
                String::from_str("${HOME}/.local/share/applications"),
            ],
        };
        let ignore_paths = match platform {
            Platform::Windows => vec![
                String::from_str("${AppData}\\Microsoft\\Windows\\Start Menu\\Programs\\Startup"),
            ],
            Platform::MacOs => Vec::new(),
            Platform::Linux => Vec::new(),
        };
        Search { shortcut_paths, ignore_paths, aliases: AliasTable::new() }
    }
}

/// The whole configuration.
#[derive(Clone, Debug)]
pub struct Config {
    pub window: Window,
    pub search: Search,
    pub general: General,
    pub style: Style,
}

impl Config {
    /// The configuration that is in force where the user has set nothing.
    pub fn for_platform(platform: Platform) -> (config: Config)
        ensures
            config.window.width == 640,
            config.window.height == 320,
            config.window.x == 640,
            config.window.y == 380,
            texts_of(config.search.shortcut_paths@) == default_shortcut_paths(platform),
            texts_of(config.search.ignore_paths@) == default_ignore_paths(platform),
            config.search.aliases@ == Map::<Seq<char>, Seq<char>>::empty(),
            texts_of(config.general.hotkey@) == seq!["LAlt"@, "Backspace"@],
            config.style.font is None,
            config.style.bg_color is None,
            config.style.input_bg_color is None,
            config.style.hovered_bg_color is None,
            config.style.selected_bg_color is None,
            config.style.text_color is None,
            config.style.stroke_color is None,
    {
        Config {
            window: Window::default(),
            search: Search::for_platform(platform),
            general: General::default(),
            style: Style::default(),
        }
    }
}

} // verus!
