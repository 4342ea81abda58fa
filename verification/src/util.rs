//! Helpers around the core: the hotkey test, colours, and the choice of
//! shortcut files.

use device_query::Keycode;
use std::collections::HashSet;
use vstd::prelude::*;
use vstd::string::{StrSliceExecFns, StringExecFns};
use crate::config::{texts_of, Platform};
use crate::session::HotkeyEvent;
use crate::text::{
    chars_of, contains_text, ends_with_text, is_prefix, is_suffix, lowercase, occurs_in,
    to_lowercase,
};

verus! {

/// Whether every key of the hotkey is among the keys that are down.
pub open spec fn all_down(down: Seq<u32>, hotkey: Seq<u32>) -> bool {
    forall|i: int| 0 <= i < hotkey.len() ==> down.contains(#[trigger] hotkey[i])
}

/// The set of the keys in a list.
fn key_set(keys: &Vec<u32>) -> (set: HashSet<u32>)
    ensures
        forall|key: u32| set@.contains(key) == keys@.contains(key),
{
    broadcast use vstd::std_specs::hash::group_hash_axioms;

    let mut set: HashSet<u32> = HashSet::new();
    let mut i: usize = 0;
    while i < keys.len()
        invariant
            i <= keys@.len(),
            forall|key: u32| set@.contains(key) == keys@.take(i as int).contains(key),
        decreases keys@.len() - i,
    {
        proof {
            let before = keys@.take(i as int);
            let after = keys@.take(i + 1);
            assert forall|key: u32| after.contains(key) == (before.contains(key) || key
                == keys@[i as int]) by {
                if before.contains(key) {
                    let k = before.index_of(key);
                    assert(after[k] == key);
                }
                if key == keys@[i as int] {
                    assert(after[i as int] == key);
                }
                if after.contains(key) {
                    let k = after.index_of(key);
                    if k < i {
                        assert(before[k] == key);
                    }
                }
            }
        }
        set.insert(keys[i]);
        i = i + 1;
    }
    assert(keys@.take(i as int) =~= keys@);
    set
}

/// Whether the hotkey is pressed: all its keys are down together. Keys are
/// given by their codes. Other keys may be down as well.
pub fn is_hotkey_pressed(down: &Vec<u32>, hotkey: &Vec<u32>) -> (pressed: bool)
    ensures
        pressed == all_down(down@, hotkey@),
{
    broadcast use vstd::std_specs::hash::group_hash_axioms;

    let held = key_set(down);
    let mut i: usize = 0;
    while i < hotkey.len()
        invariant
            i <= hotkey@.len(),
            forall|key: u32| held@.contains(key) == down@.contains(key),
            forall|k: int| 0 <= k < i ==> down@.contains(#[trigger] hotkey@[k]),
        decreases hotkey@.len() - i,
    {
        if !held.contains(&hotkey[i]) {
            return false;
        }
        i = i + 1;
    }
    true
}

/// The code of the key that `device_query` knows under `name`, or `None`
/// where it knows no key of that name. The code of a key is its position in
/// the crate's list of keys, `Keycode`.
pub uninterp spec fn key_code_of(name: Seq<char>) -> Option<u32>;

/// Calls `Keycode::from_str` and takes the key it returns by its position
/// in the list of keys; `None` stands for the one error, that `name` is the
/// name of no key.
#[verifier::external_body]
fn key_code(name: &str) -> (code: Option<u32>)
    ensures
        code == key_code_of(name@),
{
    match <Keycode as std::str::FromStr>::from_str(name) {
        Ok(key) => Some(key as u32),
        Err(_) => None,
    }
}

/// Whether `codes` are the codes of the keys named `names`, one by one.
pub open spec fn codes_of(names: Seq<String>, codes: Seq<u32>) -> bool {
    &&& codes.len() == names.len()
    &&& forall|i: int|
        0 <= i < names.len() ==> key_code_of((#[trigger] names[i])@) == Some(codes[i])
}

/// Whether every name is the name of a key.
pub open spec fn all_keys(names: Seq<String>) -> bool {
    forall|i: int| 0 <= i < names.len() ==> key_code_of((#[trigger] names[i])@) is Some
}

/// Reads a hotkey from the names of its keys. Returns the codes of the
/// keys, or `None` where a name is that of no key.
pub fn hotkey_codes(names: &Vec<String>) -> (codes: Option<Vec<u32>>)
    ensures
        codes is Some == all_keys(names@),
        codes matches Some(list) ==> codes_of(names@, list@),
{
    let mut list: Vec<u32> = Vec::new();
    let mut i: usize = 0;
    while i < names.len()
        invariant
            i <= names@.len(),
            codes_of(names@.take(i as int), list@),
        decreases names@.len() - i,
    {
        match key_code(names[i].as_str()) {
            Some(code) => {
                list.push(code);
            },
            None => {
                return None;
            },
        }
        i = i + 1;
    }
    assert(names@.take(i as int) =~= names@);
    Some(list)
}

/// One round of the hotkey poller: the message to send for the keys that
/// are down. A key combination that is held is reported in every round.
pub fn poll_hotkey(down: &Vec<u32>, hotkey: &Vec<u32>) -> (event: Option<HotkeyEvent>)
    ensures
        all_down(down@, hotkey@) ==> event == Some(HotkeyEvent::Open),
        !all_down(down@, hotkey@) ==> event is None,
{
    if is_hotkey_pressed(down, hotkey) {
        Some(HotkeyEvent::Open)
    } else {
        None
    }
}

/// A colour by its red, green and blue parts.
#[derive(Clone, Copy, Debug, PartialEq, Eq, Structural)]
pub struct Rgb {
    pub r: u8,
    pub g: u8,
    pub b: u8,
}

/// The value of a hexadecimal digit.
pub open spec fn digit_value(c: char) -> Option<u8> {
    if '0' <= c <= '9' {
        Some((c as u32 - '0' as u32) as u8)
    } else if 'a' <= c <= 'f' {
        Some((c as u32 - 'a' as u32 + 10) as u8)
    } else if 'A' <= c <= 'F' {
        Some((c as u32 - 'A' as u32 + 10) as u8)
    } else {
        None
    }
}

/// The value of two characters read as a hexadecimal number. A plus sign may
/// stand in place of the first digit.
pub open spec fn pair_value(high: char, low: char) -> Option<u8> {
    if high == '+' {
        digit_value(low)
    } else {
        match (digit_value(high), digit_value(low)) {
            (Some(h), Some(l)) => Some((h * 16 + l) as u8),
            _ => None,
        }
    }
}

/// The text without its leading `#` characters.
pub open spec fn without_hashes(s: Seq<char>) -> Seq<char>
    decreases s.len(),
{
    if s.len() > 0 && s[0] == '#' {
        without_hashes(s.skip(1))
    } else {
        s
    }
}

/// The colour that a text denotes: after any leading `#`, three pairs of
/// hexadecimal digits for red, green and blue. What follows them is not
/// looked at.
pub open spec fn color_of(hex: Seq<char>) -> Option<Rgb> {
    let digits = without_hashes(hex);
    if digits.len() < 6 {
        None
    } else {
        match (
            pair_value(digits[0], digits[1]),
            pair_value(digits[2], digits[3]),
            pair_value(digits[4], digits[5]),
        ) {
            (Some(r), Some(g), Some(b)) => Some(Rgb { r, g, b }),
            _ => None,
        }
    }
}

/// Reads a hexadecimal digit.
fn read_digit(c: char) -> (value: Option<u8>)
    ensures
        value == digit_value(c),
{
    if '0' <= c && c <= '9' {
        Some((c as u32 - '0' as u32) as u8)
    } else if 'a' <= c && c <= 'f' {
        Some((c as u32 - 'a' as u32 + 10) as u8)
    } else if 'A' <= c && c <= 'F' {
        Some((c as u32 - 'A' as u32 + 10) as u8)
    } else {
        None
    }
}

/// Reads two characters as a hexadecimal number.
fn read_pair(high: char, low: char) -> (value: Option<u8>)
    ensures
        value == pair_value(high, low),
{
    if high == '+' {
        read_digit(low)
    } else {
        match (read_digit(high), read_digit(low)) {
            (Some(h), Some(l)) => Some(h * 16 + l),
            _ => None,
        }
    }
}

/// Reads a colour from its hexadecimal form, such as `#1e1e2e`. Returns
/// `None` where the text does not denote a colour.
pub fn hex_to_color32(hex: &str) -> (color: Option<Rgb>)
    ensures
        color == color_of(hex@),
{
    let len = hex.unicode_len();
    let mut start: usize = 0;
    assert(hex@.skip(0) =~= hex@);
    while start < len && hex.get_char(start) == '#'
        invariant
            start <= len,
            len == hex@.len(),
            without_hashes(hex@) == without_hashes(hex@.skip(start as int)),
        decreases len - start,
    {
        assert(hex@.skip(start as int).skip(1) =~= hex@.skip(start + 1));
        start = start + 1;
    }
    if len - start < 6 {
        return None;
    }
    let r = read_pair(hex.get_char(start), hex.get_char(start + 1));
    let g = read_pair(hex.get_char(start + 2), hex.get_char(start + 3));
    let b = read_pair(hex.get_char(start + 4), hex.get_char(start + 5));
    match (r, g, b) {
        (Some(r), Some(g), Some(b)) => Some(Rgb { r, g, b }),
        _ => None,
    }
}

/// A file that a walk of the shortcut directories came upon.
#[derive(Clone, Debug, PartialEq, Eq)]
pub struct WalkedFile {
    /// The whole path.
    pub path: String,
    /// The last component of the path.
    pub file_name: String,
}

/// The mathematical value of a [`WalkedFile`].
pub struct WalkedFileView {
    pub path: Seq<char>,
    pub file_name: Seq<char>,
}

impl View for WalkedFile {
    type V = WalkedFileView;

    open spec fn view(&self) -> WalkedFileView {
        WalkedFileView { path: self.path@, file_name: self.file_name@ }
    }
}

/// The values of a list of files, one by one.
pub open spec fn files_of(files: Seq<WalkedFile>) -> Seq<WalkedFileView> {
    files.map_values(|f: WalkedFile| f@)
}

/// What counts as a shortcut.
#[derive(Clone, Copy, Debug, PartialEq, Eq, Structural)]
pub enum ShortcutRule {
    /// The links of a Windows start menu: `.lnk` and `.url` files outside
    /// the ignored directories.
    StartMenu,
    /// The application bundles of macOS: `.app` entries that are not hidden.
    Bundles,
}

/// How the shortcut directories of a platform are searched.
#[derive(Clone, Copy, Debug, PartialEq, Eq, Structural)]
pub struct WalkPlan {
    /// What counts as a shortcut.
    pub rule: ShortcutRule,
    /// How many levels below a directory are walked; `None` for all.
    pub max_depth: Option<usize>,
}

/// The plan of each platform. The start menu is walked to the bottom.
/// Bundles are looked for five levels deep only: some applications keep a
/// great many files below. For Linux no rule is defined.
pub open spec fn plan_of(platform: Platform) -> Option<WalkPlan> {
    match platform {
        Platform::Windows => Some(WalkPlan { rule: ShortcutRule::StartMenu, max_depth: None }),
        Platform::MacOs => Some(WalkPlan { rule: ShortcutRule::Bundles, max_depth: Some(5) }),
        Platform::Linux => None,
    }
}

/// How shortcuts are looked for on `platform`, or `None` where no rule is
/// defined for it.
pub fn walk_plan(platform: Platform) -> (plan: Option<WalkPlan>)
    ensures
        plan == plan_of(platform),
{
    match platform {
        Platform::Windows => Some(WalkPlan { rule: ShortcutRule::StartMenu, max_depth: None }),
        Platform::MacOs => Some(WalkPlan { rule: ShortcutRule::Bundles, max_depth: Some(5) }),
        Platform::Linux => None,
    }
}

/// Whether a lower-cased path lies in an ignored directory: the lower-cased
/// text of some ignored directory occurs in it.
pub open spec fn is_ignored(path: Seq<char>, ignore_paths: Seq<Seq<char>>) -> bool {
    exists|k: int|
        0 <= k < ignore_paths.len() && contains_text(path, lowercase(#[trigger] ignore_paths[k]))
}

/// Whether a file is a shortcut under a rule.
pub open spec fn is_shortcut(rule: ShortcutRule, ignore_paths: Seq<Seq<char>>, file: WalkedFileView)
    -> bool {
    match rule {
        ShortcutRule::StartMenu => {
            let path = lowercase(file.path);
            !is_ignored(path, ignore_paths) && (ends_with_text(path, ".lnk"@) || ends_with_text(
                path,
                ".url"@,
            ))
        },
        ShortcutRule::Bundles => !".".view().is_prefix_of(file.file_name) && ends_with_text(
            file.file_name,
            ".app"@,
        ),
    }
}

/// The test of [`is_shortcut`] as a function value.
pub open spec fn shortcut_test(rule: ShortcutRule, ignore_paths: Seq<Seq<char>>) -> spec_fn(
    WalkedFileView,
) -> bool {
    |file: WalkedFileView| is_shortcut(rule, ignore_paths, file)
}

/// The path of a file, as a function value.
pub open spec fn path_of() -> spec_fn(WalkedFileView) -> Seq<char> {
    |file: WalkedFileView| file.path
}

/// The paths of the shortcuts among the files, in the order of the walk.
pub open spec fn shortcuts_among(
    rule: ShortcutRule,
    ignore_paths: Seq<Seq<char>>,
    files: Seq<WalkedFileView>,
) -> Seq<Seq<char>> {
    files.filter(shortcut_test(rule, ignore_paths)).map_values(path_of())
}

/// How the list of shortcuts grows when one more file is taken into account.
proof fn lemma_shortcuts_extend(
    rule: ShortcutRule,
    ignore_paths: Seq<Seq<char>>,
    files: Seq<WalkedFileView>,
    i: int,
)
    requires
        0 <= i < files.len(),
    ensures
        is_shortcut(rule, ignore_paths, files[i]) ==> shortcuts_among(
            rule,
            ignore_paths,
            files.take(i + 1),
        ) == shortcuts_among(rule, ignore_paths, files.take(i)).push(files[i].path),
        !is_shortcut(rule, ignore_paths, files[i]) ==> shortcuts_among(
            rule,
            ignore_paths,
            files.take(i + 1),
        ) == shortcuts_among(rule, ignore_paths, files.take(i)),
{
    assert(files.take(i + 1).drop_last() =~= files.take(i));
    reveal(Seq::filter);
}

/// Whether the lower-cased `path` lies in one of the ignored directories.
fn in_ignored_directory(path: &Vec<char>, ignore_paths: &Vec<String>) -> (ignored: bool)
    ensures
        ignored == is_ignored(path@, texts_of(ignore_paths@)),
{
    let mut k: usize = 0;
    while k < ignore_paths.len()
        invariant
            k <= ignore_paths@.len(),
            forall|j: int|
                0 <= j < k ==> !contains_text(
                    path@,
                    lowercase(#[trigger] texts_of(ignore_paths@)[j]),
                ),
        decreases ignore_paths@.len() - k,
    {
        let directory = to_lowercase(ignore_paths[k].as_str());
        if occurs_in(&chars_of(directory.as_str()), path) {
            assert(texts_of(ignore_paths@)[k as int] == ignore_paths@[k as int]@);
            return true;
        }
        k = k + 1;
    }
    false
}

/// Whether `file` is a shortcut under `rule`.
pub fn keeps_file(rule: ShortcutRule, ignore_paths: &Vec<String>, file: &WalkedFile) -> (kept: bool)
    ensures
        kept == is_shortcut(rule, texts_of(ignore_paths@), file@),
{
    match rule {
        ShortcutRule::StartMenu => {
            let path = chars_of(to_lowercase(file.path.as_str()).as_str());
            let linked = is_suffix(&chars_of(".lnk"), &path) || is_suffix(&chars_of(".url"), &path);
            linked && !in_ignored_directory(&path, ignore_paths)
        },
        ShortcutRule::Bundles => {
            let name = chars_of(file.file_name.as_str());
            !is_prefix(&chars_of("."), &name) && is_suffix(&chars_of(".app"), &name)
        },
    }
}

/// Picks the shortcuts among the files of a walk and returns their paths, in
/// the order of the walk. `ignore_paths` are the ignored directories, with
/// the environment's values filled in.
pub fn get_shortcuts(rule: ShortcutRule, files: &Vec<WalkedFile>, ignore_paths: &Vec<String>) -> (paths:
    Vec<String>)
    ensures
        texts_of(paths@) == shortcuts_among(rule, texts_of(ignore_paths@), files_of(files@)),
{
    let ghost all = files_of(files@);
    let ghost ignored = texts_of(ignore_paths@);
    let mut paths: Vec<String> = Vec::new();
    proof {
        reveal(Seq::filter);
    }
    let mut i: usize = 0;
    while i < files.len()
        invariant
            i <= files@.len(),
            all == files_of(files@),
            ignored == texts_of(ignore_paths@),
            texts_of(paths@) == shortcuts_among(rule, ignored, all.take(i as int)),
        decreases files@.len() - i,
    {
        let file = &files[i];
        proof {
            lemma_shortcuts_extend(rule, ignored, all, i as int);
        }
        if keeps_file(rule, ignore_paths, file) {
            paths.push(file.path.clone());
        }
        i = i + 1;
    }
    assert(all.take(i as int) =~= all);
    paths
}

/// Whether a file of the script directory is a script, by the extension of
/// its name.
pub fn is_script(extension: &str) -> (script: bool)
    ensures
        script == (extension@ == "lua"@),
{
    extension.to_owned() == String::from_str("lua")
}

} // verus!
