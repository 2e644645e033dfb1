//! Compositor configuration: the settings tree with the defaults that let
//! the compositor start without a configuration file, the keybinding map,
//! and the candidate locations of the configuration file.

use vstd::prelude::*;
use vstd::string::StringExecFns;

use crate::text::{chars_of, str_eq};
use crate::theme::{is_default_palette, ThemeColors};

verus! {

// ─── Keybindings ─────────────────────────────────────────────────────────────

/// The map denoted by a list of (key, value) entries: a later entry for the
/// same key overrides an earlier one.
pub open spec fn entries_map(s: Seq<(Seq<char>, Seq<char>)>) -> Map<Seq<char>, Seq<char>>
    decreases s.len(),
{
    if s.len() == 0 {
        Map::empty()
    } else {
        entries_map(s.drop_last()).insert(s.last().0, s.last().1)
    }
}

/// Index of the last entry whose key is `k`.
pub open spec fn last_entry(s: Seq<(Seq<char>, Seq<char>)>, k: Seq<char>) -> Option<int>
    decreases s.len(),
{
    if s.len() == 0 {
        None
    } else if s.last().0 == k {
        Some(s.len() - 1)
    } else {
        last_entry(s.drop_last(), k)
    }
}

proof fn lemma_last_entry(s: Seq<(Seq<char>, Seq<char>)>, k: Seq<char>)
    ensures
        match last_entry(s, k) {
            Some(i) => {
                &&& 0 <= i < s.len()
                &&& s[i].0 == k
                &&& entries_map(s).dom().contains(k)
                &&& entries_map(s)[k] == s[i].1
                &&& forall|j: int| i < j < s.len() ==> s[j].0 != k
            },
            None => {
                &&& !entries_map(s).dom().contains(k)
                &&& forall|j: int| 0 <= j < s.len() ==> s[j].0 != k
            },
        },
    decreases s.len(),
{
    if s.len() > 0 {
        let t = s.drop_last();
        lemma_last_entry(t, k);
        assert(forall|j: int| 0 <= j < t.len() ==> t[j] == s[j]);
        if s.last().0 != k {
            assert(entries_map(s).dom().contains(k) == entries_map(t).dom().contains(k));
        }
    }
}

proof fn lemma_update_last(s: Seq<(Seq<char>, Seq<char>)>, i: int, k: Seq<char>, v: Seq<char>)
    requires
        last_entry(s, k) == Some(i),
    ensures
        entries_map(s.update(i, (k, v))) =~= entries_map(s).insert(k, v),
    decreases s.len(),
{
    lemma_last_entry(s, k);
    let t = s.update(i, (k, v));
    if i == s.len() - 1 {
        assert(t.drop_last() =~= s.drop_last());
    } else {
        assert(t.drop_last() =~= s.drop_last().update(i, (k, v)));
        lemma_update_last(s.drop_last(), i, k, v);
    }
}

/// Keyboard shortcuts: a map from key combinations (`"Mod4+Return"`) to
/// actions (`"spawn:foot"`).
#[derive(Debug, Clone)]
pub struct KeyBindings {
    entries: Vec<(String, String)>,
}

impl KeyBindings {
    /// The entries as character sequences, in insertion order.
    pub closed spec fn entries_view(&self) -> Seq<(Seq<char>, Seq<char>)> {
        self.entries@.map_values(|e: (String, String)| (e.0@, e.1@))
    }

    /// The map from key combinations to actions.
    pub open spec fn view(&self) -> Map<Seq<char>, Seq<char>> {
        entries_map(self.entries_view())
    }

    /// An empty map.
    pub fn new() -> (res: Self)
        ensures
            res.view() == Map::<Seq<char>, Seq<char>>::empty(),
    {
        let res = KeyBindings { entries: Vec::new() };
        proof {
            assert(res.entries_view() =~= Seq::<(Seq<char>, Seq<char>)>::empty());
        }
        res
    }

    fn position(&self, key: &str) -> (res: Option<usize>)
        ensures
            match res {
                Some(i) => last_entry(self.entries_view(), key@) == Some(i as int),
                None => last_entry(self.entries_view(), key@) is None,
            },
    {
        let mut i = self.entries.len();
        proof {
            assert(self.entries_view().take(i as int) =~= self.entries_view());
        }
        while i > 0
            invariant
                i <= self.entries@.len(),
                self.entries_view().len() == self.entries@.len(),
                last_entry(self.entries_view(), key@) == last_entry(
                    self.entries_view().take(i as int),
                    key@,
                ),
            decreases i,
        {
            proof {
                assert(self.entries_view().take(i as int).drop_last() =~= self.entries_view().take(
                    i - 1,
                ));
            }
            if str_eq(self.entries[i - 1].0.as_str(), key) {
                return Some(i - 1);
            }
            i = i - 1;
        }
        None
    }

    /// Binds `key` to `value`, returning the action it was bound to before.
    pub fn insert(&mut self, key: String, value: String) -> (res: Option<String>)
        ensures
            final(self).view() == old(self).view().insert(key@, value@),
            match res {
                Some(v) => old(self).view().dom().contains(key@) && old(self).view()[key@] == v@,
                None => !old(self).view().dom().contains(key@),
            },
    {
        proof {
            lemma_last_entry(self.entries_view(), key@);
        }
        match self.position(key.as_str()) {
            Some(i) => {
                let old_value = self.entries[i].1.clone();
                let ghost kv = key@;
                let ghost vv = value@;
                self.entries.set(i, (key, value));
                proof {
                    assert(self.entries_view() =~= old(self).entries_view().update(i as int, (kv, vv)));
                    lemma_update_last(old(self).entries_view(), i as int, kv, vv);
                }
                Some(old_value)
            },
            None => {
                let ghost kv = key@;
                let ghost vv = value@;
                self.entries.push((key, value));
                proof {
                    assert(self.entries_view() =~= old(self).entries_view().push((kv, vv)));
                    assert(self.entries_view().drop_last() =~= old(self).entries_view());
                }
                None
            },
        }
    }

    /// The stored bindings, oldest first; a later entry for a key overrides
    /// an earlier one.
    pub fn entries(&self) -> (res: &[(String, String)])
        ensures
            res@.map_values(|e: (String, String)| (e.0@, e.1@)) == self.entries_view(),
            entries_map(res@.map_values(|e: (String, String)| (e.0@, e.1@))) == self.view(),
    {
        self.entries.as_slice()
    }

    /// Whether `key` is bound.
    pub fn contains_key(&self, key: &str) -> (res: bool)
        ensures
            res == self.view().dom().contains(key@),
    {
        proof {
            lemma_last_entry(self.entries_view(), key@);
        }
        self.position(key).is_some()
    }

    /// The action bound to `key`, if any.
    pub fn get(&self, key: &str) -> (res: Option<&String>)
        ensures
            match res {
                Some(v) => self.view().dom().contains(key@) && self.view()[key@] == v@,
                None => !self.view().dom().contains(key@),
            },
    {
        proof {
            lemma_last_entry(self.entries_view(), key@);
        }
        match self.position(key) {
            Some(i) => Some(&self.entries[i].1),
            None => None,
        }
    }
}

// ─── Settings ────────────────────────────────────────────────────────────────

/// General compositor behaviour.
#[derive(Debug, Clone)]
pub struct GeneralConfig {
    /// Default terminal emulator command.
    pub terminal: String,
    /// Focus policy: `"click"` or `"follow"`.
    pub focus_policy: String,
    /// XCursor theme name.
    pub cursor_theme: String,
    /// XCursor size in pixels.
    pub cursor_size: u32,
    /// Whether to start XWayland on launch.
    pub xwayland: bool,
}

impl Default for GeneralConfig {
    fn default() -> (res: Self)
        ensures
            res.terminal@ == "foot"@,
            res.focus_policy@ == "click"@,
            res.cursor_theme@ == "default"@,
            res.cursor_size == 24,
            !res.xwayland,
    {
        GeneralConfig {
            terminal: String::from_str("foot"),
            focus_policy: String::from_str("click"),
            cursor_theme: String::from_str("default"),
            cursor_size: 24,
            xwayland: false,
        }
    }
}

/// The IEEE-754 single-precision bit pattern of 0.4.
pub const DEFAULT_SHADOW_OPACITY_BITS: u32 = 0x3ecc_cccd;

/// Visual appearance settings.
#[derive(Debug, Clone)]
pub struct AppearanceConfig {
    /// Enable dark-mode defaults.
    pub dark_mode: bool,
    /// Window border width in pixels.
    pub border_width: u32,
    /// Server-side title-bar height in pixels.
    pub title_bar_height: u32,
    /// Whether to render window shadows.
    pub shadow_enabled: bool,
    /// Shadow blur radius in pixels.
    pub shadow_radius: u32,
    /// Shadow opacity (0.0–1.0), held as the bit pattern of an `f32`.
    pub shadow_opacity_bits: u32,
    /// Colour palette.
    pub colors: ThemeColors,
}

impl Default for AppearanceConfig {
    fn default() -> (res: Self)
        ensures
            res.dark_mode,
            res.border_width == 2,
            res.title_bar_height == 30,
            res.shadow_enabled,
            res.shadow_radius == 12,
            res.shadow_opacity_bits == DEFAULT_SHADOW_OPACITY_BITS,
            is_default_palette(res.colors),
    {
        AppearanceConfig {
            dark_mode: true,
            border_width: 2,
            title_bar_height: 30,
            shadow_enabled: true,
            shadow_radius: 12,
            shadow_opacity_bits: DEFAULT_SHADOW_OPACITY_BITS,
            colors: ThemeColors::default(),
        }
    }
}

/// Animation timing settings.
#[derive(Debug, Clone)]
pub struct AnimationConfig {
    /// Master toggle for all animations.
    pub enabled: bool,
    /// Duration (ms) of the window-open animation.
    pub window_open_duration_ms: u64,
    /// Duration (ms) of the window-close animation.
    pub window_close_duration_ms: u64,
    /// Duration (ms) of the workspace-switch animation.
    pub workspace_switch_duration_ms: u64,
    /// Easing function name (e.g. `"ease-out-cubic"`, `"linear"`).
    pub easing: String,
}

impl Default for AnimationConfig {
    fn default() -> (res: Self)
        ensures
            res.enabled,
            res.window_open_duration_ms == 150,
            res.window_close_duration_ms == 120,
            res.workspace_switch_duration_ms == 250,
            res.easing@ == "ease-out-cubic"@,
    {
        AnimationConfig {
            enabled: true,
            window_open_duration_ms: 150,
            window_close_duration_ms: 120,
            workspace_switch_duration_ms: 250,
            easing: String::from_str("ease-out-cubic"),
        }
    }
}

/// Security and sandboxing policies.
#[derive(Debug, Clone)]
pub struct SecurityConfig {
    /// App IDs allowed to act as clipboard managers.
    pub clipboard_manager_app_ids: Vec<String>,
    /// App IDs allowed to create layer-shell surfaces.
    pub layer_shell_allowed_app_ids: Vec<String>,
}

impl Default for SecurityConfig {
    fn default() -> (res: Self)
        ensures
            res.clipboard_manager_app_ids@.len() == 0,
            res.layer_shell_allowed_app_ids@.len() == 0,
    {
        SecurityConfig { clipboard_manager_app_ids: Vec::new(), layer_shell_allowed_app_ids: Vec::new() }
    }
}

/// A per-application window rule matched by `app_id`.
#[derive(Debug, Clone)]
pub struct WindowRule {
    /// The Wayland `app_id` to match (exact string match).
    pub app_id: String,
    /// Override of the window opacity (0.0–1.0), as the bit pattern of an `f32`.
    pub opacity_bits: Option<u32>,
    /// Force the window to float.
    pub floating: Option<bool>,
}

/// Top-level compositor configuration.
#[derive(Debug, Clone)]
pub struct MeltConfig {
    /// General compositor behaviour.
    pub general: GeneralConfig,
    /// Visual appearance settings.
    pub appearance: AppearanceConfig,
    /// Animation tuning.
    pub animation: AnimationConfig,
    /// Security / sandbox policies.
    pub security: SecurityConfig,
    /// Keyboard shortcut map.
    pub keybindings: KeyBindings,
    /// Per-application window rules.
    pub window_rules: Vec<WindowRule>,
}

/// The keybindings a configuration starts with.
pub open spec fn default_keybinding_map() -> Map<Seq<char>, Seq<char>> {
    map![
        "Mod4+Return"@ => "spawn:foot"@,
        "Mod4+q"@ => "close"@,
        "Mod4+Shift+e"@ => "exit"@,
        "Mod4+d"@ => "spawn:fuzzel"@,
    ]
}

impl Default for MeltConfig {
    fn default() -> (res: Self)
        ensures
            res.general.terminal@ == "foot"@,
            res.general.focus_policy@ == "click"@,
            res.general.cursor_theme@ == "default"@,
            res.general.cursor_size == 24,
            !res.general.xwayland,
            res.appearance.dark_mode,
            res.appearance.border_width == 2,
            res.appearance.title_bar_height == 30,
            res.appearance.shadow_enabled,
            res.appearance.shadow_radius == 12,
            res.appearance.shadow_opacity_bits == DEFAULT_SHADOW_OPACITY_BITS,
            is_default_palette(res.appearance.colors),
            res.animation.enabled,
            res.animation.window_open_duration_ms == 150,
            res.animation.window_close_duration_ms == 120,
            res.animation.workspace_switch_duration_ms == 250,
            res.animation.easing@ == "ease-out-cubic"@,
            res.security.clipboard_manager_app_ids@.len() == 0,
            res.security.layer_shell_allowed_app_ids@.len() == 0,
            res.keybindings.view() == default_keybinding_map(),
            res.window_rules@.len() == 0,
    {
        MeltConfig {
            general: GeneralConfig::default(),
            appearance: AppearanceConfig::default(),
            animation: AnimationConfig::default(),
            security: SecurityConfig::default(),
            keybindings: Self::default_keybindings(),
            window_rules: Vec::new(),
        }
    }
}

impl MeltConfig {
    /// Minimal default keybindings so the compositor is usable out of the box.
    fn default_keybindings() -> (res: KeyBindings)
        ensures
            res.view() == default_keybinding_map(),
    {
        let mut map = KeyBindings::new();
        map.insert(String::from_str("Mod4+Return"), String::from_str("spawn:foot"));
        map.insert(String::from_str("Mod4+q"), String::from_str("close"));
        map.insert(String::from_str("Mod4+Shift+e"), String::from_str("exit"));
        map.insert(String::from_str("Mod4+d"), String::from_str("spawn:fuzzel"));
        map
    }
}

// ─── File location ───────────────────────────────────────────────────────────

/// `base` joined with the relative path `rel`: a `/` is put between them
/// unless `base` is empty or already ends in `/`.
pub open spec fn join_path(base: Seq<char>, rel: Seq<char>) -> Seq<char> {
    if base.len() > 0 && base.last() != '/' {
        base + seq!['/'] + rel
    } else {
        base + rel
    }
}

/// The configuration file's place under `$XDG_CONFIG_HOME`.
pub open spec fn xdg_relative() -> Seq<char> {
    "melt/config.toml"@
}

/// The configuration file's place under `$HOME`.
pub open spec fn home_relative() -> Seq<char> {
    ".config/melt/config.toml"@
}

/// The candidate configuration files, most preferred first.
pub open spec fn candidate_paths(xdg_config_home: Option<Seq<char>>, home: Option<Seq<char>>) -> Seq<Seq<char>> {
    let first = match xdg_config_home {
        Some(x) => seq![join_path(x, xdg_relative())],
        None => seq![],
    };
    let second = match home {
        Some(h) => seq![join_path(h, home_relative())],
        None => seq![],
    };
    first + second
}

fn join_path_exec(base: &str, rel: &str) -> (res: String)
    ensures
        res@ == join_path(base@, rel@),
{
    let chars = chars_of(base);
    let mut out = String::from_str(base);
    if chars.len() > 0 && chars[chars.len() - 1] != '/' {
        out.append("/");
        proof {
            reveal_strlit("/");
        }
    }
    out.append(rel);
    out
}

impl MeltConfig {
    /// The configuration files to look for, in order of preference, given
    /// the values of `$XDG_CONFIG_HOME` and `$HOME` (each `None` when
    /// unset): `$XDG_CONFIG_HOME/melt/config.toml`, then
    /// `$HOME/.config/melt/config.toml`. The first that exists is used.
    pub fn config_candidates(xdg_config_home: Option<&str>, home: Option<&str>) -> (res: Vec<String>)
        ensures
            res@.map_values(|p: String| p@) == candidate_paths(
                match xdg_config_home {
                    Some(x) => Some(x@),
                    None => None,
                },
                match home {
                    Some(h) => Some(h@),
                    None => None,
                },
            ),
    {
        let mut res: Vec<String> = Vec::new();
        match xdg_config_home {
            Some(x) => {
                res.push(join_path_exec(x, "melt/config.toml"));
            },
            None => {},
        }
        match home {
            Some(h) => {
                res.push(join_path_exec(h, ".config/melt/config.toml"));
            },
            None => {},
        }
        proof {
            assert(res@.map_values(|p: String| p@) =~= candidate_paths(
                match xdg_config_home {
                    Some(x) => Some(x@),
                    None => None,
                },
                match home {
                    Some(h) => Some(h@),
                    None => None,
                },
            ));
        }
        res
    }
}

} // verus!
