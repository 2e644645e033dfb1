//! Input decisions: what a key event does (mnemonic mode, global
//! shortcuts) and which window decoration a pointer click lands on. The
//! compositor performs the resulting actions.

use vstd::prelude::*;

use crate::decorations::buttons::{button_under, can_hit_test, hit_test, hit_test_fits, ButtonAction};
use crate::decorations::{outer_fits, outer_rect, DecorationConfig, WindowDecorations};
use crate::geometry::{rect_contains, PixelPos, Point, Rectangle, Size};
use crate::mnemonics::{lookup_action, MnemonicEngine};
use crate::text::str_eq;

verus! {

// ─── Keysyms ─────────────────────────────────────────────────────────────────

/// Keysym of `a`.
pub const KEY_A: u32 = 0x61;

/// Keysym of `z`.
pub const KEY_Z: u32 = 0x7a;

/// Keysym of `q`.
pub const KEY_Q: u32 = 0x71;

/// Keysym of `1`.
pub const KEY_1: u32 = 0x31;

/// Keysym of `2`.
pub const KEY_2: u32 = 0x32;

/// Keysym of Return.
pub const KEY_RETURN: u32 = 0xff0d;

/// Keysym of Tab.
pub const KEY_TAB: u32 = 0xff09;

/// Keysym of F4.
pub const KEY_F4: u32 = 0xffc1;

// ─── Keyboard ────────────────────────────────────────────────────────────────

/// The modifier keys held during a key event.
#[derive(Debug, Clone, Copy, PartialEq, Eq, Structural)]
pub struct Modifiers {
    pub ctrl: bool,
    pub alt: bool,
    pub shift: bool,
    /// The "Super" / "Windows" key.
    pub logo: bool,
}

/// A compositor action triggered by a key.
#[derive(Debug, Clone, Copy, PartialEq, Eq, Structural)]
pub enum KeyAction {
    /// Start the configured terminal.
    SpawnTerminal,
    /// Ask the window with keyboard focus to close.
    CloseFocused,
    /// Switch to the workspace with this index.
    SwitchWorkspace(usize),
}

/// What becomes of a key event.
#[derive(Debug, Clone, Copy, PartialEq, Eq, Structural)]
pub enum KeyFilter {
    /// Pass the key on to the focused client.
    Forward,
    /// Keep the key from the client, performing the action if there is one.
    Intercept(Option<KeyAction>),
}

/// Alt is held without Ctrl, Shift or Super: mnemonic mode is on exactly
/// while this holds.
pub open spec fn alt_only(m: Modifiers) -> bool {
    m.alt && !m.ctrl && !m.shift && !m.logo
}

/// The action a mnemonic action name stands for.
pub open spec fn mnemonic_action(name: Seq<char>) -> Option<KeyAction> {
    if name == "terminal"@ {
        Some(KeyAction::SpawnTerminal)
    } else if name == "close_window"@ {
        Some(KeyAction::CloseFocused)
    } else if name == "workspace_1"@ {
        Some(KeyAction::SwitchWorkspace(0))
    } else if name == "workspace_2"@ {
        Some(KeyAction::SwitchWorkspace(1))
    } else {
        None
    }
}

/// The letter typed by keysym `k`, for the keysyms of `a` to `z`.
pub open spec fn key_letter(k: u32) -> Option<char> {
    if KEY_A <= k <= KEY_Z {
        Some(k as char)
    } else {
        None
    }
}

/// The global shortcuts: with Super, Return starts a terminal, `q` closes
/// the focused window, `1` and `2` switch workspace; otherwise with Alt,
/// Tab is swallowed and F4 closes the focused window.
pub open spec fn shortcut(m: Modifiers, k: u32) -> KeyFilter {
    if m.logo {
        if k == KEY_RETURN {
            KeyFilter::Intercept(Some(KeyAction::SpawnTerminal))
        } else if k == KEY_Q {
            KeyFilter::Intercept(Some(KeyAction::CloseFocused))
        } else if k == KEY_1 {
            KeyFilter::Intercept(Some(KeyAction::SwitchWorkspace(0)))
        } else if k == KEY_2 {
            KeyFilter::Intercept(Some(KeyAction::SwitchWorkspace(1)))
        } else {
            KeyFilter::Forward
        }
    } else if m.alt {
        if k == KEY_TAB {
            KeyFilter::Intercept(None)
        } else if k == KEY_F4 {
            KeyFilter::Intercept(Some(KeyAction::CloseFocused))
        } else {
            KeyFilter::Forward
        }
    } else {
        KeyFilter::Forward
    }
}

/// The fate of a key event, given the mnemonic bindings. Releases are
/// forwarded. A press in mnemonic mode of a letter with a binding is
/// intercepted (with the bound action, if its name is known); any other
/// press goes to the global shortcuts.
pub open spec fn key_decision(
    bindings: Seq<(char, Seq<char>, Seq<char>)>,
    m: Modifiers,
    pressed: bool,
    k: u32,
) -> KeyFilter {
    if !pressed {
        KeyFilter::Forward
    } else {
        let mnemonic = if alt_only(m) {
            match key_letter(k) {
                Some(c) => lookup_action(bindings, c),
                None => None,
            }
        } else {
            None
        };
        match mnemonic {
            Some(name) => KeyFilter::Intercept(mnemonic_action(name)),
            None => shortcut(m, k),
        }
    }
}

/// Key releases are always passed on to the client.
pub proof fn law_releases_forwarded(bindings: Seq<(char, Seq<char>, Seq<char>)>, m: Modifiers, k: u32)
    ensures
        key_decision(bindings, m, false, k) == KeyFilter::Forward,
{
}

/// Without modifiers no key is intercepted.
pub proof fn law_plain_keys_forwarded(bindings: Seq<(char, Seq<char>, Seq<char>)>, k: u32, pressed: bool)
    ensures
        key_decision(bindings, Modifiers { ctrl: false, alt: false, shift: false, logo: false }, pressed, k)
            == KeyFilter::Forward,
{
}

/// With Super held, a press of Return starts a terminal, `q` closes the
/// focused window, and a digit key `1` or `2` switches to the workspace
/// with index one less than the digit (so the two digits select different
/// workspaces); every other key is passed on to the client. The mnemonic
/// bindings play no part.
pub proof fn law_super_shortcuts(bindings: Seq<(char, Seq<char>, Seq<char>)>, m: Modifiers, k: u32)
    requires
        m.logo,
    ensures
        key_decision(bindings, m, true, KEY_RETURN) == KeyFilter::Intercept(Some(KeyAction::SpawnTerminal)),
        key_decision(bindings, m, true, KEY_Q) == KeyFilter::Intercept(Some(KeyAction::CloseFocused)),
        key_decision(bindings, m, true, KEY_1) == KeyFilter::Intercept(Some(KeyAction::SwitchWorkspace(0))),
        key_decision(bindings, m, true, KEY_2) == KeyFilter::Intercept(Some(KeyAction::SwitchWorkspace(1))),
        KEY_1 <= k <= KEY_2 ==> key_decision(bindings, m, true, k) == KeyFilter::Intercept(
            Some(KeyAction::SwitchWorkspace((k - KEY_1) as usize)),
        ),
        k != KEY_RETURN && k != KEY_Q && k != KEY_1 && k != KEY_2 ==> key_decision(bindings, m, true, k)
            == KeyFilter::Forward,
{
}

/// With Alt held and Super not held, a press of Tab is kept from the
/// client with no action, and a press of F4 closes the focused window,
/// whatever the mnemonic bindings are; any other key is passed on, unless
/// it is a bound letter in mnemonic mode.
pub proof fn law_alt_shortcuts(bindings: Seq<(char, Seq<char>, Seq<char>)>, m: Modifiers, k: u32)
    requires
        m.alt,
        !m.logo,
    ensures
        key_decision(bindings, m, true, KEY_TAB) == KeyFilter::Intercept(None),
        key_decision(bindings, m, true, KEY_F4) == KeyFilter::Intercept(Some(KeyAction::CloseFocused)),
        k != KEY_TAB && k != KEY_F4 && (!alt_only(m) || !(KEY_A <= k <= KEY_Z) || lookup_action(
            bindings,
            k as char,
        ) is None) ==> key_decision(bindings, m, true, k) == KeyFilter::Forward,
{
}

/// With neither Alt nor Super held (Ctrl and Shift alone do not count),
/// every key is passed on to the client.
pub proof fn law_no_alt_no_super_forwarded(
    bindings: Seq<(char, Seq<char>, Seq<char>)>,
    m: Modifiers,
    pressed: bool,
    k: u32,
)
    requires
        !m.alt,
        !m.logo,
    ensures
        key_decision(bindings, m, pressed, k) == KeyFilter::Forward,
{
}

/// In mnemonic mode a press of a letter key bound to an action name is
/// kept from the client and performs the action of that name: `terminal`
/// starts a terminal, `close_window` closes the focused window,
/// `workspace_1` and `workspace_2` switch to the first and second
/// workspace, any other name does nothing. A letter with no binding is
/// passed on to the client.
pub proof fn law_mnemonic_letters(bindings: Seq<(char, Seq<char>, Seq<char>)>, m: Modifiers, k: u32)
    requires
        alt_only(m),
        KEY_A <= k <= KEY_Z,
    ensures
        lookup_action(bindings, k as char) == Some("terminal"@) ==> key_decision(bindings, m, true, k)
            == KeyFilter::Intercept(Some(KeyAction::SpawnTerminal)),
        lookup_action(bindings, k as char) == Some("close_window"@) ==> key_decision(bindings, m, true, k)
            == KeyFilter::Intercept(Some(KeyAction::CloseFocused)),
        lookup_action(bindings, k as char) == Some("workspace_1"@) ==> key_decision(bindings, m, true, k)
            == KeyFilter::Intercept(Some(KeyAction::SwitchWorkspace(0))),
        lookup_action(bindings, k as char) == Some("workspace_2"@) ==> key_decision(bindings, m, true, k)
            == KeyFilter::Intercept(Some(KeyAction::SwitchWorkspace(1))),
        forall|name: Seq<char>|
            lookup_action(bindings, k as char) == Some(name) && name != "terminal"@ && name
                != "close_window"@ && name != "workspace_1"@ && name != "workspace_2"@ ==> key_decision(
                bindings,
                m,
                true,
                k,
            ) == KeyFilter::Intercept(None),
        lookup_action(bindings, k as char) is None ==> key_decision(bindings, m, true, k)
            == KeyFilter::Forward,
{
    reveal_strlit("terminal");
    reveal_strlit("close_window");
    reveal_strlit("workspace_1");
    reveal_strlit("workspace_2");
    assert("terminal"@ != "close_window"@) by {
        assert("terminal"@.len() != "close_window"@.len());
    }
    assert("terminal"@ != "workspace_1"@) by {
        assert("terminal"@.len() != "workspace_1"@.len());
    }
    assert("terminal"@ != "workspace_2"@) by {
        assert("terminal"@.len() != "workspace_2"@.len());
    }
    assert("close_window"@ != "workspace_1"@) by {
        assert("close_window"@.len() != "workspace_1"@.len());
    }
    assert("close_window"@ != "workspace_2"@) by {
        assert("close_window"@.len() != "workspace_2"@.len());
    }
    assert("workspace_1"@ != "workspace_2"@) by {
        assert("workspace_1"@[10] != "workspace_2"@[10]);
    }
}

fn mnemonic_action_exec(name: &str) -> (res: Option<KeyAction>)
    ensures
        res == mnemonic_action(name@),
{
    if str_eq(name, "terminal") {
        Some(KeyAction::SpawnTerminal)
    } else if str_eq(name, "close_window") {
        Some(KeyAction::CloseFocused)
    } else if str_eq(name, "workspace_1") {
        Some(KeyAction::SwitchWorkspace(0))
    } else if str_eq(name, "workspace_2") {
        Some(KeyAction::SwitchWorkspace(1))
    } else {
        None
    }
}

fn shortcut_exec(m: Modifiers, k: u32) -> (res: KeyFilter)
    ensures
        res == shortcut(m, k),
{
    if m.logo {
        if k == KEY_RETURN {
            KeyFilter::Intercept(Some(KeyAction::SpawnTerminal))
        } else if k == KEY_Q {
            KeyFilter::Intercept(Some(KeyAction::CloseFocused))
        } else if k == KEY_1 {
            KeyFilter::Intercept(Some(KeyAction::SwitchWorkspace(0)))
        } else if k == KEY_2 {
            KeyFilter::Intercept(Some(KeyAction::SwitchWorkspace(1)))
        } else {
            KeyFilter::Forward
        }
    } else if m.alt {
        if k == KEY_TAB {
            KeyFilter::Intercept(None)
        } else if k == KEY_F4 {
            KeyFilter::Intercept(Some(KeyAction::CloseFocused))
        } else {
            KeyFilter::Forward
        }
    } else {
        KeyFilter::Forward
    }
}

/// Handles one key event: mnemonic mode is entered while Alt alone is held
/// and left otherwise, then the event is decided as [`key_decision`] says.
pub fn filter_key(engine: &mut MnemonicEngine, modifiers: Modifiers, pressed: bool, keysym: u32) -> (res:
    KeyFilter)
    ensures
        final(engine).active_view() == alt_only(modifiers),
        final(engine).bindings_view() == old(engine).bindings_view(),
        res == key_decision(old(engine).bindings_view(), modifiers, pressed, keysym),
{
    if modifiers.alt && !modifiers.ctrl && !modifiers.shift && !modifiers.logo {
        if !engine.is_active() {
            engine.activate();
        }
    } else {
        if engine.is_active() {
            engine.deactivate();
        }
    }
    if !pressed {
        return KeyFilter::Forward;
    }
    if engine.is_active() && KEY_A <= keysym && keysym <= KEY_Z {
        let c = (keysym as u8) as char;
        if let Some(name) = engine.match_key(c) {
            return KeyFilter::Intercept(mnemonic_action_exec(name));
        }
    }
    shortcut_exec(modifiers, keysym)
}

// ─── Pointer ─────────────────────────────────────────────────────────────────

/// `p` lies on the decorations of the window with content at `loc` of size
/// `size`: inside its outer rectangle but outside its content.
pub open spec fn on_decoration(loc: Point, size: Size, p: Point, config: DecorationConfig) -> bool {
    rect_contains(outer_rect(loc, size, config), p) && !rect_contains(Rectangle { loc, size }, p)
}

/// `p` lies on the decorations of none of the first `n` windows.
pub open spec fn missed_first(windows: Seq<(Point, Size)>, n: int, p: Point, config: DecorationConfig) -> bool {
    forall|j: int| 0 <= j < n ==> !#[trigger] on_decoration(windows[j].0, windows[j].1, p, config)
}

/// Every window whose outer rectangle is computed, those up to the first
/// hit, has an outer rectangle within `i32`.
pub open spec fn decoration_scan_fits(windows: Seq<(Point, Size)>, p: Point, config: DecorationConfig) -> bool {
    forall|i: int|
        0 <= i < windows.len() && #[trigger] missed_first(windows, i, p, config) ==> outer_fits(
            windows[i].0,
            windows[i].1,
            config,
        )
}

/// Whether [`decoration_under`] can run on these arguments: the outer
/// rectangle of every window that it looks at fits in `i32`.
pub fn can_scan_decorations(windows: &[(Point, Size)], pointer: Point, config: &DecorationConfig) -> (res:
    bool)
    ensures
        res == decoration_scan_fits(windows@, pointer, *config),
{
    let mut i: usize = 0;
    while i < windows.len()
        invariant
            i <= windows@.len(),
            missed_first(windows@, i as int, pointer, *config),
            forall|j: int|
                0 <= j < i && #[trigger] missed_first(windows@, j, pointer, *config) ==> outer_fits(
                    windows@[j].0,
                    windows@[j].1,
                    *config,
                ),
        decreases windows@.len() - i,
    {
        let (loc, size) = windows[i];
        if !WindowDecorations::can_outer_geometry(loc, size, config) {
            return false;
        }
        let outer = WindowDecorations::outer_geometry(loc, size, config);
        let inner = Rectangle::new(loc, size);
        if outer.contains(pointer) && !inner.contains(pointer) {
            assert forall|k: int|
                0 <= k < windows@.len() && #[trigger] missed_first(windows@, k, pointer, *config)
                    implies outer_fits(windows@[k].0, windows@[k].1, *config) by {
                if k > i {
                    assert(on_decoration(windows@[i as int].0, windows@[i as int].1, pointer, *config));
                }
            }
            return true;
        }
        proof {
            assert(!on_decoration(windows@[i as int].0, windows@[i as int].1, pointer, *config));
            assert(missed_first(windows@, i + 1, pointer, *config));
        }
        i = i + 1;
    }
    true
}

/// The first window (in the given order) whose decorations are under the
/// pointer. `windows` holds each window's content position and size.
pub fn decoration_under(windows: &[(Point, Size)], pointer: Point, config: &DecorationConfig) -> (res:
    Option<usize>)
    requires
        decoration_scan_fits(windows@, pointer, *config),
    ensures
        match res {
            Some(i) => {
                &&& i < windows@.len()
                &&& on_decoration(windows@[i as int].0, windows@[i as int].1, pointer, *config)
                &&& missed_first(windows@, i as int, pointer, *config)
            },
            None => missed_first(windows@, windows@.len() as int, pointer, *config),
        },
{
    let mut i: usize = 0;
    while i < windows.len()
        invariant
            i <= windows@.len(),
            decoration_scan_fits(windows@, pointer, *config),
            missed_first(windows@, i as int, pointer, *config),
        decreases windows@.len() - i,
    {
        let (loc, size) = windows[i];
        let outer = WindowDecorations::outer_geometry(loc, size, config);
        let inner = Rectangle::new(loc, size);
        if outer.contains(pointer) && !inner.contains(pointer) {
            return Some(i);
        }
        proof {
            assert(!on_decoration(windows@[i as int].0, windows@[i as int].1, pointer, *config));
            assert(missed_first(windows@, i + 1, pointer, *config));
        }
        i = i + 1;
    }
    None
}

/// The first window whose decorations are under the pointer, with the
/// button it hit: that window is raised and focused, then the button acts
/// or, on no button, the window starts moving with the pointer.
pub open spec fn decoration_click_spec(
    windows: Seq<(Point, Size)>,
    rounded: Point,
    pixel: PixelPos,
    config: DecorationConfig,
    res: Option<(usize, Option<ButtonAction>)>,
) -> bool {
    match res {
        Some((i, button)) => {
            &&& i < windows.len()
            &&& on_decoration(windows[i as int].0, windows[i as int].1, rounded, config)
            &&& missed_first(windows, i as int, rounded, config)
            &&& button == button_under(pixel, windows[i as int].0, windows[i as int].1, config)
        },
        None => missed_first(windows, windows.len() as int, rounded, config),
    }
}

/// Every window that can be the clicked one allows the button hit test.
pub open spec fn click_fits(windows: Seq<(Point, Size)>, rounded: Point, pixel: PixelPos, config: DecorationConfig) -> bool {
    &&& decoration_scan_fits(windows, rounded, config)
    &&& forall|i: int|
        0 <= i < windows.len() && #[trigger] missed_first(windows, i, rounded, config) && on_decoration(
            windows[i].0,
            windows[i].1,
            rounded,
            config,
        ) ==> hit_test_fits(pixel, windows[i].0, windows[i].1, config)
}

/// Decides a pointer press on window decorations: `rounded` is the pointer
/// rounded to whole pixels (used to find the decorated window), `pixel` the
/// pointer rounded down (used for the buttons).
pub fn decoration_click(windows: &[(Point, Size)], rounded: Point, pixel: PixelPos, config: &DecorationConfig) -> (res:
    Option<(usize, Option<ButtonAction>)>)
    requires
        click_fits(windows@, rounded, pixel, *config),
    ensures
        decoration_click_spec(windows@, rounded, pixel, *config, res),
{
    match decoration_under(windows, rounded, config) {
        Some(i) => {
            let (loc, size) = windows[i];
            Some((i, hit_test(pixel, loc, size, config)))
        },
        None => None,
    }
}

/// Whether [`decoration_click`] can run on these arguments.
pub fn can_click(windows: &[(Point, Size)], rounded: Point, pixel: PixelPos, config: &DecorationConfig) -> (res:
    bool)
    ensures
        res == click_fits(windows@, rounded, pixel, *config),
{
    if !can_scan_decorations(windows, rounded, config) {
        return false;
    }
    match decoration_under(windows, rounded, config) {
        Some(i) => {
            let (loc, size) = windows[i];
            let ok = can_hit_test(pixel, loc, size, config);
            proof {
                assert forall|k: int|
                    0 <= k < windows@.len() && #[trigger] missed_first(windows@, k, rounded, *config)
                        && on_decoration(windows@[k].0, windows@[k].1, rounded, *config) implies k
                    == i by {
                    if k < i {
                    } else if k > i {
                        assert(on_decoration(windows@[i as int].0, windows@[i as int].1, rounded, *config));
                    }
                }
            }
            ok
        },
        None => true,
    }
}

/// What a decoration press does after raising and focusing its window.
#[derive(Debug, Clone, Copy, PartialEq, Eq, Structural)]
pub enum DecorationEffect {
    /// The close button was pressed: ask the window to close.
    Close,
    /// The maximize or minimize button was pressed; these do nothing yet.
    Nothing,
    /// The title bar or a border was pressed: start moving the window.
    Move,
}

/// What the compositor does with a pointer button event.
#[derive(Debug, Clone, Copy, PartialEq, Eq, Structural)]
pub enum PressDecision {
    /// Pass the event on to the client unchanged.
    Forward,
    /// Raise and focus the window, then apply the effect; the event is not
    /// passed on to the client.
    Decoration { window: usize, effect: DecorationEffect },
    /// Raise and focus the window, then pass the event on.
    FocusWindow(usize),
    /// Deactivate every window and clear keyboard focus, then pass the
    /// event on.
    ClearFocus,
}

/// The effect of pressing a decoration, given the button hit, if any.
pub open spec fn decoration_effect(button: Option<ButtonAction>) -> DecorationEffect {
    match button {
        Some(ButtonAction::Close) => DecorationEffect::Close,
        Some(_) => DecorationEffect::Nothing,
        None => DecorationEffect::Move,
    }
}

/// The decision for a pointer button event. Only a press while the pointer
/// is not grabbed is handled: a press on a window's decorations (the first
/// such window, with the button hit) acts on that window; otherwise a press
/// on a window raises and focuses it; a press on the background clears
/// focus.
pub open spec fn press_decision_spec(
    pressed: bool,
    grabbed: bool,
    decoration: Option<(usize, Option<ButtonAction>)>,
    window_under: Option<usize>,
) -> PressDecision {
    if !pressed || grabbed {
        PressDecision::Forward
    } else {
        match decoration {
            Some((w, button)) => PressDecision::Decoration { window: w, effect: decoration_effect(button) },
            None => match window_under {
                Some(w) => PressDecision::FocusWindow(w),
                None => PressDecision::ClearFocus,
            },
        }
    }
}

/// Only the close button closes a window: a press on a decoration closes
/// its window exactly when it hit the close button, starts a move exactly
/// when it hit no button, and does nothing for the maximize and minimize
/// buttons.
pub proof fn law_only_close_button_closes(button: Option<ButtonAction>)
    ensures
        (decoration_effect(button) == DecorationEffect::Close) <==> (button == Some(ButtonAction::Close)),
        (decoration_effect(button) == DecorationEffect::Move) <==> (button is None),
        (decoration_effect(button) == DecorationEffect::Nothing) <==> (button == Some(ButtonAction::Maximize)
            || button == Some(ButtonAction::Minimize)),
{
}

/// A release, or any event while the pointer is grabbed, is passed on
/// unchanged. A press on decorations acts on the window that was found
/// there, with the effect of the button it hit (closing only for the close
/// button); a press elsewhere focuses the window under the pointer, or
/// clears focus over the background.
pub proof fn law_press_outcomes(
    pressed: bool,
    grabbed: bool,
    decoration: Option<(usize, Option<ButtonAction>)>,
    window_under: Option<usize>,
)
    ensures
        !pressed || grabbed ==> press_decision_spec(pressed, grabbed, decoration, window_under)
            == PressDecision::Forward,
        forall|w: usize, b: Option<ButtonAction>|
            pressed && !grabbed && decoration == Some((w, b)) ==> ({
                let d = press_decision_spec(pressed, grabbed, decoration, window_under);
                &&& d is Decoration
                &&& d->window == w
                &&& (d->effect == DecorationEffect::Close) <==> (b == Some(ButtonAction::Close))
                &&& (d->effect == DecorationEffect::Move) <==> (b is None)
            }),
        pressed && !grabbed && decoration is None ==> press_decision_spec(
            pressed,
            grabbed,
            decoration,
            window_under,
        ) == match window_under {
            Some(w) => PressDecision::FocusWindow(w),
            None => PressDecision::ClearFocus,
        },
{
}

/// Decides a pointer button event: `decoration` is what
/// [`decoration_click`] found under the pointer, `window_under` the window
/// whose content is under the pointer.
pub fn press_decision(
    pressed: bool,
    grabbed: bool,
    decoration: Option<(usize, Option<ButtonAction>)>,
    window_under: Option<usize>,
) -> (res: PressDecision)
    ensures
        res == press_decision_spec(pressed, grabbed, decoration, window_under),
{
    if !pressed || grabbed {
        return PressDecision::Forward;
    }
    match decoration {
        Some((w, button)) => {
            let effect = match button {
                Some(ButtonAction::Close) => DecorationEffect::Close,
                Some(_) => DecorationEffect::Nothing,
                None => DecorationEffect::Move,
            };
            PressDecision::Decoration { window: w, effect }
        },
        None => match window_under {
            Some(w) => PressDecision::FocusWindow(w),
            None => PressDecision::ClearFocus,
        },
    }
}

} // verus!
