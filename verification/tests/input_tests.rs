use melt_desktop::decorations::buttons::ButtonAction;
use melt_desktop::decorations::DecorationConfig;
use melt_desktop::geometry::PixelPos;
use melt_desktop::input::{decoration_click, press_decision, DecorationEffect, PressDecision};
use melt_desktop::geometry::{Point, Size};
use melt_desktop::input::{
    decoration_under, filter_key, KeyAction, KeyFilter, Modifiers, KEY_1, KEY_F4, KEY_RETURN, KEY_TAB,
};
use melt_desktop::mnemonics::MnemonicEngine;

const NONE: Modifiers = Modifiers { ctrl: false, alt: false, shift: false, logo: false };
const ALT: Modifiers = Modifiers { ctrl: false, alt: true, shift: false, logo: false };
const LOGO: Modifiers = Modifiers { ctrl: false, alt: false, shift: false, logo: true };

fn engine() -> MnemonicEngine {
    let mut e = MnemonicEngine::new();
    e.register('t', "T".to_string(), "terminal".to_string());
    e.register('c', "C".to_string(), "close_window".to_string());
    e.register('w', "W".to_string(), "workspace_2".to_string());
    e.register('x', "X".to_string(), "something_else".to_string());
    e
}

#[test]
fn alt_alone_enters_mnemonic_mode() {
    let mut e = engine();
    assert_eq!(filter_key(&mut e, ALT, false, 0x74), KeyFilter::Forward);
    assert!(e.is_active());
    assert_eq!(filter_key(&mut e, NONE, false, 0x74), KeyFilter::Forward);
    assert!(!e.is_active());
    let ctrl_alt = Modifiers { ctrl: true, alt: true, shift: false, logo: false };
    filter_key(&mut e, ctrl_alt, true, 0x74);
    assert!(!e.is_active());
}

#[test]
fn mnemonic_keys_dispatch() {
    let mut e = engine();
    assert_eq!(filter_key(&mut e, ALT, true, 0x74), KeyFilter::Intercept(Some(KeyAction::SpawnTerminal)));
    assert_eq!(filter_key(&mut e, ALT, true, 0x63), KeyFilter::Intercept(Some(KeyAction::CloseFocused)));
    assert_eq!(
        filter_key(&mut e, ALT, true, 0x77),
        KeyFilter::Intercept(Some(KeyAction::SwitchWorkspace(1)))
    );
    assert_eq!(filter_key(&mut e, ALT, true, 0x78), KeyFilter::Intercept(None));
    // An unbound letter falls through to the Alt shortcuts, which ignore it.
    assert_eq!(filter_key(&mut e, ALT, true, 0x62), KeyFilter::Forward);
}

#[test]
fn global_shortcuts() {
    let mut e = engine();
    assert_eq!(filter_key(&mut e, LOGO, true, KEY_RETURN), KeyFilter::Intercept(Some(KeyAction::SpawnTerminal)));
    assert_eq!(filter_key(&mut e, LOGO, true, 0x71), KeyFilter::Intercept(Some(KeyAction::CloseFocused)));
    assert_eq!(filter_key(&mut e, LOGO, true, KEY_1), KeyFilter::Intercept(Some(KeyAction::SwitchWorkspace(0))));
    assert_eq!(filter_key(&mut e, LOGO, true, 0x74), KeyFilter::Forward);
    assert_eq!(filter_key(&mut e, ALT, true, KEY_TAB), KeyFilter::Intercept(None));
    assert_eq!(filter_key(&mut e, ALT, true, KEY_F4), KeyFilter::Intercept(Some(KeyAction::CloseFocused)));
    assert_eq!(filter_key(&mut e, NONE, true, KEY_RETURN), KeyFilter::Forward);
    assert_eq!(filter_key(&mut e, LOGO, false, KEY_RETURN), KeyFilter::Forward);
}

#[test]
fn decoration_under_finds_first_frame() {
    let cfg = DecorationConfig { border_width: 2, title_bar_height: 30 };
    let windows = vec![
        (Point { x: 100, y: 130 }, Size { w: 400, h: 300 }),
        (Point { x: 50, y: 60 }, Size { w: 100, h: 100 }),
    ];
    // Title bar of the first window.
    assert_eq!(decoration_under(&windows, Point { x: 200, y: 110 }, &cfg), Some(0));
    // Inside the first window's content: not a decoration of it; the second
    // window's frame does not reach there either.
    assert_eq!(decoration_under(&windows, Point { x: 300, y: 300 }, &cfg), None);
    // Title bar of the second window only.
    assert_eq!(decoration_under(&windows, Point { x: 60, y: 40 }, &cfg), Some(1));
    // Outside everything.
    assert_eq!(decoration_under(&windows, Point { x: 0, y: 0 }, &cfg), None);
}

#[test]
fn unmodified_keys_are_forwarded() {
    let mut e = engine();
    for k in [0x61u32, 0x74, KEY_RETURN, KEY_TAB, KEY_F4, KEY_1] {
        assert_eq!(filter_key(&mut e, NONE, true, k), KeyFilter::Forward);
        assert_eq!(filter_key(&mut e, NONE, false, k), KeyFilter::Forward);
    }
}

#[test]
fn decoration_click_reports_button() {
    let cfg = DecorationConfig { border_width: 2, title_bar_height: 30 };
    let windows = vec![(Point { x: 100, y: 130 }, Size { w: 400, h: 300 })];
    assert_eq!(
        decoration_click(&windows, Point { x: 485, y: 115 }, PixelPos { x: 485, y: 115 }, &cfg),
        Some((0, Some(ButtonAction::Close)))
    );
    assert_eq!(
        decoration_click(&windows, Point { x: 200, y: 110 }, PixelPos { x: 200, y: 110 }, &cfg),
        Some((0, None))
    );
    assert_eq!(decoration_click(&windows, Point { x: 200, y: 200 }, PixelPos { x: 200, y: 200 }, &cfg), None);
}

#[test]
fn press_decisions() {
    assert_eq!(press_decision(false, false, Some((0, None)), Some(1)), PressDecision::Forward);
    assert_eq!(press_decision(true, true, Some((0, None)), Some(1)), PressDecision::Forward);
    assert_eq!(
        press_decision(true, false, Some((2, Some(ButtonAction::Close))), Some(1)),
        PressDecision::Decoration { window: 2, effect: DecorationEffect::Close }
    );
    assert_eq!(
        press_decision(true, false, Some((2, Some(ButtonAction::Minimize))), None),
        PressDecision::Decoration { window: 2, effect: DecorationEffect::Nothing }
    );
    assert_eq!(
        press_decision(true, false, Some((0, None)), None),
        PressDecision::Decoration { window: 0, effect: DecorationEffect::Move }
    );
    assert_eq!(press_decision(true, false, None, Some(3)), PressDecision::FocusWindow(3));
    assert_eq!(press_decision(true, false, None, None), PressDecision::ClearFocus);
}
