use melt_desktop::animations::{AnimatedProperty, Animation, AnimationState, EasingCurve};
use melt_desktop::focus::{FocusManager, FocusPolicy};
use melt_desktop::mnemonics::MnemonicEngine;

#[test]
fn focus_policy_names() {
    assert_eq!(FocusPolicy::from_str("click"), FocusPolicy::ClickToFocus);
    assert_eq!(FocusPolicy::from_str("Click-To-Focus"), FocusPolicy::ClickToFocus);
    assert_eq!(FocusPolicy::from_str("FOLLOW"), FocusPolicy::FollowMouse);
    assert_eq!(FocusPolicy::from_str("follow_mouse"), FocusPolicy::FollowMouse);
    assert_eq!(FocusPolicy::from_str("Sloppy"), FocusPolicy::Sloppy);
    assert_eq!(FocusPolicy::from_str("unknown"), FocusPolicy::ClickToFocus);
    assert_eq!(FocusPolicy::from_str(""), FocusPolicy::ClickToFocus);
}

#[test]
fn focus_manager_policy_queries() {
    let mut f = FocusManager::new(FocusPolicy::Sloppy);
    assert!(f.should_focus_on_hover());
    assert!(!f.should_raise_on_click());
    assert_eq!(f.focused(), None);
    f.set_focus(Some(4));
    assert_eq!(f.focused(), Some(4));
    f.set_focus(None);
    assert_eq!(f.focused(), None);
    let c = FocusManager::new(FocusPolicy::ClickToFocus);
    assert!(!c.should_focus_on_hover());
    assert!(c.should_raise_on_click());
    let m = FocusManager::new(FocusPolicy::FollowMouse);
    assert!(m.should_focus_on_hover());
    assert!(!m.should_raise_on_click());
}

#[test]
fn mnemonic_later_binding_shadows() {
    let mut e = MnemonicEngine::new();
    assert!(!e.is_active());
    assert_eq!(e.match_key('t'), None);
    e.register('t', "Terminal".to_string(), "terminal".to_string());
    e.register('w', "Workspace".to_string(), "workspace_1".to_string());
    assert_eq!(e.match_key('t'), Some("terminal"));
    e.register('t', "Top".to_string(), "close_window".to_string());
    assert_eq!(e.match_key('t'), Some("close_window"));
    assert_eq!(e.match_key('w'), Some("workspace_1"));
    assert_eq!(e.match_key('x'), None);
    assert_eq!(e.bindings().len(), 3);
    assert_eq!(e.bindings()[0].label, "Terminal");
}

#[test]
fn mnemonic_mode_toggles() {
    let mut e = MnemonicEngine::default();
    e.activate();
    assert!(e.is_active());
    e.activate();
    assert!(e.is_active());
    e.deactivate();
    assert!(!e.is_active());
}

#[test]
fn easing_names() {
    assert_eq!(EasingCurve::from_str("linear"), EasingCurve::Linear);
    assert_eq!(EasingCurve::from_str("EASE_OUT_CUBIC"), EasingCurve::EaseOutCubic);
    assert_eq!(EasingCurve::from_str("easeOutExpo"), EasingCurve::EaseOutExpo);
    assert_eq!(EasingCurve::from_str("ease-in-out-quad"), EasingCurve::EaseInOutQuad);
    assert_eq!(EasingCurve::from_str("bounce"), EasingCurve::Linear);
}

fn anim(p: AnimatedProperty, target: f64, start: u128, dur: u128) -> Animation {
    Animation::new(p, 0f64.to_bits(), target.to_bits(), dur, EasingCurve::Linear, start)
}

#[test]
fn animation_finishes_after_duration() {
    let a = anim(AnimatedProperty::Opacity, 1.0, 1_000, 500);
    assert!(!a.is_finished(1_000));
    assert!(!a.is_finished(1_499));
    assert!(a.is_finished(1_500));
    assert!(!a.is_finished(10));
    let zero = anim(AnimatedProperty::Opacity, 1.0, 1_000, 0);
    assert!(zero.is_finished(0));
}

#[test]
fn animation_state_last_added_wins_and_update() {
    let mut s = AnimationState::new();
    assert!(!s.is_animating());
    s.add(anim(AnimatedProperty::Opacity, 1.0, 0, 100));
    s.add(anim(AnimatedProperty::Scale, 2.0, 0, 1_000));
    s.add(anim(AnimatedProperty::Opacity, 0.5, 0, 1_000));
    assert!(s.is_animating());
    let a = s.animation_for(AnimatedProperty::Opacity).unwrap();
    assert_eq!(f64::from_bits(a.target_value_bits), 0.5);
    assert!(s.animation_for(AnimatedProperty::Width).is_none());
    s.update(500);
    assert_eq!(s.animation_for(AnimatedProperty::Opacity).map(|a| a.duration_nanos), Some(1_000));
    s.update(1_000);
    assert!(!s.is_animating());
}
