use melt_desktop::config::{KeyBindings, MeltConfig, DEFAULT_SHADOW_OPACITY_BITS};
use melt_desktop::decorations::DecorationConfig;

#[test]
fn default_config_is_valid() {
    let cfg = MeltConfig::default();
    assert_eq!(cfg.general.terminal, "foot");
    assert!(cfg.appearance.dark_mode);
    assert!(cfg.animation.enabled);
    assert!(cfg.window_rules.is_empty());
}

#[test]
fn default_keybindings_not_empty() {
    let cfg = MeltConfig::default();
    assert!(cfg.keybindings.contains_key("Mod4+Return"));
}

#[test]
fn default_config_values() {
    let cfg = MeltConfig::default();
    assert_eq!(cfg.general.focus_policy, "click");
    assert_eq!(cfg.general.cursor_theme, "default");
    assert_eq!(cfg.general.cursor_size, 24);
    assert!(!cfg.general.xwayland);
    assert_eq!(cfg.appearance.border_width, 2);
    assert_eq!(cfg.appearance.title_bar_height, 30);
    assert!(cfg.appearance.shadow_enabled);
    assert_eq!(cfg.appearance.shadow_radius, 12);
    assert_eq!(f32::from_bits(cfg.appearance.shadow_opacity_bits), 0.4f32);
    assert_eq!(DEFAULT_SHADOW_OPACITY_BITS, 0.4f32.to_bits());
    assert_eq!(cfg.animation.window_open_duration_ms, 150);
    assert_eq!(cfg.animation.window_close_duration_ms, 120);
    assert_eq!(cfg.animation.workspace_switch_duration_ms, 250);
    assert_eq!(cfg.animation.easing, "ease-out-cubic");
    assert!(cfg.security.clipboard_manager_app_ids.is_empty());
    assert!(cfg.security.layer_shell_allowed_app_ids.is_empty());
}

#[test]
fn default_keybindings_exact() {
    let cfg = MeltConfig::default();
    assert_eq!(cfg.keybindings.get("Mod4+Return").map(|s| s.as_str()), Some("spawn:foot"));
    assert_eq!(cfg.keybindings.get("Mod4+q").map(|s| s.as_str()), Some("close"));
    assert_eq!(cfg.keybindings.get("Mod4+Shift+e").map(|s| s.as_str()), Some("exit"));
    assert_eq!(cfg.keybindings.get("Mod4+d").map(|s| s.as_str()), Some("spawn:fuzzel"));
    assert!(!cfg.keybindings.contains_key("Mod4+x"));
    assert!(!cfg.keybindings.contains_key("mod4+return"));
}

#[test]
fn keybindings_insert_overrides() {
    let mut k = KeyBindings::new();
    assert_eq!(k.insert("Mod4+t".to_string(), "spawn:a".to_string()), None);
    assert_eq!(k.insert("Mod4+t".to_string(), "spawn:b".to_string()), Some("spawn:a".to_string()));
    assert_eq!(k.get("Mod4+t").map(|s| s.as_str()), Some("spawn:b"));
    assert!(k.get("Mod4+u").is_none());
}

#[test]
fn config_candidates_order_and_joining() {
    let c = MeltConfig::config_candidates(Some("/xdg"), Some("/home/u"));
    assert_eq!(c, vec!["/xdg/melt/config.toml".to_string(), "/home/u/.config/melt/config.toml".to_string()]);
    let c = MeltConfig::config_candidates(Some("/xdg/"), None);
    assert_eq!(c, vec!["/xdg/melt/config.toml".to_string()]);
    let c = MeltConfig::config_candidates(None, Some(""));
    assert_eq!(c, vec![".config/melt/config.toml".to_string()]);
    assert!(MeltConfig::config_candidates(None, None).is_empty());
}

#[test]
fn decoration_config_from_default() {
    let d = DecorationConfig::from_config(&MeltConfig::default());
    assert_eq!(d.border_width, 2);
    assert_eq!(d.title_bar_height, 30);
}

#[test]
fn decoration_config_wraps_large_sizes() {
    let mut cfg = MeltConfig::default();
    cfg.appearance.border_width = u32::MAX;
    let d = DecorationConfig::from_config(&cfg);
    assert_eq!(d.border_width, -1);
}
