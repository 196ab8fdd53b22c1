use cpn_panel::panel_design::{
    apply_design_preset, default_tokens, design_css_vars, resolve_tokens, restore_default_design,
    save_custom_tokens, DesignTokens, PanelDesignFile,
};
use cpn_panel::panel_theme::DesignPreset;
use cpn_panel::panel_theme_chrome::token_fields;

#[test]
fn default_tokens_are_stable() {
    let a = default_tokens();
    let b = default_tokens();
    assert_eq!(a, b);
    assert_eq!(a.accent, "#0066cc");
}

#[test]
fn validate_rejects_bad_hex_and_radius() {
    let bad = DesignTokens {
        accent: "blue".into(),
        accent_focus: "#0071e3".into(),
        radius_px: 18,
        density: "comfortable".into(),
        font_scale_pct: 100,
    };
    assert!(bad.validate().is_err());
    let wide = DesignTokens {
        accent: "#0066cc".into(),
        accent_focus: "#0071e3".into(),
        radius_px: 99,
        density: "comfortable".into(),
        font_scale_pct: 100,
    };
    assert!(wide.validate().is_err());
}

#[test]
fn custom_save_and_restore_default() {
    let tokens = DesignTokens {
        accent: "#112233".into(),
        accent_focus: "#445566".into(),
        radius_px: 12,
        density: "compact".into(),
        font_scale_pct: 110,
    };
    let saved = save_custom_tokens(PanelDesignFile::default(), tokens.clone()).expect("save custom");
    assert_eq!(saved.preset, DesignPreset::Custom);
    assert_eq!(resolve_tokens(&saved).accent, "#112233");

    let restored = restore_default_design();
    assert_eq!(restored.preset, DesignPreset::Default);
    assert!(restored.custom.is_none());
    assert_eq!(resolve_tokens(&restored), default_tokens());
}

#[test]
fn switching_to_default_keeps_custom_on_disk_until_restore() {
    let saved = save_custom_tokens(
        PanelDesignFile::default(),
        DesignTokens {
            accent: "#abcdef".into(),
            accent_focus: "#fedcba".into(),
            radius_px: 10,
            density: "compact".into(),
            font_scale_pct: 95,
        },
    )
    .unwrap();
    let design = apply_design_preset(saved, DesignPreset::Default);
    assert_eq!(design.preset, DesignPreset::Default);
    assert!(design.custom.is_some());
    assert_eq!(resolve_tokens(&design), default_tokens());
}

#[test]
fn validation_normalises_and_orders_errors() {
    let t = DesignTokens {
        accent: " #AbCdEf ".into(),
        accent_focus: "123456".into(),
        radius_px: 8,
        density: " Compact ".into(),
        font_scale_pct: 125,
    };
    let v = t.validate().unwrap();
    assert_eq!(v.accent, "#abcdef");
    assert_eq!(v.accent_focus, "#123456");
    assert_eq!(v.density, "compact");
    assert_eq!(v.clone().validate().unwrap(), v);
    let err = |accent: &str, radius: u8, density: &str, pct: u32| {
        DesignTokens {
            accent: accent.into(),
            accent_focus: "#000000".into(),
            radius_px: radius,
            density: density.into(),
            font_scale_pct: pct,
        }
        .validate()
        .unwrap_err()
    };
    assert_eq!(err("#12345", 99, "x", 1), "accent must be a #RRGGBB color");
    assert_eq!(err("#123456", 29, "x", 1), "radius_px must be between 8 and 28");
    assert_eq!(err("#123456", 28, "roomy", 1), "density must be comfortable or compact");
    assert_eq!(err("#123456", 28, "compact", 89), "font_scale must be between 0.9 and 1.25");
    assert_eq!(err("#123456", 28, "compact", 126), "font_scale must be between 0.9 and 1.25");
}

#[test]
fn presets_and_custom_seed() {
    let d = apply_design_preset(PanelDesignFile::default(), DesignPreset::Dark);
    let t = resolve_tokens(&d);
    assert_eq!(t.accent, "#3b82f6");
    assert_eq!(t.font_scale_pct, 98);
    let c = apply_design_preset(PanelDesignFile::default(), DesignPreset::Custom);
    assert_eq!(c.custom, Some(default_tokens()));
    let l = apply_design_preset(c, DesignPreset::Light);
    assert_eq!(resolve_tokens(&l).accent, "#0a84ff");
    assert_eq!(l.custom, Some(default_tokens()));
}

#[test]
fn css_vars_print_scale_without_trailing_zeros() {
    let css = design_css_vars(&PanelDesignFile::default());
    assert!(css.contains("--cpn-accent:#0066cc;"));
    assert!(css.contains("--cpn-radius:18px;"));
    assert!(css.contains("--cpn-density:1;"));
    assert!(css.contains("--cpn-font-scale:1;"));
    let dark = apply_design_preset(PanelDesignFile::default(), DesignPreset::Dark);
    let css = design_css_vars(&dark);
    assert!(css.contains("--cpn-density:0.92;"));
    assert!(css.contains("--cpn-font-scale:0.98;"));
    let mut t = default_tokens();
    t.font_scale_pct = 110;
    let d = save_custom_tokens(PanelDesignFile::default(), t).unwrap();
    assert!(design_css_vars(&d).contains("--cpn-font-scale:1.1;"));
    let mut t = default_tokens();
    t.font_scale_pct = 105;
    let d = save_custom_tokens(PanelDesignFile::default(), t).unwrap();
    assert!(design_css_vars(&d).contains("--cpn-font-scale:1.05;"));
}

#[test]
fn token_fields_select_the_density() {
    let html = token_fields(&default_tokens());
    assert!(html.contains("<option value=\"comfortable\" selected>"));
    assert!(html.contains("value=\"1\""));
    assert!(html.contains("value=\"#0066cc\""));
}
