//! Panel design tokens: the immutable Default look, the Light and Dark presets, and a
//! validated Custom profile, with the CSS variables the chrome reads.
//!
//! The font scale is held in hundredths (`100` is 1.0), the two decimals the saved
//! profile keeps.

use vstd::prelude::*;
use vstd::string::*;
use crate::panel_theme::{
    hex_digits_part, is_hex_char, is_six_hex, normalize_hex_color, normalize_hex_color_spec, DesignPreset,
};
use crate::text::{
    dec, dec_pad, is_ws, lower_char, lower_str, push_dec, push_dec_pad2, str_eq, to_lower, trim, trim_str,
};

verus! {

/// Editable design tokens (the Custom profile).
#[derive(Clone, Debug, PartialEq)]
pub struct DesignTokens {
    pub accent: String,
    pub accent_focus: String,
    pub radius_px: u8,
    pub density: String,
    /// Font scale in hundredths: `100` is 1.0, `98` is 0.98.
    pub font_scale_pct: u32,
}

/// Tokens as plain values: accent, accent focus, radius, density, font scale.
pub type TokensView = (Seq<char>, Seq<char>, u8, Seq<char>, u32);

pub open spec fn tokens_view(t: DesignTokens) -> TokensView {
    (t.accent@, t.accent_focus@, t.radius_px, t.density@, t.font_scale_pct)
}

/// The built-in CPN look.
pub open spec fn default_tokens_spec() -> TokensView {
    ("#0066cc"@, "#0071e3"@, 18u8, "comfortable"@, 100u32)
}

pub open spec fn light_tokens_spec() -> TokensView {
    ("#0a84ff"@, "#409cff"@, 16u8, "comfortable"@, 100u32)
}

pub open spec fn dark_tokens_spec() -> TokensView {
    ("#3b82f6"@, "#60a5fa"@, 14u8, "compact"@, 98u32)
}

/// Immutable built-in CPN look. Never written to disk as a mutable baseline.
pub fn default_tokens() -> (r: DesignTokens)
    ensures
        tokens_view(r) == default_tokens_spec(),
{
    DesignTokens {
        accent: "#0066cc".to_owned(),
        accent_focus: "#0071e3".to_owned(),
        radius_px: 18,
        density: "comfortable".to_owned(),
        font_scale_pct: 100,
    }
}

fn light_preset_tokens() -> (r: DesignTokens)
    ensures
        tokens_view(r) == light_tokens_spec(),
{
    DesignTokens {
        accent: "#0a84ff".to_owned(),
        accent_focus: "#409cff".to_owned(),
        radius_px: 16,
        density: "comfortable".to_owned(),
        font_scale_pct: 100,
    }
}

fn dark_preset_tokens() -> (r: DesignTokens)
    ensures
        tokens_view(r) == dark_tokens_spec(),
{
    DesignTokens {
        accent: "#3b82f6".to_owned(),
        accent_focus: "#60a5fa".to_owned(),
        radius_px: 14,
        density: "compact".to_owned(),
        font_scale_pct: 98,
    }
}

/// A copy of a token set.
pub fn copy_tokens(t: &DesignTokens) -> (r: DesignTokens)
    ensures
        tokens_view(r) == tokens_view(*t),
{
    DesignTokens {
        accent: t.accent.clone(),
        accent_focus: t.accent_focus.clone(),
        radius_px: t.radius_px,
        density: t.density.clone(),
        font_scale_pct: t.font_scale_pct,
    }
}

/// Validation: both colours `#RRGGBB` (normalised to lower case), radius 8 to 28 px,
/// density `comfortable` or `compact` (trimmed, any ASCII case, stored lower-case), font
/// scale 0.9 to 1.25; the first failing check names the error.
pub open spec fn validate_spec(t: TokensView) -> Result<TokensView, Seq<char>> {
    match normalize_hex_color_spec(t.0, "accent"@) {
        Err(e) => Err(e),
        Ok(accent) => match normalize_hex_color_spec(t.1, "accent_focus"@) {
            Err(e) => Err(e),
            Ok(focus) => if !(8 <= t.2 <= 28) {
                Err("radius_px must be between 8 and 28"@)
            } else if to_lower(trim(t.3)) != "comfortable"@ && to_lower(trim(t.3)) != "compact"@ {
                Err("density must be comfortable or compact"@)
            } else if !(90 <= t.4 <= 125) {
                Err("font_scale must be between 0.9 and 1.25"@)
            } else {
                Ok((accent, focus, t.2, to_lower(trim(t.3)), t.4))
            },
        },
    }
}

impl DesignTokens {
    pub fn validate(self) -> (r: Result<DesignTokens, String>)
        ensures
            match r {
                Ok(t) => validate_spec(tokens_view(self)) == Ok::<TokensView, Seq<char>>(tokens_view(t)),
                Err(e) => validate_spec(tokens_view(self)) == Err::<TokensView, Seq<char>>(e@),
            },
    {
        let accent = match normalize_hex_color(self.accent.as_str(), "accent") {
            Ok(a) => a,
            Err(e) => return Err(e),
        };
        let focus = match normalize_hex_color(self.accent_focus.as_str(), "accent_focus") {
            Ok(a) => a,
            Err(e) => return Err(e),
        };
        if !(8 <= self.radius_px && self.radius_px <= 28) {
            return Err("radius_px must be between 8 and 28".to_owned());
        }
        let t = trim_str(self.density.as_str());
        let density = lower_str(t.as_str());
        if !str_eq(density.as_str(), "comfortable") && !str_eq(density.as_str(), "compact") {
            return Err("density must be comfortable or compact".to_owned());
        }
        if !(90 <= self.font_scale_pct && self.font_scale_pct <= 125) {
            return Err("font_scale must be between 0.9 and 1.25".to_owned());
        }
        Ok(DesignTokens {
            accent,
            accent_focus: focus,
            radius_px: self.radius_px,
            density,
            font_scale_pct: self.font_scale_pct,
        })
    }
}

/// The saved design: the active preset and an optional Custom profile.
#[derive(Debug)]
pub struct PanelDesignFile {
    pub schema_version: u32,
    pub preset: DesignPreset,
    pub custom: Option<DesignTokens>,
}

pub open spec fn custom_view(c: Option<DesignTokens>) -> Option<TokensView> {
    match c {
        Some(t) => Some(tokens_view(t)),
        None => None,
    }
}

impl Default for PanelDesignFile {
    fn default() -> (r: PanelDesignFile)
        ensures
            r.schema_version == 1,
            r.preset == DesignPreset::Default,
            r.custom is None,
    {
        PanelDesignFile { schema_version: 1, preset: DesignPreset::Default, custom: None }
    }
}

/// The active token set: the preset's built-in tokens, or the Custom profile (the Default
/// tokens when none was saved).
pub open spec fn resolve_spec(preset: DesignPreset, custom: Option<TokensView>) -> TokensView {
    match preset {
        DesignPreset::Default => default_tokens_spec(),
        DesignPreset::Light => light_tokens_spec(),
        DesignPreset::Dark => dark_tokens_spec(),
        DesignPreset::Custom => match custom {
            Some(t) => t,
            None => default_tokens_spec(),
        },
    }
}

/// Resolve the active token set. Default is always the built-in baseline.
pub fn resolve_tokens(design: &PanelDesignFile) -> (r: DesignTokens)
    ensures
        tokens_view(r) == resolve_spec(design.preset, custom_view(design.custom)),
{
    match design.preset {
        DesignPreset::Default => default_tokens(),
        DesignPreset::Light => light_preset_tokens(),
        DesignPreset::Dark => dark_preset_tokens(),
        DesignPreset::Custom => match &design.custom {
            Some(t) => copy_tokens(t),
            None => default_tokens(),
        },
    }
}

/// The Custom profile after activating `preset`: kept as it is, except that activating
/// Custom with no profile seeds it with the Default tokens.
pub open spec fn applied_custom(preset: DesignPreset, custom: Option<TokensView>) -> Option<TokensView> {
    if preset == DesignPreset::Custom && custom is None {
        Some(default_tokens_spec())
    } else {
        custom
    }
}

/// Activates a preset. Default, Light and Dark keep any saved Custom profile; Custom seeds
/// the profile with the Default tokens when there is none.
pub fn apply_design_preset(design: PanelDesignFile, preset: DesignPreset) -> (r: PanelDesignFile)
    ensures
        r.schema_version == design.schema_version,
        r.preset == preset,
        custom_view(r.custom) == applied_custom(preset, custom_view(design.custom)),
{
    let mut design = design;
    match preset {
        DesignPreset::Custom => {
            if design.custom.is_none() {
                design.custom = Some(default_tokens());
            }
            design.preset = DesignPreset::Custom;
        },
        _ => {
            design.preset = preset;
        },
    }
    design
}

/// Validates `tokens` and makes them the active Custom profile; on a validation error
/// nothing changes and the error is returned.
pub fn save_custom_tokens(design: PanelDesignFile, tokens: DesignTokens) -> (r: Result<PanelDesignFile, String>)
    ensures
        match validate_spec(tokens_view(tokens)) {
            Ok(v) => r matches Ok(d) && d.preset == DesignPreset::Custom && custom_view(d.custom) == Some(v)
                && d.schema_version == design.schema_version,
            Err(e) => r matches Err(m) && m@ == e,
        },
{
    let tokens = match tokens.validate() {
        Ok(t) => t,
        Err(e) => return Err(e),
    };
    let mut design = design;
    design.custom = Some(tokens);
    design.preset = DesignPreset::Custom;
    Ok(design)
}

/// Wipe the Custom profile and return to the immutable Default.
pub fn restore_default_design() -> (r: PanelDesignFile)
    ensures
        r.schema_version == 1,
        r.preset == DesignPreset::Default,
        r.custom is None,
{
    PanelDesignFile::default()
}

/// A font scale in hundredths written as a decimal without trailing zeros: `100` is `1`,
/// `110` is `1.1`, `98` is `0.98`.
pub open spec fn scale_text(p: u32) -> Seq<char> {
    if p % 100 == 0 {
        dec((p / 100) as nat)
    } else if p % 10 == 0 {
        dec((p / 100) as nat) + "."@ + dec(((p % 100) / 10) as nat)
    } else {
        dec((p / 100) as nat) + "."@ + dec_pad((p % 100) as nat, 2)
    }
}

pub(crate) fn push_scale(out: &mut String, p: u32)
    ensures
        final(out)@ == old(out)@ + scale_text(p),
{
    let whole = (p / 100) as u64;
    let frac = (p % 100) as u64;
    push_dec(out, whole);
    if frac != 0 {
        out.append(".");
        if frac % 10 == 0 {
            push_dec(out, frac / 10);
        } else {
            push_dec_pad2(out, frac);
        }
    }
}

/// Inline `:root` CSS variables for the active design (panel chrome and Manage).
pub open spec fn design_css_vars_spec(t: TokensView) -> Seq<char> {
    ":root {\n  --cpn-accent:"@ + t.0 + ";\n  --cpn-accent-focus:"@ + t.1 + ";\n  --cpn-radius:"@ + dec(t.2 as nat)
        + "px;\n  --cpn-density:"@ + (if t.3 == "compact"@ { "0.92"@ } else { "1"@ }) + ";\n  --cpn-font-scale:"@
        + scale_text(t.4)
        + ";\n  --blue:var(--cpn-accent);\n  --blue-focus:var(--cpn-accent-focus);\n}\nbody { font-size:calc(17px * var(--cpn-font-scale)); }\n.resource-card, .status-card, .activity-card, .section-card, .server-summary {\n  border-radius:var(--cpn-radius);\n}\n.site-manage {\n  --m-accent:var(--cpn-accent);\n}\n"@
}

pub fn design_css_vars(design: &PanelDesignFile) -> (r: String)
    ensures
        r@ == design_css_vars_spec(resolve_spec(design.preset, custom_view(design.custom))),
{
    let t = resolve_tokens(design);
    let mut out = ":root {\n  --cpn-accent:".to_owned();
    out.append(t.accent.as_str());
    out.append(";\n  --cpn-accent-focus:");
    out.append(t.accent_focus.as_str());
    out.append(";\n  --cpn-radius:");
    push_dec(&mut out, t.radius_px as u64);
    out.append("px;\n  --cpn-density:");
    out.append(if str_eq(t.density.as_str(), "compact") { "0.92" } else { "1" });
    out.append(";\n  --cpn-font-scale:");
    push_scale(&mut out, t.font_scale_pct);
    out.append(";\n  --blue:var(--cpn-accent);\n  --blue-focus:var(--cpn-accent-focus);\n}\nbody { font-size:calc(17px * var(--cpn-font-scale)); }\n.resource-card, .status-card, .activity-card, .section-card, .server-summary {\n  border-radius:var(--cpn-radius);\n}\n.site-manage {\n  --m-accent:var(--cpn-accent);\n}\n");
    out
}

/// A normalised colour normalises to itself.
proof fn lemma_hex_color_fixed(raw: Seq<char>, field: Seq<char>)
    requires
        normalize_hex_color_spec(raw, field) is Ok,
    ensures
        normalize_hex_color_spec(normalize_hex_color_spec(raw, field)->Ok_0, field) == normalize_hex_color_spec(raw, field),
{
    reveal_strlit("#");
    let hex = hex_digits_part(raw);
    let low = to_lower(hex);
    let v = "#"@ + low;
    assert(v[0] == '#');
    assert(v.last() == low[5]);
    assert(low[5] == lower_char(hex[5]));
    assert(is_hex_char(hex[5]));
    crate::text::lemma_trim_no_ws(v);
    assert(v.drop_first() =~= low);
    assert forall|i: int| 0 <= i < 6 implies is_hex_char(#[trigger] low[i]) by {
        assert(low[i] == lower_char(hex[i]));
        assert(is_hex_char(hex[i]));
    }
    assert(is_six_hex(low));
    assert(to_lower(low) =~= low);
}

/// Law: validation is idempotent; a validated token set validates to itself.
pub proof fn lemma_validate_idempotent(t: TokensView)
    requires
        validate_spec(t) is Ok,
    ensures
        validate_spec(validate_spec(t)->Ok_0) == validate_spec(t),
{
    lemma_hex_color_fixed(t.0, "accent"@);
    lemma_hex_color_fixed(t.1, "accent_focus"@);
    crate::text::lemma_lower_trim_idempotent(t.3);
}

/// Law: once saved, a Custom profile is exactly what the design resolves to.
pub proof fn lemma_saved_custom_resolves(t: TokensView)
    requires
        validate_spec(t) is Ok,
    ensures
        resolve_spec(DesignPreset::Custom, Some(validate_spec(t)->Ok_0)) == validate_spec(t)->Ok_0,
{
}

/// Law: the Default preset resolves to the built-in tokens whatever Custom profile is kept.
pub proof fn lemma_default_ignores_custom(custom: Option<TokensView>)
    ensures
        resolve_spec(DesignPreset::Default, custom) == default_tokens_spec(),
{
}

/// Law: switching preset keeps a saved Custom profile. After tokens `t` are saved, any
/// preset can be activated: the profile stays as saved, the design resolves to that
/// preset's tokens (the saved ones for Custom), and activating Custom again brings the
/// saved tokens back.
pub proof fn lemma_preset_switch_keeps_custom(t: TokensView, p: DesignPreset)
    requires
        validate_spec(t) is Ok,
    ensures
        ({
            let saved = Some(validate_spec(t)->Ok_0);
            let switched = applied_custom(p, saved);
            &&& switched == saved
            &&& resolve_spec(p, switched) == (if p == DesignPreset::Custom {
                validate_spec(t)->Ok_0
            } else {
                resolve_spec(p, None)
            })
            &&& applied_custom(DesignPreset::Custom, switched) == saved
            &&& resolve_spec(DesignPreset::Custom, applied_custom(DesignPreset::Custom, switched))
                == validate_spec(t)->Ok_0
        }),
{
}

} // verus!
