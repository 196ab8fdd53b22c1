//! Panel-wide design presets and per-user light/dark color mode.
//!
//! Design profiles live panel-wide; **Default** is an immutable built-in baseline and custom
//! edits never overwrite it. The per-user color mode is mirrored in `localStorage`
//! (`cpn-color-mode`).

use vstd::prelude::*;
use vstd::string::*;
use crate::text::{
    chars_of, eq_ignore_case, lower_char, lower_of, lower_vec, push_char, string_of_chars,
    string_of_range, to_lower, trim, trim_bounds, vec_eq, vec_range,
};

verus! {

pub const COLOR_MODE_STORAGE_KEY: &'static str = "cpn-color-mode";

pub const COLOR_MODE_STYLES: &'static str = "\n[data-color-mode=\"dark\"] {\n  --canvas:#1a1d26; --surface:#12141a; --surface-soft:#161922; --ink:#f2f4f7;\n  --muted:#98a2b3; --hairline:#2a2f3a; --green:#3dd68c;\n}\n[data-color-mode=\"dark\"] body,\n[data-color-mode=\"dark\"] .panel-layout { background:var(--surface); color:var(--ink); }\n[data-color-mode=\"dark\"] .sidebar {\n  background:rgba(22,25,34,.96); border-right-color:var(--hairline);\n}\n[data-color-mode=\"dark\"] .sidebar nav a { color:#c5cad3; }\n[data-color-mode=\"dark\"] .sidebar nav a.active {\n  background:rgba(59,130,246,.18); color:var(--blue);\n}\n[data-color-mode=\"dark\"] .mobile-header {\n  background:rgba(22,25,34,.94); border-bottom-color:var(--hairline);\n}\n[data-color-mode=\"dark\"] .gauge-track { stroke:#2a2f3a; }\n[data-color-mode=\"dark\"] .status-card li,\n[data-color-mode=\"dark\"] .activity-card > div,\n[data-color-mode=\"dark\"] .data-table th,\n[data-color-mode=\"dark\"] .data-table td,\n[data-color-mode=\"dark\"] .kv-list li {\n  border-top-color:#2a2f3a;\n}\n[data-color-mode=\"dark\"] .panel-notice.ok { background:#052e1c; border-color:#0f7a45; color:#6ce9a6; }\n[data-color-mode=\"dark\"] .panel-notice.error { background:#3f1d22; border-color:#912018; color:#fda29b; }\n[data-color-mode=\"dark\"] .btn-danger { background:#3f1d22; color:#fda29b; }\n[data-color-mode=\"dark\"] .stack-form input {\n  background:#1a1d26; border-color:#2a2f3a; color:var(--ink);\n}\n.theme-toggle {\n  display:flex; align-items:center; gap:10px; width:100%; min-height:44px;\n  padding:0 12px; margin:0 0 8px; border:1px solid var(--hairline);\n  border-radius:12px; background:var(--canvas); color:var(--ink); font:inherit; font-weight:600;\n  font-size:13px; text-align:left; cursor:pointer;\n}\n.theme-toggle:focus-visible { outline:2px solid var(--blue-focus); outline-offset:2px; }\n.theme-toggle-icon {\n  width:28px; height:28px; border-radius:8px; display:inline-grid; place-items:center;\n  background:var(--surface); border:1px solid var(--hairline); font-size:14px; line-height:1;\n}\n.sidebar-footer { flex-direction:column; align-items:stretch; gap:4px; }\n.sidebar-footer .logout { margin-left:0; width:100%; justify-content:flex-start; }\n";

/// Light or dark panel chrome, chosen per user.
#[derive(Clone, Copy, Debug, PartialEq, Eq, Structural)]
pub enum ColorMode {
    Light,
    Dark,
}

pub open spec fn color_mode_str(m: ColorMode) -> Seq<char> {
    match m {
        ColorMode::Light => "light"@,
        ColorMode::Dark => "dark"@,
    }
}

/// `light`/`dark` after trimming, in any ASCII case.
pub open spec fn color_mode_parse_spec(raw: Seq<char>) -> Option<ColorMode> {
    let t = to_lower(trim(raw));
    if t == "light"@ {
        Some(ColorMode::Light)
    } else if t == "dark"@ {
        Some(ColorMode::Dark)
    } else {
        None
    }
}

pub open spec fn color_mode_toggle_spec(m: ColorMode) -> ColorMode {
    match m {
        ColorMode::Light => ColorMode::Dark,
        ColorMode::Dark => ColorMode::Light,
    }
}

/// Trimmed and lower-cased text (the form the parsers compare).
fn folded(raw: &str) -> (r: Vec<char>)
    ensures
        r@ == to_lower(trim(raw@)),
{
    let v = chars_of(raw);
    let (a, b) = trim_bounds(&v);
    lower_vec(&vec_range(&v, a, b))
}

fn is_word(v: &Vec<char>, w: &str) -> (r: bool)
    ensures
        r == (v@ == w@),
{
    vec_eq(v, &chars_of(w))
}

impl ColorMode {
    pub fn as_str(self) -> (r: &'static str)
        ensures
            r@ == color_mode_str(self),
    {
        match self {
            ColorMode::Light => "light",
            ColorMode::Dark => "dark",
        }
    }

    pub fn parse(raw: &str) -> (r: Option<ColorMode>)
        ensures
            r == color_mode_parse_spec(raw@),
    {
        let t = folded(raw);
        if is_word(&t, "light") {
            Some(ColorMode::Light)
        } else if is_word(&t, "dark") {
            Some(ColorMode::Dark)
        } else {
            None
        }
    }

    pub fn toggle(self) -> (r: ColorMode)
        ensures
            r == color_mode_toggle_spec(self),
    {
        match self {
            ColorMode::Light => ColorMode::Dark,
            ColorMode::Dark => ColorMode::Light,
        }
    }
}

impl Default for ColorMode {
    fn default() -> (r: ColorMode)
        ensures
            r == ColorMode::Light,
    {
        ColorMode::Light
    }
}

/// Law: a color mode's name parses back to it.
pub proof fn lemma_color_mode_round_trip(m: ColorMode)
    ensures
        color_mode_parse_spec(color_mode_str(m)) == Some(m),
{
    reveal_strlit("light");
    reveal_strlit("dark");
    crate::text::lemma_trim_no_ws(color_mode_str(m));
    assert(to_lower(color_mode_str(m)) =~= color_mode_str(m));
}

/// Law: toggling twice gives the mode back, and toggling always changes it.
pub proof fn lemma_color_mode_toggle(m: ColorMode)
    ensures
        color_mode_toggle_spec(color_mode_toggle_spec(m)) == m,
        color_mode_toggle_spec(m) != m,
{
}

/// Panel-wide design preset.
#[derive(Clone, Copy, Debug, PartialEq, Eq, Structural)]
pub enum DesignPreset {
    Default,
    Light,
    Dark,
    Custom,
}

pub open spec fn preset_str(p: DesignPreset) -> Seq<char> {
    match p {
        DesignPreset::Default => "default"@,
        DesignPreset::Light => "light"@,
        DesignPreset::Dark => "dark"@,
        DesignPreset::Custom => "custom"@,
    }
}

pub open spec fn preset_parse_spec(raw: Seq<char>) -> Option<DesignPreset> {
    let t = to_lower(trim(raw));
    if t == "default"@ {
        Some(DesignPreset::Default)
    } else if t == "light"@ {
        Some(DesignPreset::Light)
    } else if t == "dark"@ {
        Some(DesignPreset::Dark)
    } else if t == "custom"@ {
        Some(DesignPreset::Custom)
    } else {
        None
    }
}

impl DesignPreset {
    pub fn as_str(self) -> (r: &'static str)
        ensures
            r@ == preset_str(self),
    {
        match self {
            DesignPreset::Default => "default",
            DesignPreset::Light => "light",
            DesignPreset::Dark => "dark",
            DesignPreset::Custom => "custom",
        }
    }

    pub fn parse(raw: &str) -> (r: Option<DesignPreset>)
        ensures
            r == preset_parse_spec(raw@),
    {
        let t = folded(raw);
        if is_word(&t, "default") {
            Some(DesignPreset::Default)
        } else if is_word(&t, "light") {
            Some(DesignPreset::Light)
        } else if is_word(&t, "dark") {
            Some(DesignPreset::Dark)
        } else if is_word(&t, "custom") {
            Some(DesignPreset::Custom)
        } else {
            None
        }
    }
}

impl Default for DesignPreset {
    fn default() -> (r: DesignPreset)
        ensures
            r == DesignPreset::Default,
    {
        DesignPreset::Default
    }
}

/// Law: a preset's name parses back to it.
pub proof fn lemma_preset_round_trip(p: DesignPreset)
    ensures
        preset_parse_spec(preset_str(p)) == Some(p),
{
    reveal_strlit("default");
    reveal_strlit("light");
    reveal_strlit("dark");
    reveal_strlit("custom");
    crate::text::lemma_trim_no_ws(preset_str(p));
    assert(to_lower(preset_str(p)) =~= preset_str(p));
}

/// The color mode a user's shared preferences record holds.
pub fn load_user_color_mode(prefs: &crate::panel_user_prefs::UserUiPrefs) -> (r: ColorMode)
    ensures
        r == prefs.color_mode,
{
    prefs.color_mode
}

/// Sets a user's color mode in their shared preferences record and returns it; the
/// minimalist mode and the SSH review snooze kept in the same record stay as they were.
pub fn save_user_color_mode(prefs: &mut crate::panel_user_prefs::UserUiPrefs, mode: ColorMode) -> (r: ColorMode)
    ensures
        r == mode,
        final(prefs).color_mode == mode,
        final(prefs).minimalist_mode == old(prefs).minimalist_mode,
        final(prefs).ssh_security_review_snooze_until == old(prefs).ssh_security_review_snooze_until,
{
    crate::panel_user_prefs::save_user_color_mode(prefs, mode)
}

/// Dark color-mode surface overrides (extends the light `:root` tokens).
pub fn color_mode_styles() -> (r: &'static str)
    ensures
        r@ == COLOR_MODE_STYLES@,
{
    COLOR_MODE_STYLES
}

/// A character kept in a per-user prefs file name.
pub open spec fn safe_key_char(c: char) -> bool {
    (48 <= (c as u32) && (c as u32) <= 57) || (65 <= (c as u32) && (c as u32) <= 90) || (97 <= (c as u32)
        && (c as u32) <= 122) || c == '-' || c == '_' || c == '.'
}

pub open spec fn key_char(c: char) -> char {
    if safe_key_char(c) {
        lower_char(c)
    } else {
        '_'
    }
}

/// File-name key for a user: trimmed, ASCII letters/digits/`-_.` kept lower-cased, anything
/// else `_`, cut to 128 characters; `user` when empty.
pub open spec fn safe_username_key_spec(username: Seq<char>) -> Seq<char> {
    let t = trim(username);
    if t.len() == 0 {
        "user"@
    } else {
        t.map_values(|c: char| key_char(c)).take(if t.len() > 128 { 128 } else { t.len() as int })
    }
}

pub fn safe_username_key(username: &str) -> (r: String)
    ensures
        r@ == safe_username_key_spec(username@),
{
    let v = chars_of(username);
    let (a, b) = trim_bounds(&v);
    let t = vec_range(&v, a, b);
    if t.len() == 0 {
        return "user".to_owned();
    }
    let n = if t.len() > 128 { 128 } else { t.len() };
    let mut out = String::new();
    let mut i: usize = 0;
    while i < n
        invariant
            n <= t.len(),
            i <= n,
            out@ == t@.map_values(|c: char| key_char(c)).take(i as int),
        decreases n - i,
    {
        let c = t[i];
        let u = c as u32;
        let safe = (48 <= u && u <= 57) || (65 <= u && u <= 90) || (97 <= u && u <= 122) || c == '-'
            || c == '_' || c == '.';
        if safe {
            push_char(&mut out, lower_of(c));
        } else {
            push_char(&mut out, '_');
        }
        assert(t@.map_values(|c: char| key_char(c)).take(i + 1) =~= t@.map_values(|c: char| key_char(c)).take(i as int).push(key_char(t@[i as int])));
        i += 1;
    }
    out
}

/// Law: a prefs key never holds a path separator or other unsafe character.
pub proof fn lemma_safe_username_key_is_path_safe(username: Seq<char>)
    ensures
        safe_username_key_spec(username).len() > 0,
        forall|i: int| 0 <= i < safe_username_key_spec(username).len() ==> safe_key_char(
            #[trigger] safe_username_key_spec(username)[i],
        ),
{
    reveal_strlit("user");
    let t = trim(username);
    if t.len() > 0 {
        let m = t.map_values(|c: char| key_char(c));
        assert forall|i: int| 0 <= i < m.len() implies safe_key_char(#[trigger] m[i]) by {
            let c = t[i];
            if safe_key_char(c) {
                vstd::utf8::char_u32_cast(lower_char(c), lower_char(c) as u32);
            }
        }
    }
}

pub open spec fn is_hex_char(c: char) -> bool {
    (48 <= (c as u32) && (c as u32) <= 57) || (65 <= (c as u32) && (c as u32) <= 70) || (97 <= (c as u32)
        && (c as u32) <= 102)
}

/// The part of a colour value after trimming and dropping one leading `#`.
pub open spec fn hex_digits_part(raw: Seq<char>) -> Seq<char> {
    let value = trim(raw);
    if value.len() > 0 && value[0] == '#' {
        value.drop_first()
    } else {
        value
    }
}

pub open spec fn is_six_hex(hex: Seq<char>) -> bool {
    hex.len() == 6 && forall|i: int| 0 <= i < 6 ==> is_hex_char(#[trigger] hex[i])
}

/// `#RRGGBB`: the trimmed value, an optional leading `#`, exactly six hex digits; lower-cased.
pub open spec fn normalize_hex_color_spec(raw: Seq<char>, field: Seq<char>) -> Result<Seq<char>, Seq<char>> {
    let hex = hex_digits_part(raw);
    if is_six_hex(hex) {
        Ok("#"@ + to_lower(hex))
    } else {
        Err(field + " must be a #RRGGBB color"@)
    }
}

pub fn normalize_hex_color(raw: &str, field: &str) -> (r: Result<String, String>)
    ensures
        match r {
            Ok(v) => normalize_hex_color_spec(raw@, field@) == Ok::<Seq<char>, Seq<char>>(v@),
            Err(e) => normalize_hex_color_spec(raw@, field@) == Err::<Seq<char>, Seq<char>>(e@),
        },
{
    let v = chars_of(raw);
    let (a, b) = trim_bounds(&v);
    let value = vec_range(&v, a, b);
    let start: usize = if value.len() > 0 && value[0] == '#' { 1 } else { 0 };
    let hex = vec_range(&value, start, value.len());
    assert(start == 1 ==> hex@ =~= value@.drop_first());
    assert(start == 0 ==> hex@ =~= value@);
    let mut ok = hex.len() == 6;
    let mut i: usize = 0;
    while ok && i < 6
        invariant
            value@ == trim(raw@),
            hex@ == (if value@.len() > 0 && value@[0] == '#' {
                value@.drop_first()
            } else {
                value@
            }),
            ok ==> hex@.len() == 6,
            i <= 6,
            ok ==> forall|j: int| 0 <= j < i ==> is_hex_char(#[trigger] hex@[j]),
            !ok ==> !(hex@.len() == 6 && forall|j: int| 0 <= j < 6 ==> is_hex_char(#[trigger] hex@[j])),
        decreases 6 - i,
    {
        let u: u32 = hex[i] as u32;
        if !((48 <= u && u <= 57) || (65 <= u && u <= 70) || (97 <= u && u <= 102)) {
            assert(!is_hex_char(hex@[i as int]));
            ok = false;
        }
        i += 1;
    }
    if ok {
        let mut out = "#".to_owned();
        let low = lower_vec(&hex);
        let s = string_of_chars(&low);
        out.append(s.as_str());
        assert(out@ =~= "#"@ + to_lower(hex@));
        assert(i == 6);
        assert(forall|j: int| 0 <= j < 6 ==> is_hex_char(#[trigger] hex@[j]));
        assert(normalize_hex_color_spec(raw@, field@) == Ok::<Seq<char>, Seq<char>>("#"@ + to_lower(hex@)));
        Ok(out)
    } else {
        assert(hex@ == hex_digits_part(raw@));
        assert(!is_six_hex(hex@));
        let mut e = field.to_owned();
        e.append(" must be a #RRGGBB color");
        Err(e)
    }
}

} // verus!
