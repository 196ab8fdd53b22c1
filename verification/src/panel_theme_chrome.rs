//! Sidebar color-mode toggle, boot/toggle scripts and the Design editor markup.

use vstd::prelude::*;
use vstd::string::*;
use crate::panel_theme::{ColorMode, DesignPreset, color_mode_str, preset_str, COLOR_MODE_STORAGE_KEY};
use crate::text::{dec, html_escaped, push_dec, push_escaped, str_eq};

verus! {

pub const COLOR_MODE_TOGGLE_SCRIPT: &'static str = "\n<script>\n(function () {\n  var KEY = \"cpn-color-mode\";\n  var btn = document.getElementById(\"cpn-color-toggle\");\n  if (!btn) return;\n\n  function applyMode(mode) {\n    document.documentElement.setAttribute(\"data-color-mode\", mode);\n    document.body.setAttribute(\"data-color-mode\", mode);\n    btn.setAttribute(\"data-mode\", mode);\n    btn.setAttribute(\"aria-pressed\", mode === \"dark\" ? \"true\" : \"false\");\n    var label = btn.querySelector(\".theme-toggle-label\");\n    var icon = btn.querySelector(\".theme-toggle-icon\");\n    if (label) label.textContent = mode === \"dark\" ? \"Light mode\" : \"Dark mode\";\n    if (icon) icon.innerHTML = mode === \"dark\" ? \"&#9788;\" : \"&#9790;\";\n    try { window.localStorage.setItem(KEY, mode); } catch (e) {}\n  }\n\n  function currentMode() {\n    return document.body.getAttribute(\"data-color-mode\") === \"dark\" ? \"dark\" : \"light\";\n  }\n\n  btn.addEventListener(\"click\", function () {\n    var next = currentMode() === \"dark\" ? \"light\" : \"dark\";\n    applyMode(next);\n    fetch(\"/api/panel/color-mode\", {\n      method: \"POST\",\n      credentials: \"same-origin\",\n      headers: { \"Content-Type\": \"application/json\", \"Accept\": \"application/json\" },\n      body: JSON.stringify({ color_mode: next })\n    }).catch(function () {});\n  });\n})();\n</script>\n";

/// Sidebar button that switches light/dark; labelled with the mode it switches to.
pub open spec fn sidebar_theme_toggle_spec(color_mode: ColorMode) -> Seq<char> {
    "<button type=\"button\" id=\"cpn-color-toggle\" class=\"theme-toggle\"\n          aria-pressed=\""@ + (if color_mode == ColorMode::Dark { "true"@ } else { "false"@ }) + "\" data-mode=\""@ + color_mode_str(color_mode) + "\" title=\"Toggle light and dark mode\">\n          <span class=\"theme-toggle-icon\" aria-hidden=\"true\">"@ + (if color_mode == ColorMode::Light { "&#9790;"@ } else { "&#9788;"@ }) + "</span>\n          <span class=\"theme-toggle-label\">"@ + (if color_mode == ColorMode::Light { "Dark mode"@ } else { "Light mode"@ }) + "</span>\n        </button>"@
}

#[verifier::rlimit(60)]
#[verifier::spinoff_prover]
pub fn sidebar_theme_toggle(color_mode: ColorMode) -> (r: String)
    ensures
        r@ == sidebar_theme_toggle_spec(color_mode),
{
    let mut out = "<button type=\"button\" id=\"cpn-color-toggle\" class=\"theme-toggle\"\n          aria-pressed=\"".to_owned();
    if color_mode == ColorMode::Dark { out.append("true"); } else { out.append("false"); }
    out.append("\" data-mode=\"");
    out.append(color_mode.as_str());
    out.append("\" title=\"Toggle light and dark mode\">\n          <span class=\"theme-toggle-icon\" aria-hidden=\"true\">");
    if color_mode == ColorMode::Light { out.append("&#9790;"); } else { out.append("&#9788;"); }
    out.append("</span>\n          <span class=\"theme-toggle-label\">");
    if color_mode == ColorMode::Light { out.append("Dark mode"); } else { out.append("Light mode"); }
    out.append("</span>\n        </button>");
    proof {
        assert(out@ =~= sidebar_theme_toggle_spec(color_mode));
    }
    out
}

/// Inline script applying the stored mode before paint, seeded with the server mode.
pub open spec fn color_mode_boot_script_spec(color_mode: ColorMode) -> Seq<char> {
    "<script>\n(function () {\n  var KEY = \""@ + COLOR_MODE_STORAGE_KEY@ + "\";\n  var serverMode = \""@ + color_mode_str(color_mode) + "\";\n  try {\n    var stored = window.localStorage.getItem(KEY);\n    if (stored === \"light\" || stored === \"dark\") {\n      document.documentElement.setAttribute(\"data-color-mode\", stored);\n      if (document.body) document.body.setAttribute(\"data-color-mode\", stored);\n    } else {\n      document.documentElement.setAttribute(\"data-color-mode\", serverMode);\n      window.localStorage.setItem(KEY, serverMode);\n    }\n  } catch (e) {\n    document.documentElement.setAttribute(\"data-color-mode\", serverMode);\n  }\n})();\n</script>"@
}

pub fn color_mode_boot_script(color_mode: ColorMode) -> (r: String)
    ensures
        r@ == color_mode_boot_script_spec(color_mode),
{
    let mut out = "<script>\n(function () {\n  var KEY = \"".to_owned();
    out.append(COLOR_MODE_STORAGE_KEY);
    out.append("\";\n  var serverMode = \"");
    out.append(color_mode.as_str());
    out.append("\";\n  try {\n    var stored = window.localStorage.getItem(KEY);\n    if (stored === \"light\" || stored === \"dark\") {\n      document.documentElement.setAttribute(\"data-color-mode\", stored);\n      if (document.body) document.body.setAttribute(\"data-color-mode\", stored);\n    } else {\n      document.documentElement.setAttribute(\"data-color-mode\", serverMode);\n      window.localStorage.setItem(KEY, serverMode);\n    }\n  } catch (e) {\n    document.documentElement.setAttribute(\"data-color-mode\", serverMode);\n  }\n})();\n</script>");
    proof {
        assert(out@ =~= color_mode_boot_script_spec(color_mode));
    }
    out
}

/// Click handler for the sidebar toggle (persists the choice through the color-mode API).
pub fn color_mode_toggle_script() -> (r: &'static str)
    ensures
        r@ == COLOR_MODE_TOGGLE_SCRIPT@,
{
    COLOR_MODE_TOGGLE_SCRIPT
}

/// Settings > Design inline editor: presets (active one marked, disabled unless the viewer
/// can edit), the rendered token fields, and save/restore for editors.
pub open spec fn design_settings_panel_spec(preset: DesignPreset, can_edit: bool, fields: &str) -> Seq<char> {
    "<article class=\"section-card cpn-design-inline\" id=\"cpn-design-dialog\">\n  <div class=\"cpn-design-panel\">\n    <header>\n      <h2>Panel Design</h2>\n    </header>\n    <p class=\"manage-muted\">Active preset: <strong id=\"cpn-design-active-preset\">"@ + html_escaped(preset_str(preset)) + "</strong></p>\n    <div class=\"cpn-design-presets\" role=\"group\" aria-label=\"Design presets\">\n      <button type=\"button\" class=\"manage-btn"@ + (if preset == DesignPreset::Default { " active"@ } else { ""@ }) + "\" data-preset=\"default\""@ + (if can_edit { ""@ } else { " disabled"@ }) + ">Default</button>\n      <button type=\"button\" class=\"manage-btn"@ + (if preset == DesignPreset::Light { " active"@ } else { ""@ }) + "\" data-preset=\"light\""@ + (if can_edit { ""@ } else { " disabled"@ }) + ">Light</button>\n      <button type=\"button\" class=\"manage-btn"@ + (if preset == DesignPreset::Dark { " active"@ } else { ""@ }) + "\" data-preset=\"dark\""@ + (if can_edit { ""@ } else { " disabled"@ }) + ">Dark</button>\n      <button type=\"button\" class=\"manage-btn"@ + (if preset == DesignPreset::Custom { " active"@ } else { ""@ }) + "\" data-preset=\"custom\""@ + (if can_edit { ""@ } else { " disabled"@ }) + ">Custom</button>\n    </div>\n    <div class=\"cpn-design-fields\">"@ + fields@ + "</div>\n    "@ + (if can_edit { "<div class=\"cpn-design-actions\">\n  <button type=\"button\" class=\"manage-btn primary\" id=\"cpn-design-save\">Save custom</button>\n  <button type=\"button\" class=\"manage-btn\" id=\"cpn-design-restore\">Restore Default</button>\n</div>\n<p class=\"manage-muted\">Custom saves under /var/lib/cpn/panel-design.json. Default stays an immutable built-in baseline. Optional free-form custom CSS is not stored yet; use token presets above.</p>"@ } else { "<p class=\"manage-muted\">Only the panel admin can change Design. You can still use the sidebar light/dark toggle for your own session.</p>"@ }) + "\n  </div>\n</article>\n<style>\n.cpn-design-inline { max-width:520px; }\n.cpn-design-panel { padding:4px 0 8px; display:grid; gap:12px; }\n.cpn-design-panel header { display:flex; align-items:center; justify-content:space-between; gap:12px; }\n.cpn-design-panel h2 { margin:0; font-size:18px; }\n.cpn-design-presets { display:flex; flex-wrap:wrap; gap:8px; }\n.cpn-design-presets .manage-btn.active { outline:2px solid var(--cpn-accent, var(--blue)); }\n.cpn-design-fields { display:grid; gap:10px; }\n.cpn-design-fields label { display:grid; gap:4px; font-size:13px; font-weight:600; }\n.cpn-design-fields input, .cpn-design-fields select {\n  min-height:40px; border-radius:10px; border:1px solid var(--hairline);\n  background:var(--canvas); color:inherit; padding:0 10px; font:inherit;\n}\n.cpn-design-actions { display:flex; flex-wrap:wrap; gap:8px; }\n.manage-btn {\n  min-height:36px; padding:0 12px; border-radius:10px; border:1px solid var(--hairline);\n  background:var(--canvas); color:inherit; font:inherit; cursor:pointer;\n}\n.manage-btn.primary { background:var(--blue); color:#fff; border-color:transparent; }\n.manage-muted { color:var(--muted); font-size:13px; line-height:1.45; margin:0; }\n</style>\n<script>\n(function () {\n  var root = document.getElementById(\"cpn-design-dialog\");\n  if (!root) return;\n  var canEdit = "@ + (if can_edit { "true"@ } else { "false"@ }) + ";\n\n  function readTokens() {\n    return {\n      accent: document.getElementById(\"cpn-design-accent\").value,\n      accent_focus: document.getElementById(\"cpn-design-accent-focus\").value,\n      radius_px: Number(document.getElementById(\"cpn-design-radius\").value),\n      density: document.getElementById(\"cpn-design-density\").value,\n      font_scale: Number(document.getElementById(\"cpn-design-font-scale\").value)\n    };\n  }\n\n  function setActivePreset(preset) {\n    var label = document.getElementById(\"cpn-design-active-preset\");\n    if (label) label.textContent = preset;\n    root.querySelectorAll(\"[data-preset]\").forEach(function (el) {\n      el.classList.toggle(\"active\", el.getAttribute(\"data-preset\") === preset);\n    });\n  }\n\n  function applyServerTokens(payload) {\n    if (!payload || !payload.tokens) return;\n    var t = payload.tokens;\n    document.getElementById(\"cpn-design-accent\").value = t.accent;\n    document.getElementById(\"cpn-design-accent-focus\").value = t.accent_focus;\n    document.getElementById(\"cpn-design-radius\").value = t.radius_px;\n    document.getElementById(\"cpn-design-density\").value = t.density;\n    document.getElementById(\"cpn-design-font-scale\").value = t.font_scale;\n    setActivePreset(payload.preset || \"default\");\n  }\n\n  function postJson(url, body) {\n    return fetch(url, {\n      method: \"POST\",\n      credentials: \"same-origin\",\n      headers: { \"Content-Type\": \"application/json\", \"Accept\": \"application/json\" },\n      body: JSON.stringify(body || {})\n    }).then(function (res) {\n      return res.json().then(function (data) {\n        if (!res.ok) throw new Error((data && data.error) || (\"HTTP \" + res.status));\n        return data;\n      });\n    });\n  }\n\n  root.querySelectorAll(\"[data-preset]\").forEach(function (btn) {\n    btn.addEventListener(\"click\", function () {\n      if (!canEdit) return;\n      var preset = btn.getAttribute(\"data-preset\");\n      postJson(\"/api/panel/design/preset\", { preset: preset })\n        .then(function (data) { applyServerTokens(data); window.location.reload(); })\n        .catch(function (err) { alert(err.message || String(err)); });\n    });\n  });\n\n  var saveBtn = document.getElementById(\"cpn-design-save\");\n  if (saveBtn) {\n    saveBtn.addEventListener(\"click\", function () {\n      postJson(\"/api/panel/design\", { tokens: readTokens() })\n        .then(function () { window.location.reload(); })\n        .catch(function (err) { alert(err.message || String(err)); });\n    });\n  }\n\n  var restoreBtn = document.getElementById(\"cpn-design-restore\");\n  if (restoreBtn) {\n    restoreBtn.addEventListener(\"click\", function () {\n      if (!window.confirm(\"Restore immutable Default design and clear saved Custom?\")) return;\n      postJson(\"/api/panel/design/restore\", {})\n        .then(function () { window.location.reload(); })\n        .catch(function (err) { alert(err.message || String(err)); });\n    });\n  }\n\n  setActivePreset(\""@ + html_escaped(preset_str(preset)) + "\");\n})();\n</script>"@
}

#[verifier::rlimit(60)]
#[verifier::spinoff_prover]
pub fn design_settings_panel(preset: DesignPreset, can_edit: bool, fields: &str) -> (r: String)
    ensures
        r@ == design_settings_panel_spec(preset, can_edit, fields),
{
    let mut out = "<article class=\"section-card cpn-design-inline\" id=\"cpn-design-dialog\">\n  <div class=\"cpn-design-panel\">\n    <header>\n      <h2>Panel Design</h2>\n    </header>\n    <p class=\"manage-muted\">Active preset: <strong id=\"cpn-design-active-preset\">".to_owned();
    push_escaped(&mut out, preset.as_str());
    out.append("</strong></p>\n    <div class=\"cpn-design-presets\" role=\"group\" aria-label=\"Design presets\">\n      <button type=\"button\" class=\"manage-btn");
    if preset == DesignPreset::Default { out.append(" active"); } else { out.append(""); }
    out.append("\" data-preset=\"default\"");
    if can_edit { out.append(""); } else { out.append(" disabled"); }
    out.append(">Default</button>\n      <button type=\"button\" class=\"manage-btn");
    if preset == DesignPreset::Light { out.append(" active"); } else { out.append(""); }
    out.append("\" data-preset=\"light\"");
    if can_edit { out.append(""); } else { out.append(" disabled"); }
    out.append(">Light</button>\n      <button type=\"button\" class=\"manage-btn");
    if preset == DesignPreset::Dark { out.append(" active"); } else { out.append(""); }
    out.append("\" data-preset=\"dark\"");
    if can_edit { out.append(""); } else { out.append(" disabled"); }
    out.append(">Dark</button>\n      <button type=\"button\" class=\"manage-btn");
    if preset == DesignPreset::Custom { out.append(" active"); } else { out.append(""); }
    out.append("\" data-preset=\"custom\"");
    if can_edit { out.append(""); } else { out.append(" disabled"); }
    out.append(">Custom</button>\n    </div>\n    <div class=\"cpn-design-fields\">");
    out.append(fields);
    out.append("</div>\n    ");
    if can_edit { out.append("<div class=\"cpn-design-actions\">\n  <button type=\"button\" class=\"manage-btn primary\" id=\"cpn-design-save\">Save custom</button>\n  <button type=\"button\" class=\"manage-btn\" id=\"cpn-design-restore\">Restore Default</button>\n</div>\n<p class=\"manage-muted\">Custom saves under /var/lib/cpn/panel-design.json. Default stays an immutable built-in baseline. Optional free-form custom CSS is not stored yet; use token presets above.</p>"); } else { out.append("<p class=\"manage-muted\">Only the panel admin can change Design. You can still use the sidebar light/dark toggle for your own session.</p>"); }
    out.append("\n  </div>\n</article>\n<style>\n.cpn-design-inline { max-width:520px; }\n.cpn-design-panel { padding:4px 0 8px; display:grid; gap:12px; }\n.cpn-design-panel header { display:flex; align-items:center; justify-content:space-between; gap:12px; }\n.cpn-design-panel h2 { margin:0; font-size:18px; }\n.cpn-design-presets { display:flex; flex-wrap:wrap; gap:8px; }\n.cpn-design-presets .manage-btn.active { outline:2px solid var(--cpn-accent, var(--blue)); }\n.cpn-design-fields { display:grid; gap:10px; }\n.cpn-design-fields label { display:grid; gap:4px; font-size:13px; font-weight:600; }\n.cpn-design-fields input, .cpn-design-fields select {\n  min-height:40px; border-radius:10px; border:1px solid var(--hairline);\n  background:var(--canvas); color:inherit; padding:0 10px; font:inherit;\n}\n.cpn-design-actions { display:flex; flex-wrap:wrap; gap:8px; }\n.manage-btn {\n  min-height:36px; padding:0 12px; border-radius:10px; border:1px solid var(--hairline);\n  background:var(--canvas); color:inherit; font:inherit; cursor:pointer;\n}\n.manage-btn.primary { background:var(--blue); color:#fff; border-color:transparent; }\n.manage-muted { color:var(--muted); font-size:13px; line-height:1.45; margin:0; }\n</style>\n<script>\n(function () {\n  var root = document.getElementById(\"cpn-design-dialog\");\n  if (!root) return;\n  var canEdit = ");
    if can_edit { out.append("true"); } else { out.append("false"); }
    out.append(";\n\n  function readTokens() {\n    return {\n      accent: document.getElementById(\"cpn-design-accent\").value,\n      accent_focus: document.getElementById(\"cpn-design-accent-focus\").value,\n      radius_px: Number(document.getElementById(\"cpn-design-radius\").value),\n      density: document.getElementById(\"cpn-design-density\").value,\n      font_scale: Number(document.getElementById(\"cpn-design-font-scale\").value)\n    };\n  }\n\n  function setActivePreset(preset) {\n    var label = document.getElementById(\"cpn-design-active-preset\");\n    if (label) label.textContent = preset;\n    root.querySelectorAll(\"[data-preset]\").forEach(function (el) {\n      el.classList.toggle(\"active\", el.getAttribute(\"data-preset\") === preset);\n    });\n  }\n\n  function applyServerTokens(payload) {\n    if (!payload || !payload.tokens) return;\n    var t = payload.tokens;\n    document.getElementById(\"cpn-design-accent\").value = t.accent;\n    document.getElementById(\"cpn-design-accent-focus\").value = t.accent_focus;\n    document.getElementById(\"cpn-design-radius\").value = t.radius_px;\n    document.getElementById(\"cpn-design-density\").value = t.density;\n    document.getElementById(\"cpn-design-font-scale\").value = t.font_scale;\n    setActivePreset(payload.preset || \"default\");\n  }\n\n  function postJson(url, body) {\n    return fetch(url, {\n      method: \"POST\",\n      credentials: \"same-origin\",\n      headers: { \"Content-Type\": \"application/json\", \"Accept\": \"application/json\" },\n      body: JSON.stringify(body || {})\n    }).then(function (res) {\n      return res.json().then(function (data) {\n        if (!res.ok) throw new Error((data && data.error) || (\"HTTP \" + res.status));\n        return data;\n      });\n    });\n  }\n\n  root.querySelectorAll(\"[data-preset]\").forEach(function (btn) {\n    btn.addEventListener(\"click\", function () {\n      if (!canEdit) return;\n      var preset = btn.getAttribute(\"data-preset\");\n      postJson(\"/api/panel/design/preset\", { preset: preset })\n        .then(function (data) { applyServerTokens(data); window.location.reload(); })\n        .catch(function (err) { alert(err.message || String(err)); });\n    });\n  });\n\n  var saveBtn = document.getElementById(\"cpn-design-save\");\n  if (saveBtn) {\n    saveBtn.addEventListener(\"click\", function () {\n      postJson(\"/api/panel/design\", { tokens: readTokens() })\n        .then(function () { window.location.reload(); })\n        .catch(function (err) { alert(err.message || String(err)); });\n    });\n  }\n\n  var restoreBtn = document.getElementById(\"cpn-design-restore\");\n  if (restoreBtn) {\n    restoreBtn.addEventListener(\"click\", function () {\n      if (!window.confirm(\"Restore immutable Default design and clear saved Custom?\")) return;\n      postJson(\"/api/panel/design/restore\", {})\n        .then(function () { window.location.reload(); })\n        .catch(function (err) { alert(err.message || String(err)); });\n    });\n  }\n\n  setActivePreset(\"");
    push_escaped(&mut out, preset.as_str());
    out.append("\");\n})();\n</script>");
    proof {
        assert(out@ =~= design_settings_panel_spec(preset, can_edit, fields));
    }
    out
}

/// Manage > Design button and modal with the same controls.
pub open spec fn manage_design_controls_spec(preset: DesignPreset, can_edit: bool, fields: &str) -> Seq<char> {
    "<button type=\"button\" class=\"manage-btn\" id=\"cpn-design-open\" aria-haspopup=\"dialog\">Design</button>\n<dialog id=\"cpn-design-dialog\" class=\"cpn-design-dialog\">\n  <form method=\"dialog\" class=\"cpn-design-panel\">\n    <header>\n      <h2>Panel Design</h2>\n      <button type=\"submit\" class=\"manage-btn\" value=\"cancel\" aria-label=\"Close\">Close</button>\n    </header>\n    <p class=\"manage-muted\">Active preset: <strong id=\"cpn-design-active-preset\">"@ + html_escaped(preset_str(preset)) + "</strong></p>\n    <div class=\"cpn-design-presets\" role=\"group\" aria-label=\"Design presets\">\n      <button type=\"button\" class=\"manage-btn"@ + (if preset == DesignPreset::Default { " active"@ } else { ""@ }) + "\" data-preset=\"default\""@ + (if can_edit { ""@ } else { " disabled"@ }) + ">Default</button>\n      <button type=\"button\" class=\"manage-btn"@ + (if preset == DesignPreset::Light { " active"@ } else { ""@ }) + "\" data-preset=\"light\""@ + (if can_edit { ""@ } else { " disabled"@ }) + ">Light</button>\n      <button type=\"button\" class=\"manage-btn"@ + (if preset == DesignPreset::Dark { " active"@ } else { ""@ }) + "\" data-preset=\"dark\""@ + (if can_edit { ""@ } else { " disabled"@ }) + ">Dark</button>\n      <button type=\"button\" class=\"manage-btn"@ + (if preset == DesignPreset::Custom { " active"@ } else { ""@ }) + "\" data-preset=\"custom\""@ + (if can_edit { ""@ } else { " disabled"@ }) + ">Custom</button>\n    </div>\n    <div class=\"cpn-design-fields\">"@ + fields@ + "</div>\n    "@ + (if can_edit { "<div class=\"cpn-design-actions\">\n  <button type=\"button\" class=\"manage-btn primary\" id=\"cpn-design-save\">Save custom</button>\n  <button type=\"button\" class=\"manage-btn\" id=\"cpn-design-restore\">Restore Default</button>\n</div>\n<p class=\"manage-muted\">Custom saves under /var/lib/cpn/panel-design.json. Default stays an immutable built-in baseline. Scope: panel-wide chrome and Manage (not per-site branding).</p>"@ } else { "<p class=\"manage-muted\">Only the panel admin can change Design. You can still use the sidebar light/dark toggle for your own session.</p>"@ }) + "\n  </form>\n</dialog>\n<style>\n.cpn-design-dialog { border:1px solid var(--m-line,#2a2f3a); border-radius:16px; padding:0;\n  background:var(--m-card,#1b1e27); color:var(--m-ink,#f2f4f7); max-width:440px; width:calc(100% - 24px); }\n.cpn-design-panel { padding:18px 18px 16px; display:grid; gap:12px; }\n.cpn-design-panel header { display:flex; align-items:center; justify-content:space-between; gap:12px; }\n.cpn-design-panel h2 { margin:0; font-size:18px; }\n.cpn-design-presets { display:flex; flex-wrap:wrap; gap:8px; }\n.cpn-design-presets .manage-btn.active { outline:2px solid var(--m-accent,#3b82f6); }\n.cpn-design-fields { display:grid; gap:10px; }\n.cpn-design-fields label { display:grid; gap:4px; font-size:13px; font-weight:600; }\n.cpn-design-fields input, .cpn-design-fields select {\n  min-height:40px; border-radius:10px; border:1px solid var(--m-line,#2a2f3a);\n  background:#0b0d12; color:inherit; padding:0 10px; font:inherit;\n}\n.cpn-design-actions { display:flex; flex-wrap:wrap; gap:8px; }\n</style>\n<script>\n(function () {\n  var openBtn = document.getElementById(\"cpn-design-open\");\n  var dialog = document.getElementById(\"cpn-design-dialog\");\n  if (!openBtn || !dialog) return;\n  var canEdit = "@ + (if can_edit { "true"@ } else { "false"@ }) + ";\n  openBtn.addEventListener(\"click\", function () { dialog.showModal(); });\n\n  function readTokens() {\n    return {\n      accent: document.getElementById(\"cpn-design-accent\").value,\n      accent_focus: document.getElementById(\"cpn-design-accent-focus\").value,\n      radius_px: Number(document.getElementById(\"cpn-design-radius\").value),\n      density: document.getElementById(\"cpn-design-density\").value,\n      font_scale: Number(document.getElementById(\"cpn-design-font-scale\").value)\n    };\n  }\n\n  function setActivePreset(preset) {\n    var label = document.getElementById(\"cpn-design-active-preset\");\n    if (label) label.textContent = preset;\n    dialog.querySelectorAll(\"[data-preset]\").forEach(function (el) {\n      el.classList.toggle(\"active\", el.getAttribute(\"data-preset\") === preset);\n    });\n  }\n\n  function applyServerTokens(payload) {\n    if (!payload || !payload.tokens) return;\n    var t = payload.tokens;\n    document.getElementById(\"cpn-design-accent\").value = t.accent;\n    document.getElementById(\"cpn-design-accent-focus\").value = t.accent_focus;\n    document.getElementById(\"cpn-design-radius\").value = t.radius_px;\n    document.getElementById(\"cpn-design-density\").value = t.density;\n    document.getElementById(\"cpn-design-font-scale\").value = t.font_scale;\n    setActivePreset(payload.preset || \"default\");\n  }\n\n  function postJson(url, body) {\n    return fetch(url, {\n      method: \"POST\",\n      credentials: \"same-origin\",\n      headers: { \"Content-Type\": \"application/json\", \"Accept\": \"application/json\" },\n      body: JSON.stringify(body || {})\n    }).then(function (res) {\n      return res.json().then(function (data) {\n        if (!res.ok) throw new Error((data && data.error) || (\"HTTP \" + res.status));\n        return data;\n      });\n    });\n  }\n\n  dialog.querySelectorAll(\"[data-preset]\").forEach(function (btn) {\n    btn.addEventListener(\"click\", function () {\n      if (!canEdit) return;\n      var preset = btn.getAttribute(\"data-preset\");\n      postJson(\"/api/panel/design/preset\", { preset: preset })\n        .then(function (data) { applyServerTokens(data); window.location.reload(); })\n        .catch(function (err) { alert(err.message || String(err)); });\n    });\n  });\n\n  var saveBtn = document.getElementById(\"cpn-design-save\");\n  if (saveBtn) {\n    saveBtn.addEventListener(\"click\", function () {\n      postJson(\"/api/panel/design\", { tokens: readTokens() })\n        .then(function () { window.location.reload(); })\n        .catch(function (err) { alert(err.message || String(err)); });\n    });\n  }\n\n  var restoreBtn = document.getElementById(\"cpn-design-restore\");\n  if (restoreBtn) {\n    restoreBtn.addEventListener(\"click\", function () {\n      if (!window.confirm(\"Restore immutable Default design and clear saved Custom?\")) return;\n      postJson(\"/api/panel/design/restore\", {})\n        .then(function () { window.location.reload(); })\n        .catch(function (err) { alert(err.message || String(err)); });\n    });\n  }\n\n  setActivePreset(\""@ + html_escaped(preset_str(preset)) + "\");\n})();\n</script>"@
}

#[verifier::rlimit(60)]
#[verifier::spinoff_prover]
pub fn manage_design_controls(preset: DesignPreset, can_edit: bool, fields: &str) -> (r: String)
    ensures
        r@ == manage_design_controls_spec(preset, can_edit, fields),
{
    let mut out = "<button type=\"button\" class=\"manage-btn\" id=\"cpn-design-open\" aria-haspopup=\"dialog\">Design</button>\n<dialog id=\"cpn-design-dialog\" class=\"cpn-design-dialog\">\n  <form method=\"dialog\" class=\"cpn-design-panel\">\n    <header>\n      <h2>Panel Design</h2>\n      <button type=\"submit\" class=\"manage-btn\" value=\"cancel\" aria-label=\"Close\">Close</button>\n    </header>\n    <p class=\"manage-muted\">Active preset: <strong id=\"cpn-design-active-preset\">".to_owned();
    push_escaped(&mut out, preset.as_str());
    out.append("</strong></p>\n    <div class=\"cpn-design-presets\" role=\"group\" aria-label=\"Design presets\">\n      <button type=\"button\" class=\"manage-btn");
    if preset == DesignPreset::Default { out.append(" active"); } else { out.append(""); }
    out.append("\" data-preset=\"default\"");
    if can_edit { out.append(""); } else { out.append(" disabled"); }
    out.append(">Default</button>\n      <button type=\"button\" class=\"manage-btn");
    if preset == DesignPreset::Light { out.append(" active"); } else { out.append(""); }
    out.append("\" data-preset=\"light\"");
    if can_edit { out.append(""); } else { out.append(" disabled"); }
    out.append(">Light</button>\n      <button type=\"button\" class=\"manage-btn");
    if preset == DesignPreset::Dark { out.append(" active"); } else { out.append(""); }
    out.append("\" data-preset=\"dark\"");
    if can_edit { out.append(""); } else { out.append(" disabled"); }
    out.append(">Dark</button>\n      <button type=\"button\" class=\"manage-btn");
    if preset == DesignPreset::Custom { out.append(" active"); } else { out.append(""); }
    out.append("\" data-preset=\"custom\"");
    if can_edit { out.append(""); } else { out.append(" disabled"); }
    out.append(">Custom</button>\n    </div>\n    <div class=\"cpn-design-fields\">");
    out.append(fields);
    out.append("</div>\n    ");
    if can_edit { out.append("<div class=\"cpn-design-actions\">\n  <button type=\"button\" class=\"manage-btn primary\" id=\"cpn-design-save\">Save custom</button>\n  <button type=\"button\" class=\"manage-btn\" id=\"cpn-design-restore\">Restore Default</button>\n</div>\n<p class=\"manage-muted\">Custom saves under /var/lib/cpn/panel-design.json. Default stays an immutable built-in baseline. Scope: panel-wide chrome and Manage (not per-site branding).</p>"); } else { out.append("<p class=\"manage-muted\">Only the panel admin can change Design. You can still use the sidebar light/dark toggle for your own session.</p>"); }
    out.append("\n  </form>\n</dialog>\n<style>\n.cpn-design-dialog { border:1px solid var(--m-line,#2a2f3a); border-radius:16px; padding:0;\n  background:var(--m-card,#1b1e27); color:var(--m-ink,#f2f4f7); max-width:440px; width:calc(100% - 24px); }\n.cpn-design-panel { padding:18px 18px 16px; display:grid; gap:12px; }\n.cpn-design-panel header { display:flex; align-items:center; justify-content:space-between; gap:12px; }\n.cpn-design-panel h2 { margin:0; font-size:18px; }\n.cpn-design-presets { display:flex; flex-wrap:wrap; gap:8px; }\n.cpn-design-presets .manage-btn.active { outline:2px solid var(--m-accent,#3b82f6); }\n.cpn-design-fields { display:grid; gap:10px; }\n.cpn-design-fields label { display:grid; gap:4px; font-size:13px; font-weight:600; }\n.cpn-design-fields input, .cpn-design-fields select {\n  min-height:40px; border-radius:10px; border:1px solid var(--m-line,#2a2f3a);\n  background:#0b0d12; color:inherit; padding:0 10px; font:inherit;\n}\n.cpn-design-actions { display:flex; flex-wrap:wrap; gap:8px; }\n</style>\n<script>\n(function () {\n  var openBtn = document.getElementById(\"cpn-design-open\");\n  var dialog = document.getElementById(\"cpn-design-dialog\");\n  if (!openBtn || !dialog) return;\n  var canEdit = ");
    if can_edit { out.append("true"); } else { out.append("false"); }
    out.append(";\n  openBtn.addEventListener(\"click\", function () { dialog.showModal(); });\n\n  function readTokens() {\n    return {\n      accent: document.getElementById(\"cpn-design-accent\").value,\n      accent_focus: document.getElementById(\"cpn-design-accent-focus\").value,\n      radius_px: Number(document.getElementById(\"cpn-design-radius\").value),\n      density: document.getElementById(\"cpn-design-density\").value,\n      font_scale: Number(document.getElementById(\"cpn-design-font-scale\").value)\n    };\n  }\n\n  function setActivePreset(preset) {\n    var label = document.getElementById(\"cpn-design-active-preset\");\n    if (label) label.textContent = preset;\n    dialog.querySelectorAll(\"[data-preset]\").forEach(function (el) {\n      el.classList.toggle(\"active\", el.getAttribute(\"data-preset\") === preset);\n    });\n  }\n\n  function applyServerTokens(payload) {\n    if (!payload || !payload.tokens) return;\n    var t = payload.tokens;\n    document.getElementById(\"cpn-design-accent\").value = t.accent;\n    document.getElementById(\"cpn-design-accent-focus\").value = t.accent_focus;\n    document.getElementById(\"cpn-design-radius\").value = t.radius_px;\n    document.getElementById(\"cpn-design-density\").value = t.density;\n    document.getElementById(\"cpn-design-font-scale\").value = t.font_scale;\n    setActivePreset(payload.preset || \"default\");\n  }\n\n  function postJson(url, body) {\n    return fetch(url, {\n      method: \"POST\",\n      credentials: \"same-origin\",\n      headers: { \"Content-Type\": \"application/json\", \"Accept\": \"application/json\" },\n      body: JSON.stringify(body || {})\n    }).then(function (res) {\n      return res.json().then(function (data) {\n        if (!res.ok) throw new Error((data && data.error) || (\"HTTP \" + res.status));\n        return data;\n      });\n    });\n  }\n\n  dialog.querySelectorAll(\"[data-preset]\").forEach(function (btn) {\n    btn.addEventListener(\"click\", function () {\n      if (!canEdit) return;\n      var preset = btn.getAttribute(\"data-preset\");\n      postJson(\"/api/panel/design/preset\", { preset: preset })\n        .then(function (data) { applyServerTokens(data); window.location.reload(); })\n        .catch(function (err) { alert(err.message || String(err)); });\n    });\n  });\n\n  var saveBtn = document.getElementById(\"cpn-design-save\");\n  if (saveBtn) {\n    saveBtn.addEventListener(\"click\", function () {\n      postJson(\"/api/panel/design\", { tokens: readTokens() })\n        .then(function () { window.location.reload(); })\n        .catch(function (err) { alert(err.message || String(err)); });\n    });\n  }\n\n  var restoreBtn = document.getElementById(\"cpn-design-restore\");\n  if (restoreBtn) {\n    restoreBtn.addEventListener(\"click\", function () {\n      if (!window.confirm(\"Restore immutable Default design and clear saved Custom?\")) return;\n      postJson(\"/api/panel/design/restore\", {})\n        .then(function () { window.location.reload(); })\n        .catch(function (err) { alert(err.message || String(err)); });\n    });\n  }\n\n  setActivePreset(\"");
    push_escaped(&mut out, preset.as_str());
    out.append("\");\n})();\n</script>");
    proof {
        assert(out@ =~= manage_design_controls_spec(preset, can_edit, fields));
    }
    out
}

/// The Design editor's token inputs, filled with `tokens`.
pub open spec fn token_fields_spec(t: crate::panel_design::TokensView) -> Seq<char> {
    "<label>Accent <input id=\"cpn-design-accent\" type=\"color\" value=\""@ + html_escaped(t.0)
        + "\"></label>\n<label>Accent focus <input id=\"cpn-design-accent-focus\" type=\"color\" value=\""@
        + html_escaped(t.1)
        + "\"></label>\n<label>Corner radius (px)\n  <input id=\"cpn-design-radius\" type=\"number\" min=\"8\" max=\"28\" value=\""@
        + dec(t.2 as nat)
        + "\">\n</label>\n<label>Density\n  <select id=\"cpn-design-density\">\n    <option value=\"comfortable\""@
        + (if t.3 == "comfortable"@ { " selected"@ } else { ""@ }) + ">Comfortable</option>\n    <option value=\"compact\""@
        + (if t.3 == "compact"@ { " selected"@ } else { ""@ })
        + ">Compact</option>\n  </select>\n</label>\n<label>Font scale\n  <input id=\"cpn-design-font-scale\" type=\"number\" min=\"0.9\" max=\"1.25\" step=\"0.01\" value=\""@
        + crate::panel_design::scale_text(t.4) + "\">\n</label>"@
}

pub fn token_fields(tokens: &crate::panel_design::DesignTokens) -> (r: String)
    ensures
        r@ == token_fields_spec(crate::panel_design::tokens_view(*tokens)),
{
    let mut out = "<label>Accent <input id=\"cpn-design-accent\" type=\"color\" value=\"".to_owned();
    push_escaped(&mut out, tokens.accent.as_str());
    out.append("\"></label>\n<label>Accent focus <input id=\"cpn-design-accent-focus\" type=\"color\" value=\"");
    push_escaped(&mut out, tokens.accent_focus.as_str());
    out.append("\"></label>\n<label>Corner radius (px)\n  <input id=\"cpn-design-radius\" type=\"number\" min=\"8\" max=\"28\" value=\"");
    push_dec(&mut out, tokens.radius_px as u64);
    out.append("\">\n</label>\n<label>Density\n  <select id=\"cpn-design-density\">\n    <option value=\"comfortable\"");
    out.append(if str_eq(tokens.density.as_str(), "comfortable") { " selected" } else { "" });
    out.append(">Comfortable</option>\n    <option value=\"compact\"");
    out.append(if str_eq(tokens.density.as_str(), "compact") { " selected" } else { "" });
    out.append(">Compact</option>\n  </select>\n</label>\n<label>Font scale\n  <input id=\"cpn-design-font-scale\" type=\"number\" min=\"0.9\" max=\"1.25\" step=\"0.01\" value=\"");
    crate::panel_design::push_scale(&mut out, tokens.font_scale_pct);
    out.append("\">\n</label>");
    out
}

} // verus!
