//! Panel UI preferences (document root visibility and similar). The record is read from
//! and written to its file by the caller.

use vstd::prelude::*;

verus! {

/// Panel-wide UI preferences.
pub struct PanelUiPrefs {
    /// When true, Websites table shows document root paths (default for admins).
    pub show_document_roots: bool,
}

impl Default for PanelUiPrefs {
    fn default() -> (r: PanelUiPrefs)
        ensures
            r.show_document_roots,
    {
        PanelUiPrefs { show_document_roots: true }
    }
}

/// Sets whether document roots are shown and returns the preferences to save.
pub fn set_show_document_roots(prefs: &mut PanelUiPrefs, show: bool) -> (r: PanelUiPrefs)
    ensures
        final(prefs).show_document_roots == show,
        r.show_document_roots == show,
{
    prefs.show_document_roots = show;
    PanelUiPrefs { show_document_roots: show }
}

} // verus!
