//! Platform-aware filesystem roots for CPN data and binaries, and how paths under them are
//! formed. The `CPN_DATA_DIR`, `CPN_PANEL_HOME` and `CPN_SITES_HOME` settings and the
//! platform are read by the caller and handed in.

use vstd::prelude::*;
use vstd::string::*;
use crate::text::{opt_view, trim};

verus! {

/// Unix default data directory (registry, bootstrap, catalog cache).
pub const UNIX_DATA_DIR: &'static str = "/var/lib/cpn";

/// Unix default panel home (panel-wide backups under `backups/`).
pub const UNIX_PANEL_HOME: &'static str = "/home/cpn-panel";

/// Windows default data directory (under ProgramData).
pub const WINDOWS_DATA_DIR: &'static str = "C:\\ProgramData\\CPN";

/// Default installer binary path on Unix packaging.
pub const UNIX_INSTALLER_BIN: &'static str = "/usr/bin/cpn-installer";

/// Default CLI binary path on Unix packaging.
pub const UNIX_CLI_BIN: &'static str = "/usr/bin/cpn";

/// Default installer binary path on Windows packaging.
pub const WINDOWS_INSTALLER_BIN: &'static str = "C:\\Program Files\\CPN\\cpn-installer.exe";

/// Default CLI binary path on Windows packaging.
pub const WINDOWS_CLI_BIN: &'static str = "C:\\Program Files\\CPN\\cpn.exe";

/// Root-only bootstrap token for `--allow-remote` labs (not printed in logs).
pub const INSTALLER_BOOTSTRAP_TOKEN_FILE: &'static str = "installer-bootstrap.token";

/// A relative path under a directory: joined with `/` unless the directory is empty or
/// already ends with `/`.
pub open spec fn path_join(dir: Seq<char>, rel: Seq<char>) -> Seq<char> {
    if dir.len() == 0 {
        rel
    } else if dir.last() == '/' {
        dir + rel
    } else {
        dir + "/"@ + rel
    }
}

pub fn join_path(dir: &str, rel: &str) -> (r: String)
    ensures
        r@ == path_join(dir@, rel@),
{
    let v = crate::text::chars_of(dir);
    let mut out = dir.to_owned();
    if v.len() > 0 && v[v.len() - 1] != '/' {
        out.append("/");
    }
    out.append(rel);
    out
}

/// Platform default data directory (useful for docs and help text).
pub fn platform_data_dir(windows: bool) -> (r: &'static str)
    ensures
        r@ == (if windows { WINDOWS_DATA_DIR@ } else { UNIX_DATA_DIR@ }),
{
    if windows {
        WINDOWS_DATA_DIR
    } else {
        UNIX_DATA_DIR
    }
}

pub fn installer_bin_path(windows: bool) -> (r: &'static str)
    ensures
        r@ == (if windows { WINDOWS_INSTALLER_BIN@ } else { UNIX_INSTALLER_BIN@ }),
{
    if windows {
        WINDOWS_INSTALLER_BIN
    } else {
        UNIX_INSTALLER_BIN
    }
}

pub fn cli_bin_path(windows: bool) -> (r: &'static str)
    ensures
        r@ == (if windows { WINDOWS_CLI_BIN@ } else { UNIX_CLI_BIN@ }),
{
    if windows {
        WINDOWS_CLI_BIN
    } else {
        UNIX_CLI_BIN
    }
}

/// The data directory: the `CPN_DATA_DIR` setting when present, else the platform default.
pub open spec fn data_dir_spec(data_dir_setting: Option<Seq<char>>, windows: bool) -> Seq<char> {
    match data_dir_setting {
        Some(d) => d,
        None => if windows {
            WINDOWS_DATA_DIR@
        } else {
            UNIX_DATA_DIR@
        },
    }
}

/// Resolve the CPN data directory (`CPN_DATA_DIR` or platform default).
pub fn default_data_dir(data_dir_setting: Option<&str>, windows: bool) -> (r: String)
    ensures
        r@ == data_dir_spec(opt_view(data_dir_setting), windows),
{
    match data_dir_setting {
        Some(d) => d.to_owned(),
        None => platform_data_dir(windows).to_owned(),
    }
}

/// Human-readable data dir hint for CLI help (respects `CPN_DATA_DIR` when set).
pub fn data_dir_display(data_dir_setting: Option<&str>, windows: bool) -> (r: String)
    ensures
        r@ == data_dir_spec(opt_view(data_dir_setting), windows),
{
    default_data_dir(data_dir_setting, windows)
}

/// A path under the data directory.
pub fn join_data(data_dir: &str, relative: &str) -> (r: String)
    ensures
        r@ == path_join(data_dir@, relative@),
{
    join_path(data_dir, relative)
}

/// Panel operator home: `CPN_PANEL_HOME`, or `<CPN_SITES_HOME>/cpn-panel` when that is not
/// blank, or the platform default.
pub open spec fn panel_home_spec(panel_home: Option<Seq<char>>, sites_home: Option<Seq<char>>, windows: bool) -> Seq<
    char,
> {
    match panel_home {
        Some(p) => p,
        None => match sites_home {
            Some(s) if trim(s).len() > 0 => path_join(trim(s), "cpn-panel"@),
            _ => if windows {
                "C:\\CPN\\SitesHome\\cpn-panel"@
            } else {
                UNIX_PANEL_HOME@
            },
        },
    }
}

pub fn panel_home_dir(panel_home: Option<&str>, sites_home: Option<&str>, windows: bool) -> (r: String)
    ensures
        r@ == panel_home_spec(opt_view(panel_home), opt_view(sites_home), windows),
{
    if let Some(p) = panel_home {
        return p.to_owned();
    }
    if let Some(s) = sites_home {
        let t = crate::text::trim_str(s);
        if !t.as_str().is_empty() {
            return join_path(t.as_str(), "cpn-panel");
        }
    }
    if windows {
        "C:\\CPN\\SitesHome\\cpn-panel".to_owned()
    } else {
        UNIX_PANEL_HOME.to_owned()
    }
}

/// Panel-wide backup archives (`/home/cpn-panel/backups` by default).
pub fn panel_backups_dir(panel_home: &str) -> (r: String)
    ensures
        r@ == path_join(panel_home@, "backups"@),
{
    join_path(panel_home, "backups")
}

/// Legacy panel backup location under the data dir (pre home-path change).
pub fn legacy_panel_backups_dir(data_dir: &str) -> (r: String)
    ensures
        r@ == path_join(data_dir@, "backups"@),
{
    join_path(data_dir, "backups")
}

pub fn installer_bootstrap_token_path(data_dir: &str) -> (r: String)
    ensures
        r@ == path_join(data_dir@, INSTALLER_BOOTSTRAP_TOKEN_FILE@),
{
    join_path(data_dir, INSTALLER_BOOTSTRAP_TOKEN_FILE)
}

/// Startup's answer to writing the bootstrap token. When `require_persisted` is true
/// (`--allow-remote`), failure aborts startup so the operator is never left without a
/// retrievable credential; otherwise a failure is tolerated.
pub fn persist_bootstrap_token_for_startup(
    written: Result<String, String>,
    require_persisted: bool,
) -> (r: Result<Option<String>, String>)
    ensures
        written is Ok ==> (r matches Ok(Some(p)) && p@ == written->Ok_0@),
        written is Err && require_persisted ==> (r matches Err(e) && e@
            == "cannot start with --allow-remote: bootstrap token file was not persisted ("@
            + written->Err_0@ + ")"@),
        written is Err && !require_persisted ==> r == Ok::<Option<String>, String>(None),
{
    match written {
        Ok(path) => Ok(Some(path)),
        Err(error) => if require_persisted {
            let mut e = "cannot start with --allow-remote: bootstrap token file was not persisted (".to_owned();
            e.append(error.as_str());
            e.append(")");
            Err(e)
        } else {
            Ok(None)
        },
    }
}

} // verus!
