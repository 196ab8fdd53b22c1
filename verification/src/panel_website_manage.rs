//! The Website Manage dashboard: which tab a request asks for, and the page around it.

use vstd::prelude::*;
use vstd::string::*;
use crate::panel_website_manage_ssl::{tab_overview, tab_overview_spec, tab_ssl, tab_ssl_spec, OverviewFacts, SslTabFacts};
use crate::panel_website_manage_tabs::{tab_apps, tab_apps_spec, tab_config, tab_config_spec, tab_domains, tab_domains_spec,
    tab_files, tab_files_spec, tab_logs, tab_logs_spec, ChildSite, ConfigFacts, FtpInfo};
use crate::panel_website_manage_tools::{tab_clone, tab_clone_spec, tab_git, tab_git_spec, tab_terminal,
    tab_terminal_spec};
use crate::panel_website_manage_ui::{manage_banner, manage_banner_spec, notice_block, notice_block_spec,
    quick_actions, quick_actions_spec, tab_bar, tab_bar_spec, ManageChrome, MANAGE_STYLES};
use crate::site::SiteRecord;
use crate::text::{html_escaped, lower_str, push_escaped, str_eq, to_lower, trim, trim_str};

verus! {

/// The tabs of the Manage dashboard.
#[derive(Debug, Clone, Copy, PartialEq, Eq, Structural)]
pub enum ManageTab {
    Overview,
    Domains,
    Logs,
    Config,
    Ssl,
    Files,
    Apps,
    Terminal,
    Git,
    Clone,
}

/// The tab a `tab` query value names (trimmed, any case, with its aliases); Overview for
/// anything else or nothing.
pub open spec fn tab_spec(raw: Option<&str>) -> ManageTab {
    tab_of(match raw {
        Some(s) => s@,
        None => ""@,
    })
}

/// The tab a `tab` value names (see `tab_spec`).
pub open spec fn tab_of(raw: Seq<char>) -> ManageTab {
    let t = to_lower(trim(raw));
    if t == "domains"@ {
        ManageTab::Domains
    } else if t == "logs"@ {
        ManageTab::Logs
    } else if t == "config"@ || t == "configurations"@ {
        ManageTab::Config
    } else if t == "ssl"@ {
        ManageTab::Ssl
    } else if t == "files"@ || t == "file"@ || t == "docroot"@ {
        ManageTab::Files
    } else if t == "apps"@ || t == "applications"@ || t == "plugins"@ || t == "plugin"@ {
        ManageTab::Apps
    } else if t == "terminal"@ || t == "term"@ || t == "shell"@ {
        ManageTab::Terminal
    } else if t == "git"@ {
        ManageTab::Git
    } else if t == "clone"@ || t == "staging"@ {
        ManageTab::Clone
    } else {
        ManageTab::Overview
    }
}

/// The id of a tab in links.
pub open spec fn tab_id(tab: ManageTab) -> Seq<char> {
    match tab {
        ManageTab::Overview => "overview"@,
        ManageTab::Domains => "domains"@,
        ManageTab::Logs => "logs"@,
        ManageTab::Config => "config"@,
        ManageTab::Ssl => "ssl"@,
        ManageTab::Files => "files"@,
        ManageTab::Apps => "plugins"@,
        ManageTab::Terminal => "terminal"@,
        ManageTab::Git => "git"@,
        ManageTab::Clone => "clone"@,
    }
}

impl ManageTab {
    pub fn parse(raw: Option<&str>) -> (r: ManageTab)
        ensures
            r == tab_spec(raw),
    {
        proof {
            reveal_strlit("");
        }
        let s: &str = match raw {
            Some(s) => s,
            None => "",
        };
        let t0 = trim_str(s);
        let t = lower_str(t0.as_str());
        let k = t.as_str();
        if str_eq(k, "domains") {
            ManageTab::Domains
        } else if str_eq(k, "logs") {
            ManageTab::Logs
        } else if str_eq(k, "config") || str_eq(k, "configurations") {
            ManageTab::Config
        } else if str_eq(k, "ssl") {
            ManageTab::Ssl
        } else if str_eq(k, "files") || str_eq(k, "file") || str_eq(k, "docroot") {
            ManageTab::Files
        } else if str_eq(k, "apps") || str_eq(k, "applications") || str_eq(k, "plugins") || str_eq(k, "plugin") {
            ManageTab::Apps
        } else if str_eq(k, "terminal") || str_eq(k, "term") || str_eq(k, "shell") {
            ManageTab::Terminal
        } else if str_eq(k, "git") {
            ManageTab::Git
        } else if str_eq(k, "clone") || str_eq(k, "staging") {
            ManageTab::Clone
        } else {
            ManageTab::Overview
        }
    }

    pub fn as_str(self) -> (r: &'static str)
        ensures
            r@ == tab_id(self),
    {
        match self {
            ManageTab::Overview => "overview",
            ManageTab::Domains => "domains",
            ManageTab::Logs => "logs",
            ManageTab::Config => "config",
            ManageTab::Ssl => "ssl",
            ManageTab::Files => "files",
            ManageTab::Apps => "plugins",
            ManageTab::Terminal => "terminal",
            ManageTab::Git => "git",
            ManageTab::Clone => "clone",
        }
    }
}

/// Everything the dashboard shows that comes from elsewhere: the banner's links and badges,
/// the icon style sheet, and what each tab needs (the caller fills in what the shown tab
/// uses).
pub struct ManageFacts {
    pub chrome: ManageChrome,
    pub icon_styles: String,
    pub overview: OverviewFacts,
    pub parent: String,
    pub children: Vec<ChildSite>,
    pub config: ConfigFacts,
    pub ssl: SslTabFacts,
    pub ftp: FtpInfo,
    pub terminal_script: String,
    pub tools_csrf: String,
    pub git_snapshot: String,
    pub staging: Option<String>,
}

/// The body of a tab.
pub open spec fn tab_body_spec(site: &SiteRecord, tab: ManageTab, facts: &ManageFacts) -> Seq<char> {
    match tab {
        ManageTab::Overview => tab_overview_spec(site, &facts.overview),
        ManageTab::Domains => tab_domains_spec(site, facts.parent@, facts.children@),
        ManageTab::Logs => tab_logs_spec(site),
        ManageTab::Config => tab_config_spec(site, &facts.config),
        ManageTab::Ssl => tab_ssl_spec(site, &facts.ssl),
        ManageTab::Files => tab_files_spec(site, &facts.ftp),
        ManageTab::Apps => tab_apps_spec(site),
        ManageTab::Terminal => tab_terminal_spec(site, facts.terminal_script@),
        ManageTab::Git => tab_git_spec(site, facts.tools_csrf@, facts.git_snapshot@),
        ManageTab::Clone => tab_clone_spec(site, facts.tools_csrf@, crate::text::opt_string_view(&facts.staging)),
    }
}


fn tab_body(site: &SiteRecord, tab: ManageTab, facts: &ManageFacts) -> (r: String)
    ensures
        r@ == tab_body_spec(site, tab, facts),
{
    match tab {
        ManageTab::Overview => tab_overview(site, &facts.overview),
        ManageTab::Domains => tab_domains(site, facts.parent.as_str(), &facts.children),
        ManageTab::Logs => tab_logs(site),
        ManageTab::Config => tab_config(site, &facts.config),
        ManageTab::Ssl => tab_ssl(site, &facts.ssl),
        ManageTab::Files => tab_files(site, &facts.ftp),
        ManageTab::Apps => tab_apps(site),
        ManageTab::Terminal => tab_terminal(site, facts.terminal_script.as_str()),
        ManageTab::Git => tab_git(site, facts.tools_csrf.as_str(), facts.git_snapshot.as_str()),
        ManageTab::Clone => {
            let st: Option<&str> = match &facts.staging {
                Some(s) => Some(s.as_str()),
                None => None,
            };
            tab_clone(site, facts.tools_csrf.as_str(), st)
        },
    }
}

/// The Suspend form of an active site, else the Resume form.
pub open spec fn suspend_form_spec(site: &SiteRecord) -> Seq<char> {
    if site.enabled {
        "<form method=\"post\" action=\"/websites/suspend\" class=\"inline-form\" onsubmit=\"return confirm('Suspend "@ + html_escaped(site.domain@) + "?');\">\n          <input type=\"hidden\" name=\"domain\" value=\""@ + html_escaped(site.domain@) + "\">\n          <button type=\"submit\" class=\"btn-warn\">Suspend</button>\n        </form>"@
    } else {
        "<form method=\"post\" action=\"/websites/resume\" class=\"inline-form\">\n          <input type=\"hidden\" name=\"domain\" value=\""@ + html_escaped(site.domain@) + "\">\n          <button type=\"submit\" class=\"btn-primary\">Resume</button>\n        </form>"@
    }
}

#[verifier::rlimit(60)]
#[verifier::spinoff_prover]
fn suspend_form(site: &SiteRecord) -> (r: String)
    ensures
        r@ == suspend_form_spec(site),
{
    let mut out = String::new();
    if site.enabled {
        out.append("<form method=\"post\" action=\"/websites/suspend\" class=\"inline-form\" onsubmit=\"return confirm('Suspend ");
        push_escaped(&mut out, site.domain.as_str());
        out.append("?');\">\n          <input type=\"hidden\" name=\"domain\" value=\"");
        push_escaped(&mut out, site.domain.as_str());
        out.append("\">\n          <button type=\"submit\" class=\"btn-warn\">Suspend</button>\n        </form>");
    } else {
        out.append("<form method=\"post\" action=\"/websites/resume\" class=\"inline-form\">\n          <input type=\"hidden\" name=\"domain\" value=\"");
        push_escaped(&mut out, site.domain.as_str());
        out.append("\">\n          <button type=\"submit\" class=\"btn-primary\">Resume</button>\n        </form>");
    }
    assert(out@ =~= suspend_form_spec(site));
    out
}

/// The Manage dashboard: styles, notices, banner, quick actions, tabs (the asked-for one
/// marked), suspend/resume and delete, and the tab's body.
pub open spec fn website_manage_main_spec(
    site: &SiteRecord,
    tab_raw: Option<&str>,
    notice: Option<&str>,
    error: Option<&str>,
    facts: &ManageFacts,
) -> Seq<char> {
    let tab = tab_spec(tab_raw);
    "\"<style>"@ + MANAGE_STYLES@ + facts.icon_styles@ + "</style>\n      <div class=\"site-manage\">\n        <p class=\"manage-muted\"><a href=\"/websites\">Back to Websites</a></p>\n        "@ + notice_block_spec("ok"@, notice) + "\n        "@ + notice_block_spec("error"@, error) + "\n        "@ + manage_banner_spec(site, &facts.chrome) + "\n        "@ + quick_actions_spec(site) + "\n        "@ + tab_bar_spec(site.domain@, tab_id(tab)) + "\n        <div class=\"manage-actions-row\">\n          "@ + suspend_form_spec(site) + "\n          <form method=\"post\" action=\"/websites/delete\" class=\"inline-form\" onsubmit=\"return confirm('Delete site "@ + html_escaped(site.domain@) + "? Document files under /home are kept.');\">\n            <input type=\"hidden\" name=\"domain\" value=\""@ + html_escaped(site.domain@) + "\">\n            <button type=\"submit\" class=\"btn-danger\">Delete</button>\n          </form>\n        </div>\n        <article>\n          "@ + tab_body_spec(site, tab, facts) + "\n        </article>\n      </div>"@
}

#[verifier::rlimit(60)]
#[verifier::spinoff_prover]
pub fn website_manage_main(
    site: &SiteRecord,
    tab_raw: Option<&str>,
    notice: Option<&str>,
    error: Option<&str>,
    facts: &ManageFacts,
) -> (r: String)
    ensures
        r@ == website_manage_main_spec(site, tab_raw, notice, error, facts),
{
    let tab = ManageTab::parse(tab_raw);
    let mut out = String::new();
    out.append("\"<style>");
    out.append(MANAGE_STYLES);
    out.append(facts.icon_styles.as_str());
    out.append("</style>\n      <div class=\"site-manage\">\n        <p class=\"manage-muted\"><a href=\"/websites\">Back to Websites</a></p>\n        ");
    let ok = notice_block("ok", notice);
    out.append(ok.as_str());
    out.append("\n        ");
    let err = notice_block("error", error);
    out.append(err.as_str());
    out.append("\n        ");
    let banner = manage_banner(site, &facts.chrome);
    out.append(banner.as_str());
    out.append("\n        ");
    let quick = quick_actions(site);
    out.append(quick.as_str());
    out.append("\n        ");
    let tabs = tab_bar(site.domain.as_str(), tab.as_str());
    out.append(tabs.as_str());
    out.append("\n        <div class=\"manage-actions-row\">\n          ");
    let suspend = suspend_form(site);
    out.append(suspend.as_str());
    out.append("\n          <form method=\"post\" action=\"/websites/delete\" class=\"inline-form\" onsubmit=\"return confirm('Delete site ");
    push_escaped(&mut out, site.domain.as_str());
    out.append("? Document files under /home are kept.');\">\n            <input type=\"hidden\" name=\"domain\" value=\"");
    push_escaped(&mut out, site.domain.as_str());
    out.append("\">\n            <button type=\"submit\" class=\"btn-danger\">Delete</button>\n          </form>\n        </div>\n        <article>\n          ");
    let body = tab_body(site, tab, facts);
    out.append(body.as_str());
    out.append("\n        </article>\n      </div>");
    proof {
        assert(out@ =~= website_manage_main_spec(site, tab_raw, notice, error, facts));
    }
    out
}


proof fn lemma_plain_id(s: Seq<char>)
    requires
        s.len() > 0,
        forall|i: int| 0 <= i < s.len() ==> 97 <= #[trigger] (s[i] as u32) <= 122,
    ensures
        to_lower(trim(s)) == s,
{
    crate::text::lemma_trim_no_ws(s);
    assert(to_lower(s) =~= s);
}

/// Every tab's link id reads back as that tab.
pub proof fn lemma_tab_id_round_trip(tab: ManageTab)
    ensures
        tab_of(tab_id(tab)) == tab,
{
    reveal_strlit("overview");
    reveal_strlit("domains");
    reveal_strlit("logs");
    reveal_strlit("config");
    reveal_strlit("ssl");
    reveal_strlit("files");
    reveal_strlit("plugins");
    reveal_strlit("terminal");
    reveal_strlit("git");
    reveal_strlit("clone");
    reveal_strlit("configurations");
    reveal_strlit("file");
    reveal_strlit("docroot");
    reveal_strlit("apps");
    reveal_strlit("applications");
    reveal_strlit("plugin");
    reveal_strlit("term");
    reveal_strlit("shell");
    reveal_strlit("staging");
    let id = tab_id(tab);
    lemma_plain_id(id);
}

} // verus!
