use cpn_panel::panel_site_git::{
    git_action_commands, git_output_result, git_workdir, sanitize_commit_message, snapshot,
    validate_remote_url, GitAction,
};
use cpn_panel::panel_site_vhost_wire::{
    ensure_site_vhost_logging, insert_map_before_catchall, ols_vhconf, safe_vhost_name,
    wire_vhost_conf,
};
use cpn_panel::panel_website_bandwidth::{
    access_log_usage, parse_response_bytes, sum_bytes_from_access_log,
};
use cpn_panel::panel_website_logs::{
    candidate_log_paths, clamp_per_page, log_panel_html, path_allowed, query_site_log_page,
    read_log_tail_lines, site_access_log_path, site_error_log_path, site_log_path_for_kind,
    CanonicalPaths,
};
use cpn_panel::site::SiteRecord;

fn sample_site(domain: &str, home: &str) -> SiteRecord {
    SiteRecord {
        domain: domain.into(),
        owner: "Admin".into(),
        docroot: format!("{home}/public_html"),
        home: home.into(),
        enabled: true,
        aliases: Vec::new(),
        php_version: None,
        internal_ip: None,
        engine: None,
        owner_suspend_message: String::new(),
    }
}

fn no_canon() -> CanonicalPaths {
    CanonicalPaths { logs_dir: None, path: None }
}

#[test]
fn remote_url_https_ok() {
    assert!(validate_remote_url("https://github.com/org/repo.git").is_ok());
    assert!(validate_remote_url("https://evil.com/repo;rm -rf /").is_err());
    assert!(validate_remote_url("http://insecure.example/repo").is_err());
}

#[test]
fn remote_url_only_https() {
    assert_eq!(
        validate_remote_url("  https://github.com/org/repo.git ").unwrap(),
        "https://github.com/org/repo.git"
    );
    assert_eq!(
        validate_remote_url("git@github.com:org/repo.git").unwrap_err(),
        "Remote URL must start with https://"
    );
    assert_eq!(validate_remote_url("").unwrap_err(), "Remote URL is required");
    assert_eq!(
        validate_remote_url("HTTPS://").unwrap_err(),
        "Remote URL contains unsupported characters"
    );
    let long = format!("https://{}", "a".repeat(600));
    assert_eq!(validate_remote_url(&long).unwrap_err(), "Remote URL is too long");
}

#[test]
fn commit_message_rejects_control() {
    assert!(sanitize_commit_message("ok message").is_ok());
    assert!(sanitize_commit_message("bad\nline").is_err());
    assert!(sanitize_commit_message("").is_err());
}

#[test]
fn commit_message_limits() {
    assert_eq!(sanitize_commit_message("  fix  ").unwrap(), "fix");
    assert_eq!(
        sanitize_commit_message(&"x".repeat(201)).unwrap_err(),
        "Commit message max 200 characters"
    );
    assert_eq!(
        sanitize_commit_message("tab\there").unwrap_err(),
        "Commit message cannot include control characters"
    );
}

#[test]
fn action_parse() {
    assert_eq!(GitAction::parse("pull").unwrap(), GitAction::Pull);
    assert!(GitAction::parse("rebase").is_err());
}

#[test]
fn action_parse_aliases_and_commands() {
    assert_eq!(GitAction::parse(" Remote ").unwrap(), GitAction::Remotes);
    assert_eq!(GitAction::parse("BRANCH").unwrap(), GitAction::Branches);
    let cmds = git_action_commands(GitAction::Commit, Some(" save "), None, true).unwrap();
    assert_eq!(cmds, vec![vec!["add".to_string(), "-A".into()], vec!["commit".into(), "-m".into(), "save".into()]]);
    assert_eq!(
        git_action_commands(GitAction::Init, None, None, true).unwrap_err(),
        "Repository already initialized"
    );
    assert_eq!(
        git_action_commands(GitAction::Clone, None, Some("https://h/r.git"), true).unwrap_err(),
        "Cannot clone into a directory that already has .git"
    );
    let clone = git_action_commands(GitAction::Clone, None, Some("https://h/r.git"), false).unwrap();
    assert_eq!(clone[0][3], "https://h/r.git");
    assert_eq!(
        git_action_commands(GitAction::Commit, None, None, false).unwrap_err(),
        "Commit message is required"
    );
}

#[test]
fn workdir_output_and_snapshot() {
    let site = sample_site("a.example", "/home/a.example");
    assert_eq!(git_workdir(&site, false, true, true), "/home/a.example");
    assert_eq!(git_workdir(&site, false, false, true), "/home/a.example/public_html");
    assert_eq!(git_workdir(&site, false, false, false), "/home/a.example");
    assert_eq!(git_output_result("", " ", false).unwrap_err(), "git command failed or timed out");
    assert_eq!(git_output_result("", "", true).unwrap(), "(ok, no output)");
    assert_eq!(git_output_result("out", "err", true).unwrap(), "out\nerr");
    let snap = snapshot("/w", Ok(" ## main ".into()), Err("boom".into()), Ok("* main".into()));
    assert_eq!(
        snap,
        "Workdir: /w\n\n=== status ===\n## main\n\n=== remotes ===\n(no remotes)\nboom\n\n=== branches ===\n* main"
    );
}

#[test]
fn safe_name_keeps_fqdn() {
    assert_eq!(safe_vhost_name("test2.newstargeted.com"), "test2.newstargeted.com");
    assert_eq!(safe_vhost_name("bad name!"), "bad_name_");
}

#[test]
fn insert_map_before_star() {
    let conf = r#"listener CPNHttp {
  address                 *:80
  secure                  0
  map                     CPN *
}
"#;
    let updated = insert_map_before_catchall(
        conf,
        "CPNHttp",
        "  map                      test2.newstargeted.com test2.newstargeted.com\n",
    )
    .expect("insert");
    assert!(updated.contains("test2.newstargeted.com"));
    let star = updated.find("map                     CPN *").unwrap();
    let domain = updated.find("test2.newstargeted.com").unwrap();
    assert!(domain < star);
}

#[test]
fn insert_map_appends_without_catchall_and_skips_duplicates() {
    let conf = "listener Default {\n  address *:80\n}\n";
    let updated = insert_map_before_catchall(conf, "Default", "  map a a  ").unwrap();
    assert_eq!(updated, "listener Default {\n  address *:80\n  map a a\n\n}\n");
    assert!(insert_map_before_catchall(&updated, "Default", "  map a a\n").is_none());
    assert!(insert_map_before_catchall(conf, "Missing", "  map b b\n").is_none());
    let (wired, changed) = wire_vhost_conf(conf, "a.example", "/home/a.example", "a.example");
    assert!(changed);
    assert!(wired.contains("virtualHost a.example {"));
    assert!(wired.contains("map                      a.example a.example"));
    let vh = ols_vhconf("/home/a/public_html", "/home/a/logs/access.log", "/home/a/logs/error.log");
    assert!(vh.starts_with("docRoot                   /home/a/public_html/\n"));
    assert!(vh.contains("accessLog /home/a/logs/access.log {"));
    assert_eq!(ensure_site_vhost_logging(Ok(false), Ok(false)), "Site log files ready");
    assert_eq!(
        ensure_site_vhost_logging(Ok(true), Err("no conf".into())),
        "OpenLiteSpeed/LiteSpeed vhost log paths updated; nginx wire skipped: no conf"
    );
}

#[test]
fn parses_combined_log_bytes() {
    let line = r#"127.0.0.1 - - [13/Sep/2026:21:00:00 +0000] "GET / HTTP/1.1" 200 4096 "https://x/" "ua""#;
    assert_eq!(parse_response_bytes(line), Some(4096));
}

#[test]
fn sums_today_lines() {
    let text = r#"
1.1.1.1 - - [13/Sep/2026:10:00:00 +0000] "GET /a HTTP/1.1" 200 100
1.1.1.1 - - [12/Sep/2026:10:00:00 +0000] "GET /b HTTP/1.1" 200 500
1.1.1.1 - - [13/Sep/2026:11:00:00 +0000] "GET /c HTTP/1.1" 200 50
"#;
    let (today, month, lines) = sum_bytes_from_access_log(text, Some("13/Sep/2026"), Some("Sep/2026"));
    assert_eq!(lines, 3);
    assert_eq!(today, 150);
    assert_eq!(month, 650);
}

#[test]
fn dash_size_is_zero() {
    let line = r#"1.1.1.1 - - [13/Sep/2026:10:00:00 +0000] "GET / HTTP/1.1" 304 -"#;
    assert_eq!(parse_response_bytes(line), Some(0));
}

#[test]
fn response_bytes_edge_cases() {
    assert_eq!(parse_response_bytes("no request here"), None);
    assert_eq!(parse_response_bytes(r#"x "GET / HTTP/1.1" OK 12"#), None);
    assert_eq!(parse_response_bytes(r#"x "GET /" 200 77"#), Some(77));
    assert_eq!(access_log_usage(3, 0, 650, false), Some((650, "this month")));
    assert_eq!(access_log_usage(3, 0, 0, true), Some((0, "today")));
    assert_eq!(access_log_usage(0, 10, 10, true), None);
}

#[test]
fn rejects_traversal_and_foreign_home() {
    let site = sample_site("example.com", "/home/example.com");
    assert!(!path_allowed(&site, "/var/log/httpd/../../etc/passwd", &no_canon()));
    assert!(!path_allowed(&site, "/home/other.com/logs/access.log", &no_canon()));
    assert!(path_allowed(&site, "/home/example.com/logs/access.log", &no_canon()));
    assert!(path_allowed(&site, "/var/log/nginx/example.com.access.log", &no_canon()));
    assert!(!path_allowed(&site, "/var/log/nginx/test.example.com.access.log", &no_canon()));
}

#[test]
fn parent_cannot_read_child_home_logs() {
    let parent = sample_site("newstargeted.com", "/home/newstargeted.com");
    let child = sample_site("test2.newstargeted.com", "/home/newstargeted.com/test2.newstargeted.com");
    let parent_log = "/home/newstargeted.com/logs/access.log";
    let child_log = "/home/newstargeted.com/test2.newstargeted.com/logs/access.log";
    assert!(path_allowed(&parent, parent_log, &no_canon()));
    assert!(!path_allowed(&parent, child_log, &no_canon()));
    assert!(path_allowed(&child, child_log, &no_canon()));
    assert!(!path_allowed(&child, parent_log, &no_canon()));
}

#[test]
fn canonical_paths_decide_when_present() {
    let site = sample_site("example.com", "/home/example.com");
    let canon = CanonicalPaths {
        logs_dir: Some("/srv/example/logs".into()),
        path: Some("/srv/example/logs/access.log".into()),
    };
    assert!(path_allowed(&site, "/anywhere/x.log", &canon));
    let missing = CanonicalPaths { logs_dir: Some("/srv/example/logs".into()), path: None };
    assert!(path_allowed(&site, "/home/example.com/logs/error_log", &missing));
    assert!(!path_allowed(&site, "/home/example.com/logs/other.txt", &missing));
}

#[test]
fn log_paths_and_kinds() {
    let site = sample_site("lab.example", "/home/lab.example");
    assert_eq!(site_access_log_path(&site), "/home/lab.example/logs/access.log");
    assert_eq!(site_error_log_path(&site), "/home/lab.example/logs/error.log");
    assert_eq!(site_log_path_for_kind(&site, "bogus").unwrap_err(), "Log kind must be access or error");
    let (access, error) = candidate_log_paths(&site);
    assert_eq!(access.len(), 8);
    assert_eq!(error[6], "/var/log/nginx/lab.example.error.log");
    assert_eq!(clamp_per_page(3), 10);
    assert_eq!(clamp_per_page(25), 25);
    assert_eq!(clamp_per_page(500), 50);
    assert_eq!(read_log_tail_lines("a\nb\nc\n", 2), "b\nc");
    assert_eq!(read_log_tail_lines("a\nb\n", 5), "a\nb\n");
}

#[test]
fn query_paginates_and_searches() {
    let site = sample_site("lab.example", "/tmp/cpn-log-page/lab");
    let mut body = String::new();
    for i in 1..=25 {
        body.push_str(&format!("line-{i} GET /path-{i}\n"));
    }
    let page = query_site_log_page(&site, "access", "", 2, 10, &no_canon(), Some(&body)).unwrap();
    assert_eq!(page.total_lines, 25);
    assert_eq!(page.total_pages, 3);
    assert_eq!(page.page, 2);
    assert_eq!(page.lines.len(), 10);
    assert!(page.lines[0].contains("line-11"));
    let filtered = query_site_log_page(&site, "access", "path-3", 1, 10, &no_canon(), Some(&body)).unwrap();
    assert!(filtered.total_lines >= 1);
    assert!(filtered.lines.iter().all(|l| l.contains("path-3")));
    assert!(!page.path.contains("CyberPanel"));
    let last = query_site_log_page(&site, "access", "", 9, 10, &no_canon(), Some(&body)).unwrap();
    assert_eq!(last.page, 3);
    assert_eq!(last.lines.len(), 5);
    assert_eq!(
        last.message,
        "Source: /tmp/cpn-log-page/lab/logs/access.log (showing page 3 of 3, 25 matching lines)"
    );
    let none = query_site_log_page(&site, "error", "", 1, 10, &no_canon(), None).unwrap();
    assert!(none.empty);
    assert_eq!(none.message, "No error log file yet. Expected path: /tmp/cpn-log-page/lab/logs/error.log");
}

#[test]
fn creates_and_hints_without_inline_dump() {
    let site = sample_site("lab.example", "/tmp/cpn-log-home/lab");
    let html = log_panel_html(&site, "access");
    assert!(html.contains("Access Logs"));
    assert!(html.contains("Open the card"));
    assert!(!html.contains("secret-line"));
    assert!(!html.to_lowercase().contains("cyberpanel"));
    assert!(log_panel_html(&site, "error").contains("<h3>Error Logs</h3>"));
}

use cpn_panel::panel_website_logs::{log_route_kind, logs_query, LOGS_ROUTE, METRICS_ROUTE};

#[test]
fn panel_website_logs_routes_route_path_documented() {
    assert_eq!(LOGS_ROUTE, "/api/websites/manage/logs");
}

#[test]
fn panel_website_metrics_routes_route_path_documented() {
    assert_eq!(METRICS_ROUTE, "/api/websites/manage/metrics");
}

#[test]
fn logs_query_defaults_and_kind() {
    let q = logs_query("example.com", None, None, None, None);
    assert_eq!((q.kind.as_str(), q.search.as_str(), q.page, q.per_page), ("access", "", 1, 25));
    assert_eq!(log_route_kind(" ERROR ").unwrap(), "error");
    assert_eq!(log_route_kind("debug").unwrap_err(), "kind must be access or error");
}
