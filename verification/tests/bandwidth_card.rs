use cpn_panel::panel_website_bandwidth::{access_log_usage, bandwidth_card};

const LOG_HINT: &str = "From access log sample (/home/a.test/logs/access.log). Host transfer estimate, not package enforcement.";

#[test]
fn card_from_access_log_without_quota() {
    let usage = access_log_usage(3, 4096, 9000, true);
    let c = bandwidth_card(None, -1, usage, "4.0 KB", "/home/a.test/logs/access.log", "");
    assert_eq!(c.label, "4.0 KB (today)");
    assert_eq!(c.hint, LOG_HINT);
    assert_eq!(c.bytes, Some(4096));
    assert_eq!(c.period, Some("today"));
    assert_eq!(c.source, "access_log");
    assert_eq!(c.quota_mb, None);
}

#[test]
fn card_from_access_log_with_limited_quota() {
    let usage = access_log_usage(3, 0, 2048, false);
    let c = bandwidth_card(Some(1000), -1, usage, "2.0 KB", "/home/a.test/logs/access.log", "1000 MB");
    assert_eq!(c.label, "2.0 KB / 1000 MB");
    assert_eq!(c.hint, format!("{LOG_HINT} Package quota: 1000 MB."));
    assert_eq!(c.bytes, Some(2048));
    assert_eq!(c.period, Some("this month"));
    assert_eq!(c.quota_mb, Some(1000));
}

#[test]
fn card_from_access_log_with_unlimited_quota_keeps_period() {
    let c = bandwidth_card(Some(-1), -1, Some((10, "today")), "10 B", "/home/a.test/logs/access.log", "Unlimited");
    assert_eq!(c.label, "10 B (today)");
    assert_eq!(c.hint, format!("{LOG_HINT} Package quota: Unlimited."));
    assert_eq!(c.source, "access_log");
}

#[test]
fn card_from_quota_only() {
    let unlimited = bandwidth_card(Some(-1), -1, None, "", "", "Unlimited");
    assert_eq!(unlimited.label, "Unlimited quota");
    assert_eq!(unlimited.hint, "Package bandwidth is unlimited; per-vhost transfer counters are not enforced yet.");
    assert_eq!(unlimited.source, "package_quota");
    assert_eq!(unlimited.bytes, None);
    assert_eq!(unlimited.period, None);
    let limited = bandwidth_card(Some(500), -1, None, "", "", "500 MB");
    assert_eq!(limited.label, "Quota 500 MB");
    assert_eq!(limited.hint, "Package bandwidth limit is configured; usage from access logs was not available for this site.");
    assert_eq!(limited.quota_mb, Some(500));
}

#[test]
fn card_not_metered() {
    assert_eq!(access_log_usage(0, 0, 0, true), None);
    let c = bandwidth_card(None, -1, None, "", "", "");
    assert_eq!(c.label, "Not metered");
    assert_eq!(c.hint, "No access log bytes and no package bandwidth quota were available for this site.");
    assert_eq!(c.source, "none");
    assert_eq!(c.quota_mb, None);
}
