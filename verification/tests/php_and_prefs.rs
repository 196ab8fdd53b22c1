use cpn_panel::guest::{GuestOs, PackageFamily};
use cpn_panel::panel_theme::{ColorMode, DesignPreset};
use cpn_panel::panel_user_prefs::{
    clear_ssh_security_review_snooze, format_epoch_dd_mm_yyyy, is_ssh_security_review_snoozed,
    load_user_color_mode, load_user_minimalist_mode, save_user_color_mode,
    save_user_minimalist_mode, snooze_ssh_security_review, ssh_security_review_snooze_until,
    UserUiPrefs, SSH_SECURITY_REVIEW_SNOOZE_MAX_DAYS,
};
use cpn_panel::php_defaults::{
    candidate_branches, default_php_branch_for_sites, normalize_php_request, php_switch_failure,
    php_switch_record, plan_php_prepare, preferred_stream_for_guest, remi_release_url,
    stream_for_branch, utc_ymd_approx, PhpPlan,
};
use cpn_panel::php_lifecycle::{
    assert_php_branch_not_eol, assert_selected_runtime_ok, branch_from_module_stream,
    php_branch_supported_on, webmail_php_compat, MailSystem,
};
use std::collections::HashMap;
use std::time::{SystemTime, UNIX_EPOCH};

fn el(major: u32) -> GuestOs {
    GuestOs { family: PackageFamily::Dnf, major, label: format!("AlmaLinux {major}") }
}

fn now_epoch_secs() -> i64 {
    SystemTime::now().duration_since(UNIX_EPOCH).map(|d| d.as_secs() as i64).unwrap_or(0)
}

/// Per-user records keyed by their file key, as the prefs directory holds them.
struct PrefsDir(HashMap<String, UserUiPrefs>);

impl PrefsDir {
    fn new() -> Self {
        PrefsDir(HashMap::new())
    }
    fn load(&self, user: &str) -> UserUiPrefs {
        let key = cpn_panel::panel_theme::safe_username_key(user);
        self.0.get(&key).cloned().unwrap_or_default()
    }
    fn store(&mut self, user: &str, prefs: UserUiPrefs) {
        let key = cpn_panel::panel_theme::safe_username_key(user);
        self.0.insert(key, prefs);
    }
}

#[test]
fn refuses_eol_81_in_2026() {
    assert!(assert_php_branch_not_eol("8.1", "2026-09-04").is_err());
    assert!(assert_php_branch_not_eol("8.0", "2026-09-04").is_err());
}

#[test]
fn accepts_82_before_eol() {
    assert!(assert_php_branch_not_eol("8.2", "2026-09-04").is_ok());
}

#[test]
fn remi_and_module_streams_map() {
    assert_eq!(branch_from_module_stream("remi-8.2"), Some("8.2"));
    assert_eq!(branch_from_module_stream("php:8.2"), Some("8.2"));
    assert!(assert_selected_runtime_ok("php:8.2", "2026-09-04").is_ok());
    assert!(assert_selected_runtime_ok("php:8.1", "2026-09-04").is_err());
}

#[test]
fn webmail_declares_php_range() {
    let snappy = webmail_php_compat(MailSystem::Snappymail).expect("range");
    assert_eq!(snappy.min, "8.1");
    let roundcube = webmail_php_compat(MailSystem::Roundcube).expect("range");
    assert_eq!(roundcube.max, "8.4");
    assert!(webmail_php_compat(MailSystem::Thunderbird).is_none());
}

#[test]
fn lifecycle_messages_and_dates() {
    assert_eq!(
        assert_php_branch_not_eol("8.1", "2026-09-04").unwrap_err(),
        "PHP 8.1 is below CPN minimum 8.2"
    );
    assert_eq!(
        assert_php_branch_not_eol("8.2", "2027-01-01").unwrap_err(),
        "PHP 8.2 is past upstream EOL on 2027-01-01; refuse install (issue #4)"
    );
    assert_eq!(assert_php_branch_not_eol("eight", "2026-01-01").unwrap_err(), "Invalid PHP branch: eight");
    assert!(php_branch_supported_on("9.9", "garbage"));
    assert!(!php_branch_supported_on("8.3", "garbage"));
    assert!(php_branch_supported_on(" 8.4 ", "2028-12-31"));
    assert!(!php_branch_supported_on("8.4", "2029-01-01"));
    assert_eq!(branch_from_module_stream("nodejs:20"), None);
    assert_eq!(
        assert_selected_runtime_ok("nodejs:20", "2026-01-01").unwrap_err(),
        "Cannot derive PHP branch from module stream 'nodejs:20'"
    );
}

#[test]
fn normalize_auto_is_85_on_el9() {
    let nine = el(9);
    assert_eq!(normalize_php_request(None, Some(&nine)), "8.5");
    assert_eq!(normalize_php_request(Some("auto"), Some(&nine)), "8.5");
    assert_eq!(normalize_php_request(Some("8.4"), Some(&nine)), "8.4");
}

#[test]
fn normalize_request_forms() {
    assert_eq!(normalize_php_request(Some(" Default "), Some(&el(8))), "8.2");
    assert_eq!(normalize_php_request(Some("php:remi-8.3"), None), "8.3");
    assert_eq!(normalize_php_request(Some("v08.04"), None), "8.4");
    assert_eq!(normalize_php_request(Some("Latest"), None), "latest");
    assert_eq!(normalize_php_request(None, None), "8.5");
}

#[test]
fn candidates_prefer_requested_then_fallback() {
    assert_eq!(candidate_branches("8.5"), vec!["8.5", "8.4", "8.3", "8.2"]);
    assert_eq!(candidate_branches("8.3"), vec!["8.3", "8.5", "8.4", "8.2"]);
}

#[test]
fn parses_fpm_version_line() {
    let sample = "PHP 8.4.25 (fpm-fcgi) (built: Aug 25 2026)\nCopyright";
    let mut found = None;
    for line in sample.lines() {
        let line = line.trim();
        if let Some(rest) = line.strip_prefix("PHP ") {
            let ver = rest.split_whitespace().next().unwrap_or("");
            let mut parts = ver.split('.');
            if let (Some(maj), Some(min)) = (parts.next(), parts.next()) {
                found = Some(format!("{maj}.{min}"));
            }
        }
    }
    assert_eq!(found.as_deref(), Some("8.4"));
}

#[test]
fn el9_preferred_stream_is_remi_85() {
    let nine = el(9);
    assert_eq!(preferred_stream_for_guest(&nine), Some("php:remi-8.5"));
    assert_eq!(stream_for_branch(&nine, "8.5").as_deref(), Some("php:remi-8.5"));
}

#[test]
fn el8_preferred_stream_stays_remi_82() {
    let eight = el(8);
    assert_eq!(preferred_stream_for_guest(&eight), Some("remi-8.2"));
}

#[test]
fn prepare_plan_lists_streams_and_refuses_eol() {
    let nine = el(9);
    match plan_php_prepare(&nine, Some("8.2"), "2026-09-04").unwrap() {
        PhpPlan::Switch { requested, tries } => {
            assert_eq!(requested, "8.2");
            assert_eq!(tries[0], ("8.2".to_string(), "php:remi-8.2".to_string()));
            assert_eq!(tries[1], ("8.2".to_string(), "php:8.2".to_string()));
            assert_eq!(tries.len(), 5);
        }
        PhpPlan::Apt(_) => panic!("dnf guest"),
    }
    let err = plan_php_prepare(&nine, Some("8.1"), "2026-09-04").err().unwrap();
    assert_eq!(err, "PHP 8.1 is not allowed: PHP 8.1 is below CPN minimum 8.2");
    let deb = GuestOs { family: PackageFamily::Apt, major: 12, label: "Debian 12".into() };
    match plan_php_prepare(&deb, None, "2026-09-04").unwrap() {
        PhpPlan::Apt(rec) => {
            assert_eq!(rec.stream, "apt");
            assert_eq!(
                rec.message,
                "Using distro PHP packages on Debian 12 (no DNF module stream). Preferred CPN default remains 8.5."
            );
        }
        PhpPlan::Switch { .. } => panic!("apt guest"),
    }
    let win = GuestOs { family: PackageFamily::Windows, major: 0, label: "Windows".into() };
    assert!(plan_php_prepare(&win, None, "2026-09-04").is_err());
    let rec = php_switch_record("8.5", "8.4", "php:remi-8.4");
    assert_eq!(
        rec.message,
        "PHP 8.5 packages were not available; switched to php:remi-8.4 (PHP 8.4) instead."
    );
    assert_eq!(
        php_switch_failure("8.5", &vec!["php:remi-8.5".into(), "php:remi-8.4".into()]),
        "Could not switch host PHP to 8.5. Tried streams: php:remi-8.5, php:remi-8.4. Install Remi PHP packages or choose another version."
    );
    assert_eq!(remi_release_url(&el(10)), Some("https://rpms.remirepo.net/enterprise/remi-release-10.rpm"));
    assert_eq!(default_php_branch_for_sites(None), "8.5");
}

#[test]
fn utc_dates() {
    assert_eq!(utc_ymd_approx(0), "1970-01-01");
    assert_eq!(utc_ymd_approx(1_773_878_400), "2026-03-19");
    assert_eq!(utc_ymd_approx(951_782_400), "2000-02-29");
    assert_eq!(utc_ymd_approx(253_402_300_799), "9999-12-31");
}

#[test]
fn epoch_formats_as_dd_mm_yyyy() {
    assert_eq!(format_epoch_dd_mm_yyyy(0), "01/01/1970");
    // 2026-03-19 00:00:00 UTC
    assert_eq!(format_epoch_dd_mm_yyyy(1_773_878_400), "19/03/2026");
}

#[test]
fn epoch_dates_around_leap_days_and_before_1970() {
    assert_eq!(format_epoch_dd_mm_yyyy(951_868_799), "29/02/2000");
    assert_eq!(format_epoch_dd_mm_yyyy(1_709_251_199), "29/02/2024");
    assert_eq!(format_epoch_dd_mm_yyyy(-1), "00/01/1970");
    assert_eq!(format_epoch_dd_mm_yyyy(-86_401), "4294967295/01/1970");
}

#[test]
fn parse_color_mode_and_preset() {
    assert_eq!(ColorMode::parse("Dark"), Some(ColorMode::Dark));
    assert_eq!(ColorMode::parse("nope"), None);
    assert_eq!(DesignPreset::parse("custom"), Some(DesignPreset::Custom));
    assert_eq!(DesignPreset::parse("x"), None);
}

#[test]
fn panel_theme_user_color_mode_persists() {
    let mut dir: HashMap<String, UserUiPrefs> = HashMap::new();
    let key = cpn_panel::panel_theme::safe_username_key("Admin");
    let loaded = dir.get(&key).cloned().unwrap_or_default();
    assert_eq!(cpn_panel::panel_theme::load_user_color_mode(&loaded), ColorMode::Light);
    let mut prefs = loaded;
    cpn_panel::panel_user_prefs::save_user_minimalist_mode(&mut prefs, true);
    cpn_panel::panel_user_prefs::snooze_ssh_security_review(&mut prefs, 30, 1_000);
    cpn_panel::panel_theme::save_user_color_mode(&mut prefs, ColorMode::Dark);
    dir.insert(key.clone(), prefs);
    let again = dir.get(&key).cloned().unwrap_or_default();
    assert_eq!(cpn_panel::panel_theme::load_user_color_mode(&again), ColorMode::Dark);
    assert!(cpn_panel::panel_user_prefs::load_user_minimalist_mode(&again));
    assert!(cpn_panel::panel_user_prefs::is_ssh_security_review_snoozed(&again, 2_000));
    assert_eq!(cpn_panel::panel_theme::safe_username_key("Admin/../x"), "admin_.._x");
}

#[test]
fn panel_user_prefs_user_color_mode_persists() {
    let mut dir = PrefsDir::new();
    assert_eq!(load_user_color_mode(&dir.load("Admin")), ColorMode::Light);
    let mut prefs = dir.load("Admin");
    save_user_color_mode(&mut prefs, ColorMode::Dark);
    dir.store("Admin", prefs);
    assert_eq!(load_user_color_mode(&dir.load("Admin")), ColorMode::Dark);
    assert_eq!(cpn_panel::panel_theme::safe_username_key("Admin/../x"), "admin_.._x");
}

#[test]
fn user_minimalist_mode_persists_without_wiping_color() {
    let mut dir = PrefsDir::new();
    assert!(!load_user_minimalist_mode(&dir.load("Admin")));
    let mut p = dir.load("Admin");
    save_user_color_mode(&mut p, ColorMode::Dark);
    dir.store("Admin", p);
    let mut p = dir.load("Admin");
    save_user_minimalist_mode(&mut p, true);
    dir.store("Admin", p);
    assert!(load_user_minimalist_mode(&dir.load("Admin")));
    assert_eq!(load_user_color_mode(&dir.load("Admin")), ColorMode::Dark);
    let mut p = dir.load("Admin");
    save_user_color_mode(&mut p, ColorMode::Light);
    dir.store("Admin", p);
    assert!(load_user_minimalist_mode(&dir.load("Admin")));
    assert_eq!(load_user_color_mode(&dir.load("Admin")), ColorMode::Light);
}

#[test]
fn ssh_security_review_snooze_persists_and_clears() {
    let mut dir = PrefsDir::new();
    assert!(!is_ssh_security_review_snoozed(&dir.load("Admin"), now_epoch_secs()));
    let mut p = dir.load("Admin");
    let until = snooze_ssh_security_review(&mut p, 30, now_epoch_secs());
    dir.store("Admin", p);
    assert!(until > now_epoch_secs());
    assert!(is_ssh_security_review_snoozed(&dir.load("Admin"), now_epoch_secs()));
    assert_eq!(ssh_security_review_snooze_until(&dir.load("Admin"), now_epoch_secs()), Some(until));
    let mut p = dir.load("Admin");
    save_user_color_mode(&mut p, ColorMode::Dark);
    dir.store("Admin", p);
    assert!(is_ssh_security_review_snoozed(&dir.load("Admin"), now_epoch_secs()));
    assert_eq!(load_user_color_mode(&dir.load("Admin")), ColorMode::Dark);
    let mut p = dir.load("Admin");
    assert!(clear_ssh_security_review_snooze(&mut p));
    dir.store("Admin", p);
    assert!(!is_ssh_security_review_snoozed(&dir.load("Admin"), now_epoch_secs()));
    assert_eq!(load_user_color_mode(&dir.load("Admin")), ColorMode::Dark);
}

#[test]
fn ssh_security_review_snooze_clamps_to_max_days() {
    let mut p = UserUiPrefs::default();
    let until = snooze_ssh_security_review(&mut p, 999, now_epoch_secs());
    let max_until =
        now_epoch_secs().saturating_add(i64::from(SSH_SECURITY_REVIEW_SNOOZE_MAX_DAYS) * 86_400);
    assert!(until <= max_until + 5);
    assert!(until >= max_until - 5);
}

#[test]
fn expired_snooze_is_not_active() {
    let mut p = UserUiPrefs::default();
    p.ssh_security_review_snooze_until = Some(now_epoch_secs() - 10);
    assert!(!is_ssh_security_review_snoozed(&p, now_epoch_secs()));
    assert_eq!(ssh_security_review_snooze_until(&p, now_epoch_secs()), None);
    assert_eq!(snooze_ssh_security_review(&mut p, 0, 100), 100 + 86_400);
    assert_eq!(snooze_ssh_security_review(&mut p, 1, i64::MAX - 5), i64::MAX);
}
