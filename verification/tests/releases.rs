use cpn_panel::guest::{GuestOs, PackageFamily};
use cpn_panel::release_verify::{
    expected_hash_for, verify_gpg_enabled, verify_release_enabled, verify_sha256_file,
};
use cpn_panel::releases::{
    cargo_version_from_rpm, compare_versions, compatible_package_asset, deb_name_matches,
    expand_compact_prerelease, is_active_0_2_line, is_retag_migration,
    is_retired_cpn_1_0_identity, normalize_version, release_from_fields, rpm_name_matches,
    CpnRelease, NativePackageKind, ReleaseAsset,
};
use cpn_panel::releases_cache::{
    age_secs, cache_is_fresh, cache_ttl_secs, check_min_interval_secs,
    friendly_rate_limit_message, mark_attempt, note_for_cached, seconds_until_next_check,
    store_success, ReleasesCacheFile, DEFAULT_CACHE_TTL_SECS, DEFAULT_CHECK_MIN_INTERVAL_SECS,
};
use cpn_panel::releases_direct::{
    asset, download_base, parse_sha256sums_names, release_from_sums, tag_candidates,
};
use std::cmp::Ordering;

fn sample_release(assets: Vec<ReleaseAsset>) -> CpnRelease {
    CpnRelease {
        tag_name: "v0.2.6-alpha.27".into(),
        version: "0.2.6-alpha.27".into(),
        name: "x".into(),
        published_at: "2026-09-12".into(),
        prerelease: true,
        draft: false,
        html_url: "https://example.invalid".into(),
        assets,
        rpm_asset: None,
        binary_asset: None,
        checksums_asset: None,
        checksums_asc_asset: None,
    }
}

fn named(name: &str) -> ReleaseAsset {
    ReleaseAsset {
        name: name.into(),
        browser_download_url: format!("https://example.invalid/{name}"),
        content_type: "application/octet-stream".into(),
        size: 1,
    }
}

#[test]
fn normalizes_v_prefix() {
    assert_eq!(normalize_version("v0.2.0"), "0.2.0");
    assert_eq!(normalize_version("0.2.0"), "0.2.0");
}

#[test]
fn normalize_strips_spaces_and_every_leading_v() {
    assert_eq!(normalize_version("  vv1.2 "), "1.2");
    assert_eq!(normalize_version("V1.2"), "V1.2");
}

#[test]
fn compares_semver_like() {
    assert_eq!(compare_versions("0.1.0", "0.2.0"), Ordering::Less);
    assert_eq!(compare_versions("0.2.0", "0.2.0"), Ordering::Equal);
    assert_eq!(compare_versions("0.2.10", "0.2.9"), Ordering::Greater);
    assert_eq!(compare_versions("v1.0.0", "0.9.9"), Ordering::Greater);
}

#[test]
fn compare_pads_missing_parts_and_ignores_words() {
    assert_eq!(compare_versions("1.2", "1.2.0"), Ordering::Equal);
    assert_eq!(compare_versions("0.2.6-alpha.21", "0.2.6-alpha.3"), Ordering::Greater);
    assert_eq!(compare_versions("1.x.2", "1.0.2"), Ordering::Equal);
    assert_eq!(compare_versions("1.a.2", "1.0.2"), Ordering::Equal);
    assert_eq!(compare_versions("1.x.2", "1.2"), Ordering::Less);
    assert_eq!(compare_versions("99999999999999999999999.1", "1"), Ordering::Equal);
    assert_eq!(compare_versions("2.0", "10.0"), Ordering::Less);
}

#[test]
fn compare_is_antisymmetric_on_samples() {
    let samples = ["0.1", "0.2.6", "1.0.0", "v0.2.10", "0.2.6-alpha.3"];
    for a in samples {
        assert_eq!(compare_versions(a, a), Ordering::Equal);
        for b in samples {
            assert_eq!(compare_versions(a, b), compare_versions(b, a).reverse());
        }
    }
}

#[test]
fn detects_retired_1_0_retag_migration() {
    assert!(is_retired_cpn_1_0_identity("1.0.0"));
    assert!(is_retired_cpn_1_0_identity("v1.0.1"));
    assert!(!is_retired_cpn_1_0_identity("1.0.2"));
    assert!(!is_retired_cpn_1_0_identity("0.2.6-alpha.21"));
    assert!(is_active_0_2_line("0.2.6-alpha.22"));
    assert!(is_retag_migration("1.0.0", "0.2.6-alpha.21"));
    assert!(!is_retag_migration("0.2.5-alpha.19", "0.2.6-alpha.21"));
    assert!(!is_retag_migration("1.0.0", "1.0.1"));
}

#[test]
fn maps_rpm_nvr_back_to_cargo_prerelease() {
    assert_eq!(cargo_version_from_rpm("0.2.6", "0.alpha24.el9"), "0.2.6-alpha.24");
    assert_eq!(cargo_version_from_rpm("0.2.6", "0.alpha21.el10"), "0.2.6-alpha.21");
    assert_eq!(cargo_version_from_rpm("0.2.6", "0.alpha22.el10"), "0.2.6-alpha.22");
    assert_eq!(cargo_version_from_rpm("0.2.6", "1.el9"), "0.2.6");
    assert_eq!(expand_compact_prerelease("alpha21"), "alpha.21");
    assert_eq!(expand_compact_prerelease("rc1"), "rc.1");
}

#[test]
fn rpm_release_edge_cases() {
    assert_eq!(cargo_version_from_rpm("v0.2.6", "0.beta3.fc41"), "0.2.6-beta.3");
    assert_eq!(cargo_version_from_rpm("0.2.6", "0.1.el9"), "0.2.6");
    assert_eq!(cargo_version_from_rpm("0.2.6", "0.custom"), "0.2.6-custom");
    assert_eq!(cargo_version_from_rpm("0.2.6", "0."), "0.2.6");
    assert_eq!(expand_compact_prerelease(" beta3 "), "beta.3");
    assert_eq!(expand_compact_prerelease("alpha"), "alpha");
    assert_eq!(expand_compact_prerelease("alphax1"), "alphax1");
}

#[test]
fn package_names_are_major_and_arch_specific() {
    assert!(rpm_name_matches("cpn-installer-0.2.2-0.alpha7.el10.x86_64.rpm", 10, "x86_64"));
    assert!(!rpm_name_matches("cpn-installer-0.2.2-0.alpha7.el9.x86_64.rpm", 10, "x86_64"));
    assert!(deb_name_matches("cpn-installer_0.2.2~alpha.7_amd64.deb", "amd64"));
    assert!(!deb_name_matches("cpn-installer_0.2.2~alpha.7_arm64.deb", "amd64"));
}

#[test]
fn compatible_package_follows_guest_family() {
    let release = sample_release(vec![
        named("cpn-installer-0.2.6-0.alpha27.el9.x86_64.rpm"),
        named("cpn-installer-0.2.6-0.alpha27.el10.x86_64.rpm"),
        named("cpn-installer_0.2.6~alpha.27_amd64.deb"),
    ]);
    let el10 = GuestOs { family: PackageFamily::Dnf, major: 10, label: "EL10".into() };
    let (picked, kind) =
        compatible_package_asset(&release, &el10, Some(("x86_64", "amd64"))).expect("rpm");
    assert_eq!(picked.name, "cpn-installer-0.2.6-0.alpha27.el10.x86_64.rpm");
    assert_eq!(kind, NativePackageKind::Rpm);
    let deb = GuestOs { family: PackageFamily::Apt, major: 12, label: "Debian".into() };
    let (picked, kind) =
        compatible_package_asset(&release, &deb, Some(("x86_64", "amd64"))).expect("deb");
    assert_eq!(picked.name, "cpn-installer_0.2.6~alpha.27_amd64.deb");
    assert_eq!(kind, NativePackageKind::Deb);
    let win = GuestOs { family: PackageFamily::Windows, major: 0, label: "Windows".into() };
    assert!(compatible_package_asset(&release, &win, Some(("x86_64", "amd64"))).is_none());
    assert!(compatible_package_asset(&release, &el10, None).is_none());
    let el8 = GuestOs { family: PackageFamily::Dnf, major: 8, label: "EL8".into() };
    assert!(compatible_package_asset(&release, &el8, Some(("x86_64", "amd64"))).is_none());
}

#[test]
fn release_fields_pick_summary_assets() {
    let rel = release_from_fields(
        " v0.2.6-alpha.27 ",
        "Alpha 27",
        "2026-09-12T10:00:00Z",
        true,
        false,
        "https://example.invalid/r",
        vec![named("notes.txt"), named("CPN-INSTALLER-x.RPM"), named("cpn-installer"), named("SHA256SUMS")],
    )
    .expect("release");
    assert_eq!(rel.tag_name, "v0.2.6-alpha.27");
    assert_eq!(rel.version, "0.2.6-alpha.27");
    assert_eq!(rel.published_at, "2026-09-12");
    assert_eq!(rel.rpm_asset.expect("rpm").name, "CPN-INSTALLER-x.RPM");
    assert_eq!(rel.binary_asset.expect("bin").name, "cpn-installer");
    assert_eq!(rel.checksums_asset.expect("sums").name, "SHA256SUMS");
    assert!(rel.checksums_asc_asset.is_none());
    assert!(release_from_fields("  ", "", "", false, false, "", Vec::new()).is_none());
}

#[test]
fn defaults_are_sensible() {
    assert_eq!(DEFAULT_CACHE_TTL_SECS, 1800);
    assert_eq!(DEFAULT_CHECK_MIN_INTERVAL_SECS, 60);
    assert!(!friendly_rate_limit_message(403).contains('\u{2014}'));
    assert!(!friendly_rate_limit_message(429).contains('\u{2013}'));
    assert!(!note_for_cached(90, true, Some(30)).to_lowercase().contains("cyberpanel"));
}

#[test]
fn cache_freshness_requires_matching_repo_and_items() {
    let now = 1_700_000_000u64;
    let mut cache = ReleasesCacheFile {
        schema_version: 1,
        repo: "Control-Panel-Network/CPN-Control-Panel-Network".into(),
        fetched_at_unix: now,
        last_attempt_unix: now,
        etag: None,
        releases: Vec::new(),
        last_error: None,
    };
    let repo = cache.repo.clone();
    assert!(!cache_is_fresh(&cache, &repo, now, DEFAULT_CACHE_TTL_SECS));
    cache.releases.push(sample_release(Vec::new()));
    assert!(cache_is_fresh(&cache, &repo, now, DEFAULT_CACHE_TTL_SECS));
    assert!(!cache_is_fresh(&cache, "other/repo", now, DEFAULT_CACHE_TTL_SECS));
    assert!(cache_is_fresh(&cache, &repo, now + 1800, 1800));
    assert!(!cache_is_fresh(&cache, &repo, now + 1801, 1800));
}

#[test]
fn settings_messages_and_intervals() {
    assert_eq!(cache_ttl_secs(None), 1800);
    assert_eq!(cache_ttl_secs(Some("59")), 1800);
    assert_eq!(cache_ttl_secs(Some("600")), 600);
    assert_eq!(cache_ttl_secs(Some("soon")), 1800);
    assert_eq!(check_min_interval_secs(Some("4")), 60);
    assert_eq!(check_min_interval_secs(Some("5")), 5);
    assert_eq!(
        friendly_rate_limit_message(500),
        "GitHub Releases request failed (HTTP 500). Showing cached results when available."
    );
    assert_eq!(
        note_for_cached(90, true, Some(30)),
        "Checked recently; showing cached results. Try again in 30 seconds."
    );
    assert_eq!(note_for_cached(0, false, None), "Showing cached release list.");
    assert_eq!(
        note_for_cached(90, false, None),
        "Showing cached release list (about 90 seconds old)."
    );
    assert_eq!(
        note_for_cached(600, false, None),
        "Showing cached release list (about 10 minutes old)."
    );
    let mut cache = store_success("a/b", Vec::new(), None, None, 1000);
    assert_eq!(cache.fetched_at_unix, 1000);
    assert_eq!(seconds_until_next_check(&cache, 1010, 60), Some(50));
    assert_eq!(seconds_until_next_check(&cache, 1060, 60), None);
    assert_eq!(age_secs(&cache, 900), 0);
    assert_eq!(age_secs(&cache, 1100), 100);
    mark_attempt(&mut cache, 2000);
    assert_eq!(cache.last_attempt_unix, 2000);
    assert_eq!(cache.fetched_at_unix, 1000);
    let again = store_success("a/b", Vec::new(), None, Some(ReleasesCacheFile {
        schema_version: 1,
        repo: "a/b".into(),
        fetched_at_unix: 1,
        last_attempt_unix: 1,
        etag: Some("\"abc\"".into()),
        releases: Vec::new(),
        last_error: Some("x".into()),
    }), 3000);
    assert_eq!(again.etag.as_deref(), Some("\"abc\""));
    assert!(again.last_error.is_none());
}

#[test]
fn parses_sha256sums_lines() {
    let body = "abcdef0123456789  cpn-installer.rpm\n111  other.bin\n";
    assert_eq!(expected_hash_for(body, "cpn-installer.rpm").as_deref(), Some("abcdef0123456789"));
    assert!(expected_hash_for(body, "missing").is_none());
}

#[test]
fn sums_lines_skip_comments_and_lower_case_hashes() {
    let body = "# list\n\nABCD *pkg.rpm\n";
    assert_eq!(expected_hash_for(body, "pkg.rpm").as_deref(), Some("abcd"));
    assert!(expected_hash_for("lonely\nabcd  pkg.rpm\n", "pkg.rpm").is_none());
}

#[test]
fn verify_flag_defaults_on() {
    assert!(!verify_release_enabled(Some("0")));
    assert!(verify_release_enabled(Some("1")));
    assert!(verify_release_enabled(None));
    assert!(!verify_release_enabled(Some(" OFF ")));
    assert!(!verify_gpg_enabled(None));
    assert!(verify_gpg_enabled(Some("Yes")));
}

#[test]
fn sha256_check_compares_digest() {
    let digest = "ba7816bf8f01cfea414140de5dae2223b00361a396177a9cb410ff61f20015ad";
    let body = format!("{digest}  abc.bin\n");
    assert!(verify_sha256_file("abc.bin", b"abc", &body).is_ok());
    let err = verify_sha256_file("abc.bin", b"abd", &body).unwrap_err();
    assert!(err.starts_with("SHA-256 mismatch for abc.bin: expected ba7816bf"));
    assert_eq!(
        verify_sha256_file("x.bin", b"abc", &body).unwrap_err(),
        "SHA256SUMS has no entry for x.bin; refuse install while CPN_VERIFY_RELEASE is enabled"
    );
}

#[test]
fn parses_sums_names() {
    let body = "abc  cpn-installer\ndef *cpn-installer-0.2.6-0.alpha28.el9.x86_64.rpm\n";
    let names = parse_sha256sums_names(body);
    assert_eq!(names.len(), 2);
    assert_eq!(names[1], "cpn-installer-0.2.6-0.alpha28.el9.x86_64.rpm");
}

#[test]
fn sums_names_are_unique_and_skip_blank() {
    let names = parse_sha256sums_names("a  x\n# c\nb  x\nlonely\nc  *\nd y\n");
    assert_eq!(names, vec!["x".to_string(), "y".to_string()]);
}

#[test]
fn tag_candidates_include_tip() {
    let tags = tag_candidates(Some("0.2.6-alpha.28"), None, "0.2.6-alpha.28");
    assert!(tags.iter().any(|t| t == "v0.2.6-alpha.28"));
    assert!(!tags.join(" ").contains('\u{2014}'));
    assert_eq!(tags.len(), 5);
    let tags = tag_candidates(Some("V9.9"), Some(" 9.8 "), "0.1.0");
    assert_eq!(&tags[..3], &["V9.9".to_string(), "v9.8".to_string(), "v0.1.0".to_string()]);
}

#[test]
fn release_from_sums_builds_assets() {
    let body = "aa  cpn-installer-0.2.6-0.alpha28.el9.x86_64.rpm\nbb  SHA256SUMS\n";
    let release = release_from_sums(
        "Control-Panel-Network/CPN-Control-Panel-Network",
        "v0.2.6-alpha.28",
        body,
    )
    .expect("release");
    assert_eq!(release.version, "0.2.6-alpha.28");
    assert!(release.checksums_asset.is_some());
    assert!(release
        .assets
        .iter()
        .any(|a| a.name.contains("el9") && a.browser_download_url.contains("/download/")));
    assert_eq!(release.assets.len(), 4);
    assert!(release.prerelease);
    assert!(release_from_sums("a/b", "v1", "# nothing\n").is_none());
}

#[test]
fn download_urls() {
    assert_eq!(download_base("a/b", "v1"), "https://github.com/a/b/releases/download/v1");
    let a = asset("SHA256SUMS", "https://x/y");
    assert_eq!(a.browser_download_url, "https://x/y/SHA256SUMS");
    assert_eq!(a.size, 0);
}
