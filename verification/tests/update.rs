use ellefuanti::update::{
    install_outcome, install_script, newer_than_current, offered_release, parse_latest_release,
    release_from_fields, runs_installed, Asset, ReleaseFields, UpdateAction, UpdateState,
    Version,
};

const RELEASE: &str = r#"{
    "tag_name": "v0.3.0",
    "html_url": "https://github.com/richasdev/ellefuanti/releases/tag/v0.3.0",
    "assets": [
        {"name": "ellefuanti-0.3.0-macos-arm64.zip",
         "browser_download_url": "https://example.com/a.zip"},
        {"name": "ellefuanti-v0.3.0-macos.dmg",
         "browser_download_url": "https://example.com/a.dmg"}
    ]
}"#;

#[test]
fn a_version_parses_with_or_without_the_v() {
    assert_eq!(Version::parse("0.3.0"), Some(Version(0, 3, 0)));
    assert_eq!(Version::parse("v1.12.5"), Some(Version(1, 12, 5)));
}

#[test]
fn garbage_is_not_a_version() {
    for bad in ["", "0.3", "0.3.0.1", "0.3.x", "v0.3.0-rc1", "latest"] {
        assert_eq!(Version::parse(bad), None, "{bad:?} must not parse");
    }
}

#[test]
fn versions_order_field_by_field() {
    assert!(Version(0, 10, 0) > Version(0, 9, 9), "numeric, not lexicographic");
    assert!(Version(1, 0, 0) > Version(0, 99, 99));
    assert!(Version(0, 2, 1) > Version(0, 2, 0));
}

#[test]
fn the_dmg_asset_is_found_among_others() {
    let release = parse_latest_release(RELEASE).unwrap();
    assert_eq!(release.version, Version(0, 3, 0));
    assert_eq!(release.dmg_url.as_deref(), Some("https://example.com/a.dmg"));
}

#[test]
fn a_release_without_a_dmg_still_announces_via_its_page() {
    let json = r#"{"tag_name": "v0.3.0", "html_url": "https://example.com/rel", "assets": []}"#;
    let release = parse_latest_release(json).unwrap();
    assert_eq!(release.dmg_url, None);
    assert_eq!(release.html_url, "https://example.com/rel");
}

#[test]
fn an_error_body_is_no_update_rather_than_a_panic() {
    assert_eq!(parse_latest_release(r#"{"message": "API rate limit exceeded"}"#), None);
    assert_eq!(parse_latest_release("not json"), None);
}

#[test]
fn newer_means_strictly_newer() {
    let release = parse_latest_release(RELEASE).unwrap();
    assert!(newer_than_current(&release, "0.2.0"));
    assert!(!newer_than_current(&release, "0.3.0"), "equal is not an update");
    assert!(!newer_than_current(&release, "0.4.0"));
    assert!(!newer_than_current(&release, "not-a-version"), "dev builds are not nagged");
}

#[test]
fn each_state_labels_its_cell() {
    assert_eq!(UpdateState::Idle.status_label(), None);
    let release = parse_latest_release(RELEASE).unwrap();
    assert_eq!(
        UpdateState::Available(release).status_label().as_deref(),
        Some("Update v0.3.0 ↓")
    );
    assert_eq!(UpdateState::Downloading.status_label().as_deref(), Some("Updating…"));
    assert_eq!(UpdateState::ReadyToRestart.status_label().as_deref(), Some("Restart to update"));
}

#[test]
fn a_version_reads_back_from_its_own_text() {
    let version = Version(12, 0, 4294967295);
    assert_eq!(version.to_string(), "12.0.4294967295");
    assert_eq!(Version::parse(&version.to_string()), Some(version));
    assert_eq!(Version::parse("0.0.4294967296"), None, "too large for a part");
}

#[test]
fn a_release_needs_a_version_and_a_page() {
    let asset = |name: &str, url: Option<&str>| Asset {
        name: Some(name.to_string()),
        url: url.map(|url| url.to_string()),
    };
    let fields = ReleaseFields {
        tag_name: Some("v2.0.0".to_string()),
        html_url: Some("https://example.com/rel".to_string()),
        assets: vec![asset("a.zip", Some("z")), asset("b-macos.dmg", Some("d"))],
    };
    let release = release_from_fields(&fields).unwrap();
    assert_eq!(release.version, Version(2, 0, 0));
    assert_eq!(release.dmg_url.as_deref(), Some("d"));
    let pageless = ReleaseFields {
        tag_name: Some("v2.0.0".to_string()),
        html_url: None,
        assets: vec![],
    };
    assert!(release_from_fields(&pageless).is_none());
}

#[test]
fn a_click_installs_only_where_the_app_is_installed() {
    let mut state = UpdateState::Available(parse_latest_release(RELEASE).unwrap());
    match state.click(false) {
        UpdateAction::OpenPage { url } => assert!(url.ends_with("/v0.3.0")),
        _ => panic!("a copy that is not installed opens the page"),
    }
    match state.click(true) {
        UpdateAction::Install { script } => assert!(script.contains("https://example.com/a.dmg")),
        _ => panic!("an installed copy downloads"),
    }
    assert_eq!(state, UpdateState::Downloading);
    let release = parse_latest_release(RELEASE).unwrap();
    let status = state.install_ended(release, Err("no space".to_string()));
    assert_eq!(status.as_deref(), Some("Update failed: no space"));
    assert_eq!(state.status_label().as_deref(), Some("Update v0.3.0 ↓"));
}

#[test]
fn a_check_does_not_disturb_an_install() {
    let mut state = UpdateState::Downloading;
    state.offer(parse_latest_release(RELEASE).unwrap());
    assert_eq!(state, UpdateState::Downloading);
    let mut idle = UpdateState::default();
    idle.offer(parse_latest_release(RELEASE).unwrap());
    assert_eq!(idle.status_label().as_deref(), Some("Update v0.3.0 ↓"));
}

#[test]
fn the_script_downloads_the_image_it_was_given() {
    let script = install_script("https://example.com/a.dmg");
    assert!(script.starts_with("set -eu\nSTAGE=\"$(mktemp -d)\"\n"));
    assert!(script.contains("curl -fsSL -o \"$STAGE/update.dmg\" \"https://example.com/a.dmg\"\n"));
    assert!(script.ends_with("|| true\n"));
}

#[test]
fn a_check_offers_what_was_answered_and_is_newer() {
    let body = r#"{"tag_name":"v9.1.0","html_url":"https://example.test/r","assets":[]}"#;
    let offer = offered_release(true, body, "0.3.0").expect("a newer release");
    assert_eq!(offer.version, Version(9, 1, 0));
    assert_eq!(offer.html_url, "https://example.test/r");
    assert!(offered_release(false, body, "0.3.0").is_none(), "a failed check is silent");
    assert!(offered_release(true, body, "9.1.0").is_none());
    assert!(offered_release(true, "rate limited", "0.3.0").is_none());
}

#[test]
fn only_the_installed_copy_installs() {
    assert!(runs_installed(Some("/Applications/ellefuanti.app/Contents/MacOS/ellefuanti")));
    assert!(!runs_installed(Some("/Applications/ellefuanti.app.old/ellefuanti")));
    assert!(!runs_installed(Some("/srv/target/debug/ellefuanti")));
    assert!(!runs_installed(None));
}

#[test]
fn a_failed_install_speaks_in_the_scripts_words() {
    assert_eq!(install_outcome(true, "a warning"), Ok(()));
    assert_eq!(install_outcome(false, "  no space left\n"), Err("no space left".to_string()));
}
