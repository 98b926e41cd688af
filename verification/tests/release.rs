use rust_launcher::error::ErrorKind;
use rust_launcher::release::{
    latest_release_url, needs_update, parse_release, ReleaseDescriptor, USER_AGENT,
};
use rust_launcher::utility::Version;

fn release(id: usize, tag: &str) -> ReleaseDescriptor {
    ReleaseDescriptor::from_fields("owner", "tool", Some(id as i64), Some(tag.to_string())).unwrap()
}

#[test]
fn latest_release_url_names_owner_and_repository() {
    assert_eq!(
        latest_release_url("TuuKeZu", "rust-auto-update"),
        "https://api.github.com/repos/TuuKeZu/rust-auto-update/releases/latest"
    );
    assert_eq!(
        latest_release_url("", ""),
        "https://api.github.com/repos///releases/latest"
    );
}

#[test]
fn user_agent_is_fixed() {
    assert_eq!(USER_AGENT, "rust-auto-update");
}

#[test]
fn release_is_built_from_its_two_members() {
    let built =
        ReleaseDescriptor::from_fields("TuuKeZu", "rust-auto-update", Some(7), Some("v2".to_string()));
    assert_eq!(
        built,
        Ok(ReleaseDescriptor {
            remote_id: 7,
            tag: "v2".to_string(),
            download_url:
                "https://github.com/TuuKeZu/rust-auto-update/releases/download/v2/rust-auto-update_v2_"
                    .to_string(),
        })
    );
}

#[test]
fn asset_url_appends_the_platform_suffix() {
    let built = ReleaseDescriptor::from_fields(
        "TuuKeZu",
        "rust-auto-update",
        Some(7),
        Some("v2".to_string()),
    )
    .unwrap();
    assert_eq!(
        built.asset_url("x86_64-pc-windows-gnu.zip"),
        "https://github.com/TuuKeZu/rust-auto-update/releases/download/v2/rust-auto-update_v2_x86_64-pc-windows-gnu.zip"
    );
    assert_eq!(built.clone(), built);
}

#[test]
fn installed_version_copies_identifier_and_tag() {
    assert_eq!(
        release(7, "v2").installed_version(),
        Version { id: 7, label: "v2".to_string() }
    );
}

#[test]
fn release_without_identifier_or_tag_is_malformed() {
    for (id, tag) in [
        (None, Some("v2".to_string())),
        (Some(7), None),
        (None, None),
        (Some(-1), Some("v2".to_string())),
        (Some(i64::MIN), Some("v2".to_string())),
    ] {
        let error = ReleaseDescriptor::from_fields("o", "r", id, tag).unwrap_err();
        assert_eq!(error.kind, ErrorKind::MalformedRelease);
        assert_eq!(error.subject, "");
    }
}

#[test]
fn release_identifier_zero_and_largest_are_accepted() {
    assert_eq!(release(0, "v0").remote_id, 0);
    let built =
        ReleaseDescriptor::from_fields("o", "r", Some(i64::MAX), Some("big".to_string()));
    if (i64::MAX as u128) <= (usize::MAX as u128) {
        assert_eq!(built.unwrap().remote_id, i64::MAX as usize);
    } else {
        assert_eq!(built.unwrap_err().kind, ErrorKind::MalformedRelease);
    }
}

#[test]
fn description_is_parsed_from_json() {
    let body = r#"{"url": "x", "id": 7, "tag_name": "v2", "assets": [{"id": 1}], "draft": false}"#;
    assert_eq!(
        parse_release("owner", "tool", body),
        Ok(ReleaseDescriptor {
            remote_id: 7,
            tag: "v2".to_string(),
            download_url: "https://github.com/owner/tool/releases/download/v2/tool_v2_".to_string(),
        })
    );
}

#[test]
fn description_with_escapes_is_parsed_by_the_json_rules() {
    let body = "{\"tag_name\": \"v\\u00e9\\\"2\", \"id\": 12345678901}";
    let parsed = parse_release("o", "r", body);
    if (12345678901u128) <= (usize::MAX as u128) {
        let parsed = parsed.unwrap();
        assert_eq!(parsed.remote_id, 12345678901usize);
        assert_eq!(parsed.tag, "v\u{e9}\"2");
    } else {
        assert_eq!(parsed.unwrap_err().kind, ErrorKind::MalformedRelease);
    }
}

#[test]
fn malformed_descriptions_are_rejected() {
    for body in [
        "",
        "not json",
        "{\"id\": 7, \"tag_name\": \"v2\"",
        "[7, \"v2\"]",
        "7",
        "null",
        "{}",
        "{\"id\": 7}",
        "{\"tag_name\": \"v2\"}",
        "{\"id\": \"7\", \"tag_name\": \"v2\"}",
        "{\"id\": 7.5, \"tag_name\": \"v2\"}",
        "{\"id\": 7, \"tag_name\": 2}",
        "{\"id\": null, \"tag_name\": \"v2\"}",
        "{\"id\": -3, \"tag_name\": \"v2\"}",
        "{\"id\": 99999999999999999999, \"tag_name\": \"v2\"}",
        "{\"ID\": 7, \"Tag_Name\": \"v2\"}",
        "{\"release\": {\"id\": 7, \"tag_name\": \"v2\"}}",
    ] {
        let error = parse_release("owner", "tool", body).unwrap_err();
        assert_eq!(error.kind, ErrorKind::MalformedRelease, "{}", body);
        assert_eq!(error.subject, "");
    }
}

#[test]
fn update_is_needed_exactly_when_identifiers_differ() {
    let local = Version { id: 5, label: "v1".to_string() };
    assert!(needs_update(&local, &release(7, "v2")));
    assert!(needs_update(&local, &release(4, "v0")));
    assert!(needs_update(&local, &release(0, "v1")));
    assert!(!needs_update(&local, &release(5, "v1")));
    assert!(!needs_update(&local, &release(5, "renamed")));
    let unset = Version::default();
    assert!(needs_update(&unset, &release(1, "v1")));
    assert!(!needs_update(&unset, &release(0, "unset")));
}
