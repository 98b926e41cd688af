use rust_launcher::process::{get_os as process_of, ProcessType};
use rust_launcher::utility::{asset_suffix_for, get_os, AssetMap, OsType};

#[test]
fn platform_identifiers_map_to_platforms() {
    assert_eq!(get_os("linux"), OsType::Linux);
    assert_eq!(get_os("windows"), OsType::Windows);
    assert_eq!(get_os("macos"), OsType::MacOs);
    assert_eq!(get_os("freebsd"), OsType::Unsupported);
    assert_eq!(get_os(""), OsType::Unsupported);
    assert_eq!(get_os("Linux"), OsType::Unsupported);
    assert_eq!(get_os("linux "), OsType::Unsupported);
    assert_eq!(get_os("linu"), OsType::Unsupported);
}

#[test]
fn platform_identifiers_map_to_families() {
    assert_eq!(process_of("linux"), ProcessType::Unix);
    assert_eq!(process_of("macos"), ProcessType::Unix);
    assert_eq!(process_of("windows"), ProcessType::Windows);
    assert_eq!(process_of("plan9"), ProcessType::Unsupported);
    assert_eq!(process_of("wind\u{f6}ws"), ProcessType::Unsupported);
}

#[test]
fn family_of_a_platform_agrees_with_its_identifier() {
    for name in ["linux", "macos", "windows", "haiku", ""] {
        assert_eq!(get_os(name).process_type(), process_of(name));
    }
}

#[test]
fn only_windows_requires_the_executable_extension() {
    assert!(OsType::Windows.requires_executable_extension());
    assert!(!OsType::Linux.requires_executable_extension());
    assert!(!OsType::MacOs.requires_executable_extension());
    assert!(!OsType::Unsupported.requires_executable_extension());
}

#[test]
fn only_unix_requires_the_executable_permission() {
    assert!(!OsType::Windows.requires_executable_permission());
    assert!(OsType::Linux.requires_executable_permission());
    assert!(OsType::MacOs.requires_executable_permission());
    assert!(!OsType::Unsupported.requires_executable_permission());
}

#[test]
fn asset_suffix_is_found_for_the_configured_platform() {
    let mut assets = AssetMap::new();
    assets.insert(OsType::Windows, "win.zip");
    assert_eq!(
        asset_suffix_for(OsType::Windows, &assets),
        Some(&"win.zip".to_string())
    );
}

#[test]
fn asset_suffix_is_not_found_for_another_platform() {
    let mut assets = AssetMap::new();
    assets.insert(OsType::Windows, "win.zip");
    assert_eq!(asset_suffix_for(OsType::MacOs, &assets), None);
    assert_eq!(asset_suffix_for(OsType::Linux, &assets), None);
    assert_eq!(asset_suffix_for(OsType::Unsupported, &assets), None);
}

#[test]
fn empty_asset_map_finds_nothing() {
    let assets = AssetMap::new();
    for os in [OsType::Windows, OsType::Linux, OsType::MacOs, OsType::Unsupported] {
        assert_eq!(asset_suffix_for(os, &assets), None);
    }
}

#[test]
fn later_suffix_replaces_the_earlier_one() {
    let mut assets = AssetMap::new();
    assets.insert(OsType::Linux, "old.zip");
    assets.insert(OsType::MacOs, "mac.zip");
    assets.insert(OsType::Linux, "new.zip");
    assert_eq!(
        asset_suffix_for(OsType::Linux, &assets),
        Some(&"new.zip".to_string())
    );
    assert_eq!(
        asset_suffix_for(OsType::MacOs, &assets),
        Some(&"mac.zip".to_string())
    );
    assert_eq!(assets.clone(), assets);
}
