use scope::appimage::{extract_name, extract_version, trim_suffix};
use scope::updater::{current_version, find_linux_binary, newer_release, version_text, GitHubAsset, VersionError};

fn asset(name: &str) -> GitHubAsset {
    GitHubAsset { name: name.to_string(), browser_download_url: format!("https://example.org/{}", name), size: 1 }
}

#[test]
fn appimage_names_and_versions() {
    assert_eq!(extract_version("Obsidian-1.4.16.AppImage"), "1.4.16");
    assert_eq!(extract_name("Obsidian-1.4.16.AppImage"), "Obsidian");
    assert_eq!(extract_version("krita-5.2.2-x86_64.appimage"), "5.2.2");
    assert_eq!(extract_name("krita-5.2.2-x86_64.appimage"), "krita");
    assert_eq!(extract_name("Tool_amd64.AppImage"), "Tool");
    assert_eq!(extract_version("MyApp.AppImage"), "unknown");
    assert_eq!(extract_name("MyApp.AppImage"), "MyApp");
}

#[test]
fn suffixes_are_trimmed_repeatedly() {
    assert_eq!(trim_suffix("a.x.x", ".x"), "a");
    assert_eq!(trim_suffix("abc", ""), "abc");
    assert_eq!(trim_suffix("abc", "z"), "abc");
}

#[test]
fn linux_binary_is_picked_by_preference() {
    let assets = vec![asset("scope_1.0_amd64.deb"), asset("scope-linux-x86_64"), asset("scope")];
    assert_eq!(find_linux_binary(&assets), Some(1));
    let assets = vec![asset("Scope-Linux.tar.gz"), asset("scope")];
    assert_eq!(find_linux_binary(&assets), Some(1));
    let assets = vec![asset("SCOPE-LINUX-AMD64"), asset("scope-linux")];
    assert_eq!(find_linux_binary(&assets), Some(0));
    assert_eq!(find_linux_binary(&vec![asset("readme.md")]), None);
    assert_eq!(find_linux_binary(&Vec::new()), None);
}

#[test]
fn release_versions_are_compared() {
    assert_eq!(version_text("vv1.0.0"), "1.0.0");
    assert_eq!(version_text("2.0.0"), "2.0.0");
    assert_eq!(newer_release("v1.2.0", "0.1.0"), Ok(Some("v1.2.0".to_string())));
    assert_eq!(newer_release("v0.1.0", "0.1.0"), Ok(None));
    assert_eq!(newer_release("v0.0.9", current_version()), Ok(None));
    assert_eq!(newer_release("latest", "0.1.0"), Err(VersionError::BadVersion));
    assert_eq!(newer_release("v1.0.0", "not a version"), Err(VersionError::BadVersion));
}
