use scope::app::App;
use scope::package::{Package, PackageSource};
use scope::scanner::{
    all_scanners, get_scanner, merge_scan_results, scan_task_messages, update_scanners,
    AppImageScanner, AptScanner, FlatpakScanner, PackageScanner, ScanMessage, SnapScanner,
};
use scope::updates::merge_update_results;

fn pkgs(names: &[&str], source: PackageSource) -> Vec<Package> {
    names.iter().map(|n| Package::new(n.to_string(), source)).collect()
}

#[test]
fn scanner_kinds() {
    assert_eq!(get_scanner(PackageSource::DebFile).source_type(), PackageSource::Apt);
    assert_eq!(get_scanner(PackageSource::Flatpak).source_type(), PackageSource::Flatpak);
    assert!(!get_scanner(PackageSource::AppImage).checks_updates());
    assert_eq!(AptScanner::new().source_type(), PackageSource::Apt);
    assert_eq!(SnapScanner::new().source_type(), PackageSource::Snap);
    assert_eq!(FlatpakScanner::new().source_type(), PackageSource::Flatpak);
    assert_eq!(AppImageScanner::new().source_type(), PackageSource::AppImage);
    let all: Vec<PackageSource> = all_scanners().iter().map(|s| s.source_type()).collect();
    assert_eq!(all, vec![PackageSource::Apt, PackageSource::Snap, PackageSource::Flatpak, PackageSource::AppImage]);
    let upd: Vec<PackageSource> = update_scanners().iter().map(|s| s.source_type()).collect();
    assert_eq!(upd, vec![PackageSource::Apt, PackageSource::Snap, PackageSource::Flatpak]);
}

#[test]
fn task_messages_start_then_complete() {
    let m = scan_task_messages(PackageSource::Snap, true, Some(pkgs(&["x", "y"], PackageSource::Snap)));
    assert_eq!(m.len(), 3);
    assert!(matches!(m[0], ScanMessage::Started(PackageSource::Snap)));
    assert!(matches!(&m[1], ScanMessage::Packages(v) if v.len() == 2));
    assert!(matches!(m[2], ScanMessage::Completed(PackageSource::Snap)));
    let failed = scan_task_messages(PackageSource::Apt, true, None);
    assert_eq!(failed.len(), 2);
    let empty = scan_task_messages(PackageSource::Apt, true, Some(Vec::new()));
    assert_eq!(empty.len(), 2);
    let missing = scan_task_messages(PackageSource::Flatpak, false, Some(pkgs(&["z"], PackageSource::Flatpak)));
    assert!(matches!(missing[1], ScanMessage::Completed(PackageSource::Flatpak)));
}

#[test]
fn merge_keeps_working_sources_only() {
    let merged = merge_scan_results(vec![
        (true, Some(pkgs(&["htop", "vim"], PackageSource::Apt))),
        (false, Some(pkgs(&["ghost"], PackageSource::Snap))),
        (true, None),
        (true, Some(pkgs(&["app"], PackageSource::AppImage))),
    ]);
    let names: Vec<String> = merged.iter().map(|p| p.name.clone()).collect();
    assert_eq!(names, vec!["htop", "vim", "app"]);
    let ups = merge_update_results(vec![
        (true, Some(vec![("vim".to_string(), "9.1".to_string())])),
        (true, None),
        (false, Some(vec![("x".to_string(), "1".to_string())])),
    ]);
    assert_eq!(ups, vec![("vim".to_string(), "9.1".to_string())]);
}

#[test]
fn streamed_messages_fill_the_catalog() {
    let mut app = App::new();
    let mut stream = Vec::new();
    stream.extend(scan_task_messages(PackageSource::Apt, true, Some(pkgs(&["htop", "vim"], PackageSource::Apt))));
    stream.extend(scan_task_messages(PackageSource::Snap, false, None));
    stream.push(ScanMessage::Done);
    let mut seen_started = false;
    for m in stream {
        if let ScanMessage::Started(_) = m {
            seen_started = true;
        }
        app.apply_scan_message(m);
        if seen_started && !app.scan_complete {
            assert!(app.is_scanning());
        }
    }
    assert_eq!(app.packages.len(), 2);
    assert!(app.scan_complete);
    assert!(!app.is_scanning());
    assert_eq!(app.filtered_packages.len(), 2);
}
