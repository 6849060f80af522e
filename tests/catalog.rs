use scope::app::{App, SourceTab, View};
use scope::package::{sort_packages, AppType, AppTypeFilter, Package, PackageSource, SortCriteria};
use scope::controller::{Effect, Key, KeyInput};
use scope::scanner::merge_scan_results;
use scope::updates::{merge_update_results, reconcile_updates};

fn pkg(name: &str, source: PackageSource, app_type: AppType, size: u64) -> Package {
    let mut p = Package::new(name.to_string(), source);
    p.app_type = app_type;
    p.size_bytes = size;
    p
}

fn sample_app() -> App {
    let mut app = App::new();
    app.add_packages(vec![
        pkg("htop", PackageSource::Apt, AppType::CLI, 300),
        pkg("Firefox", PackageSource::Snap, AppType::GUI, 900),
        pkg("gimp", PackageSource::Flatpak, AppType::GUI, 500),
        pkg("local-tool", PackageSource::DebFile, AppType::Unknown, 100),
        pkg("Editor", PackageSource::AppImage, AppType::GUI, 700),
    ]);
    app
}

fn names_shown(app: &App) -> Vec<String> {
    app.filtered_packages.iter().map(|&i| app.packages[i].name.clone()).collect()
}

#[test]
fn new_app_is_empty_and_on_main_view() {
    let app = App::new();
    assert!(app.packages.is_empty());
    assert!(app.filtered_packages.is_empty());
    assert_eq!(app.selected, 0);
    assert_eq!(app.view, View::Main);
    assert_eq!(app.loading_message, "Scanning...");
    assert!(app.is_scanning());
}

#[test]
fn add_packages_sorts_by_size_descending() {
    let app = sample_app();
    let sizes: Vec<u64> = app.packages.iter().map(|p| p.size_bytes).collect();
    assert_eq!(sizes, vec![900, 700, 500, 300, 100]);
    assert_eq!(app.filtered_packages, vec![0, 1, 2, 3, 4]);
}

#[test]
fn filter_by_tab_search_and_type() {
    let mut app = sample_app();
    app.next_tab();
    assert_eq!(app.source_tab, SourceTab::Apt);
    assert_eq!(names_shown(&app), vec!["htop", "local-tool"]);
    app.next_tab();
    assert_eq!(names_shown(&app), vec!["Firefox"]);
    app.prev_tab();
    app.prev_tab();
    assert_eq!(app.source_tab, SourceTab::All);
    app.toggle_filter();
    assert_eq!(app.app_type_filter, AppTypeFilter::GuiOnly);
    assert_eq!(names_shown(&app), vec!["Firefox", "Editor", "gimp"]);
    app.search_input('E');
    // "E" matches Firefox and Editor by name, ignoring case; gimp has none
    assert_eq!(names_shown(&app), vec!["Firefox", "Editor"]);
    app.search_input('d');
    assert_eq!(names_shown(&app), vec!["Editor"]);
    app.search_backspace();
    app.search_backspace();
    assert_eq!(app.search_query, "");
    app.clear_search();
    assert_eq!(names_shown(&app), vec!["Firefox", "Editor", "gimp"]);
}

#[test]
fn search_matches_description_ignoring_case() {
    let mut p = pkg("vlc", PackageSource::Apt, AppType::GUI, 1);
    p.description = "Multimedia PLAYER".to_string();
    assert!(p.matches_search("player"));
    assert!(p.matches_search("VLC"));
    assert!(!p.matches_search("editor"));
}

#[test]
fn selection_is_clamped_when_the_view_shrinks() {
    let mut app = sample_app();
    app.select_last();
    assert_eq!(app.selected, 4);
    app.next_tab();
    // two rows remain: the cursor moves to the last one
    assert_eq!(app.filtered_packages.len(), 2);
    assert_eq!(app.selected, 1);
    app.search_input('z');
    assert!(app.filtered_packages.is_empty());
    assert_eq!(app.selected, 0);
    assert!(app.selected_package().is_none());
}

#[test]
fn cursor_moves_stay_in_range() {
    let mut app = sample_app();
    app.select_previous();
    assert_eq!(app.selected, 0);
    app.page_down(10);
    assert_eq!(app.selected, 4);
    app.select_next();
    assert_eq!(app.selected, 4);
    app.page_up(3);
    assert_eq!(app.selected, 1);
    app.page_up(10);
    assert_eq!(app.selected, 0);
    app.page_down(usize::MAX);
    assert_eq!(app.selected, 4);
    app.select_first();
    assert_eq!(app.selected_package().unwrap().name, "Firefox");
}

#[test]
fn sorting_by_each_criterion() {
    let mut v = vec![
        pkg("beta", PackageSource::Snap, AppType::CLI, 2),
        pkg("Alpha", PackageSource::Flatpak, AppType::CLI, 3),
        pkg("gamma", PackageSource::Apt, AppType::CLI, 1),
        pkg("delta", PackageSource::Snap, AppType::CLI, 2),
    ];
    let names = |v: &Vec<Package>| v.iter().map(|p| p.name.clone()).collect::<Vec<_>>();
    sort_packages(&mut v, SortCriteria::SizeAsc);
    assert_eq!(names(&v), vec!["gamma", "beta", "delta", "Alpha"]);
    sort_packages(&mut v, SortCriteria::SizeDesc);
    assert_eq!(names(&v), vec!["Alpha", "beta", "delta", "gamma"]);
    sort_packages(&mut v, SortCriteria::NameAsc);
    assert_eq!(names(&v), vec!["Alpha", "beta", "delta", "gamma"]);
    sort_packages(&mut v, SortCriteria::NameDesc);
    assert_eq!(names(&v), vec!["gamma", "delta", "beta", "Alpha"]);
    sort_packages(&mut v, SortCriteria::SourceAsc);
    assert_eq!(names(&v), vec!["gamma", "beta", "delta", "Alpha"]);
}

#[test]
fn toggle_sort_cycles_and_resorts() {
    let mut app = sample_app();
    app.toggle_sort();
    assert_eq!(app.sort_criteria, SortCriteria::SizeAsc);
    assert_eq!(app.packages[0].name, "local-tool");
    app.toggle_sort();
    assert_eq!(app.sort_criteria, SortCriteria::NameAsc);
    assert_eq!(app.packages[0].name, "Editor");
    assert_eq!(SortCriteria::SourceAsc.next(), SortCriteria::SizeDesc);
    assert_eq!(SortCriteria::NameDesc.label(), "Name (Z-A)");
}

#[test]
fn labels_and_cycles() {
    assert_eq!(PackageSource::DebFile.label(), "deb");
    assert_eq!(PackageSource::AppImage.label(), "appimage");
    assert_eq!(AppType::Unknown.label(), "???");
    assert_eq!(AppType::default(), AppType::Unknown);
    assert_eq!(AppTypeFilter::CliOnly.next(), AppTypeFilter::All);
    assert_eq!(AppTypeFilter::GuiOnly.label(), "GUI Only");
    assert!(AppTypeFilter::CliOnly.matches(AppType::CLI));
    assert!(!AppTypeFilter::GuiOnly.matches(AppType::Unknown));
    assert_eq!(SourceTab::All.prev(), SourceTab::AppImage);
    assert_eq!(SourceTab::Flatpak.label(), "Flatpak");
    assert!(SourceTab::Apt.matches(PackageSource::DebFile));
    assert!(!SourceTab::Snap.matches(PackageSource::Apt));
}

#[test]
fn size_is_shown_in_binary_units() {
    let p = pkg("x", PackageSource::Apt, AppType::CLI, 1536);
    assert_eq!(p.size_human(), "1.50 KiB");
    let q = pkg("y", PackageSource::Apt, AppType::CLI, 0);
    assert_eq!(q.size_human(), "0 B");
}

#[test]
fn stats_count_sources() {
    let app = sample_app();
    assert_eq!(app.get_stats(), (5, 2, 1, 1, 1));
}

#[test]
fn reconciliation_settles_every_package() {
    let mut pkgs = vec![
        pkg("htop", PackageSource::Apt, AppType::CLI, 1),
        pkg("vim", PackageSource::Apt, AppType::CLI, 1),
    ];
    let updates = vec![
        ("vim".to_string(), "9.0".to_string()),
        ("other".to_string(), "1".to_string()),
        ("vim".to_string(), "9.1".to_string()),
    ];
    reconcile_updates(&mut pkgs, &updates);
    assert_eq!(pkgs[0].has_update, Some(false));
    assert_eq!(pkgs[0].update_version, None);
    assert_eq!(pkgs[1].has_update, Some(true));
    assert_eq!(pkgs[1].update_version.as_deref(), Some("9.1"));
}

#[test]
fn reconciliation_twice_changes_nothing() {
    let mut pkgs = vec![
        pkg("a", PackageSource::Snap, AppType::GUI, 1),
        pkg("b", PackageSource::Flatpak, AppType::GUI, 1),
        pkg("c", PackageSource::Apt, AppType::CLI, 1),
    ];
    let updates = vec![("b".to_string(), "2.0".to_string()), ("c".to_string(), "3".to_string())];
    reconcile_updates(&mut pkgs, &updates);
    let once: Vec<(Option<bool>, Option<String>)> =
        pkgs.iter().map(|p| (p.has_update, p.update_version.clone())).collect();
    reconcile_updates(&mut pkgs, &updates);
    let twice: Vec<(Option<bool>, Option<String>)> =
        pkgs.iter().map(|p| (p.has_update, p.update_version.clone())).collect();
    assert_eq!(once, twice);
}

#[test]
fn update_counts_and_work_lists() {
    let mut app = sample_app();
    for p in app.packages.iter_mut() {
        p.has_update = Some(matches!(p.source, PackageSource::DebFile | PackageSource::Snap | PackageSource::AppImage));
    }
    assert_eq!(app.get_update_count(), 3);
    app.calculate_update_counts();
    assert!(app.updates_checked);
    let c = app.update_source_counts.unwrap();
    assert_eq!((c.apt, c.snap, c.flatpak), (1, 1, 0));
    assert_eq!(app.get_total_update_count(), 2);
    let apt = app.get_packages_to_update(Some(PackageSource::Apt));
    assert_eq!(apt.len(), 1);
    assert_eq!(app.packages[apt[0]].name, "local-tool");
    assert_eq!(app.get_packages_to_update(None).len(), 3);
    assert!(app.get_packages_to_update(Some(PackageSource::Flatpak)).is_empty());
}

#[test]
fn update_selection_marks_every_offered_package() {
    let mut app = sample_app();
    app.show_update_selection();
    assert!(app.update_selection.is_empty());
    assert_eq!(app.view, View::Main);
    app.packages[2].has_update = Some(true);
    app.show_update_selection();
    assert_eq!(app.update_selection, vec![2]);
    assert!(app.packages[2].selected);
    assert!(!app.packages[1].selected);
    assert_eq!(app.view, View::UpdateSelect);
}

#[test]
fn apt_only_scan_with_one_update_gives_one_work_item() {
    let listing = "htop\t3.3.0\t400\tprocess viewer\nvim\t9.0\t3000\tVi IMproved\n";
    let apt = scope::parse::parse_dpkg_listing(listing, "htop\nvim\n");
    // APT is the only source whose tool is there
    let found = merge_scan_results(vec![
        (true, Some(apt)),
        (false, None),
        (false, None),
        (true, Some(Vec::new())),
    ]);
    let mut app = App::new();
    app.finish_rescan(found);
    assert_eq!(app.packages.len(), 2);
    assert!(app.packages.iter().all(|p| p.source == PackageSource::Apt));
    assert_eq!(app.view, View::Main);
    let updates = merge_update_results(vec![
        (true, Some(vec![("vim".to_string(), "9.1".to_string())])),
        (false, None),
        (false, None),
    ]);
    app.show_update_by_source();
    let back_to = app.begin_update_check();
    app.finish_update_check(updates, back_to, 0);
    assert_eq!(app.get_update_count(), 1);
    assert_eq!(app.get_total_update_count(), 1);
    let enter = KeyInput { key: Key::Enter, ctrl: false, shift: false };
    assert_eq!(app.handle_key(enter, 0), Effect::RunBatch);
    assert_eq!(app.update_progress.total, 1);
    assert_eq!(app.update_queue.len(), 1);
    let item = app.next_batch_item().unwrap();
    assert_eq!(app.packages[item].name, "vim");
    assert_eq!(app.packages[item].update_version.as_deref(), Some("9.1"));
}

#[test]
fn toast_expires_at_its_time() {
    let mut app = App::new();
    app.show_toast("hello".to_string(), 1000);
    assert_eq!(app.toast_expires_at, Some(4000));
    app.check_toast_expiry(3999);
    assert_eq!(app.toast_message.as_deref(), Some("hello"));
    app.check_toast_expiry(4000);
    assert!(app.toast_message.is_none());
    assert!(app.toast_expires_at.is_none());
}

#[test]
fn scan_status_lists_running_sources() {
    let mut app = App::new();
    assert_eq!(app.get_scan_status(), "Starting scan...");
    app.scanner_started(PackageSource::Apt);
    app.scanner_started(PackageSource::Snap);
    app.scanner_started(PackageSource::Apt);
    assert_eq!(app.scanning_sources.len(), 2);
    assert_eq!(app.get_scan_status(), "Scanning: apt, snap");
    app.scanner_completed(PackageSource::Apt);
    assert_eq!(app.get_scan_status(), "Scanning: snap");
    app.scanning_done();
    assert_eq!(app.get_scan_status(), "");
    assert!(!app.is_scanning());
}
