use scope::app::{App, ConfirmAction, SidebarSection, View};
use scope::controller::{Effect, Key, KeyInput};
use scope::package::{AppType, Package, PackageSource};

fn key(k: Key) -> KeyInput {
    KeyInput { key: k, ctrl: false, shift: false }
}

fn ctrl(c: char) -> KeyInput {
    KeyInput { key: Key::Char(c), ctrl: true, shift: false }
}

fn pkg(name: &str, source: PackageSource, size: u64, update: Option<bool>) -> Package {
    let mut p = Package::new(name.to_string(), source);
    p.size_bytes = size;
    p.app_type = AppType::CLI;
    p.has_update = update;
    p
}

fn app_with(pkgs: Vec<Package>) -> App {
    let mut app = App::new();
    app.add_packages(pkgs);
    app
}

#[test]
fn main_view_keys() {
    let mut app = app_with(vec![
        pkg("a", PackageSource::Apt, 3, None),
        pkg("b", PackageSource::Snap, 2, None),
    ]);
    assert_eq!(app.handle_key(key(Key::Down), 0), Effect::Nothing);
    assert_eq!(app.selected, 1);
    app.handle_key(key(Key::Home), 0);
    assert_eq!(app.selected, 0);
    app.handle_key(key(Key::Tab), 0);
    assert_eq!(app.filtered_packages.len(), 1);
    app.handle_key(KeyInput { key: Key::Tab, ctrl: false, shift: true }, 0);
    assert_eq!(app.filtered_packages.len(), 2);
    assert_eq!(app.handle_key(key(Key::Char('r')), 0), Effect::Rescan);
    app.handle_key(key(Key::Char('x')), 0);
    assert_eq!(app.search_query, "x");
    // with a search under way, 'r' is typed into it
    assert_eq!(app.handle_key(key(Key::Char('r')), 0), Effect::Nothing);
    assert_eq!(app.search_query, "xr");
    app.handle_key(ctrl('u'), 0);
    assert_eq!(app.search_query, "");
    app.handle_key(key(Key::Enter), 0);
    assert_eq!(app.view, View::Details);
}

#[test]
fn sidebar_focus_and_sections() {
    let mut app = App::new();
    app.handle_key(key(Key::Left), 0);
    assert!(app.sidebar_focused);
    app.handle_key(key(Key::Down), 0);
    assert_eq!(app.sidebar_section, SidebarSection::Update);
    app.handle_key(key(Key::Enter), 0);
    assert!(!app.sidebar_focused);
    assert_eq!(app.view, View::UpdateBySource);
    app.handle_key(key(Key::Esc), 0);
    assert_eq!(app.view, View::Main);
    assert_eq!(app.sidebar_section, SidebarSection::Apps);
    app.handle_key(ctrl('b'), 0);
    assert!(app.sidebar_focused);
    assert_eq!(SidebarSection::Apps.prev(), SidebarSection::Clean);
    assert_eq!(SidebarSection::Install.label(), "Install");
}

#[test]
fn esc_quits_from_main_and_loading() {
    let mut app = App::new();
    app.handle_key(key(Key::Esc), 0);
    assert!(app.should_quit);
    let mut app = App::new();
    app.begin_rescan();
    assert_eq!(app.view, View::Loading);
    app.handle_key(key(Key::Char('q')), 0);
    assert!(!app.should_quit);
    app.handle_key(key(Key::Esc), 0);
    assert!(app.should_quit);
}

#[test]
fn uninstall_flow_removes_the_package() {
    let mut app = app_with(vec![
        pkg("big", PackageSource::Apt, 9, None),
        pkg("small", PackageSource::Apt, 1, None),
    ]);
    app.handle_key(key(Key::Down), 0);
    app.handle_key(key(Key::Enter), 0);
    app.handle_key(key(Key::Char('d')), 0);
    assert_eq!(app.view, View::Confirm);
    assert_eq!(app.confirm_action, Some(ConfirmAction::Uninstall));
    let effect = app.handle_key(key(Key::Char('y')), 0);
    assert_eq!(effect, Effect::Uninstall(1));
    assert_eq!(app.loading_message, "Uninstalling small...");
    assert_eq!(app.view, View::Loading);
    assert!(app.confirm_action.is_none());
    app.finish_uninstall(1, Ok(()));
    assert_eq!(app.view, View::Main);
    assert_eq!(app.packages.len(), 1);
    assert_eq!(app.packages[0].name, "big");
    assert_eq!(app.selected, 0);
}

#[test]
fn failed_uninstall_shows_the_error() {
    let mut app = app_with(vec![pkg("a", PackageSource::Snap, 1, None)]);
    app.request_uninstall();
    assert_eq!(app.handle_key(key(Key::Char('Y')), 0), Effect::Uninstall(0));
    app.finish_uninstall(0, Err("denied".to_string()));
    assert_eq!(app.view, View::Error);
    assert_eq!(app.error_message, "Uninstall failed: denied");
    assert_eq!(app.packages.len(), 1);
    app.handle_key(key(Key::Enter), 0);
    assert_eq!(app.view, View::Main);
    assert_eq!(app.error_message, "");
}

#[test]
fn update_needs_a_known_update() {
    let mut app = app_with(vec![pkg("a", PackageSource::Flatpak, 1, Some(false))]);
    app.request_update();
    assert_eq!(app.view, View::Main);
    app.packages[0].has_update = Some(true);
    app.request_update();
    assert_eq!(app.view, View::Confirm);
    assert_eq!(app.handle_key(key(Key::Char('y')), 0), Effect::UpdateOne(0));
    assert_eq!(app.loading_message, "Updating a...");
    assert_eq!(app.finish_single_update(Ok(())), Effect::Rescan);
    assert_eq!(app.view, View::Loading);
    app.finish_rescan(vec![pkg("a", PackageSource::Flatpak, 2, None)]);
    assert_eq!(app.view, View::Main);
    assert_eq!(app.packages[0].size_bytes, 2);
    let mut app = app_with(vec![pkg("b", PackageSource::Snap, 1, Some(true))]);
    assert_eq!(app.finish_single_update(Err("boom".to_string())), Effect::Nothing);
    assert_eq!(app.error_message, "Update failed: boom");
}

#[test]
fn cancel_confirmation_returns_to_main() {
    let mut app = app_with(vec![pkg("a", PackageSource::Apt, 1, None)]);
    app.request_uninstall();
    app.handle_key(key(Key::Char('n')), 0);
    assert_eq!(app.view, View::Main);
    assert!(app.confirm_action.is_none());
}

#[test]
fn empty_update_list_shows_a_toast() {
    let mut app = app_with(vec![pkg("a", PackageSource::Apt, 1, None)]);
    app.show_update_by_source();
    assert_eq!(app.handle_key(key(Key::Enter), 500), Effect::Nothing);
    assert_eq!(app.toast_message.as_deref(), Some("Press 'c' to check first"));
    assert_eq!(app.toast_expires_at, Some(3500));
    assert_eq!(app.handle_key(key(Key::Char('c')), 500), Effect::CheckUpdates);
    let back = app.begin_update_check();
    assert_eq!(back, View::UpdateBySource);
    assert!(app.checking_updates);
    app.finish_update_check(Vec::new(), back, 600);
    assert!(!app.checking_updates);
    assert_eq!(app.view, View::UpdateBySource);
    assert_eq!(app.toast_message.as_deref(), Some("No updates available"));
    assert_eq!(app.packages[0].has_update, Some(false));
    assert_eq!(app.handle_key(key(Key::Enter), 700), Effect::Nothing);
    assert_eq!(app.toast_message.as_deref(), Some("No updates available"));
}

#[test]
fn batch_update_runs_the_snapshot_in_order() {
    let mut app = app_with(vec![
        pkg("a", PackageSource::Apt, 5, Some(true)),
        pkg("b", PackageSource::Snap, 4, Some(true)),
        pkg("c", PackageSource::DebFile, 3, Some(true)),
        pkg("d", PackageSource::Apt, 2, Some(false)),
    ]);
    app.show_update_by_source();
    assert_eq!(app.handle_key(key(Key::Enter), 0), Effect::RunBatch);
    assert_eq!(app.view, View::UpdateProgress);
    assert_eq!(app.update_progress.source, Some(PackageSource::Apt));
    assert_eq!(app.update_progress.total, 2);
    assert_eq!(app.update_queue, vec![0, 2]);
    assert_eq!(app.next_batch_item(), Some(0));
    assert_eq!(app.update_progress.current, 1);
    assert_eq!(app.update_progress.current_package, "a");
    app.record_batch_result(Ok(()));
    assert_eq!(app.next_batch_item(), Some(2));
    app.record_batch_result(Err("held back".to_string()));
    assert_eq!(app.next_batch_item(), None);
    app.finish_batch();
    assert_eq!(app.view, View::UpdateSummary);
    let p = &app.update_progress;
    assert_eq!(p.success_count, 1);
    assert_eq!(p.errors, vec![("c".to_string(), "held back".to_string())]);
    assert_eq!(p.skipped(), 0);
    app.handle_key(key(Key::Enter), 0);
    assert_eq!(app.view, View::Main);
    assert!(app.update_source_counts.is_none());
    assert_eq!(app.update_progress.total, 0);
}

#[test]
fn cancelling_after_three_successes_and_one_failure_skips_one() {
    let mut app = app_with(vec![
        pkg("alpha", PackageSource::Flatpak, 5, Some(true)),
        pkg("bravo", PackageSource::Flatpak, 4, Some(true)),
        pkg("charlie", PackageSource::Flatpak, 3, Some(true)),
        pkg("delta", PackageSource::Flatpak, 2, Some(true)),
        pkg("echo", PackageSource::Flatpak, 1, Some(true)),
    ]);
    app.show_update_by_source();
    app.handle_key(key(Key::Down), 0);
    app.handle_key(key(Key::Down), 0);
    assert_eq!(app.handle_key(key(Key::Enter), 0), Effect::RunBatch);
    assert_eq!(app.update_progress.total, 5);
    for outcome in [Ok(()), Err("fail".to_string()), Ok(()), Ok(())] {
        assert!(app.next_batch_item().is_some());
        app.record_batch_result(outcome);
    }
    app.handle_key(key(Key::Esc), 0);
    assert_eq!(app.view, View::CancelConfirm);
    app.handle_key(key(Key::Char('y')), 0);
    assert!(app.update_progress.cancelled);
    assert_eq!(app.view, View::UpdateSummary);
    assert_eq!(app.next_batch_item(), None);
    let p = &app.update_progress;
    assert_eq!(p.success_count, 3);
    assert_eq!(p.errors.len(), 1);
    assert_eq!(p.skipped(), 1);
    assert!(p.current <= p.total);
}

#[test]
fn cancel_dialog_can_resume() {
    let mut app = App::new();
    app.view = View::UpdateProgress;
    app.handle_key(key(Key::Esc), 0);
    assert_eq!(app.view, View::CancelConfirm);
    app.handle_key(key(Key::Char('n')), 0);
    assert_eq!(app.view, View::UpdateProgress);
    assert!(!app.update_progress.cancelled);
}

#[test]
fn update_selection_keys() {
    let mut app = app_with(vec![
        pkg("a", PackageSource::Apt, 3, Some(true)),
        pkg("b", PackageSource::Apt, 2, Some(false)),
        pkg("c", PackageSource::Snap, 1, Some(true)),
    ]);
    app.show_update_selection();
    assert_eq!(app.view, View::UpdateSelect);
    app.handle_key(key(Key::Char(' ')), 0);
    assert!(!app.packages[0].selected);
    match app.handle_key(key(Key::Enter), 0) {
        Effect::UpdateSelected(v) => assert_eq!(v, vec![2]),
        other => panic!("unexpected {:?}", other),
    }
    app.handle_key(key(Key::Down), 0);
    assert_eq!(app.update_cursor, 1);
    app.handle_key(key(Key::Down), 0);
    assert_eq!(app.update_cursor, 1);
    app.handle_key(key(Key::Char('n')), 0);
    assert!(!app.packages[2].selected);
    app.handle_key(key(Key::Char('a')), 0);
    assert!(app.packages[0].selected && app.packages[2].selected && !app.packages[1].selected);
    app.handle_key(key(Key::Esc), 0);
    assert_eq!(app.view, View::Main);
    assert!(app.packages.iter().all(|p| !p.selected));
    app.note_update_failure("a", "no network");
    assert_eq!(app.error_message, "Failed to update a: no network");
}

#[test]
fn details_scroll_saturates() {
    let mut app = app_with(vec![pkg("a", PackageSource::Apt, 1, None)]);
    app.show_details();
    app.handle_key(key(Key::Up), 0);
    assert_eq!(app.details_scroll, 0);
    app.handle_key(key(Key::Down), 0);
    assert_eq!(app.details_scroll, 1);
    app.handle_key(key(Key::Esc), 0);
    assert_eq!(app.view, View::Main);
}

#[test]
fn confirmation_is_cleared_after_a_confirmed_update() {
    let mut app = app_with(vec![pkg("a", PackageSource::Snap, 1, Some(true))]);
    app.request_update();
    assert_eq!(app.handle_key(key(Key::Char('y')), 0), Effect::UpdateOne(0));
    assert!(app.confirm_action.is_none());
    assert_eq!(app.finish_single_update(Ok(())), Effect::Rescan);
    assert!(app.confirm_action.is_none());
    assert_eq!(app.loading_message, "Scanning installed packages...");
}
