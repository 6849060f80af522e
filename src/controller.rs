//! The view state machine: key presses and the outcomes of outside work move
//! the application from state to state, and tell the caller what outside
//! work to do next.

use vstd::prelude::*;
use vstd::view::View as _;
use crate::app::{has_pending_update, update_indices, App, ConfirmAction, SidebarSection, View};
use crate::package::{sorted_by, Package, PackageSource};
use crate::updates::{all_reconciled, reconcile_updates};

verus! {

/// A key, as the controller sees it.
#[derive(Debug, Clone, Copy, PartialEq, Eq, Structural)]
pub enum Key {
    Esc,
    Enter,
    Up,
    Down,
    Left,
    Right,
    Home,
    End,
    PageUp,
    PageDown,
    Tab,
    BackTab,
    Backspace,
    Char(char),
    Other,
}

/// A key press with the modifiers that the controller reads.
#[derive(Debug, Clone, Copy, PartialEq, Eq, Structural)]
pub struct KeyInput {
    pub key: Key,
    pub ctrl: bool,
    pub shift: bool,
}

/// Outside work that a transition asks for; the caller does it and reports
/// back through the matching `finish_*` method.
#[derive(Debug, Clone, PartialEq, Eq)]
pub enum Effect {
    /// Nothing to do
    Nothing,
    /// Scan every source again, then `finish_rescan`
    Rescan,
    /// Uninstall the package at this catalog position, then `finish_uninstall`
    Uninstall(usize),
    /// Update the package at this catalog position, then `finish_single_update`
    UpdateOne(usize),
    /// Update the packages at these catalog positions, in order, then rescan
    UpdateSelected(Vec<usize>),
    /// Ask every source for updates, then `finish_update_check`
    CheckUpdates,
    /// Run the scheduled batch update through `next_batch_item`
    RunBatch,
}

/// Number of rows that a page key moves the cursor by.
pub const PAGE_SIZE: usize = 10;

/// Number of the last row of the update-by-source view (0 = APT, 1 = Snap,
/// 2 = Flatpak, 3 = all sources).
pub const LAST_SOURCE_ROW: usize = 3;

/// The text `a`, then `b`, then `c`.
fn join3(a: &str, b: &str, c: &str) -> (r: String)
    ensures
        r@ == a@ + b@ + c@,
{
    let mut s = String::from_str(a);
    s.append(b);
    s.append(c);
    s
}

/// The source that a row of the update-by-source view stands for.
pub open spec fn row_source(row: usize) -> Option<PackageSource> {
    if row == 0 {
        Some(PackageSource::Apt)
    } else if row == 1 {
        Some(PackageSource::Snap)
    } else if row == 2 {
        Some(PackageSource::Flatpak)
    } else {
        None
    }
}

/// The source that a row of the update-by-source view stands for.
pub fn source_for_row(row: usize) -> (r: Option<PackageSource>)
    ensures
        r == row_source(row),
{
    if row == 0 {
        Some(PackageSource::Apt)
    } else if row == 1 {
        Some(PackageSource::Snap)
    } else if row == 2 {
        Some(PackageSource::Flatpak)
    } else {
        None
    }
}

/// What `App::handle_sidebar_input` does.
pub open spec fn sidebar_step(before: App, after: App, key: Key, in_update_view: bool) -> bool {
    &&& (after == match key {
        Key::Esc | Key::Right => App { sidebar_focused: false, ..before },
        Key::Up => App { sidebar_section: before.sidebar_section.spec_prev(), ..before },
        Key::Down => App { sidebar_section: before.sidebar_section.spec_next(), ..before },
        Key::Enter => match before.sidebar_section {
            SidebarSection::Update if !in_update_view => App {
                sidebar_focused: false,
                selected_update_source: 0,
                view: View::UpdateBySource,
                ..before
            },
            SidebarSection::Apps if in_update_view => App {
                sidebar_focused: false,
                view: View::Main,
                ..before
            },
            _ => App { sidebar_focused: false, ..before },
        },
        _ => before,
    })
}

/// What `App::handle_main_input` does.
pub open spec fn main_step(before: App, after: App, input: KeyInput, r: Effect) -> bool {
    &&& (after.packages == before.packages)
    &&& (r == Effect::Nothing || r == Effect::Rescan)
    &&& (r == Effect::Rescan <==> (!before.sidebar_focused && input.key == Key::Char('r')
        && before.search_query@.len() == 0))
    &&& (!before.sidebar_focused ==> match input.key {
        Key::Esc => after == (App { should_quit: true, ..before }),
        Key::Up => after == (App {
            selected: if before.selected > 0 { (before.selected - 1) as usize } else { 0 },
            ..before
        }),
        Key::Down => after == (App {
            selected: if before.selected < before.last_row() {
                (before.selected + 1) as usize
            } else {
                before.selected
            },
            ..before
        }),
        Key::PageUp => after == (App {
            selected: if before.selected >= PAGE_SIZE {
                (before.selected - PAGE_SIZE) as usize
            } else {
                0
            },
            ..before
        }),
        Key::PageDown => after == (App {
            selected: if before.selected + PAGE_SIZE <= before.last_row() {
                (before.selected + PAGE_SIZE) as usize
            } else {
                before.last_row() as usize
            },
            ..before
        }),
        Key::Enter => after == if before.selected_index().is_some() {
            App { details_scroll: 0, view: View::Details, ..before }
        } else {
            before
        },
        Key::Home => after == (App { selected: 0, ..before }),
        Key::End => after == (App { selected: before.last_row() as usize, ..before }),
        Key::Left if before.search_query@.len() == 0 => after == (App {
            sidebar_focused: true,
            ..before
        }),
        Key::Tab if !input.shift => after.refiltered_from(
            App { source_tab: before.source_tab.spec_next(), ..before },
        ),
        Key::Tab | Key::BackTab => after.refiltered_from(
            App { source_tab: before.source_tab.spec_prev(), ..before },
        ),
        Key::Char(c) => if c == 'b' && input.ctrl {
            after == (App { sidebar_focused: true, ..before })
        } else if c == 'f' && before.search_query@.len() == 0 {
            after.refiltered_from(
                App { app_type_filter: before.app_type_filter.spec_next(), ..before },
            )
        } else if c == 'u' && input.ctrl {
            after.search_query@.len() == 0 && after.refiltered_from(
                App { search_query: after.search_query, ..before },
            )
        } else if c == 'r' && before.search_query@.len() == 0 {
            after == before
        } else {
            after.search_query@ == before.search_query@.push(c)
                && after.refiltered_from(
                App { search_query: after.search_query, ..before },
            )
        },
        Key::Backspace => after.refiltered_from(
            App { search_query: after.search_query, ..before },
        ) && after.search_query@ == if before.search_query@.len() == 0 {
            before.search_query@
        } else {
            before.search_query@.drop_last()
        },
        _ => true,
    })
    &&& (before.sidebar_focused ==> r == Effect::Nothing && sidebar_step(before, after, input.key, false))
}

/// What `App::handle_details_input` does.
pub open spec fn details_step(before: App, after: App, key: Key) -> bool {
    &&& (after == match key {
        Key::Esc => App { view: View::Main, ..before },
        Key::Up => App {
            details_scroll: if before.details_scroll > 0 {
                (before.details_scroll - 1) as u16
            } else {
                0
            },
            ..before
        },
        Key::Down => App {
            details_scroll: if before.details_scroll < u16::MAX {
                (before.details_scroll + 1) as u16
            } else {
                u16::MAX
            },
            ..before
        },
        Key::Char('d') => if before.selected_index().is_some() {
            App {
                confirm_action: Some(ConfirmAction::Uninstall),
                view: View::Confirm,
                ..before
            }
        } else {
            before
        },
        Key::Char('u') => match before.selected_index() {
            Some(i) if has_pending_update(before.packages@[i]) => App {
                confirm_action: Some(ConfirmAction::Update),
                view: View::Confirm,
                ..before
            },
            _ => before,
        },
        _ => before,
    })
}

/// What `App::handle_confirm_input` does.
pub open spec fn confirm_step(before: App, after: App, key: Key, r: Effect) -> bool {
    &&& (after.packages == before.packages)
    &&& (match key {
        Key::Char('y') | Key::Char('Y') => {
            &&& after.confirm_action.is_none()
            &&& match (before.confirm_action, before.selected_index()) {
                (Some(ConfirmAction::Uninstall), Some(i)) => {
                    &&& r == Effect::Uninstall(i as usize)
                    &&& after.view == View::Loading
                    &&& after.loading_message@ == "Uninstalling "@
                        + before.packages@[i].name@ + "..."@
                },
                (Some(ConfirmAction::Update), Some(i)) => {
                    &&& r == Effect::UpdateOne(i as usize)
                    &&& after.view == View::Loading
                    &&& after.loading_message@ == "Updating "@
                        + before.packages@[i].name@ + "..."@
                },
                _ => r == Effect::Nothing && after == (App {
                    confirm_action: None,
                    ..before
                }),
            }
        },
        Key::Char('n') | Key::Char('N') | Key::Esc => r == Effect::Nothing && after
            == (App { confirm_action: None, view: View::Main, ..before }),
        _ => r == Effect::Nothing && after == before,
    })
    &&& (key == Key::Char('y') || key == Key::Char('Y') ==> after == (App {
        confirm_action: None,
        loading_message: after.loading_message,
        view: after.view,
        ..before
    }))
}

/// What `App::handle_error_input` does.
pub open spec fn error_step(before: App, after: App, key: Key) -> bool {
    &&& (key == Key::Enter || key == Key::Esc ==> after.error_message@.len() == 0
        && after == (App {
        error_message: after.error_message,
        view: View::Main,
        ..before
    }))
    &&& (!(key == Key::Enter || key == Key::Esc) ==> after == before)
}

/// What `App::handle_update_progress_input` does.
pub open spec fn progress_step(before: App, after: App, key: Key) -> bool {
    &&& (after == if key == Key::Esc {
        App { view: View::CancelConfirm, ..before }
    } else {
        before
    })
}

/// What `App::handle_cancel_confirm_input` does.
pub open spec fn cancel_step(before: App, after: App, key: Key) -> bool {
    &&& (after == match key {
        Key::Char('y') | Key::Char('Y') => {
            let p = before.update_progress;
            App {
                update_progress: crate::app::UpdateProgress { cancelled: true, ..p },
                view: View::UpdateSummary,
                ..before
            }
        },
        Key::Char('n') | Key::Char('N') | Key::Esc => App {
            view: View::UpdateProgress,
            ..before
        },
        _ => before,
    })
}

/// What `App::handle_update_summary_input` does.
pub open spec fn summary_step(before: App, after: App, key: Key) -> bool {
    &&& (key == Key::Enter || key == Key::Esc ==> after.update_progress.is_fresh()
        && after.update_queue@.len() == 0 && after == (App {
        update_progress: after.update_progress,
        update_queue: after.update_queue,
        updates_checked: false,
        update_source_counts: None,
        view: View::Main,
        ..before
    }))
    &&& (!(key == Key::Enter || key == Key::Esc) ==> after == before)
}

/// What `App::handle_update_select_input` does.
pub open spec fn select_step(before: App, after: App, key: Key, r: Effect) -> bool {
    &&& (only_marks_changed(before.packages@, after.packages@))
    &&& (match key {
        Key::Esc => after.view == View::Main && r == Effect::Nothing && forall|i: int|
            0 <= i < after.packages@.len() ==> !(#[trigger] after.packages@[i]).selected,
        Key::Up => r == Effect::Nothing && after == (App {
            update_cursor: if before.update_cursor > 0 {
                (before.update_cursor - 1) as usize
            } else {
                0
            },
            ..before
        }),
        Key::Down => r == Effect::Nothing && after == (App {
            update_cursor: if before.update_cursor + 1 < before.update_selection@.len() {
                (before.update_cursor + 1) as usize
            } else {
                before.update_cursor
            },
            ..before
        }),
        Key::Char(' ') => r == Effect::Nothing && forall|i: int|
            0 <= i < after.packages@.len() ==> (#[trigger] after.packages@[i]).selected
                == if before.update_cursor < before.update_selection@.len()
                && i == before.update_selection@[before.update_cursor as int] {
                !before.packages@[i].selected
            } else {
                before.packages@[i].selected
            },
        Key::Char('a') | Key::Char('n') => r == Effect::Nothing && forall|i: int|
            0 <= i < after.packages@.len() ==> (#[trigger] after.packages@[i]).selected
                == if before.update_selection@.contains(i as usize) {
                key == Key::Char('a')
            } else {
                before.packages@[i].selected
            },
        Key::Enter => after == before && match r {
            Effect::UpdateSelected(v) => v@ == marked_indices(
                before.update_selection@,
                before.packages@,
                before.update_selection@.len(),
            ),
            _ => false,
        },
        _ => r == Effect::Nothing && after == before,
    })
}

/// What `App::handle_update_source_input` does.
pub open spec fn source_step(before: App, after: App, key: Key, now_ms: u128, r: Effect) -> bool {
    &&& (after.packages == before.packages)
    &&& (!before.sidebar_focused ==> match key {
        Key::Esc => r == Effect::Nothing && after == (App {
            view: View::Main,
            sidebar_section: SidebarSection::Apps,
            ..before
        }),
        Key::Left => r == Effect::Nothing && after == (App {
            sidebar_focused: true,
            ..before
        }),
        Key::Up => r == Effect::Nothing && after == (App {
            selected_update_source: if before.selected_update_source > 0 {
                (before.selected_update_source - 1) as usize
            } else {
                before.selected_update_source
            },
            ..before
        }),
        Key::Down => r == Effect::Nothing && after == (App {
            selected_update_source: if before.selected_update_source < LAST_SOURCE_ROW {
                (before.selected_update_source + 1) as usize
            } else {
                before.selected_update_source
            },
            ..before
        }),
        Key::Char('c') => r == Effect::CheckUpdates && after == before,
        Key::Enter => {
            let source = row_source(before.selected_update_source);
            let work = update_indices(before.packages@, source, before.packages@.len());
            if work.len() == 0 {
                &&& r == Effect::Nothing
                &&& after.toast_message.is_some()
                &&& after.toast_message.unwrap()@ == if before.updates_checked {
                    "No updates available"@
                } else {
                    "Press 'c' to check first"@
                }
                &&& after.toast_expires_at == Some((now_ms + 3000) as u128)
                &&& after == (App {
                    toast_message: after.toast_message,
                    toast_expires_at: after.toast_expires_at,
                    ..before
                })
            } else {
                &&& r == Effect::RunBatch
                &&& after.update_queue@ == work
                &&& queue_in_catalog(after.update_queue@, after.packages@)
                &&& after.view == View::UpdateProgress
                &&& after.update_progress.source == source
                &&& after.update_progress.total == work.len()
                &&& after.update_progress.current == 0
                &&& after.update_progress.success_count == 0
                &&& after.update_progress.errors@.len() == 0
                &&& !after.update_progress.cancelled
                &&& after == (App {
                    update_queue: after.update_queue,
                    update_progress: after.update_progress,
                    view: View::UpdateProgress,
                    ..before
                })
            }
        },
        _ => r == Effect::Nothing && after == before,
    })
    &&& (before.sidebar_focused ==> r == Effect::Nothing && sidebar_step(before, after, key, true))
}

impl App {
    /// Whether the state machine may accept input: the catalog view is
    /// consistent, the batch accounting holds and no batch item is in flight.
    pub open spec fn ready(self) -> bool {
        &&& self.wf()
        &&& self.update_progress.wf()
        &&& !self.update_progress.in_flight()
    }

    /// Dispatches a key press to the handler of the current view; `now_ms` is
    /// the time in milliseconds since the Unix epoch, for toasts.
    pub fn handle_key(&mut self, input: KeyInput, now_ms: u128) -> (r: Effect)
        requires
            now_ms <= u128::MAX - 3000,
        ensures
            old(self).ready() ==> final(self).ready(),
            final(self).packages@.len() == old(self).packages@.len(),
            old(self).view == View::Details || old(self).view == View::UpdateProgress
                || old(self).view == View::UpdateSummary || old(self).view == View::CancelConfirm
                || old(self).view == View::Error ==> r == Effect::Nothing,
            old(self).view == View::Main ==> main_step(*old(self), *final(self), input, r),
            old(self).view == View::Details ==> details_step(*old(self), *final(self), input.key),
            old(self).view == View::Confirm ==> confirm_step(*old(self), *final(self), input.key, r),
            old(self).view == View::UpdateSelect ==> select_step(*old(self), *final(self), input.key, r),
            old(self).view == View::UpdateBySource ==> source_step(*old(self), *final(self), input.key, now_ms, r),
            old(self).view == View::UpdateProgress ==> progress_step(*old(self), *final(self), input.key),
            old(self).view == View::UpdateSummary ==> summary_step(*old(self), *final(self), input.key),
            old(self).view == View::CancelConfirm ==> cancel_step(*old(self), *final(self), input.key),
            old(self).view == View::Error ==> error_step(*old(self), *final(self), input.key),
            old(self).view == View::Loading ==> r == Effect::Nothing && *final(self) == if input.key
                == Key::Esc {
                App { should_quit: true, ..*old(self) }
            } else {
                *old(self)
            },
    {
        match self.view {
            View::Main => self.handle_main_input(input),
            View::Details => {
                self.handle_details_input(input.key);
                Effect::Nothing
            },
            View::Confirm => self.handle_confirm_input(input.key),
            View::UpdateSelect => self.handle_update_select_input(input.key),
            View::UpdateBySource => self.handle_update_source_input(input.key, now_ms),
            View::UpdateProgress => {
                self.handle_update_progress_input(input.key);
                Effect::Nothing
            },
            View::UpdateSummary => {
                self.handle_update_summary_input(input.key);
                Effect::Nothing
            },
            View::CancelConfirm => {
                self.handle_cancel_confirm_input(input.key);
                Effect::Nothing
            },
            View::Loading => {
                if input.key == Key::Esc {
                    self.should_quit = true;
                }
                Effect::Nothing
            },
            View::Error => {
                self.handle_error_input(input.key);
                Effect::Nothing
            },
        }
    }

    /// Keys of the sidebar, when it has the focus, in the main and the
    /// update-by-source views.
    fn handle_sidebar_input(&mut self, key: Key, in_update_view: bool)
        ensures
            old(self).ready() ==> final(self).ready(),
            sidebar_step(*old(self), *final(self), key, in_update_view),
    {
        match key {
            Key::Esc | Key::Right => {
                self.sidebar_focused = false;
            },
            Key::Up => {
                self.prev_sidebar_section();
            },
            Key::Down => {
                self.next_sidebar_section();
            },
            Key::Enter => {
                let section = self.sidebar_section;
                self.sidebar_focused = false;
                match section {
                    SidebarSection::Apps => {
                        if in_update_view {
                            self.view = View::Main;
                        }
                    },
                    SidebarSection::Update => {
                        if !in_update_view {
                            self.show_update_by_source();
                        }
                    },
                    SidebarSection::Install | SidebarSection::Clean => {},
                }
            },
            _ => {},
        }
    }

    /// Keys of the package list: navigation, tabs, filters and the
    /// always-on search.
    pub fn handle_main_input(&mut self, input: KeyInput) -> (r: Effect)
        ensures
            old(self).ready() ==> final(self).ready(),
            main_step(*old(self), *final(self), input, r),
    {
        if self.sidebar_focused {
            self.handle_sidebar_input(input.key, false);
            return Effect::Nothing;
        }
        let search_empty = self.search_query.as_str().is_empty();
        match input.key {
            Key::Esc => {
                self.should_quit = true;
            },
            Key::Left => {
                if search_empty {
                    self.sidebar_focused = true;
                }
            },
            Key::Up => {
                self.select_previous();
            },
            Key::Down => {
                self.select_next();
            },
            Key::Home => {
                self.select_first();
            },
            Key::End => {
                self.select_last();
            },
            Key::PageUp => {
                self.page_up(PAGE_SIZE);
            },
            Key::PageDown => {
                self.page_down(PAGE_SIZE);
            },
            Key::Enter => {
                self.show_details();
            },
            Key::Tab => {
                if input.shift {
                    self.prev_tab();
                } else {
                    self.next_tab();
                }
            },
            Key::BackTab => {
                self.prev_tab();
            },
            Key::Backspace => {
                self.search_backspace();
            },
            Key::Char(c) => {
                if c == 'b' && input.ctrl {
                    self.sidebar_focused = true;
                } else if c == 'f' && search_empty {
                    self.toggle_filter();
                } else if c == 'u' && input.ctrl {
                    self.clear_search();
                } else if c == 'r' && search_empty {
                    return Effect::Rescan;
                } else {
                    self.search_input(c);
                }
            },
            _ => {},
        }
        Effect::Nothing
    }

    /// Keys of the details view.
    pub fn handle_details_input(&mut self, key: Key)
        ensures
            old(self).ready() ==> final(self).ready(),
            details_step(*old(self), *final(self), key),
    {
        match key {
            Key::Esc => self.hide_details(),
            Key::Char('d') => self.request_uninstall(),
            Key::Char('u') => self.request_update(),
            Key::Up => {
                self.details_scroll = self.details_scroll.saturating_sub(1);
            },
            Key::Down => {
                self.details_scroll = self.details_scroll.saturating_add(1);
            },
            _ => {},
        }
    }

    /// Keys of the confirmation dialog: `y` starts the confirmed action on the
    /// selected package, `n` or Esc drops it.
    pub fn handle_confirm_input(&mut self, key: Key) -> (r: Effect)
        ensures
            old(self).ready() ==> final(self).ready(),
            confirm_step(*old(self), *final(self), key, r),
    {
        match key {
            Key::Char('y') | Key::Char('Y') => {
                let action = self.confirm_action;
                self.confirm_action = None;
                let idx = if self.selected < self.filtered_packages.len() {
                    let i = self.filtered_packages[self.selected];
                    if i < self.packages.len() {
                        Some(i)
                    } else {
                        None
                    }
                } else {
                    None
                };
                match (action, idx) {
                    (Some(ConfirmAction::Uninstall), Some(i)) => {
                        self.loading_message = join3(
                            "Uninstalling ",
                            self.packages[i].name.as_str(),
                            "...",
                        );
                        self.view = View::Loading;
                        Effect::Uninstall(i)
                    },
                    (Some(ConfirmAction::Update), Some(i)) => {
                        self.loading_message = join3(
                            "Updating ",
                            self.packages[i].name.as_str(),
                            "...",
                        );
                        self.view = View::Loading;
                        Effect::UpdateOne(i)
                    },
                    _ => Effect::Nothing,
                }
            },
            Key::Char('n') | Key::Char('N') | Key::Esc => {
                self.cancel_confirm();
                Effect::Nothing
            },
            _ => Effect::Nothing,
        }
    }

    /// Keys of the error view: Enter or Esc dismiss the error.
    pub fn handle_error_input(&mut self, key: Key)
        ensures
            old(self).ready() ==> final(self).ready(),
            error_step(*old(self), *final(self), key),
    {
        match key {
            Key::Enter | Key::Esc => {
                self.error_message = String::new();
                self.view = View::Main;
            },
            _ => {},
        }
    }

    /// Keys of the running batch update: Esc asks to cancel it.
    pub fn handle_update_progress_input(&mut self, key: Key)
        ensures
            old(self).ready() ==> final(self).ready(),
            progress_step(*old(self), *final(self), key),
    {
        if key == Key::Esc {
            self.view = View::CancelConfirm;
        }
    }

    /// Keys of the cancel dialog: `y` cancels the batch (the item in flight
    /// still finishes), `n` or Esc go on with it.
    pub fn handle_cancel_confirm_input(&mut self, key: Key)
        ensures
            old(self).ready() ==> final(self).ready(),
            cancel_step(*old(self), *final(self), key),
    {
        match key {
            Key::Char('y') | Key::Char('Y') => {
                self.update_progress.cancelled = true;
                self.view = View::UpdateSummary;
            },
            Key::Char('n') | Key::Char('N') | Key::Esc => {
                self.view = View::UpdateProgress;
            },
            _ => {},
        }
    }

    /// Keys of the batch summary: Enter or Esc close it and forget the
    /// progress and the update counts.
    pub fn handle_update_summary_input(&mut self, key: Key)
        ensures
            old(self).ready() ==> final(self).ready(),
            summary_step(*old(self), *final(self), key),
    {
        match key {
            Key::Enter | Key::Esc => {
                self.reset_update_progress();
                self.update_queue = Vec::new();
                self.updates_checked = false;
                self.update_source_counts = None;
                self.view = View::Main;
            },
            _ => {},
        }
    }
}


/// The positions listed in `sel` (among its first `n`) whose package is marked.
pub open spec fn marked_indices(sel: Seq<usize>, pkgs: Seq<Package>, n: nat) -> Seq<usize>
    decreases n,
{
    if n == 0 {
        seq![]
    } else {
        let prev = marked_indices(sel, pkgs, (n - 1) as nat);
        let i = sel[n - 1];
        if i < pkgs.len() && pkgs[i as int].selected {
            prev.push(i)
        } else {
            prev
        }
    }
}

/// `after` is `before` with only the selection marks changed.
pub open spec fn only_marks_changed(before: Seq<Package>, after: Seq<Package>) -> bool {
    &&& after.len() == before.len()
    &&& forall|i: int|
        0 <= i < before.len() ==> #[trigger] after[i] == (Package {
            selected: after[i].selected,
            ..before[i]
        })
}

/// Every position of the update queue is a position in the catalog.
pub open spec fn queue_in_catalog(queue: Seq<usize>, pkgs: Seq<Package>) -> bool {
    forall|k: int| 0 <= k < queue.len() ==> #[trigger] queue[k] < pkgs.len()
}

proof fn lemma_update_indices_bound(pkgs: Seq<Package>, source: Option<PackageSource>, n: nat)
    requires
        n <= usize::MAX,
    ensures
        forall|k: int|
            0 <= k < update_indices(pkgs, source, n).len() ==> #[trigger] update_indices(
                pkgs,
                source,
                n,
            )[k] < n,
    decreases n,
{
    if n > 0 {
        let m = (n - 1) as nat;
        lemma_update_indices_bound(pkgs, source, m);
        let prev = update_indices(pkgs, source, m);
        let cur = update_indices(pkgs, source, n);
        assert forall|k: int| 0 <= k < cur.len() implies #[trigger] cur[k] < n by {
            if k < prev.len() {
                assert(cur[k] == prev[k]);
            }
        }
    }
}

impl App {
    /// Sets the selection mark of the packages at the given positions (all
    /// of them when `only` is `None`).
    fn set_marks(&mut self, only: Option<&Vec<usize>>, value: bool)
        ensures
            only_marks_changed(old(self).packages@, final(self).packages@),
            *final(self) == (App { packages: final(self).packages, ..*old(self) }),
            old(self).wf() ==> final(self).wf(),
            forall|i: int|
                0 <= i < old(self).packages@.len() ==> (#[trigger] final(self).packages@[i]).selected
                    == match only {
                    None => value,
                    Some(v) => if v@.contains(i as usize) {
                        value
                    } else {
                        old(self).packages@[i].selected
                    },
                },
    {
        let n = self.packages.len();
        let mut i: usize = 0;
        while i < n
            invariant
                i <= n == self.packages@.len() == old(self).packages@.len(),
                only_marks_changed(old(self).packages@, self.packages@),
                *self == (App { packages: self.packages, ..*old(self) }),
                forall|k: int|
                    0 <= k < n ==> (#[trigger] self.packages@[k]).selected == if k < i {
                        match only {
                            None => value,
                            Some(v) => if v@.contains(k as usize) {
                                value
                            } else {
                                old(self).packages@[k].selected
                            },
                        }
                    } else {
                        old(self).packages@[k].selected
                    },
            decreases n - i,
        {
            let hit = match only {
                None => true,
                Some(v) => {
                    let mut found = false;
                    let mut j: usize = 0;
                    while j < v.len()
                        invariant
                            j <= v@.len(),
                            found == v@.subrange(0, j as int).contains(i),
                        decreases v@.len() - j,
                    {
                        let ghost before = v@.subrange(0, j as int);
                        let ghost after = v@.subrange(0, j + 1);
                        proof {
                            assert(after == before.push(v@[j as int]));
                            assert(after[j as int] == v@[j as int]);
                        }
                        if v[j] == i {
                            found = true;
                        }
                        proof {
                            if v@[j as int] != i && !before.contains(i) {
                                assert forall|k: int| 0 <= k < after.len() implies after[k] != i by {
                                    if k < j {
                                        assert(after[k] == before[k]);
                                    }
                                }
                            }
                            if before.contains(i) {
                                let k = choose|k: int| 0 <= k < before.len() && before[k] == i;
                                assert(after[k] == i);
                            }
                        }
                        j += 1;
                    }
                    proof {
                        assert(v@.subrange(0, v@.len() as int) == v@);
                    }
                    found
                },
            };
            if hit {
                self.packages[i].selected = value;
            }
            i += 1;
        }
        proof {
            crate::app::lemma_filter_indices_same(
                old(self).packages@,
                self.packages@,
                self.source_tab,
                self.search_query@,
                self.app_type_filter,
                n as nat,
            );
        }
    }

    /// The offered packages whose mark is set, in the order offered.
    pub fn marked_for_update(&self) -> (r: Vec<usize>)
        ensures
            r@ == marked_indices(self.update_selection@, self.packages@, self.update_selection@.len()),
    {
        let mut out: Vec<usize> = Vec::new();
        let n = self.update_selection.len();
        let mut k: usize = 0;
        while k < n
            invariant
                k <= n == self.update_selection@.len(),
                out@ == marked_indices(self.update_selection@, self.packages@, k as nat),
            decreases n - k,
        {
            let i = self.update_selection[k];
            if i < self.packages.len() && self.packages[i].selected {
                out.push(i);
            }
            k += 1;
        }
        out
    }

    /// Keys of the update selection view: move, mark and unmark packages,
    /// Enter updates the marked ones, Esc unmarks all and goes back.
    pub fn handle_update_select_input(&mut self, key: Key) -> (r: Effect)
        ensures
            old(self).ready() ==> final(self).ready(),
            select_step(*old(self), *final(self), key, r),
    {
        match key {
            Key::Esc => {
                self.set_marks(None, false);
                self.view = View::Main;
                Effect::Nothing
            },
            Key::Up => {
                if self.update_cursor > 0 {
                    self.update_cursor -= 1;
                }
                Effect::Nothing
            },
            Key::Down => {
                if self.update_cursor < self.update_selection.len().saturating_sub(1) {
                    self.update_cursor += 1;
                }
                Effect::Nothing
            },
            Key::Char(' ') => {
                if self.update_cursor < self.update_selection.len() {
                    let idx = self.update_selection[self.update_cursor];
                    if idx < self.packages.len() {
                        let mark = !self.packages[idx].selected;
                        let mut one: Vec<usize> = Vec::new();
                        one.push(idx);
                        self.set_marks(Some(&one), mark);
                        proof {
                            assert forall|i: int| 0 <= i < self.packages@.len() implies #[trigger] one@.contains(i as usize) == (i == idx) by {
                                if i == idx {
                                    assert(one@[0] == idx);
                                }
                            }
                        }
                    }
                }
                Effect::Nothing
            },
            Key::Char('a') | Key::Char('n') => {
                let value = key == Key::Char('a');
                let sel = self.update_selection.clone();
                self.set_marks(Some(&sel), value);
                Effect::Nothing
            },
            Key::Enter => Effect::UpdateSelected(self.marked_for_update()),
            _ => Effect::Nothing,
        }
    }

    /// Keys of the update-by-source view: pick a source row, check for
    /// updates, or schedule the batch update of the chosen source.
    pub fn handle_update_source_input(&mut self, key: Key, now_ms: u128) -> (r: Effect)
        requires
            now_ms <= u128::MAX - 3000,
        ensures
            old(self).ready() ==> final(self).ready(),
            source_step(*old(self), *final(self), key, now_ms, r),
    {
        if self.sidebar_focused {
            self.handle_sidebar_input(key, true);
            return Effect::Nothing;
        }
        match key {
            Key::Esc => {
                self.view = View::Main;
                self.sidebar_section = SidebarSection::Apps;
                Effect::Nothing
            },
            Key::Left => {
                self.sidebar_focused = true;
                Effect::Nothing
            },
            Key::Up => {
                if self.selected_update_source > 0 {
                    self.selected_update_source -= 1;
                }
                Effect::Nothing
            },
            Key::Down => {
                if self.selected_update_source < LAST_SOURCE_ROW {
                    self.selected_update_source += 1;
                }
                Effect::Nothing
            },
            Key::Char('c') => Effect::CheckUpdates,
            Key::Enter => {
                let source = source_for_row(self.selected_update_source);
                let work = self.get_packages_to_update(source);
                if work.len() == 0 {
                    let message = if self.updates_checked {
                        String::from_str("No updates available")
                    } else {
                        String::from_str("Press 'c' to check first")
                    };
                    self.show_toast(message, now_ms);
                    return Effect::Nothing;
                }
                let count = self.packages.len();
                proof {
                    lemma_update_indices_bound(self.packages@, source, count as nat);
                }
                self.reset_update_progress();
                self.update_progress.source = source;
                self.update_progress.total = work.len();
                self.update_queue = work;
                self.view = View::UpdateProgress;
                Effect::RunBatch
            },
            _ => Effect::Nothing,
        }
    }

    /// Starts the next item of the batch update and gives its catalog
    /// position; `None` once the batch is exhausted or cancelled (the
    /// cancellation is honoured between items only).
    pub fn next_batch_item(&mut self) -> (r: Option<usize>)
        ensures
            old(self).update_progress.wf() && !old(self).update_progress.in_flight() ==> match r {
                Some(i) => {
                    &&& !old(self).update_progress.cancelled
                    &&& old(self).update_progress.current < old(self).update_progress.total
                    &&& old(self).update_progress.current < old(self).update_queue@.len()
                    &&& i == old(self).update_queue@[old(self).update_progress.current as int]
                    &&& i < old(self).packages@.len()
                    &&& final(self).update_progress.wf()
                    &&& final(self).update_progress.in_flight()
                    &&& final(self).update_progress.current == old(self).update_progress.current + 1
                    &&& final(self).update_progress.current_package == old(self).packages@[i as int].name
                    &&& *final(self) == (App { update_progress: final(self).update_progress, ..*old(self) })
                    &&& final(self).update_progress == (crate::app::UpdateProgress {
                        current: final(self).update_progress.current,
                        current_package: final(self).update_progress.current_package,
                        ..old(self).update_progress
                    })
                },
                None => {
                    &&& *final(self) == *old(self)
                    &&& (old(self).update_progress.cancelled || old(self).update_progress.current
                        >= old(self).update_progress.total || old(self).update_progress.current
                        >= old(self).update_queue@.len() || old(self).update_queue@[old(
                        self,
                    ).update_progress.current as int] >= old(self).packages@.len())
                },
            },
            old(self).ready() && r.is_none() ==> final(self).ready(),
            old(self).update_progress.wf() && !old(self).update_progress.in_flight()
                && !old(self).update_progress.cancelled && old(self).update_queue@.len()
                == old(self).update_progress.total && queue_in_catalog(
                old(self).update_queue@,
                old(self).packages@,
            ) && r.is_none() ==> old(self).update_progress.spec_skipped() == 0,
    {
        if !(self.update_progress.success_count <= self.update_progress.current
            && self.update_progress.current <= self.update_progress.total) {
            return None;
        }
        let p = &self.update_progress;
        if p.cancelled || p.current >= p.total || p.current >= self.update_queue.len() {
            return None;
        }
        let idx = self.update_queue[p.current];
        if idx >= self.packages.len() {
            return None;
        }
        let name = self.packages[idx].name.clone();
        self.update_progress.current = self.update_progress.current + 1;
        self.update_progress.current_package = name;
        Some(idx)
    }

    /// Records the outcome of the item in flight: a success, or a failure kept
    /// with the package name and message. Nothing happens when no item is in
    /// flight.
    pub fn record_batch_result(&mut self, result: Result<(), String>)
        ensures
            old(self).update_progress.wf() && old(self).update_progress.in_flight() ==> {
                &&& final(self).update_progress.wf()
                &&& !final(self).update_progress.in_flight()
                &&& old(self).ready() || old(self).wf() ==> final(self).ready()
                &&& *final(self) == (App { update_progress: final(self).update_progress, ..*old(self) })
                &&& match result {
                    Ok(()) => final(self).update_progress == (crate::app::UpdateProgress {
                        success_count: (old(self).update_progress.success_count + 1) as usize,
                        ..old(self).update_progress
                    }),
                    Err(e) => {
                        &&& final(self).update_progress == (crate::app::UpdateProgress {
                            errors: final(self).update_progress.errors,
                            ..old(self).update_progress
                        })
                        &&& final(self).update_progress.errors@.len() == old(self).update_progress.errors@.len() + 1
                        &&& final(self).update_progress.errors@.drop_last() == old(self).update_progress.errors@
                        &&& final(self).update_progress.errors@.last().0 == old(self).update_progress.current_package
                        &&& final(self).update_progress.errors@.last().1 == e
                    },
                }
            },
            !(old(self).update_progress.wf() && old(self).update_progress.in_flight()) ==> *final(self) == *old(self),
    {
        let p = &self.update_progress;
        if !(p.success_count <= p.current && p.current <= p.total && p.errors.len() <= p.current - p.success_count
            && p.current - p.success_count - p.errors.len() == 1) {
            return ;
        }
        match result {
            Ok(()) => {
                self.update_progress.success_count = self.update_progress.success_count + 1;
            },
            Err(e) => {
                let name = self.update_progress.current_package.clone();
                self.update_progress.errors.push((name, e));
            },
        }
    }

    /// Shows the summary of the batch update.
    pub fn finish_batch(&mut self)
        ensures
            *final(self) == (App { view: View::UpdateSummary, ..*old(self) }),
            old(self).ready() ==> final(self).ready(),
    {
        self.view = View::UpdateSummary;
    }

    /// Shows the loading view while every source is scanned again.
    pub fn begin_rescan(&mut self)
        ensures
            final(self).view == View::Loading,
            final(self).loading_message@ == "Scanning installed packages..."@,
            *final(self) == (App {
                view: View::Loading,
                loading_message: final(self).loading_message,
                ..*old(self)
            }),
            old(self).ready() ==> final(self).ready(),
    {
        self.view = View::Loading;
        self.loading_message = String::from_str("Scanning installed packages...");
    }

    /// Replaces the catalog by the result of a full scan, sorted and
    /// filtered, and goes back to the package list.
    pub fn finish_rescan(&mut self, packages: Vec<Package>)
        ensures
            final(self).wf(),
            final(self).packages@.to_multiset() == packages@.to_multiset(),
            sorted_by(final(self).packages@, old(self).sort_criteria),
            final(self).view == View::Main,
            final(self).refiltered_from(
                App { packages: final(self).packages, view: View::Main, ..*old(self) },
            ),
            old(self).ready() ==> final(self).ready(),
    {
        self.packages = packages;
        self.sort_packages();
        self.view = View::Main;
    }

    /// Takes in the outcome of an uninstall of the package at `index`: on
    /// success the package leaves the catalog and the search is cleared; on
    /// failure the error view shows the message.
    pub fn finish_uninstall(&mut self, index: usize, result: Result<(), String>)
        ensures
            old(self).ready() ==> final(self).ready(),
            match result {
                Ok(()) => {
                    &&& final(self).view == View::Main
                    &&& final(self).search_query@.len() == 0
                    &&& final(self).wf()
                    &&& final(self).refiltered_from(
                        App {
                            packages: final(self).packages,
                            search_query: final(self).search_query,
                            view: View::Main,
                            ..*old(self)
                        },
                    )
                    &&& final(self).packages@ == if index < old(self).packages@.len() {
                        old(self).packages@.remove(index as int)
                    } else {
                        old(self).packages@
                    }
                },
                Err(e) => {
                    &&& final(self).error_message@ == "Uninstall failed: "@ + e@
                    &&& *final(self) == (App {
                        error_message: final(self).error_message,
                        view: View::Error,
                        ..*old(self)
                    })
                },
            },
    {
        match result {
            Ok(()) => {
                if index < self.packages.len() {
                    self.packages.remove(index);
                }
                self.clear_search();
                self.view = View::Main;
            },
            Err(e) => {
                let mut text = String::from_str("Uninstall failed: ");
                text.append(e.as_str());
                self.error_message = text;
                self.view = View::Error;
            },
        }
    }

    /// Takes in the outcome of the update of one package: on success the
    /// catalog is to be scanned again; on failure the error view shows the
    /// message.
    pub fn finish_single_update(&mut self, result: Result<(), String>) -> (r: Effect)
        ensures
            old(self).ready() ==> final(self).ready(),
            match result {
                Ok(()) => {
                    &&& r == Effect::Rescan
                    &&& final(self).loading_message@ == "Scanning installed packages..."@
                    &&& *final(self) == (App {
                        view: View::Loading,
                        loading_message: final(self).loading_message,
                        ..*old(self)
                    })
                },
                Err(e) => {
                    &&& r == Effect::Nothing
                    &&& final(self).error_message@ == "Update failed: "@ + e@
                    &&& *final(self) == (App {
                        error_message: final(self).error_message,
                        view: View::Error,
                        ..*old(self)
                    })
                },
            },
    {
        match result {
            Ok(()) => {
                self.begin_rescan();
                Effect::Rescan
            },
            Err(e) => {
                let mut text = String::from_str("Update failed: ");
                text.append(e.as_str());
                self.error_message = text;
                self.view = View::Error;
                Effect::Nothing
            },
        }
    }

    /// Records that updating the package named `name` failed, while a
    /// selection of packages is updated; the other updates go on.
    pub fn note_update_failure(&mut self, name: &str, message: &str)
        ensures
            final(self).error_message@ == "Failed to update "@ + name@ + ": "@ + message@,
            *final(self) == (App { error_message: final(self).error_message, ..*old(self) }),
            old(self).ready() ==> final(self).ready(),
    {
        let mut text = join3("Failed to update ", name, ": ");
        text.append(message);
        self.error_message = text;
    }

    /// Shows the loading view while the sources are asked for updates, and
    /// gives the view to come back to.
    pub fn begin_update_check(&mut self) -> (r: View)
        ensures
            r == old(self).view,
            final(self).checking_updates,
            final(self).view == View::Loading,
            final(self).loading_message@ == "Checking for updates..."@,
            *final(self) == (App {
                checking_updates: true,
                view: View::Loading,
                loading_message: final(self).loading_message,
                ..*old(self)
            }),
            old(self).ready() ==> final(self).ready(),
    {
        let previous = self.view;
        self.checking_updates = true;
        self.loading_message = String::from_str("Checking for updates...");
        self.view = View::Loading;
        previous
    }

    /// Takes in the merged update results: every package's update flag is
    /// settled, the update counts are computed, the view given is restored,
    /// and a toast says so when nothing can be updated.
    pub fn finish_update_check(&mut self, updates: Vec<(String, String)>, back_to: View, now_ms: u128)
        requires
            now_ms <= u128::MAX - 3000,
        ensures
            old(self).ready() ==> final(self).ready(),
            final(self).wf(),
            all_reconciled(old(self).packages@, final(self).packages@, updates@),
            !final(self).checking_updates,
            final(self).updates_checked,
            final(self).view == back_to,
            final(self).refiltered_from(
                App {
                    packages: final(self).packages,
                    checking_updates: false,
                    updates_checked: true,
                    update_source_counts: final(self).update_source_counts,
                    view: back_to,
                    toast_message: final(self).toast_message,
                    toast_expires_at: final(self).toast_expires_at,
                    ..*old(self)
                },
            ),
            ({
                let n = final(self).packages@.len();
                let p = final(self).packages@;
                if crate::app::count_pending(p, 0, n) + crate::app::count_pending(p, 1, n)
                    + crate::app::count_pending(p, 2, n) == 0 {
                    &&& final(self).toast_message.is_some()
                    &&& final(self).toast_message.unwrap()@ == "No updates available"@
                    &&& final(self).toast_expires_at == Some((now_ms + 3000) as u128)
                } else {
                    &&& final(self).toast_message == old(self).toast_message
                    &&& final(self).toast_expires_at == old(self).toast_expires_at
                }
            }),
            final(self).update_source_counts == Some(
                crate::app::UpdateCounts {
                    apt: crate::app::count_pending(final(self).packages@, 0, final(self).packages@.len()) as usize,
                    snap: crate::app::count_pending(final(self).packages@, 1, final(self).packages@.len()) as usize,
                    flatpak: crate::app::count_pending(final(self).packages@, 2, final(self).packages@.len()) as usize,
                },
            ),
    {
        reconcile_updates(&mut self.packages, &updates);
        self.checking_updates = false;
        self.apply_filters();
        self.calculate_update_counts();
        self.view = back_to;
        let c = self.update_source_counts.unwrap();
        let n = self.packages.len();
        proof {
            crate::app::lemma_counts_within(self.packages@);
        }
        if c.apt + c.snap + c.flatpak == 0 {
            self.show_toast(String::from_str("No updates available"), now_ms);
        }
    }

    /// Takes in one event of a streaming scan.
    pub fn apply_scan_message(&mut self, message: crate::scanner::ScanMessage)
        ensures
            old(self).ready() ==> final(self).ready(),
            match message {
                crate::scanner::ScanMessage::Packages(batch) => {
                    &&& final(self).packages@.to_multiset() == (old(self).packages@
                        + batch@).to_multiset()
                    &&& sorted_by(final(self).packages@, old(self).sort_criteria)
                    &&& final(self).refiltered_from(
                        App { packages: final(self).packages, ..*old(self) },
                    )
                },
                crate::scanner::ScanMessage::Started(source) => {
                    &&& final(self).scanning_sources@ == if old(
                        self,
                    ).scanning_sources@.contains(source) {
                        old(self).scanning_sources@
                    } else {
                        old(self).scanning_sources@.push(source)
                    }
                    &&& *final(self) == (App {
                        scanning_sources: final(self).scanning_sources,
                        ..*old(self)
                    })
                },
                crate::scanner::ScanMessage::Completed(source) => {
                    &&& final(self).scanning_sources@ == crate::app::without_source(
                        old(self).scanning_sources@,
                        source,
                        old(self).scanning_sources@.len(),
                    )
                    &&& *final(self) == (App {
                        scanning_sources: final(self).scanning_sources,
                        ..*old(self)
                    })
                },
                crate::scanner::ScanMessage::Done => {
                    &&& final(self).scanning_sources@.len() == 0
                    &&& *final(self) == (App {
                        scan_complete: true,
                        scanning_sources: final(self).scanning_sources,
                        ..*old(self)
                    })
                },
            },
    {
        match message {
            crate::scanner::ScanMessage::Packages(batch) => self.add_packages(batch),
            crate::scanner::ScanMessage::Started(source) => self.scanner_started(source),
            crate::scanner::ScanMessage::Completed(source) => self.scanner_completed(source),
            crate::scanner::ScanMessage::Done => self.scanning_done(),
        }
    }
}

} // verus!
