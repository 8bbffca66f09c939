use disktree_ui::actions::{Action, DeleteRequest, Effect, NodeFacts};
use disktree_ui::listing::ListEntry;
use disktree_ui::model::{DeleteMode, DeleteOutcome, Metric, NodeKind, Protection, SortKey, NO_NODE, ROOT};
use disktree_ui::state::{AppState, Dialog, Screen, Task, TaskKind};
use disktree_ui::tasks::{FollowUp, ScanOutcome, SubtreeFacts, TaskResult};

fn loaded() -> AppState {
    let mut s = AppState::new();
    s.scanning = true;
    s.scan_finished(ScanOutcome::Done(None));
    s
}

fn facts(is_dir: bool, parent: u32) -> NodeFacts {
    NodeFacts { is_dir, parent }
}

fn none() -> NodeFacts {
    facts(false, NO_NODE)
}

fn toast_text(s: &AppState) -> (String, bool) {
    let t = s.toast.as_ref().expect("a toast");
    (t.text.clone(), t.error)
}

fn message(s: &AppState) -> (String, String) {
    match &s.dialog {
        Some(Dialog::Message { title, body }) => (title.clone(), body.clone()),
        _ => panic!("no message dialog"),
    }
}

fn subtree(selected_inside: bool, current_inside: bool, parent: u32, gone: bool) -> SubtreeFacts {
    SubtreeFacts { selected_inside, current_inside, parent, gone, size_text: "1.5 GB".to_string() }
}

fn delete_task(node: u32, mode: DeleteMode) -> Task {
    Task {
        kind: TaskKind::Delete { node, name: "video.mkv".to_string(), size: 1500, mode },
        label: "Deleting: video.mkv".to_string(),
    }
}

#[test]
fn new_window_starts_empty() {
    let s = AppState::new();
    assert!(!s.has_tree && !s.scanning);
    assert_eq!(s.generation, 0);
    assert_eq!(s.current, ROOT);
    assert_eq!(s.metric, Metric::Allocated);
    assert_eq!(s.sort, SortKey::Size);
    assert!(s.sort_desc);
    assert!(s.list.is_empty() && s.selected.is_none() && s.task.is_none() && s.toast.is_none());
    assert_eq!(s.screen(), Screen::Start);
    assert!(s.accepts_drop());
}

#[test]
fn finished_scan_loads_the_tree() {
    let mut s = AppState::new();
    s.scanning = true;
    assert_eq!(s.screen(), Screen::Scanning);
    assert!(!s.accepts_drop());
    s.selected = Some(4);
    s.scan_finished(ScanOutcome::Done(Some(12)));
    assert!(s.has_tree && !s.scanning);
    assert_eq!(s.current, 12);
    assert_eq!(s.selected, None);
    assert_eq!(s.generation, 1);
    assert_eq!(s.list_scroll_to, Some(0));
    assert_eq!(s.screen(), Screen::Browser);
}

#[test]
fn rescan_without_the_old_folder_opens_the_root() {
    let mut s = loaded();
    s.current = 8;
    s.scanning = true;
    s.scan_finished(ScanOutcome::Done(None));
    assert_eq!(s.current, ROOT);
    assert_eq!(s.generation, 2);
}

#[test]
fn failed_scan_is_an_error_on_the_start_screen() {
    let mut s = AppState::new();
    s.scanning = true;
    s.scan_finished(ScanOutcome::Failed("access denied".to_string()));
    assert_eq!(s.start_error.as_deref(), Some("access denied"));
    assert!(s.toast.is_none());
    assert!(!s.scanning);
}

#[test]
fn failed_rescan_is_a_notice() {
    let mut s = loaded();
    s.scanning = true;
    s.scan_finished(ScanOutcome::Failed("disk gone".to_string()));
    assert_eq!(toast_text(&s), ("disk gone".to_string(), true));
    assert!(s.start_error.is_none());
}

#[test]
fn cancelled_scan_changes_nothing_else() {
    let mut s = AppState::new();
    s.scanning = true;
    s.scan_finished(ScanOutcome::Cancelled);
    assert!(!s.scanning && !s.has_tree);
    assert_eq!(s.generation, 0);
}

#[test]
fn scan_result_without_a_scan_is_ignored() {
    let mut s = AppState::new();
    s.scan_finished(ScanOutcome::Done(Some(3)));
    assert!(!s.has_tree);
    assert_eq!(s.generation, 0);
}

#[test]
fn scan_waits_for_a_running_job() {
    let mut s = loaded();
    assert!(s.request_scan());
    s.task = Some(delete_task(5, DeleteMode::RecycleBin));
    assert!(!s.request_scan());
    assert_eq!(toast_text(&s), ("Wait for the current delete to finish first.".to_string(), true));
}

#[test]
fn scan_thread_start_and_failure() {
    let mut s = AppState::new();
    s.start_error = Some("old".to_string());
    s.dialog = Some(Dialog::Shortcuts);
    s.scan_spawned();
    assert!(s.scanning && s.start_error.is_none() && s.dialog.is_none());
    let mut t = AppState::new();
    t.scan_spawn_failed("no threads");
    assert_eq!(t.start_error.as_deref(), Some("Could not start the scan: no threads"));
}

#[test]
fn select_and_go_to() {
    let mut s = loaded();
    assert_eq!(s.apply(Action::Select(4), &none()), Effect::Nothing);
    assert_eq!(s.selected, Some(4));
    s.apply(Action::GoTo(ROOT), &none());
    assert_eq!(s.selected, Some(4));
    s.apply(Action::GoTo(9), &none());
    assert_eq!((s.current, s.selected, s.list_scroll_to), (9, None, Some(0)));
}

#[test]
fn open_a_folder_enters_it() {
    let mut s = loaded();
    s.selected = Some(3);
    s.apply(Action::Open(3), &facts(true, ROOT));
    assert_eq!((s.current, s.selected, s.list_scroll_to), (3, None, Some(0)));
}

#[test]
fn open_a_file_elsewhere_shows_it_in_its_folder() {
    let mut s = loaded();
    s.apply(Action::Open(11), &facts(false, 6));
    assert_eq!((s.current, s.selected), (6, Some(11)));
}

#[test]
fn open_a_file_in_the_current_folder_does_nothing() {
    let mut s = loaded();
    s.selected = Some(2);
    s.apply(Action::Open(11), &facts(false, ROOT));
    assert_eq!((s.current, s.selected), (ROOT, Some(2)));
}

#[test]
fn up_selects_the_folder_left() {
    let mut s = loaded();
    s.current = 6;
    s.list = vec![1, 6, 2];
    s.apply(Action::Up, &facts(true, 4));
    assert_eq!((s.current, s.selected, s.list_scroll_to), (4, Some(6), Some(1)));
    let mut r = loaded();
    r.current = 6;
    r.list = vec![1, 2];
    r.apply(Action::Up, &facts(true, 4));
    assert_eq!(r.list_scroll_to, None);
}

#[test]
fn up_at_the_root_does_nothing() {
    let mut s = loaded();
    s.apply(Action::Up, &facts(true, NO_NODE));
    assert_eq!((s.current, s.selected), (ROOT, None));
}

#[test]
fn reveal_and_copy_are_effects() {
    let mut s = loaded();
    assert_eq!(s.apply(Action::Reveal(5), &none()), Effect::Reveal(5));
    assert_eq!(s.apply(Action::CopyPath(5), &none()), Effect::CopyPath(5));
    s.path_copied("C:\\data");
    assert_eq!(toast_text(&s), ("Copied C:\\data".to_string(), false));
}

#[test]
fn sort_toggles_and_switches() {
    let mut s = loaded();
    s.apply(Action::Sort(SortKey::Size), &none());
    assert_eq!((s.sort, s.sort_desc), (SortKey::Size, false));
    s.apply(Action::Sort(SortKey::Size), &none());
    assert_eq!((s.sort, s.sort_desc), (SortKey::Size, true));
    s.apply(Action::Sort(SortKey::Name), &none());
    assert_eq!((s.sort, s.sort_desc), (SortKey::Name, false));
    s.apply(Action::Sort(SortKey::Files), &none());
    assert_eq!((s.sort, s.sort_desc), (SortKey::Files, true));
}

#[test]
fn dialogs_for_unreadable_and_shortcuts() {
    let mut s = loaded();
    s.apply(Action::ShowUnreadable, &none());
    assert!(matches!(s.dialog, Some(Dialog::Unreadable)));
    assert!(!s.keys_enabled(false));
    s.apply(Action::ShowShortcuts, &none());
    assert!(matches!(s.dialog, Some(Dialog::Shortcuts)));
    s.close_dialog();
    assert!(s.dialog.is_none());
    assert!(s.keys_enabled(false));
    assert!(!s.keys_enabled(true));
}

#[test]
fn actions_without_a_tree_do_nothing() {
    let mut s = AppState::new();
    assert_eq!(s.apply(Action::Select(3), &none()), Effect::Nothing);
    assert_eq!(s.selected, None);
    s.scanning = true;
    assert_eq!(s.apply(Action::NewScan, &none()), Effect::DropScan);
    assert!(!s.scanning);
}

#[test]
fn new_scan_lets_go_of_the_tree() {
    let mut s = loaded();
    s.current = 5;
    s.selected = Some(6);
    assert_eq!(s.apply(Action::NewScan, &none()), Effect::DropTree);
    assert!(!s.has_tree);
    assert_eq!((s.current, s.selected, s.generation), (ROOT, None, 2));
}

#[test]
fn busy_window_refuses_new_work() {
    let mut s = loaded();
    s.task = Some(delete_task(5, DeleteMode::RecycleBin));
    let busy = ("Wait for the current operation to finish first.".to_string(), true);
    assert_eq!(s.apply(Action::Delete(4, DeleteMode::Permanent), &none()), Effect::Nothing);
    assert_eq!(toast_text(&s), busy);
    s.toast = None;
    assert_eq!(s.apply(Action::RefreshFolder(4), &none()), Effect::Nothing);
    assert_eq!(toast_text(&s), busy);
    s.toast = None;
    assert_eq!(s.apply(Action::NewScan, &none()), Effect::Nothing);
    assert_eq!(toast_text(&s), busy);
    assert!(s.has_tree);
    assert_eq!(s.apply(Action::Rescan, &none()), Effect::Nothing);
    assert_eq!(toast_text(&s).0, "Wait for the current delete to finish first.");
}

#[test]
fn idle_window_starts_work() {
    let mut s = loaded();
    s.current = 7;
    assert_eq!(s.apply(Action::RefreshFolder(4), &none()), Effect::StartRefresh(4));
    assert_eq!(s.apply(Action::Rescan, &none()), Effect::Rescan(7));
    assert_eq!(
        s.apply(Action::Delete(4, DeleteMode::Permanent), &none()),
        Effect::CheckDelete(4, DeleteMode::Permanent)
    );
    assert!(s.toast.is_none() && s.dialog.is_none());
}

#[test]
fn the_scanned_folder_is_never_deleted() {
    let mut s = loaded();
    assert_eq!(s.apply(Action::Delete(ROOT, DeleteMode::RecycleBin), &none()), Effect::Nothing);
    assert_eq!(
        message(&s),
        (
            "disktree won't delete this".to_string(),
            "This is the folder you scanned. Go up a level (or scan its parent) to delete it."
                .to_string()
        )
    );
}

fn request(mode: DeleteMode) -> DeleteRequest {
    DeleteRequest {
        node: 4,
        mode,
        path: "D:\\games".to_string(),
        name: "games".to_string(),
        allocated: 900,
        logical: 800,
        files: 12,
        is_dir: true,
    }
}

#[test]
fn blocked_paths_are_refused() {
    let mut s = loaded();
    s.delete_checked(request(DeleteMode::RecycleBin), Protection::Blocked("system folder".to_string()));
    assert_eq!(
        message(&s),
        ("disktree won't delete this".to_string(), "D:\\games\n\nsystem folder".to_string())
    );
}

#[test]
fn confirmation_carries_the_warning() {
    let mut s = loaded();
    s.delete_checked(request(DeleteMode::RecycleBin), Protection::Caution("in use".to_string()));
    match &s.dialog {
        Some(Dialog::Confirm(c)) => {
            assert_eq!((c.node, c.allocated, c.logical, c.files, c.is_dir, c.step), (4, 900, 800, 12, true, 0));
            assert_eq!(c.caution.as_deref(), Some("in use"));
            assert_eq!(c.path, "D:\\games");
            assert!(c.typed.is_empty());
        }
        _ => panic!("no confirmation"),
    }
    s.delete_checked(request(DeleteMode::RecycleBin), Protection::Normal);
    match &s.dialog {
        Some(Dialog::Confirm(c)) => assert!(c.caution.is_none()),
        _ => panic!("no confirmation"),
    }
}

#[test]
fn recycle_needs_one_confirmation() {
    let mut s = loaded();
    s.metric = Metric::Logical;
    s.delete_checked(request(DeleteMode::RecycleBin), Protection::Normal);
    let t = s.confirm_pressed().expect("a delete job");
    assert!(s.dialog.is_none());
    assert_eq!(t.label, "Moving to Recycle Bin: games");
    match t.kind {
        TaskKind::Delete { node, name, size, mode } => {
            assert_eq!((node, name.as_str(), size, mode), (4, "games", 800, DeleteMode::RecycleBin))
        }
        _ => panic!("not a delete"),
    }
}

#[test]
fn permanent_delete_needs_two_confirmations() {
    let mut s = loaded();
    s.delete_checked(request(DeleteMode::Permanent), Protection::Normal);
    assert!(s.confirm_pressed().is_none());
    match &s.dialog {
        Some(Dialog::Confirm(c)) => assert_eq!(c.step, 1),
        _ => panic!("confirmation closed too early"),
    }
    let t = s.confirm_pressed().expect("a delete job");
    assert_eq!(t.label, "Deleting: games");
    match t.kind {
        TaskKind::Delete { size, .. } => assert_eq!(size, 900),
        _ => panic!("not a delete"),
    }
    assert!(s.confirm_pressed().is_none());
}

#[test]
fn refresh_plan_only_for_folders() {
    let t = AppState::refresh_plan(4, NodeKind::Dir, "D:\\games").expect("a job");
    assert_eq!(t.label, "Refreshing D:\\games");
    assert!(matches!(t.kind, TaskKind::Refresh { node: 4 }));
    assert!(AppState::refresh_plan(4, NodeKind::File, "D:\\a.txt").is_none());
    assert!(AppState::refresh_plan(4, NodeKind::Link, "D:\\l").is_none());
}

#[test]
fn job_start_and_failure() {
    let mut s = loaded();
    s.task_spawned(delete_task(5, DeleteMode::RecycleBin));
    assert!(s.task.is_some());
    let mut t = loaded();
    t.task_spawn_failed("out of threads");
    assert_eq!(toast_text(&t), ("Could not start: out of threads".to_string(), true));
}

#[test]
fn delete_to_recycle_bin_removes_the_node() {
    let mut s = loaded();
    s.current = 5;
    s.selected = Some(8);
    s.task = Some(delete_task(5, DeleteMode::RecycleBin));
    let result = TaskResult::Delete(DeleteOutcome::Deleted);
    assert_eq!(s.follow_up(&result, false), FollowUp::Remove(5));
    let f = s.task_finished(result, &subtree(true, true, 2, false));
    assert_eq!(f, FollowUp::Remove(5));
    assert!(s.task.is_none());
    assert_eq!((s.current, s.selected, s.generation), (2, None, 2));
    assert_eq!(toast_text(&s), ("Moved video.mkv to the Recycle Bin (1.5 GB).".to_string(), false));
}

#[test]
fn permanent_delete_reports_space_freed() {
    let mut s = loaded();
    s.selected = Some(9);
    s.task = Some(delete_task(5, DeleteMode::Permanent));
    let f = s.task_finished(TaskResult::Delete(DeleteOutcome::Deleted), &subtree(false, false, 2, false));
    assert_eq!(f, FollowUp::Remove(5));
    assert_eq!((s.current, s.selected), (ROOT, Some(9)));
    assert_eq!(toast_text(&s).0, "Permanently deleted video.mkv (1.5 GB freed).");
}

#[test]
fn already_gone_is_removed_from_the_map() {
    let mut s = loaded();
    s.task = Some(delete_task(5, DeleteMode::Permanent));
    s.task_finished(TaskResult::Delete(DeleteOutcome::AlreadyGone), &subtree(false, false, 2, false));
    assert_eq!(toast_text(&s).0, "video.mkv was already gone; removed it from the map.");
}

#[test]
fn cancelled_delete_reads_the_folder_again() {
    let mut s = loaded();
    s.task = Some(delete_task(5, DeleteMode::Permanent));
    let f = s.task_finished(TaskResult::Delete(DeleteOutcome::Cancelled), &subtree(false, false, 2, false));
    assert_eq!(f, FollowUp::StartRefresh(5));
    assert_eq!(s.generation, 1);
    assert_eq!(
        toast_text(&s),
        ("Cancelled. Anything already removed is reflected after a refresh.".to_string(), false)
    );
}

#[test]
fn partial_delete_explains_and_reads_again() {
    let mut s = loaded();
    s.task = Some(delete_task(5, DeleteMode::Permanent));
    let f = s.task_finished(
        TaskResult::Delete(DeleteOutcome::Partial("2 files in use".to_string())),
        &subtree(false, false, 2, false),
    );
    assert_eq!(f, FollowUp::StartRefresh(5));
    assert_eq!(
        message(&s),
        (
            "Partly deleted".to_string(),
            "video.mkv: 2 files in use\n\nThe folder is being re-read so the sizes are accurate."
                .to_string()
        )
    );
}

#[test]
fn failed_delete_explains() {
    let mut s = loaded();
    s.task = Some(delete_task(5, DeleteMode::RecycleBin));
    let f = s.task_finished(
        TaskResult::Delete(DeleteOutcome::Failed("access denied".to_string())),
        &subtree(true, true, 2, false),
    );
    assert_eq!(f, FollowUp::Nothing);
    assert_eq!(message(&s), ("Could not delete".to_string(), "video.mkv\n\naccess denied".to_string()));
    assert_eq!(s.generation, 1);
}

#[test]
fn refresh_grafts_and_keeps_the_folder() {
    let mut s = loaded();
    s.current = 12;
    s.selected = Some(13);
    s.task = Some(Task { kind: TaskKind::Refresh { node: 10 }, label: "Refreshing x".to_string() });
    let f = s.task_finished(TaskResult::Refresh(Ok(())), &subtree(true, true, 2, false));
    assert_eq!(f, FollowUp::Graft(10));
    assert_eq!((s.current, s.selected, s.generation), (10, None, 2));
}

#[test]
fn refresh_of_the_selected_folder_keeps_it_selected() {
    let mut s = loaded();
    s.current = 10;
    s.selected = Some(10);
    s.task = Some(Task { kind: TaskKind::Refresh { node: 10 }, label: "Refreshing x".to_string() });
    s.task_finished(TaskResult::Refresh(Ok(())), &subtree(true, true, 2, false));
    assert_eq!((s.current, s.selected), (10, Some(10)));
}

#[test]
fn refresh_of_a_vanished_folder_removes_it() {
    let mut s = loaded();
    s.current = 12;
    s.selected = Some(1);
    s.task = Some(Task { kind: TaskKind::Refresh { node: 10 }, label: "Refreshing x".to_string() });
    let result = TaskResult::Refresh(Err("not found".to_string()));
    assert_eq!(s.follow_up(&result, true), FollowUp::Remove(10));
    let f = s.task_finished(result, &subtree(false, true, 2, true));
    assert_eq!(f, FollowUp::Remove(10));
    assert_eq!((s.current, s.selected, s.generation), (2, None, 2));
}

#[test]
fn failed_refresh_is_a_notice() {
    let mut s = loaded();
    s.task = Some(Task { kind: TaskKind::Refresh { node: 10 }, label: "Refreshing x".to_string() });
    let f = s.task_finished(TaskResult::Refresh(Err("busy".to_string())), &subtree(false, false, 2, false));
    assert_eq!(f, FollowUp::Nothing);
    assert_eq!(toast_text(&s), ("Refresh failed: busy".to_string(), true));
    assert_eq!(s.generation, 1);
}

#[test]
fn mismatched_result_only_ends_the_job() {
    let mut s = loaded();
    s.task = Some(delete_task(5, DeleteMode::RecycleBin));
    let f = s.task_finished(TaskResult::Refresh(Ok(())), &subtree(true, true, 2, false));
    assert_eq!(f, FollowUp::Nothing);
    assert!(s.task.is_none());
    assert_eq!(s.generation, 1);
}

#[test]
fn result_without_a_job_is_ignored() {
    let mut s = loaded();
    let f = s.task_finished(TaskResult::Delete(DeleteOutcome::Deleted), &subtree(true, true, 2, false));
    assert_eq!(f, FollowUp::Nothing);
    assert_eq!(s.generation, 1);
}

#[test]
fn toast_is_fresh_once() {
    let mut s = loaded();
    assert!(!s.take_fresh_toast());
    s.toast("hello".to_string(), false);
    assert!(s.take_fresh_toast());
    assert!(!s.take_fresh_toast());
    assert_eq!(toast_text(&s), ("hello".to_string(), false));
    s.clear_toast();
    assert!(s.toast.is_none());
}

fn children() -> Vec<ListEntry> {
    vec![
        ListEntry::new(21, 10, 10, 1, "b"),
        ListEntry::new(22, 30, 30, 1, "a"),
        ListEntry::new(23, 20, 20, 1, "c"),
    ]
}

#[test]
fn listing_is_cached_until_something_changes() {
    let mut s = loaded();
    assert!(s.list_stale());
    s.refresh_list(&children());
    assert_eq!(s.list, vec![22, 23, 21]);
    assert!(!s.list_stale());
    s.refresh_list(&Vec::new());
    assert_eq!(s.list, vec![22, 23, 21]);
    s.apply(Action::Sort(SortKey::Name), &none());
    assert!(s.list_stale());
    s.refresh_list(&children());
    assert_eq!(s.list, vec![22, 21, 23]);
    assert_eq!(s.list_position(21), Some(1));
    assert_eq!(s.list_position(99), None);
}

#[test]
fn no_listing_without_a_tree() {
    let mut s = AppState::new();
    assert!(!s.list_stale());
    s.refresh_list(&children());
    assert!(s.list.is_empty());
}

#[test]
fn every_header_click_makes_the_listing_stale() {
    let mut s = loaded();
    for key in [SortKey::Size, SortKey::Size, SortKey::Name, SortKey::Name, SortKey::Files, SortKey::Size] {
        s.refresh_list(&children());
        assert!(!s.list_stale());
        s.apply(Action::Sort(key), &none());
        assert!(s.list_stale());
    }
}

#[test]
fn listing_goes_stale_on_metric_folder_or_tree_change_only() {
    let mut s = loaded();
    s.refresh_list(&children());
    s.apply(Action::Select(22), &none());
    assert!(!s.list_stale());
    s.metric = Metric::Logical;
    assert!(s.list_stale());
    s.refresh_list(&children());
    s.apply(Action::GoTo(22), &none());
    assert!(s.list_stale());
    s.refresh_list(&Vec::new());
    s.task = Some(Task { kind: TaskKind::Refresh { node: 22 }, label: "Refreshing".to_string() });
    s.task_finished(TaskResult::Refresh(Ok(())), &subtree(false, true, ROOT, false));
    assert!(s.list_stale());
}
