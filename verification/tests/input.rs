use disktree_ui::actions::Action;
use disktree_ui::input::{
    breadcrumb_trail, context_menu_entries, crumb_action, menu_action, row_actions, Crumb,
    KeyPresses, MapClicks, MenuEntry, MenuItem, RowClicks, TileTarget,
};
use disktree_ui::listing::ListEntry;
use disktree_ui::model::{DeleteMode, NodeKind, ROOT};
use disktree_ui::state::{AppState, Dialog};
use disktree_ui::tasks::ScanOutcome;

fn loaded() -> AppState {
    let mut s = AppState::new();
    s.scanning = true;
    s.scan_finished(ScanOutcome::Done(None));
    s
}

fn no_keys() -> KeyPresses {
    KeyPresses {
        delete: None,
        copy: false,
        reveal: false,
        up: false,
        enter: false,
        home: false,
        f5: false,
        prev: false,
        next: false,
        esc: false,
        help: false,
    }
}

fn children() -> Vec<ListEntry> {
    vec![
        ListEntry::new(21, 10, 10, 1, "b"),
        ListEntry::new(22, 30, 30, 1, "a"),
        ListEntry::new(23, 20, 20, 1, "c"),
    ]
}

#[test]
fn shortcuts_in_order() {
    let mut s = loaded();
    s.selected = Some(7);
    let keys = KeyPresses {
        delete: Some(true),
        copy: true,
        reveal: true,
        up: true,
        enter: true,
        home: true,
        f5: true,
        help: true,
        ..no_keys()
    };
    let actions = s.handle_keys(keys, &Vec::new());
    assert_eq!(
        actions,
        vec![
            Action::Delete(7, DeleteMode::Permanent),
            Action::CopyPath(7),
            Action::Reveal(7),
            Action::Up,
            Action::Open(7),
            Action::GoTo(ROOT),
            Action::Rescan,
            Action::ShowShortcuts,
        ]
    );
}

#[test]
fn shortcuts_without_a_selection_act_on_the_folder() {
    let mut s = loaded();
    s.current = 4;
    let keys = KeyPresses { delete: Some(false), copy: true, enter: true, ..no_keys() };
    assert_eq!(s.handle_keys(keys, &Vec::new()), vec![Action::CopyPath(4)]);
    s.selected = Some(9);
    let keys = KeyPresses { delete: Some(false), ..no_keys() };
    assert_eq!(s.handle_keys(keys, &Vec::new()), vec![Action::Delete(9, DeleteMode::RecycleBin)]);
}

#[test]
fn escape_clears_the_selection() {
    let mut s = loaded();
    s.selected = Some(9);
    let keys = KeyPresses { esc: true, copy: true, ..no_keys() };
    assert_eq!(s.handle_keys(keys, &Vec::new()), vec![Action::CopyPath(9)]);
    assert_eq!(s.selected, None);
}

#[test]
fn keys_are_ignored_under_a_dialog() {
    let mut s = loaded();
    s.dialog = Some(Dialog::Shortcuts);
    let keys = KeyPresses { f5: true, next: true, ..no_keys() };
    assert!(s.handle_keys(keys, &children()).is_empty());
    assert_eq!(s.selected, None);
}

#[test]
fn arrows_walk_the_listing_and_stop_at_the_ends() {
    let mut s = loaded();
    let down = KeyPresses { next: true, ..no_keys() };
    let up = KeyPresses { prev: true, ..no_keys() };
    s.handle_keys(down, &children());
    assert_eq!(s.list, vec![22, 23, 21]);
    assert_eq!((s.selected, s.list_scroll_to), (Some(22), Some(0)));
    s.handle_keys(down, &children());
    assert_eq!((s.selected, s.list_scroll_to), (Some(23), Some(1)));
    s.handle_keys(down, &children());
    s.handle_keys(down, &children());
    assert_eq!((s.selected, s.list_scroll_to), (Some(21), Some(2)));
    s.handle_keys(up, &children());
    s.handle_keys(up, &children());
    s.handle_keys(up, &children());
    assert_eq!((s.selected, s.list_scroll_to), (Some(22), Some(0)));
}

#[test]
fn arrow_from_outside_the_listing_starts_at_the_top() {
    let mut s = loaded();
    s.selected = Some(99);
    s.handle_keys(KeyPresses { prev: true, ..no_keys() }, &children());
    assert_eq!(s.selected, Some(22));
}

#[test]
fn arrows_in_an_empty_folder_change_nothing() {
    let mut s = loaded();
    s.selected = Some(3);
    s.handle_keys(KeyPresses { next: true, ..no_keys() }, &Vec::new());
    assert!(s.list.is_empty());
    assert_eq!(s.selected, Some(3));
}

#[test]
fn map_clicks() {
    let mut s = loaded();
    let none = MapClicks { secondary: false, double: false, clicked: false, middle: false };
    let r = s.map_input(Some(TileTarget::Node(5)), MapClicks { secondary: true, ..none });
    assert_eq!(r, vec![Action::Select(5)]);
    assert_eq!(s.context_node, Some(5));
    let r = s.map_input(Some(TileTarget::Rest(6)), MapClicks { secondary: true, double: true, ..none });
    assert_eq!(r, vec![Action::Open(6)]);
    assert_eq!(s.context_node, None);
    let r = s.map_input(Some(TileTarget::Node(5)), MapClicks { clicked: true, middle: true, ..none });
    assert_eq!(r, vec![Action::Select(5), Action::Up]);
    s.selected = Some(5);
    let r = s.map_input(None, MapClicks { clicked: true, ..none });
    assert!(r.is_empty());
    assert_eq!(s.selected, None);
    s.selected = Some(5);
    let r = s.map_input(Some(TileTarget::Rest(6)), MapClicks { clicked: true, ..none });
    assert!(r.is_empty());
    assert_eq!(s.selected, None);
}

#[test]
fn row_clicks() {
    let c = RowClicks { clicked: false, double: false, secondary: false };
    assert_eq!(row_actions(4, true, None, RowClicks { clicked: true, ..c }), vec![Action::Select(4)]);
    assert_eq!(
        row_actions(4, true, Some(4), RowClicks { clicked: true, double: true, ..c }),
        vec![Action::Select(4), Action::Open(4)]
    );
    assert_eq!(row_actions(4, false, Some(4), RowClicks { double: true, ..c }), vec![]);
    assert_eq!(row_actions(4, true, Some(3), RowClicks { double: true, ..c }), vec![]);
    assert_eq!(row_actions(4, false, None, RowClicks { secondary: true, ..c }), vec![Action::Select(4)]);
}

#[test]
fn menu_of_a_folder() {
    let e = context_menu_entries(NodeKind::Dir, false);
    let items: Vec<MenuItem> = e.iter().map(|m| m.item).collect();
    assert_eq!(
        items,
        vec![
            MenuItem::Open,
            MenuItem::ShowInExplorer,
            MenuItem::CopyPath,
            MenuItem::RefreshFolder,
            MenuItem::Separator,
            MenuItem::MoveToRecycleBin,
            MenuItem::DeletePermanently,
        ]
    );
    assert!(e.iter().all(|m| m.enabled));
}

#[test]
fn menu_while_busy_and_of_a_link() {
    let busy = context_menu_entries(NodeKind::Dir, true);
    assert_eq!(busy[3], MenuEntry { item: MenuItem::RefreshFolder, enabled: false });
    assert!(!busy[5].enabled && !busy[6].enabled && busy[0].enabled);
    let link = context_menu_entries(NodeKind::Link, false);
    assert_eq!(link.len(), 5);
    assert_eq!(link[0].item, MenuItem::ShowInExplorer);
    assert!(!link[3].enabled && !link[4].enabled);
    let file = context_menu_entries(NodeKind::File, false);
    assert!(file[3].enabled && file[4].enabled);
}

#[test]
fn menu_actions() {
    assert_eq!(menu_action(MenuItem::Open, 3), Some(Action::Open(3)));
    assert_eq!(menu_action(MenuItem::Separator, 3), None);
    assert_eq!(menu_action(MenuItem::RefreshFolder, 3), Some(Action::RefreshFolder(3)));
    assert_eq!(menu_action(MenuItem::DeletePermanently, 3), Some(Action::Delete(3, DeleteMode::Permanent)));
    assert_eq!(menu_action(MenuItem::MoveToRecycleBin, 3), Some(Action::Delete(3, DeleteMode::RecycleBin)));
    assert_eq!(menu_action(MenuItem::ShowInExplorer, 3), Some(Action::Reveal(3)));
    assert_eq!(menu_action(MenuItem::CopyPath, 3), Some(Action::CopyPath(3)));
}

#[test]
fn short_trail_shows_the_whole_path() {
    let t = breadcrumb_trail(&vec![9, 4, 0], 9);
    assert!(!t.ellipsis);
    assert_eq!(
        t.crumbs,
        vec![
            Crumb { node: 0, separator: false, is_current: false },
            Crumb { node: 4, separator: true, is_current: false },
            Crumb { node: 9, separator: true, is_current: true },
        ]
    );
    assert_eq!(crumb_action(t.crumbs[0]), Some(Action::GoTo(0)));
    assert_eq!(crumb_action(t.crumbs[2]), None);
}

#[test]
fn long_trail_keeps_the_last_six_steps() {
    let t = breadcrumb_trail(&vec![8, 7, 6, 5, 4, 3, 2, 1, 0], 8);
    assert!(t.ellipsis);
    let nodes: Vec<u32> = t.crumbs.iter().map(|c| c.node).collect();
    assert_eq!(nodes, vec![3, 4, 5, 6, 7, 8]);
    assert!(t.crumbs.iter().all(|c| c.separator));
}

#[test]
fn down_then_up_comes_back() {
    let mut s = loaded();
    let down = KeyPresses { next: true, ..no_keys() };
    let up = KeyPresses { prev: true, ..no_keys() };
    s.handle_keys(down, &children());
    s.handle_keys(down, &children());
    assert_eq!(s.selected, Some(23));
    s.handle_keys(down, &children());
    s.handle_keys(up, &children());
    assert_eq!(s.selected, Some(23));
}
