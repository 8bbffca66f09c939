//! What the user's actions do: navigation, sorting, and the requests that
//! start deletes, refreshes and scans.

use vstd::prelude::*;
use crate::model::{DeleteMode, NodeId, Protection, SortKey, NO_NODE, ROOT};
use crate::state::{index_usize, toast_is, AppState, ConfirmDelete, Dialog, Task};
use crate::tasks::{delete_task_ok, message_is};
use crate::text::{join2, join3, owned};

verus! {

/// Something the user asked for.
#[derive(Clone, Copy, Debug, PartialEq, Eq, Structural)]
pub enum Action {
    Select(NodeId),
    Open(NodeId),
    Up,
    GoTo(NodeId),
    Reveal(NodeId),
    CopyPath(NodeId),
    Delete(NodeId, DeleteMode),
    RefreshFolder(NodeId),
    Rescan,
    NewScan,
    Sort(SortKey),
    ShowUnreadable,
    ShowShortcuts,
}

/// What the window must do outside the state after an action.
#[derive(Clone, Copy, Debug, PartialEq, Eq, Structural)]
pub enum Effect {
    Nothing,
    /// Show the node in the file manager.
    Reveal(NodeId),
    /// Put the node's path on the clipboard, then call `path_copied`.
    CopyPath(NodeId),
    /// Classify the node's path, then call `delete_checked`.
    CheckDelete(NodeId, DeleteMode),
    /// Start reading the node's folder again.
    StartRefresh(NodeId),
    /// Scan the tree's root again, coming back to this folder.
    Rescan(NodeId),
    /// Let go of the tree.
    DropTree,
    /// Let go of the running scan.
    DropScan,
}

/// What an action needs to know of the tree: for `Open`, the node opened;
/// for `Up`, the current folder.
pub struct NodeFacts {
    pub is_dir: bool,
    pub parent: NodeId,
}

/// What the window knows of a node the user asked to delete.
pub struct DeleteRequest {
    pub node: NodeId,
    pub mode: DeleteMode,
    pub path: String,
    pub name: String,
    pub allocated: u64,
    pub logical: u64,
    pub files: u64,
    pub is_dir: bool,
}

/// The column and direction after the user clicks the header of `k`: the
/// active column changes direction; another column becomes active,
/// descending except for names.
pub open spec fn sort_after(sort: SortKey, desc: bool, k: SortKey) -> (SortKey, bool) {
    if sort == k {
        (sort, !desc)
    } else {
        (k, k != SortKey::Name)
    }
}

/// The notice given when the user asks for work while a job runs.
pub open spec fn busy_text() -> Seq<char> {
    "Wait for the current operation to finish first."@
}

/// `c` asks to confirm the delete described by `req`.
pub open spec fn confirm_matches(c: ConfirmDelete, req: DeleteRequest, p: Protection) -> bool {
    &&& c.node == req.node
    &&& c.mode == req.mode
    &&& c.path@ == req.path@
    &&& c.name@ == req.name@
    &&& c.allocated == req.allocated
    &&& c.logical == req.logical
    &&& c.files == req.files
    &&& c.is_dir == req.is_dir
    &&& match p {
        Protection::Caution(r) => c.caution is Some && c.caution->0@ == r@,
        _ => c.caution is None,
    }
    &&& c.typed@.len() == 0
    &&& c.step == 0
}

/// Clicking the header of the active column twice brings back its
/// direction.
pub proof fn lemma_sort_twice(sort: SortKey, desc: bool)
    ensures
        sort_after(sort_after(sort, desc, sort).0, sort_after(sort, desc, sort).1, sort) == (
            sort,
            desc,
        ),
{
}

/// Every click on a column header changes the order, so the listing is
/// computed again.
pub proof fn lemma_sort_click_changes_order(sort: SortKey, desc: bool, k: SortKey)
    ensures
        sort_after(sort, desc, k) != (sort, desc),
{
}

/// Clicking the header of a column other than the active one makes it the
/// active column, largest first for size and file count and A to Z for the
/// name, whatever the direction of the column active before.
pub proof fn lemma_sort_new_column(sort: SortKey, desc: bool, k: SortKey)
    requires
        k != sort,
    ensures
        sort_after(sort, desc, k).0 == k,
        sort_after(sort, desc, k) == sort_after(sort, !desc, k),
        k == SortKey::Size ==> sort_after(sort, desc, k).1,
        k == SortKey::Files ==> sort_after(sort, desc, k).1,
        k == SortKey::Name ==> !sort_after(sort, desc, k).1,
{
}

impl AppState {
    /// Carries out `action`. `facts` describes the node `Open` opens, or the
    /// current folder for `Up`.
    pub fn apply(&mut self, action: Action, facts: &NodeFacts) -> (e: Effect)
        requires
            action == Action::NewScan ==> old(self).generation < u64::MAX,
        ensures
            !old(self).has_tree ==> if action == Action::NewScan {
                e == Effect::DropScan && *final(self) == (AppState { scanning: false, ..*old(self) })
            } else {
                e == Effect::Nothing && *final(self) == *old(self)
            },
            old(self).has_tree ==> match action {
                Action::Select(n) => e == Effect::Nothing && *final(self) == (AppState {
                    selected: Some(n),
                    ..*old(self)
                }),
                Action::Open(n) => e == Effect::Nothing && if facts.is_dir {
                    *final(self) == (AppState {
                        current: n,
                        selected: None,
                        list_scroll_to: Some(0),
                        ..*old(self)
                    })
                } else if facts.parent != NO_NODE && facts.parent != old(self).current {
                    *final(self) == (AppState {
                        current: facts.parent,
                        selected: Some(n),
                        ..*old(self)
                    })
                } else {
                    *final(self) == *old(self)
                },
                Action::Up => e == Effect::Nothing && if facts.parent != NO_NODE {
                    *final(self) == (AppState {
                        selected: Some(old(self).current),
                        current: facts.parent,
                        list_scroll_to: index_usize(old(self).list@, old(self).current),
                        ..*old(self)
                    })
                } else {
                    *final(self) == *old(self)
                },
                Action::GoTo(n) => e == Effect::Nothing && if n != old(self).current {
                    *final(self) == (AppState {
                        selected: None,
                        current: n,
                        list_scroll_to: Some(0),
                        ..*old(self)
                    })
                } else {
                    *final(self) == *old(self)
                },
                Action::Reveal(n) => e == Effect::Reveal(n) && *final(self) == *old(self),
                Action::CopyPath(n) => e == Effect::CopyPath(n) && *final(self) == *old(self),
                Action::Delete(n, mode) => if old(self).task is Some {
                    &&& e == Effect::Nothing
                    &&& toast_is(final(self).toast, busy_text(), true)
                    &&& *final(self) == (AppState { toast: final(self).toast, ..*old(self) })
                } else if n == ROOT {
                    &&& e == Effect::Nothing
                    &&& message_is(
                        final(self).dialog,
                        "disktree won't delete this"@,
                        "This is the folder you scanned. Go up a level (or scan its parent) to delete it."@,
                    )
                    &&& *final(self) == (AppState { dialog: final(self).dialog, ..*old(self) })
                } else {
                    e == Effect::CheckDelete(n, mode) && *final(self) == *old(self)
                },
                Action::RefreshFolder(n) => if old(self).task is Some {
                    &&& e == Effect::Nothing
                    &&& toast_is(final(self).toast, busy_text(), true)
                    &&& *final(self) == (AppState { toast: final(self).toast, ..*old(self) })
                } else {
                    e == Effect::StartRefresh(n) && *final(self) == *old(self)
                },
                Action::Rescan => if old(self).task is Some {
                    &&& e == Effect::Nothing
                    &&& toast_is(
                        final(self).toast,
                        "Wait for the current delete to finish first."@,
                        true,
                    )
                    &&& *final(self) == (AppState { toast: final(self).toast, ..*old(self) })
                } else {
                    e == Effect::Rescan(old(self).current) && *final(self) == *old(self)
                },
                Action::NewScan => if old(self).task is Some {
                    &&& e == Effect::Nothing
                    &&& toast_is(final(self).toast, busy_text(), true)
                    &&& *final(self) == (AppState { toast: final(self).toast, ..*old(self) })
                } else {
                    &&& e == Effect::DropTree
                    &&& *final(self) == (AppState {
                        has_tree: false,
                        selected: None,
                        current: ROOT,
                        generation: (old(self).generation + 1) as u64,
                        ..*old(self)
                    })
                },
                Action::Sort(k) => e == Effect::Nothing && *final(self) == (AppState {
                    sort: sort_after(old(self).sort, old(self).sort_desc, k).0,
                    sort_desc: sort_after(old(self).sort, old(self).sort_desc, k).1,
                    ..*old(self)
                }),
                Action::ShowUnreadable => e == Effect::Nothing && *final(self) == (AppState {
                    dialog: Some(Dialog::Unreadable),
                    ..*old(self)
                }),
                Action::ShowShortcuts => e == Effect::Nothing && *final(self) == (AppState {
                    dialog: Some(Dialog::Shortcuts),
                    ..*old(self)
                }),
            },
    {
        if !self.has_tree {
            if let Action::NewScan = action {
                self.scanning = false;
                return Effect::DropScan;
            }
            return Effect::Nothing;
        }
        match action {
            Action::Select(n) => {
                self.selected = Some(n);
                Effect::Nothing
            },
            Action::Open(n) => {
                if facts.is_dir {
                    self.current = n;
                    self.selected = None;
                    self.list_scroll_to = Some(0);
                } else if facts.parent != NO_NODE && facts.parent != self.current {
                    self.current = facts.parent;
                    self.selected = Some(n);
                }
                Effect::Nothing
            },
            Action::Up => {
                if facts.parent != NO_NODE {
                    let old_current = self.current;
                    self.selected = Some(old_current);
                    self.current = facts.parent;
                    self.list_scroll_to = self.list_position(old_current);
                }
                Effect::Nothing
            },
            Action::GoTo(n) => {
                if n != self.current {
                    self.selected = None;
                    self.current = n;
                    self.list_scroll_to = Some(0);
                }
                Effect::Nothing
            },
            Action::Reveal(n) => Effect::Reveal(n),
            Action::CopyPath(n) => Effect::CopyPath(n),
            Action::Delete(n, mode) => self.request_delete(n, mode),
            Action::RefreshFolder(n) => {
                if self.task.is_some() {
                    self.toast(owned("Wait for the current operation to finish first."), true);
                    Effect::Nothing
                } else {
                    Effect::StartRefresh(n)
                }
            },
            Action::Rescan => {
                if self.request_scan() {
                    Effect::Rescan(self.current)
                } else {
                    Effect::Nothing
                }
            },
            Action::NewScan => {
                if self.task.is_some() {
                    self.toast(owned("Wait for the current operation to finish first."), true);
                    return Effect::Nothing;
                }
                self.has_tree = false;
                self.selected = None;
                self.current = ROOT;
                self.generation = self.generation + 1;
                Effect::DropTree
            },
            Action::Sort(k) => {
                if self.sort == k {
                    self.sort_desc = !self.sort_desc;
                } else {
                    self.sort = k;
                    self.sort_desc = match k {
                        SortKey::Name => false,
                        _ => true,
                    };
                }
                Effect::Nothing
            },
            Action::ShowUnreadable => {
                self.dialog = Some(Dialog::Unreadable);
                Effect::Nothing
            },
            Action::ShowShortcuts => {
                self.dialog = Some(Dialog::Shortcuts);
                Effect::Nothing
            },
        }
    }

    /// The first checks on a delete: a tree must be loaded, no job may be
    /// running, and the scanned folder itself is never deleted.
    pub fn request_delete(&mut self, node: NodeId, mode: DeleteMode) -> (e: Effect)
        ensures
            !old(self).has_tree ==> e == Effect::Nothing && *final(self) == *old(self),
            old(self).has_tree && old(self).task is Some ==> {
                &&& e == Effect::Nothing
                &&& toast_is(final(self).toast, busy_text(), true)
                &&& *final(self) == (AppState { toast: final(self).toast, ..*old(self) })
            },
            old(self).has_tree && old(self).task is None && node == ROOT ==> {
                &&& e == Effect::Nothing
                &&& message_is(
                    final(self).dialog,
                    "disktree won't delete this"@,
                    "This is the folder you scanned. Go up a level (or scan its parent) to delete it."@,
                )
                &&& *final(self) == (AppState { dialog: final(self).dialog, ..*old(self) })
            },
            old(self).has_tree && old(self).task is None && node != ROOT ==> e
                == Effect::CheckDelete(node, mode) && *final(self) == *old(self),
    {
        if !self.has_tree {
            return Effect::Nothing;
        }
        if self.task.is_some() {
            self.toast(owned("Wait for the current operation to finish first."), true);
            return Effect::Nothing;
        }
        if node == ROOT {
            self.dialog = Some(
                Dialog::Message {
                    title: owned("disktree won't delete this"),
                    body: owned(
                        "This is the folder you scanned. Go up a level (or scan its parent) to delete it.",
                    ),
                },
            );
            return Effect::Nothing;
        }
        Effect::CheckDelete(node, mode)
    }

    /// The node's path was classified: a blocked path is refused with its
    /// reason; any other opens the confirmation, with the warning if there
    /// is one.
    pub fn delete_checked(&mut self, req: DeleteRequest, protection: Protection)
        ensures
            protection is Blocked ==> message_is(
                final(self).dialog,
                "disktree won't delete this"@,
                req.path@ + "\n\n"@ + protection->Blocked_0@,
            ),
            !(protection is Blocked) ==> {
                &&& final(self).dialog is Some
                &&& final(self).dialog->0 is Confirm
                &&& confirm_matches(final(self).dialog->0->Confirm_0, req, protection)
            },
            *final(self) == (AppState { dialog: final(self).dialog, ..*old(self) }),
    {
        let caution = match protection {
            Protection::Blocked(reason) => {
                self.dialog = Some(
                    Dialog::Message {
                        title: owned("disktree won't delete this"),
                        body: join3(req.path.as_str(), "\n\n", reason.as_str()),
                    },
                );
                return;
            },
            Protection::Caution(reason) => Some(reason),
            Protection::Normal => None,
        };
        self.dialog = Some(
            Dialog::Confirm(
                ConfirmDelete {
                    node: req.node,
                    path: req.path,
                    name: req.name,
                    allocated: req.allocated,
                    logical: req.logical,
                    files: req.files,
                    is_dir: req.is_dir,
                    mode: req.mode,
                    caution,
                    typed: String::new(),
                    step: 0,
                },
            ),
        );
    }

    /// The user pressed the confirming button. A permanent delete asks a
    /// second time; otherwise the confirmation closes and its delete job is
    /// returned to be started.
    pub fn confirm_pressed(&mut self) -> (t: Option<Task>)
        ensures
            !(old(self).dialog matches Some(Dialog::Confirm(_))) ==> t is None && *final(self)
                == *old(self),
            old(self).dialog matches Some(Dialog::Confirm(c)) ==> if c.mode == DeleteMode::Permanent
                && c.step == 0 {
                &&& t is None
                &&& final(self).dialog matches Some(Dialog::Confirm(c2))
                &&& c2 == (ConfirmDelete { step: 1, ..c })
                &&& *final(self) == (AppState { dialog: final(self).dialog, ..*old(self) })
            } else {
                &&& t is Some
                &&& delete_task_ok(t->0, c, old(self).metric)
                &&& *final(self) == (AppState { dialog: None, ..*old(self) })
            },
    {
        let d = self.dialog.take();
        match d {
            Some(Dialog::Confirm(c)) => {
                let second = match c.mode {
                    DeleteMode::Permanent => c.step == 0,
                    DeleteMode::RecycleBin => false,
                };
                if second {
                    self.dialog = Some(Dialog::Confirm(ConfirmDelete { step: 1, ..c }));
                    None
                } else {
                    Some(self.delete_plan(&c))
                }
            },
            other => {
                self.dialog = other;
                None
            },
        }
    }

    /// The node's path was put on the clipboard.
    pub fn path_copied(&mut self, path: &str)
        ensures
            toast_is(final(self).toast, "Copied "@ + path@, false),
            *final(self) == (AppState { toast: final(self).toast, ..*old(self) }),
    {
        self.toast(join2("Copied ", path), false);
    }
}

} // verus!
