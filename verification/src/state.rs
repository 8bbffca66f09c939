//! The state of the browser window, and the listing it keeps of the current
//! folder.

use vstd::prelude::*;
use crate::listing::{ids_at, is_listing, listing, ListEntry};
use crate::model::{DeleteMode, Metric, NodeId, SortKey, ROOT};

verus! {

/// What the cached listing was computed for.
#[derive(Clone, Copy, Debug, PartialEq, Eq, Structural)]
pub struct ListKey {
    pub current: NodeId,
    pub metric: Metric,
    pub sort: SortKey,
    pub desc: bool,
    pub generation: u64,
}

/// The delete confirmation being shown.
pub struct ConfirmDelete {
    pub node: NodeId,
    pub path: String,
    pub name: String,
    pub allocated: u64,
    pub logical: u64,
    pub files: u64,
    pub is_dir: bool,
    pub mode: DeleteMode,
    pub caution: Option<String>,
    pub typed: String,
    /// Permanent deletes need two confirmations: step 0, then step 1.
    pub step: u8,
}

/// A modal window.
pub enum Dialog {
    Confirm(ConfirmDelete),
    Message { title: String, body: String },
    Unreadable,
    Shortcuts,
}

/// A short notice at the bottom of the window.
pub struct Toast {
    pub text: String,
    pub error: bool,
    /// Set when the notice is posted; the window clears it once it has
    /// started the notice's timer.
    pub fresh: bool,
}

/// A background job on the tree.
pub enum TaskKind {
    Delete { node: NodeId, name: String, size: u64, mode: DeleteMode },
    Refresh { node: NodeId },
}

/// A background job and the text shown while it runs.
pub struct Task {
    pub kind: TaskKind,
    pub label: String,
}

/// The state of the window, apart from the tree, the background threads and
/// the clocks, which the window keeps itself.
pub struct AppState {
    /// A scanned tree is loaded.
    pub has_tree: bool,
    /// A scan is running.
    pub scanning: bool,
    pub start_error: Option<String>,
    /// Bumped whenever the tree or the way it is shown changes.
    pub generation: u64,
    pub current: NodeId,
    pub selected: Option<NodeId>,
    pub context_node: Option<NodeId>,
    pub metric: Metric,
    pub sort: SortKey,
    pub sort_desc: bool,
    /// The children of the current folder, in listing order.
    pub list: Vec<NodeId>,
    pub list_key: Option<ListKey>,
    pub list_scroll_to: Option<usize>,
    pub dialog: Option<Dialog>,
    pub task: Option<Task>,
    pub toast: Option<Toast>,
}

/// Which screen the window shows.
#[derive(Clone, Copy, Debug, PartialEq, Eq, Structural)]
pub enum Screen {
    /// The progress of a running scan.
    Scanning,
    /// The drives and the folder picker.
    Start,
    /// The map and the listing of a scanned tree.
    Browser,
}

/// `t` is a fresh notice with the given text and kind.
pub open spec fn toast_is(t: Option<Toast>, text: Seq<char>, error: bool) -> bool {
    &&& t is Some
    &&& t->0.text@ == text
    &&& t->0.error == error
    &&& t->0.fresh
}

/// The index of the first occurrence of `n` in `list`.
pub open spec fn index_in(list: Seq<NodeId>, n: NodeId) -> Option<int> {
    if exists|i: int|
        0 <= i < list.len() && list[i] == n && (forall|j: int| 0 <= j < i ==> list[j] != n) {
        Some(
            choose|i: int|
                0 <= i < list.len() && list[i] == n && (forall|j: int| 0 <= j < i ==> list[j] != n),
        )
    } else {
        None
    }
}

/// `index_in` as a `usize`.
pub open spec fn index_usize(list: Seq<NodeId>, n: NodeId) -> Option<usize> {
    match index_in(list, n) {
        Some(i) => Some(i as usize),
        None => None,
    }
}

/// `list` holds the children described by `es` in listing order.
pub open spec fn lists(es: Seq<ListEntry>, sort: SortKey, m: Metric, desc: bool, list: Seq<NodeId>) -> bool {
    exists|p: Seq<usize>| is_listing(es, sort, m, desc, p) && list == ids_at(es, p)
}

/// A cached listing goes stale whenever the current folder, the metric, the
/// order or the generation changes: a listing is never shown for another
/// state than the one it was made for.
pub proof fn lemma_listing_goes_stale(s: AppState, t: AppState)
    requires
        s.list_key == Some(s.key_now()),
        t.list_key == s.list_key,
        t.current != s.current || t.metric != s.metric || t.sort != s.sort || t.sort_desc
            != s.sort_desc || t.generation != s.generation,
    ensures
        t.list_key != Some(t.key_now()),
{
}

impl AppState {
    /// The key the listing has for the state as it is.
    pub open spec fn key_now(self) -> ListKey {
        ListKey {
            current: self.current,
            metric: self.metric,
            sort: self.sort,
            desc: self.sort_desc,
            generation: self.generation,
        }
    }

    /// The state of a window that has just opened: no tree, sorted by size
    /// on disk, largest first.
    pub fn new() -> (s: Self)
        ensures
            !s.has_tree,
            !s.scanning,
            s.start_error is None,
            s.generation == 0,
            s.current == ROOT,
            s.selected is None,
            s.context_node is None,
            s.metric == Metric::Allocated,
            s.sort == SortKey::Size,
            s.sort_desc,
            s.list@.len() == 0,
            s.list_key is None,
            s.list_scroll_to is None,
            s.dialog is None,
            s.task is None,
            s.toast is None,
    {
        AppState {
            has_tree: false,
            scanning: false,
            start_error: None,
            generation: 0,
            current: ROOT,
            selected: None,
            context_node: None,
            metric: Metric::Allocated,
            sort: SortKey::Size,
            sort_desc: true,
            list: Vec::new(),
            list_key: None,
            list_scroll_to: None,
            dialog: None,
            task: None,
            toast: None,
        }
    }

    /// Posts a notice.
    pub fn toast(&mut self, text: String, error: bool)
        ensures
            *final(self) == (AppState {
                toast: Some(Toast { text: text, error: error, fresh: true }),
                ..*old(self)
            }),
    {
        self.toast = Some(Toast { text, error, fresh: true });
    }

    /// Whether a notice was posted since the window last looked; looking
    /// marks it as seen.
    pub fn take_fresh_toast(&mut self) -> (r: bool)
        ensures
            r == (old(self).toast is Some && old(self).toast->0.fresh),
            final(self).toast is Some <==> old(self).toast is Some,
            final(self).toast is Some ==> {
                &&& final(self).toast->0.text == old(self).toast->0.text
                &&& final(self).toast->0.error == old(self).toast->0.error
                &&& !final(self).toast->0.fresh
            },
            *final(self) == (AppState { toast: final(self).toast, ..*old(self) }),
    {
        let mut fresh = false;
        if let Some(t) = self.toast.take() {
            fresh = t.fresh;
            self.toast = Some(Toast { text: t.text, error: t.error, fresh: false });
        }
        fresh
    }

    /// Removes the notice once its time is up.
    pub fn clear_toast(&mut self)
        ensures
            *final(self) == (AppState { toast: None, ..*old(self) }),
    {
        self.toast = None;
    }

    /// Closes the modal window.
    pub fn close_dialog(&mut self)
        ensures
            *final(self) == (AppState { dialog: None, ..*old(self) }),
    {
        self.dialog = None;
    }

    /// Keyboard shortcuts apply only to a loaded tree with no modal window
    /// open and no text field taking the keys.
    pub fn keys_enabled(&self, text_focus: bool) -> (r: bool)
        ensures
            r == (self.dialog is None && !text_focus && self.has_tree),
    {
        self.dialog.is_none() && !text_focus && self.has_tree
    }

    /// The screen to show: a running scan first, then the start screen
    /// until a tree is loaded.
    pub fn screen(&self) -> (s: Screen)
        ensures
            s == (if self.scanning {
                Screen::Scanning
            } else if !self.has_tree {
                Screen::Start
            } else {
                Screen::Browser
            }),
    {
        if self.scanning {
            Screen::Scanning
        } else if !self.has_tree {
            Screen::Start
        } else {
            Screen::Browser
        }
    }

    /// A folder dropped on the window is scanned unless a scan is running.
    pub fn accepts_drop(&self) -> (r: bool)
        ensures
            r == !self.scanning,
    {
        !self.scanning
    }

    /// The key for the listing as the state is now.
    pub fn list_key_now(&self) -> (k: ListKey)
        ensures
            k == self.key_now(),
    {
        ListKey {
            current: self.current,
            metric: self.metric,
            sort: self.sort,
            desc: self.sort_desc,
            generation: self.generation,
        }
    }

    /// Whether the listing must be computed again: a tree is loaded and the
    /// listing was made for another folder, order or generation.
    pub fn list_stale(&self) -> (r: bool)
        ensures
            r == (self.has_tree && self.list_key != Some(self.key_now())),
    {
        if !self.has_tree {
            return false;
        }
        match self.list_key {
            Some(k) => k != self.list_key_now(),
            None => true,
        }
    }

    /// Brings the listing up to date. `children` describes the children of
    /// the current folder; it is used only when the listing is stale.
    pub fn refresh_list(&mut self, children: &Vec<ListEntry>)
        ensures
            !(old(self).has_tree && old(self).list_key != Some(old(self).key_now())) ==> *final(self)
                == *old(self),
            old(self).has_tree && old(self).list_key != Some(old(self).key_now()) ==> {
                &&& lists(
                    children@,
                    old(self).sort,
                    old(self).metric,
                    old(self).sort_desc,
                    final(self).list@,
                )
                &&& *final(self) == (AppState {
                    list: final(self).list,
                    list_key: Some(old(self).key_now()),
                    ..*old(self)
                })
            },
    {
        if !self.list_stale() {
            return;
        }
        let v = listing(children, self.sort, self.metric, self.sort_desc);
        self.list = v;
        self.list_key = Some(self.list_key_now());
    }

    /// Where `node` stands in the listing.
    pub fn list_position(&self, node: NodeId) -> (r: Option<usize>)
        ensures
            r == index_usize(self.list@, node),
    {
        let mut i: usize = 0;
        while i < self.list.len()
            invariant
                i <= self.list@.len(),
                forall|j: int| 0 <= j < i ==> self.list@[j] != node,
            decreases self.list.len() - i,
        {
            if self.list[i] == node {
                let ghost l = self.list@;
                assert(0 <= i < l.len() && l[i as int] == node && (forall|j: int|
                    0 <= j < i ==> l[j] != node));
                let ghost c = choose|c: int|
                    0 <= c < l.len() && l[c] == node && (forall|j: int| 0 <= j < c ==> l[j] != node);
                assert(c == i) by {
                    if c < i {
                        assert(l[c] != node);
                    }
                    if c > i {
                        assert(l[i as int] != node);
                    }
                }
                return Some(i);
            }
            i = i + 1;
        }
        None
    }
}

} // verus!
