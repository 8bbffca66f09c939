//! Keyboard and mouse input: which actions a key press or a click asks for,
//! and how the arrow keys move the selection through the listing.

use vstd::prelude::*;
use crate::actions::Action;
use crate::listing::ListEntry;
use crate::model::{DeleteMode, NodeId, NodeKind, ROOT};
use crate::state::{index_in, lists, AppState};

verus! {

/// The shortcuts pressed in one frame.
#[derive(Clone, Copy, Debug, PartialEq, Eq, Structural)]
pub struct KeyPresses {
    /// Delete was pressed; `true` when Shift was held (delete permanently).
    pub delete: Option<bool>,
    pub copy: bool,
    pub reveal: bool,
    pub up: bool,
    pub enter: bool,
    pub home: bool,
    pub f5: bool,
    pub prev: bool,
    pub next: bool,
    pub esc: bool,
    pub help: bool,
}

/// What the pointer is over in the map.
#[derive(Clone, Copy, Debug, PartialEq, Eq, Structural)]
pub enum TileTarget {
    Node(NodeId),
    /// The tile that stands for the small items of this folder.
    Rest(NodeId),
}

/// The clicks the map received in one frame.
#[derive(Clone, Copy, Debug, PartialEq, Eq, Structural)]
pub struct MapClicks {
    pub secondary: bool,
    pub double: bool,
    pub clicked: bool,
    pub middle: bool,
}

/// The clicks a row of the listing received in one frame.
#[derive(Clone, Copy, Debug, PartialEq, Eq, Structural)]
pub struct RowClicks {
    pub clicked: bool,
    pub double: bool,
    pub secondary: bool,
}

/// An entry of the right-click menu.
#[derive(Clone, Copy, Debug, PartialEq, Eq, Structural)]
pub enum MenuItem {
    Open,
    ShowInExplorer,
    CopyPath,
    RefreshFolder,
    Separator,
    MoveToRecycleBin,
    DeletePermanently,
}

/// A menu entry and whether it can be clicked.
#[derive(Clone, Copy, Debug, PartialEq, Eq, Structural)]
pub struct MenuEntry {
    pub item: MenuItem,
    pub enabled: bool,
}

/// One step of the path shown above the map.
#[derive(Clone, Copy, Debug, PartialEq, Eq, Structural)]
pub struct Crumb {
    pub node: NodeId,
    /// A separator stands before this step.
    pub separator: bool,
    pub is_current: bool,
}

/// The path shown above the map: at most six steps, with an ellipsis when
/// the top of the path is cut off.
pub struct Trail {
    pub ellipsis: bool,
    pub crumbs: Vec<Crumb>,
}

/// `a` when `b`, nothing otherwise.
pub open spec fn when(b: bool, a: Action) -> Seq<Action> {
    if b {
        seq![a]
    } else {
        Seq::empty()
    }
}

/// The actions the shortcuts of one frame ask for, in order. Copy and
/// reveal act on the selection, or on the current folder when nothing is
/// selected.
pub open spec fn key_actions(k: KeyPresses, selected: Option<NodeId>, current: NodeId) -> Seq<Action> {
    let target = match selected {
        Some(s) => s,
        None => current,
    };
    let del = match (k.delete, selected) {
        (Some(p), Some(s)) => seq![
            Action::Delete(
                s,
                if p {
                    DeleteMode::Permanent
                } else {
                    DeleteMode::RecycleBin
                },
            ),
        ],
        _ => Seq::empty(),
    };
    del + when(k.copy, Action::CopyPath(target)) + when(k.reveal, Action::Reveal(target)) + when(
        k.up,
        Action::Up,
    ) + when(k.enter && selected is Some, Action::Open(selected->0)) + when(
        k.home,
        Action::GoTo(ROOT),
    ) + when(k.f5, Action::Rescan) + when(k.help, Action::ShowShortcuts)
}

/// The row the arrow keys move to: the first row when nothing in the
/// listing is selected, else one row down or up, stopping at the ends.
pub open spec fn nav_index(idx: Option<int>, next: bool, len: int) -> int {
    match idx {
        None => 0,
        Some(i) => if next {
            if i + 1 < len - 1 {
                i + 1
            } else {
                len - 1
            }
        } else {
            if i > 0 {
                i - 1
            } else {
                0
            }
        },
    }
}

/// Down then up comes back to the same row, except from the last row.
pub proof fn lemma_nav_down_up(i: int, len: int)
    requires
        0 <= i,
        i + 1 < len,
    ensures
        nav_index(Some(nav_index(Some(i), true, len)), false, len) == i,
{
}

/// The arrow keys never leave the listing.
pub proof fn lemma_nav_in_bounds(idx: Option<int>, next: bool, len: int)
    requires
        len > 0,
        idx matches Some(i) ==> 0 <= i < len,
    ensures
        0 <= nav_index(idx, next, len) < len,
{
}

/// Each shortcut that applies asks for exactly one action, and nothing else
/// is asked for: no key pressed, no action.
pub proof fn lemma_shortcut_count(k: KeyPresses, selected: Option<NodeId>, current: NodeId)
    ensures
        ({
            let acts = key_actions(k, selected, current);
            &&& acts.len() == (if k.delete is Some && selected is Some {
                1int
            } else {
                0
            }) + (if k.copy {
                1int
            } else {
                0
            }) + (if k.reveal {
                1int
            } else {
                0
            }) + (if k.up {
                1int
            } else {
                0
            }) + (if k.enter && selected is Some {
                1int
            } else {
                0
            }) + (if k.home {
                1int
            } else {
                0
            }) + (if k.f5 {
                1int
            } else {
                0
            }) + (if k.help {
                1int
            } else {
                0
            })
        }),
{
}

/// Down moves one row further and stops at the last row; Up moves one row
/// back and stops at the first row; with nothing selected either key goes to
/// the first row.
pub proof fn lemma_nav_steps(i: int, len: int)
    requires
        0 <= i < len,
    ensures
        i + 1 < len ==> nav_index(Some(i), true, len) == i + 1,
        i + 1 == len ==> nav_index(Some(i), true, len) == i,
        i > 0 ==> nav_index(Some(i), false, len) == i - 1,
        i == 0 ==> nav_index(Some(i), false, len) == 0,
        nav_index(None, true, len) == 0,
        nav_index(None, false, len) == 0,
{
}

/// The actions the clicks on the map ask for, in order.
pub open spec fn map_actions(h: Option<TileTarget>, c: MapClicks) -> Seq<Action> {
    let ctx = match h {
        Some(TileTarget::Node(id)) => when(c.secondary, Action::Select(id)),
        _ => Seq::empty(),
    };
    let main = if c.double {
        match h {
            Some(TileTarget::Node(id)) => seq![Action::Open(id)],
            Some(TileTarget::Rest(p)) => seq![Action::Open(p)],
            None => Seq::empty(),
        }
    } else if c.clicked {
        match h {
            Some(TileTarget::Node(id)) => seq![Action::Select(id)],
            _ => Seq::empty(),
        }
    } else {
        Seq::empty()
    };
    ctx + main + when(c.middle, Action::Up)
}

/// The actions the clicks on a row ask for, in order: a click selects, a
/// double click opens a selected folder, a right click selects.
pub open spec fn row_actions_spec(id: NodeId, is_dir: bool, selected: Option<NodeId>, c: RowClicks) -> Seq<
    Action,
> {
    when(c.clicked, Action::Select(id)) + when(
        c.double && is_dir && selected == Some(id),
        Action::Open(id),
    ) + when(c.secondary, Action::Select(id))
}

/// The entries of the right-click menu of a node: folders can be opened and
/// refreshed; nothing starts while a job runs; links are never deleted.
pub open spec fn menu_spec(kind: NodeKind, busy: bool) -> Seq<MenuEntry> {
    let dir = kind == NodeKind::Dir;
    let can = !busy && kind != NodeKind::Link;
    (if dir {
        seq![MenuEntry { item: MenuItem::Open, enabled: true }]
    } else {
        Seq::empty()
    }) + seq![
        MenuEntry { item: MenuItem::ShowInExplorer, enabled: true },
        MenuEntry { item: MenuItem::CopyPath, enabled: true },
    ] + (if dir {
        seq![MenuEntry { item: MenuItem::RefreshFolder, enabled: !busy }]
    } else {
        Seq::empty()
    }) + seq![
        MenuEntry { item: MenuItem::Separator, enabled: true },
        MenuEntry { item: MenuItem::MoveToRecycleBin, enabled: can },
        MenuEntry { item: MenuItem::DeletePermanently, enabled: can },
    ]
}

proof fn lemma_concat_contains(a: Seq<Action>, b: Seq<Action>)
    ensures
        forall|x: Action| #[trigger] (a + b).contains(x) <==> (a.contains(x) || b.contains(x)),
{
    assert forall|x: Action| #[trigger] (a + b).contains(x) <==> (a.contains(x) || b.contains(x)) by {
        if a.contains(x) {
            let i = choose|i: int| 0 <= i < a.len() && a[i] == x;
            assert((a + b)[i] == x);
        }
        if b.contains(x) {
            let i = choose|i: int| 0 <= i < b.len() && b[i] == x;
            assert((a + b)[a.len() + i] == x);
        }
        if (a + b).contains(x) {
            let i = choose|i: int| 0 <= i < (a + b).len() && (a + b)[i] == x;
            if i < a.len() {
                assert(a[i] == x);
            } else {
                assert(b[i - a.len()] == x);
            }
        }
    }
}

proof fn lemma_when_contains(b: bool, a: Action)
    ensures
        b ==> when(b, a).contains(a),
        forall|x: Action| #[trigger] when(b, a).contains(x) ==> b && x == a,
{
    if b {
        assert(when(b, a)[0] == a);
    }
}

/// Each shortcut pressed asks for its action: copy and reveal act on the
/// selection, or on the current folder when nothing is selected; Delete
/// (Shift for permanently) and Enter act on the selection only.
pub proof fn lemma_shortcut_actions(k: KeyPresses, selected: Option<NodeId>, current: NodeId)
    ensures
        ({
            let target = match selected {
                Some(s) => s,
                None => current,
            };
            let acts = key_actions(k, selected, current);
            &&& k.copy ==> acts.contains(Action::CopyPath(target))
            &&& k.reveal ==> acts.contains(Action::Reveal(target))
            &&& k.up ==> acts.contains(Action::Up)
            &&& k.home ==> acts.contains(Action::GoTo(ROOT))
            &&& k.f5 ==> acts.contains(Action::Rescan)
            &&& k.help ==> acts.contains(Action::ShowShortcuts)
            &&& k.enter && selected is Some ==> acts.contains(Action::Open(selected->0))
            &&& k.delete == Some(true) && selected is Some ==> acts.contains(
                Action::Delete(selected->0, DeleteMode::Permanent),
            )
            &&& k.delete == Some(false) && selected is Some ==> acts.contains(
                Action::Delete(selected->0, DeleteMode::RecycleBin),
            )
            &&& !k.copy ==> !acts.contains(Action::CopyPath(target))
            &&& !k.reveal ==> !acts.contains(Action::Reveal(target))
            &&& selected is None ==> forall|x: Action|
                #[trigger] acts.contains(x) ==> !(x is Delete) && !(x is Open)
        }),
{
    let target = match selected {
        Some(s) => s,
        None => current,
    };
    let del = match (k.delete, selected) {
        (Some(p), Some(s)) => seq![
            Action::Delete(
                s,
                if p {
                    DeleteMode::Permanent
                } else {
                    DeleteMode::RecycleBin
                },
            ),
        ],
        _ => Seq::<Action>::empty(),
    };
    let c = when(k.copy, Action::CopyPath(target));
    let r = when(k.reveal, Action::Reveal(target));
    let u = when(k.up, Action::Up);
    let e = when(k.enter && selected is Some, Action::Open(selected->0));
    let h = when(k.home, Action::GoTo(ROOT));
    let f = when(k.f5, Action::Rescan);
    let q = when(k.help, Action::ShowShortcuts);
    lemma_when_contains(k.copy, Action::CopyPath(target));
    lemma_when_contains(k.reveal, Action::Reveal(target));
    lemma_when_contains(k.up, Action::Up);
    lemma_when_contains(k.enter && selected is Some, Action::Open(selected->0));
    lemma_when_contains(k.home, Action::GoTo(ROOT));
    lemma_when_contains(k.f5, Action::Rescan);
    lemma_when_contains(k.help, Action::ShowShortcuts);
    lemma_concat_contains(del, c);
    lemma_concat_contains(del + c, r);
    lemma_concat_contains(del + c + r, u);
    lemma_concat_contains(del + c + r + u, e);
    lemma_concat_contains(del + c + r + u + e, h);
    lemma_concat_contains(del + c + r + u + e + h, f);
    lemma_concat_contains(del + c + r + u + e + h + f, q);
    assert(key_actions(k, selected, current) == del + c + r + u + e + h + f + q);
    if del.len() > 0 {
        assert(del[0] is Delete);
        assert(del.contains(del[0]));
    }
    assert forall|x: Action| #[trigger] del.contains(x) implies x is Delete by {}
}

/// A double click on a tile of the map opens it (the folder of the small
/// items for their tile); a single click on a node selects it; a right
/// click on a node selects it; a middle click goes up.
pub proof fn lemma_map_click_actions(h: Option<TileTarget>, c: MapClicks)
    ensures
        h matches Some(TileTarget::Node(id)) ==> (c.double ==> map_actions(h, c).contains(
            Action::Open(id),
        )),
        h matches Some(TileTarget::Rest(p)) ==> (c.double ==> map_actions(h, c).contains(
            Action::Open(p),
        )),
        h matches Some(TileTarget::Node(id)) ==> (!c.double && c.clicked ==> map_actions(
            h,
            c,
        ).contains(Action::Select(id))),
        h matches Some(TileTarget::Node(id)) ==> (c.secondary ==> map_actions(h, c).contains(
            Action::Select(id),
        )),
        c.middle ==> map_actions(h, c).contains(Action::Up),
        !c.double ==> forall|x: Action| #[trigger] map_actions(h, c).contains(x) ==> !(x is Open),
        h matches Some(TileTarget::Node(id)) ==> (c.double && !c.secondary && !c.middle
            ==> map_actions(h, c) == seq![Action::Open(id)]),
        h matches Some(TileTarget::Node(id)) ==> (!c.double && c.clicked && !c.secondary
            && !c.middle ==> map_actions(h, c) == seq![Action::Select(id)]),
{
    broadcast use vstd::seq_lib::group_seq_properties;

    lemma_when_contains(c.middle, Action::Up);
    match h {
        Some(TileTarget::Node(id)) => {
            lemma_when_contains(c.secondary, Action::Select(id));
            assert(seq![Action::Open(id)][0] == Action::Open(id));
            assert(seq![Action::Select(id)][0] == Action::Select(id));
            assert forall|x: Action| #[trigger] seq![Action::Select(id)].contains(x) implies x
                == Action::Select(id) by {}
        },
        Some(TileTarget::Rest(p)) => {
            assert(seq![Action::Open(p)][0] == Action::Open(p));
        },
        None => {},
    }
}

/// A click on a row selects it; a double click opens the row only when it
/// is a selected folder.
pub proof fn lemma_row_click_actions(id: NodeId, is_dir: bool, selected: Option<NodeId>, c: RowClicks)
    ensures
        c.clicked || c.secondary ==> row_actions_spec(id, is_dir, selected, c).contains(
            Action::Select(id),
        ),
        c.double && is_dir && selected == Some(id) ==> row_actions_spec(
            id,
            is_dir,
            selected,
            c,
        ).contains(Action::Open(id)),
        !(c.double && is_dir && selected == Some(id)) ==> !row_actions_spec(
            id,
            is_dir,
            selected,
            c,
        ).contains(Action::Open(id)),
{
    broadcast use vstd::seq_lib::group_seq_properties;

    lemma_when_contains(c.clicked, Action::Select(id));
    lemma_when_contains(c.double && is_dir && selected == Some(id), Action::Open(id));
    lemma_when_contains(c.secondary, Action::Select(id));
}

/// While a job runs no menu entry that starts work (refresh, recycle,
/// delete) can be clicked; a link can never be deleted from the menu; when
/// idle a file or folder can be recycled or deleted; only folders can be
/// opened or refreshed.
pub proof fn lemma_menu_entries(kind: NodeKind, busy: bool)
    ensures
        busy ==> forall|e: MenuEntry|
            #[trigger] menu_spec(kind, busy).contains(e) && (e.item == MenuItem::RefreshFolder
                || e.item == MenuItem::MoveToRecycleBin || e.item == MenuItem::DeletePermanently)
                ==> !e.enabled,
        kind == NodeKind::Link ==> forall|e: MenuEntry|
            #[trigger] menu_spec(kind, busy).contains(e) && (e.item == MenuItem::MoveToRecycleBin
                || e.item == MenuItem::DeletePermanently) ==> !e.enabled,
        !busy && kind != NodeKind::Link ==> menu_spec(kind, busy).contains(
            MenuEntry { item: MenuItem::MoveToRecycleBin, enabled: true },
        ) && menu_spec(kind, busy).contains(
            MenuEntry { item: MenuItem::DeletePermanently, enabled: true },
        ),
        kind != NodeKind::Dir ==> forall|e: MenuEntry|
            #[trigger] menu_spec(kind, busy).contains(e) ==> e.item != MenuItem::Open && e.item
                != MenuItem::RefreshFolder,
        menu_spec(kind, busy).contains(MenuEntry { item: MenuItem::ShowInExplorer, enabled: true }),
        menu_spec(kind, busy).contains(MenuEntry { item: MenuItem::CopyPath, enabled: true }),
{
    let m = menu_spec(kind, busy);
    let n = m.len();
    assert(m[n - 2].item == MenuItem::MoveToRecycleBin);
    assert(m[n - 1].item == MenuItem::DeletePermanently);
    assert(m[n - 3].item == MenuItem::Separator);
    if kind == NodeKind::Dir {
        assert(m =~= seq![
            MenuEntry { item: MenuItem::Open, enabled: true },
            MenuEntry { item: MenuItem::ShowInExplorer, enabled: true },
            MenuEntry { item: MenuItem::CopyPath, enabled: true },
            MenuEntry { item: MenuItem::RefreshFolder, enabled: !busy },
            MenuEntry { item: MenuItem::Separator, enabled: true },
            MenuEntry { item: MenuItem::MoveToRecycleBin, enabled: !busy },
            MenuEntry { item: MenuItem::DeletePermanently, enabled: !busy },
        ]);
        assert(m[1] == MenuEntry { item: MenuItem::ShowInExplorer, enabled: true });
        assert(m[2] == MenuEntry { item: MenuItem::CopyPath, enabled: true });
    } else {
        let can = !busy && kind != NodeKind::Link;
        assert(m =~= seq![
            MenuEntry { item: MenuItem::ShowInExplorer, enabled: true },
            MenuEntry { item: MenuItem::CopyPath, enabled: true },
            MenuEntry { item: MenuItem::Separator, enabled: true },
            MenuEntry { item: MenuItem::MoveToRecycleBin, enabled: can },
            MenuEntry { item: MenuItem::DeletePermanently, enabled: can },
        ]);
        assert(m[0] == MenuEntry { item: MenuItem::ShowInExplorer, enabled: true });
        assert(m[1] == MenuEntry { item: MenuItem::CopyPath, enabled: true });
    }
}

fn push_when(v: &mut Vec<Action>, b: bool, a: Action)
    ensures
        final(v)@ == old(v)@ + when(b, a),
{
    if b {
        v.push(a);
    }
    assert(final(v)@ =~= old(v)@ + when(b, a));
}

/// The actions the clicks on a row of the listing ask for.
pub fn row_actions(id: NodeId, is_dir: bool, selected: Option<NodeId>, c: RowClicks) -> (r: Vec<
    Action,
>)
    ensures
        r@ == row_actions_spec(id, is_dir, selected, c),
{
    let mut r: Vec<Action> = Vec::new();
    push_when(&mut r, c.clicked, Action::Select(id));
    let open = c.double && is_dir && match selected {
        Some(s) => s == id,
        None => false,
    };
    push_when(&mut r, open, Action::Open(id));
    push_when(&mut r, c.secondary, Action::Select(id));
    assert(r@ =~= row_actions_spec(id, is_dir, selected, c));
    r
}

/// The entries of the right-click menu of a node of kind `kind`.
pub fn context_menu_entries(kind: NodeKind, busy: bool) -> (r: Vec<MenuEntry>)
    ensures
        r@ == menu_spec(kind, busy),
{
    let dir = match kind {
        NodeKind::Dir => true,
        _ => false,
    };
    let can = !busy && match kind {
        NodeKind::Link => false,
        _ => true,
    };
    let mut r: Vec<MenuEntry> = Vec::new();
    if dir {
        r.push(MenuEntry { item: MenuItem::Open, enabled: true });
    }
    r.push(MenuEntry { item: MenuItem::ShowInExplorer, enabled: true });
    r.push(MenuEntry { item: MenuItem::CopyPath, enabled: true });
    if dir {
        r.push(MenuEntry { item: MenuItem::RefreshFolder, enabled: !busy });
    }
    r.push(MenuEntry { item: MenuItem::Separator, enabled: true });
    r.push(MenuEntry { item: MenuItem::MoveToRecycleBin, enabled: can });
    r.push(MenuEntry { item: MenuItem::DeletePermanently, enabled: can });
    assert(r@ =~= menu_spec(kind, busy));
    r
}

/// The action of a menu entry of node `id`.
pub fn menu_action(item: MenuItem, id: NodeId) -> (a: Option<Action>)
    ensures
        a == match item {
            MenuItem::Open => Some(Action::Open(id)),
            MenuItem::ShowInExplorer => Some(Action::Reveal(id)),
            MenuItem::CopyPath => Some(Action::CopyPath(id)),
            MenuItem::RefreshFolder => Some(Action::RefreshFolder(id)),
            MenuItem::Separator => None,
            MenuItem::MoveToRecycleBin => Some(Action::Delete(id, DeleteMode::RecycleBin)),
            MenuItem::DeletePermanently => Some(Action::Delete(id, DeleteMode::Permanent)),
        },
{
    match item {
        MenuItem::Open => Some(Action::Open(id)),
        MenuItem::ShowInExplorer => Some(Action::Reveal(id)),
        MenuItem::CopyPath => Some(Action::CopyPath(id)),
        MenuItem::RefreshFolder => Some(Action::RefreshFolder(id)),
        MenuItem::Separator => None,
        MenuItem::MoveToRecycleBin => Some(Action::Delete(id, DeleteMode::RecycleBin)),
        MenuItem::DeletePermanently => Some(Action::Delete(id, DeleteMode::Permanent)),
    }
}

/// The path above the map, from the root down to the current folder.
/// `ancestors` runs from the current folder up to the root.
pub fn breadcrumb_trail(ancestors: &Vec<NodeId>, current: NodeId) -> (t: Trail)
    ensures
        ({
            let chain = ancestors@.reverse();
            let skip = if chain.len() > 6 {
                chain.len() - 6
            } else {
                0
            };
            &&& t.ellipsis == (skip > 0)
            &&& t.crumbs@.len() == chain.len() - skip
            &&& forall|k: int|
                0 <= k < t.crumbs@.len() ==> #[trigger] t.crumbs@[k] == (Crumb {
                    node: chain[skip + k],
                    separator: k > 0 || skip > 0,
                    is_current: chain[skip + k] == current,
                })
        }),
{
    let len = ancestors.len();
    let skip: usize = if len > 6 {
        len - 6
    } else {
        0
    };
    let ghost chain = ancestors@.reverse();
    let mut crumbs: Vec<Crumb> = Vec::new();
    let mut i: usize = skip;
    while i < len
        invariant
            skip <= i <= len,
            len == ancestors@.len(),
            chain == ancestors@.reverse(),
            skip == (if len > 6 {
                len - 6
            } else {
                0
            }),
            crumbs@.len() == i - skip,
            forall|k: int|
                0 <= k < crumbs@.len() ==> #[trigger] crumbs@[k] == (Crumb {
                    node: chain[skip + k],
                    separator: k > 0 || skip > 0,
                    is_current: chain[skip + k] == current,
                }),
        decreases len - i,
    {
        let n = ancestors[len - 1 - i];
        assert(chain[i as int] == n);
        crumbs.push(Crumb { node: n, separator: i > skip || skip > 0, is_current: n == current });
        i = i + 1;
    }
    Trail { ellipsis: skip > 0, crumbs }
}

/// A click on a step of the path goes there, unless it is the current
/// folder.
pub fn crumb_action(c: Crumb) -> (a: Option<Action>)
    ensures
        a == (if c.is_current {
            None
        } else {
            Some(Action::GoTo(c.node))
        }),
{
    if c.is_current {
        None
    } else {
        Some(Action::GoTo(c.node))
    }
}

impl AppState {
    /// Turns the shortcuts of one frame into actions, and moves the
    /// selection for the arrow keys and Escape. `children` describes the
    /// children of the current folder; it is used when an arrow key needs
    /// the listing brought up to date.
    pub fn handle_keys(&mut self, keys: KeyPresses, children: &Vec<ListEntry>) -> (r: Vec<Action>)
        ensures
            old(self).dialog is Some || !old(self).has_tree ==> r@.len() == 0 && *final(self)
                == *old(self),
            old(self).dialog is None && old(self).has_tree ==> {
                let sel = if keys.esc {
                    None
                } else {
                    old(self).selected
                };
                let stale = old(self).list_key != Some(old(self).key_now());
                &&& r@ == key_actions(keys, old(self).selected, old(self).current)
                &&& !(keys.prev || keys.next) ==> *final(self) == (AppState {
                    selected: sel,
                    ..*old(self)
                })
                &&& (keys.prev || keys.next) ==> {
                    &&& stale ==> lists(
                        children@,
                        old(self).sort,
                        old(self).metric,
                        old(self).sort_desc,
                        final(self).list@,
                    ) && final(self).list_key == Some(old(self).key_now())
                    &&& !stale ==> final(self).list == old(self).list && final(self).list_key
                        == old(self).list_key
                    &&& if final(self).list@.len() > 0 {
                        let idx = match sel {
                            Some(s) => index_in(final(self).list@, s),
                            None => None,
                        };
                        let n = nav_index(idx, keys.next, final(self).list@.len() as int);
                        &&& 0 <= n < final(self).list@.len()
                        &&& final(self).selected == Some(final(self).list@[n])
                        &&& final(self).list_scroll_to == Some(n as usize)
                    } else {
                        final(self).selected == sel && final(self).list_scroll_to == old(
                            self,
                        ).list_scroll_to
                    }
                    &&& *final(self) == (AppState {
                        selected: final(self).selected,
                        list: final(self).list,
                        list_key: final(self).list_key,
                        list_scroll_to: final(self).list_scroll_to,
                        ..*old(self)
                    })
                }
            },
    {
        let mut actions: Vec<Action> = Vec::new();
        if self.dialog.is_some() || !self.has_tree {
            return actions;
        }
        let ghost old_sel = self.selected;
        match (keys.delete, self.selected) {
            (Some(permanent), Some(sel)) => {
                actions.push(
                    Action::Delete(
                        sel,
                        if permanent {
                            DeleteMode::Permanent
                        } else {
                            DeleteMode::RecycleBin
                        },
                    ),
                );
            },
            _ => {},
        }
        let target = match self.selected {
            Some(s) => s,
            None => self.current,
        };
        push_when(&mut actions, keys.copy, Action::CopyPath(target));
        push_when(&mut actions, keys.reveal, Action::Reveal(target));
        push_when(&mut actions, keys.up, Action::Up);
        match self.selected {
            Some(sel) => push_when(&mut actions, keys.enter, Action::Open(sel)),
            None => push_when(&mut actions, false, Action::Up),
        }
        push_when(&mut actions, keys.home, Action::GoTo(ROOT));
        push_when(&mut actions, keys.f5, Action::Rescan);
        push_when(&mut actions, keys.help, Action::ShowShortcuts);
        assert(actions@ =~= key_actions(keys, old_sel, self.current));
        if keys.esc {
            self.selected = None;
        }
        if keys.prev || keys.next {
            self.refresh_list(children);
            let len = self.list.len();
            if len > 0 {
                let idx = match self.selected {
                    Some(s) => self.list_position(s),
                    None => None,
                };
                let new: usize = match idx {
                    None => 0,
                    Some(i) => if keys.next {
                        if i + 1 < len - 1 {
                            i + 1
                        } else {
                            len - 1
                        }
                    } else {
                        if i > 0 {
                            i - 1
                        } else {
                            0
                        }
                    },
                };
                self.selected = Some(self.list[new]);
                self.list_scroll_to = Some(new);
            }
        }
        actions
    }

    /// Turns the clicks on the map into actions. A right click also records
    /// the node whose menu opens; a plain click outside any node clears the
    /// selection.
    pub fn map_input(&mut self, hovered: Option<TileTarget>, clicks: MapClicks) -> (r: Vec<Action>)
        ensures
            r@ == map_actions(hovered, clicks),
            final(self).context_node == (if clicks.secondary {
                match hovered {
                    Some(TileTarget::Node(id)) => Some(id),
                    _ => None,
                }
            } else {
                old(self).context_node
            }),
            final(self).selected == (if !clicks.double && clicks.clicked && !(hovered matches Some(
                TileTarget::Node(_),
            )) {
                None
            } else {
                old(self).selected
            }),
            *final(self) == (AppState {
                context_node: final(self).context_node,
                selected: final(self).selected,
                ..*old(self)
            }),
    {
        let mut r: Vec<Action> = Vec::new();
        if clicks.secondary {
            self.context_node = match hovered {
                Some(TileTarget::Node(id)) => Some(id),
                _ => None,
            };
            match self.context_node {
                Some(id) => r.push(Action::Select(id)),
                None => {},
            }
        }
        let ghost after_ctx = r@;
        if clicks.double {
            match hovered {
                Some(TileTarget::Node(id)) => r.push(Action::Open(id)),
                Some(TileTarget::Rest(p)) => r.push(Action::Open(p)),
                None => {},
            }
        } else if clicks.clicked {
            match hovered {
                Some(TileTarget::Node(id)) => r.push(Action::Select(id)),
                _ => self.selected = None,
            }
        }
        push_when(&mut r, clicks.middle, Action::Up);
        assert(r@ =~= map_actions(hovered, clicks));
        r
    }
}

} // verus!
