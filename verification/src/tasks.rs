//! Scans and background jobs: when they may start, and what their results do
//! to the state.

use vstd::prelude::*;
use crate::model::{DeleteMode, DeleteOutcome, Metric, NodeId, NodeKind, ROOT};
use crate::state::{toast_is, AppState, ConfirmDelete, Dialog, Task, TaskKind};
use crate::text::{join2, join3, join4, join5, owned};

verus! {

/// How a scan ended, as far as the state cares.
pub enum ScanOutcome {
    /// The tree was read; the node found again at the folder that was open
    /// before a rescan, if any.
    Done(Option<NodeId>),
    Cancelled,
    /// The error, as text.
    Failed(String),
}

/// What a finished job produced.
pub enum TaskResult {
    Delete(DeleteOutcome),
    /// `Ok` when the folder was read again (the window holds the new
    /// contents); the error otherwise.
    Refresh(Result<(), String>),
}

/// What the window knows of the tree around the node a job worked on.
pub struct SubtreeFacts {
    /// A node is selected and lies in the node's subtree.
    pub selected_inside: bool,
    /// The current folder lies in the node's subtree.
    pub current_inside: bool,
    /// The node's parent.
    pub parent: NodeId,
    /// The node's path no longer exists on disk.
    pub gone: bool,
    /// The job's size, formatted for people.
    pub size_text: String,
}

/// What the window does to its tree, or starts, after a job ended.
#[derive(Clone, Copy, Debug, PartialEq, Eq, Structural)]
pub enum FollowUp {
    Nothing,
    /// Take the node out of the tree.
    Remove(NodeId),
    /// Put the freshly read contents in place of the node's subtree.
    Graft(NodeId),
    /// Read the node's folder again.
    StartRefresh(NodeId),
}

/// What the tree must undergo, or what must start, once a job of kind
/// `kind` ended with `result`: a delete that removed its target or a
/// refresh of a vanished folder takes the node out; a successful refresh
/// grafts the new contents; a cancelled or partial delete reads the folder
/// again. Without a tree nothing changes in it.
pub open spec fn follow_up_spec(kind: TaskKind, result: TaskResult, has_tree: bool, gone: bool) -> FollowUp {
    match (kind, result) {
        (TaskKind::Delete { node, .. }, TaskResult::Delete(outcome)) => match outcome {
            DeleteOutcome::Deleted | DeleteOutcome::AlreadyGone => if has_tree {
                FollowUp::Remove(node)
            } else {
                FollowUp::Nothing
            },
            DeleteOutcome::Cancelled | DeleteOutcome::Partial(_) => FollowUp::StartRefresh(node),
            DeleteOutcome::Failed(_) => FollowUp::Nothing,
        },
        (TaskKind::Refresh { node }, TaskResult::Refresh(Ok(()))) => if has_tree {
            FollowUp::Graft(node)
        } else {
            FollowUp::Nothing
        },
        (TaskKind::Refresh { node }, TaskResult::Refresh(Err(_))) => if has_tree && gone {
            FollowUp::Remove(node)
        } else {
            FollowUp::Nothing
        },
        _ => FollowUp::Nothing,
    }
}

/// Whether a job of kind `kind` ending with `result` changes the tree, and
/// so the generation: a delete that removed its target, a successful
/// refresh, and a refresh of a folder that vanished from a loaded tree.
pub open spec fn task_bumps(kind: TaskKind, result: TaskResult, has_tree: bool, gone: bool) -> bool {
    match (kind, result) {
        (TaskKind::Delete { .. }, TaskResult::Delete(DeleteOutcome::Deleted)) => true,
        (TaskKind::Delete { .. }, TaskResult::Delete(DeleteOutcome::AlreadyGone)) => true,
        (TaskKind::Refresh { .. }, TaskResult::Refresh(Ok(()))) => true,
        (TaskKind::Refresh { .. }, TaskResult::Refresh(Err(_))) => has_tree && gone,
        _ => false,
    }
}

/// The toast of a delete that removed its target.
pub open spec fn removed_message(
    outcome_gone: bool,
    mode: DeleteMode,
    name: Seq<char>,
    size_text: Seq<char>,
) -> Seq<char> {
    if outcome_gone {
        name + " was already gone; removed it from the map."@
    } else if mode == DeleteMode::RecycleBin {
        "Moved "@ + name + " to the Recycle Bin ("@ + size_text + ")."@
    } else {
        "Permanently deleted "@ + name + " ("@ + size_text + " freed)."@
    }
}

/// `d` is a message window with this title and body.
pub open spec fn message_is(d: Option<Dialog>, title: Seq<char>, body: Seq<char>) -> bool {
    &&& d is Some
    &&& d->0 is Message
    &&& d->0->title@ == title
    &&& d->0->body@ == body
}

/// The job that deletes what `c` confirms: the size counted is the one the
/// window shows.
pub open spec fn delete_task_ok(t: Task, c: ConfirmDelete, metric: Metric) -> bool {
    &&& t.kind matches TaskKind::Delete { node, name, size, mode }
    &&& t.kind->Delete_node == c.node
    &&& t.kind->Delete_name@ == c.name@
    &&& t.kind->Delete_size == (if metric == Metric::Allocated {
        c.allocated
    } else {
        c.logical
    })
    &&& t.kind->Delete_mode == c.mode
    &&& t.label@ == (if c.mode == DeleteMode::RecycleBin {
        "Moving to Recycle Bin"@
    } else {
        "Deleting"@
    }) + ": "@ + c.name@
}

impl AppState {
    /// A scan may start unless a job is running; if one is, the user is told
    /// to wait.
    pub fn request_scan(&mut self) -> (ok: bool)
        ensures
            ok == (old(self).task is None),
            ok ==> *final(self) == *old(self),
            !ok ==> toast_is(final(self).toast, "Wait for the current delete to finish first."@, true)
                && *final(self) == (AppState { toast: final(self).toast, ..*old(self) }),
    {
        if self.task.is_some() {
            self.toast(owned("Wait for the current delete to finish first."), true);
            return false;
        }
        true
    }

    /// The scan thread started.
    pub fn scan_spawned(&mut self)
        ensures
            *final(self) == (AppState {
                start_error: None,
                dialog: None,
                scanning: true,
                ..*old(self)
            }),
    {
        self.start_error = None;
        self.dialog = None;
        self.scanning = true;
    }

    /// The scan thread could not start.
    pub fn scan_spawn_failed(&mut self, err: &str)
        ensures
            final(self).start_error is Some,
            final(self).start_error->0@ == "Could not start the scan: "@ + err@,
            *final(self) == (AppState { start_error: final(self).start_error, ..*old(self) }),
    {
        self.start_error = Some(join2("Could not start the scan: ", err));
    }

    /// A new tree is in place: open the folder found again, or the root,
    /// with nothing selected and the listing scrolled to the top.
    pub fn set_tree(&mut self, found: Option<NodeId>)
        requires
            old(self).generation < u64::MAX,
        ensures
            *final(self) == (AppState {
                has_tree: true,
                current: match found {
                    Some(n) => n,
                    None => ROOT,
                },
                selected: None,
                generation: (old(self).generation + 1) as u64,
                list_scroll_to: Some(0),
                ..*old(self)
            }),
    {
        self.current = match found {
            Some(n) => n,
            None => ROOT,
        };
        self.has_tree = true;
        self.selected = None;
        self.generation = self.generation + 1;
        self.list_scroll_to = Some(0);
    }

    /// The running scan ended. A failure is a notice when a tree is shown
    /// and an error on the start screen otherwise.
    pub fn scan_finished(&mut self, outcome: ScanOutcome)
        requires
            old(self).scanning && outcome is Done ==> old(self).generation < u64::MAX,
        ensures
            !old(self).scanning ==> *final(self) == *old(self),
            old(self).scanning ==> match outcome {
                ScanOutcome::Done(found) => *final(self) == (AppState {
                    scanning: false,
                    has_tree: true,
                    current: match found {
                        Some(n) => n,
                        None => ROOT,
                    },
                    selected: None,
                    generation: (old(self).generation + 1) as u64,
                    list_scroll_to: Some(0),
                    ..*old(self)
                }),
                ScanOutcome::Cancelled => *final(self) == (AppState { scanning: false, ..*old(self) }),
                ScanOutcome::Failed(e) => if old(self).has_tree {
                    &&& toast_is(final(self).toast, e@, true)
                    &&& *final(self) == (AppState {
                        scanning: false,
                        toast: final(self).toast,
                        ..*old(self)
                    })
                } else {
                    &&& final(self).start_error is Some
                    &&& final(self).start_error->0@ == e@
                    &&& *final(self) == (AppState {
                        scanning: false,
                        start_error: final(self).start_error,
                        ..*old(self)
                    })
                },
            },
    {
        if !self.scanning {
            return;
        }
        self.scanning = false;
        match outcome {
            ScanOutcome::Done(found) => self.set_tree(found),
            ScanOutcome::Cancelled => {},
            ScanOutcome::Failed(e) => {
                if self.has_tree {
                    self.toast(e, true);
                } else {
                    self.start_error = Some(e);
                }
            },
        }
    }

    /// The job that deletes what `c` confirms.
    pub fn delete_plan(&self, c: &ConfirmDelete) -> (t: Task)
        ensures
            delete_task_ok(t, *c, self.metric),
    {
        let size = match self.metric {
            Metric::Allocated => c.allocated,
            Metric::Logical => c.logical,
        };
        let verb = match c.mode {
            DeleteMode::RecycleBin => "Moving to Recycle Bin",
            DeleteMode::Permanent => "Deleting",
        };
        let label = join3(verb, ": ", c.name.as_str());
        Task {
            kind: TaskKind::Delete { node: c.node, name: c.name.clone(), size, mode: c.mode },
            label,
        }
    }

    /// The job that reads a folder again; none for a file or a link.
    pub fn refresh_plan(node: NodeId, kind: NodeKind, path: &str) -> (t: Option<Task>)
        ensures
            kind != NodeKind::Dir ==> t is None,
            kind == NodeKind::Dir ==> {
                &&& t is Some
                &&& t->0.kind == (TaskKind::Refresh { node })
                &&& t->0.label@ == "Refreshing "@ + path@
            },
    {
        match kind {
            NodeKind::Dir => Some(
                Task { kind: TaskKind::Refresh { node }, label: join2("Refreshing ", path) },
            ),
            _ => None,
        }
    }

    /// A job's thread started.
    pub fn task_spawned(&mut self, task: Task)
        ensures
            *final(self) == (AppState { task: Some(task), ..*old(self) }),
    {
        self.task = Some(task);
    }

    /// A job's thread could not start.
    pub fn task_spawn_failed(&mut self, err: &str)
        ensures
            toast_is(final(self).toast, "Could not start: "@ + err@, true),
            *final(self) == (AppState { toast: final(self).toast, ..*old(self) }),
    {
        self.toast(join2("Could not start: ", err), true);
    }

    /// What the tree must undergo once the running job ended with `result`;
    /// `gone` tells whether the job's folder no longer exists on disk. The
    /// window changes its tree accordingly before it calls `task_finished`.
    pub fn follow_up(&self, result: &TaskResult, gone: bool) -> (f: FollowUp)
        ensures
            self.task is None ==> f == FollowUp::Nothing,
            self.task is Some ==> f == follow_up_spec(
                self.task->0.kind,
                *result,
                self.has_tree,
                gone,
            ),
    {
        let task = match &self.task {
            Some(t) => t,
            None => return FollowUp::Nothing,
        };
        match (&task.kind, result) {
            (TaskKind::Delete { node, .. }, TaskResult::Delete(outcome)) => match outcome {
                DeleteOutcome::Deleted | DeleteOutcome::AlreadyGone => if self.has_tree {
                    FollowUp::Remove(*node)
                } else {
                    FollowUp::Nothing
                },
                DeleteOutcome::Cancelled | DeleteOutcome::Partial(_) => FollowUp::StartRefresh(*node),
                DeleteOutcome::Failed(_) => FollowUp::Nothing,
            },
            (TaskKind::Refresh { node }, TaskResult::Refresh(Ok(()))) => if self.has_tree {
                FollowUp::Graft(*node)
            } else {
                FollowUp::Nothing
            },
            (TaskKind::Refresh { node }, TaskResult::Refresh(Err(_))) => if self.has_tree && gone {
                FollowUp::Remove(*node)
            } else {
                FollowUp::Nothing
            },
            _ => FollowUp::Nothing,
        }
    }

    /// The running job ended with `result`. `facts` describes the tree
    /// around the job's node.
    ///
    /// A delete that removed its target takes the node out of the tree,
    /// clears a selection inside it and leaves a current folder inside it
    /// for the node's parent. A cancelled or partial delete reads the folder
    /// again. A refresh puts the new contents in place, and clears a
    /// selection or moves a current folder that lay strictly inside; when the
    /// folder has vanished from disk it is removed like a delete.
    pub fn task_finished(&mut self, result: TaskResult, facts: &SubtreeFacts) -> (f: FollowUp)
        requires
            old(self).task is Some && task_bumps(
                old(self).task->0.kind,
                result,
                old(self).has_tree,
                facts.gone,
            ) ==> old(self).generation < u64::MAX,
        ensures
            old(self).task is None ==> *final(self) == *old(self) && f == FollowUp::Nothing,
            old(self).task is Some ==> final(self).task is None,
            old(self).task is Some ==> f == follow_up_spec(
                old(self).task->0.kind,
                result,
                old(self).has_tree,
                facts.gone,
            ),
            old(self).task is Some ==> match (old(self).task->0.kind, result) {
                (
                    TaskKind::Delete { node, name, size, mode },
                    TaskResult::Delete(outcome),
                ) => match outcome {
                    DeleteOutcome::Deleted | DeleteOutcome::AlreadyGone => {
                        let t = old(self).has_tree;
                        &&& f == (if t {
                            FollowUp::Remove(node)
                        } else {
                            FollowUp::Nothing
                        })
                        &&& toast_is(
                            final(self).toast,
                            removed_message(
                                outcome is AlreadyGone,
                                mode,
                                name@,
                                facts.size_text@,
                            ),
                            false,
                        )
                        &&& *final(self) == (AppState {
                            task: None,
                            selected: if t && facts.selected_inside {
                                None
                            } else {
                                old(self).selected
                            },
                            current: if t && facts.current_inside {
                                facts.parent
                            } else {
                                old(self).current
                            },
                            generation: (old(self).generation + 1) as u64,
                            toast: final(self).toast,
                            ..*old(self)
                        })
                    },
                    DeleteOutcome::Cancelled => {
                        &&& f == FollowUp::StartRefresh(node)
                        &&& toast_is(
                            final(self).toast,
                            "Cancelled. Anything already removed is reflected after a refresh."@,
                            false,
                        )
                        &&& *final(self) == (AppState {
                            task: None,
                            toast: final(self).toast,
                            ..*old(self)
                        })
                    },
                    DeleteOutcome::Partial(why) => {
                        &&& f == FollowUp::StartRefresh(node)
                        &&& message_is(
                            final(self).dialog,
                            "Partly deleted"@,
                            name@ + ": "@ + why@
                                + "\n\nThe folder is being re-read so the sizes are accurate."@,
                        )
                        &&& *final(self) == (AppState {
                            task: None,
                            dialog: final(self).dialog,
                            ..*old(self)
                        })
                    },
                    DeleteOutcome::Failed(why) => {
                        &&& f == FollowUp::Nothing
                        &&& message_is(
                            final(self).dialog,
                            "Could not delete"@,
                            name@ + "\n\n"@ + why@,
                        )
                        &&& *final(self) == (AppState {
                            task: None,
                            dialog: final(self).dialog,
                            ..*old(self)
                        })
                    },
                },
                (TaskKind::Refresh { node }, TaskResult::Refresh(Ok(()))) => {
                    let t = old(self).has_tree;
                    &&& f == (if t {
                        FollowUp::Graft(node)
                    } else {
                        FollowUp::Nothing
                    })
                    &&& *final(self) == (AppState {
                        task: None,
                        selected: if t && facts.selected_inside && old(self).selected != Some(
                            node,
                        ) {
                            None
                        } else {
                            old(self).selected
                        },
                        current: if t && facts.current_inside && old(self).current != node {
                            node
                        } else {
                            old(self).current
                        },
                        generation: (old(self).generation + 1) as u64,
                        ..*old(self)
                    })
                },
                (TaskKind::Refresh { node }, TaskResult::Refresh(Err(e))) => {
                    if old(self).has_tree && facts.gone {
                        &&& f == FollowUp::Remove(node)
                        &&& *final(self) == (AppState {
                            task: None,
                            selected: None,
                            current: if facts.current_inside {
                                facts.parent
                            } else {
                                old(self).current
                            },
                            generation: (old(self).generation + 1) as u64,
                            ..*old(self)
                        })
                    } else {
                        &&& f == FollowUp::Nothing
                        &&& toast_is(final(self).toast, "Refresh failed: "@ + e@, true)
                        &&& *final(self) == (AppState {
                            task: None,
                            toast: final(self).toast,
                            ..*old(self)
                        })
                    }
                },
                _ => f == FollowUp::Nothing && *final(self) == (AppState {
                    task: None,
                    ..*old(self)
                }),
            },
    {
        let task = match self.task.take() {
            Some(t) => t,
            None => return FollowUp::Nothing,
        };
        let has_tree = self.has_tree;
        match (task.kind, result) {
            (TaskKind::Delete { node, name, size, mode }, TaskResult::Delete(outcome)) => {
                match outcome {
                    DeleteOutcome::Deleted => {
                        self.forget_removed(facts);
                        let msg = match mode {
                            DeleteMode::RecycleBin => join5(
                                "Moved ",
                                name.as_str(),
                                " to the Recycle Bin (",
                                facts.size_text.as_str(),
                                ").",
                            ),
                            DeleteMode::Permanent => join5(
                                "Permanently deleted ",
                                name.as_str(),
                                " (",
                                facts.size_text.as_str(),
                                " freed).",
                            ),
                        };
                        self.toast(msg, false);
                        if has_tree {
                            FollowUp::Remove(node)
                        } else {
                            FollowUp::Nothing
                        }
                    },
                    DeleteOutcome::AlreadyGone => {
                        self.forget_removed(facts);
                        self.toast(
                            join2(name.as_str(), " was already gone; removed it from the map."),
                            false,
                        );
                        if has_tree {
                            FollowUp::Remove(node)
                        } else {
                            FollowUp::Nothing
                        }
                    },
                    DeleteOutcome::Cancelled => {
                        self.toast(
                            owned(
                                "Cancelled. Anything already removed is reflected after a refresh.",
                            ),
                            false,
                        );
                        FollowUp::StartRefresh(node)
                    },
                    DeleteOutcome::Partial(why) => {
                        self.dialog = Some(
                            Dialog::Message {
                                title: owned("Partly deleted"),
                                body: join4(
                                    name.as_str(),
                                    ": ",
                                    why.as_str(),
                                    "\n\nThe folder is being re-read so the sizes are accurate.",
                                ),
                            },
                        );
                        FollowUp::StartRefresh(node)
                    },
                    DeleteOutcome::Failed(why) => {
                        self.dialog = Some(
                            Dialog::Message {
                                title: owned("Could not delete"),
                                body: join3(name.as_str(), "\n\n", why.as_str()),
                            },
                        );
                        FollowUp::Nothing
                    },
                }
            },
            (TaskKind::Refresh { node }, TaskResult::Refresh(res)) => match res {
                Ok(()) => {
                    if has_tree {
                        if facts.selected_inside && self.selected != Some(node) {
                            self.selected = None;
                        }
                        if facts.current_inside && self.current != node {
                            self.current = node;
                        }
                    }
                    self.generation = self.generation + 1;
                    if has_tree {
                        FollowUp::Graft(node)
                    } else {
                        FollowUp::Nothing
                    }
                },
                Err(e) => {
                    if has_tree && facts.gone {
                        if facts.current_inside {
                            self.current = facts.parent;
                        }
                        self.selected = None;
                        self.generation = self.generation + 1;
                        FollowUp::Remove(node)
                    } else {
                        self.toast(join2("Refresh failed: ", e.as_str()), true);
                        FollowUp::Nothing
                    }
                },
            },
            _ => FollowUp::Nothing,
        }
    }

    /// After a node left the tree: a selection or current folder inside it
    /// no longer stands, and the tree changed.
    fn forget_removed(&mut self, facts: &SubtreeFacts)
        requires
            old(self).generation < u64::MAX,
        ensures
            *final(self) == (AppState {
                selected: if old(self).has_tree && facts.selected_inside {
                    None
                } else {
                    old(self).selected
                },
                current: if old(self).has_tree && facts.current_inside {
                    facts.parent
                } else {
                    old(self).current
                },
                generation: (old(self).generation + 1) as u64,
                ..*old(self)
            }),
    {
        if self.has_tree {
            if facts.selected_inside {
                self.selected = None;
            }
            if facts.current_inside {
                self.current = facts.parent;
            }
        }
        self.generation = self.generation + 1;
    }
}

} // verus!
