//! Virtual workspaces: several desktops, each with its own stacking order,
//! of which exactly one is active.

use vstd::prelude::*;
use vstd::string::StringExecFns;

use crate::stacking::{without, StackingOrder, WindowId};
use crate::text::{decimal, push_decimal};

verus! {

/// A single virtual workspace.
#[derive(Debug, Clone)]
pub struct Workspace {
    /// Workspace identifier (zero-indexed).
    pub id: usize,
    /// Human-readable workspace name.
    pub name: String,
    /// Windows on this workspace, in z-order.
    pub windows: StackingOrder,
}

/// The name given to the workspace with identifier `id`: `"Workspace "`
/// followed by `id + 1` in decimal.
pub open spec fn workspace_name(id: nat) -> Seq<char> {
    "Workspace "@ + decimal(id + 1)
}

/// `w` is workspace number `i` as created: id `i`, its generated name and
/// no windows.
pub open spec fn fresh_workspace(w: Workspace, i: int) -> bool {
    &&& w.id == i
    &&& w.name@ == workspace_name(i as nat)
    &&& w.windows@.len() == 0
}

impl Workspace {
    /// A workspace with the given id, its generated name and no windows.
    fn new(id: usize) -> (res: Self)
        requires
            id < usize::MAX,
        ensures
            res.id == id,
            res.name@ == workspace_name(id as nat),
            res.windows@.len() == 0,
    {
        let mut name = String::from_str("Workspace ");
        push_decimal(&mut name, id + 1);
        Workspace { id, name, windows: StackingOrder::new() }
    }
}

/// A collection of virtual workspaces of which one is active.
#[derive(Debug)]
pub struct WorkspaceManager {
    workspaces: Vec<Workspace>,
    active_index: usize,
}

impl Clone for WorkspaceManager {
    /// A copy with the same number of workspaces and the same active index.
    fn clone(&self) -> (res: Self)
        ensures
            res.spaces().len() == self.spaces().len(),
            res.active_at() == self.active_at(),
    {
        proof {
            use_type_invariant(self);
        }
        WorkspaceManager { workspaces: self.workspaces.clone(), active_index: self.active_index }
    }
}

impl WorkspaceManager {
    /// The workspaces, by index.
    pub closed spec fn spaces(&self) -> Seq<Workspace> {
        self.workspaces@
    }

    /// The index of the active workspace.
    pub closed spec fn active_at(&self) -> nat {
        self.active_index as nat
    }

    /// There is at least one workspace and the active index names one.
    #[verifier::type_invariant]
    spec fn wf(&self) -> bool {
        self.active_index < self.workspaces@.len()
    }

    /// The window order of workspace `i`.
    pub open spec fn windows_of(&self, i: int) -> Seq<WindowId> {
        self.spaces()[i].windows@
    }

    /// Creates `count` workspaces (at least one), with ids `0..count`, the
    /// generated names and no windows; workspace 0 is active.
    pub fn new(count: usize) -> (res: Self)
        ensures
            res.active_at() < res.spaces().len(),
            res.spaces().len() == if count == 0 {
                1
            } else {
                count as int
            },
            res.active_at() == 0,
            forall|i: int|
                0 <= i < res.spaces().len() ==> #[trigger] fresh_workspace(res.spaces()[i], i),
    {
        let count = if count == 0 {
            1
        } else {
            count
        };
        let mut workspaces: Vec<Workspace> = Vec::new();
        let mut i: usize = 0;
        while i < count
            invariant
                i <= count,
                workspaces@.len() == i,
                forall|j: int| 0 <= j < i ==> #[trigger] fresh_workspace(workspaces@[j], j),
            decreases count - i,
        {
            workspaces.push(Workspace::new(i));
            i = i + 1;
        }
        let res = WorkspaceManager { workspaces, active_index: 0 };
        res
    }

    /// The active workspace.
    pub fn active(&self) -> (res: &Workspace)
        ensures
            self.active_at() < self.spaces().len(),
            *res == self.spaces()[self.active_at() as int],
    {
        proof {
            use_type_invariant(self);
        }
        &self.workspaces[self.active_index]
    }

    /// Mutable access to the active workspace; the other workspaces and the
    /// active index stay as they are.
    pub fn active_mut(&mut self) -> (res: &mut Workspace)
        ensures
            old(self).active_at() < old(self).spaces().len(),
            *res == old(self).spaces()[old(self).active_at() as int],
            final(self).spaces() == old(self).spaces().update(
                old(self).active_at() as int,
                *final(res),
            ),
            final(self).active_at() == old(self).active_at(),
    {
        proof {
            use_type_invariant(&*self);
        }
        &mut self.workspaces[self.active_index]
    }

    /// Makes workspace `index` active. Returns `false`, changing nothing,
    /// when there is no such workspace; switching to the active workspace
    /// succeeds.
    pub fn switch_to(&mut self, index: usize) -> (res: bool)
        ensures
            final(self).active_at() < final(self).spaces().len(),
            res == (index < old(self).spaces().len()),
            final(self).spaces() == old(self).spaces(),
            final(self).active_at() == if res {
                index as nat
            } else {
                old(self).active_at()
            },
    {
        proof {
            use_type_invariant(&*self);
        }
        if index < self.workspaces.len() {
            self.active_index = index;
            true
        } else {
            false
        }
    }

    /// Moves `window` from the active workspace to the top of workspace
    /// `target`. Nothing changes when `target` does not exist or is the
    /// active workspace; otherwise the window is removed from the active
    /// workspace and pushed onto the target, whether or not it was on the
    /// active workspace.
    pub fn move_window_to(&mut self, window: &WindowId, target: usize)
        ensures
            final(self).active_at() < final(self).spaces().len(),
            final(self).active_at() == old(self).active_at(),
            final(self).spaces().len() == old(self).spaces().len(),
            ({
                let a = old(self).active_at() as int;
                if target >= old(self).spaces().len() || target == a {
                    final(self).spaces() == old(self).spaces()
                } else {
                    forall|i: int|
                        0 <= i < old(self).spaces().len() ==> {
                            &&& #[trigger] final(self).spaces()[i].id == old(self).spaces()[i].id
                            &&& final(self).spaces()[i].name == old(self).spaces()[i].name
                            &&& final(self).windows_of(i) == if i == a {
                                without(old(self).windows_of(i), *window)
                            } else if i == target {
                                old(self).windows_of(i).push(*window)
                            } else {
                                old(self).windows_of(i)
                            }
                        }
                }
            }),
    {
        proof {
            use_type_invariant(&*self);
        }
        if target >= self.workspaces.len() || target == self.active_index {
            return;
        }
        let w = *window;
        let a = self.active_index;
        self.workspaces[a].windows.remove(window);
        self.workspaces[target].windows.push(w);
    }

    /// The index of the active workspace.
    pub fn active_index(&self) -> (res: usize)
        ensures
            res == self.active_at(),
    {
        self.active_index
    }

    /// The number of workspaces.
    pub fn count(&self) -> (res: usize)
        ensures
            res == self.spaces().len(),
    {
        self.workspaces.len()
    }
}

} // verus!
