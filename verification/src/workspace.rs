//! Snapshots of compositor workspaces.

use vstd::prelude::*;

verus! {

/// One workspace as the compositor reported it.
///
/// The engine only observes workspaces: the compositor creates and destroys
/// them, and `id` stays the same for as long as the workspace lives.
#[derive(Debug, PartialEq, Eq)]
pub struct Workspace {
    /// Identifier chosen by the compositor.
    pub id: u64,
    /// Name given in the compositor's configuration, if the workspace has one.
    pub name: Option<String>,
    /// Whether this is the workspace shown on its output.
    pub is_active: bool,
}

/// What a [`Workspace`] holds, with its name as a sequence of characters.
pub struct WorkspaceView {
    pub id: u64,
    pub name: Option<Seq<char>>,
    pub is_active: bool,
}

impl View for Workspace {
    type V = WorkspaceView;

    open spec fn view(&self) -> WorkspaceView {
        WorkspaceView {
            id: self.id,
            name: match self.name {
                Some(n) => Some(n@),
                None => None,
            },
            is_active: self.is_active,
        }
    }
}

impl DeepView for Workspace {
    type V = WorkspaceView;

    open spec fn deep_view(&self) -> WorkspaceView {
        self@
    }
}

impl Clone for Workspace {
    fn clone(&self) -> (copy: Self)
        ensures
            copy@ == self@,
    {
        Workspace {
            id: self.id,
            name: match &self.name {
                Some(n) => Some(n.clone()),
                None => None,
            },
            is_active: self.is_active,
        }
    }
}

impl Workspace {
    /// A workspace with the given identifier, name and active flag.
    pub fn new(id: u64, name: Option<String>, is_active: bool) -> (w: Workspace)
        ensures
            w.id == id,
            w.name == name,
            w.is_active == is_active,
    {
        Workspace { id, name, is_active }
    }
}

} // verus!
