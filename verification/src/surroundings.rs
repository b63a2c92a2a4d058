//! What the window server, the layout engine and the cursor look like at the
//! moment of a decision.
use crate::geometry::{Frame, PointProbe, ScreenRelation};
use crate::ids::{SpaceId, SpaceWindow, SpaceWorkspace, VirtualWorkspaceId, WindowId, WindowServerId};
use crate::reactor::ReactorView;
use crate::state::WindowServerInfo;
use crate::table::{lookup, IdSet, Table};
use vstd::prelude::*;

verus! {

/// How a workspace is called.
#[derive(Debug)]
pub struct WorkspaceTitle {
    /// The name that the layout engine has for it.
    pub name: Option<String>,
    /// Its identifier, as it is shown to developers.
    pub debug: String,
}

/// The answers of the services around the reactor.
///
/// A table that has no row for a question answers as the service does where it
/// knows nothing, but for `relations` and `workspace_titles`: every frame lies
/// to the screens in some way, and every workspace has an identifier. Without a
/// row there, a frame lies on no screen and a workspace is called by no
/// identifier, which is the answer of no service. `is_complete` says when these
/// tables have the rows that the reactor asks for.
#[derive(Debug)]
pub struct Surroundings {
    /// The spaces that the window server reports windows on.
    pub window_spaces: Table<WindowServerId, SpaceId>,
    pub window_under_cursor: Option<WindowServerId>,
    /// What the window server says of windows.
    pub server_windows: Table<WindowServerId, WindowServerInfo>,
    /// The space that the system has active.
    pub active_space: Option<SpaceId>,
    /// The spaces that a fullscreen window has to itself.
    pub fullscreen_spaces: IdSet<SpaceId>,
    /// Where the cursor is.
    pub cursor: Option<PointProbe>,
    /// How frames lie to the screens, in the order of the screens.
    pub relations: Table<Frame, Vec<ScreenRelation>>,
    /// The workspace that is active on each space.
    pub active_workspaces: Table<SpaceId, VirtualWorkspaceId>,
    pub active_workspace_indices: Table<SpaceId, u64>,
    pub workspace_titles: Table<SpaceWorkspace, WorkspaceTitle>,
    /// The workspace that a window is assigned to.
    pub window_workspaces: Table<SpaceWindow, VirtualWorkspaceId>,
    /// The windows that are in the active workspace of a space.
    pub active_members: IdSet<SpaceWindow>,
    /// The windows of the active workspace of each space, in their order.
    pub active_windows: Table<SpaceId, Vec<WindowId>>,
    /// The window of a workspace that had the focus last.
    pub last_focused: Table<SpaceWorkspace, WindowId>,
    pub floating_windows: IdSet<WindowId>,
}

impl Surroundings {
    /// It is known how `frame` lies to each of `n` screens.
    pub open spec fn relates(self, frame: Frame, n: int) -> bool {
        lookup(self.relations@, frame) matches Some(row) && row@.len() == n
    }

    /// Nothing is missing for a reactor in this state that is asked about
    /// `frames`: how these, the tracked windows and a dragged window lie to each
    /// screen, how the cursor does, and how each active workspace is called.
    pub open spec fn is_complete(self, state: ReactorView, frames: Seq<Frame>) -> bool {
        let n = state.screens.len() as int;
        &&& forall|i: int| 0 <= i < frames.len() ==> self.relates(#[trigger] frames[i], n)
        &&& forall|window: WindowId|
            match #[trigger] lookup(state.windows, window) {
                Some(known) => self.relates(known.frame_monotonic, n),
                None => true,
            }
        &&& state.session() matches Some(session) ==> self.relates(session.last_frame, n)
        &&& self.cursor matches Some(probe) ==> probe.contained@.len() == n && probe.distances@.len() == n
        &&& forall|space: SpaceId|
            match #[trigger] self.active_workspace(space) {
                Some(workspace) => lookup(self.workspace_titles@, SpaceWorkspace { space, workspace }) is Some,
                None => true,
            }
    }

    /// How `frame` lies to the screen at `i`.
    pub open spec fn relation(self, frame: Frame, i: int) -> ScreenRelation {
        match lookup(self.relations@, frame) {
            Some(row) if 0 <= i < row@.len() => row@[i],
            _ => ScreenRelation { contains_center: false, overlap: 0 },
        }
    }

    pub open spec fn active_workspace(self, space: SpaceId) -> Option<VirtualWorkspaceId> {
        lookup(self.active_workspaces@, space)
    }

    pub open spec fn workspace_of(self, space: SpaceId, window: WindowId) -> Option<VirtualWorkspaceId> {
        lookup(self.window_workspaces@, SpaceWindow { space, window })
    }

    pub open spec fn in_active_workspace(self, space: SpaceId, window: WindowId) -> bool {
        self.active_members@.contains(SpaceWindow { space, window })
    }

    pub open spec fn is_floating(self, window: WindowId) -> bool {
        self.floating_windows@.contains(window)
    }

    /// The windows of the active workspace of `space`.
    pub open spec fn windows_in(self, space: SpaceId) -> Seq<WindowId> {
        match lookup(self.active_windows@, space) {
            Some(windows) => windows@,
            None => Seq::empty(),
        }
    }

    /// The window of `space` that had the focus last in `workspace`.
    pub open spec fn last_focused_in(self, space: SpaceId, workspace: VirtualWorkspaceId) -> Option<WindowId> {
        lookup(self.last_focused@, SpaceWorkspace { space, workspace })
    }

    pub fn relation_to(&self, frame: &Frame, i: usize) -> (r: ScreenRelation)
        ensures
            r == self.relation(*frame, i as int),
    {
        match self.relations.get(*frame) {
            Some(row) => if i < row.len() {
                row[i]
            } else {
                ScreenRelation { contains_center: false, overlap: 0 }
            },
            None => ScreenRelation { contains_center: false, overlap: 0 },
        }
    }

    pub fn active_workspace_on(&self, space: SpaceId) -> (r: Option<VirtualWorkspaceId>)
        ensures
            r == self.active_workspace(space),
    {
        match self.active_workspaces.get(space) {
            Some(workspace) => Some(*workspace),
            None => None,
        }
    }

    pub fn workspace_for_window(&self, space: SpaceId, window: WindowId) -> (r: Option<VirtualWorkspaceId>)
        ensures
            r == self.workspace_of(space, window),
    {
        match self.window_workspaces.get(SpaceWindow { space, window }) {
            Some(workspace) => Some(*workspace),
            None => None,
        }
    }

    pub fn is_window_in_active_workspace(&self, space: SpaceId, window: WindowId) -> (r: bool)
        ensures
            r == self.in_active_workspace(space, window),
    {
        self.active_members.contains(SpaceWindow { space, window })
    }

    pub fn is_window_floating(&self, window: WindowId) -> (r: bool)
        ensures
            r == self.is_floating(window),
    {
        self.floating_windows.contains(window)
    }

    pub fn last_focused_window(&self, space: SpaceId, workspace: VirtualWorkspaceId) -> (r: Option<WindowId>)
        ensures
            r == self.last_focused_in(space, workspace),
    {
        match self.last_focused.get(SpaceWorkspace { space, workspace }) {
            Some(window) => Some(*window),
            None => None,
        }
    }
}

} // verus!
