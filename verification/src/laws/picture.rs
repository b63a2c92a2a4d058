//! What holds where the surroundings are complete.
use crate::geometry::Frame;
use crate::ids::{SpaceId, SpaceWorkspace, VirtualWorkspaceId, WindowId};
use crate::reactor::ReactorView;
use crate::surroundings::Surroundings;
use crate::table::lookup;
use vstd::prelude::*;

verus! {

/// `frame` is one of `frames`, or that of a tracked or a dragged window.
pub open spec fn is_asked_about(state: ReactorView, frames: Seq<Frame>, frame: Frame) -> bool {
    ||| frames.contains(frame)
    ||| exists|window: WindowId|
        #[trigger] lookup(state.windows, window) matches Some(known) && known.frame_monotonic == frame
    ||| state.session() matches Some(session) && session.last_frame == frame
}

/// Where nothing is missing, what the reactor takes for a frame's relation to a
/// screen is what the surroundings say of that screen, and the frame is on a
/// screen exactly where they say so of one.
pub proof fn law_frames_lie_as_told(state: ReactorView, env: Surroundings, frames: Seq<Frame>, frame: Frame)
    requires
        env.is_complete(state, frames),
        is_asked_about(state, frames, frame),
    ensures
        lookup(env.relations@, frame) matches Some(row) && {
            &&& row@.len() == state.screens.len()
            &&& forall|i: int| 0 <= i < row@.len() ==> #[trigger] env.relation(frame, i) == row@[i]
            &&& state.is_on_any_screen(frame, env) <==> exists|i: int|
                0 <= i < row@.len() && (#[trigger] row@[i]).contains_center
        },
{
    if frames.contains(frame) {
        let i = choose|i: int| 0 <= i < frames.len() && frames[i] == frame;
        assert(env.relates(frames[i], state.screens.len() as int));
    }
    assert(env.relates(frame, state.screens.len() as int));
    let row = lookup(env.relations@, frame)->0;
    if exists|i: int| 0 <= i < row@.len() && (#[trigger] row@[i]).contains_center {
        let i = choose|i: int| 0 <= i < row@.len() && (#[trigger] row@[i]).contains_center;
        assert(env.relation(frame, i).contains_center);
    }
    if state.is_on_any_screen(frame, env) {
        let i = choose|i: int| 0 <= i < state.screens.len() && (#[trigger] env.relation(frame, i)).contains_center;
        assert(row@[i].contains_center);
    }
}

/// Where nothing is missing, an active workspace is called by its own name, or
/// else by its identifier.
pub proof fn law_active_workspaces_have_names(
    state: ReactorView,
    env: Surroundings,
    frames: Seq<Frame>,
    space: SpaceId,
    workspace: VirtualWorkspaceId,
)
    requires
        env.is_complete(state, frames),
        env.active_workspace(space) == Some(workspace),
    ensures
        lookup(env.workspace_titles@, SpaceWorkspace { space, workspace }) matches Some(title)
            && state.workspace_name(space, workspace, env) == match title.name {
            Some(name) => name@,
            None => "Workspace "@ + title.debug@,
        },
{
}

/// A frame that nothing is known of lies on no screen, and covers none.
pub proof fn law_unknown_frames_lie_nowhere(env: Surroundings, frame: Frame, i: int)
    requires
        lookup(env.relations@, frame) is None,
    ensures
        !env.relation(frame, i).contains_center,
        env.relation(frame, i).overlap == 0,
{
}

} // verus!
