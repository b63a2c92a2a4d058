//! Windows that are raised because the cursor moved over them.
use crate::geometry::Frame;
use crate::ids::{SpaceId, WindowId, WindowServerId};
use crate::reactor::{Reactor, ReactorView};
use crate::state::{MenuState, WindowState};
use crate::surroundings::Surroundings;
use crate::table::{lookup, IdSet, Table};
use crate::text::text_is;
use vstd::prelude::*;

verus! {

/// How a window lies among those around it.
#[derive(Debug)]
pub struct Stacking {
    /// The windows that belong to it.
    pub associated_windows: Vec<WindowServerId>,
    /// The windows of its space, from the front to the back.
    pub front_to_back: Vec<u32>,
    /// The levels of windows.
    pub levels: Table<u32, i64>,
    /// The frames that its frame contains.
    pub contained_frames: IdSet<Frame>,
}

impl Stacking {
    pub open spec fn level(self, id: u32) -> Option<i64> {
        lookup(self.levels@, id)
    }

    fn level_of(&self, id: u32) -> (r: Option<i64>)
        ensures
            r == self.level(id),
    {
        match self.levels.get(id) {
            Some(level) => Some(*level),
            None => None,
        }
    }
}

/// The role of a sheet or a drawer.
pub open spec fn is_attached_role(role: Option<String>) -> bool {
    role matches Some(role) && (role@ == "AXSheet"@ || role@ == "AXDrawer"@)
}

impl ReactorView {
    /// The tracked window behind a window server id.
    pub open spec fn state_behind(self, wsid: WindowServerId) -> Option<WindowState> {
        match lookup(self.window_ids, wsid) {
            Some(window) => lookup(self.windows, window),
            None => None,
        }
    }

    /// A sheet or a drawer is open on the window.
    pub open spec fn has_attached_window(self, stacking: Stacking) -> bool {
        exists|i: int|
            0 <= i < stacking.associated_windows@.len() && self.is_attached(
                #[trigger] stacking.associated_windows@[i],
            )
    }

    pub open spec fn is_attached(self, wsid: WindowServerId) -> bool {
        self.state_behind(wsid) matches Some(state) && is_attached_role(state.ax_role)
    }

    /// To raise `candidate` would hide `id`: that is a floating window of the
    /// same level inside its frame.
    pub open spec fn would_hide(self, candidate: u32, id: u32, stacking: Stacking, env: Surroundings) -> bool {
        match lookup(self.window_ids, WindowServerId(id)) {
            Some(window) => match lookup(self.windows, window) {
                Some(state) => {
                    &&& env.is_floating(window)
                    &&& stacking.contained_frames@.contains(state.frame_monotonic)
                    &&& stacking.level(candidate) == stacking.level(id)
                },
                None => false,
            },
            None => false,
        }
    }

    /// Of the windows in front of `candidate`, one would be hidden.
    pub open spec fn would_hide_any(self, candidate: u32, stacking: Stacking, env: Surroundings) -> bool {
        exists|i: int|
            0 <= i < stacking.front_to_back@.len() && self.would_hide(
                candidate,
                #[trigger] stacking.front_to_back@[i],
                stacking,
                env,
            ) && !stacking.front_to_back@.take(i + 1).contains(candidate)
    }

    /// The window and its space, where it is managed, no menu is open and it
    /// is in the active workspace.
    pub open spec fn mouse_over_space(self, window: WindowId, env: Surroundings) -> Option<SpaceId> {
        match self.tracked_space(window, env) {
            Some(space) if self.is_standard(window) && !(self.menu is Open) && env.in_active_workspace(
                space,
                window,
            ) => Some(space),
            _ => None,
        }
    }

    /// The window is to be raised when the cursor moves over it.
    pub open spec fn raises_on_mouse_over(self, window: WindowId, stacking: Stacking, env: Surroundings) -> bool {
        &&& self.mouse_over_space(window, env) is Some
        &&& match self.server_id(window) {
            Some(wsid) => !self.has_attached_window(stacking) && !self.would_hide_any(wsid.0, stacking, env),
            None => true,
        }
    }
}

impl Reactor {
    /// The space whose stacking has to be known to decide about `wid`, where
    /// it may be raised at all.
    pub fn mouse_over_candidate(&self, wid: WindowId, env: &Surroundings) -> (r: Option<SpaceId>)
        ensures
            r == self@.mouse_over_space(wid, *env),
    {
        if !self.window_is_standard(wid) {
            return None;
        }
        if let MenuState::Open(_) = self.menu_manager.menu_state {
            return None;
        }
        match self.best_space_for_window_id(wid, env) {
            Some(space) => if env.is_window_in_active_workspace(space, wid) {
                Some(space)
            } else {
                None
            },
            None => None,
        }
    }

    fn has_sheet_or_drawer(&self, stacking: &Stacking) -> (r: bool)
        ensures
            r == self@.has_attached_window(*stacking),
    {
        let mut i: usize = 0;
        while i < stacking.associated_windows.len()
            invariant
                0 <= i <= stacking.associated_windows@.len(),
                forall|j: int| 0 <= j < i ==> !self@.is_attached(#[trigger] stacking.associated_windows@[j]),
            decreases stacking.associated_windows@.len() - i,
        {
            if let Some(child_wid) = self.window_manager.window_ids.get(stacking.associated_windows[i]) {
                if let Some(child_state) = self.window_manager.windows.get(*child_wid) {
                    if let Some(role) = &child_state.ax_role {
                        if text_is(role.as_str(), "AXSheet") || text_is(role.as_str(), "AXDrawer") {
                            assert(self@.is_attached(stacking.associated_windows@[i as int]));
                            return true;
                        }
                    }
                }
            }
            i += 1;
        }
        false
    }

    fn is_hidden_by_raise(&self, candidate: u32, id: u32, stacking: &Stacking, env: &Surroundings) -> (r: bool)
        ensures
            r == self@.would_hide(candidate, id, *stacking, *env),
    {
        let above_wid = match self.window_manager.window_ids.get(WindowServerId::new(id)) {
            Some(wid) => *wid,
            None => return false,
        };
        if !env.is_window_floating(above_wid) {
            return false;
        }
        let above_state = match self.window_manager.windows.get(above_wid) {
            Some(state) => state,
            None => return false,
        };
        if !stacking.contained_frames.contains(above_state.frame_monotonic) {
            return false;
        }
        stacking.level_of(candidate) == stacking.level_of(id)
    }

    /// Returns true if the window should be raised on mouse over considering
    /// active workspace membership and potential occlusion of other windows above it.
    pub fn should_raise_on_mouse_over(&self, wid: WindowId, stacking: &Stacking, env: &Surroundings) -> (r: bool)
        ensures
            r == self@.raises_on_mouse_over(wid, *stacking, *env),
    {
        if self.mouse_over_candidate(wid, env).is_none() {
            return false;
        }
        let candidate = match self.window_manager.windows.get(wid) {
            Some(window) => match window.window_server_id {
                Some(wsid) => wsid.as_u32(),
                None => return true,
            },
            None => return true,
        };
        if self.has_sheet_or_drawer(stacking) {
            return false;
        }
        let ghost order = stacking.front_to_back@;
        let mut i: usize = 0;
        while i < stacking.front_to_back.len()
            invariant
                order == stacking.front_to_back@,
                0 <= i <= order.len(),
                forall|j: int| 0 <= j < i ==> order[j] != candidate,
                forall|j: int| 0 <= j < i ==> !self@.would_hide(candidate, #[trigger] order[j], *stacking, *env),
                self@.mouse_over_space(wid, *env) is Some,
                self@.server_id(wid) == Some(WindowServerId(candidate)),
                !self@.has_attached_window(*stacking),
            decreases order.len() - i,
        {
            let above = stacking.front_to_back[i];
            if above == candidate {
                proof {
                    assert forall|k: int|
                        0 <= k < order.len() && self@.would_hide(candidate, #[trigger] order[k], *stacking, *env)
                        implies order.take(k + 1).contains(candidate) by {
                        assert(k >= i);
                        assert(order.take(k + 1)[i as int] == candidate);
                    }
                }
                return true;
            }
            if self.is_hidden_by_raise(candidate, above, stacking, env) {
                proof {
                    assert(self@.would_hide(candidate, order[i as int], *stacking, *env));
                    assert(!order.take(i + 1).contains(candidate));
                }
                return false;
            }
            i += 1;
        }
        true
    }
}

} // verus!
