//! Menus, Mission Control and the focus that follows the mouse.
use crate::reactor::{Reactor, ReactorView};
use crate::requests::{EventTapRequest, LayoutUpdate, Task, TaskView};
use crate::state::{MenuState, MissionControlState};
use vstd::prelude::*;

verus! {

impl ReactorView {
    /// The focus may follow the mouse: no menu is open and Mission Control is not shown.
    pub open spec fn mouse_may_focus(self) -> bool {
        self.menu is Closed && !(self.mission_control is Active)
    }

    /// What tells the event tap whether the focus follows the mouse, where there is one.
    pub open spec fn mouse_focus_task(self, enabled: bool) -> Option<TaskView> {
        if self.has_event_tap {
            Some(TaskView::SendToEventTap(EventTapRequest::SetFocusFollowsMouseEnabled(enabled)))
        } else {
            None
        }
    }
}

/// A task that may be missing, as a value.
pub open spec fn task_view(task: Option<Task>) -> Option<TaskView> {
    match task {
        Some(task) => Some(task@),
        None => None,
    }
}

impl Reactor {
    pub fn is_mission_control_active(&self) -> (r: bool)
        ensures
            r == (self@.mission_control is Active),
    {
        self.mission_control_manager.mission_control_state == MissionControlState::Active
    }

    /// What tells the event tap whether the focus follows the mouse.
    pub fn set_focus_follows_mouse_enabled(&self, enabled: bool) -> (r: Option<Task>)
        ensures
            task_view(r) == self@.mouse_focus_task(enabled),
    {
        if self.communication_manager.has_event_tap {
            Some(Task::SendToEventTap(EventTapRequest::SetFocusFollowsMouseEnabled(enabled)))
        } else {
            None
        }
    }

    /// Lets the focus follow the mouse unless a menu is open or Mission
    /// Control is shown.
    pub fn update_focus_follows_mouse_state(&self) -> (r: Option<Task>)
        ensures
            task_view(r) == self@.mouse_focus_task(self@.mouse_may_focus()),
    {
        let should_enable = self.menu_manager.menu_state == MenuState::Closed
            && !self.is_mission_control_active();
        self.set_focus_follows_mouse_enabled(should_enable)
    }

    /// Notes that Mission Control is shown or not, and tells the event tap
    /// where that is new.
    pub fn set_mission_control_active(&mut self, active: bool) -> (r: Option<Task>)
        ensures
            if (old(self)@.mission_control is Active) == active {
                final(self)@ == old(self)@ && r is None
            } else {
                &&& final(self)@ == (ReactorView {
                    mission_control: if active {
                        MissionControlState::Active
                    } else {
                        MissionControlState::Inactive
                    },
                    ..old(self)@
                })
                &&& task_view(r) == final(self)@.mouse_focus_task(final(self)@.mouse_may_focus())
            },
    {
        if self.is_mission_control_active() == active {
            return None;
        }
        self.mission_control_manager.mission_control_state = if active {
            MissionControlState::Active
        } else {
            MissionControlState::Inactive
        };
        self.update_focus_follows_mouse_state()
    }

    /// What brings the windows to where the layout has them.
    pub fn update_layout(&self, is_resize: bool, is_workspace_switch: bool) -> (r: Task)
        ensures
            r@ == TaskView::UpdateLayout(LayoutUpdate { is_resize, is_workspace_switch }),
    {
        Task::UpdateLayout(LayoutUpdate { is_resize, is_workspace_switch })
    }
}

} // verus!
