//! What the reactor asks the rest of the system to do.
use crate::geometry::{Frame, Point, Size};
use crate::ids::{pid_t, SpaceId, VirtualWorkspaceId, WindowId, WindowServerId};
use crate::state::{AppInfo, WindowServerInfo};
use vstd::prelude::*;

verus! {

/// A window and what it says of itself.
#[derive(Debug, PartialEq, Eq)]
pub struct TitledWindow {
    pub window: WindowId,
    pub title: Option<String>,
    pub ax_role: Option<String>,
    pub ax_subrole: Option<String>,
}

/// What the layout engine is told.
#[derive(Debug, PartialEq, Eq)]
pub enum LayoutEvent {
    WindowFocused(SpaceId, WindowId),
    WindowAdded(SpaceId, WindowId),
    WindowRemoved(WindowId),
    SpaceExposed(SpaceId, Size),
    WindowsOnScreenUpdated(SpaceId, pid_t, Vec<TitledWindow>, Option<AppInfo>),
}

/// A layout event with its windows as a sequence.
pub enum LayoutEventView {
    WindowFocused(SpaceId, WindowId),
    WindowAdded(SpaceId, WindowId),
    WindowRemoved(WindowId),
    SpaceExposed(SpaceId, Size),
    WindowsOnScreenUpdated(SpaceId, pid_t, Seq<TitledWindow>, Option<AppInfo>),
}

impl View for LayoutEvent {
    type V = LayoutEventView;

    open spec fn view(&self) -> LayoutEventView {
        match *self {
            LayoutEvent::WindowFocused(s, w) => LayoutEventView::WindowFocused(s, w),
            LayoutEvent::WindowAdded(s, w) => LayoutEventView::WindowAdded(s, w),
            LayoutEvent::WindowRemoved(w) => LayoutEventView::WindowRemoved(w),
            LayoutEvent::SpaceExposed(s, size) => LayoutEventView::SpaceExposed(s, size),
            LayoutEvent::WindowsOnScreenUpdated(s, pid, windows, app) => {
                LayoutEventView::WindowsOnScreenUpdated(s, pid, windows@, app)
            },
        }
    }
}

/// What the layout engine answers.
#[derive(Debug)]
pub struct EventResponse {
    pub raise_windows: Vec<WindowId>,
    pub focus_window: Option<WindowId>,
}

/// Windows to be raised.
#[derive(Debug, PartialEq, Eq)]
pub struct RaiseRequest {
    /// Groups of windows of one application on one space.
    pub raise_windows: Vec<Vec<WindowId>>,
    /// The window that gets the focus, and where the cursor is moved to.
    pub focus_window: Option<(WindowId, Option<Point>)>,
    /// The applications whose handles go with the request.
    pub apps: Vec<pid_t>,
}

/// A raise request with its windows as sequences.
#[verifier::ext_equal]
pub struct RaiseRequestView {
    pub raise_windows: Seq<Seq<WindowId>>,
    pub focus_window: Option<(WindowId, Option<Point>)>,
    pub apps: Seq<pid_t>,
}

/// Each group as a sequence.
pub open spec fn groups_view(groups: Seq<Vec<WindowId>>) -> Seq<Seq<WindowId>> {
    groups.map_values(|g: Vec<WindowId>| g@)
}

impl View for RaiseRequest {
    type V = RaiseRequestView;

    open spec fn view(&self) -> RaiseRequestView {
        RaiseRequestView {
            raise_windows: groups_view(self.raise_windows@),
            focus_window: self.focus_window,
            apps: self.apps@,
        }
    }
}

/// What an application is asked for.
#[derive(Clone, Copy, Debug, PartialEq, Eq, Structural)]
pub enum AppRequest {
    GetVisibleWindows { force_refresh: bool },
    CloseWindow(WindowId),
}

/// What the event tap is asked for.
#[derive(Clone, Copy, Debug, PartialEq, Eq, Structural)]
pub enum EventTapRequest {
    /// Move the cursor.
    Warp(Point),
    SetFocusFollowsMouseEnabled(bool),
}

/// What subscribers are told.
#[derive(Debug, PartialEq, Eq)]
pub enum BroadcastEvent {
    WorkspaceChanged {
        workspace_id: VirtualWorkspaceId,
        workspace_name: String,
        space_id: SpaceId,
        display_uuid: Option<String>,
    },
    WindowTitleChanged {
        window_id: WindowId,
        workspace_id: VirtualWorkspaceId,
        workspace_index: Option<u64>,
        workspace_name: String,
        previous_title: String,
        new_title: String,
        space_id: SpaceId,
        display_uuid: Option<String>,
    },
}

/// A broadcast with its texts as sequences.
pub enum BroadcastEventView {
    WorkspaceChanged {
        workspace_id: VirtualWorkspaceId,
        workspace_name: Seq<char>,
        space_id: SpaceId,
        display_uuid: Option<Seq<char>>,
    },
    WindowTitleChanged {
        window_id: WindowId,
        workspace_id: VirtualWorkspaceId,
        workspace_index: Option<u64>,
        workspace_name: Seq<char>,
        previous_title: Seq<char>,
        new_title: Seq<char>,
        space_id: SpaceId,
        display_uuid: Option<Seq<char>>,
    },
}

pub open spec fn text_view(text: Option<String>) -> Option<Seq<char>> {
    match text {
        Some(text) => Some(text@),
        None => None,
    }
}

impl View for BroadcastEvent {
    type V = BroadcastEventView;

    open spec fn view(&self) -> BroadcastEventView {
        match *self {
            BroadcastEvent::WorkspaceChanged { workspace_id, workspace_name, space_id, display_uuid } => {
                BroadcastEventView::WorkspaceChanged {
                    workspace_id,
                    workspace_name: workspace_name@,
                    space_id,
                    display_uuid: text_view(display_uuid),
                }
            },
            BroadcastEvent::WindowTitleChanged {
                window_id,
                workspace_id,
                workspace_index,
                workspace_name,
                previous_title,
                new_title,
                space_id,
                display_uuid,
            } => BroadcastEventView::WindowTitleChanged {
                window_id,
                workspace_id,
                workspace_index,
                workspace_name: workspace_name@,
                previous_title: previous_title@,
                new_title: new_title@,
                space_id,
                display_uuid: text_view(display_uuid),
            },
        }
    }
}

/// Which layout update is asked for.
#[derive(Clone, Copy, Debug, PartialEq, Eq, Structural)]
pub struct LayoutUpdate {
    pub is_resize: bool,
    pub is_workspace_switch: bool,
}

/// A window to be put into a workspace by the rules for its application.
#[derive(Debug, PartialEq, Eq)]
pub struct RuleAssignment {
    pub window: WindowId,
    pub space: SpaceId,
    pub bundle_id: Option<String>,
    pub app_name: Option<String>,
    pub title: Option<String>,
    pub ax_role: Option<String>,
    pub ax_subrole: Option<String>,
}

/// Something to be done, in its turn.
#[derive(Debug, PartialEq, Eq)]
pub enum Task {
    /// Hand an event to the layout engine and its answer to the reactor.
    SendLayoutEvent(LayoutEvent),
    /// Have the layout engine set up the workspaces of a space.
    ListWorkspaces(SpaceId),
    /// Put a window into a workspace.
    AssignWindow { space: SpaceId, window: WindowId, workspace: VirtualWorkspaceId },
    AssignWindowByRules(RuleAssignment),
    /// Have the layout engine remember where floating windows are.
    StoreFloatingPositions { space: SpaceId, positions: Vec<(WindowId, Frame)> },
    /// Have the layout engine switch to a workspace, and hand its answer to the reactor.
    SwitchToWorkspace { space: SpaceId, index: usize },
    UpdateLayout(LayoutUpdate),
    SendToApp(pid_t, AppRequest),
    /// Ask an application for all its windows, and tell the reactor whether
    /// the request could be sent.
    RefreshApp(pid_t),
    SendToEventTap(EventTapRequest),
    SendMenuUpdate,
    Broadcast(BroadcastEvent),
    /// Note that a window has just been dealt with.
    MarkRecent(WindowServerId),
    AwaitFullscreenTransition,
    SleepMillis(u64),
    /// Have the window server notify about these windows and no others.
    WatchWindows(Vec<u32>),
    /// Put the manageability queries of a complete list of the visible
    /// windows, and hand the list and the answers to the reactor.
    UpdateWindowServerInfo(Vec<WindowServerInfo>),
    /// Come back to the reactor.
    Resume(Step),
}

/// Where the reactor is come back to.
#[derive(Debug, PartialEq, Eq)]
pub enum Step {
    /// Give the focus back on a space.
    RequestRefocus(SpaceId),
    UpdateFocusFollowsMouse,
    /// Put a window into the workspace that is active on a space.
    PlaceInActiveWorkspace(SpaceId, WindowId),
    ApplySpaces(Vec<Option<SpaceId>>, Vec<WindowServerInfo>),
    ClearChangingScreens,
    FocusMainWindow,
    CheckForNewWindows,
    AnnounceWorkspace(Option<SpaceId>),
}

/// A task with its lists as sequences.
pub enum TaskView {
    SendLayoutEvent(LayoutEventView),
    ListWorkspaces(SpaceId),
    AssignWindow { space: SpaceId, window: WindowId, workspace: VirtualWorkspaceId },
    AssignWindowByRules(RuleAssignment),
    StoreFloatingPositions { space: SpaceId, positions: Seq<(WindowId, Frame)> },
    SwitchToWorkspace { space: SpaceId, index: usize },
    UpdateLayout(LayoutUpdate),
    SendToApp(pid_t, AppRequest),
    RefreshApp(pid_t),
    SendToEventTap(EventTapRequest),
    SendMenuUpdate,
    Broadcast(BroadcastEventView),
    MarkRecent(WindowServerId),
    AwaitFullscreenTransition,
    SleepMillis(u64),
    WatchWindows(Seq<u32>),
    UpdateWindowServerInfo(Seq<WindowServerInfo>),
    Resume(StepView),
}

/// A step with its lists as sequences.
pub enum StepView {
    RequestRefocus(SpaceId),
    UpdateFocusFollowsMouse,
    PlaceInActiveWorkspace(SpaceId, WindowId),
    ApplySpaces(Seq<Option<SpaceId>>, Seq<WindowServerInfo>),
    ClearChangingScreens,
    FocusMainWindow,
    CheckForNewWindows,
    AnnounceWorkspace(Option<SpaceId>),
}

impl View for Step {
    type V = StepView;

    open spec fn view(&self) -> StepView {
        match *self {
            Step::RequestRefocus(space) => StepView::RequestRefocus(space),
            Step::UpdateFocusFollowsMouse => StepView::UpdateFocusFollowsMouse,
            Step::PlaceInActiveWorkspace(space, window) => StepView::PlaceInActiveWorkspace(space, window),
            Step::ApplySpaces(spaces, info) => StepView::ApplySpaces(spaces@, info@),
            Step::ClearChangingScreens => StepView::ClearChangingScreens,
            Step::FocusMainWindow => StepView::FocusMainWindow,
            Step::CheckForNewWindows => StepView::CheckForNewWindows,
            Step::AnnounceWorkspace(space) => StepView::AnnounceWorkspace(space),
        }
    }
}

impl View for Task {
    type V = TaskView;

    open spec fn view(&self) -> TaskView {
        match *self {
            Task::SendLayoutEvent(event) => TaskView::SendLayoutEvent(event@),
            Task::ListWorkspaces(space) => TaskView::ListWorkspaces(space),
            Task::AssignWindow { space, window, workspace } => {
                TaskView::AssignWindow { space, window, workspace }
            },
            Task::AssignWindowByRules(assignment) => TaskView::AssignWindowByRules(assignment),
            Task::StoreFloatingPositions { space, positions } => {
                TaskView::StoreFloatingPositions { space, positions: positions@ }
            },
            Task::SwitchToWorkspace { space, index } => TaskView::SwitchToWorkspace { space, index },
            Task::UpdateLayout(update) => TaskView::UpdateLayout(update),
            Task::SendToApp(pid, request) => TaskView::SendToApp(pid, request),
            Task::RefreshApp(pid) => TaskView::RefreshApp(pid),
            Task::SendMenuUpdate => TaskView::SendMenuUpdate,
            Task::SendToEventTap(request) => TaskView::SendToEventTap(request),
            Task::Broadcast(event) => TaskView::Broadcast(event@),
            Task::MarkRecent(wsid) => TaskView::MarkRecent(wsid),
            Task::AwaitFullscreenTransition => TaskView::AwaitFullscreenTransition,
            Task::SleepMillis(millis) => TaskView::SleepMillis(millis),
            Task::WatchWindows(ids) => TaskView::WatchWindows(ids@),
            Task::UpdateWindowServerInfo(info) => TaskView::UpdateWindowServerInfo(info@),
            Task::Resume(step) => TaskView::Resume(step@),
        }
    }
}

/// A list of tasks as a sequence.
pub open spec fn tasks_view(tasks: Seq<Task>) -> Seq<TaskView> {
    tasks.map_values(|t: Task| t@)
}

pub broadcast proof fn lemma_tasks_push(tasks: Seq<Task>, t: Task)
    ensures
        #[trigger] tasks_view(tasks.push(t)) == tasks_view(tasks).push(t@),
{
    assert(tasks_view(tasks.push(t)) =~= tasks_view(tasks).push(t@));
}

pub broadcast proof fn lemma_tasks_add(a: Seq<Task>, b: Seq<Task>)
    ensures
        #[trigger] tasks_view(a + b) == tasks_view(a) + tasks_view(b),
{
    assert(tasks_view(a + b) =~= tasks_view(a) + tasks_view(b));
}

pub broadcast proof fn lemma_tasks_empty()
    ensures
        #[trigger] tasks_view(Seq::<Task>::empty()) == Seq::<TaskView>::empty(),
{
    assert(tasks_view(Seq::<Task>::empty()) =~= Seq::<TaskView>::empty());
}

pub broadcast group group_tasks {
    lemma_tasks_push,
    lemma_tasks_add,
    lemma_tasks_empty,
}

} // verus!
