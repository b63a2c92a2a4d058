//! Changes of the spaces that the screens show.
use crate::ids::{pid_t, ScreenId, SpaceId};
use crate::reactor::{Reactor, ReactorView};
use crate::requests::{group_tasks, tasks_view, AppRequest, BroadcastEvent, BroadcastEventView, LayoutEvent};
use crate::requests::{LayoutEventView, LayoutUpdate, Step, StepView, Task, TaskView};
use crate::state::{FullscreenTrack, PendingSpaceChange, RefocusState, Screen, StaleCleanupState, WindowServerInfo};
use crate::surroundings::Surroundings;
use crate::table::{lookup, put, without};
use vstd::prelude::*;

verus! {

broadcast use group_tasks;

/// The spaces that are managed while fullscreen ones are left alone.
pub open spec fn masked(spaces: Seq<Option<SpaceId>>, env: Surroundings) -> Seq<Option<SpaceId>> {
    spaces.map_values(|s: Option<SpaceId>| mask(s, env))
}

pub open spec fn mask(space: Option<SpaceId>, env: Surroundings) -> Option<SpaceId> {
    match space {
        Some(space) if env.fullscreen_spaces@.contains(space) => None,
        _ => space,
    }
}

/// There are screens, and each shows a fullscreen space.
pub open spec fn all_fullscreen(spaces: Seq<Option<SpaceId>>, env: Surroundings) -> bool {
    &&& spaces.len() > 0
    &&& forall|i: int|
        0 <= i < spaces.len() ==> ((#[trigger] spaces[i]) matches Some(space)
            && env.fullscreen_spaces@.contains(space))
}

/// The spaces that are named in `spaces`, in their order.
pub open spec fn named_spaces(spaces: Seq<Option<SpaceId>>) -> Seq<SpaceId>
    decreases spaces.len(),
{
    if spaces.len() == 0 {
        Seq::empty()
    } else {
        match spaces.last() {
            Some(space) => named_spaces(spaces.drop_last()).push(space),
            None => named_spaces(spaces.drop_last()),
        }
    }
}

/// The first space that is named in `spaces`.
pub open spec fn first_named(spaces: Seq<Option<SpaceId>>) -> Option<SpaceId> {
    if named_spaces(spaces).len() > 0 {
        Some(named_spaces(spaces)[0])
    } else {
        None
    }
}

/// What stands under none of `spaces`.
pub open spec fn without_all<V>(table: Seq<(SpaceId, V)>, spaces: Seq<SpaceId>) -> Seq<(SpaceId, V)>
    decreases spaces.len(),
{
    if spaces.len() == 0 {
        table
    } else {
        without(without_all(table, spaces.drop_last()), spaces.last())
    }
}

/// The screens with the spaces that are listed for them.
pub open spec fn with_spaces(screens: Seq<Screen>, spaces: Seq<Option<SpaceId>>) -> Seq<Screen> {
    Seq::new(
        screens.len(),
        |i: int|
            if i < spaces.len() {
                Screen { space: spaces[i], ..screens[i] }
            } else {
                screens[i]
            },
    )
}

/// The spaces last known for screens, once `screens` have been looked at: a
/// screen that shows a space has that one, and one that shows none has none.
pub open spec fn screen_spaces_after(map: Seq<(ScreenId, SpaceId)>, screens: Seq<Screen>) -> Seq<
    (ScreenId, SpaceId),
>
    decreases screens.len(),
{
    if screens.len() == 0 {
        map
    } else {
        let before = screen_spaces_after(map, screens.drop_last());
        match screens.last().space {
            Some(space) => put(before, screens.last().screen_id, space),
            None => without(before, screens.last().screen_id),
        }
    }
}

/// One of `screens` is `id`.
pub open spec fn is_screen(screens: Seq<Screen>, id: ScreenId) -> bool {
    exists|i: int| 0 <= i < screens.len() && (#[trigger] screens[i]).screen_id == id
}

/// Only what is known of `screens`.
pub open spec fn only_screens(map: Seq<(ScreenId, SpaceId)>, screens: Seq<Screen>) -> Seq<(ScreenId, SpaceId)> {
    map.filter(|e: (ScreenId, SpaceId)| is_screen(screens, e.0))
}

impl ReactorView {
    /// Those of `pids` that are known, as requests for all their windows.
    pub open spec fn relist_tasks(self, pids: Seq<pid_t>) -> Seq<TaskView> {
        pids.filter(|p: pid_t| lookup(self.apps, p) is Some).map_values(
            |p: pid_t| TaskView::SendToApp(p, AppRequest::GetVisibleWindows { force_refresh: true }),
        )
    }

    /// What is done when `space` is shown again after a fullscreen window
    /// left it: once the transition is over, its applications list their
    /// windows, the focus is given back, and the layout is updated.
    pub open spec fn restore_tasks(self, space: SpaceId, pids: Seq<pid_t>) -> Seq<TaskView> {
        seq![TaskView::AwaitFullscreenTransition, TaskView::SleepMillis(50)] + self.relist_tasks(pids) + seq![
            TaskView::Resume(StepView::RequestRefocus(space)),
            TaskView::UpdateLayout(LayoutUpdate { is_resize: false, is_workspace_switch: false }),
            TaskView::Resume(StepView::UpdateFocusFollowsMouse),
        ]
    }

    /// What is done about `spaces` that are shown: each that had fullscreen
    /// windows is restored, once.
    pub open spec fn all_restore_tasks(self, spaces: Seq<SpaceId>) -> Seq<TaskView>
        decreases spaces.len(),
    {
        if spaces.len() == 0 {
            Seq::empty()
        } else {
            let before = spaces.drop_last();
            self.all_restore_tasks(before) + match lookup(without_all(self.fullscreen, before), spaces.last()) {
                Some(track) => self.restore_tasks(spaces.last(), track.pids@),
                None => Seq::empty(),
            }
        }
    }

    /// The state with the spaces of the screens as listed, and the last known
    /// spaces brought up to date.
    pub open spec fn with_screen_spaces(self, spaces: Seq<Option<SpaceId>>) -> ReactorView {
        (ReactorView { screens: with_spaces(self.screens, spaces), ..self }).with_screen_map()
    }

    pub open spec fn with_screen_map(self) -> ReactorView {
        ReactorView {
            screen_spaces: only_screens(
                screen_spaces_after(self.screen_spaces, self.screens),
                self.screens,
            ),
            ..self
        }
    }

    /// What exposes the spaces of the first `n` screens.
    pub open spec fn expose_tasks(self, n: int) -> Seq<TaskView>
        decreases n,
    {
        if n <= 0 {
            Seq::empty()
        } else {
            self.expose_tasks(n - 1) + match self.space_at(n - 1) {
                Some(space) => seq![
                    TaskView::ListWorkspaces(space),
                    TaskView::SendLayoutEvent(
                        LayoutEventView::SpaceExposed(space, self.screens[n - 1].frame.size),
                    ),
                ],
                None => Seq::empty(),
            }
        }
    }

    /// What is done after the screens show other spaces.
    pub open spec fn space_change_tasks(self, spaces: Seq<Option<SpaceId>>, info: Seq<WindowServerInfo>) -> Seq<
        TaskView,
    > {
        self.expose_tasks(self.screens.len() as int) + seq![
            TaskView::Resume(StepView::ClearChangingScreens),
            TaskView::Resume(StepView::FocusMainWindow),
            TaskView::UpdateWindowServerInfo(info),
            TaskView::Resume(StepView::CheckForNewWindows),
            TaskView::Resume(StepView::AnnounceWorkspace(first_named(spaces))),
        ]
    }

    /// The cleanup of stale windows while the screens show `spaces`: it is
    /// suppressed where none of them is managed.
    pub open spec fn cleanup_for(self, spaces: Seq<Option<SpaceId>>) -> StaleCleanupState {
        if named_spaces(spaces).len() == 0 {
            StaleCleanupState::Suppressed
        } else {
            StaleCleanupState::Enabled
        }
    }

    /// What gives the focus to the main window, where it is on a space.
    pub open spec fn main_focus_tasks(self, env: Surroundings) -> Seq<TaskView> {
        match (self.main_window, self.main_space(env)) {
            (Some(window), Some(space)) => seq![
                TaskView::SendLayoutEvent(LayoutEventView::WindowFocused(space, window)),
            ],
            _ => Seq::empty(),
        }
    }

    /// What tells subscribers of the active workspace of `space`.
    pub open spec fn announcement(self, space: Option<SpaceId>, env: Surroundings) -> Seq<TaskView> {
        match space {
            Some(space) => match env.active_workspace(space) {
                Some(workspace) => seq![
                    TaskView::Broadcast(
                        BroadcastEventView::WorkspaceChanged {
                            workspace_id: workspace,
                            workspace_name: self.workspace_name(space, workspace, env),
                            space_id: space,
                            display_uuid: self.display_uuid(space),
                        },
                    ),
                ],
                None => Seq::empty(),
            },
            None => Seq::empty(),
        }
    }

    /// The state after a step, and what is to be done then.
    pub open spec fn step(self, step: StepView, env: Surroundings) -> (ReactorView, Seq<TaskView>) {
        match step {
            StepView::RequestRefocus(space) => (
                ReactorView { refocus: RefocusState::Pending(space), ..self },
                Seq::empty(),
            ),
            StepView::UpdateFocusFollowsMouse => (
                self,
                match self.mouse_focus_task(self.mouse_may_focus()) {
                    Some(task) => seq![task],
                    None => Seq::empty(),
                },
            ),
            StepView::PlaceInActiveWorkspace(space, window) => (
                self,
                match env.active_workspace(space) {
                    Some(workspace) => seq![TaskView::AssignWindow { space, window, workspace }],
                    None => Seq::empty(),
                },
            ),
            StepView::ApplySpaces(spaces, info) => {
                let shown = self.with_screen_spaces(spaces);
                (
                    ReactorView { stale_cleanup: self.cleanup_for(spaces), ..shown },
                    shown.space_change_tasks(spaces, info),
                )
            },
            StepView::ClearChangingScreens => (
                ReactorView { changing: Seq::empty(), ..self },
                Seq::empty(),
            ),
            StepView::FocusMainWindow => (self, self.main_focus_tasks(env)),
            StepView::CheckForNewWindows => (self, self.list_windows_tasks()),
            StepView::AnnounceWorkspace(space) => (self, self.announcement(space, env)),
        }
    }
}

impl Reactor {
    /// Notes which spaces are managed.
    pub fn set_active_spaces(&mut self, spaces: &Vec<Option<SpaceId>>)
        ensures
            forall|s: SpaceId| #[trigger] final(self)@.active_spaces.contains(s) <==> spaces@.contains(Some(s)),
            final(self)@ == (ReactorView { active_spaces: final(self)@.active_spaces, ..old(self)@ }),
            final(self)@.active_spaces.no_duplicates(),
    {
        self.active_spaces.clear();
        let mut i: usize = 0;
        while i < spaces.len()
            invariant
                0 <= i <= spaces@.len(),
                self@ == (ReactorView { active_spaces: self@.active_spaces, ..old(self)@ }),
                self@.active_spaces.no_duplicates(),
                forall|s: SpaceId| #[trigger] self@.active_spaces.contains(s) <==> exists|j: int|
                    0 <= j < i && #[trigger] spaces@[j] == Some(s),
            decreases spaces@.len() - i,
        {
            let ghost before = self@.active_spaces;
            if let Some(space) = spaces[i] {
                self.active_spaces.insert(space);
                proof {
                    assert forall|s: SpaceId| #[trigger] self@.active_spaces.contains(s) <==> exists|j: int|
                        0 <= j < i + 1 && #[trigger] spaces@[j] == Some(s) by {
                        crate::table::lemma_with_item(before, space, s);
                        assert(before.contains(s) <==> exists|j: int|
                            0 <= j < i && #[trigger] spaces@[j] == Some(s));
                        if s == space {
                            assert(spaces@[i as int] == Some(s));
                        }
                    }
                }
            }
            i += 1;
        }
    }

    pub fn is_space_active(&self, space: SpaceId) -> (r: bool)
        ensures
            r == self@.active_spaces.contains(space),
    {
        self.active_spaces.contains(space)
    }

    fn request_lists(&self, pids: &Vec<pid_t>) -> (r: Vec<Task>)
        ensures
            tasks_view(r@) == self@.relist_tasks(pids@),
    {
        let ghost f = |p: pid_t| lookup(self@.apps, p) is Some;
        let ghost g = |p: pid_t|
            TaskView::SendToApp(p, AppRequest::GetVisibleWindows { force_refresh: true });
        let mut tasks: Vec<Task> = Vec::new();
        let mut i: usize = 0;
        proof {
            assert(pids@.take(0).filter(f) =~= Seq::empty()) by {
                reveal_with_fuel(Seq::filter, 1);
            }
            assert(tasks_view(tasks@) =~= pids@.take(0).filter(f).map_values(g));
        }
        while i < pids.len()
            invariant
                0 <= i <= pids@.len(),
                f == (|p: pid_t| lookup(self@.apps, p) is Some),
                g == (|p: pid_t|
                    TaskView::SendToApp(p, AppRequest::GetVisibleWindows { force_refresh: true })),
                tasks_view(tasks@) == pids@.take(i as int).filter(f).map_values(g),
            decreases pids@.len() - i,
        {
            let ghost before = pids@.take(i as int).filter(f);
            proof {
                assert(pids@.take(i + 1).drop_last() =~= pids@.take(i as int));
                reveal_with_fuel(Seq::filter, 1);
            }
            let pid = pids[i];
            if self.app_manager.apps.contains_key(pid) {
                tasks.push(Task::SendToApp(pid, AppRequest::GetVisibleWindows { force_refresh: true }));
                proof {
                    assert(f(pid));
                    assert(tasks_view(tasks@) =~= before.push(pid).map_values(g));
                }
            }
            i += 1;
        }
        proof {
            assert(pids@.take(i as int) =~= pids@);
        }
        tasks
    }

    fn restore_space(&self, space: SpaceId, track: &FullscreenTrack) -> (r: Vec<Task>)
        ensures
            tasks_view(r@) == self@.restore_tasks(space, track.pids@),
    {
        let mut tasks: Vec<Task> = Vec::new();
        tasks.push(Task::AwaitFullscreenTransition);
        tasks.push(Task::SleepMillis(50));
        let ghost head = tasks_view(tasks@);
        proof {
            assert(head =~= seq![TaskView::AwaitFullscreenTransition, TaskView::SleepMillis(50)]);
        }
        let mut lists = self.request_lists(&track.pids.items);
        tasks.append(&mut lists);
        let ghost middle = tasks_view(tasks@);
        tasks.push(Task::Resume(Step::RequestRefocus(space)));
        tasks.push(self.update_layout(false, false));
        tasks.push(Task::Resume(Step::UpdateFocusFollowsMouse));
        proof {
            assert(tasks_view(tasks@) =~= middle + seq![
                TaskView::Resume(StepView::RequestRefocus(space)),
                TaskView::UpdateLayout(LayoutUpdate { is_resize: false, is_workspace_switch: false }),
                TaskView::Resume(StepView::UpdateFocusFollowsMouse),
            ]);
        }
        tasks
    }

    /// Leaves fullscreen spaces alone, and restores those that are shown again.
    /// Returns true where nothing but fullscreen spaces is shown.
    pub fn handle_fullscreen_space_transition(
        &mut self,
        spaces: &mut Vec<Option<SpaceId>>,
        env: &Surroundings,
    ) -> (r: (bool, Vec<Task>))
        ensures
            final(spaces)@ == masked(old(spaces)@, *env),
            r.0 == all_fullscreen(old(spaces)@, *env),
            ({
                let shown = named_spaces(masked(old(spaces)@, *env));
                if r.0 {
                    r.1@.len() == 0 && final(self)@ == old(self)@
                } else {
                    &&& tasks_view(r.1@) == old(self)@.all_restore_tasks(shown)
                    &&& final(self)@ == (ReactorView {
                        fullscreen: without_all(old(self)@.fullscreen, shown),
                        ..old(self)@
                    })
                }
            }),
    {
        let ghost listed = spaces@;
        let mut all = spaces.len() > 0;
        let mut refresh_spaces: Vec<SpaceId> = Vec::new();
        let mut i: usize = 0;
        proof {
            assert(masked(listed, *env).take(0) =~= Seq::empty());
        }
        while i < spaces.len()
            invariant
                0 <= i <= spaces@.len(),
                spaces@.len() == listed.len(),
                forall|j: int| i <= j < listed.len() ==> spaces@[j] == listed[j],
                forall|j: int| 0 <= j < i ==> spaces@[j] == mask(listed[j], *env),
                refresh_spaces@ == named_spaces(masked(listed, *env).take(i as int)),
                all == (listed.len() > 0 && forall|j: int|
                    0 <= j < i ==> ((#[trigger] listed[j]) matches Some(space)
                        && env.fullscreen_spaces@.contains(space))),
            decreases listed.len() - i,
        {
            proof {
                assert(masked(listed, *env).take(i + 1).drop_last() =~= masked(listed, *env).take(i as int));
            }
            match spaces[i] {
                Some(space) => {
                    if env.fullscreen_spaces.contains(space) {
                        spaces[i] = None;
                    } else {
                        all = false;
                        assert(!(listed[i as int] matches Some(space)
                            && env.fullscreen_spaces@.contains(space)));
                        refresh_spaces.push(space);
                    }
                },
                None => {
                    all = false;
                    assert(!(listed[i as int] matches Some(space) && env.fullscreen_spaces@.contains(space)));
                },
            }
            i += 1;
        }
        proof {
            assert(spaces@ =~= masked(listed, *env));
            assert(masked(listed, *env).take(i as int) =~= masked(listed, *env));
        }
        let mut tasks: Vec<Task> = Vec::new();
        if all {
            return (true, tasks);
        }
        let ghost shown = refresh_spaces@;
        let ghost before = self@;
        let mut k: usize = 0;
        proof {
            assert(shown.take(0) =~= Seq::empty());
        }
        while k < refresh_spaces.len()
            invariant
                shown == refresh_spaces@,
                0 <= k <= shown.len(),
                tasks_view(tasks@) == before.all_restore_tasks(shown.take(k as int)),
                self@ == (ReactorView {
                    fullscreen: without_all(before.fullscreen, shown.take(k as int)),
                    ..before
                }),
            decreases shown.len() - k,
        {
            proof {
                assert(shown.take(k + 1).drop_last() =~= shown.take(k as int));
            }
            let space = refresh_spaces[k];
            let ghost now = self@;
            if let Some(track) = self.space_manager.fullscreen_by_space.get(space) {
                let mut restore = self.restore_space(space, track);
                proof {
                    assert(now.relist_tasks(track.pids@) == before.relist_tasks(track.pids@));
                }
                tasks.append(&mut restore);
            } else {
                proof {
                    assert(tasks_view(tasks@) + Seq::<TaskView>::empty() =~= tasks_view(tasks@));
                }
            }
            self.space_manager.fullscreen_by_space.remove(space);
            k += 1;
        }
        proof {
            assert(shown.take(k as int) =~= shown);
        }
        (false, tasks)
    }

    /// Notes which spaces the screens show.
    pub fn set_screen_spaces(&mut self, spaces: &Vec<Option<SpaceId>>)
        ensures
            final(self)@ == old(self)@.with_screen_spaces(spaces@),
    {
        let ghost screens = self@.screens;
        let mut i: usize = 0;
        while i < self.space_manager.screens.len() && i < spaces.len()
            invariant
                0 <= i <= screens.len(),
                i <= spaces@.len(),
                self@.screens.len() == screens.len(),
                self@ == (ReactorView { screens: self@.screens, ..old(self)@ }),
                screens == old(self)@.screens,
                forall|j: int| 0 <= j < i ==> #[trigger] self@.screens[j] == (Screen {
                    space: spaces@[j],
                    ..screens[j]
                }),
                forall|j: int| i <= j < screens.len() ==> #[trigger] self@.screens[j] == screens[j],
            decreases screens.len() - i,
        {
            self.space_manager.screens[i].space = spaces[i];
            i += 1;
        }
        proof {
            assert(self@.screens =~= with_spaces(screens, spaces@));
        }
        self.update_screen_space_map();
    }

    fn is_known_screen(&self, id: ScreenId) -> (r: bool)
        ensures
            r == is_screen(self@.screens, id),
    {
        let mut i: usize = 0;
        while i < self.space_manager.screens.len()
            invariant
                0 <= i <= self@.screens.len(),
                forall|j: int| 0 <= j < i ==> (#[trigger] self@.screens[j]).screen_id != id,
            decreases self@.screens.len() - i,
        {
            if self.space_manager.screens[i].screen_id == id {
                assert(self@.screens[i as int].screen_id == id);
                return true;
            }
            i += 1;
        }
        false
    }

    /// Brings the last known spaces of the screens up to date, and forgets
    /// screens that are gone.
    pub fn update_screen_space_map(&mut self)
        ensures
            final(self)@ == old(self)@.with_screen_map(),
    {
        let ghost screens = self@.screens;
        let ghost map = self@.screen_spaces;
        let mut i: usize = 0;
        proof {
            assert(screens.take(0) =~= Seq::empty());
        }
        while i < self.space_manager.screens.len()
            invariant
                screens == self@.screens,
                map == old(self)@.screen_spaces,
                0 <= i <= screens.len(),
                self@ == (ReactorView {
                    screen_spaces: screen_spaces_after(map, screens.take(i as int)),
                    ..old(self)@
                }),
            decreases screens.len() - i,
        {
            proof {
                assert(screens.take(i + 1).drop_last() =~= screens.take(i as int));
            }
            let screen_id = self.space_manager.screens[i].screen_id;
            match self.space_manager.screens[i].space {
                Some(space) => {
                    self.space_manager.screen_space_by_id.insert(screen_id, space);
                },
                None => {
                    self.space_manager.screen_space_by_id.remove(screen_id);
                },
            }
            i += 1;
        }
        proof {
            assert(screens.take(i as int) =~= screens);
        }
        let ghost full = self@.screen_spaces;
        let ghost f = |e: (ScreenId, SpaceId)| is_screen(screens, e.0);
        let mut kept: Vec<(ScreenId, SpaceId)> = Vec::new();
        let mut k: usize = 0;
        proof {
            assert(full.take(0).filter(f) =~= Seq::empty()) by {
                reveal_with_fuel(Seq::filter, 1);
            }
        }
        while k < self.space_manager.screen_space_by_id.entries.len()
            invariant
                full == self@.screen_spaces,
                screens == self@.screens,
                f == (|e: (ScreenId, SpaceId)| is_screen(screens, e.0)),
                0 <= k <= full.len(),
                kept@ == full.take(k as int).filter(f),
            decreases full.len() - k,
        {
            proof {
                assert(full.take(k + 1).drop_last() =~= full.take(k as int));
                reveal_with_fuel(Seq::filter, 1);
            }
            let entry = self.space_manager.screen_space_by_id.entries[k];
            if self.is_known_screen(entry.0) {
                kept.push(entry);
            }
            k += 1;
        }
        proof {
            assert(full.take(k as int) =~= full);
        }
        self.space_manager.screen_space_by_id.entries = kept;
    }

    /// What exposes the spaces of all screens to the layout engine.
    pub fn expose_all_spaces(&self) -> (r: Vec<Task>)
        ensures
            tasks_view(r@) == self@.expose_tasks(self@.screens.len() as int),
    {
        let mut tasks: Vec<Task> = Vec::new();
        let mut i: usize = 0;
        while i < self.space_manager.screens.len()
            invariant
                0 <= i <= self@.screens.len(),
                tasks_view(tasks@) == self@.expose_tasks(i as int),
            decreases self@.screens.len() - i,
        {
            let ghost before = tasks_view(tasks@);
            let screen = &self.space_manager.screens[i];
            match self.space_for_screen(screen) {
                Some(space) => {
                    tasks.push(Task::ListWorkspaces(space));
                    tasks.push(Task::SendLayoutEvent(LayoutEvent::SpaceExposed(space, screen.frame.size)));
                    proof {
                        assert(tasks_view(tasks@) =~= before + seq![
                            TaskView::ListWorkspaces(space),
                            TaskView::SendLayoutEvent(LayoutEventView::SpaceExposed(space, screen.frame.size)),
                        ]);
                    }
                },
                None => {
                    proof {
                        assert(before + Seq::<TaskView>::empty() =~= before);
                    }
                },
            }
            i += 1;
        }
        tasks
    }

    /// Deals with screens that show other spaces: `spaces` are those that are
    /// managed and `ws_info` the windows that are visible.
    pub fn finalize_space_change(
        &mut self,
        spaces: &Vec<Option<SpaceId>>,
        ws_info: Vec<WindowServerInfo>,
    ) -> (r: Vec<Task>)
        ensures
            final(self)@ == (ReactorView { stale_cleanup: old(self)@.cleanup_for(spaces@), ..old(self)@ }),
            tasks_view(r@) == old(self)@.space_change_tasks(spaces@, ws_info@),
    {
        let ghost before = self@;
        let mut tasks = self.expose_all_spaces();
        let ghost exposed = tasks_view(tasks@);
        let mut first: Option<SpaceId> = None;
        let mut i: usize = 0;
        proof {
            assert(spaces@.take(0) =~= Seq::empty());
        }
        while i < spaces.len()
            invariant
                0 <= i <= spaces@.len(),
                first == first_named(spaces@.take(i as int)),
            decreases spaces@.len() - i,
        {
            proof {
                assert(spaces@.take(i + 1).drop_last() =~= spaces@.take(i as int));
            }
            if first.is_none() {
                first = spaces[i];
            }
            i += 1;
        }
        proof {
            assert(spaces@.take(i as int) =~= spaces@);
        }
        self.refocus_manager.stale_cleanup_state = if first.is_none() {
            StaleCleanupState::Suppressed
        } else {
            StaleCleanupState::Enabled
        };
        tasks.push(Task::Resume(Step::ClearChangingScreens));
        tasks.push(Task::Resume(Step::FocusMainWindow));
        tasks.push(Task::UpdateWindowServerInfo(ws_info));
        tasks.push(Task::Resume(Step::CheckForNewWindows));
        tasks.push(Task::Resume(Step::AnnounceWorkspace(first)));
        proof {
            assert(tasks_view(tasks@) =~= exposed + seq![
                TaskView::Resume(StepView::ClearChangingScreens),
                TaskView::Resume(StepView::FocusMainWindow),
                TaskView::UpdateWindowServerInfo(ws_info@),
                TaskView::Resume(StepView::CheckForNewWindows),
                TaskView::Resume(StepView::AnnounceWorkspace(first)),
            ]);
        }
        tasks
    }

    /// Applies a space change that was waiting, once there are as many screens
    /// as it names spaces for.
    pub fn try_apply_pending_space_change(&mut self, env: &Surroundings) -> (r: Vec<Task>)
        ensures
            match old(self)@.pending_space_change {
                Some(pending) if pending.spaces@.len() == old(self)@.screens.len() => {
                    let shown = masked(pending.spaces@, *env);
                    if all_fullscreen(pending.spaces@, *env) {
                        &&& r@.len() == 0
                        &&& final(self)@ == (ReactorView { pending_space_change: None, ..old(self)@ })
                    } else {
                        &&& tasks_view(r@) == old(self)@.all_restore_tasks(named_spaces(shown)).push(
                            TaskView::Resume(StepView::ApplySpaces(shown, pending.ws_info@)),
                        )
                        &&& final(self)@ == (ReactorView {
                            pending_space_change: None,
                            fullscreen: without_all(old(self)@.fullscreen, named_spaces(shown)),
                            ..old(self)@
                        })
                    }
                },
                _ => r@.len() == 0 && final(self)@ == old(self)@,
            },
    {
        let ghost before = self@;
        let pending = match self.pending_space_change_manager.pending_space_change.take() {
            Some(pending) => pending,
            None => return Vec::new(),
        };
        if pending.spaces.len() == self.space_manager.screens.len() {
            let PendingSpaceChange { spaces: mut spaces, ws_info } = pending;
            let ghost taken = self@;
            let (only_fullscreen, mut tasks) = self.handle_fullscreen_space_transition(&mut spaces, env);
            if only_fullscreen {
                return Vec::new();
            }
            proof {
                lemma_restore_agrees(before, taken, named_spaces(spaces@));
            }
            tasks.push(Task::Resume(Step::ApplySpaces(spaces, ws_info)));
            tasks
        } else {
            self.pending_space_change_manager.pending_space_change = Some(pending);
            Vec::new()
        }
    }

    /// Goes on with a step that came back.
    pub fn perform_step(&mut self, step: Step, env: &Surroundings) -> (r: Vec<Task>)
        ensures
            (final(self)@, tasks_view(r@)) == old(self)@.step(step@, *env),
    {
        let mut tasks: Vec<Task> = Vec::new();
        match step {
            Step::RequestRefocus(space) => {
                self.refocus_manager.refocus_state = RefocusState::Pending(space);
            },
            Step::UpdateFocusFollowsMouse => {
                if let Some(task) = self.update_focus_follows_mouse_state() {
                    tasks.push(task);
                }
            },
            Step::PlaceInActiveWorkspace(space, window) => {
                if let Some(workspace) = env.active_workspace_on(space) {
                    tasks.push(Task::AssignWindow { space, window, workspace });
                }
            },
            Step::ApplySpaces(spaces, ws_info) => {
                self.set_screen_spaces(&spaces);
                tasks = self.finalize_space_change(&spaces, ws_info);
            },
            Step::ClearChangingScreens => {
                self.space_manager.changing_screens.clear();
            },
            Step::FocusMainWindow => {
                if let Some(main_window) = self.main_window() {
                    if let Some(space) = self.main_window_space(env) {
                        tasks.push(Task::SendLayoutEvent(LayoutEvent::WindowFocused(space, main_window)));
                    }
                }
            },
            Step::CheckForNewWindows => {
                tasks = self.check_for_new_windows();
            },
            Step::AnnounceWorkspace(space) => {
                if let Some(space) = space {
                    if let Some(workspace_id) = env.active_workspace_on(space) {
                        let workspace_name = self.workspace_name(space, workspace_id, env);
                        let display_uuid = self.display_uuid_of_space(space);
                        tasks.push(
                            Task::Broadcast(
                                BroadcastEvent::WorkspaceChanged {
                                    workspace_id,
                                    workspace_name,
                                    space_id: space,
                                    display_uuid,
                                },
                            ),
                        );
                    }
                }
            },
        }
        proof {
            assert(tasks_view(tasks@) =~= old(self)@.step(step@, *env).1);
        }
        tasks
    }
}

/// What is restored depends on the applications and the fullscreen spaces alone.
pub proof fn lemma_restore_agrees(a: ReactorView, b: ReactorView, spaces: Seq<SpaceId>)
    requires
        a.apps == b.apps,
        a.fullscreen == b.fullscreen,
    ensures
        a.all_restore_tasks(spaces) == b.all_restore_tasks(spaces),
    decreases spaces.len(),
{
    if spaces.len() > 0 {
        lemma_restore_agrees(a, b, spaces.drop_last());
        assert forall|pids: Seq<pid_t>| #[trigger] a.relist_tasks(pids) == b.relist_tasks(pids) by {
            let f = |p: pid_t| lookup(a.apps, p) is Some;
            let g = |p: pid_t| lookup(b.apps, p) is Some;
            assert(f =~= g);
        }
    }
}

} // verus!
