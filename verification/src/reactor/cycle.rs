//! The course of an event: what deals with it, and what is done afterwards.
use crate::event::{Event, Handler, Verdict};
use crate::geometry::Point;
use crate::ids::{WindowId, WindowServerId};
use crate::reactor::{Reactor, ReactorView};
use crate::requests::{group_tasks, tasks_view, EventTapRequest, LayoutEvent, LayoutEventView, LayoutUpdate, Task};
use crate::requests::TaskView;
use crate::state::{WorkspaceSwitchManager, WorkspaceSwitchState};
use crate::surroundings::Surroundings;
use crate::table::lookup;
use vstd::prelude::*;

verus! {

broadcast use group_tasks;

/// What the tracker of the main window makes of an event.
#[derive(Clone, Copy, Debug, PartialEq, Eq, Structural)]
pub struct TrackerReply {
    pub main_window: Option<WindowId>,
    /// The window that has just become the main window.
    pub raised_window: Option<WindowId>,
}

/// What is remembered of an event while its handler works.
#[derive(Clone, Copy, Debug, PartialEq, Eq, Structural)]
pub struct EventNotes {
    pub raised_window: Option<WindowId>,
    pub verdict: Verdict,
    pub updates_notifications: bool,
}

/// What became of a layout update.
#[derive(Clone, Copy, Debug, PartialEq, Eq, Structural)]
pub enum LayoutOutcome {
    /// There was none.
    Skipped,
    Failed,
    /// It was made; true where it changed frames.
    Updated(bool),
}

impl LayoutOutcome {
    pub open spec fn changed(self) -> bool {
        self == LayoutOutcome::Updated(true)
    }
}

/// How far an event has come once its handler is done.
#[derive(Clone, Copy, Debug, PartialEq, Eq, Structural)]
pub enum Stage {
    /// The handler has answered.
    Handled(bool),
    /// The layout engine knows of a window that became the main window; the
    /// handler had answered this.
    FocusSent(bool),
    /// The layout is up to date.
    LayoutDone(LayoutOutcome),
    Over,
}

impl Stage {
    /// The stage once a layout update had the outcome `layout`.
    pub open spec fn with_outcome(self, layout: LayoutOutcome) -> Stage {
        match self {
            Stage::LayoutDone(_) => Stage::LayoutDone(layout),
            _ => self,
        }
    }

    pub fn after_layout(self, layout: LayoutOutcome) -> (r: Stage)
        ensures
            r == self.with_outcome(layout),
    {
        match self {
            Stage::LayoutDone(_) => Stage::LayoutDone(layout),
            _ => self,
        }
    }
}

/// Where an event stands once its handler has answered `answer`: a question is
/// over when it is answered.
pub open spec fn stage_after(handler: Handler, answer: bool) -> Stage {
    if handler is Query {
        Stage::Over
    } else {
        Stage::Handled(answer)
    }
}

/// The stage that an event proceeds from once its handler has answered.
pub fn first_stage(handler: &Handler, answer: bool) -> (r: Stage)
    ensures
        r == stage_after(*handler, answer),
{
    match handler {
        Handler::Query(_) => Stage::Over,
        _ => Stage::Handled(answer),
    }
}

/// What is left to do at the end of an event.
#[derive(Debug)]
pub struct EventEnd {
    /// The event tap is asked to move the cursor.
    pub warp: Option<Task>,
    /// The windows to be notified about, where they are others than before.
    pub notify: Option<Vec<u32>>,
}

/// No number is smaller than one before it.
pub open spec fn is_sorted(s: Seq<u32>) -> bool {
    forall|i: int, j: int| 0 <= i < j < s.len() ==> (#[trigger] s[i]) <= (#[trigger] s[j])
}

/// `sorted` holds the numbers of `s`, each as often, in ascending order.
pub open spec fn is_sorting_of(sorted: Seq<u32>, s: Seq<u32>) -> bool {
    is_sorted(sorted) && sorted.to_multiset() == s.to_multiset()
}

/// The numbers of the window server ids that stand in a table.
pub open spec fn wsid_numbers<V>(table: Seq<(WindowServerId, V)>) -> Seq<u32> {
    table.map_values(|e: (WindowServerId, V)| e.0.0)
}

impl ReactorView {
    /// What tells the layout engine of a window that became the main window.
    pub open spec fn raise_news(self, raised: Option<WindowId>, env: Surroundings) -> Seq<TaskView> {
        match raised {
            Some(window) => match self.tracked_space(window, env) {
                Some(space) => seq![
                    TaskView::SendLayoutEvent(LayoutEventView::WindowFocused(space, window)),
                ],
                None => Seq::empty(),
            },
            None => Seq::empty(),
        }
    }

    /// The layout update after an event, and the menu update that goes with
    /// it. There is none while a window is dragged, unless a window is gone.
    pub open spec fn layout_tasks(self, verdict: Verdict, answer: bool) -> Seq<TaskView> {
        if !self.in_drag() || (verdict is Destroyed && answer) {
            seq![
                TaskView::UpdateLayout(
                    LayoutUpdate {
                        is_resize: verdict is Resized && answer,
                        is_workspace_switch: self.is_switching(),
                    },
                ),
                TaskView::SendMenuUpdate,
            ]
        } else {
            Seq::empty()
        }
    }

    /// The switching state at the end of an event: no switch is under way, one
    /// that moves nothing any more is over, and no cursor move is put off.
    pub open spec fn switch_ended(self, changed: bool) -> WorkspaceSwitchManager {
        WorkspaceSwitchManager {
            active_workspace_switch: if changed {
                self.switch.active_workspace_switch
            } else {
                None
            },
            pending_workspace_mouse_warp: None,
            ..self.switch.marked_inactive()
        }
    }

    /// Where a cursor move that was put off goes: to the middle of the window,
    /// where it is still tracked and that is on a screen.
    pub open spec fn deferred_warp(self, env: Surroundings) -> Option<Point> {
        match self.switch.pending_workspace_mouse_warp {
            Some(window) => match lookup(self.windows, window) {
                Some(state) if self.has_event_tap && self.is_on_any_screen(state.frame_monotonic, env) => Some(
                    state.frame_monotonic.center,
                ),
                _ => None,
            },
            None => None,
        }
    }
}

/// What moves the cursor.
pub open spec fn warp_tasks(center: Option<Point>) -> Seq<TaskView> {
    match center {
        Some(center) => seq![TaskView::SendToEventTap(EventTapRequest::Warp(center))],
        None => Seq::empty(),
    }
}

/// What changes the windows that are notified about, where they are others.
pub open spec fn watch_tasks(before: Seq<u32>, after: Seq<u32>) -> Seq<TaskView> {
    if before == after {
        Seq::empty()
    } else {
        seq![TaskView::WatchWindows(after)]
    }
}

/// Sorts numbers.
fn sorted(ids: &Vec<u32>) -> (r: Vec<u32>)
    ensures
        is_sorting_of(r@, ids@),
{
    let mut out: Vec<u32> = Vec::new();
    let mut i: usize = 0;
    proof {
        assert(ids@.take(0) =~= out@);
    }
    while i < ids.len()
        invariant
            0 <= i <= ids@.len(),
            is_sorting_of(out@, ids@.take(i as int)),
        decreases ids@.len() - i,
    {
        let id: u32 = ids[i];
        let ghost before = out@;
        let mut k: usize = 0;
        while k < out.len() && out[k] < id
            invariant
                out@ == before,
                0 <= k <= before.len(),
                forall|j: int| 0 <= j < k ==> (#[trigger] before[j]) < id,
            decreases before.len() - k,
        {
            k += 1;
        }
        out.insert(k, id);
        proof {
            assert(out@ =~= before.insert(k as int, id));
            assert forall|a: int, b: int| 0 <= a < b < out@.len() implies (#[trigger] out@[a]) <= (
            #[trigger] out@[b]) by {
                if b < k {
                    assert(before[a] <= before[b]);
                } else if b > k && a < k {
                    assert(before[a] <= before[b - 1]);
                } else if b > k && a == k {
                    if b - 1 > k {
                        assert(before[k as int] <= before[b - 1]);
                    }
                } else if b > k {
                    assert(before[a - 1] <= before[b - 1]);
                }
            }
            vstd::seq_lib::to_multiset_insert(before, k as int, id);
            let seen = ids@.take(i as int);
            assert(ids@.take(i + 1) =~= seen.insert(i as int, id));
            vstd::seq_lib::to_multiset_insert(seen, i as int, id);
        }
        i += 1;
    }
    proof {
        assert(ids@.take(i as int) =~= ids@);
    }
    out
}

/// Both lists hold the same numbers in the same order.
fn same_numbers(a: &Vec<u32>, b: &Vec<u32>) -> (r: bool)
    ensures
        r == (a@ == b@),
{
    if a.len() != b.len() {
        return false;
    }
    let mut i: usize = 0;
    while i < a.len()
        invariant
            a@.len() == b@.len(),
            0 <= i <= a@.len(),
            forall|j: int| 0 <= j < i ==> a@[j] == b@[j],
        decreases a@.len() - i,
    {
        if a[i] != b[i] {
            return false;
        }
        i += 1;
    }
    assert(a@ =~= b@);
    true
}

impl Reactor {
    /// Begins with an event. A question changes nothing; otherwise the main
    /// window is taken over from the tracker, which has seen the event. The
    /// handler does its work, and its yes or no goes to `first_stage`.
    pub fn handle_event(&mut self, event: Event, reply: TrackerReply) -> (r: (Handler, EventNotes))
        ensures
            r.0 == event.handler(),
            r.1 == (EventNotes {
                raised_window: reply.raised_window,
                verdict: event.verdict(),
                updates_notifications: event.changes_windows(),
            }),
            final(self)@ == (if event.query() is Some {
                old(self)@
            } else {
                ReactorView { main_window: reply.main_window, ..old(self)@ }
            }),
    {
        let notes = EventNotes {
            raised_window: reply.raised_window,
            verdict: event.verdict_of_handler(),
            updates_notifications: event.should_update_notifications(),
        };
        if !event.is_query() {
            self.main_window_tracker_manager.main_window = reply.main_window;
        }
        (event.into_handler(), notes)
    }

    /// What tells the layout engine of a window that became the main window
    /// with the event.
    pub fn focus_raised_window(&self, notes: &EventNotes, env: &Surroundings) -> (r: Vec<Task>)
        ensures
            tasks_view(r@) == self@.raise_news(notes.raised_window, *env),
    {
        let mut tasks: Vec<Task> = Vec::new();
        if let Some(raised_window) = notes.raised_window {
            if let Some(space) = self.best_space_for_window_id(raised_window, env) {
                tasks.push(Task::SendLayoutEvent(LayoutEvent::WindowFocused(space, raised_window)));
            }
        }
        proof {
            assert(tasks_view(tasks@) =~= self@.raise_news(notes.raised_window, *env));
        }
        tasks
    }

    /// The layout update after an event whose handler answered `answer`.
    pub fn update_after_event(&self, notes: &EventNotes, answer: bool) -> (r: Vec<Task>)
        ensures
            tasks_view(r@) == self@.layout_tasks(notes.verdict, answer),
    {
        let mut tasks: Vec<Task> = Vec::new();
        let is_resize = notes.verdict == Verdict::Resized && answer;
        let window_was_destroyed = notes.verdict == Verdict::Destroyed && answer;
        if !self.is_in_drag() || window_was_destroyed {
            tasks.push(
                self.update_layout(
                    is_resize,
                    self.workspace_switch_manager.workspace_switch_state == WorkspaceSwitchState::Active,
                ),
            );
            tasks.push(Task::SendMenuUpdate);
        }
        proof {
            assert(tasks_view(tasks@) =~= self@.layout_tasks(notes.verdict, answer));
        }
        tasks
    }

    /// Ends an event once its layout update is done.
    pub fn finish_event(&mut self, notes: &EventNotes, layout: LayoutOutcome, env: &Surroundings) -> (r: EventEnd)
        ensures
            final(self)@ == (ReactorView {
                switch: old(self)@.switch_ended(layout.changed()),
                notified: final(self)@.notified,
                ..old(self)@
            }),
            match (r.warp, old(self)@.deferred_warp(*env)) {
                (Some(task), Some(center)) => task@ == TaskView::SendToEventTap(EventTapRequest::Warp(center)),
                (None, None) => true,
                _ => false,
            },
            if notes.updates_notifications {
                is_sorting_of(final(self)@.notified, wsid_numbers(old(self)@.window_ids))
            } else {
                final(self)@.notified == old(self)@.notified
            },
            match r.notify {
                Some(ids) => ids@ == final(self)@.notified && ids@ != old(self)@.notified,
                None => final(self)@.notified == old(self)@.notified,
            },
    {
        let ghost before = self@;
        self.workspace_switch_manager.mark_workspace_switch_inactive();
        let layout_changed = match layout {
            LayoutOutcome::Updated(changed) => changed,
            _ => false,
        };
        if !layout_changed {
            self.workspace_switch_manager.active_workspace_switch = None;
        }
        // The cursor moves now that the workspace switch is complete.
        let pending = self.workspace_switch_manager.pending_workspace_mouse_warp;
        self.workspace_switch_manager.pending_workspace_mouse_warp = None;
        let mut warp: Option<Task> = None;
        if let Some(wid) = pending {
            if let Some(window) = self.window_manager.windows.get(wid) {
                if self.is_center_on_screen(&window.frame_monotonic, env)
                    && self.communication_manager.has_event_tap {
                    warp = Some(Task::SendToEventTap(EventTapRequest::Warp(window.frame_monotonic.center)));
                }
            }
        }
        proof {
            assert(self@.window_ids == before.window_ids);
        }
        let mut notify: Option<Vec<u32>> = None;
        if notes.updates_notifications {
            let ids = self.notification_ids();
            if !same_numbers(&ids, &self.notification_manager.last_sls_notification_ids) {
                let copy = ids.clone();
                assert(copy@ =~= ids@);
                self.notification_manager.last_sls_notification_ids = ids;
                notify = Some(copy);
            }
        }
        EventEnd { warp, notify }
    }

    /// Takes an event one stage further once its handler is done: what is to be
    /// done, and the stage that is reached when it is. The outcome of a layout
    /// update among it goes to the next stage through `after_layout`.
    pub fn proceed(&mut self, notes: &EventNotes, stage: Stage, env: &Surroundings) -> (r: (Vec<Task>, Stage))
        ensures
            match stage {
                Stage::Handled(answer) => {
                    &&& tasks_view(r.0@) == old(self)@.raise_news(notes.raised_window, *env)
                    &&& r.1 == Stage::FocusSent(answer)
                    &&& final(self)@ == old(self)@
                },
                Stage::FocusSent(answer) => {
                    &&& tasks_view(r.0@) == old(self)@.layout_tasks(notes.verdict, answer)
                    &&& r.1 == Stage::LayoutDone(LayoutOutcome::Skipped)
                    &&& final(self)@ == old(self)@
                },
                Stage::LayoutDone(layout) => {
                    &&& tasks_view(r.0@) == warp_tasks(old(self)@.deferred_warp(*env)) + watch_tasks(
                        old(self)@.notified,
                        final(self)@.notified,
                    )
                    &&& r.1 == Stage::Over
                    &&& final(self)@ == (ReactorView {
                        switch: old(self)@.switch_ended(layout.changed()),
                        notified: final(self)@.notified,
                        ..old(self)@
                    })
                    &&& if notes.updates_notifications {
                        is_sorting_of(final(self)@.notified, wsid_numbers(old(self)@.window_ids))
                    } else {
                        final(self)@.notified == old(self)@.notified
                    }
                },
                Stage::Over => r.0@.len() == 0 && r.1 == Stage::Over && final(self)@ == old(self)@,
            },
    {
        match stage {
            Stage::Handled(answer) => (self.focus_raised_window(notes, env), Stage::FocusSent(answer)),
            Stage::FocusSent(answer) => (
                self.update_after_event(notes, answer),
                Stage::LayoutDone(LayoutOutcome::Skipped),
            ),
            Stage::LayoutDone(layout) => {
                let ghost before = self@;
                let end = self.finish_event(notes, layout, env);
                let mut tasks: Vec<Task> = Vec::new();
                if let Some(warp) = end.warp {
                    tasks.push(warp);
                }
                proof {
                    assert(tasks_view(tasks@) =~= warp_tasks(before.deferred_warp(*env)));
                }
                let ghost warped = tasks_view(tasks@);
                if let Some(ids) = end.notify {
                    tasks.push(Task::WatchWindows(ids));
                }
                proof {
                    assert(tasks_view(tasks@) =~= warped + watch_tasks(before.notified, self@.notified));
                }
                (tasks, Stage::Over)
            },
            Stage::Over => (Vec::new(), Stage::Over),
        }
    }

    /// The windows to be notified about.
    pub fn notification_ids(&self) -> (r: Vec<u32>)
        ensures
            is_sorting_of(r@, wsid_numbers(self@.window_ids)),
    {
        let mut ids: Vec<u32> = Vec::new();
        let mut i: usize = 0;
        while i < self.window_manager.window_ids.entries.len()
            invariant
                0 <= i <= self@.window_ids.len(),
                ids@ =~= wsid_numbers(self@.window_ids).take(i as int),
            decreases self@.window_ids.len() - i,
        {
            ids.push(self.window_manager.window_ids.entries[i].0.as_u32());
            i += 1;
        }
        proof {
            assert(ids@ =~= wsid_numbers(self@.window_ids));
        }
        sorted(&ids)
    }
}

} // verus!
