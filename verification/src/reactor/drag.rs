//! A window that is dragged with the mouse.
use crate::geometry::Frame;
use crate::ids::{SpaceId, WindowId, WindowServerId};
use crate::reactor::{Reactor, ReactorView};
use crate::requests::{group_tasks, tasks_view, LayoutEvent, LayoutEventView, Step, StepView, Task, TaskView};
use crate::state::{DragSession, DragState, WindowState};
use crate::surroundings::Surroundings;
use crate::table::lookup;
use vstd::prelude::*;

verus! {

broadcast use group_tasks;

/// What a step of a drag means for a swap of two windows.
#[derive(Debug, PartialEq, Eq)]
pub enum SwapStep {
    /// Nothing is done.
    Skip,
    /// The swap detection starts over.
    Reset,
    /// The swap detection is shown the new frame and the frames of these
    /// windows; what it is aimed at afterwards goes to `settle_swap`.
    Probe(Vec<(WindowId, Frame)>),
}

/// A step with its candidates as a sequence.
pub enum SwapStepView {
    Skip,
    Reset,
    Probe(Seq<(WindowId, Frame)>),
}

impl View for SwapStep {
    type V = SwapStepView;

    open spec fn view(&self) -> SwapStepView {
        match *self {
            SwapStep::Skip => SwapStepView::Skip,
            SwapStep::Reset => SwapStepView::Reset,
            SwapStep::Probe(candidates) => SwapStepView::Probe(candidates@),
        }
    }
}

impl ReactorView {
    pub open spec fn active_session(self) -> Option<DragSession> {
        match self.drag {
            DragState::Active { session } => Some(session),
            _ => None,
        }
    }

    /// The session of a drag, whether a swap is pending or not.
    pub open spec fn session(self) -> Option<DragSession> {
        match self.drag {
            DragState::Active { session } => Some(session),
            DragState::PendingSwap { session, .. } => Some(session),
            DragState::Inactive => None,
        }
    }

    pub open spec fn pending_swap(self) -> Option<(WindowId, WindowId)> {
        match self.drag {
            DragState::PendingSwap { session, target } => Some((session.window, target)),
            _ => None,
        }
    }

    pub open spec fn server_id(self, window: WindowId) -> Option<WindowServerId> {
        match lookup(self.windows, window) {
            Some(state) => state.window_server_id,
            None => None,
        }
    }

    /// A drag of `window` that starts at `frame`.
    pub open spec fn new_session(self, window: WindowId, frame: Frame, env: Surroundings) -> DragSession {
        let origin = self.window_space(frame, self.server_id(window), env);
        DragSession {
            window,
            last_frame: frame,
            origin_space: origin,
            settled_space: origin,
            layout_dirty: false,
        }
    }

    /// The state with an active drag of `window`: the one that there is, or a
    /// new one.
    pub open spec fn dragging(self, window: WindowId, frame: Frame, env: Surroundings) -> ReactorView {
        let kept = self.active_session() matches Some(session) && session.window == window;
        ReactorView {
            drag: if kept {
                self.drag
            } else {
                DragState::Active { session: self.new_session(window, frame, env) }
            },
            skip_layout: Some(window),
            ..self
        }
    }

    /// The space that a dragged window is on: that of the screen its midpoint
    /// is on, or else the window's own, or else the one it was on before. A
    /// frame without an area does not move a window that has a space.
    pub open spec fn drag_space(self, session: DragSession, frame: Frame, env: Surroundings) -> Option<SpaceId> {
        let own = self.window_space(frame, self.server_id(session.window), env);
        if frame.is_flat {
            match session.settled_space {
                Some(space) => Some(space),
                None => own,
            }
        } else {
            match self.center_space(frame, env) {
                Some(space) => Some(space),
                None => match own {
                    Some(space) => Some(space),
                    None => session.settled_space,
                },
            }
        }
    }

    /// The state once the dragged window is at `frame`.
    pub open spec fn dragged(self, window: WindowId, frame: Frame, env: Surroundings) -> ReactorView {
        match self.active_session() {
            Some(session) if session.window == window => {
                let space = self.drag_space(session, frame, env);
                let moved = space != session.settled_space;
                ReactorView {
                    drag: DragState::Active {
                        session: DragSession {
                            last_frame: frame,
                            settled_space: space,
                            layout_dirty: session.layout_dirty || moved || !session.last_frame.eq_value(frame),
                            ..session
                        },
                    },
                    skip_layout: if moved {
                        Some(window)
                    } else {
                        self.skip_layout
                    },
                    ..self
                }
            },
            _ => self,
        }
    }

    /// The state once the layout is known to need an update after the drag of `window`.
    pub open spec fn marked_dirty(self, window: WindowId) -> ReactorView {
        match self.active_session() {
            Some(session) if session.window == window => ReactorView {
                drag: DragState::Active { session: DragSession { layout_dirty: true, ..session } },
                skip_layout: Some(window),
                ..self
            },
            _ => self,
        }
    }

    /// The space that a drag ends on. The window server can go on reporting
    /// the space that the drag began on, so what it says comes last.
    pub open spec fn final_space(self, session: DragSession, env: Surroundings) -> Option<SpaceId> {
        match session.settled_space {
            Some(space) => Some(space),
            None => match self.frame_space(session.last_frame, env) {
                Some(space) => Some(space),
                None => self.tracked_space(session.window, env),
            },
        }
    }

    /// What moves a window to the space that it was dragged to.
    pub open spec fn move_tasks(self, session: DragSession, env: Surroundings) -> Seq<TaskView> {
        let to = self.final_space(session, env);
        let removal = TaskView::SendLayoutEvent(LayoutEventView::WindowRemoved(session.window));
        let gone = if session.origin_space is Some {
            seq![removal]
        } else {
            Seq::empty()
        };
        let come = match to {
            Some(space) => seq![
                TaskView::Resume(StepView::PlaceInActiveWorkspace(space, session.window)),
                TaskView::SendLayoutEvent(LayoutEventView::WindowAdded(space, session.window)),
            ],
            None => Seq::empty(),
        };
        if session.origin_space != to {
            gone + come
        } else {
            Seq::empty()
        }
    }

    /// The end of a drag changed something.
    pub open spec fn drag_counts(self, session: DragSession, env: Surroundings) -> bool {
        session.origin_space != self.final_space(session, env) || session.layout_dirty
    }

    /// The space that a dragged window is looked at on.
    pub open spec fn swap_space(self, window: WindowId, frame: Frame, env: Surroundings) -> Option<SpaceId> {
        match self.active_session() {
            Some(session) if session.settled_space is Some => session.settled_space,
            _ => self.window_space(frame, self.server_id(window), env),
        }
    }

    /// The space that the drag of a window began on, as far as that is known.
    pub open spec fn swap_origin(
        self,
        window: WindowId,
        origin_frame: Option<Frame>,
        env: Surroundings,
    ) -> Option<SpaceId> {
        match self.active_session() {
            Some(session) if session.origin_space is Some => session.origin_space,
            _ => match origin_frame {
                Some(frame) => self.window_space(frame, self.server_id(window), env),
                None => None,
            },
        }
    }

    /// `other` can be swapped with a window that is dragged over `space`: it
    /// is tiled there, in the active workspace.
    pub open spec fn is_swap_candidate(
        self,
        window: WindowId,
        other: WindowId,
        space: SpaceId,
        env: Surroundings,
    ) -> bool {
        &&& other != window
        &&& self.tracked_space(other, env) == Some(space)
        &&& env.in_active_workspace(space, other)
        &&& !env.is_floating(other)
    }

    /// The windows that the dragged window can be swapped with, and their frames.
    pub open spec fn swap_candidates(self, window: WindowId, space: SpaceId, env: Surroundings) -> Seq<
        (WindowId, Frame),
    > {
        frames_of(
            self.windows.filter(
                |e: (WindowId, WindowState)| self.is_swap_candidate(window, e.0, space, env),
            ),
        )
    }

    /// What a step of the drag of `window` to `frame` means for a swap, and
    /// the state after it. A window that enters another space has no pending
    /// swap any more.
    pub open spec fn swap_step(
        self,
        window: WindowId,
        frame: Frame,
        origin_frame: Option<Frame>,
        env: Surroundings,
    ) -> (ReactorView, SwapStepView) {
        let changing = match self.server_id(window) {
            Some(wsid) => self.changing.contains(wsid),
            None => false,
        };
        if !self.in_drag() || lookup(self.windows, window) is None || changing {
            (self, SwapStepView::Skip)
        } else {
            match self.swap_space(window, frame, env) {
                None => (self, SwapStepView::Skip),
                Some(space) => match self.swap_origin(window, origin_frame, env) {
                    Some(origin) if origin != space => {
                        let cleared = self.pending_swap() matches Some(pair) && pair.0 == window;
                        (
                            if cleared {
                                ReactorView { drag: DragState::Inactive, ..self }
                            } else {
                                self
                            },
                            SwapStepView::Reset,
                        )
                    },
                    _ => if env.in_active_workspace(space, window) {
                        (self, SwapStepView::Probe(self.swap_candidates(window, space, env)))
                    } else {
                        (self, SwapStepView::Skip)
                    },
                },
            }
        }
    }

    /// The state once the swap detection is aimed at `target` while `window`
    /// is dragged: the swap is pending until the mouse button is released, or
    /// no longer pending where the windows do not overlap any more.
    pub open spec fn swap_settled(self, window: WindowId, target: Option<WindowId>) -> ReactorView {
        match target {
            Some(target) => match self.session() {
                Some(session) => ReactorView {
                    drag: DragState::PendingSwap { session, target },
                    skip_layout: Some(window),
                    ..self
                },
                None => ReactorView { drag: DragState::Inactive, skip_layout: None, ..self },
            },
            None => {
                let drag = match self.drag {
                    DragState::PendingSwap { session, .. } if session.window == window => {
                        DragState::Active { session }
                    },
                    _ => self.drag,
                };
                ReactorView {
                    drag,
                    skip_layout: if self.skip_layout == Some(window) {
                        None
                    } else {
                        self.skip_layout
                    },
                    ..self
                }
            },
        }
    }
}

/// The frames of windows.
pub open spec fn frames_of(windows: Seq<(WindowId, WindowState)>) -> Seq<(WindowId, Frame)> {
    windows.map_values(|e: (WindowId, WindowState)| (e.0, e.1.frame_monotonic))
}

impl Reactor {
    /// The window that is dragged and the one that it is to be swapped with.
    pub fn get_pending_drag_swap(&self) -> (r: Option<(WindowId, WindowId)>)
        ensures
            r == self@.pending_swap(),
    {
        match &self.drag_manager.drag_state {
            DragState::PendingSwap { session, target } => Some((session.window, *target)),
            _ => None,
        }
    }

    pub fn get_active_drag_session(&self) -> (r: Option<&DragSession>)
        ensures
            match r {
                Some(session) => self@.active_session() == Some(*session),
                None => self@.active_session() is None,
            },
    {
        match &self.drag_manager.drag_state {
            DragState::Active { session } => Some(session),
            _ => None,
        }
    }

    /// The session of a drag, whether a swap is pending or not.
    pub fn get_drag_session(&self) -> (r: Option<&DragSession>)
        ensures
            match r {
                Some(session) => self@.session() == Some(*session),
                None => self@.session() is None,
            },
    {
        match &self.drag_manager.drag_state {
            DragState::Active { session } => Some(session),
            DragState::PendingSwap { session, .. } => Some(session),
            DragState::Inactive => None,
        }
    }

    pub fn get_active_drag_session_mut(&mut self) -> (r: Option<&mut DragSession>)
        ensures
            match r {
                Some(session) => {
                    &&& old(self)@.active_session() == Some(*session)
                    &&& final(self)@ == (ReactorView {
                        drag: DragState::Active { session: *final(session) },
                        ..old(self)@
                    })
                },
                None => old(self)@.active_session() is None && *final(self) == *old(self),
            },
    {
        match &mut self.drag_manager.drag_state {
            DragState::Active { session } => Some(session),
            _ => None,
        }
    }

    /// Ends a drag and hands its session out.
    pub fn take_active_drag_session(&mut self) -> (r: Option<DragSession>)
        ensures
            r == old(self)@.session(),
            final(self)@ == (ReactorView { drag: DragState::Inactive, ..old(self)@ }),
    {
        let mut drag_state = DragState::Inactive;
        std::mem::swap(&mut drag_state, &mut self.drag_manager.drag_state);
        match drag_state {
            DragState::Active { session } => Some(session),
            DragState::PendingSwap { session, .. } => Some(session),
            DragState::Inactive => None,
        }
    }

    fn server_id_of(&self, wid: WindowId) -> (r: Option<WindowServerId>)
        ensures
            r == self@.server_id(wid),
    {
        match self.window_manager.windows.get(wid) {
            Some(window) => window.window_server_id,
            None => None,
        }
    }

    /// Makes sure that there is an active drag of `wid`.
    pub fn ensure_active_drag(&mut self, wid: WindowId, frame: &Frame, env: &Surroundings)
        ensures
            final(self)@ == old(self)@.dragging(wid, *frame, *env),
    {
        let needs_new_session = match self.get_active_drag_session() {
            Some(session) => session.window != wid,
            None => true,
        };
        if needs_new_session {
            let server_id = self.server_id_of(wid);
            let origin_space = self.best_space_for_window(frame, server_id, env);
            self.drag_manager.drag_state = DragState::Active {
                session: DragSession {
                    window: wid,
                    last_frame: *frame,
                    origin_space,
                    settled_space: origin_space,
                    layout_dirty: false,
                },
            };
        }
        self.drag_manager.skip_layout_for_window = Some(wid);
    }

    /// The space that a dragged window is on.
    pub fn resolve_drag_space(&self, session: &DragSession, frame: &Frame, env: &Surroundings) -> (r: Option<SpaceId>)
        ensures
            r == self@.drag_space(*session, *frame, *env),
    {
        let server_id = self.server_id_of(session.window);
        if frame.is_flat {
            if session.settled_space.is_some() {
                return session.settled_space;
            }
            return self.best_space_for_window(frame, server_id, env);
        }
        if let Some(space) = self.drag_space_candidate(frame, env) {
            return Some(space);
        }
        if let Some(space) = self.best_space_for_window(frame, server_id, env) {
            return Some(space);
        }
        session.settled_space
    }

    /// Follows a dragged window to `new_frame`.
    pub fn update_active_drag(&mut self, wid: WindowId, new_frame: &Frame, env: &Surroundings)
        ensures
            final(self)@ == old(self)@.dragged(wid, *new_frame, *env),
    {
        let resolved_space = match self.get_active_drag_session() {
            Some(session) => if session.window == wid {
                self.resolve_drag_space(session, new_frame, env)
            } else {
                return;
            },
            None => return,
        };
        let mut moved = false;
        if let Some(session) = self.get_active_drag_session_mut() {
            let frame_changed = !session.last_frame.equals(new_frame);
            session.last_frame = *new_frame;
            if frame_changed {
                session.layout_dirty = true;
            }
            if session.settled_space != resolved_space {
                session.settled_space = resolved_space;
                session.layout_dirty = true;
                moved = true;
            }
        }
        if moved {
            self.drag_manager.skip_layout_for_window = Some(wid);
        }
    }

    /// Notes that the layout needs an update after the drag of `wid`.
    pub fn mark_drag_dirty(&mut self, wid: WindowId)
        ensures
            final(self)@ == old(self)@.marked_dirty(wid),
    {
        let mut marked = false;
        if let Some(session) = self.get_active_drag_session_mut() {
            if session.window == wid {
                session.layout_dirty = true;
                marked = true;
            }
        }
        if marked {
            self.drag_manager.skip_layout_for_window = Some(wid);
        }
    }

    /// Ends a drag: says whether it changed something, and what moves the
    /// window to the space that it was dragged to.
    pub fn finalize_active_drag(&mut self, env: &Surroundings) -> (r: (bool, Vec<Task>))
        ensures
            match old(self)@.session() {
                Some(session) => {
                    &&& r.0 == old(self)@.drag_counts(session, *env)
                    &&& tasks_view(r.1@) == old(self)@.move_tasks(session, *env)
                    &&& final(self)@ == (ReactorView {
                        drag: DragState::Inactive,
                        skip_layout: if r.0 {
                            Some(session.window)
                        } else {
                            old(self)@.skip_layout
                        },
                        ..old(self)@
                    })
                },
                None => !r.0 && r.1@.len() == 0 && final(self)@ == old(self)@,
            },
    {
        let ghost before = self@;
        let session = match self.take_active_drag_session() {
            Some(session) => session,
            None => return (false, Vec::new()),
        };
        let mut tasks: Vec<Task> = Vec::new();
        let wid = session.window;
        proof {
            lemma_spaces_agree(before, self@, *env);
        }
        let final_space = if session.settled_space.is_some() {
            session.settled_space
        } else {
            match self.best_space_for_frame(&session.last_frame, env) {
                Some(space) => Some(space),
                None => self.best_space_for_window_id(wid, env),
            }
        };
        if session.origin_space != final_space {
            if session.origin_space.is_some() {
                tasks.push(Task::SendLayoutEvent(LayoutEvent::WindowRemoved(wid)));
            }
            if let Some(space) = final_space {
                tasks.push(Task::Resume(Step::PlaceInActiveWorkspace(space, wid)));
                tasks.push(Task::SendLayoutEvent(LayoutEvent::WindowAdded(space, wid)));
            }
            self.drag_manager.skip_layout_for_window = Some(wid);
            proof {
                assert(tasks_view(tasks@) =~= before.move_tasks(session, *env));
            }
            (true, tasks)
        } else if session.layout_dirty {
            self.drag_manager.skip_layout_for_window = Some(wid);
            (true, tasks)
        } else {
            (false, tasks)
        }
    }

    fn collect_swap_candidates(&self, wid: WindowId, space: SpaceId, env: &Surroundings) -> (r: Vec<
        (WindowId, Frame),
    >)
        ensures
            r@ == self@.swap_candidates(wid, space, *env),
    {
        let ghost all = self@.windows;
        let ghost f = |e: (WindowId, WindowState)| self@.is_swap_candidate(wid, e.0, space, *env);
        let mut candidates: Vec<(WindowId, Frame)> = Vec::new();
        let mut i: usize = 0;
        proof {
            assert(all.take(0).filter(f) =~= Seq::empty()) by {
                reveal_with_fuel(Seq::filter, 1);
            }
            assert(candidates@ =~= frames_of(all.take(0).filter(f)));
        }
        while i < self.window_manager.windows.entries.len()
            invariant
                all == self@.windows,
                f == (|e: (WindowId, WindowState)| self@.is_swap_candidate(wid, e.0, space, *env)),
                0 <= i <= all.len(),
                candidates@ == frames_of(all.take(i as int).filter(f)),
            decreases all.len() - i,
        {
            let ghost before = all.take(i as int).filter(f);
            proof {
                assert(all.take(i + 1).drop_last() =~= all.take(i as int));
                reveal_with_fuel(Seq::filter, 1);
            }
            let other_wid = self.window_manager.windows.entries[i].0;
            let frame = self.window_manager.windows.entries[i].1.frame_monotonic;
            if other_wid != wid && self.best_space_for_window_id(other_wid, env) == Some(space)
                && env.is_window_in_active_workspace(space, other_wid) && !env.is_window_floating(other_wid) {
                candidates.push((other_wid, frame));
                proof {
                    assert(f(all[i as int]));
                    assert(candidates@ =~= frames_of(before.push(all[i as int])));
                }
            }
            i += 1;
        }
        proof {
            assert(all.take(i as int) =~= all);
        }
        candidates
    }

    /// Decides what a step of a drag means for a swap. `origin_frame` is where
    /// the swap detection saw the drag begin.
    pub fn maybe_swap_on_drag(
        &mut self,
        wid: WindowId,
        new_frame: &Frame,
        origin_frame: Option<Frame>,
        env: &Surroundings,
    ) -> (r: SwapStep)
        ensures
            (final(self)@, r@) == old(self)@.swap_step(wid, *new_frame, origin_frame, *env),
    {
        if !self.is_in_drag() {
            return SwapStep::Skip;
        }
        let server_id = match self.window_manager.windows.get(wid) {
            Some(window) => window.window_server_id,
            None => return SwapStep::Skip,
        };
        if let Some(wsid) = server_id {
            if self.space_manager.changing_screens.contains(wsid) {
                return SwapStep::Skip;
            }
        }
        let (settled, origin) = match self.get_active_drag_session() {
            Some(session) => (session.settled_space, session.origin_space),
            None => (None, None),
        };
        let space = match settled {
            Some(space) => space,
            None => match self.best_space_for_window(new_frame, server_id, env) {
                Some(space) => space,
                None => return SwapStep::Skip,
            },
        };
        let origin_space_hint = match origin {
            Some(origin) => Some(origin),
            None => match origin_frame {
                Some(frame) => self.best_space_for_window(&frame, server_id, env),
                None => None,
            },
        };
        if let Some(origin_space) = origin_space_hint {
            if origin_space != space {
                if let Some((pending_wid, _)) = self.get_pending_drag_swap() {
                    if pending_wid == wid {
                        self.drag_manager.drag_state = DragState::Inactive;
                    }
                }
                return SwapStep::Reset;
            }
        }
        if !env.is_window_in_active_workspace(space, wid) {
            return SwapStep::Skip;
        }
        SwapStep::Probe(self.collect_swap_candidates(wid, space, env))
    }

    /// Notes what the swap detection is aimed at while `wid` is dragged.
    /// Nothing is swapped before the mouse button is released.
    pub fn settle_swap(&mut self, wid: WindowId, active_target: Option<WindowId>)
        ensures
            final(self)@ == old(self)@.swap_settled(wid, active_target),
    {
        match active_target {
            Some(target) => match self.take_active_drag_session() {
                Some(session) => {
                    self.drag_manager.drag_state = DragState::PendingSwap { session, target };
                    self.drag_manager.skip_layout_for_window = Some(wid);
                },
                None => {
                    self.drag_manager.skip_layout_for_window = None;
                },
            },
            None => {
                if let Some((pending_wid, _)) = self.get_pending_drag_swap() {
                    if pending_wid == wid {
                        if let Some(session) = self.take_active_drag_session() {
                            self.drag_manager.drag_state = DragState::Active { session };
                        }
                    }
                }
                if self.drag_manager.skip_layout_for_window == Some(wid) {
                    self.drag_manager.skip_layout_for_window = None;
                }
            },
        }
    }
}

/// The spaces of frames and windows depend on the screens and the tracked
/// windows alone.
pub proof fn lemma_spaces_agree(a: ReactorView, b: ReactorView, env: Surroundings)
    requires
        a.screens == b.screens,
        a.screen_spaces == b.screen_spaces,
    ensures
        forall|s: SpaceId| #[trigger] a.screen_showing(s) == b.screen_showing(s),
        forall|f: Frame| #[trigger] a.center_space(f, env) == b.center_space(f, env),
        forall|f: Frame| #[trigger] a.frame_space(f, env) == b.frame_space(f, env),
        forall|f: Frame, w: Option<WindowServerId>| #[trigger]
            a.window_space(f, w, env) == b.window_space(f, w, env),
        a.windows == b.windows ==> forall|w: WindowId| #[trigger]
            a.tracked_space(w, env) == b.tracked_space(w, env),
{
    assert forall|i: int| #[trigger] a.space_at(i) == b.space_at(i) by {}
    assert forall|s: SpaceId| #[trigger] a.screen_showing(s) == b.screen_showing(s) by {
        assert(a.shows(s) =~= b.shows(s));
    }
    assert forall|f: Frame| #[trigger] a.center_space(f, env) == b.center_space(f, env) by {
        assert(a.holds_center(f, env) =~= b.holds_center(f, env));
    }
    assert forall|f: Frame| #[trigger] a.frame_space(f, env) == b.frame_space(f, env) by {
        assert(a.center_space(f, env) == b.center_space(f, env));
        assert(a.knows_space() =~= b.knows_space());
        assert(a.overlap(f, env) =~= b.overlap(f, env));
    }
    assert forall|f: Frame, w: Option<WindowServerId>| #[trigger]
        a.window_space(f, w, env) == b.window_space(f, w, env) by {
        assert(a.frame_space(f, env) == b.frame_space(f, env));
        if let Some(id) = w {
            if let Some(s) = lookup(env.window_spaces@, id) {
                assert(a.screen_showing(s) == b.screen_showing(s));
            }
        }
    }
    if a.windows == b.windows {
        assert forall|w: WindowId| #[trigger] a.tracked_space(w, env) == b.tracked_space(w, env) by {
            if let Some(state) = lookup(a.windows, w) {
                assert(a.window_space(state.frame_monotonic, state.window_server_id, env)
                    == b.window_space(state.frame_monotonic, state.window_server_id, env));
            }
        }
    }
}

} // verus!
