//! Which space a frame, a window or a point belongs to.
use crate::command::{Direction, DisplaySelector};
use crate::geometry::{toward, Frame, Gaps, Offset, Point, PointProbe};
use crate::ids::{SpaceId, WindowId, WindowServerId};
use crate::reactor::{Reactor, ReactorView};
use crate::search::{first, first_min, is_first_min, is_last_max, last_max};
use crate::search::{lemma_first_is, lemma_first_min_is, lemma_first_none, lemma_last_max_is};
use crate::state::Screen;
use crate::surroundings::Surroundings;
use crate::table::lookup;
use vstd::prelude::*;

verus! {

impl ReactorView {
    /// The space that the screen at `i` shows: its own, or else the last one
    /// that was known for it.
    pub open spec fn space_at(self, i: int) -> Option<SpaceId> {
        self.space_of_screen(self.screens[i])
    }

    pub open spec fn space_of_screen(self, screen: Screen) -> Option<SpaceId> {
        match screen.space {
            Some(space) => Some(space),
            None => lookup(self.screen_spaces, screen.screen_id),
        }
    }

    pub open spec fn shows(self, space: SpaceId) -> spec_fn(int) -> bool {
        |i: int| self.space_at(i) == Some(space)
    }

    /// The first screen that shows `space`.
    pub open spec fn screen_showing(self, space: SpaceId) -> Option<int> {
        first(self.screens.len() as int, self.shows(space))
    }

    pub open spec fn knows_space(self) -> spec_fn(int) -> bool {
        |i: int| self.space_at(i) is Some
    }

    pub open spec fn holds_center(self, frame: Frame, env: Surroundings) -> spec_fn(int) -> bool {
        |i: int| self.space_at(i) is Some && env.relation(frame, i).contains_center
    }

    pub open spec fn overlap(self, frame: Frame, env: Surroundings) -> spec_fn(int) -> int {
        |i: int| env.relation(frame, i).overlap as int
    }

    pub open spec fn space_at_index(self, i: Option<int>) -> Option<SpaceId> {
        match i {
            Some(i) => self.space_at(i),
            None => None,
        }
    }

    /// The space of the first screen that the midpoint of `frame` is on.
    pub open spec fn center_space(self, frame: Frame, env: Surroundings) -> Option<SpaceId> {
        self.space_at_index(first(self.screens.len() as int, self.holds_center(frame, env)))
    }

    /// The space of the screen that `frame` covers most of (the last of equals).
    pub open spec fn widest_space(self, frame: Frame, env: Surroundings) -> Option<SpaceId> {
        self.space_at_index(
            last_max(self.screens.len() as int, self.knows_space(), self.overlap(frame, env)),
        )
    }

    /// The space that a frame belongs to: that of the screen its midpoint is
    /// on, or else that of the screen it covers most of.
    pub open spec fn frame_space(self, frame: Frame, env: Surroundings) -> Option<SpaceId> {
        match self.center_space(frame, env) {
            Some(space) => Some(space),
            None => self.widest_space(frame, env),
        }
    }

    /// The space that the window server reports a window on, where a screen shows it.
    pub open spec fn reported_space(self, wsid: Option<WindowServerId>, env: Surroundings) -> Option<SpaceId> {
        match wsid {
            Some(id) => match lookup(env.window_spaces@, id) {
                Some(space) if self.screen_showing(space) is Some => Some(space),
                _ => None,
            },
            None => None,
        }
    }

    /// The space that a window belongs to: the one that the window server
    /// reports, or else the one of its frame.
    pub open spec fn window_space(
        self,
        frame: Frame,
        wsid: Option<WindowServerId>,
        env: Surroundings,
    ) -> Option<SpaceId> {
        match self.reported_space(wsid, env) {
            Some(space) => Some(space),
            None => self.frame_space(frame, env),
        }
    }

    /// The space of a window that is tracked.
    pub open spec fn tracked_space(self, window: WindowId, env: Surroundings) -> Option<SpaceId> {
        match lookup(self.windows, window) {
            Some(state) => self.window_space(state.frame_monotonic, state.window_server_id, env),
            None => None,
        }
    }

    /// The space of the main window.
    pub open spec fn main_space(self, env: Surroundings) -> Option<SpaceId> {
        match self.main_window {
            Some(window) => self.tracked_space(window, env),
            None => None,
        }
    }

    pub open spec fn point_on(self, probe: PointProbe) -> spec_fn(int) -> bool {
        |i: int| probe.is_on(i)
    }

    pub open spec fn point_distance(self, probe: PointProbe) -> spec_fn(int) -> int {
        |i: int| probe.distance_rank(i)
    }

    /// The first screen that a point is on.
    pub open spec fn screen_under(self, probe: PointProbe) -> Option<int> {
        first(self.screens.len() as int, self.point_on(probe))
    }

    /// The screen that is closest to a point (the first of equals).
    pub open spec fn screen_closest(self, probe: PointProbe) -> Option<int> {
        first_min(self.screens.len() as int, self.point_distance(probe))
    }

    /// The space of the screen that a point is on, or else of the closest screen.
    pub open spec fn point_space(self, probe: PointProbe) -> Option<SpaceId> {
        match self.screen_under(probe) {
            Some(i) => self.space_at(i),
            None => self.space_at_index(self.screen_closest(probe)),
        }
    }

    pub open spec fn cursor_space(self, env: Surroundings) -> Option<SpaceId> {
        match env.cursor {
            Some(probe) => self.point_space(probe),
            None => None,
        }
    }

    /// The space of the first screen that shows one.
    pub open spec fn first_space(self) -> Option<SpaceId> {
        self.space_at_index(first(self.screens.len() as int, self.knows_space()))
    }

    /// The space that a workspace command is about: where the cursor is, or
    /// else where the main window is, or else the system's active space, or
    /// else the first space that is known.
    pub open spec fn command_space(self, env: Surroundings) -> Option<SpaceId> {
        match self.cursor_space(env) {
            Some(space) => Some(space),
            None => match self.main_space(env) {
                Some(space) => Some(space),
                None => match env.active_space {
                    Some(space) => Some(space),
                    None => self.first_space(),
                },
            },
        }
    }

    /// The midpoint of the first screen that shows `space`.
    pub open spec fn center_of(self, space: SpaceId) -> Option<Point> {
        match self.screen_showing(space) {
            Some(i) => Some(self.screens[i].frame.center),
            None => None,
        }
    }

    pub open spec fn center_of_option(self, space: Option<SpaceId>) -> Option<Point> {
        match space {
            Some(space) => self.center_of(space),
            None => None,
        }
    }

    pub open spec fn cursor_center(self, env: Surroundings) -> Option<Point> {
        match env.cursor {
            Some(probe) => match self.screen_under(probe) {
                Some(i) => Some(self.screens[i].frame.center),
                None => None,
            },
            None => None,
        }
    }

    /// The midpoint of the current screen: the one that the cursor is on, or
    /// else the one that shows the main window's space, or else the system's
    /// active space, or else the first.
    pub open spec fn current_center(self, env: Surroundings) -> Option<Point> {
        match self.cursor_center(env) {
            Some(center) => Some(center),
            None => match self.center_of_option(self.main_space(env)) {
                Some(center) => Some(center),
                None => match self.center_of_option(env.active_space) {
                    Some(center) => Some(center),
                    None => if self.screens.len() > 0 {
                        Some(self.screens[0].frame.center)
                    } else {
                        None
                    },
                },
            },
        }
    }

    pub open spec fn is_on_any_screen(self, frame: Frame, env: Surroundings) -> bool {
        exists|i: int| 0 <= i < self.screens.len() && (#[trigger] env.relation(frame, i)).contains_center
    }

    /// `space` is what a screen itself says that it shows.
    pub open spec fn on_display(self, space: SpaceId) -> bool {
        exists|i: int| 0 <= i < self.screens.len() && (#[trigger] self.screens[i]).space == Some(space)
    }
}

/// `a` is to be preferred to `b`: nearer in the direction, or as near and less far off.
pub open spec fn nearer(a: Offset, b: Offset) -> bool {
    a.along.lt(b.along) || (a.along.eq_value(b.along) && a.across.lt(b.across))
}

/// Of the first `n` screens, the one that was preferred when each was held
/// against the best before it; screens that do not lie in the direction are
/// left out.
pub open spec fn best_toward(offsets: Seq<Offset>, n: int) -> Option<int>
    decreases n,
{
    if n <= 0 {
        None
    } else {
        let best = best_toward(offsets, n - 1);
        let o = offsets[n - 1];
        if o.along.at_most_zero() {
            best
        } else {
            match best {
                Some(k) if !nearer(o, offsets[k]) => best,
                _ => Some(n - 1),
            }
        }
    }
}

/// How screens lie to a point in a direction.
pub open spec fn offsets_toward(gaps: Seq<Gaps>, direction: Direction) -> Seq<Offset> {
    gaps.map_values(|g: Gaps| g.toward(direction))
}

impl ReactorView {
    pub open spec fn has_uuid(self, uuid: Seq<char>) -> spec_fn(int) -> bool {
        |i: int| self.screens[i].display_uuid@ == uuid
    }

    /// The point that a search for a display starts from.
    pub open spec fn origin(self, origin_override: Option<Point>, env: Surroundings) -> Option<Point> {
        match origin_override {
            Some(point) => Some(point),
            None => self.current_center(env),
        }
    }

    /// The screen that a selector names. `gaps` says how the screens lie to
    /// the starting point; without a starting point there is none.
    pub open spec fn selected(self, selector: DisplaySelector, gaps: Option<Seq<Gaps>>) -> Option<int> {
        match selector {
            DisplaySelector::Direction(direction) => match gaps {
                Some(gaps) => best_toward(offsets_toward(gaps, direction), self.screens.len() as int),
                None => None,
            },
            DisplaySelector::Index(index) => if index < self.screens.len() {
                Some(index as int)
            } else {
                None
            },
            DisplaySelector::Uuid(uuid) => first(self.screens.len() as int, self.has_uuid(uuid@)),
        }
    }
}

impl Reactor {
    /// The space that a screen shows.
    pub fn space_for_screen(&self, screen: &Screen) -> (r: Option<SpaceId>)
        ensures
            r == self@.space_of_screen(*screen),
    {
        match screen.space {
            Some(space) => Some(space),
            None => match self.space_manager.screen_space_by_id.get(screen.screen_id) {
                Some(space) => Some(*space),
                None => None,
            },
        }
    }

    /// The first screen that shows `space`, by its index. It is an assumption
    /// that a last known space counts as shown, and that of several screens the
    /// first is meant.
    pub fn screen_by_space(&self, space: SpaceId) -> (r: Option<usize>)
        ensures
            match r {
                Some(i) => self@.screen_showing(space) == Some(i as int) && i < self@.screens.len(),
                None => self@.screen_showing(space) is None,
            },
    {
        let ghost n = self@.screens.len() as int;
        let ghost p = self@.shows(space);
        let mut i: usize = 0;
        while i < self.space_manager.screens.len()
            invariant
                n == self@.screens.len(),
                p == self@.shows(space),
                0 <= i <= n,
                forall|j: int| 0 <= j < i ==> !(#[trigger] p(j)),
            decreases n - i,
        {
            if self.space_for_screen(&self.space_manager.screens[i]) == Some(space) {
                proof {
                    assert(p(i as int));
                    lemma_first_is(n, p, i as int);
                }
                return Some(i);
            }
            i += 1;
        }
        proof {
            lemma_first_none(n, p);
        }
        None
    }

    /// The space of the first screen that the midpoint of `frame` is on.
    pub fn drag_space_candidate(&self, frame: &Frame, env: &Surroundings) -> (r: Option<SpaceId>)
        ensures
            r == self@.center_space(*frame, *env),
    {
        let ghost n = self@.screens.len() as int;
        let ghost p = self@.holds_center(*frame, *env);
        let mut i: usize = 0;
        while i < self.space_manager.screens.len()
            invariant
                n == self@.screens.len(),
                p == self@.holds_center(*frame, *env),
                0 <= i <= n,
                forall|j: int| 0 <= j < i ==> !(#[trigger] p(j)),
            decreases n - i,
        {
            let space = self.space_for_screen(&self.space_manager.screens[i]);
            if space.is_some() && env.relation_to(frame, i).contains_center {
                proof {
                    assert(p(i as int));
                    lemma_first_is(n, p, i as int);
                }
                return space;
            }
            i += 1;
        }
        proof {
            lemma_first_none(n, p);
        }
        None
    }

    /// The space that a frame belongs to.
    pub fn best_space_for_frame(&self, frame: &Frame, env: &Surroundings) -> (r: Option<SpaceId>)
        ensures
            r == self@.frame_space(*frame, *env),
    {
        let centered = self.drag_space_candidate(frame, env);
        if centered.is_some() {
            return centered;
        }
        let ghost n = self@.screens.len() as int;
        let ghost p = self@.knows_space();
        let ghost key = self@.overlap(*frame, *env);
        let mut best: Option<(i64, SpaceId)> = None;
        let ghost mut at: int = 0;
        let mut i: usize = 0;
        while i < self.space_manager.screens.len()
            invariant
                n == self@.screens.len(),
                p == self@.knows_space(),
                key == self@.overlap(*frame, *env),
                0 <= i <= n,
                match best {
                    Some((area, space)) => {
                        &&& is_last_max(i as int, p, key, at)
                        &&& area == key(at)
                        &&& self@.space_at(at) == Some(space)
                    },
                    None => forall|j: int| 0 <= j < i ==> !(#[trigger] p(j)),
                },
            decreases n - i,
        {
            let space = self.space_for_screen(&self.space_manager.screens[i]);
            if let Some(space) = space {
                let area: i64 = env.relation_to(frame, i).overlap;
                let wider = match best {
                    Some((widest, _)) => area >= widest,
                    None => true,
                };
                proof {
                    assert(p(i as int));
                    assert(key(i as int) == area);
                }
                if wider {
                    best = Some((area, space));
                    proof {
                        at = i as int;
                    }
                }
            } else {
                assert(!p(i as int));
            }
            i += 1;
        }
        match best {
            Some((_, space)) => {
                proof {
                    lemma_last_max_is(n, p, key, at);
                }
                Some(space)
            },
            None => None,
        }
    }

    /// The space that a window belongs to.
    pub fn best_space_for_window(
        &self,
        frame: &Frame,
        window_server_id: Option<WindowServerId>,
        env: &Surroundings,
    ) -> (r: Option<SpaceId>)
        ensures
            r == self@.window_space(*frame, window_server_id, *env),
    {
        if let Some(server_id) = window_server_id {
            if let Some(space) = env.window_spaces.get(server_id) {
                if self.screen_by_space(*space).is_some() {
                    return Some(*space);
                }
            }
        }
        self.best_space_for_frame(frame, env)
    }

    /// The space of a window that is tracked.
    pub fn best_space_for_window_id(&self, wid: WindowId, env: &Surroundings) -> (r: Option<SpaceId>)
        ensures
            r == self@.tracked_space(wid, *env),
    {
        match self.window_manager.windows.get(wid) {
            Some(window) => self.best_space_for_window(
                &window.frame_monotonic,
                window.window_server_id,
                env,
            ),
            None => None,
        }
    }

    pub fn main_window(&self) -> (r: Option<WindowId>)
        ensures
            r == self@.main_window,
    {
        self.main_window_tracker_manager.main_window
    }

    pub fn main_window_space(&self, env: &Surroundings) -> (r: Option<SpaceId>)
        ensures
            r == self@.main_space(*env),
    {
        match self.main_window() {
            Some(wid) => self.best_space_for_window_id(wid, env),
            None => None,
        }
    }

    /// The first screen that a point is on.
    pub fn screen_for_point(&self, point: &PointProbe) -> (r: Option<usize>)
        ensures
            match r {
                Some(i) => self@.screen_under(*point) == Some(i as int) && i < self@.screens.len(),
                None => self@.screen_under(*point) is None,
            },
    {
        let ghost n = self@.screens.len() as int;
        let ghost p = self@.point_on(*point);
        let mut i: usize = 0;
        while i < self.space_manager.screens.len()
            invariant
                n == self@.screens.len(),
                p == self@.point_on(*point),
                0 <= i <= n,
                forall|j: int| 0 <= j < i ==> !(#[trigger] p(j)),
            decreases n - i,
        {
            if point.contained_in(i) {
                proof {
                    assert(p(i as int));
                    lemma_first_is(n, p, i as int);
                }
                return Some(i);
            }
            i += 1;
        }
        proof {
            lemma_first_none(n, p);
        }
        None
    }

    /// The screen that is closest to a point.
    pub fn closest_screen_to_point(&self, point: &PointProbe) -> (r: Option<usize>)
        ensures
            match r {
                Some(i) => self@.screen_closest(*point) == Some(i as int) && i < self@.screens.len(),
                None => self@.screen_closest(*point) is None,
            },
    {
        let ghost n = self@.screens.len() as int;
        let ghost key = self@.point_distance(*point);
        if self.space_manager.screens.len() == 0 {
            return None;
        }
        let mut best: usize = 0;
        let mut i: usize = 1;
        while i < self.space_manager.screens.len()
            invariant
                n == self@.screens.len(),
                key == self@.point_distance(*point),
                1 <= i <= n,
                is_first_min(i as int, key, best as int),
            decreases n - i,
        {
            if point.distance(i).totally_before(&point.distance(best)) {
                proof {
                    assert(key(i as int) < key(best as int));
                }
                best = i;
            } else {
                assert(key(best as int) <= key(i as int));
            }
            i += 1;
        }
        proof {
            lemma_first_min_is(n, key, best as int);
        }
        Some(best)
    }

    pub fn space_for_point(&self, point: &PointProbe) -> (r: Option<SpaceId>)
        ensures
            r == self@.point_space(*point),
    {
        let screen = match self.screen_for_point(point) {
            Some(i) => Some(i),
            None => self.closest_screen_to_point(point),
        };
        match screen {
            Some(i) => self.space_for_screen(&self.space_manager.screens[i]),
            None => None,
        }
    }

    /// The space of the screen that the cursor is on or closest to.
    pub fn space_for_cursor_screen(&self, env: &Surroundings) -> (r: Option<SpaceId>)
        ensures
            r == self@.cursor_space(*env),
    {
        match &env.cursor {
            Some(point) => self.space_for_point(point),
            None => None,
        }
    }

    /// The space of the first screen that shows one. It is an assumption that
    /// spaces are known in the order of their screens.
    pub fn first_known_space(&self) -> (r: Option<SpaceId>)
        ensures
            r == self@.first_space(),
    {
        let ghost n = self@.screens.len() as int;
        let ghost p = self@.knows_space();
        let mut i: usize = 0;
        while i < self.space_manager.screens.len()
            invariant
                n == self@.screens.len(),
                p == self@.knows_space(),
                0 <= i <= n,
                forall|j: int| 0 <= j < i ==> !(#[trigger] p(j)),
            decreases n - i,
        {
            let space = self.space_for_screen(&self.space_manager.screens[i]);
            if space.is_some() {
                proof {
                    assert(p(i as int));
                    lemma_first_is(n, p, i as int);
                }
                return space;
            }
            i += 1;
        }
        proof {
            lemma_first_none(n, p);
        }
        None
    }

    /// The space that a workspace command is about.
    pub fn workspace_command_space(&self, env: &Surroundings) -> (r: Option<SpaceId>)
        ensures
            r == self@.command_space(*env),
    {
        if let Some(space) = self.space_for_cursor_screen(env) {
            return Some(space);
        }
        if let Some(space) = self.main_window_space(env) {
            return Some(space);
        }
        if let Some(space) = env.active_space {
            return Some(space);
        }
        self.first_known_space()
    }

    /// The midpoint of the screen that shows `space`.
    pub fn center_of_space(&self, space: SpaceId) -> (r: Option<Point>)
        ensures
            r == self@.center_of(space),
    {
        match self.screen_by_space(space) {
            Some(i) => Some(self.space_manager.screens[i].frame.center),
            None => None,
        }
    }

    /// The midpoint of the current screen.
    pub fn current_screen_center(&self, env: &Surroundings) -> (r: Option<Point>)
        ensures
            r == self@.current_center(*env),
    {
        if let Some(point) = &env.cursor {
            if let Some(i) = self.screen_for_point(point) {
                return Some(self.space_manager.screens[i].frame.center);
            }
        }
        if let Some(space) = self.main_window_space(env) {
            if let Some(center) = self.center_of_space(space) {
                return Some(center);
            }
        }
        if let Some(space) = env.active_space {
            if let Some(center) = self.center_of_space(space) {
                return Some(center);
            }
        }
        if self.space_manager.screens.len() > 0 {
            Some(self.space_manager.screens[0].frame.center)
        } else {
            None
        }
    }

    /// The nearest screen in a direction, given how each lies to the point
    /// that the search starts from.
    pub fn screen_for_direction_from_point(&self, direction: Direction, gaps: &Vec<Gaps>) -> (r: Option<usize>)
        requires
            gaps@.len() == self@.screens.len(),
        ensures
            ({
                let best = best_toward(offsets_toward(gaps@, direction), self@.screens.len() as int);
                match r {
                    Some(i) => best == Some(i as int) && i < self@.screens.len(),
                    None => best is None,
                }
            }),
    {
        let ghost offsets = offsets_toward(gaps@, direction);
        let mut best: Option<usize> = None;
        let mut i: usize = 0;
        while i < gaps.len()
            invariant
                0 <= i <= gaps@.len(),
                offsets == offsets_toward(gaps@, direction),
                match best {
                    Some(k) => best_toward(offsets, i as int) == Some(k as int) && k < i,
                    None => best_toward(offsets, i as int) is None,
                },
            decreases gaps@.len() - i,
        {
            let o = toward(direction, &gaps[i]);
            assert(o == offsets[i as int]);
            if !o.along.is_at_most_zero() {
                let should_replace = match best {
                    Some(k) => {
                        let b = toward(direction, &gaps[k]);
                        assert(b == offsets[k as int]);
                        o.along.less_than(&b.along) || (o.along.equals(&b.along)
                            && o.across.less_than(&b.across))
                    },
                    None => true,
                };
                if should_replace {
                    best = Some(i);
                }
            }
            i += 1;
        }
        best
    }

    /// The point that a search for a display starts from.
    pub fn selector_origin(&self, origin_override: Option<Point>, env: &Surroundings) -> (r: Option<Point>)
        ensures
            r == self@.origin(origin_override, *env),
    {
        match origin_override {
            Some(point) => Some(point),
            None => self.current_screen_center(env),
        }
    }

    /// The screen that a selector names.
    pub fn screen_for_selector(
        &self,
        selector: &DisplaySelector,
        gaps: Option<&Vec<Gaps>>,
    ) -> (r: Option<usize>)
        requires
            match gaps {
                Some(gaps) => gaps@.len() == self@.screens.len(),
                None => true,
            },
        ensures
            ({
                let named = self@.selected(
                    *selector,
                    match gaps {
                        Some(gaps) => Some(gaps@),
                        None => None,
                    },
                );
                match r {
                    Some(i) => named == Some(i as int) && i < self@.screens.len(),
                    None => named is None,
                }
            }),
    {
        match selector {
            DisplaySelector::Direction(direction) => match gaps {
                Some(gaps) => self.screen_for_direction_from_point(*direction, gaps),
                None => None,
            },
            DisplaySelector::Index(index) => if *index < self.space_manager.screens.len() {
                Some(*index)
            } else {
                None
            },
            DisplaySelector::Uuid(uuid) => {
                let ghost n = self@.screens.len() as int;
                let ghost p = self@.has_uuid(uuid@);
                let mut i: usize = 0;
                while i < self.space_manager.screens.len()
                    invariant
                        n == self@.screens.len(),
                        p == self@.has_uuid(uuid@),
                        *selector == DisplaySelector::Uuid(*uuid),
                        0 <= i <= n,
                        forall|j: int| 0 <= j < i ==> !(#[trigger] p(j)),
                    decreases n - i,
                {
                    if self.space_manager.screens[i].display_uuid.eq(uuid) {
                        proof {
                            assert(p(i as int));
                            lemma_first_is(n, p, i as int);
                        }
                        return Some(i);
                    }
                    i += 1;
                }
                proof {
                    lemma_first_none(n, p);
                }
                None
            },
        }
    }

    /// The midpoint of `frame` is on one of the screens.
    pub fn is_center_on_screen(&self, frame: &Frame, env: &Surroundings) -> (r: bool)
        ensures
            r == self@.is_on_any_screen(*frame, *env),
    {
        let mut i: usize = 0;
        while i < self.space_manager.screens.len()
            invariant
                0 <= i <= self@.screens.len(),
                forall|j: int| 0 <= j < i ==> !(#[trigger] env.relation(*frame, j)).contains_center,
            decreases self@.screens.len() - i,
        {
            if env.relation_to(frame, i).contains_center {
                assert(env.relation(*frame, i as int).contains_center);
                return true;
            }
            i += 1;
        }
        false
    }

    /// `space` is what a screen itself says that it shows.
    pub fn is_space_on_display(&self, space: SpaceId) -> (r: bool)
        ensures
            r == self@.on_display(space),
    {
        let mut i: usize = 0;
        while i < self.space_manager.screens.len()
            invariant
                0 <= i <= self@.screens.len(),
                forall|j: int| 0 <= j < i ==> (#[trigger] self@.screens[j]).space != Some(space),
            decreases self@.screens.len() - i,
        {
            if self.space_manager.screens[i].space == Some(space) {
                assert(self@.screens[i as int].space == Some(space));
                return true;
            }
            i += 1;
        }
        false
    }
}

} // verus!
