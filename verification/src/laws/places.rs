//! What holds of the space that a frame, a window or a point belongs to.
use crate::command::{Direction, DisplaySelector};
use crate::geometry::{Frame, Gaps, Offset, Point, PointProbe, Scalar, ScreenRelation, Span, INFINITY_BITS, SIGN_BIT};
use crate::ids::{SpaceId, WindowId, WindowServerId};
use crate::laws::spaces::{law_closest_screen, law_nearest_display};
use crate::reactor::spaces::{best_toward, nearer, offsets_toward};
use crate::reactor::ReactorView;
use crate::search::{first, is_first, is_last_max, lemma_first_exists, lemma_first_is, lemma_first_none};
use crate::search::lemma_last_max_is;
use crate::state::Screen;
use crate::surroundings::Surroundings;
use crate::table::lookup;
use vstd::prelude::*;

verus! {

/// The screen at `i` shows `space`: it says so itself, or says nothing and was
/// last known to.
pub open spec fn is_shown_at(state: ReactorView, i: int, space: SpaceId) -> bool {
    &&& 0 <= i < state.screens.len()
    &&& match state.screens[i].space {
        Some(own) => own == space,
        None => lookup(state.screen_spaces, state.screens[i].screen_id) == Some(space),
    }
}

/// The screen at `i` says nothing of a space, and none is known of it.
pub open spec fn shows_nothing(state: ReactorView, i: int) -> bool {
    state.screens[i].space is None && lookup(state.screen_spaces, state.screens[i].screen_id) is None
}

/// The screen at `k` is the first that shows `space`.
pub open spec fn is_first_showing(state: ReactorView, k: int, space: SpaceId) -> bool {
    is_shown_at(state, k, space) && forall|j: int| 0 <= j < k ==> !(#[trigger] is_shown_at(state, j, space))
}

/// A screen's own word on its space counts, and only where it has none what
/// was last known of that screen.
pub proof fn law_screens_know_their_space(state: ReactorView, screen: Screen)
    ensures
        screen.space is Some ==> state.space_of_screen(screen) == screen.space,
        screen.space is None ==> state.space_of_screen(screen) == lookup(state.screen_spaces, screen.screen_id),
{
}

proof fn lemma_space_at(state: ReactorView, i: int)
    requires
        0 <= i < state.screens.len(),
    ensures
        forall|space: SpaceId| state.space_at(i) == Some(space) <==> #[trigger] is_shown_at(state, i, space),
        state.space_at(i) is None <==> shows_nothing(state, i),
{
}

/// The screen of a space is the first that shows it, and there is none exactly
/// where no screen does. Its midpoint is the middle of that screen.
pub proof fn law_spaces_are_found_on_their_screens(state: ReactorView, space: SpaceId)
    ensures
        match state.screen_showing(space) {
            Some(k) => is_first_showing(state, k, space) && state.center_of(space) == Some(
                state.screens[k].frame.center,
            ),
            None => state.center_of(space) is None && forall|i: int| !(#[trigger] is_shown_at(state, i, space)),
        },
{
    let n = state.screens.len() as int;
    let p = state.shows(space);
    assert forall|i: int| 0 <= i < n implies p(i) == #[trigger] is_shown_at(state, i, space) by {}
    match state.screen_showing(space) {
        Some(k) => {
            assert(exists|i: int| is_first(n, p, i));
            assert(is_first(n, p, k));
            assert forall|j: int| 0 <= j < k implies !(#[trigger] is_shown_at(state, j, space)) by {
                assert(!p(j));
            }
        },
        None => {
            assert forall|i: int| !(#[trigger] is_shown_at(state, i, space)) by {
                if is_shown_at(state, i, space) {
                    assert(p(i));
                    lemma_first_exists(n, p, i);
                }
            }
        },
    }
}

/// It is known how `frame` lies to each screen: as the rows of `row` say.
pub open spec fn lies_as(state: ReactorView, frame: Frame, env: Surroundings, row: Seq<ScreenRelation>) -> bool {
    row.len() == state.screens.len() && (lookup(env.relations@, frame) matches Some(known) && known@ == row)
}

/// A frame belongs to the first screen that its middle is on, of those that
/// show a space.
pub proof fn law_frames_belong_where_their_middle_is(
    state: ReactorView,
    frame: Frame,
    env: Surroundings,
    row: Seq<ScreenRelation>,
    k: int,
    space: SpaceId,
)
    requires
        lies_as(state, frame, env, row),
        is_shown_at(state, k, space),
        row[k].contains_center,
        forall|j: int| 0 <= j < k && (#[trigger] row[j]).contains_center ==> shows_nothing(state, j),
    ensures
        state.center_space(frame, env) == Some(space),
        state.frame_space(frame, env) == Some(space),
{
    let n = state.screens.len() as int;
    let p = state.holds_center(frame, env);
    assert(env.relation(frame, k) == row[k]);
    assert(p(k));
    assert forall|j: int| 0 <= j < k implies !(#[trigger] p(j)) by {
        assert(env.relation(frame, j) == row[j]);
    }
    lemma_first_is(n, p, k);
}

/// A frame whose middle is on no screen that shows a space belongs to the one
/// of these that it covers most of, and to the last of those that tie.
pub proof fn law_other_frames_belong_where_they_cover_most(
    state: ReactorView,
    frame: Frame,
    env: Surroundings,
    row: Seq<ScreenRelation>,
    k: int,
    space: SpaceId,
)
    requires
        lies_as(state, frame, env, row),
        forall|j: int| 0 <= j < row.len() && (#[trigger] row[j]).contains_center ==> shows_nothing(state, j),
        is_shown_at(state, k, space),
        forall|j: int|
            0 <= j < row.len() && !shows_nothing(state, j) ==> (#[trigger] row[j]).overlap < row[k].overlap || (
            row[j].overlap == row[k].overlap && j <= k),
    ensures
        state.center_space(frame, env) is None,
        state.frame_space(frame, env) == Some(space),
{
    let n = state.screens.len() as int;
    let p = state.holds_center(frame, env);
    assert forall|j: int| 0 <= j < n implies !(#[trigger] p(j)) by {
        assert(env.relation(frame, j) == row[j]);
    }
    lemma_first_none(n, p);
    let knows = state.knows_space();
    let key = state.overlap(frame, env);
    assert forall|j: int| 0 <= j < n && #[trigger] knows(j) implies key(j) < key(k) || (key(j) == key(k) && j <= k) by {
        assert(env.relation(frame, j) == row[j]);
        assert(env.relation(frame, k) == row[k]);
        assert(!shows_nothing(state, j));
    }
    assert(knows(k));
    assert(is_last_max(n, knows, key, k));
    lemma_last_max_is(n, knows, key, k);
}

/// A window belongs to the space that the window server reports, where some
/// screen shows it; in every other case to the space of its frame.
pub proof fn law_frames_count_where_no_report_does(
    state: ReactorView,
    frame: Frame,
    wsid: Option<WindowServerId>,
    env: Surroundings,
)
    ensures
        match wsid {
            Some(id) => match lookup(env.window_spaces@, id) {
                Some(space) => {
                    &&& (exists|i: int| #[trigger] is_shown_at(state, i, space)) ==> state.window_space(frame, wsid, env)
                        == Some(space)
                    &&& (forall|i: int| !(#[trigger] is_shown_at(state, i, space))) ==> state.window_space(
                        frame,
                        wsid,
                        env,
                    ) == state.frame_space(frame, env)
                },
                None => state.window_space(frame, wsid, env) == state.frame_space(frame, env),
            },
            None => state.window_space(frame, wsid, env) == state.frame_space(frame, env),
        },
{
    if let Some(id) = wsid {
        if let Some(space) = lookup(env.window_spaces@, id) {
            law_spaces_are_found_on_their_screens(state, space);
        }
    }
}

/// A tracked window belongs to the space that its own frame and its own id with
/// the window server have; a window that is not tracked belongs to none. The
/// main window is no exception.
pub proof fn law_windows_belong_by_what_is_tracked(state: ReactorView, window: WindowId, env: Surroundings)
    ensures
        lookup(state.windows, window) is None ==> state.tracked_space(window, env) is None,
        lookup(state.windows, window) matches Some(known) ==> state.tracked_space(window, env)
            == state.window_space(known.frame_monotonic, known.window_server_id, env),
        state.main_window == Some(window) ==> state.main_space(env) == state.tracked_space(window, env),
        state.main_window is None ==> state.main_space(env) is None,
{
}

/// The screen at `k` is the first that contains the point.
pub open spec fn is_first_under(state: ReactorView, probe: PointProbe, k: int) -> bool {
    &&& 0 <= k < state.screens.len()
    &&& k < probe.contained@.len()
    &&& probe.contained@[k]
    &&& forall|j: int| 0 <= j < k ==> !(#[trigger] probe.contained@[j])
}

/// A point is on the first screen that contains it, and on none exactly where
/// none does.
pub proof fn law_points_are_on_the_screen_that_contains_them(state: ReactorView, probe: PointProbe)
    requires
        probe.contained@.len() == state.screens.len(),
    ensures
        match state.screen_under(probe) {
            Some(k) => is_first_under(state, probe, k),
            None => forall|i: int| 0 <= i < probe.contained@.len() ==> !(#[trigger] probe.contained@[i]),
        },
{
    let n = state.screens.len() as int;
    let p = state.point_on(probe);
    match state.screen_under(probe) {
        Some(k) => {
            assert(exists|i: int| is_first(n, p, i));
            assert(is_first(n, p, k));
            assert forall|j: int| 0 <= j < k implies !(#[trigger] probe.contained@[j]) by {
                assert(!p(j));
            }
        },
        None => {
            assert forall|i: int| 0 <= i < probe.contained@.len() implies !(#[trigger] probe.contained@[i]) by {
                if probe.contained@[i] {
                    assert(p(i));
                    lemma_first_exists(n, p, i);
                }
            }
        },
    }
}

/// A point belongs to the space of the screen that it is on. Where it is on
/// none, it belongs to the space of the screen that is closest; and the cursor
/// belongs where its point does.
pub proof fn law_points_belong_to_their_screen(state: ReactorView, probe: PointProbe, k: int, space: SpaceId)
    requires
        probe.contained@.len() == state.screens.len(),
        probe.distances@.len() == state.screens.len(),
        is_first_under(state, probe, k) || {
            &&& 0 <= k < state.screens.len()
            &&& forall|i: int| 0 <= i < probe.contained@.len() ==> !(#[trigger] probe.contained@[i])
            &&& forall|i: int|
                0 <= i < probe.distances@.len() ==> (probe.distances@[k].total_rank() < (
                #[trigger] probe.distances@[i]).total_rank() || (probe.distances@[k] == probe.distances@[i] && k
                    <= i))
        },
    ensures
        state.point_space(probe) == Some(space) <==> is_shown_at(state, k, space),
{
    law_points_are_on_the_screen_that_contains_them(state, probe);
    lemma_space_at(state, k);
    match state.screen_under(probe) {
        Some(i) => {
            if i < k {
                assert(probe.contained@[i]);
            } else if k < i {
                assert(probe.contained@[k]);
            }
        },
        None => {
            law_closest_screen(state, probe);
            let i = state.screen_closest(probe)->0;
            assert(probe.distance_rank(i) <= probe.distance_rank(k));
            assert(probe.distances@[k].total_rank() <= probe.distances@[i].total_rank());
            if i < k {
                assert(probe.distances@[i].total_rank() != probe.distances@[k].total_rank());
            } else if k < i {
                assert(probe.distance_rank(i) < probe.distance_rank(k));
            }
        },
    }
}

/// The cursor is where its point is, and nowhere where there is none.
pub proof fn law_cursors_are_where_their_point_is(state: ReactorView, env: Surroundings)
    ensures
        env.cursor matches Some(probe) ==> state.cursor_space(env) == state.point_space(probe),
        env.cursor is None ==> state.cursor_space(env) is None,
{
}

/// A command is about the space of the cursor; without one, about that of the
/// main window; without one, about the system's active space; and only where
/// there is none of these, about the space of the first screen that shows one.
pub proof fn law_commands_are_about_the_nearest_space(state: ReactorView, env: Surroundings)
    ensures
        state.cursor_space(env) is Some ==> state.command_space(env) == state.cursor_space(env),
        state.cursor_space(env) is None && state.main_space(env) is Some ==> state.command_space(env)
            == state.main_space(env),
        state.cursor_space(env) is None && state.main_space(env) is None && env.active_space is Some
            ==> state.command_space(env) == env.active_space,
        state.cursor_space(env) is None && state.main_space(env) is None && env.active_space is None ==> {
            match state.command_space(env) {
                Some(space) => exists|k: int| #[trigger]
                    is_shown_at(state, k, space) && forall|j: int|
                        0 <= j < k ==> #[trigger] shows_nothing(state, j),
                None => forall|i: int| 0 <= i < state.screens.len() ==> #[trigger] shows_nothing(state, i),
            }
        },
{
    let n = state.screens.len() as int;
    let p = state.knows_space();
    match first(n, p) {
        Some(k) => {
            assert(exists|i: int| is_first(n, p, i));
            assert(is_first(n, p, k));
            lemma_space_at(state, k);
            let space = state.space_at(k)->0;
            assert(is_shown_at(state, k, space));
            assert forall|j: int| 0 <= j < k implies #[trigger] shows_nothing(state, j) by {
                assert(!p(j));
                lemma_space_at(state, j);
            }
        },
        None => {
            assert forall|i: int| 0 <= i < n implies #[trigger] shows_nothing(state, i) by {
                lemma_space_at(state, i);
                if p(i) {
                    lemma_first_exists(n, p, i);
                }
            }
        },
    }
    assert(state.first_space() == state.space_at_index(first(n, p)));
}

/// The current screen is the one that the cursor is on; or else the one that
/// shows the main window's space; or else the one that shows the system's active
/// space; or else the first. A search for a display starts from its middle,
/// unless another point is given.
pub proof fn law_searches_start_from_the_current_screen(
    state: ReactorView,
    env: Surroundings,
    given: Option<Point>,
)
    ensures
        given is Some ==> state.origin(given, env) == given,
        given is None ==> state.origin(given, env) == state.current_center(env),
        ({
            let under = match env.cursor {
                Some(probe) => state.screen_under(probe),
                None => None,
            };
            let main = match state.main_space(env) {
                Some(space) => state.screen_showing(space),
                None => None,
            };
            let active = match env.active_space {
                Some(space) => state.screen_showing(space),
                None => None,
            };
            let center = state.current_center(env);
            &&& under matches Some(k) ==> center == Some(state.screens[k].frame.center)
            &&& under is None ==> (main matches Some(k) ==> center == Some(state.screens[k].frame.center))
            &&& under is None && main is None ==> (active matches Some(k) ==> center == Some(
                state.screens[k].frame.center,
            ))
            &&& under is None && main is None && active is None ==> center == (if state.screens.len() == 0 {
                None
            } else {
                Some(state.screens[0].frame.center)
            })
        }),
{
}

/// A display that is named by its place is that one, where there are so many;
/// one that is named by its identifier is the first that has it.
pub proof fn law_named_displays_are_found(state: ReactorView, index: usize, uuid: String, gaps: Option<Seq<Gaps>>)
    ensures
        match state.selected(DisplaySelector::Index(index), gaps) {
            Some(k) => k == index && index < state.screens.len(),
            None => index >= state.screens.len(),
        },
        match state.selected(DisplaySelector::Uuid(uuid), gaps) {
            Some(k) => {
                &&& 0 <= k < state.screens.len()
                &&& state.screens[k].display_uuid@ == uuid@
                &&& forall|j: int| 0 <= j < k ==> (#[trigger] state.screens[j]).display_uuid@ != uuid@
            },
            None => forall|j: int|
                0 <= j < state.screens.len() ==> (#[trigger] state.screens[j]).display_uuid@ != uuid@,
        },
{
    let n = state.screens.len() as int;
    let p = state.has_uuid(uuid@);
    match first(n, p) {
        Some(k) => {
            assert(exists|i: int| is_first(n, p, i));
            assert(is_first(n, p, k));
            assert forall|j: int| 0 <= j < k implies (#[trigger] state.screens[j]).display_uuid@ != uuid@ by {
                assert(!p(j));
            }
        },
        None => {
            assert forall|j: int| 0 <= j < n implies (#[trigger] state.screens[j]).display_uuid@ != uuid@ by {
                if p(j) {
                    lemma_first_exists(n, p, j);
                }
            }
        },
    }
}

/// How far the midpoint lies in the direction: to the left and to the right
/// along one axis, up and down along the other.
pub open spec fn ahead(gaps: Gaps, direction: Direction) -> Scalar {
    match direction {
        Direction::Left => gaps.left,
        Direction::Right => gaps.right,
        Direction::Up => gaps.up,
        Direction::Down => gaps.down,
    }
}

/// How far the midpoint lies off the direction: the distance on the other axis.
pub open spec fn aside(gaps: Gaps, direction: Direction) -> Scalar {
    if direction is Left || direction is Right {
        gaps.vertical
    } else {
        gaps.horizontal
    }
}

/// In a direction, the display is chosen that lies ahead by the least; of those
/// that lie ahead by as much, the one that is the least aside; of those, the
/// first. Without a starting point there is none.
pub proof fn law_displays_are_chosen_ahead(state: ReactorView, direction: Direction, gaps: Seq<Gaps>)
    requires
        gaps.len() == state.screens.len(),
        forall|i: int|
            0 <= i < gaps.len() ==> ahead(#[trigger] gaps[i], direction).is_number() && aside(
                gaps[i],
                direction,
            ).is_number(),
    ensures
        state.selected(DisplaySelector::Direction(direction), None) is None,
        match state.selected(DisplaySelector::Direction(direction), Some(gaps)) {
            Some(k) => {
                &&& 0 <= k < gaps.len()
                &&& Scalar(0).lt(ahead(gaps[k], direction))
                &&& forall|j: int|
                    0 <= j < gaps.len() && Scalar(0).lt(ahead(#[trigger] gaps[j], direction)) ==> {
                        ||| ahead(gaps[k], direction).lt(ahead(gaps[j], direction))
                        ||| ahead(gaps[k], direction).eq_value(ahead(gaps[j], direction)) && aside(
                            gaps[k],
                            direction,
                        ).lt(aside(gaps[j], direction))
                        ||| ahead(gaps[k], direction).eq_value(ahead(gaps[j], direction)) && aside(
                            gaps[k],
                            direction,
                        ).eq_value(aside(gaps[j], direction)) && k <= j
                    }
            },
            None => forall|j: int| 0 <= j < gaps.len() ==> !Scalar(0).lt(ahead(#[trigger] gaps[j], direction)),
        },
{
    let offsets = offsets_toward(gaps, direction);
    assert forall|j: int| 0 <= j < gaps.len() implies #[trigger] offsets[j] == (Offset {
        along: ahead(gaps[j], direction),
        across: aside(gaps[j], direction),
    }) by {}
    assert(crate::laws::spaces::are_numbers(offsets)) by {
        assert forall|i: int| 0 <= i < offsets.len() implies (#[trigger] offsets[i]).along.is_number()
            && offsets[i].across.is_number() by {
            assert(ahead(gaps[i], direction).is_number());
        }
    }
    law_nearest_display(offsets, gaps.len() as int);
    match best_toward(offsets, gaps.len() as int) {
        Some(k) => {
            assert forall|j: int|
                0 <= j < gaps.len() && Scalar(0).lt(ahead(#[trigger] gaps[j], direction)) implies {
                ||| ahead(gaps[k], direction).lt(ahead(gaps[j], direction))
                ||| ahead(gaps[k], direction).eq_value(ahead(gaps[j], direction)) && aside(gaps[k], direction).lt(
                    aside(gaps[j], direction),
                )
                ||| ahead(gaps[k], direction).eq_value(ahead(gaps[j], direction)) && aside(
                    gaps[k],
                    direction,
                ).eq_value(aside(gaps[j], direction)) && k <= j
            } by {
                assert(!nearer(offsets[j], offsets[k]));
                if j < k {
                    assert(nearer(offsets[k], offsets[j]));
                }
            }
        },
        None => {
            assert forall|j: int| 0 <= j < gaps.len() implies !Scalar(0).lt(ahead(#[trigger] gaps[j], direction)) by {
                assert(offsets[j].along.at_most_zero());
            }
        },
    }
}

/// A space is on display exactly where a screen itself says that it shows it;
/// a space that was only last known does not count.
pub proof fn law_display_is_what_screens_say(state: ReactorView, space: SpaceId)
    ensures
        state.on_display(space) <==> exists|i: int|
            0 <= i < state.screens.len() && (#[trigger] state.screens[i]).space == Some(space),
        state.on_display(space) ==> state.screen_showing(space) is Some,
{
    if state.on_display(space) {
        let i = choose|i: int| 0 <= i < state.screens.len() && (#[trigger] state.screens[i]).space == Some(space);
        assert(is_shown_at(state, i, space));
        law_spaces_are_found_on_their_screens(state, space);
    }
}

/// Doubles are compared by their value: a pattern with the sign bit is negative,
/// a larger pattern is a larger magnitude, and both zeros are the same number.
/// What is no number is neither smaller nor larger than anything, nor equal.
pub proof fn law_doubles_are_compared_by_value(a: Scalar, b: Scalar)
    ensures
        a.0 < SIGN_BIT && b.0 < SIGN_BIT && a.0 <= INFINITY_BITS && b.0 <= INFINITY_BITS ==> (a.lt(b) <==> a.0 < b.0),
        a.0 >= SIGN_BIT && b.0 >= SIGN_BIT && a.is_number() && b.is_number() ==> (a.lt(b) <==> a.0 > b.0),
        a.0 >= SIGN_BIT && b.0 < SIGN_BIT && a.is_number() && b.is_number() ==> (a.lt(b) <==> a.0 != SIGN_BIT || b.0
            != 0) && !b.lt(a),
        a.is_number() <==> a.0 <= INFINITY_BITS || SIGN_BIT <= a.0 <= SIGN_BIT + INFINITY_BITS,
        !a.is_number() ==> !a.lt(b) && !b.lt(a) && !a.eq_value(b) && !b.eq_value(a) && !a.at_most_zero(),
        a.is_number() && b.is_number() ==> (a.eq_value(b) <==> !a.lt(b) && !b.lt(a)),
        a.at_most_zero() <==> a.is_number() && !Scalar(0).lt(a),
        a.0 < SIGN_BIT && b.0 < SIGN_BIT ==> (a.total_rank() < b.total_rank() <==> a.0 < b.0),
        a.0 >= SIGN_BIT && b.0 >= SIGN_BIT ==> (a.total_rank() < b.total_rank() <==> a.0 > b.0),
        a.0 >= SIGN_BIT && b.0 < SIGN_BIT ==> a.total_rank() < b.total_rank(),
        INFINITY_BITS == 0x7ff0_0000_0000_0000 && SIGN_BIT == 0x8000_0000_0000_0000,
{
}

/// Rectangles are equal exactly where their corners and their extents are.
pub proof fn law_rectangles_are_equal_by_corner_and_extent(a: Frame, b: Frame)
    requires
        a.origin.x.is_number() && a.origin.y.is_number() && a.size.width.is_number() && a.size.height.is_number(),
        b.origin.x.is_number() && b.origin.y.is_number() && b.size.width.is_number() && b.size.height.is_number(),
    ensures
        a.eq_value(a),
        a.eq_value(b) == b.eq_value(a),
        !a.eq_value(b) <==> {
            ||| a.origin.x.lt(b.origin.x) || b.origin.x.lt(a.origin.x)
            ||| a.origin.y.lt(b.origin.y) || b.origin.y.lt(a.origin.y)
            ||| a.size.width.lt(b.size.width) || b.size.width.lt(a.size.width)
            ||| a.size.height.lt(b.size.height) || b.size.height.lt(a.size.height)
        },
{
}

/// A direction looks along its own axis and sign, and off it along the other.
pub proof fn law_directions_have_their_axis(gaps: Gaps, direction: Direction)
    ensures
        gaps.toward(direction).along == ahead(gaps, direction),
        gaps.toward(direction).across == aside(gaps, direction),
{
}

/// A coordinate below a stretch is measured from its lower end, and one above it
/// from its upper end.
pub proof fn law_gaps_are_measured_from_the_near_end(span: Span)
    requires
        !(span.at.lt(span.min) && span.max.lt(span.at)),
    ensures
        span.at.lt(span.min) ==> span.gap() == span.before,
        span.max.lt(span.at) ==> span.gap() == span.after,
        !span.at.lt(span.min) && !span.max.lt(span.at) ==> span.gap() == Scalar(0),
{
}

/// A frame is on a screen exactly where its middle is said to be on one that is there.
pub proof fn law_middles_are_on_screens(state: ReactorView, frame: Frame, env: Surroundings)
    ensures
        state.is_on_any_screen(frame, env) <==> (lookup(env.relations@, frame) matches Some(row) && exists|i: int|
            0 <= i < state.screens.len() && i < row@.len() && (#[trigger] row@[i]).contains_center),
{
    if let Some(row) = lookup(env.relations@, frame) {
        if exists|i: int| 0 <= i < state.screens.len() && i < row@.len() && (#[trigger] row@[i]).contains_center {
            let i = choose|i: int|
                0 <= i < state.screens.len() && i < row@.len() && (#[trigger] row@[i]).contains_center;
            assert(env.relation(frame, i).contains_center);
        }
        if state.is_on_any_screen(frame, env) {
            let i = choose|i: int| 0 <= i < state.screens.len() && (#[trigger] env.relation(frame, i)).contains_center;
            assert(row@[i].contains_center);
        }
    }
}

/// A screen is as far from a point as was measured, and infinitely far where
/// nothing was; it contains the point exactly where that was said.
pub proof fn law_screens_are_as_far_as_measured(probe: PointProbe, i: int)
    ensures
        0 <= i < probe.distances@.len() ==> probe.distance_rank(i) == probe.distances@[i].total_rank(),
        !(0 <= i < probe.distances@.len()) ==> probe.distance_rank(i) == Scalar(INFINITY_BITS).total_rank(),
        probe.is_on(i) <==> 0 <= i < probe.contained@.len() && probe.contained@[i],
{
}

} // verus!
