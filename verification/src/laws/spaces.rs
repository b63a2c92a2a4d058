//! What holds of screens and spaces.
use crate::command::Direction;
use crate::geometry::{Frame, Gaps, Offset, PointProbe, Scalar};
use crate::ids::{ScreenId, SpaceId, WindowServerId};
use crate::reactor::space_change::{
    is_screen, masked, only_screens, screen_spaces_after, with_spaces, without_all,
};
use crate::reactor::spaces::{best_toward, nearer};
use crate::reactor::ReactorView;
use crate::requests::TaskView;
use crate::search::{
    first, is_first, is_first_min, is_last_max, last_max, lemma_first_exists, lemma_first_min_is,
};
use crate::state::Screen;
use crate::surroundings::Surroundings;
use crate::table::{lemma_lookup_put, lemma_lookup_put_other, lemma_lookup_without, lookup};
use vstd::prelude::*;

verus! {

/// No two screens have the same id.
pub open spec fn distinct_screens(screens: Seq<Screen>) -> bool {
    forall|i: int, j: int|
        0 <= i < j < screens.len() ==> (#[trigger] screens[i]).screen_id != (#[trigger] screens[j]).screen_id
}

proof fn lemma_space_after_screens(map: Seq<(ScreenId, SpaceId)>, screens: Seq<Screen>, i: int)
    requires
        distinct_screens(screens),
        0 <= i < screens.len(),
    ensures
        lookup(screen_spaces_after(map, screens), screens[i].screen_id) == screens[i].space,
    decreases screens.len(),
{
    let before = screen_spaces_after(map, screens.drop_last());
    let last = screens.last();
    if i == screens.len() - 1 {
        match last.space {
            Some(space) => lemma_lookup_put(before, last.screen_id, space),
            None => lemma_lookup_without(before, last.screen_id, last.screen_id),
        }
    } else {
        assert forall|a: int, b: int| 0 <= a < b < screens.drop_last().len() implies (
        #[trigger] screens.drop_last()[a]).screen_id != (#[trigger] screens.drop_last()[b]).screen_id by {
            assert(screens[a].screen_id != screens[b].screen_id);
        }
        lemma_space_after_screens(map, screens.drop_last(), i);
        assert(screens[i].screen_id != screens[screens.len() - 1].screen_id);
        match last.space {
            Some(space) => lemma_lookup_put_other(before, last.screen_id, space, screens[i].screen_id),
            None => lemma_lookup_without(before, last.screen_id, screens[i].screen_id),
        }
    }
}

proof fn lemma_lookup_filtered(
    map: Seq<(ScreenId, SpaceId)>,
    screens: Seq<Screen>,
    id: ScreenId,
)
    ensures
        lookup(only_screens(map, screens), id) == (if is_screen(screens, id) {
            lookup(map, id)
        } else {
            None
        }),
    decreases map.len(),
{
    let f = |e: (ScreenId, SpaceId)| is_screen(screens, e.0);
    reveal_with_fuel(Seq::filter, 1);
    if map.len() > 0 {
        let t = map.drop_last();
        lemma_lookup_filtered(t, screens, id);
        assert(t.push(map.last()) =~= map);
        crate::table::lemma_lookup_push(t, map.last(), id);
        if f(map.last()) {
            assert(only_screens(map, screens) =~= only_screens(t, screens).push(map.last()));
            crate::table::lemma_lookup_push(only_screens(t, screens), map.last(), id);
        } else {
            assert(only_screens(map, screens) =~= only_screens(t, screens));
        }
    }
}

/// Once the spaces of the screens are listed, each screen shows the space that
/// is listed for it; where none is listed, it shows none until the next change.
pub proof fn law_screens_show_what_is_listed(state: ReactorView, spaces: Seq<Option<SpaceId>>, i: int)
    requires
        distinct_screens(state.screens),
        0 <= i < spaces.len(),
        i < state.screens.len(),
    ensures
        state.with_screen_spaces(spaces).space_at(i) == spaces[i],
{
    let screens = with_spaces(state.screens, spaces);
    assert(distinct_screens(screens)) by {
        assert forall|a: int, b: int| 0 <= a < b < screens.len() implies (#[trigger] screens[a]).screen_id != (
        #[trigger] screens[b]).screen_id by {
            assert(state.screens[a].screen_id != state.screens[b].screen_id);
        }
    }
    lemma_space_after_screens(state.screen_spaces, screens, i);
    let map = screen_spaces_after(state.screen_spaces, screens);
    lemma_lookup_filtered(map, screens, screens[i].screen_id);
    assert(is_screen(screens, screens[i].screen_id));
}

/// Once the last known spaces are up to date, a screen is known by the space that
/// it says it shows, and by none where it says none.
pub proof fn law_screens_are_remembered(state: ReactorView, i: int)
    requires
        distinct_screens(state.screens),
        0 <= i < state.screens.len(),
    ensures
        lookup(state.with_screen_map().screen_spaces, state.screens[i].screen_id) == state.screens[i].space,
{
    lemma_space_after_screens(state.screen_spaces, state.screens, i);
    let map = screen_spaces_after(state.screen_spaces, state.screens);
    lemma_lookup_filtered(map, state.screens, state.screens[i].screen_id);
    assert(is_screen(state.screens, state.screens[i].screen_id));
}

/// Only screens that are there have a last known space.
pub proof fn law_gone_screens_are_forgotten(state: ReactorView, id: ScreenId)
    requires
        forall|i: int| 0 <= i < state.screens.len() ==> (#[trigger] state.screens[i]).screen_id != id,
    ensures
        !is_screen(state.screens, id),
        lookup(state.with_screen_map().screen_spaces, id) is None,
{
    lemma_lookup_filtered(screen_spaces_after(state.screen_spaces, state.screens), state.screens, id);
}

/// To list the spaces of the screens changes no frame, name or identifier of a
/// screen, and does not add or remove screens.
pub proof fn law_listing_keeps_the_screens(state: ReactorView, spaces: Seq<Option<SpaceId>>)
    ensures
        state.with_screen_spaces(spaces).screens.len() == state.screens.len(),
        forall|i: int|
            0 <= i < state.screens.len() ==> (Screen {
                space: state.screens[i].space,
                ..#[trigger] state.with_screen_spaces(spaces).screens[i]
            }) == state.screens[i],
{
}

/// The space that a frame belongs to is shown by a screen, and there is one
/// wherever some screen shows a space.
pub proof fn law_frames_belong_to_shown_spaces(state: ReactorView, frame: Frame, env: Surroundings)
    ensures
        match state.frame_space(frame, env) {
            Some(space) => exists|i: int|
                0 <= i < state.screens.len() && #[trigger] state.space_at(i) == Some(space),
            None => forall|i: int| 0 <= i < state.screens.len() ==> #[trigger] state.space_at(i) is None,
        },
{
    let n = state.screens.len() as int;
    let p = state.holds_center(frame, env);
    let k = state.knows_space();
    let key = state.overlap(frame, env);
    match first(n, p) {
        Some(i) => {
            assert(exists|i: int| is_first(n, p, i));
            assert(is_first(n, p, i));
            assert(state.space_at(i) is Some);
        },
        None => {
            assert(state.center_space(frame, env) is None);
            lemma_last_max_exists(n, k, key);
            match last_max(n, k, key) {
                Some(i) => {
                    assert(exists|i: int| is_last_max(n, k, key, i));
                    assert(is_last_max(n, k, key, i));
                    assert(k(i));
                    assert(state.space_at(i) is Some);
                },
                None => {
                    assert forall|i: int| 0 <= i < n implies #[trigger] state.space_at(i) is None by {
                        assert(!k(i));
                    }
                },
            }
        },
    }
}

/// There is a last largest wherever there is one at all.
proof fn lemma_last_max_exists(n: int, p: spec_fn(int) -> bool, key: spec_fn(int) -> int)
    ensures
        last_max(n, p, key) is None ==> forall|i: int| 0 <= i < n ==> !(#[trigger] p(i)),
    decreases n,
{
    if exists|i: int| 0 <= i < n && #[trigger] p(i) {
        lemma_last_max_found(n, p, key);
    }
}

proof fn lemma_last_max_found(n: int, p: spec_fn(int) -> bool, key: spec_fn(int) -> int)
    requires
        exists|i: int| 0 <= i < n && #[trigger] p(i),
    ensures
        exists|i: int| is_last_max(n, p, key, i),
    decreases n,
{
    if exists|i: int| 0 <= i < n - 1 && #[trigger] p(i) {
        let m = n - 1;
        lemma_last_max_found(m, p, key);
        let best = choose|i: int| is_last_max(m, p, key, i);
        if p(n - 1) && key(n - 1) >= key(best) {
            assert(is_last_max(n, p, key, n - 1));
        } else {
            assert(is_last_max(n, p, key, best));
        }
    } else {
        assert(is_last_max(n, p, key, n - 1));
    }
}

/// The space that a window belongs to is shown by a screen.
pub proof fn law_windows_belong_to_shown_spaces(
    state: ReactorView,
    frame: Frame,
    wsid: Option<WindowServerId>,
    env: Surroundings,
    space: SpaceId,
)
    requires
        state.window_space(frame, wsid, env) == Some(space),
    ensures
        exists|i: int| 0 <= i < state.screens.len() && #[trigger] state.space_at(i) == Some(space),
        state.screen_showing(space) is Some,
{
    match state.reported_space(wsid, env) {
        Some(s) => {
            let p = state.shows(space);
            let i = choose|i: int| is_first(state.screens.len() as int, p, i);
            assert(is_first(state.screens.len() as int, p, i));
            assert(p(i));
            assert(state.space_at(i) == Some(space));
        },
        None => {
            law_frames_belong_to_shown_spaces(state, frame, env);
        },
    }
    let i = choose|i: int| 0 <= i < state.screens.len() && #[trigger] state.space_at(i) == Some(space);
    let p = state.shows(space);
    assert(p(i));
    lemma_first_exists(state.screens.len() as int, p, i);
}

/// A window that the window server reports on a space that a screen shows
/// belongs to that space, wherever its frame is.
pub proof fn law_reported_space_wins(
    state: ReactorView,
    frame: Frame,
    wsid: WindowServerId,
    env: Surroundings,
    space: SpaceId,
    i: int,
)
    requires
        lookup(env.window_spaces@, wsid) == Some(space),
        0 <= i < state.screens.len(),
        state.space_at(i) == Some(space),
    ensures
        state.window_space(frame, Some(wsid), env) == Some(space),
{
    let p = state.shows(space);
    assert(p(i));
    lemma_first_exists(state.screens.len() as int, p, i);
}

/// A point has a closest screen exactly where there are screens. None is
/// closer, and those before it are further away. Where the distances are
/// measured as distances are, and the point is on a screen, the closest screen
/// is no distance away, and is not after the first screen that the point is on.
pub proof fn law_closest_screen(state: ReactorView, probe: PointProbe)
    ensures
        match state.screen_closest(probe) {
            Some(i) => {
                &&& 0 <= i < state.screens.len()
                &&& forall|j: int|
                    0 <= j < state.screens.len() ==> probe.distance_rank(i) <= #[trigger] probe.distance_rank(j)
                &&& forall|j: int| 0 <= j < i ==> probe.distance_rank(i) < #[trigger] probe.distance_rank(j)
                &&& (probe.is_measured(state.screens.len() as int) && state.screen_under(probe) is Some ==> {
                    &&& probe.distances@[i] == Scalar(0)
                    &&& i <= state.screen_under(probe)->0
                })
            },
            None => state.screens.len() == 0,
        },
{
    let n = state.screens.len() as int;
    let key = state.point_distance(probe);
    if n > 0 {
        lemma_first_min_found(n, key);
        let i = choose|i: int| is_first_min(n, key, i);
        lemma_first_min_is(n, key, i);
        assert forall|j: int| 0 <= j < n implies probe.distance_rank(i) <= #[trigger] probe.distance_rank(j) by {
            assert(key(j) == probe.distance_rank(j));
        }
        assert forall|j: int| 0 <= j < i implies probe.distance_rank(i) < #[trigger] probe.distance_rank(j) by {
            assert(key(j) == probe.distance_rank(j));
        }
        if probe.is_measured(n) && state.screen_under(probe) is Some {
            let p = state.point_on(probe);
            let k = state.screen_under(probe)->0;
            assert(is_first(n, p, k));
            assert(probe.contained@[k] && !probe.distances@[k].negative());
            assert(probe.distance_rank(i) <= probe.distance_rank(k) == 0);
        }
    }
}

proof fn lemma_first_min_found(n: int, key: spec_fn(int) -> int)
    requires
        n > 0,
    ensures
        exists|i: int| is_first_min(n, key, i),
    decreases n,
{
    if n == 1 {
        assert(is_first_min(n, key, 0));
    } else {
        let m = n - 1;
        lemma_first_min_found(m, key);
        let best = choose|i: int| is_first_min(m, key, i);
        if key(n - 1) < key(best) {
            assert(is_first_min(n, key, n - 1));
        } else {
            assert(is_first_min(n, key, best));
        }
    }
}

/// Every offset is made of numbers.
pub open spec fn are_numbers(offsets: Seq<Offset>) -> bool {
    forall|i: int|
        0 <= i < offsets.len() ==> (#[trigger] offsets[i]).along.is_number() && offsets[i].across.is_number()
}

/// The display that is chosen in a direction lies in that direction. No display
/// in that direction is nearer, and each that comes before it is less near, so
/// that the earliest of those that tie is chosen. Where none is chosen, none
/// lies there.
pub proof fn law_nearest_display(offsets: Seq<Offset>, n: int)
    requires
        0 <= n <= offsets.len(),
        are_numbers(offsets),
    ensures
        match best_toward(offsets, n) {
            Some(k) => {
                &&& 0 <= k < n
                &&& !offsets[k].along.at_most_zero()
                &&& forall|j: int|
                    0 <= j < n && !(#[trigger] offsets[j]).along.at_most_zero() ==> !nearer(offsets[j], offsets[k])
                &&& forall|j: int|
                    0 <= j < k && !(#[trigger] offsets[j]).along.at_most_zero() ==> nearer(offsets[k], offsets[j])
            },
            None => forall|j: int| 0 <= j < n ==> (#[trigger] offsets[j]).along.at_most_zero(),
        },
    decreases n,
{
    if n > 0 {
        law_nearest_display(offsets, n - 1);
    }
}

/// A display that lies to one side does not lie to the other, and is as far
/// off either way.
pub proof fn law_sides_are_opposite(gaps: Gaps)
    requires
        gaps.left.is_number() && gaps.right.is_number() && gaps.left.rank() == -gaps.right.rank(),
        gaps.up.is_number() && gaps.down.is_number() && gaps.up.rank() == -gaps.down.rank(),
    ensures
        gaps.toward(Direction::Left).along.at_most_zero() || gaps.toward(Direction::Right).along.at_most_zero(),
        gaps.toward(Direction::Up).along.at_most_zero() || gaps.toward(Direction::Down).along.at_most_zero(),
        gaps.toward(Direction::Left).across == gaps.toward(Direction::Right).across,
        gaps.toward(Direction::Up).across == gaps.toward(Direction::Down).across,
{
}

/// A space with a fullscreen window is never managed: after the transition it
/// is not listed any more, and every other space is listed as before.
pub proof fn law_fullscreen_spaces_are_masked(spaces: Seq<Option<SpaceId>>, env: Surroundings, i: int)
    requires
        0 <= i < spaces.len(),
    ensures
        masked(spaces, env).len() == spaces.len(),
        masked(spaces, env)[i] matches Some(space) ==> !env.fullscreen_spaces@.contains(space) && spaces[i]
            == Some(space),
        (spaces[i] matches Some(space) && !env.fullscreen_spaces@.contains(space)) ==> masked(spaces, env)[i]
            == spaces[i],
{
}

proof fn lemma_without_all<V>(table: Seq<(SpaceId, V)>, spaces: Seq<SpaceId>, space: SpaceId)
    ensures
        lookup(without_all(table, spaces), space) == (if spaces.contains(space) {
            None
        } else {
            lookup(table, space)
        }),
    decreases spaces.len(),
{
    if spaces.len() > 0 {
        let t = spaces.drop_last();
        lemma_without_all(table, t, space);
        lemma_lookup_without(without_all(table, t), spaces.last(), space);
        assert(spaces.contains(space) <==> (t.contains(space) || spaces.last() == space)) by {
            if t.contains(space) {
                let i = choose|i: int| 0 <= i < t.len() && t[i] == space;
                assert(spaces[i] == space);
            }
            if spaces.contains(space) && spaces.last() != space {
                let i = choose|i: int| 0 <= i < spaces.len() && spaces[i] == space;
                assert(t[i] == space);
            }
        }
    }
}

/// A space that was restored after a fullscreen window left it is no longer
/// tracked, and every other space is tracked as before.
pub proof fn law_restored_spaces_are_forgotten(state: ReactorView, shown: Seq<SpaceId>, space: SpaceId)
    ensures
        lookup(without_all(state.fullscreen, shown), space) == (if shown.contains(space) {
            None
        } else {
            lookup(state.fullscreen, space)
        }),
{
    lemma_without_all(state.fullscreen, shown, space);
}

/// What was restored is not restored again while nothing else goes fullscreen.
pub proof fn law_spaces_are_restored_once(state: ReactorView, shown: Seq<SpaceId>, n: int)
    requires
        0 <= n <= shown.len(),
    ensures
        (ReactorView { fullscreen: without_all(state.fullscreen, shown), ..state }).all_restore_tasks(
            shown.take(n),
        ) =~= Seq::<TaskView>::empty(),
    decreases n,
{
    let after = ReactorView { fullscreen: without_all(state.fullscreen, shown), ..state };
    if n > 0 {
        law_spaces_are_restored_once(state, shown, n - 1);
        let now = shown.take(n);
        assert(now.drop_last() =~= shown.take(n - 1));
        lemma_without_all(after.fullscreen, shown.take(n - 1), now.last());
        lemma_without_all(state.fullscreen, shown, now.last());
        assert(shown[n - 1] == now.last());
        assert(shown.contains(now.last()));
    }
}

/// A space that no fullscreen window has left asks for nothing.
pub proof fn law_ordinary_spaces_need_no_restoring(state: ReactorView, shown: Seq<SpaceId>)
    requires
        forall|i: int| 0 <= i < shown.len() ==> lookup(state.fullscreen, #[trigger] shown[i]) is None,
    ensures
        state.all_restore_tasks(shown) =~= Seq::<TaskView>::empty(),
    decreases shown.len(),
{
    if shown.len() > 0 {
        let t = shown.drop_last();
        assert forall|i: int| 0 <= i < t.len() implies lookup(state.fullscreen, #[trigger] t[i]) is None by {
            assert(t[i] == shown[i]);
        }
        law_ordinary_spaces_need_no_restoring(state, t);
        lemma_without_all(state.fullscreen, t, shown.last());
        assert(lookup(state.fullscreen, shown[shown.len() - 1]) is None);
    }
}

/// The cleanup of stale windows is suppressed exactly where no space is managed.
pub proof fn law_cleanup_needs_a_space(state: ReactorView, spaces: Seq<Option<SpaceId>>)
    ensures
        state.cleanup_for(spaces) is Suppressed <==> forall|i: int|
            0 <= i < spaces.len() ==> #[trigger] spaces[i] is None,
    decreases spaces.len(),
{
    if spaces.len() > 0 {
        let t = spaces.drop_last();
        law_cleanup_needs_a_space(state, t);
        if spaces.last() is Some {
            assert(spaces[spaces.len() - 1] is Some);
        } else {
            if forall|i: int| 0 <= i < t.len() ==> #[trigger] t[i] is None {
                assert forall|i: int| 0 <= i < spaces.len() implies #[trigger] spaces[i] is None by {
                    if i < t.len() {
                        assert(t[i] is None);
                    }
                }
            } else {
                let i = choose|i: int| 0 <= i < t.len() && !(#[trigger] t[i] is None);
                assert(spaces[i] is Some);
            }
        }
    }
}

} // verus!
