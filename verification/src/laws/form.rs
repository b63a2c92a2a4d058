//! What every reactor keeps: no key stands twice in a table, and no item twice in a set.
use crate::geometry::Frame;
use crate::ids::{pid_t, ScreenId, SpaceId, WindowId};
use crate::reactor::space_change::{is_screen, screen_spaces_after, with_spaces, without_all};
use crate::reactor::ReactorView;
use crate::requests::StepView;
use crate::state::{Config, DragState, Screen, WindowServerInfo};
use crate::surroundings::Surroundings;
use crate::table::{
    distinct_keys, lemma_filtered_from, lemma_lookup_put, lemma_put_distinct,
    lemma_without_distinct, with_item,
};
use crate::table::{lookup, without_item};
use vstd::prelude::*;

verus! {

proof fn lemma_filter_distinct<K, V>(s: Seq<(K, V)>, f: spec_fn((K, V)) -> bool)
    requires
        distinct_keys(s),
    ensures
        distinct_keys(s.filter(f)),
    decreases s.len(),
{
    reveal_with_fuel(Seq::filter, 1);
    if s.len() > 0 {
        let t = s.drop_last();
        lemma_filter_distinct(t, f);
        if f(s.last()) {
            assert(s.filter(f) =~= t.filter(f).push(s.last()));
            assert forall|i: int| 0 <= i < t.filter(f).len() implies (#[trigger] t.filter(f)[i]).0 != s.last().0 by {
                lemma_filtered_from(t, f, i);
                let j = choose|j: int| 0 <= j < t.len() && t[j] == t.filter(f)[i];
                assert(s[j] == t[j]);
            }
        }
    }
}

proof fn lemma_with_item_unique<K>(s: Seq<K>, k: K)
    requires
        s.no_duplicates(),
    ensures
        with_item(s, k).no_duplicates(),
{
}

proof fn lemma_without_item_unique<K>(s: Seq<K>, k: K)
    requires
        s.no_duplicates(),
    ensures
        without_item(s, k).no_duplicates(),
    decreases s.len(),
{
    reveal_with_fuel(Seq::filter, 1);
    let f = |e: K| e != k;
    if s.len() > 0 {
        let t = s.drop_last();
        lemma_without_item_unique(t, k);
        if f(s.last()) {
            assert(without_item(s, k) =~= without_item(t, k).push(s.last()));
            assert forall|i: int| 0 <= i < without_item(t, k).len() implies #[trigger] without_item(t, k)[i]
                != s.last() by {
                lemma_filtered_from(t, f, i);
                let j = choose|j: int| 0 <= j < t.len() && t[j] == without_item(t, k)[i];
                assert(s[j] == t[j]);
            }
        }
    }
}

/// A new reactor is well formed.
pub proof fn law_new_reactors_are_well_formed(config: Config)
    ensures
        ReactorView::initial(config).well_formed(),
{
}

/// Reports of the window server keep the reactor well formed.
pub proof fn law_server_infos_keep_the_form(
    state: ReactorView,
    infos: Seq<WindowServerInfo>,
    verdicts: Seq<bool>,
)
    requires
        state.well_formed(),
    ensures
        state.with_server_infos(infos, verdicts).well_formed(),
    decreases infos.len(),
{
    if infos.len() > 0 {
        law_server_infos_keep_the_form(state, infos.drop_last(), verdicts.drop_last());
        let before = state.with_server_infos(infos.drop_last(), verdicts.drop_last());
        let info = infos.last();
        lemma_with_item_unique(before.visible, info.id);
        lemma_without_item_unique(before.observed, info.id);
        lemma_put_distinct(before.server_info, info.id, info);
        let after = before.with_server_info(info, verdicts.last());
        if let Some(window) = lookup(before.window_ids, info.id) {
            if let Some(known) = lookup(before.windows, window) {
                lemma_put_distinct(before.windows, window, lookup(after.windows, window)->0);
                lemma_lookup_put(before.windows, window, known.reported(info, verdicts.last()));
            }
        }
    }
}

proof fn lemma_screen_spaces_distinct(
    map: Seq<(ScreenId, SpaceId)>,
    screens: Seq<Screen>,
)
    requires
        distinct_keys(map),
    ensures
        distinct_keys(screen_spaces_after(map, screens)),
    decreases screens.len(),
{
    if screens.len() > 0 {
        lemma_screen_spaces_distinct(map, screens.drop_last());
        let before = screen_spaces_after(map, screens.drop_last());
        match screens.last().space {
            Some(space) => lemma_put_distinct(before, screens.last().screen_id, space),
            None => lemma_without_distinct(before, screens.last().screen_id),
        }
    }
}

/// To list the spaces of the screens keeps the reactor well formed.
pub proof fn law_listed_spaces_keep_the_form(state: ReactorView, spaces: Seq<Option<SpaceId>>)
    requires
        state.well_formed(),
    ensures
        state.with_screen_spaces(spaces).well_formed(),
        state.with_screen_map().well_formed(),
{
    let screens = with_spaces(state.screens, spaces);
    lemma_screen_spaces_distinct(state.screen_spaces, screens);
    lemma_filter_distinct(
        screen_spaces_after(state.screen_spaces, screens),
        |e: (ScreenId, SpaceId)| is_screen(screens, e.0),
    );
    lemma_screen_spaces_distinct(state.screen_spaces, state.screens);
    lemma_filter_distinct(
        screen_spaces_after(state.screen_spaces, state.screens),
        |e: (ScreenId, SpaceId)| is_screen(state.screens, e.0),
    );
}

/// To restore spaces after fullscreen windows keeps the reactor well formed.
pub proof fn law_restoring_keeps_the_form(state: ReactorView, spaces: Seq<SpaceId>)
    requires
        state.well_formed(),
    ensures
        (ReactorView { fullscreen: without_all(state.fullscreen, spaces), ..state }).well_formed(),
    decreases spaces.len(),
{
    if spaces.len() > 0 {
        law_restoring_keeps_the_form(state, spaces.drop_last());
        lemma_without_distinct(without_all(state.fullscreen, spaces.drop_last()), spaces.last());
    }
}

/// Every step keeps the reactor well formed.
pub proof fn law_steps_keep_the_form(state: ReactorView, step: StepView, env: Surroundings)
    requires
        state.well_formed(),
    ensures
        state.step(step, env).0.well_formed(),
{
    if let StepView::ApplySpaces(spaces, _) = step {
        law_listed_spaces_keep_the_form(state, spaces);
    }
}

/// Requests for windows keep the reactor well formed.
pub proof fn law_refreshes_keep_the_form(state: ReactorView, pid: pid_t)
    requires
        state.well_formed(),
    ensures
        (ReactorView { pending_refresh: with_item(state.pending_refresh, pid), ..state }).well_formed(),
{
    lemma_with_item_unique(state.pending_refresh, pid);
}

/// Drags keep the reactor well formed.
pub proof fn law_drags_keep_the_form(
    state: ReactorView,
    window: WindowId,
    frame: Frame,
    origin_frame: Option<Frame>,
    target: Option<WindowId>,
    env: Surroundings,
)
    requires
        state.well_formed(),
    ensures
        state.dragging(window, frame, env).well_formed(),
        state.dragged(window, frame, env).well_formed(),
        state.marked_dirty(window).well_formed(),
        state.swap_step(window, frame, origin_frame, env).0.well_formed(),
        state.swap_settled(window, target).well_formed(),
        (ReactorView { drag: DragState::Inactive, skip_layout: target, ..state }).well_formed(),
{
}

/// Answers of the layout engine keep the reactor well formed.
pub proof fn law_responses_keep_the_form(
    state: ReactorView,
    raise: Seq<WindowId>,
    focus: Option<WindowId>,
    switch_space: Option<SpaceId>,
    env: Surroundings,
    made_key: bool,
)
    requires
        state.well_formed(),
    ensures
        state.respond(raise, focus, switch_space, env, made_key).0.well_formed(),
{
}

} // verus!
