use rift_wm::command::{Command, Direction, DisplaySelector, LayoutCommand, ReactorCommand};
use rift_wm::event::{Event, Handler, Query, Quiet, Verdict};
use rift_wm::geometry::{toward, Frame, Gaps, Offset, Point, PointProbe, Scalar, ScreenRelation, Size, Span};
use rift_wm::ids::{
    ScreenId, SpaceId, SpaceWindow, SpaceWorkspace, VirtualWorkspaceId, WindowId, WindowServerId,
};
use rift_wm::reactor::activation::ActivationSwitch;
use rift_wm::reactor::cycle::{first_stage, EventNotes, LayoutOutcome, Stage, TrackerReply};
use rift_wm::reactor::drag::SwapStep;
use rift_wm::reactor::focus::ResponseAction;
use rift_wm::reactor::mouse::Stacking;
use rift_wm::reactor::windows::{ManageabilityQuery, WindowData};
use rift_wm::reactor::Reactor;
use rift_wm::requests::{
    AppRequest, BroadcastEvent, EventResponse, EventTapRequest, LayoutEvent, LayoutUpdate, RaiseRequest,
    RuleAssignment, Step, Task, TitledWindow,
};
use rift_wm::state::{
    AppInfo, AppState, Config, DragSession, DragState, FullscreenTrack, MenuState, MissionControlState,
    PendingSpaceChange, RefocusState, Requested, Screen, Settings, StaleCleanupState, VirtualWorkspaceSettings,
    WindowInfo, WindowServerInfo, WindowState, WorkspaceSwitchManager, WorkspaceSwitchOrigin, WorkspaceSwitchState,
};
use rift_wm::surroundings::{Surroundings, WorkspaceTitle};
use rift_wm::table::{IdSet, Table};

fn text(s: &str) -> String {
    s.to_string()
}

fn double(x: f64) -> Scalar {
    Scalar(x.to_bits())
}

fn point(x: f64, y: f64) -> Point {
    Point { x: double(x), y: double(y) }
}

fn frame(x: f64, y: f64, width: f64, height: f64) -> Frame {
    Frame {
        origin: point(x, y),
        size: Size { width: double(width), height: double(height) },
        center: point(x + width / 2.0, y + height / 2.0),
        is_flat: width * height <= 0.0,
    }
}

fn value(s: Scalar) -> f64 {
    f64::from_bits(s.0)
}

/// Left, top, right and bottom.
fn edges(f: &Frame) -> (f64, f64, f64, f64) {
    let (x, y) = (value(f.origin.x), value(f.origin.y));
    (x, y, x + value(f.size.width), y + value(f.size.height))
}

fn holds(f: &Frame, p: &Point) -> bool {
    let (l, t, r, b) = edges(f);
    let (x, y) = (value(p.x), value(p.y));
    l <= x && x <= r && t <= y && y <= b
}

fn overlap(a: &Frame, b: &Frame) -> i64 {
    let (l, t, r, bottom) = edges(a);
    let (l2, t2, r2, b2) = edges(b);
    let width = (r.min(r2) - l.max(l2)).max(0.0);
    let height = (bottom.min(b2) - t.max(t2)).max(0.0);
    (width * height) as i64
}

fn window(pid: i32, idx: u32) -> WindowId {
    WindowId { pid, idx }
}

fn config() -> Config {
    Config {
        settings: Settings { mouse_follows_focus: false, auto_focus_blacklist: vec![] },
        virtual_workspaces: VirtualWorkspaceSettings { reapply_app_rules_on_title_change: false },
    }
}

fn screen(id: u32, space: Option<u64>, x: f64) -> Screen {
    Screen {
        frame: frame(x, 0.0, 1000.0, 800.0),
        space: space.map(SpaceId),
        display_uuid: format!("display-{}", id),
        name: None,
        screen_id: ScreenId(id),
    }
}

/// Two screens side by side, with the spaces 1 and 2.
fn two_screens() -> Reactor {
    let mut reactor = Reactor::new(config());
    reactor.space_manager.screens = vec![screen(10, Some(1), 0.0), screen(20, Some(2), 1000.0)];
    reactor
}

fn state(f: Frame, wsid: Option<u32>) -> WindowState {
    let mut state = WindowState::from(WindowInfo {
        is_standard: true,
        is_root: true,
        is_minimized: false,
        title: text("title"),
        frame: f,
        sys_id: wsid.map(WindowServerId),
        bundle_id: None,
        path: None,
        ax_role: Some(text("AXWindow")),
        ax_subrole: None,
    });
    state.is_manageable = true;
    state
}

fn track(reactor: &mut Reactor, wid: WindowId, f: Frame, wsid: u32) {
    reactor.window_manager.windows.insert(wid, state(f, Some(wsid)));
    reactor.window_manager.window_ids.insert(WindowServerId(wsid), wid);
    reactor.window_manager.visible_windows.insert(WindowServerId(wsid));
}

fn know_app(reactor: &mut Reactor, pid: i32) {
    let info = AppInfo { bundle_id: Some(format!("bundle.{}", pid)), localized_name: None };
    reactor.app_manager.apps.insert(pid, AppState { info });
}

fn nothing() -> Surroundings {
    Surroundings {
        window_spaces: Table::new(),
        window_under_cursor: None,
        server_windows: Table::new(),
        active_space: None,
        fullscreen_spaces: IdSet::new(),
        cursor: None,
        relations: Table::new(),
        active_workspaces: Table::new(),
        active_workspace_indices: Table::new(),
        workspace_titles: Table::new(),
        window_workspaces: Table::new(),
        active_members: IdSet::new(),
        active_windows: Table::new(),
        last_focused: Table::new(),
        floating_windows: IdSet::new(),
    }
}

/// Adds how `f` lies to the screens.
fn relate(env: &mut Surroundings, reactor: &Reactor, f: Frame) {
    let row = reactor
        .space_manager
        .screens
        .iter()
        .map(|s| ScreenRelation { contains_center: holds(&s.frame, &f.center), overlap: overlap(&s.frame, &f) })
        .collect();
    env.relations.insert(f, row);
}

/// The surroundings in which everything that is tracked is related.
fn surroundings(reactor: &Reactor) -> Surroundings {
    let mut env = nothing();
    for entry in &reactor.window_manager.windows.entries {
        relate(&mut env, reactor, entry.1.frame_monotonic);
    }
    env
}

fn cursor_at(reactor: &Reactor, p: Point) -> Option<PointProbe> {
    let screens = &reactor.space_manager.screens;
    Some(PointProbe {
        point: p,
        contained: screens.iter().map(|s| holds(&s.frame, &p)).collect(),
        distances: screens
            .iter()
            .map(|s| {
                let (l, t, r, b) = edges(&s.frame);
                let dx = (l - value(p.x)).max(value(p.x) - r).max(0.0);
                let dy = (t - value(p.y)).max(value(p.y) - b).max(0.0);
                double(dx * dx + dy * dy)
            })
            .collect(),
    })
}

fn info(id: u32, pid: i32, layer: i32, f: Frame) -> WindowServerInfo {
    WindowServerInfo { id: WindowServerId(id), pid, layer, frame: f }
}

fn answer(raise: Vec<WindowId>, focus: Option<WindowId>) -> EventResponse {
    EventResponse { raise_windows: raise, focus_window: focus }
}

fn switching(reactor: &mut Reactor) {
    reactor.workspace_switch_manager.start_workspace_switch(WorkspaceSwitchOrigin::Manual);
}

// Numbers

#[test]
fn doubles_are_compared_by_value() {
    for a in [-1.5, -0.0, 0.0, 1e-310, 2.0, f64::INFINITY, f64::NEG_INFINITY, f64::NAN] {
        assert_eq!(double(a).is_at_most_zero(), a <= 0.0);
        for b in [-1.5, -0.0, 0.0, 1e-310, 2.0, f64::INFINITY, f64::NEG_INFINITY, f64::NAN] {
            assert_eq!(double(a).less_than(&double(b)), a < b);
            assert_eq!(double(a).equals(&double(b)), a == b);
            assert_eq!(double(a).totally_before(&double(b)), a.total_cmp(&b).is_lt());
        }
    }
}

#[test]
fn frames_are_equal_by_value() {
    assert!(frame(0.0, 1.0, 2.0, 3.0).equals(&frame(-0.0, 1.0, 2.0, 3.0)));
    assert!(!frame(0.0, 1.0, 2.0, 3.0).equals(&frame(0.0, 1.0, 2.0, 4.0)));
    assert!(!frame(f64::NAN, 1.0, 2.0, 3.0).equals(&frame(f64::NAN, 1.0, 2.0, 3.0)));
}

// Tables

#[test]
fn tables_find_what_was_put() {
    let mut table: Table<i32, &str> = Table::new();
    table.insert(1, "one");
    table.insert(2, "two");
    table.insert(1, "uno");
    assert_eq!(table.get(1), Some(&"uno"));
    assert_eq!(table.get(2), Some(&"two"));
    assert_eq!(table.get(3), None);
    assert_eq!(table.entries, vec![(1, "uno"), (2, "two")]);
    if let Some(v) = table.get_mut(2) {
        *v = "dos";
    }
    assert!(table.get_mut(9).is_none());
    table.remove(1);
    assert!(!table.contains_key(1));
    assert_eq!(table.entries, vec![(2, "dos")]);
}

#[test]
fn sets_hold_items_once() {
    let mut set: IdSet<u32> = IdSet::new();
    set.insert(3);
    set.insert(1);
    set.insert(3);
    assert_eq!(set.items, vec![3, 1]);
    set.remove(3);
    assert!(!set.contains(3));
    assert!(set.contains(1));
    set.clear();
    assert!(!set.contains(1));
}

// New reactors and windows

#[test]
fn new_reactors_know_nothing() {
    let reactor = Reactor::new(config());
    assert!(reactor.space_manager.screens.is_empty());
    assert!(!reactor.is_in_drag());
    assert!(!reactor.is_mission_control_active());
    assert_eq!(reactor.main_window(), None);
    assert_eq!(reactor.refocus_manager.refocus_state, RefocusState::Idle);
    assert_eq!(reactor.refocus_manager.stale_cleanup_state, StaleCleanupState::Enabled);
    assert_eq!(reactor.workspace_switch_manager.workspace_switch_state, WorkspaceSwitchState::Inactive);
    assert_eq!(reactor.first_known_space(), None);
}

#[test]
fn windows_are_not_managed_before_they_are_found_to_be() {
    let f = frame(1.0, 2.0, 3.0, 4.0);
    let state = WindowState::from(WindowInfo {
        is_standard: true,
        is_root: false,
        is_minimized: true,
        title: text("t"),
        frame: f,
        sys_id: Some(WindowServerId(5)),
        bundle_id: Some(text("b")),
        path: Some(text("/p")),
        ax_role: Some(text("r")),
        ax_subrole: Some(text("s")),
    });
    assert_eq!(
        state,
        WindowState {
            title: text("t"),
            frame_monotonic: f,
            is_ax_standard: true,
            is_ax_root: false,
            is_minimized: true,
            is_manageable: false,
            window_server_id: Some(WindowServerId(5)),
            bundle_id: Some(text("b")),
            bundle_path: Some(text("/p")),
            ax_role: Some(text("r")),
            ax_subrole: Some(text("s")),
        }
    );
}

// Screens and spaces

#[test]
fn active_spaces_are_those_that_are_listed() {
    let mut reactor = two_screens();
    reactor.set_active_spaces(&vec![Some(SpaceId(1)), None, Some(SpaceId(2)), Some(SpaceId(1))]);
    assert!(reactor.is_space_active(SpaceId(1)));
    assert!(reactor.is_space_active(SpaceId(2)));
    reactor.set_active_spaces(&vec![Some(SpaceId(3))]);
    assert!(!reactor.is_space_active(SpaceId(1)));
    assert!(reactor.is_space_active(SpaceId(3)));
}

#[test]
fn screens_show_the_spaces_that_are_listed() {
    let mut reactor = two_screens();
    reactor.set_screen_spaces(&vec![Some(SpaceId(7)), Some(SpaceId(8))]);
    assert_eq!(reactor.screen_by_space(SpaceId(7)), Some(0));
    assert_eq!(reactor.screen_by_space(SpaceId(8)), Some(1));
    reactor.set_screen_spaces(&vec![None, Some(SpaceId(8))]);
    assert_eq!(reactor.space_for_screen(&reactor.space_manager.screens[0]), None);
    assert_eq!(reactor.screen_by_space(SpaceId(7)), None);
    assert_eq!(reactor.first_known_space(), Some(SpaceId(8)));
}

#[test]
fn a_screen_without_a_space_has_the_last_one_known() {
    let mut reactor = two_screens();
    reactor.update_screen_space_map();
    reactor.space_manager.screens[0].space = None;
    assert_eq!(reactor.space_for_screen(&reactor.space_manager.screens[0]), Some(SpaceId(1)));
    assert_eq!(reactor.screen_by_space(SpaceId(1)), Some(0));
    assert!(!reactor.is_space_on_display(SpaceId(1)));
    assert!(reactor.is_space_on_display(SpaceId(2)));
}

#[test]
fn gone_screens_are_forgotten() {
    let mut reactor = two_screens();
    reactor.update_screen_space_map();
    reactor.space_manager.screens.remove(1);
    reactor.update_screen_space_map();
    assert_eq!(reactor.space_manager.screen_space_by_id.entries, vec![(ScreenId(10), SpaceId(1))]);
}

#[test]
fn frames_belong_where_their_midpoint_is() {
    let reactor = two_screens();
    let mut env = nothing();
    let left = frame(100.0, 100.0, 300.0, 300.0);
    let mostly_right = frame(900.0, 100.0, 400.0, 300.0);
    relate(&mut env, &reactor, left);
    relate(&mut env, &reactor, mostly_right);
    assert_eq!(reactor.best_space_for_frame(&left, &env), Some(SpaceId(1)));
    assert_eq!(reactor.best_space_for_frame(&mostly_right, &env), Some(SpaceId(2)));
    assert_eq!(reactor.drag_space_candidate(&mostly_right, &env), Some(SpaceId(2)));
}

#[test]
fn frames_off_the_screens_belong_where_they_overlap_most() {
    let reactor = two_screens();
    let mut env = nothing();
    let above = frame(1500.0, -700.0, 200.0, 750.0);
    relate(&mut env, &reactor, above);
    assert_eq!(reactor.drag_space_candidate(&above, &env), None);
    assert_eq!(reactor.best_space_for_frame(&above, &env), Some(SpaceId(2)));
    // Of equal overlaps the last counts, and a frame beyond all screens overlaps each as little.
    let beyond = frame(-5000.0, -5000.0, 10.0, 10.0);
    relate(&mut env, &reactor, beyond);
    assert_eq!(reactor.best_space_for_frame(&beyond, &env), Some(SpaceId(2)));
    assert_eq!(Reactor::new(config()).best_space_for_frame(&beyond, &env), None);
}

#[test]
fn reported_spaces_win_where_they_are_shown() {
    let reactor = two_screens();
    let mut env = nothing();
    let f = frame(100.0, 100.0, 300.0, 300.0);
    relate(&mut env, &reactor, f);
    env.window_spaces.insert(WindowServerId(1), SpaceId(2));
    env.window_spaces.insert(WindowServerId(2), SpaceId(99));
    assert_eq!(reactor.best_space_for_window(&f, Some(WindowServerId(1)), &env), Some(SpaceId(2)));
    assert_eq!(reactor.best_space_for_window(&f, Some(WindowServerId(2)), &env), Some(SpaceId(1)));
    assert_eq!(reactor.best_space_for_window(&f, None, &env), Some(SpaceId(1)));
    assert_eq!(reactor.best_space_for_window_id(window(1, 1), &env), None);
}

#[test]
fn commands_are_about_the_cursor_then_the_main_window() {
    let mut reactor = two_screens();
    let wid = window(1, 1);
    track(&mut reactor, wid, frame(1100.0, 100.0, 100.0, 100.0), 5);
    let mut env = surroundings(&reactor);
    env.active_space = Some(SpaceId(77));
    assert_eq!(reactor.workspace_command_space(&env), Some(SpaceId(77)));
    reactor.main_window_tracker_manager.main_window = Some(wid);
    assert_eq!(reactor.workspace_command_space(&env), Some(SpaceId(2)));
    assert_eq!(reactor.main_window_space(&env), Some(SpaceId(2)));
    env.cursor = cursor_at(&reactor, point(10.0, 10.0));
    assert_eq!(reactor.workspace_command_space(&env), Some(SpaceId(1)));
    reactor.main_window_tracker_manager.main_window = None;
    assert_eq!(reactor.workspace_command_space(&nothing()), Some(SpaceId(1)));
}

#[test]
fn points_off_the_screens_go_to_the_closest() {
    let reactor = two_screens();
    let probe = cursor_at(&reactor, point(1900.0, 900.0)).unwrap();
    assert_eq!(reactor.screen_for_point(&probe), None);
    assert_eq!(reactor.closest_screen_to_point(&probe), Some(1));
    assert_eq!(reactor.space_for_point(&probe), Some(SpaceId(2)));
    // Above the common edge both are as close, and the first counts.
    let probe = cursor_at(&reactor, point(1000.0, -5.0)).unwrap();
    assert_eq!(reactor.closest_screen_to_point(&probe), Some(0));
    let mut env = nothing();
    env.cursor = cursor_at(&reactor, point(1500.0, 5.0));
    assert_eq!(reactor.space_for_cursor_screen(&env), Some(SpaceId(2)));
    assert_eq!(Reactor::new(config()).closest_screen_to_point(&probe), None);
}

#[test]
fn the_current_screen_is_found_step_by_step() {
    let mut reactor = two_screens();
    let mut env = nothing();
    assert_eq!(reactor.current_screen_center(&env), Some(point(500.0, 400.0)));
    env.active_space = Some(SpaceId(2));
    assert_eq!(reactor.current_screen_center(&env), Some(point(1500.0, 400.0)));
    let wid = window(1, 1);
    track(&mut reactor, wid, frame(100.0, 100.0, 100.0, 100.0), 5);
    relate(&mut env, &reactor, frame(100.0, 100.0, 100.0, 100.0));
    reactor.main_window_tracker_manager.main_window = Some(wid);
    assert_eq!(reactor.current_screen_center(&env), Some(point(500.0, 400.0)));
    env.cursor = cursor_at(&reactor, point(1200.0, 5.0));
    assert_eq!(reactor.current_screen_center(&env), Some(point(1500.0, 400.0)));
    assert_eq!(reactor.center_of_space(SpaceId(9)), None);
    assert_eq!(Reactor::new(config()).current_screen_center(&nothing()), None);
}

fn gaps_to(x: f64, y: f64, cx: f64, cy: f64) -> Gaps {
    Gaps {
        left: double(x - cx),
        right: double(cx - x),
        up: double(y - cy),
        down: double(cy - y),
        horizontal: double((cx - x).abs()),
        vertical: double((cy - y).abs()),
    }
}

fn gaps_from(reactor: &Reactor, x: f64, y: f64) -> Vec<Gaps> {
    let screens = &reactor.space_manager.screens;
    screens.iter().map(|s| gaps_to(x, y, value(s.frame.center.x), value(s.frame.center.y))).collect()
}

#[test]
fn displays_are_selected() {
    let mut reactor = two_screens();
    reactor.space_manager.screens.push(screen(30, None, 2000.0));
    let gaps = gaps_from(&reactor, 500.0, 400.0);
    let right = DisplaySelector::Direction(Direction::Right);
    assert_eq!(reactor.screen_for_selector(&right, Some(&gaps)), Some(1));
    assert_eq!(reactor.screen_for_selector(&right, None), None);
    let left = DisplaySelector::Direction(Direction::Left);
    assert_eq!(reactor.screen_for_selector(&left, Some(&gaps)), None);
    let gaps = gaps_from(&reactor, 2500.0, 400.0);
    assert_eq!(reactor.screen_for_selector(&left, Some(&gaps)), Some(1));
    assert_eq!(reactor.screen_for_selector(&right, Some(&gaps)), None);
    assert_eq!(reactor.screen_for_selector(&DisplaySelector::Index(2), None), Some(2));
    assert_eq!(reactor.screen_for_selector(&DisplaySelector::Index(3), None), None);
    assert_eq!(reactor.screen_for_selector(&DisplaySelector::Uuid(text("display-20")), None), Some(1));
    assert_eq!(reactor.screen_for_selector(&DisplaySelector::Uuid(text("other")), None), None);
    assert_eq!(reactor.selector_origin(Some(point(1.0, 2.0)), &nothing()), Some(point(1.0, 2.0)));
    assert_eq!(reactor.selector_origin(None, &nothing()), Some(point(500.0, 400.0)));
}

#[test]
fn the_display_that_is_less_far_off_is_preferred() {
    let mut reactor = two_screens();
    reactor.space_manager.screens.push(screen(30, None, 2000.0));
    let choose = |centers: [(f64, f64); 3], direction| {
        let gaps = centers.iter().map(|c| gaps_to(0.0, 0.0, c.0, c.1)).collect();
        reactor.screen_for_direction_from_point(direction, &gaps)
    };
    assert_eq!(choose([(5.0, 9.0), (5.0, -1.0), (6.0, 0.0)], Direction::Right), Some(1));
    assert_eq!(choose([(5.0, 1.0), (5.0, 1.0), (5.0, 2.0)], Direction::Right), Some(0));
    assert_eq!(choose([(-5.0, 1.0), (0.0, 1.0), (-0.0, 2.0)], Direction::Right), None);
    assert_eq!(choose([(-5.0, 1.0), (0.0, 1.0), (-0.0, 2.0)], Direction::Left), Some(0));
    // A smaller y is further up.
    assert_eq!(choose([(9.0, -5.0), (1.0, -5.0), (0.0, 5.0)], Direction::Up), Some(1));
    assert_eq!(choose([(9.0, -5.0), (1.0, -5.0), (0.0, 5.0)], Direction::Down), Some(2));
}

#[test]
fn directions_pick_their_axis_and_sign() {
    let gaps = gaps_to(10.0, 20.0, 13.0, 15.0);
    let offset = |along: f64, across: f64| Offset { along: double(along), across: double(across) };
    assert_eq!(toward(Direction::Left, &gaps), offset(-3.0, 5.0));
    assert_eq!(toward(Direction::Right, &gaps), offset(3.0, 5.0));
    assert_eq!(toward(Direction::Up, &gaps), offset(5.0, 3.0));
    assert_eq!(toward(Direction::Down, &gaps), offset(-5.0, 3.0));
}

#[test]
fn a_point_on_a_screen_is_no_distance_away() {
    let mut reactor = two_screens();
    let span = |at: f64, min: f64, max: f64| Span {
        at: double(at),
        min: double(min),
        max: double(max),
        before: double(min - at),
        after: double(at - max),
    };
    assert_eq!(span(-3.0, 0.0, 10.0).distance_outside(), double(3.0));
    assert_eq!(span(12.0, 0.0, 10.0).distance_outside(), double(2.0));
    for at in [0.0, 5.0, 10.0] {
        assert_eq!(span(at, 0.0, 10.0).distance_outside(), double(0.0));
    }
    // The second screen twice: the first of the two is the closest.
    reactor.space_manager.screens.push(screen(30, None, 1000.0));
    let probe = cursor_at(&reactor, point(1500.0, 5.0)).unwrap();
    assert_eq!(reactor.screen_for_point(&probe), Some(1));
    assert_eq!(reactor.closest_screen_to_point(&probe), Some(1));
    assert_eq!(probe.distances[1], double(0.0));
    assert_eq!(probe.distances[2], double(0.0));
}

// Fullscreen spaces and space changes

fn with_track(reactor: &mut Reactor, space: u64, pids: Vec<i32>) {
    let track = FullscreenTrack { pids: IdSet { items: pids }, last_removed: vec![] };
    reactor.space_manager.fullscreen_by_space.insert(SpaceId(space), track);
}

#[test]
fn nothing_but_fullscreen_spaces_stops_a_change() {
    let mut reactor = two_screens();
    with_track(&mut reactor, 1, vec![4]);
    let mut env = nothing();
    env.fullscreen_spaces.insert(SpaceId(1));
    let mut spaces = vec![Some(SpaceId(1)), Some(SpaceId(1))];
    let (stop, tasks) = reactor.handle_fullscreen_space_transition(&mut spaces, &env);
    assert!(stop);
    assert!(tasks.is_empty());
    assert_eq!(spaces, vec![None, None]);
    assert!(reactor.space_manager.fullscreen_by_space.contains_key(SpaceId(1)));
    let mut none: Vec<Option<SpaceId>> = vec![];
    assert!(!reactor.handle_fullscreen_space_transition(&mut none, &env).0);
}

#[test]
fn spaces_are_restored_once_after_fullscreen() {
    let mut reactor = two_screens();
    know_app(&mut reactor, 4);
    with_track(&mut reactor, 2, vec![3, 4]);
    let mut env = nothing();
    env.fullscreen_spaces.insert(SpaceId(1));
    let mut spaces = vec![Some(SpaceId(1)), Some(SpaceId(2)), None];
    let (stop, tasks) = reactor.handle_fullscreen_space_transition(&mut spaces, &env);
    assert!(!stop);
    assert_eq!(spaces, vec![None, Some(SpaceId(2)), None]);
    assert_eq!(
        tasks,
        vec![
            Task::AwaitFullscreenTransition,
            Task::SleepMillis(50),
            Task::SendToApp(4, AppRequest::GetVisibleWindows { force_refresh: true }),
            Task::Resume(Step::RequestRefocus(SpaceId(2))),
            Task::UpdateLayout(LayoutUpdate { is_resize: false, is_workspace_switch: false }),
            Task::Resume(Step::UpdateFocusFollowsMouse),
        ]
    );
    let (_, again) = reactor.handle_fullscreen_space_transition(&mut spaces, &env);
    assert!(again.is_empty());
}

#[test]
fn a_space_change_exposes_the_spaces_and_goes_on() {
    let mut reactor = two_screens();
    let reported = vec![info(5, 1, 0, frame(0.0, 0.0, 1.0, 1.0))];
    let tasks = reactor.finalize_space_change(&vec![None, Some(SpaceId(2))], reported.clone());
    assert_eq!(reactor.refocus_manager.stale_cleanup_state, StaleCleanupState::Enabled);
    let size = Size { width: double(1000.0), height: double(800.0) };
    assert_eq!(
        tasks,
        vec![
            Task::ListWorkspaces(SpaceId(1)),
            Task::SendLayoutEvent(LayoutEvent::SpaceExposed(SpaceId(1), size)),
            Task::ListWorkspaces(SpaceId(2)),
            Task::SendLayoutEvent(LayoutEvent::SpaceExposed(SpaceId(2), size)),
            Task::Resume(Step::ClearChangingScreens),
            Task::Resume(Step::FocusMainWindow),
            Task::UpdateWindowServerInfo(reported),
            Task::Resume(Step::CheckForNewWindows),
            Task::Resume(Step::AnnounceWorkspace(Some(SpaceId(2)))),
        ]
    );
    reactor.finalize_space_change(&vec![None, None], vec![]);
    assert_eq!(reactor.refocus_manager.stale_cleanup_state, StaleCleanupState::Suppressed);
}

#[test]
fn a_pending_space_change_waits_for_its_screens() {
    let mut reactor = two_screens();
    let change = |spaces: Vec<Option<SpaceId>>| Some(PendingSpaceChange { spaces, ws_info: vec![] });
    reactor.pending_space_change_manager.pending_space_change = change(vec![Some(SpaceId(5))]);
    assert!(reactor.try_apply_pending_space_change(&nothing()).is_empty());
    assert!(reactor.pending_space_change_manager.pending_space_change.is_some());

    reactor.pending_space_change_manager.pending_space_change = change(vec![Some(SpaceId(5)), Some(SpaceId(6))]);
    let mut env = nothing();
    env.fullscreen_spaces.insert(SpaceId(5));
    let tasks = reactor.try_apply_pending_space_change(&env);
    assert_eq!(tasks, vec![Task::Resume(Step::ApplySpaces(vec![None, Some(SpaceId(6))], vec![]))]);
    assert!(reactor.pending_space_change_manager.pending_space_change.is_none());
    assert!(reactor.try_apply_pending_space_change(&env).is_empty());

    reactor.pending_space_change_manager.pending_space_change = change(vec![Some(SpaceId(5)), Some(SpaceId(5))]);
    assert!(reactor.try_apply_pending_space_change(&env).is_empty());
    assert!(reactor.pending_space_change_manager.pending_space_change.is_none());
}

#[test]
fn applied_spaces_are_shown() {
    let mut reactor = two_screens();
    let tasks =
        reactor.perform_step(Step::ApplySpaces(vec![Some(SpaceId(5)), Some(SpaceId(6))], vec![]), &nothing());
    assert_eq!(tasks[0], Task::ListWorkspaces(SpaceId(5)));
    assert_eq!(reactor.screen_by_space(SpaceId(6)), Some(1));
}

#[test]
fn steps_come_back_to_the_reactor() {
    let mut reactor = two_screens();
    let wid = window(1, 1);
    track(&mut reactor, wid, frame(1100.0, 100.0, 100.0, 100.0), 5);
    know_app(&mut reactor, 1);
    let mut env = surroundings(&reactor);
    assert!(reactor.perform_step(Step::RequestRefocus(SpaceId(2)), &env).is_empty());
    assert_eq!(reactor.refocus_manager.refocus_state, RefocusState::Pending(SpaceId(2)));

    reactor.space_manager.changing_screens.insert(WindowServerId(5));
    reactor.perform_step(Step::ClearChangingScreens, &env);
    assert!(!reactor.space_manager.changing_screens.contains(WindowServerId(5)));

    assert!(reactor.perform_step(Step::FocusMainWindow, &env).is_empty());
    reactor.main_window_tracker_manager.main_window = Some(wid);
    assert_eq!(
        reactor.perform_step(Step::FocusMainWindow, &env),
        vec![Task::SendLayoutEvent(LayoutEvent::WindowFocused(SpaceId(2), wid))]
    );
    assert_eq!(
        reactor.perform_step(Step::CheckForNewWindows, &env),
        vec![Task::SendToApp(1, AppRequest::GetVisibleWindows { force_refresh: false })]
    );
    assert!(reactor.perform_step(Step::PlaceInActiveWorkspace(SpaceId(2), wid), &env).is_empty());
    assert!(reactor.perform_step(Step::AnnounceWorkspace(Some(SpaceId(2))), &env).is_empty());
    env.active_workspaces.insert(SpaceId(2), VirtualWorkspaceId(8));
    assert_eq!(
        reactor.perform_step(Step::PlaceInActiveWorkspace(SpaceId(2), wid), &env),
        vec![Task::AssignWindow { space: SpaceId(2), window: wid, workspace: VirtualWorkspaceId(8) }]
    );
    let key = SpaceWorkspace { space: SpaceId(2), workspace: VirtualWorkspaceId(8) };
    env.workspace_titles.insert(key, WorkspaceTitle { name: None, debug: text("W8") });
    assert_eq!(
        reactor.perform_step(Step::AnnounceWorkspace(Some(SpaceId(2))), &env),
        vec![Task::Broadcast(BroadcastEvent::WorkspaceChanged {
            workspace_id: VirtualWorkspaceId(8),
            workspace_name: text("Workspace W8"),
            space_id: SpaceId(2),
            display_uuid: Some(text("display-20")),
        })]
    );
    assert!(reactor.perform_step(Step::AnnounceWorkspace(None), &env).is_empty());
    assert!(reactor.perform_step(Step::UpdateFocusFollowsMouse, &env).is_empty());
    reactor.communication_manager.has_event_tap = true;
    assert_eq!(
        reactor.perform_step(Step::UpdateFocusFollowsMouse, &env),
        vec![Task::SendToEventTap(EventTapRequest::SetFocusFollowsMouseEnabled(true))]
    );
}

// Menus and Mission Control

#[test]
fn the_focus_follows_the_mouse_unless_something_is_shown() {
    let mut reactor = two_screens();
    assert_eq!(reactor.update_focus_follows_mouse_state(), None);
    reactor.communication_manager.has_event_tap = true;
    let told = |on: bool| Some(Task::SendToEventTap(EventTapRequest::SetFocusFollowsMouseEnabled(on)));
    assert_eq!(reactor.update_focus_follows_mouse_state(), told(true));
    assert_eq!(reactor.set_mission_control_active(true), told(false));
    assert!(reactor.is_mission_control_active());
    assert_eq!(reactor.set_mission_control_active(true), None);
    assert_eq!(reactor.set_mission_control_active(false), told(true));
    assert_eq!(reactor.mission_control_manager.mission_control_state, MissionControlState::Inactive);
    reactor.mission_control_manager.mission_control_state = MissionControlState::Transitioning;
    assert_eq!(reactor.set_mission_control_active(false), None);
    assert_eq!(reactor.mission_control_manager.mission_control_state, MissionControlState::Transitioning);
    reactor.menu_manager.menu_state = MenuState::Open(1);
    assert_eq!(reactor.update_focus_follows_mouse_state(), told(false));
    assert_eq!(reactor.set_focus_follows_mouse_enabled(true), told(true));
    assert_eq!(
        reactor.update_layout(true, false),
        Task::UpdateLayout(LayoutUpdate { is_resize: true, is_workspace_switch: false })
    );
}

// Drags

#[test]
fn a_drag_is_begun_once() {
    let mut reactor = two_screens();
    let wid = window(1, 1);
    let start = frame(100.0, 100.0, 200.0, 200.0);
    let later = frame(1100.0, 100.0, 200.0, 200.0);
    track(&mut reactor, wid, start, 5);
    let mut env = surroundings(&reactor);
    relate(&mut env, &reactor, later);
    reactor.ensure_active_drag(wid, &start, &env);
    assert!(reactor.is_in_drag());
    assert_eq!(reactor.drag_manager.skip_layout_for_window, Some(wid));
    let session = DragSession {
        window: wid,
        last_frame: start,
        origin_space: Some(SpaceId(1)),
        settled_space: Some(SpaceId(1)),
        layout_dirty: false,
    };
    assert_eq!(reactor.get_active_drag_session(), Some(&session));
    reactor.ensure_active_drag(wid, &later, &env);
    assert_eq!(reactor.get_active_drag_session(), Some(&session));
    reactor.ensure_active_drag(window(2, 1), &later, &env);
    assert_eq!(reactor.get_active_drag_session().map(|s| s.window), Some(window(2, 1)));
}

#[test]
fn an_idle_drag_ends_without_a_trace() {
    let mut reactor = two_screens();
    let wid = window(1, 1);
    let start = frame(100.0, 100.0, 200.0, 200.0);
    track(&mut reactor, wid, start, 5);
    let env = surroundings(&reactor);
    reactor.ensure_active_drag(wid, &start, &env);
    reactor.drag_manager.skip_layout_for_window = None;
    reactor.update_active_drag(wid, &start, &env);
    let (counts, tasks) = reactor.finalize_active_drag(&env);
    assert!(!counts);
    assert!(tasks.is_empty());
    assert!(!reactor.is_in_drag());
    assert_eq!(reactor.drag_manager.skip_layout_for_window, None);
    assert_eq!(reactor.finalize_active_drag(&env), (false, vec![]));
}

#[test]
fn a_drag_to_another_space_moves_the_window() {
    let mut reactor = two_screens();
    let wid = window(1, 1);
    let start = frame(100.0, 100.0, 200.0, 200.0);
    let end = frame(1300.0, 100.0, 200.0, 200.0);
    track(&mut reactor, wid, start, 5);
    let mut env = surroundings(&reactor);
    relate(&mut env, &reactor, end);
    // The window server goes on reporting the first space.
    env.window_spaces.insert(WindowServerId(5), SpaceId(1));
    reactor.ensure_active_drag(wid, &start, &env);
    reactor.update_active_drag(wid, &end, &env);
    let session = reactor.get_active_drag_session().unwrap();
    assert_eq!(session.settled_space, Some(SpaceId(2)));
    assert!(session.layout_dirty);
    let (counts, tasks) = reactor.finalize_active_drag(&env);
    assert!(counts);
    assert_eq!(
        tasks,
        vec![
            Task::SendLayoutEvent(LayoutEvent::WindowRemoved(wid)),
            Task::Resume(Step::PlaceInActiveWorkspace(SpaceId(2), wid)),
            Task::SendLayoutEvent(LayoutEvent::WindowAdded(SpaceId(2), wid)),
        ]
    );
    assert_eq!(reactor.drag_manager.skip_layout_for_window, Some(wid));
}

#[test]
fn a_drag_within_a_space_only_updates_the_layout() {
    let mut reactor = two_screens();
    let wid = window(1, 1);
    let start = frame(100.0, 100.0, 200.0, 200.0);
    let end = frame(300.0, 100.0, 200.0, 200.0);
    track(&mut reactor, wid, start, 5);
    let mut env = surroundings(&reactor);
    relate(&mut env, &reactor, end);
    reactor.ensure_active_drag(wid, &start, &env);
    reactor.update_active_drag(window(9, 9), &end, &env);
    assert!(!reactor.get_active_drag_session().unwrap().layout_dirty);
    reactor.update_active_drag(wid, &end, &env);
    assert_eq!(reactor.finalize_active_drag(&env), (true, vec![]));
}

#[test]
fn a_dirty_drag_counts() {
    let mut reactor = two_screens();
    let wid = window(1, 1);
    let start = frame(100.0, 100.0, 200.0, 200.0);
    track(&mut reactor, wid, start, 5);
    let env = surroundings(&reactor);
    reactor.ensure_active_drag(wid, &start, &env);
    reactor.mark_drag_dirty(window(2, 2));
    assert!(!reactor.get_active_drag_session().unwrap().layout_dirty);
    reactor.mark_drag_dirty(wid);
    assert_eq!(reactor.finalize_active_drag(&env), (true, vec![]));
}

#[test]
fn a_flat_frame_does_not_move_a_window() {
    let mut reactor = two_screens();
    let wid = window(1, 1);
    let start = frame(100.0, 100.0, 200.0, 200.0);
    let flat = frame(1500.0, 100.0, 0.0, 200.0);
    track(&mut reactor, wid, start, 5);
    let mut env = surroundings(&reactor);
    relate(&mut env, &reactor, flat);
    reactor.ensure_active_drag(wid, &start, &env);
    let session = reactor.get_active_drag_session().unwrap();
    assert_eq!(reactor.resolve_drag_space(session, &flat, &env), Some(SpaceId(1)));
    let homeless = DragSession { window: wid, last_frame: start, origin_space: None, settled_space: None, layout_dirty: false };
    assert_eq!(reactor.resolve_drag_space(&homeless, &flat, &env), Some(SpaceId(2)));
}

#[test]
fn a_pending_swap_can_be_taken_back() {
    let mut reactor = two_screens();
    let (wid, target) = (window(1, 1), window(2, 1));
    let start = frame(100.0, 100.0, 200.0, 200.0);
    track(&mut reactor, wid, start, 5);
    let env = surroundings(&reactor);
    reactor.ensure_active_drag(wid, &start, &env);
    reactor.settle_swap(wid, Some(target));
    assert_eq!(reactor.get_pending_drag_swap(), Some((wid, target)));
    assert!(reactor.get_active_drag_session().is_none());
    assert_eq!(reactor.get_drag_session().map(|s| (s.window, s.last_frame)), Some((wid, start)));
    assert!(reactor.is_in_drag());
    reactor.settle_swap(wid, None);
    assert_eq!(reactor.get_pending_drag_swap(), None);
    assert_eq!(reactor.get_active_drag_session().map(|s| s.window), Some(wid));
    assert_eq!(reactor.drag_manager.skip_layout_for_window, None);
    assert_eq!(reactor.get_drag_session(), reactor.get_active_drag_session());
    assert_eq!(reactor.take_active_drag_session().map(|s| s.window), Some(wid));
    assert!(reactor.get_drag_session().is_none());
    reactor.settle_swap(wid, Some(target));
    assert_eq!(reactor.drag_manager.drag_state, DragState::Inactive);
    assert_eq!(reactor.drag_manager.skip_layout_for_window, None);
}

#[test]
fn swaps_are_looked_for_among_tiled_windows() {
    let mut reactor = two_screens();
    let wid = window(1, 1);
    let start = frame(100.0, 100.0, 200.0, 200.0);
    let tiled = frame(400.0, 100.0, 200.0, 200.0);
    track(&mut reactor, wid, start, 5);
    track(&mut reactor, window(2, 1), tiled, 6);
    track(&mut reactor, window(3, 1), frame(410.0, 100.0, 200.0, 200.0), 7);
    track(&mut reactor, window(4, 1), frame(1400.0, 100.0, 200.0, 200.0), 8);
    track(&mut reactor, window(5, 1), frame(420.0, 100.0, 200.0, 200.0), 9);
    let mut env = surroundings(&reactor);
    for pid in 1..=4 {
        env.active_members.insert(SpaceWindow { space: SpaceId(1), window: window(pid, 1) });
    }
    env.floating_windows.insert(window(3, 1));
    assert_eq!(reactor.maybe_swap_on_drag(wid, &start, None, &env), SwapStep::Skip);
    reactor.ensure_active_drag(wid, &start, &env);
    assert_eq!(
        reactor.maybe_swap_on_drag(wid, &start, None, &env),
        SwapStep::Probe(vec![(window(2, 1), tiled)])
    );
    assert_eq!(reactor.maybe_swap_on_drag(window(8, 8), &start, None, &env), SwapStep::Skip);
    assert_eq!(reactor.maybe_swap_on_drag(window(5, 1), &start, None, &env), SwapStep::Skip);
    reactor.space_manager.changing_screens.insert(WindowServerId(5));
    assert_eq!(reactor.maybe_swap_on_drag(wid, &start, None, &env), SwapStep::Skip);
}

#[test]
fn a_swap_does_not_reach_across_spaces() {
    let mut reactor = two_screens();
    let wid = window(1, 1);
    let start = frame(100.0, 100.0, 200.0, 200.0);
    let end = frame(1300.0, 100.0, 200.0, 200.0);
    track(&mut reactor, wid, start, 5);
    let mut env = surroundings(&reactor);
    relate(&mut env, &reactor, end);
    reactor.ensure_active_drag(wid, &start, &env);
    reactor.settle_swap(wid, Some(window(2, 1)));
    assert_eq!(reactor.maybe_swap_on_drag(wid, &end, Some(start), &env), SwapStep::Reset);
    assert!(!reactor.is_in_drag());
}

#[test]
fn the_drag_session_can_be_changed_in_place() {
    let mut reactor = two_screens();
    assert!(reactor.get_active_drag_session_mut().is_none());
    let wid = window(1, 1);
    reactor.ensure_active_drag(wid, &frame(0.0, 0.0, 1.0, 1.0), &nothing());
    if let Some(session) = reactor.get_active_drag_session_mut() {
        session.layout_dirty = true;
    }
    assert!(reactor.get_active_drag_session().unwrap().layout_dirty);
}

// Answers of the layout engine

#[test]
fn answers_do_nothing_during_a_drag() {
    let mut reactor = two_screens();
    let wid = window(1, 1);
    track(&mut reactor, wid, frame(100.0, 100.0, 200.0, 200.0), 5);
    let env = surroundings(&reactor);
    reactor.ensure_active_drag(wid, &frame(100.0, 100.0, 200.0, 200.0), &env);
    switching(&mut reactor);
    let response = answer(vec![wid], Some(wid));
    assert_eq!(reactor.key_window_request(&response, &env), None);
    assert_eq!(reactor.handle_layout_response(&response, None, &env, true), ResponseAction::Nothing);
    assert_eq!(reactor.workspace_switch_manager.workspace_switch_state, WorkspaceSwitchState::Inactive);
}

#[test]
fn windows_are_raised_in_groups() {
    let mut reactor = two_screens();
    let (a, b, c) = (window(1, 1), window(1, 2), window(2, 1));
    track(&mut reactor, a, frame(100.0, 100.0, 100.0, 100.0), 5);
    track(&mut reactor, b, frame(1100.0, 100.0, 100.0, 100.0), 6);
    track(&mut reactor, c, frame(120.0, 100.0, 100.0, 100.0), 7);
    track(&mut reactor, window(1, 3), frame(130.0, 100.0, 100.0, 100.0), 8);
    know_app(&mut reactor, 1);
    know_app(&mut reactor, 3);
    let env = surroundings(&reactor);
    let response = answer(vec![a, b, c, window(1, 3), window(9, 9)], Some(a));
    assert_eq!(
        reactor.handle_layout_response(&response, None, &env, false),
        ResponseAction::Raise(RaiseRequest {
            raise_windows: vec![vec![a, window(1, 3)], vec![b], vec![c]],
            focus_window: Some((a, None)),
            apps: vec![1],
        })
    );
}

#[test]
fn the_cursor_follows_the_focus_onto_screens_only() {
    let mut reactor = two_screens();
    reactor.config_manager.config.settings.mouse_follows_focus = true;
    let (inside, outside) = (window(1, 1), window(1, 2));
    track(&mut reactor, inside, frame(100.0, 100.0, 100.0, 100.0), 5);
    track(&mut reactor, outside, frame(100.0, -200.0, 100.0, 210.0), 6);
    let env = surroundings(&reactor);
    let focus = |reactor: &mut Reactor, wid: WindowId| {
        match reactor.handle_layout_response(&answer(vec![], Some(wid)), None, &env, false) {
            ResponseAction::Raise(request) => request.focus_window,
            other => panic!("{:?}", other),
        }
    };
    assert_eq!(focus(&mut reactor, inside), Some((inside, Some(point(150.0, 150.0)))));
    assert_eq!(focus(&mut reactor, outside), Some((outside, None)));
}

#[test]
fn hidden_windows_get_no_focus() {
    let mut reactor = two_screens();
    let wid = window(1, 1);
    track(&mut reactor, wid, frame(100.0, 100.0, 100.0, 100.0), 5);
    let env = surroundings(&reactor);
    let response = answer(vec![], Some(wid));
    reactor.window_manager.visible_windows.clear();
    assert_eq!(reactor.handle_layout_response(&response, None, &env, false), ResponseAction::Nothing);
    // A workspace switch may focus a window that is not visible yet.
    switching(&mut reactor);
    match reactor.handle_layout_response(&response, None, &env, false) {
        ResponseAction::Raise(request) => assert_eq!(request.focus_window, Some((wid, None))),
        other => panic!("{:?}", other),
    }
    reactor.space_manager.changing_screens.insert(WindowServerId(5));
    match reactor.handle_layout_response(&response, None, &env, false) {
        ResponseAction::Raise(request) => assert_eq!(request.focus_window, None),
        other => panic!("{:?}", other),
    }
    // A space that is only remembered is not on display.
    let mut reactor = two_screens();
    track(&mut reactor, wid, frame(100.0, 100.0, 100.0, 100.0), 5);
    reactor.update_screen_space_map();
    reactor.space_manager.screens[0].space = None;
    assert_eq!(reactor.handle_layout_response(&response, None, &env, false), ResponseAction::Nothing);
}

#[test]
fn a_switch_focuses_the_window_under_the_cursor() {
    let mut reactor = two_screens();
    let wid = window(1, 1);
    track(&mut reactor, wid, frame(100.0, 100.0, 100.0, 100.0), 5);
    let mut env = surroundings(&reactor);
    env.window_under_cursor = Some(WindowServerId(5));
    assert_eq!(reactor.window_id_under_cursor(&env), Some(wid));
    let empty = answer(vec![], None);
    assert_eq!(reactor.handle_layout_response(&empty, None, &env, false), ResponseAction::Nothing);
    switching(&mut reactor);
    match reactor.handle_layout_response(&empty, None, &env, false) {
        ResponseAction::Raise(request) => assert_eq!(request.focus_window, Some((wid, None))),
        other => panic!("{:?}", other),
    }
    reactor.main_window_tracker_manager.main_window = Some(wid);
    match reactor.handle_layout_response(&empty, None, &env, false) {
        ResponseAction::Raise(request) => assert_eq!(request.focus_window, None),
        other => panic!("{:?}", other),
    }
}

#[test]
fn untracked_windows_are_made_key() {
    let mut reactor = two_screens();
    let mut env = nothing();
    env.window_under_cursor = Some(WindowServerId(40));
    let empty = answer(vec![], None);
    assert_eq!(reactor.focus_untracked_window_under_cursor(&env), None);
    env.server_windows.insert(WindowServerId(40), info(40, 6, 0, frame(0.0, 0.0, 1.0, 1.0)));
    assert_eq!(reactor.focus_untracked_window_under_cursor(&env), Some((6, WindowServerId(40))));
    let known = info(40, 7, 0, frame(0.0, 0.0, 1.0, 1.0));
    reactor.window_server_info_manager.window_server_info.insert(WindowServerId(40), known);
    assert_eq!(reactor.focus_untracked_window_under_cursor(&env), Some((7, WindowServerId(40))));
    assert_eq!(reactor.key_window_request(&empty, &env), None);
    switching(&mut reactor);
    assert_eq!(reactor.key_window_request(&empty, &env), Some((7, WindowServerId(40))));
    assert_eq!(reactor.handle_layout_response(&empty, None, &env, true), ResponseAction::Nothing);
    assert_eq!(reactor.workspace_switch_manager.workspace_switch_state, WorkspaceSwitchState::Inactive);
    reactor.refocus_manager.refocus_state = RefocusState::Pending(SpaceId(1));
    assert_eq!(reactor.key_window_request(&empty, &env), Some((7, WindowServerId(40))));
    reactor.window_manager.window_ids.insert(WindowServerId(40), window(7, 1));
    assert_eq!(reactor.focus_untracked_window_under_cursor(&env), None);
}

#[test]
fn a_switch_moves_the_cursor_to_the_screen() {
    let mut reactor = two_screens();
    reactor.config_manager.config.settings.mouse_follows_focus = true;
    reactor.communication_manager.has_event_tap = true;
    let empty = answer(vec![], None);
    let mut env = nothing();
    env.active_windows.insert(SpaceId(2), vec![window(1, 1)]);
    switching(&mut reactor);
    reactor.refocus_manager.refocus_state = RefocusState::Pending(SpaceId(1));
    assert_eq!(
        reactor.handle_layout_response(&empty, Some(SpaceId(2)), &env, false),
        ResponseAction::Warp(point(1500.0, 400.0))
    );
    assert_eq!(reactor.refocus_manager.refocus_state, RefocusState::Idle);
    switching(&mut reactor);
    // An empty workspace leaves the cursor where it is.
    match reactor.handle_layout_response(&empty, Some(SpaceId(1)), &env, false) {
        ResponseAction::Raise(request) => assert!(request.raise_windows.is_empty()),
        other => panic!("{:?}", other),
    }
    env.active_space = Some(SpaceId(1));
    assert_eq!(
        reactor.handle_layout_response(&empty, None, &env, false),
        ResponseAction::Warp(point(500.0, 400.0))
    );
}

#[test]
fn the_focus_is_given_back() {
    let mut reactor = two_screens();
    let wid = window(1, 1);
    track(&mut reactor, wid, frame(100.0, 100.0, 100.0, 100.0), 5);
    let mut env = surroundings(&reactor);
    let empty = answer(vec![], None);
    reactor.refocus_manager.refocus_state = RefocusState::Pending(SpaceId(1));
    assert_eq!(reactor.handle_layout_response(&empty, None, &env, false), ResponseAction::Nothing);
    assert_eq!(reactor.refocus_manager.refocus_state, RefocusState::Idle);

    env.active_workspaces.insert(SpaceId(1), VirtualWorkspaceId(3));
    let key = SpaceWorkspace { space: SpaceId(1), workspace: VirtualWorkspaceId(3) };
    env.last_focused.insert(key, wid);
    assert_eq!(reactor.last_focused_window_in_space(SpaceId(1), &env), Some(wid));
    reactor.refocus_manager.refocus_state = RefocusState::Pending(SpaceId(1));
    match reactor.handle_layout_response(&empty, None, &env, false) {
        ResponseAction::Raise(request) => assert_eq!(request.focus_window, Some((wid, None))),
        other => panic!("{:?}", other),
    }
    reactor.window_manager.visible_windows.clear();
    assert_eq!(reactor.last_focused_window_in_space(SpaceId(1), &env), None);
    assert_eq!(reactor.last_focused_window_in_space(SpaceId(2), &env), None);

    // An answer that names windows leaves the wish pending.
    reactor.refocus_manager.refocus_state = RefocusState::Pending(SpaceId(1));
    reactor.handle_layout_response(&answer(vec![wid], None), None, &env, false);
    assert_eq!(reactor.refocus_manager.refocus_state, RefocusState::Pending(SpaceId(1)));
}

#[test]
fn hidden_windows_ask_for_the_focus_back() {
    let mut reactor = two_screens();
    let wid = window(1, 1);
    let mut env = nothing();
    env.active_workspaces.insert(SpaceId(1), VirtualWorkspaceId(1));
    env.window_workspaces.insert(SpaceWindow { space: SpaceId(1), window: wid }, VirtualWorkspaceId(1));
    reactor.request_refocus_if_hidden(SpaceId(1), wid, &env);
    reactor.prepare_refocus_after_layout_event(&LayoutEvent::WindowRemoved(wid), &env);
    assert_eq!(reactor.refocus_manager.refocus_state, RefocusState::Idle);
    env.window_workspaces.insert(SpaceWindow { space: SpaceId(1), window: wid }, VirtualWorkspaceId(2));
    let titled = TitledWindow { window: wid, title: None, ax_role: None, ax_subrole: None };
    let update = LayoutEvent::WindowsOnScreenUpdated(SpaceId(1), 1, vec![titled], None);
    let asked = reactor.send_layout_event(&update, &answer(vec![wid], None), &env);
    assert_eq!(asked, None);
    assert_eq!(reactor.refocus_manager.refocus_state, RefocusState::Pending(SpaceId(1)));
    reactor.refocus_manager.refocus_state = RefocusState::Idle;
    reactor.prepare_refocus_after_layout_event(&LayoutEvent::WindowAdded(SpaceId(1), wid), &env);
    assert_eq!(reactor.refocus_manager.refocus_state, RefocusState::Pending(SpaceId(1)));
}

#[test]
fn one_window_can_be_raised() {
    let mut reactor = two_screens();
    know_app(&mut reactor, 1);
    assert_eq!(
        reactor.raise_window(window(1, 4), Some(point(1.0, 2.0))),
        RaiseRequest {
            raise_windows: vec![vec![window(1, 4)]],
            focus_window: Some((window(1, 4), Some(point(1.0, 2.0)))),
            apps: vec![1],
        }
    );
    assert_eq!(reactor.raise_window(window(2, 4), None).apps, Vec::<i32>::new());
}

// Workspace switches

#[test]
fn workspace_switches_are_counted() {
    let mut switch = WorkspaceSwitchManager {
        workspace_switch_state: WorkspaceSwitchState::Inactive,
        workspace_switch_generation: u64::MAX,
        active_workspace_switch: None,
        last_auto_workspace_switch: None,
        pending_workspace_switch_origin: None,
        pending_workspace_mouse_warp: None,
    };
    switch.start_workspace_switch(WorkspaceSwitchOrigin::Manual);
    assert!(switch.manual_switch_in_progress());
    assert_eq!(switch.active_workspace_switch, Some(0));
    switch.mark_workspace_switch_inactive();
    assert!(!switch.manual_switch_in_progress());
    assert_eq!(switch.active_workspace_switch, Some(0));
    switch.start_workspace_switch(WorkspaceSwitchOrigin::Auto);
    assert!(!switch.manual_switch_in_progress());
    assert_eq!(switch.active_workspace_switch, Some(1));
}

/// A reactor with a managed window of process 1 in the workspace 2 of space 1, where 1 is active.
fn elsewhere() -> (Reactor, Surroundings) {
    let mut reactor = two_screens();
    let wid = window(1, 1);
    track(&mut reactor, wid, frame(100.0, 100.0, 100.0, 100.0), 5);
    let mut env = surroundings(&reactor);
    env.active_workspaces.insert(SpaceId(1), VirtualWorkspaceId(1));
    env.window_workspaces.insert(SpaceWindow { space: SpaceId(1), window: wid }, VirtualWorkspaceId(2));
    (reactor, env)
}

fn there() -> ActivationSwitch {
    ActivationSwitch { space: SpaceId(1), from: VirtualWorkspaceId(1), to: VirtualWorkspaceId(2) }
}

#[test]
fn an_activation_switches_to_the_workspace_of_the_application() {
    let (reactor, env) = elsewhere();
    let bundle = text("some.app");
    assert_eq!(reactor.handle_app_activation_workspace_switch(1, Some(&bundle), 0, &env), Some(there()));
    assert_eq!(reactor.handle_app_activation_workspace_switch(2, Some(&bundle), 0, &env), None);
    assert_eq!(reactor.handle_app_activation_workspace_switch(1, None, 0, &env), None);
    assert!(reactor.window_is_standard(window(1, 1)));
    assert!(!reactor.window_is_standard(window(1, 2)));
}

#[test]
fn an_activation_may_be_ignored() {
    let bundle = text("some.app");
    let (mut reactor, env) = elsewhere();
    reactor.config_manager.config.settings.auto_focus_blacklist = vec![text("other"), text("some.app")];
    assert_eq!(reactor.handle_app_activation_workspace_switch(1, Some(&bundle), 0, &env), None);

    let (mut reactor, env) = elsewhere();
    switching(&mut reactor);
    assert_eq!(reactor.handle_app_activation_workspace_switch(1, Some(&bundle), 0, &env), None);
    reactor.workspace_switch_manager.active_workspace_switch = None;
    assert_eq!(reactor.handle_app_activation_workspace_switch(1, Some(&bundle), 0, &env), None);

    let (reactor, mut env) = elsewhere();
    env.active_space = Some(SpaceId(4));
    env.fullscreen_spaces.insert(SpaceId(4));
    assert_eq!(reactor.handle_app_activation_workspace_switch(1, Some(&bundle), 0, &env), None);

    let (mut reactor, mut env) = elsewhere();
    track(&mut reactor, window(1, 2), frame(0.0, 0.0, 10.0, 10.0), 6);
    if let Some(known) = reactor.window_manager.windows.get_mut(window(1, 2)) {
        known.is_manageable = false;
    }
    relate(&mut env, &reactor, frame(0.0, 0.0, 10.0, 10.0));
    env.window_under_cursor = Some(WindowServerId(6));
    assert_eq!(reactor.activation_from_unmanageable_window(1, &env), Some(WindowServerId(6)));
    assert_eq!(reactor.activation_from_unmanageable_window(2, &env), None);
    assert_eq!(reactor.handle_app_activation_workspace_switch(1, Some(&bundle), 0, &env), None);

    // Another window of the application is on the active workspace.
    let (mut reactor, mut env) = elsewhere();
    track(&mut reactor, window(1, 2), frame(0.0, 0.0, 10.0, 10.0), 6);
    relate(&mut env, &reactor, frame(0.0, 0.0, 10.0, 10.0));
    env.window_workspaces.insert(SpaceWindow { space: SpaceId(1), window: window(1, 2) }, VirtualWorkspaceId(1));
    assert_eq!(reactor.handle_app_activation_workspace_switch(1, Some(&bundle), 0, &env), None);
}

#[test]
fn automatic_switches_do_not_bounce() {
    let (mut reactor, mut env) = elsewhere();
    let bundle = text("some.app");
    let start = 1_000_000_000;
    let listed = vec![VirtualWorkspaceId(1), VirtualWorkspaceId(2)];
    let tasks = reactor.begin_auto_workspace_switch(there(), &listed, start, &env);
    assert_eq!(tasks, vec![Task::SwitchToWorkspace { space: SpaceId(1), index: 1 }]);
    assert_eq!(reactor.workspace_switch_manager.workspace_switch_state, WorkspaceSwitchState::Active);
    let notes = EventNotes { raised_window: None, verdict: Verdict::Ignored, updates_notifications: false };
    reactor.finish_event(&notes, LayoutOutcome::Updated(false), &env);

    env.active_workspaces.insert(SpaceId(1), VirtualWorkspaceId(2));
    env.window_workspaces.insert(SpaceWindow { space: SpaceId(1), window: window(1, 1) }, VirtualWorkspaceId(1));
    let back = ActivationSwitch { space: SpaceId(1), from: VirtualWorkspaceId(2), to: VirtualWorkspaceId(1) };
    let at = |now: u64| reactor.handle_app_activation_workspace_switch(1, Some(&bundle), now, &env);
    assert_eq!(at(start + 299_999_999), None);
    assert_eq!(at(start + 300_000_000), Some(back));
    assert_eq!(at(start - 1), None);
}

#[test]
fn a_workspace_that_is_not_listed_is_not_switched_to() {
    let (mut reactor, env) = elsewhere();
    assert!(reactor.begin_auto_workspace_switch(there(), &vec![VirtualWorkspaceId(1)], 5, &env).is_empty());
    assert_eq!(reactor.workspace_switch_manager.last_auto_workspace_switch, None);
}

#[test]
fn floating_windows_are_remembered_before_a_switch() {
    let (mut reactor, mut env) = elsewhere();
    let wid = window(1, 1);
    env.active_windows.insert(SpaceId(1), vec![wid, window(2, 2), window(3, 3)]);
    assert!(reactor.store_current_floating_positions(SpaceId(1), &env).is_empty());
    env.floating_windows.insert(wid);
    env.floating_windows.insert(window(3, 3));
    let stored = Task::StoreFloatingPositions {
        space: SpaceId(1),
        positions: vec![(wid, frame(100.0, 100.0, 100.0, 100.0))],
    };
    assert_eq!(
        reactor.begin_auto_workspace_switch(there(), &vec![VirtualWorkspaceId(2)], 5, &env),
        vec![stored, Task::SwitchToWorkspace { space: SpaceId(1), index: 0 }]
    );
    assert!(reactor.store_current_floating_positions(SpaceId(2), &env).is_empty());
}

// Raising on mouse over

fn stacking(order: Vec<u32>) -> Stacking {
    Stacking {
        associated_windows: vec![],
        front_to_back: order,
        levels: Table::new(),
        contained_frames: IdSet::new(),
    }
}

#[test]
fn windows_are_raised_by_the_mouse() {
    let mut reactor = two_screens();
    let wid = window(1, 1);
    track(&mut reactor, wid, frame(100.0, 100.0, 500.0, 500.0), 5);
    let mut env = surroundings(&reactor);
    assert!(!reactor.should_raise_on_mouse_over(wid, &stacking(vec![5]), &env));
    env.active_members.insert(SpaceWindow { space: SpaceId(1), window: wid });
    assert_eq!(reactor.mouse_over_candidate(wid, &env), Some(SpaceId(1)));
    assert!(reactor.should_raise_on_mouse_over(wid, &stacking(vec![5]), &env));
    assert!(!reactor.should_raise_on_mouse_over(window(9, 9), &stacking(vec![5]), &env));
    reactor.menu_manager.menu_state = MenuState::Open(1);
    assert!(!reactor.should_raise_on_mouse_over(wid, &stacking(vec![5]), &env));
    reactor.menu_manager.menu_state = MenuState::Closed;
    if let Some(known) = reactor.window_manager.windows.get_mut(wid) {
        known.is_manageable = false;
    }
    assert!(!reactor.should_raise_on_mouse_over(wid, &stacking(vec![5]), &env));
}

#[test]
fn windows_are_not_raised_over_floating_ones() {
    let mut reactor = two_screens();
    let (wid, above) = (window(1, 1), window(2, 1));
    let inner = frame(200.0, 200.0, 50.0, 50.0);
    track(&mut reactor, wid, frame(100.0, 100.0, 500.0, 500.0), 5);
    track(&mut reactor, above, inner, 6);
    let mut env = surroundings(&reactor);
    env.active_members.insert(SpaceWindow { space: SpaceId(1), window: wid });
    env.floating_windows.insert(above);
    let mut order = stacking(vec![77, 6, 5]);
    assert!(reactor.should_raise_on_mouse_over(wid, &order, &env));
    order.contained_frames.insert(inner);
    assert!(!reactor.should_raise_on_mouse_over(wid, &order, &env));
    order.levels.insert(6, 3);
    assert!(reactor.should_raise_on_mouse_over(wid, &order, &env));
    order.levels.insert(5, 3);
    assert!(!reactor.should_raise_on_mouse_over(wid, &order, &env));
    order.front_to_back = vec![5, 6];
    assert!(reactor.should_raise_on_mouse_over(wid, &order, &env));
}

#[test]
fn windows_with_sheets_are_not_raised() {
    let mut reactor = two_screens();
    let (wid, sheet) = (window(1, 1), window(1, 2));
    track(&mut reactor, wid, frame(100.0, 100.0, 500.0, 500.0), 5);
    track(&mut reactor, sheet, frame(200.0, 200.0, 50.0, 50.0), 6);
    let mut env = surroundings(&reactor);
    env.active_members.insert(SpaceWindow { space: SpaceId(1), window: wid });
    let mut order = stacking(vec![5]);
    order.associated_windows = vec![WindowServerId(99), WindowServerId(6)];
    assert!(reactor.should_raise_on_mouse_over(wid, &order, &env));
    for role in ["AXSheet", "AXDrawer"] {
        if let Some(known) = reactor.window_manager.windows.get_mut(sheet) {
            known.ax_role = Some(text(role));
        }
        assert!(!reactor.should_raise_on_mouse_over(wid, &order, &env));
    }
    // A window that the window server does not know is raised at once.
    if let Some(known) = reactor.window_manager.windows.get_mut(wid) {
        known.window_server_id = None;
    }
    assert!(reactor.should_raise_on_mouse_over(wid, &order, &env));
}

// Windows and applications

#[test]
fn reports_of_the_window_server_are_taken_over() {
    let mut reactor = two_screens();
    let wid = window(1, 1);
    track(&mut reactor, wid, frame(0.0, 0.0, 1.0, 1.0), 5);
    reactor.window_manager.observed_window_server_ids.insert(WindowServerId(6));
    let placed = frame(7.0, 7.0, 7.0, 7.0);
    let reports = vec![info(5, 1, 0, placed), info(6, 2, 3, frame(9.0, 9.0, 9.0, 9.0))];
    assert_eq!(
        reactor.manageability_queries(&reports),
        vec![
            Some(ManageabilityQuery {
                window_server_id: Some(WindowServerId(5)),
                is_minimized: false,
                is_ax_standard: true,
                is_ax_root: true,
            }),
            None
        ]
    );
    reactor.update_partial_window_server_info(&reports, &vec![false, true]);
    assert_eq!(reactor.window_manager.visible_windows.items, vec![WindowServerId(5), WindowServerId(6)]);
    assert!(!reactor.window_manager.observed_window_server_ids.contains(WindowServerId(6)));
    let known = reactor.window_manager.windows.get(wid).unwrap();
    assert_eq!(known.frame_monotonic, placed);
    assert!(!known.is_manageable);
    assert_eq!(reactor.window_server_info_manager.window_server_info.get(WindowServerId(6)), Some(&reports[1]));

    // A window in another layer is not moved.
    let hovering = vec![info(5, 1, 3, frame(8.0, 8.0, 8.0, 8.0))];
    reactor.update_complete_window_server_info(&hovering, &vec![true]);
    assert_eq!(reactor.window_manager.visible_windows.items, vec![WindowServerId(5)]);
    let known = reactor.window_manager.windows.get(wid).unwrap();
    assert_eq!(known.frame_monotonic, placed);
    assert!(known.is_manageable);
}

#[test]
fn the_last_report_counts() {
    let mut reactor = two_screens();
    let reports = vec![info(5, 1, 0, frame(0.0, 0.0, 1.0, 1.0)), info(5, 2, 0, frame(0.0, 0.0, 2.0, 2.0))];
    reactor.update_partial_window_server_info(&reports, &vec![true, true]);
    assert_eq!(reactor.window_server_info_manager.window_server_info.entries, vec![(WindowServerId(5), reports[1])]);
    assert_eq!(reactor.window_manager.visible_windows.items, vec![WindowServerId(5)]);
}

#[test]
fn windows_are_where_the_ordinary_layer_has_them() {
    let mut reactor = two_screens();
    let wid = window(1, 1);
    track(&mut reactor, wid, frame(0.0, 0.0, 9.0, 9.0), 5);
    let placed = frame(0.0, 0.0, 1.0, 1.0);
    let elsewhere = frame(0.0, 0.0, 2.0, 2.0);
    let reports = vec![info(5, 1, 0, elsewhere), info(5, 1, 0, placed), info(5, 1, 3, elsewhere)];
    reactor.update_partial_window_server_info(&reports, &vec![true, true, false]);
    let known = reactor.window_manager.windows.get(wid).unwrap();
    assert_eq!(known.frame_monotonic, placed);
    assert!(!known.is_manageable);
    assert_eq!(reactor.window_manager.windows.entries.len(), 1);
}

#[test]
fn applications_are_asked_for_their_windows() {
    let mut reactor = two_screens();
    know_app(&mut reactor, 4);
    know_app(&mut reactor, 5);
    let listing = |pid| Task::SendToApp(pid, AppRequest::GetVisibleWindows { force_refresh: false });
    assert_eq!(reactor.check_for_new_windows(), vec![listing(4), listing(5)]);
    assert_eq!(reactor.force_refresh_all_windows(), vec![Task::RefreshApp(4), Task::RefreshApp(5)]);
    reactor.refresh_requested(4, true);
    reactor.refresh_requested(5, false);
    assert_eq!(reactor.mission_control_manager.pending_mission_control_refresh.items, vec![4]);
    let reports = vec![info(9, 4, 0, frame(0.0, 0.0, 1.0, 1.0))];
    assert_eq!(
        reactor.refresh_windows_after_mission_control(&reports, &vec![true]),
        vec![
            Task::RefreshApp(4),
            Task::RefreshApp(5),
            listing(4),
            listing(5),
            Task::UpdateLayout(LayoutUpdate { is_resize: false, is_workspace_switch: false }),
            Task::SendMenuUpdate,
        ]
    );
    assert!(reactor.mission_control_manager.pending_mission_control_refresh.items.is_empty());
    assert!(reactor.window_manager.visible_windows.contains(WindowServerId(9)));
}

#[test]
fn windows_are_described() {
    let mut reactor = two_screens();
    let wid = window(1, 1);
    let f = frame(1.0, 2.0, 3.0, 4.0);
    track(&mut reactor, wid, f, 5);
    assert_eq!(reactor.create_window_data(wid, &nothing()), None);
    know_app(&mut reactor, 1);
    let mut env = nothing();
    env.floating_windows.insert(wid);
    reactor.main_window_tracker_manager.main_window = Some(wid);
    let mut data = WindowData {
        id: wid,
        title: text("title"),
        frame: f,
        is_floating: true,
        is_focused: true,
        bundle_id: Some(text("bundle.1")),
        window_server_id: Some(5),
    };
    assert_eq!(reactor.create_window_data(wid, &env), Some(data));
    if let Some(app) = reactor.app_manager.apps.get_mut(1) {
        app.info.localized_name = Some(text("App"));
    }
    reactor.main_window_tracker_manager.main_window = None;
    data = reactor.create_window_data(wid, &nothing()).unwrap();
    assert_eq!(data.bundle_id, Some(text("App")));
    assert!(!data.is_floating);
    assert!(!data.is_focused);
    if let Some(known) = reactor.window_manager.windows.get_mut(wid) {
        known.is_minimized = true;
    }
    assert_eq!(reactor.create_window_data(wid, &env), None);
    assert_eq!(reactor.create_window_data(window(1, 2), &env), None);
}

#[test]
fn windows_are_closed_by_their_application() {
    let mut reactor = two_screens();
    assert_eq!(reactor.request_close_window(window(1, 1)), None);
    know_app(&mut reactor, 1);
    assert_eq!(
        reactor.request_close_window(window(1, 1)),
        Some(Task::SendToApp(1, AppRequest::CloseWindow(window(1, 1))))
    );
}

#[test]
fn changing_screens_are_traced_to_processes() {
    let mut reactor = two_screens();
    let mut env = nothing();
    for id in 1..=4 {
        reactor.space_manager.changing_screens.insert(WindowServerId(id));
    }
    reactor.window_manager.window_ids.insert(WindowServerId(1), window(11, 1));
    let f = frame(0.0, 0.0, 1.0, 1.0);
    reactor.window_server_info_manager.window_server_info.insert(WindowServerId(1), info(1, 99, 0, f));
    reactor.window_server_info_manager.window_server_info.insert(WindowServerId(2), info(2, 12, 0, f));
    env.server_windows.insert(WindowServerId(2), info(2, 98, 0, f));
    env.server_windows.insert(WindowServerId(3), info(3, 13, 0, f));
    for pid in [11, 12, 13] {
        assert!(reactor.pid_has_changing_screens(pid, &env));
    }
    for pid in [98, 99, 14] {
        assert!(!reactor.pid_has_changing_screens(pid, &env));
    }
}

#[test]
fn visible_windows_are_traced_to_processes() {
    let mut reactor = two_screens();
    track(&mut reactor, window(1, 1), frame(0.0, 0.0, 1.0, 1.0), 5);
    assert!(reactor.has_visible_window_server_ids_for_pid(1));
    assert!(!reactor.has_visible_window_server_ids_for_pid(2));
    reactor.window_manager.visible_windows.clear();
    assert!(!reactor.has_visible_window_server_ids_for_pid(1));
}

#[test]
fn new_titles_are_news() {
    let (reactor, mut env) = elsewhere();
    let wid = window(1, 1);
    let news = |env: &Surroundings, new: &str| {
        reactor.broadcast_window_title_changed(wid, text("old"), text(new), env)
    };
    assert_eq!(news(&env, "old"), None);
    env.active_workspace_indices.insert(SpaceId(1), 4);
    let key = SpaceWorkspace { space: SpaceId(1), workspace: VirtualWorkspaceId(1) };
    env.workspace_titles.insert(key, WorkspaceTitle { name: Some(text("main")), debug: text("W1") });
    assert_eq!(
        news(&env, "new"),
        Some(BroadcastEvent::WindowTitleChanged {
            window_id: wid,
            workspace_id: VirtualWorkspaceId(1),
            workspace_index: Some(4),
            workspace_name: text("main"),
            previous_title: text("old"),
            new_title: text("new"),
            space_id: SpaceId(1),
            display_uuid: Some(text("display-10")),
        })
    );
    env.active_workspaces.remove(SpaceId(1));
    assert_eq!(news(&env, "new"), None);
}

#[test]
fn workspaces_without_a_name_go_by_their_identifier() {
    let reactor = two_screens();
    let mut env = nothing();
    let key = SpaceWorkspace { space: SpaceId(1), workspace: VirtualWorkspaceId(1) };
    env.workspace_titles.insert(key, WorkspaceTitle { name: None, debug: text("W1") });
    assert_eq!(reactor.workspace_name(SpaceId(1), VirtualWorkspaceId(1), &env), text("Workspace W1"));
    env.workspace_titles.insert(key, WorkspaceTitle { name: Some(text("main")), debug: text("W1") });
    assert_eq!(reactor.workspace_name(SpaceId(1), VirtualWorkspaceId(1), &env), text("main"));
}

#[test]
fn displays_without_an_identifier_have_none() {
    let mut reactor = two_screens();
    reactor.space_manager.screens[0].display_uuid = String::new();
    assert_eq!(reactor.display_uuid_of_space(SpaceId(1)), None);
    assert_eq!(reactor.display_uuid_of_space(SpaceId(2)), Some(text("display-20")));
    assert_eq!(reactor.display_uuid_of_space(SpaceId(3)), None);
}

// Rules

fn app() -> AppInfo {
    AppInfo { bundle_id: Some(text("b")), localized_name: Some(text("n")) }
}

fn assignment(wid: WindowId, space: u64) -> Task {
    Task::AssignWindowByRules(RuleAssignment {
        window: wid,
        space: SpaceId(space),
        bundle_id: Some(text("b")),
        app_name: Some(text("n")),
        title: Some(text("title")),
        ax_role: Some(text("AXWindow")),
        ax_subrole: None,
    })
}

fn update(space: u64, windows: Vec<WindowId>, app: AppInfo) -> Task {
    let titled = windows
        .into_iter()
        .map(|window| TitledWindow {
            window,
            title: Some(text("title")),
            ax_role: Some(text("AXWindow")),
            ax_subrole: None,
        })
        .collect();
    Task::SendLayoutEvent(LayoutEvent::WindowsOnScreenUpdated(SpaceId(space), 1, titled, Some(app)))
}

#[test]
fn rules_are_applied_space_by_space() {
    let mut reactor = two_screens();
    let (a, b, c) = (window(1, 1), window(1, 2), window(1, 3));
    track(&mut reactor, a, frame(1100.0, 100.0, 100.0, 100.0), 5);
    track(&mut reactor, b, frame(100.0, 100.0, 100.0, 100.0), 6);
    track(&mut reactor, c, frame(1200.0, 100.0, 100.0, 100.0), 7);
    let env = surroundings(&reactor);
    let windows = vec![a, b, window(9, 9), c];
    assert_eq!(
        reactor.process_windows_for_app_rules(1, &windows, &app(), &env),
        vec![
            assignment(b, 1),
            update(1, vec![b], app()),
            assignment(a, 2),
            assignment(c, 2),
            update(2, vec![a, c], app()),
        ]
    );
    assert!(reactor.process_windows_for_app_rules(1, &vec![], &app(), &env).is_empty());
}

#[test]
fn rules_are_applied_again_where_that_is_wanted() {
    let mut reactor = two_screens();
    let wid = window(1, 1);
    track(&mut reactor, wid, frame(100.0, 100.0, 100.0, 100.0), 5);
    reactor.app_manager.apps.insert(1, AppState { info: app() });
    let env = surroundings(&reactor);
    assert!(reactor.maybe_reapply_app_rules_for_window(wid, &env).is_empty());
    reactor.config_manager.config.virtual_workspaces.reapply_app_rules_on_title_change = true;
    assert_eq!(
        reactor.maybe_reapply_app_rules_for_window(wid, &env),
        vec![Task::MarkRecent(WindowServerId(5)), assignment(wid, 1), update(1, vec![wid], app())]
    );
    assert!(reactor.maybe_reapply_app_rules_for_window(window(1, 2), &env).is_empty());
    if let Some(known) = reactor.window_manager.windows.get_mut(wid) {
        known.is_manageable = false;
    }
    assert!(reactor.maybe_reapply_app_rules_for_window(wid, &env).is_empty());
}

// The course of events

fn begin(reactor: &mut Reactor, event: Event) -> (Handler, EventNotes) {
    reactor.handle_event(event, TrackerReply { main_window: Some(window(3, 3)), raised_window: None })
}

#[test]
fn queries_change_nothing() {
    let mut reactor = two_screens();
    let (handler, notes) = begin(&mut reactor, Event::QueryWindowInfo { window_id: window(1, 1) });
    assert!(matches!(handler, Handler::Query(Query::WindowInfo { window_id: WindowId { pid: 1, idx: 1 } })));
    assert!(!notes.updates_notifications);
    assert_eq!(reactor.main_window(), None);
    let queries = vec![
        Event::QueryWorkspaces { space_id: None },
        Event::QueryWindows { space_id: None },
        Event::QueryActiveWorkspace { space_id: Some(SpaceId(1)) },
        Event::QueryDisplays,
        Event::QueryApplications,
        Event::QueryLayoutState { space_id: 1 },
        Event::QueryMetrics,
    ];
    for query in queries {
        assert!(query.is_query());
        assert!(matches!(begin(&mut reactor, query).0, Handler::Query(_)));
        assert_eq!(reactor.main_window(), None);
    }
}

#[test]
fn nothing_follows_an_answer() {
    let mut reactor = two_screens();
    switching(&mut reactor);
    let (handler, notes) = begin(&mut reactor, Event::QueryDisplays);
    for answer in [false, true] {
        assert_eq!(first_stage(&handler, answer), Stage::Over);
    }
    let (tasks, stage) = reactor.proceed(&notes, first_stage(&handler, true), &nothing());
    assert!(tasks.is_empty());
    assert_eq!(stage, Stage::Over);
    assert_eq!(reactor.workspace_switch_manager.workspace_switch_state, WorkspaceSwitchState::Active);
    for event in [Event::MouseUp, Event::ApplicationDeactivated(1), Event::WindowDestroyed(window(1, 1))] {
        let (handler, _) = begin(&mut reactor, event);
        assert_eq!(first_stage(&handler, true), Stage::Handled(true));
        assert_eq!(first_stage(&handler, false), Stage::Handled(false));
    }
}

#[test]
fn events_go_to_their_handlers() {
    let mut reactor = two_screens();
    let (handler, notes) = begin(&mut reactor, Event::WindowDestroyed(window(1, 1)));
    assert!(matches!(handler, Handler::WindowDestroyed(WindowId { pid: 1, idx: 1 })));
    assert_eq!(
        notes,
        EventNotes { raised_window: None, verdict: Verdict::Destroyed, updates_notifications: true }
    );
    assert_eq!(reactor.main_window(), Some(window(3, 3)));
    let f = frame(0.0, 0.0, 1.0, 1.0);
    let (handler, notes) =
        begin(&mut reactor, Event::WindowFrameChanged(window(1, 1), f, None, Requested(true), None));
    assert!(matches!(handler, Handler::WindowFrameChanged(..)));
    assert_eq!(notes.verdict, Verdict::Resized);
    assert!(!notes.updates_notifications);
    assert!(matches!(
        begin(&mut reactor, Event::ApplicationActivated(4, Quiet::No)).0,
        Handler::ApplicationActivated(4)
    ));
    for event in [
        Event::ApplicationDeactivated(1),
        Event::ApplicationGloballyActivated(1),
        Event::ApplicationGloballyDeactivated(1),
        Event::ApplicationMainWindowChanged(1, None, Quiet::Yes),
    ] {
        assert!(matches!(begin(&mut reactor, event).0, Handler::Nothing));
    }
    for id in [None, Some(7)] {
        let selector = DisplaySelector::Index(1);
        let command = Command::Reactor(ReactorCommand::MoveWindowToDisplay { selector, window_id: id });
        let Handler::MoveWindowToDisplay { selector, window_id } = begin(&mut reactor, Event::Command(command)).0
        else {
            panic!("a window is moved");
        };
        assert_eq!(selector, DisplaySelector::Index(1));
        assert_eq!(window_id, id);
    }
    let command = Command::Layout(LayoutCommand::Ascend);
    assert!(matches!(
        begin(&mut reactor, Event::Command(command)).0,
        Handler::LayoutCommand(LayoutCommand::Ascend)
    ));
}

#[test]
fn some_events_change_the_windows() {
    for event in [
        Event::WindowServerDestroyed(WindowServerId(1), SpaceId(1)),
        Event::WindowServerAppeared(WindowServerId(1), SpaceId(1)),
        Event::WindowsDiscovered { pid: 1, new: vec![], known_visible: vec![] },
        Event::ApplicationTerminated(1),
        Event::ApplicationThreadTerminated(1),
        Event::SpaceChanged(vec![], vec![]),
        Event::ScreenParametersChanged(vec![], vec![]),
    ] {
        assert!(event.should_update_notifications());
    }
    for event in [Event::MouseUp, Event::MenuOpened, Event::WindowMinimized(window(1, 1)), Event::SystemWoke] {
        assert!(!event.should_update_notifications());
        assert_eq!(event.verdict_of_handler(), Verdict::Ignored);
    }
}

#[test]
fn a_raised_window_is_news_for_the_layout() {
    let mut reactor = two_screens();
    let wid = window(1, 1);
    track(&mut reactor, wid, frame(1100.0, 100.0, 100.0, 100.0), 5);
    let env = surroundings(&reactor);
    let notes = |raised_window| EventNotes { raised_window, verdict: Verdict::Ignored, updates_notifications: false };
    assert!(reactor.focus_raised_window(&notes(None), &env).is_empty());
    assert!(reactor.focus_raised_window(&notes(Some(window(2, 2))), &env).is_empty());
    assert_eq!(
        reactor.focus_raised_window(&notes(Some(wid)), &env),
        vec![Task::SendLayoutEvent(LayoutEvent::WindowFocused(SpaceId(2), wid))]
    );
}

#[test]
fn drags_hold_the_layout_back() {
    let mut reactor = two_screens();
    let notes = |verdict| EventNotes { raised_window: None, verdict, updates_notifications: false };
    let updated = |is_resize: bool, is_workspace_switch: bool| {
        vec![Task::UpdateLayout(LayoutUpdate { is_resize, is_workspace_switch }), Task::SendMenuUpdate]
    };
    assert_eq!(reactor.update_after_event(&notes(Verdict::Ignored), true), updated(false, false));
    assert_eq!(reactor.update_after_event(&notes(Verdict::Resized), true), updated(true, false));
    assert_eq!(reactor.update_after_event(&notes(Verdict::Resized), false), updated(false, false));
    switching(&mut reactor);
    assert_eq!(reactor.update_after_event(&notes(Verdict::Ignored), false), updated(false, true));
    reactor.ensure_active_drag(window(1, 1), &frame(0.0, 0.0, 1.0, 1.0), &nothing());
    assert!(reactor.update_after_event(&notes(Verdict::Resized), true).is_empty());
    assert!(reactor.update_after_event(&notes(Verdict::Destroyed), false).is_empty());
    assert_eq!(reactor.update_after_event(&notes(Verdict::Destroyed), true), updated(false, true));
}

#[test]
fn the_end_of_an_event_ends_switches() {
    let mut reactor = two_screens();
    let notes = EventNotes { raised_window: None, verdict: Verdict::Ignored, updates_notifications: false };
    switching(&mut reactor);
    reactor.finish_event(&notes, LayoutOutcome::Updated(true), &nothing());
    assert_eq!(reactor.workspace_switch_manager.workspace_switch_state, WorkspaceSwitchState::Inactive);
    assert!(reactor.workspace_switch_manager.active_workspace_switch.is_some());
    for outcome in [LayoutOutcome::Updated(false), LayoutOutcome::Failed, LayoutOutcome::Skipped] {
        switching(&mut reactor);
        reactor.finish_event(&notes, outcome, &nothing());
        assert_eq!(reactor.workspace_switch_manager.active_workspace_switch, None);
    }
}

#[test]
fn the_cursor_follows_after_a_switch() {
    let mut reactor = two_screens();
    reactor.config_manager.config.settings.mouse_follows_focus = true;
    reactor.communication_manager.has_event_tap = true;
    let wid = window(1, 1);
    track(&mut reactor, wid, frame(100.0, 100.0, 100.0, 100.0), 5);
    let env = surroundings(&reactor);
    let notes = EventNotes { raised_window: None, verdict: Verdict::Ignored, updates_notifications: false };
    switching(&mut reactor);
    match reactor.handle_layout_response(&answer(vec![], Some(wid)), None, &env, false) {
        ResponseAction::Raise(request) => assert_eq!(request.focus_window, Some((wid, None))),
        other => panic!("{:?}", other),
    }
    let end = reactor.finish_event(&notes, LayoutOutcome::Updated(true), &env);
    assert_eq!(end.warp, Some(Task::SendToEventTap(EventTapRequest::Warp(point(150.0, 150.0)))));
    let end = reactor.finish_event(&notes, LayoutOutcome::Updated(true), &env);
    assert_eq!(end.warp, None);
    reactor.workspace_switch_manager.pending_workspace_mouse_warp = Some(window(9, 9));
    assert_eq!(reactor.finish_event(&notes, LayoutOutcome::Skipped, &env).warp, None);
    reactor.workspace_switch_manager.pending_workspace_mouse_warp = Some(wid);
    assert_eq!(reactor.finish_event(&notes, LayoutOutcome::Skipped, &nothing()).warp, None);
}

#[test]
fn notifications_are_sorted_and_not_repeated() {
    let mut reactor = two_screens();
    let notes = EventNotes { raised_window: None, verdict: Verdict::Ignored, updates_notifications: true };
    for id in [9, 2, 30, 4] {
        reactor.window_manager.window_ids.insert(WindowServerId(id), window(1, id));
    }
    assert_eq!(reactor.notification_ids(), vec![2, 4, 9, 30]);
    let silent = EventNotes { updates_notifications: false, ..notes };
    assert_eq!(reactor.finish_event(&silent, LayoutOutcome::Skipped, &nothing()).notify, None);
    assert_eq!(reactor.finish_event(&notes, LayoutOutcome::Skipped, &nothing()).notify, Some(vec![2, 4, 9, 30]));
    assert_eq!(reactor.finish_event(&notes, LayoutOutcome::Skipped, &nothing()).notify, None);
    reactor.window_manager.window_ids.remove(WindowServerId(2));
    assert_eq!(reactor.finish_event(&notes, LayoutOutcome::Skipped, &nothing()).notify, Some(vec![4, 9, 30]));
}

#[test]
fn launches_are_handed_on_whole() {
    let mut reactor = two_screens();
    let reports = vec![info(5, 1, 0, frame(0.0, 0.0, 1.0, 1.0))];
    let event = Event::ApplicationLaunched {
        pid: 8,
        info: app(),
        is_frontmost: true,
        main_window: Some(window(8, 1)),
        visible_windows: vec![],
        window_server_info: reports.clone(),
    };
    match begin(&mut reactor, event).0 {
        Handler::ApplicationLaunched { pid, info, is_frontmost, main_window, window_server_info, .. } => {
            assert_eq!((pid, info, is_frontmost, main_window), (8, app(), true, Some(window(8, 1))));
            assert_eq!(window_server_info, reports);
        }
        other => panic!("{:?}", other),
    }
}

#[test]
fn an_event_runs_its_course() {
    let mut reactor = two_screens();
    reactor.communication_manager.has_event_tap = true;
    let wid = window(1, 1);
    track(&mut reactor, wid, frame(100.0, 100.0, 100.0, 100.0), 5);
    let env = surroundings(&reactor);
    let notes = EventNotes { raised_window: Some(wid), verdict: Verdict::Resized, updates_notifications: true };
    switching(&mut reactor);
    reactor.workspace_switch_manager.pending_workspace_mouse_warp = Some(wid);
    let (tasks, stage) = reactor.proceed(&notes, Stage::Handled(true), &env);
    assert_eq!(tasks, vec![Task::SendLayoutEvent(LayoutEvent::WindowFocused(SpaceId(1), wid))]);
    assert_eq!(stage.after_layout(LayoutOutcome::Failed), Stage::FocusSent(true));
    let (tasks, stage) = reactor.proceed(&notes, stage, &env);
    assert_eq!(
        tasks,
        vec![
            Task::UpdateLayout(LayoutUpdate { is_resize: true, is_workspace_switch: true }),
            Task::SendMenuUpdate
        ]
    );
    assert_eq!(stage, Stage::LayoutDone(LayoutOutcome::Skipped));
    let stage = stage.after_layout(LayoutOutcome::Updated(true));
    let (tasks, stage) = reactor.proceed(&notes, stage, &env);
    assert_eq!(
        tasks,
        vec![
            Task::SendToEventTap(EventTapRequest::Warp(point(150.0, 150.0))),
            Task::WatchWindows(vec![5])
        ]
    );
    assert_eq!(stage, Stage::Over);
    assert!(reactor.workspace_switch_manager.active_workspace_switch.is_some());
    assert_eq!(reactor.proceed(&notes, stage, &env), (vec![], Stage::Over));
}

#[test]
fn listing_spaces_keeps_the_screens() {
    let mut reactor = two_screens();
    reactor.set_screen_spaces(&vec![Some(SpaceId(9))]);
    let expected = vec![screen(10, Some(9), 0.0), screen(20, Some(2), 1000.0)];
    assert_eq!(reactor.space_manager.screens, expected);
}

#[test]
fn windows_that_are_not_reported_stay() {
    let mut reactor = two_screens();
    track(&mut reactor, window(1, 1), frame(0.0, 0.0, 1.0, 1.0), 5);
    let before = state(frame(0.0, 0.0, 1.0, 1.0), Some(5));
    reactor.update_partial_window_server_info(&vec![info(6, 1, 0, frame(4.0, 4.0, 4.0, 4.0))], &vec![false]);
    assert_eq!(reactor.window_manager.windows.get(window(1, 1)), Some(&before));
}

#[test]
fn other_windows_do_not_end_a_drag() {
    let mut reactor = two_screens();
    let wid = window(1, 1);
    let start = frame(100.0, 100.0, 200.0, 200.0);
    track(&mut reactor, wid, start, 5);
    let env = surroundings(&reactor);
    reactor.ensure_active_drag(wid, &start, &env);
    reactor.settle_swap(window(2, 2), Some(window(3, 3)));
    assert_eq!(reactor.get_pending_drag_swap(), Some((wid, window(3, 3))));
    reactor.settle_swap(window(2, 2), None);
    assert_eq!(reactor.get_pending_drag_swap(), Some((wid, window(3, 3))));
    assert!(reactor.is_in_drag());
}
