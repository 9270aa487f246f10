use halley_session::geometry::{Point, Rectangle, Size};
use halley_session::ids::{ClusterId, NodeId};
use halley_session::session::interaction::Grab;
use halley_session::session::settings::Section;
use halley_session::session::state::{
    cancel_exit_confirmation, clear_config_reload_error, show_config_reload_error,
    NotificationDurations,
};
use halley_session::shell::apogee::{
    self, activate_target, overview_cursor, toggle, ActivateStep, ApogeeState, OverviewCursor, TargetFacts,
    Tile, TileKind, Toggle,
};
use halley_session::shell::bearings::BearingsState;
use halley_session::shell::cluster_composer::{
    self, finish_commit, reveal_duration, tick_session, ClusterComposerState, CommitProgress,
    ComposerFacts, ComposerStep, Phase, PreparedCreation,
};
use halley_session::shell::overlay::OverlayManager;
use halley_session::shell::settle::{
    at_rest, hold_in_unit, is_settling, same_number, Endpoint, ONE_BITS,
};
use halley_session::time::Duration;

fn at(milliseconds: u64) -> Duration {
    Duration::from_millis(milliseconds)
}

fn target(x: i32) -> Rectangle {
    Rectangle::new(Point::new(x, 0), Size::new(10, 10))
}

fn tile(raw: u64, x: i32) -> Tile {
    Tile {
        id: NodeId::new(raw),
        kind: TileKind::Window,
        output: "left".to_string(),
        target: target(x),
        source_stack_index: 0,
        source_stack_order: 0,
    }
}

fn member(raw: u64, x: i32) -> cluster_composer::Tile {
    cluster_composer::Tile {
        id: NodeId::new(raw),
        target: target(x),
        source_stack_index: 0,
        source_stack_order: 0,
    }
}

#[test]
fn a_gesture_holds_the_overview_where_it_is() {
    let mut apogee = ApogeeState::default();
    assert!(!apogee.begin_interactive(false, vec![tile(1, 0)]));
    assert!(!apogee.begin_interactive(true, vec![]));
    assert!(apogee.begin_interactive(true, vec![tile(1, 0), tile(2, 50)]));
    assert!(apogee.set_interactive_progress(0.4_f32.to_bits()));
    assert!(!apogee.set_interactive_progress(0.4_f32.to_bits()));
    assert!(apogee.set_interactive_progress(1.7_f32.to_bits()));
    assert_eq!(
        apogee.session.as_ref().unwrap().manual_progress,
        Some(ONE_BITS)
    );
    apogee.set_interactive_progress(0.5_f32.to_bits());
    assert!(apogee.finish_interactive(false, at(100), at(1000)));
    let session = apogee.session.as_ref().unwrap();
    assert!(session.is_closing());
    let settle = session.settle.unwrap();
    assert_eq!(f32::from_bits(settle.from_bits), 0.5);
    assert_eq!(settle.to, Endpoint::Closed);
    assert_eq!(settle.duration, at(100));
    assert!(!ApogeeState::default().finish_interactive(true, at(1), at(1)));
}

#[test]
fn the_tile_under_the_pointer_is_selected() {
    let mut apogee = ApogeeState::default();
    apogee.begin_interactive(true, vec![tile(1, 0), tile(2, 50)]);
    assert!(apogee.hover(Point::new(55, 5)));
    assert_eq!(apogee.hovered(), Some(NodeId::new(2)));
    assert!(apogee.hover(Point::new(30, 5)));
    assert_eq!(apogee.hovered(), None);
    assert_eq!(apogee.selected(), Some(NodeId::new(2)));
    assert_eq!(
        overview_cursor(Some(NodeId::new(2))),
        OverviewCursor::Pointer
    );
    assert_eq!(overview_cursor(None), OverviewCursor::Default);
    assert_eq!(toggle(&apogee, true, true, &Grab::Idle), Toggle::Close);
    let closed = ApogeeState::default();
    assert_eq!(toggle(&closed, false, false, &Grab::Idle), Toggle::Open);
    assert_eq!(toggle(&closed, true, false, &Grab::Idle), Toggle::Refuse);
}

#[test]
fn a_chosen_core_opens_its_cluster_once() {
    let cluster = ClusterId::new(3);
    assert_eq!(
        activate_target(TargetFacts::Core {
            cluster,
            active: None,
            output_mapped: true,
        }),
        vec![
            ActivateStep::ToggleCluster(cluster),
            ActivateStep::FocusCluster(cluster),
            ActivateStep::CenterPointer,
        ]
    );
    assert_eq!(
        activate_target(TargetFacts::Core {
            cluster,
            active: Some(cluster),
            output_mapped: false,
        }),
        vec![ActivateStep::CenterPointer]
    );
    assert_eq!(
        activate_target(TargetFacts::Node {
            active: Some(cluster)
        }),
        vec![
            ActivateStep::ToggleCluster(cluster),
            ActivateStep::FocusNode,
        ]
    );
    assert!(activate_target(TargetFacts::Gone).is_empty());
}

fn composing() -> ClusterComposerState {
    let mut composer = ClusterComposerState::default();
    assert!(composer.open(
        "left",
        vec![member(1, 0), member(2, 50)],
        Some(NodeId::new(2)),
        0,
        at(0)
    ));
    composer
}

fn facts(prepared: bool, closing: Duration) -> ComposerFacts {
    ComposerFacts {
        prepared,
        progress_bits: ONE_BITS,
        closing,
    }
}

fn begin(composer: &mut ClusterComposerState) {
    assert!(composer.begin_commit(
        PreparedCreation {
            output: "left".to_string(),
            members: vec![NodeId::new(1)],
            name: "work".to_string(),
            core_x_bits: 0,
            core_y_bits: 0,
            focus_core: true,
        },
        ONE_BITS,
        0,
        at(10)
    ));
}

#[test]
fn tiles_of_windows_that_are_gone_lose_the_focus() {
    let mut composer = composing();
    composer.hover(Point::new(55, 5));
    assert_eq!(
        composer.session.as_ref().unwrap().hovered,
        Some(NodeId::new(2))
    );
    assert!(composer.prune(&vec![true, false]));
    let session = composer.session.as_ref().unwrap();
    assert_eq!(session.tiles.len(), 1);
    assert_eq!(session.focused, Some(NodeId::new(1)));
    assert_eq!(session.hovered, None);
    assert!(!composer.prune(&vec![true]));
}

#[test]
fn an_overview_without_tiles_closes() {
    let mut composer = composing();
    let tick = tick_session(
        &mut composer,
        &vec![false, false],
        facts(false, at(50)),
        at(20),
    );
    assert!(tick.animating);
    assert_eq!(tick.steps, vec![ComposerStep::Redraw]);
    assert_eq!(composer.session.as_ref().unwrap().phase(), Phase::Canceling);
    let tick = tick_session(&mut composer, &vec![], facts(false, at(50)), at(80));
    assert_eq!(
        tick.steps,
        vec![
            ComposerStep::CancelCreation,
            ComposerStep::ReleasePointer,
            ComposerStep::Redraw,
        ]
    );
    assert!(!composer.is_active());
    let idle = tick_session(&mut composer, &vec![], facts(false, at(50)), at(90));
    assert!(idle.steps.is_empty() && idle.message.is_none() && !idle.animating);
}

#[test]
fn a_commit_without_its_cluster_is_taken_back() {
    let mut composer = composing();
    begin(&mut composer);
    assert_eq!(
        composer.session.as_ref().unwrap().commit_progress(),
        CommitProgress::Under {
            started_at: at(10),
            duration: at(0),
        }
    );
    let tick = tick_session(
        &mut composer,
        &vec![true, true],
        facts(false, at(50)),
        at(20),
    );
    assert_eq!(
        tick.steps,
        vec![ComposerStep::ReportChanged, ComposerStep::Redraw]
    );
    let message = tick.message.unwrap();
    assert_eq!(message.output, "left");
    assert_eq!(
        message.text,
        "Cluster changed\\nReview the remaining selection"
    );
    assert_eq!(message.duration_ms, 3_000);
    let mut overlays = OverlayManager::default();
    overlays.show_message(&message, 0, at(20));
    let shown = overlays.notification.as_ref().unwrap();
    assert_eq!(shown.output, "left");
    assert_eq!(shown.expires_at, at(3_020));
    let session = composer.session.as_ref().unwrap();
    assert_eq!(session.phase(), Phase::Interactive);
    assert!(session.commit.is_none());
    assert!(!composer.abort_commit());
}

#[test]
fn a_made_cluster_is_revealed() {
    let mut composer = composing();
    begin(&mut composer);
    let kept = vec![true, true];
    tick_session(&mut composer, &kept, facts(true, at(50)), at(20));
    composer.session.as_mut().unwrap().mark_endpoint_rendered();
    let tick = tick_session(&mut composer, &kept, facts(true, at(50)), at(30));
    assert_eq!(
        tick.steps,
        vec![ComposerStep::MakeCluster, ComposerStep::Redraw]
    );
    assert_eq!(composer.replacement_output(), Some("left".to_string()));
    assert!(!finish_commit(&mut composer, true, 300, at(40)));
    assert!(composer.reveal_on("left"));
    assert!(!composer.reveal_on("right"));
    assert!(!composer.session.as_ref().unwrap().replaces_scene());
    assert_eq!(composer.replacement_output(), None);
    let finished = tick_session(&mut composer, &kept, facts(true, at(50)), at(140));
    assert_eq!(
        finished.steps,
        vec![ComposerStep::ReleasePointer, ComposerStep::Redraw]
    );
    assert_eq!(reveal_duration(300), at(100));
    assert_eq!(reveal_duration(2), at(1));
    assert_eq!(reveal_duration(9_000), at(120));
}

#[test]
fn bearings_are_toggled_and_held() {
    let mut bearings = BearingsState::new(Section { raw: 1 });
    assert!(bearings.toggle());
    let tick = bearings.begin_tick("left", at(100));
    assert_eq!(tick.to, Endpoint::Open);
    assert_eq!(tick.elapsed, at(0));
    bearings.finish_tick("left", 0.5_f32.to_bits(), at(100));
    let tick = bearings.begin_tick("left", at(500));
    assert_eq!(f32::from_bits(tick.from_bits), 0.5);
    assert_eq!(tick.elapsed, at(100));
    assert!(!bearings.toggle());
    assert!(bearings.show_while_held(7));
    assert!(bearings.is_show_key_held(7));
    assert!(!bearings.is_show_key_held(8));
}

#[test]
fn numbers_are_held_between_their_ends() {
    assert_eq!(hold_in_unit(0.25_f32.to_bits()), 0.25_f32.to_bits());
    assert_eq!(f32::from_bits(hold_in_unit((-3.0_f32).to_bits())), 0.0);
    assert_eq!(hold_in_unit(5.0_f32.to_bits()), ONE_BITS);
    assert!(same_number(0.0_f32.to_bits(), (-0.0_f32).to_bits()));
    assert!(!same_number(f32::NAN.to_bits(), f32::NAN.to_bits()));
    assert!(at_rest(0.0_f32.to_bits()));
    assert!(!at_rest(0.5_f32.to_bits()));
    assert!(is_settling(at(10), at(20), at(29)));
    assert!(!is_settling(at(10), at(20), at(30)));
}

#[test]
fn messages_go_when_their_time_is_over() {
    let mut overlays = OverlayManager::default();
    overlays.show_error("left", "no", 500, 0, at(0));
    let shown = overlays.notification.as_ref().unwrap();
    assert_eq!(shown.message, "no");
    assert!(!shown.finished(at(400)));
    assert!(shown.finished(at(5_000)));
    assert!(overlays.show_exit(at(0)));
    assert!(!overlays.exit.as_ref().unwrap().finished(at(9_000)));
}

#[test]
fn a_press_closes_the_overview_for_the_tile_under_it() {
    let mut apogee = ApogeeState::default();
    assert!(!apogee::cancel(&mut apogee, 0, at(200), at(0)));
    assert_eq!(
        apogee::pointer_motion(&mut apogee, Point::new(5, 5)),
        (false, OverviewCursor::Default)
    );
    apogee.begin_interactive(true, vec![tile(1, 0), tile(2, 50)]);
    assert_eq!(
        apogee::pointer_motion(&mut apogee, Point::new(55, 5)),
        (true, OverviewCursor::Pointer)
    );
    assert_eq!(
        apogee::pointer_motion(&mut apogee, Point::new(30, 5)),
        (true, OverviewCursor::Default)
    );
    let open = apogee.session.as_ref().unwrap();
    assert_eq!(open.tile(NodeId::new(2)).unwrap().target, target(50));
    assert!(open.tile(NodeId::new(3)).is_none());
    assert!(apogee::pointer_press(
        &mut apogee,
        Point::new(5, 5),
        ONE_BITS,
        at(200),
        at(40)
    ));
    let closing = apogee.session.as_ref().unwrap();
    assert_eq!(closing.pending_activation, Some(NodeId::new(1)));
    assert_eq!(closing.settle.as_ref().unwrap().to, Endpoint::Closed);
    assert!(!apogee::select(&mut apogee, ONE_BITS, at(200), at(50)));
    assert!(!apogee::cancel(&mut apogee, ONE_BITS, at(200), at(60)));
    assert_eq!(
        apogee.session.as_ref().unwrap().pending_activation,
        Some(NodeId::new(1))
    );
}

#[test]
fn an_overview_closes_for_its_selection_or_for_nothing() {
    let mut selecting = ApogeeState::default();
    selecting.begin_interactive(true, vec![tile(1, 0), tile(2, 50)]);
    selecting.hover(Point::new(55, 5));
    assert!(apogee::select(&mut selecting, ONE_BITS, at(200), at(50)));
    assert_eq!(
        selecting.session.as_ref().unwrap().pending_activation,
        Some(NodeId::new(2))
    );
    let mut leaving = ApogeeState::default();
    leaving.begin_interactive(true, vec![tile(1, 0), tile(2, 50)]);
    leaving.hover(Point::new(55, 5));
    assert!(apogee::cancel(&mut leaving, ONE_BITS, at(200), at(50)));
    assert_eq!(leaving.session.as_ref().unwrap().pending_activation, None);
}

#[test]
fn previews_of_windows_that_are_shown_draw_again() {
    let mut apogee = ApogeeState::default();
    let shown = vec![true, false, true, true];
    assert!(apogee::send_preview_frames(&apogee, "left", &shown).is_empty());
    let mut elsewhere = tile(3, 100);
    elsewhere.output = "right".to_string();
    apogee.begin_interactive(true, vec![tile(1, 0), tile(2, 50), elsewhere, tile(4, 150)]);
    assert_eq!(
        apogee::send_preview_frames(&apogee, "left", &shown),
        vec![NodeId::new(1), NodeId::new(4)]
    );
    assert_eq!(
        apogee::send_preview_frames(&apogee, "right", &shown),
        vec![NodeId::new(3)]
    );
    let composer = composing();
    assert_eq!(composer.target_output().as_deref(), Some("left"));
    assert_eq!(ClusterComposerState::default().target_output(), None);
    assert_eq!(
        cluster_composer::send_preview_frames(&composer, "left", &vec![false, true]),
        vec![NodeId::new(2)]
    );
    assert!(
        cluster_composer::send_preview_frames(&composer, "right", &vec![true, true]).is_empty()
    );
    let open = composer.session.as_ref().unwrap();
    assert_eq!(open.tile(NodeId::new(1)).unwrap().target, target(0));
    assert!(open.tile(NodeId::new(9)).is_none());
}

#[test]
fn a_failed_reload_is_told_and_taken_back() {
    let durations = NotificationDurations {
        success_ms: 4_000,
        error_ms: 9_000,
    };
    let mut overlays = OverlayManager::default();
    assert!(!clear_config_reload_error(&mut overlays, 0, at(0)));
    assert!(show_config_reload_error(
        &mut overlays,
        None,
        "left",
        durations,
        0,
        at(0)
    ));
    let told = overlays.notification.as_ref().unwrap();
    assert_eq!(told.output, "left");
    assert!(told.message.starts_with("Current configuration was unable"));
    show_config_reload_error(&mut overlays, Some("right"), "left", durations, 0, at(0));
    assert_eq!(overlays.notification.as_ref().unwrap().output, "right");
    assert!(clear_config_reload_error(&mut overlays, ONE_BITS, at(10)));
    assert!(!clear_config_reload_error(&mut overlays, ONE_BITS, at(11)));
    assert!(!cancel_exit_confirmation(&mut overlays, ONE_BITS, at(0)));
    assert!(overlays.show_exit(at(0)));
    assert!(cancel_exit_confirmation(&mut overlays, ONE_BITS, at(10)));
    assert_eq!(
        overlays.exit.as_ref().unwrap().closing,
        Some((at(10), ONE_BITS))
    );
}
