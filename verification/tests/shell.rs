use halley_session::geometry::{Point, Rectangle, Size};
use halley_session::ids::{ClusterId, NodeId};
use halley_session::session::interaction::Grab;
use halley_session::session::settings::Section;
use halley_session::session::state::{
    apply_common_config, begin_common_config, cleanup_fullscreen, confirm_exit,
    finish_x11_fullscreen_presentation, initialize_config_notification, notification_output_name,
    show_exit_confirmation, sync_fullscreen_camera, CameraSource, ExitStep, GestureSettings,
    LookSettings, NotificationDurations, ReloadOutcome, ShownWindow,
};
use halley_session::ids::SurfaceId;
use halley_session::shell::apogee;
use halley_session::shell::apogee::{
    cluster_needs_activation, participates_in_window_mosaic, ApogeeState, TileKind,
};
use halley_session::shell::bearings::{BearingHitbox, BearingTarget, BearingsState};
use halley_session::shell::cluster_composer;
use halley_session::shell::cluster_composer::{
    is_candidate, ClusterComposerState, Phase, PreparedCreation, Tick,
};
use halley_session::shell::overlay::{
    seen, Fade, NotificationKind, OverlayManager, ZoomIndicatorConfig,
};
use halley_session::shell::settle::{Endpoint, Settle};
use halley_session::shell::state::ShellState;
use halley_session::time::Duration;

fn milliseconds(length: u64) -> Duration {
    Duration::from_millis(length)
}

fn seconds(duration: Duration) -> f32 {
    duration.nanos as f32 / 1_000_000_000.0
}

fn ease(elapsed: Duration, over: Duration) -> f32 {
    let t = (seconds(elapsed) / seconds(over)).clamp(0.0, 1.0);
    if t < 0.5 {
        4.0 * t * t * t
    } else {
        1.0 - (-2.0 * t + 2.0_f32).powi(3) / 2.0
    }
}

fn mix(fade: Fade) -> f32 {
    match fade {
        Fade::Rising {
            from_bits,
            elapsed,
            over,
        } => {
            let from = f32::from_bits(from_bits);
            from + (1.0 - from) * ease(elapsed, over)
        }
        Fade::Falling {
            from_bits,
            elapsed,
            over,
        } => f32::from_bits(from_bits) * (1.0 - ease(elapsed, over)),
    }
}

fn notification_mix(overlays: &OverlayManager, output: &str, now: Duration) -> f32 {
    overlays
        .snapshot(output, 0, now)
        .notification
        .map_or(0.0, |notification| mix(notification.fade))
}

fn zoom_mix(overlays: &OverlayManager, output: &str, now: Duration) -> Option<f32> {
    overlays
        .snapshot(output, 0, now)
        .zoom_indicator
        .map(|indicator| mix(indicator.fade))
}

fn show_zoom(
    overlays: &mut OverlayManager,
    output: &str,
    scale: f32,
    config: ZoomIndicatorConfig,
    now: Duration,
) -> bool {
    let mix_bits = zoom_mix(overlays, output, now).unwrap_or(0.0).to_bits();
    overlays.show_zoom_indicator(output, scale.to_bits(), config, mix_bits, now)
}

fn zoom_config() -> ZoomIndicatorConfig {
    ZoomIndicatorConfig {
        enabled: true,
        hold_duration_ms: 750,
        fade_duration_ms: 180,
    }
}

#[test]
fn repeated_error_replaces_message_lifetime_without_flashing_out() {
    let mut overlays = OverlayManager::default();
    overlays.show_config_error("DP-1", 9_000, 0.0_f32.to_bits(), Duration::zero());
    let halfway = milliseconds(100);
    let before = notification_mix(&overlays, "DP-1", halfway);

    overlays.show_config_error("DP-1", 9_000, before.to_bits(), halfway);
    let after = notification_mix(&overlays, "DP-1", halfway);

    assert_eq!(before, after);
    assert!(after > 0.0);
}

#[test]
fn valid_reload_only_dismisses_an_error() {
    let mut overlays = OverlayManager::default();
    overlays.show_config_success("DP-1", "/tmp/halley.rune", 4_000, 0, Duration::zero());
    let mix_bits = notification_mix(&overlays, "DP-1", milliseconds(10)).to_bits();
    assert!(!overlays.clear_config_error(mix_bits, milliseconds(10)));

    let mix_bits = notification_mix(&overlays, "DP-1", milliseconds(20)).to_bits();
    overlays.show_config_error("DP-1", 9_000, mix_bits, milliseconds(20));
    let mix_bits = notification_mix(&overlays, "DP-1", milliseconds(30)).to_bits();
    assert!(overlays.clear_config_error(mix_bits, milliseconds(30)));
}

#[test]
fn screenshot_success_names_the_destination_directory() {
    let mut overlays = OverlayManager::default();
    overlays.show_screenshot_saved(
        "DP-1",
        "/home/test/Pictures/Screenshots",
        4_000,
        0,
        Duration::zero(),
    );

    let notification = overlays
        .snapshot("DP-1", 0, milliseconds(180))
        .notification
        .unwrap();
    assert_eq!(
        notification.message,
        "Screenshot saved to /home/test/Pictures/Screenshots"
    );
    assert_eq!(notification.kind, NotificationKind::Success);
}

#[test]
fn exit_confirmation_is_idempotent_and_modal_only_while_open() {
    let mut overlays = OverlayManager::default();
    assert!(overlays.show_exit(Duration::zero()));
    assert!(!overlays.show_exit(milliseconds(1)));
    assert!(overlays.exit_modal_active());
    assert!(overlays.cancel_exit(0.5_f32.to_bits(), milliseconds(20)));
    assert!(!overlays.exit_modal_active());
}

#[test]
fn the_question_is_drawn_once_some_of_it_is_seen() {
    let mut overlays = OverlayManager::default();
    let drawn = |overlays: &OverlayManager, share: f32| {
        overlays
            .snapshot("DP-1", share.to_bits(), milliseconds(10))
            .exit
            .is_some()
    };
    assert!(!drawn(&overlays, 1.0));
    assert!(overlays.show_exit(Duration::zero()));
    assert!(!drawn(&overlays, 0.0));
    assert!(!drawn(&overlays, 0.001));
    assert!(drawn(&overlays, 0.0011));
    assert!(drawn(&overlays, 1.0));
    assert!(!drawn(&overlays, -1.0));
    assert!(!drawn(&overlays, f32::NAN));
    for share in [0.0_f32, 0.000_999, 0.001, 0.001_000_1, 0.5, 1.0, f32::INFINITY] {
        assert_eq!(seen(share.to_bits()), share > 0.001);
    }
}

#[test]
fn zoom_indicator_holds_after_activity_then_fades() {
    let mut overlays = OverlayManager::default();
    show_zoom(&mut overlays, "DP-1", 0.75, zoom_config(), Duration::zero());

    let initial = overlays
        .snapshot("DP-1", 0, Duration::zero())
        .zoom_indicator
        .unwrap();
    assert_eq!(f32::from_bits(initial.scale_bits), 0.75);
    assert_eq!(mix(initial.fade), 1.0);
    assert_eq!(zoom_mix(&overlays, "DP-1", milliseconds(749)), Some(1.0));
    assert!(zoom_mix(&overlays, "DP-1", milliseconds(840)).unwrap() < 1.0);
    assert!(zoom_mix(&overlays, "DP-1", milliseconds(930)).is_none());

    let mut overlays = OverlayManager::default();
    show_zoom(&mut overlays, "DP-1", 0.75, zoom_config(), Duration::zero());
    assert!(!overlays.animating(milliseconds(749)));
    assert!(overlays.wakeup(milliseconds(750)));
    assert!(overlays.animating(milliseconds(750)));
    assert!(overlays.wakeup(milliseconds(930)));
}

#[test]
fn repeated_zoom_activity_extends_the_hold_and_updates_the_live_scale() {
    let mut overlays = OverlayManager::default();
    show_zoom(&mut overlays, "DP-1", 0.90, zoom_config(), Duration::zero());
    show_zoom(&mut overlays, "DP-1", 0.70, zoom_config(), milliseconds(700));

    let snapshot = overlays
        .snapshot("DP-1", 0, milliseconds(1_000))
        .zoom_indicator
        .unwrap();
    assert_eq!(f32::from_bits(snapshot.scale_bits), 0.70);
    assert_eq!(mix(snapshot.fade), 1.0);
}

#[test]
fn activity_during_fade_reverses_without_flashing_or_affecting_other_outputs() {
    let mut overlays = OverlayManager::default();
    show_zoom(&mut overlays, "DP-1", 0.80, zoom_config(), Duration::zero());
    show_zoom(&mut overlays, "DP-2", 0.60, zoom_config(), Duration::zero());
    let reactivated_at = milliseconds(840);
    let before = zoom_mix(&overlays, "DP-1", reactivated_at).unwrap();

    show_zoom(&mut overlays, "DP-1", 0.75, zoom_config(), reactivated_at);
    let after = overlays
        .snapshot("DP-1", 0, reactivated_at)
        .zoom_indicator
        .unwrap();

    assert_eq!(mix(after.fade), before);
    assert_eq!(f32::from_bits(after.scale_bits), 0.75);
    assert_eq!(
        f32::from_bits(
            overlays
                .snapshot("DP-2", 0, reactivated_at)
                .zoom_indicator
                .unwrap()
                .scale_bits
        ),
        0.60
    );
    assert!(zoom_mix(&overlays, "DP-1", milliseconds(900)).unwrap() > before);
}

#[test]
fn disabling_or_removing_an_output_clears_zoom_indicator_state() {
    let mut overlays = OverlayManager::default();
    let mut config = zoom_config();
    show_zoom(&mut overlays, "DP-1", 0.75, config, Duration::zero());
    overlays.remove_output("DP-1");
    assert!(zoom_mix(&overlays, "DP-1", Duration::zero()).is_none());

    show_zoom(&mut overlays, "DP-1", 0.75, config, Duration::zero());
    config.enabled = false;
    assert!(overlays.reload_zoom_indicator(config));
    assert!(zoom_mix(&overlays, "DP-1", Duration::zero()).is_none());

    assert!(!show_zoom(
        &mut overlays,
        "DP-1",
        0.75,
        config,
        Duration::zero()
    ));
    assert!(zoom_mix(&overlays, "DP-1", Duration::zero()).is_none());
}

#[test]
fn messages_are_shown_on_the_selected_output_first() {
    assert_eq!(notification_output_name(Some("DP-2"), "DP-1"), "DP-2");
    assert_eq!(notification_output_name(None, "DP-1"), "DP-1");
}

#[test]
fn the_start_says_how_the_configuration_was_loaded() {
    let durations = NotificationDurations {
        success_ms: 4_000,
        error_ms: 9_000,
    };
    let message = |faulty: bool, path: Option<&str>| {
        let mut overlays = OverlayManager::default();
        let mut fault = faulty.then_some("line 3".to_string());
        assert!(initialize_config_notification(
            &mut overlays,
            &mut fault,
            path,
            durations,
            "DP-1",
            0,
            Duration::zero(),
        ));
        assert_eq!(fault, None);
        overlays
            .notification
            .map(|notification| (notification.kind, notification.message))
    };
    assert_eq!(message(false, None), None);
    assert_eq!(
        message(false, Some("/etc/halley.rune")),
        Some((
            NotificationKind::Success,
            "Configuration successfully loaded from /etc/halley.rune".to_string()
        ))
    );
    assert_eq!(
        message(true, Some("/etc/halley.rune")).unwrap().0,
        NotificationKind::Error
    );
}

#[test]
fn leaving_is_asked_once_and_then_confirmed() {
    let mut overlays = OverlayManager::default();
    assert!(!confirm_exit(&overlays));
    let mut grab = Grab::Pan {
        output: "DP-1".to_string(),
    };
    let steps = show_exit_confirmation(&mut overlays, &mut grab, Duration::zero());
    assert_eq!(
        steps,
        [
            ExitStep::ResetCursor,
            ExitStep::CancelGestures,
            ExitStep::CancelTouches,
            ExitStep::Redraw
        ]
    );
    assert!(matches!(grab, Grab::Idle));
    assert!(confirm_exit(&overlays));
    assert!(show_exit_confirmation(&mut overlays, &mut grab, milliseconds(5)).is_empty());
}

#[test]
fn a_configuration_redraws_only_what_it_changes() {
    let section = Section { raw: 0 };
    let look = LookSettings {
        decorations: section,
        effects: section,
        zoom: section,
        overlays: section,
    };
    let quiet = ReloadOutcome {
        cursor_changed: false,
        cursor_visibility_changed: false,
        nodes: false,
        bearings: false,
        font: false,
        fullscreen: false,
        maximize: false,
    };
    assert!(!apply_common_config(look, look, quiet, true).redraw);
    let mut zoomed = look;
    zoomed.zoom = Section { raw: 1 };
    assert!(apply_common_config(look, zoomed, quiet, true).redraw);
    let mut cursor = quiet;
    cursor.cursor_changed = true;
    assert!(apply_common_config(look, look, cursor, true).publish_cursor);
    assert!(!apply_common_config(look, look, cursor, false).publish_cursor);

    let on = GestureSettings {
        touch_passthrough: true,
        all: section,
    };
    let off = GestureSettings {
        touch_passthrough: false,
        all: section,
    };
    assert!(begin_common_config(on, off).cancel_touch);
    assert!(begin_common_config(off, on).cancel_gestures);
    assert!(!begin_common_config(off, on).cancel_touch);
    assert!(!begin_common_config(on, on).cancel_gestures);
}

#[test]
fn fullscreen_owns_the_camera_before_what_is_maximized() {
    assert_eq!(sync_fullscreen_camera(true, true), CameraSource::Fullscreen);
    assert_eq!(
        sync_fullscreen_camera(true, false),
        CameraSource::FieldMaximize
    );
    let cleanup = cleanup_fullscreen(
        vec![SurfaceId::new(1)],
        &vec![SurfaceId::new(2), SurfaceId::new(3)],
        false,
        true,
    );
    assert_eq!(
        cleanup.dropped,
        [SurfaceId::new(1), SurfaceId::new(2), SurfaceId::new(3)]
    );
    assert!(cleanup.visual_finished);
    let windows = vec![
        ShownWindow {
            surface: Some(SurfaceId::new(4)),
            is_x11: false,
        },
        ShownWindow {
            surface: Some(SurfaceId::new(4)),
            is_x11: true,
        },
    ];
    assert_eq!(
        finish_x11_fullscreen_presentation(&windows, SurfaceId::new(4)),
        Some(1)
    );
    assert_eq!(
        finish_x11_fullscreen_presentation(&windows, SurfaceId::new(5)),
        None
    );
}

#[test]
fn held_show_key_hides_even_after_modifier_release() {
    let mut bearings = BearingsState::new(Section { raw: 0 });
    assert!(bearings.show_while_held(44));
    assert!(bearings.visible());
    assert!(bearings.release_show_key(44));
    assert!(!bearings.visible());
}

#[test]
fn bearings_are_hit_where_they_were_drawn() {
    let mut bearings = BearingsState::new(Section { raw: 0 });
    bearings.set_hitboxes(
        "DP-1",
        vec![BearingHitbox {
            target: BearingTarget::Node(NodeId::new(3)),
            rect: rectangle(10, 10, 20, 20),
        }],
    );
    assert_eq!(bearings.hit_test("DP-1", Point::new(15, 15)), None);
    bearings.set_visible(true);
    bearings.finish_tick("DP-1", 1.0_f32.to_bits(), milliseconds(1));
    assert_eq!(
        bearings.hit_test("DP-1", Point::new(15, 15)),
        Some(BearingTarget::Node(NodeId::new(3)))
    );
    assert_eq!(bearings.hit_test("DP-1", Point::new(30, 15)), None);
    assert_eq!(bearings.hit_test("DP-2", Point::new(15, 15)), None);
}

#[test]
fn a_new_shell_shows_nothing() {
    let shell = ShellState::new(Section { raw: 2 });
    assert!(!shell.apogee.is_active());
    assert!(!shell.cluster_composer.is_active());
    assert!(!shell.bearings.visible());
    assert!(!shell.overlays.exit_modal_active());
    assert!(!shell.focus_cycle.open);
}

fn rectangle(x: i32, y: i32, w: i32, h: i32) -> Rectangle {
    Rectangle::new(Point::new(x, y), Size::new(w, h))
}

fn settled(settle: Settle, now: Duration) -> f32 {
    let from = f32::from_bits(settle.from_bits);
    let to = match settle.to {
        Endpoint::Closed => 0.0,
        Endpoint::Open => 1.0,
    };
    if settle.duration.nanos == 0 {
        return to;
    }
    from + (to - from) * ease(now.saturating_sub(settle.started_at), settle.duration)
}

fn apogee_progress(session: &apogee::Session, now: Duration) -> f32 {
    match session.progress() {
        apogee::Progress::Manual(bits) => f32::from_bits(bits),
        apogee::Progress::Settling(settle) => settled(settle, now),
        apogee::Progress::Open => 1.0,
    }
}

#[test]
fn reversing_manual_progress_has_no_discontinuity() {
    let mut session = apogee::Session {
        tiles: vec![apogee::Tile {
            id: NodeId::new(1),
            kind: TileKind::Window,
            output: "DP-1".into(),
            target: rectangle(0, 0, 100, 100),
            source_stack_index: 0,
            source_stack_order: u64::MAX,
        }],
        hovered: None,
        selected: Some(NodeId::new(1)),
        settle: None,
        manual_progress: Some(0.7_f32.to_bits()),
        pending_activation: None,
    };
    assert_eq!(apogee_progress(&session, Duration::zero()), 0.7);
    session.manual_progress = Some(0.2_f32.to_bits());
    assert_eq!(apogee_progress(&session, Duration::from_secs(20)), 0.2);
    session.manual_progress = Some(0.0_f32.to_bits());
    assert_eq!(apogee_progress(&session, Duration::from_secs(30)), 0.0);
}

#[test]
fn proportional_close_starts_at_the_live_progress() {
    let session = apogee::Session {
        tiles: Vec::new(),
        hovered: None,
        selected: None,
        settle: Some(Settle {
            from_bits: 0.4_f32.to_bits(),
            to: Endpoint::Closed,
            started_at: Duration::from_secs(2),
            duration: milliseconds(128),
        }),
        manual_progress: None,
        pending_activation: None,
    };
    assert_eq!(apogee_progress(&session, Duration::from_secs(2)), 0.4);
    assert_eq!(
        apogee_progress(
            &session,
            Duration::from_secs(2).plus(milliseconds(128))
        ),
        0.0
    );
}

#[test]
fn closing_overlay_remains_visible_but_releases_input_and_live_commits() {
    let state = ApogeeState {
        session: Some(apogee::Session {
            tiles: Vec::new(),
            hovered: None,
            selected: None,
            settle: Some(Settle {
                from_bits: 1.0_f32.to_bits(),
                to: Endpoint::Closed,
                started_at: Duration::zero(),
                duration: milliseconds(320),
            }),
            manual_progress: None,
            pending_activation: None,
        }),
    };

    assert!(state.is_active());
    assert!(!state.accepts_input());
    assert!(!state.accepts_live_previews());
}

#[test]
fn cluster_members_are_represented_by_their_core_not_window_tiles() {
    assert!(participates_in_window_mosaic(true, false));
    assert!(!participates_in_window_mosaic(true, true));
    assert!(!participates_in_window_mosaic(false, false));
}

#[test]
fn selecting_the_active_cluster_core_preserves_its_workspace() {
    let active = ClusterId::new(4);
    assert!(!cluster_needs_activation(Some(active), active));
    assert!(cluster_needs_activation(None, active));
    assert!(cluster_needs_activation(Some(ClusterId::new(3)), active));
}

#[test]
fn the_overview_opens_selects_and_closes() {
    let overview = |id: u64, x: i32, y: i32| apogee::Tile {
        id: NodeId::new(id),
        kind: TileKind::Window,
        output: "DP-1".into(),
        target: rectangle(x, y, 100, 100),
        source_stack_index: 0,
        source_stack_order: 0,
    };
    let mut state = ApogeeState { session: None };
    assert!(!state.open(true, Vec::new(), 300, Duration::zero()));
    assert!(state.open(
        true,
        vec![overview(1, 0, 0), overview(2, 200, 0)],
        300,
        Duration::zero()
    ));
    let first = state.selected();
    assert!(apogee::move_selection(&mut state, apogee::Direction::Right));
    assert_ne!(state.selected(), first);
    assert_eq!(state.target_at(Point::new(250, 50)), Some(NodeId::new(2)));
    assert_eq!(state.target_at(Point::new(150, 50)), None);
    assert!(state.close(
        Some(NodeId::new(2)),
        1.0_f32.to_bits(),
        milliseconds(300),
        milliseconds(500)
    ));
    let follow_up = apogee::tick(&mut state, milliseconds(800));
    assert!(follow_up.closed);
    assert_eq!(follow_up.activate, Some(NodeId::new(2)));
    assert!(!state.is_active());
}

fn tile(id: u64, x: i32, y: i32) -> cluster_composer::Tile {
    cluster_composer::Tile {
        id: NodeId::new(id),
        target: rectangle(x, y, 100, 100),
        source_stack_index: id as usize,
        source_stack_order: u64::MAX,
    }
}

#[test]
fn candidate_filter_is_output_local_and_keeps_unclustered_collapsed_records() {
    assert!(is_candidate(true, "DP-1", "DP-1", false));
    assert!(!is_candidate(false, "DP-1", "DP-1", false));
    assert!(!is_candidate(true, "DP-2", "DP-1", false));
    assert!(!is_candidate(true, "DP-1", "DP-1", true));
}

fn interactive_session(tiles: Vec<cluster_composer::Tile>) -> cluster_composer::Session {
    cluster_composer::Session {
        output: "DP-1".into(),
        tiles,
        hovered: None,
        focused: Some(NodeId::new(1)),
        phase: Phase::Interactive,
        settle: None,
        commit: None,
        endpoint_rendered: false,
    }
}

fn prepared(members: Vec<NodeId>) -> PreparedCreation {
    PreparedCreation {
        output: "DP-1".into(),
        members,
        name: "Work".into(),
        core_x_bits: 40.0_f32.to_bits(),
        core_y_bits: 60.0_f32.to_bits(),
        focus_core: true,
    }
}

#[test]
fn directional_navigation_uses_the_stable_mosaic_geometry() {
    let mut state = ClusterComposerState {
        session: Some(interactive_session(vec![
            tile(1, 0, 0),
            tile(2, 200, 0),
            tile(3, 0, 200),
        ])),
    };
    assert!(state.move_focus(cluster_composer::Direction::Right));
    assert_eq!(state.focused(), Some(NodeId::new(2)));
    assert!(state.move_focus(cluster_composer::Direction::Down));
    assert_eq!(state.focused(), Some(NodeId::new(3)));
}

#[test]
fn cancel_still_defers_until_the_reverse_endpoint() {
    let mut state = ClusterComposerState {
        session: Some(interactive_session(vec![tile(1, 0, 0)])),
    };
    assert!(state.close(1.0_f32.to_bits(), milliseconds(300), Duration::zero()));
    assert!(!state.accepts_input());
    assert!(matches!(
        state.tick(milliseconds(299)),
        Tick::Active { animating: true }
    ));
    assert!(matches!(state.tick(milliseconds(300)), Tick::Cancelled));
}

#[test]
fn early_confirmation_starts_from_the_current_opening_geometry() {
    let id = NodeId::new(1);
    let mut opening = interactive_session(vec![tile(1, 0, 0)]);
    opening.phase = Phase::Opening;
    opening.settle = Some(Settle {
        from_bits: 0.0_f32.to_bits(),
        to: Endpoint::Open,
        started_at: Duration::zero(),
        duration: milliseconds(300),
    });
    let progress = match opening.progress() {
        cluster_composer::Progress::Settling(settle) => settled(settle, milliseconds(150)),
        cluster_composer::Progress::Open => 1.0,
    };
    let mut state = ClusterComposerState {
        session: Some(opening),
    };
    assert!(state.begin_commit(
        prepared(vec![id]),
        progress.to_bits(),
        300,
        milliseconds(150)
    ));
    assert_eq!(
        f32::from_bits(state.session.as_ref().unwrap().commit_opening_progress()),
        0.5
    );
}

#[test]
fn commit_endpoint_must_be_rendered_before_commit_is_emitted() {
    let id = NodeId::new(1);
    let mut state = ClusterComposerState {
        session: Some(interactive_session(vec![tile(1, 0, 0)])),
    };
    assert!(state.begin_commit(
        prepared(vec![id]),
        1.0_f32.to_bits(),
        300,
        Duration::zero()
    ));
    assert!(matches!(
        state.tick(milliseconds(300)),
        Tick::Active { animating: true }
    ));
    assert_eq!(
        state.session.as_ref().expect("held session").phase(),
        Phase::CommitEndpointHeld
    );
    assert!(matches!(
        state.tick(milliseconds(301)),
        Tick::Active { animating: true }
    ));
    state.session.as_mut().unwrap().mark_endpoint_rendered();
    assert!(matches!(state.tick(milliseconds(302)), Tick::CommitReady));
}

#[test]
fn zero_duration_commit_still_holds_a_rendered_endpoint() {
    let id = NodeId::new(1);
    let mut state = ClusterComposerState {
        session: Some(interactive_session(vec![tile(1, 0, 0)])),
    };
    assert!(state.begin_commit(prepared(vec![id]), 1.0_f32.to_bits(), 0, Duration::zero()));
    assert!(matches!(
        state.tick(Duration::zero()),
        Tick::Active { animating: true }
    ));
    assert!(!matches!(state.tick(Duration::zero()), Tick::CommitReady));
    state.session.as_mut().unwrap().mark_endpoint_rendered();
    assert!(matches!(state.tick(Duration::zero()), Tick::CommitReady));
}

#[test]
fn reveal_retains_the_prepared_core_until_the_handoff_finishes() {
    let id = NodeId::new(1);
    let mut state = ClusterComposerState {
        session: Some(interactive_session(vec![tile(1, 0, 0)])),
    };
    assert!(state.begin_commit(
        prepared(vec![id]),
        1.0_f32.to_bits(),
        300,
        Duration::zero()
    ));
    assert!(matches!(
        state.tick(milliseconds(300)),
        Tick::Active { animating: true }
    ));
    state.session.as_mut().unwrap().mark_endpoint_rendered();
    assert!(matches!(state.tick(milliseconds(301)), Tick::CommitReady));
    assert!(state.begin_reveal(300, milliseconds(301)));
    let kept = state.session.as_ref().unwrap().prepared().unwrap();
    assert_eq!(kept.output, "DP-1");
    assert_eq!(kept.members, [id]);
    assert_eq!(kept.name, "Work");
    assert_eq!(f32::from_bits(kept.core_x_bits), 40.0);
    assert_eq!(f32::from_bits(kept.core_y_bits), 60.0);
    assert!(kept.focus_core);
    assert!(matches!(
        state.tick(milliseconds(400)),
        Tick::Active { animating: true }
    ));
    assert!(matches!(state.tick(milliseconds(401)), Tick::Finished));
    assert!(state.session.is_none());
}
