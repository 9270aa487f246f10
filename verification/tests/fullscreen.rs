use halley_session::geometry::{Point, Rectangle, Size};
use halley_session::ids::SurfaceId;
use halley_session::session::closing::{
    capture_and_activate_before_unmap, capture_outcome, capture_window, closing_destination,
    finish_handoff, follow_handoff,
    CaptureDecision, CaptureFacts, CaptureOutcome, CapturePlan, CloseAnchor, CloseCaptureSource,
    DrawnChrome, HandoffStep, PresentedX11FramePolicy, RetractOrigin, UnmapHandoff, VisualState,
};
use halley_session::session::fullscreen::{
    configure_field_geometry, displace_fullscreen_on_output, finish_field_maximize,
    set_surface_field_maximized, toggle_field_maximize, toggle_focused_fullscreen, ConfigureFacts,
    ConfigureStep, DisplaceStep, FullscreenFacts, FullscreenStep, MaximizeFacts, MaximizeFinish, MaximizeStep,
    Occupant, Placement,
};

fn rect(x: i32, y: i32, w: i32, h: i32) -> Rectangle {
    Rectangle::new(Point::new(x, y), Size::new(w, h))
}

fn window() -> SurfaceId {
    SurfaceId::new(1)
}

fn other() -> SurfaceId {
    SurfaceId::new(2)
}

fn focused() -> FullscreenFacts {
    FullscreenFacts {
        surface: window(),
        collapsed: false,
        fullscreen: false,
        maximized: false,
        output_restore: None,
        geometry_known: true,
        toplevel: true,
    }
}

#[test]
fn a_focused_window_fills_its_output_and_goes_back() {
    assert_eq!(
        toggle_focused_fullscreen(Some(focused())),
        vec![
            FullscreenStep::CancelGrab,
            FullscreenStep::Displace,
            FullscreenStep::TakeRestore,
            FullscreenStep::Request,
            FullscreenStep::Reconcile,
            FullscreenStep::Redraw,
        ]
    );
    assert_eq!(
        toggle_focused_fullscreen(Some(FullscreenFacts {
            fullscreen: true,
            toplevel: false,
            ..focused()
        })),
        vec![
            FullscreenStep::CancelGrab,
            FullscreenStep::SetX11(false),
            FullscreenStep::Reconcile,
            FullscreenStep::Redraw,
        ]
    );
    assert!(toggle_focused_fullscreen(None).is_empty());
    assert!(toggle_focused_fullscreen(Some(FullscreenFacts {
        collapsed: true,
        ..focused()
    }))
    .is_empty());
}

#[test]
fn a_maximized_window_hands_its_camera_over() {
    assert_eq!(
        toggle_focused_fullscreen(Some(FullscreenFacts {
            maximized: true,
            output_restore: Some(window()),
            ..focused()
        })),
        vec![
            FullscreenStep::CancelGrab,
            FullscreenStep::Displace,
            FullscreenStep::MeasurePresented,
            FullscreenStep::TakeRestore,
            FullscreenStep::DropTexture(window()),
            FullscreenStep::HandOverCamera,
            FullscreenStep::Relocate,
            FullscreenStep::Request,
            FullscreenStep::OverrideRestore,
            FullscreenStep::Reconcile,
            FullscreenStep::Redraw,
        ]
    );
    assert_eq!(
        toggle_focused_fullscreen(Some(FullscreenFacts {
            output_restore: Some(other()),
            ..focused()
        })),
        vec![
            FullscreenStep::CancelGrab,
            FullscreenStep::Displace,
            FullscreenStep::TakeRestore,
            FullscreenStep::DropTexture(other()),
            FullscreenStep::ReleaseCamera,
            FullscreenStep::Configure(other()),
            FullscreenStep::Request,
            FullscreenStep::Reconcile,
            FullscreenStep::Redraw,
        ]
    );
}

#[test]
fn every_occupant_makes_room_and_is_forgotten() {
    let occupant = Occupant {
        surface: window(),
        window_known: true,
        toplevel: true,
        from_maximize: false,
        restore: true,
        restore_output_known: false,
    };
    assert_eq!(
        displace_fullscreen_on_output(&vec![
            occupant,
            Occupant {
                surface: other(),
                window_known: false,
                ..occupant
            },
        ]),
        vec![
            DisplaceStep::Unrequest(window()),
            DisplaceStep::Relocate(window()),
            DisplaceStep::Forget(window()),
            DisplaceStep::DropTexture(window()),
            DisplaceStep::Forget(other()),
            DisplaceStep::DropTexture(other()),
        ]
    );
    assert_eq!(
        displace_fullscreen_on_output(&vec![Occupant {
            toplevel: false,
            from_maximize: true,
            restore_output_known: true,
            ..occupant
        }]),
        vec![
            DisplaceStep::RestoreMaximizedX11(window()),
            DisplaceStep::SetOutput(window()),
            DisplaceStep::Relocate(window()),
            DisplaceStep::Forget(window()),
            DisplaceStep::DropTexture(window()),
        ]
    );
}

fn maximize() -> MaximizeFacts {
    MaximizeFacts {
        output: "left".to_string(),
        output_geometry: Some(rect(1000, 0, 800, 600)),
        usable: rect(0, 30, 800, 570),
        gap: 10,
        border: 2,
        inherited: None,
        geometry: Some(rect(1100, 100, 300, 200)),
        fullscreen: false,
        maximized: false,
        animated: true,
        toplevel: true,
    }
}

#[test]
fn a_maximized_window_leaves_its_frame_free() {
    let plan = toggle_field_maximize(&maximize()).unwrap();
    assert_eq!(plan.target, rect(1012, 42, 776, 546));
    assert_eq!(plan.restore_geometry, rect(1100, 100, 300, 200));
    assert_eq!(plan.restore_output, "left");
    assert_eq!(
        plan.steps,
        vec![
            MaximizeStep::CaptureTexture,
            MaximizeStep::CancelGrab,
            MaximizeStep::Displace,
            MaximizeStep::ClearCameraHandoff,
            MaximizeStep::Toggle,
        ]
    );
    let tiny = toggle_field_maximize(&MaximizeFacts {
        usable: rect(0, 0, 20, 20),
        ..maximize()
    })
    .unwrap();
    assert_eq!(tiny.target.size, Size::new(1, 1));
    let far = toggle_field_maximize(&MaximizeFacts {
        output_geometry: Some(rect(i32::MAX, i32::MIN, 800, 600)),
        usable: rect(5, -5, 800, 600),
        ..maximize()
    })
    .unwrap();
    assert_eq!(far.target.loc.x, i32::MAX);
    assert_eq!(far.target.loc.y, i32::MIN + 12);
}

#[test]
fn maximizing_out_of_fullscreen_goes_back_to_where_the_window_was() {
    let plan = toggle_field_maximize(&MaximizeFacts {
        fullscreen: true,
        inherited: Some(Placement {
            geometry: rect(5, 6, 70, 80),
            output: Some("right".to_string()),
        }),
        ..maximize()
    })
    .unwrap();
    assert_eq!(plan.restore_geometry, rect(5, 6, 70, 80));
    assert_eq!(plan.restore_output, "right");
    assert_eq!(
        plan.steps,
        vec![
            MaximizeStep::MeasurePresented,
            MaximizeStep::CaptureTexture,
            MaximizeStep::CancelGrab,
            MaximizeStep::Displace,
            MaximizeStep::HandOverCamera,
            MaximizeStep::RetireFullscreen,
            MaximizeStep::Toggle,
            MaximizeStep::OverrideWindowed,
        ]
    );
    assert!(toggle_field_maximize(&MaximizeFacts {
        output_geometry: None,
        ..maximize()
    })
    .is_none());
    assert!(toggle_field_maximize(&MaximizeFacts {
        geometry: None,
        ..maximize()
    })
    .is_none());
}

#[test]
fn clients_change_the_state_of_windows_in_the_field() {
    assert!(set_surface_field_maximized(false, true, Some(false)));
    assert!(!set_surface_field_maximized(true, true, Some(false)));
    assert!(!set_surface_field_maximized(false, true, Some(true)));
    assert!(!set_surface_field_maximized(false, true, None));
    assert_eq!(
        finish_field_maximize(window(), Some(other())),
        vec![
            MaximizeFinish::DropTexture(other()),
            MaximizeFinish::Configure(other()),
            MaximizeFinish::Configure(window()),
            MaximizeFinish::Reconcile,
            MaximizeFinish::Redraw,
        ]
    );
    assert_eq!(
        finish_field_maximize(window(), None),
        vec![
            MaximizeFinish::Configure(window()),
            MaximizeFinish::Reconcile,
            MaximizeFinish::Redraw,
        ]
    );
}

#[test]
fn windows_are_configured_once_they_have_been() {
    let facts = ConfigureFacts {
        window_known: true,
        output_known: true,
        toplevel: true,
        maximized: true,
        initial_configure_sent: true,
    };
    assert_eq!(
        configure_field_geometry(facts),
        vec![
            ConfigureStep::SetOutput,
            ConfigureStep::Relocate,
            ConfigureStep::Pend { maximized: true },
            ConfigureStep::SendConfigure,
        ]
    );
    assert_eq!(
        configure_field_geometry(ConfigureFacts {
            output_known: false,
            initial_configure_sent: false,
            ..facts
        }),
        vec![
            ConfigureStep::Relocate,
            ConfigureStep::Pend { maximized: true },
        ]
    );
    assert_eq!(
        configure_field_geometry(ConfigureFacts {
            toplevel: false,
            ..facts
        }),
        vec![
            ConfigureStep::SetOutput,
            ConfigureStep::Relocate,
            ConfigureStep::ConfigureX11,
        ]
    );
    assert!(configure_field_geometry(ConfigureFacts {
        window_known: false,
        ..facts
    })
    .is_empty());
}

fn capture() -> CaptureFacts {
    CaptureFacts {
        override_redirect: false,
        surface: Some(window()),
        pending: false,
        output_known: true,
        visual: Some(VisualState {
            output_local: false,
            source_geometry: rect(1, 2, 3, 4),
            camera_rect: rect(5, 6, 7, 8),
            animated_rect: rect(100, 100, 300, 200),
        }),
        stack_index: Some(3),
        focused_window: Some(window()),
        chrome_suppressed: false,
        x11_fullscreen: false,
        maximized: false,
        chrome: DrawnChrome::Border(2),
        is_x11: false,
        presented: false,
        opening_origin: true,
        fallback_origin: true,
        output_geometry_known: true,
    }
}

#[test]
fn a_closing_window_is_pictured_with_its_frame() {
    assert_eq!(
        capture_window(capture()),
        CaptureDecision::Take(CapturePlan {
            surface: window(),
            source: CloseCaptureSource::Live,
            focused: true,
            chrome_visible: true,
            maximized: false,
            destination: rect(98, 98, 304, 204),
            anchor: CloseAnchor::Windowed {
                world_geometry: rect(1, 2, 3, 4),
                captured_camera_rect: rect(5, 6, 7, 8),
            },
            stack_index: 3,
            retract_origin: RetractOrigin::OpeningOrigin,
        })
    );
    assert_eq!(
        capture_window(CaptureFacts {
            pending: true,
            output_known: false,
            ..capture()
        }),
        CaptureDecision::AlreadyPending
    );
    for facts in [
        CaptureFacts {
            override_redirect: true,
            pending: true,
            ..capture()
        },
        CaptureFacts {
            surface: None,
            ..capture()
        },
        CaptureFacts {
            output_known: false,
            ..capture()
        },
        CaptureFacts {
            visual: None,
            ..capture()
        },
        CaptureFacts {
            stack_index: None,
            ..capture()
        },
    ] {
        assert_eq!(capture_window(facts), CaptureDecision::Refused);
    }
    assert_eq!(
        closing_destination(
            true,
            rect(0, 0, 10, 10),
            DrawnChrome::TitleBar(rect(-1, -9, 12, 20))
        ),
        rect(-1, -9, 12, 20)
    );
    assert_eq!(
        closing_destination(false, rect(0, 0, 10, 10), DrawnChrome::Border(4)),
        rect(0, 0, 10, 10)
    );
}

#[test]
fn a_picture_counts_once_it_was_taken() {
    let decision = capture_window(capture());
    assert_eq!(
        capture_outcome(decision, true, true),
        CaptureOutcome {
            captured: true,
            mark_provisional: true,
        }
    );
    assert_eq!(
        capture_outcome(decision, false, true),
        CaptureOutcome {
            captured: false,
            mark_provisional: false,
        }
    );
    assert_eq!(
        capture_outcome(CaptureDecision::AlreadyPending, false, true),
        CaptureOutcome {
            captured: true,
            mark_provisional: false,
        }
    );
    let unavailable = capture_window(CaptureFacts {
        is_x11: true,
        ..capture()
    });
    assert!(!capture_outcome(unavailable, true, false).captured);
    assert_eq!(
        capture_and_activate_before_unmap(None, false),
        UnmapHandoff::Missing
    );
    assert_eq!(
        capture_and_activate_before_unmap(Some(window()), true),
        UnmapHandoff::AlreadyActive
    );
    assert_eq!(
        capture_and_activate_before_unmap(Some(window()), false),
        UnmapHandoff::Capture(PresentedX11FramePolicy::PreTeardown)
    );
    let capture = UnmapHandoff::Capture(PresentedX11FramePolicy::PreTeardown);
    assert_eq!(
        follow_handoff(capture, true),
        [HandoffStep::ForgetPresentedFrame, HandoffStep::Start]
    );
    assert_eq!(
        follow_handoff(capture, false),
        [HandoffStep::ForgetPresentedFrame]
    );
    assert_eq!(
        follow_handoff(UnmapHandoff::AlreadyActive, false),
        [HandoffStep::ForgetPresentedFrame]
    );
    assert!(follow_handoff(UnmapHandoff::Missing, true).is_empty());
    assert_eq!(finish_handoff(capture, true, true), (true, true));
    assert_eq!(finish_handoff(capture, true, false), (false, false));
    assert_eq!(
        finish_handoff(UnmapHandoff::AlreadyActive, false, false),
        (true, false)
    );
    assert_eq!(
        finish_handoff(UnmapHandoff::Missing, true, true),
        (false, false)
    );
}
