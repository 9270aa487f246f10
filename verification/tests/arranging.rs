use halley_session::geometry::{Point, Rectangle, Size};
use halley_session::ids::{NodeId, SurfaceId};
use halley_session::session::arrange::{
    arrange_visible, collect_candidates, plan_arrangement, screen_work_area, undo_last,
    ArrangeOutcome, Arrangement, Candidate, FieldRestore, Measured, NodeFacts, RestoreFacts,
    SizePolicy, UndoSnapshot,
};
use halley_session::session::environment::{
    activate_session, activate_xwayland, prepare_session,
};
use halley_session::session::interaction::{Grab, InteractionState};
use halley_session::session::navigation::{
    center_last_focused, directional_start, focus_cluster_tile, focus_directional_field_target,
    navigate_cluster_tile, CenterStep, LastFocused, TargetReveal, TileFocusStep, TileStep,
};
use halley_session::session::output::{
    apply_wayland_output_configuration, ApplyStep, OutputChange, OutputId,
};
use halley_session::session::protocol::{
    captures_before_commit, commit, dmabuf_imported, fullscreen_request, new_layer_output,
    toplevel_destroyed, DmabufStep, ProtocolStep,
};

fn rect(x: i32, y: i32, w: i32, h: i32) -> Rectangle {
    Rectangle::new(Point::new(x, y), Size::new(w, h))
}

fn node(raw: u64, placement: Rectangle) -> NodeFacts {
    NodeFacts {
        surface: SurfaceId::new(raw),
        output: "left".to_string(),
        attached: true,
        collapsed: false,
        visible: true,
        cluster_member: false,
        user_pinned: false,
        fullscreen: false,
        maximized: false,
        grabbed: false,
        placement: Some((placement, placement)),
    }
}

fn free(plan: &Arrangement) -> Vec<Vec<Measured>> {
    plan.candidates
        .iter()
        .map(|_| {
            plan.regions
                .iter()
                .map(|region| Measured {
                    target: *region,
                    policy: SizePolicy::Toplevel {
                        min: Size::new(0, 0),
                        max: Size::new(0, 0),
                    },
                })
                .collect()
        })
        .collect()
}

fn field() -> Rectangle {
    rect(0, 0, 1000, 600)
}

fn snapshot() -> UndoSnapshot {
    UndoSnapshot {
        restores: vec![FieldRestore {
            surface: SurfaceId::new(9),
            geometry: rect(1, 2, 3, 4),
            output: "left".to_string(),
        }],
    }
}

#[test]
fn arranging_waits_for_clusters_and_grabs() {
    let nodes = vec![
        node(1, rect(700, 100, 100, 100)),
        node(2, rect(100, 100, 100, 100)),
    ];
    let mut undo = snapshot();
    assert!(arrange_visible(
        true,
        false,
        &mut undo,
        Some((field(), 10)),
        &nodes,
        "left"
    )
    .is_none());
    assert!(arrange_visible(
        false,
        true,
        &mut undo,
        Some((field(), 10)),
        &nodes,
        "left"
    )
    .is_none());
    assert_eq!(undo.restores.len(), 1);
    assert!(arrange_visible(false, false, &mut undo, None, &nodes, "left").is_none());
    assert!(undo.restores.is_empty());
}

#[test]
fn windows_take_the_regions_nearest_to_them_and_go_back() {
    let nodes = vec![
        node(1, rect(700, 100, 100, 100)),
        node(2, rect(100, 100, 100, 100)),
    ];
    let mut undo = snapshot();
    let plan = arrange_visible(
        false,
        false,
        &mut undo,
        Some((field(), 10)),
        &nodes,
        "left",
    )
    .unwrap();
    let measured = free(&plan);
    let ArrangeOutcome::Placed {
        requests,
        undo: mut made,
    } = plan.advance(&measured)
    else {
        panic!("both windows take any size");
    };
    assert_eq!(requests[0].surface, SurfaceId::new(1));
    assert_eq!(requests[0].geometry, rect(505, 0, 495, 600));
    assert_eq!(requests[1].geometry, rect(0, 0, 495, 600));
    let facts = RestoreFacts {
        attached: true,
        collapsed: false,
        cluster_member: false,
        fullscreen: false,
        maximized: false,
    };
    let undone = undo_last(
        &mut made,
        &vec![
            Some(facts),
            Some(RestoreFacts {
                maximized: true,
                ..facts
            }),
        ],
    );
    assert_eq!(undone.len(), 1);
    assert_eq!(undone[0].surface, SurfaceId::new(1));
    assert_eq!(undone[0].geometry, rect(700, 100, 100, 100));
    assert_eq!(undone[0].output, "left");
    assert!(undo_last(&mut made, &vec![]).is_empty());
}

#[test]
fn a_window_that_fits_nowhere_is_left_out() {
    let candidate = |raw: u64, x: i32| Candidate {
        surface: SurfaceId::new(raw),
        current: rect(x, 0, 100, 100),
        center: Point::new(x + 50, 50),
    };
    let candidates = vec![candidate(1, 0), candidate(2, 300), candidate(3, 600)];
    let plan = plan_arrangement(field(), 10, "left".to_string(), candidates).unwrap();
    let mut measured = free(&plan);
    for cell in measured[1].iter_mut() {
        cell.policy = SizePolicy::Unsized;
    }
    let ArrangeOutcome::Narrowed(next) = plan.advance(&measured) else {
        panic!("the second window fits nowhere");
    };
    assert_eq!(
        next.candidates
            .iter()
            .map(|candidate| candidate.surface)
            .collect::<Vec<_>>(),
        vec![SurfaceId::new(1), SurfaceId::new(3)]
    );
    let mut measured = free(&next);
    for cell in measured[0].iter_mut() {
        cell.policy = SizePolicy::X11 {
            constrained: Size::new(1, 1),
        };
    }
    assert!(matches!(
        next.advance(&measured),
        ArrangeOutcome::Abandoned
    ));
}

#[test]
fn only_free_windows_of_the_field_are_arranged() {
    let here = rect(100, 100, 100, 100);
    let nodes = vec![
        node(1, here),
        NodeFacts {
            user_pinned: true,
            ..node(2, here)
        },
        NodeFacts {
            output: "right".to_string(),
            ..node(3, here)
        },
        NodeFacts {
            placement: None,
            ..node(4, here)
        },
        node(5, rect(5000, 100, 100, 100)),
        node(6, rect(500, 300, 10, 10)),
    ];
    assert_eq!(
        collect_candidates(&nodes, "left", field())
            .iter()
            .map(|candidate| (candidate.surface, candidate.center))
            .collect::<Vec<_>>(),
        vec![
            (SurfaceId::new(1), Point::new(150, 150)),
            (SurfaceId::new(6), Point::new(505, 305)),
        ]
    );
    assert_eq!(
        screen_work_area(rect(1000, 0, 800, 600), rect(0, 30, 800, 570), 10),
        Some(rect(1010, 40, 780, 550))
    );
    assert_eq!(
        screen_work_area(rect(0, 0, 800, 600), rect(0, 0, 20, 600), 10),
        None
    );
    assert_eq!(
        screen_work_area(rect(i32::MIN, i32::MAX, 800, 600), rect(-7, 7, 800, 600), 10),
        Some(rect(i32::MIN + 10, i32::MAX, 780, 580))
    );
}

#[test]
fn navigation_starts_from_what_has_the_focus() {
    let a = NodeId::new(1);
    let b = NodeId::new(2);
    assert_eq!(directional_start(Some(a), true, Some(b), true), Some(a));
    assert_eq!(directional_start(Some(a), false, Some(b), true), Some(b));
    assert_eq!(directional_start(None, false, Some(b), false), None);
    assert_eq!(
        focus_directional_field_target(true, true),
        TargetReveal::ClusterCore
    );
    assert_eq!(
        focus_directional_field_target(false, true),
        TargetReveal::CollapsedNode
    );
    assert_eq!(
        focus_directional_field_target(false, false),
        TargetReveal::Window
    );
    let last = LastFocused {
        cluster_member: false,
        recorded: true,
        attached: true,
        on_output: true,
        collapsed: false,
        camera_free: true,
    };
    assert_eq!(
        center_last_focused(Some(last)),
        [
            CenterStep::StopPan,
            CenterStep::PanToNode,
            CenterStep::FocusWindow,
            CenterStep::Redraw
        ]
    );
    assert_eq!(
        center_last_focused(Some(LastFocused {
            collapsed: true,
            ..last
        })),
        [
            CenterStep::StopPan,
            CenterStep::PanToNode,
            CenterStep::ClearWindowFocus,
            CenterStep::FocusNode,
            CenterStep::SyncKeyboard,
            CenterStep::Redraw
        ]
    );
    assert_eq!(
        center_last_focused(Some(LastFocused {
            camera_free: false,
            ..last
        })),
        []
    );
    assert_eq!(center_last_focused(None), []);
    assert_eq!(navigate_cluster_tile(true, true), TileStep::Swap);
    assert_eq!(navigate_cluster_tile(true, false), TileStep::Target);
    assert_eq!(navigate_cluster_tile(false, true), TileStep::Nothing);
    assert_eq!(
        focus_cluster_tile(Some(SurfaceId::new(3))),
        [
            TileFocusStep::FocusWindow(SurfaceId::new(3)),
            TileFocusStep::Redraw
        ]
    );
    assert_eq!(focus_cluster_tile(None), []);
}

#[test]
fn windows_leave_an_output_that_goes_off() {
    let left = OutputId { raw: 1 };
    let right = OutputId { raw: 2 };
    let off = OutputChange {
        output: left,
        was_enabled: true,
        enabled: false,
        mode_changed: false,
        transform_changed: false,
    };
    let on = OutputChange {
        output: right,
        was_enabled: true,
        enabled: true,
        mode_changed: true,
        transform_changed: false,
    };
    assert_eq!(
        apply_wayland_output_configuration(&vec![off, on], None),
        Some(vec![
            ApplyStep::ReleaseControls(left),
            ApplyStep::MoveWindows {
                from: left,
                to: right,
            },
            ApplyStep::Unmap(left),
            ApplyStep::Place(right),
            ApplyStep::ResetCamera(right),
            ApplyStep::Redraw(right),
            ApplyStep::RefreshLayout,
            ApplyStep::ConfigureLock,
            ApplyStep::SyncKeyboard,
            ApplyStep::UpdatePointer,
        ])
    );
    assert_eq!(apply_wayland_output_configuration(&vec![off], None), None);
    assert_eq!(
        apply_wayland_output_configuration(&vec![], None),
        Some(vec![])
    );
}

#[test]
fn clients_get_what_they_ask_for_where_it_can_be() {
    let (a, b, c) = (
        OutputId { raw: 1 },
        OutputId { raw: 2 },
        OutputId { raw: 3 },
    );
    assert_eq!(new_layer_output(Some(a), Some(b), c), a);
    assert_eq!(new_layer_output(None, Some(b), c), b);
    assert_eq!(new_layer_output(None, None, c), c);
    assert_eq!(dmabuf_imported(Some(4), 4), DmabufStep::Import);
    assert_eq!(dmabuf_imported(Some(4), 5), DmabufStep::Fail);
    assert_eq!(dmabuf_imported(None, 5), DmabufStep::Fail);
    let mapped = Some(SurfaceId::new(1));
    assert_eq!(
        commit(mapped, false),
        [
            ProtocolStep::StartOpening(SurfaceId::new(1)),
            ProtocolStep::FullscreenCommit,
            ProtocolStep::FinishResize,
            ProtocolStep::Redraw,
            ProtocolStep::SyncKeyboard,
        ]
    );
    assert_eq!(commit(mapped, true).len(), 4);
    assert_eq!(commit(None, false).len(), 4);
    let mut interaction = InteractionState::default();
    interaction.grab = Grab::ResizeWindow {
        surface: SurfaceId::new(1),
        button: 0x110,
    };
    assert_eq!(
        toplevel_destroyed(&mut interaction, SurfaceId::new(1)),
        [
            ProtocolStep::DropOpening,
            ProtocolStep::ForgetFullscreen,
            ProtocolStep::DropTexture,
            ProtocolStep::Remove,
            ProtocolStep::Redraw,
        ]
    );
    assert_eq!(
        fullscreen_request(&mut interaction, SurfaceId::new(2)),
        [ProtocolStep::RequestFullscreen, ProtocolStep::Redraw]
    );
    assert!(matches!(interaction.grab, Grab::ResizeWindow { .. }));
    fullscreen_request(&mut interaction, SurfaceId::new(1));
    assert!(matches!(interaction.grab, Grab::Idle));
    assert!(captures_before_commit(Some(1), true, true));
    assert!(!captures_before_commit(None, true, true));
    assert!(!captures_before_commit(Some(1), false, true));
    assert!(!captures_before_commit(Some(1), true, false));
}

#[test]
fn helpers_learn_of_the_session() {
    let without = activate_session(false, "Adwaita", 24);
    assert_eq!(
        without
            .iter()
            .map(|command| command.program.as_str())
            .collect::<Vec<_>>(),
        vec![
            "dbus-update-activation-environment",
            "dbus-update-activation-environment",
        ]
    );
    let with = activate_session(true, "Adwaita", 24);
    assert_eq!(with[0].args[0], "--systemd");
    assert!(with
        .iter()
        .any(|command| command.args.contains(&"xdg-desktop-portal.service".to_string())));
    let xwayland = activate_xwayland(true, ":3");
    assert_eq!(xwayland[0].args, vec!["--systemd", "DISPLAY=:3"]);
    assert_eq!(
        xwayland[1].args,
        vec!["--user", "set-environment", "DISPLAY=:3"]
    );
    let changes = prepare_session();
    assert!(changes.iter().any(|change| change.name == "XDG_SESSION_TYPE"
        && change.value.as_deref() == Some("wayland")));
    assert!(changes
        .iter()
        .any(|change| change.name == "WAYLAND_DISPLAY" && change.value.is_none()));
    assert_eq!(changes.len(), 7);
}
