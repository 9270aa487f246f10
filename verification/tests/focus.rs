use halley_session::ids::{NodeId, SurfaceId};
use halley_session::session::focus::{
    focus_cluster_core_from_hover, focus_node_from_hover, focus_node_from_pointer, focus_window,
    hover_is_blocked, stacking_front_window, sync_keyboard_focus, update_hover,
    ClusterWorkspaceLayoutKind, CollapsedFocusStep, FocusOrigin, HoverFacts, HoverStep,
    HoverTarget, HoveredNode,
    KeyboardFocus, KeyboardFocusPlan, NodeFocusStep, StackMember, WindowFocusStep,
};
use halley_session::session::input::actions::FocusMode;
use halley_session::session::interaction::Grab;

fn hovering() -> HoverFacts {
    HoverFacts {
        focus_mode: FocusMode::Hover,
        pointer_grabbed: false,
        capture_active: false,
        apogee_active: false,
        focus_cycle_open: false,
        constrained: false,
        exclusive_layer: false,
    }
}

fn member(raw: u64, collapsed: bool) -> StackMember {
    StackMember {
        id: NodeId::new(raw),
        surface: SurfaceId::new(raw),
        attached: true,
        collapsed,
        floating: false,
        mapped: true,
    }
}

#[test]
fn the_front_card_of_a_stack_gets_the_focus() {
    let members = vec![member(1, true), member(2, false), member(3, false)];
    assert_eq!(
        stacking_front_window(ClusterWorkspaceLayoutKind::Stacking, true, false, &members),
        Some(SurfaceId::new(2))
    );
    assert_eq!(
        stacking_front_window(ClusterWorkspaceLayoutKind::Tiling, true, false, &members),
        None
    );
    assert_eq!(
        stacking_front_window(ClusterWorkspaceLayoutKind::Stacking, true, true, &members),
        None
    );
    assert_eq!(
        stacking_front_window(
            ClusterWorkspaceLayoutKind::Stacking,
            true,
            false,
            &vec![member(1, true)]
        ),
        None
    );
}

#[test]
fn a_window_is_focused_in_order() {
    assert_eq!(
        focus_window(FocusOrigin::Explicit, false, true, true),
        vec![
            WindowFocusStep::Focus { raise: true },
            WindowFocusStep::FocusNode,
            WindowFocusStep::RaiseX11,
            WindowFocusStep::SyncKeyboard,
        ]
    );
    assert_eq!(
        focus_window(FocusOrigin::Hover, true, true, false),
        vec![
            WindowFocusStep::Focus { raise: false },
            WindowFocusStep::SyncKeyboard,
        ]
    );
    assert!(focus_window(FocusOrigin::Pointer, true, false, true).is_empty());
}

#[test]
fn each_interaction_keeps_hover_from_changing_the_focus() {
    assert!(!hover_is_blocked(hovering(), &Grab::Idle));
    assert!(hover_is_blocked(
        hovering(),
        &Grab::Pan {
            output: "left".to_string()
        }
    ));
    for facts in [
        HoverFacts {
            pointer_grabbed: true,
            ..hovering()
        },
        HoverFacts {
            capture_active: true,
            ..hovering()
        },
        HoverFacts {
            apogee_active: true,
            ..hovering()
        },
        HoverFacts {
            focus_cycle_open: true,
            ..hovering()
        },
        HoverFacts {
            constrained: true,
            ..hovering()
        },
        HoverFacts {
            exclusive_layer: true,
            ..hovering()
        },
    ] {
        assert!(hover_is_blocked(facts, &Grab::Idle));
    }
}

#[test]
fn hovered_nodes_get_the_focus_once() {
    let node = HoveredNode {
        id: NodeId::new(4),
        collapsed: true,
        core: false,
    };
    let focused = [
        CollapsedFocusStep::SelectOutput,
        CollapsedFocusStep::ClearWindowFocus,
        CollapsedFocusStep::FocusNode(NodeId::new(4)),
        CollapsedFocusStep::SyncKeyboard,
        CollapsedFocusStep::Redraw,
    ];
    assert_eq!(
        focus_node_from_hover(hovering(), &Grab::Idle, None, node),
        focused
    );
    assert_eq!(
        focus_node_from_hover(hovering(), &Grab::Idle, Some(NodeId::new(4)), node),
        []
    );
    assert_eq!(
        focus_cluster_core_from_hover(hovering(), &Grab::Idle, None, node),
        []
    );
    assert_eq!(
        focus_cluster_core_from_hover(
            hovering(),
            &Grab::Idle,
            None,
            HoveredNode { core: true, ..node }
        ),
        focused
    );
    let clicking = HoverFacts {
        focus_mode: FocusMode::Click,
        ..hovering()
    };
    assert_eq!(
        focus_node_from_hover(clicking, &Grab::Idle, None, node),
        []
    );
    assert_eq!(focus_node_from_pointer(node), focused);
    assert_eq!(
        focus_node_from_pointer(HoveredNode {
            collapsed: false,
            ..node
        }),
        []
    );
}

#[test]
fn the_focus_follows_a_pointer_that_hovers() {
    let window = HoverTarget::Window {
        surface: Some(SurfaceId::new(1)),
        node: Some(NodeId::new(1)),
    };
    let here = (Some(SurfaceId::new(1)), Some(NodeId::new(1)));
    assert_eq!(
        update_hover(hovering(), &Grab::Idle, window, None, None),
        HoverStep::FocusWindow
    );
    assert_eq!(
        update_hover(hovering(), &Grab::Idle, window, here.0, here.1),
        HoverStep::SelectOutput
    );
    assert_eq!(
        update_hover(hovering(), &Grab::Idle, window, here.0, None),
        HoverStep::FocusWindow
    );
    let layer = |on_demand: bool, focused: bool| HoverTarget::Layer { on_demand, focused };
    assert_eq!(
        update_hover(hovering(), &Grab::Idle, layer(true, false), None, None),
        HoverStep::FocusLayer
    );
    assert_eq!(
        update_hover(hovering(), &Grab::Idle, layer(true, true), None, None),
        HoverStep::SelectOutput
    );
    assert_eq!(
        update_hover(hovering(), &Grab::Idle, layer(false, false), None, None),
        HoverStep::SelectOutput
    );
    assert_eq!(
        update_hover(
            HoverFacts {
                constrained: true,
                ..hovering()
            },
            &Grab::Idle,
            HoverTarget::Background,
            None,
            None
        ),
        HoverStep::Nothing
    );
}

#[test]
fn the_keyboard_belongs_to_the_lock_screen_first() {
    let window = SurfaceId::new(1);
    let layer = SurfaceId::new(2);
    let lock = SurfaceId::new(3);
    assert_eq!(
        sync_keyboard_focus(
            Some(Some(lock)),
            Some(window),
            true,
            Some(KeyboardFocus::Window(window))
        ),
        KeyboardFocusPlan {
            node: NodeFocusStep::Keep,
            target: Some(lock),
            constraint_root: None,
            reconcile: false,
        }
    );
    assert_eq!(
        sync_keyboard_focus(
            None,
            Some(window),
            false,
            Some(KeyboardFocus::Window(window))
        ),
        KeyboardFocusPlan {
            node: NodeFocusStep::FocusSurface(window),
            target: Some(window),
            constraint_root: Some(window),
            reconcile: true,
        }
    );
    assert_eq!(
        sync_keyboard_focus(
            None,
            Some(window),
            false,
            Some(KeyboardFocus::ExclusiveLayer(layer))
        ),
        KeyboardFocusPlan {
            node: NodeFocusStep::FocusSurface(window),
            target: Some(layer),
            constraint_root: None,
            reconcile: true,
        }
    );
    assert_eq!(
        sync_keyboard_focus(None, None, true, None),
        KeyboardFocusPlan {
            node: NodeFocusStep::Clear,
            target: None,
            constraint_root: None,
            reconcile: true,
        }
    );
}
