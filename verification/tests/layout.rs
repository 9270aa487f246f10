use halley_session::geometry::{Point, Rectangle, Size};
use halley_session::ids::{ClusterId, NodeId};
use halley_session::shell::apogee::{Tile, TileKind};
use halley_session::shell::layout::{
    composer_order, layout_output, overview_outputs, stack_source, CoreSlot, OverviewOutput,
    WindowSlot,
};

fn output(name: &str, x: i32, y: i32) -> OverviewOutput {
    OverviewOutput {
        name: name.to_string(),
        geometry: Rectangle::new(Point::new(x, y), Size::new(100, 100)),
    }
}

fn target(x: i32) -> Rectangle {
    Rectangle::new(Point::new(x, 0), Size::new(10, 10))
}

#[test]
fn outputs_are_read_from_left_to_right() {
    assert_eq!(
        overview_outputs(&vec![
            output("c", 100, 0),
            output("b", 0, 50),
            output("b", 0, 0),
            output("a", 0, 0),
            output("b", 0, 0),
        ]),
        vec![3, 2, 4, 1, 0]
    );
    assert!(overview_outputs(&vec![]).is_empty());
}

#[test]
fn collapsed_windows_lie_below_all_others() {
    assert_eq!(stack_source(Some(3), Some(7), true), (3, 0));
    assert_eq!(stack_source(None, Some(7), false), (7, u64::MAX));
    assert_eq!(stack_source(None, None, false), (usize::MAX, u64::MAX));
}

#[test]
fn core_only_output_still_produces_an_apogee_layout() {
    let rail = |x: i32| Rectangle::new(Point::new(x, 101), Size::new(68, 68));
    let cores = vec![
        CoreSlot {
            cluster: ClusterId::new(1),
            core: NodeId::new(11),
            target: rail(870),
        },
        CoreSlot {
            cluster: ClusterId::new(2),
            core: NodeId::new(12),
            target: rail(982),
        },
    ];
    let tiles = layout_output("DP-1", &vec![], &cores);

    assert_eq!(tiles.len(), 2);
    assert_eq!(tiles[0].kind, TileKind::ClusterCore(ClusterId::new(1)));
    assert_eq!(tiles[1].kind, TileKind::ClusterCore(ClusterId::new(2)));
    assert!(tiles.iter().all(|tile| tile.target.loc.y < 236));
    assert_eq!(tiles[0].id, NodeId::new(11));
    assert_eq!(tiles[1].source_stack_order, 1);
    assert_eq!(tiles[1].target, rail(982));
}

#[test]
fn windows_come_before_the_cores_of_an_output() {
    let tiles: Vec<Tile> = layout_output(
        "left",
        &vec![WindowSlot {
            id: NodeId::new(1),
            stack_index: 4,
            stack_order: 0,
            target: target(5),
        }],
        &vec![CoreSlot {
            cluster: ClusterId::new(1),
            core: NodeId::new(10),
            target: target(0),
        }],
    );
    assert_eq!(tiles[0].kind, TileKind::Window);
    assert_eq!(tiles[0].output, "left");
    assert_eq!(tiles[0].source_stack_index, 4);
    assert_eq!(tiles[1].source_stack_index, usize::MAX);
    assert_eq!(tiles[1].source_stack_order, 0);
}

#[test]
fn composed_nodes_stand_in_the_order_of_their_identities() {
    assert_eq!(
        composer_order(&vec![NodeId::new(9), NodeId::new(2), NodeId::new(5)]),
        vec![1, 2, 0]
    );
}
