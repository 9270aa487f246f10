use halley_session::geometry::{Point, Rectangle, Size};
use halley_session::session::arrange::{
    squared_distance, visible_work_area_outer, window_size_is_accepted, SizePolicy,
};
use halley_session::session::assignment::{minimum_cost_assignment, INFEASIBLE_COST};
use halley_session::session::mosaic::{ceil_sqrt, mosaic_regions, split_axis};

fn rectangle(x: i32, y: i32, w: i32, h: i32) -> Rectangle {
    Rectangle::new(Point::new(x, y), Size::new(w, h))
}

#[test]
fn two_windows_fill_halves_with_gap() {
    let regions = mosaic_regions(rectangle(0, 0, 1000, 800), 2, 20).unwrap();
    assert_eq!(regions[0], rectangle(0, 0, 490, 800));
    assert_eq!(regions[1], rectangle(510, 0, 490, 800));
}

#[test]
fn three_windows_use_large_left_and_split_right() {
    let regions = mosaic_regions(rectangle(0, 0, 1000, 800), 3, 20).unwrap();
    assert_eq!(regions[0], rectangle(0, 0, 490, 800));
    assert_eq!(regions[1], rectangle(510, 0, 490, 390));
    assert_eq!(regions[2], rectangle(510, 410, 490, 390));
}

#[test]
fn five_windows_form_balanced_three_two_mosaic() {
    let regions = mosaic_regions(rectangle(0, 0, 1000, 800), 5, 20).unwrap();
    assert_eq!(regions.len(), 5);
    assert_eq!(regions[0].size.h, 390);
    assert_eq!(regions[2].loc.y, 0);
    assert_eq!(regions[3].loc.y, 410);
    assert_eq!(regions[3].size.w, 490);
    assert_eq!(regions[4].loc.x, 510);
}

#[test]
fn assignment_minimizes_total_window_travel() {
    let assignment =
        minimum_cost_assignment(&[vec![100, 1, 50], vec![1, 100, 50], vec![50, 50, 1]]);
    assert_eq!(assignment, vec![1, 0, 2]);
}

#[test]
fn assignment_can_avoid_infeasible_targets() {
    let impossible = INFEASIBLE_COST;
    let assignment = minimum_cost_assignment(&[vec![impossible, 1], vec![1, impossible]]);
    assert_eq!(assignment, vec![1, 0]);
}

#[test]
fn assignment_terminates_when_no_target_is_feasible() {
    let impossible = INFEASIBLE_COST;
    let mut assignment =
        minimum_cost_assignment(&[vec![impossible, impossible], vec![impossible, impossible]]);
    assignment.sort_unstable();
    assert_eq!(assignment, vec![0, 1]);
}

#[test]
fn a_single_window_and_a_narrow_area_make_no_mosaic() {
    assert!(mosaic_regions(rectangle(0, 0, 1000, 800), 1, 20).is_none());
    assert!(mosaic_regions(rectangle(0, 0, 20, 800), 2, 20).is_none());
}

#[test]
fn an_axis_is_split_into_nearly_equal_parts() {
    assert_eq!(split_axis(10, 100, 3, 5), Some(vec![(10, 30), (45, 30), (80, 30)]));
    assert_eq!(split_axis(0, 11, 2, 0), Some(vec![(0, 6), (6, 5)]));
}

#[test]
fn square_roots_are_rounded_up() {
    assert_eq!(ceil_sqrt(4), 2);
    assert_eq!(ceil_sqrt(5), 3);
    assert_eq!(ceil_sqrt(9), 3);
    assert_eq!(ceil_sqrt(10), 4);
}

#[test]
fn distances_stay_below_what_is_infeasible() {
    assert_eq!(squared_distance(Point::new(0, 0), Point::new(3, 4)), 25);
    assert!(
        squared_distance(
            Point::new(i32::MIN, i32::MIN),
            Point::new(i32::MAX, i32::MAX)
        ) < INFEASIBLE_COST
    );
}

#[test]
fn sizes_are_held_to_their_bounds() {
    let bounded = SizePolicy::Toplevel {
        min: Size::new(200, 0),
        max: Size::new(0, 400),
    };
    assert!(window_size_is_accepted(bounded, Size::new(200, 400)));
    assert!(!window_size_is_accepted(bounded, Size::new(199, 400)));
    assert!(!window_size_is_accepted(bounded, Size::new(200, 401)));
    assert!(!window_size_is_accepted(
        SizePolicy::Unsized,
        Size::new(10, 10)
    ));
    assert!(!window_size_is_accepted(
        SizePolicy::X11 {
            constrained: Size::new(90, 90)
        },
        Size::new(91, 90)
    ));
}

#[test]
fn a_work_area_has_an_extent() {
    assert_eq!(
        visible_work_area_outer(Point::new(-5, 10), Point::new(95, 60)),
        Some(rectangle(-5, 10, 100, 50))
    );
    assert_eq!(
        visible_work_area_outer(Point::new(i32::MIN, 0), Point::new(i32::MAX, 10)),
        None
    );
}

#[test]
fn a_mosaic_keeps_its_gaps_and_spans_the_field() {
    let outer = rectangle(-7, 11, 1003, 807);
    for count in 2..24 {
        let regions = mosaic_regions(outer, count, 9).unwrap();
        for (i, a) in regions.iter().enumerate() {
            for b in &regions[i + 1..] {
                assert!(
                    a.loc.x + a.size.w + 9 <= b.loc.x
                        || b.loc.x + b.size.w + 9 <= a.loc.x
                        || a.loc.y + a.size.h + 9 <= b.loc.y
                        || b.loc.y + b.size.h + 9 <= a.loc.y
                );
            }
        }
        assert_eq!(regions.iter().map(|r| r.loc.x).min(), Some(-7));
        assert_eq!(regions.iter().map(|r| r.loc.y).min(), Some(11));
        assert_eq!(regions.iter().map(|r| r.loc.x + r.size.w).max(), Some(996));
        assert_eq!(regions.iter().map(|r| r.loc.y + r.size.h).max(), Some(818));
    }
}
