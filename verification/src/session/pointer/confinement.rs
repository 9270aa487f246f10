//! Projection of a pointer position into a confinement.

use vstd::prelude::*;

use crate::geometry::Point;
use crate::geometry::Rectangle;
use crate::geometry::Size;
use crate::region::allows;
use crate::region::covers;
use crate::region::region_allows;
use crate::region::Region;

verus! {

/// A pixel of the surface that both regions allow.
pub open spec fn allowed(
    point: Point,
    size: Size,
    region: Option<&Region>,
    input_region: Option<&Region>,
) -> bool {
    &&& 0 <= point.x < size.w
    &&& 0 <= point.y < size.h
    &&& region_allows(region, point)
    &&& region_allows(input_region, point)
}

/// The coordinate nearest to `x` in a surface of `length` pixels.
pub open spec fn held(x: int, length: int) -> int {
    if x < 0 {
        0
    } else if x > length - 1 {
        length - 1
    } else {
        x
    }
}

/// `value` lies one short of, on, or at either side of the far edge of a segment.
pub open spec fn at_edge(start: int, length: int, value: int) -> bool {
    value == start - 1 || value == start || value == start + length - 1 || value == start + length
}

/// Horizontal edges of a region, held in the surface.
pub open spec fn edge_x(region: Option<&Region>, width: int, x: int) -> bool {
    match region {
        Some(region) => exists|i: int, e: int|
            #![trigger region.rects@[i], held(e, width)]
            0 <= i < region.rects@.len() && at_edge(
                region.rects@[i].1.loc.x as int,
                region.rects@[i].1.size.w as int,
                e,
            ) && x == held(e, width),
        None => false,
    }
}

/// Vertical edges of a region, held in the surface.
pub open spec fn edge_y(region: Option<&Region>, height: int, y: int) -> bool {
    match region {
        Some(region) => exists|i: int, e: int|
            #![trigger region.rects@[i], held(e, height)]
            0 <= i < region.rects@.len() && at_edge(
                region.rects@[i].1.loc.y as int,
                region.rects@[i].1.size.h as int,
                e,
            ) && y == held(e, height),
        None => false,
    }
}

/// A column of the lattice: an edge of the surface or of a region, or the column
/// next to the wanted position.
pub open spec fn lattice_x(
    rounded: Point,
    size: Size,
    region: Option<&Region>,
    input_region: Option<&Region>,
    x: int,
) -> bool {
    ||| x == 0
    ||| x == size.w - 1
    ||| x == held(rounded.x as int, size.w as int)
    ||| edge_x(region, size.w as int, x)
    ||| edge_x(input_region, size.w as int, x)
}

/// A row of the lattice.
pub open spec fn lattice_y(
    rounded: Point,
    size: Size,
    region: Option<&Region>,
    input_region: Option<&Region>,
    y: int,
) -> bool {
    ||| y == 0
    ||| y == size.h - 1
    ||| y == held(rounded.y as int, size.h as int)
    ||| edge_y(region, size.h as int, y)
    ||| edge_y(input_region, size.h as int, y)
}

/// The edges of a rectangle, and the pixels beside them, are representable.
pub open spec fn rect_in_range(rect: Rectangle) -> bool {
    &&& i32::MIN < rect.loc.x
    &&& i32::MIN < rect.loc.y
    &&& i32::MIN < rect.loc.x + rect.size.w <= i32::MAX
    &&& i32::MIN < rect.loc.y + rect.size.h <= i32::MAX
}

/// The edges of every rectangle of a region are representable.
pub open spec fn edges_in_range(region: Option<&Region>) -> bool {
    match region {
        Some(region) => forall|i: int|
            #![trigger region.rects@[i]]
            0 <= i < region.rects@.len() ==> rect_in_range(region.rects@[i].1),
        None => true,
    }
}

/// In increasing order, without repetition.
pub open spec fn increasing(values: Seq<i32>) -> bool {
    forall|i: int, j: int| 0 <= i < j < values.len() ==> #[trigger] values[i] < #[trigger] values[j]
}

/// Adds a value to an increasing list unless it is there.
fn insert_value(values: &mut Vec<i32>, value: i32)
    requires
        increasing(old(values)@),
    ensures
        increasing(final(values)@),
        forall|x: i32|
            #[trigger] final(values)@.contains(x) <==> old(values)@.contains(x) || x == value,
{
    let mut index: usize = 0;
    while index < values.len() && values[index] < value
        invariant
            index <= values@.len(),
            values@ == old(values)@,
            forall|i: int| 0 <= i < index ==> #[trigger] values@[i] < value,
        decreases values@.len() - index,
    {
        index += 1;
    }
    if index < values.len() && values[index] == value {
        assert(values@[index as int] == value);
        return;
    }
    let ghost before = values@;
    values.insert(index, value);
    let ghost after = values@;
    assert(after[index as int] == value);
    assert forall|x: i32| #[trigger] after.contains(x) <==> before.contains(x) || x == value by {
        if before.contains(x) {
            let i = choose|i: int| 0 <= i < before.len() && before[i] == x;
            if i < index {
                assert(after[i] == x);
            } else {
                assert(after[i + 1] == x);
            }
        }
        if after.contains(x) && x != value {
            let i = choose|i: int| 0 <= i < after.len() && after[i] == x;
            if i < index {
                assert(before[i] == x);
            } else {
                assert(before[i - 1] == x);
            }
        }
    }
}

fn hold(x: i32, length: i32) -> (r: i32)
    requires
        length > 0,
    ensures
        r == held(x as int, length as int),
        0 <= r < length,
{
    if x < 0 {
        0
    } else if x > length - 1 {
        length - 1
    } else {
        x
    }
}

/// Adds the edges of one segment, held in the surface.
fn insert_edges(values: &mut Vec<i32>, start: i32, length: i32, limit: i32)
    requires
        increasing(old(values)@),
        limit > 0,
        i32::MIN < start,
        i32::MIN < start + length <= i32::MAX,
    ensures
        increasing(final(values)@),
        forall|x: i32|
            #[trigger] final(values)@.contains(x) <==> old(values)@.contains(x) || (exists|e: int|
                at_edge(start as int, length as int, e) && x == #[trigger] held(e, limit as int)),
{
    insert_value(values, hold(start - 1, limit));
    insert_value(values, hold(start, limit));
    insert_value(values, hold(start + length - 1, limit));
    insert_value(values, hold(start + length, limit));
    assert forall|x: i32| #[trigger] values@.contains(x) <==> old(values)@.contains(x) || (
    exists|e: int|
        at_edge(start as int, length as int, e) && x == #[trigger] held(e, limit as int)) by {
        if values@.contains(x) && !old(values)@.contains(x) {
            if x == held(start - 1, limit as int) {
                assert(at_edge(start as int, length as int, start - 1));
            } else if x == held(start as int, limit as int) {
                assert(at_edge(start as int, length as int, start as int));
            } else if x == held(start + length - 1, limit as int) {
                assert(at_edge(start as int, length as int, start + length - 1));
            } else {
                assert(x == held(start + length, limit as int));
                assert(at_edge(start as int, length as int, start + length));
            }
        }
    }
}

/// Adds the edges of a region's first `count` rectangles along one axis.
spec fn first_edges_x(region: Region, count: int, width: int, x: int) -> bool {
    exists|i: int, e: int|
        #![trigger region.rects@[i], held(e, width)]
        0 <= i < count && at_edge(
            region.rects@[i].1.loc.x as int,
            region.rects@[i].1.size.w as int,
            e,
        ) && x == held(e, width)
}

spec fn first_edges_y(region: Region, count: int, height: int, y: int) -> bool {
    exists|i: int, e: int|
        #![trigger region.rects@[i], held(e, height)]
        0 <= i < count && at_edge(
            region.rects@[i].1.loc.y as int,
            region.rects@[i].1.size.h as int,
            e,
        ) && y == held(e, height)
}

/// Adds the edges of a region, where there is one, to the columns and rows.
fn insert_region(xs: &mut Vec<i32>, ys: &mut Vec<i32>, size: Size, region: Option<&Region>)
    requires
        increasing(old(xs)@),
        increasing(old(ys)@),
        size.w > 0,
        size.h > 0,
        edges_in_range(region),
    ensures
        increasing(final(xs)@),
        increasing(final(ys)@),
        forall|x: i32|
            #[trigger] final(xs)@.contains(x) <==> old(xs)@.contains(x) || edge_x(
                region,
                size.w as int,
                x as int,
            ),
        forall|y: i32|
            #[trigger] final(ys)@.contains(y) <==> old(ys)@.contains(y) || edge_y(
                region,
                size.h as int,
                y as int,
            ),
{
    let shape: &Region = match region {
        Some(shape) => shape,
        None => {
            return;
        },
    };
    let ghost xs0 = xs@;
    let ghost ys0 = ys@;
    let mut index: usize = 0;
    while index < shape.rects.len()
        invariant
            index <= shape.rects@.len(),
            size.w > 0,
            size.h > 0,
            edges_in_range(region),
            region == Some(shape),
            increasing(xs@),
            increasing(ys@),
            forall|x: i32|
                #[trigger] xs@.contains(x) <==> xs0.contains(x) || first_edges_x(
                    *shape,
                    index as int,
                    size.w as int,
                    x as int,
                ),
            forall|y: i32|
                #[trigger] ys@.contains(y) <==> ys0.contains(y) || first_edges_y(
                    *shape,
                    index as int,
                    size.h as int,
                    y as int,
                ),
        decreases shape.rects@.len() - index,
    {
        let ghost xs1 = xs@;
        let ghost ys1 = ys@;
        let rect = shape.rects[index].1;
        assert(region->0 == shape);
        assert(rect_in_range(region->0.rects@[index as int].1));
        insert_edges(xs, rect.loc.x, rect.size.w, size.w);
        insert_edges(ys, rect.loc.y, rect.size.h, size.h);
        assert forall|x: i32| #[trigger] xs@.contains(x) <==> xs0.contains(x) || first_edges_x(
            *shape,
            index + 1,
            size.w as int,
            x as int,
        ) by {
            let w = size.w as int;
            if xs@.contains(x) && !xs1.contains(x) {
                let e = choose|e: int|
                    at_edge(rect.loc.x as int, rect.size.w as int, e) && x == #[trigger] held(e, w);
                assert(shape.rects@[index as int].1 == rect);
                assert(first_edges_x(*shape, index + 1, w, x as int));
            }
            if first_edges_x(*shape, index + 1, w, x as int) {
                let (i, e) = choose|i: int, e: int|
                    #![trigger shape.rects@[i], held(e, w)]
                    0 <= i < index + 1 && at_edge(
                        shape.rects@[i].1.loc.x as int,
                        shape.rects@[i].1.size.w as int,
                        e,
                    ) && x == held(e, w);
                if i < index {
                    assert(shape.rects@[i] == shape.rects@[i]);
                    assert(first_edges_x(*shape, index as int, w, x as int));
                    assert(xs1.contains(x));
                }
            }
        }
        assert forall|y: i32| #[trigger] ys@.contains(y) <==> ys0.contains(y) || first_edges_y(
            *shape,
            index + 1,
            size.h as int,
            y as int,
        ) by {
            let h = size.h as int;
            if ys@.contains(y) && !ys1.contains(y) {
                let e = choose|e: int|
                    at_edge(rect.loc.y as int, rect.size.h as int, e) && y == #[trigger] held(e, h);
                assert(shape.rects@[index as int].1 == rect);
                assert(first_edges_y(*shape, index + 1, h, y as int));
            }
            if first_edges_y(*shape, index + 1, h, y as int) {
                let (i, e) = choose|i: int, e: int|
                    #![trigger shape.rects@[i], held(e, h)]
                    0 <= i < index + 1 && at_edge(
                        shape.rects@[i].1.loc.y as int,
                        shape.rects@[i].1.size.h as int,
                        e,
                    ) && y == held(e, h);
                if i < index {
                    assert(shape.rects@[i] == shape.rects@[i]);
                    assert(first_edges_y(*shape, index as int, h, y as int));
                    assert(ys1.contains(y));
                }
            }
        }
        index += 1;
    }
}

/// `a` comes before `b`: in an earlier column, or above it in the same one.
pub open spec fn before(a: Point, b: Point) -> bool {
    a.x < b.x || (a.x == b.x && a.y < b.y)
}

/// A point of the lattice that may hold the pointer.
pub open spec fn is_candidate_point(
    point: Point,
    rounded: Point,
    size: Size,
    region: Option<&Region>,
    input_region: Option<&Region>,
) -> bool {
    &&& lattice_x(rounded, size, region, input_region, point.x as int)
    &&& lattice_y(rounded, size, region, input_region, point.y as int)
    &&& allowed(point, size, region, input_region)
}

/// `points` are all points of the lattice that may hold the pointer, column by
/// column.
pub open spec fn is_lattice(
    points: Seq<Point>,
    rounded: Point,
    size: Size,
    region: Option<&Region>,
    input_region: Option<&Region>,
) -> bool {
    &&& forall|i: int, j: int|
        0 <= i < j < points.len() ==> before(#[trigger] points[i], #[trigger] points[j])
    &&& forall|point: Point|
        #[trigger] points.contains(point) <==> is_candidate_point(
            point,
            rounded,
            size,
            region,
            input_region,
        )
}

/// The pixels of the lattice that may hold the pointer, column by column.
fn lattice_points(
    rounded: Point,
    size: Size,
    region: Option<&Region>,
    input_region: Option<&Region>,
) -> (points: Vec<Point>)
    requires
        size.w > 0,
        size.h > 0,
        edges_in_range(region),
        edges_in_range(input_region),
    ensures
        is_lattice(points@, rounded, size, region, input_region),
{
    let mut xs: Vec<i32> = Vec::new();
    let mut ys: Vec<i32> = Vec::new();
    insert_value(&mut xs, 0);
    insert_value(&mut xs, size.w - 1);
    insert_value(&mut xs, hold(rounded.x, size.w));
    insert_value(&mut ys, 0);
    insert_value(&mut ys, size.h - 1);
    insert_value(&mut ys, hold(rounded.y, size.h));
    insert_region(&mut xs, &mut ys, size, region);
    insert_region(&mut xs, &mut ys, size, input_region);
    assert forall|x: i32| #[trigger] xs@.contains(x) <==> lattice_x(
        rounded,
        size,
        region,
        input_region,
        x as int,
    ) by {}
    assert forall|y: i32| #[trigger] ys@.contains(y) <==> lattice_y(
        rounded,
        size,
        region,
        input_region,
        y as int,
    ) by {}
    let mut points: Vec<Point> = Vec::new();
    let mut i: usize = 0;
    while i < xs.len()
        invariant
            i <= xs@.len(),
            increasing(xs@),
            increasing(ys@),
            forall|a: int, b: int|
                0 <= a < b < points@.len() ==> before(#[trigger] points@[a], #[trigger] points@[b]),
            forall|a: int|
                0 <= a < points@.len() ==> is_collected(
                    #[trigger] points@[a],
                    xs@,
                    ys@,
                    i as int,
                    0,
                    size,
                    region,
                    input_region,
                ),
            forall|point: Point|
                is_collected(
                    point,
                    xs@,
                    ys@,
                    i as int,
                    0,
                    size,
                    region,
                    input_region,
                ) ==> #[trigger] points@.contains(point),
        decreases xs@.len() - i,
    {
        let mut j: usize = 0;
        while j < ys.len()
            invariant
                i < xs@.len(),
                j <= ys@.len(),
                increasing(xs@),
                increasing(ys@),
                forall|a: int, b: int|
                    0 <= a < b < points@.len() ==> before(
                        #[trigger] points@[a],
                        #[trigger] points@[b],
                    ),
                forall|a: int|
                    0 <= a < points@.len() ==> is_collected(
                        #[trigger] points@[a],
                        xs@,
                        ys@,
                        i as int,
                        j as int,
                        size,
                        region,
                        input_region,
                    ),
                forall|point: Point|
                    is_collected(
                        point,
                        xs@,
                        ys@,
                        i as int,
                        j as int,
                        size,
                        region,
                        input_region,
                    ) ==> #[trigger] points@.contains(point),
            decreases ys@.len() - j,
        {
            let point = Point::new(xs[i], ys[j]);
            let ghost points0 = points@;
            let inside = Rectangle::from_size(size).contains(point) && allows(region, point)
                && allows(input_region, point);
            assert(inside == allowed(point, size, region, input_region));
            if inside {
                assert forall|a: int| 0 <= a < points0.len() implies before(
                    #[trigger] points0[a],
                    point,
                ) by {
                    assert(is_collected(
                        points0[a],
                        xs@,
                        ys@,
                        i as int,
                        j as int,
                        size,
                        region,
                        input_region,
                    ));
                }
                points.push(point);
            }
            assert forall|a: int| 0 <= a < points@.len() implies is_collected(
                #[trigger] points@[a],
                xs@,
                ys@,
                i as int,
                j + 1,
                size,
                region,
                input_region,
            ) by {
                if a < points0.len() {
                    assert(points@[a] == points0[a]);
                    lemma_collected_grows(
                        points0[a],
                        xs@,
                        ys@,
                        i as int,
                        j as int,
                        size,
                        region,
                        input_region,
                    );
                } else {
                    assert(xs@[i as int] == point.x && ys@[j as int] == point.y);
                    assert(is_cell_of(point, xs@, ys@, i as int, j as int));
                }
            }
            assert forall|other: Point|
                is_collected(
                    other,
                    xs@,
                    ys@,
                    i as int,
                    j + 1,
                    size,
                    region,
                    input_region,
                ) implies #[trigger] points@.contains(other) by {
                if other == point {
                    assert(points@[points0.len() as int] == point);
                } else {
                    lemma_collected_last(
                        other,
                        point,
                        xs@,
                        ys@,
                        i as int,
                        j as int,
                        size,
                        region,
                        input_region,
                    );
                    assert(points0.contains(other));
                    let k = choose|k: int| 0 <= k < points0.len() && points0[k] == other;
                    assert(points@[k] == other);
                }
            }
            j += 1;
        }
        assert forall|a: int| 0 <= a < points@.len() implies is_collected(
            #[trigger] points@[a],
            xs@,
            ys@,
            i + 1,
            0,
            size,
            region,
            input_region,
        ) by {
            lemma_collected_row(
                points@[a],
                xs@,
                ys@,
                i as int,
                size,
                region,
                input_region,
            );
        }
        assert forall|other: Point|
            is_collected(other, xs@, ys@, i + 1, 0, size, region, input_region)
                implies #[trigger] points@.contains(other) by {
            lemma_collected_row(other, xs@, ys@, i as int, size, region, input_region);
        }
        i += 1;
    }
    assert forall|point: Point| #[trigger] points@.contains(point) <==> is_candidate_point(
        point,
        rounded,
        size,
        region,
        input_region,
    ) by {
        if points@.contains(point) {
            let k = choose|k: int| 0 <= k < points@.len() && points@[k] == point;
            assert(is_collected(
                points@[k],
                xs@,
                ys@,
                xs@.len() as int,
                0,
                size,
                region,
                input_region,
            ));
            let (a, b) = choose|a: int, b: int|
                #[trigger] is_cell_of(point, xs@, ys@, a, b) && (a < xs@.len() || (a == xs@.len()
                    && b < 0));
            assert(xs@[a] == point.x && ys@[b] == point.y);
            assert(xs@.contains(point.x) && ys@.contains(point.y));
        }
        if is_candidate_point(point, rounded, size, region, input_region) {
            assert(xs@.contains(point.x) && ys@.contains(point.y));
            let a = choose|a: int| 0 <= a < xs@.len() && xs@[a] == point.x;
            let b = choose|b: int| 0 <= b < ys@.len() && ys@[b] == point.y;
            assert(is_cell_of(point, xs@, ys@, a, b));
            assert(is_collected(
                point,
                xs@,
                ys@,
                xs@.len() as int,
                0,
                size,
                region,
                input_region,
            ));
        }
    }
    points
}

spec fn is_cell_of(point: Point, xs: Seq<i32>, ys: Seq<i32>, a: int, b: int) -> bool {
    0 <= a < xs.len() && 0 <= b < ys.len() && point.x == xs[a] && point.y == ys[b]
}

/// An allowed cell of the columns before `i`, or of column `i` above row `j`.
spec fn is_collected(
    point: Point,
    xs: Seq<i32>,
    ys: Seq<i32>,
    i: int,
    j: int,
    size: Size,
    region: Option<&Region>,
    input_region: Option<&Region>,
) -> bool {
    &&& allowed(point, size, region, input_region)
    &&& exists|a: int, b: int| #[trigger]
        is_cell_of(point, xs, ys, a, b) && (a < i || (a == i && b < j))
}

proof fn lemma_collected_grows(
    point: Point,
    xs: Seq<i32>,
    ys: Seq<i32>,
    i: int,
    j: int,
    size: Size,
    region: Option<&Region>,
    input_region: Option<&Region>,
)
    requires
        is_collected(point, xs, ys, i, j, size, region, input_region),
    ensures
        is_collected(point, xs, ys, i, j + 1, size, region, input_region),
{
    let (a, b) = choose|a: int, b: int| #[trigger]
        is_cell_of(point, xs, ys, a, b) && (a < i || (a == i && b < j));
    assert(is_cell_of(point, xs, ys, a, b));
}

proof fn lemma_collected_last(
    other: Point,
    point: Point,
    xs: Seq<i32>,
    ys: Seq<i32>,
    i: int,
    j: int,
    size: Size,
    region: Option<&Region>,
    input_region: Option<&Region>,
)
    requires
        is_collected(other, xs, ys, i, j + 1, size, region, input_region),
        is_cell_of(point, xs, ys, i, j),
        other != point,
    ensures
        is_collected(other, xs, ys, i, j, size, region, input_region),
{
    let (a, b) = choose|a: int, b: int| #[trigger]
        is_cell_of(other, xs, ys, a, b) && (a < i || (a == i && b < j + 1));
    assert(is_cell_of(other, xs, ys, a, b));
    assert(!(a == i && b == j));
}

proof fn lemma_collected_row(
    point: Point,
    xs: Seq<i32>,
    ys: Seq<i32>,
    i: int,
    size: Size,
    region: Option<&Region>,
    input_region: Option<&Region>,
)
    ensures
        is_collected(point, xs, ys, i, ys.len() as int, size, region, input_region)
            == is_collected(point, xs, ys, i + 1, 0, size, region, input_region),
{
    if is_collected(point, xs, ys, i, ys.len() as int, size, region, input_region) {
        let (a, b) = choose|a: int, b: int| #[trigger]
            is_cell_of(point, xs, ys, a, b) && (a < i || (a == i && b < ys.len()));
        assert(is_cell_of(point, xs, ys, a, b));
    }
    if is_collected(point, xs, ys, i + 1, 0, size, region, input_region) {
        let (a, b) = choose|a: int, b: int| #[trigger]
            is_cell_of(point, xs, ys, a, b) && (a < i + 1 || (a == i + 1 && b < 0));
        assert(is_cell_of(point, xs, ys, a, b));
    }
}

/// Where a wanted position ends up in a confinement.
#[derive(Debug)]
pub enum Projection {
    /// The surface has no pixel.
    Nowhere,
    /// The position is allowed as it is.
    Unchanged,
    /// Each coordinate is held in the surface on its own.
    PerAxis,
    /// The nearest of these pixels.
    Lattice(Vec<Point>),
}

/// Projects a position onto the pixels that a confinement allows: an allowed one
/// stays, any other goes to the nearest point of the lattice. `pixel` holds the
/// position, `rounded` is the pixel corner nearest to it.
pub fn nearest_valid_point(
    pixel: Point,
    rounded: Point,
    size: Size,
    region: Option<&Region>,
    input_region: Option<&Region>,
) -> (projection: Projection)
    requires
        edges_in_range(region),
        edges_in_range(input_region),
    ensures
        size.w <= 0 || size.h <= 0 <==> projection is Nowhere,
        size.w > 0 && size.h > 0 ==> {
            &&& projection is Unchanged <==> allowed(pixel, size, region, input_region)
            &&& !allowed(pixel, size, region, input_region) ==> (projection matches
                Projection::Lattice(points) && is_lattice(
                points@,
                rounded,
                size,
                region,
                input_region,
            ))
        },
{
    if size.w <= 0 || size.h <= 0 {
        return Projection::Nowhere;
    }
    if Rectangle::from_size(size).contains_pixel(pixel) && allows(region, pixel) && allows(
        input_region,
        pixel,
    ) {
        return Projection::Unchanged;
    }
    Projection::Lattice(lattice_points(rounded, size, region, input_region))
}

/// The pixel of the surface nearest to `pixel`.
pub open spec fn held_pixel(pixel: Point, size: Size) -> Point {
    Point {
        x: held(pixel.x as int, size.w as int) as i32,
        y: held(pixel.y as int, size.h as int) as i32,
    }
}

/// Projects a position back into a confinement. Pushing the pointer against an edge
/// keeps its way along the edge: each coordinate is held in the surface on its own
/// wherever the regions allow that, and only otherwise the lattice is used.
pub fn clamp_into_constraint(
    pixel: Point,
    rounded: Point,
    size: Size,
    region: Option<&Region>,
    input_region: Option<&Region>,
) -> (projection: Projection)
    requires
        edges_in_range(region),
        edges_in_range(input_region),
    ensures
        size.w <= 0 || size.h <= 0 <==> projection is Nowhere,
        size.w > 0 && size.h > 0 ==> {
            let within = allowed(held_pixel(pixel, size), size, region, input_region);
            &&& projection is PerAxis <==> within
            &&& !within ==> (projection matches Projection::Lattice(points) && is_lattice(
                points@,
                rounded,
                size,
                region,
                input_region,
            ))
        },
{
    if size.w <= 0 || size.h <= 0 {
        return Projection::Nowhere;
    }
    let clamped = Point::new(hold(pixel.x, size.w), hold(pixel.y, size.h));
    if allows(region, clamped) && allows(input_region, clamped) {
        return Projection::PerAxis;
    }
    nearest_valid_point(pixel, rounded, size, region, input_region)
}

/// Point `k` is the first that no other one is nearer than.
pub open spec fn is_nearest(keys: Seq<u128>, k: int) -> bool {
    &&& 0 <= k < keys.len()
    &&& forall|i: int| 0 <= i < keys.len() ==> keys[k] <= #[trigger] keys[i]
    &&& forall|i: int| 0 <= i < k ==> keys[k] < #[trigger] keys[i]
}

/// The first point with the least distance. `keys` order the points by their
/// distance.
pub fn nearest_by_key(points: &Vec<Point>, keys: &Vec<u128>) -> (nearest: Option<Point>)
    requires
        keys@.len() == points@.len(),
    ensures
        nearest is Some <==> points@.len() > 0,
        nearest matches Some(point) ==> exists|k: int| #[trigger]
            is_nearest(keys@, k) && points@[k] == point,
{
    if points.len() == 0 {
        return None;
    }
    let mut best: usize = 0;
    let mut index: usize = 1;
    while index < points.len()
        invariant
            keys@.len() == points@.len(),
            best < index <= points@.len(),
            forall|i: int| 0 <= i < index ==> keys@[best as int] <= #[trigger] keys@[i],
            forall|i: int| 0 <= i < best ==> keys@[best as int] < #[trigger] keys@[i],
        decreases points@.len() - index,
    {
        if keys[index] < keys[best] {
            best = index;
        }
        index += 1;
    }
    assert(is_nearest(keys@, best as int));
    Some(points[best])
}

/// Squared distance of two pixels.
pub open spec fn squared(a: Point, b: Point) -> int {
    (a.x - b.x) * (a.x - b.x) + (a.y - b.y) * (a.y - b.y)
}

/// The first of `points` that is nearest to a whole pixel.
pub fn nearest_pixel(points: &Vec<Point>, wanted: Point) -> (nearest: Option<Point>)
    ensures
        nearest is Some <==> points@.len() > 0,
        nearest matches Some(point) ==> exists|k: int|
            0 <= k < points@.len() && #[trigger] points@[k] == point && (forall|i: int|
                0 <= i < points@.len() ==> squared(point, wanted) <= squared(
                    #[trigger] points@[i],
                    wanted,
                )) && (forall|i: int|
                0 <= i < k ==> squared(point, wanted) < squared(#[trigger] points@[i], wanted)),
{
    let mut keys: Vec<u128> = Vec::new();
    let mut index: usize = 0;
    while index < points.len()
        invariant
            index <= points@.len(),
            keys@.len() == index,
            forall|i: int| 0 <= i < index ==> #[trigger] keys@[i] == squared(points@[i], wanted),
        decreases points@.len() - index,
    {
        let dx: i128 = points[index].x as i128 - wanted.x as i128;
        let dy: i128 = points[index].y as i128 - wanted.y as i128;
        assert(0 <= dx * dx <= 0x1_0000_0000 * 0x1_0000_0000) by (nonlinear_arith)
            requires
                -0x1_0000_0000 <= dx <= 0x1_0000_0000,
        ;
        assert(0 <= dy * dy <= 0x1_0000_0000 * 0x1_0000_0000) by (nonlinear_arith)
            requires
                -0x1_0000_0000 <= dy <= 0x1_0000_0000,
        ;
        let distance: i128 = dx * dx + dy * dy;
        keys.push(distance as u128);
        index += 1;
    }
    let nearest = nearest_by_key(points, &keys);
    proof {
        if points@.len() > 0 {
            let k = choose|k: int| #[trigger]
                is_nearest(keys@, k) && points@[k] == nearest->0;
            assert(points@[k] == nearest->0);
            assert forall|i: int| 0 <= i < points@.len() implies squared(nearest->0, wanted)
                <= squared(#[trigger] points@[i], wanted) by {
                assert(keys@[k] <= keys@[i]);
            }
            assert forall|i: int| 0 <= i < k implies squared(nearest->0, wanted) < squared(
                #[trigger] points@[i],
                wanted,
            ) by {
                assert(keys@[k] < keys@[i]);
            }
        }
    }
    nearest
}

/// A projection ends up on an allowed pixel, whichever pixel of the lattice is
/// nearest.
pub proof fn lattice_is_allowed(
    points: Seq<Point>,
    k: int,
    rounded: Point,
    size: Size,
    region: Option<&Region>,
    input_region: Option<&Region>,
)
    requires
        is_lattice(points, rounded, size, region, input_region),
        0 <= k < points.len(),
    ensures
        allowed(points[k], size, region, input_region),
{
    assert(points.contains(points[k]));
}

/// Whether a surface that has the focus can be constrained with the pointer where it is:
/// the pointer is over a pixel that both regions allow.
pub fn prepare_candidate(
    focused: bool,
    pixel: Option<Point>,
    size: Size,
    region: Option<&Region>,
    input_region: Option<&Region>,
) -> (fits: bool)
    ensures
        fits == (focused && pixel is Some && allowed(pixel->0, size, region, input_region)),
{
    match pixel {
        Some(pixel) => focused && Rectangle::from_size(size).contains_pixel(pixel) && allows(
            region,
            pixel,
        ) && allows(input_region, pixel),
        None => false,
    }
}

/// A pointer that is where it may be is not moved by its confinement.
pub proof fn allowed_positions_stay(
    pixel: Point,
    size: Size,
    region: Option<&Region>,
    input_region: Option<&Region>,
)
    requires
        allowed(pixel, size, region, input_region),
    ensures
        held_pixel(pixel, size) == pixel,
{
}

/// What a region covers may change from column `e - 1` to column `e`.
spec fn turns_x(region: Option<&Region>, e: int) -> bool {
    match region {
        Some(region) => exists|i: int|
            #![trigger region.rects@[i]]
            0 <= i < region.rects@.len() && (e == region.rects@[i].1.loc.x || e
                == region.rects@[i].1.loc.x + region.rects@[i].1.size.w),
        None => false,
    }
}

/// What a region covers may change from row `e - 1` to row `e`.
spec fn turns_y(region: Option<&Region>, e: int) -> bool {
    match region {
        Some(region) => exists|i: int|
            #![trigger region.rects@[i]]
            0 <= i < region.rects@.len() && (e == region.rects@[i].1.loc.y || e
                == region.rects@[i].1.loc.y + region.rects@[i].1.size.h),
        None => false,
    }
}

proof fn lemma_covers_beside(region: Option<&Region>, count: nat, a: Point, b: Point)
    requires
        region is Some,
        count <= region->0.rects@.len(),
        edges_in_range(region),
        a.y == b.y && b.x == a.x + 1 && !turns_x(region, b.x as int) || a.x == b.x && b.y == a.y
            + 1 && !turns_y(region, b.y as int),
    ensures
        covers(region->0.rects@, count, a) == covers(region->0.rects@, count, b),
    decreases count,
{
    if count > 0 {
        lemma_covers_beside(region, (count - 1) as nat, a, b);
        let rect = region->0.rects@[count - 1].1;
        assert(rect_in_range(rect));
        assert(rect.spec_contains(a) == rect.spec_contains(b));
    }
}

proof fn lemma_allows_beside(region: Option<&Region>, a: Point, b: Point)
    requires
        edges_in_range(region),
        a.y == b.y && b.x == a.x + 1 && !turns_x(region, b.x as int) || a.x == b.x && b.y == a.y
            + 1 && !turns_y(region, b.y as int),
    ensures
        region_allows(region, a) == region_allows(region, b),
{
    if region is Some {
        lemma_covers_beside(region, region->0.rects@.len(), a, b);
    }
}

proof fn lemma_turn_is_edge(region: Option<&Region>, length: int, e: int)
    ensures
        turns_x(region, e) && 0 <= e < length ==> edge_x(region, length, e),
        turns_x(region, e) && 0 <= e - 1 < length ==> edge_x(region, length, e - 1),
        turns_y(region, e) && 0 <= e < length ==> edge_y(region, length, e),
        turns_y(region, e) && 0 <= e - 1 < length ==> edge_y(region, length, e - 1),
{
    assert(0 <= e < length ==> held(e, length) == e);
    assert(0 <= e - 1 < length ==> held(e - 1, length) == e - 1);
}

/// A column of the lattice between a pixel and the wanted position, in which the pixel
/// stays allowed.
proof fn column_towards(
    point: Point,
    rounded: Point,
    size: Size,
    region: Option<&Region>,
    input_region: Option<&Region>,
) -> (column: i32)
    requires
        allowed(point, size, region, input_region),
        edges_in_range(region),
        edges_in_range(input_region),
    ensures
        lattice_x(rounded, size, region, input_region, column as int),
        allowed(Point { x: column, y: point.y }, size, region, input_region),
        point.x <= column <= rounded.x || rounded.x <= column <= point.x,
    decreases
            (if point.x < rounded.x {
                rounded.x - point.x
            } else {
                point.x - rounded.x
            }),
{
    let x = point.x as int;
    let width = size.w as int;
    lemma_turn_is_edge(region, width, x);
    lemma_turn_is_edge(region, width, x + 1);
    lemma_turn_is_edge(input_region, width, x);
    lemma_turn_is_edge(input_region, width, x + 1);
    if x == rounded.x || x == held(rounded.x as int, width) {
        point.x
    } else if x < rounded.x {
        let next = Point { x: (x + 1) as i32, y: point.y };
        if turns_x(region, x + 1) || turns_x(input_region, x + 1) {
            point.x
        } else {
            lemma_allows_beside(region, point, next);
            lemma_allows_beside(input_region, point, next);
            column_towards(next, rounded, size, region, input_region)
        }
    } else {
        let next = Point { x: (x - 1) as i32, y: point.y };
        if turns_x(region, x) || turns_x(input_region, x) {
            point.x
        } else {
            lemma_allows_beside(region, next, point);
            lemma_allows_beside(input_region, next, point);
            column_towards(next, rounded, size, region, input_region)
        }
    }
}

/// A row of the lattice between a pixel and the wanted position, in which the pixel stays
/// allowed.
proof fn row_towards(
    point: Point,
    rounded: Point,
    size: Size,
    region: Option<&Region>,
    input_region: Option<&Region>,
) -> (row: i32)
    requires
        allowed(point, size, region, input_region),
        edges_in_range(region),
        edges_in_range(input_region),
    ensures
        lattice_y(rounded, size, region, input_region, row as int),
        allowed(Point { x: point.x, y: row }, size, region, input_region),
        point.y <= row <= rounded.y || rounded.y <= row <= point.y,
    decreases
            (if point.y < rounded.y {
                rounded.y - point.y
            } else {
                point.y - rounded.y
            }),
{
    let y = point.y as int;
    let height = size.h as int;
    lemma_turn_is_edge(region, height, y);
    lemma_turn_is_edge(region, height, y + 1);
    lemma_turn_is_edge(input_region, height, y);
    lemma_turn_is_edge(input_region, height, y + 1);
    if y == rounded.y || y == held(rounded.y as int, height) {
        point.y
    } else if y < rounded.y {
        let next = Point { x: point.x, y: (y + 1) as i32 };
        if turns_y(region, y + 1) || turns_y(input_region, y + 1) {
            point.y
        } else {
            lemma_allows_beside(region, point, next);
            lemma_allows_beside(input_region, point, next);
            row_towards(next, rounded, size, region, input_region)
        }
    } else {
        let next = Point { x: point.x, y: (y - 1) as i32 };
        if turns_y(region, y) || turns_y(input_region, y) {
            point.y
        } else {
            lemma_allows_beside(region, next, point);
            lemma_allows_beside(input_region, next, point);
            row_towards(next, rounded, size, region, input_region)
        }
    }
}

/// Pixel `a` lies between `b` and `c` in both directions.
pub open spec fn between(a: Point, b: Point, c: Point) -> bool {
    &&& b.x <= a.x <= c.x || c.x <= a.x <= b.x
    &&& b.y <= a.y <= c.y || c.y <= a.y <= b.y
}

/// The lattice leaves out nothing that matters: between every allowed pixel and the wanted
/// position there is a pixel of the lattice. So a confinement that allows anything at all
/// has somewhere to put the pointer.
pub proof fn lattice_lies_between(
    points: Seq<Point>,
    point: Point,
    rounded: Point,
    size: Size,
    region: Option<&Region>,
    input_region: Option<&Region>,
)
    requires
        is_lattice(points, rounded, size, region, input_region),
        allowed(point, size, region, input_region),
        edges_in_range(region),
        edges_in_range(input_region),
    ensures
        exists|k: int| 0 <= k < points.len() && between(#[trigger] points[k], point, rounded),
{
    let column = column_towards(point, rounded, size, region, input_region);
    let moved = Point { x: column, y: point.y };
    let row = row_towards(moved, rounded, size, region, input_region);
    let found = Point { x: column, y: row };
    assert(is_candidate_point(found, rounded, size, region, input_region));
    assert(points.contains(found));
    let k = choose|k: int| 0 <= k < points.len() && points[k] == found;
    assert(between(points[k], point, rounded));
}

/// The nearest pixel of the lattice is the nearest of all allowed pixels.
pub proof fn lattice_holds_the_nearest(
    points: Seq<Point>,
    k: int,
    point: Point,
    rounded: Point,
    size: Size,
    region: Option<&Region>,
    input_region: Option<&Region>,
)
    requires
        is_lattice(points, rounded, size, region, input_region),
        0 <= k < points.len(),
        forall|i: int|
            0 <= i < points.len() ==> squared(points[k], rounded) <= squared(
                #[trigger] points[i],
                rounded,
            ),
        allowed(point, size, region, input_region),
        edges_in_range(region),
        edges_in_range(input_region),
    ensures
        squared(points[k], rounded) <= squared(point, rounded),
{
    lattice_lies_between(points, point, rounded, size, region, input_region);
    let i = choose|i: int|
        0 <= i < points.len() && between(#[trigger] points[i], point, rounded);
    lemma_between_is_near(points[i].x as int, point.x as int, rounded.x as int);
    lemma_between_is_near(points[i].y as int, point.y as int, rounded.y as int);
    assert(squared(points[k], rounded) <= squared(points[i], rounded));
}

proof fn lemma_between_is_near(a: int, b: int, c: int)
    by (nonlinear_arith)
    requires
        b <= a <= c || c <= a <= b,
    ensures
        (a - c) * (a - c) <= (b - c) * (b - c),
{
}

/// The pointer may only be on pixels of the surface that both regions cover. Without regions
/// every pixel of the surface is allowed.
pub proof fn confined_pointers_stay_in_the_surface(
    point: Point,
    size: Size,
    region: Option<&Region>,
    input_region: Option<&Region>,
)
    ensures
        allowed(point, size, region, input_region) ==> 0 <= point.x < size.w && 0 <= point.y < size.h,
        allowed(point, size, None, None) <==> 0 <= point.x < size.w && 0 <= point.y < size.h,
        allowed(point, size, region, input_region) <==> allowed(point, size, region, None)
            && allowed(point, size, None, input_region),
        region is Some && !region->0.spec_contains(point) ==> !allowed(
            point,
            size,
            region,
            input_region,
        ),
        input_region is Some && !input_region->0.spec_contains(point) ==> !allowed(
            point,
            size,
            region,
            input_region,
        ),
{
}

/// A coordinate is held at the nearest one of the surface: no other coordinate of it is
/// nearer.
pub proof fn held_coordinates_are_the_nearest(x: int, length: int, other: int)
    requires
        length > 0,
        0 <= other < length,
    ensures
        0 <= held(x, length) < length,
        0 <= x < length ==> held(x, length) == x,
        (held(x, length) - x) * (held(x, length) - x) <= (other - x) * (other - x),
{
    lemma_between_is_near(held(x, length), other, x);
}

/// The square of the distance counts both directions: it is that of a right triangle, the
/// same both ways, and nothing only for the same pixel.
pub proof fn distances_count_both_directions(a: Point, b: Point)
    ensures
        squared(a, b) == (a.x - b.x) * (a.x - b.x) + (a.y - b.y) * (a.y - b.y),
        squared(a, b) == squared(b, a),
        squared(a, b) >= 0,
        squared(a, b) == 0 ==> a == b,
        a.x == b.x ==> squared(a, b) == (a.y - b.y) * (a.y - b.y),
        a.y == b.y ==> squared(a, b) == (a.x - b.x) * (a.x - b.x),
{
    let dx = a.x - b.x;
    let dy = a.y - b.y;
    assert(dx * dx >= 0 && dy * dy >= 0) by (nonlinear_arith);
    assert(dx * dx == (b.x - a.x) * (b.x - a.x)) by (nonlinear_arith)
        requires
            dx == a.x - b.x,
    ;
    assert(dy * dy == (b.y - a.y) * (b.y - a.y)) by (nonlinear_arith)
        requires
            dy == a.y - b.y,
    ;
    assert(dx != 0 ==> dx * dx > 0) by (nonlinear_arith);
    assert(dy != 0 ==> dy * dy > 0) by (nonlinear_arith);
    assert(dx == 0 ==> dx * dx == 0) by (nonlinear_arith);
    assert(dy == 0 ==> dy * dy == 0) by (nonlinear_arith);
}

/// Points of the lattice come column by column, from the left, and in a column from the top.
pub proof fn points_come_column_by_column(a: Point, b: Point)
    ensures
        a.x < b.x ==> before(a, b) && !before(b, a),
        a.x == b.x && a.y < b.y ==> before(a, b) && !before(b, a),
        !before(a, a),
        a != b ==> before(a, b) || before(b, a),
{
}

/// The point that is chosen has the least key, and of those the first.
pub proof fn the_first_of_the_nearest_is_chosen(keys: Seq<u128>, k: int, i: int)
    requires
        is_nearest(keys, k),
        0 <= i < keys.len(),
    ensures
        keys[k] <= keys[i],
        i < k ==> keys[k] < keys[i],
        0 <= k < keys.len(),
{
}

} // verus!
