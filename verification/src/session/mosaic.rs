//! Division of the visible field into one region per window.

use vstd::prelude::*;

use crate::geometry::Point;
use crate::geometry::Rectangle;
use crate::geometry::Size;

verus! {

/// A gap is never negative.
pub open spec fn gap_of(gap: int) -> int {
    if gap > 0 {
        gap
    } else {
        0
    }
}

/// What is left of an axis once the gaps between `count` segments are taken off.
pub open spec fn axis_available(length: int, count: int, gap: int) -> int {
    length - gap_of(gap) * (count - 1)
}

/// The axis has room for `count` segments of at least one pixel, and neither the
/// gaps nor a position past the last one leave the range of coordinates.
pub open spec fn axis_splits(start: int, length: int, count: int, gap: int) -> bool {
    &&& count <= i32::MAX
    &&& gap_of(gap) * (count - 1) <= i32::MAX
    &&& axis_available(length, count, gap) >= count
    &&& start + length + gap_of(gap) <= i32::MAX
}

/// Length of segment `i`: the pixels are shared evenly, the first segments take
/// the remainder.
pub open spec fn segment_length(length: int, count: int, gap: int, i: int) -> int {
    let available = axis_available(length, count, gap);
    available / count + (if i < available % count {
        1int
    } else {
        0
    })
}

/// Start of segment `i`.
pub open spec fn segment_start(start: int, length: int, count: int, gap: int, i: int) -> int {
    let available = axis_available(length, count, gap);
    start + i * (available / count + gap_of(gap)) + (if i < available % count {
        i
    } else {
        available % count
    })
}

/// Segments follow one another, a gap apart.
pub proof fn segments_follow(start: int, length: int, count: int, gap: int, i: int)
    requires
        count > 0,
        0 <= i,
    ensures
        segment_start(start, length, count, gap, 0) == start,
        segment_start(start, length, count, gap, i + 1) == segment_start(
            start,
            length,
            count,
            gap,
            i,
        ) + segment_length(length, count, gap, i) + gap_of(gap),
{
    let available = axis_available(length, count, gap);
    let step = available / count + gap_of(gap);
    assert(available % count >= 0) by {
        vstd::arithmetic::div_mod::lemma_mod_bound(available, count);
    }
    assert((i + 1) * step == i * step + step) by (nonlinear_arith);
    assert(0 * step == 0) by (nonlinear_arith);
}

/// The segments fill the axis: the last one ends where the axis ends.
pub proof fn segments_fill_axis(start: int, length: int, count: int, gap: int)
    requires
        count > 0,
    ensures
        segment_start(start, length, count, gap, count - 1) + segment_length(
            length,
            count,
            gap,
            count - 1,
        ) == start + length,
{
    let available = axis_available(length, count, gap);
    let base = available / count;
    let g = gap_of(gap);
    vstd::arithmetic::div_mod::lemma_fundamental_div_mod(available, count);
    vstd::arithmetic::div_mod::lemma_mod_bound(available, count);
    assert((count - 1) * (base + g) + base == count * base + g * (count - 1)) by (nonlinear_arith);
}

/// A segment starts and ends within the axis, and later ones start past its end.
proof fn lemma_segment_order(start: int, length: int, count: int, gap: int, i: int, j: int)
    requires
        count > 0,
        axis_available(length, count, gap) >= count,
        0 <= i < j,
    ensures
        segment_start(start, length, count, gap, i) + segment_length(length, count, gap, i)
            + gap_of(gap) <= segment_start(start, length, count, gap, j),
        segment_length(length, count, gap, i) >= 1,
    decreases j - i,
{
    let available = axis_available(length, count, gap);
    assert(available / count >= 1) by (nonlinear_arith)
        requires
            available >= count,
            count > 0,
    ;
    segments_follow(start, length, count, gap, i);
    if i + 1 < j {
        lemma_segment_order(start, length, count, gap, i + 1, j);
        assert(segment_length(length, count, gap, i + 1) >= 1);
    }
}

/// Every segment lies within the axis and has at least one pixel.
pub proof fn segment_within_axis(start: int, length: int, count: int, gap: int, i: int)
    requires
        axis_available(length, count, gap) >= count,
        0 <= i < count,
    ensures
        start <= segment_start(start, length, count, gap, i),
        segment_length(length, count, gap, i) >= 1,
        segment_start(start, length, count, gap, i) + segment_length(length, count, gap, i)
            <= start + length,
{
    segments_fill_axis(start, length, count, gap);
    segments_follow(start, length, count, gap, i);
    lemma_segment_order(start, length, count, gap, i, i + 1);
    if i > 0 {
        lemma_segment_order(start, length, count, gap, 0, i);
    }
    if i < count - 1 {
        lemma_segment_order(start, length, count, gap, i, count - 1);
        lemma_segment_order(start, length, count, gap, count - 1, count);
    }
}

/// Segment lengths differ by one pixel at most, the longer ones first.
pub proof fn segments_are_balanced(length: int, count: int, gap: int, i: int, j: int)
    requires
        count > 0,
        0 <= i <= j,
    ensures
        0 <= segment_length(length, count, gap, i) - segment_length(length, count, gap, j) <= 1,
{
}

/// Splits an axis into `count` segments, given by start and length, with `gap`
/// between them.
pub fn split_axis(start: i32, length: i32, count: usize, gap: i32) -> (segments: Option<
    Vec<(i32, i32)>,
>)
    requires
        count > 0 || !(0 <= axis_available(length as int, 0, gap as int) <= i32::MAX),
    ensures
        segments is Some <==> count > 0 && axis_splits(
            start as int,
            length as int,
            count as int,
            gap as int,
        ),
        segments matches Some(all) ==> {
            &&& all@.len() == count
            &&& forall|i: int|
                #![trigger all@[i]]
                0 <= i < count ==> {
                    &&& all@[i].0 == segment_start(
                        start as int,
                        length as int,
                        count as int,
                        gap as int,
                        i,
                    )
                    &&& all@[i].1 == segment_length(length as int, count as int, gap as int, i)
                }
        },
{
    if count > i32::MAX as usize {
        return None;
    }
    let parts: i32 = count as i32;
    let spacing: i32 = if gap > 0 {
        gap
    } else {
        0
    };
    let gaps: i32 = match spacing.checked_mul(parts - 1) {
        Some(gaps) => gaps,
        None => {
            assert(spacing * (parts - 1) >= -spacing) by (nonlinear_arith)
                requires
                    spacing >= 0,
                    parts >= 0,
            ;
            return None;
        },
    };
    let available: i32 = match length.checked_sub(gaps) {
        Some(available) => available,
        None => {
            assert(parts > 0 ==> gaps >= 0) by (nonlinear_arith)
                requires
                    gaps == spacing * (parts - 1),
                    spacing >= 0,
            ;
            return None;
        },
    };
    if available < parts {
        return None;
    }
    assert(parts > 0);
    let base: i32 = available / parts;
    let remainder: i32 = available % parts;
    let mut cursor: i32 = start;
    let mut segments: Vec<(i32, i32)> = Vec::with_capacity(parts as usize);
    let mut index: i32 = 0;
    proof {
        segments_follow(start as int, length as int, parts as int, spacing as int, 0);
    }
    while index < parts
        invariant
            0 <= index <= parts,
            parts > 0,
            spacing == gap_of(gap as int),
            parts == count,
            available == axis_available(length as int, parts as int, spacing as int),
            available >= parts,
            base == available as int / parts as int,
            remainder == available as int % parts as int,
            cursor == segment_start(
                start as int,
                length as int,
                parts as int,
                spacing as int,
                index as int,
            ),
            segments@.len() == index,
            forall|i: int|
                #![trigger segments@[i]]
                0 <= i < index ==> {
                    &&& segments@[i].0 == segment_start(
                        start as int,
                        length as int,
                        parts as int,
                        spacing as int,
                        i,
                    )
                    &&& segments@[i].1 == segment_length(
                        length as int,
                        parts as int,
                        spacing as int,
                        i,
                    )
                },
            index == parts ==> start + length + spacing <= i32::MAX,
        decreases parts - index,
    {
        proof {
            segments_follow(start as int, length as int, parts as int, spacing as int, index as int);
            segments_fill_axis(start as int, length as int, parts as int, spacing as int);
            segment_within_axis(start as int, length as int, parts as int, spacing as int, index as int);
            if index + 1 < parts {
                segment_within_axis(start as int, length as int, parts as int, spacing as int, index + 1);
            }
        }
        let size: i32 = base + (if index < remainder {
            1
        } else {
            0
        });
        segments.push((cursor, size));
        let end: i32 = match cursor.checked_add(size) {
            Some(end) => end,
            None => {
                return None;
            },
        };
        cursor =
        match end.checked_add(spacing) {
            Some(next) => next,
            None => {
                return None;
            },
        };
        index += 1;
    }
    Some(segments)
}

/// `root` is the least positive number whose square reaches `value`.
pub open spec fn is_ceil_sqrt(value: int, root: int) -> bool {
    &&& root >= 1
    &&& root * root >= value
    &&& root == 1 || (root - 1) * (root - 1) < value
}

/// The least positive number whose square reaches `value`.
pub fn ceil_sqrt(value: usize) -> (root: usize)
    ensures
        is_ceil_sqrt(value as int, root as int),
        value >= 1 ==> root <= value,
{
    let mut root: usize = 1;
    loop
        invariant_except_break
            1 <= root,
            root == 1 || (root - 1) * (root - 1) < value,
            value >= 1 ==> root <= value,
        ensures
            is_ceil_sqrt(value as int, root as int),
            value >= 1 ==> root <= value,
        decreases value - root,
    {
        match root.checked_mul(root) {
            Some(square) => {
                if square >= value {
                    break;
                }
                assert(root * root >= root) by (nonlinear_arith)
                    requires
                        root >= 1,
                ;
            },
            None => {
                break;
            },
        }
        root += 1;
    }
    root
}

/// The least root is unique.
proof fn lemma_ceil_sqrt_unique(value: int, a: int, b: int)
    requires
        is_ceil_sqrt(value, a),
        is_ceil_sqrt(value, b),
    ensures
        a == b,
{
    if a < b {
        assert((b - 1) * (b - 1) >= a * a) by (nonlinear_arith)
            requires
                1 <= a,
                a <= b - 1,
        ;
    }
    if b < a {
        assert((a - 1) * (a - 1) >= b * b) by (nonlinear_arith)
            requires
                1 <= b,
                b <= a - 1,
        ;
    }
}

/// Columns of the widest rows: the least number whose square reaches `count`.
pub open spec fn mosaic_columns(count: int) -> int {
    choose|root: int| is_ceil_sqrt(count, root)
}

/// Rows of the mosaic, as many as `count` windows need at that width.
pub open spec fn mosaic_rows(count: int) -> int {
    (count + mosaic_columns(count) - 1) / mosaic_columns(count)
}

/// Windows in row `r`: they are shared evenly, the first rows take the remainder.
pub open spec fn row_population(count: int, r: int) -> int {
    count / mosaic_rows(count) + (if r < count % mosaic_rows(count) {
        1int
    } else {
        0
    })
}

/// Windows in the rows before row `r`.
pub open spec fn windows_before(count: int, r: int) -> int
    decreases r,
{
    if r <= 0 {
        0
    } else {
        windows_before(count, r - 1) + row_population(count, r - 1)
    }
}

/// Position in the mosaic of column `c` of row `r`.
pub open spec fn mosaic_index(count: int, r: int, c: int) -> int {
    windows_before(count, r) + c
}

/// `rect` is the cell at column `c` of `columns` and row `r` of `rows`.
pub open spec fn is_cell(
    rect: Rectangle,
    outer: Rectangle,
    gap: int,
    columns: int,
    c: int,
    rows: int,
    r: int,
) -> bool {
    &&& rect.loc.x == segment_start(outer.loc.x as int, outer.size.w as int, columns, gap, c)
    &&& rect.size.w == segment_length(outer.size.w as int, columns, gap, c)
    &&& rect.loc.y == segment_start(outer.loc.y as int, outer.size.h as int, rows, gap, r)
    &&& rect.size.h == segment_length(outer.size.h as int, rows, gap, r)
}

/// The field can be divided among `count` windows.
pub open spec fn mosaic_fits(outer: Rectangle, count: int, gap: int) -> bool {
    let (x, y) = (outer.loc.x as int, outer.loc.y as int);
    let (w, h) = (outer.size.w as int, outer.size.h as int);
    if count < 2 {
        false
    } else if count == 3 {
        axis_splits(x, w, 2, gap) && axis_splits(y, h, 2, gap)
    } else {
        &&& axis_splits(y, h, mosaic_rows(count), gap)
        &&& forall|r: int|
            0 <= r < mosaic_rows(count) ==> axis_splits(
                x,
                w,
                #[trigger] row_population(count, r),
                gap,
            )
    }
}

/// `regions` divide the field among `count` windows. Three windows get the left
/// half and the two quarters on the right, any other number balanced rows.
pub open spec fn is_mosaic(
    outer: Rectangle,
    count: int,
    gap: int,
    regions: Seq<Rectangle>,
) -> bool {
    &&& regions.len() == count
    &&& if count == 3 {
        &&& regions[0].loc.y == outer.loc.y
        &&& regions[0].size.h == outer.size.h
        &&& regions[0].loc.x == segment_start(outer.loc.x as int, outer.size.w as int, 2, gap, 0)
        &&& regions[0].size.w == segment_length(outer.size.w as int, 2, gap, 0)
        &&& is_cell(regions[1], outer, gap, 2, 1, 2, 0)
        &&& is_cell(regions[2], outer, gap, 2, 1, 2, 1)
    } else {
        forall|r: int, c: int|
            0 <= r < mosaic_rows(count) && 0 <= c < row_population(count, r) ==> is_cell(
                regions[#[trigger] mosaic_index(count, r, c)],
                outer,
                gap,
                row_population(count, r),
                c,
                mosaic_rows(count),
                r,
            )
    }
}

proof fn lemma_mosaic_shape(count: int, columns: int)
    requires
        count >= 1,
        is_ceil_sqrt(count, columns),
    ensures
        mosaic_columns(count) == columns,
        1 <= columns <= count,
        1 <= mosaic_rows(count) <= count,
        count / mosaic_rows(count) >= 1,
        windows_before(count, mosaic_rows(count)) == count,
{
    assert(is_ceil_sqrt(count, columns));
    lemma_ceil_sqrt_unique(count, columns, mosaic_columns(count));
    assert(columns <= count) by (nonlinear_arith)
        requires
            columns == 1 || (columns - 1) * (columns - 1) < count,
            count >= 1,
            columns >= 1,
    ;
    let rows = mosaic_rows(count);
    vstd::arithmetic::div_mod::lemma_fundamental_div_mod(count + columns - 1, columns);
    assert(1 <= rows) by (nonlinear_arith)
        requires
            count >= 1,
            columns >= 1,
            rows == (count + columns - 1) / columns,
    ;
    assert(rows <= count) by (nonlinear_arith)
        requires
            count >= 1,
            columns >= 1,
            rows == (count + columns - 1) / columns,
    ;
    assert(count / rows >= 1) by (nonlinear_arith)
        requires
            1 <= rows <= count,
    ;
    lemma_windows_before(count, rows);
    vstd::arithmetic::div_mod::lemma_fundamental_div_mod(count, rows);
    vstd::arithmetic::div_mod::lemma_mod_bound(count, rows);
}

proof fn lemma_windows_before(count: int, r: int)
    requires
        count >= 1,
        mosaic_rows(count) >= 1,
        0 <= r <= mosaic_rows(count),
    ensures
        windows_before(count, r) == r * (count / mosaic_rows(count)) + (if r < count % mosaic_rows(
            count,
        ) {
            r
        } else {
            count % mosaic_rows(count)
        }),
    decreases r,
{
    let rows = mosaic_rows(count);
    let base = count / rows;
    vstd::arithmetic::div_mod::lemma_mod_bound(count, rows);
    if r > 0 {
        lemma_windows_before(count, r - 1);
        assert((r - 1) * base + base == r * base) by (nonlinear_arith);
    } else {
        assert(0 * base == 0) by (nonlinear_arith);
    }
}

/// Every position of the mosaic is some column of some row.
proof fn lemma_mosaic_position(count: int, rows: int, i: int) -> (cell: (int, int))
    requires
        0 <= rows,
        0 <= i < windows_before(count, rows),
    ensures
        0 <= cell.0 < rows,
        0 <= cell.1 < row_population(count, cell.0),
        mosaic_index(count, cell.0, cell.1) == i,
    decreases rows,
{
    if i < windows_before(count, rows - 1) {
        lemma_mosaic_position(count, rows - 1, i)
    } else {
        (rows - 1, i - windows_before(count, rows - 1))
    }
}

/// The two rectangles are at least so many pixels apart, side by side or one above the
/// other.
pub open spec fn spaced(a: Rectangle, b: Rectangle, space: int) -> bool {
    ||| a.loc.x + a.size.w + space <= b.loc.x
    ||| b.loc.x + b.size.w + space <= a.loc.x
    ||| a.loc.y + a.size.h + space <= b.loc.y
    ||| b.loc.y + b.size.h + space <= a.loc.y
}

/// Some region starts or ends at each side of the field.
pub open spec fn reaches_sides(outer: Rectangle, regions: Seq<Rectangle>) -> bool {
    &&& exists|i: int| 0 <= i < regions.len() && (#[trigger] regions[i]).loc.x == outer.loc.x
    &&& exists|i: int| 0 <= i < regions.len() && (#[trigger] regions[i]).loc.y == outer.loc.y
    &&& exists|i: int|
        0 <= i < regions.len() && (#[trigger] regions[i]).loc.x + regions[i].size.w == outer.loc.x
            + outer.size.w
    &&& exists|i: int|
        0 <= i < regions.len() && (#[trigger] regions[i]).loc.y + regions[i].size.h == outer.loc.y
            + outer.size.h
}

/// Two cells of balanced rows, of different rows or columns, are the gap apart.
proof fn lemma_cells_apart(
    outer: Rectangle,
    gap: int,
    rows: int,
    a: Rectangle,
    columns_a: int,
    ca: int,
    ra: int,
    b: Rectangle,
    columns_b: int,
    cb: int,
    rb: int,
)
    requires
        axis_splits(outer.loc.y as int, outer.size.h as int, rows, gap),
        axis_splits(outer.loc.x as int, outer.size.w as int, columns_a, gap),
        is_cell(a, outer, gap, columns_a, ca, rows, ra),
        is_cell(b, outer, gap, columns_b, cb, rows, rb),
        0 <= ra < rows,
        0 <= rb < rows,
        0 <= ca < columns_a,
        0 <= cb < columns_b,
        ra == rb ==> columns_a == columns_b && ca != cb,
    ensures
        a.apart(b),
        spaced(a, b, gap_of(gap)),
{
    let (x, w) = (outer.loc.x as int, outer.size.w as int);
    let (y, h) = (outer.loc.y as int, outer.size.h as int);
    if ra < rb {
        lemma_segment_order(y, h, rows, gap, ra, rb);
    } else if rb < ra {
        lemma_segment_order(y, h, rows, gap, rb, ra);
    } else if ca < cb {
        lemma_segment_order(x, w, columns_a, gap, ca, cb);
    } else {
        lemma_segment_order(x, w, columns_a, gap, cb, ca);
    }
}

/// The regions of a mosaic lie within the field, share no pixel, and are at least the gap
/// apart.
pub proof fn mosaic_divides_field(
    outer: Rectangle,
    count: int,
    gap: int,
    regions: Seq<Rectangle>,
)
    requires
        mosaic_fits(outer, count, gap),
        is_mosaic(outer, count, gap, regions),
    ensures
        forall|i: int| 0 <= i < count ==> (#[trigger] regions[i]).within(outer),
        forall|i: int| 0 <= i < count ==> (#[trigger] regions[i]).size.w >= 1,
        forall|i: int| 0 <= i < count ==> (#[trigger] regions[i]).size.h >= 1,
        forall|i: int, j: int|
            0 <= i < count && 0 <= j < count && i != j ==> (#[trigger] regions[i]).apart(
                #[trigger] regions[j],
            ) && spaced(regions[i], regions[j], gap_of(gap)),
{
    let (x, w) = (outer.loc.x as int, outer.size.w as int);
    let (y, h) = (outer.loc.y as int, outer.size.h as int);
    if count == 3 {
        segment_within_axis(x, w, 2, gap, 0);
        segment_within_axis(x, w, 2, gap, 1);
        segment_within_axis(y, h, 2, gap, 0);
        segment_within_axis(y, h, 2, gap, 1);
        lemma_segment_order(x, w, 2, gap, 0, 1);
        lemma_segment_order(y, h, 2, gap, 0, 1);
    } else {
        let rows = mosaic_rows(count);
        let columns = lemma_ceil_sqrt_exists(count);
        lemma_mosaic_shape(count, columns);
        assert forall|i: int| 0 <= i < count implies {
            &&& (#[trigger] regions[i]).within(outer)
            &&& regions[i].size.w >= 1
            &&& regions[i].size.h >= 1
        } by {
            let (r, c) = lemma_mosaic_position(count, rows, i);
            assert(mosaic_index(count, r, c) == i);
            segment_within_axis(x, w, row_population(count, r), gap, c);
            segment_within_axis(y, h, rows, gap, r);
        }
        assert forall|i: int, j: int| 0 <= i < count && 0 <= j < count && i != j implies (
        #[trigger] regions[i]).apart(#[trigger] regions[j]) && spaced(
            regions[i],
            regions[j],
            gap_of(gap),
        ) by {
            let (ra, ca) = lemma_mosaic_position(count, rows, i);
            let (rb, cb) = lemma_mosaic_position(count, rows, j);
            assert(mosaic_index(count, ra, ca) == i);
            assert(mosaic_index(count, rb, cb) == j);
            lemma_cells_apart(
                outer,
                gap,
                rows,
                regions[i],
                row_population(count, ra),
                ca,
                ra,
                regions[j],
                row_population(count, rb),
                cb,
                rb,
            );
        }
    }
}

proof fn lemma_windows_grow(count: int, r: int, rows: int)
    requires
        0 <= r <= rows,
        count >= 1,
        count / mosaic_rows(count) >= 1,
    ensures
        0 <= windows_before(count, r) <= windows_before(count, rows),
    decreases rows,
{
    if r < rows {
        lemma_windows_grow(count, r, rows - 1);
    } else if r > 0 {
        lemma_windows_grow(count, r - 1, rows - 1);
    }
}

/// The regions of a mosaic reach every side of the field, so that together they span it.
pub proof fn mosaic_spans_field(outer: Rectangle, count: int, gap: int, regions: Seq<Rectangle>)
    requires
        mosaic_fits(outer, count, gap),
        is_mosaic(outer, count, gap, regions),
    ensures
        reaches_sides(outer, regions),
{
    let (x, w) = (outer.loc.x as int, outer.size.w as int);
    let (y, h) = (outer.loc.y as int, outer.size.h as int);
    if count == 3 {
        segments_follow(x, w, 2, gap, 0);
        segments_fill_axis(x, w, 2, gap);
        segments_fill_axis(y, h, 2, gap);
        assert(regions[0].loc.x == outer.loc.x);
        assert(regions[0].loc.y == outer.loc.y);
        assert(regions[2].loc.x + regions[2].size.w == outer.loc.x + outer.size.w);
        assert(regions[2].loc.y + regions[2].size.h == outer.loc.y + outer.size.h);
    } else {
        let rows = mosaic_rows(count);
        let columns = lemma_ceil_sqrt_exists(count);
        lemma_mosaic_shape(count, columns);
        let first = row_population(count, 0);
        lemma_windows_grow(count, 1, rows);
        lemma_windows_grow(count, rows - 1, rows);
        reveal_with_fuel(windows_before, 2);
        let corner = mosaic_index(count, 0, 0);
        assert(corner == 0);
        segments_follow(x, w, first, gap, 0);
        segments_follow(y, h, rows, gap, 0);
        assert(regions[corner].loc.x == outer.loc.x);
        assert(regions[corner].loc.y == outer.loc.y);
        let right = mosaic_index(count, 0, first - 1);
        segments_fill_axis(x, w, first, gap);
        assert(regions[right].loc.x + regions[right].size.w == outer.loc.x + outer.size.w);
        let last = row_population(count, rows - 1);
        assert(last >= 1);
        let bottom = mosaic_index(count, rows - 1, 0);
        segments_fill_axis(y, h, rows, gap);
        assert(regions[bottom].loc.y + regions[bottom].size.h == outer.loc.y + outer.size.h);
    }
}

/// Every positive number has a least root.
proof fn lemma_ceil_sqrt_exists(value: int) -> (root: int)
    requires
        value >= 1,
    ensures
        is_ceil_sqrt(value, root),
{
    lemma_ceil_sqrt_from(value, 1)
}

proof fn lemma_ceil_sqrt_from(value: int, root: int) -> (found: int)
    requires
        value >= 1,
        root >= 1,
        root == 1 || (root - 1) * (root - 1) < value,
    ensures
        is_ceil_sqrt(value, found),
    decreases value - root,
{
    if root * root >= value {
        root
    } else {
        assert(root <= root * root) by (nonlinear_arith)
            requires
                root >= 1,
        ;
        lemma_ceil_sqrt_from(value, root + 1)
    }
}

/// A mosaic has at least one row.
pub proof fn mosaic_has_rows(count: int)
    requires
        count >= 1,
    ensures
        mosaic_rows(count) >= 1,
{
    let columns = lemma_ceil_sqrt_exists(count);
    lemma_mosaic_shape(count, columns);
}

/// Divides the field among `count` windows with `gap` between them, unless it has
/// no room for that.
pub fn mosaic_regions(outer: Rectangle, count: usize, gap: i32) -> (regions: Option<
    Vec<Rectangle>,
>)
    ensures
        regions is Some <==> mosaic_fits(outer, count as int, gap as int),
        regions matches Some(all) ==> is_mosaic(outer, count as int, gap as int, all@),
{
    if count < 2 {
        return None;
    }
    if count == 3 {
        let columns = match split_axis(outer.loc.x, outer.size.w, 2, gap) {
            Some(columns) => columns,
            None => {
                return None;
            },
        };
        let right_rows = match split_axis(outer.loc.y, outer.size.h, 2, gap) {
            Some(right_rows) => right_rows,
            None => {
                return None;
            },
        };
        let mut all: Vec<Rectangle> = Vec::new();
        all.push(
            Rectangle::new(
                Point::new(columns[0].0, outer.loc.y),
                Size::new(columns[0].1, outer.size.h),
            ),
        );
        all.push(
            Rectangle::new(
                Point::new(columns[1].0, right_rows[0].0),
                Size::new(columns[1].1, right_rows[0].1),
            ),
        );
        all.push(
            Rectangle::new(
                Point::new(columns[1].0, right_rows[1].0),
                Size::new(columns[1].1, right_rows[1].1),
            ),
        );
        return Some(all);
    }
    let columns: usize = ceil_sqrt(count);
    proof {
        lemma_mosaic_shape(count as int, columns as int);
    }
    let rows: usize = (count - 1) / columns + 1;
    proof {
        let (n, k) = (count as int, columns as int);
        assert((n - 1) / k + 1 == (n + k - 1) / k) by (nonlinear_arith)
            requires
                n >= 1,
                k >= 1,
        ;
    }
    let row_heights = match split_axis(outer.loc.y, outer.size.h, rows, gap) {
        Some(row_heights) => row_heights,
        None => {
            return None;
        },
    };
    let base: usize = count / rows;
    let extra: usize = count % rows;
    let mut regions: Vec<Rectangle> = Vec::with_capacity(count);
    let mut row: usize = 0;
    while row < rows
        invariant
            count >= 2,
            count != 3,
            0 <= row <= rows,
            rows == mosaic_rows(count as int),
            1 <= rows <= count,
            base == count as int / rows as int,
            extra == count as int % rows as int,
            base >= 1,
            windows_before(count as int, rows as int) == count,
            axis_splits(outer.loc.y as int, outer.size.h as int, rows as int, gap as int),
            row_heights@.len() == rows,
            forall|i: int|
                #![trigger row_heights@[i]]
                0 <= i < rows ==> {
                    &&& row_heights@[i].0 == segment_start(
                        outer.loc.y as int,
                        outer.size.h as int,
                        rows as int,
                        gap as int,
                        i,
                    )
                    &&& row_heights@[i].1 == segment_length(
                        outer.size.h as int,
                        rows as int,
                        gap as int,
                        i,
                    )
                },
            regions@.len() == windows_before(count as int, row as int),
            forall|r: int|
                0 <= r < row ==> axis_splits(
                    outer.loc.x as int,
                    outer.size.w as int,
                    #[trigger] row_population(count as int, r),
                    gap as int,
                ),
            forall|r: int, c: int|
                0 <= r < row && 0 <= c < row_population(count as int, r) ==> {
                    &&& 0 <= #[trigger] mosaic_index(count as int, r, c) < regions@.len()
                    &&& is_cell(
                        regions@[mosaic_index(count as int, r, c)],
                        outer,
                        gap as int,
                        row_population(count as int, r),
                        c,
                        rows as int,
                        r,
                    )
                },
        decreases rows - row,
    {
        proof {
            lemma_windows_before(count as int, row as int);
            lemma_windows_before(count as int, row + 1);
            lemma_population_bound(count as int, row as int);
        }
        let in_row: usize = base + (if row < extra {
            1
        } else {
            0
        });
        assert(in_row == row_population(count as int, row as int));
        let widths = match split_axis(outer.loc.x, outer.size.w, in_row, gap) {
            Some(widths) => widths,
            None => {
                return None;
            },
        };
        let (top, height) = row_heights[row];
        let ghost start = regions@;
        let mut column: usize = 0;
        while column < in_row
            invariant
                0 <= column <= in_row,
                row < rows,
                rows == mosaic_rows(count as int),
                in_row == row_population(count as int, row as int),
                widths@.len() == in_row,
                top == segment_start(
                    outer.loc.y as int,
                    outer.size.h as int,
                    rows as int,
                    gap as int,
                    row as int,
                ),
                height == segment_length(
                    outer.size.h as int,
                    rows as int,
                    gap as int,
                    row as int,
                ),
                forall|i: int|
                    #![trigger widths@[i]]
                    0 <= i < in_row ==> {
                        &&& widths@[i].0 == segment_start(
                            outer.loc.x as int,
                            outer.size.w as int,
                            in_row as int,
                            gap as int,
                            i,
                        )
                        &&& widths@[i].1 == segment_length(
                            outer.size.w as int,
                            in_row as int,
                            gap as int,
                            i,
                        )
                    },
                start.len() == windows_before(count as int, row as int),
                regions@.len() == start.len() + column,
                forall|i: int| 0 <= i < start.len() ==> #[trigger] regions@[i] == start[i],
                forall|c: int|
                    0 <= c < column ==> is_cell(
                        regions@[#[trigger] mosaic_index(count as int, row as int, c)],
                        outer,
                        gap as int,
                        in_row as int,
                        c,
                        rows as int,
                        row as int,
                    ),
            decreases in_row - column,
        {
            let (left, width) = widths[column];
            regions.push(Rectangle::new(Point::new(left, top), Size::new(width, height)));
            column += 1;
        }
        row += 1;
    }
    Some(regions)
}

proof fn lemma_population_bound(count: int, r: int)
    requires
        count >= 1,
        1 <= mosaic_rows(count) <= count,
        0 <= r < mosaic_rows(count),
    ensures
        row_population(count, r) <= count,
{
    let rows = mosaic_rows(count);
    let base = count / rows;
    vstd::arithmetic::div_mod::lemma_fundamental_div_mod(count, rows);
    vstd::arithmetic::div_mod::lemma_mod_bound(count, rows);
    assert(base + (count % rows) <= count) by (nonlinear_arith)
        requires
            count == rows * base + count % rows,
            rows >= 1,
            base >= 0,
    ;
    assert(base >= 0) by (nonlinear_arith)
        requires
            base == count / rows,
            count >= 1,
            rows >= 1,
    ;
}

/// The rows are as wide as they must be for the mosaic to be no taller than wide: the square of
/// the columns reaches the count, and that of one column less does not. There are no more rows
/// than that takes, none of them is empty, and none is wider.
pub proof fn mosaics_are_nearly_square(count: int, r: int)
    requires
        count >= 1,
        0 <= r < mosaic_rows(count),
    ensures
        ({
            let columns = mosaic_columns(count);
            let rows = mosaic_rows(count);
            &&& columns >= 1
            &&& columns * columns >= count
            &&& columns > 1 ==> (columns - 1) * (columns - 1) < count
            &&& (rows - 1) * columns < count <= rows * columns
            &&& rows <= columns
            &&& 1 <= row_population(count, r) <= columns
        }),
{
    let columns = lemma_ceil_sqrt_exists(count);
    lemma_mosaic_shape(count, columns);
    let rows = mosaic_rows(count);
    assert((rows - 1) * columns < count <= rows * columns) by (nonlinear_arith)
        requires
            columns >= 1,
            count >= 1,
            rows == (count + columns - 1) / columns,
    ;
    assert(rows <= columns) by (nonlinear_arith)
        requires
            columns >= 1,
            columns * columns >= count,
            (rows - 1) * columns < count,
    ;
    assert(row_population(count, r) <= columns) by (nonlinear_arith)
        requires
            rows >= 1,
            columns >= 1,
            0 <= r < rows,
            count <= rows * columns,
            row_population(count, r) == count / rows + (if r < count % rows {
                1int
            } else {
                0
            }),
    ;
}

/// The rows share the windows: each has as many as the next or one more, and together they
/// have all.
pub proof fn rows_share_the_windows(count: int, r: int)
    requires
        count >= 1,
        0 <= r < mosaic_rows(count),
    ensures
        row_population(count, r + 1) <= row_population(count, r) <= row_population(count, r + 1) + 1,
        windows_before(count, 0) == 0,
        windows_before(count, r + 1) == windows_before(count, r) + row_population(count, r),
        windows_before(count, mosaic_rows(count)) == count,
{
    let columns = lemma_ceil_sqrt_exists(count);
    lemma_mosaic_shape(count, columns);
}

/// Neighbours in a row are as high, start at the same height, and are the gap apart; a row
/// begins at the left of the field and ends at its right.
pub proof fn rows_are_filled(
    outer: Rectangle,
    count: int,
    gap: int,
    regions: Seq<Rectangle>,
    r: int,
    c: int,
)
    requires
        count >= 2,
        count != 3,
        is_mosaic(outer, count, gap, regions),
        0 <= r < mosaic_rows(count),
        0 <= c < row_population(count, r),
    ensures
        ({
            let at = windows_before(count, r) + c;
            &&& c == 0 ==> regions[at].loc.x == outer.loc.x
            &&& c + 1 < row_population(count, r) ==> {
                &&& regions[at + 1].loc.y == regions[at].loc.y
                &&& regions[at + 1].size.h == regions[at].size.h
                &&& regions[at + 1].loc.x == regions[at].loc.x + regions[at].size.w + (if gap > 0 {
                    gap
                } else {
                    0
                })
                &&& regions[at + 1].size.w <= regions[at].size.w <= regions[at + 1].size.w + 1
            }
            &&& c + 1 == row_population(count, r) ==> regions[at].loc.x + regions[at].size.w
                == outer.loc.x + outer.size.w
            &&& r == 0 ==> regions[at].loc.y == outer.loc.y
            &&& r + 1 == mosaic_rows(count) ==> regions[at].loc.y + regions[at].size.h
                == outer.loc.y + outer.size.h
        }),
{
    let n = row_population(count, r);
    let (x, w) = (outer.loc.x as int, outer.size.w as int);
    let (y, h) = (outer.loc.y as int, outer.size.h as int);
    assert(is_cell(
        regions[mosaic_index(count, r, c)],
        outer,
        gap,
        n,
        c,
        mosaic_rows(count),
        r,
    ));
    segments_follow(x, w, n, gap, c);
    segments_fill_axis(x, w, n, gap);
    segments_fill_axis(y, h, mosaic_rows(count), gap);
    segments_follow(y, h, mosaic_rows(count), gap, r);
    if c + 1 < n {
        assert(is_cell(
            regions[mosaic_index(count, r, c + 1)],
            outer,
            gap,
            n,
            c + 1,
            mosaic_rows(count),
            r,
        ));
        segments_are_balanced(w, n, gap, c, c + 1);
    }
}

/// Of three windows the first has the left half at full height, and the others share the right
/// half, one above the other, the gap apart.
pub proof fn three_windows_share_the_field(
    outer: Rectangle,
    gap: int,
    regions: Seq<Rectangle>,
)
    requires
        is_mosaic(outer, 3, gap, regions),
    ensures
        ({
            let space = if gap > 0 {
                gap
            } else {
                0
            };
            &&& regions[0].loc == outer.loc
            &&& regions[0].size.h == outer.size.h
            &&& regions[1].loc.x == regions[0].loc.x + regions[0].size.w + space
            &&& regions[1].loc.x + regions[1].size.w == outer.loc.x + outer.size.w
            &&& regions[2].loc.x == regions[1].loc.x && regions[2].size.w == regions[1].size.w
            &&& regions[1].loc.y == outer.loc.y
            &&& regions[2].loc.y == regions[1].loc.y + regions[1].size.h + space
            &&& regions[2].loc.y + regions[2].size.h == outer.loc.y + outer.size.h
            &&& 0 <= regions[0].size.w - regions[1].size.w <= 1
            &&& 0 <= regions[1].size.h - regions[2].size.h <= 1
        }),
{
    let (x, w) = (outer.loc.x as int, outer.size.w as int);
    let (y, h) = (outer.loc.y as int, outer.size.h as int);
    segments_follow(x, w, 2, gap, 0);
    segments_fill_axis(x, w, 2, gap);
    segments_follow(y, h, 2, gap, 0);
    segments_fill_axis(y, h, 2, gap);
    segments_are_balanced(w, 2, gap, 0, 1);
    segments_are_balanced(h, 2, gap, 0, 1);
}

/// An axis is divided exactly where each part gets a pixel beside the gaps, and no sum on the
/// way leaves the range of coordinates.
pub proof fn axes_are_divided_where_there_is_room(start: int, length: int, count: int, gap: int)
    requires
        1 <= count <= 0x7fff_ffff,
        -0x8000_0000 <= start <= 0x7fff_ffff,
        gap >= 0,
        length + gap <= 0x7fff_ffff - start,
        gap * (count - 1) <= 0x7fff_ffff,
    ensures
        axis_splits(start, length, count, gap) <==> length >= count + gap * (count - 1),
        axis_splits(start, length, count, 0) <==> length >= count && start + length <= 0x7fff_ffff,
{
}

/// A mosaic is for two windows or more; two share the width at full height.
pub proof fn mosaics_are_for_two_or_more(outer: Rectangle, count: int, gap: int)
    ensures
        count < 2 ==> !mosaic_fits(outer, count, gap),
        mosaic_fits(outer, 2, gap) <==> axis_splits(
            outer.loc.x as int,
            outer.size.w as int,
            2,
            gap,
        ) && axis_splits(outer.loc.y as int, outer.size.h as int, 1, gap),
        mosaic_fits(outer, 3, gap) <==> axis_splits(
            outer.loc.x as int,
            outer.size.w as int,
            2,
            gap,
        ) && axis_splits(outer.loc.y as int, outer.size.h as int, 2, gap),
{
    assert(is_ceil_sqrt(2, 2));
    lemma_mosaic_shape(2, 2);
    assert(mosaic_rows(2) == 1);
    let rows = mosaic_rows(2);
    assert(2int / rows == 2 && 2int % rows == 0) by (nonlinear_arith)
        requires
            rows == 1,
    ;
    assert(row_population(2, 0) == 2);
}

} // verus!
