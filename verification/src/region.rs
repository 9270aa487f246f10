//! Regions made of added and subtracted rectangles.

use vstd::prelude::*;

use crate::geometry::Point;
use crate::geometry::Rectangle;

verus! {

/// What a rectangle does to a region.
#[derive(Clone, Copy, Debug, PartialEq, Eq, Structural)]
pub enum RectangleKind {
    Add,
    Subtract,
}

/// A region as a list of rectangles, each added to or taken from what the ones
/// before it cover.
#[derive(Debug)]
pub struct Region {
    pub rects: Vec<(RectangleKind, Rectangle)>,
}

/// The first `count` rectangles cover `point`: the last of them that holds it adds
/// it.
pub open spec fn covers(
    rects: Seq<(RectangleKind, Rectangle)>,
    count: nat,
    point: Point,
) -> bool
    decreases count,
{
    if count == 0 {
        false
    } else {
        let (kind, rect) = rects[count - 1];
        if rect.spec_contains(point) {
            kind == RectangleKind::Add
        } else {
            covers(rects, (count - 1) as nat, point)
        }
    }
}

impl Region {
    /// The region covers `point`.
    pub open spec fn spec_contains(self, point: Point) -> bool {
        covers(self.rects@, self.rects@.len(), point)
    }

    /// Whether the region covers `point`.
    pub fn contains(&self, point: Point) -> (r: bool)
        ensures
            r == self.spec_contains(point),
    {
        let mut contains = false;
        let mut index: usize = 0;
        while index < self.rects.len()
            invariant
                index <= self.rects@.len(),
                contains == covers(self.rects@, index as nat, point),
            decreases self.rects@.len() - index,
        {
            let (kind, rect) = self.rects[index];
            if rect.contains(point) {
                contains = kind == RectangleKind::Add;
            }
            index += 1;
        }
        contains
    }
}

/// An absent region covers everything.
pub open spec fn region_allows(region: Option<&Region>, point: Point) -> bool {
    match region {
        Some(region) => region.spec_contains(point),
        None => true,
    }
}

/// Whether a region, where there is one, covers `point`.
pub fn allows(region: Option<&Region>, point: Point) -> (r: bool)
    ensures
        r == region_allows(region, point),
{
    match region {
        Some(region) => region.contains(point),
        None => true,
    }
}

/// The last rectangle that holds a pixel decides on it: a pixel that is added is covered, one
/// that is taken away is not, and a rectangle that does not hold it changes nothing.
pub proof fn the_last_rectangle_decides(
    rects: Seq<(RectangleKind, Rectangle)>,
    rect: Rectangle,
    point: Point,
)
    ensures
        rect.spec_contains(point) ==> covers(
            rects.push((RectangleKind::Add, rect)),
            rects.len() + 1,
            point,
        ),
        rect.spec_contains(point) ==> !covers(
            rects.push((RectangleKind::Subtract, rect)),
            rects.len() + 1,
            point,
        ),
        !rect.spec_contains(point) ==> (covers(
            rects.push((RectangleKind::Add, rect)),
            rects.len() + 1,
            point,
        ) <==> covers(rects, rects.len(), point)),
        !rect.spec_contains(point) ==> (covers(
            rects.push((RectangleKind::Subtract, rect)),
            rects.len() + 1,
            point,
        ) <==> covers(rects, rects.len(), point)),
        !covers(rects, 0, point),
{
    lemma_covers_prefix(rects, rects.push((RectangleKind::Add, rect)), rects.len(), point);
    lemma_covers_prefix(rects, rects.push((RectangleKind::Subtract, rect)), rects.len(), point);
}

proof fn lemma_covers_prefix(
    a: Seq<(RectangleKind, Rectangle)>,
    b: Seq<(RectangleKind, Rectangle)>,
    count: nat,
    point: Point,
)
    requires
        count <= a.len() <= b.len(),
        forall|i: int| 0 <= i < a.len() ==> a[i] == #[trigger] b[i],
    ensures
        covers(a, count, point) == covers(b, count, point),
    decreases count,
{
    if count > 0 {
        lemma_covers_prefix(a, b, (count - 1) as nat, point);
        assert(a[count - 1] == b[count - 1]);
    }
}

/// Only a region that is there keeps a pixel out.
pub proof fn missing_regions_allow_everything(region: &Region, point: Point)
    ensures
        region_allows(None, point),
        region_allows(Some(region), point) <==> covers(region.rects@, region.rects@.len(), point),
{
}

} // verus!
