//! Resolving a pointer position to the display that contains it.

use crate::search::{first_where, is_first, lemma_first_absent, lemma_first_found};
use vstd::prelude::*;

verus! {

/// A pointer position in screen coordinates.
#[derive(Clone, Copy, Debug)]
pub struct Point {
    pub x: i32,
    pub y: i32,
}

/// The rectangle a display covers, and the name the operating system reports
/// for it, if it reports one.
#[derive(Debug)]
pub struct MonitorRegion {
    pub name: Option<String>,
    pub left: i32,
    pub top: i32,
    pub width: u32,
    pub height: u32,
}

impl MonitorRegion {
    /// A point lies inside a region when it is strictly between the left and
    /// right edges and strictly between the top and bottom edges. A point on
    /// an edge belongs to no region.
    pub open spec fn encloses(&self, point: Point) -> bool {
        &&& self.left < point.x < self.left + self.width
        &&& self.top < point.y < self.top + self.height
    }

    /// Whether `point` lies strictly inside this region.
    pub fn contains(&self, point: Point) -> (inside: bool)
        ensures
            inside == self.encloses(point),
    {
        let x: i64 = point.x as i64;
        let y: i64 = point.y as i64;
        let right: i64 = self.left as i64 + self.width as i64;
        let bottom: i64 = self.top as i64 + self.height as i64;
        (self.left as i64) < x && x < right && (self.top as i64) < y && y < bottom
    }
}

/// The test "this region encloses `point`".
pub open spec fn enclosing(point: Point) -> spec_fn(MonitorRegion) -> bool {
    |region: MonitorRegion| region.encloses(point)
}

/// The identity of the display under `point`: the name of the first region, in
/// the order given, that encloses the point. There is none when no region
/// encloses the point, and none when that first region has no name; regions
/// after the first enclosing one are not consulted.
pub open spec fn located(regions: Seq<MonitorRegion>, point: Point) -> Option<Seq<char>> {
    match first_where(regions, enclosing(point)) {
        Some(i) => regions[i].name.deep_view(),
        None => None,
    }
}

/// Resolves `point` to the identity of the display that contains it.
///
/// `None` is an ordinary answer: the pointer is on no known display.
pub fn locate(regions: &[MonitorRegion], point: Point) -> (found: Option<String>)
    ensures
        found.deep_view() == located(regions@, point),
{
    let mut i: usize = 0;
    while i < regions.len()
        invariant
            i <= regions.len(),
            forall|j: int| 0 <= j < i ==> !enclosing(point)(#[trigger] regions@[j]),
        decreases regions.len() - i,
    {
        if regions[i].contains(point) {
            proof {
                assert(is_first(regions@, enclosing(point), i as int));
                lemma_first_found(regions@, enclosing(point), i as int);
            }
            return match &regions[i].name {
                Some(name) => Some(name.clone()),
                None => None,
            };
        }
        i += 1;
    }
    proof {
        lemma_first_absent(regions@, enclosing(point));
    }
    None
}

} // verus!
