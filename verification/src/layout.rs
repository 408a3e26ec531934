//! How a workspace divides its area between panes.

use crate::doubles;
use crate::doubles::{difference, excess, half, sum};
use crate::ids::PaneId;
use vstd::prelude::*;

verus! {

/// The direction along which a split lays out its two halves.
#[derive(Debug, Clone, Copy, PartialEq, Eq, Structural)]
pub enum SplitOrientation {
    /// Side by side.
    Horizontal,
    /// One above the other.
    Vertical,
}

/// A direction in which the focus moves between panes.
#[derive(Debug, Clone, Copy, PartialEq, Eq, Structural)]
pub enum FocusDirection {
    /// Towards the left edge.
    Left,
    /// Towards the right edge.
    Right,
    /// Towards the top edge.
    Up,
    /// Towards the bottom edge.
    Down,
}

/// A binary tree of splits with panes at its leaves.
#[derive(Debug)]
pub enum WorkspaceLayout {
    /// A single pane.
    Pane(PaneId),
    /// An area divided in two equal halves.
    Split {
        /// How the halves are laid out.
        orientation: SplitOrientation,
        /// The left or upper half.
        first: Box<WorkspaceLayout>,
        /// The right or lower half.
        second: Box<WorkspaceLayout>,
    },
}

impl WorkspaceLayout {
    /// A split whose halves are `current` and `added`.
    pub open spec fn halves(
        current: PaneId,
        added: PaneId,
        orientation: SplitOrientation,
        insert_first: bool,
    ) -> WorkspaceLayout {
        if insert_first {
            WorkspaceLayout::Split {
                orientation,
                first: Box::new(WorkspaceLayout::Pane(added)),
                second: Box::new(WorkspaceLayout::Pane(current)),
            }
        } else {
            WorkspaceLayout::Split {
                orientation,
                first: Box::new(WorkspaceLayout::Pane(current)),
                second: Box::new(WorkspaceLayout::Pane(added)),
            }
        }
    }

    /// The layout with the first leaf for `target` split in two, if there is such a leaf.
    pub open spec fn with_split(
        self,
        target: PaneId,
        added: PaneId,
        orientation: SplitOrientation,
        insert_first: bool,
    ) -> Option<WorkspaceLayout>
        decreases self,
    {
        match self {
            WorkspaceLayout::Pane(pane_id) => if pane_id == target {
                Some(Self::halves(target, added, orientation, insert_first))
            } else {
                None
            },
            WorkspaceLayout::Split { orientation: outer, first, second } => match first.with_split(
                target,
                added,
                orientation,
                insert_first,
            ) {
                Some(next) => Some(
                    WorkspaceLayout::Split { orientation: outer, first: Box::new(next), second },
                ),
                None => match second.with_split(target, added, orientation, insert_first) {
                    Some(next) => Some(
                        WorkspaceLayout::Split { orientation: outer, first, second: Box::new(next) },
                    ),
                    None => None,
                },
            },
        }
    }

    /// The layout without the leaves for `target`: a split that loses one half becomes its other
    /// half. Nothing is left where every leaf is for `target`.
    pub open spec fn without(self, target: PaneId) -> Option<WorkspaceLayout>
        decreases self,
    {
        match self {
            WorkspaceLayout::Pane(pane_id) => if pane_id == target {
                None
            } else {
                Some(self)
            },
            WorkspaceLayout::Split { orientation, first, second } => match (
                first.without(target),
                second.without(target),
            ) {
                (Some(left), Some(right)) => Some(
                    WorkspaceLayout::Split {
                        orientation,
                        first: Box::new(left),
                        second: Box::new(right),
                    },
                ),
                (Some(left), None) => Some(left),
                (None, Some(right)) => Some(right),
                (None, None) => None,
            },
        }
    }

    /// The panes at the leaves, from first to last.
    pub open spec fn leaves(self) -> Seq<PaneId>
        decreases self,
    {
        match self {
            WorkspaceLayout::Pane(pane_id) => seq![pane_id],
            WorkspaceLayout::Split { first, second, .. } => first.leaves() + second.leaves(),
        }
    }

    /// Copies the layout.
    pub fn copy(&self) -> (copy: WorkspaceLayout)
        ensures
            copy == *self,
        decreases self,
    {
        match self {
            WorkspaceLayout::Pane(pane_id) => WorkspaceLayout::Pane(*pane_id),
            WorkspaceLayout::Split { orientation, first, second } => WorkspaceLayout::Split {
                orientation: *orientation,
                first: Box::new(first.copy()),
                second: Box::new(second.copy()),
            },
        }
    }

    /// Splits the first leaf for `target_pane_id` in two; the new pane takes the first half if
    /// `insert_first`, else the second. Returns whether there was such a leaf.
    pub fn split_leaf(
        &mut self,
        target_pane_id: PaneId,
        new_pane_id: PaneId,
        orientation: SplitOrientation,
        insert_first: bool,
    ) -> (done: bool)
        ensures
            match old(self).with_split(target_pane_id, new_pane_id, orientation, insert_first) {
                Some(next) => done && *final(self) == next,
                None => !done && *final(self) == *old(self),
            },
        decreases *old(self),
    {
        let mut leaf: bool = false;
        let mut done: bool = false;
        match self {
            WorkspaceLayout::Pane(existing_pane_id) => {
                if *existing_pane_id != target_pane_id {
                    return false;
                }
                leaf = true;
            },
            WorkspaceLayout::Split { first, second, .. } => {
                done = first.split_leaf(target_pane_id, new_pane_id, orientation, insert_first);
                if !done {
                    done = second.split_leaf(target_pane_id, new_pane_id, orientation, insert_first);
                }
            },
        }
        if leaf {
            let current = WorkspaceLayout::Pane(target_pane_id);
            let new_leaf = WorkspaceLayout::Pane(new_pane_id);
            let (first, second) = if insert_first {
                (new_leaf, current)
            } else {
                (current, new_leaf)
            };
            *self = WorkspaceLayout::Split {
                orientation,
                first: Box::new(first),
                second: Box::new(second),
            };
            done = true;
        }
        done
    }

    /// The layout without the leaves for `target_pane_id`.
    pub fn without_pane(self, target_pane_id: PaneId) -> (rest: Option<WorkspaceLayout>)
        ensures
            rest == self.without(target_pane_id),
        decreases self,
    {
        match self {
            WorkspaceLayout::Pane(pane_id) => {
                if pane_id != target_pane_id {
                    Some(WorkspaceLayout::Pane(pane_id))
                } else {
                    None
                }
            },
            WorkspaceLayout::Split { orientation, first, second } => {
                let left = (*first).without_pane(target_pane_id);
                let right = (*second).without_pane(target_pane_id);
                match (left, right) {
                    (Some(first), Some(second)) => Some(
                        WorkspaceLayout::Split {
                            orientation,
                            first: Box::new(first),
                            second: Box::new(second),
                        },
                    ),
                    (Some(layout), None) => Some(layout),
                    (None, Some(layout)) => Some(layout),
                    (None, None) => None,
                }
            },
        }
    }

    /// What is left in place when `target` is removed: the rest of the layout, or a single leaf
    /// for `target` where nothing else is left.
    pub open spec fn removed(self, target: PaneId) -> WorkspaceLayout {
        match self.without(target) {
            Some(next) => next,
            None => WorkspaceLayout::Pane(target),
        }
    }

    /// Removes the leaves for `target_pane_id`. Returns whether another leaf is left.
    pub fn remove_pane(&mut self, target_pane_id: PaneId) -> (done: bool)
        ensures
            *final(self) == old(self).removed(target_pane_id),
            done == (old(self).without(target_pane_id) is Some),
    {
        let mut current = WorkspaceLayout::Pane(target_pane_id);
        std::mem::swap(self, &mut current);
        match current.without_pane(target_pane_id) {
            Some(next) => {
                *self = next;
                true
            },
            None => false,
        }
    }

    /// Adds the panes at the leaves to `output`, from first to last.
    pub fn collect_pane_ids(&self, output: &mut Vec<PaneId>)
        ensures
            final(output)@ == old(output)@ + self.leaves(),
        decreases self,
    {
        match self {
            WorkspaceLayout::Pane(pane_id) => {
                output.push(*pane_id);
                proof {
                    assert(output@ =~= old(output)@ + seq![*pane_id]);
                }
            },
            WorkspaceLayout::Split { first, second, .. } => {
                first.collect_pane_ids(output);
                second.collect_pane_ids(output);
                proof {
                    assert(output@ =~= old(output)@ + (first.leaves() + second.leaves()));
                }
            },
        }
    }
}

impl Clone for WorkspaceLayout {
    fn clone(&self) -> (copy: Self)
        ensures
            copy == *self,
    {
        self.copy()
    }
}

// ---------------------------------------------------------------------------
// Geometry
// ---------------------------------------------------------------------------

/// The rectangle that a pane takes in its workspace's area, a square of side 1. The lengths are
/// numbers in double precision, by their bits.
#[derive(Debug, Clone, Copy, PartialEq, Eq, Structural)]
pub struct PaneRegion {
    /// The pane.
    pub pane_id: PaneId,
    /// The distance of its left edge from the left.
    pub x: u64,
    /// The distance of its upper edge from the top.
    pub y: u64,
    /// Its width.
    pub width: u64,
    /// Its height.
    pub height: u64,
}

/// The length that two intervals share.
pub open spec fn shared(low_a: u64, high_a: u64, low_b: u64, high_b: u64) -> u64 {
    let low = if low_a > low_b {
        low_a
    } else {
        low_b
    };
    let high = if high_a < high_b {
        high_a
    } else {
        high_b
    };
    doubles::above(high, low)
}

fn shared_length(low_a: u64, high_a: u64, low_b: u64, high_b: u64) -> (length: u64)
    requires
        low_a <= doubles::LIMIT,
        high_a <= doubles::LIMIT,
        low_b <= doubles::LIMIT,
        high_b <= doubles::LIMIT,
    ensures
        length == shared(low_a, high_a, low_b, high_b),
{
    let low: u64 = if low_a > low_b {
        low_a
    } else {
        low_b
    };
    let high: u64 = if high_a < high_b {
        high_a
    } else {
        high_b
    };
    excess(high, low)
}

/// How a pane lies from another one in a direction; the lengths are numbers in double precision.
#[derive(Debug, Clone, Copy, PartialEq, Eq, Structural)]
pub struct Reach {
    /// The gap between the two, along the direction.
    pub gap: u64,
    /// The distance of their centres, across the direction.
    pub offset: u64,
    /// The length of the edge they share, across the direction.
    pub overlap: u64,
}

impl Reach {
    /// Whether all lengths can be subtracted.
    pub open spec fn bounded(self) -> bool {
        self.gap <= doubles::LIMIT && self.overlap <= doubles::LIMIT
    }

    /// Whether this pane is nearer than the other: it shares a longer edge; with edges of about one
    /// length, its gap is smaller; with about equal gaps, its centre is nearer.
    pub open spec fn beats(self, other: Reach) -> bool {
        ||| self.overlap > other.overlap
        ||| doubles::apart(self.overlap, other.overlap) < doubles::EPSILON && (self.gap < other.gap
            || (doubles::apart(self.gap, other.gap) < doubles::EPSILON && self.offset
            < other.offset))
    }

    fn nearer(&self, other: &Reach) -> (nearer: bool)
        requires
            self.bounded(),
            other.bounded(),
        ensures
            nearer == self.beats(*other),
    {
        self.overlap > other.overlap || (difference(self.overlap, other.overlap)
            < doubles::EPSILON && (self.gap < other.gap || (difference(self.gap, other.gap)
            < doubles::EPSILON && self.offset < other.offset)))
    }
}

impl PaneRegion {
    /// Whether all sums of the lengths can be calculated.
    pub open spec fn bounded(self) -> bool {
        &&& self.x <= doubles::LIMIT
        &&& self.y <= doubles::LIMIT
        &&& self.width <= doubles::ONE
        &&& self.height <= doubles::ONE
    }

    /// The horizontal position of the right edge.
    pub open spec fn right(self) -> u64 {
        doubles::sum_of(self.x, self.width)
    }

    /// The vertical position of the lower edge.
    pub open spec fn bottom(self) -> u64 {
        doubles::sum_of(self.y, self.height)
    }

    /// The horizontal position of the centre.
    pub open spec fn center_x(self) -> u64 {
        doubles::sum_of(self.x, doubles::half_of(self.width))
    }

    /// The vertical position of the centre.
    pub open spec fn center_y(self) -> u64 {
        doubles::sum_of(self.y, doubles::half_of(self.height))
    }

    /// How `self` lies from `current` in `direction`, if its centre is farther that way.
    pub open spec fn reached_from(
        self,
        current: PaneRegion,
        direction: FocusDirection,
    ) -> Option<Reach> {
        let across_y = shared(current.y, current.bottom(), self.y, self.bottom());
        let across_x = shared(current.x, current.right(), self.x, self.right());
        let offset_y = doubles::apart(self.center_y(), current.center_y());
        let offset_x = doubles::apart(self.center_x(), current.center_x());
        match direction {
            FocusDirection::Left => if self.center_x() < current.center_x() {
                Some(
                    Reach {
                        gap: doubles::above(current.x, self.right()),
                        offset: offset_y,
                        overlap: across_y,
                    },
                )
            } else {
                None
            },
            FocusDirection::Right => if self.center_x() > current.center_x() {
                Some(
                    Reach {
                        gap: doubles::above(self.x, current.right()),
                        offset: offset_y,
                        overlap: across_y,
                    },
                )
            } else {
                None
            },
            FocusDirection::Up => if self.center_y() < current.center_y() {
                Some(
                    Reach {
                        gap: doubles::above(current.y, self.bottom()),
                        offset: offset_x,
                        overlap: across_x,
                    },
                )
            } else {
                None
            },
            FocusDirection::Down => if self.center_y() > current.center_y() {
                Some(
                    Reach {
                        gap: doubles::above(self.y, current.bottom()),
                        offset: offset_x,
                        overlap: across_x,
                    },
                )
            } else {
                None
            },
        }
    }

    fn reach_from(&self, current: &PaneRegion, direction: FocusDirection) -> (reach: Option<Reach>)
        requires
            self.bounded(),
            current.bounded(),
        ensures
            reach == self.reached_from(*current, direction),
            match reach {
                Some(inner) => inner.bounded(),
                None => true,
            },
    {
        let right = sum(self.x, self.width);
        let bottom = sum(self.y, self.height);
        let other_right = sum(current.x, current.width);
        let other_bottom = sum(current.y, current.height);
        let mine_x = sum(self.x, half(self.width));
        let mine_y = sum(self.y, half(self.height));
        let other_x = sum(current.x, half(current.width));
        let other_y = sum(current.y, half(current.height));
        let across_y = shared_length(current.y, other_bottom, self.y, bottom);
        let across_x = shared_length(current.x, other_right, self.x, right);
        let offset_x = difference(mine_x, other_x);
        let offset_y = difference(mine_y, other_y);
        proof {
            lemma_shared_bounded(current.y, other_bottom, self.y, bottom);
            lemma_shared_bounded(current.x, other_right, self.x, right);
        }
        match direction {
            FocusDirection::Left => if mine_x < other_x {
                Some(
                    Reach { gap: excess(current.x, right), offset: offset_y, overlap: across_y },
                )
            } else {
                None
            },
            FocusDirection::Right => if mine_x > other_x {
                Some(
                    Reach {
                        gap: excess(self.x, other_right),
                        offset: offset_y,
                        overlap: across_y,
                    },
                )
            } else {
                None
            },
            FocusDirection::Up => if mine_y < other_y {
                Some(
                    Reach { gap: excess(current.y, bottom), offset: offset_x, overlap: across_x },
                )
            } else {
                None
            },
            FocusDirection::Down => if mine_y > other_y {
                Some(
                    Reach {
                        gap: excess(self.y, other_bottom),
                        offset: offset_x,
                        overlap: across_x,
                    },
                )
            } else {
                None
            },
        }
    }
}

proof fn lemma_shared_bounded(low_a: u64, high_a: u64, low_b: u64, high_b: u64)
    requires
        high_a <= doubles::LIMIT,
        high_b <= doubles::LIMIT,
    ensures
        shared(low_a, high_a, low_b, high_b) <= doubles::LIMIT,
{
    let low = if low_a > low_b {
        low_a
    } else {
        low_b
    };
    let high = if high_a < high_b {
        high_a
    } else {
        high_b
    };
    doubles::lemma_apart_not_above(high, low);
}

impl WorkspaceLayout {
    /// The rectangles of the leaves, from first to last, where the layout fills the rectangle
    /// given by its position and size.
    pub open spec fn regions(self, x: u64, y: u64, width: u64, height: u64) -> Seq<PaneRegion>
        decreases self,
    {
        match self {
            WorkspaceLayout::Pane(pane_id) => seq![PaneRegion { pane_id, x, y, width, height }],
            WorkspaceLayout::Split { orientation, first, second } => match orientation {
                SplitOrientation::Horizontal => first.regions(
                    x,
                    y,
                    doubles::half_of(width),
                    height,
                ) + second.regions(
                    doubles::sum_of(x, doubles::half_of(width)),
                    y,
                    doubles::apart(width, doubles::half_of(width)),
                    height,
                ),
                SplitOrientation::Vertical => first.regions(
                    x,
                    y,
                    width,
                    doubles::half_of(height),
                ) + second.regions(
                    x,
                    doubles::sum_of(y, doubles::half_of(height)),
                    width,
                    doubles::apart(height, doubles::half_of(height)),
                ),
            },
        }
    }

    /// The rectangles of the leaves in the whole area.
    pub open spec fn all_regions(self) -> Seq<PaneRegion> {
        self.regions(0, 0, doubles::ONE, doubles::ONE)
    }

    /// Adds the rectangles of the leaves to `output`, from first to last.
    pub fn collect_pane_regions(
        &self,
        output: &mut Vec<PaneRegion>,
        x: u64,
        y: u64,
        width: u64,
        height: u64,
    )
        requires
            x <= doubles::LIMIT,
            y <= doubles::LIMIT,
            width <= doubles::ONE,
            height <= doubles::ONE,
        ensures
            final(output)@ == old(output)@ + self.regions(x, y, width, height),
            forall|k: int|
                old(output)@.len() <= k < final(output)@.len() ==> (
                #[trigger] final(output)@[k]).bounded(),
        decreases self,
    {
        match self {
            WorkspaceLayout::Pane(pane_id) => {
                let region = PaneRegion { pane_id: *pane_id, x, y, width, height };
                output.push(region);
                proof {
                    assert(output@ =~= old(output)@ + seq![region]);
                }
            },
            WorkspaceLayout::Split { orientation, first, second } => {
                match orientation {
                    SplitOrientation::Horizontal => {
                        let split_width = half(width);
                        first.collect_pane_regions(output, x, y, split_width, height);
                        second.collect_pane_regions(
                            output,
                            sum(x, split_width),
                            y,
                            difference(width, split_width),
                            height,
                        );
                    },
                    SplitOrientation::Vertical => {
                        let split_height = half(height);
                        first.collect_pane_regions(output, x, y, width, split_height);
                        second.collect_pane_regions(
                            output,
                            x,
                            sum(y, split_height),
                            width,
                            difference(height, split_height),
                        );
                    },
                }
                proof {
                    assert(output@ =~= old(output)@ + self.regions(x, y, width, height));
                }
            },
        }
    }
}

/// The place of the first region for `pane_id`, looking from `at` on.
pub open spec fn region_from(regions: Seq<PaneRegion>, pane_id: PaneId, at: int) -> Option<int>
    decreases regions.len() - at,
{
    if at >= regions.len() {
        None
    } else if regions[at].pane_id == pane_id {
        Some(at)
    } else {
        region_from(regions, pane_id, at + 1)
    }
}

/// How a region lies from `current`, if it belongs to another pane and lies that way.
pub open spec fn candidate(
    region: PaneRegion,
    current: PaneRegion,
    direction: FocusDirection,
) -> Option<Reach> {
    if region.pane_id == current.pane_id {
        None
    } else {
        region.reached_from(current, direction)
    }
}

/// The place of the nearest of the first `count` regions in `direction`, and how it lies from
/// `current`. Among equally near ones, the first.
pub open spec fn nearest(
    regions: Seq<PaneRegion>,
    current: PaneRegion,
    direction: FocusDirection,
    count: int,
) -> Option<(int, Reach)>
    decreases count,
{
    if count <= 0 {
        None
    } else {
        let best = nearest(regions, current, direction, count - 1);
        match candidate(regions[count - 1], current, direction) {
            None => best,
            Some(reach) => match best {
                None => Some((count - 1, reach)),
                Some(found) => if reach.beats(found.1) {
                    Some((count - 1, reach))
                } else {
                    best
                },
            },
        }
    }
}

/// The pane that the focus moves to from `pane_id` in `direction`, if any lies that way.
pub open spec fn adjacent(
    regions: Seq<PaneRegion>,
    pane_id: PaneId,
    direction: FocusDirection,
) -> Option<PaneId> {
    match region_from(regions, pane_id, 0) {
        None => None,
        Some(at) => match nearest(regions, regions[at], direction, regions.len() as int) {
            None => None,
            Some(found) => Some(regions[found.0].pane_id),
        },
    }
}

impl WorkspaceLayout {
    /// The rectangles of the panes in the whole area.
    pub fn pane_regions(&self) -> (regions: Vec<PaneRegion>)
        ensures
            regions@ == self.all_regions(),
            forall|k: int| 0 <= k < regions@.len() ==> (#[trigger] regions@[k]).bounded(),
    {
        let mut regions: Vec<PaneRegion> = Vec::new();
        self.collect_pane_regions(&mut regions, 0, 0, doubles::ONE, doubles::ONE);
        proof {
            assert(regions@ =~= self.all_regions());
        }
        regions
    }

    /// The pane that the focus moves to from `pane_id` in `direction`.
    pub fn adjacent_pane(&self, pane_id: PaneId, direction: FocusDirection) -> (found: Option<PaneId>)
        ensures
            found == adjacent(self.all_regions(), pane_id, direction),
    {
        let regions = self.pane_regions();
        let mut place: usize = 0;
        while place < regions.len() && regions[place].pane_id != pane_id
            invariant
                place <= regions@.len(),
                region_from(regions@, pane_id, 0) == region_from(regions@, pane_id, place as int),
            decreases regions@.len() - place,
        {
            place = place + 1;
        }
        if place >= regions.len() {
            return None;
        }
        let current = regions[place];
        let mut best: Option<(usize, Reach)> = None;
        let mut at: usize = 0;
        while at < regions.len()
            invariant
                at <= regions@.len(),
                current.bounded(),
                forall|k: int| 0 <= k < regions@.len() ==> (#[trigger] regions@[k]).bounded(),
                match best {
                    Some(found) => found.1.bounded(),
                    None => true,
                },
                match best {
                    None => nearest(regions@, current, direction, at as int) is None,
                    Some(found) => found.0 < at && nearest(regions@, current, direction, at as int)
                        == Some((found.0 as int, found.1)),
                },
            decreases regions@.len() - at,
        {
            if regions[at].pane_id != current.pane_id {
                if let Some(reach) = regions[at].reach_from(&current, direction) {
                    let replace: bool = match &best {
                        None => true,
                        Some(found) => reach.nearer(&found.1),
                    };
                    if replace {
                        best = Some((at, reach));
                    }
                }
            }
            at = at + 1;
        }
        match best {
            None => None,
            Some(found) => Some(regions[found.0].pane_id),
        }
    }
}

} // verus!
