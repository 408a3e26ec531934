//! What holds of the rectangles that a layout gives its panes.

use crate::doubles;
use crate::doubles::{FRACTIONS, ONE};
use crate::layout;
use crate::layout::{FocusDirection, PaneRegion, Reach, SplitOrientation, WorkspaceLayout};
use vstd::arithmetic::div_mod::lemma_fundamental_div_mod_converse;
use vstd::arithmetic::power2::{
    lemma2_to64, lemma2_to64_rest, lemma_pow2_adds, lemma_pow2_pos, lemma_pow2_unfold, pow2,
};
use vstd::prelude::*;

verus! {

impl PaneRegion {
    /// Whether a point lies in the rectangle; it is given in units of the smallest number.
    pub open spec fn covers(self, x: int, y: int) -> bool {
        &&& doubles::value(self.x) <= x < doubles::value(self.x) + doubles::value(self.width)
        &&& doubles::value(self.y) <= y < doubles::value(self.y) + doubles::value(self.height)
    }
}

impl WorkspaceLayout {
    /// Whether no position is rounded, where the layout fills the rectangle given by its position
    /// and size.
    pub open spec fn unrounded(self, x: u64, y: u64, width: u64, height: u64) -> bool
        decreases self,
    {
        match self {
            WorkspaceLayout::Pane(_) => true,
            WorkspaceLayout::Split { orientation, first, second } => match orientation {
                SplitOrientation::Horizontal => {
                    let share = doubles::half_of(width);
                    let middle = doubles::sum_of(x, share);
                    &&& doubles::value(middle) == doubles::value(x) + doubles::value(share)
                    &&& first.unrounded(x, y, share, height)
                    &&& second.unrounded(middle, y, doubles::apart(width, share), height)
                },
                SplitOrientation::Vertical => {
                    let share = doubles::half_of(height);
                    let middle = doubles::sum_of(y, share);
                    &&& doubles::value(middle) == doubles::value(y) + doubles::value(share)
                    &&& first.unrounded(x, y, width, share)
                    &&& second.unrounded(x, middle, width, doubles::apart(height, share))
                },
            },
        }
    }

    /// How often the area is halved in this orientation, at most, on the way to a leaf.
    pub open spec fn halvings(self, along: SplitOrientation) -> nat
        decreases self,
    {
        match self {
            WorkspaceLayout::Pane(_) => 0,
            WorkspaceLayout::Split { orientation, first, second } => {
                let one = first.halvings(along);
                let other = second.halvings(along);
                (if orientation == along {
                    1nat
                } else {
                    0nat
                }) + (if one > other {
                    one
                } else {
                    other
                })
            },
        }
    }
}

/// Each pane has a rectangle, in the order of the leaves.
pub proof fn law_each_leaf_has_a_region(
    layout: WorkspaceLayout,
    x: u64,
    y: u64,
    width: u64,
    height: u64,
)
    ensures
        layout.regions(x, y, width, height).len() == layout.leaves().len(),
        forall|k: int|
            0 <= k < layout.leaves().len() ==> (#[trigger] layout.regions(
                x,
                y,
                width,
                height,
            )[k]).pane_id == layout.leaves()[k],
    decreases layout,
{
    match layout {
        WorkspaceLayout::Pane(_) => {},
        WorkspaceLayout::Split { orientation, first, second } => match orientation {
            SplitOrientation::Horizontal => {
                let share = doubles::half_of(width);
                law_each_leaf_has_a_region(*first, x, y, share, height);
                law_each_leaf_has_a_region(
                    *second,
                    doubles::sum_of(x, share),
                    y,
                    doubles::apart(width, share),
                    height,
                );
            },
            SplitOrientation::Vertical => {
                let share = doubles::half_of(height);
                law_each_leaf_has_a_region(*first, x, y, width, share);
                law_each_leaf_has_a_region(
                    *second,
                    x,
                    doubles::sum_of(y, share),
                    width,
                    doubles::apart(height, share),
                );
            },
        },
    }
}

/// Where no position is rounded, no rectangle reaches out of the area that the layout fills.
pub proof fn law_regions_stay_inside(
    layout: WorkspaceLayout,
    x: u64,
    y: u64,
    width: u64,
    height: u64,
    px: int,
    py: int,
    k: int,
)
    requires
        layout.unrounded(x, y, width, height),
        0 <= k < layout.regions(x, y, width, height).len(),
        layout.regions(x, y, width, height)[k].covers(px, py),
    ensures
        doubles::value(x) <= px < doubles::value(x) + doubles::value(width),
        doubles::value(y) <= py < doubles::value(y) + doubles::value(height),
    decreases layout,
{
    match layout {
        WorkspaceLayout::Pane(_) => {},
        WorkspaceLayout::Split { orientation, first, second } => {
            lemma_split_adds_up(width, height);
            let (left, right) = match orientation {
                SplitOrientation::Horizontal => {
                    let share = doubles::half_of(width);
                    (
                        (x, y, share, height),
                        (doubles::sum_of(x, share), y, doubles::apart(width, share), height),
                    )
                },
                SplitOrientation::Vertical => {
                    let share = doubles::half_of(height);
                    (
                        (x, y, width, share),
                        (x, doubles::sum_of(y, share), width, doubles::apart(height, share)),
                    )
                },
            };
            let near = first.regions(left.0, left.1, left.2, left.3);
            if k < near.len() {
                law_regions_stay_inside(*first, left.0, left.1, left.2, left.3, px, py, k);
            } else {
                law_regions_stay_inside(
                    *second,
                    right.0,
                    right.1,
                    right.2,
                    right.3,
                    px,
                    py,
                    k - near.len(),
                );
            }
        },
    }
}

proof fn lemma_split_adds_up(width: u64, height: u64)
    ensures
        doubles::value(doubles::half_of(width)) >= 0,
        doubles::value(doubles::half_of(height)) >= 0,
        doubles::value(doubles::apart(width, doubles::half_of(width))) >= 0,
        doubles::value(doubles::apart(height, doubles::half_of(height))) >= 0,
        doubles::value(doubles::half_of(width)) + doubles::value(
            doubles::apart(width, doubles::half_of(width)),
        ) == doubles::value(width),
        doubles::value(doubles::half_of(height)) + doubles::value(
            doubles::apart(height, doubles::half_of(height)),
        ) == doubles::value(height),
{
    doubles::law_halves_add_up(width);
    doubles::law_halves_add_up(height);
    doubles::lemma_nearest_to_itself(doubles::half_of(width));
    doubles::lemma_nearest_to_itself(doubles::half_of(height));
    doubles::lemma_nearest_to_itself(doubles::apart(width, doubles::half_of(width)));
    doubles::lemma_nearest_to_itself(doubles::apart(height, doubles::half_of(height)));
}

/// Where no position is rounded, the rectangles of a layout fill its area and do not overlap: each
/// point of the area lies in just one of them.
pub proof fn law_regions_tile(
    layout: WorkspaceLayout,
    x: u64,
    y: u64,
    width: u64,
    height: u64,
    px: int,
    py: int,
) -> (k: int)
    requires
        layout.unrounded(x, y, width, height),
        doubles::value(x) <= px < doubles::value(x) + doubles::value(width),
        doubles::value(y) <= py < doubles::value(y) + doubles::value(height),
    ensures
        0 <= k < layout.regions(x, y, width, height).len(),
        layout.regions(x, y, width, height)[k].covers(px, py),
        forall|j: int|
            0 <= j < layout.regions(x, y, width, height).len() && j != k ==> !(
            #[trigger] layout.regions(x, y, width, height)[j]).covers(px, py),
    decreases layout,
{
    match layout {
        WorkspaceLayout::Pane(_) => 0,
        WorkspaceLayout::Split { orientation, first, second } => {
            lemma_split_adds_up(width, height);
            let (left, right, in_first) = match orientation {
                SplitOrientation::Horizontal => {
                    let share = doubles::half_of(width);
                    let middle = doubles::sum_of(x, share);
                    (
                        (x, y, share, height),
                        (middle, y, doubles::apart(width, share), height),
                        px < doubles::value(middle),
                    )
                },
                SplitOrientation::Vertical => {
                    let share = doubles::half_of(height);
                    let middle = doubles::sum_of(y, share);
                    (
                        (x, y, width, share),
                        (x, middle, width, doubles::apart(height, share)),
                        py < doubles::value(middle),
                    )
                },
            };
            let near = first.regions(left.0, left.1, left.2, left.3);
            let far = second.regions(right.0, right.1, right.2, right.3);
            let all = layout.regions(x, y, width, height);
            assert(all =~= near + far);
            let k = if in_first {
                law_regions_tile(*first, left.0, left.1, left.2, left.3, px, py)
            } else {
                near.len() + law_regions_tile(
                    *second,
                    right.0,
                    right.1,
                    right.2,
                    right.3,
                    px,
                    py,
                )
            };
            assert forall|j: int| 0 <= j < all.len() && j != k implies !(#[trigger] all[j]).covers(
                px,
                py,
            ) by {
                if j < near.len() {
                    assert(all[j] == near[j]);
                    if !in_first && near[j].covers(px, py) {
                        law_regions_stay_inside(
                            *first,
                            left.0,
                            left.1,
                            left.2,
                            left.3,
                            px,
                            py,
                            j,
                        );
                    }
                } else {
                    assert(all[j] == far[j - near.len()]);
                    if in_first && far[j - near.len()].covers(px, py) {
                        law_regions_stay_inside(
                            *second,
                            right.0,
                            right.1,
                            right.2,
                            right.3,
                            px,
                            py,
                            j - near.len(),
                        );
                    }
                }
            }
            k
        },
    }
}

// ---------------------------------------------------------------------------
// Layouts that are not too deep
// ---------------------------------------------------------------------------

/// How many steps of size `2^grain` a number takes.
spec fn steps(bits: u64, grain: nat) -> int {
    doubles::value(bits) / (pow2(grain) as int)
}

/// Whether a number is so many whole steps as a significand can count.
spec fn on_grid(bits: u64, grain: nat) -> bool {
    &&& doubles::value(bits) == steps(bits, grain) * pow2(grain)
    &&& 0 <= steps(bits, grain) <= 2 * FRACTIONS
}

spec fn area_on_grid(x: u64, y: u64, width: u64, height: u64, grain: nat) -> bool {
    &&& on_grid(x, grain)
    &&& on_grid(y, grain)
    &&& on_grid(width, grain)
    &&& on_grid(height, grain)
    &&& steps(x, grain) + steps(width, grain) <= 2 * FRACTIONS
    &&& steps(y, grain) + steps(height, grain) <= 2 * FRACTIONS
}

spec fn region_on_grid(region: PaneRegion, grain: nat) -> bool {
    area_on_grid(region.x, region.y, region.width, region.height, grain)
}

proof fn lemma_on_grid(bits: u64, count: int, grain: nat)
    requires
        doubles::value(bits) == count * pow2(grain),
        0 <= count <= 2 * FRACTIONS,
    ensures
        on_grid(bits, grain),
        steps(bits, grain) == count,
{
    lemma_pow2_pos(grain);
    lemma_fundamental_div_mod_converse(doubles::value(bits), pow2(grain) as int, count, 0);
}

proof fn lemma_sum_on_grid(left: u64, right: u64, grain: nat)
    requires
        on_grid(left, grain),
        on_grid(right, grain),
        steps(left, grain) + steps(right, grain) <= 2 * FRACTIONS,
        grain <= 4000,
    ensures
        on_grid(doubles::sum_of(left, right), grain),
        steps(doubles::sum_of(left, right), grain) == steps(left, grain) + steps(right, grain),
        doubles::value(doubles::sum_of(left, right)) == doubles::value(left) + doubles::value(
            right,
        ),
{
    let count = steps(left, grain) + steps(right, grain);
    assert(count * pow2(grain) == steps(left, grain) * pow2(grain) + steps(right, grain) * pow2(
        grain,
    )) by (nonlinear_arith)
        requires
            count == steps(left, grain) + steps(right, grain),
    ;
    doubles::lemma_exact(count, grain);
    lemma_on_grid(doubles::sum_of(left, right), count, grain);
}

proof fn lemma_apart_on_grid(left: u64, right: u64, grain: nat)
    requires
        on_grid(left, grain),
        on_grid(right, grain),
        grain <= 4000,
    ensures
        left > right <==> steps(left, grain) > steps(right, grain),
        on_grid(doubles::apart(left, right), grain),
        left >= right ==> steps(doubles::apart(left, right), grain) == steps(left, grain) - steps(
            right,
            grain,
        ),
        left <= right ==> steps(doubles::apart(left, right), grain) == steps(right, grain) - steps(
            left,
            grain,
        ),
{
    let one = steps(left, grain);
    let other = steps(right, grain);
    lemma_pow2_pos(grain);
    doubles::law_bits_are_in_order(left, right);
    doubles::law_bits_are_in_order(right, left);
    assert((one > other) == (one * pow2(grain) > other * pow2(grain))) by (nonlinear_arith)
        requires
            pow2(grain) > 0,
    ;
    let count = if left > right {
        one - other
    } else {
        other - one
    };
    assert(count * pow2(grain) == if left > right {
        one * pow2(grain) - other * pow2(grain)
    } else {
        other * pow2(grain) - one * pow2(grain)
    }) by (nonlinear_arith)
        requires
            count == if left > right {
                one - other
            } else {
                other - one
            },
    ;
    doubles::lemma_exact(count, grain);
    lemma_on_grid(doubles::apart(left, right), count, grain);
}

proof fn lemma_half_on_grid(bits: u64, grain: nat, power: nat)
    requires
        on_grid(bits, grain),
        power > 0,
        steps(bits, grain) == pow2(power),
        grain <= 4000,
    ensures
        on_grid(doubles::half_of(bits), grain),
        steps(doubles::half_of(bits), grain) == pow2((power - 1) as nat),
        on_grid(doubles::apart(bits, doubles::half_of(bits)), grain),
        steps(doubles::apart(bits, doubles::half_of(bits)), grain) == pow2((power - 1) as nat),
{
    let less = pow2((power - 1) as nat) as int;
    lemma_pow2_unfold(power);
    lemma_pow2_pos((power - 1) as nat);
    let share = less * pow2(grain);
    assert(doubles::value(bits) == 2 * share) by (nonlinear_arith)
        requires
            doubles::value(bits) == pow2(power) * pow2(grain),
            pow2(power) == 2 * less,
            share == less * pow2(grain),
    ;
    assert(doubles::rounded(2 * share, 2) == share);
    doubles::lemma_exact(less, grain);
    lemma_on_grid(doubles::half_of(bits), less, grain);
    doubles::lemma_half_not_above(bits);
    lemma_apart_on_grid(bits, doubles::half_of(bits), grain);
}

/// All lengths are whole steps where the area is halved no more often than the steps allow.
proof fn lemma_regions_on_grid(
    layout: WorkspaceLayout,
    x: u64,
    y: u64,
    width: u64,
    height: u64,
    grain: nat,
    across: nat,
    down: nat,
)
    requires
        grain <= 4000,
        area_on_grid(x, y, width, height, grain),
        steps(width, grain) == pow2(across),
        steps(height, grain) == pow2(down),
        layout.halvings(SplitOrientation::Horizontal) <= across,
        layout.halvings(SplitOrientation::Vertical) <= down,
    ensures
        layout.unrounded(x, y, width, height),
        forall|k: int|
            0 <= k < layout.regions(x, y, width, height).len() ==> region_on_grid(
                #[trigger] layout.regions(x, y, width, height)[k],
                grain,
            ),
    decreases layout,
{
    match layout {
        WorkspaceLayout::Pane(_) => {},
        WorkspaceLayout::Split { orientation, first, second } => {
            let (left, right, fewer) = match orientation {
                SplitOrientation::Horizontal => {
                    let share = doubles::half_of(width);
                    let less = (across - 1) as nat;
                    lemma_half_on_grid(width, grain, across);
                    lemma_pow2_unfold(across);
                    lemma_pow2_pos(less);
                    lemma_sum_on_grid(x, share, grain);
                    (
                        (x, y, share, height),
                        (doubles::sum_of(x, share), y, doubles::apart(width, share), height),
                        (less, down),
                    )
                },
                SplitOrientation::Vertical => {
                    let share = doubles::half_of(height);
                    let less = (down - 1) as nat;
                    lemma_half_on_grid(height, grain, down);
                    lemma_pow2_unfold(down);
                    lemma_pow2_pos(less);
                    lemma_sum_on_grid(y, share, grain);
                    (
                        (x, y, width, share),
                        (x, doubles::sum_of(y, share), width, doubles::apart(height, share)),
                        (across, less),
                    )
                },
            };
            lemma_regions_on_grid(
                *first,
                left.0,
                left.1,
                left.2,
                left.3,
                grain,
                fewer.0,
                fewer.1,
            );
            lemma_regions_on_grid(
                *second,
                right.0,
                right.1,
                right.2,
                right.3,
                grain,
                fewer.0,
                fewer.1,
            );
            let near = first.regions(left.0, left.1, left.2, left.3);
            let far = second.regions(right.0, right.1, right.2, right.3);
            let all = layout.regions(x, y, width, height);
            assert(all == near + far);
            assert forall|k: int| 0 <= k < all.len() implies region_on_grid(
                #[trigger] all[k],
                grain,
            ) by {
                if k < near.len() {
                    assert(all[k] == near[k]);
                } else {
                    assert(all[k] == far[k - near.len()]);
                }
            }
        },
    }
}

/// The whole area is `2^power` steps wide and high.
proof fn lemma_whole_area_on_grid(grain: nat, power: nat)
    requires
        grain + power == 1074,
        power <= 53,
    ensures
        on_grid(0, grain),
        steps(0, grain) == 0,
        on_grid(ONE, grain),
        steps(ONE, grain) == pow2(power),
        pow2(power) <= 2 * FRACTIONS,
{
    lemma2_to64();
    lemma2_to64_rest();
    assert(doubles::value(0) == 0) by {
        assert(0 * pow2(0) == 0) by (nonlinear_arith);
    }
    assert(0 * pow2(grain) == 0) by (nonlinear_arith);
    lemma_on_grid(0, 0, grain);
    lemma_pow2_adds(52, 1022);
    assert(doubles::value(ONE) == pow2(1074));
    lemma_pow2_adds(power, grain);
    if power < 53 {
        vstd::arithmetic::power2::lemma_pow2_strictly_increases(power, 53);
    }
    lemma_pow2_pos(power);
    lemma_on_grid(ONE, pow2(power) as int, grain);
}

/// No position is rounded where no side of the area is halved more than 53 times.
pub proof fn law_shallow_layouts_are_unrounded(layout: WorkspaceLayout)
    requires
        layout.halvings(SplitOrientation::Horizontal) <= 53,
        layout.halvings(SplitOrientation::Vertical) <= 53,
    ensures
        layout.unrounded(0, 0, ONE, ONE),
{
    lemma_whole_area_on_grid(1021, 53);
    lemma_regions_on_grid(layout, 0, 0, ONE, ONE, 1021, 53, 53);
}

// ---------------------------------------------------------------------------
// The nearest pane
// ---------------------------------------------------------------------------

impl Reach {
    /// Whether the edges of two panes are of one length or of lengths that differ by enough to
    /// count, and the same of their gaps.
    pub open spec fn told_apart(self, other: Reach) -> bool {
        &&& self.overlap == other.overlap || doubles::apart(self.overlap, other.overlap)
            >= doubles::EPSILON
        &&& self.gap == other.gap || doubles::apart(self.gap, other.gap) >= doubles::EPSILON
    }
}

/// Which of two panes is nearer, where their lengths can be told apart.
pub proof fn lemma_beats(one: Reach, other: Reach)
    requires
        one.told_apart(other),
    ensures
        one.beats(other) <==> {
            ||| one.overlap > other.overlap
            ||| one.overlap == other.overlap && one.gap < other.gap
            ||| one.overlap == other.overlap && one.gap == other.gap && one.offset < other.offset
        },
{
    lemma2_to64();
    assert(doubles::rounded(0, 1) == 0);
    assert(doubles::nearest(0) == 0) by {
        assert(doubles::doublings(0) == 0);
        assert(0 * FRACTIONS == 0);
    }
}

/// Where differences are large enough to count or nought: of the regions that lie in a direction,
/// the nearest is chosen, and of equally near ones the first; none is chosen only where none lies
/// that way.
pub proof fn law_nearest_is_best(
    regions: Seq<PaneRegion>,
    current: PaneRegion,
    direction: FocusDirection,
    count: int,
)
    requires
        0 <= count <= regions.len(),
        forall|i: int, j: int|
            #![trigger regions[i], regions[j]]
            0 <= i < count && 0 <= j < count ==> match (
                layout::candidate(regions[i], current, direction),
                layout::candidate(regions[j], current, direction),
            ) {
                (Some(one), Some(other)) => one.told_apart(other),
                _ => true,
            },
    ensures
        match layout::nearest(regions, current, direction, count) {
            Some((at, reach)) => {
                &&& 0 <= at < count
                &&& layout::candidate(regions[at], current, direction) == Some(reach)
                &&& forall|k: int|
                    0 <= k < count ==> match layout::candidate(
                        #[trigger] regions[k],
                        current,
                        direction,
                    ) {
                        Some(other) => !other.beats(reach) && (k < at ==> reach.beats(other)),
                        None => true,
                    }
            },
            None => forall|k: int|
                0 <= k < count ==> layout::candidate(
                    #[trigger] regions[k],
                    current,
                    direction,
                ) is None,
        },
{
    let reaches = Seq::new(
        regions.len(),
        |k: int| layout::candidate(regions[k], current, direction),
    );
    assert forall|i: int, j: int|
        #![trigger reaches[i], reaches[j]]
        0 <= i < count && 0 <= j < count implies match (reaches[i], reaches[j]) {
        (Some(one), Some(other)) => one.told_apart(other),
        _ => true,
    } by {
        assert(regions[i] == regions[i] && regions[j] == regions[j]);
    }
    lemma_best_of(reaches, count);
    lemma_nearest_is_best_of(regions, current, direction, reaches, count);
    assert forall|k: int| 0 <= k < count implies layout::candidate(
        #[trigger] regions[k],
        current,
        direction,
    ) == reaches[k] by {}
}

/// The place of the best of the first `count` reaches.
spec fn best_of(reaches: Seq<Option<Reach>>, count: int) -> Option<(int, Reach)>
    decreases count,
{
    if count <= 0 {
        None
    } else {
        let best = best_of(reaches, count - 1);
        match (reaches[count - 1], best) {
            (Some(reach), Some(found)) => if reach.beats(found.1) {
                Some((count - 1, reach))
            } else {
                best
            },
            (Some(reach), None) => Some((count - 1, reach)),
            (None, _) => best,
        }
    }
}

proof fn lemma_nearest_is_best_of(
    regions: Seq<PaneRegion>,
    current: PaneRegion,
    direction: FocusDirection,
    reaches: Seq<Option<Reach>>,
    count: int,
)
    requires
        count <= regions.len() == reaches.len(),
        forall|k: int|
            0 <= k < reaches.len() ==> #[trigger] reaches[k] == layout::candidate(
                regions[k],
                current,
                direction,
            ),
    ensures
        layout::nearest(regions, current, direction, count) == best_of(reaches, count),
    decreases count,
{
    if count > 0 {
        lemma_nearest_is_best_of(regions, current, direction, reaches, count - 1);
        assert(reaches[count - 1] == layout::candidate(regions[count - 1], current, direction));
    }
}

proof fn lemma_best_of(reaches: Seq<Option<Reach>>, count: int)
    requires
        0 <= count <= reaches.len(),
        forall|i: int, j: int|
            #![trigger reaches[i], reaches[j]]
            0 <= i < count && 0 <= j < count ==> match (reaches[i], reaches[j]) {
                (Some(one), Some(other)) => one.told_apart(other),
                _ => true,
            },
    ensures
        match best_of(reaches, count) {
            Some((at, reach)) => {
                &&& 0 <= at < count
                &&& reaches[at] == Some(reach)
                &&& forall|k: int|
                    0 <= k < count ==> match #[trigger] reaches[k] {
                        Some(other) => !other.beats(reach) && (k < at ==> reach.beats(other)),
                        None => true,
                    }
            },
            None => forall|k: int| 0 <= k < count ==> (#[trigger] reaches[k]) is None,
        },
    decreases count,
{
    if count > 0 {
        lemma_best_of(reaches, count - 1);
        match (reaches[count - 1], best_of(reaches, count - 1)) {
            (Some(reach), Some((at, found))) => {
                assert(reaches[at] == Some(found));
                lemma_beats_in_order(reach, found, found);
                assert forall|k: int| 0 <= k < count implies match #[trigger] reaches[k] {
                    Some(other) => reach.beats(found) ==> !other.beats(reach) && (k < count - 1
                        ==> reach.beats(other)),
                    None => true,
                } by {
                    match reaches[k] {
                        Some(other) => lemma_beats_in_order(reach, found, other),
                        None => {},
                    }
                }
            },
            _ => {},
        }
    }
}

/// What beats another pane beats those that do not beat that one, and none of them beats it.
proof fn lemma_beats_in_order(reach: Reach, found: Reach, other: Reach)
    requires
        reach.told_apart(found),
        other.told_apart(found),
        reach.told_apart(other),
        other.told_apart(reach),
    ensures
        reach.beats(found) && !other.beats(found) ==> reach.beats(other) && !other.beats(reach),
        !reach.beats(reach),
{
    lemma_beats(reach, reach);
    lemma_beats(reach, found);
    lemma_beats(other, found);
    lemma_beats(reach, other);
    lemma_beats(other, reach);
}

/// Differences are large enough to count or nought where no side of the area is halved more than
/// 52 times.
pub proof fn law_shallow_layouts_tell_panes_apart(
    layout: WorkspaceLayout,
    current: int,
    one: int,
    other: int,
    direction: FocusDirection,
)
    requires
        layout.halvings(SplitOrientation::Horizontal) <= 52,
        layout.halvings(SplitOrientation::Vertical) <= 52,
        0 <= current < layout.all_regions().len(),
        0 <= one < layout.all_regions().len(),
        0 <= other < layout.all_regions().len(),
    ensures
        match (
            layout::candidate(
                layout.all_regions()[one],
                layout.all_regions()[current],
                direction,
            ),
            layout::candidate(
                layout.all_regions()[other],
                layout.all_regions()[current],
                direction,
            ),
        ) {
            (Some(reach), Some(beside)) => reach.told_apart(beside),
            _ => true,
        },
{
    let grain: nat = 1022;
    lemma_whole_area_on_grid(grain, 52);
    lemma_regions_on_grid(layout, 0, 0, ONE, ONE, grain, 52, 52);
    let here = layout.all_regions()[current];
    let first = layout.all_regions()[one];
    let second = layout.all_regions()[other];
    lemma_reach_on_grid(first, here, direction, grain);
    lemma_reach_on_grid(second, here, direction, grain);
    match (
        layout::candidate(first, here, direction),
        layout::candidate(second, here, direction),
    ) {
        (Some(reach), Some(beside)) => {
            lemma_lengths_told_apart(reach.overlap, beside.overlap);
            lemma_lengths_told_apart(reach.gap, beside.gap);
        },
        _ => {},
    }
}

proof fn lemma_lengths_told_apart(left: u64, right: u64)
    requires
        on_grid(left, 1022),
        on_grid(right, 1022),
    ensures
        left == right || doubles::apart(left, right) >= doubles::EPSILON,
{
    lemma_apart_on_grid(left, right, 1022);
    lemma_apart_on_grid(right, left, 1022);
    lemma2_to64();
    lemma2_to64_rest();
    lemma_pow2_adds(52, 970);
    assert(doubles::value(doubles::EPSILON) == pow2(1022));
    let length = doubles::apart(left, right);
    if left != right {
        assert(doubles::value(length) >= pow2(1022)) by (nonlinear_arith)
            requires
                doubles::value(length) == steps(length, 1022) * pow2(1022),
                steps(length, 1022) >= 1,
                pow2(1022) >= 0,
        ;
        doubles::law_bits_are_in_order(length, doubles::EPSILON);
    }
}

proof fn lemma_above_on_grid(left: u64, right: u64, grain: nat)
    requires
        on_grid(left, grain),
        on_grid(right, grain),
        on_grid(0, grain),
        grain <= 4000,
    ensures
        on_grid(doubles::above(left, right), grain),
{
    lemma_apart_on_grid(left, right, grain);
}

proof fn lemma_reach_on_grid(
    region: PaneRegion,
    current: PaneRegion,
    direction: FocusDirection,
    grain: nat,
)
    requires
        region_on_grid(region, grain),
        region_on_grid(current, grain),
        on_grid(0, grain),
        grain <= 4000,
    ensures
        match region.reached_from(current, direction) {
            Some(reach) => on_grid(reach.overlap, grain) && on_grid(reach.gap, grain),
            None => true,
        },
{
    lemma_sum_on_grid(region.x, region.width, grain);
    lemma_sum_on_grid(region.y, region.height, grain);
    lemma_sum_on_grid(current.x, current.width, grain);
    lemma_sum_on_grid(current.y, current.height, grain);
    let ends = (region.right(), current.right(), region.bottom(), current.bottom());
    lemma_above_on_grid(region.x, ends.1, grain);
    lemma_above_on_grid(current.x, ends.0, grain);
    lemma_above_on_grid(region.y, ends.3, grain);
    lemma_above_on_grid(current.y, ends.2, grain);
    lemma_above_on_grid(ends.0, region.x, grain);
    lemma_above_on_grid(ends.0, current.x, grain);
    lemma_above_on_grid(ends.1, region.x, grain);
    lemma_above_on_grid(ends.1, current.x, grain);
    lemma_above_on_grid(ends.2, region.y, grain);
    lemma_above_on_grid(ends.2, current.y, grain);
    lemma_above_on_grid(ends.3, region.y, grain);
    lemma_above_on_grid(ends.3, current.y, grain);
}

} // verus!
