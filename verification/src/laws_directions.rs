//! What directions mean: where a new pane stands, and where the focus goes.

use crate::actions::AppAction;
use crate::doubles;
use crate::ids::{Drawn, PaneId, SurfaceId};
use crate::json;
use crate::laws_layout;
use crate::laws_requests;
use crate::laws_tabs;
use crate::layout;
use crate::layout::{FocusDirection, PaneRegion, SplitOrientation, WorkspaceLayout};
use crate::model::ModelView;
use crate::params;
use crate::params::ParamsView;
use crate::reply::ErrorView;
use crate::sound_states;
use crate::sound_workspaces;
use crate::state;
use crate::state::StateView;
use crate::text;
use crate::workspace::WorkspaceView;
use vstd::prelude::*;

verus! {

// ---------------------------------------------------------------------------
// Splitting
// ---------------------------------------------------------------------------

/// The word for a direction.
pub open spec fn way_name(direction: FocusDirection) -> Seq<char> {
    match direction {
        FocusDirection::Left => "left"@,
        FocusDirection::Right => "right"@,
        FocusDirection::Up => "up"@,
        FocusDirection::Down => "down"@,
    }
}

/// Whether a rectangle was halved: `added` is the half that lies in the direction, `kept` the other
/// one, and the two meet in the middle.
pub open spec fn halved(
    whole: PaneRegion,
    kept: PaneRegion,
    added: PaneRegion,
    direction: FocusDirection,
) -> bool {
    match direction {
        FocusDirection::Left => {
            &&& added.x == whole.x
            &&& doubles::sum_of(added.x, added.width) == kept.x
            &&& added.width == doubles::half_of(whole.width)
            &&& kept.width == doubles::apart(whole.width, added.width)
            &&& added.y == whole.y == kept.y
            &&& added.height == whole.height == kept.height
        },
        FocusDirection::Right => {
            &&& kept.x == whole.x
            &&& doubles::sum_of(kept.x, kept.width) == added.x
            &&& kept.width == doubles::half_of(whole.width)
            &&& added.width == doubles::apart(whole.width, kept.width)
            &&& added.y == whole.y == kept.y
            &&& added.height == whole.height == kept.height
        },
        FocusDirection::Up => {
            &&& added.y == whole.y
            &&& doubles::sum_of(added.y, added.height) == kept.y
            &&& added.height == doubles::half_of(whole.height)
            &&& kept.height == doubles::apart(whole.height, added.height)
            &&& added.x == whole.x == kept.x
            &&& added.width == whole.width == kept.width
        },
        FocusDirection::Down => {
            &&& kept.y == whole.y
            &&& doubles::sum_of(kept.y, kept.height) == added.y
            &&& kept.height == doubles::half_of(whole.height)
            &&& added.height == doubles::apart(whole.height, kept.height)
            &&& added.x == whole.x == kept.x
            &&& added.width == whole.width == kept.width
        },
    }
}

/// Whether the rectangles are the same but for that of one pane, which was halved for a new pane.
pub open spec fn split_towards(
    before: Seq<PaneRegion>,
    after: Seq<PaneRegion>,
    target: PaneId,
    added: PaneId,
    direction: FocusDirection,
) -> bool {
    &&& after.len() == before.len() + 1
    &&& exists|at: int, kept: int, new: int|
        {
            &&& 0 <= at < before.len() && #[trigger] before[at].pane_id == target
            &&& 0 <= kept < after.len() && #[trigger] after[kept].pane_id == target
            &&& 0 <= new < after.len() && (#[trigger] after[new]).pane_id == added
            &&& halved(before[at], after[kept], after[new], direction)
            &&& forall|other: int|
                0 <= other < before.len() && other != at ==> after.contains(
                    #[trigger] before[other],
                )
        }
}

proof fn lemma_replaced(near: Seq<PaneRegion>, far: Seq<PaneRegion>, pair: Seq<PaneRegion>, at: int)
    ensures
        0 <= at < near.len() ==> (near.take(at) + pair + near.skip(at + 1)) + far == (near
            + far).take(at) + pair + (near + far).skip(at + 1),
        0 <= at < far.len() ==> near + (far.take(at) + pair + far.skip(at + 1)) == (near
            + far).take(near.len() + at) + pair + (near + far).skip(near.len() + at + 1),
{
    let all = near + far;
    if 0 <= at < near.len() {
        assert(all.take(at) =~= near.take(at));
        assert(all.skip(at + 1) =~= near.skip(at + 1) + far);
        assert((near.take(at) + pair + near.skip(at + 1)) + far =~= near.take(at) + pair
            + (near.skip(at + 1) + far));
    }
    if 0 <= at < far.len() {
        assert(all.take(near.len() + at) =~= near + far.take(at));
        assert(all.skip(near.len() + at + 1) =~= far.skip(at + 1));
        assert(near + (far.take(at) + pair + far.skip(at + 1)) =~= (near + far.take(at)) + pair
            + far.skip(at + 1));
    }
}

/// The rectangles after a leaf was split: only that of the leaf is replaced, by its two halves.
proof fn lemma_split_regions(
    layout: WorkspaceLayout,
    target: PaneId,
    added: PaneId,
    orientation: SplitOrientation,
    insert_first: bool,
    area: (u64, u64, u64, u64),
) -> (at: int)
    requires
        layout.leaves().contains(target),
    ensures
        0 <= at < layout.regions(area.0, area.1, area.2, area.3).len(),
        layout.regions(area.0, area.1, area.2, area.3)[at].pane_id == target,
        match layout.with_split(target, added, orientation, insert_first) {
            Some(next) => {
                let all = layout.regions(area.0, area.1, area.2, area.3);
                next.regions(area.0, area.1, area.2, area.3) == all.take(at)
                    + WorkspaceLayout::halves(target, added, orientation, insert_first).regions(
                    all[at].x,
                    all[at].y,
                    all[at].width,
                    all[at].height,
                ) + all.skip(at + 1)
            },
            None => false,
        },
    decreases layout,
{
    let all = layout.regions(area.0, area.1, area.2, area.3);
    let pair = WorkspaceLayout::halves(target, added, orientation, insert_first);
    match layout {
        WorkspaceLayout::Pane(pane_id) => {
            assert(layout.leaves()[0] == pane_id);
            let (x, y, width, height) = area;
            assert(all[0] == (PaneRegion { pane_id, x, y, width, height }));
            let halves = pair.regions(x, y, width, height);
            assert(all.take(0) + halves + all.skip(1) =~= halves);
            0
        },
        WorkspaceLayout::Split { orientation: outer, first, second } => {
            let (left, right) = match outer {
                SplitOrientation::Horizontal => {
                    let share = doubles::half_of(area.2);
                    (
                        (area.0, area.1, share, area.3),
                        (
                            doubles::sum_of(area.0, share),
                            area.1,
                            doubles::apart(area.2, share),
                            area.3,
                        ),
                    )
                },
                SplitOrientation::Vertical => {
                    let share = doubles::half_of(area.3);
                    (
                        (area.0, area.1, area.2, share),
                        (
                            area.0,
                            doubles::sum_of(area.1, share),
                            area.2,
                            doubles::apart(area.3, share),
                        ),
                    )
                },
            };
            let near = first.regions(left.0, left.1, left.2, left.3);
            let far = second.regions(right.0, right.1, right.2, right.3);
            assert(all == near + far);
            if first.leaves().contains(target) {
                let at = lemma_split_regions(
                    *first,
                    target,
                    added,
                    orientation,
                    insert_first,
                    left,
                );
                let halves = pair.regions(near[at].x, near[at].y, near[at].width, near[at].height);
                assert(all[at] == near[at]);
                lemma_replaced(near, far, halves, at);
                at
            } else {
                sound_workspaces::lemma_no_split(
                    *first,
                    target,
                    added,
                    orientation,
                    insert_first,
                );
                sound_workspaces::lemma_halves(*first, *second, target);
                let at = lemma_split_regions(
                    *second,
                    target,
                    added,
                    orientation,
                    insert_first,
                    right,
                );
                let halves = pair.regions(far[at].x, far[at].y, far[at].width, far[at].height);
                let place = near.len() + at;
                assert(all[place] == far[at]);
                lemma_replaced(near, far, halves, at);
                place
            }
        },
    }
}

/// The orientation of a split in a direction, and whether the new pane comes first.
spec fn way(direction: FocusDirection) -> (SplitOrientation, bool) {
    match direction {
        FocusDirection::Left => (SplitOrientation::Horizontal, true),
        FocusDirection::Right => (SplitOrientation::Horizontal, false),
        FocusDirection::Up => (SplitOrientation::Vertical, true),
        FocusDirection::Down => (SplitOrientation::Vertical, false),
    }
}

proof fn lemma_split_towards(
    layout: WorkspaceLayout,
    target: PaneId,
    added: PaneId,
    direction: FocusDirection,
)
    requires
        layout.leaves().contains(target),
    ensures
        match layout.with_split(target, added, way(direction).0, way(direction).1) {
            Some(next) => split_towards(
                layout.all_regions(),
                next.all_regions(),
                target,
                added,
                direction,
            ),
            None => false,
        },
{
    let (orientation, first) = way(direction);
    let at = lemma_split_regions(
        layout,
        target,
        added,
        orientation,
        first,
        (0, 0, doubles::ONE, doubles::ONE),
    );
    let before = layout.all_regions();
    let next = layout.with_split(target, added, orientation, first)->0;
    let after = next.all_regions();
    let whole = before[at];
    let pair = WorkspaceLayout::halves(target, added, orientation, first).regions(
        whole.x,
        whole.y,
        whole.width,
        whole.height,
    );
    reveal_with_fuel(WorkspaceLayout::regions, 3);
    assert(pair.len() == 2);
    assert(after.len() == before.len() + 1);
    let (kept, new) = if first {
        (at + 1, at)
    } else {
        (at, at + 1)
    };
    assert(after[at] == pair[0] && after[at + 1] == pair[1]);
    assert(before[at].pane_id == target && after[kept].pane_id == target && after[new].pane_id
        == added);
    assert(halved(before[at], after[kept], after[new], direction));
    assert forall|other: int| 0 <= other < before.len() && other != at implies after.contains(
        #[trigger] before[other],
    ) by {
        if other < at {
            assert(after[other] == before[other]);
        } else {
            assert(after[other + 1] == before[other]);
        }
    }
}

/// Whether a workspace got a new pane with one new terminal, beside another pane in a direction.
pub open spec fn has_new_pane(
    before: WorkspaceView,
    after: WorkspaceView,
    target: PaneId,
    drawn: Drawn,
    direction: FocusDirection,
) -> bool {
    &&& split_towards(
        before.layout.all_regions(),
        after.layout.all_regions(),
        target,
        drawn.pane,
        direction,
    )
    &&& after.panes.len() == before.panes.len() + 1
    &&& after.panes.drop_last() == before.panes
    &&& after.panes.last().id == drawn.pane
    &&& after.panes.last().surfaces.len() == 1
    &&& after.panes.last().surfaces[0].id == drawn.surface
    &&& after.panes.last().selected_surface_id == drawn.surface
}

proof fn lemma_new_pane(
    state: StateView,
    drawn: Drawn,
    at: int,
    target: PaneId,
    direction: FocusDirection,
    focus: bool,
)
    requires
        state.sound(),
        0 <= at < state.workspaces.len(),
        state.workspaces[at].pane_at(target) is Some,
    ensures
        ({
            let way = way(direction);
            let (after, result) = state.split_workspace_pane(
                drawn,
                state.workspaces[at].id,
                Some(target),
                way.0,
                way.1,
                focus,
            );
            &&& result == Ok::<_, Seq<char>>((state.workspaces[at].id, drawn.pane, drawn.surface))
            &&& after.workspaces == state.workspaces.update(at, after.workspaces[at])
            &&& has_new_pane(state.workspaces[at], after.workspaces[at], target, drawn, direction)
            &&& after.workspaces[at].id == state.workspaces[at].id
            &&& after.workspaces[at].window_id == state.workspaces[at].window_id
            &&& after.workspaces[at].selected_pane_id == (if focus {
                drawn.pane
            } else {
                state.workspaces[at].selected_pane_id
            })
        }),
{
    let before = state.workspaces[at];
    assert(before.sound());
    sound_states::lemma_workspace_place(state.workspaces, at, 0);
    assert(before.layout.leaves().contains(target));
    lemma_split_towards(before.layout, target, drawn.pane, direction);
    let way = way(direction);
    let (split, _) = before.split_pane(target, way.0, way.1, focus, state.fresh_pane(drawn));
    assert(split.panes.drop_last() =~= before.panes);
    let next = state.numbered_terminal().with_workspace(at, split);
    let after = next.followed(before.window_id, before.id, focus);
    assert(after.workspaces == next.workspaces);
    assert(state.workspaces.update(at, split) =~= state.workspaces.update(
        at,
        after.workspaces[at],
    ));
}

/// A request for a new pane on the left, on the right, above or below gets it there: the new pane
/// takes the half of the other one's rectangle that lies that way, and all other rectangles stay.
/// Beside which surface is known from what the request names.
pub proof fn law_request_splits_towards(
    model: ModelView,
    drawn: Drawn,
    params: ParamsView,
    content: Seq<char>,
    direction: FocusDirection,
    surface_id: SurfaceId,
    at: int,
    place: int,
    tab: int,
)
    requires
        model.state.sound(),
        model.state.one_place(),
        json::entry(params, "direction"@) == Some(json::ValueView::Text(content)),
        text::lowered(text::trimmed(content)) == way_name(direction),
        params::surface_target(model, params).1 == Ok::<_, ErrorView>(surface_id),
        0 <= at < model.state.workspaces.len(),
        0 <= place < model.state.workspaces[at].panes.len(),
        0 <= tab < model.state.workspaces[at].panes[place].surfaces.len(),
        model.state.workspaces[at].panes[place].surfaces[tab].id == surface_id,
    ensures
        ({
            let (after, result) = model.surface_split(drawn, params);
            let before = model.state.workspaces;
            &&& result is Ok
            &&& after.state.workspaces == before.update(at, after.state.workspaces[at])
            &&& has_new_pane(
                before[at],
                after.state.workspaces[at],
                before[at].panes[place].id,
                drawn,
                direction,
            )
        }),
{
    reveal(ModelView::only_names);
    laws_requests::lemma_targets(model, params);
    lemma_words(params, content, direction);
    let (next, _) = params::surface_target(model, params);
    lemma_split_beside(next, drawn, surface_id, at, place, tab, direction);
}

/// The direction that a request names.
proof fn lemma_words(params: ParamsView, content: Seq<char>, direction: FocusDirection)
    requires
        json::entry(params, "direction"@) == Some(json::ValueView::Text(content)),
        text::lowered(text::trimmed(content)) == way_name(direction),
    ensures
        params::direction(params) == Ok::<_, ErrorView>(way(direction)),
{
    reveal_strlit("left");
    reveal_strlit("right");
    reveal_strlit("up");
    reveal_strlit("down");
    let name = way_name(direction);
    assert(text::lowered(text::trimmed(content)).len() == text::trimmed(content).len());
    assert("left"@.len() == 4 && "right"@.len() == 5 && "up"@.len() == 2 && "down"@.len() == 4);
    assert("left"@[0] != "down"@[0]);
}

proof fn lemma_split_beside(
    model: ModelView,
    drawn: Drawn,
    surface_id: SurfaceId,
    at: int,
    place: int,
    tab: int,
    direction: FocusDirection,
)
    requires
        model.state.sound(),
        model.state.one_place(),
        0 <= at < model.state.workspaces.len(),
        0 <= place < model.state.workspaces[at].panes.len(),
        0 <= tab < model.state.workspaces[at].panes[place].surfaces.len(),
        model.state.workspaces[at].panes[place].surfaces[tab].id == surface_id,
    ensures
        ({
            let (after, result) = model.split_beside(drawn, surface_id, way(direction));
            let before = model.state.workspaces;
            &&& result is Ok
            &&& after.state.workspaces == before.update(at, after.state.workspaces[at])
            &&& has_new_pane(
                before[at],
                after.state.workspaces[at],
                before[at].panes[place].id,
                drawn,
                direction,
            )
        }),
{
    reveal(ModelView::only_names);
    laws_tabs::lemma_found(model.state, surface_id, at, place, tab);
    let target = model.state.workspaces[at].panes[place].id;
    sound_workspaces::lemma_pane_place(model.state.workspaces[at].panes, place);
    lemma_new_pane(model.state, drawn, at, target, direction, false);
    let way = way(direction);
    let (changed, result) = model.state.split_surface(drawn, surface_id, way.0, way.1, false);
    let workspace_id = model.state.workspaces[at].id;
    laws_requests::lemma_told(
        model.with_state(changed),
        workspace_id,
        Some(drawn.pane),
        Some(drawn.surface),
    );
    assert(changed.workspaces[at].id == workspace_id);
    state::lemma_workspace_found(changed.workspaces, at, 0);
}

/// A request for a new pane in a workspace gets it beside the selected pane, on the side that it
/// names.
pub proof fn law_new_pane_stands_towards(
    model: ModelView,
    drawn: Drawn,
    params: ParamsView,
    content: Seq<char>,
    direction: FocusDirection,
    at: int,
    place: int,
)
    requires
        model.state.sound(),
        model.state.one_place(),
        json::entry(params, "direction"@) == Some(json::ValueView::Text(content)),
        text::lowered(text::trimmed(content)) == way_name(direction),
        params::terminal_type(params) is Ok,
        0 <= at < model.state.workspaces.len(),
        params::workspace_target(model, params).1 == Ok::<_, ErrorView>(
            model.state.workspaces[at].id,
        ),
        0 <= place < model.state.workspaces[at].panes.len(),
        model.state.workspaces[at].panes[place].id == model.state.workspaces[at].selected_pane_id,
    ensures
        ({
            let (after, result) = model.pane_create(drawn, params);
            let before = model.state.workspaces;
            &&& result is Ok
            &&& after.state.workspaces == before.update(at, after.state.workspaces[at])
            &&& has_new_pane(
                before[at],
                after.state.workspaces[at],
                before[at].panes[place].id,
                drawn,
                direction,
            )
        }),
{
    reveal(ModelView::only_names);
    laws_requests::lemma_targets(model, params);
    lemma_words(params, content, direction);
    let (next, _) = params::workspace_target(model, params);
    let workspace = model.state.workspaces[at];
    assert(workspace.sound());
    sound_workspaces::lemma_pane_place(workspace.panes, place);
    sound_states::lemma_workspace_place(model.state.workspaces, at, 0);
    let pane = workspace.panes[place];
    assert(pane.sound());
    sound_workspaces::lemma_surface_from(pane.surfaces, pane.selected_surface_id, 0);
    let tab = pane.surface_at(pane.selected_surface_id)->0;
    lemma_split_beside(next, drawn, pane.selected_surface_id, at, place, tab, direction);
}

/// The actions that split put the new pane on the right of the selected pane and below it, and
/// select it.
pub proof fn law_actions_split_towards(state: StateView, drawn: Drawn, at: int, place: int)
    requires
        state.sound(),
        0 <= at < state.workspaces.len(),
        state.workspaces[at].id == state.selected_workspace_id,
        0 <= place < state.workspaces[at].panes.len(),
        state.workspaces[at].panes[place].id == state.workspaces[at].selected_pane_id,
    ensures
        ({
            let right = state.acted(drawn, AppAction::SplitRight).workspaces;
            &&& right == state.workspaces.update(at, right[at])
            &&& has_new_pane(
                state.workspaces[at],
                right[at],
                state.workspaces[at].panes[place].id,
                drawn,
                FocusDirection::Right,
            )
            &&& right[at].selected_pane_id == drawn.pane
        }),
        ({
            let down = state.acted(drawn, AppAction::SplitDown).workspaces;
            &&& down == state.workspaces.update(at, down[at])
            &&& has_new_pane(
                state.workspaces[at],
                down[at],
                state.workspaces[at].panes[place].id,
                drawn,
                FocusDirection::Down,
            )
            &&& down[at].selected_pane_id == drawn.pane
        }),
{
    let workspace = state.workspaces[at];
    assert(workspace.sound());
    let target = workspace.panes[place].id;
    sound_workspaces::lemma_pane_place(workspace.panes, place);
    sound_states::lemma_workspace_place(state.workspaces, at, 0);
    lemma_new_pane(state, drawn, at, target, FocusDirection::Right, true);
    lemma_new_pane(state, drawn, at, target, FocusDirection::Down, true);
}

// ---------------------------------------------------------------------------
// Moving the focus
// ---------------------------------------------------------------------------

/// Whether the centre of a rectangle lies in a direction from that of another one.
pub open spec fn lies_towards(
    region: PaneRegion,
    from: PaneRegion,
    direction: FocusDirection,
) -> bool {
    let x = doubles::sum_of(region.x, doubles::half_of(region.width));
    let y = doubles::sum_of(region.y, doubles::half_of(region.height));
    let from_x = doubles::sum_of(from.x, doubles::half_of(from.width));
    let from_y = doubles::sum_of(from.y, doubles::half_of(from.height));
    match direction {
        FocusDirection::Left => x < from_x,
        FocusDirection::Right => x > from_x,
        FocusDirection::Up => y < from_y,
        FocusDirection::Down => y > from_y,
    }
}

/// Whether the focus went from the selected pane of the current workspace to one that lies in a
/// direction, or stayed because none lies there, and nothing else moved.
#[verifier::opaque]
pub open spec fn focus_went(
    before: StateView,
    after: StateView,
    direction: FocusDirection,
) -> bool {
    forall|at: int, here: int|
        #![trigger before.workspaces[at], before.workspaces[at].layout.all_regions()[here]]
        {
            let all = before.workspaces[at].layout.all_regions();
            &&& 0 <= at < before.workspaces.len()
            &&& before.workspaces[at].id == before.selected_workspace_id
            &&& 0 <= here < all.len()
            &&& all[here].pane_id == before.workspaces[at].selected_pane_id
        } ==> {
            let all = before.workspaces[at].layout.all_regions();
            let now = after.workspaces[at].selected_pane_id;
            &&& (exists|there: int|
                0 <= there < all.len() && lies_towards(#[trigger] all[there], all[here], direction))
                ==> (exists|there: int|
                0 <= there < all.len() && (#[trigger] all[there]).pane_id == now && lies_towards(
                    all[there],
                    all[here],
                    direction,
                ))
            &&& (forall|there: int|
                0 <= there < all.len() ==> !lies_towards(
                    #[trigger] all[there],
                    all[here],
                    direction,
                ))
                ==> now == before.workspaces[at].selected_pane_id
            &&& after.workspaces == before.workspaces.update(at, after.workspaces[at])
            &&& after.workspaces[at].panes == before.workspaces[at].panes
            &&& after.workspaces[at].layout == before.workspaces[at].layout
            &&& after.workspaces[at].id == before.workspaces[at].id
            &&& after.selected_workspace_id == before.selected_workspace_id
            &&& after.windows == before.windows
        }
}

/// A pane is chosen just where one lies that way, and it is one that lies that way.
proof fn lemma_nearest_lies(
    regions: Seq<PaneRegion>,
    current: PaneRegion,
    direction: FocusDirection,
    count: int,
)
    requires
        0 <= count <= regions.len(),
    ensures
        match layout::nearest(regions, current, direction, count) {
            Some((at, reach)) => 0 <= at < count && layout::candidate(
                regions[at],
                current,
                direction,
            ) is Some,
            None => forall|k: int|
                0 <= k < count ==> layout::candidate(
                    #[trigger] regions[k],
                    current,
                    direction,
                ) is None,
        },
    decreases count,
{
    if count > 0 {
        lemma_nearest_lies(regions, current, direction, count - 1);
    }
}

/// The place of the only region of a pane.
proof fn lemma_region_place(regions: Seq<PaneRegion>, at: int, from: int)
    requires
        0 <= from <= at < regions.len(),
        forall|k: int|
            0 <= k < regions.len() && k != at ==> (#[trigger] regions[k]).pane_id
                != regions[at].pane_id,
    ensures
        layout::region_from(regions, regions[at].pane_id, from) == Some(at),
    decreases at - from,
{
    if from < at {
        assert(regions[from].pane_id != regions[at].pane_id);
        lemma_region_place(regions, at, from + 1);
    }
}

proof fn lemma_distinct_regions(workspace: WorkspaceView, at: int)
    requires
        workspace.sound(),
        0 <= at < workspace.layout.all_regions().len(),
    ensures
        forall|k: int|
            0 <= k < workspace.layout.all_regions().len() && k != at ==> (
            #[trigger] workspace.layout.all_regions()[k]).pane_id
                != workspace.layout.all_regions()[at].pane_id,
        forall|k: int|
            0 <= k < workspace.layout.all_regions().len() ==> workspace.pane_at(
                (#[trigger] workspace.layout.all_regions()[k]).pane_id,
            ) is Some,
{
    let layout = workspace.layout;
    let all = layout.all_regions();
    let leaves = layout.leaves();
    laws_layout::law_each_leaf_has_a_region(layout, 0, 0, doubles::ONE, doubles::ONE);
    assert forall|k: int| 0 <= k < all.len() && k != at implies (#[trigger] all[k]).pane_id
        != all[at].pane_id by {
        assert(all[k].pane_id == leaves[k] && all[at].pane_id == leaves[at]);
    }
    assert forall|k: int| 0 <= k < all.len() implies workspace.pane_at(
        (#[trigger] all[k]).pane_id,
    ) is Some by {
        assert(leaves[k] == all[k].pane_id);
        assert(leaves.contains(leaves[k]));
    }
}

proof fn lemma_focus_went(state: StateView, direction: FocusDirection)
    requires
        state.sound(),
    ensures
        focus_went(state, state.focus_adjacent_pane(direction).0, direction),
{
    reveal(focus_went);
    let after = state.focus_adjacent_pane(direction).0;
    assert forall|at: int, here: int|
        #![trigger state.workspaces[at], state.workspaces[at].layout.all_regions()[here]]
        {
            let all = state.workspaces[at].layout.all_regions();
            &&& 0 <= at < state.workspaces.len()
            &&& state.workspaces[at].id == state.selected_workspace_id
            &&& 0 <= here < all.len()
            &&& all[here].pane_id == state.workspaces[at].selected_pane_id
        } implies {
        let all = state.workspaces[at].layout.all_regions();
        let now = after.workspaces[at].selected_pane_id;
        &&& (exists|there: int|
            0 <= there < all.len() && lies_towards(#[trigger] all[there], all[here], direction))
            ==> (exists|there: int|
            0 <= there < all.len() && (#[trigger] all[there]).pane_id == now && lies_towards(
                all[there],
                all[here],
                direction,
            ))
        &&& (forall|there: int|
            0 <= there < all.len() ==> !lies_towards(#[trigger] all[there], all[here], direction))
            ==> now == state.workspaces[at].selected_pane_id
        &&& after.workspaces == state.workspaces.update(at, after.workspaces[at])
        &&& after.workspaces[at].panes == state.workspaces[at].panes
        &&& after.workspaces[at].layout == state.workspaces[at].layout
        &&& after.workspaces[at].id == state.workspaces[at].id
        &&& after.selected_workspace_id == state.selected_workspace_id
        &&& after.windows == state.windows
    } by {
        lemma_focus_goes(state, direction, at, here);
    }
}

proof fn lemma_focus_goes(state: StateView, direction: FocusDirection, at: int, here: int)
    requires
        state.sound(),
        0 <= at < state.workspaces.len(),
        state.workspaces[at].id == state.selected_workspace_id,
        0 <= here < state.workspaces[at].layout.all_regions().len(),
        state.workspaces[at].layout.all_regions()[here].pane_id
            == state.workspaces[at].selected_pane_id,
    ensures
        ({
            let all = state.workspaces[at].layout.all_regions();
            let after = state.focus_adjacent_pane(direction).0;
            let now = after.workspaces[at].selected_pane_id;
            let best = layout::nearest(all, all[here], direction, all.len() as int);
            &&& match best {
                Some((there, _)) => {
                    &&& 0 <= there < all.len()
                    &&& all[there].pane_id == now
                    &&& lies_towards(all[there], all[here], direction)
                },
                None => now == state.workspaces[at].selected_pane_id,
            }
            &&& best is None ==> forall|there: int|
                0 <= there < all.len() ==> !lies_towards(
                    #[trigger] all[there],
                    all[here],
                    direction,
                )
            &&& after.workspaces == state.workspaces.update(at, after.workspaces[at])
            &&& after.workspaces[at].panes == state.workspaces[at].panes
            &&& after.workspaces[at].layout == state.workspaces[at].layout
            &&& after.workspaces[at].id == state.workspaces[at].id
            &&& after.selected_workspace_id == state.selected_workspace_id
            &&& after.windows == state.windows
        }),
{
    let workspace = state.workspaces[at];
    assert(workspace.sound());
    let all = workspace.layout.all_regions();
    sound_states::lemma_workspace_place(state.workspaces, at, 0);
    lemma_distinct_regions(workspace, here);
    lemma_region_place(all, here, 0);
    lemma_nearest_lies(all, all[here], direction, all.len() as int);
    let target = workspace.adjacent_pane(direction);
    assert(workspace.pane_at(target) is Some) by {
        if let Some((there, _)) = layout::nearest(all, all[here], direction, all.len() as int) {
            assert(all[there].pane_id == target);
        }
    }
    let after = state.focus_adjacent_pane(direction).0;
    assert(after.workspaces =~= state.workspaces.update(at, workspace.selecting(target)));
    assert(state.workspaces.update(at, after.workspaces[at]) =~= after.workspaces);
    if layout::nearest(all, all[here], direction, all.len() as int) is None {
        assert forall|there: int| 0 <= there < all.len() implies !lies_towards(
            #[trigger] all[there],
            all[here],
            direction,
        ) by {
            assert(layout::candidate(all[there], all[here], direction) is None);
            if there != here {
                assert(all[there].pane_id != all[here].pane_id);
            }
        }
    }
}

/// The actions that move the focus move it in the direction that they are named after: to a pane
/// whose centre lies farther left, right, up or down than that of the pane that had the focus. The
/// focus stays just where no pane lies that way.
pub proof fn law_focus_goes_towards(state: StateView, drawn: Drawn)
    requires
        state.sound(),
    ensures
        focus_went(state, state.acted(drawn, AppAction::PaneFocusLeft), FocusDirection::Left),
        focus_went(state, state.acted(drawn, AppAction::PaneFocusRight), FocusDirection::Right),
        focus_went(state, state.acted(drawn, AppAction::PaneFocusUp), FocusDirection::Up),
        focus_went(state, state.acted(drawn, AppAction::PaneFocusDown), FocusDirection::Down),
{
    lemma_focus_went(state, FocusDirection::Left);
    lemma_focus_went(state, FocusDirection::Right);
    lemma_focus_went(state, FocusDirection::Up);
    lemma_focus_went(state, FocusDirection::Down);
}

/// The edge that two panes share across a direction.
pub open spec fn shared_edge(one: PaneRegion, other: PaneRegion, direction: FocusDirection) -> u64 {
    let (low, length, other_low, other_length) = match direction {
        FocusDirection::Left | FocusDirection::Right => (one.y, one.height, other.y, other.height),
        FocusDirection::Up | FocusDirection::Down => (one.x, one.width, other.x, other.width),
    };
    let end = doubles::sum_of(low, length);
    let other_end = doubles::sum_of(other_low, other_length);
    let first = if end < other_end {
        end
    } else {
        other_end
    };
    let last = if low > other_low {
        low
    } else {
        other_low
    };
    if first > last {
        doubles::apart(first, last)
    } else {
        0
    }
}

/// The gap from one pane to another one that lies in a direction.
pub open spec fn gap_between(from: PaneRegion, to: PaneRegion, direction: FocusDirection) -> u64 {
    let (begin, end) = match direction {
        FocusDirection::Left => (doubles::sum_of(to.x, to.width), from.x),
        FocusDirection::Right => (doubles::sum_of(from.x, from.width), to.x),
        FocusDirection::Up => (doubles::sum_of(to.y, to.height), from.y),
        FocusDirection::Down => (doubles::sum_of(from.y, from.height), to.y),
    };
    if end > begin {
        doubles::apart(end, begin)
    } else {
        0
    }
}

/// How far the centres of two panes are apart across a direction.
pub open spec fn off_centre(one: PaneRegion, other: PaneRegion, direction: FocusDirection) -> u64 {
    match direction {
        FocusDirection::Left | FocusDirection::Right => doubles::apart(
            doubles::sum_of(one.y, doubles::half_of(one.height)),
            doubles::sum_of(other.y, doubles::half_of(other.height)),
        ),
        FocusDirection::Up | FocusDirection::Down => doubles::apart(
            doubles::sum_of(one.x, doubles::half_of(one.width)),
            doubles::sum_of(other.x, doubles::half_of(other.width)),
        ),
    }
}

/// How a pane lies from another one is measured on their rectangles.
pub proof fn law_reach_is_measured(
    region: PaneRegion,
    current: PaneRegion,
    direction: FocusDirection,
)
    ensures
        match region.reached_from(current, direction) {
            Some(reach) => {
                &&& lies_towards(region, current, direction)
                &&& reach.overlap == shared_edge(current, region, direction)
                &&& reach.gap == gap_between(current, region, direction)
                &&& reach.offset == off_centre(region, current, direction)
            },
            None => !lies_towards(region, current, direction),
        },
{
}

/// Of the panes that lie in a direction, the focus goes to the one that shares the longest edge
/// with the pane that had it; of several, to the one with the smallest gap; of several, to the one
/// whose centre is least off; of several, to the first. It is so where no side of the area is
/// halved more than 52 times.
pub proof fn law_focus_goes_to_the_nearest(
    state: StateView,
    direction: FocusDirection,
    at: int,
    here: int,
    other: int,
)
    requires
        state.sound(),
        0 <= at < state.workspaces.len(),
        state.workspaces[at].id == state.selected_workspace_id,
        state.workspaces[at].layout.halvings(SplitOrientation::Horizontal) <= 52,
        state.workspaces[at].layout.halvings(SplitOrientation::Vertical) <= 52,
        0 <= here < state.workspaces[at].layout.all_regions().len(),
        state.workspaces[at].layout.all_regions()[here].pane_id
            == state.workspaces[at].selected_pane_id,
        0 <= other < state.workspaces[at].layout.all_regions().len(),
        lies_towards(
            state.workspaces[at].layout.all_regions()[other],
            state.workspaces[at].layout.all_regions()[here],
            direction,
        ),
    ensures
        ({
            let all = state.workspaces[at].layout.all_regions();
            let now = state.focus_adjacent_pane(direction).0.workspaces[at].selected_pane_id;
            exists|there: int|
                {
                    let edge = shared_edge(all[here], all[there], direction);
                    let other_edge = shared_edge(all[here], all[other], direction);
                    let gap = gap_between(all[here], all[there], direction);
                    let other_gap = gap_between(all[here], all[other], direction);
                    let off = off_centre(all[there], all[here], direction);
                    let other_off = off_centre(all[other], all[here], direction);
                    &&& 0 <= there < all.len()
                    &&& (#[trigger] all[there]).pane_id == now
                    &&& edge >= other_edge
                    &&& edge == other_edge ==> gap <= other_gap
                    &&& edge == other_edge && gap == other_gap ==> off <= other_off
                    &&& edge == other_edge && gap == other_gap && off == other_off ==> there
                        <= other
                }
        }),
{
    let workspace = state.workspaces[at];
    assert(workspace.sound());
    let layout = workspace.layout;
    let all = layout.all_regions();
    lemma_focus_goes(state, direction, at, here);
    lemma_distinct_regions(workspace, here);
    assert forall|i: int, j: int|
        #![trigger all[i], all[j]]
        0 <= i < all.len() && 0 <= j < all.len() implies match (
        layout::candidate(all[i], all[here], direction),
        layout::candidate(all[j], all[here], direction),
    ) {
        (Some(one), Some(two)) => one.told_apart(two),
        _ => true,
    } by {
        laws_layout::law_shallow_layouts_tell_panes_apart(layout, here, i, j, direction);
    }
    laws_layout::law_nearest_is_best(all, all[here], direction, all.len() as int);
    law_reach_is_measured(all[other], all[here], direction);
    assert(other != here);
    let best = layout::nearest(all, all[here], direction, all.len() as int);
    let (there, reach) = best->0;
    law_reach_is_measured(all[there], all[here], direction);
    let beside = layout::candidate(all[other], all[here], direction)->0;
    laws_layout::lemma_beats(reach, beside);
    laws_layout::lemma_beats(beside, reach);
    assert(all[there].pane_id == state.focus_adjacent_pane(
        direction,
    ).0.workspaces[at].selected_pane_id);
}

} // verus!
