//! What lists tell: of each object its identifier, its place and whether it is selected, in order.

use crate::answer_notifications;
use crate::answer_surfaces;
use crate::answer_surfaces::RowView;
use crate::ids::{PaneId, SurfaceId, WindowId};
use crate::json;
use crate::json::ValueView;
use crate::laws_requests;
use crate::laws_tabs;
use crate::model::ModelView;
use crate::params;
use crate::params::ParamsView;
use crate::reply;
use crate::reply::ErrorView;
use crate::sound_states;
use crate::sound_workspaces;
use crate::state;
use crate::state::NotificationView;
use crate::surface::PaneView;
use crate::workspace;
use crate::workspace::WorkspaceView;
use vstd::prelude::*;

verus! {

/// Whether an object has this value for a key.
pub open spec fn tells(row: ValueView, key: Seq<char>, value: ValueView) -> bool {
    match row {
        ValueView::Object(fields) => json::entry(fields, key) == Some(value),
        _ => false,
    }
}

/// The entry of a key after one more entry: the one that was there, or the new one.
broadcast proof fn lemma_entry_pushed(
    fields: Seq<(Seq<char>, ValueView)>,
    entry: (Seq<char>, ValueView),
    key: Seq<char>,
)
    ensures
        #[trigger] json::entry(fields.push(entry), key) == (if json::entry(fields, key) is Some {
            json::entry(fields, key)
        } else if entry.0 == key {
            Some(entry.1)
        } else {
            None
        }),
{
    lemma_entry_from(fields, entry, key, 0);
}

proof fn lemma_entry_from(
    fields: Seq<(Seq<char>, ValueView)>,
    entry: (Seq<char>, ValueView),
    key: Seq<char>,
    from: int,
)
    requires
        0 <= from <= fields.len(),
    ensures
        json::entry_from(fields.push(entry), key, from) == (match json::entry_from(
            fields,
            key,
            from,
        ) {
            Some(at) => Some(at),
            None => if entry.0 == key {
                Some(fields.len() as int)
            } else {
                None
            },
        }),
        match json::entry_from(fields, key, from) {
            Some(at) => from <= at < fields.len(),
            None => true,
        },
    decreases fields.len() - from,
{
    reveal_with_fuel(json::entry_from, 2);
    if from < fields.len() {
        assert(fields.push(entry)[from] == fields[from]);
        if fields[from].0 != key {
            lemma_entry_from(fields, entry, key, from + 1);
        }
    } else {
        assert(fields.push(entry)[from] == entry);
    }
}

broadcast proof fn lemma_no_entry(key: Seq<char>)
    ensures
        #[trigger] json::entry(reply::no_fields(), key) is None,
{
}

/// The keys of lists differ.
proof fn lemma_keys()
    ensures
        "id"@.len() == 2,
        "ref"@.len() == 3,
        "key"@.len() == 3,
        "key"@[0] == 'k',
        "ref"@[0] == 'r',
        "type"@.len() == 4,
        "index"@.len() == 5,
        "index"@[0] == 'i',
        "title"@.len() == 5,
        "title"@[0] == 't',
        "unread"@.len() == 6,
        "visible"@.len() == 7,
        "visible"@[0] == 'v',
        "focused"@.len() == 7,
        "focused"@[0] == 'f',
        "pane_id"@.len() == 7,
        "pane_id"@[0] == 'p',
        "selected"@.len() == 8,
        "pane_ref"@.len() == 8,
        "pane_ref"@[0] == 'p',
        "selected"@[0] == 's',
        "flash_count"@.len() == 11,
        "surface_ids"@.len() == 11,
        "flash_count"@[0] == 'f',
        "surface_ids"@[0] == 's',
        "index_in_pane"@.len() == 13,
        "workspace_count"@.len() == 15,
        "selected_in_pane"@.len() == 16,
        "selected_workspace_id"@.len() == 21,
{
    reveal_strlit("id");
    reveal_strlit("ref");
    reveal_strlit("key");
    reveal_strlit("type");
    reveal_strlit("index");
    reveal_strlit("title");
    reveal_strlit("unread");
    reveal_strlit("visible");
    reveal_strlit("focused");
    reveal_strlit("pane_id");
    reveal_strlit("selected");
    reveal_strlit("pane_ref");
    reveal_strlit("flash_count");
    reveal_strlit("surface_ids");
    reveal_strlit("index_in_pane");
    reveal_strlit("workspace_count");
    reveal_strlit("selected_in_pane");
    reveal_strlit("selected_workspace_id");
}

// ---------------------------------------------------------------------------
// Windows and workspaces
// ---------------------------------------------------------------------------

/// The list of windows has one row for each, in order: its identifier, its place, whether it is the
/// current one, how many workspaces it has and which it shows.
pub proof fn law_windows_are_listed(model: ModelView, count: int)
    requires
        0 <= count <= model.state.windows.len(),
    ensures
        ({
            let rows = model.window_rows(count).1;
            let windows = model.state.windows;
            &&& rows.len() == count
            &&& forall|k: int|
                0 <= k < count ==> {
                    &&& tells(#[trigger] rows[k], "id"@, json::id_value(windows[k].id))
                    &&& tells(rows[k], "index"@, json::count_value(k as nat))
                    &&& tells(
                        rows[k],
                        "key"@,
                        ValueView::Bool(windows[k].id == model.state.window_id),
                    )
                    &&& tells(
                        rows[k],
                        "workspace_count"@,
                        json::count_value(model.state.workspace_ids_in(windows[k].id).len()),
                    )
                    &&& tells(
                        rows[k],
                        "selected_workspace_id"@,
                        json::id_value(windows[k].selected_workspace_id),
                    )
                }
        }),
    decreases count,
{
    broadcast use lemma_entry_pushed, lemma_no_entry;

    reveal(ModelView::only_names);
    lemma_keys();
    if count > 0 {
        law_windows_are_listed(model, count - 1);
        laws_requests::lemma_window_rows(model, count - 1);
        let (next, rows) = model.window_rows(count - 1);
        assert(next.state == model.state);
        let last = ValueView::Object(next.window_row(count - 1).fields);
        assert(model.window_rows(count).1 == rows.push(last));
    }
}

/// The list of workspaces has one row for each that the window has, in order: its identifier, its
/// place, its title and whether the window shows it.
pub proof fn law_workspaces_are_listed(model: ModelView, window_id: WindowId, count: int)
    requires
        0 <= count <= model.state.workspaces.len(),
    ensures
        ({
            let rows = model.workspace_rows(window_id, count).1;
            let held = state::held_by(model.state.workspaces, window_id, count);
            &&& rows.len() == held.len()
            &&& forall|k: int|
                0 <= k < rows.len() ==> {
                    &&& tells(#[trigger] rows[k], "id"@, json::id_value(held[k].id))
                    &&& tells(rows[k], "index"@, json::count_value(k as nat))
                    &&& tells(rows[k], "title"@, ValueView::Text(held[k].title))
                    &&& tells(
                        rows[k],
                        "selected"@,
                        ValueView::Bool(
                            match model.state.window(window_id) {
                                Some(window) => window.selected_workspace_id == held[k].id,
                                None => false,
                            },
                        ),
                    )
                }
        }),
    decreases count,
{
    broadcast use lemma_entry_pushed, lemma_no_entry;

    reveal(ModelView::only_names);
    lemma_keys();
    if count > 0 {
        law_workspaces_are_listed(model, window_id, count - 1);
        laws_requests::lemma_workspace_rows(model, window_id, count - 1);
        let (next, rows) = model.workspace_rows(window_id, count - 1);
        assert(next.state == model.state);
        if model.state.workspaces[count - 1].window_id == window_id {
            let last = ValueView::Object(
                next.workspace_row(count - 1, window_id, rows.len()).fields,
            );
            assert(model.workspace_rows(window_id, count).1 == rows.push(last));
        }
    }
}

// ---------------------------------------------------------------------------
// Panes and surfaces
// ---------------------------------------------------------------------------

/// The list of panes tells of each its identifier, its place in the layout, whether it has the
/// focus, and its tabs in order.
pub proof fn law_panes_are_listed(
    model: ModelView,
    panes: Seq<PaneView>,
    focused: Option<PaneId>,
    count: int,
)
    requires
        0 <= count <= panes.len(),
    ensures
        ({
            let rows = model.pane_rows(panes, focused, count).1;
            &&& rows.len() == count
            &&& forall|k: int|
                0 <= k < count ==> {
                    &&& tells(#[trigger] rows[k], "id"@, json::id_value(panes[k].id))
                    &&& tells(rows[k], "index"@, json::count_value(k as nat))
                    &&& tells(
                        rows[k],
                        "focused"@,
                        ValueView::Bool(focused == Some(panes[k].id)),
                    )
                    &&& tells(
                        rows[k],
                        "surface_ids"@,
                        json::ids_value(laws_tabs::tab_ids(panes[k])),
                    )
                }
        }),
    decreases count,
{
    broadcast use lemma_entry_pushed, lemma_no_entry;

    lemma_keys();
    if count > 0 {
        law_panes_are_listed(model, panes, focused, count - 1);
        let (next, rows) = model.pane_rows(panes, focused, count - 1);
        let pane = panes[count - 1];
        let last = ValueView::Object(
            next.pane_row(pane, (count - 1) as nat, focused == Some(pane.id)).fields,
        );
        assert(params::surface_ids(pane) =~= laws_tabs::tab_ids(pane));
        assert(model.pane_rows(panes, focused, count).1 == rows.push(last));
    }
}

/// The list of surfaces tells of each its identifier, its place, its title, whether it asks for
/// attention, whether it has the focus, its pane, its place in the pane and whether it is selected
/// there.
pub proof fn law_surfaces_are_listed(
    model: ModelView,
    list: Seq<RowView>,
    focused: Option<SurfaceId>,
    count: int,
)
    requires
        0 <= count <= list.len(),
    ensures
        ({
            let rows = model.surface_row_values(list, focused, count).1;
            &&& rows.len() == count
            &&& forall|k: int|
                0 <= k < count ==> {
                    &&& tells(#[trigger] rows[k], "id"@, json::id_value(list[k].surface.id))
                    &&& tells(rows[k], "index"@, json::count_value(k as nat))
                    &&& tells(rows[k], "title"@, ValueView::Text(list[k].surface.title))
                    &&& tells(rows[k], "unread"@, ValueView::Bool(list[k].surface.unread))
                    &&& tells(
                        rows[k],
                        "focused"@,
                        ValueView::Bool(focused == Some(list[k].surface.id)),
                    )
                    &&& tells(rows[k], "pane_id"@, json::id_value(list[k].pane.id))
                    &&& tells(
                        rows[k],
                        "index_in_pane"@,
                        json::count_value(list[k].index_in_pane),
                    )
                    &&& tells(
                        rows[k],
                        "selected_in_pane"@,
                        ValueView::Bool(
                            list[k].pane.selected_surface_id == list[k].surface.id,
                        ),
                    )
                }
        }),
    decreases count,
{
    broadcast use lemma_entry_pushed, lemma_no_entry;

    lemma_keys();
    if count > 0 {
        law_surfaces_are_listed(model, list, focused, count - 1);
        let (next, rows) = model.surface_row_values(list, focused, count - 1);
        let row = list[count - 1];
        let last = ValueView::Object(
            next.surface_row(row, (count - 1) as nat, focused == Some(row.surface.id)).fields,
        );
        assert(model.surface_row_values(list, focused, count).1 == rows.push(last));
    }
}

/// The rows of a list of surfaces are the tabs of one pane after the other, each pane's in order.
pub proof fn law_surfaces_are_in_order(panes: Seq<PaneView>, count: int, place: int, tab: int)
    -> (at: int)
    requires
        0 <= place < count <= panes.len(),
        0 <= tab < panes[place].surfaces.len(),
    ensures
        ({
            let rows = answer_surfaces::surface_rows(panes, count);
            &&& 0 <= at < rows.len()
            &&& at == answer_surfaces::surface_rows(panes, place).len() + tab
            &&& rows[at].pane == panes[place]
            &&& rows[at].surface == panes[place].surfaces[tab]
            &&& rows[at].index_in_pane == tab
        }),
    decreases count,
{
    let rows = answer_surfaces::surface_rows(panes, count);
    let before = answer_surfaces::surface_rows(panes, count - 1);
    assert(rows == before + answer_surfaces::rows_of(panes[count - 1]));
    if place == count - 1 {
        before.len() + tab
    } else {
        let at = law_surfaces_are_in_order(panes, count - 1, place, tab);
        assert(rows[at] == before[at]);
        at
    }
}

/// In a sound workspace, the panes of a list are those at the leaves of the layout, from first to
/// last.
pub proof fn law_panes_are_in_order(workspace: WorkspaceView, leaf: int)
    requires
        workspace.sound(),
        0 <= leaf < workspace.layout.leaves().len(),
    ensures
        workspace.ordered_panes().len() == workspace.layout.leaves().len(),
        workspace.ordered_panes()[leaf].id == workspace.layout.leaves()[leaf],
        workspace.pane(workspace.layout.leaves()[leaf]) == Some(workspace.ordered_panes()[leaf]),
{
    let leaves = workspace.layout.leaves();
    lemma_complete(workspace, workspace.panes.len() as int);
    lemma_panes_for(workspace, leaves.len() as int);
}

proof fn lemma_complete(workspace: WorkspaceView, count: int)
    requires
        workspace.sound(),
        0 <= count <= workspace.panes.len(),
    ensures
        workspace::completed(workspace.layout.leaves(), workspace.panes, count)
            == workspace.layout.leaves(),
    decreases count,
{
    if count > 0 {
        lemma_complete(workspace, count - 1);
        workspace::lemma_pane_found(workspace.panes, count - 1, 0);
        assert(workspace.layout.leaves().contains(workspace.panes[count - 1].id));
    }
}

proof fn lemma_panes_for(workspace: WorkspaceView, count: int)
    requires
        workspace.sound(),
        0 <= count <= workspace.layout.leaves().len(),
    ensures
        ({
            let leaves = workspace.layout.leaves();
            let list = workspace::panes_for(workspace.panes, leaves, count);
            &&& list.len() == count
            &&& forall|k: int|
                0 <= k < count ==> (#[trigger] list[k]).id == leaves[k] && workspace.pane(
                    leaves[k],
                ) == Some(list[k])
        }),
    decreases count,
{
    if count > 0 {
        lemma_panes_for(workspace, count - 1);
        let leaves = workspace.layout.leaves();
        assert(leaves.contains(leaves[count - 1]));
        workspace::lemma_pane_from(workspace.panes, leaves[count - 1], 0);
    }
}

/// The list of the tabs of a pane has one row for each, in order: its identifier, its place, its
/// title and whether it is selected.
pub proof fn law_tabs_are_listed(model: ModelView, pane: PaneView, count: int)
    requires
        0 <= count <= pane.surfaces.len(),
    ensures
        ({
            let rows = model.tab_rows(pane, count).1;
            &&& rows.len() == count
            &&& forall|k: int|
                0 <= k < count ==> {
                    &&& tells(#[trigger] rows[k], "id"@, json::id_value(pane.surfaces[k].id))
                    &&& tells(rows[k], "index"@, json::count_value(k as nat))
                    &&& tells(rows[k], "title"@, ValueView::Text(pane.surfaces[k].title))
                    &&& tells(
                        rows[k],
                        "selected"@,
                        ValueView::Bool(pane.selected_surface_id == pane.surfaces[k].id),
                    )
                }
        }),
    decreases count,
{
    broadcast use lemma_entry_pushed, lemma_no_entry;

    lemma_keys();
    if count > 0 {
        law_tabs_are_listed(model, pane, count - 1);
        let (next, rows) = model.tab_rows(pane, count - 1);
        let last = ValueView::Object(next.tab_row(pane, count - 1).fields);
        assert(model.tab_rows(pane, count).1 == rows.push(last));
    }
}

// ---------------------------------------------------------------------------
// Notifications, and what is current
// ---------------------------------------------------------------------------

/// The keys of what is told of notifications differ, and so do those of what is current.
proof fn lemma_more_keys()
    ensures
        "id"@.len() == 2,
        "body"@.len() == 4,
        "title"@.len() == 5,
        "is_read"@.len() == 7,
        "is_read"@[0] == 'i',
        "pane_id"@.len() == 7,
        "pane_id"@[0] == 'p',
        "pane_ref"@.len() == 8,
        "subtitle"@.len() == 8,
        "delivered"@.len() == 9,
        "window_id"@.len() == 9,
        "window_ref"@.len() == 10,
        "window_ref"@[0] == 'w',
        "surface_id"@.len() == 10,
        "surface_id"@[0] == 's',
        "workspace_id"@.len() == 12,
        "workspace_ref"@.len() == 13,
{
    reveal_strlit("id");
    reveal_strlit("body");
    reveal_strlit("title");
    reveal_strlit("is_read");
    reveal_strlit("pane_id");
    reveal_strlit("pane_ref");
    reveal_strlit("subtitle");
    reveal_strlit("delivered");
    reveal_strlit("window_id");
    reveal_strlit("window_ref");
    reveal_strlit("surface_id");
    reveal_strlit("workspace_id");
    reveal_strlit("workspace_ref");
}

/// What is told of a notification: which it is, what it is about, what it says and whether it was
/// read.
pub proof fn law_notification_is_told(notification: NotificationView)
    ensures
        ({
            let row = answer_notifications::notification_value(notification);
            &&& tells(row, "id"@, json::id_value(notification.id))
            &&& tells(row, "workspace_id"@, json::id_value(notification.workspace_id))
            &&& tells(row, "surface_id"@, json::opt_id_value(notification.surface_id))
            &&& tells(row, "is_read"@, ValueView::Bool(notification.is_read))
            &&& tells(row, "title"@, ValueView::Text(notification.title))
            &&& tells(row, "subtitle"@, ValueView::Text(notification.subtitle))
            &&& tells(row, "body"@, ValueView::Text(notification.body))
            &&& tells(row, "delivered"@, ValueView::Bool(notification.delivered))
        }),
{
    broadcast use lemma_entry_pushed, lemma_no_entry;

    lemma_more_keys();
}

/// The list of notifications has one row for each, from the oldest to the newest, and listing them
/// changes nothing.
pub proof fn law_notifications_are_listed(model: ModelView) -> (rows: Seq<ValueView>)
    ensures
        ({
            let (after, result) = model.notification_list();
            &&& after == model
            &&& result is Ok
            &&& tells(result->Ok_0, "notifications"@, ValueView::Array(rows))
            &&& rows.len() == model.state.notifications.len()
            &&& forall|k: int|
                0 <= k < rows.len() ==> {
                    let notification = model.state.notifications[k];
                    &&& tells(#[trigger] rows[k], "id"@, json::id_value(notification.id))
                    &&& tells(rows[k], "title"@, ValueView::Text(notification.title))
                    &&& tells(rows[k], "body"@, ValueView::Text(notification.body))
                    &&& tells(rows[k], "is_read"@, ValueView::Bool(notification.is_read))
                }
        }),
{
    broadcast use lemma_entry_pushed, lemma_no_entry;

    let list = model.state.notifications;
    let rows = Seq::new(
        list.len(),
        |at: int| answer_notifications::notification_value(list[at]),
    );
    assert forall|k: int| 0 <= k < rows.len() implies tells(
        #[trigger] rows[k],
        "id"@,
        json::id_value(list[k].id),
    ) && tells(rows[k], "title"@, ValueView::Text(list[k].title)) && tells(
        rows[k],
        "body"@,
        ValueView::Text(list[k].body),
    ) && tells(rows[k], "is_read"@, ValueView::Bool(list[k].is_read)) by {
        law_notification_is_told(list[k]);
    }
    assert(rows =~= Seq::new(
        model.state.notifications.len(),
        |at: int| answer_notifications::notification_value(model.state.notifications[at]),
    ));
    rows
}

/// What is told of the current window is which it is, and of a workspace, which pane and which tab
/// of it are selected.
pub proof fn law_current_is_told(model: ModelView, params: ParamsView, at: int, place: int)
    requires
        model.state.sound(),
        laws_tabs::has_pane(model.state, at, place),
        model.state.workspaces[at].selected_pane_id == model.state.workspaces[at].panes[place].id,
        params::workspace_target(model, params).1 == Ok::<_, ErrorView>(
            model.state.workspaces[at].id,
        ),
    ensures
        ({
            let workspace = model.state.workspaces[at];
            let pane = workspace.panes[place];
            let window = model.window_current();
            let surface = model.surface_current(params);
            &&& window.1 is Ok
            &&& tells(window.1->Ok_0, "window_id"@, json::id_value(model.state.window_id))
            &&& model.state.one_place() ==> {
                &&& surface.1 is Ok
                &&& tells(surface.1->Ok_0, "window_id"@, json::id_value(workspace.window_id))
                &&& tells(surface.1->Ok_0, "workspace_id"@, json::id_value(workspace.id))
                &&& tells(surface.1->Ok_0, "pane_id"@, json::id_value(pane.id))
                &&& tells(
                    surface.1->Ok_0,
                    "surface_id"@,
                    json::id_value(pane.selected_surface_id),
                )
            }
        }),
{
    broadcast use lemma_entry_pushed, lemma_no_entry;

    lemma_more_keys();
    reveal(ModelView::only_names);
    laws_requests::lemma_targets(model, params);
    let workspace = model.state.workspaces[at];
    assert(workspace.sound());
    let pane = workspace.panes[place];
    assert(pane.sound());
    sound_states::lemma_workspace_place(model.state.workspaces, at, 0);
    sound_workspaces::lemma_pane_place(workspace.panes, place);
    if model.state.one_place() {
        sound_workspaces::lemma_surface_from(pane.surfaces, pane.selected_surface_id, 0);
        let tab = pane.surface_at(pane.selected_surface_id)->0;
        laws_tabs::lemma_found(model.state, pane.selected_surface_id, at, place, tab);
    }
}

} // verus!
