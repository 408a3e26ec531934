//! Short names for windows, workspaces, panes and surfaces.

use crate::state;
use crate::state::{AppState, StateView, WindowState};
use crate::state_focus;
use crate::state_focus::place_of;
use crate::surface::{PaneView, SurfaceView};
use crate::text;
use crate::text::{decimal_text, joined3, same_text, strip_prefix, to_lower, trim};
use crate::workspace::WorkspaceView;
use vstd::prelude::*;

verus! {

/// What a short name stands for.
#[derive(Debug, Clone, Copy, PartialEq, Eq, PartialOrd, Ord, Hash, Structural)]
pub enum HandleKind {
    /// A window.
    Window,
    /// A workspace.
    Workspace,
    /// A pane.
    Pane,
    /// A surface.
    Surface,
}

impl HandleKind {
    /// The word that a short name of this kind begins with.
    pub open spec fn word(self) -> Seq<char> {
        match self {
            HandleKind::Window => "window"@,
            HandleKind::Workspace => "workspace"@,
            HandleKind::Pane => "pane"@,
            HandleKind::Surface => "surface"@,
        }
    }

    /// The word that a short name of this kind begins with.
    pub fn as_str(self) -> (word: &'static str)
        ensures
            word@ == self.word(),
    {
        match self {
            HandleKind::Window => "window",
            HandleKind::Workspace => "workspace",
            HandleKind::Pane => "pane",
            HandleKind::Surface => "surface",
        }
    }

    fn same(self, other: HandleKind) -> (same: bool)
        ensures
            same == (self == other),
    {
        self == other
    }
}

/// The short names given out so far: the objects of each kind, in the order in which they were
/// named. The name of an object is its kind's word, a colon, and its place counted from 1.
#[derive(Debug)]
pub struct HandleRegistry {
    /// The windows.
    pub windows: Vec<u128>,
    /// The workspaces.
    pub workspaces: Vec<u128>,
    /// The panes.
    pub panes: Vec<u128>,
    /// The surfaces.
    pub surfaces: Vec<u128>,
}

/// The contents of a [`HandleRegistry`].
#[verifier::ext_equal]
pub struct RegistryView {
    /// See [`HandleRegistry::windows`].
    pub windows: Seq<u128>,
    /// See [`HandleRegistry::workspaces`].
    pub workspaces: Seq<u128>,
    /// See [`HandleRegistry::panes`].
    pub panes: Seq<u128>,
    /// See [`HandleRegistry::surfaces`].
    pub surfaces: Seq<u128>,
}

impl View for HandleRegistry {
    type V = RegistryView;

    open spec fn view(&self) -> RegistryView {
        RegistryView {
            windows: self.windows@,
            workspaces: self.workspaces@,
            panes: self.panes@,
            surfaces: self.surfaces@,
        }
    }
}

/// A short name.
pub open spec fn name_text(kind: HandleKind, number: nat) -> Seq<char> {
    kind.word() + ":"@ + text::decimal(number)
}

/// The list with this identifier in it, added at the end where it was not.
pub open spec fn noted(list: Seq<u128>, id: u128) -> Seq<u128> {
    if list.contains(id) {
        list
    } else {
        list.push(id)
    }
}

/// The list with the first `count` windows in it.
pub open spec fn noted_windows(list: Seq<u128>, windows: Seq<WindowState>, count: int) -> Seq<u128>
    decreases count,
{
    if count <= 0 {
        list
    } else {
        noted(noted_windows(list, windows, count - 1), windows[count - 1].id)
    }
}

/// The list with the first `count` workspaces in it.
pub open spec fn noted_workspaces(
    list: Seq<u128>,
    workspaces: Seq<WorkspaceView>,
    count: int,
) -> Seq<u128>
    decreases count,
{
    if count <= 0 {
        list
    } else {
        noted(noted_workspaces(list, workspaces, count - 1), workspaces[count - 1].id)
    }
}

/// The list with the first `count` panes in it.
pub open spec fn noted_panes(list: Seq<u128>, panes: Seq<PaneView>, count: int) -> Seq<u128>
    decreases count,
{
    if count <= 0 {
        list
    } else {
        noted(noted_panes(list, panes, count - 1), panes[count - 1].id)
    }
}

/// The list with the panes of the first `count` workspaces in it.
pub open spec fn noted_all_panes(
    list: Seq<u128>,
    workspaces: Seq<WorkspaceView>,
    count: int,
) -> Seq<u128>
    decreases count,
{
    if count <= 0 {
        list
    } else {
        noted_panes(
            noted_all_panes(list, workspaces, count - 1),
            workspaces[count - 1].panes,
            workspaces[count - 1].panes.len() as int,
        )
    }
}

/// The list with the first `count` surfaces in it.
pub open spec fn noted_surfaces(
    list: Seq<u128>,
    surfaces: Seq<SurfaceView>,
    count: int,
) -> Seq<u128>
    decreases count,
{
    if count <= 0 {
        list
    } else {
        noted(noted_surfaces(list, surfaces, count - 1), surfaces[count - 1].id)
    }
}

/// The list with the surfaces of the first `count` panes in it.
pub open spec fn noted_pane_surfaces(
    list: Seq<u128>,
    panes: Seq<PaneView>,
    count: int,
) -> Seq<u128>
    decreases count,
{
    if count <= 0 {
        list
    } else {
        noted_surfaces(
            noted_pane_surfaces(list, panes, count - 1),
            panes[count - 1].surfaces,
            panes[count - 1].surfaces.len() as int,
        )
    }
}

/// The list with the surfaces of the first `count` workspaces in it.
pub open spec fn noted_all_surfaces(
    list: Seq<u128>,
    workspaces: Seq<WorkspaceView>,
    count: int,
) -> Seq<u128>
    decreases count,
{
    if count <= 0 {
        list
    } else {
        noted_pane_surfaces(
            noted_all_surfaces(list, workspaces, count - 1),
            workspaces[count - 1].panes,
            workspaces[count - 1].panes.len() as int,
        )
    }
}

/// The identifier whose short name is `raw`, among those of a kind from place `at` on.
pub open spec fn named_from(
    kind: HandleKind,
    list: Seq<u128>,
    raw: Seq<char>,
    at: int,
) -> Option<(HandleKind, u128)>
    decreases list.len() - at,
{
    if at >= list.len() {
        None
    } else if name_text(kind, (at + 1) as nat) == raw {
        Some((kind, list[at]))
    } else {
        named_from(kind, list, raw, at + 1)
    }
}

impl RegistryView {
    /// A registry without names.
    pub open spec fn empty() -> RegistryView {
        RegistryView {
            windows: Seq::empty(),
            workspaces: Seq::empty(),
            panes: Seq::empty(),
            surfaces: Seq::empty(),
        }
    }

    /// The objects of a kind that have names.
    pub open spec fn list(self, kind: HandleKind) -> Seq<u128> {
        match kind {
            HandleKind::Window => self.windows,
            HandleKind::Workspace => self.workspaces,
            HandleKind::Pane => self.panes,
            HandleKind::Surface => self.surfaces,
        }
    }

    /// The registry with a name for this object.
    pub open spec fn ensured(self, kind: HandleKind, id: u128) -> RegistryView {
        match kind {
            HandleKind::Window => RegistryView { windows: noted(self.windows, id), ..self },
            HandleKind::Workspace => RegistryView {
                workspaces: noted(self.workspaces, id),
                ..self
            },
            HandleKind::Pane => RegistryView { panes: noted(self.panes, id), ..self },
            HandleKind::Surface => RegistryView { surfaces: noted(self.surfaces, id), ..self },
        }
    }

    /// The number in the name of this object, once it has one.
    pub open spec fn number(self, kind: HandleKind, id: u128) -> nat {
        let list = noted(self.list(kind), id);
        (state_focus::place_from(list, id, 0)->0 + 1) as nat
    }

    /// The name of this object, once it has one.
    pub open spec fn name(self, kind: HandleKind, id: u128) -> Seq<char> {
        name_text(kind, self.number(kind, id))
    }

    /// The object with exactly this name.
    pub open spec fn named(self, raw: Seq<char>) -> Option<(HandleKind, u128)> {
        match named_from(HandleKind::Window, self.windows, raw, 0) {
            Some(found) => Some(found),
            None => match named_from(HandleKind::Workspace, self.workspaces, raw, 0) {
                Some(found) => Some(found),
                None => match named_from(HandleKind::Pane, self.panes, raw, 0) {
                    Some(found) => Some(found),
                    None => named_from(HandleKind::Surface, self.surfaces, raw, 0),
                },
            },
        }
    }

    /// The object with this name. A surface may also be called a tab, in any case of the letters
    /// and with white space around the name.
    pub open spec fn resolved(self, raw: Seq<char>) -> Option<(HandleKind, u128)> {
        match self.named(raw) {
            Some(found) => Some(found),
            None => {
                let tidy = text::lowered(text::trimmed(raw));
                if text::begins(tidy, "tab:"@) {
                    self.named("surface:"@ + tidy.skip("tab:"@.len() as int))
                } else {
                    None
                }
            },
        }
    }

    /// The registry with a name for each object of a state.
    pub open spec fn refreshed(self, state: StateView) -> RegistryView {
        let count = state.workspaces.len() as int;
        RegistryView {
            windows: noted_windows(self.windows, state.windows, state.windows.len() as int),
            workspaces: noted_workspaces(self.workspaces, state.workspaces, count),
            panes: noted_all_panes(self.panes, state.workspaces, count),
            surfaces: noted_all_surfaces(self.surfaces, state.workspaces, count),
        }
    }
}

fn note(list: &mut Vec<u128>, id: u128)
    ensures
        final(list)@ == noted(old(list)@, id),
{
    if !crate::ids::holds(list, id) {
        list.push(id);
    }
}

/// A new identifier is found at the end of the list.
pub proof fn lemma_place_found(list: Seq<u128>, id: u128, from: int)
    requires
        0 <= from,
        exists|k: int| from <= k < list.len() && list[k] == id,
    ensures
        match state_focus::place_from(list, id, from) {
            Some(at) => from <= at < list.len() && list[at] == id && forall|k: int|
                from <= k < at ==> list[k] != id,
            None => false,
        },
    decreases list.len() - from,
{
    if list[from] != id {
        lemma_place_found(list, id, from + 1);
    }
}

fn number_in(list: &mut Vec<u128>, id: u128) -> (number: u64)
    ensures
        final(list)@ == noted(old(list)@, id),
        number == state_focus::place_from(noted(old(list)@, id), id, 0)->0 + 1,
{
    let ghost before = list@;
    note(list, id);
    proof {
        if !before.contains(id) {
            assert(list@[list@.len() - 1] == id);
        } else {
            let k = choose|k: int| 0 <= k < before.len() && before[k] == id;
            assert(list@[k] == id);
        }
        lemma_place_found(list@, id, 0);
    }
    let count: usize = list.len();
    match place_of(list, id) {
        Some(at) => {
            assert(at < count);
            (at as u64) + 1
        },
        None => 0,
    }
}

fn name_string(kind: HandleKind, number: u64) -> (name: String)
    ensures
        name@ == name_text(kind, number as nat),
{
    joined3(kind.as_str(), ":", decimal_text(number).as_str())
}

fn find_name(kind: HandleKind, list: &Vec<u128>, raw: &str) -> (found: Option<(HandleKind, u128)>)
    ensures
        found == named_from(kind, list@, raw@, 0),
{
    let mut at: usize = 0;
    while at < list.len()
        invariant
            at <= list@.len(),
            named_from(kind, list@, raw@, 0) == named_from(kind, list@, raw@, at as int),
        decreases list@.len() - at,
    {
        let name = name_string(kind, (at as u64) + 1);
        if same_text(name.as_str(), raw) {
            return Some((kind, list[at]));
        }
        at = at + 1;
    }
    None
}

impl HandleRegistry {
    /// A registry without names.
    pub fn empty() -> (registry: HandleRegistry)
        ensures
            registry@ == RegistryView::empty(),
    {
        HandleRegistry {
            windows: Vec::new(),
            workspaces: Vec::new(),
            panes: Vec::new(),
            surfaces: Vec::new(),
        }
    }

    fn number(&mut self, kind: HandleKind, id: u128) -> (number: u64)
        ensures
            final(self)@ == old(self)@.ensured(kind, id),
            number == old(self)@.number(kind, id),
    {
        match kind {
            HandleKind::Window => number_in(&mut self.windows, id),
            HandleKind::Workspace => number_in(&mut self.workspaces, id),
            HandleKind::Pane => number_in(&mut self.panes, id),
            HandleKind::Surface => number_in(&mut self.surfaces, id),
        }
    }

    /// Gives this object a name, if it has none, and tells the name.
    pub fn ensure_ref(&mut self, kind: HandleKind, id: u128) -> (name: String)
        ensures
            final(self)@ == old(self)@.ensured(kind, id),
            name@ == old(self)@.name(kind, id),
    {
        let number = self.number(kind, id);
        name_string(kind, number)
    }

    /// Gives this surface a name, if it has none, and tells its number.
    pub fn ensure_surface_number(&mut self, id: u128) -> (number: u64)
        ensures
            final(self)@ == old(self)@.ensured(HandleKind::Surface, id),
            number == old(self)@.number(HandleKind::Surface, id),
    {
        self.number(HandleKind::Surface, id)
    }

    fn find(&self, raw: &str) -> (found: Option<(HandleKind, u128)>)
        ensures
            found == self@.named(raw@),
    {
        match find_name(HandleKind::Window, &self.windows, raw) {
            Some(found) => Some(found),
            None => match find_name(HandleKind::Workspace, &self.workspaces, raw) {
                Some(found) => Some(found),
                None => match find_name(HandleKind::Pane, &self.panes, raw) {
                    Some(found) => Some(found),
                    None => find_name(HandleKind::Surface, &self.surfaces, raw),
                },
            },
        }
    }

    /// The object with this name.
    pub fn resolve_ref(&self, raw: &str) -> (found: Option<(HandleKind, u128)>)
        ensures
            found == self@.resolved(raw@),
    {
        match self.find(raw) {
            Some(found) => Some(found),
            None => {
                let tidy = to_lower(trim(raw).as_str());
                match strip_prefix(tidy.as_str(), "tab:") {
                    Some(rest) => {
                        let alias = text::joined("surface:", rest.as_str());
                        self.find(alias.as_str())
                    },
                    None => None,
                }
            },
        }
    }

    /// Gives each object of a state a name.
    pub fn refresh(&mut self, state: &AppState)
        ensures
            final(self)@ == old(self)@.refreshed(state@),
    {
        let ghost before = self@;
        let mut at: usize = 0;
        while at < state.windows.len()
            invariant
                at <= state.windows@.len(),
                self@ == (RegistryView {
                    windows: noted_windows(before.windows, state@.windows, at as int),
                    ..before
                }),
            decreases state.windows@.len() - at,
        {
            note(&mut self.windows, state.windows[at].id);
            at = at + 1;
        }
        let mut index: usize = 0;
        while index < state.workspaces.len()
            invariant
                index <= state.workspaces@.len(),
                self@ == (RegistryView {
                    windows: noted_windows(
                        before.windows,
                        state@.windows,
                        state@.windows.len() as int,
                    ),
                    workspaces: noted_workspaces(
                        before.workspaces,
                        state@.workspaces,
                        index as int,
                    ),
                    panes: noted_all_panes(before.panes, state@.workspaces, index as int),
                    surfaces: noted_all_surfaces(before.surfaces, state@.workspaces, index as int),
                }),
            decreases state.workspaces@.len() - index,
        {
            note(&mut self.workspaces, state.workspaces[index].id);
            let ghost panes = state@.workspaces[index as int].panes;
            let ghost entry = self@;
            let mut place: usize = 0;
            while place < state.workspaces[index as usize].panes.len()
                invariant
                    index < state.workspaces@.len(),
                    panes == state@.workspaces[index as int].panes,
                    place <= panes.len(),
                    self@ == (RegistryView {
                        panes: noted_panes(entry.panes, panes, place as int),
                        surfaces: noted_pane_surfaces(entry.surfaces, panes, place as int),
                        ..entry
                    }),
                decreases panes.len() - place,
            {
                let pane = &state.workspaces[index].panes[place];
                proof {
                    assert(pane@ == panes[place as int]);
                }
                note(&mut self.panes, pane.id);
                let ghost inner = self@;
                let mut tab: usize = 0;
                while tab < pane.surfaces.len()
                    invariant
                        tab <= pane.surfaces@.len(),
                        self@ == (RegistryView {
                            surfaces: noted_surfaces(inner.surfaces, pane@.surfaces, tab as int),
                            ..inner
                        }),
                    decreases pane.surfaces@.len() - tab,
                {
                    note(&mut self.surfaces, pane.surfaces[tab].id);
                    tab = tab + 1;
                }
                place = place + 1;
            }
            index = index + 1;
        }
    }
}

} // verus!
