//! The application's state together with what the control protocol keeps beside it.

use crate::ids;
use crate::ids::{parse_id, Drawn, PaneId, SurfaceId, WindowId, WorkspaceId};
use crate::palette;
use crate::palette::{
    palette_index, sidebar_index, CommandPaletteMode, CommandPaletteState, PaletteEntry,
    PaletteView, RenameTarget, SidebarEntry,
};
use crate::registry::{HandleKind, HandleRegistry, RegistryView};
use crate::shortcuts;
use crate::shortcuts::{set_override, ShortcutOverride};
use crate::state::{AppState, StateView};
use crate::terminal::{BridgeView, TerminalBridge};
use crate::text;
use crate::text::{decimal_text, joined, trim};
use vstd::prelude::*;

verus! {

/// Whether the application counts as having the user's attention, against what the desktop says.
#[derive(Debug, Clone, Copy, PartialEq, Eq, Structural)]
pub enum AppFocusOverride {
    /// It does.
    Active,
    /// It does not.
    Inactive,
}

/// The application's state together with what the control protocol keeps beside it.
#[derive(Debug)]
pub struct AppModel {
    /// The state.
    pub state: AppState,
    /// Where the control protocol is served.
    pub socket_path: String,
    /// The commands for the running terminals.
    pub terminal_bridge: TerminalBridge,
    /// Whether the application counts as having the user's attention.
    pub app_focus_override: Option<AppFocusOverride>,
    /// The palettes that were opened; no window occurs twice.
    pub command_palette_by_window: Vec<PaletteEntry>,
    /// The sidebars that were toggled; no window occurs twice.
    pub sidebar_visible_by_window: Vec<SidebarEntry>,
    /// Whether a title to be changed is selected as a whole.
    pub rename_select_all: bool,
    /// The shortcuts that the user has changed; no name occurs twice.
    pub shortcut_overrides: Vec<ShortcutOverride>,
    /// The short names.
    pub handles: HandleRegistry,
}

/// The contents of an [`AppModel`].
#[verifier::ext_equal]
pub struct ModelView {
    /// See [`AppModel::state`].
    pub state: StateView,
    /// See [`AppModel::socket_path`].
    pub socket_path: Seq<char>,
    /// See [`AppModel::terminal_bridge`].
    pub bridge: BridgeView,
    /// See [`AppModel::app_focus_override`].
    pub app_focus_override: Option<AppFocusOverride>,
    /// See [`AppModel::command_palette_by_window`].
    pub palettes: Seq<(WindowId, PaletteView)>,
    /// See [`AppModel::sidebar_visible_by_window`].
    pub sidebars: Seq<SidebarEntry>,
    /// See [`AppModel::rename_select_all`].
    pub rename_select_all: bool,
    /// See [`AppModel::shortcut_overrides`].
    pub shortcuts: Seq<(Seq<char>, Seq<char>)>,
    /// See [`AppModel::handles`].
    pub handles: RegistryView,
}

impl View for AppModel {
    type V = ModelView;

    open spec fn view(&self) -> ModelView {
        ModelView {
            state: self.state@,
            socket_path: self.socket_path@,
            bridge: self.terminal_bridge@,
            app_focus_override: self.app_focus_override,
            palettes: palette::palette_views(self.command_palette_by_window@),
            sidebars: self.sidebar_visible_by_window@,
            rename_select_all: self.rename_select_all,
            shortcuts: shortcuts::override_views(self.shortcut_overrides@),
            handles: self.handles@,
        }
    }
}

impl ModelView {
    /// The model at the start.
    pub open spec fn initial(socket_path: Seq<char>, bridge: BridgeView, state: StateView) -> ModelView {
        ModelView {
            state,
            socket_path,
            bridge,
            app_focus_override: None,
            palettes: Seq::empty(),
            sidebars: Seq::empty(),
            rename_select_all: false,
            shortcuts: Seq::empty(),
            handles: RegistryView::empty().refreshed(state),
        }
    }

    /// Whether the selected part of each palette's text begins and ends between characters.
    pub open spec fn well_formed(self) -> bool {
        forall|at: int|
            0 <= at < self.palettes.len() ==> (#[trigger] self.palettes[at]).1.well_formed()
    }

    /// The model with another state.
    pub open spec fn with_state(self, state: StateView) -> ModelView {
        ModelView { state, ..self }
    }

    /// The model with a short name for each object.
    pub open spec fn refreshed(self) -> ModelView {
        ModelView { handles: self.handles.refreshed(self.state), ..self }
    }

    /// The model with a short name for each object and for this one.
    pub open spec fn naming(self, kind: HandleKind, id: u128) -> ModelView {
        ModelView { handles: self.handles.refreshed(self.state).ensured(kind, id), ..self }
    }

    /// The short name of this object, once it has one.
    pub open spec fn name(self, kind: HandleKind, id: u128) -> Seq<char> {
        self.handles.refreshed(self.state).name(kind, id)
    }

    /// The short name of this surface as a tab, once it has one.
    pub open spec fn tab_name(self, id: SurfaceId) -> Seq<char> {
        "tab:"@ + text::decimal(
            self.handles.refreshed(self.state).number(HandleKind::Surface, id),
        )
    }

    /// Whether an object of this kind exists.
    pub open spec fn contains(self, kind: HandleKind, id: u128) -> bool {
        match kind {
            HandleKind::Window => self.state.window_at(id) is Some,
            HandleKind::Workspace => self.state.workspace_at(id) is Some,
            HandleKind::Pane => self.state.owner(id) is Some,
            HandleKind::Surface => self.state.located(id) is Some,
        }
    }

    /// The object that an identifier or a short name stands for, and the model after it was looked
    /// up: a look at the short names gives each object one.
    pub open spec fn resolve(self, kind: HandleKind, raw: Seq<char>) -> (ModelView, Option<u128>) {
        let tidy = text::trimmed(raw);
        if tidy.len() == 0 {
            (self, None)
        } else {
            match ids::parsed_id(tidy) {
                Some(id) => (
                    self,
                    if self.contains(kind, id) {
                        Some(id)
                    } else {
                        None
                    },
                ),
                None => {
                    let next = self.refreshed();
                    (
                        next,
                        match next.handles.resolved(tidy) {
                            Some((found, id)) => if found == kind {
                                Some(id)
                            } else {
                                None
                            },
                            None => None,
                        },
                    )
                },
            }
        }
    }

    /// The palette of a window.
    pub open spec fn palette(self, window_id: WindowId) -> PaletteView {
        match palette::palette_from(self.palettes, window_id, 0) {
            Some(at) => self.palettes[at].1,
            None => PaletteView::initial(),
        }
    }

    /// The model with this palette for a window.
    pub open spec fn with_palette(self, window_id: WindowId, state: PaletteView) -> ModelView {
        ModelView {
            palettes: palette::with_palette(self.palettes, window_id, state),
            ..self
        }
    }

    /// Whether the sidebar of a window is on screen.
    pub open spec fn sidebar_visible(self, window_id: WindowId) -> bool {
        palette::sidebar_shown(self.sidebars, window_id)
    }

    /// The model in which the sidebar of a window has changed between on and off screen.
    pub open spec fn toggle_sidebar(self, window_id: WindowId) -> ModelView {
        ModelView {
            sidebars: palette::with_sidebar(
                self.sidebars,
                window_id,
                !self.sidebar_visible(window_id),
            ),
            ..self
        }
    }

    /// The model in which a shortcut has these keys.
    pub open spec fn with_shortcut(self, name: Seq<char>, combo: Seq<char>) -> ModelView {
        ModelView { shortcuts: shortcuts::overridden(self.shortcuts, name, combo), ..self }
    }

    /// How a shortcut is shown.
    pub open spec fn shortcut_hint(self, name: Seq<char>) -> Seq<char> {
        shortcuts::hint_for(shortcuts::combo_for(self.shortcuts, name))
    }
}

/// A palette that fits keeps the model well formed.
pub proof fn lemma_with_palette(model: ModelView, window_id: WindowId, state: PaletteView)
    requires
        model.well_formed(),
        state.well_formed(),
    ensures
        model.with_palette(window_id, state).well_formed(),
{
    let next = model.with_palette(window_id, state);
    lemma_palette_from(model.palettes, window_id, 0);
    assert forall|at: int| 0 <= at < next.palettes.len() implies (#[trigger] next.palettes[at]).1.well_formed() by {
        if at < model.palettes.len() {
            assert(model.palettes[at].1.well_formed());
        }
    }
}

/// The palette that was found is one of the list.
pub proof fn lemma_palette_from(
    list: Seq<(WindowId, PaletteView)>,
    window_id: WindowId,
    from: int,
)
    requires
        0 <= from,
    ensures
        match palette::palette_from(list, window_id, from) {
            Some(at) => from <= at < list.len() && list[at].0 == window_id,
            None => true,
        },
    decreases list.len() - from,
{
    if from < list.len() && list[from].0 != window_id {
        lemma_palette_from(list, window_id, from + 1);
    }
}

/// The palettes of a well-formed model are well formed.
pub proof fn lemma_palette(model: ModelView, window_id: WindowId)
    requires
        model.well_formed(),
    ensures
        model.palette(window_id).well_formed(),
{
    lemma_palette_from(model.palettes, window_id, 0);
}

impl AppModel {
    /// A model with this state.
    pub fn from_state(
        socket_path: String,
        terminal_bridge: TerminalBridge,
        state: AppState,
    ) -> (model: AppModel)
        ensures
            model@ == ModelView::initial(socket_path@, terminal_bridge@, state@),
            model@.well_formed(),
    {
        let mut handles = HandleRegistry::empty();
        handles.refresh(&state);
        let model = AppModel {
            state,
            socket_path,
            terminal_bridge,
            app_focus_override: None,
            command_palette_by_window: Vec::new(),
            sidebar_visible_by_window: Vec::new(),
            rename_select_all: false,
            shortcut_overrides: Vec::new(),
            handles,
        };
        proof {
            assert(model@.palettes =~= Seq::empty());
            assert(model@.sidebars =~= Seq::empty());
            assert(model@.shortcuts =~= Seq::empty());
        }
        model
    }

    /// A model at the start, with these identifiers for its objects.
    pub fn with_ids(socket_path: String, terminal_bridge: TerminalBridge, drawn: Drawn) -> (model:
        AppModel)
        ensures
            model@ == ModelView::initial(socket_path@, terminal_bridge@, StateView::initial(drawn)),
            model@.well_formed(),
    {
        AppModel::from_state(socket_path, terminal_bridge, AppState::new_with_ids(drawn))
    }

    /// A model at the start.
    pub fn with_bridge(socket_path: String, terminal_bridge: TerminalBridge) -> (model: AppModel)
        ensures
            exists|drawn: Drawn|
                drawn.usable() && model@ == ModelView::initial(
                    socket_path@,
                    terminal_bridge@,
                    #[trigger] StateView::initial(drawn),
                ),
            model@.well_formed(),
    {
        AppModel::with_ids(socket_path, terminal_bridge, Drawn::draw())
    }

    /// A model at the start, without running terminals.
    pub fn new(socket_path: String) -> (model: AppModel)
        ensures
            exists|drawn: Drawn|
                drawn.usable() && model@ == ModelView::initial(
                    socket_path@,
                    BridgeView::fresh(false),
                    #[trigger] StateView::initial(drawn),
                ),
            model@.well_formed(),
    {
        AppModel::with_bridge(socket_path, TerminalBridge::detached())
    }

    /// Grows with every change that is worth saving or showing.
    pub fn revision(&self) -> (revision: u64)
        ensures
            revision == self@.state.revision,
    {
        self.state.revision()
    }

    /// A copy of the state.
    pub fn snapshot_state(&self) -> (state: AppState)
        ensures
            state@ == self@.state,
    {
        self.state.clone()
    }

    /// Gives each object a short name.
    pub fn refresh_handles(&mut self)
        ensures
            final(self)@ == old(self)@.refreshed(),
    {
        self.handles.refresh(&self.state);
    }

    /// Whether an object of this kind exists.
    pub fn contains_id(&self, kind: HandleKind, id: u128) -> (found: bool)
        ensures
            found == self@.contains(kind, id),
    {
        match kind {
            HandleKind::Window => self.state.window_index(id).is_some(),
            HandleKind::Workspace => self.state.workspace_index(id).is_some(),
            HandleKind::Pane => self.state.owner_index(id).is_some(),
            HandleKind::Surface => self.state.located_index(id).is_some(),
        }
    }

    /// The object that an identifier or a short name stands for.
    pub fn resolve_id(&mut self, kind: HandleKind, raw: &str) -> (found: Option<u128>)
        ensures
            final(self)@ == old(self)@.resolve(kind, raw@).0,
            found == old(self)@.resolve(kind, raw@).1,
    {
        let trimmed = trim(raw);
        if trimmed.as_str().is_empty() {
            return None;
        }
        match parse_id(trimmed.as_str()) {
            Some(id) => {
                if self.contains_id(kind, id) {
                    return Some(id);
                }
                return None;
            },
            None => {},
        }
        self.refresh_handles();
        match self.handles.resolve_ref(trimmed.as_str()) {
            Some((resolved_kind, resolved_id)) => if resolved_kind == kind {
                Some(resolved_id)
            } else {
                None
            },
            None => None,
        }
    }

    /// The window that an identifier or a short name stands for.
    pub fn resolve_window_id(&mut self, raw: &str) -> (found: Option<WindowId>)
        ensures
            final(self)@ == old(self)@.resolve(HandleKind::Window, raw@).0,
            found == old(self)@.resolve(HandleKind::Window, raw@).1,
    {
        self.resolve_id(HandleKind::Window, raw)
    }

    /// The workspace that an identifier or a short name stands for.
    pub fn resolve_workspace_id(&mut self, raw: &str) -> (found: Option<WorkspaceId>)
        ensures
            final(self)@ == old(self)@.resolve(HandleKind::Workspace, raw@).0,
            found == old(self)@.resolve(HandleKind::Workspace, raw@).1,
    {
        self.resolve_id(HandleKind::Workspace, raw)
    }

    /// The pane that an identifier or a short name stands for.
    pub fn resolve_pane_id(&mut self, raw: &str) -> (found: Option<PaneId>)
        ensures
            final(self)@ == old(self)@.resolve(HandleKind::Pane, raw@).0,
            found == old(self)@.resolve(HandleKind::Pane, raw@).1,
    {
        self.resolve_id(HandleKind::Pane, raw)
    }

    /// The surface that an identifier or a short name stands for.
    pub fn resolve_surface_id(&mut self, raw: &str) -> (found: Option<SurfaceId>)
        ensures
            final(self)@ == old(self)@.resolve(HandleKind::Surface, raw@).0,
            found == old(self)@.resolve(HandleKind::Surface, raw@).1,
    {
        self.resolve_id(HandleKind::Surface, raw)
    }

    /// The short name of an object.
    pub fn name_of(&mut self, kind: HandleKind, id: u128) -> (name: String)
        ensures
            final(self)@ == old(self)@.naming(kind, id),
            name@ == old(self)@.name(kind, id),
    {
        self.refresh_handles();
        self.handles.ensure_ref(kind, id)
    }

    /// The short name of a window.
    pub fn window_ref(&mut self, window_id: WindowId) -> (name: String)
        ensures
            final(self)@ == old(self)@.naming(HandleKind::Window, window_id),
            name@ == old(self)@.name(HandleKind::Window, window_id),
    {
        self.name_of(HandleKind::Window, window_id)
    }

    /// The short name of a workspace.
    pub fn workspace_ref(&mut self, workspace_id: WorkspaceId) -> (name: String)
        ensures
            final(self)@ == old(self)@.naming(HandleKind::Workspace, workspace_id),
            name@ == old(self)@.name(HandleKind::Workspace, workspace_id),
    {
        self.name_of(HandleKind::Workspace, workspace_id)
    }

    /// The short name of a pane.
    pub fn pane_ref(&mut self, pane_id: PaneId) -> (name: String)
        ensures
            final(self)@ == old(self)@.naming(HandleKind::Pane, pane_id),
            name@ == old(self)@.name(HandleKind::Pane, pane_id),
    {
        self.name_of(HandleKind::Pane, pane_id)
    }

    /// The short name of a surface.
    pub fn surface_ref(&mut self, surface_id: SurfaceId) -> (name: String)
        ensures
            final(self)@ == old(self)@.naming(HandleKind::Surface, surface_id),
            name@ == old(self)@.name(HandleKind::Surface, surface_id),
    {
        self.name_of(HandleKind::Surface, surface_id)
    }

    /// The short name of a surface as a tab.
    pub fn tab_ref(&mut self, surface_id: SurfaceId) -> (name: String)
        ensures
            final(self)@ == old(self)@.naming(HandleKind::Surface, surface_id),
            name@ == old(self)@.tab_name(surface_id),
    {
        self.refresh_handles();
        let number = self.handles.ensure_surface_number(surface_id);
        joined("tab:", decimal_text(number).as_str())
    }

    /// Whether the application counts as having the user's attention.
    pub fn app_focus_active(&self) -> (active: bool)
        ensures
            active == (self@.app_focus_override == Some(AppFocusOverride::Active)),
    {
        match self.app_focus_override {
            Some(AppFocusOverride::Active) => true,
            _ => false,
        }
    }

    /// A copy of the palette of a window.
    pub fn palette_state(&self, window_id: WindowId) -> (state: CommandPaletteState)
        ensures
            state@ == self@.palette(window_id),
    {
        match palette_index(&self.command_palette_by_window, window_id) {
            Some(at) => self.command_palette_by_window[at].state.clone(),
            None => CommandPaletteState::default(),
        }
    }

    /// Gives access to the palette of a window.
    pub fn palette_state_mut(&mut self, window_id: WindowId) -> (state: &mut CommandPaletteState)
        ensures
            state@ == old(self)@.palette(window_id),
            final(self)@ == old(self)@.with_palette(window_id, final(state)@),
    {
        let at = match palette_index(&self.command_palette_by_window, window_id) {
            Some(at) => at,
            None => {
                self.command_palette_by_window.push(
                    PaletteEntry { window_id, state: CommandPaletteState::default() },
                );
                self.command_palette_by_window.len() - 1
            },
        };
        &mut self.command_palette_by_window[at].state
    }

    /// Whether the sidebar of a window is on screen.
    pub fn sidebar_visible(&self, window_id: WindowId) -> (visible: bool)
        ensures
            visible == self@.sidebar_visible(window_id),
    {
        match sidebar_index(&self.sidebar_visible_by_window, window_id) {
            Some(at) => self.sidebar_visible_by_window[at].visible,
            None => true,
        }
    }

    /// Shows or hides the sidebar of a window; tells whether it is on screen now.
    pub fn toggle_sidebar(&mut self, window_id: WindowId) -> (visible: bool)
        ensures
            final(self)@ == old(self)@.toggle_sidebar(window_id),
            visible == !old(self)@.sidebar_visible(window_id),
    {
        let next = !self.sidebar_visible(window_id);
        let entry = SidebarEntry { window_id, visible: next };
        match sidebar_index(&self.sidebar_visible_by_window, window_id) {
            Some(at) => {
                self.sidebar_visible_by_window[at] = entry;
            },
            None => {
                self.sidebar_visible_by_window.push(entry);
            },
        }
        next
    }

    /// Closes the palette of a window.
    pub fn close_palette(&mut self, window_id: WindowId)
        ensures
            final(self)@ == old(self)@.with_palette(
                window_id,
                old(self)@.palette(window_id).closed(),
            ),
            old(self)@.well_formed() ==> final(self)@.well_formed(),
    {
        let ghost before = self@;
        self.palette_state_mut(window_id).close();
        proof {
            if before.well_formed() {
                lemma_palette(before, window_id);
                lemma_with_palette(before, window_id, before.palette(window_id).closed());
            }
        }
    }

    /// Opens the palette of a window in a mode.
    pub fn open_palette_mode(&mut self, window_id: WindowId, mode: CommandPaletteMode)
        ensures
            final(self)@ == old(self)@.with_palette(
                window_id,
                old(self)@.palette(window_id).opened(mode),
            ),
            old(self)@.well_formed() ==> final(self)@.well_formed(),
    {
        let ghost before = self@;
        self.palette_state_mut(window_id).open(mode);
        proof {
            if before.well_formed() {
                lemma_palette(before, window_id);
                lemma_with_palette(before, window_id, before.palette(window_id).opened(mode));
            }
        }
    }

    /// Opens the palette of a window with a line for a new title.
    pub fn open_palette_rename_input(
        &mut self,
        window_id: WindowId,
        target: RenameTarget,
        content: String,
    )
        ensures
            final(self)@ == old(self)@.with_palette(
                window_id,
                old(self)@.palette(window_id).renaming(
                    target,
                    content@,
                    old(self)@.rename_select_all,
                ),
            ),
            old(self)@.well_formed() ==> final(self)@.well_formed(),
    {
        let ghost before = self@;
        let select_all = self.rename_select_all;
        let palette = self.palette_state_mut(window_id);
        palette.open_rename(target, content, select_all);
        let ghost after = palette@;
        proof {
            if before.well_formed() {
                lemma_with_palette(before, window_id, after);
            }
        }
    }

    /// Selects the whole text in the palette of a window.
    pub fn select_all_palette_text(&mut self, window_id: WindowId)
        ensures
            final(self)@ == old(self)@.with_palette(
                window_id,
                old(self)@.palette(window_id).all_selected(),
            ),
            old(self)@.well_formed() ==> final(self)@.well_formed(),
    {
        let ghost before = self@;
        let palette = self.palette_state_mut(window_id);
        palette.select_all();
        let ghost after = palette@;
        proof {
            if before.well_formed() {
                lemma_with_palette(before, window_id, after);
            }
        }
    }

    /// Types a text into the palette of a window.
    pub fn replace_palette_text(&mut self, window_id: WindowId, replacement: &str)
        requires
            old(self)@.well_formed(),
        ensures
            final(self)@ == old(self)@.with_palette(
                window_id,
                old(self)@.palette(window_id).typed(replacement@),
            ),
            final(self)@.well_formed(),
    {
        let ghost before = self@;
        proof {
            lemma_palette(before, window_id);
        }
        let palette = self.palette_state_mut(window_id);
        palette.type_text(replacement);
        let ghost after = palette@;
        proof {
            lemma_with_palette(before, window_id, after);
        }
    }

    /// Deletes the selected part, or the last character, of the text in the palette of a window.
    pub fn delete_backward_palette_text(&mut self, window_id: WindowId)
        requires
            old(self)@.well_formed(),
        ensures
            final(self)@ == old(self)@.with_palette(
                window_id,
                old(self)@.palette(window_id).erased(),
            ),
            final(self)@.well_formed(),
    {
        let ghost before = self@;
        proof {
            lemma_palette(before, window_id);
        }
        let palette = self.palette_state_mut(window_id);
        palette.delete_backward();
        let ghost after = palette@;
        proof {
            lemma_with_palette(before, window_id, after);
        }
    }

    /// Gives a shortcut these keys, or takes its keys back.
    pub fn set_shortcut_override(&mut self, name: &str, combo: &str)
        ensures
            final(self)@ == old(self)@.with_shortcut(name@, combo@),
    {
        set_override(&mut self.shortcut_overrides, name, combo);
    }

    /// How a shortcut is shown.
    pub fn shortcut_hint(&self, name: &str) -> (hint: String)
        ensures
            hint@ == self@.shortcut_hint(name@),
    {
        shortcuts::shortcut_hint(&self.shortcut_overrides, name)
    }
}

impl Clone for AppState {
    fn clone(&self) -> (copy: Self)
        ensures
            copy@ == self@,
    {
        let kept = self.to_persistent_snapshot();
        AppState {
            windows: kept.windows,
            window_id: kept.window_id,
            workspaces: kept.workspaces,
            selected_workspace_id: kept.selected_workspace_id,
            last_selected_workspace_id: kept.last_selected_workspace_id,
            notifications: kept.notifications,
            revision: self.revision,
            next_workspace_title_number: kept.next_workspace_title_number,
            next_surface_title_number: kept.next_surface_title_number,
        }
    }
}

} // verus!
