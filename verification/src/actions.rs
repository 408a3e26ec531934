//! What can be done from the keyboard and the buttons of a window.

use crate::ids::{Drawn, WindowId, WorkspaceId, NIL};
use crate::layout::{FocusDirection, SplitOrientation};
use crate::methods;
use crate::state::{AppState, StateView, WindowState};
use crate::text::same_text;
use crate::workspace::WorkspaceView;
use vstd::prelude::*;

verus! {

/// Something that can be done with the state.
#[derive(Debug, Clone, Copy, PartialEq, Eq, Structural)]
pub enum AppAction {
    /// Make a window.
    WindowNew,
    /// Close the current window.
    WindowClose,
    /// Make a workspace.
    WorkspaceNew,
    /// Close the current workspace.
    WorkspaceClose,
    /// Show the next workspace.
    WorkspaceNext,
    /// Show the previous workspace.
    WorkspacePrevious,
    /// Show the workspace that was shown before.
    WorkspaceLast,
    /// Make a pane on the right.
    SplitRight,
    /// Make a pane below.
    SplitDown,
    /// Make a surface.
    SurfaceNew,
    /// Close the current surface.
    SurfaceClose,
    /// Select the next surface.
    SurfaceNext,
    /// Select the previous surface.
    SurfacePrevious,
    /// Focus the pane that had the focus before.
    PaneLast,
    /// Focus the pane on the left.
    PaneFocusLeft,
    /// Focus the pane on the right.
    PaneFocusRight,
    /// Focus the pane above.
    PaneFocusUp,
    /// Focus the pane below.
    PaneFocusDown,
}

impl AppAction {
    /// The name of the action.
    pub open spec fn word(self) -> Seq<char> {
        match self {
            AppAction::WindowNew => "window-new"@,
            AppAction::WindowClose => "window-close"@,
            AppAction::WorkspaceNew => "workspace-new"@,
            AppAction::WorkspaceClose => "workspace-close"@,
            AppAction::WorkspaceNext => "workspace-next"@,
            AppAction::WorkspacePrevious => "workspace-previous"@,
            AppAction::WorkspaceLast => "workspace-last"@,
            AppAction::SplitRight => "split-right"@,
            AppAction::SplitDown => "split-down"@,
            AppAction::SurfaceNew => "surface-new"@,
            AppAction::SurfaceClose => "surface-close"@,
            AppAction::SurfaceNext => "surface-next"@,
            AppAction::SurfacePrevious => "surface-previous"@,
            AppAction::PaneLast => "pane-last"@,
            AppAction::PaneFocusLeft => "pane-focus-left"@,
            AppAction::PaneFocusRight => "pane-focus-right"@,
            AppAction::PaneFocusUp => "pane-focus-up"@,
            AppAction::PaneFocusDown => "pane-focus-down"@,
        }
    }

    /// The name of the action.
    pub fn name(self) -> (name: &'static str)
        ensures
            name@ == self.word(),
    {
        match self {
            AppAction::WindowNew => "window-new",
            AppAction::WindowClose => "window-close",
            AppAction::WorkspaceNew => "workspace-new",
            AppAction::WorkspaceClose => "workspace-close",
            AppAction::WorkspaceNext => "workspace-next",
            AppAction::WorkspacePrevious => "workspace-previous",
            AppAction::WorkspaceLast => "workspace-last",
            AppAction::SplitRight => "split-right",
            AppAction::SplitDown => "split-down",
            AppAction::SurfaceNew => "surface-new",
            AppAction::SurfaceClose => "surface-close",
            AppAction::SurfaceNext => "surface-next",
            AppAction::SurfacePrevious => "surface-previous",
            AppAction::PaneLast => "pane-last",
            AppAction::PaneFocusLeft => "pane-focus-left",
            AppAction::PaneFocusRight => "pane-focus-right",
            AppAction::PaneFocusUp => "pane-focus-up",
            AppAction::PaneFocusDown => "pane-focus-down",
        }
    }

    /// Whether the action may number a new workspace.
    pub open spec fn numbers_workspaces(self) -> bool {
        match self {
            AppAction::WindowNew
            | AppAction::WindowClose
            | AppAction::WorkspaceNew
            | AppAction::WorkspaceClose => true,
            _ => false,
        }
    }

    /// Whether the action may number a new terminal, and no workspace.
    pub open spec fn numbers_terminals(self) -> bool {
        match self {
            AppAction::SplitRight | AppAction::SplitDown | AppAction::SurfaceNew => true,
            _ => false,
        }
    }

    /// The keys that run the action, as GTK writes them.
    pub open spec fn shortcuts(self) -> Seq<Seq<char>> {
        match self {
            AppAction::WindowNew => seq!["<Primary><Alt>n"@],
            AppAction::WindowClose => seq!["<Primary><Alt>w"@],
            AppAction::WorkspaceNew => seq!["<Primary>n"@, "<Primary><Shift>n"@],
            AppAction::WorkspaceClose => seq!["<Primary><Shift>w"@, "<Primary><Shift>q"@],
            AppAction::WorkspaceNext => seq!["<Primary>bracketright"@, "<Primary><Alt>Page_Down"@],
            AppAction::WorkspacePrevious => seq!["<Primary>bracketleft"@, "<Primary><Alt>Page_Up"@],
            AppAction::WorkspaceLast => seq!["<Primary>grave"@, "<Primary><Shift>grave"@],
            AppAction::SplitRight => seq!["<Primary>d"@],
            AppAction::SplitDown => seq!["<Primary><Shift>d"@, "<Primary><Shift>e"@],
            AppAction::SurfaceNew => seq!["<Primary>t"@, "<Primary><Shift>t"@],
            AppAction::SurfaceClose => seq!["<Primary>w"@],
            AppAction::SurfaceNext => seq![
                "<Primary><Shift>bracketright"@,
                "<Primary>Tab"@,
                "<Primary>Page_Down"@,
            ],
            AppAction::SurfacePrevious => seq![
                "<Primary><Shift>bracketleft"@,
                "<Primary><Shift>ISO_Left_Tab"@,
                "<Primary>Page_Up"@,
            ],
            AppAction::PaneLast => seq!["<Primary><Alt>grave"@],
            AppAction::PaneFocusLeft => seq!["<Primary><Alt>Left"@, "<Primary><Shift>Left"@],
            AppAction::PaneFocusRight => seq!["<Primary><Alt>Right"@, "<Primary><Shift>Right"@],
            AppAction::PaneFocusUp => seq!["<Primary><Alt>Up"@, "<Primary><Shift>Up"@],
            AppAction::PaneFocusDown => seq!["<Primary><Alt>Down"@, "<Primary><Shift>Down"@],
        }
    }

    /// The keys that run the action, as GTK writes them.
    pub fn accelerators(self) -> (keys: Vec<&'static str>)
        ensures
            methods::names(keys@) == self.shortcuts(),
    {
        let mut keys: Vec<&'static str> = Vec::new();
        proof {
            assert(methods::names(keys@) =~= Seq::<Seq<char>>::empty());
        }
        match self {
            AppAction::WindowNew => {
                add_key(&mut keys, "<Primary><Alt>n");
            },
            AppAction::WindowClose => {
                add_key(&mut keys, "<Primary><Alt>w");
            },
            AppAction::WorkspaceNew => {
                add_key(&mut keys, "<Primary>n");
                add_key(&mut keys, "<Primary><Shift>n");
            },
            AppAction::WorkspaceClose => {
                add_key(&mut keys, "<Primary><Shift>w");
                add_key(&mut keys, "<Primary><Shift>q");
            },
            AppAction::WorkspaceNext => {
                add_key(&mut keys, "<Primary>bracketright");
                add_key(&mut keys, "<Primary><Alt>Page_Down");
            },
            AppAction::WorkspacePrevious => {
                add_key(&mut keys, "<Primary>bracketleft");
                add_key(&mut keys, "<Primary><Alt>Page_Up");
            },
            AppAction::WorkspaceLast => {
                add_key(&mut keys, "<Primary>grave");
                add_key(&mut keys, "<Primary><Shift>grave");
            },
            AppAction::SplitRight => {
                add_key(&mut keys, "<Primary>d");
            },
            AppAction::SplitDown => {
                add_key(&mut keys, "<Primary><Shift>d");
                add_key(&mut keys, "<Primary><Shift>e");
            },
            AppAction::SurfaceNew => {
                add_key(&mut keys, "<Primary>t");
                add_key(&mut keys, "<Primary><Shift>t");
            },
            AppAction::SurfaceClose => {
                add_key(&mut keys, "<Primary>w");
            },
            AppAction::SurfaceNext => {
                add_key(&mut keys, "<Primary><Shift>bracketright");
                add_key(&mut keys, "<Primary>Tab");
                add_key(&mut keys, "<Primary>Page_Down");
            },
            AppAction::SurfacePrevious => {
                add_key(&mut keys, "<Primary><Shift>bracketleft");
                add_key(&mut keys, "<Primary><Shift>ISO_Left_Tab");
                add_key(&mut keys, "<Primary>Page_Up");
            },
            AppAction::PaneLast => {
                add_key(&mut keys, "<Primary><Alt>grave");
            },
            AppAction::PaneFocusLeft => {
                add_key(&mut keys, "<Primary><Alt>Left");
                add_key(&mut keys, "<Primary><Shift>Left");
            },
            AppAction::PaneFocusRight => {
                add_key(&mut keys, "<Primary><Alt>Right");
                add_key(&mut keys, "<Primary><Shift>Right");
            },
            AppAction::PaneFocusUp => {
                add_key(&mut keys, "<Primary><Alt>Up");
                add_key(&mut keys, "<Primary><Shift>Up");
            },
            AppAction::PaneFocusDown => {
                add_key(&mut keys, "<Primary><Alt>Down");
                add_key(&mut keys, "<Primary><Shift>Down");
            },
        }
        keys
    }
}

fn add_key(keys: &mut Vec<&'static str>, key: &'static str)
    ensures
        methods::names(final(keys)@) == methods::names(old(keys)@).push(key@),
{
    let ghost before = methods::names(keys@);
    keys.push(key);
    proof {
        assert(methods::names(keys@) =~= before.push(key@));
    }
}

impl StateView {
    /// Whether what an action may make can be numbered.
    pub open spec fn can_number(self, action: AppAction) -> bool {
        &&& action.numbers_workspaces() ==> self.has_room()
        &&& action.numbers_terminals() ==> self.next_surface_title_number < usize::MAX
    }

    /// The state after an action.
    pub open spec fn acted(self, drawn: Drawn, action: AppAction) -> StateView {
        match action {
            AppAction::WindowNew => self.create_window(drawn, true),
            AppAction::WindowClose => self.close_window(drawn, self.window_id).0,
            AppAction::WorkspaceNew => self.create_workspace(drawn, self.window_id, true, None),
            AppAction::WorkspaceClose => self.close_workspace(
                drawn,
                self.selected_workspace_id,
            ).0,
            AppAction::WorkspaceNext => self.select_relative_workspace(1).0,
            AppAction::WorkspacePrevious => self.select_relative_workspace(-1).0,
            AppAction::WorkspaceLast => self.select_to(self.last_workspace()).0,
            AppAction::SplitRight => self.split_workspace_pane(
                drawn,
                self.selected_workspace_id,
                None,
                SplitOrientation::Horizontal,
                false,
                true,
            ).0,
            AppAction::SplitDown => self.split_workspace_pane(
                drawn,
                self.selected_workspace_id,
                None,
                SplitOrientation::Vertical,
                false,
                true,
            ).0,
            AppAction::SurfaceNew => self.create_selected_surface(drawn).0,
            AppAction::SurfaceClose => self.close_selected_surface().0,
            AppAction::SurfaceNext => self.focus_relative_surface(1).0,
            AppAction::SurfacePrevious => self.focus_relative_surface(-1).0,
            AppAction::PaneLast => self.focus_last_pane().0,
            AppAction::PaneFocusLeft => self.focus_adjacent_pane(FocusDirection::Left).0,
            AppAction::PaneFocusRight => self.focus_adjacent_pane(FocusDirection::Right).0,
            AppAction::PaneFocusUp => self.focus_adjacent_pane(FocusDirection::Up).0,
            AppAction::PaneFocusDown => self.focus_adjacent_pane(FocusDirection::Down).0,
        }
    }

    /// The state in which the workspace at a place of a window is shown, if there is one.
    pub open spec fn selected_at(self, window_id: WindowId, index: int) -> StateView {
        let list = self.workspace_ids_in(window_id);
        if index < list.len() {
            self.select_workspace(list[index]).0
        } else {
            self
        }
    }
}

impl AppState {
    /// Does something, with these identifiers for what it makes.
    pub fn run_action_with_ids(&mut self, drawn: Drawn, action: AppAction)
        requires
            old(self)@.can_number(action),
        ensures
            final(self)@ == old(self)@.acted(drawn, action),
    {
        match action {
            AppAction::WindowNew => {
                let _ = self.create_window_with_ids(drawn, true);
            },
            AppAction::WindowClose => {
                let window_id = self.window_id;
                let _ = self.close_window_with_ids(drawn, window_id);
            },
            AppAction::WorkspaceNew => {
                let window_id = self.window_id;
                let _ = self.create_workspace_with_ids(drawn, window_id, true, None);
            },
            AppAction::WorkspaceClose => {
                let workspace_id = self.selected_workspace_id;
                let _ = self.close_workspace_with_ids(drawn, workspace_id);
            },
            AppAction::WorkspaceNext => {
                let _ = self.select_next_workspace();
            },
            AppAction::WorkspacePrevious => {
                let _ = self.select_previous_workspace();
            },
            AppAction::WorkspaceLast => {
                let _ = self.select_last_workspace();
            },
            AppAction::SplitRight => {
                let workspace_id = self.selected_workspace_id;
                let _ = self.split_workspace_pane(
                    drawn,
                    workspace_id,
                    None,
                    SplitOrientation::Horizontal,
                    false,
                    true,
                );
            },
            AppAction::SplitDown => {
                let workspace_id = self.selected_workspace_id;
                let _ = self.split_workspace_pane(
                    drawn,
                    workspace_id,
                    None,
                    SplitOrientation::Vertical,
                    false,
                    true,
                );
            },
            AppAction::SurfaceNew => {
                let _ = self.create_selected_surface_with_ids(drawn);
            },
            AppAction::SurfaceClose => {
                let _ = self.close_selected_surface();
            },
            AppAction::SurfaceNext => {
                let _ = self.focus_relative_surface(1);
            },
            AppAction::SurfacePrevious => {
                let _ = self.focus_relative_surface(-1);
            },
            AppAction::PaneLast => {
                let _ = self.focus_last_pane();
            },
            AppAction::PaneFocusLeft => {
                let _ = self.focus_adjacent_pane(FocusDirection::Left);
            },
            AppAction::PaneFocusRight => {
                let _ = self.focus_adjacent_pane(FocusDirection::Right);
            },
            AppAction::PaneFocusUp => {
                let _ = self.focus_adjacent_pane(FocusDirection::Up);
            },
            AppAction::PaneFocusDown => {
                let _ = self.focus_adjacent_pane(FocusDirection::Down);
            },
        }
    }

    /// Does something.
    pub fn run_action(&mut self, action: AppAction)
        requires
            old(self)@.can_number(action),
        ensures
            exists|drawn: Drawn|
                drawn.usable() && final(self)@ == #[trigger] old(self)@.acted(drawn, action),
    {
        let drawn = Drawn::draw();
        self.run_action_with_ids(drawn, action);
    }

    /// Whether what an action may make can be numbered.
    pub fn can_number(&self, action: AppAction) -> (room: bool)
        ensures
            room == self@.can_number(action),
    {
        match action {
            AppAction::WindowNew
            | AppAction::WindowClose
            | AppAction::WorkspaceNew
            | AppAction::WorkspaceClose => self.has_room(),
            AppAction::SplitRight | AppAction::SplitDown | AppAction::SurfaceNew =>
                self.next_surface_title_number < usize::MAX,
            _ => true,
        }
    }

    /// Shows the workspace at a place of a window, if there is one.
    pub fn select_workspace_at(&mut self, window_id: WindowId, index: usize)
        ensures
            final(self)@ == old(self)@.selected_at(window_id, index as int),
    {
        let list = self.workspace_ids_in(window_id);
        if index < list.len() {
            let _ = self.select_workspace(list[index]);
        }
    }
}

// ---------------------------------------------------------------------------
// Keys
// ---------------------------------------------------------------------------

/// What is to be done when keys are pressed in a window.
#[derive(Debug, Clone, Copy, PartialEq, Eq, Structural)]
pub enum KeyStep {
    /// Nothing: the keys are for what has the focus.
    Proceed,
    /// Show the workspace at this place of the window.
    SelectWorkspace(usize),
    /// Do something.
    Run(AppAction),
}

/// A key by its name, or by another one.
pub open spec fn is_key(key: Seq<char>, first: Seq<char>, second: Seq<char>) -> bool {
    key == first || key == second
}

fn names_key(key: &str, first: &str, second: &str) -> (result: bool)
    ensures
        result == is_key(key@, first@, second@),
{
    same_text(key, first) || same_text(key, second)
}

/// The place of the workspace that a digit selects.
pub open spec fn digit_place(key: Seq<char>) -> Option<usize> {
    if key == "1"@ {
        Some(0)
    } else if key == "2"@ {
        Some(1)
    } else if key == "3"@ {
        Some(2)
    } else if key == "4"@ {
        Some(3)
    } else if key == "5"@ {
        Some(4)
    } else if key == "6"@ {
        Some(5)
    } else if key == "7"@ {
        Some(6)
    } else if key == "8"@ {
        Some(7)
    } else if key == "9"@ {
        Some(8)
    } else {
        None
    }
}

/// What a key does together with the control key.
pub open spec fn control_action(key: Seq<char>) -> Option<AppAction> {
    if is_key(key, "n"@, "N"@) {
        Some(AppAction::WorkspaceNew)
    } else if key == "bracketright"@ {
        Some(AppAction::WorkspaceNext)
    } else if key == "bracketleft"@ {
        Some(AppAction::WorkspacePrevious)
    } else if key == "grave"@ {
        Some(AppAction::WorkspaceLast)
    } else if is_key(key, "d"@, "D"@) {
        Some(AppAction::SplitRight)
    } else if is_key(key, "t"@, "T"@) {
        Some(AppAction::SurfaceNew)
    } else if is_key(key, "w"@, "W"@) {
        Some(AppAction::SurfaceClose)
    } else if is_key(key, "Tab"@, "Page_Down"@) {
        Some(AppAction::SurfaceNext)
    } else if key == "Page_Up"@ {
        Some(AppAction::SurfacePrevious)
    } else {
        None
    }
}

/// What a key does together with the control key and the shift key.
pub open spec fn control_shift_action(key: Seq<char>) -> Option<AppAction> {
    if is_key(key, "W"@, "w"@) || is_key(key, "Q"@, "q"@) {
        Some(AppAction::WorkspaceClose)
    } else if is_key(key, "D"@, "d"@) || is_key(key, "E"@, "e"@) {
        Some(AppAction::SplitDown)
    } else if is_key(key, "bracketright"@, "braceright"@) {
        Some(AppAction::SurfaceNext)
    } else if is_key(key, "bracketleft"@, "braceleft"@) || is_key(key, "ISO_Left_Tab"@, "Tab"@) {
        Some(AppAction::SurfacePrevious)
    } else if is_key(key, "T"@, "t"@) {
        Some(AppAction::SurfaceNew)
    } else if is_key(key, "N"@, "n"@) {
        Some(AppAction::WorkspaceNew)
    } else if key == "Left"@ {
        Some(AppAction::PaneFocusLeft)
    } else if key == "Right"@ {
        Some(AppAction::PaneFocusRight)
    } else if key == "Up"@ {
        Some(AppAction::PaneFocusUp)
    } else if key == "Down"@ {
        Some(AppAction::PaneFocusDown)
    } else if is_key(key, "grave"@, "asciitilde"@) {
        Some(AppAction::WorkspaceLast)
    } else {
        None
    }
}

/// What a key does together with the control key and the alt key.
pub open spec fn control_alt_action(key: Seq<char>) -> Option<AppAction> {
    if is_key(key, "n"@, "N"@) {
        Some(AppAction::WindowNew)
    } else if is_key(key, "w"@, "W"@) {
        Some(AppAction::WindowClose)
    } else if key == "Left"@ {
        Some(AppAction::PaneFocusLeft)
    } else if key == "Right"@ {
        Some(AppAction::PaneFocusRight)
    } else if key == "Up"@ {
        Some(AppAction::PaneFocusUp)
    } else if key == "Down"@ {
        Some(AppAction::PaneFocusDown)
    } else if key == "Page_Down"@ {
        Some(AppAction::WorkspaceNext)
    } else if key == "Page_Up"@ {
        Some(AppAction::WorkspacePrevious)
    } else if key == "grave"@ {
        Some(AppAction::PaneLast)
    } else {
        None
    }
}

/// What an action makes of keys.
pub open spec fn run_or_proceed(action: Option<AppAction>) -> KeyStep {
    match action {
        Some(inner) => KeyStep::Run(inner),
        None => KeyStep::Proceed,
    }
}

/// What is to be done when a key is pressed in a window with these keys held down.
pub open spec fn key_plan(key: Seq<char>, control: bool, shift: bool, alt: bool) -> KeyStep {
    if alt && !control && !shift {
        match digit_place(key) {
            Some(place) => KeyStep::SelectWorkspace(place),
            None => KeyStep::Proceed,
        }
    } else if control && shift && !alt {
        run_or_proceed(control_shift_action(key))
    } else if control && !shift && !alt {
        run_or_proceed(control_action(key))
    } else if control && alt && !shift {
        run_or_proceed(control_alt_action(key))
    } else {
        KeyStep::Proceed
    }
}

fn read_digit_place(key: &str) -> (place: Option<usize>)
    ensures
        place == digit_place(key@),
{
    if same_text(key, "1") {
        Some(0)
    } else if same_text(key, "2") {
        Some(1)
    } else if same_text(key, "3") {
        Some(2)
    } else if same_text(key, "4") {
        Some(3)
    } else if same_text(key, "5") {
        Some(4)
    } else if same_text(key, "6") {
        Some(5)
    } else if same_text(key, "7") {
        Some(6)
    } else if same_text(key, "8") {
        Some(7)
    } else if same_text(key, "9") {
        Some(8)
    } else {
        None
    }
}

fn read_control_action(key: &str) -> (action: Option<AppAction>)
    ensures
        action == control_action(key@),
{
    if names_key(key, "n", "N") {
        Some(AppAction::WorkspaceNew)
    } else if same_text(key, "bracketright") {
        Some(AppAction::WorkspaceNext)
    } else if same_text(key, "bracketleft") {
        Some(AppAction::WorkspacePrevious)
    } else if same_text(key, "grave") {
        Some(AppAction::WorkspaceLast)
    } else if names_key(key, "d", "D") {
        Some(AppAction::SplitRight)
    } else if names_key(key, "t", "T") {
        Some(AppAction::SurfaceNew)
    } else if names_key(key, "w", "W") {
        Some(AppAction::SurfaceClose)
    } else if names_key(key, "Tab", "Page_Down") {
        Some(AppAction::SurfaceNext)
    } else if same_text(key, "Page_Up") {
        Some(AppAction::SurfacePrevious)
    } else {
        None
    }
}

fn read_control_shift_action(key: &str) -> (action: Option<AppAction>)
    ensures
        action == control_shift_action(key@),
{
    if names_key(key, "W", "w") || names_key(key, "Q", "q") {
        Some(AppAction::WorkspaceClose)
    } else if names_key(key, "D", "d") || names_key(key, "E", "e") {
        Some(AppAction::SplitDown)
    } else if names_key(key, "bracketright", "braceright") {
        Some(AppAction::SurfaceNext)
    } else if names_key(key, "bracketleft", "braceleft") || names_key(key, "ISO_Left_Tab", "Tab") {
        Some(AppAction::SurfacePrevious)
    } else if names_key(key, "T", "t") {
        Some(AppAction::SurfaceNew)
    } else if names_key(key, "N", "n") {
        Some(AppAction::WorkspaceNew)
    } else if same_text(key, "Left") {
        Some(AppAction::PaneFocusLeft)
    } else if same_text(key, "Right") {
        Some(AppAction::PaneFocusRight)
    } else if same_text(key, "Up") {
        Some(AppAction::PaneFocusUp)
    } else if same_text(key, "Down") {
        Some(AppAction::PaneFocusDown)
    } else if names_key(key, "grave", "asciitilde") {
        Some(AppAction::WorkspaceLast)
    } else {
        None
    }
}

fn read_control_alt_action(key: &str) -> (action: Option<AppAction>)
    ensures
        action == control_alt_action(key@),
{
    if names_key(key, "n", "N") {
        Some(AppAction::WindowNew)
    } else if names_key(key, "w", "W") {
        Some(AppAction::WindowClose)
    } else if same_text(key, "Left") {
        Some(AppAction::PaneFocusLeft)
    } else if same_text(key, "Right") {
        Some(AppAction::PaneFocusRight)
    } else if same_text(key, "Up") {
        Some(AppAction::PaneFocusUp)
    } else if same_text(key, "Down") {
        Some(AppAction::PaneFocusDown)
    } else if same_text(key, "Page_Down") {
        Some(AppAction::WorkspaceNext)
    } else if same_text(key, "Page_Up") {
        Some(AppAction::WorkspacePrevious)
    } else if same_text(key, "grave") {
        Some(AppAction::PaneLast)
    } else {
        None
    }
}

/// What is to be done when a key is pressed in a window with these keys held down.
pub fn key_step(key: &str, control: bool, shift: bool, alt: bool) -> (step: KeyStep)
    ensures
        step == key_plan(key@, control, shift, alt),
{
    let action: Option<AppAction> = if alt && !control && !shift {
        return match read_digit_place(key) {
            Some(place) => KeyStep::SelectWorkspace(place),
            None => KeyStep::Proceed,
        };
    } else if control && shift && !alt {
        read_control_shift_action(key)
    } else if control && !shift && !alt {
        read_control_action(key)
    } else if control && alt && !shift {
        read_control_alt_action(key)
    } else {
        None
    };
    match action {
        Some(inner) => KeyStep::Run(inner),
        None => KeyStep::Proceed,
    }
}

/// What is to be done when keys are pressed in a terminal.
#[derive(Debug, Clone, Copy, PartialEq, Eq, Structural)]
pub enum TerminalKeyStep {
    /// Nothing: the keys are for the process.
    Proceed,
    /// Copy what is selected.
    Copy,
    /// Paste what was copied.
    Paste,
}

/// What is to be done when a key is pressed in a terminal with these keys held down.
pub open spec fn terminal_key_plan(key: Seq<char>, control: bool, shift: bool) -> TerminalKeyStep {
    if control && shift && key == "C"@ {
        TerminalKeyStep::Copy
    } else if control && shift && key == "V"@ {
        TerminalKeyStep::Paste
    } else {
        TerminalKeyStep::Proceed
    }
}

/// What is to be done when a key is pressed in a terminal with these keys held down.
pub fn terminal_key_step(key: &str, control: bool, shift: bool) -> (step: TerminalKeyStep)
    ensures
        step == terminal_key_plan(key@, control, shift),
{
    if control && shift && same_text(key, "C") {
        TerminalKeyStep::Copy
    } else if control && shift && same_text(key, "V") {
        TerminalKeyStep::Paste
    } else {
        TerminalKeyStep::Proceed
    }
}

// ---------------------------------------------------------------------------
// One window
// ---------------------------------------------------------------------------

/// The workspaces, all in one window.
pub open spec fn gathered(list: Seq<WorkspaceView>, window_id: WindowId) -> Seq<WorkspaceView> {
    Seq::new(list.len(), |at: int| WorkspaceView { window_id, ..list[at] })
}

impl StateView {
    /// The workspace that is shown once there is one window: the current one, or the first one.
    pub open spec fn kept_selection(self) -> WorkspaceId {
        if self.workspace_at(self.selected_workspace_id) is Some {
            self.selected_workspace_id
        } else if self.workspaces.len() > 0 {
            self.workspaces[0].id
        } else {
            NIL
        }
    }

    /// The state with its first window only, which has all workspaces.
    pub open spec fn collapsed(self) -> StateView {
        if self.windows.len() <= 1 {
            self
        } else {
            let first = self.windows[0];
            StateView {
                windows: seq![
                    WindowState { selected_workspace_id: self.kept_selection(), ..first },
                ],
                window_id: first.id,
                workspaces: gathered(self.workspaces, first.id),
                selected_workspace_id: self.kept_selection(),
                ..self
            }
        }
    }
}

impl AppState {
    fn gather_workspaces(&mut self, window_id: WindowId)
        ensures
            final(self)@ == (StateView {
                workspaces: gathered(old(self)@.workspaces, window_id),
                ..old(self)@
            }),
    {
        let ghost before = self@;
        let count = self.workspaces.len();
        let mut at: usize = 0;
        while at < count
            invariant
                at <= count,
                count == before.workspaces.len(),
                self@.workspaces.len() == count,
                self@ == (StateView { workspaces: self@.workspaces, ..before }),
                forall|k: int|
                    0 <= k < at ==> self@.workspaces[k] == (WorkspaceView {
                        window_id,
                        ..before.workspaces[k]
                    }),
                forall|k: int| at <= k < count ==> self@.workspaces[k] == before.workspaces[k],
            decreases count - at,
        {
            let workspace = self.workspace_slot(at);
            workspace.window_id = window_id;
            at = at + 1;
        }
        proof {
            assert(self@.workspaces =~= gathered(before.workspaces, window_id));
        }
    }

    /// Keeps the first window only, and gives it all workspaces.
    pub fn collapse_to_single_window(&mut self)
        ensures
            final(self)@ == old(self)@.collapsed(),
    {
        if self.windows.len() <= 1 {
            return;
        }
        let ghost before = self@;
        let mut first = self.windows[0];
        let selected: WorkspaceId = if self.workspace_index(self.selected_workspace_id).is_some() {
            self.selected_workspace_id
        } else if self.workspaces.len() > 0 {
            self.workspaces[0].id
        } else {
            NIL
        };
        let window_id = first.id;
        self.gather_workspaces(window_id);
        first.selected_workspace_id = selected;
        let mut windows: Vec<WindowState> = Vec::new();
        windows.push(first);
        self.windows = windows;
        self.window_id = window_id;
        self.selected_workspace_id = selected;
        proof {
            assert(self@.windows =~= before.collapsed().windows);
        }
    }
}

} // verus!
