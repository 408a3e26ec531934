//! The command palette of a window, and the text typed into it.

use crate::ids::{SurfaceId, WindowId, WorkspaceId};
use crate::text;
use crate::text::{byte_count, chars_of, cut, text_of};
use vstd::prelude::*;

verus! {

/// What the palette offers.
#[derive(Debug, Clone, Copy, PartialEq, Eq, Structural)]
pub enum CommandPaletteMode {
    /// Commands.
    Commands,
    /// Workspaces and surfaces to go to.
    Switcher,
    /// A line for a new title.
    RenameInput,
}

impl CommandPaletteMode {
    /// The name of the mode.
    pub open spec fn word(self) -> Seq<char> {
        match self {
            CommandPaletteMode::Commands => "commands"@,
            CommandPaletteMode::Switcher => "switcher"@,
            CommandPaletteMode::RenameInput => "rename_input"@,
        }
    }

    /// The name of the mode.
    pub fn as_str(self) -> (word: &'static str)
        ensures
            word@ == self.word(),
    {
        match self {
            CommandPaletteMode::Commands => "commands",
            CommandPaletteMode::Switcher => "switcher",
            CommandPaletteMode::RenameInput => "rename_input",
        }
    }
}

/// What gets the new title.
#[derive(Debug, Clone, Copy, PartialEq, Eq, Structural)]
pub enum RenameTarget {
    /// A workspace.
    Workspace(WorkspaceId),
    /// A surface.
    Surface(SurfaceId),
}

/// The palette of a window.
#[derive(Debug)]
pub struct CommandPaletteState {
    /// Whether it is on screen.
    pub visible: bool,
    /// What it offers.
    pub mode: CommandPaletteMode,
    /// What is looked for.
    pub query: String,
    /// The row that is selected.
    pub selected_index: usize,
    /// The text in its line.
    pub text: String,
    /// The byte at which the selected part of the text begins.
    pub selection_location: usize,
    /// The length of the selected part of the text in bytes.
    pub selection_length: usize,
    /// What gets the new title.
    pub rename_target: Option<RenameTarget>,
}

/// The contents of a [`CommandPaletteState`].
#[verifier::ext_equal]
pub struct PaletteView {
    /// See [`CommandPaletteState::visible`].
    pub visible: bool,
    /// See [`CommandPaletteState::mode`].
    pub mode: CommandPaletteMode,
    /// See [`CommandPaletteState::query`].
    pub query: Seq<char>,
    /// See [`CommandPaletteState::selected_index`].
    pub selected_index: usize,
    /// See [`CommandPaletteState::text`].
    pub text: Seq<char>,
    /// See [`CommandPaletteState::selection_location`].
    pub selection_location: usize,
    /// See [`CommandPaletteState::selection_length`].
    pub selection_length: usize,
    /// See [`CommandPaletteState::rename_target`].
    pub rename_target: Option<RenameTarget>,
}

impl View for CommandPaletteState {
    type V = PaletteView;

    open spec fn view(&self) -> PaletteView {
        PaletteView {
            visible: self.visible,
            mode: self.mode,
            query: self.query@,
            selected_index: self.selected_index,
            text: self.text@,
            selection_location: self.selection_location,
            selection_length: self.selection_length,
            rename_target: self.rename_target,
        }
    }
}

impl PaletteView {
    /// A palette that was never opened.
    pub open spec fn initial() -> PaletteView {
        PaletteView {
            visible: false,
            mode: CommandPaletteMode::Commands,
            query: ">"@,
            selected_index: 0,
            text: ">"@,
            selection_location: 1,
            selection_length: 0,
            rename_target: None,
        }
    }

    /// The byte at which the selected part begins.
    pub open spec fn selection_start(self) -> int {
        let end = text::byte_len(self.text) as int;
        if self.selection_location < end {
            self.selection_location as int
        } else {
            end
        }
    }

    /// The byte at which the selected part ends.
    pub open spec fn selection_end(self) -> int {
        let end = text::byte_len(self.text) as int;
        if self.selection_start() + self.selection_length < end {
            self.selection_start() + self.selection_length
        } else {
            end
        }
    }

    /// Whether the selected part, if any, begins and ends between characters.
    pub open spec fn well_formed(self) -> bool {
        self.selection_length > 0 ==> {
            &&& self.selection_start() + self.selection_length <= usize::MAX
            &&& text::is_boundary(self.text, self.selection_start())
            &&& text::is_boundary(self.text, self.selection_end())
        }
    }

    /// The palette with this text, which is also looked for; the place for typing is at its end.
    pub open spec fn retyped(self, content: Seq<char>) -> PaletteView {
        PaletteView {
            text: content,
            query: content,
            selection_location: text::byte_len(content) as usize,
            selection_length: 0,
            selected_index: 0,
            ..self
        }
    }

    /// The text with the selected part replaced.
    pub open spec fn spliced(self, replacement: Seq<char>) -> Seq<char> {
        text::before_byte(self.text, self.selection_start()) + replacement + text::from_byte(
            self.text,
            self.selection_end(),
        )
    }

    /// Types a text: it takes the place of the selected part, or goes to the end.
    pub open spec fn typed(self, replacement: Seq<char>) -> PaletteView {
        self.retyped(
            if self.selection_length > 0 {
                self.spliced(replacement)
            } else {
                self.text + replacement
            },
        )
    }

    /// Deletes the selected part, or the last character.
    pub open spec fn erased(self) -> PaletteView {
        self.retyped(
            if self.selection_length > 0 {
                self.spliced(Seq::empty())
            } else if self.text.len() > 0 {
                self.text.drop_last()
            } else {
                self.text
            },
        )
    }

    /// Selects the whole text.
    pub open spec fn all_selected(self) -> PaletteView {
        PaletteView {
            selection_location: 0,
            selection_length: text::byte_len(self.text) as usize,
            ..self
        }
    }

    /// Closes the palette.
    pub open spec fn closed(self) -> PaletteView {
        PaletteView { visible: false, rename_target: None, ..self }
    }

    /// Opens the palette in a mode.
    pub open spec fn opened(self, mode: CommandPaletteMode) -> PaletteView {
        let shown = PaletteView {
            visible: true,
            mode,
            selected_index: 0,
            rename_target: None,
            ..self
        };
        match mode {
            CommandPaletteMode::Commands => PaletteView {
                query: ">"@,
                text: ">"@,
                selection_location: text::byte_len(">"@) as usize,
                selection_length: 0,
                ..shown
            },
            CommandPaletteMode::Switcher => PaletteView {
                query: Seq::empty(),
                text: Seq::empty(),
                selection_location: 0,
                selection_length: 0,
                ..shown
            },
            CommandPaletteMode::RenameInput => shown,
        }
    }

    /// Opens the palette with a line for a new title.
    pub open spec fn renaming(
        self,
        target: RenameTarget,
        content: Seq<char>,
        select_all: bool,
    ) -> PaletteView {
        let all = select_all && content.len() > 0;
        PaletteView {
            visible: true,
            mode: CommandPaletteMode::RenameInput,
            selected_index: 0,
            query: content,
            text: content,
            rename_target: Some(target),
            selection_location: if all {
                0
            } else {
                text::byte_len(content) as usize
            },
            selection_length: if all {
                text::byte_len(content) as usize
            } else {
                0
            },
        }
    }
}

impl Default for CommandPaletteState {
    fn default() -> (palette: Self)
        ensures
            palette@ == PaletteView::initial(),
    {
        CommandPaletteState {
            visible: false,
            mode: CommandPaletteMode::Commands,
            query: ">".to_owned(),
            selected_index: 0,
            text: ">".to_owned(),
            selection_location: 1,
            selection_length: 0,
            rename_target: None,
        }
    }
}

impl Clone for CommandPaletteState {
    fn clone(&self) -> (copy: Self)
        ensures
            copy@ == self@,
    {
        CommandPaletteState {
            visible: self.visible,
            mode: self.mode,
            query: self.query.clone(),
            selected_index: self.selected_index,
            text: self.text.clone(),
            selection_location: self.selection_location,
            selection_length: self.selection_length,
            rename_target: self.rename_target,
        }
    }
}

impl CommandPaletteState {
    fn retype(&mut self, content: String)
        ensures
            final(self)@ == old(self)@.retyped(content@),
            final(self)@.well_formed(),
    {
        self.selection_location = byte_count(content.as_str());
        self.selection_length = 0;
        self.query = content.clone();
        self.text = content;
        self.selected_index = 0;
    }

    fn splice(&self, replacement: &str) -> (content: String)
        requires
            self@.well_formed(),
            self@.selection_length > 0,
        ensures
            content@ == self@.spliced(replacement@),
    {
        let end = byte_count(self.text.as_str());
        let start: usize = if self.selection_location < end {
            self.selection_location
        } else {
            end
        };
        let stop: usize = if start + self.selection_length < end {
            start + self.selection_length
        } else {
            end
        };
        let (before, _) = cut(self.text.as_str(), start);
        let (_, after) = cut(self.text.as_str(), stop);
        let mut content = before;
        content.append(replacement);
        content.append(after.as_str());
        content
    }

    /// Types a text: it takes the place of the selected part, or goes to the end.
    pub fn type_text(&mut self, replacement: &str)
        requires
            old(self)@.well_formed(),
        ensures
            final(self)@ == old(self)@.typed(replacement@),
            final(self)@.well_formed(),
    {
        let content = if self.selection_length > 0 {
            self.splice(replacement)
        } else {
            text::joined(self.text.as_str(), replacement)
        };
        self.retype(content);
    }

    /// Deletes the selected part, or the last character.
    pub fn delete_backward(&mut self)
        requires
            old(self)@.well_formed(),
        ensures
            final(self)@ == old(self)@.erased(),
            final(self)@.well_formed(),
    {
        let content = if self.selection_length > 0 {
            let content = self.splice("");
            proof {
                reveal_strlit("");
                assert(""@ =~= Seq::<char>::empty());
            }
            content
        } else {
            let chars = chars_of(self.text.as_str());
            if chars.len() > 0 {
                let shorter = text_of(&chars, 0, chars.len() - 1);
                proof {
                    assert(shorter@ =~= self.text@.drop_last());
                }
                shorter
            } else {
                self.text.clone()
            }
        };
        self.retype(content);
    }

    /// Selects the whole text.
    pub fn select_all(&mut self)
        ensures
            final(self)@ == old(self)@.all_selected(),
            final(self)@.well_formed(),
    {
        self.selection_location = 0;
        self.selection_length = byte_count(self.text.as_str());
        proof {
            text::lemma_text_ends(self.text@);
        }
    }

    /// Closes the palette.
    pub fn close(&mut self)
        ensures
            final(self)@ == old(self)@.closed(),
            old(self)@.well_formed() ==> final(self)@.well_formed(),
    {
        self.visible = false;
        self.rename_target = None;
    }

    /// Opens the palette in a mode.
    pub fn open(&mut self, mode: CommandPaletteMode)
        ensures
            final(self)@ == old(self)@.opened(mode),
            old(self)@.well_formed() ==> final(self)@.well_formed(),
    {
        self.visible = true;
        self.mode = mode;
        self.selected_index = 0;
        self.rename_target = None;
        match mode {
            CommandPaletteMode::Commands => {
                self.query = ">".to_owned();
                self.text = ">".to_owned();
                self.selection_location = byte_count(self.text.as_str());
                self.selection_length = 0;
            },
            CommandPaletteMode::Switcher => {
                self.query = String::new();
                self.text = String::new();
                self.selection_location = 0;
                self.selection_length = 0;
            },
            CommandPaletteMode::RenameInput => {},
        }
    }

    /// Opens the palette with a line for a new title.
    pub fn open_rename(&mut self, target: RenameTarget, content: String, select_all: bool)
        ensures
            final(self)@ == old(self)@.renaming(target, content@, select_all),
            final(self)@.well_formed(),
    {
        let length = byte_count(content.as_str());
        let all = select_all && !content.as_str().is_empty();
        proof {
            text::lemma_text_ends(content@);
        }
        self.visible = true;
        self.mode = CommandPaletteMode::RenameInput;
        self.selected_index = 0;
        self.query = content.clone();
        self.text = content;
        self.rename_target = Some(target);
        self.selection_location = if all {
            0
        } else {
            length
        };
        self.selection_length = if all {
            length
        } else {
            0
        };
    }
}

/// The palette of one window.
#[derive(Debug)]
pub struct PaletteEntry {
    /// The window.
    pub window_id: WindowId,
    /// Its palette.
    pub state: CommandPaletteState,
}

/// The windows and the contents of their palettes.
pub open spec fn palette_views(list: Seq<PaletteEntry>) -> Seq<(WindowId, PaletteView)> {
    list.map_values(|entry: PaletteEntry| (entry.window_id, entry.state@))
}

/// The place of the first palette of this window, looking from `at` on.
pub open spec fn palette_from(
    list: Seq<(WindowId, PaletteView)>,
    window_id: WindowId,
    at: int,
) -> Option<int>
    decreases list.len() - at,
{
    if at >= list.len() {
        None
    } else if list[at].0 == window_id {
        Some(at)
    } else {
        palette_from(list, window_id, at + 1)
    }
}

/// The list with this palette for a window.
pub open spec fn with_palette(
    list: Seq<(WindowId, PaletteView)>,
    window_id: WindowId,
    palette: PaletteView,
) -> Seq<(WindowId, PaletteView)> {
    match palette_from(list, window_id, 0) {
        Some(at) => list.update(at, (window_id, palette)),
        None => list.push((window_id, palette)),
    }
}

/// The place of the first palette of this window.
pub fn palette_index(list: &Vec<PaletteEntry>, window_id: WindowId) -> (place: Option<usize>)
    ensures
        match place {
            Some(at) => at < list@.len() && palette_from(palette_views(list@), window_id, 0)
                == Some(at as int) && list@[at as int].window_id == window_id,
            None => palette_from(palette_views(list@), window_id, 0) is None,
        },
{
    let mut at: usize = 0;
    while at < list.len()
        invariant
            at <= list@.len(),
            palette_from(palette_views(list@), window_id, 0) == palette_from(
                palette_views(list@),
                window_id,
                at as int,
            ),
        decreases list@.len() - at,
    {
        if list[at].window_id == window_id {
            return Some(at);
        }
        at = at + 1;
    }
    None
}

/// Whether the sidebar of a window is on screen.
#[derive(Debug, Clone, Copy, PartialEq, Eq, Structural)]
pub struct SidebarEntry {
    /// The window.
    pub window_id: WindowId,
    /// Whether its sidebar is on screen.
    pub visible: bool,
}

/// The place of the first entry for this window, looking from `at` on.
pub open spec fn sidebar_from(list: Seq<SidebarEntry>, window_id: WindowId, at: int) -> Option<int>
    decreases list.len() - at,
{
    if at >= list.len() {
        None
    } else if list[at].window_id == window_id {
        Some(at)
    } else {
        sidebar_from(list, window_id, at + 1)
    }
}

/// Whether the sidebar of a window is on screen: it is, unless the list says otherwise.
pub open spec fn sidebar_shown(list: Seq<SidebarEntry>, window_id: WindowId) -> bool {
    match sidebar_from(list, window_id, 0) {
        Some(at) => list[at].visible,
        None => true,
    }
}

/// The list in which the sidebar of a window is on screen or not.
pub open spec fn with_sidebar(list: Seq<SidebarEntry>, window_id: WindowId, visible: bool) -> Seq<
    SidebarEntry,
> {
    match sidebar_from(list, window_id, 0) {
        Some(at) => list.update(at, SidebarEntry { window_id, visible }),
        None => list.push(SidebarEntry { window_id, visible }),
    }
}

/// The place of the first entry for this window.
pub fn sidebar_index(list: &Vec<SidebarEntry>, window_id: WindowId) -> (place: Option<usize>)
    ensures
        match place {
            Some(at) => at < list@.len() && sidebar_from(list@, window_id, 0) == Some(at as int),
            None => sidebar_from(list@, window_id, 0) is None,
        },
{
    let mut at: usize = 0;
    while at < list.len()
        invariant
            at <= list@.len(),
            sidebar_from(list@, window_id, 0) == sidebar_from(list@, window_id, at as int),
        decreases list@.len() - at,
    {
        if list[at].window_id == window_id {
            return Some(at);
        }
        at = at + 1;
    }
    None
}

} // verus!
