//! The rows of the palette.

use crate::answer_surfaces;
use crate::answer_surfaces::{workspace_surface_rows, RowView, SurfaceRow};
use crate::ids;
use crate::ids::{id_string, WindowId};
use crate::model::{AppModel, ModelView};
use crate::palette::{CommandPaletteMode, CommandPaletteState, PaletteView};
use crate::palette_search;
use crate::palette_search::palette_score_terms;
use crate::params::{current_window_surface_id, current_window_workspace_id};
use crate::state::AppState;
use crate::surface::SurfaceView;
use crate::text;
use crate::text::{chars_of, copy_opt, is_space_char, joined, joined3, text_of, to_lower};
use crate::workspace::{Workspace, WorkspaceView};
use crate::workspace_ops;
use crate::workspace_ops::ring_step;
use vstd::prelude::*;

verus! {

/// A row of the palette.
#[derive(Debug)]
pub struct PaletteRow {
    /// What it does.
    pub command_id: String,
    /// What it says.
    pub title: String,
    /// What it says at its end.
    pub trailing_label: Option<String>,
    /// The keys that do the same.
    pub shortcut_hint: Option<String>,
    /// The surface it is about.
    pub surface_id: Option<String>,
    /// The workspace it is about.
    pub workspace_id: Option<String>,
    /// The texts by which it is found.
    pub search_terms: Vec<String>,
    /// Of two rows that fit as well, the one of the lower rank comes first.
    pub kind_rank: usize,
    /// Of two rows of the same rank that fit as well, the one with the lower number comes first.
    pub order: usize,
}

/// The contents of a [`PaletteRow`].
#[verifier::ext_equal]
pub struct PaletteRowView {
    /// See [`PaletteRow::command_id`].
    pub command_id: Seq<char>,
    /// See [`PaletteRow::title`].
    pub title: Seq<char>,
    /// See [`PaletteRow::trailing_label`].
    pub trailing_label: Option<Seq<char>>,
    /// See [`PaletteRow::shortcut_hint`].
    pub shortcut_hint: Option<Seq<char>>,
    /// See [`PaletteRow::surface_id`].
    pub surface_id: Option<Seq<char>>,
    /// See [`PaletteRow::workspace_id`].
    pub workspace_id: Option<Seq<char>>,
    /// See [`PaletteRow::search_terms`].
    pub search_terms: Seq<Seq<char>>,
    /// See [`PaletteRow::kind_rank`].
    pub kind_rank: usize,
    /// See [`PaletteRow::order`].
    pub order: usize,
}

impl View for PaletteRow {
    type V = PaletteRowView;

    open spec fn view(&self) -> PaletteRowView {
        PaletteRowView {
            command_id: self.command_id@,
            title: self.title@,
            trailing_label: text::opt_text(self.trailing_label),
            shortcut_hint: text::opt_text(self.shortcut_hint),
            surface_id: text::opt_text(self.surface_id),
            workspace_id: text::opt_text(self.workspace_id),
            search_terms: text::texts(self.search_terms@),
            kind_rank: self.kind_rank,
            order: self.order,
        }
    }
}

/// The contents of each row.
pub open spec fn palette_row_views(rows: Seq<PaletteRow>) -> Seq<PaletteRowView> {
    Seq::new(rows.len(), |at: int| rows[at]@)
}

fn copy_terms(terms: &Vec<String>) -> (copy: Vec<String>)
    ensures
        text::texts(copy@) == text::texts(terms@),
{
    let mut copy: Vec<String> = Vec::new();
    let mut at: usize = 0;
    while at < terms.len()
        invariant
            at <= terms@.len(),
            copy@.len() == at,
            forall|k: int| 0 <= k < at ==> (#[trigger] copy@[k])@ == terms@[k]@,
        decreases terms@.len() - at,
    {
        copy.push(terms[at].clone());
        at = at + 1;
    }
    proof {
        assert(text::texts(copy@) =~= text::texts(terms@));
    }
    copy
}

impl PaletteRow {
    /// Copies a row.
    pub fn copy(&self) -> (copy: PaletteRow)
        ensures
            copy@ == self@,
    {
        PaletteRow {
            command_id: self.command_id.clone(),
            title: self.title.clone(),
            trailing_label: copy_opt(&self.trailing_label),
            shortcut_hint: copy_opt(&self.shortcut_hint),
            surface_id: copy_opt(&self.surface_id),
            workspace_id: copy_opt(&self.workspace_id),
            search_terms: copy_terms(&self.search_terms),
            kind_rank: self.kind_rank,
            order: self.order,
        }
    }
}

// ---------------------------------------------------------------------------
// What is offered and what is looked for
// ---------------------------------------------------------------------------

/// `content` without the white space at its beginning.
pub open spec fn start_trimmed(content: Seq<char>) -> Seq<char> {
    content.skip(text::after_space(content, 0))
}

fn trim_start(content: &str) -> (result: String)
    ensures
        result@ == start_trimmed(content@),
{
    let chars = chars_of(content);
    let mut low: usize = 0;
    while low < chars.len() && is_space_char(chars[low])
        invariant
            low <= chars@.len(),
            text::after_space(chars@, 0) == text::after_space(chars@, low as int),
        decreases chars@.len() - low,
    {
        low = low + 1;
    }
    let count = chars.len();
    let result = text_of(&chars, low, count);
    proof {
        assert(result@ =~= start_trimmed(content@));
    }
    result
}

/// Whether a text begins with the mark for commands.
pub open spec fn is_marked(content: Seq<char>) -> bool {
    start_trimmed(content).len() > 0 && start_trimmed(content)[0] == '>'
}

impl PaletteView {
    /// What the palette offers: commands where its text begins with the mark for them.
    pub open spec fn effective_mode(self) -> CommandPaletteMode {
        if self.mode != CommandPaletteMode::RenameInput && is_marked(self.text) {
            CommandPaletteMode::Commands
        } else {
            self.mode
        }
    }

    /// What is looked for: the text, for commands without the mark.
    pub open spec fn query_text(self) -> Seq<char> {
        if self.effective_mode() == CommandPaletteMode::Commands {
            if is_marked(self.text) {
                start_trimmed(start_trimmed(self.text).skip(1))
            } else {
                start_trimmed(self.text)
            }
        } else {
            self.text
        }
    }
}

fn has_mark(content: &str) -> (result: bool)
    ensures
        result == is_marked(content@),
{
    let chars = chars_of(trim_start(content).as_str());
    chars.len() > 0 && chars[0] == '>'
}

/// What the palette offers.
pub fn palette_effective_mode(state: &CommandPaletteState) -> (mode: CommandPaletteMode)
    ensures
        mode == state@.effective_mode(),
{
    match state.mode {
        CommandPaletteMode::RenameInput => CommandPaletteMode::RenameInput,
        mode => if has_mark(state.text.as_str()) {
            CommandPaletteMode::Commands
        } else {
            mode
        },
    }
}

/// What is looked for in the palette.
pub fn palette_query_text(state: &CommandPaletteState) -> (query: String)
    ensures
        query@ == state@.query_text(),
{
    match palette_effective_mode(state) {
        CommandPaletteMode::Commands => {
            if has_mark(state.text.as_str()) {
                let chars = chars_of(trim_start(state.text.as_str()).as_str());
                let count = chars.len();
                let rest = text_of(&chars, 1, count);
                proof {
                    assert(rest@ =~= start_trimmed(state.text@).skip(1));
                }
                trim_start(rest.as_str())
            } else {
                trim_start(state.text.as_str())
            }
        },
        _ => state.text.clone(),
    }
}

// ---------------------------------------------------------------------------
// The rows
// ---------------------------------------------------------------------------

/// Two texts.
pub open spec fn two(first: Seq<char>, second: Seq<char>) -> Seq<Seq<char>> {
    Seq::<Seq<char>>::empty().push(first).push(second)
}

/// The text of an identifier, if there is one.
pub open spec fn opt_id_text(id: Option<u128>) -> Option<Seq<char>> {
    match id {
        Some(inner) => Some(ids::id_text(inner)),
        None => None,
    }
}

fn opt_id_string(id: Option<u128>) -> (content: Option<String>)
    ensures
        text::opt_text(content) == opt_id_text(id),
{
    match id {
        Some(inner) => Some(id_string(inner)),
        None => None,
    }
}

fn two_terms(first: &str, second: &str) -> (terms: Vec<String>)
    ensures
        text::texts(terms@) == two(first@, second@),
{
    let mut terms: Vec<String> = Vec::new();
    terms.push(first.to_owned());
    terms.push(second.to_owned());
    proof {
        assert(text::texts(terms@) =~= two(first@, second@));
    }
    terms
}

fn three_terms(first: &str, second: &str, third: &str) -> (terms: Vec<String>)
    ensures
        text::texts(terms@) == two(first@, second@).push(third@),
{
    let mut terms = two_terms(first, second);
    let ghost before = text::texts(terms@);
    terms.push(third.to_owned());
    proof {
        assert(text::texts(terms@) =~= before.push(third@));
    }
    terms
}

fn four_terms(first: &str, second: &str, third: &str, fourth: &str) -> (terms: Vec<String>)
    ensures
        text::texts(terms@) == two(first@, second@).push(third@).push(fourth@),
{
    let mut terms = three_terms(first, second, third);
    let ghost before = text::texts(terms@);
    terms.push(fourth.to_owned());
    proof {
        assert(text::texts(terms@) =~= before.push(fourth@));
    }
    terms
}

/// A shortcut as it is shown beside a command: nothing where it has no keys.
pub open spec fn shown_hint(hint: Option<Seq<char>>) -> Option<Seq<char>> {
    match hint {
        Some(inner) => if inner.len() == 0 {
            None
        } else {
            Some(inner)
        },
        None => None,
    }
}

/// The rows with one more command.
pub open spec fn with_command(
    rows: Seq<PaletteRowView>,
    model: ModelView,
    window_id: WindowId,
    command_id: Seq<char>,
    title: Seq<char>,
    shortcut: Option<Seq<char>>,
    terms: Seq<Seq<char>>,
) -> Seq<PaletteRowView> {
    rows.push(
        PaletteRowView {
            command_id,
            title,
            trailing_label: None,
            shortcut_hint: shown_hint(
                match shortcut {
                    Some(name) => Some(model.shortcut_hint(name)),
                    None => None,
                },
            ),
            surface_id: opt_id_text(model.shown_surface(window_id)),
            workspace_id: opt_id_text(model.shown_workspace(window_id)),
            search_terms: terms,
            kind_rank: 0,
            order: rows.len() as usize,
        },
    )
}

/// The first half of the commands.
pub open spec fn early_commands(model: ModelView, window_id: WindowId) -> Seq<PaletteRowView> {
    let r0 = Seq::<PaletteRowView>::empty();
    let r1 = with_command(
        r0,
        model,
        window_id,
        "palette.newWindow"@,
        "New Window"@,
        Some("new_window"@),
        two("new window"@, "window new"@).push("create window"@),
    );
    let r2 = with_command(
        r1,
        model,
        window_id,
        "palette.closeWindow"@,
        "Close Window"@,
        Some("close_window"@),
        two("close window"@, "window close"@),
    );
    let r3 = with_command(
        r2,
        model,
        window_id,
        "palette.renameTab"@,
        "Rename Tab"@,
        Some("rename_tab"@),
        two("rename tab"@, "tab rename"@).push("retab"@).push("rename terminal"@),
    );
    let r4 = with_command(
        r3,
        model,
        window_id,
        "palette.renameWorkspace"@,
        "Rename Workspace"@,
        None,
        two("rename workspace"@, "workspace rename"@).push("rename ws"@),
    );
    let r5 = with_command(
        r4,
        model,
        window_id,
        "palette.terminalOpenDirectory"@,
        "Open Directory in Terminal"@,
        None,
        two("open directory"@, "open terminal"@).push("terminal open directory"@).push("open"@),
    );
    let r6 = with_command(
        r5,
        model,
        window_id,
        "palette.newWorkspace"@,
        "New Workspace"@,
        None,
        two("new workspace"@, "workspace new"@).push("create workspace"@),
    );
    with_command(
        r6,
        model,
        window_id,
        "palette.nextWorkspace"@,
        "Next Workspace"@,
        None,
        two("next workspace"@, "workspace next"@),
    )
}

/// The commands.
pub open spec fn command_rows(model: ModelView, window_id: WindowId) -> Seq<PaletteRowView> {
    let r7 = early_commands(model, window_id);
    let r8 = with_command(
        r7,
        model,
        window_id,
        "palette.previousWorkspace"@,
        "Previous Workspace"@,
        None,
        two("previous workspace"@, "workspace previous"@),
    );
    let r9 = with_command(
        r8,
        model,
        window_id,
        "palette.splitRight"@,
        "Split Right"@,
        None,
        two("split right"@, "right split"@).push("vertical split"@),
    );
    let r10 = with_command(
        r9,
        model,
        window_id,
        "palette.splitDown"@,
        "Split Down"@,
        None,
        two("split down"@, "down split"@).push("horizontal split"@),
    );
    let r11 = with_command(
        r10,
        model,
        window_id,
        "palette.newTerminal"@,
        "New Terminal"@,
        None,
        two("new terminal"@, "terminal new"@).push("new tab"@),
    );
    let r12 = with_command(
        r11,
        model,
        window_id,
        "palette.closeTab"@,
        "Close Tab"@,
        None,
        two("close tab"@, "close terminal"@).push("tab close"@),
    );
    let r13 = with_command(
        r12,
        model,
        window_id,
        "palette.clearTerminalHistory"@,
        "Clear Terminal History"@,
        None,
        two("clear terminal history"@, "clear history"@).push("terminal history"@),
    );
    with_command(
        r13,
        model,
        window_id,
        "palette.focusLastPane"@,
        "Focus Last Pane"@,
        None,
        two("focus last pane"@, "last pane"@).push("pane last"@),
    )
}

fn add_command(
    rows: &mut Vec<PaletteRow>,
    model: &AppModel,
    window_id: WindowId,
    command_id: &str,
    title: &str,
    shortcut: Option<&str>,
    terms: Vec<String>,
)
    ensures
        palette_row_views(final(rows)@) == with_command(
            palette_row_views(old(rows)@),
            model@,
            window_id,
            command_id@,
            title@,
            match shortcut {
                Some(name) => Some(name@),
                None => None,
            },
            text::texts(terms@),
        ),
{
    let ghost before = palette_row_views(rows@);
    let hint: Option<String> = match shortcut {
        Some(name) => {
            let hint = model.shortcut_hint(name);
            if hint.as_str().is_empty() {
                None
            } else {
                Some(hint)
            }
        },
        None => None,
    };
    let row = PaletteRow {
        command_id: command_id.to_owned(),
        title: title.to_owned(),
        trailing_label: None,
        shortcut_hint: hint,
        surface_id: opt_id_string(current_window_surface_id(model, window_id)),
        workspace_id: opt_id_string(current_window_workspace_id(model, window_id)),
        search_terms: terms,
        kind_rank: 0,
        order: rows.len(),
    };
    let ghost content = row@;
    rows.push(row);
    proof {
        assert(palette_row_views(rows@) =~= before.push(content));
    }
}

fn add_early_commands(rows: &mut Vec<PaletteRow>, model: &AppModel, window_id: WindowId)
    requires
        palette_row_views(old(rows)@) == Seq::<PaletteRowView>::empty(),
    ensures
        palette_row_views(final(rows)@) == early_commands(model@, window_id),
{
    add_command(
        rows,
        model,
        window_id,
        "palette.newWindow",
        "New Window",
        Some("new_window"),
        three_terms("new window", "window new", "create window"),
    );
    add_command(
        rows,
        model,
        window_id,
        "palette.closeWindow",
        "Close Window",
        Some("close_window"),
        two_terms("close window", "window close"),
    );
    add_command(
        rows,
        model,
        window_id,
        "palette.renameTab",
        "Rename Tab",
        Some("rename_tab"),
        four_terms("rename tab", "tab rename", "retab", "rename terminal"),
    );
    add_command(
        rows,
        model,
        window_id,
        "palette.renameWorkspace",
        "Rename Workspace",
        None,
        three_terms("rename workspace", "workspace rename", "rename ws"),
    );
    add_command(
        rows,
        model,
        window_id,
        "palette.terminalOpenDirectory",
        "Open Directory in Terminal",
        None,
        four_terms("open directory", "open terminal", "terminal open directory", "open"),
    );
    add_command(
        rows,
        model,
        window_id,
        "palette.newWorkspace",
        "New Workspace",
        None,
        three_terms("new workspace", "workspace new", "create workspace"),
    );
    add_command(
        rows,
        model,
        window_id,
        "palette.nextWorkspace",
        "Next Workspace",
        None,
        two_terms("next workspace", "workspace next"),
    );
}

/// The commands.
pub fn command_palette_command_rows(model: &AppModel, window_id: WindowId) -> (rows: Vec<
    PaletteRow,
>)
    ensures
        palette_row_views(rows@) == command_rows(model@, window_id),
{
    let mut rows: Vec<PaletteRow> = Vec::new();
    proof {
        assert(palette_row_views(rows@) =~= Seq::<PaletteRowView>::empty());
    }
    add_early_commands(&mut rows, model, window_id);
    add_command(
        &mut rows,
        model,
        window_id,
        "palette.previousWorkspace",
        "Previous Workspace",
        None,
        two_terms("previous workspace", "workspace previous"),
    );
    add_command(
        &mut rows,
        model,
        window_id,
        "palette.splitRight",
        "Split Right",
        None,
        three_terms("split right", "right split", "vertical split"),
    );
    add_command(
        &mut rows,
        model,
        window_id,
        "palette.splitDown",
        "Split Down",
        None,
        three_terms("split down", "down split", "horizontal split"),
    );
    add_command(
        &mut rows,
        model,
        window_id,
        "palette.newTerminal",
        "New Terminal",
        None,
        three_terms("new terminal", "terminal new", "new tab"),
    );
    add_command(
        &mut rows,
        model,
        window_id,
        "palette.closeTab",
        "Close Tab",
        None,
        three_terms("close tab", "close terminal", "tab close"),
    );
    add_command(
        &mut rows,
        model,
        window_id,
        "palette.clearTerminalHistory",
        "Clear Terminal History",
        None,
        three_terms("clear terminal history", "clear history", "terminal history"),
    );
    add_command(
        &mut rows,
        model,
        window_id,
        "palette.focusLastPane",
        "Focus Last Pane",
        None,
        three_terms("focus last pane", "last pane", "pane last"),
    );
    rows
}

/// A text, or an empty one.
pub open spec fn text_or_empty(content: Option<Seq<char>>) -> Seq<char> {
    match content {
        Some(inner) => inner,
        None => ""@,
    }
}

fn or_empty(content: &Option<String>) -> (result: String)
    ensures
        result@ == text_or_empty(text::opt_text(*content)),
{
    match content {
        Some(inner) => inner.clone(),
        None => "".to_owned(),
    }
}

/// The row that goes to a workspace.
pub open spec fn workspace_entry(workspace: WorkspaceView, order: nat) -> PaletteRowView {
    PaletteRowView {
        command_id: "switcher.workspace."@ + text::lowered(ids::id_text(workspace.id)),
        title: workspace.title,
        trailing_label: Some("Workspace"@),
        shortcut_hint: None,
        surface_id: None,
        workspace_id: Some(ids::id_text(workspace.id)),
        search_terms: two(workspace.title, text_or_empty(workspace.current_directory)),
        kind_rank: 1,
        order: order as usize,
    }
}

/// The row that goes to a surface.
pub open spec fn surface_entry(
    workspace: WorkspaceView,
    surface: SurfaceView,
    order: nat,
) -> PaletteRowView {
    PaletteRowView {
        command_id: "switcher.surface."@ + text::lowered(ids::id_text(workspace.id)) + "."@
            + text::lowered(ids::id_text(surface.id)),
        title: surface.title,
        trailing_label: Some("Surface"@),
        shortcut_hint: None,
        surface_id: Some(ids::id_text(surface.id)),
        workspace_id: Some(ids::id_text(workspace.id)),
        search_terms: two(surface.title, workspace.title).push(
            text_or_empty(surface.current_directory),
        ).push(text_or_empty(workspace.current_directory)),
        kind_rank: 0,
        order: order as usize,
    }
}

/// The rows with those that go to the first `count` of some surfaces of a workspace.
pub open spec fn with_surfaces(
    rows: Seq<PaletteRowView>,
    workspace: WorkspaceView,
    surfaces: Seq<RowView>,
    count: int,
) -> Seq<PaletteRowView>
    decreases count,
{
    if count <= 0 {
        rows
    } else {
        let before = with_surfaces(rows, workspace, surfaces, count - 1);
        before.push(surface_entry(workspace, surfaces[count - 1].surface, before.len()))
    }
}

/// The rows that go to the first `count` workspaces and to their surfaces.
pub open spec fn switcher_rows(workspaces: Seq<WorkspaceView>, count: int) -> Seq<PaletteRowView>
    decreases count,
{
    if count <= 0 {
        Seq::empty()
    } else {
        let before = switcher_rows(workspaces, count - 1);
        let workspace = workspaces[count - 1];
        let surfaces = answer_surfaces::workspace_rows(workspace);
        with_surfaces(
            before.push(workspace_entry(workspace, before.len())),
            workspace,
            surfaces,
            surfaces.len() as int,
        )
    }
}

fn add_workspace_entry(rows: &mut Vec<PaletteRow>, workspace: &Workspace)
    ensures
        palette_row_views(final(rows)@) == palette_row_views(old(rows)@).push(
            workspace_entry(workspace@, palette_row_views(old(rows)@).len()),
        ),
{
    let ghost before = palette_row_views(rows@);
    let name = id_string(workspace.id);
    let row = PaletteRow {
        command_id: joined("switcher.workspace.", to_lower(name.as_str()).as_str()),
        title: workspace.title.clone(),
        trailing_label: Some("Workspace".to_owned()),
        shortcut_hint: None,
        surface_id: None,
        workspace_id: Some(name),
        search_terms: two_terms(
            workspace.title.as_str(),
            or_empty(&workspace.current_directory).as_str(),
        ),
        kind_rank: 1,
        order: rows.len(),
    };
    let ghost content = row@;
    rows.push(row);
    proof {
        assert(palette_row_views(rows@) =~= before.push(content));
    }
}

fn add_surface_entry(rows: &mut Vec<PaletteRow>, workspace: &Workspace, row: &SurfaceRow<'_>)
    ensures
        palette_row_views(final(rows)@) == palette_row_views(old(rows)@).push(
            surface_entry(workspace@, row@.surface, palette_row_views(old(rows)@).len()),
        ),
{
    let ghost before = palette_row_views(rows@);
    let workspace_name = id_string(workspace.id);
    let surface_name = id_string(row.surface.id);
    let path = joined3(
        "switcher.surface.",
        to_lower(workspace_name.as_str()).as_str(),
        ".",
    );
    let entry = PaletteRow {
        command_id: joined(path.as_str(), to_lower(surface_name.as_str()).as_str()),
        title: row.surface.title.clone(),
        trailing_label: Some("Surface".to_owned()),
        shortcut_hint: None,
        surface_id: Some(surface_name),
        workspace_id: Some(workspace_name),
        search_terms: four_terms(
            row.surface.title.as_str(),
            workspace.title.as_str(),
            or_empty(&row.surface.current_directory).as_str(),
            or_empty(&workspace.current_directory).as_str(),
        ),
        kind_rank: 0,
        order: rows.len(),
    };
    let ghost content = entry@;
    rows.push(entry);
    proof {
        assert(palette_row_views(rows@) =~= before.push(content));
    }
}

fn add_surface_entries(rows: &mut Vec<PaletteRow>, workspace: &Workspace)
    ensures
        palette_row_views(final(rows)@) == with_surfaces(
            palette_row_views(old(rows)@),
            workspace@,
            answer_surfaces::workspace_rows(workspace@),
            answer_surfaces::workspace_rows(workspace@).len() as int,
        ),
{
    let ghost before = palette_row_views(rows@);
    let surfaces = workspace_surface_rows(workspace);
    let ghost views = answer_surfaces::row_views(surfaces@);
    let mut at: usize = 0;
    while at < surfaces.len()
        invariant
            at <= surfaces@.len(),
            views == answer_surfaces::row_views(surfaces@),
            palette_row_views(rows@) == with_surfaces(before, workspace@, views, at as int),
        decreases surfaces@.len() - at,
    {
        proof {
            assert(views[at as int] == surfaces@[at as int]@);
        }
        add_surface_entry(rows, workspace, &surfaces[at]);
        at = at + 1;
    }
    proof {
        assert(views.len() == surfaces@.len());
    }
}

/// The rows that go to the workspaces and to their surfaces.
pub fn command_palette_switcher_rows(state: &AppState) -> (rows: Vec<PaletteRow>)
    ensures
        palette_row_views(rows@) == switcher_rows(
            state@.workspaces,
            state@.workspaces.len() as int,
        ),
{
    let mut rows: Vec<PaletteRow> = Vec::new();
    proof {
        assert(palette_row_views(rows@) =~= Seq::<PaletteRowView>::empty());
    }
    let mut at: usize = 0;
    while at < state.workspaces.len()
        invariant
            at <= state.workspaces@.len(),
            palette_row_views(rows@) == switcher_rows(state@.workspaces, at as int),
        decreases state.workspaces@.len() - at,
    {
        let workspace = &state.workspaces[at];
        proof {
            assert(state@.workspaces[at as int] == workspace@);
        }
        add_workspace_entry(&mut rows, workspace);
        add_surface_entries(&mut rows, workspace);
        at = at + 1;
    }
    rows
}

// ---------------------------------------------------------------------------
// The order of the rows
// ---------------------------------------------------------------------------

/// A row and how well it fits.
#[verifier::ext_equal]
pub struct Ranked {
    /// How well it fits.
    pub score: int,
    /// The row.
    pub row: PaletteRowView,
}

impl Ranked {
    /// Whether this row comes before another one: it fits better, or as well with a lower rank, or
    /// as well with the same rank and a lower number.
    pub open spec fn comes_first(self, other: Ranked) -> bool {
        ||| self.score > other.score
        ||| self.score == other.score && self.row.kind_rank < other.row.kind_rank
        ||| self.score == other.score && self.row.kind_rank == other.row.kind_rank && self.row.order
            < other.row.order
    }
}

/// The first place from `at` on before which a row belongs.
pub open spec fn place_among(list: Seq<Ranked>, item: Ranked, at: int) -> int
    decreases list.len() - at,
{
    if at >= list.len() || item.comes_first(list[at]) {
        at
    } else {
        place_among(list, item, at + 1)
    }
}

/// Those of the first `count` rows that fit, each in its place.
pub open spec fn ranked(query: Seq<char>, rows: Seq<PaletteRowView>, count: int) -> Seq<Ranked>
    decreases count,
{
    if count <= 0 {
        Seq::empty()
    } else {
        let before = ranked(query, rows, count - 1);
        let row = rows[count - 1];
        match palette_search::terms_score(query, row.search_terms) {
            None => before,
            Some(score) => {
                let item = Ranked { score, row };
                before.insert(place_among(before, item, 0), item)
            },
        }
    }
}

/// The rows that fit, the best ones first.
pub open spec fn fitting(query: Seq<char>, rows: Seq<PaletteRowView>) -> Seq<PaletteRowView> {
    let list = ranked(query, rows, rows.len() as int);
    Seq::new(list.len(), |at: int| list[at].row)
}

impl ModelView {
    /// The rows that a palette could show.
    pub open spec fn offered_rows(self, window_id: WindowId, palette: PaletteView) -> Seq<
        PaletteRowView,
    > {
        match palette.effective_mode() {
            CommandPaletteMode::Commands => command_rows(self, window_id),
            CommandPaletteMode::Switcher => switcher_rows(
                self.state.workspaces,
                self.state.workspaces.len() as int,
            ),
            CommandPaletteMode::RenameInput => Seq::empty(),
        }
    }

    /// The rows that a palette shows: those that fit what is looked for, the best ones first.
    pub open spec fn palette_rows(self, window_id: WindowId, palette: PaletteView) -> Seq<
        PaletteRowView,
    > {
        fitting(palette.query_text(), self.offered_rows(window_id, palette))
    }

    /// The place of the selected row: the last one where there are not as many.
    pub open spec fn selected_place(self, window_id: WindowId) -> int {
        let palette = self.palette(window_id);
        capped(palette.selected_index, self.palette_rows(window_id, palette).len())
    }

    /// The selected row.
    pub open spec fn selected_row(self, window_id: WindowId) -> Option<PaletteRowView> {
        let rows = self.palette_rows(window_id, self.palette(window_id));
        if rows.len() == 0 {
            None
        } else {
            Some(rows[self.selected_place(window_id)])
        }
    }

    /// The model in which the row `delta` places further is selected.
    pub open spec fn reselected(self, window_id: WindowId, delta: int) -> ModelView {
        let palette = self.palette(window_id);
        let count = self.palette_rows(window_id, palette).len();
        let next = if count == 0 {
            0
        } else {
            workspace_ops::ring(self.selected_place(window_id), delta, count as int)
        };
        self.with_palette(window_id, PaletteView { selected_index: next as usize, ..palette })
    }
}

/// A place in a list, or its last place.
pub open spec fn capped(index: usize, count: nat) -> int {
    if index < count {
        index as int
    } else if count > 0 {
        count - 1
    } else {
        0
    }
}

fn cap(index: usize, count: usize) -> (place: usize)
    ensures
        place == capped(index, count as nat),
{
    if index < count {
        index
    } else if count > 0 {
        count - 1
    } else {
        0
    }
}

pub proof fn lemma_place_among(list: Seq<Ranked>, item: Ranked, at: int)
    requires
        0 <= at <= list.len(),
    ensures
        at <= place_among(list, item, at) <= list.len(),
        forall|k: int|
            at <= k < place_among(list, item, at) ==> !item.comes_first(#[trigger] list[k]),
        place_among(list, item, at) < list.len() ==> item.comes_first(
            list[place_among(list, item, at)],
        ),
    decreases list.len() - at,
{
    if at < list.len() && !item.comes_first(list[at]) {
        lemma_place_among(list, item, at + 1);
    }
}

/// The pairs of scores and rows.
pub open spec fn ranked_views(scores: Seq<i128>, rows: Seq<PaletteRow>) -> Seq<Ranked> {
    Seq::new(rows.len(), |at: int| Ranked { score: scores[at] as int, row: rows[at]@ })
}

fn is_first(score: i128, row: &PaletteRow, other_score: i128, other: &PaletteRow) -> (result: bool)
    ensures
        result == (Ranked { score: score as int, row: row@ }).comes_first(
            Ranked { score: other_score as int, row: other@ },
        ),
{
    if score != other_score {
        score > other_score
    } else if row.kind_rank != other.kind_rank {
        row.kind_rank < other.kind_rank
    } else {
        row.order < other.order
    }
}

fn put_row(scores: &mut Vec<i128>, rows: &mut Vec<PaletteRow>, score: i128, row: PaletteRow)
    requires
        old(scores)@.len() == old(rows)@.len(),
    ensures
        final(scores)@.len() == final(rows)@.len(),
        ({
            let item = Ranked { score: score as int, row: row@ };
            let before = ranked_views(old(scores)@, old(rows)@);
            ranked_views(final(scores)@, final(rows)@) == before.insert(
                place_among(before, item, 0),
                item,
            )
        }),
{
    let ghost item = Ranked { score: score as int, row: row@ };
    let ghost before = ranked_views(scores@, rows@);
    let mut at: usize = 0;
    while at < rows.len() && !is_first(score, &row, scores[at], &rows[at])
        invariant
            at <= rows@.len(),
            scores@.len() == rows@.len(),
            before == ranked_views(scores@, rows@),
            item == (Ranked { score: score as int, row: row@ }),
            place_among(before, item, 0) == place_among(before, item, at as int),
        decreases rows@.len() - at,
    {
        at = at + 1;
    }
    proof {
        assert(place_among(before, item, at as int) == at);
    }
    scores.insert(at, score);
    rows.insert(at, row);
    proof {
        assert(ranked_views(scores@, rows@) =~= before.insert(at as int, item));
    }
}

fn fitting_rows(query: &str, rows: &Vec<PaletteRow>) -> (kept: Vec<PaletteRow>)
    ensures
        palette_row_views(kept@) == fitting(query@, palette_row_views(rows@)),
{
    let mut scores: Vec<i128> = Vec::new();
    let mut kept: Vec<PaletteRow> = Vec::new();
    let ghost all = palette_row_views(rows@);
    proof {
        assert(ranked_views(scores@, kept@) =~= Seq::<Ranked>::empty());
    }
    let mut at: usize = 0;
    while at < rows.len()
        invariant
            at <= rows@.len(),
            all == palette_row_views(rows@),
            scores@.len() == kept@.len(),
            ranked_views(scores@, kept@) == ranked(query@, all, at as int),
        decreases rows@.len() - at,
    {
        proof {
            assert(all[at as int] == rows@[at as int]@);
        }
        match palette_score_terms(query, &rows[at].search_terms) {
            None => {},
            Some(score) => {
                put_row(&mut scores, &mut kept, score, rows[at].copy());
            },
        }
        at = at + 1;
    }
    proof {
        let list = ranked(query@, all, all.len() as int);
        assert(palette_row_views(kept@) =~= Seq::new(list.len(), |k: int| list[k].row)) by {
            assert(ranked_views(scores@, kept@) == list);
            assert forall|k: int| 0 <= k < kept@.len() implies palette_row_views(kept@)[k]
                == list[k].row by {
                assert(ranked_views(scores@, kept@)[k].row == kept@[k]@);
            }
        }
    }
    kept
}

/// The rows that a palette shows.
pub fn command_palette_rows(model: &AppModel, window_id: WindowId, state: &CommandPaletteState) -> (rows:
    Vec<PaletteRow>)
    ensures
        palette_row_views(rows@) == model@.palette_rows(window_id, state@),
{
    let query = palette_query_text(state);
    let offered: Vec<PaletteRow> = match palette_effective_mode(state) {
        CommandPaletteMode::Commands => command_palette_command_rows(model, window_id),
        CommandPaletteMode::Switcher => command_palette_switcher_rows(&model.state),
        CommandPaletteMode::RenameInput => {
            let none: Vec<PaletteRow> = Vec::new();
            proof {
                assert(palette_row_views(none@) =~= Seq::<PaletteRowView>::empty());
            }
            none
        },
    };
    fitting_rows(query.as_str(), &offered)
}

/// The place of the selected row.
pub fn palette_selected_place(model: &AppModel, window_id: WindowId) -> (place: usize)
    ensures
        place == model@.selected_place(window_id),
{
    let palette = model.palette_state(window_id);
    let rows = command_palette_rows(model, window_id, &palette);
    let count = rows.len();
    proof {
        assert(palette_row_views(rows@).len() == count);
    }
    cap(palette.selected_index, count)
}

/// Selects another row.
pub fn palette_move_selection(model: &mut AppModel, window_id: WindowId, delta: isize)
    ensures
        final(model)@ == old(model)@.reselected(window_id, delta as int),
        old(model)@.well_formed() ==> final(model)@.well_formed(),
{
    let ghost before = model@;
    let palette = model.palette_state(window_id);
    let count = command_palette_rows(model, window_id, &palette).len();
    let next: usize = if count == 0 {
        0
    } else {
        ring_step(cap(palette.selected_index, count), delta, count)
    };
    let state = model.palette_state_mut(window_id);
    state.selected_index = next;
    proof {
        if before.well_formed() {
            crate::model::lemma_palette(before, window_id);
            crate::model::lemma_with_palette(
                before,
                window_id,
                PaletteView { selected_index: next, ..before.palette(window_id) },
            );
        }
    }
}

/// The contents of an optional row.
pub open spec fn opt_row(row: Option<PaletteRow>) -> Option<PaletteRowView> {
    match row {
        Some(inner) => Some(inner@),
        None => None,
    }
}

/// The selected row.
pub fn palette_current_row(model: &AppModel, window_id: WindowId) -> (row: Option<PaletteRow>)
    ensures
        opt_row(row) == model@.selected_row(window_id),
{
    let palette = model.palette_state(window_id);
    let rows = command_palette_rows(model, window_id, &palette);
    let count = rows.len();
    proof {
        assert(palette_row_views(rows@).len() == count);
    }
    if count == 0 {
        return None;
    }
    let place = cap(palette.selected_index, count);
    proof {
        assert(palette_row_views(rows@)[place as int] == rows@[place as int]@);
    }
    Some(rows[place].copy())
}

// ---------------------------------------------------------------------------
// Laws
// ---------------------------------------------------------------------------

/// No row that comes later belongs before one that comes earlier.
pub open spec fn in_rank(list: Seq<Ranked>) -> bool {
    forall|low: int, high: int|
        0 <= low < high < list.len() ==> !(#[trigger] list[high]).comes_first(
            #[trigger] list[low],
        )
}

/// The rows that fit come in the order of how well they fit, of their rank and of their number.
pub proof fn law_rows_in_rank(query: Seq<char>, rows: Seq<PaletteRowView>, count: int)
    requires
        count <= rows.len(),
    ensures
        in_rank(ranked(query, rows, count)),
    decreases count,
{
    if count > 0 {
        law_rows_in_rank(query, rows, count - 1);
        let before = ranked(query, rows, count - 1);
        let row = rows[count - 1];
        match palette_search::terms_score(query, row.search_terms) {
            None => {},
            Some(score) => {
                let item = Ranked { score, row };
                let place = place_among(before, item, 0);
                lemma_place_among(before, item, 0);
                let after = before.insert(place, item);
                assert forall|low: int, high: int| 0 <= low < high < after.len() implies !(
                #[trigger] after[high]).comes_first(#[trigger] after[low]) by {
                    if low < place && high < place {
                        assert(after[low] == before[low] && after[high] == before[high]);
                    } else if low < place && high == place {
                        assert(after[low] == before[low]);
                    } else if low < place {
                        assert(after[low] == before[low] && after[high] == before[high - 1]);
                    } else if low == place {
                        assert(after[high] == before[high - 1]);
                        assert(item.comes_first(before[place]));
                        if high - 1 > place {
                            assert(!before[high - 1].comes_first(before[place]));
                        }
                    } else {
                        assert(after[low] == before[low - 1] && after[high] == before[high - 1]);
                    }
                }
            },
        }
    }
}

/// Those of the first `count` rows that fit, in the order in which they are offered.
pub open spec fn kept(query: Seq<char>, rows: Seq<PaletteRowView>, count: int) -> Seq<Ranked>
    decreases count,
{
    if count <= 0 {
        Seq::empty()
    } else {
        let before = kept(query, rows, count - 1);
        match palette_search::terms_score(query, rows[count - 1].search_terms) {
            None => before,
            Some(score) => before.push(Ranked { score, row: rows[count - 1] }),
        }
    }
}

/// The palette shows exactly the offered rows that fit, each as often as it is offered.
pub proof fn law_rows_kept(query: Seq<char>, rows: Seq<PaletteRowView>, count: int)
    requires
        count <= rows.len(),
    ensures
        ranked(query, rows, count).to_multiset() == kept(query, rows, count).to_multiset(),
    decreases count,
{
    if count > 0 {
        law_rows_kept(query, rows, count - 1);
        let before = ranked(query, rows, count - 1);
        let row = rows[count - 1];
        match palette_search::terms_score(query, row.search_terms) {
            None => {},
            Some(score) => {
                let item = Ranked { score, row };
                let place = place_among(before, item, 0);
                lemma_place_among(before, item, 0);
                let after = before.insert(place, item);
                after.to_multiset_ensures();
                before.to_multiset_ensures();
                kept(query, rows, count - 1).to_multiset_ensures();
                assert(after.remove(place) =~= before);
                assert(after.to_multiset() =~= before.to_multiset().insert(item)) by {
                    assert(after[place] == item);
                    assert(after.contains(item));
                    assert(after.to_multiset().count(item) > 0);
                    assert(after.to_multiset().remove(item).insert(item) =~= after.to_multiset());
                }
            },
        }
    }
}

} // verus!
