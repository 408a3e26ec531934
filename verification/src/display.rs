//! What the user reads: titles, rows and labels.

use crate::answer_surfaces;
use crate::answer_surfaces::workspace_surface_ids;
use crate::capabilities::{linux_v1_capabilities, terminal_backend_status};
use crate::ids;
use crate::ids::{plain_id_string, PaneId, SurfaceId, WindowId, WorkspaceId, NIL};
use crate::layout::{SplitOrientation, WorkspaceLayout};
use crate::methods;
use crate::params;
use crate::params::pane_surface_ids;
use crate::state::{AppState, StateView};
use crate::surface::{Pane, PaneView, Surface, SurfaceView};
use crate::text;
use crate::text::{
    byte_count, chars_of, decimal_text, find, find_char, glue_from, joined, joined3, same_text,
    split_at_mark, text_of, trim,
};
use crate::workspace::{Workspace, WorkspaceView};
use vstd::prelude::*;

verus! {

// ---------------------------------------------------------------------------
// Paths
// ---------------------------------------------------------------------------

/// The last of the first `count` parts of a path that is neither empty nor `.`; none if it is `..`.
pub open spec fn last_part(parts: Seq<Seq<char>>, count: int) -> Option<Seq<char>>
    decreases count,
{
    if count <= 0 {
        None
    } else if parts[count - 1] == ""@ || parts[count - 1] == "."@ {
        last_part(parts, count - 1)
    } else if parts[count - 1] == ".."@ {
        None
    } else {
        Some(parts[count - 1])
    }
}

/// The name of the file or directory that a path leads to.
pub open spec fn base_name(path: Seq<char>) -> Option<Seq<char>> {
    last_part(text::parts(path, '/'), text::parts(path, '/').len() as int)
}

/// The name of the file or directory that a path leads to.
pub fn file_name(path: &str) -> (name: Option<String>)
    ensures
        text::opt_text(name) == base_name(path@),
{
    let parts = split_at_mark(path, '/');
    let ghost views = text::texts(parts@);
    let mut count: usize = parts.len();
    while count > 0
        invariant
            count <= parts@.len(),
            views == text::texts(parts@),
            views == text::parts(path@, '/'),
            base_name(path@) == last_part(views, count as int),
        decreases count,
    {
        let part = parts[count - 1].as_str();
        proof {
            assert(views[count - 1] == part@);
        }
        if !same_text(part, "") && !same_text(part, ".") {
            if same_text(part, "..") {
                return None;
            }
            return Some(part.to_owned());
        }
        count = count - 1;
    }
    None
}

// ---------------------------------------------------------------------------
// Titles
// ---------------------------------------------------------------------------

/// Whether a text looks like a path.
pub open spec fn is_path(content: Seq<char>) -> bool {
    content.len() > 0 && (content[0] == '/' || content[0] == '~')
}

fn looks_like_path(content: &str) -> (result: bool)
    ensures
        result == is_path(content@),
{
    let chars = chars_of(content);
    chars.len() > 0 && (chars[0] == '/' || chars[0] == '~')
}

/// What follows the first `mark` of a title, if it looks like a path.
pub open spec fn path_after(title: Seq<char>, mark: Seq<char>) -> Option<Seq<char>> {
    match text::found_from(title, mark, 0) {
        None => None,
        Some(at) => {
            let after = text::trimmed(title.skip(at + mark.len()));
            if is_path(after) {
                Some(after)
            } else {
                None
            }
        },
    }
}

/// Whether what stands before a colon names a user or a program: it has an `@`, or is short.
pub open spec fn is_prefix(before: Seq<char>) -> bool {
    before.contains('@') || text::byte_len(before) <= 6
}

/// The path in the title of a terminal, or the title.
pub open spec fn path_in_title(title: Seq<char>) -> Seq<char> {
    match path_after(title, ": "@) {
        Some(path) => path,
        None => match text::found_from(title, ":"@, 0) {
            Some(at) => if is_prefix(title.take(at)) && path_after(title, ":"@) is Some {
                path_after(title, ":"@)->0
            } else {
                title
            },
            None => title,
        },
    }
}

/// A short form of the title of a terminal: the last name of the path in it, or what it says.
pub open spec fn short_title(raw: Seq<char>) -> Seq<char> {
    let title = text::trimmed(raw);
    let path = path_in_title(title);
    if title.len() == 0 {
        "Terminal"@
    } else if is_path(path) && path != "~"@ && path != "/"@ && base_name(path) is Some {
        base_name(path)->0
    } else {
        path
    }
}

fn find_path_after(title: &str, mark: &str) -> (path: Option<String>)
    ensures
        text::opt_text(path) == path_after(title@, mark@),
{
    let chars = chars_of(title);
    let pattern = chars_of(mark);
    match find(&chars, &pattern) {
        None => None,
        Some(at) => {
            let count = chars.len();
            let rest = text_of(&chars, at + pattern.len(), count);
            proof {
                assert(rest@ =~= title@.skip(at + mark@.len()));
            }
            let after = trim(rest.as_str());
            if looks_like_path(after.as_str()) {
                Some(after)
            } else {
                None
            }
        },
    }
}

/// The path in the title of a terminal, or the title.
pub fn extract_path_from_title(title: &str) -> (path: String)
    ensures
        path@ == path_in_title(title@),
{
    if let Some(path) = find_path_after(title, ": ") {
        return path;
    }
    let chars = chars_of(title);
    let colon = chars_of(":");
    if let Some(at) = find(&chars, &colon) {
        let before = text_of(&chars, 0, at);
        proof {
            assert(before@ =~= title@.take(at as int));
        }
        let name = chars_of(before.as_str());
        let known = match find_char(&name, '@', 0) {
            Some(place) => {
                proof {
                    lemma_char_from(name@, '@', 0);
                }
                true
            },
            None => {
                proof {
                    lemma_char_from(name@, '@', 0);
                }
                byte_count(before.as_str()) <= 6
            },
        };
        if known {
            if let Some(path) = find_path_after(title, ":") {
                return path;
            }
        }
    }
    title.to_owned()
}

proof fn lemma_char_from(content: Seq<char>, ch: char, at: int)
    requires
        0 <= at <= content.len(),
    ensures
        match text::char_from(content, ch, at) {
            Some(place) => at <= place < content.len() && content[place] == ch
                && content.contains(ch),
            None => forall|k: int| at <= k < content.len() ==> content[k] != ch,
        },
    decreases content.len() - at,
{
    if at < content.len() && content[at] != ch {
        lemma_char_from(content, ch, at + 1);
    }
}

/// A short form of the title of a terminal.
pub fn smart_display_title(raw: &str) -> (title: String)
    ensures
        title@ == short_title(raw@),
{
    let trimmed = trim(raw);
    if trimmed.as_str().is_empty() {
        return "Terminal".to_owned();
    }
    let path = extract_path_from_title(trimmed.as_str());
    if looks_like_path(path.as_str()) && !same_text(path.as_str(), "~") && !same_text(
        path.as_str(),
        "/",
    ) {
        if let Some(name) = file_name(path.as_str()) {
            return name;
        }
    }
    path
}

/// The label of a tab: its short title, a dot if it has something unread, and how often it has
/// flashed.
pub open spec fn tab_label(surface: SurfaceView) -> Seq<char> {
    let title = short_title(surface.title);
    let dotted = if surface.unread {
        title + " •"@
    } else {
        title
    };
    if surface.flash_count > 0 {
        dotted + " ("@ + text::decimal(surface.flash_count as nat) + ")"@
    } else {
        dotted
    }
}

/// The label of a tab.
pub fn surface_tab_label(surface: &Surface) -> (label: String)
    ensures
        label@ == tab_label(surface@),
{
    let title = smart_display_title(surface.title.as_str());
    let dotted = if surface.unread {
        joined(title.as_str(), " •")
    } else {
        title
    };
    if surface.flash_count > 0 {
        let count = decimal_text(surface.flash_count);
        let open = joined3(dotted.as_str(), " (", count.as_str());
        joined(open.as_str(), ")")
    } else {
        dotted
    }
}

/// The first eight digits of an identifier.
pub open spec fn short_id_text(id: u128) -> Seq<char> {
    ids::plain_id_text(id).take(8)
}

/// The first eight digits of an identifier.
pub fn short_id(id: u128) -> (name: String)
    ensures
        name@ == short_id_text(id),
{
    let chars = chars_of(plain_id_string(id).as_str());
    let name = text_of(&chars, 0, 8);
    proof {
        assert(name@ =~= short_id_text(id));
    }
    name
}

/// What stands in place of a pane that is not there.
pub fn missing_pane_label(pane_id: PaneId) -> (label: String)
    ensures
        label@ == "Missing pane "@ + short_id_text(pane_id),
{
    joined("Missing pane ", short_id(pane_id).as_str())
}

impl StateView {
    /// The title of a window: that of the workspace that it shows, and its number if there are
    /// several.
    pub open spec fn window_title(self, at: int) -> Seq<char> {
        let title = match self.workspace(self.windows[at].selected_workspace_id) {
            Some(workspace) => workspace.title,
            None => "cmux"@,
        };
        if self.windows.len() > 1 {
            title + " — cmux ("@ + text::decimal((at + 1) as nat) + ")"@
        } else {
            title + " — cmux"@
        }
    }
}

impl AppState {
    /// The title of a window.
    pub fn window_title(&self, at: usize) -> (title: String)
        requires
            at < self@.windows.len(),
        ensures
            title@ == self@.window_title(at as int),
    {
        let name: String = match self.workspace(self.windows[at].selected_workspace_id) {
            Some(workspace) => workspace.title.clone(),
            None => "cmux".to_owned(),
        };
        if self.windows.len() > 1 {
            let number = decimal_text((at + 1) as u64);
            let open = joined3(name.as_str(), " — cmux (", number.as_str());
            joined(open.as_str(), ")")
        } else {
            joined(name.as_str(), " — cmux")
        }
    }
}

// ---------------------------------------------------------------------------
// The sidebar
// ---------------------------------------------------------------------------

/// A row of the sidebar.
#[derive(Debug)]
pub struct SidebarRow {
    /// The workspace.
    pub workspace_id: WorkspaceId,
    /// Its title.
    pub title: String,
    /// What else is said of it.
    pub meta: String,
    /// Whether it is on screen.
    pub selected: bool,
}

/// The contents of a [`SidebarRow`].
#[verifier::ext_equal]
pub struct SidebarRowView {
    /// See [`SidebarRow::workspace_id`].
    pub workspace_id: WorkspaceId,
    /// See [`SidebarRow::title`].
    pub title: Seq<char>,
    /// See [`SidebarRow::meta`].
    pub meta: Seq<char>,
    /// See [`SidebarRow::selected`].
    pub selected: bool,
}

impl View for SidebarRow {
    type V = SidebarRowView;

    open spec fn view(&self) -> SidebarRowView {
        SidebarRowView {
            workspace_id: self.workspace_id,
            title: self.title@,
            meta: self.meta@,
            selected: self.selected,
        }
    }
}

/// The contents of each row.
pub open spec fn sidebar_views(rows: Seq<SidebarRow>) -> Seq<SidebarRowView> {
    Seq::new(rows.len(), |at: int| rows[at]@)
}

/// Those of the first `count` surfaces of a pane that have something unread.
pub open spec fn unread_in(pane: PaneView, count: int) -> Seq<SurfaceId>
    decreases count,
{
    if count <= 0 {
        Seq::empty()
    } else if pane.surfaces[count - 1].unread {
        unread_in(pane, count - 1).push(pane.surfaces[count - 1].id)
    } else {
        unread_in(pane, count - 1)
    }
}

/// The surfaces of the first `count` panes that have something unread.
pub open spec fn unread_of(panes: Seq<PaneView>, count: int) -> Seq<SurfaceId>
    decreases count,
{
    if count <= 0 {
        Seq::empty()
    } else {
        unread_of(panes, count - 1) + unread_in(
            panes[count - 1],
            panes[count - 1].surfaces.len() as int,
        )
    }
}

fn unread_surfaces(workspace: &Workspace) -> (list: Vec<SurfaceId>)
    ensures
        list@ == unread_of(workspace@.panes, workspace@.panes.len() as int),
{
    let mut list: Vec<SurfaceId> = Vec::new();
    let mut at: usize = 0;
    while at < workspace.panes.len()
        invariant
            at <= workspace.panes@.len(),
            list@ == unread_of(workspace@.panes, at as int),
        decreases workspace.panes@.len() - at,
    {
        let pane = &workspace.panes[at];
        let ghost before = list@;
        let mut place: usize = 0;
        proof {
            assert(before + unread_in(pane@, 0) =~= before);
        }
        while place < pane.surfaces.len()
            invariant
                place <= pane.surfaces@.len(),
                list@ == before + unread_in(pane@, place as int),
            decreases pane.surfaces@.len() - place,
        {
            let surface = &pane.surfaces[place];
            proof {
                assert(pane@.surfaces[place as int] == surface@);
            }
            if surface.unread {
                list.push(surface.id);
                proof {
                    assert(list@ =~= before + unread_in(pane@, place + 1));
                }
            }
            place = place + 1;
        }
        proof {
            assert(workspace@.panes[at as int] == pane@);
        }
        at = at + 1;
    }
    list
}

/// What is said of a workspace beside its title: how many tabs it has if there are several, how
/// many of them have something unread, and the name of its directory.
pub open spec fn meta_parts(workspace: WorkspaceView) -> Seq<Seq<char>> {
    let tabs = answer_surfaces::ids_of(workspace.panes, workspace.panes.len() as int).len();
    let unread = unread_of(workspace.panes, workspace.panes.len() as int).len();
    let first = if tabs > 1 {
        Seq::<Seq<char>>::empty().push(text::decimal(tabs) + " tabs"@)
    } else {
        Seq::empty()
    };
    let second = if unread > 0 {
        first.push(text::decimal(unread) + " unread"@)
    } else {
        first
    };
    match workspace.current_directory {
        Some(directory) => match base_name(directory) {
            Some(name) => second.push(name),
            None => second,
        },
        None => second,
    }
}

/// The row of a workspace.
pub open spec fn sidebar_row(workspace: WorkspaceView, shown: WorkspaceId) -> SidebarRowView {
    SidebarRowView {
        workspace_id: workspace.id,
        title: workspace.title,
        meta: text::glued(meta_parts(workspace), " · "@),
        selected: workspace.id == shown,
    }
}

/// The rows of the workspaces of a window among the first `count`.
pub open spec fn sidebar_rows(
    list: Seq<WorkspaceView>,
    window_id: WindowId,
    shown: WorkspaceId,
    count: int,
) -> Seq<SidebarRowView>
    decreases count,
{
    if count <= 0 {
        Seq::empty()
    } else {
        let before = sidebar_rows(list, window_id, shown, count - 1);
        if list[count - 1].window_id == window_id {
            before.push(sidebar_row(list[count - 1], shown))
        } else {
            before
        }
    }
}

impl StateView {
    /// The rows of the sidebar of a window.
    pub open spec fn sidebar(self, window_id: WindowId) -> Seq<SidebarRowView> {
        let shown = match self.window(window_id) {
            Some(window) => window.selected_workspace_id,
            None => NIL,
        };
        sidebar_rows(self.workspaces, window_id, shown, self.workspaces.len() as int)
    }
}

fn add_part(parts: &mut Vec<String>, part: String)
    ensures
        text::texts(final(parts)@) == text::texts(old(parts)@).push(part@),
{
    let ghost before = text::texts(parts@);
    let ghost content = part@;
    parts.push(part);
    proof {
        assert(text::texts(parts@) =~= before.push(content));
    }
}

fn meta_texts(workspace: &Workspace) -> (parts: Vec<String>)
    ensures
        text::texts(parts@) == meta_parts(workspace@),
{
    let tabs = workspace_surface_ids(workspace).len();
    let unread = unread_surfaces(workspace).len();
    let mut parts: Vec<String> = Vec::new();
    proof {
        assert(text::texts(parts@) =~= Seq::<Seq<char>>::empty());
    }
    if tabs > 1 {
        add_part(&mut parts, joined(decimal_text(tabs as u64).as_str(), " tabs"));
    }
    if unread > 0 {
        add_part(&mut parts, joined(decimal_text(unread as u64).as_str(), " unread"));
    }
    if let Some(directory) = &workspace.current_directory {
        if let Some(name) = file_name(directory.as_str()) {
            add_part(&mut parts, name);
        }
    }
    parts
}

/// The rows of the sidebar of a window.
pub fn collect_sidebar_rows(state: &AppState, window_id: WindowId) -> (rows: Vec<SidebarRow>)
    ensures
        sidebar_views(rows@) == state@.sidebar(window_id),
{
    let shown: WorkspaceId = match state.window(window_id) {
        Some(window) => window.selected_workspace_id,
        None => NIL,
    };
    let mut rows: Vec<SidebarRow> = Vec::new();
    proof {
        assert(sidebar_views(rows@) =~= Seq::<SidebarRowView>::empty());
    }
    let mut at: usize = 0;
    while at < state.workspaces.len()
        invariant
            at <= state.workspaces@.len(),
            sidebar_views(rows@) == sidebar_rows(
                state@.workspaces,
                window_id,
                shown,
                at as int,
            ),
        decreases state.workspaces@.len() - at,
    {
        let workspace = &state.workspaces[at];
        proof {
            assert(state@.workspaces[at as int] == workspace@);
        }
        if workspace.window_id == window_id {
            let ghost before = sidebar_views(rows@);
            let row = SidebarRow {
                workspace_id: workspace.id,
                title: workspace.title.clone(),
                meta: glue_from(&meta_texts(workspace), " · ", 0),
                selected: workspace.id == shown,
            };
            let ghost content = row@;
            rows.push(row);
            proof {
                assert(sidebar_views(rows@) =~= before.push(content));
            }
        }
        at = at + 1;
    }
    rows
}

// ---------------------------------------------------------------------------
// The shape of a workspace
// ---------------------------------------------------------------------------

/// The short identifiers of a list.
pub open spec fn short_ids(list: Seq<u128>) -> Seq<Seq<char>> {
    Seq::new(list.len(), |at: int| short_id_text(list[at]))
}

/// A pane and its surfaces.
pub open spec fn pane_mark(pane_id: PaneId, workspace: WorkspaceView) -> Seq<char> {
    let surfaces = match workspace.pane(pane_id) {
        Some(pane) => short_ids(params::surface_ids(pane)),
        None => Seq::empty(),
    };
    "P"@ + short_id_text(pane_id) + "["@ + text::glued(surfaces, ","@) + "]"@
}

/// The parts that describe a layout.
pub open spec fn layout_marks(layout: WorkspaceLayout, workspace: WorkspaceView) -> Seq<Seq<char>>
    decreases layout,
{
    match layout {
        WorkspaceLayout::Pane(pane_id) => Seq::<Seq<char>>::empty().push(
            pane_mark(pane_id, workspace),
        ),
        WorkspaceLayout::Split { orientation, first, second } => {
            let letter = match orientation {
                SplitOrientation::Horizontal => "SH("@,
                SplitOrientation::Vertical => "SV("@,
            };
            (Seq::<Seq<char>>::empty().push(letter) + layout_marks(*first, workspace)).push(
                ","@,
            ) + layout_marks(*second, workspace).push(")"@)
        },
    }
}

/// A text that changes with the shape of a workspace: its panes, their surfaces, and how they are
/// laid out.
pub open spec fn fingerprint(workspace: WorkspaceView) -> Seq<char> {
    text::glued(layout_marks(workspace.layout, workspace), "|"@)
}

fn short_id_texts(list: &Vec<u128>) -> (names: Vec<String>)
    ensures
        text::texts(names@) == short_ids(list@),
{
    let mut names: Vec<String> = Vec::new();
    let mut at: usize = 0;
    while at < list.len()
        invariant
            at <= list@.len(),
            names@.len() == at,
            forall|k: int| 0 <= k < at ==> (#[trigger] names@[k])@ == short_id_text(list@[k]),
        decreases list@.len() - at,
    {
        names.push(short_id(list[at]));
        at = at + 1;
    }
    proof {
        assert(text::texts(names@) =~= short_ids(list@));
    }
    names
}

fn pane_text(pane_id: PaneId, workspace: &Workspace) -> (mark: String)
    ensures
        mark@ == pane_mark(pane_id, workspace@),
{
    let names: Vec<String> = match workspace.pane(pane_id) {
        Some(pane) => short_id_texts(&pane_surface_ids(pane)),
        None => {
            let none: Vec<String> = Vec::new();
            proof {
                assert(text::texts(none@) =~= Seq::<Seq<char>>::empty());
            }
            none
        },
    };
    let open = joined3("P", short_id(pane_id).as_str(), "[");
    joined3(open.as_str(), glue_from(&names, ",", 0).as_str(), "]")
}

fn collect_layout_marks(layout: &WorkspaceLayout, workspace: &Workspace, parts: &mut Vec<String>)
    ensures
        text::texts(final(parts)@) == text::texts(old(parts)@) + layout_marks(*layout, workspace@),
    decreases layout,
{
    let ghost before = text::texts(parts@);
    match layout {
        WorkspaceLayout::Pane(pane_id) => {
            add_part(parts, pane_text(*pane_id, workspace));
        },
        WorkspaceLayout::Split { orientation, first, second } => {
            match orientation {
                SplitOrientation::Horizontal => add_part(parts, "SH(".to_owned()),
                SplitOrientation::Vertical => add_part(parts, "SV(".to_owned()),
            }
            collect_layout_marks(first, workspace, parts);
            add_part(parts, ",".to_owned());
            collect_layout_marks(second, workspace, parts);
            add_part(parts, ")".to_owned());
        },
    }
    proof {
        assert(text::texts(parts@) =~= before + layout_marks(*layout, workspace@));
    }
}

/// A text that changes with the shape of a workspace.
pub fn layout_fingerprint(workspace: &Workspace) -> (mark: String)
    ensures
        mark@ == fingerprint(workspace@),
{
    let mut parts: Vec<String> = Vec::new();
    proof {
        assert(text::texts(parts@) =~= Seq::<Seq<char>>::empty());
    }
    collect_layout_marks(&workspace.layout, workspace, &mut parts);
    proof {
        assert(text::texts(parts@) =~= layout_marks(workspace@.layout, workspace@));
    }
    glue_from(&parts, "|", 0)
}

/// What is to be done with what a window has on screen.
#[derive(Debug, Clone, Copy, PartialEq, Eq, Structural)]
pub enum ContentStep {
    /// Take everything away.
    Clear,
    /// Bring what is on screen up to date.
    Update,
    /// Put back what was on screen before, and bring it up to date.
    Attach,
    /// Build it anew.
    Build,
}

/// What is to be done with what a window has on screen: `current` is the workspace that is on
/// screen, `shown` the one that should be, `kept` the shape of what was built for it.
pub open spec fn content_plan(
    current: Option<WorkspaceId>,
    shown: Option<WorkspaceId>,
    kept: Option<Seq<char>>,
    shape: Seq<char>,
) -> ContentStep {
    if shown is None {
        ContentStep::Clear
    } else if kept != Some(shape) {
        ContentStep::Build
    } else if current == shown {
        ContentStep::Update
    } else {
        ContentStep::Attach
    }
}

/// What is to be done with what a window has on screen.
pub fn content_step(
    current: Option<WorkspaceId>,
    shown: Option<WorkspaceId>,
    kept: &Option<String>,
    shape: &str,
) -> (step: ContentStep)
    ensures
        step == content_plan(current, shown, text::opt_text(*kept), shape@),
{
    if shown.is_none() {
        return ContentStep::Clear;
    }
    let fits = match kept {
        Some(inner) => same_text(inner.as_str(), shape),
        None => false,
    };
    if !fits {
        ContentStep::Build
    } else if crate::state_focus::same_id(current, shown) {
        ContentStep::Update
    } else {
        ContentStep::Attach
    }
}

// ---------------------------------------------------------------------------
// The first line
// ---------------------------------------------------------------------------

/// A truth value in words.
pub open spec fn flag_text(flag: bool) -> Seq<char> {
    if flag {
        "true"@
    } else {
        "false"@
    }
}

/// What the application says of itself when it starts; `server` says where the control protocol is
/// served.
pub open spec fn banner(server: Seq<char>) -> Seq<char> {
    "platform=linux frontend=gtk4-libadwaita browser="@ + flag_text(false) + " window_multi="@
        + flag_text(true) + " terminal_backend=vte features="@ + text::glued(
        Seq::<Seq<char>>::empty().push("terminal"@).push("workspace"@).push("pane"@).push(
            "surface"@,
        ).push("notification"@).push("session_restore"@).push("window_multi"@).push("debug"@),
        ","@,
    ) + " "@ + server
}

fn flag_word(flag: bool) -> (word: &'static str)
    ensures
        word@ == flag_text(flag),
{
    if flag {
        "true"
    } else {
        "false"
    }
}

fn label_texts(list: &Vec<&'static str>) -> (names: Vec<String>)
    ensures
        text::texts(names@) == methods::names(list@),
{
    let mut names: Vec<String> = Vec::new();
    let mut at: usize = 0;
    while at < list.len()
        invariant
            at <= list@.len(),
            names@.len() == at,
            forall|k: int| 0 <= k < at ==> (#[trigger] names@[k])@ == list@[k]@,
        decreases list@.len() - at,
    {
        names.push(list[at].to_owned());
        at = at + 1;
    }
    proof {
        assert(text::texts(names@) =~= methods::names(list@));
    }
    names
}

/// What the application says of itself when it starts.
pub fn banner_text(server: &str) -> (line: String)
    ensures
        line@ == banner(server@),
{
    let profile = linux_v1_capabilities();
    let status = terminal_backend_status();
    let labels = label_texts(&profile.enabled_feature_labels());
    proof {
        assert(text::texts(labels@) =~= Seq::<Seq<char>>::empty().push("terminal"@).push(
            "workspace"@,
        ).push("pane"@).push("surface"@).push("notification"@).push("session_restore"@).push(
            "window_multi"@,
        ).push("debug"@));
    }
    let first = joined(
        "platform=linux frontend=gtk4-libadwaita browser=",
        flag_word(profile.features.browser),
    );
    let second = joined3(
        first.as_str(),
        " window_multi=",
        flag_word(profile.platform.window_multi),
    );
    let third = joined3(
        second.as_str(),
        " terminal_backend=vte features=",
        glue_from(&labels, ",", 0).as_str(),
    );
    joined3(third.as_str(), " ", server)
}

} // verus!
