//! What keys do: each action is run by the keys that are shown beside it, and digits select
//! workspaces.

use crate::actions;
use crate::actions::{AppAction, KeyStep};
use crate::text;
use vstd::prelude::*;

verus! {

/// How keys are written that are pressed together: the control key, perhaps the shift key or the
/// alt key, and another one.
pub open spec fn written(key: Seq<char>, shift: bool, alt: bool) -> Seq<char> {
    let held = if shift {
        "<Primary>"@ + "<Shift>"@
    } else if alt {
        "<Primary>"@ + "<Alt>"@
    } else {
        "<Primary>"@
    };
    held + key
}

/// The names of keys differ.
proof fn lemma_key_names()
    ensures
        "n"@.len() == 1,
        "n"@[0] == 'n',
        "N"@.len() == 1,
        "N"@[0] == 'N',
        "d"@.len() == 1,
        "d"@[0] == 'd',
        "D"@.len() == 1,
        "D"@[0] == 'D',
        "t"@.len() == 1,
        "t"@[0] == 't',
        "T"@.len() == 1,
        "T"@[0] == 'T',
        "w"@.len() == 1,
        "w"@[0] == 'w',
        "W"@.len() == 1,
        "W"@[0] == 'W',
        "Q"@.len() == 1,
        "Q"@[0] == 'Q',
        "q"@.len() == 1,
        "q"@[0] == 'q',
        "E"@.len() == 1,
        "E"@[0] == 'E',
        "e"@.len() == 1,
        "e"@[0] == 'e',
        "bracketright"@.len() == 12,
        "bracketright"@[0] == 'b',
        "braceright"@.len() == 10,
        "braceright"@[0] == 'b',
        "bracketleft"@.len() == 11,
        "bracketleft"@[0] == 'b',
        "braceleft"@.len() == 9,
        "braceleft"@[0] == 'b',
        "ISO_Left_Tab"@.len() == 12,
        "ISO_Left_Tab"@[0] == 'I',
        "Tab"@.len() == 3,
        "Tab"@[0] == 'T',
        "Left"@.len() == 4,
        "Left"@[0] == 'L',
        "Right"@.len() == 5,
        "Right"@[0] == 'R',
        "Up"@.len() == 2,
        "Up"@[0] == 'U',
        "Down"@.len() == 4,
        "Down"@[0] == 'D',
        "grave"@.len() == 5,
        "grave"@[0] == 'g',
        "asciitilde"@.len() == 10,
        "asciitilde"@[0] == 'a',
        "Page_Down"@.len() == 9,
        "Page_Down"@[0] == 'P',
        "Page_Up"@.len() == 7,
        "Page_Up"@[0] == 'P',
{
    reveal_strlit("n");
    reveal_strlit("N");
    reveal_strlit("d");
    reveal_strlit("D");
    reveal_strlit("t");
    reveal_strlit("T");
    reveal_strlit("w");
    reveal_strlit("W");
    reveal_strlit("Q");
    reveal_strlit("q");
    reveal_strlit("E");
    reveal_strlit("e");
    reveal_strlit("bracketright");
    reveal_strlit("braceright");
    reveal_strlit("bracketleft");
    reveal_strlit("braceleft");
    reveal_strlit("ISO_Left_Tab");
    reveal_strlit("Tab");
    reveal_strlit("Left");
    reveal_strlit("Right");
    reveal_strlit("Up");
    reveal_strlit("Down");
    reveal_strlit("grave");
    reveal_strlit("asciitilde");
    reveal_strlit("Page_Down");
    reveal_strlit("Page_Up");
}

/// The keys that are written beside an action run it.
pub proof fn law_shown_keys_run_the_action(action: AppAction, at: int) -> (pressed: (
    Seq<char>,
    bool,
    bool,
))
    requires
        0 <= at < action.shortcuts().len(),
    ensures
        action.shortcuts()[at] == written(pressed.0, pressed.1, pressed.2),
        !pressed.0.contains('<'),
        !(pressed.1 && pressed.2),
        actions::key_plan(pressed.0, true, pressed.1, pressed.2) == KeyStep::Run(action),
{
    lemma_key_names();
    match action {
        AppAction::WindowNew => {
            lemma_n(false, true);
            ("n"@, false, true)
        },
        AppAction::WindowClose => {
            lemma_w(false, true);
            ("w"@, false, true)
        },
        AppAction::WorkspaceNew => {
            if at == 0 {
                lemma_n(false, false);
                ("n"@, false, false)
            } else {
                lemma_n(true, false);
                ("n"@, true, false)
            }
        },
        AppAction::WorkspaceClose => {
            if at == 0 {
                lemma_w(true, false);
                ("w"@, true, false)
            } else {
                lemma_q(true, false);
                ("q"@, true, false)
            }
        },
        AppAction::WorkspaceNext => {
            if at == 0 {
                lemma_bracketright(false, false);
                ("bracketright"@, false, false)
            } else {
                lemma_page_down(false, true);
                ("Page_Down"@, false, true)
            }
        },
        AppAction::WorkspacePrevious => {
            if at == 0 {
                lemma_bracketleft(false, false);
                ("bracketleft"@, false, false)
            } else {
                lemma_page_up(false, true);
                ("Page_Up"@, false, true)
            }
        },
        AppAction::WorkspaceLast => {
            if at == 0 {
                lemma_grave(false, false);
                ("grave"@, false, false)
            } else {
                lemma_grave(true, false);
                ("grave"@, true, false)
            }
        },
        AppAction::SplitRight => {
            lemma_d(false, false);
            ("d"@, false, false)
        },
        AppAction::SplitDown => {
            if at == 0 {
                lemma_d(true, false);
                ("d"@, true, false)
            } else {
                lemma_e(true, false);
                ("e"@, true, false)
            }
        },
        AppAction::SurfaceNew => {
            if at == 0 {
                lemma_t(false, false);
                ("t"@, false, false)
            } else {
                lemma_t(true, false);
                ("t"@, true, false)
            }
        },
        AppAction::SurfaceClose => {
            lemma_w(false, false);
            ("w"@, false, false)
        },
        AppAction::SurfaceNext => {
            if at == 0 {
                lemma_bracketright(true, false);
                ("bracketright"@, true, false)
            } else if at == 1 {
                lemma_tab(false, false);
                ("Tab"@, false, false)
            } else {
                lemma_page_down(false, false);
                ("Page_Down"@, false, false)
            }
        },
        AppAction::SurfacePrevious => {
            if at == 0 {
                lemma_bracketleft(true, false);
                ("bracketleft"@, true, false)
            } else if at == 1 {
                lemma_iso_left_tab(true, false);
                ("ISO_Left_Tab"@, true, false)
            } else {
                lemma_page_up(false, false);
                ("Page_Up"@, false, false)
            }
        },
        AppAction::PaneLast => {
            lemma_grave(false, true);
            ("grave"@, false, true)
        },
        AppAction::PaneFocusLeft => {
            if at == 0 {
                lemma_left(false, true);
                ("Left"@, false, true)
            } else {
                lemma_left(true, false);
                ("Left"@, true, false)
            }
        },
        AppAction::PaneFocusRight => {
            if at == 0 {
                lemma_right(false, true);
                ("Right"@, false, true)
            } else {
                lemma_right(true, false);
                ("Right"@, true, false)
            }
        },
        AppAction::PaneFocusUp => {
            if at == 0 {
                lemma_up(false, true);
                ("Up"@, false, true)
            } else {
                lemma_up(true, false);
                ("Up"@, true, false)
            }
        },
        AppAction::PaneFocusDown => {
            if at == 0 {
                lemma_down(false, true);
                ("Down"@, false, true)
            } else {
                lemma_down(true, false);
                ("Down"@, true, false)
            }
        },
    }
}

proof fn lemma_n(shift: bool, alt: bool)
    requires
        !(shift && alt),
    ensures
        !"n"@.contains('<'),
        !shift && !alt ==> written("n"@, shift, alt) == "<Primary>n"@,
        alt ==> written("n"@, shift, alt) == "<Primary><Alt>n"@,
        shift ==> written("n"@, shift, alt) == "<Primary><Shift>n"@,
{
    reveal_strlit("<Primary>");
    reveal_strlit("<Shift>");
    reveal_strlit("<Alt>");
    reveal_strlit("n");
    reveal_strlit("<Primary>n");
    reveal_strlit("<Primary><Alt>n");
    reveal_strlit("<Primary><Shift>n");
    assert("<Primary>"@ + "n"@ =~= "<Primary>n"@);
    assert("<Primary>"@ + "<Alt>"@ + "n"@ =~= "<Primary><Alt>n"@);
    assert("<Primary>"@ + "<Shift>"@ + "n"@ =~= "<Primary><Shift>n"@);
}

proof fn lemma_w(shift: bool, alt: bool)
    requires
        !(shift && alt),
    ensures
        !"w"@.contains('<'),
        !shift && !alt ==> written("w"@, shift, alt) == "<Primary>w"@,
        alt ==> written("w"@, shift, alt) == "<Primary><Alt>w"@,
        shift ==> written("w"@, shift, alt) == "<Primary><Shift>w"@,
{
    reveal_strlit("<Primary>");
    reveal_strlit("<Shift>");
    reveal_strlit("<Alt>");
    reveal_strlit("w");
    reveal_strlit("<Primary>w");
    reveal_strlit("<Primary><Alt>w");
    reveal_strlit("<Primary><Shift>w");
    assert("<Primary>"@ + "w"@ =~= "<Primary>w"@);
    assert("<Primary>"@ + "<Alt>"@ + "w"@ =~= "<Primary><Alt>w"@);
    assert("<Primary>"@ + "<Shift>"@ + "w"@ =~= "<Primary><Shift>w"@);
}

proof fn lemma_q(shift: bool, alt: bool)
    requires
        !(shift && alt),
    ensures
        !"q"@.contains('<'),
        shift ==> written("q"@, shift, alt) == "<Primary><Shift>q"@,
{
    reveal_strlit("<Primary>");
    reveal_strlit("<Shift>");
    reveal_strlit("q");
    reveal_strlit("<Primary><Shift>q");
    assert("<Primary>"@ + "<Shift>"@ + "q"@ =~= "<Primary><Shift>q"@);
}

proof fn lemma_bracketright(shift: bool, alt: bool)
    requires
        !(shift && alt),
    ensures
        !"bracketright"@.contains('<'),
        !shift && !alt ==> written("bracketright"@, shift, alt) == "<Primary>bracketright"@,
        shift ==> written("bracketright"@, shift, alt) == "<Primary><Shift>bracketright"@,
{
    reveal_strlit("<Primary>");
    reveal_strlit("<Shift>");
    reveal_strlit("bracketright");
    reveal_strlit("<Primary>bracketright");
    reveal_strlit("<Primary><Shift>bracketright");
    assert("<Primary>"@ + "bracketright"@ =~= "<Primary>bracketright"@);
    assert("<Primary>"@ + "<Shift>"@ + "bracketright"@ =~= "<Primary><Shift>bracketright"@);
}

proof fn lemma_page_down(shift: bool, alt: bool)
    requires
        !(shift && alt),
    ensures
        !"Page_Down"@.contains('<'),
        !shift && !alt ==> written("Page_Down"@, shift, alt) == "<Primary>Page_Down"@,
        alt ==> written("Page_Down"@, shift, alt) == "<Primary><Alt>Page_Down"@,
{
    reveal_strlit("<Primary>");
    reveal_strlit("<Alt>");
    reveal_strlit("Page_Down");
    reveal_strlit("<Primary>Page_Down");
    reveal_strlit("<Primary><Alt>Page_Down");
    assert("<Primary>"@ + "Page_Down"@ =~= "<Primary>Page_Down"@);
    assert("<Primary>"@ + "<Alt>"@ + "Page_Down"@ =~= "<Primary><Alt>Page_Down"@);
}

proof fn lemma_bracketleft(shift: bool, alt: bool)
    requires
        !(shift && alt),
    ensures
        !"bracketleft"@.contains('<'),
        !shift && !alt ==> written("bracketleft"@, shift, alt) == "<Primary>bracketleft"@,
        shift ==> written("bracketleft"@, shift, alt) == "<Primary><Shift>bracketleft"@,
{
    reveal_strlit("<Primary>");
    reveal_strlit("<Shift>");
    reveal_strlit("bracketleft");
    reveal_strlit("<Primary>bracketleft");
    reveal_strlit("<Primary><Shift>bracketleft");
    assert("<Primary>"@ + "bracketleft"@ =~= "<Primary>bracketleft"@);
    assert("<Primary>"@ + "<Shift>"@ + "bracketleft"@ =~= "<Primary><Shift>bracketleft"@);
}

proof fn lemma_page_up(shift: bool, alt: bool)
    requires
        !(shift && alt),
    ensures
        !"Page_Up"@.contains('<'),
        !shift && !alt ==> written("Page_Up"@, shift, alt) == "<Primary>Page_Up"@,
        alt ==> written("Page_Up"@, shift, alt) == "<Primary><Alt>Page_Up"@,
{
    reveal_strlit("<Primary>");
    reveal_strlit("<Alt>");
    reveal_strlit("Page_Up");
    reveal_strlit("<Primary>Page_Up");
    reveal_strlit("<Primary><Alt>Page_Up");
    assert("<Primary>"@ + "Page_Up"@ =~= "<Primary>Page_Up"@);
    assert("<Primary>"@ + "<Alt>"@ + "Page_Up"@ =~= "<Primary><Alt>Page_Up"@);
}

proof fn lemma_grave(shift: bool, alt: bool)
    requires
        !(shift && alt),
    ensures
        !"grave"@.contains('<'),
        !shift && !alt ==> written("grave"@, shift, alt) == "<Primary>grave"@,
        alt ==> written("grave"@, shift, alt) == "<Primary><Alt>grave"@,
        shift ==> written("grave"@, shift, alt) == "<Primary><Shift>grave"@,
{
    reveal_strlit("<Primary>");
    reveal_strlit("<Shift>");
    reveal_strlit("<Alt>");
    reveal_strlit("grave");
    reveal_strlit("<Primary>grave");
    reveal_strlit("<Primary><Alt>grave");
    reveal_strlit("<Primary><Shift>grave");
    assert("<Primary>"@ + "grave"@ =~= "<Primary>grave"@);
    assert("<Primary>"@ + "<Alt>"@ + "grave"@ =~= "<Primary><Alt>grave"@);
    assert("<Primary>"@ + "<Shift>"@ + "grave"@ =~= "<Primary><Shift>grave"@);
}

proof fn lemma_d(shift: bool, alt: bool)
    requires
        !(shift && alt),
    ensures
        !"d"@.contains('<'),
        !shift && !alt ==> written("d"@, shift, alt) == "<Primary>d"@,
        shift ==> written("d"@, shift, alt) == "<Primary><Shift>d"@,
{
    reveal_strlit("<Primary>");
    reveal_strlit("<Shift>");
    reveal_strlit("d");
    reveal_strlit("<Primary>d");
    reveal_strlit("<Primary><Shift>d");
    assert("<Primary>"@ + "d"@ =~= "<Primary>d"@);
    assert("<Primary>"@ + "<Shift>"@ + "d"@ =~= "<Primary><Shift>d"@);
}

proof fn lemma_e(shift: bool, alt: bool)
    requires
        !(shift && alt),
    ensures
        !"e"@.contains('<'),
        shift ==> written("e"@, shift, alt) == "<Primary><Shift>e"@,
{
    reveal_strlit("<Primary>");
    reveal_strlit("<Shift>");
    reveal_strlit("e");
    reveal_strlit("<Primary><Shift>e");
    assert("<Primary>"@ + "<Shift>"@ + "e"@ =~= "<Primary><Shift>e"@);
}

proof fn lemma_t(shift: bool, alt: bool)
    requires
        !(shift && alt),
    ensures
        !"t"@.contains('<'),
        !shift && !alt ==> written("t"@, shift, alt) == "<Primary>t"@,
        shift ==> written("t"@, shift, alt) == "<Primary><Shift>t"@,
{
    reveal_strlit("<Primary>");
    reveal_strlit("<Shift>");
    reveal_strlit("t");
    reveal_strlit("<Primary>t");
    reveal_strlit("<Primary><Shift>t");
    assert("<Primary>"@ + "t"@ =~= "<Primary>t"@);
    assert("<Primary>"@ + "<Shift>"@ + "t"@ =~= "<Primary><Shift>t"@);
}

proof fn lemma_tab(shift: bool, alt: bool)
    requires
        !(shift && alt),
    ensures
        !"Tab"@.contains('<'),
        !shift && !alt ==> written("Tab"@, shift, alt) == "<Primary>Tab"@,
{
    reveal_strlit("<Primary>");
    reveal_strlit("Tab");
    reveal_strlit("<Primary>Tab");
    assert("<Primary>"@ + "Tab"@ =~= "<Primary>Tab"@);
}

proof fn lemma_iso_left_tab(shift: bool, alt: bool)
    requires
        !(shift && alt),
    ensures
        !"ISO_Left_Tab"@.contains('<'),
        shift ==> written("ISO_Left_Tab"@, shift, alt) == "<Primary><Shift>ISO_Left_Tab"@,
{
    reveal_strlit("<Primary>");
    reveal_strlit("<Shift>");
    reveal_strlit("ISO_Left_Tab");
    reveal_strlit("<Primary><Shift>ISO_Left_Tab");
    assert("<Primary>"@ + "<Shift>"@ + "ISO_Left_Tab"@ =~= "<Primary><Shift>ISO_Left_Tab"@);
}

proof fn lemma_left(shift: bool, alt: bool)
    requires
        !(shift && alt),
    ensures
        !"Left"@.contains('<'),
        alt ==> written("Left"@, shift, alt) == "<Primary><Alt>Left"@,
        shift ==> written("Left"@, shift, alt) == "<Primary><Shift>Left"@,
{
    reveal_strlit("<Primary>");
    reveal_strlit("<Shift>");
    reveal_strlit("<Alt>");
    reveal_strlit("Left");
    reveal_strlit("<Primary><Alt>Left");
    reveal_strlit("<Primary><Shift>Left");
    assert("<Primary>"@ + "<Alt>"@ + "Left"@ =~= "<Primary><Alt>Left"@);
    assert("<Primary>"@ + "<Shift>"@ + "Left"@ =~= "<Primary><Shift>Left"@);
}

proof fn lemma_right(shift: bool, alt: bool)
    requires
        !(shift && alt),
    ensures
        !"Right"@.contains('<'),
        alt ==> written("Right"@, shift, alt) == "<Primary><Alt>Right"@,
        shift ==> written("Right"@, shift, alt) == "<Primary><Shift>Right"@,
{
    reveal_strlit("<Primary>");
    reveal_strlit("<Shift>");
    reveal_strlit("<Alt>");
    reveal_strlit("Right");
    reveal_strlit("<Primary><Alt>Right");
    reveal_strlit("<Primary><Shift>Right");
    assert("<Primary>"@ + "<Alt>"@ + "Right"@ =~= "<Primary><Alt>Right"@);
    assert("<Primary>"@ + "<Shift>"@ + "Right"@ =~= "<Primary><Shift>Right"@);
}

proof fn lemma_up(shift: bool, alt: bool)
    requires
        !(shift && alt),
    ensures
        !"Up"@.contains('<'),
        alt ==> written("Up"@, shift, alt) == "<Primary><Alt>Up"@,
        shift ==> written("Up"@, shift, alt) == "<Primary><Shift>Up"@,
{
    reveal_strlit("<Primary>");
    reveal_strlit("<Shift>");
    reveal_strlit("<Alt>");
    reveal_strlit("Up");
    reveal_strlit("<Primary><Alt>Up");
    reveal_strlit("<Primary><Shift>Up");
    assert("<Primary>"@ + "<Alt>"@ + "Up"@ =~= "<Primary><Alt>Up"@);
    assert("<Primary>"@ + "<Shift>"@ + "Up"@ =~= "<Primary><Shift>Up"@);
}

proof fn lemma_down(shift: bool, alt: bool)
    requires
        !(shift && alt),
    ensures
        !"Down"@.contains('<'),
        alt ==> written("Down"@, shift, alt) == "<Primary><Alt>Down"@,
        shift ==> written("Down"@, shift, alt) == "<Primary><Shift>Down"@,
{
    reveal_strlit("<Primary>");
    reveal_strlit("<Shift>");
    reveal_strlit("<Alt>");
    reveal_strlit("Down");
    reveal_strlit("<Primary><Alt>Down");
    reveal_strlit("<Primary><Shift>Down");
    assert("<Primary>"@ + "<Alt>"@ + "Down"@ =~= "<Primary><Alt>Down"@);
    assert("<Primary>"@ + "<Shift>"@ + "Down"@ =~= "<Primary><Shift>Down"@);
}

/// A digit with the alt key selects the workspace of that number, counted from one.
pub proof fn law_digits_select_workspaces(number: usize)
    requires
        1 <= number <= 9,
    ensures
        actions::key_plan(text::decimal(number as nat), false, false, true)
            == KeyStep::SelectWorkspace((number - 1) as usize),
{
    reveal_strlit("1");
    reveal_strlit("2");
    reveal_strlit("3");
    reveal_strlit("4");
    reveal_strlit("5");
    reveal_strlit("6");
    reveal_strlit("7");
    reveal_strlit("8");
    reveal_strlit("9");
    let written = text::decimal(number as nat);
    assert("1"@ =~= seq!['1']);
    assert("2"@ =~= seq!['2']);
    assert("3"@ =~= seq!['3']);
    assert("4"@ =~= seq!['4']);
    assert("5"@ =~= seq!['5']);
    assert("6"@ =~= seq!['6']);
    assert("7"@ =~= seq!['7']);
    assert("8"@ =~= seq!['8']);
    assert("9"@ =~= seq!['9']);
    assert(written =~= seq![text::digit(number as nat)]);
    assert(written[0] as int == 48 + number);
    assert(number == 1 ==> written =~= "1"@);
    assert(number == 2 ==> written =~= "2"@);
    assert(number == 3 ==> written =~= "3"@);
    assert(number == 4 ==> written =~= "4"@);
    assert(number == 5 ==> written =~= "5"@);
    assert(number == 6 ==> written =~= "6"@);
    assert(number == 7 ==> written =~= "7"@);
    assert(number == 8 ==> written =~= "8"@);
    assert(number == 9 ==> written =~= "9"@);
}

} // verus!
