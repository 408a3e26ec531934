//! The methods of the control protocol.

use crate::text::chars_of;
use vstd::prelude::*;

verus! {

/// The contents of a list of names.
pub open spec fn names(list: Seq<&'static str>) -> Seq<Seq<char>> {
    Seq::new(list.len(), |at: int| list[at]@)
}

/// Whether a text comes before another one in the order of their characters.
pub open spec fn earlier(left: Seq<char>, right: Seq<char>) -> bool
    decreases left.len(),
{
    if right.len() == 0 {
        false
    } else if left.len() == 0 {
        true
    } else if left[0] != right[0] {
        left[0] < right[0]
    } else {
        earlier(left.skip(1), right.skip(1))
    }
}

/// Whether each text comes before those that follow it, so that none occurs twice.
pub open spec fn ascending(list: Seq<Seq<char>>) -> bool {
    forall|low: int, high: int|
        0 <= low < high < list.len() ==> earlier(#[trigger] list[low], #[trigger] list[high])
}

/// The list has exactly the texts that one of two other lists has, each once, in order.
pub open spec fn merged(list: Seq<Seq<char>>, first: Seq<Seq<char>>, second: Seq<Seq<char>>) -> bool {
    &&& ascending(list)
    &&& forall|name: Seq<char>| #[trigger]
        list.contains(name) <==> first.contains(name) || second.contains(name)
}

/// The texts that one of two lists has, each once, in order.
pub open spec fn in_order(first: Seq<Seq<char>>, second: Seq<Seq<char>>) -> Seq<Seq<char>> {
    choose|list: Seq<Seq<char>>| merged(list, first, second)
}

/// No text comes before itself.
pub proof fn lemma_earlier_irreflexive(content: Seq<char>)
    ensures
        !earlier(content, content),
    decreases content.len(),
{
    if content.len() > 0 {
        lemma_earlier_irreflexive(content.skip(1));
    }
}

/// What comes before a text comes before all that follow it.
pub proof fn lemma_earlier_transitive(first: Seq<char>, second: Seq<char>, third: Seq<char>)
    requires
        earlier(first, second),
        earlier(second, third),
    ensures
        earlier(first, third),
    decreases first.len(),
{
    if first.len() > 0 && first[0] == second[0] && second[0] == third[0] {
        lemma_earlier_transitive(first.skip(1), second.skip(1), third.skip(1));
    }
}

/// Of two texts that differ, one comes before the other.
pub proof fn lemma_earlier_total(left: Seq<char>, right: Seq<char>)
    requires
        left != right,
    ensures
        earlier(left, right) || earlier(right, left),
    decreases left.len(),
{
    if left.len() == 0 || right.len() == 0 {
        if left.len() == 0 && right.len() == 0 {
            assert(left =~= right);
        }
    } else if left[0] == right[0] {
        if left.skip(1) == right.skip(1) {
            assert(left =~= seq![left[0]] + left.skip(1));
            assert(right =~= seq![right[0]] + right.skip(1));
        }
        lemma_earlier_total(left.skip(1), right.skip(1));
    }
}

/// Two ascending lists with the same texts are the same list.
pub proof fn lemma_merged_unique(
    list: Seq<Seq<char>>,
    other: Seq<Seq<char>>,
    first: Seq<Seq<char>>,
    second: Seq<Seq<char>>,
)
    requires
        merged(list, first, second),
        merged(other, first, second),
    ensures
        list == other,
{
    assert forall|name: Seq<char>| list.contains(name) <==> other.contains(name) by {}
    lemma_ascending_unique(list, other);
}

proof fn lemma_ascending_unique(list: Seq<Seq<char>>, other: Seq<Seq<char>>)
    requires
        ascending(list),
        ascending(other),
        forall|name: Seq<char>| list.contains(name) <==> other.contains(name),
    ensures
        list == other,
    decreases list.len(),
{
    if list.len() == 0 {
        if other.len() > 0 {
            assert(other.contains(other[0]));
            assert(list.contains(other[0]));
        }
        assert(list =~= other);
    } else {
        assert(list.contains(list[0]));
        assert(other.contains(list[0]));
        let last = list.last();
        assert(list.contains(last));
        assert(other.contains(last));
        let end = other.last();
        assert(other.contains(end));
        assert(list.contains(end));
        if last != end {
            let at = choose|at: int| 0 <= at < list.len() && list[at] == end;
            let place = choose|place: int| 0 <= place < other.len() && other[place] == last;
            assert(earlier(end, last));
            assert(earlier(last, end));
            lemma_earlier_transitive(end, last, end);
            lemma_earlier_irreflexive(end);
        }
        let shorter = list.drop_last();
        let rest = other.drop_last();
        assert forall|name: Seq<char>| shorter.contains(name) implies rest.contains(name) by {
            lemma_without_last(list, other, name);
        }
        assert forall|name: Seq<char>| rest.contains(name) implies shorter.contains(name) by {
            lemma_without_last(other, list, name);
        }
        lemma_ascending_unique(shorter, rest);
        assert(list =~= shorter.push(last));
        assert(other =~= rest.push(end));
    }
}

proof fn lemma_without_last(list: Seq<Seq<char>>, other: Seq<Seq<char>>, name: Seq<char>)
    requires
        ascending(list),
        list.len() > 0,
        other.len() > 0,
        list.last() == other.last(),
        forall|each: Seq<char>| list.contains(each) <==> other.contains(each),
        list.drop_last().contains(name),
    ensures
        other.drop_last().contains(name),
{
    let at = choose|at: int| 0 <= at < list.drop_last().len() && list.drop_last()[at] == name;
    assert(list[at] == name);
    assert(list.contains(name));
    assert(other.contains(name));
    let place = choose|place: int| 0 <= place < other.len() && other[place] == name;
    if place == other.len() - 1 {
        assert(earlier(list[at], list[list.len() - 1]));
        lemma_earlier_irreflexive(name);
    }
    assert(other.drop_last()[place] == name);
}

/// Whether a text comes before another one in the order of their characters.
pub fn comes_before(left: &str, right: &str) -> (result: bool)
    ensures
        result == earlier(left@, right@),
{
    let first = chars_of(left);
    let second = chars_of(right);
    let mut at: usize = 0;
    proof {
        assert(first@.skip(0) =~= left@);
        assert(second@.skip(0) =~= right@);
    }
    while at < first.len() && at < second.len()
        invariant
            at <= first@.len(),
            at <= second@.len(),
            first@ == left@,
            second@ == right@,
            earlier(left@, right@) == earlier(first@.skip(at as int), second@.skip(at as int)),
        decreases first@.len() - at,
    {
        if first[at] != second[at] {
            return first[at] < second[at];
        }
        proof {
            assert(first@.skip(at as int).skip(1) =~= first@.skip(at + 1));
            assert(second@.skip(at as int).skip(1) =~= second@.skip(at + 1));
        }
        at = at + 1;
    }
    at < second.len()
}

/// Whether a list has a name.
pub fn has_name(list: &Vec<&'static str>, name: &str) -> (found: bool)
    ensures
        found == names(list@).contains(name@),
{
    let mut at: usize = 0;
    while at < list.len()
        invariant
            at <= list@.len(),
            forall|each: int| 0 <= each < at ==> list@[each]@ != name@,
        decreases list@.len() - at,
    {
        if crate::text::same_text(list[at], name) {
            proof {
                assert(names(list@)[at as int] == name@);
            }
            return true;
        }
        at = at + 1;
    }
    proof {
        if names(list@).contains(name@) {
            let place = choose|place: int|
                0 <= place < names(list@).len() && names(list@)[place] == name@;
            assert(list@[place]@ == name@);
        }
    }
    false
}

/// Puts a name in its place in an ascending list, unless it is there.
pub fn put_in_order(list: &mut Vec<&'static str>, name: &'static str)
    requires
        ascending(names(old(list)@)),
    ensures
        ascending(names(final(list)@)),
        forall|each: Seq<char>| #[trigger]
            names(final(list)@).contains(each) <==> names(old(list)@).contains(each) || each
                == name@,
{
    let ghost before = list@;
    let mut at: usize = 0;
    while at < list.len() && comes_before(list[at], name)
        invariant
            at <= list@.len(),
            list@ == before,
            forall|each: int| 0 <= each < at ==> earlier(#[trigger] list@[each]@, name@),
        decreases list@.len() - at,
    {
        at = at + 1;
    }
    if at < list.len() && crate::text::same_text(list[at], name) {
        proof {
            assert(names(list@)[at as int] == name@);
        }
        return;
    }
    list.insert(at, name);
    proof {
        let older = names(before);
        let newer = names(list@);
        assert(newer =~= older.insert(at as int, name@));
        assert forall|low: int, high: int| 0 <= low < high < newer.len() implies earlier(
            #[trigger] newer[low],
            #[trigger] newer[high],
        ) by {
            if low < at && high == at {
                assert(newer[low] == before[low]@);
            } else if low == at {
                assert(newer[high] == older[high - 1]);
                if at < older.len() {
                    lemma_earlier_total(older[at as int], name@);
                    if high - 1 > at {
                        assert(earlier(older[at as int], older[high - 1]));
                        lemma_earlier_transitive(name@, older[at as int], older[high - 1]);
                    }
                }
            } else if low < at && high > at {
                assert(earlier(older[low], older[high - 1]));
            } else if low < at {
                assert(earlier(older[low], older[high]));
            } else {
                assert(earlier(older[low - 1], older[high - 1]));
            }
        }
        assert forall|each: Seq<char>| #[trigger]
            newer.contains(each) <==> older.contains(each) || each == name@ by {
            if older.contains(each) {
                let place = choose|place: int| 0 <= place < older.len() && older[place] == each;
                if place < at {
                    assert(newer[place] == each);
                } else {
                    assert(newer[place + 1] == each);
                }
            }
            if each == name@ {
                assert(newer[at as int] == each);
            }
            if newer.contains(each) {
                let place = choose|place: int| 0 <= place < newer.len() && newer[place] == each;
                if place < at {
                    assert(older[place] == each);
                } else if place > at {
                    assert(older[place - 1] == each);
                }
            }
        }
    }
}

/// The names of two lists, each once, in order.
pub fn merge_names(first: &Vec<&'static str>, second: &Vec<&'static str>) -> (list: Vec<
    &'static str,
>)
    ensures
        merged(names(list@), names(first@), names(second@)),
        names(list@) == in_order(names(first@), names(second@)),
{
    let mut list: Vec<&'static str> = Vec::new();
    let mut at: usize = 0;
    while at < first.len()
        invariant
            at <= first@.len(),
            ascending(names(list@)),
            forall|each: Seq<char>| #[trigger]
                names(list@).contains(each) <==> names(first@).take(at as int).contains(each),
        decreases first@.len() - at,
    {
        put_in_order(&mut list, first[at]);
        proof {
            lemma_take_more(names(first@), at as int);
        }
        at = at + 1;
    }
    proof {
        assert(names(first@).take(at as int) =~= names(first@));
    }
    let mut place: usize = 0;
    while place < second.len()
        invariant
            place <= second@.len(),
            ascending(names(list@)),
            forall|each: Seq<char>| #[trigger]
                names(list@).contains(each) <==> names(first@).contains(each) || names(
                    second@,
                ).take(place as int).contains(each),
        decreases second@.len() - place,
    {
        put_in_order(&mut list, second[place]);
        proof {
            lemma_take_more(names(second@), place as int);
        }
        place = place + 1;
    }
    proof {
        assert(names(second@).take(place as int) =~= names(second@));
        assert(merged(names(list@), names(first@), names(second@)));
        lemma_merged_unique(
            names(list@),
            in_order(names(first@), names(second@)),
            names(first@),
            names(second@),
        );
    }
    list
}

proof fn lemma_take_more(list: Seq<Seq<char>>, at: int)
    requires
        0 <= at < list.len(),
    ensures
        forall|each: Seq<char>| #[trigger]
            list.take(at + 1).contains(each) <==> list.take(at).contains(each) || each == list[at],
{
    assert forall|each: Seq<char>| #[trigger]
        list.take(at + 1).contains(each) <==> list.take(at).contains(each) || each == list[at] by {
        if list.take(at).contains(each) {
            let fewer = list.take(at);
            let place = choose|place: int| 0 <= place < fewer.len() && fewer[place] == each;
            assert(list.take(at + 1)[place] == each);
        }
        if each == list[at] {
            assert(list.take(at + 1)[at] == each);
        }
        if list.take(at + 1).contains(each) {
            let more = list.take(at + 1);
            let place = choose|place: int| 0 <= place < more.len() && more[place] == each;
            if place < at {
                assert(list.take(at)[place] == each);
            }
        }
    }
}

fn note(list: &mut Vec<&'static str>, name: &'static str)
    ensures
        names(final(list)@) == names(old(list)@).push(name@),
{
    let ghost before = names(list@);
    list.push(name);
    proof {
        assert(names(list@) =~= before.push(name@));
    }
}

/// The methods that the control protocol answers.
pub open spec fn answered() -> Seq<Seq<char>> {
    Seq::<Seq<char>>::empty()
        .push("system.ping"@)
        .push("system.capabilities"@)
        .push("system.identify"@)
        .push("window.list"@)
        .push("window.current"@)
        .push("window.focus"@)
        .push("window.create"@)
        .push("window.close"@)
        .push("workspace.list"@)
        .push("workspace.create"@)
        .push("workspace.rename"@)
        .push("workspace.reorder"@)
        .push("workspace.select"@)
        .push("workspace.current"@)
        .push("workspace.next"@)
        .push("workspace.previous"@)
        .push("workspace.last"@)
        .push("workspace.move_to_window"@)
        .push("workspace.action"@)
        .push("workspace.close"@)
        .push("pane.list"@)
        .push("pane.surfaces"@)
        .push("pane.swap"@)
        .push("pane.break"@)
        .push("pane.join"@)
        .push("pane.focus"@)
        .push("pane.last"@)
        .push("pane.create"@)
        .push("surface.list"@)
        .push("surface.current"@)
        .push("surface.action"@)
        .push("surface.focus"@)
        .push("surface.split"@)
        .push("surface.create"@)
        .push("surface.close"@)
        .push("surface.move"@)
        .push("surface.reorder"@)
        .push("surface.drag_to_split"@)
        .push("surface.refresh"@)
        .push("surface.clear_history"@)
        .push("surface.send_text"@)
        .push("surface.send_key"@)
        .push("surface.read_text"@)
        .push("surface.health"@)
        .push("surface.trigger_flash"@)
        .push("notification.create"@)
        .push("notification.create_for_surface"@)
        .push("notification.list"@)
        .push("notification.clear"@)
        .push("app.focus_override.set"@)
        .push("app.simulate_active"@)
        .push("debug.app.activate"@)
        .push("debug.bonsplit_underflow.count"@)
        .push("debug.bonsplit_underflow.reset"@)
        .push("debug.command_palette.rename_input.select_all"@)
        .push("debug.command_palette.rename_input.selection"@)
        .push("debug.command_palette.rename_input.interact"@)
        .push("debug.command_palette.rename_input.delete_backward"@)
        .push("debug.command_palette.rename_tab.open"@)
        .push("debug.command_palette.results"@)
        .push("debug.command_palette.selection"@)
        .push("debug.command_palette.toggle"@)
        .push("debug.command_palette.visible"@)
        .push("debug.empty_panel.count"@)
        .push("debug.empty_panel.reset"@)
        .push("debug.layout"@)
        .push("debug.notification.focus"@)
        .push("debug.panel_snapshot"@)
        .push("debug.panel_snapshot.reset"@)
        .push("debug.portal.stats"@)
        .push("debug.shortcut.set"@)
        .push("debug.shortcut.simulate"@)
        .push("debug.sidebar.visible"@)
        .push("debug.terminal.is_focused"@)
        .push("debug.terminal.read_text"@)
        .push("debug.terminal.render_stats"@)
        .push("debug.type"@)
        .push("debug.window.screenshot"@)
        .push("debug.flash.count"@)
        .push("debug.flash.reset"@)
        .push("tab.action"@)
}

/// The methods of the embedded browser, which there is none of.
pub open spec fn browser() -> Seq<Seq<char>> {
    Seq::<Seq<char>>::empty()
        .push("browser.open_split"@)
        .push("browser.navigate"@)
        .push("browser.back"@)
        .push("browser.forward"@)
        .push("browser.reload"@)
        .push("browser.url.get"@)
        .push("browser.snapshot"@)
        .push("browser.eval"@)
        .push("browser.wait"@)
        .push("browser.click"@)
        .push("browser.dblclick"@)
        .push("browser.hover"@)
        .push("browser.focus"@)
        .push("browser.type"@)
        .push("browser.fill"@)
        .push("browser.press"@)
        .push("browser.keydown"@)
        .push("browser.keyup"@)
        .push("browser.check"@)
        .push("browser.uncheck"@)
        .push("browser.select"@)
        .push("browser.scroll"@)
        .push("browser.scroll_into_view"@)
        .push("browser.screenshot"@)
        .push("browser.get.text"@)
        .push("browser.get.html"@)
        .push("browser.get.value"@)
        .push("browser.get.attr"@)
        .push("browser.get.title"@)
        .push("browser.get.count"@)
        .push("browser.get.box"@)
        .push("browser.get.styles"@)
        .push("browser.is.visible"@)
        .push("browser.is.enabled"@)
        .push("browser.is.checked"@)
        .push("browser.focus_webview"@)
        .push("browser.is_webview_focused"@)
        .push("browser.find.role"@)
        .push("browser.find.text"@)
        .push("browser.find.label"@)
        .push("browser.find.placeholder"@)
        .push("browser.find.alt"@)
        .push("browser.find.title"@)
        .push("browser.find.testid"@)
        .push("browser.find.first"@)
        .push("browser.find.last"@)
        .push("browser.find.nth"@)
        .push("browser.frame.select"@)
        .push("browser.frame.main"@)
        .push("browser.dialog.accept"@)
        .push("browser.dialog.dismiss"@)
        .push("browser.download.wait"@)
        .push("browser.cookies.get"@)
        .push("browser.cookies.set"@)
        .push("browser.cookies.clear"@)
        .push("browser.storage.get"@)
        .push("browser.storage.set"@)
        .push("browser.storage.clear"@)
        .push("browser.tab.new"@)
        .push("browser.tab.list"@)
        .push("browser.tab.switch"@)
        .push("browser.tab.close"@)
        .push("browser.console.list"@)
        .push("browser.console.clear"@)
        .push("browser.errors.list"@)
        .push("browser.highlight"@)
        .push("browser.state.save"@)
        .push("browser.state.load"@)
        .push("browser.addinitscript"@)
        .push("browser.addscript"@)
        .push("browser.addstyle"@)
        .push("browser.viewport.set"@)
        .push("browser.geolocation.set"@)
        .push("browser.offline.set"@)
        .push("browser.trace.start"@)
        .push("browser.trace.stop"@)
        .push("browser.network.route"@)
        .push("browser.network.unroute"@)
        .push("browser.network.requests"@)
        .push("browser.screencast.start"@)
        .push("browser.screencast.stop"@)
        .push("browser.input_mouse"@)
        .push("browser.input_keyboard"@)
        .push("browser.input_touch"@)
}

/// The methods that the control protocol answers.
pub fn answered_methods() -> (list: Vec<&'static str>)
    ensures
        names(list@) == answered(),
{
    let mut list: Vec<&'static str> = Vec::new();
    proof {
        assert(names(list@) =~= Seq::<Seq<char>>::empty());
    }
    note(&mut list, "system.ping");
    note(&mut list, "system.capabilities");
    note(&mut list, "system.identify");
    note(&mut list, "window.list");
    note(&mut list, "window.current");
    note(&mut list, "window.focus");
    note(&mut list, "window.create");
    note(&mut list, "window.close");
    note(&mut list, "workspace.list");
    note(&mut list, "workspace.create");
    note(&mut list, "workspace.rename");
    note(&mut list, "workspace.reorder");
    note(&mut list, "workspace.select");
    note(&mut list, "workspace.current");
    note(&mut list, "workspace.next");
    note(&mut list, "workspace.previous");
    note(&mut list, "workspace.last");
    note(&mut list, "workspace.move_to_window");
    note(&mut list, "workspace.action");
    note(&mut list, "workspace.close");
    note(&mut list, "pane.list");
    note(&mut list, "pane.surfaces");
    note(&mut list, "pane.swap");
    note(&mut list, "pane.break");
    note(&mut list, "pane.join");
    note(&mut list, "pane.focus");
    note(&mut list, "pane.last");
    note(&mut list, "pane.create");
    note(&mut list, "surface.list");
    note(&mut list, "surface.current");
    note(&mut list, "surface.action");
    note(&mut list, "surface.focus");
    note(&mut list, "surface.split");
    note(&mut list, "surface.create");
    note(&mut list, "surface.close");
    note(&mut list, "surface.move");
    note(&mut list, "surface.reorder");
    note(&mut list, "surface.drag_to_split");
    note(&mut list, "surface.refresh");
    note(&mut list, "surface.clear_history");
    note(&mut list, "surface.send_text");
    note(&mut list, "surface.send_key");
    note(&mut list, "surface.read_text");
    note(&mut list, "surface.health");
    note(&mut list, "surface.trigger_flash");
    note(&mut list, "notification.create");
    note(&mut list, "notification.create_for_surface");
    note(&mut list, "notification.list");
    note(&mut list, "notification.clear");
    note(&mut list, "app.focus_override.set");
    note(&mut list, "app.simulate_active");
    note(&mut list, "debug.app.activate");
    note(&mut list, "debug.bonsplit_underflow.count");
    note(&mut list, "debug.bonsplit_underflow.reset");
    note(&mut list, "debug.command_palette.rename_input.select_all");
    note(&mut list, "debug.command_palette.rename_input.selection");
    note(&mut list, "debug.command_palette.rename_input.interact");
    note(&mut list, "debug.command_palette.rename_input.delete_backward");
    note(&mut list, "debug.command_palette.rename_tab.open");
    note(&mut list, "debug.command_palette.results");
    note(&mut list, "debug.command_palette.selection");
    note(&mut list, "debug.command_palette.toggle");
    note(&mut list, "debug.command_palette.visible");
    note(&mut list, "debug.empty_panel.count");
    note(&mut list, "debug.empty_panel.reset");
    note(&mut list, "debug.layout");
    note(&mut list, "debug.notification.focus");
    note(&mut list, "debug.panel_snapshot");
    note(&mut list, "debug.panel_snapshot.reset");
    note(&mut list, "debug.portal.stats");
    note(&mut list, "debug.shortcut.set");
    note(&mut list, "debug.shortcut.simulate");
    note(&mut list, "debug.sidebar.visible");
    note(&mut list, "debug.terminal.is_focused");
    note(&mut list, "debug.terminal.read_text");
    note(&mut list, "debug.terminal.render_stats");
    note(&mut list, "debug.type");
    note(&mut list, "debug.window.screenshot");
    note(&mut list, "debug.flash.count");
    note(&mut list, "debug.flash.reset");
    note(&mut list, "tab.action");
    list
}

/// The methods of the embedded browser, which there is none of.
pub fn browser_methods() -> (list: Vec<&'static str>)
    ensures
        names(list@) == browser(),
{
    let mut list: Vec<&'static str> = Vec::new();
    proof {
        assert(names(list@) =~= Seq::<Seq<char>>::empty());
    }
    note(&mut list, "browser.open_split");
    note(&mut list, "browser.navigate");
    note(&mut list, "browser.back");
    note(&mut list, "browser.forward");
    note(&mut list, "browser.reload");
    note(&mut list, "browser.url.get");
    note(&mut list, "browser.snapshot");
    note(&mut list, "browser.eval");
    note(&mut list, "browser.wait");
    note(&mut list, "browser.click");
    note(&mut list, "browser.dblclick");
    note(&mut list, "browser.hover");
    note(&mut list, "browser.focus");
    note(&mut list, "browser.type");
    note(&mut list, "browser.fill");
    note(&mut list, "browser.press");
    note(&mut list, "browser.keydown");
    note(&mut list, "browser.keyup");
    note(&mut list, "browser.check");
    note(&mut list, "browser.uncheck");
    note(&mut list, "browser.select");
    note(&mut list, "browser.scroll");
    note(&mut list, "browser.scroll_into_view");
    note(&mut list, "browser.screenshot");
    note(&mut list, "browser.get.text");
    note(&mut list, "browser.get.html");
    note(&mut list, "browser.get.value");
    note(&mut list, "browser.get.attr");
    note(&mut list, "browser.get.title");
    note(&mut list, "browser.get.count");
    note(&mut list, "browser.get.box");
    note(&mut list, "browser.get.styles");
    note(&mut list, "browser.is.visible");
    note(&mut list, "browser.is.enabled");
    note(&mut list, "browser.is.checked");
    note(&mut list, "browser.focus_webview");
    note(&mut list, "browser.is_webview_focused");
    note(&mut list, "browser.find.role");
    note(&mut list, "browser.find.text");
    note(&mut list, "browser.find.label");
    note(&mut list, "browser.find.placeholder");
    note(&mut list, "browser.find.alt");
    note(&mut list, "browser.find.title");
    note(&mut list, "browser.find.testid");
    note(&mut list, "browser.find.first");
    note(&mut list, "browser.find.last");
    note(&mut list, "browser.find.nth");
    note(&mut list, "browser.frame.select");
    note(&mut list, "browser.frame.main");
    note(&mut list, "browser.dialog.accept");
    note(&mut list, "browser.dialog.dismiss");
    note(&mut list, "browser.download.wait");
    note(&mut list, "browser.cookies.get");
    note(&mut list, "browser.cookies.set");
    note(&mut list, "browser.cookies.clear");
    note(&mut list, "browser.storage.get");
    note(&mut list, "browser.storage.set");
    note(&mut list, "browser.storage.clear");
    note(&mut list, "browser.tab.new");
    note(&mut list, "browser.tab.list");
    note(&mut list, "browser.tab.switch");
    note(&mut list, "browser.tab.close");
    note(&mut list, "browser.console.list");
    note(&mut list, "browser.console.clear");
    note(&mut list, "browser.errors.list");
    note(&mut list, "browser.highlight");
    note(&mut list, "browser.state.save");
    note(&mut list, "browser.state.load");
    note(&mut list, "browser.addinitscript");
    note(&mut list, "browser.addscript");
    note(&mut list, "browser.addstyle");
    note(&mut list, "browser.viewport.set");
    note(&mut list, "browser.geolocation.set");
    note(&mut list, "browser.offline.set");
    note(&mut list, "browser.trace.start");
    note(&mut list, "browser.trace.stop");
    note(&mut list, "browser.network.route");
    note(&mut list, "browser.network.unroute");
    note(&mut list, "browser.network.requests");
    note(&mut list, "browser.screencast.start");
    note(&mut list, "browser.screencast.stop");
    note(&mut list, "browser.input_mouse");
    note(&mut list, "browser.input_keyboard");
    note(&mut list, "browser.input_touch");
    list
}

proof fn lemma_one_more(list: Seq<Seq<char>>, name: Seq<char>, method: Seq<char>)
    ensures
        list.push(name).contains(method) == (list.contains(method) || method == name),
{
    let longer = list.push(name);
    assert(longer[list.len() as int] == name);
    if list.contains(method) {
        let k = choose|k: int| 0 <= k < list.len() && list[k] == method;
        assert(longer[k] == method);
    }
    if longer.contains(method) && method != name {
        let k = choose|k: int| 0 <= k < longer.len() && longer[k] == method;
        assert(list[k] == method);
    }
}

/// The methods that the control protocol answers, one by one.
pub proof fn lemma_answered(method: Seq<char>)
    ensures
        answered().contains(method) == ({
            ||| method == "system.ping"@
            ||| method == "system.capabilities"@
            ||| method == "system.identify"@
            ||| method == "window.list"@
            ||| method == "window.current"@
            ||| method == "window.focus"@
            ||| method == "window.create"@
            ||| method == "window.close"@
            ||| method == "workspace.list"@
            ||| method == "workspace.create"@
            ||| method == "workspace.rename"@
            ||| method == "workspace.reorder"@
            ||| method == "workspace.select"@
            ||| method == "workspace.current"@
            ||| method == "workspace.next"@
            ||| method == "workspace.previous"@
            ||| method == "workspace.last"@
            ||| method == "workspace.move_to_window"@
            ||| method == "workspace.action"@
            ||| method == "workspace.close"@
            ||| method == "pane.list"@
            ||| method == "pane.surfaces"@
            ||| method == "pane.swap"@
            ||| method == "pane.break"@
            ||| method == "pane.join"@
            ||| method == "pane.focus"@
            ||| method == "pane.last"@
            ||| method == "pane.create"@
            ||| method == "surface.list"@
            ||| method == "surface.current"@
            ||| method == "surface.action"@
            ||| method == "surface.focus"@
            ||| method == "surface.split"@
            ||| method == "surface.create"@
            ||| method == "surface.close"@
            ||| method == "surface.move"@
            ||| method == "surface.reorder"@
            ||| method == "surface.drag_to_split"@
            ||| method == "surface.refresh"@
            ||| method == "surface.clear_history"@
            ||| method == "surface.send_text"@
            ||| method == "surface.send_key"@
            ||| method == "surface.read_text"@
            ||| method == "surface.health"@
            ||| method == "surface.trigger_flash"@
            ||| method == "notification.create"@
            ||| method == "notification.create_for_surface"@
            ||| method == "notification.list"@
            ||| method == "notification.clear"@
            ||| method == "app.focus_override.set"@
            ||| method == "app.simulate_active"@
            ||| method == "debug.app.activate"@
            ||| method == "debug.bonsplit_underflow.count"@
            ||| method == "debug.bonsplit_underflow.reset"@
            ||| method == "debug.command_palette.rename_input.select_all"@
            ||| method == "debug.command_palette.rename_input.selection"@
            ||| method == "debug.command_palette.rename_input.interact"@
            ||| method == "debug.command_palette.rename_input.delete_backward"@
            ||| method == "debug.command_palette.rename_tab.open"@
            ||| method == "debug.command_palette.results"@
            ||| method == "debug.command_palette.selection"@
            ||| method == "debug.command_palette.toggle"@
            ||| method == "debug.command_palette.visible"@
            ||| method == "debug.empty_panel.count"@
            ||| method == "debug.empty_panel.reset"@
            ||| method == "debug.layout"@
            ||| method == "debug.notification.focus"@
            ||| method == "debug.panel_snapshot"@
            ||| method == "debug.panel_snapshot.reset"@
            ||| method == "debug.portal.stats"@
            ||| method == "debug.shortcut.set"@
            ||| method == "debug.shortcut.simulate"@
            ||| method == "debug.sidebar.visible"@
            ||| method == "debug.terminal.is_focused"@
            ||| method == "debug.terminal.read_text"@
            ||| method == "debug.terminal.render_stats"@
            ||| method == "debug.type"@
            ||| method == "debug.window.screenshot"@
            ||| method == "debug.flash.count"@
            ||| method == "debug.flash.reset"@
            ||| method == "tab.action"@
        }),
{
    let list = Seq::<Seq<char>>::empty();
    assert(!list.contains(method));
    lemma_one_more(list, "system.ping"@, method);
    let list = list.push("system.ping"@);
    lemma_one_more(list, "system.capabilities"@, method);
    let list = list.push("system.capabilities"@);
    lemma_one_more(list, "system.identify"@, method);
    let list = list.push("system.identify"@);
    lemma_one_more(list, "window.list"@, method);
    let list = list.push("window.list"@);
    lemma_one_more(list, "window.current"@, method);
    let list = list.push("window.current"@);
    lemma_one_more(list, "window.focus"@, method);
    let list = list.push("window.focus"@);
    lemma_one_more(list, "window.create"@, method);
    let list = list.push("window.create"@);
    lemma_one_more(list, "window.close"@, method);
    let list = list.push("window.close"@);
    lemma_one_more(list, "workspace.list"@, method);
    let list = list.push("workspace.list"@);
    lemma_one_more(list, "workspace.create"@, method);
    let list = list.push("workspace.create"@);
    lemma_one_more(list, "workspace.rename"@, method);
    let list = list.push("workspace.rename"@);
    lemma_one_more(list, "workspace.reorder"@, method);
    let list = list.push("workspace.reorder"@);
    lemma_one_more(list, "workspace.select"@, method);
    let list = list.push("workspace.select"@);
    lemma_one_more(list, "workspace.current"@, method);
    let list = list.push("workspace.current"@);
    lemma_one_more(list, "workspace.next"@, method);
    let list = list.push("workspace.next"@);
    lemma_one_more(list, "workspace.previous"@, method);
    let list = list.push("workspace.previous"@);
    lemma_one_more(list, "workspace.last"@, method);
    let list = list.push("workspace.last"@);
    lemma_one_more(list, "workspace.move_to_window"@, method);
    let list = list.push("workspace.move_to_window"@);
    lemma_one_more(list, "workspace.action"@, method);
    let list = list.push("workspace.action"@);
    lemma_one_more(list, "workspace.close"@, method);
    let list = list.push("workspace.close"@);
    lemma_one_more(list, "pane.list"@, method);
    let list = list.push("pane.list"@);
    lemma_one_more(list, "pane.surfaces"@, method);
    let list = list.push("pane.surfaces"@);
    lemma_one_more(list, "pane.swap"@, method);
    let list = list.push("pane.swap"@);
    lemma_one_more(list, "pane.break"@, method);
    let list = list.push("pane.break"@);
    lemma_one_more(list, "pane.join"@, method);
    let list = list.push("pane.join"@);
    lemma_one_more(list, "pane.focus"@, method);
    let list = list.push("pane.focus"@);
    lemma_one_more(list, "pane.last"@, method);
    let list = list.push("pane.last"@);
    lemma_one_more(list, "pane.create"@, method);
    let list = list.push("pane.create"@);
    lemma_one_more(list, "surface.list"@, method);
    let list = list.push("surface.list"@);
    lemma_one_more(list, "surface.current"@, method);
    let list = list.push("surface.current"@);
    lemma_one_more(list, "surface.action"@, method);
    let list = list.push("surface.action"@);
    lemma_one_more(list, "surface.focus"@, method);
    let list = list.push("surface.focus"@);
    lemma_one_more(list, "surface.split"@, method);
    let list = list.push("surface.split"@);
    lemma_one_more(list, "surface.create"@, method);
    let list = list.push("surface.create"@);
    lemma_one_more(list, "surface.close"@, method);
    let list = list.push("surface.close"@);
    lemma_one_more(list, "surface.move"@, method);
    let list = list.push("surface.move"@);
    lemma_one_more(list, "surface.reorder"@, method);
    let list = list.push("surface.reorder"@);
    lemma_one_more(list, "surface.drag_to_split"@, method);
    let list = list.push("surface.drag_to_split"@);
    lemma_one_more(list, "surface.refresh"@, method);
    let list = list.push("surface.refresh"@);
    lemma_one_more(list, "surface.clear_history"@, method);
    let list = list.push("surface.clear_history"@);
    lemma_one_more(list, "surface.send_text"@, method);
    let list = list.push("surface.send_text"@);
    lemma_one_more(list, "surface.send_key"@, method);
    let list = list.push("surface.send_key"@);
    lemma_one_more(list, "surface.read_text"@, method);
    let list = list.push("surface.read_text"@);
    lemma_one_more(list, "surface.health"@, method);
    let list = list.push("surface.health"@);
    lemma_one_more(list, "surface.trigger_flash"@, method);
    let list = list.push("surface.trigger_flash"@);
    lemma_one_more(list, "notification.create"@, method);
    let list = list.push("notification.create"@);
    lemma_one_more(list, "notification.create_for_surface"@, method);
    let list = list.push("notification.create_for_surface"@);
    lemma_one_more(list, "notification.list"@, method);
    let list = list.push("notification.list"@);
    lemma_one_more(list, "notification.clear"@, method);
    let list = list.push("notification.clear"@);
    lemma_one_more(list, "app.focus_override.set"@, method);
    let list = list.push("app.focus_override.set"@);
    lemma_one_more(list, "app.simulate_active"@, method);
    let list = list.push("app.simulate_active"@);
    lemma_one_more(list, "debug.app.activate"@, method);
    let list = list.push("debug.app.activate"@);
    lemma_one_more(list, "debug.bonsplit_underflow.count"@, method);
    let list = list.push("debug.bonsplit_underflow.count"@);
    lemma_one_more(list, "debug.bonsplit_underflow.reset"@, method);
    let list = list.push("debug.bonsplit_underflow.reset"@);
    lemma_one_more(list, "debug.command_palette.rename_input.select_all"@, method);
    let list = list.push("debug.command_palette.rename_input.select_all"@);
    lemma_one_more(list, "debug.command_palette.rename_input.selection"@, method);
    let list = list.push("debug.command_palette.rename_input.selection"@);
    lemma_one_more(list, "debug.command_palette.rename_input.interact"@, method);
    let list = list.push("debug.command_palette.rename_input.interact"@);
    lemma_one_more(list, "debug.command_palette.rename_input.delete_backward"@, method);
    let list = list.push("debug.command_palette.rename_input.delete_backward"@);
    lemma_one_more(list, "debug.command_palette.rename_tab.open"@, method);
    let list = list.push("debug.command_palette.rename_tab.open"@);
    lemma_one_more(list, "debug.command_palette.results"@, method);
    let list = list.push("debug.command_palette.results"@);
    lemma_one_more(list, "debug.command_palette.selection"@, method);
    let list = list.push("debug.command_palette.selection"@);
    lemma_one_more(list, "debug.command_palette.toggle"@, method);
    let list = list.push("debug.command_palette.toggle"@);
    lemma_one_more(list, "debug.command_palette.visible"@, method);
    let list = list.push("debug.command_palette.visible"@);
    lemma_one_more(list, "debug.empty_panel.count"@, method);
    let list = list.push("debug.empty_panel.count"@);
    lemma_one_more(list, "debug.empty_panel.reset"@, method);
    let list = list.push("debug.empty_panel.reset"@);
    lemma_one_more(list, "debug.layout"@, method);
    let list = list.push("debug.layout"@);
    lemma_one_more(list, "debug.notification.focus"@, method);
    let list = list.push("debug.notification.focus"@);
    lemma_one_more(list, "debug.panel_snapshot"@, method);
    let list = list.push("debug.panel_snapshot"@);
    lemma_one_more(list, "debug.panel_snapshot.reset"@, method);
    let list = list.push("debug.panel_snapshot.reset"@);
    lemma_one_more(list, "debug.portal.stats"@, method);
    let list = list.push("debug.portal.stats"@);
    lemma_one_more(list, "debug.shortcut.set"@, method);
    let list = list.push("debug.shortcut.set"@);
    lemma_one_more(list, "debug.shortcut.simulate"@, method);
    let list = list.push("debug.shortcut.simulate"@);
    lemma_one_more(list, "debug.sidebar.visible"@, method);
    let list = list.push("debug.sidebar.visible"@);
    lemma_one_more(list, "debug.terminal.is_focused"@, method);
    let list = list.push("debug.terminal.is_focused"@);
    lemma_one_more(list, "debug.terminal.read_text"@, method);
    let list = list.push("debug.terminal.read_text"@);
    lemma_one_more(list, "debug.terminal.render_stats"@, method);
    let list = list.push("debug.terminal.render_stats"@);
    lemma_one_more(list, "debug.type"@, method);
    let list = list.push("debug.type"@);
    lemma_one_more(list, "debug.window.screenshot"@, method);
    let list = list.push("debug.window.screenshot"@);
    lemma_one_more(list, "debug.flash.count"@, method);
    let list = list.push("debug.flash.count"@);
    lemma_one_more(list, "debug.flash.reset"@, method);
    let list = list.push("debug.flash.reset"@);
    lemma_one_more(list, "tab.action"@, method);
    let list = list.push("tab.action"@);
    assert(list == answered());
}

/// All methods that the control protocol names, each once, in order.
pub fn advertised_methods() -> (list: Vec<&'static str>)
    ensures
        merged(names(list@), answered(), browser()),
        names(list@) == in_order(answered(), browser()),
{
    merge_names(&answered_methods(), &browser_methods())
}

} // verus!
