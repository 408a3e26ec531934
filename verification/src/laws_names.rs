//! What holds of short names.

use crate::ids;
use crate::ids::Drawn;
use crate::model::ModelView;
use crate::registry;
use crate::registry::{HandleKind, RegistryView};
use crate::state::{StateView, WindowState};
use crate::state_focus;
use crate::surface::{PaneView, SurfaceView};
use crate::text;
use crate::workspace::WorkspaceView;
use vstd::arithmetic::div_mod::{lemma_basic_div, lemma_div_denominator};
use vstd::arithmetic::power::{lemma_pow0, lemma_pow1, lemma_pow_adds, lemma_pow_positive, pow};
use vstd::prelude::*;

verus! {

// ---------------------------------------------------------------------------
// Texts
// ---------------------------------------------------------------------------

proof fn lemma_decimal_some(value: nat)
    ensures
        text::decimal(value).len() > 0,
    decreases value,
{
    if value >= 10 {
        lemma_decimal_some(value / 10);
    }
}

proof fn lemma_digit(a: nat, b: nat)
    requires
        a < 10,
        b < 10,
        text::digit(a) == text::digit(b),
    ensures
        a == b,
{
    assert(text::digit(a) as int == 48 + a);
    assert(text::digit(b) as int == 48 + b);
}

/// Different numbers are written differently.
pub proof fn law_decimal_is_exact(a: nat, b: nat)
    requires
        text::decimal(a) == text::decimal(b),
    ensures
        a == b,
    decreases a,
{
    let left = text::decimal(a);
    let right = text::decimal(b);
    if a >= 10 && b >= 10 {
        assert(left.drop_last() =~= text::decimal(a / 10));
        assert(right.drop_last() =~= text::decimal(b / 10));
        assert(left.last() == text::digit(a % 10));
        assert(right.last() == text::digit(b % 10));
        lemma_digit(a % 10, b % 10);
        law_decimal_is_exact(a / 10, b / 10);
    } else if a >= 10 {
        lemma_decimal_some(a / 10);
        assert(left.len() > 1);
        assert(right.len() == 1);
    } else if b >= 10 {
        lemma_decimal_some(b / 10);
        assert(left.len() == 1);
        assert(right.len() > 1);
    } else {
        assert(left[0] == text::digit(a));
        assert(right[0] == text::digit(b));
        lemma_digit(a, b);
    }
}

/// Different short names stand for different kinds or different numbers.
pub proof fn law_names_are_exact(a: HandleKind, m: nat, b: HandleKind, n: nat)
    requires
        registry::name_text(a, m) == registry::name_text(b, n),
    ensures
        a == b,
        m == n,
{
    reveal_strlit("window");
    reveal_strlit("workspace");
    reveal_strlit("pane");
    reveal_strlit("surface");
    reveal_strlit(":");
    let left = registry::name_text(a, m);
    let right = registry::name_text(b, n);
    assert(left[0] == a.word()[0]);
    assert(left[1] == a.word()[1]);
    assert(right[0] == b.word()[0]);
    assert(right[1] == b.word()[1]);
    assert(a == b);
    let start = a.word().len() + 1;
    assert(left.skip(start as int) =~= text::decimal(m));
    assert(right.skip(start as int) =~= text::decimal(n));
    law_decimal_is_exact(m, n);
}

// ---------------------------------------------------------------------------
// Names stay
// ---------------------------------------------------------------------------

/// Whether a list begins with another.
pub open spec fn extends(longer: Seq<u128>, list: Seq<u128>) -> bool {
    longer.len() >= list.len() && forall|k: int|
        0 <= k < list.len() ==> longer[k] == #[trigger] list[k]
}

impl RegistryView {
    /// Whether each object has the name here that it has there.
    #[verifier::opaque]
    pub open spec fn keeps(self, other: RegistryView) -> bool {
        &&& extends(self.windows, other.windows)
        &&& extends(self.workspaces, other.workspaces)
        &&& extends(self.panes, other.panes)
        &&& extends(self.surfaces, other.surfaces)
    }
}

proof fn lemma_noted(list: Seq<u128>, id: u128)
    ensures
        extends(registry::noted(list, id), list),
        registry::noted(list, id).contains(id),
{
    if !list.contains(id) {
        assert(list.push(id)[list.len() as int] == id);
    }
}

proof fn lemma_noted_windows(list: Seq<u128>, windows: Seq<WindowState>, count: int)
    ensures
        extends(registry::noted_windows(list, windows, count), list),
    decreases count,
{
    if count > 0 {
        lemma_noted_windows(list, windows, count - 1);
        lemma_noted(registry::noted_windows(list, windows, count - 1), windows[count - 1].id);
    }
}

proof fn lemma_noted_workspaces(list: Seq<u128>, workspaces: Seq<WorkspaceView>, count: int)
    ensures
        extends(registry::noted_workspaces(list, workspaces, count), list),
    decreases count,
{
    if count > 0 {
        lemma_noted_workspaces(list, workspaces, count - 1);
        lemma_noted(
            registry::noted_workspaces(list, workspaces, count - 1),
            workspaces[count - 1].id,
        );
    }
}

proof fn lemma_noted_panes(list: Seq<u128>, panes: Seq<PaneView>, count: int)
    ensures
        extends(registry::noted_panes(list, panes, count), list),
    decreases count,
{
    if count > 0 {
        lemma_noted_panes(list, panes, count - 1);
        lemma_noted(registry::noted_panes(list, panes, count - 1), panes[count - 1].id);
    }
}

proof fn lemma_noted_all_panes(list: Seq<u128>, workspaces: Seq<WorkspaceView>, count: int)
    ensures
        extends(registry::noted_all_panes(list, workspaces, count), list),
    decreases count,
{
    if count > 0 {
        lemma_noted_all_panes(list, workspaces, count - 1);
        lemma_noted_panes(
            registry::noted_all_panes(list, workspaces, count - 1),
            workspaces[count - 1].panes,
            workspaces[count - 1].panes.len() as int,
        );
    }
}

proof fn lemma_noted_surfaces(list: Seq<u128>, surfaces: Seq<SurfaceView>, count: int)
    ensures
        extends(registry::noted_surfaces(list, surfaces, count), list),
    decreases count,
{
    if count > 0 {
        lemma_noted_surfaces(list, surfaces, count - 1);
        lemma_noted(
            registry::noted_surfaces(list, surfaces, count - 1),
            surfaces[count - 1].id,
        );
    }
}

proof fn lemma_noted_pane_surfaces(list: Seq<u128>, panes: Seq<PaneView>, count: int)
    ensures
        extends(registry::noted_pane_surfaces(list, panes, count), list),
    decreases count,
{
    if count > 0 {
        lemma_noted_pane_surfaces(list, panes, count - 1);
        lemma_noted_surfaces(
            registry::noted_pane_surfaces(list, panes, count - 1),
            panes[count - 1].surfaces,
            panes[count - 1].surfaces.len() as int,
        );
    }
}

proof fn lemma_noted_all_surfaces(list: Seq<u128>, workspaces: Seq<WorkspaceView>, count: int)
    ensures
        extends(registry::noted_all_surfaces(list, workspaces, count), list),
    decreases count,
{
    if count > 0 {
        lemma_noted_all_surfaces(list, workspaces, count - 1);
        lemma_noted_pane_surfaces(
            registry::noted_all_surfaces(list, workspaces, count - 1),
            workspaces[count - 1].panes,
            workspaces[count - 1].panes.len() as int,
        );
    }
}

/// Giving names to the objects of a state changes no name that was given out.
pub broadcast proof fn law_refresh_keeps_names(names: RegistryView, state: StateView)
    ensures
        (#[trigger] names.refreshed(state)).keeps(names),
{
    reveal(RegistryView::keeps);
    let count = state.workspaces.len() as int;
    lemma_noted_windows(names.windows, state.windows, state.windows.len() as int);
    lemma_noted_workspaces(names.workspaces, state.workspaces, count);
    lemma_noted_all_panes(names.panes, state.workspaces, count);
    lemma_noted_all_surfaces(names.surfaces, state.workspaces, count);
}

/// Giving a name to an object changes no name that was given out.
pub broadcast proof fn law_new_name_keeps_names(names: RegistryView, kind: HandleKind, id: u128)
    ensures
        (#[trigger] names.ensured(kind, id)).keeps(names),
        names.ensured(kind, id).list(kind).contains(id),
{
    reveal(RegistryView::keeps);
    lemma_noted(names.list(kind), id);
}

/// What changes no name keeps the names.
pub broadcast proof fn lemma_keeps_itself(names: RegistryView)
    ensures
        #[trigger] names.keeps(names),
{
    reveal(RegistryView::keeps);
}

/// What keeps the names of something that keeps names keeps those names.
pub broadcast proof fn lemma_keeps_twice(
    first: RegistryView,
    second: RegistryView,
    third: RegistryView,
)
    requires
        #[trigger] second.keeps(first),
        #[trigger] third.keeps(second),
    ensures
        third.keeps(first),
{
    reveal(RegistryView::keeps);
    lemma_extends_twice(first.windows, second.windows, third.windows);
    lemma_extends_twice(first.workspaces, second.workspaces, third.workspaces);
    lemma_extends_twice(first.panes, second.panes, third.panes);
    lemma_extends_twice(first.surfaces, second.surfaces, third.surfaces);
}

proof fn lemma_extends_twice(first: Seq<u128>, second: Seq<u128>, third: Seq<u128>)
    requires
        extends(second, first),
        extends(third, second),
    ensures
        extends(third, first),
{
    assert forall|k: int| 0 <= k < first.len() implies third[k] == #[trigger] first[k] by {
        assert(second[k] == first[k]);
        assert(third[k] == second[k]);
    }
}

proof fn lemma_place_kept(list: Seq<u128>, longer: Seq<u128>, id: u128, from: int)
    requires
        extends(longer, list),
        0 <= from,
        exists|k: int| from <= k < list.len() && list[k] == id,
    ensures
        state_focus::place_from(longer, id, from) == state_focus::place_from(list, id, from),
    decreases list.len() - from,
{
    assert(longer[from] == list[from]);
    if list[from] != id {
        let k = choose|k: int| from <= k < list.len() && list[k] == id;
        assert(from + 1 <= k);
        lemma_place_kept(list, longer, id, from + 1);
    }
}

/// An object that has a name keeps it, whatever other objects get names.
pub proof fn law_names_stay(before: RegistryView, after: RegistryView, kind: HandleKind, id: u128)
    requires
        after.keeps(before),
        before.list(kind).contains(id),
    ensures
        after.list(kind).contains(id),
        after.name(kind, id) == before.name(kind, id),
{
    reveal(RegistryView::keeps);
    let list = before.list(kind);
    let longer = after.list(kind);
    let k = choose|k: int| 0 <= k < list.len() && list[k] == id;
    assert(longer[k] == list[k]);
    assert(longer.contains(id));
    lemma_place_kept(list, longer, id, 0);
}

pub broadcast group group_names_stay {
    law_refresh_keeps_names,
    law_new_name_keeps_names,
    lemma_keeps_itself,
    lemma_keeps_twice,
}

// ---------------------------------------------------------------------------
// Names lead back
// ---------------------------------------------------------------------------

proof fn lemma_named_at(
    kind: HandleKind,
    list: Seq<u128>,
    other: HandleKind,
    number: nat,
    from: int,
)
    requires
        0 <= from,
    ensures
        registry::named_from(kind, list, registry::name_text(other, number), from) == (if kind
            == other && from < number && number <= list.len() {
            Some((kind, list[number - 1]))
        } else {
            None
        }),
    decreases list.len() - from,
{
    let raw = registry::name_text(other, number);
    if from < list.len() {
        if registry::name_text(kind, (from + 1) as nat) == raw {
            law_names_are_exact(kind, (from + 1) as nat, other, number);
        } else {
            lemma_named_at(kind, list, other, number, from + 1);
        }
    }
}

/// The name of an object leads back to the object.
pub proof fn law_name_leads_back(names: RegistryView, kind: HandleKind, id: u128)
    requires
        names.list(kind).contains(id),
    ensures
        names.named(names.name(kind, id)) == Some((kind, id)),
        names.resolved(names.name(kind, id)) == Some((kind, id)),
{
    let list = names.list(kind);
    let k = choose|k: int| 0 <= k < list.len() && list[k] == id;
    assert(list[k] == id);
    registry::lemma_place_found(list, id, 0);
    let number = names.number(kind, id);
    lemma_named_at(HandleKind::Window, names.windows, kind, number, 0);
    lemma_named_at(HandleKind::Workspace, names.workspaces, kind, number, 0);
    lemma_named_at(HandleKind::Pane, names.panes, kind, number, 0);
    lemma_named_at(HandleKind::Surface, names.surfaces, kind, number, 0);
}

/// Two objects of a kind have different names.
pub proof fn law_names_tell_apart(names: RegistryView, kind: HandleKind, a: u128, b: u128)
    requires
        names.list(kind).contains(a),
        names.list(kind).contains(b),
        names.name(kind, a) == names.name(kind, b),
    ensures
        a == b,
{
    law_name_leads_back(names, kind, a);
    law_name_leads_back(names, kind, b);
}

/// The name of a surface as a tab.
pub open spec fn tab_text(number: nat) -> Seq<char> {
    "tab:"@ + text::decimal(number)
}

proof fn lemma_tab_is_no_name(kind: HandleKind, list: Seq<u128>, number: nat, from: int)
    requires
        0 <= from,
    ensures
        registry::named_from(kind, list, tab_text(number), from) is None,
    decreases list.len() - from,
{
    if from < list.len() {
        reveal_strlit("window");
        reveal_strlit("workspace");
        reveal_strlit("pane");
        reveal_strlit("surface");
        reveal_strlit("tab:");
        let name = registry::name_text(kind, (from + 1) as nat);
        assert(name[0] == kind.word()[0]);
        assert(tab_text(number)[0] == 't');
        lemma_tab_is_no_name(kind, list, number, from + 1);
    }
}

proof fn lemma_digits_stay_low(number: nat)
    ensures
        text::lowered(text::decimal(number)) == text::decimal(number),
    decreases number,
{
    let digits = text::decimal(number);
    if number >= 10 {
        lemma_digits_stay_low(number / 10);
        assert(digits == text::decimal(number / 10).push(text::digit(number % 10)));
        assert forall|k: int| 0 <= k < digits.len() implies text::lower(#[trigger] digits[k])
            == digits[k] by {
            if k < digits.len() - 1 {
                assert(text::lowered(text::decimal(number / 10))[k] == text::decimal(
                    number / 10,
                )[k]);
            }
        }
    }
    assert(text::lowered(digits) =~= digits);
}

proof fn lemma_tab_leads_back(names: RegistryView, id: u128)
    requires
        names.surfaces.contains(id),
    ensures
        names.resolved(tab_text(names.number(HandleKind::Surface, id))) == Some(
            (HandleKind::Surface, id),
        ),
{
    let number = names.number(HandleKind::Surface, id);
    let tab = tab_text(number);
    lemma_tab_is_no_name(HandleKind::Window, names.windows, number, 0);
    lemma_tab_is_no_name(HandleKind::Workspace, names.workspaces, number, 0);
    lemma_tab_is_no_name(HandleKind::Pane, names.panes, number, 0);
    lemma_tab_is_no_name(HandleKind::Surface, names.surfaces, number, 0);
    lemma_tab_is_tidy(number);
    lemma_digits_stay_low(number);
    reveal_strlit("tab:");
    reveal_strlit("surface:");
    reveal_strlit("surface");
    reveal_strlit(":");
    assert(text::lowered(tab) =~= tab) by {
        assert forall|k: int| 0 <= k < tab.len() implies text::lower(#[trigger] tab[k]) == tab[k] by {
            if k >= 4 {
                assert(tab[k] == text::decimal(number)[k - 4]);
                assert(text::lowered(text::decimal(number))[k - 4] == text::decimal(number)[k - 4]);
            }
        }
    }
    assert(tab.take(4) =~= "tab:"@);
    assert("surface:"@ + tab.skip(4) =~= registry::name_text(HandleKind::Surface, number));
    law_name_leads_back(names, HandleKind::Surface, id);
}

proof fn lemma_tab_is_tidy(number: nat)
    ensures
        text::trimmed(tab_text(number)) == tab_text(number),
        tab_text(number).len() > 4,
{
    reveal_strlit("tab:");
    lemma_decimal_some(number);
    lemma_decimal_last(number);
    let tab = tab_text(number);
    assert(tab[0] == 't');
    assert(tab.last() == text::decimal(number).last());
}

/// A short name that was given out leads every later request back to its object, whatever names
/// were given out since, and leads to nothing of another kind; so does the name of a surface as a
/// tab. This is so as long as there are fewer objects than a machine word can count.
pub proof fn law_given_name_resolves(
    names: RegistryView,
    later: ModelView,
    kind: HandleKind,
    id: u128,
    other: HandleKind,
)
    requires
        later.handles.keeps(names),
        names.list(kind).contains(id),
        names.number(kind, id) <= u64::MAX,
    ensures
        later.name(kind, id) == names.name(kind, id),
        later.resolve(other, names.name(kind, id)).1 == (if other == kind {
            Some(id)
        } else {
            None
        }),
        kind == HandleKind::Surface ==> later.tab_name(id) == tab_text(names.number(kind, id))
            && later.resolve(other, tab_text(names.number(kind, id))).1 == (if other == kind {
            Some(id)
        } else {
            None
        }),
{
    let number = names.number(kind, id);
    let next = later.handles.refreshed(later.state);
    lemma_name_is_no_id(kind, number);
    law_names_stay(names, later.handles, kind, id);
    law_refresh_keeps_names(later.handles, later.state);
    law_names_stay(later.handles, next, kind, id);
    lemma_number_stays(names, later.handles, kind, id);
    lemma_number_stays(later.handles, next, kind, id);
    law_name_leads_back(next, kind, id);
    lemma_name_is_tidy(kind, number);
    if kind == HandleKind::Surface {
        lemma_tab_leads_back(next, id);
        lemma_tab_is_tidy(number);
        lemma_tab_is_no_id(number);
    }
}

proof fn lemma_number_stays(before: RegistryView, after: RegistryView, kind: HandleKind, id: u128)
    requires
        after.keeps(before),
        before.list(kind).contains(id),
    ensures
        after.number(kind, id) == before.number(kind, id),
{
    law_names_stay(before, after, kind, id);
    law_names_are_exact(kind, after.number(kind, id), kind, before.number(kind, id));
}

/// The short name that an answer gives for an object leads a later request back to the object, and
/// to nothing of another kind, as long as there are fewer objects than a machine word can count.
pub proof fn law_ref_resolves(model: ModelView, kind: HandleKind, id: u128, other: HandleKind)
    requires
        model.handles.refreshed(model.state).number(kind, id) <= u64::MAX,
    ensures
        model.naming(kind, id).resolve(other, model.name(kind, id)).1 == (if other == kind {
            Some(id)
        } else {
            None
        }),
{
    let fresh = model.handles.refreshed(model.state);
    let named = model.naming(kind, id);
    law_new_name_keeps_names(fresh, kind, id);
    assert(fresh.ensured(kind, id).list(kind) == registry::noted(fresh.list(kind), id));
    assert(registry::noted(fresh.ensured(kind, id).list(kind), id) == registry::noted(
        fresh.list(kind),
        id,
    ));
    assert(named.handles.name(kind, id) == model.name(kind, id));
    assert(named.handles.number(kind, id) == fresh.number(kind, id));
    lemma_keeps_itself(named.handles);
    law_given_name_resolves(named.handles, named, kind, id, other);
}

/// The name that an answer gives for a surface as a tab leads a later request back to the surface,
/// and to nothing of another kind; it has the number of the surface's other name.
pub proof fn law_tab_resolves(model: ModelView, id: u128, other: HandleKind)
    requires
        model.handles.refreshed(model.state).number(HandleKind::Surface, id) <= u64::MAX,
    ensures
        model.name(HandleKind::Surface, id) == registry::name_text(
            HandleKind::Surface,
            model.handles.refreshed(model.state).number(HandleKind::Surface, id),
        ),
        model.tab_name(id) == tab_text(
            model.handles.refreshed(model.state).number(HandleKind::Surface, id),
        ),
        model.naming(HandleKind::Surface, id).resolve(other, model.tab_name(id)).1 == (if other
            == HandleKind::Surface {
            Some(id)
        } else {
            None
        }),
{
    let kind = HandleKind::Surface;
    let fresh = model.handles.refreshed(model.state);
    let named = model.naming(kind, id);
    law_new_name_keeps_names(fresh, kind, id);
    assert(fresh.ensured(kind, id).list(kind) == registry::noted(fresh.list(kind), id));
    assert(registry::noted(fresh.ensured(kind, id).list(kind), id) == registry::noted(
        fresh.list(kind),
        id,
    ));
    assert(named.handles.number(kind, id) == fresh.number(kind, id));
    lemma_keeps_itself(named.handles);
    law_given_name_resolves(named.handles, named, kind, id, other);
}

proof fn lemma_tab_is_no_id(number: nat)
    requires
        number <= u64::MAX,
    ensures
        ids::parsed_id(tab_text(number)) is None,
{
    reveal(ids::parsed_id);
    reveal_strlit("tab:");
    lemma_short_number(number);
    assert(tab_text(number).len() < 32);
}

proof fn lemma_short_number(number: nat)
    requires
        number <= u64::MAX,
    ensures
        text::decimal(number).len() <= 20,
{
    assert(pow(10, 10) == 10_000_000_000) by {
        reveal_with_fuel(pow, 11);
    }
    lemma_pow_adds(10, 10, 10);
    lemma_decimal_short(number, 20);
}

proof fn lemma_decimal_short(number: nat, size: nat)
    requires
        size > 0,
        number < pow(10, size),
    ensures
        text::decimal(number).len() <= size,
    decreases size,
{
    if number >= 10 {
        if size == 1 {
            lemma_pow1(10);
        }
        lemma_pow_adds(10, (size - 1) as nat, 1);
        lemma_pow1(10);
        let less = pow(10, (size - 1) as nat);
        assert(less * 10 == pow(10, size));
        assert(number / 10 < less);
        lemma_decimal_short(number / 10, (size - 1) as nat);
    }
}

proof fn lemma_name_is_no_id(kind: HandleKind, number: nat)
    requires
        number <= u64::MAX,
    ensures
        ids::parsed_id(registry::name_text(kind, number)) is None,
{
    reveal(ids::parsed_id);
    reveal_strlit("window");
    reveal_strlit("workspace");
    reveal_strlit("pane");
    reveal_strlit("surface");
    reveal_strlit(":");
    lemma_short_number(number);
    assert(registry::name_text(kind, number).len() < 32);
}

proof fn lemma_name_is_tidy(kind: HandleKind, number: nat)
    ensures
        text::trimmed(registry::name_text(kind, number)) == registry::name_text(kind, number),
        registry::name_text(kind, number).len() > 0,
{
    reveal_strlit("window");
    reveal_strlit("workspace");
    reveal_strlit("pane");
    reveal_strlit("surface");
    reveal_strlit(":");
    let name = registry::name_text(kind, number);
    lemma_decimal_some(number);
    lemma_decimal_last(number);
    assert(name[0] == kind.word()[0]);
    assert(name.last() == text::decimal(number).last());
}

proof fn lemma_decimal_last(number: nat)
    ensures
        text::decimal(number).len() > 0,
        text::decimal(number).last() == text::digit(number % 10),
    decreases number,
{
    if number >= 10 {
        lemma_decimal_some(number / 10);
    }
}

// ---------------------------------------------------------------------------
// Identifiers lead back
// ---------------------------------------------------------------------------

proof fn lemma_written_digit(value: int)
    requires
        0 <= value < 16,
    ensures
        ids::hex_value(ids::hex_digit(value)) == Some(value),
{
}

proof fn lemma_digits_read(id: u128, text: Seq<char>, count: int)
    requires
        0 <= count <= 32,
        text.len() == 32,
        forall|at: int| 0 <= at < 32 ==> #[trigger] text[at] == ids::id_digit(id, at),
    ensures
        ids::hex_number(text, count) == id as int / pow(16, (32 - count) as nat),
    decreases count,
{
    let power = pow(16, (32 - count) as nat);
    lemma_pow_positive(16, (32 - count) as nat);
    if count > 0 {
        lemma_digits_read(id, text, count - 1);
        lemma_pow_adds(16, (32 - count) as nat, 1);
        lemma_pow1(16);
        assert(pow(16, (33 - count) as nat) == power * 16);
        let rest = id as int / power;
        lemma_div_denominator(id as int, power, 16);
        assert(id as int / pow(16, (33 - count) as nat) == rest / 16);
        assert(text[count - 1] == ids::hex_digit(rest % 16));
        lemma_written_digit(rest % 16);
        assert(16 * (rest / 16) + rest % 16 == rest);
    } else {
        assert(pow(16, 8) == 4_294_967_296) by {
            reveal_with_fuel(pow, 9);
        }
        lemma_pow_adds(16, 8, 8);
        assert(pow(16, 16) == 4_294_967_296int * 4_294_967_296int);
        lemma_pow_adds(16, 16, 16);
        assert(pow(16, 32) == 18_446_744_073_709_551_616int * 18_446_744_073_709_551_616int);
        assert(power == 340_282_366_920_938_463_463_374_607_431_768_211_456);
        lemma_basic_div(id as int, power);
    }
}

/// The written form of an identifier, with hyphens or without, is read as the identifier.
pub proof fn law_id_is_read_back(id: u128)
    ensures
        ids::parsed_id(ids::id_text(id)) == Some(id),
        ids::parsed_id(ids::plain_id_text(id)) == Some(id),
{
    reveal(ids::parsed_id);
    let plain = ids::plain_id_text(id);
    let text = ids::id_text(id);
    lemma_digits_read(id, plain, 32);
    lemma_pow0(16);
    assert forall|at: int| 0 <= at < 32 implies ids::hex_value(#[trigger] plain[at]) is Some by {
        lemma_written_digit((id as int / pow(16, (31 - at) as nat)) % 16);
    }
    assert(ids::plain_id(plain) == Some(id));
    assert(text.subrange(0, 8) + text.subrange(9, 13) + text.subrange(14, 18) + text.subrange(
        19,
        23,
    ) + text.subrange(24, 36) =~= plain);
}

/// There is no white space around the written form of an identifier.
pub proof fn lemma_id_is_trimmed(id: u128)
    ensures
        text::trimmed(ids::id_text(id)) == ids::id_text(id),
{
    let text = ids::id_text(id);
    lemma_written_digit((id as int / pow(16, 31)) % 16);
    lemma_written_digit((id as int / pow(16, 0)) % 16);
    assert(text::trimmed(text) =~= text);
}

/// The identifier of an object, as an answer gives it, leads a later request back to the object.
pub proof fn law_id_resolves(model: ModelView, kind: HandleKind, id: u128)
    requires
        model.contains(kind, id),
    ensures
        model.resolve(kind, ids::id_text(id)) == (model, Some(id)),
{
    law_id_is_read_back(id);
    let text = ids::id_text(id);
    lemma_written_digit((id as int / pow(16, 31)) % 16);
    lemma_written_digit((id as int / pow(16, 0)) % 16);
    assert(text::trimmed(text) =~= text);
}

// ---------------------------------------------------------------------------
// What a request may change
// ---------------------------------------------------------------------------

impl ModelView {
    /// Whether the state is that of another model, and so are the names that were given out there.
    #[verifier::opaque]
    pub open spec fn only_names(self, before: ModelView) -> bool {
        self.state == before.state && self.handles.keeps(before.handles)
    }

    /// Whether the state is sound if that of another model was, and the names that were given out
    /// there stay.
    #[verifier::opaque]
    pub open spec fn holds_together(self, before: ModelView, drawn: Drawn) -> bool {
        &&& before.state.sound() && before.state.new_to(drawn) ==> self.state.sound()
        &&& self.handles.keeps(before.handles)
    }
}

/// What it means to change nothing but names.
pub broadcast proof fn lemma_only_names(after: ModelView, before: ModelView)
    ensures
        #[trigger] after.only_names(before) == (after.state == before.state
            && after.handles.keeps(before.handles)),
{
    reveal(ModelView::only_names);
}

/// What it means to hold together.
pub broadcast proof fn lemma_holds_together(after: ModelView, before: ModelView, drawn: Drawn)
    ensures
        #[trigger] after.holds_together(before, drawn) == ((before.state.sound()
            && before.state.new_to(drawn) ==> after.state.sound()) && after.handles.keeps(
            before.handles,
        )),
{
    reveal(ModelView::holds_together);
}

pub broadcast group group_requests {
    lemma_only_names,
    lemma_holds_together,
}

} // verus!
