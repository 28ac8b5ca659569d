//! Properties of the library that span its functions.
use vstd::prelude::*;
use crate::app::{context_page_toggled, AppView, ContextPage, dialog_handled, DialogAction, DialogPage, NavView, menu_handled};
use crate::actions::MenuAction;
use crate::content::{
    edit_state_of, listed, shown_in_list, shown_keys, slot_order, sort_view, sort_views, task_created, tasks_loaded,
    content_ok, ContentView, holds_loaded,
};
use crate::edit::EditState;
use crate::listing::{goes_first, is_permutation, precedes, stably_sorted, lemma_precedes};
use crate::model::{List, Status};
use crate::text::{lemma_text_lt_skip, lowercase, text_has, text_lt};
use crate::listing::{SortItemView, SortType};
use crate::app::{dialog_completed, escaped, handles, list_renamed, nav_selected, target_list, tasks_handled, Command};
use crate::content::{
    acts_on, children_keys, completed_count, details_opened, expand_toggled, has_task, hide_completed_asked, hide_completed_saved,
    sub_task_asked, sub_task_created, task_add_asked, task_completed, task_of, title_updated, OutputView, StoreRequestView,
};
use crate::slots::{
    key_index, key_version, lemma_key_parts, lemma_make_key, make_key, older_version, replace_in_slot, secondary_insert, slot_key,
};

verus! {

/// Every key that `shown_keys` keeps comes from `s`, at increasing
/// positions, and its task is listed.
proof fn lemma_shown_keys(v: ContentView, list: List, s: Seq<u64>) -> (pos: Seq<int>)
    ensures
        pos.len() == shown_keys(v, list, s).len(),
        forall|i: int| 0 <= i < pos.len() ==> 0 <= #[trigger] pos[i] < s.len() && s[pos[i]] == shown_keys(v, list, s)[i],
        forall|i: int, j: int| 0 <= i < j < pos.len() ==> #[trigger] pos[i] < #[trigger] pos[j],
        forall|i: int|
            0 <= i < shown_keys(v, list, s).len() ==> shown_in_list(v, list, v.tasks[#[trigger] shown_keys(v, list, s)[i]]),
    decreases s.len(),
{
    if s.len() == 0 {
        Seq::empty()
    } else {
        let p = lemma_shown_keys(v, list, s.drop_last());
        if shown_in_list(v, list, v.tasks[s.last()]) {
            let q = p.push(s.len() - 1);
            assert forall|i: int| 0 <= i < q.len() implies 0 <= #[trigger] q[i] < s.len() && s[q[i]] == shown_keys(
                v,
                list,
                s,
            )[i] by {
                if i < p.len() {
                    assert(s.drop_last()[p[i]] == s[p[i]]);
                }
            }
            q
        } else {
            assert forall|i: int| 0 <= i < p.len() implies 0 <= #[trigger] p[i] < s.len() && s[p[i]] == shown_keys(
                v,
                list,
                s,
            )[i] by {
                assert(s.drop_last()[p[i]] == s[p[i]]);
            }
            p
        }
    }
}

/// The list shows only tasks of the pane, each at most once, only
/// top-level tasks ("only show top-level tasks"), only tasks that match a
/// shown search query, and no completed task while completed tasks are
/// hidden; and it shows them in the sort order.
pub proof fn law_listed_tasks(v: ContentView, list: List, r: Seq<u64>)
    requires
        listed(v, list, r),
    ensures
        forall|i: int| 0 <= i < r.len() ==> v.tasks.dom().contains(#[trigger] r[i]),
        forall|i: int, j: int| 0 <= i < j < r.len() ==> #[trigger] r[i] != #[trigger] r[j],
        forall|i: int| 0 <= i < r.len() ==> shown_in_list(v, list, v.tasks[#[trigger] r[i]]),
        forall|i: int| 0 <= i < r.len() ==> (#[trigger] v.tasks[r[i]]).parent_id is None,
        forall|i: int|
            0 <= i < r.len() && v.search_bar_visible && v.search_query.len() > 0 ==> text_has(
                lowercase((#[trigger] v.tasks[r[i]]).title),
                lowercase(v.search_query),
            ),
        forall|i: int|
            0 <= i < r.len() && (list.hide_completed || v.config.hide_completed) ==> (#[trigger] v.tasks[r[i]]).status
                != Status::Completed,
        forall|i: int, j: int|
            0 <= i < j < r.len() ==> !precedes(v.sort_type, sort_view(v.tasks[#[trigger] r[j]]), sort_view(v.tasks[#[trigger] r[i]])),
{
    let (ks, p) = choose|ks: Seq<u64>, p: Seq<usize>|
        #![trigger slot_order(v.tasks, ks), stably_sorted(v.sort_type, sort_views(v.tasks, ks), p)]
        slot_order(v.tasks, ks) && stably_sorted(v.sort_type, sort_views(v.tasks, ks), p) && r == shown_keys(
            v,
            list,
            p.map_values(|i: usize| ks[i as int]),
        );
    let s = p.map_values(|i: usize| ks[i as int]);
    let sv = sort_views(v.tasks, ks);
    let pos = lemma_shown_keys(v, list, s);
    assert forall|i: int| 0 <= i < r.len() implies v.tasks.dom().contains(#[trigger] r[i]) by {
        assert(s[pos[i]] == ks[p[pos[i]] as int]);
    }
    assert forall|i: int, j: int| 0 <= i < j < r.len() implies #[trigger] r[i] != #[trigger] r[j] by {
        let a = p[pos[i]] as int;
        let b = p[pos[j]] as int;
        assert(a != b);
        if r[i] == r[j] {
            assert(ks[a] == ks[b]);
            if a < b {
                assert(crate::slots::key_index(ks[a]) < crate::slots::key_index(ks[b]));
            } else {
                assert(crate::slots::key_index(ks[b]) < crate::slots::key_index(ks[a]));
            }
        }
    }
    assert forall|i: int| 0 <= i < r.len() implies (#[trigger] v.tasks[r[i]]).parent_id is None by {
        assert(shown_in_list(v, list, v.tasks[r[i]]));
    }
    assert forall|i: int|
        0 <= i < r.len() && v.search_bar_visible && v.search_query.len() > 0 implies text_has(
            lowercase((#[trigger] v.tasks[r[i]]).title),
            lowercase(v.search_query),
        ) by {
        assert(shown_in_list(v, list, v.tasks[r[i]]));
    }
    assert forall|i: int|
        0 <= i < r.len() && (list.hide_completed || v.config.hide_completed) implies (#[trigger] v.tasks[r[i]]).status
            != Status::Completed by {
        assert(shown_in_list(v, list, v.tasks[r[i]]));
    }
    assert forall|i: int, j: int| 0 <= i < j < r.len() implies !precedes(
        v.sort_type,
        sort_view(v.tasks[#[trigger] r[j]]),
        sort_view(v.tasks[#[trigger] r[i]]),
    ) by {
        let a = p[pos[i]] as int;
        let b = p[pos[j]] as int;
        assert(pos[i] < pos[j]);
        assert(goes_first(v.sort_type, sv, a, b));
        assert(sv[a] == sort_view(v.tasks[ks[a]]));
        assert(sv[b] == sort_view(v.tasks[ks[b]]));
        assert(r[i] == ks[a]);
        assert(r[j] == ks[b]);
        lemma_precedes(v.sort_type, sv[a], sv[b], sv[a]);
    }
}

/// A deleted task is no longer listed.
pub proof fn law_deleted_not_listed(o: ContentView, f: ContentView, r: crate::content::ReactionView, k: u64, list: List, shown: Seq<u64>)
    requires
        crate::content::task_deleted(o, f, r, k),
        crate::content::acts_on(o, k),
        listed(f, list, shown),
    ensures
        !shown.contains(slot_key(k)),
{
    law_listed_tasks(f, list, shown);
    if shown.contains(slot_key(k)) {
        let i = choose|i: int| 0 <= i < shown.len() && shown[i] == slot_key(k);
        assert(f.tasks.dom().contains(shown[i]));
    }
}

/// Hiding the search bar clears the query: two toggles from a hidden bar
/// leave it hidden with an empty query.
pub proof fn law_search_toggle_twice(o: ContentView, m: ContentView, f: ContentView, r1: crate::content::ReactionView, r2: crate::content::ReactionView)
    requires
        !o.search_bar_visible,
        crate::content::search_toggled(o, m, r1),
        crate::content::search_toggled(m, f, r2),
    ensures
        !f.search_bar_visible,
        f.search_query.len() == 0,
        f.tasks == o.tasks,
{
}

/// Selecting the list that is already selected loads nothing; selecting
/// another one loads its tasks.
pub proof fn law_reselect_loads_nothing(o: ContentView, f: ContentView, r: crate::content::ReactionView, l: List)
    requires
        crate::content::list_selected(o, f, r, Some(l)),
    ensures
        o.selected_list matches Some(c) && c.id == l.id ==> r.request is None,
        !(o.selected_list matches Some(c) && c.id == l.id) ==> r.request == Some(
            crate::content::StoreRequestView::LoadTasks { list_id: l.id },
        ),
{
}

/// After tasks are loaded, every task is idle and has an input, so every
/// edit-mode report on them can be handled.
pub proof fn law_loaded_tasks_editable(o: ContentView, f: ContentView, r: crate::content::ReactionView, v: Seq<crate::model::TaskView>)
    requires
        tasks_loaded(o, f, r, v),
    ensures
        forall|k: u64| #[trigger] f.tasks.dom().contains(k) ==> f.inputs.dom().contains(k) && f.editing.get(k) == Some(
            EditState::Idle,
        ),
        f.tasks.dom().len() == v.len(),
{
    let ks = choose|ks: Seq<u64>| holds_loaded(o, f, v, ks);
    assert forall|k: u64| #[trigger] f.tasks.dom().contains(k) implies f.inputs.dom().contains(k) && f.editing.get(k)
        == Some(EditState::Idle) by {
        assert(ks.to_set().contains(k));
        let i = choose|i: int| 0 <= i < ks.len() && ks[i] == k;
        assert(f.editing[ks[i]] == EditState::Idle);
    }
    crate::content::lemma_set_len_of_distinct(ks);
}

/// A created task is added: the pane holds one more task, under a key new
/// to it, with the pane's next input handle; the other tasks keep theirs,
/// and the new-task input is empty again.
pub proof fn law_created_task_added(o: ContentView, f: ContentView, r: crate::content::ReactionView, t: crate::model::TaskView)
    requires
        content_ok(o),
        task_created(o, f, r, t),
    ensures
        f.tasks.dom().len() == o.tasks.dom().len() + 1,
        f.add_task_input.len() == 0,
        exists|k: u64|
            #[trigger] f.tasks.dom().contains(k) && !o.tasks.dom().contains(k) && f.tasks[k] == t
                && f.inputs.get(k) == Some(o.next_input),
        forall|k: u64| #[trigger] o.tasks.dom().contains(k) ==> f.tasks[k] == o.tasks[k] && f.inputs.get(k) == o.inputs.get(k),
{
    let k = choose|k: u64| crate::content::fresh_key(o, k) && f == ContentView {
        tasks: o.tasks.insert(k, t),
        versions: o.versions.insert(key_index(k) as u64, key_version(k) as u64),
        inputs: replace_in_slot(o.inputs, k, o.next_input),
        next_input: crate::content::next_handle(o.next_input),
        add_task_input: Seq::empty(),
        ..o
    };
    assert(f.tasks.dom() == o.tasks.dom().insert(k));
    assert(f.tasks.dom().contains(k) && f.inputs.get(k) == Some(o.next_input));
    assert forall|k2: u64| #[trigger] o.tasks.dom().contains(k2) implies f.tasks[k2] == o.tasks[k2] && f.inputs.get(k2)
        == o.inputs.get(k2) by {
        assert(key_index(k2) != key_index(k));
        assert(o.inputs.dom().contains(k2));
    }
}

/// Edit states are kept under keys that lie less than 2^31 - 1 versions
/// behind their slot's version.
pub open spec fn edits_behind(v: ContentView) -> bool {
    forall|e: u64|
        #[trigger] v.editing.dom().contains(e) ==> v.versions.dom().contains(key_index(e) as u64) && (
        v.versions[key_index(e) as u64] - key_version(e)) % 0x1_0000_0000 < 0x7fff_ffff
}

/// A created sub-task is added under a new key, with the pane's next input
/// handle, recorded as entering edit mode, and focus goes to that handle;
/// this holds while the edit states lie behind their slots (`edits_behind`).
pub proof fn law_sub_task_recorded(o: ContentView, f: ContentView, r: crate::content::ReactionView, pk: u64, sub: crate::model::TaskView)
    requires
        content_ok(o),
        edits_behind(o),
        crate::content::acts_on(o, pk),
        crate::content::sub_task_created(o, f, r, pk, sub),
    ensures
        exists|k: u64|
            #[trigger] f.tasks.dom().contains(k) && !o.tasks.dom().contains(k) && f.tasks[k] == sub && f.editing.get(k)
                == Some(EditState::Entering) && f.inputs.get(k) == Some(o.next_input) && r.output == Some(
                crate::content::OutputView::Focus(crate::content::Focus::Input(o.next_input)),
            ),
{
    let p = crate::model::TaskView {
        sub_task_ids: crate::content::task_of(o, pk).sub_task_ids.push(sub.id),
        ..crate::content::task_of(o, pk)
    };
    let k = choose|k: u64|
        crate::content::fresh_key(o, k) && f == ContentView {
            tasks: o.tasks.insert(slot_key(pk), p).insert(k, sub),
            versions: o.versions.insert(key_index(k) as u64, key_version(k) as u64),
            inputs: replace_in_slot(o.inputs, k, o.next_input),
            editing: secondary_insert(o.editing, k, EditState::Entering),
            next_input: crate::content::next_handle(o.next_input),
            ..o
        };
    let i = key_index(k) as u64;
    lemma_make_key(k);
    if exists|e: u64| #[trigger] o.editing.dom().contains(e) && key_index(e) == key_index(slot_key(k)) && e != slot_key(k) {
        let e = choose|e: u64| #[trigger] o.editing.dom().contains(e) && key_index(e) == key_index(slot_key(k)) && e != slot_key(k);
        assert(o.versions.dom().contains(i));
        let sv = o.versions[i];
        if sv % 2 == 1 {
            lemma_key_parts(i as int, sv as int);
            assert(o.tasks.dom().contains(make_key(i as int, sv as int)));
            assert(false);
        }
        assert(key_version(k) == sv + 1);
        let x = sv - key_version(e);
        let d = x % 0x1_0000_0000;
        assert((x + 1) % 0x1_0000_0000 == d + 1) by {
            assert(x == (x / 0x1_0000_0000) * 0x1_0000_0000 + d && 0 <= d < 0x1_0000_0000) by (nonlinear_arith)
                requires
                    d == x % 0x1_0000_0000,
            {
                vstd::arithmetic::div_mod::lemma_fundamental_div_mod(x, 0x1_0000_0000);
            }
            vstd::arithmetic::div_mod::lemma_fundamental_div_mod_converse(x + 1, 0x1_0000_0000, x / 0x1_0000_0000, d + 1);
        }
        assert(!older_version(key_version(k), key_version(e)));
        assert(f.editing == o.editing.remove(e).insert(k, EditState::Entering));
    }
    assert(f.tasks.dom().contains(k));
}

/// Toggling the same context page twice leaves the drawer as it was, and
/// toggling another page always shows the drawer.
pub proof fn law_context_page_toggle(o: AppView, m: AppView, f: AppView, c1: Seq<crate::app::Command>, c2: Seq<crate::app::Command>, page: ContextPage)
    requires
        context_page_toggled(o, m, c1, page),
        context_page_toggled(m, f, c2, page),
    ensures
        f.show_context == (if o.context_page == page { o.show_context } else { false }),
        o.context_page != page ==> m.show_context,
        f.context_page == page,
{
}

/// Dialogs are shown first in, first out: an opened dialog joins the back
/// of the queue, and closing removes the front one.
pub proof fn law_dialog_queue(o: AppView, m: AppView, f: AppView, c1: Seq<crate::app::Command>, c2: Seq<crate::app::Command>, page: DialogPage, nav: NavView)
    requires
        page !is Rename,
        dialog_handled(o, m, c1, DialogAction::Open(page), nav),
        dialog_handled(m, f, c2, DialogAction::Close, nav),
        o.dialog_pages.len() > 0,
    ensures
        m.dialog_pages == o.dialog_pages.push(page),
        f.dialog_pages == o.dialog_pages.drop_first().push(page),
{
    assert(f.dialog_pages =~= o.dialog_pages.drop_first().push(page));
}

/// The hide-completed check box of the View menu flips the setting: the
/// action it carries, once handled, sets the opposite of what it shows.
pub proof fn law_hide_completed_box(o: AppView, f: AppView, cmds: Seq<crate::app::Command>)
    requires
        menu_handled(o, f, cmds, MenuAction::ToggleHideCompleted(!o.config.hide_completed)),
    ensures
        f.config.hide_completed == !o.config.hide_completed,
        crate::menu::view_items(o.config.hide_completed)[2] == crate::menu::MenuItem::CheckBox(
            crate::menu::MenuLabel::HideCompleted,
            o.config.hide_completed,
            MenuAction::ToggleHideCompleted(!o.config.hide_completed),
        ),
{
}


/// Texts are ordered by their first differing character, by code point:
/// after any common prefix, `x` before `y` puts the first text first,
/// whatever follows.
pub proof fn law_text_order_first_difference(p: Seq<char>, x: char, y: char, a: Seq<char>, b: Seq<char>)
    requires
        x != y,
    ensures
        text_lt(p + seq![x] + a, p + seq![y] + b) == ((x as int) < (y as int)),
{
    let t = p + seq![x] + a;
    let u = p + seq![y] + b;
    let n = p.len() as int;
    assert(t.subrange(0, n) =~= p);
    assert(u.subrange(0, n) =~= p);
    lemma_text_lt_skip(t, u, n);
    let rt = t.subrange(n, t.len() as int);
    let ru = u.subrange(n, u.len() as int);
    assert(rt[0] == x);
    assert(ru[0] == y);
}

/// A proper prefix comes first: a text comes before any longer text that
/// starts with it, and never after it.
pub proof fn law_text_order_prefix_first(p: Seq<char>, x: char, a: Seq<char>)
    ensures
        text_lt(p, p + seq![x] + a),
        !text_lt(p + seq![x] + a, p),
{
    let u = p + seq![x] + a;
    let n = p.len() as int;
    assert(p.subrange(0, n) =~= p);
    assert(u.subrange(0, n) =~= p);
    lemma_text_lt_skip(p, u, n);
    lemma_text_lt_skip(u, p, n);
    assert(p.subrange(n, n) =~= Seq::<char>::empty());
    assert(u.subrange(n, u.len() as int).len() > 0);
}

/// Under the name orders, names are compared by their first differing
/// character: ascending puts the smaller one first, descending the larger.
pub proof fn law_name_orders(a: SortItemView, b: SortItemView, p: Seq<char>, x: char, y: char, ra: Seq<char>, rb: Seq<char>)
    requires
        a.name == p + seq![x] + ra,
        b.name == p + seq![y] + rb,
        (x as int) < (y as int),
    ensures
        precedes(SortType::NameAsc, a, b),
        !precedes(SortType::NameAsc, b, a),
        precedes(SortType::NameDesc, b, a),
        !precedes(SortType::NameDesc, a, b),
{
    law_text_order_first_difference(p, x, y, ra, rb);
    law_text_order_first_difference(p, y, x, rb, ra);
}

/// Under the date orders, an earlier creation time comes first when
/// ascending and last when descending; equal times leave the order to the
/// stable sort.
pub proof fn law_date_orders(a: SortItemView, b: SortItemView)
    ensures
        a.date.secs < b.date.secs ==> precedes(SortType::DateAsc, a, b) && !precedes(SortType::DateAsc, b, a)
            && precedes(SortType::DateDesc, b, a) && !precedes(SortType::DateDesc, a, b),
        a.date.secs == b.date.secs && a.date.nanos < b.date.nanos ==> precedes(SortType::DateAsc, a, b)
            && precedes(SortType::DateDesc, b, a),
        a.date == b.date ==> !precedes(SortType::DateAsc, a, b) && !precedes(SortType::DateDesc, a, b),
{
}

/// A text contains every text that occurs in it at any position.
pub proof fn law_text_has_infix(x: Seq<char>, p: Seq<char>, y: Seq<char>)
    ensures
        text_has(x + p + y, p),
{
    let t = x + p + y;
    let i = x.len() as int;
    assert(t.subrange(i, i + p.len()) =~= p);
}

/// A text contains only what occurs in it: a contained text splits it
/// into what comes before, the text itself, and what comes after.
pub proof fn law_text_has_split(t: Seq<char>, p: Seq<char>)
    requires
        text_has(t, p),
    ensures
        exists|x: Seq<char>, y: Seq<char>| t == x + p + y,
{
    let i = choose|i: int| 0 <= i && i + p.len() <= t.len() && #[trigger] t.subrange(i, i + p.len()) == p;
    let x = t.subrange(0, i);
    let y = t.subrange(i + p.len(), t.len() as int);
    assert(t =~= x + p + y);
}

/// The completed count of two runs of tasks is the sum of theirs, and one
/// task counts 1 when it is completed and 0 otherwise.
pub proof fn law_completed_count_sum(v: ContentView, s1: Seq<u64>, s2: Seq<u64>, k: u64)
    ensures
        completed_count(v, s1 + s2) == completed_count(v, s1) + completed_count(v, s2),
        completed_count(v, seq![k]) == if v.tasks[k].status == Status::Completed { 1int } else { 0int },
    decreases s2.len(),
{
    assert(seq![k].drop_last() =~= Seq::<u64>::empty());
    assert(seq![k].last() == k);
    assert(completed_count(v, Seq::<u64>::empty()) == 0);
    assert(completed_count(v, seq![k]) == completed_count(v, seq![k].drop_last()) + if v.tasks[seq![k].last()].status
        == Status::Completed {
        1nat
    } else {
        0nat
    });
    if s2.len() == 0 {
        assert(s1 + s2 =~= s1);
    } else {
        law_completed_count_sum(v, s1, s2.drop_last(), k);
        assert((s1 + s2).drop_last() =~= s1 + s2.drop_last());
        assert((s1 + s2).last() == s2.last());
    }
}

/// The completed count never exceeds the number of tasks counted; it is
/// all of them when every one is completed, and none when none is.
pub proof fn law_completed_count_bounds(v: ContentView, s: Seq<u64>)
    ensures
        completed_count(v, s) <= s.len(),
        (forall|i: int| 0 <= i < s.len() ==> v.tasks[#[trigger] s[i]].status == Status::Completed) ==> completed_count(v, s)
            == s.len(),
        (forall|i: int| 0 <= i < s.len() ==> v.tasks[#[trigger] s[i]].status != Status::Completed) ==> completed_count(v, s)
            == 0,
    decreases s.len(),
{
    if s.len() > 0 {
        let d = s.drop_last();
        law_completed_count_bounds(v, d);
        assert forall|i: int| 0 <= i < d.len() implies #[trigger] d[i] == s[i] by {}
        if forall|i: int| 0 <= i < s.len() ==> v.tasks[#[trigger] s[i]].status == Status::Completed {
            assert(v.tasks[s[s.len() - 1]].status == Status::Completed);
            assert forall|i: int| 0 <= i < d.len() implies v.tasks[#[trigger] d[i]].status == Status::Completed by {
                assert(v.tasks[s[i]].status == Status::Completed);
            }
        }
        if forall|i: int| 0 <= i < s.len() ==> v.tasks[#[trigger] s[i]].status != Status::Completed {
            assert(v.tasks[s[s.len() - 1]].status != Status::Completed);
            assert forall|i: int| 0 <= i < d.len() implies v.tasks[#[trigger] d[i]].status != Status::Completed by {
                assert(v.tasks[s[i]].status != Status::Completed);
            }
        }
    }
}

/// The sub-tasks of a task, among the keys `s`, are exactly the keys of `s`
/// whose task has it as parent.
pub proof fn law_children_keys(v: ContentView, id: u128, s: Seq<u64>, k: u64)
    ensures
        children_keys(v, id, s).contains(k) <==> s.contains(k) && v.tasks[k].parent_id == Some(id),
    decreases s.len(),
{
    if s.len() > 0 {
        let d = s.drop_last();
        law_children_keys(v, id, d, k);
        let rest = children_keys(v, id, d);
        if s.contains(k) && k != s.last() {
            let i = choose|i: int| 0 <= i < s.len() && s[i] == k;
            assert(d[i] == k);
        }
        if d.contains(k) {
            let i = choose|i: int| 0 <= i < d.len() && d[i] == k;
            assert(s[i] == k);
        }
        if v.tasks[s.last()].parent_id == Some(id) {
            assert(rest.push(s.last())[rest.len() as int] == s.last());
            if rest.contains(k) {
                let i = choose|i: int| 0 <= i < rest.len() && rest[i] == k;
                assert(rest.push(s.last())[i] == k);
            }
            if rest.push(s.last()).contains(k) && k != s.last() {
                let i = choose|i: int| 0 <= i < rest.len() + 1 && rest.push(s.last())[i] == k;
                assert(rest[i] == k);
            }
        }
        assert(s[s.len() - 1] == s.last());
    }
}

/// Expanding flips a task's expanded flag and asks the store to flip it
/// too; a second expand brings the task back as it was.
pub proof fn law_expand_twice(o: ContentView, m: ContentView, f: ContentView, r1: crate::content::ReactionView, r2: crate::content::ReactionView, k: u64)
    requires
        acts_on(o, k),
        expand_toggled(o, m, r1, k),
        expand_toggled(m, f, r2, k),
    ensures
        task_of(m, k).expanded == !task_of(o, k).expanded,
        task_of(m, k).id == task_of(o, k).id,
        task_of(f, k) == task_of(o, k),
        f.tasks == o.tasks,
        r1.request == Some(crate::content::StoreRequestView::ToggleTaskExpanded { list_id: o.selected_list.unwrap().id, task_id: task_of(o, k).id }),
{
    assert(acts_on(m, k));
    assert(f.tasks =~= o.tasks);
}

/// A renamed list: the entry's list data, the active entry's text and the
/// list the content pane shows all carry the new name (and the list keeps
/// its identity); with no such list nothing is done.
pub proof fn law_list_renamed(o: AppView, f: AppView, cmds: Seq<Command>, e: Option<u64>, name: String, nav: NavView)
    requires
        list_renamed(o, f, cmds, e, name, nav),
    ensures
        f == o,
        target_list(nav, e) is None ==> cmds.len() == 0,
        target_list(nav, e) is Some ==> cmds.contains(Command::SetActiveNavText(name)),
        forall|i: int| 0 <= i < cmds.len() ==> (#[trigger] cmds[i] matches Command::SetActiveNavText(t) ==> t == name),
        forall|i: int| 0 <= i < cmds.len() ==> (#[trigger] cmds[i] matches Command::SetEntryListName(x, t) ==> t == name && x == e),
        forall|i: int|
            0 <= i < cmds.len() ==> (#[trigger] cmds[i] matches Command::Send(
                crate::app::Message::Content(crate::content::Message::SetList(Some(l))),
            ) ==> l.name == name && l.id == target_list(nav, e).unwrap().id && l.icon == target_list(nav, e).unwrap().icon),
{
    if target_list(nav, e) is Some {
        assert(cmds[1] == Command::SetActiveNavText(name));
    }
}


/// A permutation of the positions below `n` takes every one of them.
proof fn lemma_permutation_onto(p: Seq<usize>, n: int, a: int)
    requires
        is_permutation(p, n),
        0 <= a < n,
    ensures
        exists|j: int| 0 <= j < n && p[j] == a,
{
    let q = p.map_values(|x: usize| x as int);
    assert forall|i: int, j: int| 0 <= i < q.len() && 0 <= j < q.len() && i != j implies q[i] != q[j] by {
        if i < j {
            assert(p[i] != p[j]);
        } else {
            assert(p[j] != p[i]);
        }
    }
    q.unique_seq_to_set();
    if !(exists|j: int| 0 <= j < n && p[j] == a) {
        let r = vstd::set_lib::set_int_range(0, n).remove(a);
        vstd::set_lib::lemma_int_range(0, n);
        assert(vstd::set_lib::set_int_range(0, n).contains(a));
        assert forall|x: int| q.to_set().contains(x) implies r.contains(x) by {
            let j = choose|j: int| 0 <= j < q.len() && q[j] == x;
            assert(p[j] < n);
        }
        vstd::set_lib::lemma_len_subset(q.to_set(), r);
        assert(false);
    }
}

/// A key of `s` whose task is listed is kept by `shown_keys`.
proof fn lemma_shown_keys_keeps(v: ContentView, list: List, s: Seq<u64>, j: int)
    requires
        0 <= j < s.len(),
        shown_in_list(v, list, v.tasks[s[j]]),
    ensures
        shown_keys(v, list, s).contains(s[j]),
    decreases s.len(),
{
    let d = s.drop_last();
    if j == s.len() - 1 {
        let rest = shown_keys(v, list, d);
        assert(rest.push(s.last())[rest.len() as int] == s[j]);
    } else {
        assert(d[j] == s[j]);
        lemma_shown_keys_keeps(v, list, d, j);
        let rest = shown_keys(v, list, d);
        let i = choose|i: int| 0 <= i < rest.len() && rest[i] == s[j];
        if shown_in_list(v, list, v.tasks[s.last()]) {
            assert(rest.push(s.last())[i] == s[j]);
        }
    }
}

/// The list leaves out no task it should show: every top-level task of
/// the pane that matches a shown search query (lower-cased), and is not a
/// completed task while completed tasks are hidden, is listed.
pub proof fn law_listed_complete(v: ContentView, list: List, r: Seq<u64>, k: u64)
    requires
        listed(v, list, r),
        v.tasks.dom().contains(k),
        v.tasks[k].parent_id is None,
        v.search_bar_visible && v.search_query.len() > 0 ==> text_has(lowercase(v.tasks[k].title), lowercase(v.search_query)),
        list.hide_completed || v.config.hide_completed ==> v.tasks[k].status != Status::Completed,
    ensures
        r.contains(k),
{
    let (ks, p) = choose|ks: Seq<u64>, p: Seq<usize>|
        #![trigger slot_order(v.tasks, ks), stably_sorted(v.sort_type, sort_views(v.tasks, ks), p)]
        slot_order(v.tasks, ks) && stably_sorted(v.sort_type, sort_views(v.tasks, ks), p) && r == shown_keys(
            v,
            list,
            p.map_values(|i: usize| ks[i as int]),
        );
    let s = p.map_values(|i: usize| ks[i as int]);
    assert(ks.contains(k));
    let a = choose|a: int| 0 <= a < ks.len() && ks[a] == k;
    assert(sort_views(v.tasks, ks).len() == ks.len());
    lemma_permutation_onto(p, ks.len() as int, a);
    let j = choose|j: int| 0 <= j < ks.len() && p[j] == a;
    assert(s[j] == k);
    lemma_shown_keys_keeps(v, list, s, j);
}


/// Ticking a task's box marks it completed and clearing it marks it not
/// started; nothing else of the task changes, no other task changes, and the
/// store is asked to save the changed task.
pub proof fn law_complete_task(o: ContentView, f: ContentView, r: crate::content::ReactionView, k: u64, complete: bool)
    requires
        acts_on(o, k),
        task_completed(o, f, r, k, complete),
    ensures
        (task_of(f, k).status == Status::Completed) == complete,
        task_of(f, k).id == task_of(o, k).id,
        task_of(f, k).title == task_of(o, k).title,
        task_of(f, k).parent_id == task_of(o, k).parent_id,
        task_of(f, k).expanded == task_of(o, k).expanded,
        task_of(f, k).sub_task_ids == task_of(o, k).sub_task_ids,
        f.tasks.dom() == o.tasks.dom(),
        forall|k2: u64| #[trigger] o.tasks.dom().contains(k2) && k2 != slot_key(k) ==> f.tasks[k2] == o.tasks[k2],
        r.request == Some(StoreRequestView::UpdateTask { list_id: o.selected_list.unwrap().id, task: task_of(f, k) }),
{
    assert(f.tasks.dom() =~= o.tasks.dom());
}

/// Typing a task's title replaces the title and nothing else; a key that
/// names no task changes nothing.
pub proof fn law_title_typed(o: ContentView, f: ContentView, r: crate::content::ReactionView, k: u64, title: Seq<char>)
    requires
        title_updated(o, f, r, k, title),
    ensures
        has_task(o, k) ==> task_of(f, k).title == title && task_of(f, k).id == task_of(o, k).id && task_of(f, k).status
            == task_of(o, k).status && task_of(f, k).parent_id == task_of(o, k).parent_id && f.tasks.dom() == o.tasks.dom(),
        has_task(o, k) ==> forall|k2: u64| #[trigger] o.tasks.dom().contains(k2) && k2 != slot_key(k) ==> f.tasks[k2] == o.tasks[k2],
        !has_task(o, k) ==> f == o,
        r.request is None && r.output is None,
{
    if has_task(o, k) {
        assert(f.tasks.dom() =~= o.tasks.dom());
    }
}

/// Asking for a sub-task expands the parent and asks the store for a new
/// task under that parent; a created sub-task is recorded at the end of the
/// parent's sub-tasks, and the parent is saved.
pub proof fn law_sub_task_parent(o: ContentView, m: ContentView, r1: crate::content::ReactionView, k: u64, f: ContentView, r2: crate::content::ReactionView, sub: crate::model::TaskView)
    requires
        acts_on(o, k),
        sub_task_asked(o, m, r1, k),
        sub_task_created(m, f, r2, k, sub),
    ensures
        task_of(m, k).expanded,
        task_of(m, k).id == task_of(o, k).id,
        r1.request == Some(StoreRequestView::CreateSubTask { list_id: o.selected_list.unwrap().id, parent_key: k, parent_id: task_of(o, k).id }),
        task_of(f, k).sub_task_ids == task_of(o, k).sub_task_ids.push(sub.id),
        task_of(f, k).expanded,
        r2.request == Some(StoreRequestView::UpdateTask { list_id: o.selected_list.unwrap().id, task: task_of(f, k) }),
{
    assert(acts_on(m, k));
    let p = crate::model::TaskView { sub_task_ids: task_of(m, k).sub_task_ids.push(sub.id), ..task_of(m, k) };
    let nk = choose|nk: u64|
        crate::content::fresh_key(m, nk) && f == ContentView {
            tasks: m.tasks.insert(slot_key(k), p).insert(nk, sub),
            versions: m.versions.insert(crate::slots::key_index(nk) as u64, crate::slots::key_version(nk) as u64),
            inputs: replace_in_slot(m.inputs, nk, m.next_input),
            editing: secondary_insert(m.editing, nk, EditState::Entering),
            next_input: crate::content::next_handle(m.next_input),
            ..m
        };
    assert(nk != slot_key(k));
}

/// The add button asks the store for a task titled as the input, exactly
/// when a list is selected and the input is not empty; the pane itself
/// does not change until the task is created.
pub proof fn law_add_task(o: ContentView, f: ContentView, r: crate::content::ReactionView)
    requires
        task_add_asked(o, f, r),
    ensures
        f == o,
        r.request is Some <==> (o.selected_list is Some && o.add_task_input.len() > 0),
        r.request matches Some(q) ==> q == (StoreRequestView::CreateTask { list_id: o.selected_list.unwrap().id, title: o.add_task_input }),
{
}

/// Opening a task's details hands that very task to the application.
pub proof fn law_details(o: ContentView, f: ContentView, r: crate::content::ReactionView, k: u64)
    requires
        details_opened(o, f, r, k),
    ensures
        f == o,
        has_task(o, k) ==> r.output == Some(OutputView::OpenTaskDetails(task_of(o, k))),
        !has_task(o, k) ==> r.output is None,
{
}

/// The hide-completed button asks the store to flip the selected list's
/// flag; when the store answers, the selected list (the same list) takes
/// the opposite of the stored flag, and the stored list is passed on.
pub proof fn law_hide_completed_button(o: ContentView, m: ContentView, r1: crate::content::ReactionView, f: ContentView, r2: crate::content::ReactionView, u: List)
    requires
        o.selected_list is Some,
        hide_completed_asked(o, m, r1),
        hide_completed_saved(m, f, r2, u),
    ensures
        r1.request == Some(StoreRequestView::ToggleListHideCompleted { list_id: o.selected_list.unwrap().id }),
        f.selected_list.unwrap().hide_completed == !u.hide_completed,
        f.selected_list.unwrap().id == o.selected_list.unwrap().id,
        f.selected_list.unwrap().name == o.selected_list.unwrap().name,
        r2.output == Some(OutputView::ToggleHideCompleted(u)),
        f.tasks == o.tasks,
{
}

/// The pane holds task `t` under some key.
pub open spec fn pane_holds(v: ContentView, t: crate::model::TaskView) -> bool {
    exists|k: u64| #[trigger] v.tasks.dom().contains(k) && v.tasks[k] == t
}

/// Loading tasks puts every given task in the pane, and only those.
pub proof fn law_loaded_tasks(o: ContentView, f: ContentView, r: crate::content::ReactionView, v: Seq<crate::model::TaskView>)
    requires
        tasks_loaded(o, f, r, v),
    ensures
        forall|i: int| 0 <= i < v.len() ==> #[trigger] pane_holds(f, v[i]),
        forall|k: u64| #[trigger] f.tasks.dom().contains(k) ==> v.contains(f.tasks[k]),
        f.selected_list == o.selected_list,
        f.add_task_input.len() == 0,
{
    let ks = choose|ks: Seq<u64>| holds_loaded(o, f, v, ks);
    assert forall|i: int| 0 <= i < v.len() implies #[trigger] pane_holds(f, v[i]) by {
        assert(ks.to_set().contains(ks[i]));
        assert(f.tasks.dom().contains(ks[i]) && f.tasks[ks[i]] == v[i]);
    }
    assert forall|k: u64| #[trigger] f.tasks.dom().contains(k) implies v.contains(f.tasks[k]) by {
        assert(ks.to_set().contains(k));
        let i = choose|i: int| 0 <= i < ks.len() && ks[i] == k;
        assert(f.tasks[ks[i]] == v[i]);
    }
}

/// Escape closes the front dialog when one is open, keeping the drawer as
/// it is; with no dialog it hides the drawer.
pub proof fn law_escape(o: AppView, f: AppView)
    requires
        escaped(o, f),
    ensures
        o.dialog_pages.len() > 0 ==> f.dialog_pages == o.dialog_pages.drop_first() && f.show_context == o.show_context,
        o.dialog_pages.len() == 0 ==> !f.show_context && f.dialog_pages == o.dialog_pages,
        f.content == o.content,
{
}

/// Completing the front dialog removes it from the queue and asks for its
/// own work with its own values: a new list with the typed name, the
/// deletion of the dialog's list, or the export text copied.
pub proof fn law_dialog_complete(o: AppView, f: AppView, cmds: Seq<Command>, nav: NavView)
    requires
        dialog_completed(o, f, cmds, nav),
        o.dialog_pages.len() > 0,
    ensures
        f.dialog_pages == o.dialog_pages.drop_first(),
        f.dialog_pages.len() == o.dialog_pages.len() - 1,
        o.dialog_pages[0] matches DialogPage::New(name) ==> cmds == seq![Command::CreateList(name)],
        o.dialog_pages[0] matches DialogPage::Delete(e) ==> cmds.len() == 1 && cmds[0] == Command::Send(
            crate::app::Message::Tasks(crate::app::TasksAction::DeleteList(e)),
        ),
        o.dialog_pages[0] matches DialogPage::Export(text) ==> cmds == seq![Command::CopyToClipboard(text)],
{
}

/// The drawer button shows a hidden drawer and hides a shown one; pressed
/// twice it leaves the drawer as it was. The content pane is told.
pub proof fn law_drawer_twice(o: AppView, m: AppView, f: AppView, c1: Seq<Command>, c2: Seq<Command>, nav: NavView)
    requires
        handles(o, m, c1, crate::app::Message::ToggleContextDrawer, nav),
        handles(m, f, c2, crate::app::Message::ToggleContextDrawer, nav),
    ensures
        m.show_context == !o.show_context,
        f == o,
        c1 == seq![Command::Send(crate::app::Message::Content(crate::content::Message::ContextMenuOpen(m.show_context)))],
{
}

/// Selecting a navigation entry with a list makes the content pane show
/// that list; an entry without a list changes nothing.
pub proof fn law_nav_select(o: AppView, f: AppView, cmds: Seq<Command>, nav: NavView, list: Option<List>)
    requires
        nav_selected(o, f, cmds, nav, list),
    ensures
        list is Some ==> f.content.selected_list == list && f.dialog_pages == o.dialog_pages,
        list is None ==> f == o && cmds.len() == 0,
{
}

/// Deleting a list removes the stored list and clears the content pane's
/// selection; with no such list, the active entry is removed instead.
pub proof fn law_delete_list(o: AppView, f: AppView, cmds: Seq<Command>, e: Option<u64>, nav: NavView)
    requires
        tasks_handled(o, f, cmds, crate::app::TasksAction::DeleteList(e), nav),
    ensures
        f == o,
        target_list(nav, e) matches Some(l) ==> cmds.contains(Command::DeleteStoredList(l.id)) && cmds.contains(
            Command::Send(crate::app::Message::Content(crate::content::Message::SetList(None))),
        ),
        target_list(nav, e) is None ==> cmds == seq![Command::RemoveActiveNav],
{
    if target_list(nav, e) is Some {
        assert(cmds[0] == Command::DeleteStoredList(target_list(nav, e).unwrap().id));
        assert(cmds[1] == Command::Send(crate::app::Message::Content(crate::content::Message::SetList(None))));
    }
}

/// The sort entries of the View menu send the matching order to the
/// content pane: names ascending and descending, dates ascending and
/// descending.
pub proof fn law_sort_menu(o: AppView, f: AppView, cmds: Seq<Command>, a: MenuAction)
    requires
        menu_handled(o, f, cmds, a),
    ensures
        a == MenuAction::SortByNameAsc ==> cmds == seq![Command::Send(crate::app::Message::Content(crate::content::Message::SetSort(SortType::NameAsc)))],
        a == MenuAction::SortByNameDesc ==> cmds == seq![Command::Send(crate::app::Message::Content(crate::content::Message::SetSort(SortType::NameDesc)))],
        a == MenuAction::SortByDateAsc ==> cmds == seq![Command::Send(crate::app::Message::Content(crate::content::Message::SetSort(SortType::DateAsc)))],
        a == MenuAction::SortByDateDesc ==> cmds == seq![Command::Send(crate::app::Message::Content(crate::content::Message::SetSort(SortType::DateDesc)))],
{
}

} // verus!
