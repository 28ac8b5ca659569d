//! The content pane: the selected list, its tasks, their edit states and
//! input handles, the search bar, the new-task input and the sort order.
//! It reacts to messages by changing its state and asking for one store
//! operation at most; the store's replies come back as messages.
use vstd::prelude::*;
use crate::edit::{edit_step, edit_step_spec, EditState};
use crate::listing::{item_views, sort_order, stably_sorted, SortItem, SortItemView, SortType};
use crate::text::{chars_of, lowercase, text_contains, text_has, to_lowercase};
use crate::model::{AppConfig, List, Task, TaskView};
use crate::slots::{
    edit_slots, edits_get, edits_insert, edits_clear, edits_new, input_slots, inputs_clear, inputs_get, inputs_insert,
    inputs_new, key_index, key_version, keys_ok, lemma_insert_agrees, lemma_remove_agrees, lemma_secondary_insert_fresh,
    lemma_insert_off_slot_zero, lemma_secondary_insert_ok, lemma_slot_key, lemma_slot_zero_part_empty, lemma_vacated_agrees,
    next_version, off_slot_zero, null_index, replace_in_slot, secondary_insert,
    secondary_keys_ok, slot_key, slot_versions, task_slots, trails, versions_agree, tasks_clear, tasks_get, tasks_get_mut, tasks_insert, tasks_keys, tasks_len, tasks_new, tasks_remove,
    EditSlots, InputSlots, TaskSlots,
};

verus! {

/// Where keyboard focus goes.
#[derive(Clone, Copy, Debug, PartialEq, Eq, Structural)]
pub enum Focus {
    /// The title input of the task that holds this input handle.
    Input(u64),
    /// The new-task input under the list.
    NewTaskInput,
}

/// What the content pane tells the application.
#[derive(Clone, Debug)]
pub enum Output {
    /// The list's hide-completed setting was saved; this is the stored list.
    ToggleHideCompleted(List),
    Focus(Focus),
    OpenTaskDetails(Task),
}

/// What the content pane tells the application, as mathematical values.
pub enum OutputView {
    ToggleHideCompleted(List),
    Focus(Focus),
    OpenTaskDetails(TaskView),
}

impl View for Output {
    type V = OutputView;

    open spec fn view(&self) -> OutputView {
        match self {
            Output::ToggleHideCompleted(l) => OutputView::ToggleHideCompleted(*l),
            Output::Focus(f) => OutputView::Focus(*f),
            Output::OpenTaskDetails(t) => OutputView::OpenTaskDetails(t@),
        }
    }
}

/// A store operation the content pane asks for, and the message that the
/// runner sends back when it succeeds (a failure is only logged).
#[derive(Clone, Debug)]
pub enum StoreRequest {
    /// Load the list's tasks; on success send `SetTasks` with them.
    LoadTasks { list_id: u128 },
    /// Make a new task with this title and save it in the list; on success
    /// send `TaskCreated` with it.
    CreateTask { list_id: u128, title: String },
    /// Make a new task with an empty title whose parent is `parent_id`, and
    /// save it; on success send `SubTaskCreated` with `parent_key` and it.
    CreateSubTask { list_id: u128, parent_key: u64, parent_id: u128 },
    /// Overwrite the stored task.
    UpdateTask { list_id: u128, task: Task },
    /// Overwrite the stored task; on success send `TitleSaved(key)`.
    SaveTitle { list_id: u128, key: u64, task: Task },
    /// Flip the stored task's expanded flag.
    ToggleTaskExpanded { list_id: u128, task_id: u128 },
    /// Delete the stored task.
    DeleteTask { list_id: u128, task_id: u128 },
    /// Flip the stored list's hide-completed flag; on success send
    /// `HideCompletedSaved` with the stored list.
    ToggleListHideCompleted { list_id: u128 },
}

/// A store operation, as mathematical values.
pub enum StoreRequestView {
    LoadTasks { list_id: u128 },
    CreateTask { list_id: u128, title: Seq<char> },
    CreateSubTask { list_id: u128, parent_key: u64, parent_id: u128 },
    UpdateTask { list_id: u128, task: TaskView },
    SaveTitle { list_id: u128, key: u64, task: TaskView },
    ToggleTaskExpanded { list_id: u128, task_id: u128 },
    DeleteTask { list_id: u128, task_id: u128 },
    ToggleListHideCompleted { list_id: u128 },
}

impl View for StoreRequest {
    type V = StoreRequestView;

    open spec fn view(&self) -> StoreRequestView {
        match self {
            StoreRequest::LoadTasks { list_id } => StoreRequestView::LoadTasks { list_id: *list_id },
            StoreRequest::CreateTask { list_id, title } => StoreRequestView::CreateTask { list_id: *list_id, title: title@ },
            StoreRequest::CreateSubTask { list_id, parent_key, parent_id } => StoreRequestView::CreateSubTask {
                list_id: *list_id,
                parent_key: *parent_key,
                parent_id: *parent_id,
            },
            StoreRequest::UpdateTask { list_id, task } => StoreRequestView::UpdateTask { list_id: *list_id, task: task@ },
            StoreRequest::SaveTitle { list_id, key, task } => StoreRequestView::SaveTitle { list_id: *list_id, key: *key, task: task@ },
            StoreRequest::ToggleTaskExpanded { list_id, task_id } => StoreRequestView::ToggleTaskExpanded {
                list_id: *list_id,
                task_id: *task_id,
            },
            StoreRequest::DeleteTask { list_id, task_id } => StoreRequestView::DeleteTask { list_id: *list_id, task_id: *task_id },
            StoreRequest::ToggleListHideCompleted { list_id } => StoreRequestView::ToggleListHideCompleted { list_id: *list_id },
        }
    }
}

/// How the content pane answers a message.
#[derive(Clone, Debug)]
pub struct Reaction {
    pub output: Option<Output>,
    pub request: Option<StoreRequest>,
}

/// An answer, as mathematical values.
pub struct ReactionView {
    pub output: Option<OutputView>,
    pub request: Option<StoreRequestView>,
}

impl View for Reaction {
    type V = ReactionView;

    open spec fn view(&self) -> ReactionView {
        ReactionView {
            output: match self.output {
                Some(o) => Some(o@),
                None => None,
            },
            request: match self.request {
                Some(q) => Some(q@),
                None => None,
            },
        }
    }
}

/// The answer that says and asks nothing.
pub open spec fn quiet() -> ReactionView {
    ReactionView { output: None, request: None }
}

/// An entry of a task's "more" menu, on the task that the key names.
#[derive(Clone, Copy, Debug, PartialEq, Eq, Structural)]
pub enum TaskAction {
    AddSubTask(u64),
    Edit(u64),
    Delete(u64),
}

/// What the content pane reacts to. Keys are 64-bit key values; the last
/// four messages are the store's replies to requests.
#[derive(Clone, Debug)]
pub enum Message {
    TaskAdd,
    TaskExpand(u64),
    TaskAddSubTask(u64),
    TaskComplete(u64, bool),
    TaskDelete(u64),
    TaskToggleTitleEditMode(u64, bool),
    TaskTitleInput(String),
    TaskOpenDetails(u64),
    TaskTitleSubmit(u64),
    TaskTitleUpdate(u64, String),
    ToggleHideCompleted,
    SetList(Option<List>),
    SetTasks(Vec<Task>),
    SetConfig(AppConfig),
    RefreshTask(Task),
    Empty,
    ContextMenuOpen(bool),
    ToggleSearchBar,
    SearchQueryChanged(String),
    SetSort(SortType),
    /// A task that `CreateTask` made and saved.
    TaskCreated(Task),
    /// A sub-task that `CreateSubTask` made and saved, with the parent's key.
    SubTaskCreated(u64, Task),
    /// `SaveTitle` succeeded for this key.
    TitleSaved(u64),
    /// `ToggleListHideCompleted` succeeded; the stored list.
    HideCompletedSaved(List),
}

/// `message` can be handled without a panic: a key that starts editing has
/// an input, and an insertion leaves room in the slot map.
pub open spec fn accepts(v: ContentView, message: Message) -> bool {
    match message {
        Message::TaskToggleTitleEditMode(k, editing) => v.selected_list is Some && edit_state_of(v, k)
            == EditState::Idle && editing ==> v.inputs.dom().contains(slot_key(k)),
        Message::SetTasks(tasks) => tasks.len() < 0xffff_ffff,
        Message::TaskCreated(_) => v.tasks.dom().len() + 1 < 0xffff_ffff,
        Message::SubTaskCreated(_, _) => v.tasks.dom().len() + 1 < 0xffff_ffff,
        _ => true,
    }
}

/// How the pane answers `message`, from state `o` to state `f`.
pub open spec fn reacts(o: ContentView, f: ContentView, r: ReactionView, message: Message) -> bool {
    match message {
        Message::ToggleSearchBar => search_toggled(o, f, r),
        Message::SearchQueryChanged(q) => f == ContentView { search_query: q@, ..o } && r == quiet(),
        Message::Empty => f == o && r == quiet(),
        Message::ContextMenuOpen(open) => f == ContentView { context_menu_open: open, ..o } && r == quiet(),
        Message::SetTasks(tasks) => tasks_loaded(o, f, r, task_views(tasks@)),
        Message::SetList(list) => list_selected(o, f, r, list),
        Message::SetConfig(config) => f == ContentView { config, ..o } && r == quiet(),
        Message::RefreshTask(t) => task_refreshed(o, f, r, t@),
        Message::TaskOpenDetails(k) => details_opened(o, f, r, k),
        Message::TaskExpand(k) => expand_toggled(o, f, r, k),
        Message::TaskAdd => task_add_asked(o, f, r),
        Message::TaskToggleTitleEditMode(k, editing) => edit_mode_toggled(o, f, r, k, editing),
        Message::TaskTitleInput(input) => f == ContentView { add_task_input: input@, ..o } && r == quiet(),
        Message::TaskTitleSubmit(k) => title_submitted(o, f, r, k),
        Message::TaskTitleUpdate(k, title) => title_updated(o, f, r, k, title@),
        Message::TaskDelete(k) => task_deleted(o, f, r, k),
        Message::TaskComplete(k, complete) => task_completed(o, f, r, k, complete),
        Message::TaskAddSubTask(k) => sub_task_asked(o, f, r, k),
        Message::ToggleHideCompleted => hide_completed_asked(o, f, r),
        Message::SetSort(st) => f == ContentView { sort_type: st, ..o } && r == quiet(),
        Message::TaskCreated(t) => task_created(o, f, r, t@),
        Message::SubTaskCreated(pk, sub) => sub_task_created(o, f, r, pk, sub@),
        Message::TitleSaved(k) => title_saved(o, f, r, k),
        Message::HideCompletedSaved(u) => hide_completed_saved(o, f, r, u),
    }
}

/// `ks` lists the keys of `m`, each once, by ascending slot index (the
/// order in which the slot map yields them).
pub open spec fn slot_order(m: Map<u64, TaskView>, ks: Seq<u64>) -> bool {
    &&& forall|i: int| 0 <= i < ks.len() ==> m.dom().contains(#[trigger] ks[i])
    &&& forall|k: u64| m.dom().contains(k) ==> ks.contains(k)
    &&& forall|i: int, j: int| 0 <= i < j < ks.len() ==> key_index(#[trigger] ks[i]) < key_index(#[trigger] ks[j])
}

/// What a task is sorted by: its lower-cased title and creation date.
pub open spec fn sort_view(t: TaskView) -> SortItemView {
    SortItemView { name: lowercase(t.title), date: t.creation_date }
}

/// The sort views of the tasks under `ks`.
pub open spec fn sort_views(m: Map<u64, TaskView>, ks: Seq<u64>) -> Seq<SortItemView> {
    ks.map_values(|k: u64| sort_view(m[k]))
}

/// The task is listed at the top level of `list`: it has no parent, it
/// matches the search when the bar shows a query (both lower-cased), and
/// it is not a completed task while completed tasks are hidden (by the list
/// or by the settings).
pub open spec fn shown_in_list(v: ContentView, list: List, t: TaskView) -> bool {
    &&& t.parent_id is None
    &&& (!v.search_bar_visible || v.search_query.len() == 0 || text_has(lowercase(t.title), lowercase(v.search_query)))
    &&& (!(list.hide_completed || v.config.hide_completed) || t.status != crate::model::Status::Completed)
}

/// The keys of `s`, in order, whose tasks are listed.
pub open spec fn shown_keys(v: ContentView, list: List, s: Seq<u64>) -> Seq<u64>
    decreases s.len(),
{
    if s.len() == 0 {
        Seq::empty()
    } else {
        let rest = shown_keys(v, list, s.drop_last());
        if shown_in_list(v, list, v.tasks[s.last()]) {
            rest.push(s.last())
        } else {
            rest
        }
    }
}

/// `r` is what the list shows: the tasks taken in slot order, arranged
/// stably by the sort order, then filtered by `shown_in_list`.
pub open spec fn listed(v: ContentView, list: List, r: Seq<u64>) -> bool {
    exists|ks: Seq<u64>, p: Seq<usize>|
        #![trigger slot_order(v.tasks, ks), stably_sorted(v.sort_type, sort_views(v.tasks, ks), p)]
        slot_order(v.tasks, ks) && stably_sorted(v.sort_type, sort_views(v.tasks, ks), p) && r == shown_keys(
            v,
            list,
            p.map_values(|i: usize| ks[i as int]),
        )
}

/// What the list area shows.
#[derive(Clone, Debug)]
pub enum ListView {
    /// The "no tasks" placeholder under the header.
    Empty,
    /// These tasks (by key), in order.
    Tasks(Vec<u64>),
}

/// The keys of `s`, in order, whose tasks have `id` as parent.
pub open spec fn children_keys(v: ContentView, id: u128, s: Seq<u64>) -> Seq<u64>
    decreases s.len(),
{
    if s.len() == 0 {
        Seq::empty()
    } else {
        let rest = children_keys(v, id, s.drop_last());
        if v.tasks[s.last()].parent_id == Some(id) {
            rest.push(s.last())
        } else {
            rest
        }
    }
}

/// How many of the tasks under `s` are completed.
pub open spec fn completed_count(v: ContentView, s: Seq<u64>) -> nat
    decreases s.len(),
{
    if s.len() == 0 {
        0
    } else {
        completed_count(v, s.drop_last()) + if v.tasks[s.last()].status == crate::model::Status::Completed {
            1nat
        } else {
            0nat
        }
    }
}

/// What a task's row shows.
#[derive(Clone, Debug)]
pub struct TaskRow {
    /// The check box is ticked.
    pub completed: bool,
    /// The expand button, when the task has sub-tasks: `true` for the
    /// collapse ("up") icon, shown while expanded.
    pub expand: Option<bool>,
    /// Completed and total sub-tasks, when there are any.
    pub progress: Option<(usize, usize)>,
    /// The title input is in edit mode.
    pub editing: bool,
    /// The title input's handle.
    pub input: u64,
    /// Sub-tasks shown under the row (by key, in slot order): all of them
    /// while expanded, none otherwise.
    pub children: Vec<u64>,
}

impl TaskAction {
    /// The message an entry sends: edit opens the details, the others add
    /// a sub-task or delete.
    pub fn message(&self) -> (r: Message)
        ensures
            match *self {
                TaskAction::Edit(k) => r matches Message::TaskOpenDetails(x) && x == k,
                TaskAction::AddSubTask(k) => r matches Message::TaskAddSubTask(x) && x == k,
                TaskAction::Delete(k) => r matches Message::TaskDelete(x) && x == k,
            },
    {
        match self {
            TaskAction::Edit(id) => Message::TaskOpenDetails(*id),
            TaskAction::AddSubTask(id) => Message::TaskAddSubTask(*id),
            TaskAction::Delete(id) => Message::TaskDelete(*id),
        }
    }
}

/// What a list's header shows.
#[derive(Clone, Debug)]
pub struct Header {
    /// The list's icon name.
    pub icon: String,
    pub name: String,
    /// The hide-completed button is on (and highlighted).
    pub hide_completed_active: bool,
    /// The search button is on.
    pub search_active: bool,
}

/// How the pane is laid out.
#[derive(Clone, Debug)]
pub enum PaneView {
    /// No list is selected: the "no list" placeholder.
    NoList,
    /// The selected list and the new-task input; the pane shrinks to its
    /// content while the context drawer is open, else fills the window.
    List { list: List, shrink: bool },
}

/// The content pane's state.
pub struct Content {
    selected_list: Option<List>,
    tasks: TaskSlots,
    editing: EditSlots,
    inputs: InputSlots,
    next_input: u64,
    config: AppConfig,
    context_menu_open: bool,
    search_bar_visible: bool,
    add_task_input: String,
    search_query: String,
    sort_type: SortType,
}

/// The content pane's state, as mathematical values.
pub struct ContentView {
    pub selected_list: Option<List>,
    /// Tasks by key.
    pub tasks: Map<u64, TaskView>,
    /// The version of each slot of the task map, by slot index.
    pub versions: Map<u64, u64>,
    /// Recorded edit states by key.
    pub editing: Map<u64, EditState>,
    /// Input handles by key.
    pub inputs: Map<u64, u64>,
    /// The handle the next new input gets.
    pub next_input: u64,
    pub config: AppConfig,
    pub context_menu_open: bool,
    pub search_bar_visible: bool,
    pub add_task_input: Seq<char>,
    pub search_query: Seq<char>,
    pub sort_type: SortType,
}

impl View for Content {
    type V = ContentView;

    closed spec fn view(&self) -> ContentView {
        ContentView {
            selected_list: self.selected_list,
            tasks: task_slots(self.tasks),
            versions: slot_versions(self.tasks),
            editing: edit_slots(self.editing),
            inputs: input_slots(self.inputs),
            next_input: self.next_input,
            config: self.config,
            context_menu_open: self.context_menu_open,
            search_bar_visible: self.search_bar_visible,
            add_task_input: self.add_task_input@,
            search_query: self.search_query@,
            sort_type: self.sort_type,
        }
    }
}

/// The handle that follows `h` (handles count round modulo 2^64).
pub open spec fn next_handle(h: u64) -> u64 {
    ((h as int + 1) % 0x1_0000_0000_0000_0000) as u64
}

/// Every task has an input handle.
pub open spec fn tasks_have_inputs(v: ContentView) -> bool {
    forall|k: u64| #[trigger] v.tasks.dom().contains(k) ==> v.inputs.dom().contains(k)
}

/// The state's maps are as the slot maps hold them, the slot versions agree
/// with the tasks, input handles are kept under the current or the last key
/// of their slot, every task has one, and no edit state is kept in the
/// reserved slot 0.
pub open spec fn content_ok(v: ContentView) -> bool {
    &&& keys_ok(v.tasks)
    &&& secondary_keys_ok(v.editing)
    &&& off_slot_zero(v.editing)
    &&& secondary_keys_ok(v.inputs)
    &&& versions_agree(v.tasks, v.versions)
    &&& trails(v.inputs, v.versions)
    &&& tasks_have_inputs(v)
}

/// The edit state recorded for a key, `Idle` when none is.
pub open spec fn edit_state_of(v: ContentView, k: u64) -> EditState {
    match v.editing.get(slot_key(k)) {
        Some(s) => s,
        None => EditState::Idle,
    }
}

/// Showing the search bar, or hiding it and clearing the query.
pub open spec fn search_toggled(o: ContentView, f: ContentView, r: ReactionView) -> bool {
    &&& f == ContentView {
        search_bar_visible: !o.search_bar_visible,
        search_query: if o.search_bar_visible { Seq::empty() } else { o.search_query },
        ..o
    }
    &&& r == quiet()
}

/// `k` names a task of the pane (through the key it stands for).
pub open spec fn has_task(v: ContentView, k: u64) -> bool {
    v.tasks.dom().contains(slot_key(k))
}

/// The task that `k` names.
pub open spec fn task_of(v: ContentView, k: u64) -> TaskView {
    v.tasks[slot_key(k)]
}

/// Renaming a task's title as it is typed.
pub open spec fn title_updated(o: ContentView, f: ContentView, r: ReactionView, k: u64, title: Seq<char>) -> bool {
    &&& f == if has_task(o, k) {
        ContentView { tasks: o.tasks.insert(slot_key(k), TaskView { title, ..task_of(o, k) }), ..o }
    } else {
        o
    }
    &&& r == quiet()
}

/// Asking to open a task's details.
pub open spec fn details_opened(o: ContentView, f: ContentView, r: ReactionView, k: u64) -> bool {
    &&& f == o
    &&& r == (ReactionView {
        output: if has_task(o, k) { Some(OutputView::OpenTaskDetails(task_of(o, k))) } else { None },
        request: None,
    })
}

/// The handle `i` places after `h`.
pub open spec fn handle_at(h: u64, i: int) -> u64 {
    ((h as int + i) % 0x1_0000_0000_0000_0000) as u64
}

/// Views of a sequence of tasks.
pub open spec fn task_views(s: Seq<Task>) -> Seq<TaskView> {
    s.map_values(|t: Task| t@)
}

/// `f` holds exactly the tasks `v`, the `i`-th under key `ks[i]`, each
/// recorded as idle with the `i`-th new input handle after `o`'s.
pub open spec fn holds_loaded(o: ContentView, f: ContentView, v: Seq<TaskView>, ks: Seq<u64>) -> bool {
    &&& ks.len() == v.len()
    &&& forall|i: int, j: int| 0 <= i < j < ks.len() ==> ks[i] != ks[j]
    &&& f.tasks.dom() == ks.to_set()
    &&& f.editing.dom() == ks.to_set()
    &&& f.inputs.dom() == ks.to_set()
    &&& forall|i: int|
        0 <= i < ks.len() ==> f.tasks[#[trigger] ks[i]] == v[i] && f.editing[ks[i]] == EditState::Idle
            && f.inputs[ks[i]] == handle_at(o.next_input, i)
}

/// Replacing the pane's tasks with `v`: every task gets a new key, an idle
/// edit state and a new input handle; the new-task input is cleared.
pub open spec fn tasks_loaded(o: ContentView, f: ContentView, r: ReactionView, v: Seq<TaskView>) -> bool {
    &&& exists|ks: Seq<u64>| holds_loaded(o, f, v, ks)
    &&& f == ContentView {
        tasks: f.tasks,
        versions: f.versions,
        editing: f.editing,
        inputs: f.inputs,
        next_input: handle_at(o.next_input, v.len() as int),
        add_task_input: Seq::empty(),
        ..o
    }
    &&& r == quiet()
}

/// A sequence of distinct values has as many values in its set as it has
/// positions.
pub proof fn lemma_set_len_of_distinct(ks: Seq<u64>)
    requires
        forall|i: int, j: int| 0 <= i < j < ks.len() ==> ks[i] != ks[j],
    ensures
        ks.to_set().len() == ks.len(),
        ks.to_set().finite(),
    decreases ks.len(),
{
    if ks.len() == 0 {
        assert(ks.to_set() =~= Set::empty());
    } else {
        let p = ks.drop_last();
        lemma_set_len_of_distinct(p);
        assert(ks =~= p.push(ks.last()));
        assert(ks.to_set() =~= p.to_set().insert(ks.last()));
        assert(!p.contains(ks.last())) by {
            if p.contains(ks.last()) {
                let j = choose|j: int| 0 <= j < p.len() && p[j] == ks.last();
                assert(ks[j] == ks[ks.len() - 1]);
            }
        }
    }
}

/// The set of a sequence with one more value is the old set with it.
proof fn lemma_push_to_set(ks: Seq<u64>, k: u64)
    ensures
        ks.push(k).to_set() == ks.to_set().insert(k),
{
    let ks2 = ks.push(k);
    assert forall|x: u64| ks2.to_set().contains(x) <==> ks.to_set().insert(k).contains(x) by {
        if x == k {
            assert(ks2[ks.len() as int] == k);
        } else if ks.contains(x) {
            let j = choose|j: int| 0 <= j < ks.len() && ks[j] == x;
            assert(ks2[j] == x);
        } else if ks2.contains(x) {
            let j = choose|j: int| 0 <= j < ks2.len() && ks2[j] == x;
            assert(ks[j] == x);
        }
    }
    assert(ks2.to_set() =~= ks.to_set().insert(k));
}

/// The handle after `h`.
fn advance_handle(h: u64) -> (r: u64)
    ensures
        r == next_handle(h),
{
    if h == u64::MAX {
        0
    } else {
        h + 1
    }
}

/// The list whose tasks must be loaded when the selection changes from
/// `current` to `next`: a newly selected list, or a different one.
pub open spec fn list_to_load(current: Option<List>, next: Option<List>) -> Option<u128> {
    match (current, next) {
        (Some(c), Some(l)) => if c.id != l.id { Some(l.id) } else { None },
        (None, Some(l)) => Some(l.id),
        _ => None,
    }
}

/// Selecting a list (or none), loading its tasks when it is new.
pub open spec fn list_selected(o: ContentView, f: ContentView, r: ReactionView, l: Option<List>) -> bool {
    &&& f == ContentView { selected_list: l, ..o }
    &&& r == (ReactionView {
        output: None,
        request: match list_to_load(o.selected_list, l) {
            Some(id) => Some(StoreRequestView::LoadTasks { list_id: id }),
            None => None,
        },
    })
}

/// `k` is the key, of least slot index, of a task of `m` with identifier
/// `id`: the first such task in the map's order.
pub open spec fn first_with_id(m: Map<u64, TaskView>, id: u128, k: u64) -> bool {
    &&& m.dom().contains(k)
    &&& m[k].id == id
    &&& forall|k2: u64| #[trigger] m.dom().contains(k2) && m[k2].id == id ==> key_index(k) <= key_index(k2)
}

/// Replacing the first task with the refreshed task's identifier, if any.
pub open spec fn task_refreshed(o: ContentView, f: ContentView, r: ReactionView, t: TaskView) -> bool {
    &&& f == if exists|k: u64| first_with_id(o.tasks, t.id, k) {
        ContentView { tasks: o.tasks.insert(choose|k: u64| first_with_id(o.tasks, t.id, k), t), ..o }
    } else {
        o
    }
    &&& r == quiet()
}

/// The selected list's identifier.
pub open spec fn list_id(v: ContentView) -> u128 {
    v.selected_list.unwrap().id
}

/// A list is selected and `k` names one of its tasks.
pub open spec fn acts_on(v: ContentView, k: u64) -> bool {
    v.selected_list is Some && has_task(v, k)
}

/// The pane with the task that `k` names replaced by `t`.
pub open spec fn with_task(v: ContentView, k: u64, t: TaskView) -> ContentView {
    ContentView { tasks: v.tasks.insert(slot_key(k), t), ..v }
}

/// The answer that asks for `q` only.
pub open spec fn asks(q: StoreRequestView) -> ReactionView {
    ReactionView { output: None, request: Some(q) }
}

/// Flipping a task's expanded flag, here and in the store.
pub open spec fn expand_toggled(o: ContentView, f: ContentView, r: ReactionView, k: u64) -> bool {
    if acts_on(o, k) {
        let t = task_of(o, k);
        &&& f == with_task(o, k, TaskView { expanded: !t.expanded, ..t })
        &&& r == asks(StoreRequestView::ToggleTaskExpanded { list_id: list_id(o), task_id: t.id })
    } else {
        f == o && r == quiet()
    }
}

/// Asking to create a task titled as the new-task input, when a list is
/// selected and the input is not empty.
pub open spec fn task_add_asked(o: ContentView, f: ContentView, r: ReactionView) -> bool {
    &&& f == o
    &&& r == if o.selected_list is Some && o.add_task_input.len() > 0 {
        asks(StoreRequestView::CreateTask { list_id: list_id(o), title: o.add_task_input })
    } else {
        quiet()
    }
}

/// `k` is a key that the task map can give a new task of `o`: a key of a
/// slot that holds no task, at the slot's next version.
pub open spec fn fresh_key(o: ContentView, k: u64) -> bool {
    &&& !o.tasks.dom().contains(k)
    &&& slot_key(k) == k
    &&& 1 <= key_index(k) < null_index()
    &&& forall|e: u64| #[trigger] o.tasks.dom().contains(e) ==> key_index(e) != key_index(k)
    &&& key_version(k) == next_version(o.versions, key_index(k))
}

/// Adding a created task under a new key, with a new input handle (in
/// place of the handle its slot kept); the new-task input is cleared.
pub open spec fn task_created(o: ContentView, f: ContentView, r: ReactionView, t: TaskView) -> bool {
    &&& exists|k: u64|
        fresh_key(o, k) && f == ContentView {
            tasks: o.tasks.insert(k, t),
            versions: o.versions.insert(key_index(k) as u64, key_version(k) as u64),
            inputs: replace_in_slot(o.inputs, k, o.next_input),
            next_input: next_handle(o.next_input),
            add_task_input: Seq::empty(),
            ..o
        }
    &&& r == quiet()
}

/// An edit-mode report: with a list selected, the edit machine's step is
/// recorded, focus goes to the task's input when editing starts, and the
/// task is saved when editing ends.
pub open spec fn edit_mode_toggled(o: ContentView, f: ContentView, r: ReactionView, k: u64, editing: bool) -> bool {
    if o.selected_list is None {
        f == o && r == quiet()
    } else {
        let step = edit_step_spec(edit_state_of(o, k), editing);
        &&& f == ContentView {
            editing: match step.next {
                Some(s) => secondary_insert(o.editing, k, s),
                None => o.editing,
            },
            ..o
        }
        &&& r == (ReactionView {
            output: if step.focus { Some(OutputView::Focus(Focus::Input(o.inputs[slot_key(k)]))) } else { None },
            request: if step.persist && has_task(o, k) {
                Some(StoreRequestView::UpdateTask { list_id: list_id(o), task: task_of(o, k) })
            } else {
                None
            },
        })
    }
}

/// Submitting a title: the task is saved, and its input is released once
/// the save succeeds.
pub open spec fn title_submitted(o: ContentView, f: ContentView, r: ReactionView, k: u64) -> bool {
    &&& f == o
    &&& r == if acts_on(o, k) {
        asks(StoreRequestView::SaveTitle { list_id: list_id(o), key: k, task: task_of(o, k) })
    } else {
        quiet()
    }
}

/// A submitted title was saved: while the task is still there, its input
/// goes idle and focus returns to the new-task input.
pub open spec fn title_saved(o: ContentView, f: ContentView, r: ReactionView, k: u64) -> bool {
    if has_task(o, k) {
        &&& f == ContentView { editing: secondary_insert(o.editing, k, EditState::Idle), ..o }
        &&& r == (ReactionView { output: Some(OutputView::Focus(Focus::NewTaskInput)), request: None })
    } else {
        f == o && r == quiet()
    }
}

/// Deleting a task, here and in the store.
pub open spec fn task_deleted(o: ContentView, f: ContentView, r: ReactionView, k: u64) -> bool {
    if acts_on(o, k) {
        &&& f == ContentView {
            tasks: o.tasks.remove(slot_key(k)),
            versions: o.versions.insert(
                key_index(k) as u64,
                ((o.versions[key_index(k) as u64] + 1) % 0x1_0000_0000) as u64,
            ),
            ..o
        }
        &&& r == asks(StoreRequestView::DeleteTask { list_id: list_id(o), task_id: task_of(o, k).id })
    } else {
        f == o && r == quiet()
    }
}

/// Marking a task completed or not started, here and in the store.
pub open spec fn task_completed(o: ContentView, f: ContentView, r: ReactionView, k: u64, complete: bool) -> bool {
    if acts_on(o, k) {
        let t = TaskView {
            status: if complete { crate::model::Status::Completed } else { crate::model::Status::NotStarted },
            ..task_of(o, k)
        };
        &&& f == with_task(o, k, t)
        &&& r == asks(StoreRequestView::UpdateTask { list_id: list_id(o), task: t })
    } else {
        f == o && r == quiet()
    }
}

/// Asking for a sub-task: the parent is expanded, and a new empty task with
/// it as parent is to be created.
pub open spec fn sub_task_asked(o: ContentView, f: ContentView, r: ReactionView, k: u64) -> bool {
    if acts_on(o, k) {
        let t = task_of(o, k);
        &&& f == with_task(o, k, TaskView { expanded: true, ..t })
        &&& r == asks(StoreRequestView::CreateSubTask { list_id: list_id(o), parent_key: k, parent_id: t.id })
    } else {
        f == o && r == quiet()
    }
}

/// A created sub-task: the parent records it and is saved; the sub-task is
/// added under a new key, with a new input handle, entering edit mode, and
/// focus goes to its input.
pub open spec fn sub_task_created(o: ContentView, f: ContentView, r: ReactionView, pk: u64, sub: TaskView) -> bool {
    if acts_on(o, pk) {
        let p = TaskView { sub_task_ids: task_of(o, pk).sub_task_ids.push(sub.id), ..task_of(o, pk) };
        &&& exists|k: u64|
            fresh_key(o, k) && f == ContentView {
                tasks: o.tasks.insert(slot_key(pk), p).insert(k, sub),
                versions: o.versions.insert(key_index(k) as u64, key_version(k) as u64),
                inputs: replace_in_slot(o.inputs, k, o.next_input),
                editing: secondary_insert(o.editing, k, EditState::Entering),
                next_input: next_handle(o.next_input),
                ..o
            }
        &&& r == (ReactionView {
            output: Some(OutputView::Focus(Focus::Input(o.next_input))),
            request: Some(StoreRequestView::UpdateTask { list_id: list_id(o), task: p }),
        })
    } else {
        f == o && r == quiet()
    }
}

/// Asking the store to flip the selected list's hide-completed flag.
pub open spec fn hide_completed_asked(o: ContentView, f: ContentView, r: ReactionView) -> bool {
    &&& f == o
    &&& r == if o.selected_list is Some {
        asks(StoreRequestView::ToggleListHideCompleted { list_id: list_id(o) })
    } else {
        quiet()
    }
}

/// The store flipped the list's flag: the selected list takes the opposite
/// of the stored value, and the stored list goes to the application.
pub open spec fn hide_completed_saved(o: ContentView, f: ContentView, r: ReactionView, u: List) -> bool {
    match o.selected_list {
        Some(l) => {
            &&& f == ContentView { selected_list: Some(List { hide_completed: !u.hide_completed, ..l }), ..o }
            &&& r == (ReactionView { output: Some(OutputView::ToggleHideCompleted(u)), request: None })
        },
        None => f == o && r == quiet(),
    }
}

/// A new pane: no list selected, no tasks, handles counted from 0, the
/// search bar hidden, both inputs empty, sorted by ascending date.
pub open spec fn fresh_pane(config: AppConfig) -> ContentView {
    ContentView {
        selected_list: None,
        tasks: Map::empty(),
        versions: Map::empty(),
        editing: Map::empty(),
        inputs: Map::empty(),
        next_input: 0,
        config,
        context_menu_open: false,
        search_bar_visible: false,
        add_task_input: Seq::empty(),
        search_query: Seq::empty(),
        sort_type: SortType::DateAsc,
    }
}

impl Content {
    /// The state's maps are as the slot maps hold them.
    pub open spec fn wf(&self) -> bool {
        content_ok(self@)
    }

    /// An empty pane with no list selected, sorted by ascending date.
    pub fn new(config: AppConfig) -> (r: Content)
        ensures
            r.wf(),
            r@ == fresh_pane(config),
    {
        let r = Content {
            selected_list: None,
            tasks: tasks_new(),
            editing: edits_new(),
            inputs: inputs_new(),
            next_input: 0,
            config,
            context_menu_open: false,
            search_bar_visible: false,
            add_task_input: String::new(),
            search_query: String::new(),
            sort_type: SortType::DateAsc,
        };
        proof {
            assert(r@.tasks =~= Map::empty());
            assert(r@.versions =~= Map::empty());
            assert(r@.editing =~= Map::empty());
            assert(r@.inputs =~= Map::empty());
        }
        r
    }

    /// Handles a message: changes the state as `reacts` says and answers
    /// with at most one output and one store request. The state stays well
    /// formed, so every task keeps an input handle (`content_ok`).
    pub fn update(&mut self, message: Message) -> (r: Reaction)
        requires
            old(self).wf(),
            accepts(old(self)@, message),
        ensures
            final(self).wf(),
            reacts(old(self)@, final(self)@, r@, message),
    {
        match message {
            Message::ToggleSearchBar => self.toggle_search_bar(),
            Message::SearchQueryChanged(query) => {
                self.search_query = query;
                Reaction { output: None, request: None }
            },
            Message::Empty => Reaction { output: None, request: None },
            Message::ContextMenuOpen(open) => {
                self.context_menu_open = open;
                Reaction { output: None, request: None }
            },
            Message::SetTasks(tasks) => self.set_tasks(tasks),
            Message::SetList(list) => self.set_list(list),
            Message::SetConfig(config) => {
                self.config = config;
                Reaction { output: None, request: None }
            },
            Message::RefreshTask(t) => self.refresh_task(t),
            Message::TaskOpenDetails(k) => self.open_details(k),
            Message::TaskExpand(k) => self.toggle_expanded(k),
            Message::TaskAdd => self.add_task(),
            Message::TaskToggleTitleEditMode(k, editing) => self.toggle_edit_mode(k, editing),
            Message::TaskTitleInput(input) => {
                self.add_task_input = input;
                Reaction { output: None, request: None }
            },
            Message::TaskTitleSubmit(k) => self.submit_title(k),
            Message::TaskTitleUpdate(k, title) => self.update_title(k, title),
            Message::TaskDelete(k) => self.delete_task(k),
            Message::TaskComplete(k, complete) => self.complete_task(k, complete),
            Message::TaskAddSubTask(k) => self.add_sub_task(k),
            Message::ToggleHideCompleted => self.ask_hide_completed(),
            Message::SetSort(st) => {
                self.sort_type = st;
                Reaction { output: None, request: None }
            },
            Message::TaskCreated(t) => self.task_created(t),
            Message::SubTaskCreated(pk, sub) => self.sub_task_created(pk, sub),
            Message::TitleSaved(k) => self.title_saved(k),
            Message::HideCompletedSaved(u) => self.hide_completed_saved(u),
        }
    }

    /// The tasks the list shows, by key, in order: the pane's tasks in slot
    /// order, sorted stably by the sort order (names compared lower-cased),
    /// keeping the top-level ones that pass the search and the
    /// hide-completed filter of `list` or of the settings.
    pub fn visible_tasks(&self, list: &List) -> (r: Vec<u64>)
        requires
            self.wf(),
        ensures
            listed(self@, *list, r@),
    {
        let ghost v = self@;
        let keys = tasks_keys(&self.tasks);
        let mut items: Vec<SortItem> = Vec::new();
        let mut i: usize = 0;
        while i < keys.len()
            invariant
                self.wf(),
                v == self@,
                i <= keys.len(),
                slot_order(v.tasks, keys@),
                items@.len() == i,
                forall|j: int| 0 <= j < i ==> #[trigger] item_views(items@)[j] == sort_view(v.tasks[keys@[j]]),
            decreases keys.len() - i,
        {
            let k = keys[i];
            let ghost old_items = items@;
            proof {
                assert(v.tasks.dom().contains(keys@[i as int]));
            }
            match tasks_get(&self.tasks, k) {
                Some(t) => {
                    let lower = to_lowercase(t.title.as_str());
                    let name = chars_of(lower.as_str());
                    items.push(SortItem { name, date: t.creation_date });
                    proof {
                        assert(slot_key(k) == k);
                        assert(items@[i as int]@ == sort_view(v.tasks[keys@[i as int]]));
                        assert(item_views(items@)[i as int] == items@[i as int]@);
                    }
                },
                None => {
                    proof {
                        assert(false);
                    }
                    return Vec::new();
                },
            }
            proof {
                assert forall|j: int| 0 <= j < i + 1 implies #[trigger] item_views(items@)[j] == sort_view(
                    v.tasks[keys@[j]],
                ) by {
                    if j < i {
                        assert(items@[j] == old_items[j]);
                        assert(item_views(old_items)[j] == old_items[j]@);
                        assert(item_views(items@)[j] == items@[j]@);
                    }
                }
            }
            i = i + 1;
        }
        proof {
            assert(item_views(items@) =~= sort_views(v.tasks, keys@));
        }
        let order = sort_order(self.sort_type, &items);
        let ghost sorted = order@.map_values(|i: usize| keys@[i as int]);
        let query = chars_of(to_lowercase(self.search_query.as_str()).as_str());
        let query_empty = self.search_query.as_str().is_empty();
        let hide = list.hide_completed || self.config.hide_completed;
        let mut out: Vec<u64> = Vec::new();
        let mut n: usize = 0;
        while n < order.len()
            invariant
                self.wf(),
                v == self@,
                n <= order.len(),
                slot_order(v.tasks, keys@),
                items@.len() == keys@.len(),
                item_views(items@) == sort_views(v.tasks, keys@),
                stably_sorted(v.sort_type, item_views(items@), order@),
                sorted == order@.map_values(|i: usize| keys@[i as int]),
                query@ == lowercase(v.search_query),
                query_empty == (v.search_query.len() == 0),
                hide == (list.hide_completed || v.config.hide_completed),
                out@ == shown_keys(v, *list, sorted.subrange(0, n as int)),
            decreases order.len() - n,
        {
            let pos = order[n];
            let k = keys[pos];
            proof {
                assert(order@[n as int] < items@.len());
                assert(v.tasks.dom().contains(keys@[pos as int]));
                assert(sorted[n as int] == k);
                assert(items@[pos as int]@ == item_views(items@)[pos as int]);
            }
            let show = match tasks_get(&self.tasks, k) {
                Some(t) => {
                    let matches_search = !self.search_bar_visible || query_empty || text_contains(&items[pos].name, &query);
                    t.parent_id.is_none() && matches_search && (!hide || !t.status.is_completed())
                },
                None => {
                    proof {
                        assert(false);
                    }
                    false
                },
            };
            if show {
                out.push(k);
            }
            proof {
                assert(sorted.subrange(0, n + 1).drop_last() =~= sorted.subrange(0, n as int));
                assert(sorted.subrange(0, n + 1).last() == k);
            }
            n = n + 1;
        }
        proof {
            assert(sorted.subrange(0, order@.len() as int) =~= sorted);
            assert(slot_order(v.tasks, keys@) && stably_sorted(v.sort_type, sort_views(v.tasks, keys@), order@));
        }
        out
    }

    /// What the list area shows for `list`: the placeholder when no task is
    /// listed and no search query is typed, else the listed tasks.
    pub fn list_view(&self, list: &List) -> (r: ListView)
        requires
            self.wf(),
        ensures
            match r {
                ListView::Empty => self@.search_query.len() == 0 && listed(self@, *list, Seq::empty()),
                ListView::Tasks(ks) => listed(self@, *list, ks@) && (ks@.len() > 0 || self@.search_query.len() > 0),
            },
    {
        let ks = self.visible_tasks(list);
        if ks.len() == 0 && self.search_query.as_str().is_empty() {
            proof {
                assert(ks@ =~= Seq::<u64>::empty());
            }
            ListView::Empty
        } else {
            ListView::Tasks(ks)
        }
    }

    /// The row of the task that `k` names: its check box, the expand
    /// button and progress count when it has sub-tasks (its tasks whose
    /// parent is it, in slot order), whether its input is in edit mode, its
    /// input handle, and the sub-tasks shown under it while it is expanded.
    pub fn task_view(&self, k: u64) -> (r: TaskRow)
        requires
            self.wf(),
            has_task(self@, k),
        ensures
            ({
                let t = task_of(self@, k);
                exists|ks: Seq<u64>|
                    #![trigger slot_order(self@.tasks, ks)]
                    slot_order(self@.tasks, ks) && {
                        let subs = children_keys(self@, t.id, ks);
                        &&& r.completed == (t.status == crate::model::Status::Completed)
                        &&& r.expand == if subs.len() > 0 { Some(t.expanded) } else { None }
                        &&& r.progress == if subs.len() > 0 {
                            Some((completed_count(self@, subs) as usize, subs.len() as usize))
                        } else {
                            None
                        }
                        &&& r.children@ == if t.expanded { subs } else { Seq::empty() }
                    }
            }),
            r.editing == crate::edit::shows_editing_spec(self@.editing.get(slot_key(k))),
            r.input == self@.inputs[slot_key(k)],
    {
        let ghost v = self@;
        let (id, completed, expanded) = match tasks_get(&self.tasks, k) {
            Some(t) => (t.id, t.status.is_completed(), t.expanded),
            None => {
                proof {
                    assert(false);
                }
                (0, false, false)
            },
        };
        let keys = tasks_keys(&self.tasks);
        let mut subs: Vec<u64> = Vec::new();
        let mut done: usize = 0;
        let mut i: usize = 0;
        while i < keys.len()
            invariant
                self.wf(),
                v == self@,
                i <= keys.len(),
                slot_order(v.tasks, keys@),
                subs@ == children_keys(v, id, keys@.subrange(0, i as int)),
                done as nat == completed_count(v, subs@),
                done <= subs@.len(),
                subs@.len() <= i,
            decreases keys.len() - i,
        {
            let key = keys[i];
            proof {
                assert(v.tasks.dom().contains(keys@[i as int]));
                assert(slot_key(key) == key);
                assert(keys@.subrange(0, i + 1).drop_last() =~= keys@.subrange(0, i as int));
                assert(keys@.subrange(0, i + 1).last() == key);
            }
            match tasks_get(&self.tasks, key) {
                Some(sub) => {
                    let is_child = match sub.parent_id {
                        Some(p) => p == id,
                        None => false,
                    };
                    if is_child {
                        let ghost before = subs@;
                        subs.push(key);
                        proof {
                            assert(subs@.drop_last() =~= before);
                        }
                        if sub.status.is_completed() {
                            done = done + 1;
                        }
                    }
                },
                None => {
                    proof {
                        assert(false);
                    }
                },
            }
            i = i + 1;
        }
        proof {
            assert(keys@.subrange(0, keys@.len() as int) =~= keys@);
        }
        let total = subs.len();
        let editing = crate::edit::shows_editing(edits_get(&self.editing, k));
        let input = match inputs_get(&self.inputs, k) {
            Some(h) => h,
            None => {
                proof {
                    assert(false);
                }
                0
            },
        };
        let expand = if total > 0 { Some(expanded) } else { None };
        let progress = if total > 0 { Some((done, total)) } else { None };
        let children = if expanded { subs } else { Vec::new() };
        proof {
            if !expanded {
                assert(children@ =~= Seq::<u64>::empty());
            }
        }
        TaskRow { completed, expand, progress, editing, input, children }
    }

    /// Whether `message` can be handled (see `accepts`); a runner checks it
    /// before handing the message over.
    pub fn accepts_message(&self, message: &Message) -> (r: bool)
        requires
            self.wf(),
        ensures
            r == accepts(self@, *message),
    {
        match message {
            Message::TaskToggleTitleEditMode(k, editing) => {
                let idle = match edits_get(&self.editing, *k) {
                    Some(s) => s == EditState::Idle,
                    None => true,
                };
                if self.selected_list.is_some() && idle && *editing {
                    inputs_get(&self.inputs, *k).is_some()
                } else {
                    true
                }
            },
            Message::SetTasks(tasks) => tasks.len() < 0xffff_ffff,
            Message::TaskCreated(_) | Message::SubTaskCreated(_, _) => {
                let n = tasks_len(&self.tasks);
                n < 0xffff_fffe
            },
            _ => true,
        }
    }

    /// The selected list, if any.
    pub fn selected_list(&self) -> (r: Option<List>)
        ensures
            r == self@.selected_list,
    {
        match &self.selected_list {
            Some(l) => Some(l.clone()),
            None => None,
        }
    }

    /// The task that `k` names, if any.
    pub fn task(&self, k: u64) -> (r: Option<Task>)
        ensures
            r is Some == has_task(self@, k),
            r matches Some(t) ==> t@ == task_of(self@, k),
    {
        match tasks_get(&self.tasks, k) {
            Some(t) => Some(t.clone()),
            None => None,
        }
    }

    /// The input handle of the task that `k` names, if it has one.
    pub fn input_of(&self, k: u64) -> (r: Option<u64>)
        ensures
            r == self@.inputs.get(slot_key(k)),
    {
        inputs_get(&self.inputs, k)
    }

    /// The header of `list`: its icon and name, and the hide-completed and
    /// search buttons' states.
    pub fn list_header(&self, list: &List) -> (r: Header)
        ensures
            r.icon@ == match list.icon {
                Some(i) => i@,
                None => "view-list-symbolic"@,
            },
            r.name == list.name,
            r.hide_completed_active == (list.hide_completed || self@.config.hide_completed),
            r.search_active == self@.search_bar_visible,
    {
        Header {
            icon: list.icon_name(),
            name: list.name.clone(),
            hide_completed_active: list.hide_completed || self.config.hide_completed,
            search_active: self.search_bar_visible,
        }
    }

    /// How the pane is laid out: the placeholder without a selected list,
    /// else the list, shrunk while the context drawer is open.
    pub fn layout(&self) -> (r: PaneView)
        ensures
            match self@.selected_list {
                None => r matches PaneView::NoList,
                Some(l) => r matches PaneView::List { list, shrink } && list == l && shrink == self@.context_menu_open,
            },
    {
        match &self.selected_list {
            None => PaneView::NoList,
            Some(l) => PaneView::List { list: l.clone(), shrink: self.context_menu_open },
        }
    }

    /// Completed tasks are hidden in `list`: by the list or by the settings.
    pub fn hide_completed_active(&self, list: &List) -> (r: bool)
        ensures
            r == (list.hide_completed || self@.config.hide_completed),
    {
        list.hide_completed || self.config.hide_completed
    }

    /// The search bar is shown.
    pub fn search_bar_visible(&self) -> (r: bool)
        ensures
            r == self@.search_bar_visible,
    {
        self.search_bar_visible
    }

    /// The search query.
    pub fn search_query(&self) -> (r: &String)
        ensures
            r@ == self@.search_query,
    {
        &self.search_query
    }

    /// The text of the new-task input.
    pub fn add_task_input(&self) -> (r: &String)
        ensures
            r@ == self@.add_task_input,
    {
        &self.add_task_input
    }

    /// The context drawer is open (the pane then shrinks to its content).
    pub fn context_menu_open(&self) -> (r: bool)
        ensures
            r == self@.context_menu_open,
    {
        self.context_menu_open
    }

    /// The order in which tasks are listed.
    pub fn sort_type(&self) -> (r: SortType)
        ensures
            r == self@.sort_type,
    {
        self.sort_type
    }

    /// Shows the search bar, or hides it and clears the query.
    fn toggle_search_bar(&mut self) -> (r: Reaction)
        requires
            old(self).wf(),
        ensures
            final(self).wf(),
            search_toggled(old(self)@, final(self)@, r@),
    {
        self.search_bar_visible = !self.search_bar_visible;
        if !self.search_bar_visible {
            self.search_query = String::new();
        }
        Reaction { output: None, request: None }
    }

    /// Replaces the title of the task that `k` names, if any.
    fn update_title(&mut self, k: u64, title: String) -> (r: Reaction)
        requires
            old(self).wf(),
        ensures
            final(self).wf(),
            title_updated(old(self)@, final(self)@, r@, k, title@),
    {
        let ghost old_tasks = self@.tasks;
        let ghost tv = title@;
        match tasks_get_mut(&mut self.tasks, k) {
            Some(t) => {
                t.title = title;
            },
            None => {},
        }
        proof {
            if old_tasks.dom().contains(slot_key(k)) {
                assert(self@.tasks == old_tasks.insert(slot_key(k), TaskView { title: tv, ..old_tasks[slot_key(k)] }));
            }
        }
        Reaction { output: None, request: None }
    }

    /// Replaces the tasks with `tasks`, each under a new key, idle, with a
    /// new input handle; clears the new-task input.
    fn set_tasks(&mut self, tasks: Vec<Task>) -> (r: Reaction)
        requires
            old(self).wf(),
            tasks.len() < 0xffff_ffff,
        ensures
            final(self).wf(),
            tasks_loaded(old(self)@, final(self)@, r@, task_views(tasks@)),
    {
        let ghost o = self@;
        let ghost v = task_views(tasks@);
        proof {
            lemma_slot_zero_part_empty(o.editing);
            assert forall|e: u64| #[trigger] o.inputs.dom().contains(e) implies key_index(e) != 0 by {
                assert(o.versions.dom().contains(key_index(e) as u64));
            }
            lemma_slot_zero_part_empty(o.inputs);
        }
        tasks_clear(&mut self.tasks);
        inputs_clear(&mut self.inputs);
        edits_clear(&mut self.editing);
        self.add_task_input = String::new();
        let ghost mut ks: Seq<u64> = Seq::empty();
        proof {
            assert(self@.tasks =~= Map::empty());
            assert(self@.editing =~= Map::empty());
            assert(self@.inputs =~= Map::empty());
            assert(ks.to_set() =~= Set::empty());
            lemma_vacated_agrees(o.tasks, o.versions, self@.tasks);
        }
        let mut i: usize = 0;
        while i < tasks.len()
            invariant
                i <= tasks.len(),
                tasks.len() < 0xffff_ffff,
                v == task_views(tasks@),
                self.wf(),
                ks.len() == i,
                holds_loaded(o, self@, v.subrange(0, i as int), ks),
                self@.next_input == handle_at(o.next_input, i as int),
                self@ == (ContentView {
                    tasks: self@.tasks,
                    versions: self@.versions,
                    editing: self@.editing,
                    inputs: self@.inputs,
                    next_input: self@.next_input,
                    add_task_input: Seq::empty(),
                    ..o
                }),
            decreases tasks.len() - i,
        {
            let ghost before = self@;
            proof {
                lemma_set_len_of_distinct(ks);
            }
            let t = tasks[i].clone();
            let ghost tv = t@;
            let k = tasks_insert(&mut self.tasks, t);
            let h = self.next_input;
            inputs_insert(&mut self.inputs, k, h);
            edits_insert(&mut self.editing, k, EditState::Idle);
            self.next_input = advance_handle(h);
            proof {
                assert(!ks.contains(k));
                lemma_insert_agrees(before.tasks, before.versions, k, tv, before.inputs, h);
                lemma_insert_off_slot_zero(before.editing, k, EditState::Idle);
                lemma_secondary_insert_fresh(before.inputs, k, h);
                lemma_secondary_insert_fresh(before.editing, k, EditState::Idle);
                let ks2 = ks.push(k);
                lemma_push_to_set(ks, k);
                assert(v.subrange(0, i + 1) =~= v.subrange(0, i as int).push(v[i as int]));
                assert forall|a: u64| #[trigger] self@.tasks.dom().contains(a) implies slot_key(a) == a && 1 <= key_index(a)
                    < null_index() by {
                    if a != k {
                        assert(before.tasks.dom().contains(a));
                    }
                }
                assert forall|a: u64| #[trigger] self@.editing.dom().contains(a) implies slot_key(a) == a && key_index(a)
                    != null_index() by {
                    if a != k {
                        assert(before.editing.dom().contains(a));
                    }
                }
                assert forall|a: u64| #[trigger] self@.inputs.dom().contains(a) implies slot_key(a) == a && key_index(a)
                    != null_index() by {
                    if a != k {
                        assert(before.inputs.dom().contains(a));
                    }
                }
                assert(handle_at(o.next_input, i + 1) == next_handle(handle_at(o.next_input, i as int)));
                ks = ks2;
            }
            i = i + 1;
        }
        proof {
            assert(v.subrange(0, i as int) =~= v);
        }
        Reaction { output: None, request: None }
    }

    /// Selects `list` (or none), asking for its tasks when it is new.
    fn set_list(&mut self, list: Option<List>) -> (r: Reaction)
        requires
            old(self).wf(),
        ensures
            final(self).wf(),
            list_selected(old(self)@, final(self)@, r@, list),
    {
        let request = match (&self.selected_list, &list) {
            (Some(current), Some(l)) => {
                if current.id != l.id {
                    Some(StoreRequest::LoadTasks { list_id: l.id })
                } else {
                    None
                }
            },
            (None, Some(l)) => Some(StoreRequest::LoadTasks { list_id: l.id }),
            _ => None,
        };
        self.selected_list = list;
        Reaction { output: None, request }
    }

    /// Replaces the first task (by slot order) whose identifier is the
    /// refreshed task's.
    fn refresh_task(&mut self, t: Task) -> (r: Reaction)
        requires
            old(self).wf(),
        ensures
            final(self).wf(),
            task_refreshed(old(self)@, final(self)@, r@, t@),
    {
        let ghost o = self@;
        let keys = tasks_keys(&self.tasks);
        let mut i: usize = 0;
        while i < keys.len()
            invariant
                self@ == o,
                old(self)@ == o,
                self.wf(),
                i <= keys.len(),
                forall|j: int| 0 <= j < keys@.len() ==> o.tasks.dom().contains(#[trigger] keys@[j]),
                forall|k: u64| o.tasks.dom().contains(k) ==> keys@.contains(k),
                forall|a: int, b: int| 0 <= a < b < keys@.len() ==> key_index(#[trigger] keys@[a]) < key_index(#[trigger] keys@[b]),
                forall|j: int| 0 <= j < i ==> o.tasks[#[trigger] keys@[j]].id != t.id,
            decreases keys.len() - i,
        {
            let k = keys[i];
            let same = match tasks_get(&self.tasks, k) {
                Some(cur) => cur.id == t.id,
                None => false,
            };
            if same {
                proof {
                    assert(o.tasks.dom().contains(k));
                    assert(slot_key(k) == k);
                    assert forall|k2: u64| #[trigger] o.tasks.dom().contains(k2) && o.tasks[k2].id == t.id implies key_index(k)
                        <= key_index(k2) by {
                        assert(keys@.contains(k2));
                        let j = choose|j: int| 0 <= j < keys@.len() && keys@[j] == k2;
                        if j < i {
                            assert(o.tasks[keys@[j]].id != t.id);
                        } else if j > i {
                            assert(key_index(keys@[i as int]) < key_index(keys@[j]));
                        }
                    }
                    assert(first_with_id(o.tasks, t.id, k));
                    let c = choose|c: u64| first_with_id(o.tasks, t.id, c);
                    assert(key_index(c) == key_index(k));
                    assert(c == k);
                }
                let ghost tv = t@;
                match tasks_get_mut(&mut self.tasks, k) {
                    Some(slot) => {
                        *slot = t;
                    },
                    None => {},
                }
                proof {
                    assert(tv.id == t.id);
                    assert(first_with_id(o.tasks, tv.id, k));
                    let c = choose|c: u64| first_with_id(o.tasks, tv.id, c);
                    assert(c == k);
                    assert(self@.tasks == o.tasks.insert(c, tv));
                    assert(self@ == (ContentView { tasks: o.tasks.insert(c, tv), ..o }));
                }
                return Reaction { output: None, request: None };
            }
            i = i + 1;
        }
        proof {
            assert forall|k: u64| !first_with_id(o.tasks, t.id, k) by {
                if first_with_id(o.tasks, t.id, k) {
                    assert(keys@.contains(k));
                    let j = choose|j: int| 0 <= j < keys@.len() && keys@[j] == k;
                    assert(o.tasks[keys@[j]].id != t.id);
                }
            }
        }
        Reaction { output: None, request: None }
    }

    /// Flips the expanded flag of the task that `k` names, here and in the
    /// store.
    fn toggle_expanded(&mut self, k: u64) -> (r: Reaction)
        requires
            old(self).wf(),
        ensures
            final(self).wf(),
            expand_toggled(old(self)@, final(self)@, r@, k),
    {
        let list_id = match &self.selected_list {
            Some(l) => l.id,
            None => {
                return Reaction { output: None, request: None };
            },
        };
        match tasks_get_mut(&mut self.tasks, k) {
            Some(t) => {
                t.expanded = !t.expanded;
                Reaction { output: None, request: Some(StoreRequest::ToggleTaskExpanded { list_id, task_id: t.id }) }
            },
            None => Reaction { output: None, request: None },
        }
    }

    /// Asks to create a task titled as the new-task input.
    fn add_task(&self) -> (r: Reaction)
        ensures
            task_add_asked(self@, self@, r@),
    {
        match &self.selected_list {
            Some(l) => {
                if !self.add_task_input.as_str().is_empty() {
                    Reaction {
                        output: None,
                        request: Some(StoreRequest::CreateTask { list_id: l.id, title: self.add_task_input.clone() }),
                    }
                } else {
                    Reaction { output: None, request: None }
                }
            },
            None => Reaction { output: None, request: None },
        }
    }

    /// Adds a task the store created, with a new input handle, and clears
    /// the new-task input.
    fn task_created(&mut self, t: Task) -> (r: Reaction)
        requires
            old(self).wf(),
            old(self)@.tasks.dom().len() + 1 < 0xffff_ffff,
        ensures
            final(self).wf(),
            task_created(old(self)@, final(self)@, r@, t@),
    {
        let ghost o = self@;
        let ghost tv = t@;
        let k = tasks_insert(&mut self.tasks, t);
        let h = self.next_input;
        inputs_insert(&mut self.inputs, k, h);
        self.next_input = advance_handle(h);
        self.add_task_input = String::new();
        proof {
            lemma_insert_agrees(o.tasks, o.versions, k, tv, o.inputs, h);
            assert forall|a: u64| #[trigger] self@.tasks.dom().contains(a) implies slot_key(a) == a && 1 <= key_index(a)
                < null_index() by {
                if a != k {
                    assert(o.tasks.dom().contains(a));
                }
            }
            assert forall|a: u64| #[trigger] self@.tasks.dom().contains(a) implies self@.inputs.dom().contains(a) by {
                if a != k {
                    assert(o.tasks.dom().contains(a));
                    assert(key_index(a) != key_index(k));
                }
            }
            assert(fresh_key(o, k));
        }
        Reaction { output: None, request: None }
    }

    /// Runs the edit machine on an edit-mode report for the task that `k`
    /// names.
    fn toggle_edit_mode(&mut self, k: u64, editing: bool) -> (r: Reaction)
        requires
            old(self).wf(),
            old(self)@.selected_list is Some && edit_state_of(old(self)@, k) == EditState::Idle && editing
                ==> old(self)@.inputs.dom().contains(slot_key(k)),
        ensures
            final(self).wf(),
            edit_mode_toggled(old(self)@, final(self)@, r@, k, editing),
    {
        let ghost o = self@;
        let list_id = match &self.selected_list {
            Some(l) => l.id,
            None => {
                return Reaction { output: None, request: None };
            },
        };
        let current = match edits_get(&self.editing, k) {
            Some(s) => s,
            None => EditState::Idle,
        };
        let step = edit_step(current, editing);
        let mut output: Option<Output> = None;
        if step.focus {
            match inputs_get(&self.inputs, k) {
                Some(h) => {
                    output = Some(Output::Focus(Focus::Input(h)));
                },
                None => {},
            }
        }
        let mut request: Option<StoreRequest> = None;
        if step.persist {
            match tasks_get(&self.tasks, k) {
                Some(t) => {
                    request = Some(StoreRequest::UpdateTask { list_id, task: t.clone() });
                },
                None => {},
            }
        }
        match step.next {
            Some(s) => {
                edits_insert(&mut self.editing, k, s);
                proof {
                    lemma_secondary_insert_ok(o.editing, k, s);
                    lemma_slot_key(k);
                    if o.editing.dom().contains(slot_key(k)) {
                        assert(key_index(slot_key(k)) != 0);
                    } else {
                        assert(o.inputs.dom().contains(slot_key(k)));
                        assert(o.versions.dom().contains(key_index(slot_key(k)) as u64));
                    }
                    lemma_insert_off_slot_zero(o.editing, k, s);
                }
            },
            None => {},
        }
        Reaction { output, request }
    }

    /// Asks to save the title of the task that `k` names.
    fn submit_title(&self, k: u64) -> (r: Reaction)
        ensures
            title_submitted(self@, self@, r@, k),
    {
        let list_id = match &self.selected_list {
            Some(l) => l.id,
            None => {
                return Reaction { output: None, request: None };
            },
        };
        match tasks_get(&self.tasks, k) {
            Some(t) => Reaction { output: None, request: Some(StoreRequest::SaveTitle { list_id, key: k, task: t.clone() }) },
            None => Reaction { output: None, request: None },
        }
    }

    /// A title was saved: its input goes idle and focus returns to the
    /// new-task input.
    fn title_saved(&mut self, k: u64) -> (r: Reaction)
        requires
            old(self).wf(),
        ensures
            final(self).wf(),
            title_saved(old(self)@, final(self)@, r@, k),
    {
        let ghost o = self@;
        if tasks_get(&self.tasks, k).is_none() {
            return Reaction { output: None, request: None };
        }
        edits_insert(&mut self.editing, k, EditState::Idle);
        proof {
            lemma_secondary_insert_ok(o.editing, k, EditState::Idle);
            lemma_slot_key(k);
            lemma_insert_off_slot_zero(o.editing, k, EditState::Idle);
        }
        Reaction { output: Some(Output::Focus(Focus::NewTaskInput)), request: None }
    }

    /// Deletes the task that `k` names, here and in the store.
    fn delete_task(&mut self, k: u64) -> (r: Reaction)
        requires
            old(self).wf(),
        ensures
            final(self).wf(),
            task_deleted(old(self)@, final(self)@, r@, k),
    {
        let list_id = match &self.selected_list {
            Some(l) => l.id,
            None => {
                return Reaction { output: None, request: None };
            },
        };
        let ghost o = self@;
        let removed = tasks_remove(&mut self.tasks, k);
        proof {
            assert(self@.tasks.dom() =~= o.tasks.dom().remove(slot_key(k)));
            if !has_task(o, k) {
                assert(self@.tasks =~= o.tasks);
            }
        }
        match removed {
            Some(t) => Reaction { output: None, request: Some(StoreRequest::DeleteTask { list_id, task_id: t.id }) },
            None => Reaction { output: None, request: None },
        }
    }

    /// Marks the task that `k` names completed or not started, here and in
    /// the store.
    fn complete_task(&mut self, k: u64, complete: bool) -> (r: Reaction)
        requires
            old(self).wf(),
        ensures
            final(self).wf(),
            task_completed(old(self)@, final(self)@, r@, k, complete),
    {
        let list_id = match &self.selected_list {
            Some(l) => l.id,
            None => {
                return Reaction { output: None, request: None };
            },
        };
        match tasks_get_mut(&mut self.tasks, k) {
            Some(t) => {
                t.status = if complete { crate::model::Status::Completed } else { crate::model::Status::NotStarted };
                Reaction { output: None, request: Some(StoreRequest::UpdateTask { list_id, task: t.clone() }) }
            },
            None => Reaction { output: None, request: None },
        }
    }

    /// Expands the task that `k` names and asks for a new sub-task of it.
    fn add_sub_task(&mut self, k: u64) -> (r: Reaction)
        requires
            old(self).wf(),
        ensures
            final(self).wf(),
            sub_task_asked(old(self)@, final(self)@, r@, k),
    {
        let list_id = match &self.selected_list {
            Some(l) => l.id,
            None => {
                return Reaction { output: None, request: None };
            },
        };
        match tasks_get_mut(&mut self.tasks, k) {
            Some(t) => {
                t.expanded = true;
                Reaction { output: None, request: Some(StoreRequest::CreateSubTask { list_id, parent_key: k, parent_id: t.id }) }
            },
            None => Reaction { output: None, request: None },
        }
    }

    /// Adds a created sub-task of the task that `pk` names: the parent
    /// records it and is saved; the sub-task gets a new key and input handle,
    /// enters edit mode, and takes focus.
    fn sub_task_created(&mut self, pk: u64, sub: Task) -> (r: Reaction)
        requires
            old(self).wf(),
            old(self)@.tasks.dom().len() + 1 < 0xffff_ffff,
        ensures
            final(self).wf(),
            sub_task_created(old(self)@, final(self)@, r@, pk, sub@),
    {
        let ghost o = self@;
        let list_id = match &self.selected_list {
            Some(l) => l.id,
            None => {
                return Reaction { output: None, request: None };
            },
        };
        let saved = match tasks_get_mut(&mut self.tasks, pk) {
            Some(t) => {
                t.sub_task_ids.push(sub.id);
                t.clone()
            },
            None => {
                return Reaction { output: None, request: None };
            },
        };
        let ghost mid = self@;
        proof {
            assert(mid.tasks.dom() == o.tasks.dom());
        }
        let ghost sv = sub@;
        let k = tasks_insert(&mut self.tasks, sub);
        let h = self.next_input;
        inputs_insert(&mut self.inputs, k, h);
        edits_insert(&mut self.editing, k, EditState::Entering);
        self.next_input = advance_handle(h);
        proof {
            assert(mid.tasks.dom() =~= o.tasks.dom());
            lemma_insert_agrees(mid.tasks, o.versions, k, sv, o.inputs, h);
            lemma_secondary_insert_ok(o.editing, k, EditState::Entering);
            lemma_insert_off_slot_zero(o.editing, k, EditState::Entering);
            assert forall|a: u64| #[trigger] self@.tasks.dom().contains(a) implies self@.inputs.dom().contains(a) by {
                if a != k {
                    assert(o.tasks.dom().contains(a));
                    assert(key_index(a) != key_index(k));
                }
            }
            assert forall|a: u64| #[trigger] self@.tasks.dom().contains(a) implies slot_key(a) == a && 1 <= key_index(a)
                < null_index() by {
                if a != k {
                    assert(o.tasks.dom().contains(a));
                }
            }
            assert(fresh_key(o, k));
        }
        Reaction {
            output: Some(Output::Focus(Focus::Input(h))),
            request: Some(StoreRequest::UpdateTask { list_id, task: saved }),
        }
    }

    /// Asks the store to flip the selected list's hide-completed flag.
    fn ask_hide_completed(&self) -> (r: Reaction)
        ensures
            hide_completed_asked(self@, self@, r@),
    {
        match &self.selected_list {
            Some(l) => Reaction { output: None, request: Some(StoreRequest::ToggleListHideCompleted { list_id: l.id }) },
            None => Reaction { output: None, request: None },
        }
    }

    /// The store flipped the list's flag: the selected list takes the
    /// opposite of the stored value, and the stored list is passed on.
    fn hide_completed_saved(&mut self, updated: List) -> (r: Reaction)
        requires
            old(self).wf(),
        ensures
            final(self).wf(),
            hide_completed_saved(old(self)@, final(self)@, r@, updated),
    {
        match &self.selected_list {
            Some(l) => {
                let mut l2 = l.clone();
                l2.hide_completed = !updated.hide_completed;
                self.selected_list = Some(l2);
                Reaction { output: Some(Output::ToggleHideCompleted(updated)), request: None }
            },
            None => Reaction { output: None, request: None },
        }
    }

    /// Asks to open the details of the task that `k` names, if any.
    fn open_details(&self, k: u64) -> (r: Reaction)
        ensures
            details_opened(self@, self@, r@, k),
    {
        match tasks_get(&self.tasks, k) {
            Some(t) => Reaction { output: Some(Output::OpenTaskDetails(t.clone())), request: None },
            None => Reaction { output: None, request: None },
        }
    }
}

} // verus!
