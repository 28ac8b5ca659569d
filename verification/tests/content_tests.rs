use tasks::content::{Content, Focus, ListView, Message, Output, StoreRequest};
use tasks::listing::SortType;
use tasks::model::{AppConfig, List, Status, Task, Timestamp};

fn task(id: u128, title: &str, secs: i64) -> Task {
    Task {
        id,
        title: title.to_string(),
        status: Status::NotStarted,
        parent_id: None,
        expanded: false,
        creation_date: Timestamp { secs, nanos: 0 },
        sub_task_ids: Vec::new(),
    }
}

fn list(id: u128, hide_completed: bool) -> List {
    List { id, name: "Groceries".to_string(), icon: None, hide_completed }
}

fn titles(c: &Content, l: &List) -> Vec<String> {
    let keys = c.visible_tasks(l);
    keys.iter()
        .map(|k| {
            let row = c.task_view(*k);
            let _ = row;
            title_of(c, *k)
        })
        .collect()
}

fn title_of(c: &Content, k: u64) -> String {
    match c.task(k) {
        Some(t) => t.title,
        None => String::new(),
    }
}

fn loaded(tasks: Vec<Task>) -> (Content, List) {
    let mut c = Content::new(AppConfig { hide_completed: false });
    let l = list(7, false);
    let r = c.update(Message::SetList(Some(l.clone())));
    match r.request {
        Some(StoreRequest::LoadTasks { list_id }) => assert_eq!(list_id, 7),
        other => panic!("expected a load request, got {:?}", other),
    }
    let r = c.update(Message::SetTasks(tasks));
    assert!(r.output.is_none() && r.request.is_none());
    (c, l)
}

#[test]
fn new_content_is_empty_and_sorted_by_date() {
    let c = Content::new(AppConfig { hide_completed: true });
    assert!(c.selected_list().is_none());
    assert_eq!(c.sort_type(), SortType::DateAsc);
    assert!(!c.search_bar_visible());
    assert!(c.search_query().is_empty());
    assert!(c.add_task_input().is_empty());
    assert!(!c.context_menu_open());
}

#[test]
fn set_list_loads_only_a_new_list() {
    let mut c = Content::new(AppConfig { hide_completed: false });
    let r = c.update(Message::SetList(Some(list(1, false))));
    assert!(matches!(r.request, Some(StoreRequest::LoadTasks { list_id: 1 })));
    let r = c.update(Message::SetList(Some(list(1, true))));
    assert!(r.request.is_none());
    assert!(c.selected_list().unwrap().hide_completed);
    let r = c.update(Message::SetList(Some(list(2, false))));
    assert!(matches!(r.request, Some(StoreRequest::LoadTasks { list_id: 2 })));
    let r = c.update(Message::SetList(None));
    assert!(r.request.is_none());
    assert!(c.selected_list().is_none());
}

#[test]
fn date_order_ascending_and_descending() {
    let (mut c, l) = loaded(vec![task(1, "b", 20), task(2, "a", 10), task(3, "c", 30)]);
    assert_eq!(titles(&c, &l), vec!["a", "b", "c"]);
    c.update(Message::SetSort(SortType::DateDesc));
    assert_eq!(titles(&c, &l), vec!["c", "b", "a"]);
}

#[test]
fn name_order_ignores_case() {
    let (mut c, l) = loaded(vec![task(1, "banana", 1), task(2, "Apple", 2), task(3, "cherry", 3)]);
    c.update(Message::SetSort(SortType::NameAsc));
    assert_eq!(titles(&c, &l), vec!["Apple", "banana", "cherry"]);
    c.update(Message::SetSort(SortType::NameDesc));
    assert_eq!(titles(&c, &l), vec!["cherry", "banana", "Apple"]);
}

#[test]
fn equal_names_keep_their_slot_order() {
    let (mut c, l) = loaded(vec![task(1, "Same", 3), task(2, "same", 1), task(3, "SAME", 2)]);
    assert_eq!(titles(&c, &l), vec!["same", "SAME", "Same"]);
    let mut slot_order = c.visible_tasks(&l);
    slot_order.sort_by_key(|k| k & 0xffff_ffff);
    c.update(Message::SetSort(SortType::NameAsc));
    assert_eq!(c.visible_tasks(&l), slot_order);
    c.update(Message::SetSort(SortType::NameDesc));
    assert_eq!(c.visible_tasks(&l), slot_order);
}

#[test]
fn search_filters_case_insensitively_only_while_the_bar_shows() {
    let (mut c, l) = loaded(vec![task(1, "Buy Milk", 1), task(2, "Walk dog", 2)]);
    c.update(Message::SearchQueryChanged("MILK".to_string()));
    assert_eq!(titles(&c, &l), vec!["Buy Milk", "Walk dog"]);
    c.update(Message::ToggleSearchBar);
    assert!(c.search_bar_visible());
    assert_eq!(titles(&c, &l), vec!["Buy Milk"]);
    c.update(Message::ToggleSearchBar);
    assert!(!c.search_bar_visible());
    assert!(c.search_query().is_empty());
    assert_eq!(titles(&c, &l), vec!["Buy Milk", "Walk dog"]);
}

#[test]
fn no_match_with_a_query_lists_nothing_but_is_not_the_placeholder() {
    let (mut c, l) = loaded(vec![task(1, "Buy Milk", 1)]);
    c.update(Message::ToggleSearchBar);
    c.update(Message::SearchQueryChanged("xyz".to_string()));
    match c.list_view(&l) {
        ListView::Tasks(ks) => assert!(ks.is_empty()),
        ListView::Empty => panic!("a typed query shows the (empty) list"),
    }
}

#[test]
fn empty_list_shows_the_placeholder() {
    let (c, l) = loaded(vec![]);
    assert!(matches!(c.list_view(&l), ListView::Empty));
}

#[test]
fn hide_completed_by_list_or_by_settings() {
    let mut done = task(2, "done", 2);
    done.status = Status::Completed;
    let (mut c, l) = loaded(vec![task(1, "open", 1), done]);
    assert_eq!(titles(&c, &l), vec!["open", "done"]);
    assert_eq!(titles(&c, &list(7, true)), vec!["open"]);
    assert!(c.hide_completed_active(&list(7, true)));
    c.update(Message::SetConfig(AppConfig { hide_completed: true }));
    assert!(c.hide_completed_active(&l));
    assert_eq!(titles(&c, &l), vec!["open"]);
}

#[test]
fn sub_tasks_are_not_listed_at_top_level() {
    let mut child = task(2, "child", 2);
    child.parent_id = Some(1);
    let (c, l) = loaded(vec![task(1, "parent", 1), child]);
    assert_eq!(titles(&c, &l), vec!["parent"]);
}

#[test]
fn task_row_counts_sub_tasks_and_shows_them_while_expanded() {
    let mut a = task(2, "a", 2);
    a.parent_id = Some(1);
    a.status = Status::Completed;
    let mut b = task(3, "b", 3);
    b.parent_id = Some(1);
    let mut parent = task(1, "parent", 1);
    parent.status = Status::Completed;
    let (mut c, l) = loaded(vec![parent, a, b]);
    let k = c.visible_tasks(&l)[0];
    let row = c.task_view(k);
    assert!(row.completed);
    assert_eq!(row.expand, Some(false));
    assert_eq!(row.progress, Some((1, 2)));
    assert!(row.children.is_empty());
    assert!(!row.editing);
    let r = c.update(Message::TaskExpand(k));
    assert!(matches!(r.request, Some(StoreRequest::ToggleTaskExpanded { list_id: 7, task_id: 1 })));
    let row = c.task_view(k);
    assert_eq!(row.expand, Some(true));
    assert_eq!(row.children.len(), 2);
    assert_eq!(title_of(&c, row.children[0]), "a");
    assert_eq!(title_of(&c, row.children[1]), "b");
    let leaf = c.task_view(row.children[1]);
    assert_eq!(leaf.expand, None);
    assert_eq!(leaf.progress, None);
}

#[test]
fn adding_a_task_goes_through_the_store() {
    let (mut c, l) = loaded(vec![]);
    let r = c.update(Message::TaskAdd);
    assert!(r.request.is_none());
    c.update(Message::TaskTitleInput("Call mom".to_string()));
    let r = c.update(Message::TaskAdd);
    match r.request {
        Some(StoreRequest::CreateTask { list_id, title }) => {
            assert_eq!(list_id, 7);
            assert_eq!(title, "Call mom");
        }
        other => panic!("expected CreateTask, got {:?}", other),
    }
    assert_eq!(c.add_task_input(), "Call mom");
    let created = task(9, "Call mom", 5);
    assert!(c.accepts_message(&Message::TaskCreated(created.clone())));
    c.update(Message::TaskCreated(created));
    assert!(c.add_task_input().is_empty());
    assert_eq!(titles(&c, &l), vec!["Call mom"]);
    let k = c.visible_tasks(&l)[0];
    assert!(c.input_of(k).is_some());
}

#[test]
fn no_list_selected_ignores_task_actions() {
    let mut c = Content::new(AppConfig { hide_completed: false });
    c.update(Message::TaskTitleInput("x".to_string()));
    assert!(c.update(Message::TaskAdd).request.is_none());
    assert!(c.update(Message::TaskExpand(5)).request.is_none());
    assert!(c.update(Message::TaskDelete(5)).request.is_none());
    assert!(c.update(Message::ToggleHideCompleted).request.is_none());
    assert!(c.update(Message::TaskToggleTitleEditMode(5, true)).output.is_none());
}

#[test]
fn edit_mode_machine_runs_through_a_full_round() {
    let (mut c, l) = loaded(vec![task(1, "title", 1)]);
    let k = c.visible_tasks(&l)[0];
    let handle = c.input_of(k).unwrap();
    let r = c.update(Message::TaskToggleTitleEditMode(k, true));
    assert!(matches!(r.output, Some(Output::Focus(Focus::Input(h))) if h == handle));
    assert!(r.request.is_none());
    assert!(c.task_view(k).editing);
    let r = c.update(Message::TaskToggleTitleEditMode(k, true));
    assert!(r.output.is_none() && r.request.is_none());
    assert!(c.task_view(k).editing);
    c.update(Message::TaskTitleUpdate(k, "new title".to_string()));
    let r = c.update(Message::TaskToggleTitleEditMode(k, false));
    match r.request {
        Some(StoreRequest::UpdateTask { list_id, task }) => {
            assert_eq!(list_id, 7);
            assert_eq!(task.title, "new title");
        }
        other => panic!("expected UpdateTask, got {:?}", other),
    }
    assert!(!c.task_view(k).editing);
    let r = c.update(Message::TaskToggleTitleEditMode(k, true));
    assert!(r.output.is_none(), "a focus report while exiting is ignored");
    let r = c.update(Message::TaskToggleTitleEditMode(k, false));
    assert!(r.output.is_none() && r.request.is_none());
    let r = c.update(Message::TaskToggleTitleEditMode(k, true));
    assert!(r.output.is_some(), "back in idle, editing can start again");
}

#[test]
fn redundant_edit_reports_change_nothing() {
    let (mut c, l) = loaded(vec![task(1, "title", 1)]);
    let k = c.visible_tasks(&l)[0];
    let r = c.update(Message::TaskToggleTitleEditMode(k, false));
    assert!(r.output.is_none() && r.request.is_none());
    assert!(!c.task_view(k).editing);
}

#[test]
fn edit_mode_without_an_input_is_refused() {
    let (c, _l) = loaded(vec![]);
    assert!(!c.accepts_message(&Message::TaskToggleTitleEditMode(12345, true)));
    assert!(c.accepts_message(&Message::TaskToggleTitleEditMode(12345, false)));
    assert!(c.accepts_message(&Message::Empty));
}

#[test]
fn submitting_a_title_saves_then_returns_focus() {
    let (mut c, l) = loaded(vec![task(1, "title", 1)]);
    let k = c.visible_tasks(&l)[0];
    c.update(Message::TaskToggleTitleEditMode(k, true));
    let r = c.update(Message::TaskTitleSubmit(k));
    match r.request {
        Some(StoreRequest::SaveTitle { list_id, key, task }) => {
            assert_eq!((list_id, key, task.id), (7, k, 1));
        }
        other => panic!("expected SaveTitle, got {:?}", other),
    }
    assert!(c.task_view(k).editing);
    let r = c.update(Message::TitleSaved(k));
    assert!(matches!(r.output, Some(Output::Focus(Focus::NewTaskInput))));
    assert!(!c.task_view(k).editing);
}

#[test]
fn completing_and_deleting_tasks() {
    let (mut c, l) = loaded(vec![task(1, "one", 1), task(2, "two", 2)]);
    let keys = c.visible_tasks(&l);
    let r = c.update(Message::TaskComplete(keys[0], true));
    match r.request {
        Some(StoreRequest::UpdateTask { task, .. }) => assert_eq!(task.status, Status::Completed),
        other => panic!("expected UpdateTask, got {:?}", other),
    }
    assert!(c.task_view(keys[0]).completed);
    let r = c.update(Message::TaskComplete(keys[0], false));
    assert!(matches!(r.request, Some(StoreRequest::UpdateTask { .. })));
    assert!(!c.task_view(keys[0]).completed);
    let r = c.update(Message::TaskDelete(keys[1]));
    assert!(matches!(r.request, Some(StoreRequest::DeleteTask { list_id: 7, task_id: 2 })));
    assert_eq!(titles(&c, &l), vec!["one"]);
    let r = c.update(Message::TaskDelete(keys[1]));
    assert!(r.request.is_none(), "a deleted key names nothing");
}

#[test]
fn adding_a_sub_task_records_it_on_the_parent() {
    let (mut c, l) = loaded(vec![task(1, "parent", 1)]);
    let k = c.visible_tasks(&l)[0];
    let r = c.update(Message::TaskAddSubTask(k));
    assert!(matches!(r.request, Some(StoreRequest::CreateSubTask { list_id: 7, parent_key, parent_id: 1 }) if parent_key == k));
    assert_eq!(c.task_view(k).expand, None);
    let mut sub = task(5, "", 2);
    sub.parent_id = Some(1);
    let r = c.update(Message::SubTaskCreated(k, sub));
    match r.request {
        Some(StoreRequest::UpdateTask { task, .. }) => assert_eq!(task.sub_task_ids, vec![5]),
        other => panic!("expected UpdateTask, got {:?}", other),
    }
    let row = c.task_view(k);
    assert_eq!(row.expand, Some(true));
    assert_eq!(row.children.len(), 1);
    let child = row.children[0];
    assert!(matches!(r.output, Some(Output::Focus(Focus::Input(h))) if Some(h) == c.input_of(child)));
    assert!(c.task_view(child).editing, "a new sub-task starts in edit mode");
}

#[test]
fn refresh_replaces_the_task_with_the_same_id() {
    let (mut c, l) = loaded(vec![task(1, "old", 1), task(2, "other", 2)]);
    c.update(Message::RefreshTask(task(1, "fresh", 1)));
    assert_eq!(titles(&c, &l), vec!["fresh", "other"]);
    c.update(Message::RefreshTask(task(99, "ghost", 1)));
    assert_eq!(titles(&c, &l), vec!["fresh", "other"]);
}

#[test]
fn open_details_reports_the_task() {
    let (mut c, l) = loaded(vec![task(1, "one", 1)]);
    let k = c.visible_tasks(&l)[0];
    let r = c.update(Message::TaskOpenDetails(k));
    assert!(matches!(r.output, Some(Output::OpenTaskDetails(t)) if t.id == 1));
    let r = c.update(Message::TaskOpenDetails(0));
    assert!(r.output.is_none());
}

#[test]
fn hide_completed_toggle_takes_the_opposite_of_the_stored_flag() {
    let (mut c, _l) = loaded(vec![]);
    let r = c.update(Message::ToggleHideCompleted);
    assert!(matches!(r.request, Some(StoreRequest::ToggleListHideCompleted { list_id: 7 })));
    let stored = list(7, true);
    let r = c.update(Message::HideCompletedSaved(stored));
    assert!(matches!(r.output, Some(Output::ToggleHideCompleted(ref u)) if u.hide_completed));
    assert!(!c.selected_list().unwrap().hide_completed);
}

#[test]
fn context_menu_and_empty_messages() {
    let mut c = Content::new(AppConfig { hide_completed: false });
    let r = c.update(Message::ContextMenuOpen(true));
    assert!(r.output.is_none() && r.request.is_none());
    assert!(c.context_menu_open());
    c.update(Message::Empty);
    assert!(c.context_menu_open());
}

#[test]
fn loading_replaces_tasks_and_clears_the_new_task_input() {
    let (mut c, l) = loaded(vec![task(1, "one", 1)]);
    c.update(Message::TaskTitleInput("draft".to_string()));
    c.update(Message::SetTasks(vec![task(2, "two", 2), task(3, "three", 3)]));
    assert!(c.add_task_input().is_empty());
    assert_eq!(titles(&c, &l), vec!["two", "three"]);
    for k in c.visible_tasks(&l) {
        assert!(c.input_of(k).is_some());
        assert!(!c.task_view(k).editing);
    }
}

#[test]
fn a_task_in_a_reused_slot_gets_an_input_handle() {
    let (mut c, l) = loaded(vec![task(1, "a", 10), task(2, "b", 20)]);
    let keys = c.visible_tasks(&l);
    assert_eq!(keys.len(), 2);
    let gone = keys[0];
    let r = c.update(Message::TaskDelete(gone));
    assert!(matches!(r.request, Some(StoreRequest::DeleteTask { list_id: 7, task_id: 1 })));
    assert!(c.task(gone).is_none());
    let r = c.update(Message::TaskCreated(task(3, "c", 30)));
    assert!(r.output.is_none() && r.request.is_none());
    let keys = c.visible_tasks(&l);
    assert_eq!(keys.len(), 2);
    let fresh = keys.iter().copied().find(|k| title_of(&c, *k) == "c").unwrap();
    assert_ne!(fresh, gone);
    assert_eq!(fresh & 0xffff_ffff, gone & 0xffff_ffff);
    assert_eq!(c.input_of(fresh), Some(2));
    for k in keys.iter() {
        assert!(c.input_of(*k).is_some());
    }
    let r = c.update(Message::TaskAddSubTask(fresh));
    assert!(matches!(r.request, Some(StoreRequest::CreateSubTask { list_id: 7, parent_id: 3, .. })));
    let mut sub = task(4, "", 40);
    sub.parent_id = Some(3);
    let r = c.update(Message::SubTaskCreated(fresh, sub));
    match r.output {
        Some(Output::Focus(Focus::Input(h))) => assert_eq!(h, 3),
        other => panic!("expected focus on the sub-task's input, got {:?}", other),
    }
    let row = c.task_view(fresh);
    assert_eq!(row.children.len(), 1);
    let child = row.children[0];
    assert_eq!(c.input_of(child), Some(3));
    assert!(c.task_view(child).editing);
}

#[test]
fn a_saved_title_of_a_missing_task_records_nothing() {
    let (mut c, l) = loaded(vec![task(1, "a", 10)]);
    let r = c.update(Message::TitleSaved(0));
    assert!(r.output.is_none() && r.request.is_none());
    let r = c.update(Message::SetTasks(vec![task(2, "b", 20)]));
    assert!(r.output.is_none() && r.request.is_none());
    let keys = c.visible_tasks(&l);
    assert_eq!(keys.len(), 1);
    assert!(!c.task_view(keys[0]).editing);
    let r = c.update(Message::TitleSaved(keys[0]));
    assert!(matches!(r.output, Some(Output::Focus(Focus::NewTaskInput))));
}
