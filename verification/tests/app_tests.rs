use tasks::actions::{MenuAction, NavMenuAction};
use tasks::app::{
    AppModel, ApplicationAction, CalendarDate, Command, ContextPage, DetailsOutput, DialogAction, DialogPage, Message,
    NavEntry, NavView, TasksAction,
};
use tasks::content::{Focus, Message as ContentMessage, StoreRequest};
use tasks::listing::SortType;
use tasks::model::{AppConfig, List, Status, Task, Timestamp};

fn list(id: u128, name: &str) -> List {
    List { id, name: name.to_string(), icon: None, hide_completed: false }
}

fn nav(active: Option<u64>) -> NavView {
    NavView {
        entries: vec![NavEntry { entity: 10, list: list(1, "Home") }, NavEntry { entity: 11, list: list(2, "Work") }],
        active,
    }
}

fn empty_nav() -> NavView {
    NavView { entries: vec![], active: None }
}

fn model() -> AppModel {
    let (m, cmds) = AppModel::new(AppConfig { hide_completed: false }, false);
    assert_eq!(cmds.len(), 1);
    assert!(matches!(cmds[0], Command::LoadLists));
    m
}

#[test]
fn start_up_loads_the_lists() {
    let m = model();
    assert_eq!(m.context_page(), ContextPage::Settings);
    assert!(!m.show_context());
    assert!(m.dialog().is_none());
    assert!(m.content().selected_list().is_none());
}

#[test]
fn menu_action_messages() {
    assert!(matches!(MenuAction::About.message(), Message::ToggleContextPage(ContextPage::About)));
    assert!(matches!(MenuAction::Settings.message(), Message::ToggleContextPage(ContextPage::Settings)));
    assert!(matches!(MenuAction::NewList.message(), Message::Menu(MenuAction::NewList)));
    assert!(matches!(NavMenuAction::Export(3).message(), Message::NavMenu(NavMenuAction::Export(3))));
}

#[test]
fn toggling_a_context_page() {
    let mut m = model();
    let n = empty_nav();
    let cmds = m.update(Message::ToggleContextPage(ContextPage::About), &n);
    assert_eq!(m.context_page(), ContextPage::About);
    assert!(m.show_context());
    assert!(matches!(cmds[0], Command::Send(Message::Content(ContentMessage::ContextMenuOpen(true)))));
    let cmds = m.update(Message::ToggleContextPage(ContextPage::About), &n);
    assert!(!m.show_context());
    assert!(matches!(cmds[0], Command::Send(Message::Content(ContentMessage::ContextMenuOpen(false)))));
    m.update(Message::ToggleContextDrawer, &n);
    assert!(m.show_context());
    assert_eq!(m.context_page(), ContextPage::About);
}

#[test]
fn menu_actions_become_commands() {
    let mut m = model();
    let n = empty_nav();
    let cmds = m.update(Message::Menu(MenuAction::NewList), &n);
    assert!(matches!(&cmds[0], Command::Send(Message::Dialog(DialogAction::Open(DialogPage::New(s)))) if s.is_empty()));
    let cmds = m.update(Message::Menu(MenuAction::SortByNameDesc), &n);
    assert!(matches!(cmds[0], Command::Send(Message::Content(ContentMessage::SetSort(SortType::NameDesc)))));
    let cmds = m.update(Message::Menu(MenuAction::WindowClose), &n);
    assert!(matches!(cmds[0], Command::CloseMainWindow));
    let cmds = m.update(Message::Menu(MenuAction::WindowNew), &n);
    assert!(matches!(cmds[0], Command::SpawnWindow));
    let cmds = m.update(Message::Menu(MenuAction::ToggleHideCompleted(true)), &n);
    assert!(m.config().hide_completed);
    assert!(matches!(cmds[0], Command::WriteHideCompleted(true)));
    assert!(matches!(cmds[1], Command::Send(Message::Content(ContentMessage::SetConfig(AppConfig { hide_completed: true })))));
}

#[test]
fn the_dialog_queue_is_first_in_first_out() {
    let mut m = model();
    let n = nav(Some(10));
    let cmds = m.update(Message::Dialog(DialogAction::Open(DialogPage::Delete(None))), &n);
    assert!(matches!(cmds[0], Command::Send(Message::Application(ApplicationAction::Focus))));
    m.update(Message::Dialog(DialogAction::Open(DialogPage::Export("md".to_string()))), &n);
    assert!(matches!(m.dialog(), Some(DialogPage::Delete(None))));
    m.update(Message::Dialog(DialogAction::Close), &n);
    assert!(matches!(m.dialog(), Some(DialogPage::Export(_))));
    m.update(Message::Dialog(DialogAction::Update(DialogPage::Export("other".to_string()))), &n);
    assert!(matches!(m.dialog(), Some(DialogPage::Export(s)) if s == "other"));
    let cmds = m.update(Message::Dialog(DialogAction::Complete), &n);
    assert!(matches!(&cmds[0], Command::CopyToClipboard(s) if s == "other"));
    assert!(m.dialog().is_none());
    assert!(m.update(Message::Dialog(DialogAction::Complete), &n).is_empty());
}

#[test]
fn dialog_update_needs_a_dialog() {
    let m = model();
    assert!(!m.accepts_message(&Message::Dialog(DialogAction::Update(DialogPage::Delete(None)))));
    assert!(m.accepts_message(&Message::Dialog(DialogAction::Close)));
}

#[test]
fn rename_dialog_starts_from_the_list_name_and_needs_a_list() {
    let mut m = model();
    m.update(Message::Dialog(DialogAction::Open(DialogPage::Rename(Some(11), String::new()))), &nav(Some(10)));
    assert!(matches!(m.dialog(), Some(DialogPage::Rename(Some(11), s)) if s == "Work"));
    m.update(Message::Dialog(DialogAction::Close), &nav(None));
    m.update(Message::Dialog(DialogAction::Open(DialogPage::Rename(None, String::new()))), &nav(None));
    assert!(m.dialog().is_none());
}

#[test]
fn completing_dialogs() {
    let mut m = model();
    let n = nav(Some(10));
    m.update(Message::Dialog(DialogAction::Open(DialogPage::New("Chores".to_string()))), &n);
    let cmds = m.update(Message::Dialog(DialogAction::Complete), &n);
    assert!(matches!(&cmds[0], Command::CreateList(s) if s == "Chores"));
    m.update(Message::Dialog(DialogAction::Open(DialogPage::Rename(Some(11), String::new()))), &n);
    m.update(Message::Dialog(DialogAction::Update(DialogPage::Rename(Some(11), "Job".to_string()))), &n);
    let cmds = m.update(Message::Dialog(DialogAction::Complete), &n);
    assert!(matches!(&cmds[0], Command::RenameStoredList(2, Some(11), s) if s == "Job"));
    m.update(Message::Dialog(DialogAction::Open(DialogPage::Delete(Some(11)))), &n);
    let cmds = m.update(Message::Dialog(DialogAction::Complete), &n);
    assert!(matches!(cmds[0], Command::Send(Message::Tasks(TasksAction::DeleteList(Some(11))))));
    m.update(Message::Dialog(DialogAction::Open(DialogPage::Icon(Some(11), "star".to_string(), String::new()))), &n);
    let cmds = m.update(Message::Dialog(DialogAction::Complete), &n);
    assert_eq!(cmds.len(), 5);
    assert!(matches!(&cmds[0], Command::SetActiveNavText(s) if s == "Work"));
    assert!(matches!(&cmds[1], Command::SetActiveNavIcon(s) if s == "star"));
    assert!(matches!(&cmds[2], Command::SetActiveListIcon(s) if s == "star"));
    assert!(matches!(&cmds[3], Command::SetStoredListIcon(1, s) if s == "star"));
    assert!(matches!(&cmds[4], Command::Send(Message::Content(ContentMessage::SetList(Some(l))))
        if l.id == 1 && l.icon.as_deref() == Some("star")));
    let day = CalendarDate { year: 2025, month: 3, day: 14 };
    m.update(Message::Dialog(DialogAction::Open(DialogPage::Calendar(day))), &n);
    let cmds = m.update(Message::Dialog(DialogAction::Complete), &n);
    assert!(matches!(cmds[0], Command::SetDueDate(d) if d == day));
}

#[test]
fn escape_closes_a_dialog_before_the_drawer() {
    let mut m = model();
    let n = empty_nav();
    m.update(Message::ToggleContextPage(ContextPage::About), &n);
    m.update(Message::Dialog(DialogAction::Open(DialogPage::Delete(None))), &n);
    m.on_escape();
    assert!(m.dialog().is_none());
    assert!(m.show_context());
    m.on_escape();
    assert!(!m.show_context());
}

#[test]
fn list_operations() {
    let mut m = model();
    let cmds = m.update(Message::Tasks(TasksAction::FetchLists), &empty_nav());
    assert!(matches!(cmds[0], Command::LoadLists));
    let cmds = m.update(Message::Tasks(TasksAction::PopulateLists(vec![list(1, "A"), list(2, "B")])), &empty_nav());
    assert_eq!(cmds.len(), 3);
    assert!(matches!(&cmds[0], Command::InsertNavEntry(l) if l.id == 1));
    assert!(matches!(&cmds[1], Command::InsertNavEntry(l) if l.id == 2));
    assert!(matches!(cmds[2], Command::SelectFirstNav));
    assert!(m.update(Message::Tasks(TasksAction::PopulateLists(vec![])), &empty_nav()).is_empty());
    let cmds = m.update(Message::Tasks(TasksAction::AddList(list(3, "C"))), &empty_nav());
    assert!(matches!(cmds[1], Command::SelectLastNav));
    let cmds = m.update(Message::Tasks(TasksAction::DeleteList(None)), &nav(Some(11)));
    assert!(matches!(cmds[0], Command::DeleteStoredList(2)));
    assert!(matches!(cmds[1], Command::Send(Message::Content(ContentMessage::SetList(None)))));
    let cmds = m.update(Message::Tasks(TasksAction::DeleteList(Some(99))), &nav(Some(11)));
    assert!(matches!(cmds[0], Command::RemoveActiveNav));
}

#[test]
fn selecting_a_list_loads_it_into_the_content_pane() {
    let mut m = model();
    let n = nav(Some(10));
    let cmds = m.on_nav_select(n.data(10), &n);
    assert!(matches!(cmds[0], Command::Store(StoreRequest::LoadTasks { list_id: 1 })));
    assert_eq!(m.content().selected_list().unwrap().id, 1);
    assert!(m.on_nav_select(None, &n).is_empty());
}

#[test]
fn navigation_menu_entries() {
    let mut m = model();
    let n = nav(Some(10));
    let cmds = m.update(Message::NavMenu(NavMenuAction::Export(11)), &n);
    assert!(matches!(&cmds[0], Command::ExportList(l) if l.id == 2));
    assert!(m.update(Message::NavMenu(NavMenuAction::Export(99)), &n).is_empty());
    let cmds = m.update(Message::NavMenu(NavMenuAction::Rename(11)), &n);
    assert!(matches!(&cmds[0], Command::Send(Message::Dialog(DialogAction::Open(DialogPage::Rename(Some(11), s)))) if s.is_empty()));
    let cmds = m.update(Message::NavMenu(NavMenuAction::Delete(10)), &n);
    assert!(matches!(cmds[0], Command::Send(Message::Dialog(DialogAction::Open(DialogPage::Delete(Some(10)))))));
}

#[test]
fn a_renamed_list_updates_the_entry_and_the_pane() {
    let mut m = model();
    let cmds = m.update(Message::ListRenamed(Some(11), "Job".to_string()), &nav(Some(10)));
    assert_eq!(cmds.len(), 3);
    assert!(matches!(&cmds[0], Command::SetEntryListName(Some(11), s) if s == "Job"));
    assert!(matches!(&cmds[2], Command::Send(Message::Content(ContentMessage::SetList(Some(l)))) if l.id == 2 && l.name == "Job"));
}

#[test]
fn content_outputs_become_commands() {
    let mut m = model();
    let n = nav(Some(10));
    m.on_nav_select(n.data(10), &n);
    let t = Task {
        id: 4,
        title: "t".to_string(),
        status: Status::NotStarted,
        parent_id: None,
        expanded: false,
        creation_date: Timestamp { secs: 0, nanos: 0 },
        sub_task_ids: vec![],
    };
    m.update(Message::Content(ContentMessage::SetTasks(vec![t])), &n);
    let k = m.content().visible_tasks(&list(1, "Home"))[0];
    let cmds = m.update(Message::Content(ContentMessage::TaskOpenDetails(k)), &n);
    assert!(matches!(&cmds[0], Command::ShowTaskDetails(t, Some(1)) if t.id == 4));
    assert!(matches!(cmds[1], Command::Send(Message::ToggleContextPage(ContextPage::TaskDetails))));
    let cmds = m.update(Message::Content(ContentMessage::TaskToggleTitleEditMode(k, true)), &n);
    assert!(matches!(cmds[0], Command::FocusInput(Focus::Input(_))));
}

#[test]
fn other_messages() {
    let mut m = model();
    let n = empty_nav();
    let cmds = m.update(Message::Open("https://example.org".to_string()), &n);
    assert!(matches!(&cmds[0], Command::OpenUrl(u) if u == "https://example.org"));
    let cmds = m.update(Message::Application(ApplicationAction::AppTheme(2)), &n);
    assert!(matches!(cmds[0], Command::WriteAppTheme(2)));
    let cmds = m.update(Message::Application(ApplicationAction::SystemThemeModeChange), &n);
    assert!(matches!(cmds[0], Command::ApplyTheme));
    let day = CalendarDate { year: 2024, month: 1, day: 2 };
    let cmds = m.update(Message::Details(DetailsOutput::OpenCalendarDialog(day)), &n);
    assert!(matches!(cmds[0], Command::Send(Message::Dialog(DialogAction::Open(DialogPage::Calendar(d)))) if d == day));
}

#[test]
fn nav_view_lookups() {
    let n = nav(Some(11));
    assert_eq!(n.data(10).unwrap().id, 1);
    assert!(n.data(12).is_none());
    assert_eq!(n.target(None).unwrap().id, 2);
    assert_eq!(n.target(Some(10)).unwrap().id, 1);
    assert!(nav(None).target(None).is_none());
}
