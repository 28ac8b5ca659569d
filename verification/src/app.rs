//! The application's message handling: the context drawer, the dialog
//! queue, the lists' navigation entries, the menus, and the content pane.
//! Each message changes the state and yields commands for the runner: more
//! messages to handle, store operations, changes to the navigation bar,
//! and window, clipboard and theme effects.
use vstd::prelude::*;
use std::collections::VecDeque;
use crate::actions::{MenuAction, NavMenuAction};
use crate::content::{
    accepts, reacts, Content, ContentView, Focus, Message as ContentMessage, Output, ReactionView, StoreRequest,
};
use crate::listing::SortType;
use crate::model::{AppConfig, List, Task};

verus! {

/// The page shown in the context drawer.
#[derive(Clone, Copy, Debug, PartialEq, Eq, Structural)]
pub enum ContextPage {
    About,
    Settings,
    TaskDetails,
}

/// A calendar day.
#[derive(Clone, Copy, Debug, PartialEq, Eq, Structural)]
pub struct CalendarDate {
    pub year: i32,
    pub month: u32,
    pub day: u32,
}

/// A dialog; the optional values are navigation entries (none: the active
/// one).
#[derive(Clone, Debug)]
pub enum DialogPage {
    /// A new list, with the name typed so far.
    New(String),
    /// Renaming a list, with the name typed so far.
    Rename(Option<u64>, String),
    Delete(Option<u64>),
    /// Choosing a list's icon: the icon name, and the search text.
    Icon(Option<u64>, String, String),
    /// Choosing a due date: the selected day.
    Calendar(CalendarDate),
    /// A list exported as Markdown text.
    Export(String),
}

/// What is done with the dialog queue.
#[derive(Clone, Debug)]
pub enum DialogAction {
    Open(DialogPage),
    /// Replaces the front dialog (as its inputs change).
    Update(DialogPage),
    Close,
    Complete,
    Nothing,
}

/// Operations on the lists.
#[derive(Clone, Debug)]
pub enum TasksAction {
    PopulateLists(Vec<List>),
    AddList(List),
    DeleteList(Option<u64>),
    FetchLists,
}

/// Application-wide actions.
#[derive(Clone, Debug)]
pub enum ApplicationAction {
    /// The theme chosen in the settings, by its position in the menu.
    AppTheme(usize),
    SystemThemeModeChange,
    /// Focus the dialog's text input.
    Focus,
}

/// What the task-details pane reports.
#[derive(Clone, Debug)]
pub enum DetailsOutput {
    /// Open the due-date calendar, showing this day.
    OpenCalendarDialog(CalendarDate),
    RefreshTask(Task),
}

/// A message of the application.
#[derive(Clone, Debug)]
pub enum Message {
    Content(ContentMessage),
    Details(DetailsOutput),
    Tasks(TasksAction),
    Menu(MenuAction),
    Dialog(DialogAction),
    NavMenu(NavMenuAction),
    Application(ApplicationAction),
    ToggleContextDrawer,
    ToggleContextPage(ContextPage),
    Open(String),
    /// The store renamed a list (renamed through this navigation entry, or
    /// the active one).
    ListRenamed(Option<u64>, String),
}

/// What the runner is asked to do.
#[derive(Clone, Debug)]
pub enum Command {
    /// Handle this message next.
    Send(Message),
    /// Open a link in the desktop's handler.
    OpenUrl(String),
    FocusInput(Focus),
    /// A store operation of the content pane.
    Store(StoreRequest),
    /// Show a task in the details pane, with the active list's identifier.
    ShowTaskDetails(Task, Option<u128>),
    /// Set the hide-completed flag of the active entry's list.
    SetActiveListHideCompleted(bool),
    /// Load all lists; on success send `Tasks(PopulateLists(..))`.
    LoadLists,
    /// Make a new list with this name and save it; on success send
    /// `Tasks(AddList(..))` with it.
    CreateList(String),
    /// Delete the stored list.
    DeleteStoredList(u128),
    /// Rename the stored list; on success send `ListRenamed` with the entry
    /// and the name.
    RenameStoredList(u128, Option<u64>, String),
    /// Set the name in the list data of this navigation entry (none: the
    /// active one).
    SetEntryListName(Option<u64>, String),
    SetActiveNavText(String),
    SetActiveNavIcon(String),
    /// Set the icon in the active entry's list data.
    SetActiveListIcon(String),
    /// Set the stored list's icon.
    SetStoredListIcon(u128, String),
    /// Give the task-details pane this due date.
    SetDueDate(CalendarDate),
    CopyToClipboard(String),
    /// Add a navigation entry for the list, at the end.
    InsertNavEntry(List),
    /// Activate the first navigation entry and handle its selection.
    SelectFirstNav,
    /// Activate the last navigation entry and handle its selection.
    SelectLastNav,
    RemoveActiveNav,
    /// Load the list's tasks; on success send `Dialog(Open(Export(..)))`
    /// with the list exported as Markdown.
    ExportList(List),
    /// Save the hide-completed setting.
    WriteHideCompleted(bool),
    /// Save the theme chosen by its position in the menu.
    WriteAppTheme(usize),
    /// Apply the configured theme.
    ApplyTheme,
    CloseMainWindow,
    SpawnWindow,
}

/// A navigation entry and its list.
#[derive(Clone, Debug)]
pub struct NavEntry {
    pub entity: u64,
    pub list: List,
}

/// The navigation bar as it stands: its entries in order, and the active
/// one.
#[derive(Clone, Debug)]
pub struct NavView {
    pub entries: Vec<NavEntry>,
    pub active: Option<u64>,
}

/// The list of the first entry of `s` that is `e`.
pub open spec fn entry_list(s: Seq<NavEntry>, e: u64) -> Option<List>
    decreases s.len(),
{
    if s.len() == 0 {
        None
    } else if s[0].entity == e {
        Some(s[0].list)
    } else {
        entry_list(s.drop_first(), e)
    }
}

/// The list of entry `e`, or of the active entry when `e` is none.
pub open spec fn target_list(nav: NavView, e: Option<u64>) -> Option<List> {
    match e {
        Some(x) => entry_list(nav.entries@, x),
        None => match nav.active {
            Some(a) => entry_list(nav.entries@, a),
            None => None,
        },
    }
}

impl NavView {
    /// The list of entry `e`, if there is such an entry.
    pub fn data(&self, e: u64) -> (r: Option<List>)
        ensures
            r == entry_list(self.entries@, e),
    {
        let mut i: usize = 0;
        proof {
            assert(self.entries@.subrange(0, self.entries@.len() as int) =~= self.entries@);
        }
        while i < self.entries.len()
            invariant
                i <= self.entries.len(),
                entry_list(self.entries@, e) == entry_list(self.entries@.subrange(i as int, self.entries@.len() as int), e),
            decreases self.entries.len() - i,
        {
            let ghost rest = self.entries@.subrange(i as int, self.entries@.len() as int);
            proof {
                assert(rest[0] == self.entries@[i as int]);
                assert(rest.drop_first() =~= self.entries@.subrange(i + 1, self.entries@.len() as int));
            }
            if self.entries[i].entity == e {
                return Some(self.entries[i].list.clone());
            }
            i = i + 1;
        }
        proof {
            assert(self.entries@.subrange(i as int, self.entries@.len() as int) =~= Seq::<NavEntry>::empty());
        }
        None
    }

    /// The list of entry `e`, or of the active entry when `e` is none.
    pub fn target(&self, e: Option<u64>) -> (r: Option<List>)
        ensures
            r == target_list(*self, e),
    {
        match e {
            Some(x) => self.data(x),
            None => match self.active {
                Some(a) => self.data(a),
                None => None,
            },
        }
    }
}

/// The application's state.
pub struct AppModel {
    context_page: ContextPage,
    show_context: bool,
    dialog_pages: VecDeque<DialogPage>,
    config: AppConfig,
    content: Content,
}

/// The application's state, as mathematical values.
pub struct AppView {
    pub context_page: ContextPage,
    /// The context drawer is shown.
    pub show_context: bool,
    /// Open dialogs, the shown one first.
    pub dialog_pages: Seq<DialogPage>,
    pub config: AppConfig,
    pub content: ContentView,
}

impl View for AppModel {
    type V = AppView;

    closed spec fn view(&self) -> AppView {
        AppView {
            context_page: self.context_page,
            show_context: self.show_context,
            dialog_pages: self.dialog_pages@,
            config: self.config,
            content: self.content@,
        }
    }
}

/// The command for a store request, if any.
pub open spec fn store_commands(q: Option<StoreRequest>) -> Seq<Command> {
    match q {
        Some(x) => seq![Command::Store(x)],
        None => Seq::empty(),
    }
}

/// The commands for what the content pane reports: focus moves; a task's
/// details open in the drawer (with the active list); the stored
/// hide-completed flag goes to the active entry's list.
pub open spec fn output_commands(o: Option<Output>, nav: NavView) -> Seq<Command> {
    match o {
        Some(Output::Focus(f)) => seq![Command::FocusInput(f)],
        Some(Output::OpenTaskDetails(t)) => seq![
            Command::ShowTaskDetails(t, match target_list(nav, None) { Some(l) => Some(l.id), None => None }),
            Command::Send(Message::ToggleContextPage(ContextPage::TaskDetails)),
        ],
        Some(Output::ToggleHideCompleted(l)) => seq![Command::SetActiveListHideCompleted(l.hide_completed)],
        None => Seq::empty(),
    }
}

/// The state with the content pane replaced.
pub open spec fn with_content(v: AppView, c: ContentView) -> AppView {
    AppView { content: c, ..v }
}

/// Selecting a navigation entry whose list is `list`: the content pane
/// shows that list.
pub open spec fn nav_selected(o: AppView, f: AppView, cmds: Seq<Command>, nav: NavView, list: Option<List>) -> bool {
    match list {
        Some(l) => exists|r: crate::content::Reaction|
            reacts(o.content, f.content, r@, ContentMessage::SetList(Some(l))) && f == with_content(o, f.content)
                && cmds == store_commands(r.request) + output_commands(r.output, nav),
        None => f == o && cmds == Seq::<Command>::empty(),
    }
}

/// Toggling a context page: the same page shows or hides the drawer,
/// another page is shown in it; the content pane learns whether the
/// drawer is open.
pub open spec fn context_page_toggled(o: AppView, f: AppView, cmds: Seq<Command>, page: ContextPage) -> bool {
    let show = if o.context_page == page { !o.show_context } else { true };
    &&& f == AppView { context_page: page, show_context: show, ..o }
    &&& cmds == seq![Command::Send(Message::Content(ContentMessage::ContextMenuOpen(show)))]
}

/// Escape closes the shown dialog, or else hides the context drawer.
pub open spec fn escaped(o: AppView, f: AppView) -> bool {
    if o.dialog_pages.len() > 0 {
        f == AppView { dialog_pages: o.dialog_pages.drop_first(), ..o }
    } else {
        f == AppView { show_context: false, ..o }
    }
}

/// The text is empty.
pub open spec fn blank(s: String) -> bool {
    s@.len() == 0
}

/// The command that sends `m` to be handled next.
pub open spec fn sends(c: Command, m: Message) -> bool {
    c == Command::Send(m)
}

/// A menu action: the about and settings pages toggle; window actions go
/// to the runner; the list actions open their dialogs (for the active
/// list); the hide-completed choice is set, saved and given to the content
/// pane; a sort order goes to the content pane.
pub open spec fn menu_handled(o: AppView, f: AppView, cmds: Seq<Command>, a: MenuAction) -> bool {
    match a {
        MenuAction::ToggleHideCompleted(b) => {
            let c = AppConfig { hide_completed: b, ..o.config };
            &&& f == AppView { config: c, ..o }
            &&& cmds == seq![
                Command::WriteHideCompleted(b),
                Command::Send(Message::Content(ContentMessage::SetConfig(c))),
            ]
        },
        _ => f == o && cmds.len() == 1 && match a {
            MenuAction::About => sends(cmds[0], Message::ToggleContextPage(ContextPage::About)),
            MenuAction::Settings => sends(cmds[0], Message::ToggleContextPage(ContextPage::Settings)),
            MenuAction::WindowClose => cmds[0] == Command::CloseMainWindow,
            MenuAction::WindowNew => cmds[0] == Command::SpawnWindow,
            MenuAction::NewList => cmds[0] matches Command::Send(
                Message::Dialog(DialogAction::Open(DialogPage::New(n))),
            ) && blank(n),
            MenuAction::DeleteList => sends(cmds[0], Message::Dialog(DialogAction::Open(DialogPage::Delete(None)))),
            MenuAction::RenameList => cmds[0] matches Command::Send(
                Message::Dialog(DialogAction::Open(DialogPage::Rename(e, n))),
            ) && e is None && blank(n),
            MenuAction::Icon => cmds[0] matches Command::Send(
                Message::Dialog(DialogAction::Open(DialogPage::Icon(e, n, q))),
            ) && e is None && blank(n) && blank(q),
            MenuAction::SortByNameAsc => sends(cmds[0], Message::Content(ContentMessage::SetSort(SortType::NameAsc))),
            MenuAction::SortByNameDesc => sends(cmds[0], Message::Content(ContentMessage::SetSort(SortType::NameDesc))),
            MenuAction::SortByDateAsc => sends(cmds[0], Message::Content(ContentMessage::SetSort(SortType::DateAsc))),
            MenuAction::SortByDateDesc => sends(cmds[0], Message::Content(ContentMessage::SetSort(SortType::DateDesc))),
            _ => false,
        },
    }
}

/// Opening a dialog: it joins the queue (a rename dialog only when its
/// list exists, starting from the list's name), and focus goes to the
/// dialog's input.
pub open spec fn dialog_opened(o: AppView, f: AppView, cmds: Seq<Command>, page: DialogPage, nav: NavView) -> bool {
    &&& f == match page {
        DialogPage::Rename(e, _) => match target_list(nav, e) {
            Some(l) => AppView { dialog_pages: o.dialog_pages.push(DialogPage::Rename(e, l.name)), ..o },
            None => o,
        },
        p => AppView { dialog_pages: o.dialog_pages.push(p), ..o },
    }
    &&& cmds == seq![Command::Send(Message::Application(ApplicationAction::Focus))]
}

/// Completing the shown dialog: it leaves the queue, and its work is
/// asked for: a new list is created; a rename is stored (for an existing
/// list); a delete goes to the lists; an icon is shown on the active entry
/// (when the dialog's list exists) and set on the active list, stored, and
/// given to the content pane; a due date goes to the details pane; an
/// export is copied to the clipboard.
pub open spec fn dialog_completed(o: AppView, f: AppView, cmds: Seq<Command>, nav: NavView) -> bool {
    if o.dialog_pages.len() == 0 {
        f == o && cmds == Seq::<Command>::empty()
    } else {
        &&& f == AppView { dialog_pages: o.dialog_pages.drop_first(), ..o }
        &&& match o.dialog_pages[0] {
            DialogPage::New(name) => cmds == seq![Command::CreateList(name)],
            DialogPage::Rename(e, name) => cmds == match target_list(nav, e) {
                Some(l) => seq![Command::RenameStoredList(l.id, e, name)],
                None => Seq::<Command>::empty(),
            },
            DialogPage::Delete(e) => cmds == seq![Command::Send(Message::Tasks(TasksAction::DeleteList(e)))],
            DialogPage::Icon(e, name, _) => cmds == match target_list(nav, e) {
                Some(l) => seq![Command::SetActiveNavText(l.name), Command::SetActiveNavIcon(name)],
                None => Seq::<Command>::empty(),
            } + match target_list(nav, None) {
                Some(a) => seq![
                    Command::SetActiveListIcon(name),
                    Command::SetStoredListIcon(a.id, name),
                    Command::Send(Message::Content(ContentMessage::SetList(Some(List { icon: Some(name), ..a })))),
                ],
                None => Seq::<Command>::empty(),
            },
            DialogPage::Calendar(d) => cmds == seq![Command::SetDueDate(d)],
            DialogPage::Export(text) => cmds == seq![Command::CopyToClipboard(text)],
        }
    }
}

/// A dialog action on the queue.
pub open spec fn dialog_handled(o: AppView, f: AppView, cmds: Seq<Command>, a: DialogAction, nav: NavView) -> bool {
    match a {
        DialogAction::Open(page) => dialog_opened(o, f, cmds, page, nav),
        DialogAction::Update(page) => f == AppView { dialog_pages: o.dialog_pages.update(0, page), ..o } && cmds
            == Seq::<Command>::empty(),
        DialogAction::Close => f == AppView {
            dialog_pages: if o.dialog_pages.len() > 0 { o.dialog_pages.drop_first() } else { o.dialog_pages },
            ..o
        } && cmds == Seq::<Command>::empty(),
        DialogAction::Complete => dialog_completed(o, f, cmds, nav),
        DialogAction::Nothing => f == o && cmds == Seq::<Command>::empty(),
    }
}

/// An operation on the lists: loading them; adding entries for loaded
/// lists and selecting the first entry; adding an entry for a new list and
/// selecting it; deleting a list (its stored data, and the content pane's
/// selection) or, with no such list, the active entry.
pub open spec fn tasks_handled(o: AppView, f: AppView, cmds: Seq<Command>, a: TasksAction, nav: NavView) -> bool {
    &&& f == o
    &&& match a {
        TasksAction::FetchLists => cmds == seq![Command::LoadLists],
        TasksAction::PopulateLists(lists) => {
            &&& cmds.len() == lists.len() + if nav.entries.len() + lists.len() > 0 { 1int } else { 0int }
            &&& forall|i: int| 0 <= i < lists.len() ==> cmds[i] == Command::InsertNavEntry(#[trigger] lists@[i])
            &&& nav.entries.len() + lists.len() > 0 ==> cmds[lists.len() as int] == Command::SelectFirstNav
        },
        TasksAction::AddList(l) => cmds == seq![Command::InsertNavEntry(l), Command::SelectLastNav],
        TasksAction::DeleteList(e) => cmds == match target_list(nav, e) {
            Some(l) => seq![
                Command::DeleteStoredList(l.id),
                Command::Send(Message::Content(ContentMessage::SetList(None))),
            ],
            None => seq![Command::RemoveActiveNav],
        },
    }
}

/// A list's context-menu entry: rename, icon and delete open their
/// dialogs for the entry; export exports the entry's list, if it exists.
pub open spec fn nav_menu_handled(o: AppView, f: AppView, cmds: Seq<Command>, a: NavMenuAction, nav: NavView) -> bool {
    &&& f == o
    &&& match a {
        NavMenuAction::Rename(e) => cmds.len() == 1 && (cmds[0] matches Command::Send(
            Message::Dialog(DialogAction::Open(DialogPage::Rename(x, n))),
        ) && x == Some(e) && blank(n)),
        NavMenuAction::SetIcon(e) => cmds.len() == 1 && (cmds[0] matches Command::Send(
            Message::Dialog(DialogAction::Open(DialogPage::Icon(x, n, q))),
        ) && x == Some(e) && blank(n) && blank(q)),
        NavMenuAction::Export(e) => cmds == match entry_list(nav.entries@, e) {
            Some(l) => seq![Command::ExportList(l)],
            None => Seq::<Command>::empty(),
        },
        NavMenuAction::Delete(e) => cmds == seq![
            Command::Send(Message::Dialog(DialogAction::Open(DialogPage::Delete(Some(e))))),
        ],
    }
}

/// A renamed list: the entry's list data and the active entry's text take
/// the name, and the content pane shows the renamed list.
pub open spec fn list_renamed(o: AppView, f: AppView, cmds: Seq<Command>, e: Option<u64>, name: String, nav: NavView) -> bool {
    &&& f == o
    &&& cmds == match target_list(nav, e) {
        Some(l) => seq![
            Command::SetEntryListName(e, name),
            Command::SetActiveNavText(name),
            Command::Send(Message::Content(ContentMessage::SetList(Some(List { name, ..l })))),
        ],
        None => Seq::<Command>::empty(),
    }
}

/// `message` can be handled without a panic: the content pane accepts
/// its message, and a dialog update has a dialog to replace.
pub open spec fn app_accepts(v: AppView, message: Message) -> bool {
    match message {
        Message::Content(m) => accepts(v.content, m),
        Message::Dialog(DialogAction::Update(_)) => v.dialog_pages.len() > 0,
        _ => true,
    }
}

/// How the application handles `message`, from state `o` to `f`, with the
/// navigation bar as `nav`.
pub open spec fn handles(o: AppView, f: AppView, cmds: Seq<Command>, message: Message, nav: NavView) -> bool {
    match message {
        Message::Content(m) => exists|r: crate::content::Reaction|
            reacts(o.content, f.content, r@, m) && f == with_content(o, f.content) && cmds == store_commands(r.request)
                + output_commands(r.output, nav),
        Message::Details(DetailsOutput::OpenCalendarDialog(d)) => f == o && cmds == seq![
            Command::Send(Message::Dialog(DialogAction::Open(DialogPage::Calendar(d)))),
        ],
        Message::Details(DetailsOutput::RefreshTask(t)) => f == o && cmds == seq![
            Command::Send(Message::Content(ContentMessage::RefreshTask(t))),
        ],
        Message::Tasks(a) => tasks_handled(o, f, cmds, a, nav),
        Message::Menu(a) => menu_handled(o, f, cmds, a),
        Message::Dialog(a) => dialog_handled(o, f, cmds, a, nav),
        Message::NavMenu(a) => nav_menu_handled(o, f, cmds, a, nav),
        Message::Application(ApplicationAction::AppTheme(i)) => f == o && cmds == seq![Command::WriteAppTheme(i)],
        Message::Application(ApplicationAction::SystemThemeModeChange) => f == o && cmds == seq![Command::ApplyTheme],
        Message::Application(ApplicationAction::Focus) => f == o && cmds == seq![
            Command::Send(Message::Application(ApplicationAction::Focus)),
        ],
        Message::ToggleContextDrawer => f == AppView { show_context: !o.show_context, ..o } && cmds == seq![
            Command::Send(Message::Content(ContentMessage::ContextMenuOpen(!o.show_context))),
        ],
        Message::ToggleContextPage(page) => context_page_toggled(o, f, cmds, page),
        Message::Open(url) => f == o && cmds == seq![Command::OpenUrl(url)],
        Message::ListRenamed(e, name) => list_renamed(o, f, cmds, e, name, nav),
    }
}

impl AppModel {
    /// The state's content pane is well formed.
    pub open spec fn wf(&self) -> bool {
        crate::content::content_ok(self@.content)
    }

    /// The state at start-up: the settings page chosen for the drawer,
    /// no dialog, an empty content pane; the lists are to be loaded.
    pub fn new(config: AppConfig, show_context: bool) -> (r: (AppModel, Vec<Command>))
        ensures
            r.0.wf(),
            r.0@.context_page == ContextPage::Settings,
            r.0@.show_context == show_context,
            r.0@.dialog_pages == Seq::<DialogPage>::empty(),
            r.0@.config == config,
            r.0@.content == crate::content::fresh_pane(config),
            r.1@.len() == 1,
            r.1@[0] matches Command::LoadLists,
    {
        let content = Content::new(config);
        let m = AppModel { context_page: ContextPage::Settings, show_context, dialog_pages: VecDeque::new(), config, content };
        let mut cmds: Vec<Command> = Vec::new();
        cmds.push(Command::LoadLists);
        (m, cmds)
    }

    /// Shows the drawer with `page`, or hides it when it already shows it.
    fn toggle_context_page(&mut self, page: ContextPage) -> (cmds: Vec<Command>)
        requires
            old(self).wf(),
        ensures
            final(self).wf(),
            context_page_toggled(old(self)@, final(self)@, cmds@, page),
    {
        if self.context_page == page {
            self.show_context = !self.show_context;
        } else {
            self.context_page = page;
            self.show_context = true;
        }
        let mut cmds: Vec<Command> = Vec::new();
        cmds.push(Command::Send(Message::Content(ContentMessage::ContextMenuOpen(self.show_context))));
        proof {
            assert(cmds@ =~= seq![Command::Send(Message::Content(ContentMessage::ContextMenuOpen(self.show_context)))]);
        }
        cmds
    }

    /// Handles a content message, turning the pane's answer into commands.
    fn on_content(&mut self, m: ContentMessage, nav: &NavView) -> (cmds: Vec<Command>)
        requires
            old(self).wf(),
            accepts(old(self)@.content, m),
        ensures
            final(self).wf(),
            exists|r: crate::content::Reaction|
                reacts(old(self)@.content, final(self)@.content, r@, m) && final(self)@ == with_content(
                    old(self)@,
                    final(self)@.content,
                ) && cmds@ == store_commands(r.request) + output_commands(r.output, *nav),
    {
        let r = self.content.update(m);
        let ghost rv = r;
        let mut cmds: Vec<Command> = Vec::new();
        match r.request {
            Some(q) => cmds.push(Command::Store(q)),
            None => {},
        }
        let ghost mid = cmds@;
        match r.output {
            Some(Output::Focus(f)) => cmds.push(Command::FocusInput(f)),
            Some(Output::OpenTaskDetails(t)) => {
                let list_id = match nav.target(None) {
                    Some(l) => Some(l.id),
                    None => None,
                };
                cmds.push(Command::ShowTaskDetails(t, list_id));
                cmds.push(Command::Send(Message::ToggleContextPage(ContextPage::TaskDetails)));
            },
            Some(Output::ToggleHideCompleted(l)) => cmds.push(Command::SetActiveListHideCompleted(l.hide_completed)),
            None => {},
        }
        proof {
            assert(mid =~= store_commands(rv.request));
            assert(cmds@ =~= store_commands(rv.request) + output_commands(rv.output, *nav));
        }
        cmds
    }

    /// Handles the selection of a navigation entry whose list is `list`:
    /// the content pane shows it.
    pub fn on_nav_select(&mut self, list: Option<List>, nav: &NavView) -> (cmds: Vec<Command>)
        requires
            old(self).wf(),
        ensures
            final(self).wf(),
            nav_selected(old(self)@, final(self)@, cmds@, *nav, list),
    {
        match list {
            Some(l) => self.on_content(ContentMessage::SetList(Some(l)), nav),
            None => Vec::new(),
        }
    }

    /// Handles a message: changes the state as `handles` says and returns
    /// the commands for the runner, in order.
    pub fn update(&mut self, message: Message, nav: &NavView) -> (cmds: Vec<Command>)
        requires
            old(self).wf(),
            app_accepts(old(self)@, message),
        ensures
            final(self).wf(),
            handles(old(self)@, final(self)@, cmds@, message, *nav),
    {
        match message {
            Message::Content(m) => self.on_content(m, nav),
            Message::Details(DetailsOutput::OpenCalendarDialog(d)) => {
                let mut cmds: Vec<Command> = Vec::new();
                cmds.push(Command::Send(Message::Dialog(DialogAction::Open(DialogPage::Calendar(d)))));
                proof {
                    assert(cmds@ =~= seq![Command::Send(Message::Dialog(DialogAction::Open(DialogPage::Calendar(d))))]);
                }
                cmds
            },
            Message::Details(DetailsOutput::RefreshTask(t)) => {
                let ghost tv = t;
                let mut cmds: Vec<Command> = Vec::new();
                cmds.push(Command::Send(Message::Content(ContentMessage::RefreshTask(t))));
                proof {
                    assert(cmds@ =~= seq![Command::Send(Message::Content(ContentMessage::RefreshTask(tv)))]);
                }
                cmds
            },
            Message::Tasks(a) => self.on_tasks(a, nav),
            Message::Menu(a) => self.on_menu(a),
            Message::Dialog(a) => self.on_dialog(a, nav),
            Message::NavMenu(a) => self.on_nav_menu(a, nav),
            Message::Application(a) => {
                let mut cmds: Vec<Command> = Vec::new();
                match a {
                    ApplicationAction::AppTheme(i) => {
                        cmds.push(Command::WriteAppTheme(i));
                        proof {
                            assert(cmds@ =~= seq![Command::WriteAppTheme(i)]);
                        }
                    },
                    ApplicationAction::SystemThemeModeChange => {
                        cmds.push(Command::ApplyTheme);
                        proof {
                            assert(cmds@ =~= seq![Command::ApplyTheme]);
                        }
                    },
                    ApplicationAction::Focus => {
                        cmds.push(Command::Send(Message::Application(ApplicationAction::Focus)));
                        proof {
                            assert(cmds@ =~= seq![Command::Send(Message::Application(ApplicationAction::Focus))]);
                        }
                    },
                }
                cmds
            },
            Message::ToggleContextDrawer => {
                self.show_context = !self.show_context;
                let mut cmds: Vec<Command> = Vec::new();
                cmds.push(Command::Send(Message::Content(ContentMessage::ContextMenuOpen(self.show_context))));
                proof {
                    assert(cmds@ =~= seq![Command::Send(Message::Content(ContentMessage::ContextMenuOpen(self.show_context)))]);
                }
                cmds
            },
            Message::ToggleContextPage(page) => self.toggle_context_page(page),
            Message::Open(url) => {
                let ghost u = url;
                let mut cmds: Vec<Command> = Vec::new();
                cmds.push(Command::OpenUrl(url));
                proof {
                    assert(cmds@ =~= seq![Command::OpenUrl(u)]);
                }
                cmds
            },
            Message::ListRenamed(e, name) => self.on_list_renamed(e, name, nav),
        }
    }

    /// A menu action.
    fn on_menu(&mut self, a: MenuAction) -> (cmds: Vec<Command>)
        requires
            old(self).wf(),
        ensures
            final(self).wf(),
            menu_handled(old(self)@, final(self)@, cmds@, a),
    {
        let mut cmds: Vec<Command> = Vec::new();
        match a {
            MenuAction::About => cmds.push(Command::Send(Message::ToggleContextPage(ContextPage::About))),
            MenuAction::Settings => cmds.push(Command::Send(Message::ToggleContextPage(ContextPage::Settings))),
            MenuAction::WindowClose => cmds.push(Command::CloseMainWindow),
            MenuAction::WindowNew => cmds.push(Command::SpawnWindow),
            MenuAction::NewList => cmds.push(Command::Send(Message::Dialog(DialogAction::Open(DialogPage::New(String::new()))))),
            MenuAction::DeleteList => cmds.push(Command::Send(Message::Dialog(DialogAction::Open(DialogPage::Delete(None))))),
            MenuAction::RenameList => cmds.push(
                Command::Send(Message::Dialog(DialogAction::Open(DialogPage::Rename(None, String::new())))),
            ),
            MenuAction::Icon => cmds.push(
                Command::Send(Message::Dialog(DialogAction::Open(DialogPage::Icon(None, String::new(), String::new())))),
            ),
            MenuAction::ToggleHideCompleted(b) => {
                self.config.hide_completed = b;
                cmds.push(Command::WriteHideCompleted(b));
                cmds.push(Command::Send(Message::Content(ContentMessage::SetConfig(self.config))));
            },
            MenuAction::SortByNameAsc => cmds.push(Command::Send(Message::Content(ContentMessage::SetSort(SortType::NameAsc)))),
            MenuAction::SortByNameDesc => cmds.push(Command::Send(Message::Content(ContentMessage::SetSort(SortType::NameDesc)))),
            MenuAction::SortByDateAsc => cmds.push(Command::Send(Message::Content(ContentMessage::SetSort(SortType::DateAsc)))),
            MenuAction::SortByDateDesc => cmds.push(Command::Send(Message::Content(ContentMessage::SetSort(SortType::DateDesc)))),
        }
        proof {
            match a {
                MenuAction::ToggleHideCompleted(b) => {
                    assert(cmds@ =~= seq![
                        Command::WriteHideCompleted(b),
                        Command::Send(Message::Content(ContentMessage::SetConfig(self@.config))),
                    ]);
                },
                _ => {},
            }
        }
        cmds
    }

    /// Completes the shown dialog.
    pub fn complete_dialog(&mut self, nav: &NavView) -> (cmds: Vec<Command>)
        requires
            old(self).wf(),
        ensures
            final(self).wf(),
            dialog_completed(old(self)@, final(self)@, cmds@, *nav),
    {
        let mut cmds: Vec<Command> = Vec::new();
        let ghost before = self.dialog_pages@;
        let page = match self.dialog_pages.pop_front() {
            Some(p) => p,
            None => {
                proof {
                    assert(cmds@ =~= Seq::<Command>::empty());
                }
                return cmds;
            },
        };
        proof {
            assert(self.dialog_pages@ =~= before.drop_first());
        }
        match page {
            DialogPage::New(name) => {
                cmds.push(Command::CreateList(name));
                proof {
                    assert(cmds@ =~= seq![Command::CreateList(name)]);
                }
            },
            DialogPage::Rename(e, name) => match nav.target(e) {
                Some(l) => {
                    cmds.push(Command::RenameStoredList(l.id, e, name));
                    proof {
                        assert(cmds@ =~= seq![Command::RenameStoredList(l.id, e, name)]);
                    }
                },
                None => {
                    proof {
                        assert(cmds@ =~= Seq::<Command>::empty());
                    }
                },
            },
            DialogPage::Delete(e) => {
                cmds.push(Command::Send(Message::Tasks(TasksAction::DeleteList(e))));
                proof {
                    assert(cmds@ =~= seq![Command::Send(Message::Tasks(TasksAction::DeleteList(e)))]);
                }
            },
            DialogPage::Icon(e, name, _) => {
                let ghost nm = name;
                match nav.target(e) {
                    Some(l) => {
                        cmds.push(Command::SetActiveNavText(l.name));
                        cmds.push(Command::SetActiveNavIcon(name.clone()));
                        proof {
                            assert(cmds@ =~= seq![Command::SetActiveNavText(l.name), Command::SetActiveNavIcon(nm)]);
                        }
                    },
                    None => {
                        proof {
                            assert(cmds@ =~= Seq::<Command>::empty());
                        }
                    },
                }
                let ghost first = cmds@;
                let mut second: Vec<Command> = Vec::new();
                match nav.target(None) {
                    Some(a) => {
                        let ghost av = a;
                        let id = a.id;
                        let mut shown = a;
                        shown.icon = Some(name.clone());
                        second.push(Command::SetActiveListIcon(name.clone()));
                        second.push(Command::SetStoredListIcon(id, name));
                        second.push(Command::Send(Message::Content(ContentMessage::SetList(Some(shown)))));
                        proof {
                            assert(shown == List { icon: Some(nm), ..av });
                            assert(second@ =~= seq![
                                Command::SetActiveListIcon(nm),
                                Command::SetStoredListIcon(av.id, nm),
                                Command::Send(Message::Content(ContentMessage::SetList(Some(List { icon: Some(nm), ..av })))),
                            ]);
                        }
                    },
                    None => {
                        proof {
                            assert(second@ =~= Seq::<Command>::empty());
                        }
                    },
                }
                cmds.append(&mut second);
            },
            DialogPage::Calendar(d) => {
                cmds.push(Command::SetDueDate(d));
                proof {
                    assert(cmds@ =~= seq![Command::SetDueDate(d)]);
                }
            },
            DialogPage::Export(text) => {
                cmds.push(Command::CopyToClipboard(text));
                proof {
                    assert(cmds@ =~= seq![Command::CopyToClipboard(text)]);
                }
            },
        }
        cmds
    }

    /// A dialog action on the queue.
    fn on_dialog(&mut self, a: DialogAction, nav: &NavView) -> (cmds: Vec<Command>)
        requires
            old(self).wf(),
            a matches DialogAction::Update(_) ==> old(self)@.dialog_pages.len() > 0,
        ensures
            final(self).wf(),
            dialog_handled(old(self)@, final(self)@, cmds@, a, *nav),
    {
        match a {
            DialogAction::Open(page) => {
                match page {
                    DialogPage::Rename(e, n) => {
                        match nav.target(e) {
                            Some(l) => self.dialog_pages.push_back(DialogPage::Rename(e, l.name)),
                            None => {},
                        }
                    },
                    p => self.dialog_pages.push_back(p),
                }
                let mut cmds: Vec<Command> = Vec::new();
                cmds.push(Command::Send(Message::Application(ApplicationAction::Focus)));
                proof {
                    assert(cmds@ =~= seq![Command::Send(Message::Application(ApplicationAction::Focus))]);
                }
                cmds
            },
            DialogAction::Update(page) => {
                let ghost before = self.dialog_pages@;
                let _ = self.dialog_pages.pop_front();
                self.dialog_pages.push_front(page);
                proof {
                    assert(self.dialog_pages@ =~= before.update(0, page));
                }
                let cmds: Vec<Command> = Vec::new();
                proof {
                    assert(cmds@ =~= Seq::<Command>::empty());
                }
                cmds
            },
            DialogAction::Close => {
                let ghost before = self.dialog_pages@;
                let _ = self.dialog_pages.pop_front();
                proof {
                    if before.len() > 0 {
                        assert(self.dialog_pages@ =~= before.drop_first());
                    }
                }
                let cmds: Vec<Command> = Vec::new();
                proof {
                    assert(cmds@ =~= Seq::<Command>::empty());
                }
                cmds
            },
            DialogAction::Complete => self.complete_dialog(nav),
            DialogAction::Nothing => {
                let cmds: Vec<Command> = Vec::new();
                proof {
                    assert(cmds@ =~= Seq::<Command>::empty());
                }
                cmds
            },
        }
    }

    /// An operation on the lists.
    fn on_tasks(&mut self, a: TasksAction, nav: &NavView) -> (cmds: Vec<Command>)
        requires
            old(self).wf(),
        ensures
            final(self).wf(),
            tasks_handled(old(self)@, final(self)@, cmds@, a, *nav),
    {
        let mut cmds: Vec<Command> = Vec::new();
        match a {
            TasksAction::FetchLists => {
                cmds.push(Command::LoadLists);
                proof {
                    assert(cmds@ =~= seq![Command::LoadLists]);
                }
            },
            TasksAction::PopulateLists(lists) => {
                let ghost ls = lists@;
                let n = lists.len();
                let mut i: usize = 0;
                while i < n
                    invariant
                        n == lists.len(),
                        ls == lists@,
                        i <= n,
                        cmds@.len() == i,
                        forall|j: int| 0 <= j < i ==> cmds@[j] == Command::InsertNavEntry(#[trigger] ls[j]),
                    decreases n - i,
                {
                    cmds.push(Command::InsertNavEntry(lists[i].clone()));
                    i = i + 1;
                }
                if nav.entries.len() > 0 || n > 0 {
                    cmds.push(Command::SelectFirstNav);
                }
            },
            TasksAction::AddList(l) => {
                let ghost lv = l;
                cmds.push(Command::InsertNavEntry(l));
                cmds.push(Command::SelectLastNav);
                proof {
                    assert(cmds@ =~= seq![Command::InsertNavEntry(lv), Command::SelectLastNav]);
                }
            },
            TasksAction::DeleteList(e) => match nav.target(e) {
                Some(l) => {
                    cmds.push(Command::DeleteStoredList(l.id));
                    cmds.push(Command::Send(Message::Content(ContentMessage::SetList(None))));
                    proof {
                        assert(cmds@ =~= seq![
                            Command::DeleteStoredList(l.id),
                            Command::Send(Message::Content(ContentMessage::SetList(None))),
                        ]);
                    }
                },
                None => {
                    cmds.push(Command::RemoveActiveNav);
                    proof {
                        assert(cmds@ =~= seq![Command::RemoveActiveNav]);
                    }
                },
            },
        }
        cmds
    }

    /// A list's context-menu entry.
    fn on_nav_menu(&mut self, a: NavMenuAction, nav: &NavView) -> (cmds: Vec<Command>)
        requires
            old(self).wf(),
        ensures
            final(self).wf(),
            nav_menu_handled(old(self)@, final(self)@, cmds@, a, *nav),
    {
        let mut cmds: Vec<Command> = Vec::new();
        match a {
            NavMenuAction::Rename(e) => cmds.push(
                Command::Send(Message::Dialog(DialogAction::Open(DialogPage::Rename(Some(e), String::new())))),
            ),
            NavMenuAction::SetIcon(e) => cmds.push(
                Command::Send(Message::Dialog(DialogAction::Open(DialogPage::Icon(Some(e), String::new(), String::new())))),
            ),
            NavMenuAction::Export(e) => match nav.data(e) {
                Some(l) => cmds.push(Command::ExportList(l)),
                None => {},
            },
            NavMenuAction::Delete(e) => cmds.push(
                Command::Send(Message::Dialog(DialogAction::Open(DialogPage::Delete(Some(e))))),
            ),
        }
        cmds
    }

    /// The store renamed a list.
    fn on_list_renamed(&mut self, e: Option<u64>, name: String, nav: &NavView) -> (cmds: Vec<Command>)
        requires
            old(self).wf(),
        ensures
            final(self).wf(),
            list_renamed(old(self)@, final(self)@, cmds@, e, name, *nav),
    {
        let mut cmds: Vec<Command> = Vec::new();
        match nav.target(e) {
            Some(l) => {
                let ghost lv = l;
                let ghost nm = name;
                let mut renamed = l;
                renamed.name = name.clone();
                cmds.push(Command::SetEntryListName(e, name.clone()));
                cmds.push(Command::SetActiveNavText(name));
                cmds.push(Command::Send(Message::Content(ContentMessage::SetList(Some(renamed)))));
                proof {
                    assert(cmds@ =~= seq![
                        Command::SetEntryListName(e, nm),
                        Command::SetActiveNavText(nm),
                        Command::Send(Message::Content(ContentMessage::SetList(Some(List { name: nm, ..lv })))),
                    ]);
                }
            },
            None => {
                proof {
                    assert(cmds@ =~= Seq::<Command>::empty());
                }
            },
        }
        cmds
    }

    /// Whether `message` can be handled (see `app_accepts`); a runner
    /// checks it before handing the message over.
    pub fn accepts_message(&self, message: &Message) -> (r: bool)
        requires
            self.wf(),
        ensures
            r == app_accepts(self@, *message),
    {
        match message {
            Message::Content(m) => self.content.accepts_message(m),
            Message::Dialog(DialogAction::Update(_)) => self.dialog_pages.len() > 0,
            _ => true,
        }
    }

    /// The page the context drawer shows, if it is shown.
    pub fn context_drawer(&self) -> (r: Option<ContextPage>)
        ensures
            r == if self@.show_context { Some(self@.context_page) } else { None },
    {
        if self.show_context {
            Some(self.context_page)
        } else {
            None
        }
    }

    /// The content pane.
    pub fn content(&self) -> (r: &Content)
        ensures
            r@ == self@.content,
            r.wf() == self.wf(),
    {
        &self.content
    }

    /// The page chosen for the context drawer.
    pub fn context_page(&self) -> (r: ContextPage)
        ensures
            r == self@.context_page,
    {
        self.context_page
    }

    /// The context drawer is shown.
    pub fn show_context(&self) -> (r: bool)
        ensures
            r == self@.show_context,
    {
        self.show_context
    }

    /// The shown dialog, if any.
    pub fn dialog(&self) -> (r: Option<&DialogPage>)
        ensures
            match r {
                Some(p) => self@.dialog_pages.len() > 0 && *p == self@.dialog_pages[0],
                None => self@.dialog_pages.len() == 0,
            },
    {
        if self.dialog_pages.len() > 0 {
            Some(&self.dialog_pages[0])
        } else {
            None
        }
    }

    /// The settings the views read.
    pub fn config(&self) -> (r: AppConfig)
        ensures
            r == self@.config,
    {
        self.config
    }

    /// Escape: closes the shown dialog, or else hides the context drawer.
    pub fn on_escape(&mut self)
        requires
            old(self).wf(),
        ensures
            final(self).wf(),
            escaped(old(self)@, final(self)@),
    {
        match self.dialog_pages.pop_front() {
            Some(_) => {},
            None => {
                self.show_context = false;
            },
        }
    }
}

} // verus!
