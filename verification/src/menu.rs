//! The menus: the menu bar, a list's context menu in the navigation bar,
//! and a task's "more" menu, as the entries they hold.
use vstd::prelude::*;
use crate::actions::{MenuAction, NavMenuAction};
use crate::content::TaskAction;

verus! {

/// The text of a menu entry (a key of the translations).
#[derive(Clone, Copy, Debug, PartialEq, Eq, Structural)]
pub enum MenuLabel {
    File,
    Edit,
    View,
    Sort,
    NewWindow,
    NewList,
    Quit,
    Rename,
    Icon,
    Export,
    Delete,
    MenuSettings,
    HideCompleted,
    MenuAbout,
    SortNameAsc,
    SortNameDesc,
    SortDateAsc,
    SortDateDesc,
    AddSubTask,
}

/// The icon of a menu entry, with its size in pixels.
#[derive(Clone, Copy, Debug, PartialEq, Eq, Structural)]
pub enum MenuIcon {
    TabsStack,
    PlusSquareFilled,
    CrossSmallSquareFilled,
    EditIcon,
    FaceSmileBig,
    UserTrashFull,
    SettingsIcon,
    InfoOutline,
    Share,
}

/// An entry of a menu that performs actions of type `A`.
#[derive(Clone, Copy, Debug)]
pub enum MenuItem<A> {
    /// A button: its text, its icon and size, its action.
    Button(MenuLabel, Option<(MenuIcon, u16)>, A),
    /// A check box: its text, whether it is ticked, its action.
    CheckBox(MenuLabel, bool, A),
    Divider,
}

/// A top-level menu of the menu bar.
#[derive(Clone, Debug)]
pub struct MenuTree {
    pub root: MenuLabel,
    pub items: Vec<MenuItem<MenuAction>>,
}

/// The "File" menu.
pub open spec fn file_items() -> Seq<MenuItem<MenuAction>> {
    seq![
        MenuItem::Button(MenuLabel::NewWindow, Some((MenuIcon::TabsStack, 14u16)), MenuAction::WindowNew),
        MenuItem::Divider,
        MenuItem::Button(MenuLabel::NewList, Some((MenuIcon::PlusSquareFilled, 14u16)), MenuAction::NewList),
        MenuItem::Divider,
        MenuItem::Button(MenuLabel::Quit, Some((MenuIcon::CrossSmallSquareFilled, 14u16)), MenuAction::WindowClose),
    ]
}

/// The "Edit" menu.
pub open spec fn edit_items() -> Seq<MenuItem<MenuAction>> {
    seq![
        MenuItem::Button(MenuLabel::Rename, Some((MenuIcon::EditIcon, 14u16)), MenuAction::RenameList),
        MenuItem::Divider,
        MenuItem::Button(MenuLabel::Icon, Some((MenuIcon::FaceSmileBig, 14u16)), MenuAction::Icon),
        MenuItem::Divider,
        MenuItem::Button(MenuLabel::Delete, Some((MenuIcon::UserTrashFull, 14u16)), MenuAction::DeleteList),
    ]
}

/// The "View" menu: the hide-completed box shows the setting and turns it
/// the other way.
pub open spec fn view_items(hide_completed: bool) -> Seq<MenuItem<MenuAction>> {
    seq![
        MenuItem::Button(MenuLabel::MenuSettings, Some((MenuIcon::SettingsIcon, 14u16)), MenuAction::Settings),
        MenuItem::Divider,
        MenuItem::CheckBox(MenuLabel::HideCompleted, hide_completed, MenuAction::ToggleHideCompleted(!hide_completed)),
        MenuItem::Divider,
        MenuItem::Button(MenuLabel::MenuAbout, Some((MenuIcon::InfoOutline, 14u16)), MenuAction::About),
    ]
}

/// The "Sort" menu.
pub open spec fn sort_items() -> Seq<MenuItem<MenuAction>> {
    seq![
        MenuItem::Button(MenuLabel::SortNameAsc, None, MenuAction::SortByNameAsc),
        MenuItem::Button(MenuLabel::SortNameDesc, None, MenuAction::SortByNameDesc),
        MenuItem::Button(MenuLabel::SortDateAsc, None, MenuAction::SortByDateAsc),
        MenuItem::Button(MenuLabel::SortDateDesc, None, MenuAction::SortByDateDesc),
    ]
}

/// Builds a vector from four entries.
fn items4<A: Copy>(a: MenuItem<A>, b: MenuItem<A>, c: MenuItem<A>, d: MenuItem<A>) -> (r: Vec<MenuItem<A>>)
    ensures
        r@ == seq![a, b, c, d],
{
    let mut r: Vec<MenuItem<A>> = Vec::new();
    r.push(a);
    r.push(b);
    r.push(c);
    r.push(d);
    assert(r@ =~= seq![a, b, c, d]);
    r
}

/// Builds a vector from five entries.
fn items5<A: Copy>(a: MenuItem<A>, b: MenuItem<A>, c: MenuItem<A>, d: MenuItem<A>, e: MenuItem<A>) -> (r: Vec<
    MenuItem<A>,
>)
    ensures
        r@ == seq![a, b, c, d, e],
{
    let mut r: Vec<MenuItem<A>> = Vec::new();
    r.push(a);
    r.push(b);
    r.push(c);
    r.push(d);
    r.push(e);
    assert(r@ =~= seq![a, b, c, d, e]);
    r
}

/// The menu bar: File, Edit, View (with the hide-completed setting) and
/// Sort.
pub fn menu_bar(hide_completed: bool) -> (r: Vec<MenuTree>)
    ensures
        r@.len() == 4,
        r@[0].root == MenuLabel::File && r@[0].items@ == file_items(),
        r@[1].root == MenuLabel::Edit && r@[1].items@ == edit_items(),
        r@[2].root == MenuLabel::View && r@[2].items@ == view_items(hide_completed),
        r@[3].root == MenuLabel::Sort && r@[3].items@ == sort_items(),
{
    let file = items5(
        MenuItem::Button(MenuLabel::NewWindow, Some((MenuIcon::TabsStack, 14u16)), MenuAction::WindowNew),
        MenuItem::Divider,
        MenuItem::Button(MenuLabel::NewList, Some((MenuIcon::PlusSquareFilled, 14u16)), MenuAction::NewList),
        MenuItem::Divider,
        MenuItem::Button(MenuLabel::Quit, Some((MenuIcon::CrossSmallSquareFilled, 14u16)), MenuAction::WindowClose),
    );
    let edit = items5(
        MenuItem::Button(MenuLabel::Rename, Some((MenuIcon::EditIcon, 14u16)), MenuAction::RenameList),
        MenuItem::Divider,
        MenuItem::Button(MenuLabel::Icon, Some((MenuIcon::FaceSmileBig, 14u16)), MenuAction::Icon),
        MenuItem::Divider,
        MenuItem::Button(MenuLabel::Delete, Some((MenuIcon::UserTrashFull, 14u16)), MenuAction::DeleteList),
    );
    let view = items5(
        MenuItem::Button(MenuLabel::MenuSettings, Some((MenuIcon::SettingsIcon, 14u16)), MenuAction::Settings),
        MenuItem::Divider,
        MenuItem::CheckBox(MenuLabel::HideCompleted, hide_completed, MenuAction::ToggleHideCompleted(!hide_completed)),
        MenuItem::Divider,
        MenuItem::Button(MenuLabel::MenuAbout, Some((MenuIcon::InfoOutline, 14u16)), MenuAction::About),
    );
    let sort = items4(
        MenuItem::Button(MenuLabel::SortNameAsc, None, MenuAction::SortByNameAsc),
        MenuItem::Button(MenuLabel::SortNameDesc, None, MenuAction::SortByNameDesc),
        MenuItem::Button(MenuLabel::SortDateAsc, None, MenuAction::SortByDateAsc),
        MenuItem::Button(MenuLabel::SortDateDesc, None, MenuAction::SortByDateDesc),
    );
    let mut r: Vec<MenuTree> = Vec::new();
    r.push(MenuTree { root: MenuLabel::File, items: file });
    r.push(MenuTree { root: MenuLabel::Edit, items: edit });
    r.push(MenuTree { root: MenuLabel::View, items: view });
    r.push(MenuTree { root: MenuLabel::Sort, items: sort });
    r
}

/// The context menu of navigation entry `e`: rename, icon, export, delete.
pub fn nav_context_menu(e: u64) -> (r: Vec<MenuItem<NavMenuAction>>)
    ensures
        r@ == seq![
            MenuItem::Button(MenuLabel::Rename, Some((MenuIcon::EditIcon, 14u16)), NavMenuAction::Rename(e)),
            MenuItem::Button(MenuLabel::Icon, Some((MenuIcon::FaceSmileBig, 14u16)), NavMenuAction::SetIcon(e)),
            MenuItem::Button(MenuLabel::Export, Some((MenuIcon::Share, 18u16)), NavMenuAction::Export(e)),
            MenuItem::Button(MenuLabel::Delete, Some((MenuIcon::UserTrashFull, 14u16)), NavMenuAction::Delete(e)),
        ],
{
    items4(
        MenuItem::Button(MenuLabel::Rename, Some((MenuIcon::EditIcon, 14u16)), NavMenuAction::Rename(e)),
        MenuItem::Button(MenuLabel::Icon, Some((MenuIcon::FaceSmileBig, 14u16)), NavMenuAction::SetIcon(e)),
        MenuItem::Button(MenuLabel::Export, Some((MenuIcon::Share, 18u16)), NavMenuAction::Export(e)),
        MenuItem::Button(MenuLabel::Delete, Some((MenuIcon::UserTrashFull, 14u16)), NavMenuAction::Delete(e)),
    )
}

/// The "more" menu of the task that key `k` names: edit, add a sub-task,
/// delete.
pub fn task_menu(k: u64) -> (r: Vec<MenuItem<TaskAction>>)
    ensures
        r@ == seq![
            MenuItem::Button(MenuLabel::Edit, None, TaskAction::Edit(k)),
            MenuItem::Button(MenuLabel::AddSubTask, None, TaskAction::AddSubTask(k)),
            MenuItem::Button(MenuLabel::Delete, None, TaskAction::Delete(k)),
        ],
{
    let mut r: Vec<MenuItem<TaskAction>> = Vec::new();
    r.push(MenuItem::Button(MenuLabel::Edit, None, TaskAction::Edit(k)));
    r.push(MenuItem::Button(MenuLabel::AddSubTask, None, TaskAction::AddSubTask(k)));
    r.push(MenuItem::Button(MenuLabel::Delete, None, TaskAction::Delete(k)));
    assert(r@ =~= seq![
        MenuItem::Button(MenuLabel::Edit, None, TaskAction::Edit(k)),
        MenuItem::Button(MenuLabel::AddSubTask, None, TaskAction::AddSubTask(k)),
        MenuItem::Button(MenuLabel::Delete, None, TaskAction::Delete(k)),
    ]);
    r
}

} // verus!
