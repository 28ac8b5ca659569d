//! Menu and navigation actions, and the messages they send.
use vstd::prelude::*;
use crate::app::{ContextPage, Message};

verus! {

/// An entry of the menu bar or a key binding.
#[derive(Clone, Copy, Debug, PartialEq, Eq, Structural)]
pub enum MenuAction {
    About,
    Settings,
    WindowClose,
    WindowNew,
    NewList,
    DeleteList,
    RenameList,
    Icon,
    ToggleHideCompleted(bool),
    SortByNameAsc,
    SortByNameDesc,
    SortByDateAsc,
    SortByDateDesc,
}

impl MenuAction {
    /// The message an action sends: "About" and "Settings" toggle their
    /// context pages, every other action is handled as a menu message.
    pub fn message(&self) -> (r: Message)
        ensures
            match *self {
                MenuAction::About => r == Message::ToggleContextPage(ContextPage::About),
                MenuAction::Settings => r == Message::ToggleContextPage(ContextPage::Settings),
                a => r == Message::Menu(a),
            },
    {
        match self {
            MenuAction::About => Message::ToggleContextPage(ContextPage::About),
            MenuAction::Settings => Message::ToggleContextPage(ContextPage::Settings),
            action => Message::Menu(*action),
        }
    }
}

/// An entry of a list's context menu in the navigation bar; the value is
/// the list's navigation entry.
#[derive(Clone, Copy, Debug, PartialEq, Eq, Structural)]
pub enum NavMenuAction {
    Rename(u64),
    SetIcon(u64),
    Export(u64),
    Delete(u64),
}

impl NavMenuAction {
    /// The message an entry sends: itself, as a navigation-menu message.
    pub fn message(&self) -> (r: Message)
        ensures
            r == Message::NavMenu(*self),
    {
        Message::NavMenu(*self)
    }
}

} // verus!
