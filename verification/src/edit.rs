use vstd::prelude::*;

verus! {

/// Edit state of a task's title input; it keeps the input and the
/// widget's focus reports from feeding back into each other.
#[derive(Clone, Copy, Debug, PartialEq, Eq, Structural)]
pub enum EditState {
    /// The input is not in edit mode.
    Idle,
    /// Edit mode was requested; waiting for the input to take focus.
    Entering,
    /// The input is being edited.
    Editing,
    /// Leaving edit mode was requested; waiting for the input to blur.
    Exiting,
}

/// What a report of the input's edit mode leads to.
#[derive(Clone, Copy, Debug, PartialEq, Eq, Structural)]
pub struct EditStep {
    /// The state to record, if any changes.
    pub next: Option<EditState>,
    /// Focus must be moved to the task's input.
    pub focus: bool,
    /// The task must be written back to the store.
    pub persist: bool,
}

/// The step that follows `current` when the input reports `editing`.
pub open spec fn edit_step_spec(current: EditState, editing: bool) -> EditStep {
    match (current, editing) {
        (EditState::Idle, true) => EditStep { next: Some(EditState::Entering), focus: true, persist: false },
        (EditState::Entering, true) => EditStep { next: Some(EditState::Editing), focus: false, persist: false },
        (EditState::Editing, false) => EditStep { next: Some(EditState::Exiting), focus: false, persist: true },
        (EditState::Exiting, false) => EditStep { next: Some(EditState::Idle), focus: false, persist: false },
        _ => EditStep { next: None, focus: false, persist: false },
    }
}

/// Decides how an edit-mode report from a task's input changes its state:
/// entering is requested from `Idle` (and moves focus), confirmed from
/// `Entering`; leaving is requested from `Editing` (and saves the task),
/// confirmed from `Exiting`; every other report is ignored.
pub fn edit_step(current: EditState, editing: bool) -> (r: EditStep)
    ensures
        r == edit_step_spec(current, editing),
{
    match (current, editing) {
        (EditState::Idle, true) => EditStep { next: Some(EditState::Entering), focus: true, persist: false },
        (EditState::Entering, true) => EditStep { next: Some(EditState::Editing), focus: false, persist: false },
        (EditState::Editing, false) => EditStep { next: Some(EditState::Exiting), focus: false, persist: true },
        (EditState::Exiting, false) => EditStep { next: Some(EditState::Idle), focus: false, persist: false },
        _ => EditStep { next: None, focus: false, persist: false },
    }
}

/// `true` while the input shows its text as editable.
pub open spec fn shows_editing_spec(state: Option<EditState>) -> bool {
    state == Some(EditState::Entering) || state == Some(EditState::Editing)
}

/// Whether an input in `state` (none recorded counts as not editing)
/// is displayed in edit mode.
pub fn shows_editing(state: Option<EditState>) -> (r: bool)
    ensures
        r == shows_editing_spec(state),
{
    match state {
        Some(EditState::Entering) | Some(EditState::Editing) => true,
        _ => false,
    }
}

/// The state after a report, when the step changes it.
pub open spec fn after(current: EditState, editing: bool) -> EditState {
    match edit_step_spec(current, editing).next {
        Some(s) => s,
        None => current,
    }
}

/// A full round (enter request, focus confirmation, leave request, blur
/// confirmation) brings an idle input back to idle, asking for focus once
/// and for one save.
pub proof fn law_edit_round_trip()
    ensures
        after(after(after(after(EditState::Idle, true), true), false), false) == EditState::Idle,
        edit_step_spec(EditState::Idle, true).focus,
        edit_step_spec(after(after(EditState::Idle, true), true), false).persist,
{
}

/// A report that repeats the mode the input is already moving to, or is in,
/// changes nothing and asks for nothing: no report can bounce the state back.
pub proof fn law_edit_redundant_ignored(s: EditState, editing: bool)
    requires
        (s == EditState::Entering && !editing) || (s == EditState::Exiting && editing)
            || (s == EditState::Idle && !editing) || (s == EditState::Editing && editing),
    ensures
        edit_step_spec(s, editing) == (EditStep { next: None, focus: false, persist: false }),
{
}

/// Focus is asked for only when editing starts from idle, and a save only
/// when editing ends from the editing state.
pub proof fn law_edit_effects(s: EditState, editing: bool)
    ensures
        edit_step_spec(s, editing).focus <==> (s == EditState::Idle && editing),
        edit_step_spec(s, editing).persist <==> (s == EditState::Editing && !editing),
{
}

/// Each state moves under exactly one of the two report values.
pub proof fn law_edit_one_way_out(s: EditState)
    ensures
        (edit_step_spec(s, true).next is Some) != (edit_step_spec(s, false).next is Some),
{
}

} // verus!
