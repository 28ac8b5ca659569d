# tasks

A task-list application for the COSMIC desktop, with its logic verified by
Verus.

- `src/` is the verified library: the task and list model, the content
  pane's state machine (selection, loading, adding, editing, completing,
  deleting and nesting tasks, search and sort), the title edit-mode
  machine, the application's message handling as a function from state and
  message to new state and commands, the menus, the Markdown export and
  the start-up plan. Task keys live in `slotmap` maps behind trusted
  wrappers; `src/laws.rs` and `src/edit.rs` hold the properties proved
  across operations.
- `app/` is the program around it: the window and widgets, the store on
  disk, the clipboard, the theme and the settings. It runs the library's
  commands and feeds the results back as messages.
- `tests/` runs the library on concrete values.
