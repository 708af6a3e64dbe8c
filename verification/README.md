# ezterm_gui

The verified core of ezterm's file manager, workspace sidebar, context
menus and tab/pane drag-and-drop, written in Verus.

- `src/` is the library. Each operation is a function from the window's or
  overlay's state and an event to the next state and what the caller has to
  do; the contracts say exactly what that is. Where the answer depends on
  the disk or the environment, a verified function takes the looked-up
  values (`download_dir_from`, `first_free_dest`, `expand_tilde_with`) and
  the function that looks them up states what holds of every outcome.
  - `file_manager`, `entries`, `paths`, `size`, `viewer`: the file manager
    overlay, its listing order, path arithmetic, size formatting and the
    pager.
  - `menus`, `term_window`: context menus and the tab commands.
  - `drag`: where a dragged tab or pane lands and what dropping it does.
  - `workspaces`, `workspace_overlay`: the workspace sidebar and the
    workspace list.
  - `picker`: the command lines of the native file pickers.
  - `sidebars`: which tab has a sidebar pane open.
- `app/` holds what touches the file system, other processes, the clock and
  process-wide state, and the floating-point pixel geometry.
- `tests/` runs the library on concrete inputs.
