# todo_tui

The widgets and list logic of a terminal to-do application, with their
behaviour stated as contracts and checked by Verus.

- `src/` is the verified library. `input` models key and mouse chords and
  interaction states; `segmented_control` is the filter toggle (selection,
  disabled segments, hit testing, keyboard stepping, drawing); `checkbox`,
  `button`, `focus_pane` and `global_chords` hold the decisions of the other
  widgets; `task_list` holds the tasks, the filters, and how the list answers
  keys and widget events. Each answer to input is a plain value that says
  what to ask of the UI runtime (focus, repaint, report a change, quit).
- `app/` is the program: the toolkit widgets, which hand their input to the
  library and carry out what it answers, and the JSON file the tasks are
  kept in.
- `tests/` runs the library on concrete inputs.
