//! The to-do list: its tasks, the filter that chooses which of them are
//! shown, and how the list answers keys and widget events.
use vstd::prelude::*;
use vstd::string::*;
use crate::global_chords::RuntimeRequest;
use crate::input::Chord;
use crate::input::Key;
use crate::input::MOD_CTRL;
use crate::input::MOD_SHIFT;
use crate::input::Trigger;
use crate::input::plain;
use crate::input::with_mods;

verus! {

/// A task: what is to be done, and whether it is.
pub struct Task {
    pub description: String,
    pub done: bool,
}

/// A task as contracts speak of it.
pub struct TaskView {
    pub description: Seq<char>,
    pub done: bool,
}

impl View for Task {
    type V = TaskView;

    open spec fn view(&self) -> TaskView {
        TaskView { description: self.description@, done: self.done }
    }
}

/// Which tasks the list shows.
#[derive(Clone, Copy, Debug, PartialEq, Eq, Structural)]
pub enum Filter {
    /// Every task.
    All,
    /// The tasks not done yet.
    Active,
    /// The tasks done.
    Completed,
}

/// Whether a task that is (or is not) `done` is shown under `filter`.
pub open spec fn shown_under(filter: Filter, done: bool) -> bool {
    match filter {
        Filter::All => true,
        Filter::Active => !done,
        Filter::Completed => done,
    }
}

/// Whether a task that is (or is not) `done` is shown under `filter`.
pub fn is_shown(filter: Filter, done: bool) -> (shown: bool)
    ensures
        shown == shown_under(filter, done),
{
    (filter == Filter::Active && !done) || (filter == Filter::Completed && done) || (filter
        == Filter::All)
}

/// The filters, in the order of their segments: All, Active, Completed.
pub open spec fn spec_filter_at(index: int) -> Filter {
    if index == 0 {
        Filter::All
    } else if index == 1 {
        Filter::Active
    } else {
        Filter::Completed
    }
}

/// The filter of segment `index`.
pub fn filter_at(index: usize) -> (filter: Filter)
    requires
        index < 3,
    ensures
        filter == spec_filter_at(index as int),
{
    if index == 0 {
        Filter::All
    } else if index == 1 {
        Filter::Active
    } else {
        Filter::Completed
    }
}

/// The labels of the filter segments, in order.
pub fn filter_labels() -> (labels: Vec<&'static str>)
    ensures
        labels@.len() == 3,
        labels@[0]@ == "All"@,
        labels@[1]@ == "Active"@,
        labels@[2]@ == "Completed"@,
{
    let mut labels: Vec<&'static str> = Vec::new();
    labels.push("All");
    labels.push("Active");
    labels.push("Completed");
    labels
}

/// The tasks a fresh list starts with when none were stored.
pub open spec fn spec_default_tasks() -> Seq<TaskView> {
    seq![
        TaskView { description: "Buy milk"@, done: false },
        TaskView { description: "Buy eggs"@, done: true },
        TaskView { description: "Buy bread"@, done: false },
    ]
}

/// The tasks a fresh list starts with when none were stored.
pub fn default_tasks() -> (tasks: Vec<Task>)
    ensures
        tasks@.map_values(|t: Task| t@) == spec_default_tasks(),
{
    let mut tasks: Vec<Task> = Vec::new();
    tasks.push(Task { description: String::from_str("Buy milk"), done: false });
    tasks.push(Task { description: String::from_str("Buy eggs"), done: true });
    tasks.push(Task { description: String::from_str("Buy bread"), done: false });
    assert(tasks@.map_values(|t: Task| t@) =~= spec_default_tasks());
    tasks
}

/// The tasks to start with: the stored ones, or the default ones when none
/// were stored.
pub fn initial_tasks(stored: Vec<Task>) -> (tasks: Vec<Task>)
    ensures
        tasks@.map_values(|t: Task| t@) == (if stored@.len() == 0 {
            spec_default_tasks()
        } else {
            stored@.map_values(|t: Task| t@)
        }),
{
    if stored.len() == 0 {
        default_tasks()
    } else {
        stored
    }
}

/// A to-do list as contracts speak of it.
pub struct TaskListView {
    pub next_task: Seq<char>,
    pub filter: Filter,
    pub tasks: Seq<TaskView>,
}

/// The list after adding the pending description as a new task, unless it
/// is empty; the pending description is used up.
pub open spec fn spec_add_task(v: TaskListView) -> TaskListView {
    if v.next_task.len() == 0 {
        v
    } else {
        TaskListView {
            next_task: Seq::empty(),
            tasks: v.tasks.push(TaskView { description: v.next_task, done: false }),
            ..v
        }
    }
}

/// An event that reaches the list from one of its widgets.
#[derive(Clone, Copy, Debug, PartialEq, Eq, Structural)]
pub enum TaskListEvent {
    /// The filter control chose the segment at this index.
    FilterChosen(usize),
    /// A checkbox changed to `done`; `row` is the task whose checkbox it is,
    /// if it is one of the list's.
    DoneChanged { row: Option<usize>, done: bool },
    /// A button was clicked; `row` is the task whose delete button it is, if
    /// it is one of the list's, and `add_button` tells whether it is the
    /// button that adds the typed task.
    Clicked { row: Option<usize>, add_button: bool },
}

/// What the list asks for after an event.
#[derive(Clone, Copy, Debug, PartialEq, Eq, Structural)]
pub struct EventEffects {
    /// Store the tasks.
    pub persist: bool,
    /// Build the shown rows again.
    pub rebuild: bool,
    /// Take the typed text as a new task.
    pub save_task: bool,
}

/// Whether `row` names a task of `tasks`.
pub open spec fn names_task(row: Option<usize>, tasks: Seq<TaskView>) -> bool {
    row matches Some(i) && i < tasks.len()
}

/// How the list answers an event: a chosen filter is applied; a checkbox
/// change marks its task done or not; a delete button removes its task; the
/// add button asks for the typed text to be taken as a task. Every checkbox
/// change and every click stores the tasks and rebuilds the rows.
pub open spec fn event_outcome(v: TaskListView, event: TaskListEvent) -> (TaskListView, EventEffects) {
    match event {
        TaskListEvent::FilterChosen(index) => (
            TaskListView { filter: spec_filter_at(index as int), ..v },
            EventEffects { persist: false, rebuild: true, save_task: false },
        ),
        TaskListEvent::DoneChanged { row, done } => (
            if names_task(row, v.tasks) {
                let i = row.unwrap() as int;
                TaskListView {
                    tasks: v.tasks.update(i, TaskView { done, ..v.tasks[i] }),
                    ..v
                }
            } else {
                v
            },
            EventEffects { persist: true, rebuild: true, save_task: false },
        ),
        TaskListEvent::Clicked { row, add_button } => (
            if names_task(row, v.tasks) {
                TaskListView { tasks: v.tasks.remove(row.unwrap() as int), ..v }
            } else {
                v
            },
            EventEffects { persist: true, rebuild: true, save_task: add_button },
        ),
    }
}

/// What the list does with a key chord.
#[derive(Clone, Copy, Debug, PartialEq, Eq, Structural)]
pub struct KeyOutcome {
    /// The chord was consumed.
    pub handled: bool,
    /// A request to the UI runtime.
    pub request: Option<RuntimeRequest>,
    /// Take the typed text as a new task.
    pub save_task: bool,
}

/// How the list answers a key chord: Ctrl + `z` suspends, Ctrl + `c` and
/// Ctrl + `q` quit with code zero, Tab and Shift + Tab move focus, and Enter
/// takes the typed text as a task when the text input or the add button has
/// focus. Other chords are left to others.
pub open spec fn spec_key_outcome(c: Chord, entry_focused: bool) -> KeyOutcome {
    if c == with_mods(2, Trigger::Key(Key::Char('z'))) {
        KeyOutcome { handled: true, request: Some(RuntimeRequest::Suspend), save_task: false }
    } else if c == with_mods(2, Trigger::Key(Key::Char('c'))) || c == with_mods(
        2,
        Trigger::Key(Key::Char('q')),
    ) {
        KeyOutcome { handled: true, request: Some(RuntimeRequest::Quit(0)), save_task: false }
    } else if c == plain(Trigger::Key(Key::Tab)) {
        KeyOutcome { handled: true, request: Some(RuntimeRequest::FocusNext), save_task: false }
    } else if c == with_mods(1, Trigger::Key(Key::Tab)) {
        KeyOutcome {
            handled: true,
            request: Some(RuntimeRequest::FocusPrevious),
            save_task: false,
        }
    } else if c == plain(Trigger::Key(Key::Enter)) {
        KeyOutcome { handled: true, request: None, save_task: entry_focused }
    } else {
        KeyOutcome { handled: false, request: None, save_task: false }
    }
}

/// How the list answers a key chord; `entry_focused` tells whether the text
/// input or the add button has focus.
pub fn key_outcome(c: Chord, entry_focused: bool) -> (outcome: KeyOutcome)
    ensures
        outcome == spec_key_outcome(c, entry_focused),
{
    if c == (Chord { trigger: Trigger::Key(Key::Char('z')), modifiers: MOD_CTRL }) {
        KeyOutcome { handled: true, request: Some(RuntimeRequest::Suspend), save_task: false }
    } else if c == (Chord { trigger: Trigger::Key(Key::Char('c')), modifiers: MOD_CTRL }) || c == (
    Chord { trigger: Trigger::Key(Key::Char('q')), modifiers: MOD_CTRL }) {
        KeyOutcome { handled: true, request: Some(RuntimeRequest::Quit(0)), save_task: false }
    } else if c == (Chord { trigger: Trigger::Key(Key::Tab), modifiers: 0 }) {
        KeyOutcome { handled: true, request: Some(RuntimeRequest::FocusNext), save_task: false }
    } else if c == (Chord { trigger: Trigger::Key(Key::Tab), modifiers: MOD_SHIFT }) {
        KeyOutcome {
            handled: true,
            request: Some(RuntimeRequest::FocusPrevious),
            save_task: false,
        }
    } else if c == (Chord { trigger: Trigger::Key(Key::Enter), modifiers: 0 }) {
        KeyOutcome { handled: true, request: None, save_task: entry_focused }
    } else {
        KeyOutcome { handled: false, request: None, save_task: false }
    }
}

/// The to-do list: the description being typed, the filter, and the tasks.
pub struct TaskList {
    next_task: String,
    filter: Filter,
    tasks: Vec<Task>,
}

impl View for TaskList {
    type V = TaskListView;

    closed spec fn view(&self) -> TaskListView {
        TaskListView {
            next_task: self.next_task@,
            filter: self.filter,
            tasks: self.tasks@.map_values(|t: Task| t@),
        }
    }
}

impl TaskList {
    /// Creates a list of `tasks`, showing all of them, with nothing typed.
    pub fn new(tasks: Vec<Task>) -> (list: Self)
        ensures
            list@ == (TaskListView {
                next_task: Seq::empty(),
                filter: Filter::All,
                tasks: tasks@.map_values(|t: Task| t@),
            }),
    {
        TaskList { next_task: String::new(), filter: Filter::All, tasks }
    }

    /// The tasks, in order.
    pub fn tasks(&self) -> (tasks: &Vec<Task>)
        ensures
            tasks@.map_values(|t: Task| t@) == self@.tasks,
    {
        &self.tasks
    }

    /// The filter in use.
    pub fn filter(&self) -> (filter: Filter)
        ensures
            filter == self@.filter,
    {
        self.filter
    }

    /// Adds the pending description as a task not yet done, unless it is
    /// empty; the pending description is used up.
    pub fn add_task(&mut self)
        ensures
            final(self)@ == spec_add_task(old(self)@),
    {
        if self.next_task.as_str().is_empty() {
            return ;
        }
        let mut description = String::new();
        std::mem::swap(&mut description, &mut self.next_task);
        self.tasks.push(Task { description, done: false });
        assert(self@.tasks =~= old(self)@.tasks.push(
            TaskView { description: old(self)@.next_task, done: false },
        ));
    }

    /// Takes `input`, the typed text, as a new task (nothing is added when
    /// it is empty) and leaves nothing pending.
    pub fn save_task(&mut self, input: String)
        ensures
            final(self)@.tasks == (if input@.len() == 0 {
                old(self)@.tasks
            } else {
                old(self)@.tasks.push(TaskView { description: input@, done: false })
            }),
            final(self)@.filter == old(self)@.filter,
            final(self)@.next_task == Seq::<char>::empty(),
    {
        self.next_task = input;
        self.add_task();
        self.next_task = String::new();
    }

    /// For each task, in order, whether the filter shows it.
    pub fn visible_rows(&self) -> (rows: Vec<bool>)
        ensures
            rows@.len() == self@.tasks.len(),
            forall|i: int|
                0 <= i < rows@.len() ==> #[trigger] rows@[i] == shown_under(
                    self@.filter,
                    self@.tasks[i].done,
                ),
    {
        let mut rows: Vec<bool> = Vec::new();
        let mut i: usize = 0;
        while i < self.tasks.len()
            invariant
                0 <= i <= self@.tasks.len(),
                rows@.len() == i,
                forall|j: int|
                    0 <= j < i ==> #[trigger] rows@[j] == shown_under(
                        self@.filter,
                        self@.tasks[j].done,
                    ),
            decreases self@.tasks.len() - i,
        {
            rows.push(is_shown(self.filter, self.tasks[i].done));
            i = i + 1;
        }
        rows
    }

    /// Answers an event from one of the list's widgets.
    pub fn on_event(&mut self, event: TaskListEvent) -> (effects: EventEffects)
        requires
            event matches TaskListEvent::FilterChosen(index) ==> index < 3,
        ensures
            (final(self)@, effects) == event_outcome(old(self)@, event),
    {
        match event {
            TaskListEvent::FilterChosen(index) => {
                self.filter = filter_at(index);
                EventEffects { persist: false, rebuild: true, save_task: false }
            },
            TaskListEvent::DoneChanged { row, done } => {
                if let Some(i) = row {
                    if i < self.tasks.len() {
                        let mut tasks = Vec::new();
                        std::mem::swap(&mut tasks, &mut self.tasks);
                        let mut task = tasks.remove(i);
                        task.done = done;
                        tasks.insert(i, task);
                        self.tasks = tasks;
                        assert(self@.tasks =~= old(self)@.tasks.update(
                            i as int,
                            TaskView { done, ..old(self)@.tasks[i as int] },
                        ));
                    }
                }
                EventEffects { persist: true, rebuild: true, save_task: false }
            },
            TaskListEvent::Clicked { row, add_button } => {
                if let Some(i) = row {
                    if i < self.tasks.len() {
                        self.tasks.remove(i);
                        assert(self@.tasks =~= old(self)@.tasks.remove(i as int));
                    }
                }
                EventEffects { persist: true, rebuild: true, save_task: add_button }
            },
        }
    }
}

/// Every task is shown under All, and under exactly one of Active and
/// Completed.
pub proof fn law_filters_partition(done: bool)
    ensures
        shown_under(Filter::All, done),
        shown_under(Filter::Active, done) != shown_under(Filter::Completed, done),
{
}

/// A task added from a non-empty description comes last, is not done, and
/// so is shown under All and Active but not under Completed; the earlier
/// tasks stay as they were.
pub proof fn law_added_task_is_last_and_active(v: TaskListView)
    requires
        v.next_task.len() > 0,
    ensures
        ({
            let w = spec_add_task(v);
            &&& w.tasks.len() == v.tasks.len() + 1
            &&& w.tasks.last().description == v.next_task
            &&& shown_under(Filter::Active, w.tasks.last().done)
            &&& !shown_under(Filter::Completed, w.tasks.last().done)
            &&& w.tasks.take(v.tasks.len() as int) == v.tasks
            &&& w.next_task.len() == 0
        }),
{
    assert(spec_add_task(v).tasks.take(v.tasks.len() as int) =~= v.tasks);
}

/// Marking a task done (or not) moves it to the Completed (or Active) view,
/// keeps its description, and leaves every other task as it was.
pub proof fn law_done_change_moves_task(v: TaskListView, row: usize, done: bool)
    requires
        row < v.tasks.len(),
    ensures
        ({
            let (w, e) = event_outcome(v, TaskListEvent::DoneChanged { row: Some(row), done });
            &&& w.tasks.len() == v.tasks.len()
            &&& shown_under(Filter::Completed, w.tasks[row as int].done) == done
            &&& shown_under(Filter::Active, w.tasks[row as int].done) == !done
            &&& w.tasks[row as int].description == v.tasks[row as int].description
            &&& forall|j: int|
                0 <= j < v.tasks.len() && j != row ==> #[trigger] w.tasks[j] == v.tasks[j]
            &&& e.persist && e.rebuild
        }),
{
}

/// Deleting a task removes exactly that task: the ones before it keep their
/// places and the ones after it move up by one.
pub proof fn law_delete_removes_only_that_task(v: TaskListView, row: usize, add_button: bool)
    requires
        row < v.tasks.len(),
    ensures
        ({
            let (w, e) = event_outcome(v, TaskListEvent::Clicked { row: Some(row), add_button });
            &&& w.tasks.len() == v.tasks.len() - 1
            &&& forall|j: int| 0 <= j < row ==> #[trigger] w.tasks[j] == v.tasks[j]
            &&& forall|j: int| row <= j < w.tasks.len() ==> #[trigger] w.tasks[j] == v.tasks[j + 1]
            &&& e.persist && e.rebuild
        }),
{
}

/// Events other than a filter choice never change the filter, and a filter
/// choice never changes the tasks.
pub proof fn law_filter_and_tasks_change_apart(v: TaskListView, event: TaskListEvent)
    ensures
        ({
            let (w, e) = event_outcome(v, event);
            &&& (event is FilterChosen ==> w.tasks == v.tasks && !e.persist)
            &&& (!(event is FilterChosen) ==> w.filter == v.filter && e.persist)
            &&& w.next_task == v.next_task
        }),
{
}

/// Active shows exactly the tasks not done, Completed exactly the tasks
/// done, and All every task.
pub proof fn law_filters_select_by_done(done: bool)
    ensures
        shown_under(Filter::All, done) == true,
        shown_under(Filter::Active, done) == !done,
        shown_under(Filter::Completed, done) == done,
{
}

/// The filter segments are, in order, All, Active and Completed.
pub proof fn law_filter_segments_in_order()
    ensures
        spec_filter_at(0) == Filter::All,
        spec_filter_at(1) == Filter::Active,
        spec_filter_at(2) == Filter::Completed,
{
}

/// Every event asks for the rows to be rebuilt. Choosing a filter sets the
/// filter of that segment and asks for nothing else; a checkbox change and a
/// click always store the tasks; only a click of the add button asks for the
/// typed task to be saved.
pub proof fn law_event_effects(v: TaskListView, event: TaskListEvent)
    ensures
        ({
            let (w, e) = event_outcome(v, event);
            &&& e.rebuild == true
            &&& (event matches TaskListEvent::FilterChosen(index) ==> {
                &&& e == EventEffects { persist: false, rebuild: true, save_task: false }
                &&& w.tasks == v.tasks
                &&& (index == 0 ==> w.filter == Filter::All)
                &&& (index == 1 ==> w.filter == Filter::Active)
                &&& (index == 2 ==> w.filter == Filter::Completed)
            })
            &&& (event matches TaskListEvent::DoneChanged { row, done } ==> {
                &&& e == EventEffects { persist: true, rebuild: true, save_task: false }
                &&& w.filter == v.filter
                &&& ((row is None || row.unwrap() >= v.tasks.len()) ==> w == v)
            })
            &&& (event matches TaskListEvent::Clicked { row, add_button } ==> {
                &&& e == EventEffects { persist: true, rebuild: true, save_task: add_button }
                &&& w.filter == v.filter
                &&& ((row is None || row.unwrap() >= v.tasks.len()) ==> w == v)
            })
        }),
{
}

/// Choosing a filter and then rebuilding shows exactly the tasks of that
/// filter: with Completed, the done tasks; with Active, the others.
pub proof fn law_filter_choice_shows_matching_tasks(v: TaskListView, index: usize, i: int)
    requires
        index < 3,
        0 <= i < v.tasks.len(),
    ensures
        ({
            let (w, e) = event_outcome(v, TaskListEvent::FilterChosen(index));
            &&& e.rebuild
            &&& shown_under(w.filter, w.tasks[i].done) == (index == 0 || (index == 1
                && !v.tasks[i].done) || (index == 2 && v.tasks[i].done))
        }),
{
}

/// Only Enter's answer depends on whether the text input or the add button
/// has focus. Ctrl + `z` suspends, Ctrl + `c` and Ctrl + `q` quit with code
/// zero, Tab moves focus forward and Shift + Tab back, all consumed and none
/// saving; Enter is consumed and saves exactly when the entry has focus;
/// every other chord is left to others.
pub proof fn law_list_keys(c: Chord, entry_focused: bool)
    ensures
        c != plain(Trigger::Key(Key::Enter)) ==> spec_key_outcome(c, true) == spec_key_outcome(
            c,
            false,
        ),
        spec_key_outcome(with_mods(2, Trigger::Key(Key::Char('z'))), entry_focused)
            == (KeyOutcome { handled: true, request: Some(RuntimeRequest::Suspend), save_task: false }),
        spec_key_outcome(with_mods(2, Trigger::Key(Key::Char('c'))), entry_focused)
            == (KeyOutcome { handled: true, request: Some(RuntimeRequest::Quit(0)), save_task: false }),
        spec_key_outcome(with_mods(2, Trigger::Key(Key::Char('q'))), entry_focused)
            == (KeyOutcome { handled: true, request: Some(RuntimeRequest::Quit(0)), save_task: false }),
        spec_key_outcome(plain(Trigger::Key(Key::Tab)), entry_focused) == (KeyOutcome {
            handled: true,
            request: Some(RuntimeRequest::FocusNext),
            save_task: false,
        }),
        spec_key_outcome(with_mods(1, Trigger::Key(Key::Tab)), entry_focused) == (KeyOutcome {
            handled: true,
            request: Some(RuntimeRequest::FocusPrevious),
            save_task: false,
        }),
        spec_key_outcome(plain(Trigger::Key(Key::Enter)), entry_focused) == (KeyOutcome {
            handled: true,
            request: None,
            save_task: entry_focused,
        }),
        !(c == with_mods(2, Trigger::Key(Key::Char('z'))) || c == with_mods(
            2,
            Trigger::Key(Key::Char('c')),
        ) || c == with_mods(2, Trigger::Key(Key::Char('q'))) || c == plain(Trigger::Key(Key::Tab))
            || c == with_mods(1, Trigger::Key(Key::Tab)) || c == plain(Trigger::Key(Key::Enter)))
            ==> spec_key_outcome(c, entry_focused) == (KeyOutcome {
            handled: false,
            request: None,
            save_task: false,
        }),
{
}

/// With nothing typed, adding a task changes nothing.
pub proof fn law_empty_description_adds_nothing(v: TaskListView)
    requires
        v.next_task.len() == 0,
    ensures
        spec_add_task(v) == v,
{
}

/// A fresh list holds three tasks, of which only the second, "Buy eggs", is
/// done.
pub proof fn law_default_tasks()
    ensures
        spec_default_tasks().len() == 3,
        spec_default_tasks()[0].description == "Buy milk"@ && !spec_default_tasks()[0].done,
        spec_default_tasks()[1].description == "Buy eggs"@ && spec_default_tasks()[1].done,
        spec_default_tasks()[2].description == "Buy bread"@ && !spec_default_tasks()[2].done,
{
}

} // verus!
