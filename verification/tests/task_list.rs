use todo_tui::global_chords::{global_request, RuntimeRequest};
use todo_tui::input::{Chord, Key, Trigger, MOD_CTRL, MOD_SHIFT};
use todo_tui::task_list::{
    default_tasks, filter_at, filter_labels, initial_tasks, is_shown, key_outcome, EventEffects,
    Filter, KeyOutcome, Task, TaskList, TaskListEvent,
};

fn task(d: &str, done: bool) -> Task {
    Task { description: d.to_string(), done }
}

fn chord(k: Key, modifiers: u8) -> Chord {
    Chord { trigger: Trigger::Key(k), modifiers }
}

fn descriptions(l: &TaskList) -> Vec<(String, bool)> {
    l.tasks().iter().map(|t| (t.description.clone(), t.done)).collect()
}

#[test]
fn filters_show_tasks() {
    assert!(is_shown(Filter::All, true) && is_shown(Filter::All, false));
    assert!(is_shown(Filter::Active, false) && !is_shown(Filter::Active, true));
    assert!(is_shown(Filter::Completed, true) && !is_shown(Filter::Completed, false));
}

#[test]
fn filter_segments_in_order() {
    assert_eq!(filter_labels(), vec!["All", "Active", "Completed"]);
    assert_eq!(filter_at(0), Filter::All);
    assert_eq!(filter_at(1), Filter::Active);
    assert_eq!(filter_at(2), Filter::Completed);
}

#[test]
fn default_tasks_when_nothing_stored() {
    let d = default_tasks();
    let got: Vec<(String, bool)> = d.iter().map(|t| (t.description.clone(), t.done)).collect();
    assert_eq!(
        got,
        vec![("Buy milk".to_string(), false), ("Buy eggs".to_string(), true), ("Buy bread".to_string(), false)]
    );
    assert_eq!(initial_tasks(Vec::new()).len(), 3);
    let kept = initial_tasks(vec![task("Walk", true)]);
    assert_eq!(kept.len(), 1);
    assert_eq!(kept[0].description, "Walk");
    assert!(kept[0].done);
}

#[test]
fn new_list_shows_all() {
    let l = TaskList::new(vec![task("a", false), task("b", true)]);
    assert_eq!(l.filter(), Filter::All);
    assert_eq!(l.visible_rows(), vec![true, true]);
}

#[test]
fn save_task_appends_non_empty_text() {
    let mut l = TaskList::new(vec![task("a", false)]);
    l.save_task("write tests".to_string());
    assert_eq!(descriptions(&l), vec![("a".to_string(), false), ("write tests".to_string(), false)]);
    l.save_task(String::new());
    assert_eq!(l.tasks().len(), 2);
}

#[test]
fn add_task_with_nothing_typed_adds_nothing() {
    let mut l = TaskList::new(Vec::new());
    l.add_task();
    assert!(l.tasks().is_empty());
}

#[test]
fn filter_choice_changes_shown_rows() {
    let mut l = TaskList::new(vec![task("a", false), task("b", true), task("c", false)]);
    let e = l.on_event(TaskListEvent::FilterChosen(1));
    assert_eq!(e, EventEffects { persist: false, rebuild: true, save_task: false });
    assert_eq!(l.filter(), Filter::Active);
    assert_eq!(l.visible_rows(), vec![true, false, true]);
    l.on_event(TaskListEvent::FilterChosen(2));
    assert_eq!(l.visible_rows(), vec![false, true, false]);
    l.on_event(TaskListEvent::FilterChosen(0));
    assert_eq!(l.visible_rows(), vec![true, true, true]);
}

#[test]
fn done_change_marks_only_its_task() {
    let mut l = TaskList::new(vec![task("a", false), task("b", false)]);
    let e = l.on_event(TaskListEvent::DoneChanged { row: Some(1), done: true });
    assert_eq!(e, EventEffects { persist: true, rebuild: true, save_task: false });
    assert_eq!(descriptions(&l), vec![("a".to_string(), false), ("b".to_string(), true)]);
    l.on_event(TaskListEvent::FilterChosen(2));
    assert_eq!(l.visible_rows(), vec![false, true]);
    let e = l.on_event(TaskListEvent::DoneChanged { row: None, done: false });
    assert!(e.persist && e.rebuild);
    let e = l.on_event(TaskListEvent::DoneChanged { row: Some(5), done: false });
    assert!(e.persist);
    assert_eq!(descriptions(&l), vec![("a".to_string(), false), ("b".to_string(), true)]);
}

#[test]
fn delete_click_removes_its_task() {
    let mut l = TaskList::new(vec![task("a", false), task("b", true), task("c", false)]);
    let e = l.on_event(TaskListEvent::Clicked { row: Some(1), add_button: false });
    assert_eq!(e, EventEffects { persist: true, rebuild: true, save_task: false });
    assert_eq!(descriptions(&l), vec![("a".to_string(), false), ("c".to_string(), false)]);
}

#[test]
fn add_button_click_asks_to_save_the_typed_task() {
    let mut l = TaskList::new(vec![task("a", false)]);
    let e = l.on_event(TaskListEvent::Clicked { row: None, add_button: true });
    assert_eq!(e, EventEffects { persist: true, rebuild: true, save_task: true });
    assert_eq!(l.tasks().len(), 1);
}

#[test]
fn list_keys() {
    let o = |handled, request, save_task| KeyOutcome { handled, request, save_task };
    assert_eq!(key_outcome(chord(Key::Char('z'), MOD_CTRL), false), o(true, Some(RuntimeRequest::Suspend), false));
    assert_eq!(key_outcome(chord(Key::Char('c'), MOD_CTRL), false), o(true, Some(RuntimeRequest::Quit(0)), false));
    assert_eq!(key_outcome(chord(Key::Char('q'), MOD_CTRL), false), o(true, Some(RuntimeRequest::Quit(0)), false));
    assert_eq!(key_outcome(chord(Key::Tab, 0), false), o(true, Some(RuntimeRequest::FocusNext), false));
    assert_eq!(key_outcome(chord(Key::Tab, MOD_SHIFT), false), o(true, Some(RuntimeRequest::FocusPrevious), false));
    assert_eq!(key_outcome(chord(Key::Enter, 0), true), o(true, None, true));
    assert_eq!(key_outcome(chord(Key::Enter, 0), false), o(true, None, false));
    assert_eq!(key_outcome(chord(Key::Char('q'), 0), true), o(false, None, false));
    assert_eq!(key_outcome(chord(Key::Char('z'), MOD_CTRL | MOD_SHIFT), true), o(false, None, false));
}

#[test]
fn global_chords() {
    assert_eq!(global_request(chord(Key::Tab, 0), true), Some(RuntimeRequest::FocusNext));
    assert_eq!(global_request(chord(Key::Tab, 0), false), None);
    assert_eq!(global_request(chord(Key::Tab, MOD_SHIFT), true), Some(RuntimeRequest::FocusPrevious));
    assert_eq!(global_request(chord(Key::Tab, MOD_SHIFT), false), None);
    assert_eq!(global_request(chord(Key::Char('z'), MOD_CTRL), false), Some(RuntimeRequest::Suspend));
    assert_eq!(global_request(chord(Key::Char('c'), MOD_CTRL), false), Some(RuntimeRequest::Quit(0)));
    assert_eq!(global_request(chord(Key::Char('q'), MOD_CTRL), true), Some(RuntimeRequest::Quit(0)));
    assert_eq!(global_request(chord(Key::Char('x'), MOD_CTRL), true), None);
    assert_eq!(global_request(chord(Key::Enter, 0), true), None);
}
