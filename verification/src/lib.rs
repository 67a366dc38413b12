//! Widgets and task-list logic of a terminal to-do application: the state
//! each widget keeps, how it answers input, and what it asks the UI runtime
//! to do.
pub mod input;
pub mod segmented_control;
pub mod checkbox;
pub mod button;
pub mod focus_pane;
pub mod global_chords;
pub mod task_list;
