use todo_tui::button::{button_item_on_input, button_on_input, ButtonEffects};
use todo_tui::checkbox::{Checkbox, CheckboxEffects};
use todo_tui::focus_pane::{border_choice, BorderStyleChoice};
use todo_tui::input::{
    interaction_style, released_inside, Chord, InputEvent, InteractionStyle, Key, MouseButton, Trigger,
    WidgetState, MOD_SHIFT,
};

fn event(trigger: Trigger, x: i32, y: i32) -> InputEvent {
    InputEvent { chord: Chord { trigger, modifiers: 0 }, cell_x: x, cell_y: y }
}

fn key(k: Key) -> InputEvent {
    event(Trigger::Key(k), -1, -1)
}

const CLICK: ButtonEffects = ButtonEffects { handled: true, focus: false, click: true };
const FOCUS: ButtonEffects = ButtonEffects { handled: true, focus: true, click: false };
const QUIET: ButtonEffects = ButtonEffects { handled: true, focus: false, click: false };
const REJECTED: ButtonEffects = ButtonEffects { handled: false, focus: false, click: false };

#[test]
fn released_inside_checks_both_axes() {
    assert!(released_inside(0, 0, 3, 2));
    assert!(released_inside(2, 1, 3, 2));
    assert!(!released_inside(3, 1, 3, 2));
    assert!(!released_inside(2, 2, 3, 2));
    assert!(!released_inside(-1, 0, 3, 2));
    assert!(!released_inside(0, -1, 3, 2));
    assert!(!released_inside(0, 0, 0, 0));
}

#[test]
fn interaction_styles_follow_state() {
    assert_eq!(interaction_style(WidgetState::Focused), InteractionStyle::AccentBold);
    assert_eq!(interaction_style(WidgetState::FocusedHover), InteractionStyle::AccentBold);
    assert_eq!(interaction_style(WidgetState::Active), InteractionStyle::Accent);
    assert_eq!(interaction_style(WidgetState::Hover), InteractionStyle::Resting);
    assert_eq!(interaction_style(WidgetState::Normal), InteractionStyle::Resting);
}

#[test]
fn button_answers_enter_and_pointer() {
    assert_eq!(button_on_input(&key(Key::Enter), 10, 3), CLICK);
    assert_eq!(button_on_input(&key(Key::Char(' ')), 10, 3), REJECTED);
    assert_eq!(button_on_input(&event(Trigger::MouseDown(MouseButton::Left), 2, 1), 10, 3), FOCUS);
    assert_eq!(button_on_input(&event(Trigger::MouseUp(MouseButton::Left), 9, 2), 10, 3), CLICK);
    assert_eq!(button_on_input(&event(Trigger::MouseUp(MouseButton::Left), 10, 2), 10, 3), QUIET);
    assert_eq!(button_on_input(&event(Trigger::MouseDrag(MouseButton::Left), 2, 1), 10, 3), QUIET);
    assert_eq!(button_on_input(&event(Trigger::MouseHover, 2, 1), 10, 3), QUIET);
    assert_eq!(button_on_input(&event(Trigger::MouseDown(MouseButton::Right), 2, 1), 10, 3), REJECTED);
    let shift_enter = InputEvent {
        chord: Chord { trigger: Trigger::Key(Key::Enter), modifiers: MOD_SHIFT },
        cell_x: 0,
        cell_y: 0,
    };
    assert_eq!(button_on_input(&shift_enter, 10, 3), REJECTED);
}

#[test]
fn button_item_answers_enter_space_and_pointer() {
    assert_eq!(button_item_on_input(&key(Key::Enter), 10, 1), CLICK);
    assert_eq!(button_item_on_input(&key(Key::Char(' ')), 10, 1), CLICK);
    assert_eq!(button_item_on_input(&event(Trigger::MouseDown(MouseButton::Left), 0, 0), 10, 1), FOCUS);
    assert_eq!(button_item_on_input(&event(Trigger::MouseUp(MouseButton::Left), 0, 0), 10, 1), CLICK);
    assert_eq!(button_item_on_input(&event(Trigger::MouseUp(MouseButton::Left), 0, 1), 10, 1), QUIET);
    assert_eq!(button_item_on_input(&event(Trigger::MouseHover, 0, 0), 10, 1), REJECTED);
    assert_eq!(button_item_on_input(&event(Trigger::MouseDrag(MouseButton::Left), 0, 0), 10, 1), REJECTED);
}

#[test]
fn checkbox_starts_unchecked_and_builds() {
    let c = Checkbox::new();
    assert!(!c.is_checked());
    assert_eq!(c.indicator(), "[ ]");
    let c = Checkbox::new().checked();
    assert!(c.is_checked());
    assert_eq!(c.indicator(), "[x]");
    assert!(!Checkbox::new().checked_if(false).is_checked());
    assert!(Checkbox::new().checked_if(true).is_checked());
}

#[test]
fn checkbox_set_and_toggle() {
    let mut c = Checkbox::new();
    assert!(!c.set_checked(false));
    assert!(c.set_checked(true));
    assert!(!c.set_checked(true));
    assert!(!c.toggle());
    assert!(c.toggle());
    assert!(c.is_checked());
}

#[test]
fn checkbox_answers_keys_and_pointer() {
    let mut c = Checkbox::new();
    let toggled = |b| CheckboxEffects { handled: true, focus: false, change: Some(b) };
    assert_eq!(c.on_input(&key(Key::Enter), 8, 1), toggled(true));
    assert_eq!(c.on_input(&key(Key::Char(' ')), 8, 1), toggled(false));
    assert_eq!(
        c.on_input(&event(Trigger::MouseDown(MouseButton::Left), 3, 0), 8, 1),
        CheckboxEffects { handled: true, focus: true, change: None }
    );
    assert!(!c.is_checked());
    assert_eq!(c.on_input(&event(Trigger::MouseUp(MouseButton::Left), 7, 0), 8, 1), toggled(true));
    assert_eq!(
        c.on_input(&event(Trigger::MouseUp(MouseButton::Left), 8, 0), 8, 1),
        CheckboxEffects { handled: true, focus: false, change: None }
    );
    assert_eq!(
        c.on_input(&key(Key::Char('x')), 8, 1),
        CheckboxEffects { handled: false, focus: false, change: None }
    );
    assert!(c.is_checked());
}

#[test]
fn focus_pane_border_choice() {
    assert_eq!(border_choice(true, true), BorderStyleChoice::SelectedOverride);
    assert_eq!(border_choice(true, false), BorderStyleChoice::ConfiguredSelected);
    assert_eq!(border_choice(false, true), BorderStyleChoice::Resting);
    assert_eq!(border_choice(false, false), BorderStyleChoice::Resting);
}
