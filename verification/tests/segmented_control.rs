use todo_tui::input::{Chord, Direction, InputEvent, Key, MouseButton, Trigger, MOD_CTRL};
use todo_tui::segmented_control::{ControlEffects, SegmentStyle, SegmentedControl};

fn filters() -> Box<SegmentedControl> {
    SegmentedControl::new(&["All", "Active", "Completed"])
}

fn key(k: Key) -> InputEvent {
    InputEvent { chord: Chord { trigger: Trigger::Key(k), modifiers: 0 }, cell_x: -1, cell_y: -1 }
}

fn mouse(trigger: Trigger, x: i32, y: i32) -> InputEvent {
    InputEvent { chord: Chord { trigger, modifiers: 0 }, cell_x: x, cell_y: y }
}

const NOTHING: ControlEffects = ControlEffects { handled: true, repaint: false, focus: false, change: None };

#[test]
fn new_selects_first_segment() {
    let c = filters();
    assert_eq!(c.get_selected(), 0);
    for i in 0..3 {
        assert!(!c.is_disabled(i));
    }
}

#[test]
fn content_width_sums_padded_label_bytes() {
    let c = filters();
    assert_eq!(c.content_width(), 5 + 8 + 11);
    assert_eq!(c.measure(2, 3), (26, 4));
    assert_eq!(SegmentedControl::new(&[]).content_width(), 0);
}

#[test]
fn width_counts_bytes_of_non_ascii_labels() {
    let c = SegmentedControl::new(&["é"]);
    assert_eq!(c.content_width(), 4);
    assert_eq!(c.hit_segment(3, 0, 1), Some(0));
    assert_eq!(c.hit_segment(4, 0, 1), None);
}

#[test]
fn hit_segment_maps_columns_to_segments() {
    let c = filters();
    for x in 0..5 {
        assert_eq!(c.hit_segment(x, 0, 1), Some(0));
    }
    for x in 5..13 {
        assert_eq!(c.hit_segment(x, 0, 1), Some(1));
    }
    for x in 13..24 {
        assert_eq!(c.hit_segment(x, 0, 1), Some(2));
    }
    assert_eq!(c.hit_segment(24, 0, 1), None);
    assert_eq!(c.hit_segment(-1, 0, 1), None);
    assert_eq!(c.hit_segment(3, 1, 1), None);
    assert_eq!(c.hit_segment(3, -1, 1), None);
    assert_eq!(c.hit_segment(3, 1, 2), Some(0));
}

#[test]
fn step_skips_disabled_segments() {
    let c = SegmentedControl::new(&["a", "b", "c", "d"]).disabled(1).disabled(2);
    assert_eq!(c.step(0, 1), Some(3));
    assert_eq!(c.step(3, -1), Some(0));
    assert_eq!(c.step(3, 1), None);
    assert_eq!(c.step(0, -1), None);
    let all_off = SegmentedControl::new(&["a", "b"]).disabled(0).disabled(1);
    assert_eq!(all_off.step(0, 1), None);
}

#[test]
fn step_from_outside_the_control_finds_nothing() {
    let c = filters().selected(10);
    assert_eq!(c.step(10, -1), None);
    assert_eq!(c.step(10, 1), None);
}

#[test]
fn set_disabled_reads_back_and_reports_changes() {
    let mut c = filters();
    assert!(c.set_disabled(1, true));
    assert!(c.is_disabled(1));
    assert!(!c.is_disabled(0));
    assert!(!c.is_disabled(2));
    assert!(!c.set_disabled(1, true));
    assert!(c.set_disabled(1, false));
    assert!(!c.is_disabled(1));
    assert!(!c.set_disabled(1, false));
}

#[test]
fn set_selected_ignores_disabled_and_out_of_range() {
    let mut c = filters().disabled(2);
    assert!(c.set_selected(1));
    assert_eq!(c.get_selected(), 1);
    assert!(!c.set_selected(1));
    assert!(!c.set_selected(2));
    assert_eq!(c.get_selected(), 1);
    assert!(!c.set_selected(3));
    assert_eq!(c.get_selected(), 1);
}

#[test]
fn select_index_reports_even_an_unchanged_selection() {
    let mut c = filters().disabled(1);
    assert_eq!(c.select_index(0), (false, Some(0)));
    assert_eq!(c.select_index(2), (true, Some(2)));
    assert_eq!(c.get_selected(), 2);
    assert_eq!(c.select_index(1), (false, None));
    assert_eq!(c.select_index(7), (false, None));
    assert_eq!(c.get_selected(), 2);
}

#[test]
fn set_pressed_reports_changes() {
    let mut c = filters();
    assert!(!c.set_pressed(None));
    assert!(c.set_pressed(Some(1)));
    assert!(!c.set_pressed(Some(1)));
    assert!(c.set_pressed(Some(2)));
    assert!(c.set_pressed(None));
}

#[test]
fn render_places_separators_and_styles() {
    let c = filters();
    let paints = c.render(true);
    assert_eq!(paints.len(), 3);
    assert!(!paints[0].separator);
    assert_eq!(paints[0].text, " All ");
    assert_eq!(paints[0].style, SegmentStyle::SelectedFocused);
    assert!(!paints[1].separator);
    assert_eq!(paints[1].text, " Active ");
    assert_eq!(paints[1].style, SegmentStyle::Base);
    assert!(paints[2].separator);
    assert_eq!(paints[2].text, "Completed ");
    assert_eq!(paints[2].style, SegmentStyle::Base);
    assert!(paints.iter().all(|p| !p.dim));
}

#[test]
fn render_marks_pressed_disabled_and_unfocused() {
    let mut c = SegmentedControl::new(&["a", "b", "c", "d"]).selected(2).disabled(3);
    c.set_pressed(Some(0));
    let paints = c.render(false);
    assert_eq!(paints[0].style, SegmentStyle::Pressed);
    assert!(!paints[0].separator);
    assert_eq!(paints[0].text, " a ");
    assert!(paints[1].separator);
    assert_eq!(paints[1].text, "b ");
    assert_eq!(paints[2].style, SegmentStyle::SelectedUnfocused);
    assert!(!paints[2].separator);
    assert!(!paints[3].separator);
    assert!(paints[3].dim);
    assert!(!paints[2].dim);
}

#[test]
fn drawn_cells_match_hit_widths_for_ascii_labels() {
    let mut c = filters();
    for selected in 0..3 {
        c.set_selected(selected);
        let paints = c.render(true);
        let mut column = 0usize;
        for (i, p) in paints.iter().enumerate() {
            let start = column;
            column += usize::from(p.separator) + p.text.chars().count();
            for x in start..column {
                assert_eq!(c.hit_segment(x as i32, 0, 1), Some(i));
            }
        }
        assert_eq!(column, usize::from(c.content_width()));
    }
}

#[test]
fn arrow_keys_and_hl_move_the_selection() {
    let mut c = filters();
    let e = c.on_input(&key(Key::Arrow(Direction::Right)), 1);
    assert_eq!(e, ControlEffects { handled: true, repaint: true, focus: false, change: Some(1) });
    let e = c.on_input(&key(Key::Char('l')), 1);
    assert_eq!(e.change, Some(2));
    assert_eq!(c.get_selected(), 2);
    assert_eq!(c.on_input(&key(Key::Char('l')), 1), NOTHING);
    assert_eq!(c.on_input(&key(Key::Arrow(Direction::Left)), 1).change, Some(1));
    assert_eq!(c.on_input(&key(Key::Char('h')), 1).change, Some(0));
    assert_eq!(c.on_input(&key(Key::Char('h')), 1), NOTHING);
    assert_eq!(c.get_selected(), 0);
}

#[test]
fn arrow_keys_skip_disabled_segments() {
    let mut c = filters().disabled(1);
    assert_eq!(c.on_input(&key(Key::Arrow(Direction::Right)), 1).change, Some(2));
    assert_eq!(c.on_input(&key(Key::Arrow(Direction::Left)), 1).change, Some(0));
}

#[test]
fn modified_and_other_keys_are_not_consumed() {
    let mut c = filters();
    let ctrl_right = InputEvent {
        chord: Chord { trigger: Trigger::Key(Key::Arrow(Direction::Right)), modifiers: MOD_CTRL },
        cell_x: 0,
        cell_y: 0,
    };
    let rejected = ControlEffects { handled: false, repaint: false, focus: false, change: None };
    assert_eq!(c.on_input(&ctrl_right, 1), rejected);
    assert_eq!(c.on_input(&key(Key::Enter), 1), rejected);
    assert_eq!(c.on_input(&mouse(Trigger::MouseDown(MouseButton::Right), 6, 0), 1), rejected);
    assert_eq!(c.get_selected(), 0);
}

#[test]
fn click_and_release_on_a_segment_selects_it() {
    let mut c = filters();
    let e = c.on_input(&mouse(Trigger::MouseDown(MouseButton::Left), 6, 0), 1);
    assert_eq!(e, ControlEffects { handled: true, repaint: true, focus: true, change: None });
    assert_eq!(c.get_selected(), 0);
    let e = c.on_input(&mouse(Trigger::MouseUp(MouseButton::Left), 12, 0), 1);
    assert_eq!(e, ControlEffects { handled: true, repaint: true, focus: false, change: Some(1) });
    assert_eq!(c.get_selected(), 1);
}

#[test]
fn release_over_another_segment_only_clears_the_press() {
    let mut c = filters();
    c.on_input(&mouse(Trigger::MouseDown(MouseButton::Left), 6, 0), 1);
    let e = c.on_input(&mouse(Trigger::MouseUp(MouseButton::Left), 14, 0), 1);
    assert_eq!(e, ControlEffects { handled: true, repaint: true, focus: false, change: None });
    assert_eq!(c.get_selected(), 0);
    let e = c.on_input(&mouse(Trigger::MouseUp(MouseButton::Left), 6, 0), 1);
    assert_eq!(e, NOTHING);
}

#[test]
fn click_on_disabled_or_outside_does_nothing() {
    let mut c = filters().disabled(1);
    assert_eq!(c.on_input(&mouse(Trigger::MouseDown(MouseButton::Left), 6, 0), 1), NOTHING);
    assert_eq!(c.on_input(&mouse(Trigger::MouseDown(MouseButton::Left), 40, 0), 1), NOTHING);
    assert_eq!(c.on_input(&mouse(Trigger::MouseDown(MouseButton::Left), 2, 3), 1), NOTHING);
}

#[test]
fn release_on_selected_segment_reports_it_without_repaint_of_selection() {
    let mut c = filters();
    c.on_input(&mouse(Trigger::MouseDown(MouseButton::Left), 1, 0), 1);
    let e = c.on_input(&mouse(Trigger::MouseUp(MouseButton::Left), 1, 0), 1);
    assert_eq!(e, ControlEffects { handled: true, repaint: true, focus: false, change: Some(0) });
}
