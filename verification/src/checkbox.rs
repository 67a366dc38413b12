//! A two-state checkbox: an indicator, `[x]` or `[ ]`, before a label.
use vstd::prelude::*;
use crate::input::Chord;
use crate::input::InputEvent;
use crate::input::Key;
use crate::input::MouseButton;
use crate::input::Trigger;
use crate::input::cell_inside;
use crate::input::plain;
use crate::input::released_inside;

verus! {

/// What a checkbox asks of the UI runtime after handling input.
#[derive(Clone, Copy, Debug, PartialEq, Eq, Structural)]
pub struct CheckboxEffects {
    /// The event was consumed.
    pub handled: bool,
    /// The checkbox asks for keyboard focus.
    pub focus: bool,
    /// The checkbox was toggled to this state: its indicator must be
    /// redrawn and the new state reported.
    pub change: Option<bool>,
}

/// A key that toggles the checkbox: Enter or Space.
pub open spec fn is_toggle_key(event: InputEvent) -> bool {
    event.chord == plain(Trigger::Key(Key::Enter)) || event.chord == plain(
        Trigger::Key(Key::Char(' ')),
    )
}

/// How a checkbox that is `checked` and `width` x `height` cells large
/// answers `event`: its new state and the effects.
///
/// Enter or Space toggles it; a left click asks for focus; releasing the
/// left button inside the checkbox toggles it; any other event is not
/// consumed.
pub open spec fn checkbox_outcome(checked: bool, event: InputEvent, width: int, height: int) -> (bool, CheckboxEffects) {
    if is_toggle_key(event) {
        (!checked, CheckboxEffects { handled: true, focus: false, change: Some(!checked) })
    } else if event.chord == plain(Trigger::MouseDown(MouseButton::Left)) {
        (checked, CheckboxEffects { handled: true, focus: true, change: None })
    } else if event.chord == plain(Trigger::MouseUp(MouseButton::Left)) {
        if cell_inside(event.cell_x as int, event.cell_y as int, width, height) {
            (!checked, CheckboxEffects { handled: true, focus: false, change: Some(!checked) })
        } else {
            (checked, CheckboxEffects { handled: true, focus: false, change: None })
        }
    } else {
        (checked, CheckboxEffects { handled: false, focus: false, change: None })
    }
}

/// Two-state checkbox that reports each toggle.
pub struct Checkbox {
    checked: bool,
}

impl View for Checkbox {
    type V = bool;

    closed spec fn view(&self) -> bool {
        self.checked
    }
}

impl Checkbox {
    /// Creates an unchecked checkbox.
    pub fn new() -> (checkbox: Box<Self>)
        ensures
            checkbox@ == false,
    {
        Box::new(Checkbox { checked: false })
    }

    /// Whether the checkbox is checked.
    pub fn is_checked(&self) -> (checked: bool)
        ensures
            checked == self@,
    {
        self.checked
    }

    /// Sets the state; says whether it changed, so that the indicator must
    /// be redrawn.
    pub fn set_checked(&mut self, value: bool) -> (changed: bool)
        ensures
            final(self)@ == value,
            changed == (old(self)@ != value),
    {
        if self.checked != value {
            self.checked = value;
            true
        } else {
            false
        }
    }

    /// Builder form of checking the box.
    pub fn checked(self: Box<Self>) -> (checkbox: Box<Self>)
        ensures
            checkbox@ == true,
    {
        self.checked_if(true)
    }

    /// Builder form of setting the state to `value`.
    pub fn checked_if(self: Box<Self>, value: bool) -> (checkbox: Box<Self>)
        ensures
            checkbox@ == value,
    {
        let mut c = self;
        c.set_checked(value);
        c
    }

    /// Flips the state and returns the new one, which is to be reported.
    pub fn toggle(&mut self) -> (checked: bool)
        ensures
            final(self)@ == !old(self)@,
            checked == final(self)@,
    {
        let value = !self.checked;
        self.set_checked(value);
        self.checked
    }

    /// The indicator drawn before the label: `[x]` when checked, `[ ]`
    /// otherwise.
    pub fn indicator(&self) -> (icon: &'static str)
        ensures
            icon@ == (if self@ {
                "[x]"@
            } else {
                "[ ]"@
            }),
            icon@ == seq![
                '[',
                if self@ {
                    'x'
                } else {
                    ' '
                },
                ']',
            ],
    {
        proof {
            reveal_strlit("[x]");
            reveal_strlit("[ ]");
        }
        if self.checked {
            "[x]"
        } else {
            "[ ]"
        }
    }

    /// Answers `event` for a checkbox of `width` x `height` cells: updates
    /// the state and returns what to ask of the UI runtime.
    pub fn on_input(&mut self, event: &InputEvent, width: u16, height: u16) -> (effects:
        CheckboxEffects)
        ensures
            (final(self)@, effects) == checkbox_outcome(
                old(self)@,
                *event,
                width as int,
                height as int,
            ),
    {
        let c = event.chord;
        if c == (Chord { trigger: Trigger::Key(Key::Enter), modifiers: 0 }) || c == (
        Chord { trigger: Trigger::Key(Key::Char(' ')), modifiers: 0 }) {
            let now = self.toggle();
            CheckboxEffects { handled: true, focus: false, change: Some(now) }
        } else if c == (Chord {
            trigger: Trigger::MouseDown(MouseButton::Left),
            modifiers: 0,
        }) {
            CheckboxEffects { handled: true, focus: true, change: None }
        } else if c == (Chord {
            trigger: Trigger::MouseUp(MouseButton::Left),
            modifiers: 0,
        }) {
            if released_inside(event.cell_x, event.cell_y, width, height) {
                let now = self.toggle();
                CheckboxEffects { handled: true, focus: false, change: Some(now) }
            } else {
                CheckboxEffects { handled: true, focus: false, change: None }
            }
        } else {
            CheckboxEffects { handled: false, focus: false, change: None }
        }
    }
}

/// Toggling twice gives back the state one started from, and each toggle
/// reports the state it leaves.
pub proof fn law_toggle_twice(checked: bool, event: InputEvent, width: int, height: int)
    requires
        is_toggle_key(event),
    ensures
        ({
            let (once, e1) = checkbox_outcome(checked, event, width, height);
            let (twice, e2) = checkbox_outcome(once, event, width, height);
            &&& twice == checked
            &&& e1.change == Some(once)
            &&& e2.change == Some(twice)
        }),
{
}

/// A checkbox changes state only by a toggle key or by a left-button release
/// inside it, and every change is reported with the new state.
pub proof fn law_changes_are_reported(checked: bool, event: InputEvent, width: int, height: int)
    ensures
        ({
            let (after, e) = checkbox_outcome(checked, event, width, height);
            &&& (after != checked) <==> e.change is Some
            &&& e.change matches Some(b) ==> b == after && (is_toggle_key(event) || (
            event.chord == plain(Trigger::MouseUp(MouseButton::Left)) && cell_inside(
                event.cell_x as int,
                event.cell_y as int,
                width,
                height,
            )))
        }),
{
}

/// What each gesture does to a checkbox, from either state: Enter, Space,
/// and a left release inside it toggle it and report the new state; a left
/// press asks for focus and changes nothing; a left release outside is
/// consumed without change; every other chord is left to others.
pub proof fn law_checkbox_gestures(checked: bool, event: InputEvent, width: int, height: int)
    ensures
        (event.chord == plain(Trigger::Key(Key::Enter)) || event.chord == plain(
            Trigger::Key(Key::Char(' ')),
        )) ==> checkbox_outcome(checked, event, width, height) == (
            !checked,
            CheckboxEffects { handled: true, focus: false, change: Some(!checked) },
        ),
        event.chord == plain(Trigger::MouseUp(MouseButton::Left)) && cell_inside(
            event.cell_x as int,
            event.cell_y as int,
            width,
            height,
        ) ==> checkbox_outcome(checked, event, width, height) == (
            !checked,
            CheckboxEffects { handled: true, focus: false, change: Some(!checked) },
        ),
        event.chord == plain(Trigger::MouseUp(MouseButton::Left)) && !cell_inside(
            event.cell_x as int,
            event.cell_y as int,
            width,
            height,
        ) ==> checkbox_outcome(checked, event, width, height) == (
            checked,
            CheckboxEffects { handled: true, focus: false, change: None },
        ),
        event.chord == plain(Trigger::MouseDown(MouseButton::Left)) ==> checkbox_outcome(
            checked,
            event,
            width,
            height,
        ) == (checked, CheckboxEffects { handled: true, focus: true, change: None }),
        !(event.chord == plain(Trigger::Key(Key::Enter)) || event.chord == plain(
            Trigger::Key(Key::Char(' ')),
        ) || event.chord == plain(Trigger::MouseUp(MouseButton::Left)) || event.chord == plain(
            Trigger::MouseDown(MouseButton::Left),
        )) ==> checkbox_outcome(checked, event, width, height) == (
            checked,
            CheckboxEffects { handled: false, focus: false, change: None },
        ),
{
}

/// A cell is inside a widget exactly when it is at least zero and below the
/// size on both axes.
pub proof fn law_cell_inside(x: int, y: int, width: int, height: int)
    ensures
        cell_inside(x, y, width, height) <==> (0 <= x && x < width && 0 <= y && y < height),
{
}

} // verus!
