//! Input handling of the two kinds of button: the bordered button that
//! holds other widgets, and the plain labelled item used in lists.
use vstd::prelude::*;
use crate::input::Chord;
use crate::input::InputEvent;
use crate::input::Key;
use crate::input::MouseButton;
use crate::input::Trigger;
use crate::input::cell_inside;
use crate::input::plain;
use crate::input::released_inside;

verus! {

/// What a button asks of the UI runtime after handling input.
#[derive(Clone, Copy, Debug, PartialEq, Eq, Structural)]
pub struct ButtonEffects {
    /// The event was consumed.
    pub handled: bool,
    /// The button asks for keyboard focus.
    pub focus: bool,
    /// The button reports a click.
    pub click: bool,
}

/// The effects of consuming an event without asking for anything.
pub open spec fn quiet() -> ButtonEffects {
    ButtonEffects { handled: true, focus: false, click: false }
}

/// A left-button release, and whether it happened inside a button of the
/// given size.
pub open spec fn released_in(event: InputEvent, width: int, height: int) -> bool {
    &&& event.chord == plain(Trigger::MouseUp(MouseButton::Left))
    &&& cell_inside(event.cell_x as int, event.cell_y as int, width, height)
}

/// How a bordered button of `width` x `height` cells answers `event`:
/// Enter clicks it; a left click asks for focus; a left release inside it
/// clicks it; dragging with the left button and hovering are consumed
/// without effect; anything else is not consumed.
pub open spec fn button_outcome(event: InputEvent, width: int, height: int) -> ButtonEffects {
    let c = event.chord;
    if c == plain(Trigger::Key(Key::Enter)) {
        ButtonEffects { handled: true, focus: false, click: true }
    } else if c == plain(Trigger::MouseDown(MouseButton::Left)) {
        ButtonEffects { handled: true, focus: true, click: false }
    } else if c == plain(Trigger::MouseUp(MouseButton::Left)) {
        ButtonEffects { handled: true, focus: false, click: released_in(event, width, height) }
    } else if c == plain(Trigger::MouseDrag(MouseButton::Left)) || c == plain(Trigger::MouseHover) {
        quiet()
    } else {
        ButtonEffects { handled: false, focus: false, click: false }
    }
}

/// How a list button item of `width` x `height` cells answers `event`:
/// Enter or Space clicks it; a left click asks for focus; a left release
/// inside it clicks it; anything else is not consumed.
pub open spec fn button_item_outcome(event: InputEvent, width: int, height: int) -> ButtonEffects {
    let c = event.chord;
    if c == plain(Trigger::Key(Key::Enter)) || c == plain(Trigger::Key(Key::Char(' '))) {
        ButtonEffects { handled: true, focus: false, click: true }
    } else if c == plain(Trigger::MouseDown(MouseButton::Left)) {
        ButtonEffects { handled: true, focus: true, click: false }
    } else if c == plain(Trigger::MouseUp(MouseButton::Left)) {
        ButtonEffects { handled: true, focus: false, click: released_in(event, width, height) }
    } else {
        ButtonEffects { handled: false, focus: false, click: false }
    }
}

/// Answers `event` for a bordered button of `width` x `height` cells.
pub fn button_on_input(event: &InputEvent, width: u16, height: u16) -> (effects: ButtonEffects)
    ensures
        effects == button_outcome(*event, width as int, height as int),
{
    let c = event.chord;
    if c == (Chord { trigger: Trigger::Key(Key::Enter), modifiers: 0 }) {
        ButtonEffects { handled: true, focus: false, click: true }
    } else if c == (Chord { trigger: Trigger::MouseDown(MouseButton::Left), modifiers: 0 }) {
        ButtonEffects { handled: true, focus: true, click: false }
    } else if c == (Chord { trigger: Trigger::MouseUp(MouseButton::Left), modifiers: 0 }) {
        let inside = released_inside(event.cell_x, event.cell_y, width, height);
        ButtonEffects { handled: true, focus: false, click: inside }
    } else if c == (Chord { trigger: Trigger::MouseDrag(MouseButton::Left), modifiers: 0 }) || c
        == (Chord { trigger: Trigger::MouseHover, modifiers: 0 }) {
        ButtonEffects { handled: true, focus: false, click: false }
    } else {
        ButtonEffects { handled: false, focus: false, click: false }
    }
}

/// Answers `event` for a list button item of `width` x `height` cells.
pub fn button_item_on_input(event: &InputEvent, width: u16, height: u16) -> (effects:
    ButtonEffects)
    ensures
        effects == button_item_outcome(*event, width as int, height as int),
{
    let c = event.chord;
    if c == (Chord { trigger: Trigger::Key(Key::Enter), modifiers: 0 }) || c == (Chord {
        trigger: Trigger::Key(Key::Char(' ')),
        modifiers: 0,
    }) {
        ButtonEffects { handled: true, focus: false, click: true }
    } else if c == (Chord { trigger: Trigger::MouseDown(MouseButton::Left), modifiers: 0 }) {
        ButtonEffects { handled: true, focus: true, click: false }
    } else if c == (Chord { trigger: Trigger::MouseUp(MouseButton::Left), modifiers: 0 }) {
        let inside = released_inside(event.cell_x, event.cell_y, width, height);
        ButtonEffects { handled: true, focus: false, click: inside }
    } else {
        ButtonEffects { handled: false, focus: false, click: false }
    }
}

/// A mouse gesture clicks a button only when the left button is released
/// inside it: a press alone never clicks, and a release outside is consumed
/// without a click. Both kinds of button agree on this.
pub proof fn law_pointer_clicks_only_inside(event: InputEvent, width: int, height: int)
    requires
        event.chord.trigger is MouseDown || event.chord.trigger is MouseUp
            || event.chord.trigger is MouseDrag || event.chord.trigger is MouseHover,
    ensures
        button_outcome(event, width, height).click ==> released_in(event, width, height),
        button_item_outcome(event, width, height).click ==> released_in(event, width, height),
        released_in(event, width, height) ==> button_outcome(event, width, height).click
            && button_item_outcome(event, width, height).click,
{
}

/// What each gesture does to a bordered button: Enter clicks it; a left
/// press asks for focus; a left release clicks it exactly when inside;
/// left drags and hovering are consumed quietly; everything else, Space
/// included, is left to others.
pub proof fn law_button_gestures(event: InputEvent, width: int, height: int)
    ensures
        event.chord == plain(Trigger::Key(Key::Enter)) ==> button_outcome(event, width, height)
            == (ButtonEffects { handled: true, focus: false, click: true }),
        event.chord == plain(Trigger::MouseDown(MouseButton::Left)) ==> button_outcome(
            event,
            width,
            height,
        ) == (ButtonEffects { handled: true, focus: true, click: false }),
        event.chord == plain(Trigger::MouseUp(MouseButton::Left)) ==> button_outcome(
            event,
            width,
            height,
        ) == (ButtonEffects {
            handled: true,
            focus: false,
            click: cell_inside(event.cell_x as int, event.cell_y as int, width, height),
        }),
        (event.chord == plain(Trigger::MouseDrag(MouseButton::Left)) || event.chord == plain(
            Trigger::MouseHover,
        )) ==> button_outcome(event, width, height) == (ButtonEffects {
            handled: true,
            focus: false,
            click: false,
        }),
        !(event.chord == plain(Trigger::Key(Key::Enter)) || event.chord == plain(
            Trigger::MouseDown(MouseButton::Left),
        ) || event.chord == plain(Trigger::MouseUp(MouseButton::Left)) || event.chord == plain(
            Trigger::MouseDrag(MouseButton::Left),
        ) || event.chord == plain(Trigger::MouseHover)) ==> button_outcome(event, width, height)
            == (ButtonEffects { handled: false, focus: false, click: false }),
{
}

/// What each gesture does to a list button item: Enter and Space click it;
/// a left press asks for focus; a left release clicks it exactly when
/// inside; everything else, hovering and dragging included, is left to
/// others.
pub proof fn law_button_item_gestures(event: InputEvent, width: int, height: int)
    ensures
        (event.chord == plain(Trigger::Key(Key::Enter)) || event.chord == plain(
            Trigger::Key(Key::Char(' ')),
        )) ==> button_item_outcome(event, width, height) == (ButtonEffects {
            handled: true,
            focus: false,
            click: true,
        }),
        event.chord == plain(Trigger::MouseDown(MouseButton::Left)) ==> button_item_outcome(
            event,
            width,
            height,
        ) == (ButtonEffects { handled: true, focus: true, click: false }),
        event.chord == plain(Trigger::MouseUp(MouseButton::Left)) ==> button_item_outcome(
            event,
            width,
            height,
        ) == (ButtonEffects {
            handled: true,
            focus: false,
            click: cell_inside(event.cell_x as int, event.cell_y as int, width, height),
        }),
        !(event.chord == plain(Trigger::Key(Key::Enter)) || event.chord == plain(
            Trigger::Key(Key::Char(' ')),
        ) || event.chord == plain(Trigger::MouseDown(MouseButton::Left)) || event.chord == plain(
            Trigger::MouseUp(MouseButton::Left),
        )) ==> button_item_outcome(event, width, height) == (ButtonEffects {
            handled: false,
            focus: false,
            click: false,
        }),
{
}

} // verus!
