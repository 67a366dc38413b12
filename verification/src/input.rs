//! Input events as the widgets of this crate read them: key and mouse
//! chords, the cell under the pointer, and the interaction state that
//! drives highlighting.
use vstd::prelude::*;

verus! {

/// Modifier bit for Shift.
pub const MOD_SHIFT: u8 = 1;

/// Modifier bit for Ctrl.
pub const MOD_CTRL: u8 = 2;

/// Modifier bit for Alt.
pub const MOD_ALT: u8 = 4;

/// Modifier bit for Super.
pub const MOD_SUPER: u8 = 8;

/// A direction of an arrow key or of a scroll.
#[derive(Clone, Copy, Debug, PartialEq, Eq, Structural)]
pub enum Direction {
    Up,
    Down,
    Left,
    Right,
}

/// A key on the keyboard.
#[derive(Clone, Copy, Debug, PartialEq, Eq, Structural)]
pub enum Key {
    Backspace,
    Enter,
    Home,
    End,
    PageUp,
    PageDown,
    Tab,
    Delete,
    Insert,
    Esc,
    Arrow(Direction),
    F(u8),
    Char(char),
    /// Any key the toolkit adds beyond these.
    Other,
}

/// A mouse button.
#[derive(Clone, Copy, Debug, PartialEq, Eq, Structural)]
pub enum MouseButton {
    Left,
    Middle,
    Right,
    /// Any button the toolkit adds beyond these.
    Other,
}

/// What set off an input event.
#[derive(Clone, Copy, Debug, PartialEq, Eq, Structural)]
pub enum Trigger {
    Key(Key),
    MouseScroll(Direction),
    MouseSmoothScroll(Direction),
    MouseDown(MouseButton),
    MouseDrag(MouseButton),
    MouseUp(MouseButton),
    MouseHover,
    Paste,
    /// Any trigger the toolkit adds beyond these.
    Other,
}

/// A trigger together with the modifier bits held when it fired.
#[derive(Clone, Copy, Debug, PartialEq, Eq, Structural)]
pub struct Chord {
    pub trigger: Trigger,
    pub modifiers: u8,
}

/// One input event: its chord and the cell under the pointer, relative to
/// the widget that receives it.
#[derive(Clone, Copy, Debug, PartialEq, Eq, Structural)]
pub struct InputEvent {
    pub chord: Chord,
    pub cell_x: i32,
    pub cell_y: i32,
}

/// The chord `trigger` with no modifier held.
pub open spec fn plain(trigger: Trigger) -> Chord {
    Chord { trigger, modifiers: 0 }
}

/// The chord `trigger` with exactly the modifier bits `modifiers` held.
pub open spec fn with_mods(modifiers: u8, trigger: Trigger) -> Chord {
    Chord { trigger, modifiers }
}

/// Whether a cell lies inside a widget of the given size.
pub open spec fn cell_inside(cell_x: int, cell_y: int, width: int, height: int) -> bool {
    &&& 0 <= cell_x < width
    &&& 0 <= cell_y < height
}

/// Whether the cell (`cell_x`, `cell_y`) lies inside a widget of size
/// `width` x `height`: on both axes it is at least zero and below the size.
pub fn released_inside(cell_x: i32, cell_y: i32, width: u16, height: u16) -> (inside: bool)
    ensures
        inside == cell_inside(cell_x as int, cell_y as int, width as int, height as int),
{
    let w: i32 = width as i32;
    let h: i32 = height as i32;
    cell_x >= 0 && cell_x < w && cell_y >= 0 && cell_y < h
}

/// Interaction state of a widget.
#[derive(Clone, Copy, Debug, PartialEq, Eq, Structural)]
pub enum WidgetState {
    Normal,
    Hover,
    Focused,
    FocusedHover,
    Active,
}

/// Which highlight a focusable item takes in a given interaction state.
#[derive(Clone, Copy, Debug, PartialEq, Eq, Structural)]
pub enum InteractionStyle {
    /// The accent style, in bold.
    AccentBold,
    /// The accent style.
    Accent,
    /// The item's own resting style.
    Resting,
}

/// The highlight of an item in `state`: bold accent when focused (hovered
/// or not), plain accent while active, its resting style otherwise.
pub open spec fn spec_interaction_style(state: WidgetState) -> InteractionStyle {
    match state {
        WidgetState::Focused | WidgetState::FocusedHover => InteractionStyle::AccentBold,
        WidgetState::Active => InteractionStyle::Accent,
        _ => InteractionStyle::Resting,
    }
}

/// The highlight of an item in `state`.
pub fn interaction_style(state: WidgetState) -> (style: InteractionStyle)
    ensures
        style == spec_interaction_style(state),
{
    match state {
        WidgetState::Focused | WidgetState::FocusedHover => InteractionStyle::AccentBold,
        WidgetState::Active => InteractionStyle::Accent,
        _ => InteractionStyle::Resting,
    }
}

/// A focused item (hovered or not) is highlighted in bold accent, an active
/// one in plain accent, and a hovered or idle one keeps its resting style.
pub proof fn law_interaction_styles()
    ensures
        spec_interaction_style(WidgetState::Focused) == InteractionStyle::AccentBold,
        spec_interaction_style(WidgetState::FocusedHover) == InteractionStyle::AccentBold,
        spec_interaction_style(WidgetState::Active) == InteractionStyle::Accent,
        spec_interaction_style(WidgetState::Hover) == InteractionStyle::Resting,
        spec_interaction_style(WidgetState::Normal) == InteractionStyle::Resting,
{
}

} // verus!
