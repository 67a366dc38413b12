//! App-wide key chords: moving focus with Tab, suspending, quitting.
use vstd::prelude::*;
use crate::input::Chord;
use crate::input::Key;
use crate::input::MOD_CTRL;
use crate::input::MOD_SHIFT;
use crate::input::Trigger;
use crate::input::plain;
use crate::input::with_mods;

verus! {

/// A request to the UI runtime made in answer to a key chord.
#[derive(Clone, Copy, Debug, PartialEq, Eq, Structural)]
pub enum RuntimeRequest {
    /// Move focus to the next widget in tab order.
    FocusNext,
    /// Move focus to the previous widget in tab order.
    FocusPrevious,
    /// Suspend the program (as on a terminal stop signal).
    Suspend,
    /// Quit with this exit code.
    Quit(u8),
}

/// The chord Ctrl + `ch`.
pub open spec fn is_ctrl(c: Chord, ch: char) -> bool {
    c == with_mods(2, Trigger::Key(Key::Char(ch)))
}

/// The request for a key chord that the whole application answers, if any:
/// Tab and Shift + Tab move focus (only when no widget consumed the key),
/// Ctrl + `z` suspends, Ctrl + `c` and Ctrl + `q` quit with code zero.
pub open spec fn spec_global_request(c: Chord, unhandled: bool) -> Option<RuntimeRequest> {
    if c == plain(Trigger::Key(Key::Tab)) && unhandled {
        Some(RuntimeRequest::FocusNext)
    } else if c == with_mods(1, Trigger::Key(Key::Tab)) && unhandled {
        Some(RuntimeRequest::FocusPrevious)
    } else if is_ctrl(c, 'z') {
        Some(RuntimeRequest::Suspend)
    } else if is_ctrl(c, 'c') || is_ctrl(c, 'q') {
        Some(RuntimeRequest::Quit(0))
    } else {
        None
    }
}

/// The request for a key chord that the whole application answers; `None`
/// leaves the chord to others. `unhandled` tells whether no widget consumed
/// the chord.
pub fn global_request(c: Chord, unhandled: bool) -> (request: Option<RuntimeRequest>)
    ensures
        request == spec_global_request(c, unhandled),
{
    if c == (Chord { trigger: Trigger::Key(Key::Tab), modifiers: 0 }) && unhandled {
        Some(RuntimeRequest::FocusNext)
    } else if c == (Chord { trigger: Trigger::Key(Key::Tab), modifiers: MOD_SHIFT }) && unhandled {
        Some(RuntimeRequest::FocusPrevious)
    } else if c == (Chord { trigger: Trigger::Key(Key::Char('z')), modifiers: MOD_CTRL }) {
        Some(RuntimeRequest::Suspend)
    } else if c == (Chord { trigger: Trigger::Key(Key::Char('c')), modifiers: MOD_CTRL }) || c == (
    Chord { trigger: Trigger::Key(Key::Char('q')), modifiers: MOD_CTRL }) {
        Some(RuntimeRequest::Quit(0))
    } else {
        None
    }
}

/// Tab keys move focus only when no widget consumed them, while suspending
/// and quitting answer whatever consumed the chord first.
pub proof fn law_tab_only_when_unhandled(c: Chord)
    ensures
        spec_global_request(c, false) != Some(RuntimeRequest::FocusNext),
        spec_global_request(c, false) != Some(RuntimeRequest::FocusPrevious),
        spec_global_request(c, true) == Some(RuntimeRequest::Suspend) ==> spec_global_request(
            c,
            false,
        ) == Some(RuntimeRequest::Suspend),
        spec_global_request(c, true) == Some(RuntimeRequest::Quit(0)) ==> spec_global_request(
            c,
            false,
        ) == Some(RuntimeRequest::Quit(0)),
{
}

/// Suspending and quitting answer a chord whether or not a widget consumed
/// it: Ctrl + `z` suspends, Ctrl + `c` and Ctrl + `q` quit with code zero.
/// Tab moves focus forward and Shift + Tab back, only when no widget
/// consumed them. No other chord is answered.
pub proof fn law_global_chords(c: Chord, unhandled: bool)
    ensures
        spec_global_request(c, true) == Some(RuntimeRequest::Suspend) <==> spec_global_request(
            c,
            false,
        ) == Some(RuntimeRequest::Suspend),
        spec_global_request(c, true) == Some(RuntimeRequest::Quit(0)) <==> spec_global_request(
            c,
            false,
        ) == Some(RuntimeRequest::Quit(0)),
        spec_global_request(with_mods(2, Trigger::Key(Key::Char('z'))), unhandled) == Some(
            RuntimeRequest::Suspend,
        ),
        spec_global_request(with_mods(2, Trigger::Key(Key::Char('c'))), unhandled) == Some(
            RuntimeRequest::Quit(0),
        ),
        spec_global_request(with_mods(2, Trigger::Key(Key::Char('q'))), unhandled) == Some(
            RuntimeRequest::Quit(0),
        ),
        spec_global_request(plain(Trigger::Key(Key::Tab)), unhandled) == (if unhandled {
            Some(RuntimeRequest::FocusNext)
        } else {
            None
        }),
        spec_global_request(with_mods(1, Trigger::Key(Key::Tab)), unhandled) == (if unhandled {
            Some(RuntimeRequest::FocusPrevious)
        } else {
            None
        }),
        !(c == with_mods(2, Trigger::Key(Key::Char('z'))) || c == with_mods(
            2,
            Trigger::Key(Key::Char('c')),
        ) || c == with_mods(2, Trigger::Key(Key::Char('q'))) || c == plain(Trigger::Key(Key::Tab))
            || c == with_mods(1, Trigger::Key(Key::Tab))) ==> spec_global_request(c, unhandled)
            is None,
{
}

} // verus!
