//! The border of a bordered pane that highlights itself while it holds
//! focus.
use vstd::prelude::*;

verus! {

/// Which style a focus pane draws its border in.
#[derive(Clone, Copy, Debug, PartialEq, Eq, Structural)]
pub enum BorderStyleChoice {
    /// The pane's own border style.
    Resting,
    /// The selected style given to this pane.
    SelectedOverride,
    /// The configured selected style, applied over the accent.
    ConfiguredSelected,
}

/// The border style of a pane: while the pane is in the focus chain, its own
/// selected style if it has one and the configured selected style otherwise;
/// out of the focus chain, its resting style.
pub open spec fn spec_border_choice(focused: bool, has_selected_style: bool) -> BorderStyleChoice {
    if focused {
        if has_selected_style {
            BorderStyleChoice::SelectedOverride
        } else {
            BorderStyleChoice::ConfiguredSelected
        }
    } else {
        BorderStyleChoice::Resting
    }
}

/// The border style of a pane that is (or is not) in the focus chain and has
/// (or has not) a selected style of its own.
pub fn border_choice(focused: bool, has_selected_style: bool) -> (choice: BorderStyleChoice)
    ensures
        choice == spec_border_choice(focused, has_selected_style),
{
    if focused {
        if has_selected_style {
            BorderStyleChoice::SelectedOverride
        } else {
            BorderStyleChoice::ConfiguredSelected
        }
    } else {
        BorderStyleChoice::Resting
    }
}

/// Out of the focus chain a pane keeps its resting border whatever styles
/// it has; in the focus chain it never does, and it uses its own selected
/// style exactly when it has one.
pub proof fn law_border_follows_focus(focused: bool, has_selected_style: bool)
    ensures
        !focused ==> spec_border_choice(focused, has_selected_style) == BorderStyleChoice::Resting,
        focused ==> spec_border_choice(focused, has_selected_style) != BorderStyleChoice::Resting,
        focused ==> (spec_border_choice(focused, has_selected_style)
            == BorderStyleChoice::SelectedOverride <==> has_selected_style),
{
}

} // verus!
