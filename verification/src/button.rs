use vstd::prelude::*;

verus! {

/// How the pointer currently relates to a button.
#[derive(Clone, Copy, Debug, PartialEq, Eq, Hash, Structural)]
pub enum ButtonInteraction {
    Pressed,
    Hovered,
    Idle,
}

/// The background colors that a button takes.
#[derive(Clone, Copy, Debug, PartialEq, Eq, Hash, Structural)]
pub enum ButtonColor {
    Blue,
    Gray,
    White,
}

/// How a button answers a change of interaction: its new background color, and whether its
/// action (asking for permission to notify, or opening a web page) runs.
#[derive(Clone, Copy, Debug, PartialEq, Eq, Hash, Structural)]
pub struct ButtonFeedback {
    pub color: ButtonColor,
    pub activate: bool,
}

/// A pressed button turns blue and runs its action; a hovered one turns gray, any other
/// white, and neither runs it.
pub fn button_feedback(interaction: ButtonInteraction) -> (f: ButtonFeedback)
    ensures
        f.activate == (interaction == ButtonInteraction::Pressed),
        f.color == match interaction {
            ButtonInteraction::Pressed => ButtonColor::Blue,
            ButtonInteraction::Hovered => ButtonColor::Gray,
            ButtonInteraction::Idle => ButtonColor::White,
        },
{
    match interaction {
        ButtonInteraction::Pressed => ButtonFeedback { color: ButtonColor::Blue, activate: true },
        ButtonInteraction::Hovered => ButtonFeedback { color: ButtonColor::Gray, activate: false },
        ButtonInteraction::Idle => ButtonFeedback { color: ButtonColor::White, activate: false },
    }
}

} // verus!
