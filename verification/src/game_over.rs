use vstd::prelude::*;

verus! {

/// How the pointer relates to a button (`Idle`: neither hovering nor clicking).
#[derive(Clone, Copy, Debug, PartialEq, Eq, Structural)]
pub enum ButtonInteraction {
    Clicked,
    Hovered,
    Idle,
}

/// The image a button shows.
#[derive(Clone, Copy, Debug, PartialEq, Eq, Structural)]
pub enum ButtonImage {
    Normal,
    Pressed,
}

/// What the quit button does when its interaction changes.
#[derive(Clone, Copy, Debug, PartialEq, Eq, Structural)]
pub struct QuitButtonResponse {
    /// The image to show, if it changes.
    pub image: Option<ButtonImage>,
    /// Whether the game exits.
    pub exit: bool,
}

/// The quit button's response: an active button that is clicked shows its
/// pressed image and exits the game; an inactive one ignores the click;
/// hovering or leaving it shows the normal image.
pub fn quit_button_response(interaction: ButtonInteraction, active: bool) -> (r: QuitButtonResponse)
    ensures
        r.exit == (interaction == ButtonInteraction::Clicked && active),
        r.image == match interaction {
            ButtonInteraction::Clicked => if active { Some(ButtonImage::Pressed) } else { None },
            _ => Some(ButtonImage::Normal),
        },
{
    match interaction {
        ButtonInteraction::Clicked => {
            if active {
                QuitButtonResponse { image: Some(ButtonImage::Pressed), exit: true }
            } else {
                QuitButtonResponse { image: None, exit: false }
            }
        },
        ButtonInteraction::Hovered | ButtonInteraction::Idle => {
            QuitButtonResponse { image: Some(ButtonImage::Normal), exit: false }
        },
    }
}

} // verus!
