//! Server-side window decorations: which button texture to draw in which
//! state, and where every part of the frame goes for a given window size.

use vstd::prelude::*;
use crate::geometry::{Point, Rect, Size};

verus! {

/// A button that the titlebar layout may name.
#[derive(Clone, Copy, Debug, PartialEq, Eq, Structural)]
pub enum TitlebarButton {
    Menu,
    Hide,
    Stick,
    Shade,
    Close,
    Maximize,
    SideSeparator,
}

/// The texture a titlebar button is drawn with.
#[derive(Clone, Copy, Debug, PartialEq, Eq, Structural)]
pub enum DecorButtonName {
    Menu,
    Hide,
    Close,
    Maximize,
    MaximizeToggled,
    Stick,
    StickToggled,
    Shade,
    ShadeToggled,
}

/// The interaction state a button texture is drawn in.
#[derive(Clone, Copy, Debug, PartialEq, Eq, Structural)]
pub enum DecorButtonState {
    Active,
    Inactive,
    Prelight,
    Pressed,
}

/// Whether the window is focused, which selects the frame textures.
#[derive(Clone, Copy, Debug, PartialEq, Eq, Structural)]
pub enum DecorBackgroundState {
    Active,
    Inactive,
}

/// The button under the pointer, if any.
#[derive(Clone, Copy, Debug, PartialEq, Eq, Structural)]
pub enum ButtonHoverState {
    NoButton,
    Close,
    Hide,
    Maximize,
    Menu,
    Shade,
    Stick,
}

/// The button being held down, if any.
#[derive(Clone, Copy, Debug, PartialEq, Eq, Structural)]
pub enum ButtonPressedState {
    NoButton,
    Close,
    Hide,
    Maximize,
    Menu,
    Shade,
    Stick,
}

/// Where the title text sits in the space between the buttons.
#[derive(Clone, Copy, Debug, PartialEq, Eq, Structural)]
pub enum TitleAlignment {
    Left,
    Center,
    Right,
}

/// The toggle buttons that are currently switched on, as bits.
#[derive(Clone, Copy, Debug, PartialEq, Eq, Structural)]
pub struct ButtonToggledStates {
    pub bits: u8,
}

pub const TOGGLED_MAXIMIZE: u8 = 1;
pub const TOGGLED_SHADE: u8 = 2;
pub const TOGGLED_STICK: u8 = 4;

impl ButtonToggledStates {
    pub open spec fn has(self, flag: u8) -> bool {
        self.bits & flag == flag
    }

    pub open spec fn maximized(self) -> bool {
        self.has(TOGGLED_MAXIMIZE)
    }

    pub open spec fn shaded(self) -> bool {
        self.has(TOGGLED_SHADE)
    }

    pub open spec fn sticky(self) -> bool {
        self.has(TOGGLED_STICK)
    }

    /// No toggle is on.
    pub fn empty() -> (r: ButtonToggledStates)
        ensures
            !r.maximized(),
            !r.shaded(),
            !r.sticky(),
    {
        let r = ButtonToggledStates { bits: 0 };
        assert(0u8 & 1u8 == 0u8 && 0u8 & 2u8 == 0u8 && 0u8 & 4u8 == 0u8) by (bit_vector);
        r
    }

    pub fn contains(&self, flag: u8) -> (r: bool)
        ensures
            r == self.has(flag),
    {
        self.bits & flag == flag
    }

    /// The same toggles with `flag` switched on or off.
    pub fn with(&self, flag: u8, on: bool) -> (r: ButtonToggledStates)
        requires
            flag == TOGGLED_MAXIMIZE || flag == TOGGLED_SHADE || flag == TOGGLED_STICK,
        ensures
            r.has(flag) == on,
            forall|other: u8|
                (other == TOGGLED_MAXIMIZE || other == TOGGLED_SHADE || other == TOGGLED_STICK)
                    && other != flag ==> r.has(other) == self.has(other),
    {
        let b = self.bits;
        let nb = if on { b | flag } else { b & !flag };
        assert(nb & flag == flag <==> on) by (bit_vector)
            requires
                nb == if on { b | flag } else { b & !flag },
                flag == 1u8 || flag == 2u8 || flag == 4u8,
        ;
        assert forall|o: u8|
            (o == TOGGLED_MAXIMIZE || o == TOGGLED_SHADE || o == TOGGLED_STICK) && o != flag
                implies (nb & o == o) == (b & o == o) by {
            assert((nb & o == o) == (b & o == o)) by (bit_vector)
                requires
                    nb == if on { b | flag } else { b & !flag },
                    flag == 1u8 || flag == 2u8 || flag == 4u8,
                    o == 1u8 || o == 2u8 || o == 4u8,
                    o != flag,
            ;
        }
        ButtonToggledStates { bits: nb }
    }
}

/// The texture used for a titlebar button, given which toggles are on.
pub open spec fn spec_button_name(btn: TitlebarButton, toggled: ButtonToggledStates) -> DecorButtonName {
    match btn {
        TitlebarButton::Menu => DecorButtonName::Menu,
        TitlebarButton::Hide => DecorButtonName::Hide,
        TitlebarButton::Close => DecorButtonName::Close,
        TitlebarButton::Maximize => if toggled.maximized() {
            DecorButtonName::MaximizeToggled
        } else {
            DecorButtonName::Maximize
        },
        TitlebarButton::Stick => if toggled.sticky() {
            DecorButtonName::StickToggled
        } else {
            DecorButtonName::Stick
        },
        _ => if toggled.shaded() {
            DecorButtonName::ShadeToggled
        } else {
            DecorButtonName::Shade
        },
    }
}

pub fn button_name(btn: TitlebarButton, toggled: ButtonToggledStates) -> (r: DecorButtonName)
    requires
        btn != TitlebarButton::SideSeparator,
    ensures
        r == spec_button_name(btn, toggled),
{
    match btn {
        TitlebarButton::Menu => DecorButtonName::Menu,
        TitlebarButton::Hide => DecorButtonName::Hide,
        TitlebarButton::Close => DecorButtonName::Close,
        TitlebarButton::Maximize => if toggled.contains(TOGGLED_MAXIMIZE) {
            DecorButtonName::MaximizeToggled
        } else {
            DecorButtonName::Maximize
        },
        TitlebarButton::Stick => if toggled.contains(TOGGLED_STICK) {
            DecorButtonName::StickToggled
        } else {
            DecorButtonName::Stick
        },
        _ => if toggled.contains(TOGGLED_SHADE) {
            DecorButtonName::ShadeToggled
        } else {
            DecorButtonName::Shade
        },
    }
}

/// The hover value that names this button.
pub open spec fn hover_of(btn: TitlebarButton) -> ButtonHoverState {
    match btn {
        TitlebarButton::Menu => ButtonHoverState::Menu,
        TitlebarButton::Hide => ButtonHoverState::Hide,
        TitlebarButton::Close => ButtonHoverState::Close,
        TitlebarButton::Maximize => ButtonHoverState::Maximize,
        TitlebarButton::Stick => ButtonHoverState::Stick,
        _ => ButtonHoverState::Shade,
    }
}

/// The pressed value that names this button.
pub open spec fn pressed_of(btn: TitlebarButton) -> ButtonPressedState {
    match btn {
        TitlebarButton::Menu => ButtonPressedState::Menu,
        TitlebarButton::Hide => ButtonPressedState::Hide,
        TitlebarButton::Close => ButtonPressedState::Close,
        TitlebarButton::Maximize => ButtonPressedState::Maximize,
        TitlebarButton::Stick => ButtonPressedState::Stick,
        _ => ButtonPressedState::Shade,
    }
}

/// Inactive windows draw every button inactive; otherwise pressing beats hovering.
pub open spec fn spec_button_state(
    btn: TitlebarButton,
    bg: DecorBackgroundState,
    hover: ButtonHoverState,
    pressed: ButtonPressedState,
) -> DecorButtonState {
    if bg == DecorBackgroundState::Inactive {
        DecorButtonState::Inactive
    } else if pressed == pressed_of(btn) {
        DecorButtonState::Pressed
    } else if hover == hover_of(btn) {
        DecorButtonState::Prelight
    } else {
        DecorButtonState::Active
    }
}

pub fn button_state(
    btn: TitlebarButton,
    bg: DecorBackgroundState,
    hover: ButtonHoverState,
    pressed: ButtonPressedState,
) -> (r: DecorButtonState)
    requires
        btn != TitlebarButton::SideSeparator,
    ensures
        r == spec_button_state(btn, bg, hover, pressed),
{
    let (h, p) = match btn {
        TitlebarButton::Menu => (ButtonHoverState::Menu, ButtonPressedState::Menu),
        TitlebarButton::Hide => (ButtonHoverState::Hide, ButtonPressedState::Hide),
        TitlebarButton::Close => (ButtonHoverState::Close, ButtonPressedState::Close),
        TitlebarButton::Maximize => (ButtonHoverState::Maximize, ButtonPressedState::Maximize),
        TitlebarButton::Stick => (ButtonHoverState::Stick, ButtonPressedState::Stick),
        _ => (ButtonHoverState::Shade, ButtonPressedState::Shade),
    };
    if bg == DecorBackgroundState::Inactive {
        DecorButtonState::Inactive
    } else if pressed == p {
        DecorButtonState::Pressed
    } else if hover == h {
        DecorButtonState::Prelight
    } else {
        DecorButtonState::Active
    }
}

} // verus!
