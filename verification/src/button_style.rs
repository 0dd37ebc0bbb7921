//! The look of the buttons in the item list.
use vstd::prelude::*;

verus! {

/// An opaque colour given by its red, green and blue bytes.
#[derive(Debug, Clone, Copy, PartialEq, Eq, Structural)]
pub struct Rgb8 {
    pub r: u8,
    pub g: u8,
    pub b: u8,
}

pub open spec fn grey(level: u8) -> Rgb8 {
    Rgb8 { r: level, g: level, b: level }
}

/// How a button is drawn in one of its states; what it leaves out is the
/// toolkit's default.
#[derive(Debug, Clone, Copy, PartialEq, Eq, Structural)]
pub struct ButtonStyle {
    pub background: Option<Rgb8>,
    pub text_color: Rgb8,
    pub border_width: u16,
}

/// The style of an entry of the item list; the selected entry is lighter.
#[derive(Debug, Clone, Copy, PartialEq, Eq, Structural)]
pub struct ItemEditorButtonStyle {
    pub is_active: bool,
}

fn grey_of(level: u8) -> (c: Rgb8)
    ensures
        c == grey(level),
{
    Rgb8 { r: level, g: level, b: level }
}

impl ItemEditorButtonStyle {
    /// The entry at rest: light text on a dark ground, lighter when selected.
    pub fn active(&self) -> (s: ButtonStyle)
        ensures
            self.is_active ==> s == (ButtonStyle {
                background: Some(grey(30)),
                text_color: grey(255),
                border_width: 0,
            }),
            !self.is_active ==> s == (ButtonStyle {
                background: Some(grey(22)),
                text_color: grey(220),
                border_width: 0,
            }),
    {
        let (background, text_color) = if self.is_active {
            (Some(grey_of(30)), grey_of(255))
        } else {
            (Some(grey_of(22)), grey_of(220))
        };
        ButtonStyle { background, text_color, border_width: 0 }
    }

    /// The entry under the pointer, selected or not.
    pub fn hovered(&self) -> (s: ButtonStyle)
        ensures
            s == (ButtonStyle { background: Some(grey(30)), text_color: grey(255), border_width: 0 }),
    {
        ButtonStyle { background: Some(grey_of(30)), border_width: 0, text_color: grey_of(255) }
    }

    /// The entry while it is pressed, selected or not.
    pub fn pressed(&self) -> (s: ButtonStyle)
        ensures
            s == (ButtonStyle { background: Some(grey(25)), text_color: grey(220), border_width: 0 }),
    {
        ButtonStyle { background: Some(grey_of(25)), border_width: 0, text_color: grey_of(220) }
    }
}

} // verus!
