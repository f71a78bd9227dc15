//! The styles of the command line's help and error texts.

use vstd::prelude::*;

use crate::report::Color;

verus! {

/// How a piece of text is set.
#[derive(Clone, Copy, Debug, PartialEq, Eq, Structural)]
pub struct TextStyle {
    pub bold: bool,
    pub underline: bool,
    /// The foreground colour; `None` leaves the terminal's own.
    pub color: Option<Color>,
}

/// The kinds of text that the command line's help and errors are made of.
#[derive(Clone, Copy, Debug, PartialEq, Eq, Structural)]
pub enum Element {
    /// The usage heading.
    Usage,
    /// A section heading.
    Header,
    /// A literal, such as a flag's name.
    Literal,
    /// A value that was given and is not accepted.
    Invalid,
    /// The word that opens an error message.
    Error,
    /// A value that would be accepted.
    Valid,
    /// A placeholder for a value.
    Placeholder,
}

/// One style for each kind of text.
#[derive(Clone, Copy, Debug, PartialEq, Eq, Structural)]
pub struct Styles {
    pub usage: TextStyle,
    pub header: TextStyle,
    pub literal: TextStyle,
    pub invalid: TextStyle,
    pub error: TextStyle,
    pub valid: TextStyle,
    pub placeholder: TextStyle,
}

/// The style of each kind of text: headings bold, underlined and yellow;
/// literals green; what is wrong bold and red; what would be right bold,
/// underlined and green; placeholders white.
pub open spec fn style_of(element: Element) -> TextStyle {
    match element {
        Element::Usage | Element::Header => TextStyle {
            bold: true,
            underline: true,
            color: Some(Color::Yellow),
        },
        Element::Literal => TextStyle { bold: false, underline: false, color: Some(Color::Green) },
        Element::Invalid | Element::Error => TextStyle {
            bold: true,
            underline: false,
            color: Some(Color::Red),
        },
        Element::Valid => TextStyle { bold: true, underline: true, color: Some(Color::Green) },
        Element::Placeholder => TextStyle {
            bold: false,
            underline: false,
            color: Some(Color::White),
        },
    }
}

impl Styles {
    /// The style that these styles hold for `element`.
    pub open spec fn style(self, element: Element) -> TextStyle {
        match element {
            Element::Usage => self.usage,
            Element::Header => self.header,
            Element::Literal => self.literal,
            Element::Invalid => self.invalid,
            Element::Error => self.error,
            Element::Valid => self.valid,
            Element::Placeholder => self.placeholder,
        }
    }

    /// The style for `element`.
    pub fn get(&self, element: Element) -> (style: TextStyle)
        ensures
            style == self.style(element),
    {
        match element {
            Element::Usage => self.usage,
            Element::Header => self.header,
            Element::Literal => self.literal,
            Element::Invalid => self.invalid,
            Element::Error => self.error,
            Element::Valid => self.valid,
            Element::Placeholder => self.placeholder,
        }
    }
}

/// The styles of the command line.
pub fn get_styles() -> (styles: Styles)
    ensures
        forall|element: Element| #[trigger] styles.style(element) == style_of(element),
{
    let heading = TextStyle { bold: true, underline: true, color: Some(Color::Yellow) };
    let wrong = TextStyle { bold: true, underline: false, color: Some(Color::Red) };
    Styles {
        usage: heading,
        header: heading,
        literal: TextStyle { bold: false, underline: false, color: Some(Color::Green) },
        invalid: wrong,
        error: wrong,
        valid: TextStyle { bold: true, underline: true, color: Some(Color::Green) },
        placeholder: TextStyle { bold: false, underline: false, color: Some(Color::White) },
    }
}

} // verus!
