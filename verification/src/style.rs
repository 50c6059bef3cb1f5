//! How a field is shown. A style is derived from the focus and from the
//! validity of the focused field each time it is asked for; none is stored.
use vstd::prelude::*;

verus! {

/// The three states a field can be shown in.
#[derive(Clone, Copy, Debug, PartialEq, Eq, Structural)]
pub enum Style {
    /// The field has the focus and its text is a valid number.
    Focussed,
    /// The field has the focus and its text is not a valid number.
    Invalid,
    /// The field does not have the focus.
    Unfocussed,
}

/// The colour of the border drawn around a field.
#[derive(Clone, Copy, Debug, PartialEq, Eq, Structural)]
pub enum Border {
    Plain,
    LightGreen,
    Red,
}

/// What a painter needs to show a field in one of the three states.
#[derive(Clone, Debug)]
pub struct Decoration {
    pub style: Style,
    /// Whether the cursor is underlined.
    pub underlined: bool,
    pub border: Border,
    pub title: String,
}

/// A [`Decoration`] with its title as a sequence of characters.
pub struct DecorationView {
    pub style: Style,
    pub underlined: bool,
    pub border: Border,
    pub title: Seq<char>,
}

impl View for Decoration {
    type V = DecorationView;

    open spec fn view(&self) -> DecorationView {
        DecorationView {
            style: self.style,
            underlined: self.underlined,
            border: self.border,
            title: self.title@,
        }
    }
}

/// The title that takes the place of a field's own while its text is invalid.
pub open spec fn invalid_title() -> Seq<char> {
    "Not a valid number"@
}

/// The state of the field at `index`, given which field has the focus and
/// whether that field is valid.
pub open spec fn style_of(index: int, focus: int, focus_valid: bool) -> Style {
    if index != focus {
        Style::Unfocussed
    } else if focus_valid {
        Style::Focussed
    } else {
        Style::Invalid
    }
}

/// The decoration of a field titled `label` in the state `style`.
pub open spec fn decoration_of(style: Style, label: Seq<char>) -> DecorationView {
    match style {
        Style::Focussed => DecorationView {
            style,
            underlined: true,
            border: Border::LightGreen,
            title: label,
        },
        Style::Invalid => DecorationView {
            style,
            underlined: true,
            border: Border::Red,
            title: invalid_title(),
        },
        Style::Unfocussed => DecorationView {
            style,
            underlined: false,
            border: Border::Plain,
            title: label,
        },
    }
}

} // verus!
