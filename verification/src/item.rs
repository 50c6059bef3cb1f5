//! One field: a fixed ratio, an optional title and the entry being edited.
use vstd::prelude::*;
use vstd::string::*;
use crate::entry::{Entry, EntryView};
use crate::number::{Number, Ratio};
use crate::style::{decoration_of, Border, Decoration, Style};

verus! {

/// A field of the panel.
#[derive(Clone, Debug)]
pub struct Item {
    ratio: Ratio,
    title: Option<String>,
    entry: Entry,
}

/// An [`Item`] as the contracts speak of it.
pub struct ItemView {
    pub ratio: Ratio,
    pub title: Option<Seq<char>>,
    pub entry: EntryView,
}

impl ItemView {
    /// The field's own title, empty where it has none.
    pub open spec fn label(self) -> Seq<char> {
        match self.title {
            Some(title) => title,
            None => Seq::empty(),
        }
    }

    /// The same field holding `entry`.
    pub open spec fn with_entry(self, entry: EntryView) -> ItemView {
        ItemView { entry, ..self }
    }
}

impl View for Item {
    type V = ItemView;

    closed spec fn view(&self) -> ItemView {
        ItemView {
            ratio: self.ratio,
            title: match self.title {
                Some(title) => Some(title@),
                None => None,
            },
            entry: self.entry@,
        }
    }
}

impl Item {
    /// A field with the given ratio, title and entry.
    pub fn new(ratio: Ratio, title: Option<String>, entry: Entry) -> (r: Item)
        ensures
            r@.ratio == ratio,
            r@.title == match title {
                Some(t) => Some(t@),
                None => None,
            },
            r@.entry == entry@,
    {
        Item { ratio, title, entry }
    }

    /// Whether the field's text reads as a finite number.
    pub fn is_valid(&self) -> (r: bool)
        ensures
            r == self@.entry.valid(),
    {
        self.entry.is_valid()
    }

    /// The number that the field's text reads as.
    pub fn get_value(&self) -> (r: Number)
        requires
            self@.entry.valid(),
        ensures
            self@.entry.value == Some(r),
    {
        self.entry.value.unwrap()
    }

    /// Replaces the field's text and reading as a whole. Ratio and title stay.
    pub fn set_new_value(&mut self, entry: Entry)
        ensures
            final(self)@ == old(self)@.with_entry(entry@),
    {
        self.entry = entry;
    }

    /// The field's ratio.
    pub fn ratio(&self) -> (r: Ratio)
        ensures
            r == self@.ratio,
    {
        self.ratio
    }

    /// The field's title, empty where it has none.
    pub fn label(&self) -> (r: String)
        ensures
            r@ == self@.label(),
    {
        match &self.title {
            Some(title) => title.clone(),
            None => String::new(),
        }
    }

    /// The field's text.
    pub fn text(&self) -> (r: &str)
        ensures
            r@ == self@.entry.text,
    {
        self.entry.text.as_str()
    }

    /// What the field's text reads as.
    pub fn value(&self) -> (r: Option<Number>)
        ensures
            r == self@.entry.value,
    {
        self.entry.value
    }

    /// The decoration of the field while it has the focus and is valid: an
    /// underlined cursor, a light green border, its own title.
    pub fn style_focussed(&self) -> (r: Decoration)
        ensures
            r@ == decoration_of(Style::Focussed, self@.label()),
    {
        Decoration {
            style: Style::Focussed,
            underlined: true,
            border: Border::LightGreen,
            title: self.label(),
        }
    }

    /// The decoration of the field while it has the focus and is invalid: an
    /// underlined cursor, a red border, and the warning in place of its title.
    pub fn style_invalid(&self) -> (r: Decoration)
        ensures
            r@ == decoration_of(Style::Invalid, self@.label()),
    {
        Decoration {
            style: Style::Invalid,
            underlined: true,
            border: Border::Red,
            title: "Not a valid number".to_owned(),
        }
    }

    /// The decoration of the field while another has the focus: a plain
    /// cursor, a plain border, its own title.
    pub fn style_unfocussed(&self) -> (r: Decoration)
        ensures
            r@ == decoration_of(Style::Unfocussed, self@.label()),
    {
        Decoration {
            style: Style::Unfocussed,
            underlined: false,
            border: Border::Plain,
            title: self.label(),
        }
    }
}

} // verus!
