//! The text of a field together with what the text reads as.
use vstd::prelude::*;
use crate::number::Number;

verus! {

/// A line of text and its reading as a number: `Some` of the number that the
/// text parses as, `None` where it parses as none. Whoever supplies the text
/// supplies the reading with it.
#[derive(Clone, Debug)]
pub struct Entry {
    pub text: String,
    pub value: Option<Number>,
}

/// An [`Entry`] with its text as a sequence of characters.
pub struct EntryView {
    pub text: Seq<char>,
    pub value: Option<Number>,
}

impl EntryView {
    /// The text reads as a finite number.
    pub open spec fn valid(self) -> bool {
        self.value matches Some(number) && number.finite()
    }
}

impl View for Entry {
    type V = EntryView;

    open spec fn view(&self) -> EntryView {
        EntryView { text: self.text@, value: self.value }
    }
}

impl Entry {
    /// The entry of `text` read as `value`.
    pub fn new(text: String, value: Option<Number>) -> (r: Entry)
        ensures
            r@ == (EntryView { text: text@, value }),
    {
        Entry { text, value }
    }

    /// Whether the text reads as a finite number.
    pub fn is_valid(&self) -> (r: bool)
        ensures
            r == self@.valid(),
    {
        match self.value {
            Some(number) => number.is_finite(),
            None => false,
        }
    }
}

/// The views of a sequence of entries, in order.
pub open spec fn entry_views(entries: Seq<Entry>) -> Seq<EntryView> {
    Seq::new(entries.len(), |i: int| entries[i]@)
}

} // verus!
