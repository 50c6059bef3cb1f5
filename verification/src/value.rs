//! A command-line argument once its number has been read.
use vstd::prelude::*;
use crate::entry::Entry;
use crate::input::Input;
use crate::number::Number;

verus! {

/// A number with an optional label: what one field starts from.
#[derive(Clone, Debug)]
pub struct Value {
    pub name: Option<String>,
    pub value: Number,
    /// The number as it is first shown.
    pub text: String,
}

/// A [`Value`] with its texts as sequences of characters.
pub struct ValueView {
    pub name: Option<Seq<char>>,
    pub value: Number,
    pub text: Seq<char>,
}

impl View for Value {
    type V = ValueView;

    open spec fn view(&self) -> ValueView {
        ValueView {
            name: match self.name {
                Some(name) => Some(name@),
                None => None,
            },
            value: self.value,
            text: self.text@,
        }
    }
}

/// The views of a sequence of values, in order.
pub open spec fn value_views(values: Seq<Value>) -> Seq<ValueView> {
    Seq::new(values.len(), |i: int| values[i]@)
}

/// The text of an argument's number reads as no number.
#[derive(Clone, Debug)]
pub struct ParseNumberError {
    /// The text that was read.
    pub text: String,
}

impl Value {
    /// The value of the argument `input`, whose number's text was read as
    /// `reading`: the label of the argument with the number and the text of
    /// the reading. It is an error for the reading to hold no number.
    pub fn from_input(input: Input, reading: Entry) -> (r: Result<Value, ParseNumberError>)
        ensures
            match r {
                Ok(value) => reading.value is Some && value@ == (ValueView {
                    name: input@.name,
                    value: reading.value->Some_0,
                    text: reading@.text,
                }),
                Err(error) => reading.value is None && error.text@ == input@.value,
            },
    {
        match reading.value {
            Some(number) => Ok(Value { name: input.name, value: number, text: reading.text }),
            None => Err(ParseNumberError { text: input.value }),
        }
    }
}

} // verus!
