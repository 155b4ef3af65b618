//! The tagged value that travels through a transformer.

use vstd::prelude::*;

verus! {

/// One value of one row, tagged with the name of its column and the kind of
/// its payload.
#[derive(Debug, PartialEq)]
pub enum Column {
    /// An integer payload.
    NumberValue(String, i128),
    /// A floating-point payload, carried as its IEEE 754 binary64 bit pattern.
    FloatNumberValue(String, u64),
    /// A text payload.
    StringValue(String, String),
    /// A single-character payload.
    CharValue(String, char),
    /// A boolean payload.
    BooleanValue(String, bool),
    /// No payload: the column is null in this row.
    Null(String),
}

/// The mathematical model of a [`Column`]: names and text as sequences of
/// characters.
pub enum ColumnView {
    NumberValue(Seq<char>, i128),
    FloatNumberValue(Seq<char>, u64),
    StringValue(Seq<char>, Seq<char>),
    CharValue(Seq<char>, char),
    BooleanValue(Seq<char>, bool),
    Null(Seq<char>),
}

impl ColumnView {
    /// The name of the column the value belongs to.
    pub open spec fn name(self) -> Seq<char> {
        match self {
            ColumnView::NumberValue(name, _) => name,
            ColumnView::FloatNumberValue(name, _) => name,
            ColumnView::StringValue(name, _) => name,
            ColumnView::CharValue(name, _) => name,
            ColumnView::BooleanValue(name, _) => name,
            ColumnView::Null(name) => name,
        }
    }

    /// The payload of an integer value.
    pub open spec fn number_value(self) -> Option<i128> {
        match self {
            ColumnView::NumberValue(_, value) => Some(value),
            _ => None,
        }
    }

    /// The bit pattern of a floating-point value.
    pub open spec fn float_number_bits(self) -> Option<u64> {
        match self {
            ColumnView::FloatNumberValue(_, bits) => Some(bits),
            _ => None,
        }
    }

    /// The payload of a text value.
    pub open spec fn string_value(self) -> Option<Seq<char>> {
        match self {
            ColumnView::StringValue(_, value) => Some(value),
            _ => None,
        }
    }

    /// The payload of a single-character value.
    pub open spec fn char_value(self) -> Option<char> {
        match self {
            ColumnView::CharValue(_, value) => Some(value),
            _ => None,
        }
    }

    /// The payload of a boolean value.
    pub open spec fn boolean_value(self) -> Option<bool> {
        match self {
            ColumnView::BooleanValue(_, value) => Some(value),
            _ => None,
        }
    }
}

impl View for Column {
    type V = ColumnView;

    open spec fn view(&self) -> ColumnView {
        match *self {
            Column::NumberValue(name, value) => ColumnView::NumberValue(name@, value),
            Column::FloatNumberValue(name, bits) => ColumnView::FloatNumberValue(name@, bits),
            Column::StringValue(name, value) => ColumnView::StringValue(name@, value@),
            Column::CharValue(name, value) => ColumnView::CharValue(name@, value),
            Column::BooleanValue(name, value) => ColumnView::BooleanValue(name@, value),
            Column::Null(name) => ColumnView::Null(name@),
        }
    }
}

impl Clone for Column {
    fn clone(&self) -> (cloned: Self)
        ensures
            cloned == *self,
    {
        match self {
            Column::NumberValue(name, value) => Column::NumberValue(name.clone(), *value),
            Column::FloatNumberValue(name, bits) => Column::FloatNumberValue(name.clone(), *bits),
            Column::StringValue(name, value) => Column::StringValue(name.clone(), value.clone()),
            Column::CharValue(name, value) => Column::CharValue(name.clone(), *value),
            Column::BooleanValue(name, value) => Column::BooleanValue(name.clone(), *value),
            Column::Null(name) => Column::Null(name.clone()),
        }
    }
}

impl Column {
    /// The name of the column the value belongs to.
    pub fn name(&self) -> (name: &str)
        ensures
            name@ == self@.name(),
    {
        match self {
            Column::NumberValue(name, _) => name.as_str(),
            Column::FloatNumberValue(name, _) => name.as_str(),
            Column::StringValue(name, _) => name.as_str(),
            Column::CharValue(name, _) => name.as_str(),
            Column::BooleanValue(name, _) => name.as_str(),
            Column::Null(name) => name.as_str(),
        }
    }

    /// The payload, if the value is an integer.
    pub fn number_value(&self) -> (value: Option<&i128>)
        ensures
            match self@.number_value() {
                Some(number) => value matches Some(v) && *v == number,
                None => value is None,
            },
    {
        match self {
            Column::NumberValue(_, value) => Some(value),
            _ => None,
        }
    }

    /// The bit pattern of the payload, if the value is a floating-point
    /// number.
    pub fn float_number_bits(&self) -> (value: Option<&u64>)
        ensures
            match self@.float_number_bits() {
                Some(bits) => value matches Some(v) && *v == bits,
                None => value is None,
            },
    {
        match self {
            Column::FloatNumberValue(_, bits) => Some(bits),
            _ => None,
        }
    }

    /// The payload, if the value is a text.
    pub fn string_value(&self) -> (value: Option<&str>)
        ensures
            match self@.string_value() {
                Some(text) => value matches Some(v) && v@ == text,
                None => value is None,
            },
    {
        match self {
            Column::StringValue(_, value) => Some(value.as_str()),
            _ => None,
        }
    }

    /// The payload, if the value is a single character.
    pub fn char_value(&self) -> (value: Option<&char>)
        ensures
            match self@.char_value() {
                Some(c) => value matches Some(v) && *v == c,
                None => value is None,
            },
    {
        match self {
            Column::CharValue(_, value) => Some(value),
            _ => None,
        }
    }

    /// The payload, if the value is a boolean.
    pub fn boolean_value(&self) -> (value: Option<&bool>)
        ensures
            match self@.boolean_value() {
                Some(b) => value matches Some(v) && *v == b,
                None => value is None,
            },
    {
        match self {
            Column::BooleanValue(_, value) => Some(value),
            _ => None,
        }
    }
}

} // verus!
