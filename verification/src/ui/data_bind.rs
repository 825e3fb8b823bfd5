use vstd::prelude::*;
use vstd::utf8::encode_utf8;

use crate::text::{decimal_chars, decimal_u64, lemma_decimal_round_trip, parse_u64, u64_to_decimal};

verus! {

/// The text that a user typed into a bound input field.
#[derive(Clone, Debug)]
pub struct DataBindMessage(pub String);

/// Binds a text input field to a value: typed text is parsed into the value, and the field shows
/// whether the text could be parsed.
#[derive(Debug)]
pub struct DataBind<T> {
    input_default: T,
    input_placeholder: String,
    unit: String,
    value: String,
    error: bool,
}

/// The value that typing `text` into a field with default `default` sets: the default for empty
/// text and for text that is no decimal number, the number otherwise.
pub open spec fn typed_value(default: u64, text: Seq<u8>) -> u64 {
    if text.len() == 0 {
        default
    } else {
        match decimal_u64(text) {
            Some(v) => v,
            None => default,
        }
    }
}

/// Whether typing `text` marks the field as erroneous: non-empty text that is no decimal number.
pub open spec fn typed_error(text: Seq<u8>) -> bool {
    text.len() != 0 && decimal_u64(text) is None
}

impl DataBind<u64> {
    /// A field that shows `input_placeholder` when empty and `unit` after the input.
    pub fn new(input_default: u64, input_placeholder: String, unit: String) -> (r: Self)
        ensures
            r.input_default() == input_default,
            r.input_placeholder_text() == input_placeholder@,
            r.unit_text() == unit@,
            r.value_text() == Seq::<char>::empty(),
            !r.has_error(),
    {
        DataBind { input_default, input_placeholder, unit, value: String::new(), error: false }
    }

    pub closed spec fn input_default(&self) -> u64 {
        self.input_default
    }

    pub closed spec fn input_placeholder_text(&self) -> Seq<char> {
        self.input_placeholder@
    }

    pub closed spec fn unit_text(&self) -> Seq<char> {
        self.unit@
    }

    pub closed spec fn value_text(&self) -> Seq<char> {
        self.value@
    }

    pub closed spec fn has_error(&self) -> bool {
        self.error
    }

    /// Handles typed text: sets `val` to what the text denotes and shows the text.
    pub fn update(&mut self, message: DataBindMessage, val: &mut u64)
        ensures
            *final(val) == typed_value(old(self).input_default(), encode_utf8(message.0@)),
            final(self).value_text() == message.0@,
            final(self).has_error() == typed_error(encode_utf8(message.0@)),
            final(self).input_default() == old(self).input_default(),
            final(self).input_placeholder_text() == old(self).input_placeholder_text(),
            final(self).unit_text() == old(self).unit_text(),
    {
        let DataBindMessage(text) = message;
        let parsed = parse_u64(text.as_str());
        let (v, error) = if text.as_str().is_empty() {
            (self.input_default, false)
        } else {
            match parsed {
                Some(v) => (v, false),
                None => (self.input_default, true),
            }
        };
        *val = v;
        self.value = text;
        self.error = error;
    }

    /// Shows `val` in the field: empty when it denotes the default value, as is otherwise; text
    /// that is no decimal number is shown as an error.
    pub fn reload(&mut self, val: String)
        ensures
            final(self).value_text() == (if decimal_u64(encode_utf8(val@)) == Some(
                old(self).input_default(),
            ) {
                Seq::<char>::empty()
            } else {
                val@
            }),
            final(self).has_error() == (decimal_u64(encode_utf8(val@)) is None),
            final(self).input_default() == old(self).input_default(),
            final(self).input_placeholder_text() == old(self).input_placeholder_text(),
            final(self).unit_text() == old(self).unit_text(),
    {
        match parse_u64(val.as_str()) {
            Some(parsed) => {
                if parsed == self.input_default {
                    self.value = String::new();
                } else {
                    self.value = val;
                }
                self.error = false;
            },
            None => {
                self.value = val;
                self.error = true;
            },
        }
    }

    /// Shows the count `val`: the field is empty when it is the default, shows its decimal
    /// notation otherwise, and shows no error.
    pub fn reload_count(&mut self, val: u64)
        ensures
            final(self).value_text() == shown_count(old(self).input_default(), val),
            !final(self).has_error(),
            final(self).input_default() == old(self).input_default(),
            final(self).input_placeholder_text() == old(self).input_placeholder_text(),
            final(self).unit_text() == old(self).unit_text(),
    {
        let text = u64_to_decimal(val);
        proof {
            lemma_decimal_round_trip(val);
        }
        self.reload(text);
    }

    /// The default value.
    pub fn input_default_value(&self) -> (r: u64)
        ensures
            r == self.input_default(),
    {
        self.input_default
    }

    /// The placeholder that an empty field shows.
    pub fn input_placeholder(&self) -> (r: &str)
        ensures
            r@ == self.input_placeholder_text(),
    {
        self.input_placeholder.as_str()
    }

    /// The unit shown after the field.
    pub fn unit(&self) -> (r: &str)
        ensures
            r@ == self.unit_text(),
    {
        self.unit.as_str()
    }

    /// The text the field shows.
    pub fn value(&self) -> (r: &str)
        ensures
            r@ == self.value_text(),
    {
        self.value.as_str()
    }

    /// Whether the field shows an error.
    pub fn error(&self) -> (r: bool)
        ensures
            r == self.has_error(),
    {
        self.error
    }
}

/// What a count field shows for the count `v`: nothing for the default, the decimal notation
/// otherwise.
pub open spec fn shown_count(default: u64, v: u64) -> Seq<char> {
    if v == default {
        Seq::<char>::empty()
    } else {
        decimal_chars(v as nat)
    }
}

/// Typing back what a count field shows for a count gives that count, without error: reloading
/// a field and then editing nothing in it keeps the value.
pub proof fn lemma_shown_count_types_back(default: u64, v: u64)
    ensures
        typed_value(default, encode_utf8(shown_count(default, v))) == v,
        !typed_error(encode_utf8(shown_count(default, v))),
{
    lemma_decimal_round_trip(v);
    if v == default {
        assert(encode_utf8(Seq::<char>::empty()) =~= Seq::<u8>::empty());
    } else {
        assert(encode_utf8(decimal_chars(v as nat)).len() != 0) by {
            if encode_utf8(decimal_chars(v as nat)).len() == 0 {
                assert(decimal_u64(encode_utf8(decimal_chars(v as nat))) is None);
            }
        }
    }
}

} // verus!
