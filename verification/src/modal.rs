//! The text entry that asks how many documents to sample.
//!
//! The entry is either closed or open with the text typed so far. It
//! opens with no text. While it is open it takes every key press: digits
//! are added to the text, backspace takes the last character away, escape
//! closes the entry, and enter closes it and gives the count that the text
//! denotes, which is the default count for an empty text.

use crate::text::{
    all_digits, decimal_value, digit_value, is_decimal_digit, is_digit, parse_count,
    parsed_count,
};
use crate::view::Key;
use vstd::prelude::*;

verus! {

/// The count that stands for a text that denotes none.
pub const DEFAULT_DOCUMENT_COUNT: usize = 10;

/// The count that confirming `text` gives: the number that the text
/// denotes, and the default where it denotes none that `usize` holds.
pub open spec fn confirmed_count(text: Seq<char>) -> usize {
    match parsed_count(text) {
        Some(count) => count,
        None => DEFAULT_DOCUMENT_COUNT,
    }
}

/// The entry after `key` was pressed while it was open with `text`:
/// `None` where the key closes it.
pub open spec fn entry_after(text: Seq<char>, key: Key) -> Option<Seq<char>> {
    match key {
        Key::Char(c) => if is_digit(c) {
            Some(text.push(c))
        } else {
            Some(text)
        },
        Key::Backspace => if text.len() > 0 {
            Some(text.drop_last())
        } else {
            Some(text)
        },
        Key::Enter => None,
        Key::Esc => None,
        _ => Some(text),
    }
}

/// An entry holds nothing but digits.
pub open spec fn entry_wf(entry: Option<Seq<char>>) -> bool {
    entry matches Some(text) ==> all_digits(text)
}

/// The text of the entry stays a string of digits whatever key is
/// pressed.
pub proof fn lemma_entry_stays_digits(text: Seq<char>, key: Key)
    requires
        all_digits(text),
    ensures
        entry_wf(entry_after(text, key)),
{
}

/// An entry that was just opened holds no text, and confirming it as it
/// is gives the default count.
pub proof fn lemma_empty_entry()
    ensures
        entry_wf(Some(Seq::<char>::empty())),
        confirmed_count(Seq::<char>::empty()) == DEFAULT_DOCUMENT_COUNT,
{
}

/// Typing a digit puts it at the end of the text, and the text then
/// denotes ten times what it denoted before and the digit's value more. So
/// the digits typed into an entry that was just opened denote the number
/// that they spell.
pub proof fn lemma_typed_digit(text: Seq<char>, c: char)
    requires
        all_digits(text),
        is_digit(c),
    ensures
        entry_after(text, Key::Char(c)) == Some(text.push(c)),
        all_digits(text.push(c)),
        decimal_value(text.push(c)) == decimal_value(text) * 10 + digit_value(c),
        decimal_value(text.push(c)) <= usize::MAX ==> confirmed_count(text.push(c))
            == decimal_value(text) * 10 + digit_value(c),
{
    assert(text.push(c).drop_last() =~= text);
}

/// The text entry for the number of documents to sample.
#[derive(Debug)]
pub struct InputModal {
    active: bool,
    buffer: String,
}

impl View for InputModal {
    type V = Option<Seq<char>>;

    closed spec fn view(&self) -> Option<Seq<char>> {
        if self.active {
            Some(self.buffer@)
        } else {
            None
        }
    }
}

impl InputModal {
    /// A closed entry.
    pub fn new() -> (modal: Self)
        ensures
            modal@ is None,
    {
        InputModal { active: false, buffer: String::new() }
    }

    /// Whether the entry is open.
    pub fn is_active(&self) -> (active: bool)
        ensures
            active == self@ is Some,
    {
        self.active
    }

    /// The text typed so far, while the entry is open.
    pub fn text(&self) -> (text: Option<&str>)
        ensures
            text is Some == self@ is Some,
            text matches Some(t) ==> self@ == Some(t@),
    {
        if self.active {
            Some(self.buffer.as_str())
        } else {
            None
        }
    }

    /// Opens the entry with no text.
    pub fn open(&mut self)
        ensures
            final(self)@ == Some(Seq::<char>::empty()),
    {
        self.active = true;
        self.buffer = String::new();
    }

    /// Takes a key press. A closed entry takes none and stays closed. An
    /// open entry changes as the key says, and gives the confirmed count
    /// when the key was enter.
    pub fn handle_key(&mut self, key: Key) -> (confirmed: Option<usize>)
        ensures
            final(self)@ == match old(self)@ {
                Some(text) => entry_after(text, key),
                None => None,
            },
            confirmed == match old(self)@ {
                Some(text) => if key == Key::Enter {
                    Some(confirmed_count(text))
                } else {
                    None
                },
                None => None,
            },
    {
        if !self.active {
            return None;
        }
        match key {
            Key::Char(c) => {
                if is_decimal_digit(c) {
                    self.buffer.push(c);
                }
                None
            },
            Key::Backspace => {
                self.buffer.pop();
                None
            },
            Key::Enter => {
                let count = match parse_count(self.buffer.as_str()) {
                    Some(count) => count,
                    None => DEFAULT_DOCUMENT_COUNT,
                };
                self.active = false;
                Some(count)
            },
            Key::Esc => {
                self.active = false;
                None
            },
            _ => None,
        }
    }
}

} // verus!
