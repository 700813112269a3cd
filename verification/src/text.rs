//! Text events.

use vstd::prelude::*;
use crate::{Event, Input};

verus! {

/// Whether `f` may be called on every string slice that holds the characters
/// `text`.
pub open spec fn text_call_requires<U, F: FnMut(&str) -> U>(f: F, text: Seq<char>) -> bool {
    forall|s: &str| s@ == text ==> #[trigger] f.requires((s,))
}

/// Whether `u` is a result of calling `f` on a string slice that holds the
/// characters `text`.
pub open spec fn text_call_ensures<U, F: FnMut(&str) -> U>(f: F, text: Seq<char>, u: U) -> bool {
    exists|s: &str| s@ == text && #[trigger] f.ensures((s,), u)
}

/// When receiving text from user, such as typing or pasting
///
/// A string is known by its characters alone, so this lens is stated over the
/// characters that it reads back from an event.
pub trait TextEvent: Sized {
    /// The characters of the text, if this is a text event.
    spec fn spec_text_args(&self) -> Option<Seq<char>>;

    /// Whether `from_text` builds an event when it is given `old_event`.
    spec fn spec_takes_text(old_event: &Self) -> bool;

    /// Creates a text event.
    ///
    /// The event, where one is built, is a text event and carries `text`.
    fn from_text(text: &str, old_event: &Self) -> (event: Option<Self>)
        ensures
            event is Some <==> Self::spec_takes_text(old_event),
            event matches Some(e) ==> e.spec_text_args() == Some(text@),
    ;

    /// Calls closure if this is a text event.
    fn text<U, F>(&self, f: F) -> (res: Option<U>) where
        F: FnMut(&str) -> U,
        requires
            self.spec_text_args() matches Some(text) ==> text_call_requires(f, text),
        ensures
            match self.spec_text_args() {
                Some(text) => res matches Some(u) && text_call_ensures(f, text, u),
                None => res is None,
            },
    ;

    /// Returns text arguments.
    fn text_args(&self) -> (args: Option<String>)
        ensures
            match self.spec_text_args() {
                Some(text) => args matches Some(s) && s@ == text,
                None => args is None,
            },
    {
        self.text(
            |text: &str| -> (out: String)
                ensures out@ == text@
                { text.to_owned() },
        )
    }
}

impl TextEvent for Input {
    open spec fn spec_text_args(&self) -> Option<Seq<char>> {
        match self {
            Input::Text(text) => Some(text@),
            _ => None,
        }
    }

    open spec fn spec_takes_text(old_event: &Self) -> bool {
        true
    }

    fn from_text(text: &str, _old_event: &Self) -> (event: Option<Self>)
        ensures
            event matches Some(Input::Text(s)) && s@ == text@,
    {
        Some(Input::Text(text.to_owned()))
    }

    fn text<U, F>(&self, mut f: F) -> (res: Option<U>) where
        F: FnMut(&str) -> U,
    {
        match self {
            Input::Text(s) => {
                let ghost call = f;
                let text = s.as_str();
                let u = f(text);
                assert(text_call_ensures(call, s@, u)) by {
                    assert(text@ == s@ && call.ensures((text,), u));
                }
                Some(u)
            },
            _ => None,
        }
    }
}

impl<I: TextEvent> TextEvent for Event<I> {
    open spec fn spec_text_args(&self) -> Option<Seq<char>> {
        match self {
            Event::Input(input) => input.spec_text_args(),
            _ => None,
        }
    }

    open spec fn spec_takes_text(old_event: &Self) -> bool {
        old_event matches Event::Input(old_input) && I::spec_takes_text(old_input)
    }

    fn from_text(text: &str, old_event: &Self) -> (event: Option<Self>)
        ensures
            event matches Some(e) ==> e is Input,
    {
        match old_event {
            Event::Input(old_input) => {
                match <I as TextEvent>::from_text(text, old_input) {
                    Some(x) => Some(Event::Input(x)),
                    None => None,
                }
            },
            _ => None,
        }
    }

    fn text<U, F>(&self, f: F) -> (res: Option<U>) where
        F: FnMut(&str) -> U,
    {
        match self {
            Event::Input(x) => x.text(f),
            _ => None,
        }
    }
}

} // verus!
