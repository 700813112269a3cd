//! Cursor events.

use vstd::prelude::*;
use crate::{Event, Input};

verus! {

/// When window gets or loses cursor
pub trait CursorEvent: Sized {
    /// Whether the cursor is inside the window, if this is a cursor event.
    spec fn spec_cursor_args(&self) -> Option<bool>;

    /// The event that `from_cursor` builds.
    spec fn spec_from_cursor(cursor: bool, old_event: &Self) -> Option<Self>;

    /// Creates a cursor event.
    fn from_cursor(cursor: bool, old_event: &Self) -> (event: Option<Self>)
        ensures
            event == Self::spec_from_cursor(cursor, old_event),
    ;

    /// Calls closure if this is a cursor event.
    fn cursor<U, F>(&self, f: F) -> (res: Option<U>) where
        F: FnMut(bool) -> U,
        requires
            self.spec_cursor_args() matches Some(cursor) ==> f.requires((cursor,)),
        ensures
            match self.spec_cursor_args() {
                Some(cursor) => res matches Some(u) && f.ensures((cursor,), u),
                None => res is None,
            },
    ;

    /// Returns cursor arguments.
    fn cursor_args(&self) -> (args: Option<bool>)
        ensures
            args == self.spec_cursor_args(),
    {
        self.cursor(
            |cursor: bool| -> (out: bool)
                ensures out == cursor
                { cursor },
        )
    }

    /// An event built from `cursor` is a cursor event, and carries `cursor`.
    proof fn lemma_cursor_round_trip(cursor: bool, old_event: &Self)
        ensures
            Self::spec_from_cursor(cursor, old_event) matches Some(event)
                ==> event.spec_cursor_args() == Some(cursor),
    ;
}

impl CursorEvent for Input {
    open spec fn spec_cursor_args(&self) -> Option<bool> {
        match self {
            Input::Cursor(cursor) => Some(*cursor),
            _ => None,
        }
    }

    open spec fn spec_from_cursor(cursor: bool, old_event: &Self) -> Option<Self> {
        Some(Input::Cursor(cursor))
    }

    fn from_cursor(cursor: bool, _old_event: &Self) -> (event: Option<Self>) {
        Some(Input::Cursor(cursor))
    }

    fn cursor<U, F>(&self, mut f: F) -> (res: Option<U>) where
        F: FnMut(bool) -> U,
    {
        match self {
            Input::Cursor(cursor) => Some(f(*cursor)),
            _ => None,
        }
    }

    proof fn lemma_cursor_round_trip(cursor: bool, old_event: &Self) {
    }
}

impl<I: CursorEvent> CursorEvent for Event<I> {
    open spec fn spec_cursor_args(&self) -> Option<bool> {
        match self {
            Event::Input(input) => input.spec_cursor_args(),
            _ => None,
        }
    }

    open spec fn spec_from_cursor(cursor: bool, old_event: &Self) -> Option<Self> {
        match old_event {
            Event::Input(old_input) => match I::spec_from_cursor(cursor, old_input) {
                Some(input) => Some(Event::Input(input)),
                None => None,
            },
            _ => None,
        }
    }

    fn from_cursor(cursor: bool, old_event: &Self) -> (event: Option<Self>) {
        match old_event {
            Event::Input(old_input) => {
                match <I as CursorEvent>::from_cursor(cursor, old_input) {
                    Some(x) => Some(Event::Input(x)),
                    None => None,
                }
            },
            _ => None,
        }
    }

    fn cursor<U, F>(&self, f: F) -> (res: Option<U>) where
        F: FnMut(bool) -> U,
    {
        match self {
            Event::Input(x) => x.cursor(f),
            _ => None,
        }
    }

    proof fn lemma_cursor_round_trip(cursor: bool, old_event: &Self) {
        if let Event::Input(old_input) = old_event {
            I::lemma_cursor_round_trip(cursor, old_input);
        }
    }
}

} // verus!
