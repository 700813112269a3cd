//! Window focus events.

use vstd::prelude::*;
use crate::{Event, Input};

verus! {

/// When window gets or loses focus
pub trait FocusEvent: Sized {
    /// Whether the window has focus, if this is a focus event.
    spec fn spec_focus_args(&self) -> Option<bool>;

    /// The event that `from_focused` builds.
    spec fn spec_from_focused(focused: bool, old_event: &Self) -> Option<Self>;

    /// Creates a focus event.
    fn from_focused(focused: bool, old_event: &Self) -> (event: Option<Self>)
        ensures
            event == Self::spec_from_focused(focused, old_event),
    ;

    /// Calls closure if this is a focus event.
    fn focus<U, F>(&self, f: F) -> (res: Option<U>) where
        F: FnMut(bool) -> U,
        requires
            self.spec_focus_args() matches Some(focused) ==> f.requires((focused,)),
        ensures
            match self.spec_focus_args() {
                Some(focused) => res matches Some(u) && f.ensures((focused,), u),
                None => res is None,
            },
    ;

    /// Returns focus arguments.
    fn focus_args(&self) -> (args: Option<bool>)
        ensures
            args == self.spec_focus_args(),
    {
        self.focus(
            |focused: bool| -> (out: bool)
                ensures out == focused
                { focused },
        )
    }

    /// An event built from `focused` is a focus event, and carries `focused`.
    proof fn lemma_focus_round_trip(focused: bool, old_event: &Self)
        ensures
            Self::spec_from_focused(focused, old_event) matches Some(event)
                ==> event.spec_focus_args() == Some(focused),
    ;
}

impl FocusEvent for Input {
    open spec fn spec_focus_args(&self) -> Option<bool> {
        match self {
            Input::Focus(focused) => Some(*focused),
            _ => None,
        }
    }

    open spec fn spec_from_focused(focused: bool, old_event: &Self) -> Option<Self> {
        Some(Input::Focus(focused))
    }

    fn from_focused(focused: bool, _old_event: &Self) -> (event: Option<Self>) {
        Some(Input::Focus(focused))
    }

    fn focus<U, F>(&self, mut f: F) -> (res: Option<U>) where
        F: FnMut(bool) -> U,
    {
        match self {
            Input::Focus(focused) => Some(f(*focused)),
            _ => None,
        }
    }

    proof fn lemma_focus_round_trip(focused: bool, old_event: &Self) {
    }
}

impl<I: FocusEvent> FocusEvent for Event<I> {
    open spec fn spec_focus_args(&self) -> Option<bool> {
        match self {
            Event::Input(input) => input.spec_focus_args(),
            _ => None,
        }
    }

    open spec fn spec_from_focused(focused: bool, old_event: &Self) -> Option<Self> {
        match old_event {
            Event::Input(old_input) => match I::spec_from_focused(focused, old_input) {
                Some(input) => Some(Event::Input(input)),
                None => None,
            },
            _ => None,
        }
    }

    fn from_focused(focused: bool, old_event: &Self) -> (event: Option<Self>) {
        match old_event {
            Event::Input(old_input) => {
                match <I as FocusEvent>::from_focused(focused, old_input) {
                    Some(x) => Some(Event::Input(x)),
                    None => None,
                }
            },
            _ => None,
        }
    }

    fn focus<U, F>(&self, f: F) -> (res: Option<U>) where
        F: FnMut(bool) -> U,
    {
        match self {
            Event::Input(x) => x.focus(f),
            _ => None,
        }
    }

    proof fn lemma_focus_round_trip(focused: bool, old_event: &Self) {
        if let Event::Input(old_input) = old_event {
            I::lemma_focus_round_trip(focused, old_input);
        }
    }
}

} // verus!
