//! Button release events.

use vstd::prelude::*;
use crate::{Button, Event, Input};

verus! {

/// The release of a button
pub trait ReleaseEvent: Sized {
    /// The button that was released, if this is a release event.
    spec fn spec_release_args(&self) -> Option<Button>;

    /// The event that `from_button` builds.
    spec fn spec_from_released(button: Button, old_event: &Self) -> Option<Self>;

    /// Creates a release event.
    fn from_button(button: Button, old_event: &Self) -> (event: Option<Self>)
        ensures
            event == Self::spec_from_released(button, old_event),
    ;

    /// Calls closure if this is a release event.
    fn release<U, F>(&self, f: F) -> (res: Option<U>) where
        F: FnMut(Button) -> U,
        requires
            self.spec_release_args() matches Some(button) ==> f.requires((button,)),
        ensures
            match self.spec_release_args() {
                Some(button) => res matches Some(u) && f.ensures((button,), u),
                None => res is None,
            },
    ;

    /// Returns release arguments.
    fn release_args(&self) -> (args: Option<Button>)
        ensures
            args == self.spec_release_args(),
    {
        self.release(
            |button: Button| -> (out: Button)
                ensures out == button
                { button },
        )
    }

    /// An event built from `button` is a release event, and carries `button`.
    proof fn lemma_release_round_trip(button: Button, old_event: &Self)
        ensures
            Self::spec_from_released(button, old_event) matches Some(event)
                ==> event.spec_release_args() == Some(button),
    ;
}

impl ReleaseEvent for Input {
    open spec fn spec_release_args(&self) -> Option<Button> {
        match self {
            Input::Release(button) => Some(*button),
            _ => None,
        }
    }

    open spec fn spec_from_released(button: Button, old_event: &Self) -> Option<Self> {
        Some(Input::Release(button))
    }

    fn from_button(button: Button, _old_event: &Self) -> (event: Option<Self>) {
        Some(Input::Release(button))
    }

    fn release<U, F>(&self, mut f: F) -> (res: Option<U>) where
        F: FnMut(Button) -> U,
    {
        match self {
            Input::Release(button) => Some(f(*button)),
            _ => None,
        }
    }

    proof fn lemma_release_round_trip(button: Button, old_event: &Self) {
    }
}

impl<I: ReleaseEvent> ReleaseEvent for Event<I> {
    open spec fn spec_release_args(&self) -> Option<Button> {
        match self {
            Event::Input(input) => input.spec_release_args(),
            _ => None,
        }
    }

    open spec fn spec_from_released(button: Button, old_event: &Self) -> Option<Self> {
        match old_event {
            Event::Input(old_input) => match I::spec_from_released(button, old_input) {
                Some(input) => Some(Event::Input(input)),
                None => None,
            },
            _ => None,
        }
    }

    fn from_button(button: Button, old_event: &Self) -> (event: Option<Self>) {
        match old_event {
            Event::Input(old_input) => {
                match <I as ReleaseEvent>::from_button(button, old_input) {
                    Some(x) => Some(Event::Input(x)),
                    None => None,
                }
            },
            _ => None,
        }
    }

    fn release<U, F>(&self, f: F) -> (res: Option<U>) where
        F: FnMut(Button) -> U,
    {
        match self {
            Event::Input(x) => x.release(f),
            _ => None,
        }
    }

    proof fn lemma_release_round_trip(button: Button, old_event: &Self) {
        if let Event::Input(old_input) = old_event {
            I::lemma_release_round_trip(button, old_input);
        }
    }
}

} // verus!
