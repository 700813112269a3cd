//! Button press events.

use vstd::prelude::*;
use crate::{Button, Event, Input};

verus! {

/// The press of a button
pub trait PressEvent: Sized {
    /// The button that was pressed, if this is a press event.
    spec fn spec_press_args(&self) -> Option<Button>;

    /// The event that `from_button` builds.
    spec fn spec_from_pressed(button: Button, old_event: &Self) -> Option<Self>;

    /// Creates a press event.
    fn from_button(button: Button, old_event: &Self) -> (event: Option<Self>)
        ensures
            event == Self::spec_from_pressed(button, old_event),
    ;

    /// Calls closure if this is a press event.
    fn press<U, F>(&self, f: F) -> (res: Option<U>) where
        F: FnMut(Button) -> U,
        requires
            self.spec_press_args() matches Some(button) ==> f.requires((button,)),
        ensures
            match self.spec_press_args() {
                Some(button) => res matches Some(u) && f.ensures((button,), u),
                None => res is None,
            },
    ;

    /// Returns press arguments.
    fn press_args(&self) -> (args: Option<Button>)
        ensures
            args == self.spec_press_args(),
    {
        self.press(
            |button: Button| -> (out: Button)
                ensures out == button
                { button },
        )
    }

    /// An event built from `button` is a press event, and carries `button`.
    proof fn lemma_press_round_trip(button: Button, old_event: &Self)
        ensures
            Self::spec_from_pressed(button, old_event) matches Some(event)
                ==> event.spec_press_args() == Some(button),
    ;
}

impl PressEvent for Input {
    open spec fn spec_press_args(&self) -> Option<Button> {
        match self {
            Input::Press(button) => Some(*button),
            _ => None,
        }
    }

    open spec fn spec_from_pressed(button: Button, old_event: &Self) -> Option<Self> {
        Some(Input::Press(button))
    }

    fn from_button(button: Button, _old_event: &Self) -> (event: Option<Self>) {
        Some(Input::Press(button))
    }

    fn press<U, F>(&self, mut f: F) -> (res: Option<U>) where
        F: FnMut(Button) -> U,
    {
        match self {
            Input::Press(button) => Some(f(*button)),
            _ => None,
        }
    }

    proof fn lemma_press_round_trip(button: Button, old_event: &Self) {
    }
}

impl<I: PressEvent> PressEvent for Event<I> {
    open spec fn spec_press_args(&self) -> Option<Button> {
        match self {
            Event::Input(input) => input.spec_press_args(),
            _ => None,
        }
    }

    open spec fn spec_from_pressed(button: Button, old_event: &Self) -> Option<Self> {
        match old_event {
            Event::Input(old_input) => match I::spec_from_pressed(button, old_input) {
                Some(input) => Some(Event::Input(input)),
                None => None,
            },
            _ => None,
        }
    }

    fn from_button(button: Button, old_event: &Self) -> (event: Option<Self>) {
        match old_event {
            Event::Input(old_input) => {
                match <I as PressEvent>::from_button(button, old_input) {
                    Some(x) => Some(Event::Input(x)),
                    None => None,
                }
            },
            _ => None,
        }
    }

    fn press<U, F>(&self, f: F) -> (res: Option<U>) where
        F: FnMut(Button) -> U,
    {
        match self {
            Event::Input(x) => x.press(f),
            _ => None,
        }
    }

    proof fn lemma_press_round_trip(button: Button, old_event: &Self) {
        if let Event::Input(old_input) = old_event {
            I::lemma_press_round_trip(button, old_input);
        }
    }
}

} // verus!
