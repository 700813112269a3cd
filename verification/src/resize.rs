//! Window resize events.

use vstd::prelude::*;
use crate::{Event, Input};

verus! {

/// When the window is resized
pub trait ResizeEvent: Sized {
    /// The new width and height of the window, if this is a resize event.
    spec fn spec_resize_args(&self) -> Option<(u32, u32)>;

    /// The event that `from_width_height` builds.
    spec fn spec_from_width_height(w: u32, h: u32, old_event: &Self) -> Option<Self>;

    /// Creates a resize event.
    fn from_width_height(w: u32, h: u32, old_event: &Self) -> (event: Option<Self>)
        ensures
            event == Self::spec_from_width_height(w, h, old_event),
    ;

    /// Calls closure if this is a resize event.
    fn resize<U, F>(&self, f: F) -> (res: Option<U>) where
        F: FnMut(u32, u32) -> U,
        requires
            self.spec_resize_args() matches Some((w, h)) ==> f.requires((w, h)),
        ensures
            match self.spec_resize_args() {
                Some((w, h)) => res matches Some(u) && f.ensures((w, h), u),
                None => res is None,
            },
    ;

    /// Returns resize arguments.
    fn resize_args(&self) -> (args: Option<(u32, u32)>)
        ensures
            args == self.spec_resize_args(),
    {
        self.resize(
            |w: u32, h: u32| -> (out: (u32, u32))
                ensures out == (w, h)
                { (w, h) },
        )
    }

    /// An event built from `w` and `h` is a resize event, and carries them.
    proof fn lemma_resize_round_trip(w: u32, h: u32, old_event: &Self)
        ensures
            Self::spec_from_width_height(w, h, old_event) matches Some(event)
                ==> event.spec_resize_args() == Some((w, h)),
    ;
}

impl ResizeEvent for Input {
    open spec fn spec_resize_args(&self) -> Option<(u32, u32)> {
        match self {
            Input::Resize(w, h) => Some((*w, *h)),
            _ => None,
        }
    }

    open spec fn spec_from_width_height(w: u32, h: u32, old_event: &Self) -> Option<Self> {
        Some(Input::Resize(w, h))
    }

    fn from_width_height(w: u32, h: u32, _old_event: &Self) -> (event: Option<Self>) {
        Some(Input::Resize(w, h))
    }

    fn resize<U, F>(&self, mut f: F) -> (res: Option<U>) where
        F: FnMut(u32, u32) -> U,
    {
        match self {
            Input::Resize(w, h) => Some(f(*w, *h)),
            _ => None,
        }
    }

    proof fn lemma_resize_round_trip(w: u32, h: u32, old_event: &Self) {
    }
}

impl<I: ResizeEvent> ResizeEvent for Event<I> {
    open spec fn spec_resize_args(&self) -> Option<(u32, u32)> {
        match self {
            Event::Input(input) => input.spec_resize_args(),
            _ => None,
        }
    }

    open spec fn spec_from_width_height(w: u32, h: u32, old_event: &Self) -> Option<Self> {
        match old_event {
            Event::Input(old_input) => match I::spec_from_width_height(w, h, old_input) {
                Some(input) => Some(Event::Input(input)),
                None => None,
            },
            _ => None,
        }
    }

    fn from_width_height(w: u32, h: u32, old_event: &Self) -> (event: Option<Self>) {
        match old_event {
            Event::Input(old_input) => {
                match <I as ResizeEvent>::from_width_height(w, h, old_input) {
                    Some(x) => Some(Event::Input(x)),
                    None => None,
                }
            },
            _ => None,
        }
    }

    fn resize<U, F>(&self, f: F) -> (res: Option<U>) where
        F: FnMut(u32, u32) -> U,
    {
        match self {
            Event::Input(x) => x.resize(f),
            _ => None,
        }
    }

    proof fn lemma_resize_round_trip(w: u32, h: u32, old_event: &Self) {
        if let Event::Input(old_input) = old_event {
            I::lemma_resize_round_trip(w, h, old_input);
        }
    }
}

} // verus!
